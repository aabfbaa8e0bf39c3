//! Shared text-input mapping helpers for Apple adapters.
//!
//! AppKit and UIKit both expose document ranges as UTF-16 location/length
//! pairs. These helpers convert those raw values into the transport-agnostic
//! [`crate::text`] event model.
use vstd::prelude::*;

use crate::text::{
    is_ascii_text, is_valid_utf8_selection, lemma_ascii_offset, lemma_utf8_range_roundtrip,
    utf8_offset_for, utf8_range_for, CompositionState, CompositionStateView,
    TextCursorPlacement, TextInputEvent, TextInputEventView, TextInsertEvent, TextInsertEventView,
    TextRange, TextRangeEncoding, TextTargetRange,
};

verus! {

/// The view of an optional event.
pub open spec fn opt_event_view(e: Option<TextInputEvent>) -> Option<TextInputEventView> {
    match e {
        Some(e) => Some(e@),
        None => None,
    }
}

/// The UTF-16 range starting at `location` and spanning `length` units,
/// when its end fits in a `u32`.
pub open spec fn utf16_range_for(location: u32, length: u32) -> Option<TextTargetRange> {
    if location + length <= u32::MAX {
        Some(
            TextTargetRange {
                range: TextRange { start: location, end: (location + length) as u32 },
                encoding: TextRangeEncoding::Utf16CodeUnits,
            },
        )
    } else {
        None
    }
}

/// Convert an Apple UTF-16 `location`/`length` pair into a target range.
///
/// Returns `None` when `location + length` overflows `u32`.
pub fn utf16_range_from_location_length(location: u32, length: u32) -> (r: Option<
    TextTargetRange,
>)
    ensures
        r == utf16_range_for(location, length),
{
    match location.checked_add(length) {
        Some(end) => Some(TextTargetRange::utf16_code_units(location, end)),
        None => None,
    }
}

/// Build a committed text insertion event.
pub fn text_insert_event(text: &str) -> (r: TextInputEvent)
    ensures
        r@ == TextInputEventView::Insert(
            TextInsertEventView {
                text: text@,
                replacement_range: None,
                cursor_placement: TextCursorPlacement::Unspecified,
            },
        ),
{
    TextInputEvent::Insert(TextInsertEvent::new(text))
}

/// Build a committed text insertion event with an Apple UTF-16 replacement range.
///
/// This is suitable for AppKit/UIKit callbacks that provide a document range
/// alongside committed text. Returns `None` when `location + length`
/// overflows `u32`.
pub fn text_insert_event_with_utf16_replacement(text: &str, location: u32, length: u32) -> (r:
    Option<TextInputEvent>)
    ensures
        opt_event_view(r) == match utf16_range_for(location, length) {
            Some(range) => Some(
                TextInputEventView::Insert(
                    TextInsertEventView {
                        text: text@,
                        replacement_range: Some(range),
                        cursor_placement: TextCursorPlacement::Unspecified,
                    },
                ),
            ),
            None => None,
        },
{
    let replacement_range = match utf16_range_from_location_length(location, length) {
        Some(r) => r,
        None => return None,
    };
    Some(TextInputEvent::Insert(TextInsertEvent::new(text).with_replacement_range(replacement_range)))
}

/// The selection, as UTF-8 byte offsets within `text`, that an optional
/// UTF-16 `location`/`length` pair describes: `Some(None)` when both are
/// absent, `Some(Some(range))` when both are present and convert, `None`
/// otherwise.
pub open spec fn utf16_selection_for(
    text: Seq<char>,
    location: Option<u32>,
    length: Option<u32>,
) -> Option<Option<TextRange>> {
    match (location, length) {
        (Some(l), Some(n)) => match utf16_range_for(l, n) {
            Some(range) => match utf8_range_for(range, text) {
                Some(sel) => Some(Some(sel)),
                None => None,
            },
            None => None,
        },
        (None, None) => Some(None),
        _ => None,
    }
}

/// A selection converted from UTF-16 offsets is always a valid UTF-8
/// selection of the composing text, so attaching it never fails.
pub proof fn lemma_utf16_selection_valid(
    text: Seq<char>,
    location: Option<u32>,
    length: Option<u32>,
)
    requires
        utf16_selection_for(text, location, length) matches Some(Some(_)),
    ensures
        is_valid_utf8_selection(text, utf16_selection_for(text, location, length)->0->0),
{
    let range = utf16_range_for(location->0, length->0)->0;
    lemma_utf8_range_roundtrip(range, text);
}

/// A selection whose UTF-16 offsets both convert becomes the UTF-8 range of
/// those offsets; the selection is absent exactly when neither its location
/// nor its length is given.
pub proof fn lemma_utf16_selection_converts(
    text: Seq<char>,
    location: Option<u32>,
    length: Option<u32>,
)
    ensures
        location is Some && length is Some ==> match utf16_range_for(location->0, length->0) {
            Some(range) => match utf8_range_for(range, text) {
                Some(sel) => utf16_selection_for(text, location, length) == Some(Some(sel)),
                None => true,
            },
            None => true,
        },
        utf16_selection_for(text, location, length) == Some(None::<TextRange>) <==> (location is None
            && length is None),
{
}

/// On ASCII text a UTF-16 selection that lies within the text is the same
/// range of bytes: `location..location + length`.
pub proof fn lemma_ascii_utf16_selection(text: Seq<char>, location: u32, length: u32)
    requires
        is_ascii_text(text),
        location + length <= text.len(),
        location + length <= u32::MAX,
    ensures
        utf16_selection_for(text, Some(location), Some(length)) == Some(
            Some(TextRange { start: location, end: (location + length) as u32 }),
        ),
{
    lemma_ascii_offset(text, TextRangeEncoding::Utf16CodeUnits, location);
    lemma_ascii_offset(text, TextRangeEncoding::Utf16CodeUnits, (location + length) as u32);
    let range = utf16_range_for(location, length)->0;
    assert(range.range.start == location);
    assert(range.range.end == (location + length) as u32);
    assert(utf8_range_for(range, text) == Some(
        TextRange { start: location, end: (location + length) as u32 },
    ));
}

/// A zero-length selection at a UTF-16 boundary of the text is the collapsed
/// range (a caret) at the matching UTF-8 offset, and a zero-length selection
/// that converts at all is collapsed.
pub proof fn lemma_caret_selection(text: Seq<char>, location: u32)
    ensures
        utf8_offset_for(text, TextRangeEncoding::Utf16CodeUnits, location) matches Some(p)
            ==> utf16_selection_for(text, Some(location), Some(0)) == Some(
            Some(TextRange { start: p, end: p }),
        ),
        utf16_selection_for(text, Some(location), Some(0)) matches Some(Some(sel)) ==> sel.start
            == sel.end,
{
}

/// The replacement range that an optional UTF-16 `location`/`length` pair
/// describes: `Some(None)` when both are absent, `Some(Some(range))` when both
/// are present and the end fits in a `u32`, `None` otherwise.
pub open spec fn utf16_replacement_for(location: Option<u32>, length: Option<u32>) -> Option<
    Option<TextTargetRange>,
> {
    match (location, length) {
        (Some(l), Some(n)) => match utf16_range_for(l, n) {
            Some(range) => Some(Some(range)),
            None => None,
        },
        (None, None) => Some(None),
        _ => None,
    }
}

/// Build a composition update from composing text and an optional UTF-16
/// selection within that composing text.
///
/// Apple APIs commonly report selected ranges in UTF-16 code units. The core
/// [`CompositionState`] stores selection inside the composing string as UTF-8
/// byte offsets, so this helper validates and converts the selection against
/// `text`.
///
/// `selection_location` and `selection_length` must either both be provided or
/// both be absent. A half-specified selection returns `None`.
pub fn composition_update_event_with_utf16_selection(
    text: &str,
    selection_location: Option<u32>,
    selection_length: Option<u32>,
) -> (r: Option<TextInputEvent>)
    ensures
        opt_event_view(r) == match utf16_selection_for(text@, selection_location, selection_length) {
            Some(selection) => Some(
                TextInputEventView::CompositionUpdate(
                    CompositionStateView {
                        text: text@,
                        selection,
                        replacement_range: None,
                        cursor_placement: TextCursorPlacement::Unspecified,
                    },
                ),
            ),
            None => None,
        },
        selection_location is Some && selection_length is Some ==> match utf16_range_for(
            selection_location->0,
            selection_length->0,
        ) {
            Some(range) => match utf8_range_for(range, text@) {
                Some(sel) => opt_event_view(r) == Some(
                    TextInputEventView::CompositionUpdate(
                        CompositionStateView {
                            text: text@,
                            selection: Some(sel),
                            replacement_range: None,
                            cursor_placement: TextCursorPlacement::Unspecified,
                        },
                    ),
                ),
                None => r is None,
            },
            None => r is None,
        },
        opt_event_view(r) matches Some(TextInputEventView::CompositionUpdate(v)) && v.selection is None
            ==> selection_location is None && selection_length is None,
{
    let mut state = CompositionState::new(text);
    match (selection_location, selection_length) {
        (Some(location), Some(length)) => {
            let range = match utf16_range_from_location_length(location, length) {
                Some(r) => r,
                None => return None,
            };
            let selection = match range.to_utf8_range_in(state.text.as_str()) {
                Some(s) => s,
                None => return None,
            };
            proof {
                lemma_utf8_range_roundtrip(range, text@);
            }
            state = match state.try_with_selection(selection) {
                Some(s) => s,
                None => return None,
            };
        },
        (None, None) => {},
        _ => return None,
    }
    Some(TextInputEvent::CompositionUpdate(state))
}

/// Build a composition update with a UTF-16 document replacement range.
///
/// `selection_location`/`selection_length`, when provided, are interpreted
/// within the composing text. `replacement_location`/`replacement_length` are
/// interpreted in the host document. Each pair must be either fully present
/// or fully absent.
pub fn composition_update_event_with_utf16_ranges(
    text: &str,
    selection_location: Option<u32>,
    selection_length: Option<u32>,
    replacement_location: Option<u32>,
    replacement_length: Option<u32>,
) -> (r: Option<TextInputEvent>)
    ensures
        opt_event_view(r) == match (
            utf16_selection_for(text@, selection_location, selection_length),
            utf16_replacement_for(replacement_location, replacement_length),
        ) {
            (Some(selection), Some(replacement_range)) => Some(
                TextInputEventView::CompositionUpdate(
                    CompositionStateView {
                        text: text@,
                        selection,
                        replacement_range,
                        cursor_placement: TextCursorPlacement::Unspecified,
                    },
                ),
            ),
            _ => None,
        },
{
    let mut state = match composition_update_event_with_utf16_selection(
        text,
        selection_location,
        selection_length,
    ) {
        Some(TextInputEvent::CompositionUpdate(state)) => state,
        _ => return None,
    };
    match (replacement_location, replacement_length) {
        (Some(location), Some(length)) => {
            let range = match utf16_range_from_location_length(location, length) {
                Some(r) => r,
                None => return None,
            };
            state = state.with_replacement_range(range);
        },
        (None, None) => {},
        _ => return None,
    }
    Some(TextInputEvent::CompositionUpdate(state))
}

/// Build a composition-end event.
pub fn composition_end_event() -> (r: TextInputEvent)
    ensures
        r == TextInputEvent::CompositionEnd,
{
    TextInputEvent::CompositionEnd
}

/// Build a backward-delete text event.
pub fn delete_backward_event() -> (r: TextInputEvent)
    ensures
        r == TextInputEvent::DeleteBackward,
{
    TextInputEvent::DeleteBackward
}

} // verus!
