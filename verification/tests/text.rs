use core::ops::Range;

use ui_events::text::{
    CompositionState, TextCursorAnchor, TextCursorOffset, TextCursorPlacement,
    TextDeleteSurroundingEvent, TextInputAction, TextInputEvent, TextInsertEvent, TextRange,
    TextRangeEncoding, TextTargetRange,
};

#[derive(Debug, Default, PartialEq, Eq)]
struct EditorState {
    text: String,
    selection: Option<TextRange>,
    composing_range: Option<TextRange>,
}

impl EditorState {
    fn apply(&mut self, event: TextInputEvent) {
        match event {
            TextInputEvent::Insert(insert) => {
                let replace = insert
                    .replacement_range
                    .and_then(|range| range.to_range_in(&self.text))
                    .or_else(|| self.selection_range());
                let insert_len = u32::try_from(insert.text.len()).unwrap();
                if let Some(range) = replace {
                    let start = u32::try_from(range.start).unwrap();
                    self.text.replace_range(range.clone(), &insert.text);
                    let end = start + insert_len;
                    self.selection = Some(TextRange::new(end, end));
                } else {
                    self.text.push_str(&insert.text);
                    let end = u32::try_from(self.text.len()).unwrap();
                    self.selection = Some(TextRange::new(end, end));
                }
                self.composing_range = None;
            }
            TextInputEvent::DeleteSurrounding(delete) => {
                let selection = self.selection.expect("selection must be set");
                assert_eq!(delete.encoding, TextRangeEncoding::Utf8Bytes);
                let start = selection.start.saturating_sub(delete.before_length);
                let end = selection.end.saturating_add(delete.after_length);
                let range = TextRange::new(start, end);
                let slice = TextTargetRange::utf8_bytes(range.start, range.end)
                    .to_range_in(&self.text)
                    .unwrap();
                self.text.replace_range(slice, "");
                self.selection = Some(TextRange::new(start, start));
                self.composing_range = None;
            }
            TextInputEvent::SetSelection(range) => {
                self.selection = Some(range.to_utf8_range_in(&self.text).unwrap());
            }
            TextInputEvent::SetComposingRegion(range) => {
                self.composing_range = Some(range.to_utf8_range_in(&self.text).unwrap());
            }
            TextInputEvent::CompositionUpdate(state) => {
                let replace = state
                    .replacement_range
                    .and_then(|range| range.to_range_in(&self.text))
                    .or_else(|| self.composing_range_range())
                    .or_else(|| self.selection_range());
                if let Some(range) = replace {
                    let start = u32::try_from(range.start).unwrap();
                    self.text.replace_range(range.clone(), &state.text);
                    let end = start + u32::try_from(state.text.len()).unwrap();
                    self.composing_range = Some(TextRange::new(start, end));
                    self.selection = state.selection.map(|selection| {
                        TextRange::new(start + selection.start, start + selection.end)
                    });
                }
            }
            TextInputEvent::CompositionEnd => {
                self.composing_range = None;
            }
            TextInputEvent::DeleteBackward
            | TextInputEvent::DeleteForward
            | TextInputEvent::Action(_) => {}
            _ => {}
        }
    }

    fn selection_range(&self) -> Option<Range<usize>> {
        let selection = self.selection?;
        TextTargetRange::utf8_bytes(selection.start, selection.end).to_range_in(&self.text)
    }

    fn composing_range_range(&self) -> Option<Range<usize>> {
        let range = self.composing_range?;
        TextTargetRange::utf8_bytes(range.start, range.end).to_range_in(&self.text)
    }
}

#[test]
fn insert_text_can_hold_multiple_scalars() {
    assert_eq!(
        TextInputEvent::Insert(
            TextInsertEvent::new("é🙂")
                .with_replacement_range(TextTargetRange::utf16_code_units(4, 7))
        ),
        TextInputEvent::Insert(
            TextInsertEvent::new("é🙂")
                .with_replacement_range(TextTargetRange::utf16_code_units(4, 7))
        )
    );
}

#[test]
fn composition_state_preserves_text_selection_and_range() {
    let state = CompositionState::new("ni")
        .with_selection(TextRange::new(0, 2))
        .with_replacement_range(TextTargetRange::utf16_code_units(8, 10));
    assert_eq!(state.text, "ni");
    assert_eq!(state.selection, Some(TextRange::new(0, 2)));
    assert_eq!(
        state.replacement_range,
        Some(TextTargetRange::utf16_code_units(8, 10))
    );
    assert_eq!(state.cursor_placement, TextCursorPlacement::Unspecified);
}

#[test]
fn composition_state_checked_selection_rejects_invalid_ranges() {
    assert_eq!(
        CompositionState::new("a🙂b")
            .try_with_selection(TextRange::new(1, 5))
            .map(|state| state.selection),
        Some(Some(TextRange::new(1, 5)))
    );
    assert_eq!(
        CompositionState::new("a🙂b")
            .try_with_selection(TextRange::new(2, 5))
            .map(|state| state.selection),
        None
    );
    assert_eq!(
        CompositionState::new("abc")
            .try_with_selection(TextRange::new(3, 1))
            .map(|state| state.selection),
        None
    );
}

#[test]
fn target_ranges_can_use_code_point_indices() {
    assert_eq!(
        TextTargetRange::unicode_code_points(3, 5),
        TextTargetRange {
            range: TextRange::new(3, 5),
            encoding: TextRangeEncoding::UnicodeCodePoints,
        }
    );
}

#[test]
fn utf8_target_range_validates_char_boundaries() {
    let text = "a🙂b";
    assert_eq!(
        TextTargetRange::utf8_bytes(1, 5).to_utf8_range_in(text),
        Some(TextRange::new(1, 5))
    );
    assert_eq!(
        TextTargetRange::utf8_bytes(2, 5).to_utf8_range_in(text),
        None
    );
}

#[test]
fn utf16_target_range_converts_surrogate_pairs() {
    let text = "a🙂b";
    assert_eq!(
        TextTargetRange::utf16_code_units(1, 3).to_utf8_range_in(text),
        Some(TextRange::new(1, 5))
    );
    assert_eq!(
        TextTargetRange::utf16_code_units(2, 3).to_utf8_range_in(text),
        None
    );
}

#[test]
fn code_point_target_range_counts_scalars_not_graphemes() {
    let text = "e\u{301}🙂z";
    assert_eq!(
        TextTargetRange::unicode_code_points(0, 2).to_utf8_range_in(text),
        Some(TextRange::new(0, 3))
    );
    assert_eq!(
        TextTargetRange::unicode_code_points(2, 3).to_utf8_range_in(text),
        Some(TextRange::new(3, 7))
    );
}

#[test]
fn target_range_rejects_reversed_and_out_of_bounds_offsets() {
    let text = "abc";
    assert_eq!(
        TextTargetRange::utf8_bytes(3, 1).to_utf8_range_in(text),
        None
    );
    assert_eq!(
        TextTargetRange::utf16_code_units(0, 4).to_utf8_range_in(text),
        None
    );
    assert_eq!(
        TextTargetRange::unicode_code_points(0, 4).to_utf8_range_in(text),
        None
    );
}

#[test]
fn target_range_can_be_used_as_rust_slice_range() {
    let text = "a🙂b";
    assert_eq!(
        TextTargetRange::utf16_code_units(1, 3).to_range_in(text),
        Some(Range { start: 1, end: 5 })
    );
}

#[test]
fn delete_surrounding_event_preserves_lengths_and_encoding() {
    assert_eq!(
        TextDeleteSurroundingEvent::unicode_code_points(2, 1),
        TextDeleteSurroundingEvent {
            before_length: 2,
            after_length: 1,
            encoding: TextRangeEncoding::UnicodeCodePoints,
        }
    );
}

#[test]
fn text_input_event_covers_android_specific_operations() {
    assert_eq!(
        TextInputEvent::DeleteSurrounding(TextDeleteSurroundingEvent::utf16_code_units(3, 2)),
        TextInputEvent::DeleteSurrounding(TextDeleteSurroundingEvent {
            before_length: 3,
            after_length: 2,
            encoding: TextRangeEncoding::Utf16CodeUnits,
        })
    );
    assert_eq!(
        TextInputEvent::SetSelection(TextTargetRange::unicode_code_points(4, 6)),
        TextInputEvent::SetSelection(TextTargetRange {
            range: TextRange::new(4, 6),
            encoding: TextRangeEncoding::UnicodeCodePoints,
        })
    );
    assert_eq!(
        TextInputEvent::SetComposingRegion(TextTargetRange::utf16_code_units(8, 10)),
        TextInputEvent::SetComposingRegion(TextTargetRange::utf16_code_units(8, 10))
    );
    assert_eq!(
        TextInputEvent::Action(TextInputAction::Search),
        TextInputEvent::Action(TextInputAction::Search)
    );
}

#[test]
fn text_input_event_convenience_constructors_match_manual_forms() {
    assert_eq!(
        TextInputEvent::insert("é"),
        TextInputEvent::Insert(TextInsertEvent::new("é"))
    );
    assert_eq!(
        TextInputEvent::replace("x", TextTargetRange::utf16_code_units(4, 5)),
        TextInputEvent::Insert(
            TextInsertEvent::new("x")
                .with_replacement_range(TextTargetRange::utf16_code_units(4, 5))
        )
    );
    assert_eq!(
        TextInputEvent::composition("ni"),
        TextInputEvent::CompositionUpdate(CompositionState::new("ni"))
    );
    assert_eq!(
        TextInputEvent::delete_surrounding_utf8(2, 1),
        TextInputEvent::DeleteSurrounding(TextDeleteSurroundingEvent::utf8_bytes(2, 1))
    );
    assert_eq!(
        TextInputEvent::delete_surrounding_utf16_code_units(2, 1),
        TextInputEvent::DeleteSurrounding(TextDeleteSurroundingEvent::utf16_code_units(2, 1))
    );
    assert_eq!(
        TextInputEvent::delete_surrounding_unicode_code_points(2, 1),
        TextInputEvent::DeleteSurrounding(TextDeleteSurroundingEvent::unicode_code_points(
            2, 1
        ))
    );
    assert_eq!(
        TextInputEvent::set_selection(TextTargetRange::utf8_bytes(3, 5)),
        TextInputEvent::SetSelection(TextTargetRange::utf8_bytes(3, 5))
    );
    assert_eq!(
        TextInputEvent::set_composing_region(TextTargetRange::utf16_code_units(8, 10)),
        TextInputEvent::SetComposingRegion(TextTargetRange::utf16_code_units(8, 10))
    );
    assert_eq!(
        TextInputEvent::action(TextInputAction::Search),
        TextInputEvent::Action(TextInputAction::Search)
    );
}

#[test]
fn insert_and_composition_events_preserve_cursor_placement() {
    let placement = TextCursorPlacement::Offset(TextCursorOffset::utf16_code_units(
        1,
        TextCursorAnchor::InsertedTextEnd,
    ));
    let insert = TextInsertEvent::new("é").with_cursor_placement(placement);
    assert_eq!(
        (insert.text, insert.replacement_range, insert.cursor_placement),
        (String::from("é"), None, placement)
    );
    let state = CompositionState::new("に").with_cursor_placement(placement);
    assert_eq!(
        (
            state.text,
            state.selection,
            state.replacement_range,
            state.cursor_placement
        ),
        (String::from("に"), None, None, placement)
    );
}

#[test]
fn editor_state_example_applies_replacement_selection_and_composition() {
    let mut state = EditorState {
        text: "hello world".into(),
        selection: Some(TextRange::new(6, 11)),
        composing_range: None,
    };

    state.apply(TextInputEvent::Insert(
        TextInsertEvent::new("linebender")
            .with_replacement_range(TextTargetRange::utf8_bytes(6, 11)),
    ));
    assert_eq!(state.text, "hello linebender");
    assert_eq!(state.selection, Some(TextRange::new(16, 16)));

    state.apply(TextInputEvent::SetSelection(TextTargetRange::utf8_bytes(
        16, 16,
    )));
    state.apply(TextInputEvent::DeleteSurrounding(
        TextDeleteSurroundingEvent::utf8_bytes(10, 0),
    ));
    assert_eq!(state.text, "hello ");
    assert_eq!(state.selection, Some(TextRange::new(6, 6)));

    state.apply(TextInputEvent::SetComposingRegion(
        TextTargetRange::utf8_bytes(6, 6),
    ));
    state.apply(TextInputEvent::CompositionUpdate(
        CompositionState::new("に").with_replacement_range(TextTargetRange::utf8_bytes(6, 6)),
    ));
    assert_eq!(state.text, "hello に");
    assert_eq!(state.composing_range, Some(TextRange::new(6, 9)));

    state.apply(TextInputEvent::CompositionEnd);
    assert_eq!(state.composing_range, None);
}
