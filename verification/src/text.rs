//! Text-input event types and document-range conversion.
//!
//! These events are intentionally separate from keyboard events. Keyboard
//! events represent key transitions and shortcuts; text events represent
//! editing intent such as committed text, deletion, and composition updates.
//!
//! - Text events do not own the text buffer or selection state.
//! - Composition updates are snapshots of the current composing text.
//! - Selection within a composition string uses UTF-8 byte offsets so it can
//!   be sliced directly from Rust strings.
//! - Replacement ranges carry an explicit offset encoding because platforms do
//!   not agree on document indexing units.
//!
//! # Model
//!
//! A text is its sequence of Unicode scalar values (`str@`). An offset in an
//! encoding is a *boundary* of a text when some prefix of the text measures
//! exactly that many units in the encoding; converting a boundary to UTF-8
//! gives the byte length of that same prefix.
use vstd::prelude::*;
use vstd::std_specs::iter::IteratorSpec;
use vstd::utf8::{
    char_is_scalar, encode_scalar, encode_utf8, encode_utf8_first_scalar, encode_utf8_valid_utf8,
    is_char_boundary, pop_first_scalar,
};

verus! {

broadcast use vstd::string::group_string_axioms;

/// A half-open text range.
#[derive(Clone, Copy, Debug, PartialEq, Eq, Hash, Structural)]
pub struct TextRange {
    /// Inclusive start offset.
    pub start: u32,
    /// Exclusive end offset.
    pub end: u32,
}

impl TextRange {
    /// Create a range from explicit offsets.
    pub fn new(start: u32, end: u32) -> (r: Self)
        ensures
            r == (TextRange { start, end }),
    {
        TextRange { start, end }
    }
}

/// The offset encoding used by a platform-provided document range.
#[derive(Clone, Copy, Debug, PartialEq, Eq, Hash, Structural)]
pub enum TextRangeEncoding {
    /// Offsets are UTF-8 byte indices.
    Utf8Bytes,
    /// Offsets are UTF-16 code-unit indices.
    Utf16CodeUnits,
    /// Offsets are Unicode code-point indices.
    UnicodeCodePoints,
}

/// A platform-provided document range and its offset encoding.
///
/// Platform provenance:
/// - Apple text APIs commonly use UTF-16 code-unit indices.
/// - Android text APIs may use either UTF-16 code units or Unicode code points.
/// - Wayland text-input uses UTF-8 byte indices.
#[derive(Clone, Copy, Debug, PartialEq, Eq, Hash, Structural)]
pub struct TextTargetRange {
    /// The underlying range offsets.
    pub range: TextRange,
    /// The encoding used by the platform for those offsets.
    pub encoding: TextRangeEncoding,
}

/// Number of UTF-8 bytes that encode `c`.
pub open spec fn utf8_width(c: char) -> nat {
    if (c as u32) < 0x80 {
        1
    } else if (c as u32) < 0x800 {
        2
    } else if (c as u32) < 0x10000 {
        3
    } else {
        4
    }
}

/// Number of UTF-16 code units that encode `c`.
pub open spec fn utf16_width(c: char) -> nat {
    if (c as u32) < 0x10000 {
        1
    } else {
        2
    }
}

/// Number of units that encode `c` in `encoding`.
pub open spec fn unit_width(c: char, encoding: TextRangeEncoding) -> nat {
    match encoding {
        TextRangeEncoding::Utf8Bytes => utf8_width(c),
        TextRangeEncoding::Utf16CodeUnits => utf16_width(c),
        TextRangeEncoding::UnicodeCodePoints => 1,
    }
}

/// Length of `s` measured in `encoding` units.
pub open spec fn units_len(s: Seq<char>, encoding: TextRangeEncoding) -> nat
    decreases s.len(),
{
    if s.len() == 0 {
        0
    } else {
        units_len(s.drop_last(), encoding) + unit_width(s.last(), encoding)
    }
}

/// Length of `s` in UTF-8 bytes.
pub open spec fn utf8_len(s: Seq<char>) -> nat {
    units_len(s, TextRangeEncoding::Utf8Bytes)
}

/// `offset` is a boundary of `text` in `encoding`: some prefix of `text`
/// measures exactly `offset` units.
pub open spec fn is_boundary(text: Seq<char>, encoding: TextRangeEncoding, offset: int) -> bool {
    exists|k: int| 0 <= k <= text.len() && #[trigger] units_len(text.take(k), encoding) == offset
}

/// The number of scalar values before the boundary `offset` (the prefix
/// length witnessing [`is_boundary`]; unique, see [`lemma_boundary_unique`]).
pub open spec fn boundary_index(text: Seq<char>, encoding: TextRangeEncoding, offset: int) -> int {
    choose|k: int| 0 <= k <= text.len() && #[trigger] units_len(text.take(k), encoding) == offset
}

/// The UTF-8 byte offset of the boundary `offset` (given in `encoding`),
/// when `offset` is a boundary of `text` and the byte offset fits in a `u32`.
pub open spec fn utf8_offset_for(text: Seq<char>, encoding: TextRangeEncoding, offset: u32) -> Option<
    u32,
> {
    if is_boundary(text, encoding, offset as int) && utf8_len(
        text.take(boundary_index(text, encoding, offset as int)),
    ) <= u32::MAX {
        Some(utf8_len(text.take(boundary_index(text, encoding, offset as int))) as u32)
    } else {
        None
    }
}

/// The UTF-8 byte range that `range` designates in `text`: both ends
/// converted, and ordered.
pub open spec fn utf8_range_for(range: TextTargetRange, text: Seq<char>) -> Option<TextRange> {
    match (
        utf8_offset_for(text, range.encoding, range.range.start),
        utf8_offset_for(text, range.encoding, range.range.end),
    ) {
        (Some(start), Some(end)) => if start <= end {
            Some(TextRange { start, end })
        } else {
            None
        },
        _ => None,
    }
}

/// Measuring a prefix one scalar longer adds the width of that scalar.
pub proof fn lemma_units_step(s: Seq<char>, encoding: TextRangeEncoding, k: int)
    requires
        0 <= k < s.len(),
    ensures
        units_len(s.take(k + 1), encoding) == units_len(s.take(k), encoding) + unit_width(
            s[k],
            encoding,
        ),
        unit_width(s[k], encoding) >= 1,
{
    assert(s.take(k + 1).drop_last() =~= s.take(k));
}

/// Longer prefixes measure strictly more units.
pub proof fn lemma_units_strictly_increasing(
    s: Seq<char>,
    encoding: TextRangeEncoding,
    i: int,
    j: int,
)
    requires
        0 <= i < j <= s.len(),
    ensures
        units_len(s.take(i), encoding) < units_len(s.take(j), encoding),
    decreases j - i,
{
    lemma_units_step(s, encoding, j - 1);
    if i < j - 1 {
        lemma_units_strictly_increasing(s, encoding, i, j - 1);
    }
}

/// A boundary is reached by exactly one prefix.
pub proof fn lemma_boundary_unique(s: Seq<char>, encoding: TextRangeEncoding, i: int, j: int)
    requires
        0 <= i <= s.len(),
        0 <= j <= s.len(),
        units_len(s.take(i), encoding) == units_len(s.take(j), encoding),
    ensures
        i == j,
{
    if i < j {
        lemma_units_strictly_increasing(s, encoding, i, j);
    } else if j < i {
        lemma_units_strictly_increasing(s, encoding, j, i);
    }
}

/// A UTF-8 prefix is at most three bytes per UTF-16 unit and at most four
/// bytes per scalar.
proof fn lemma_utf8_bounded(s: Seq<char>)
    ensures
        utf8_len(s) <= 3 * units_len(s, TextRangeEncoding::Utf16CodeUnits),
        utf8_len(s) <= 4 * units_len(s, TextRangeEncoding::UnicodeCodePoints),
        units_len(s, TextRangeEncoding::UnicodeCodePoints) == s.len(),
    decreases s.len(),
{
    if s.len() > 0 {
        lemma_utf8_bounded(s.drop_last());
    }
}

/// When `k` is the prefix length that reaches `offset`, the conversion gives
/// the UTF-8 length of that prefix (if it fits in a `u32`).
proof fn lemma_offset_at(text: Seq<char>, encoding: TextRangeEncoding, offset: u32, k: int)
    requires
        0 <= k <= text.len(),
        units_len(text.take(k), encoding) == offset,
    ensures
        utf8_offset_for(text, encoding, offset) == if utf8_len(text.take(k)) <= u32::MAX {
            Some(utf8_len(text.take(k)) as u32)
        } else {
            None
        },
{
    assert(is_boundary(text, encoding, offset as int));
    let c = boundary_index(text, encoding, offset as int);
    lemma_boundary_unique(text, encoding, c, k);
}

/// When every prefix up to `k` measures less than `offset` and prefix `k + 1`
/// (if any) measures more, `offset` is no boundary.
proof fn lemma_offset_missed(text: Seq<char>, encoding: TextRangeEncoding, offset: u32, k: int)
    requires
        0 <= k <= text.len(),
        units_len(text.take(k), encoding) < offset,
        k < text.len() ==> units_len(text.take(k + 1), encoding) > offset,
    ensures
        utf8_offset_for(text, encoding, offset) == None::<u32>,
{
    if is_boundary(text, encoding, offset as int) {
        let c = boundary_index(text, encoding, offset as int);
        if c < k {
            lemma_units_strictly_increasing(text, encoding, c, k);
        } else if c > k + 1 {
            lemma_units_strictly_increasing(text, encoding, k + 1, c);
        }
        assert(false);
    }
}

/// The zero offset is the empty prefix, at UTF-8 offset zero.
proof fn lemma_offset_zero(text: Seq<char>, encoding: TextRangeEncoding)
    ensures
        utf8_offset_for(text, encoding, 0) == Some(0u32),
{
    assert(text.take(0) =~= Seq::<char>::empty());
    lemma_offset_at(text, encoding, 0, 0);
}

/// A converted offset is itself a UTF-8 boundary that converts to itself.
proof fn lemma_utf8_offset_roundtrip(text: Seq<char>, encoding: TextRangeEncoding, offset: u32)
    requires
        utf8_offset_for(text, encoding, offset) is Some,
    ensures
        utf8_offset_for(
            text,
            TextRangeEncoding::Utf8Bytes,
            utf8_offset_for(text, encoding, offset)->0,
        ) == utf8_offset_for(text, encoding, offset),
{
    let k = boundary_index(text, encoding, offset as int);
    let u = utf8_offset_for(text, encoding, offset)->0;
    lemma_offset_at(text, TextRangeEncoding::Utf8Bytes, u, k);
}

/// Converting a range to UTF-8 and reading the result again as a UTF-8 byte
/// range gives back the same range: every converted range is ordered, in
/// bounds and on character boundaries of the text.
pub proof fn lemma_utf8_range_roundtrip(range: TextTargetRange, text: Seq<char>)
    requires
        utf8_range_for(range, text) is Some,
    ensures
        utf8_range_for(
            TextTargetRange {
                range: utf8_range_for(range, text)->0,
                encoding: TextRangeEncoding::Utf8Bytes,
            },
            text,
        ) == utf8_range_for(range, text),
        is_valid_utf8_selection(text, utf8_range_for(range, text)->0),
{
    lemma_utf8_offset_roundtrip(text, range.encoding, range.range.start);
    lemma_utf8_offset_roundtrip(text, range.encoding, range.range.end);
}

/// Measuring a concatenation adds the measures of its parts.
proof fn lemma_units_concat(a: Seq<char>, b: Seq<char>, encoding: TextRangeEncoding)
    ensures
        units_len(a + b, encoding) == units_len(a, encoding) + units_len(b, encoding),
    decreases b.len(),
{
    if b.len() == 0 {
        assert(a + b =~= a);
    } else {
        assert((a + b).drop_last() =~= a + b.drop_last());
        lemma_units_concat(a, b.drop_last(), encoding);
    }
}

/// The UTF-8 encoding of a scalar has [`utf8_width`] bytes.
proof fn lemma_encode_scalar_len(c: char)
    ensures
        encode_scalar(c as u32).len() == utf8_width(c),
{
    char_is_scalar(c);
}

/// Measuring a sequence is measuring its first scalar plus the rest.
proof fn lemma_units_first(s: Seq<char>, encoding: TextRangeEncoding)
    requires
        s.len() > 0,
    ensures
        units_len(s, encoding) == unit_width(s[0], encoding) + units_len(s.drop_first(), encoding),
{
    let head = seq![s[0]];
    assert(s =~= head + s.drop_first());
    lemma_units_concat(head, s.drop_first(), encoding);
    assert(head.drop_last() =~= Seq::<char>::empty());
    assert(units_len(head.drop_last(), encoding) == 0);
    assert(head.last() == s[0]);
    assert(units_len(head, encoding) == unit_width(s[0], encoding));
}

/// The UTF-8 length of a text is the length of its UTF-8 encoding.
pub proof fn lemma_encode_utf8_len(s: Seq<char>)
    ensures
        encode_utf8(s).len() == utf8_len(s),
    decreases s.len(),
{
    if s.len() > 0 {
        lemma_encode_scalar_len(s[0]);
        lemma_units_first(s, TextRangeEncoding::Utf8Bytes);
        lemma_encode_utf8_len(s.drop_first());
    }
}

/// The UTF-8 length of every prefix is a character boundary of the UTF-8
/// encoding of the whole text.
proof fn lemma_prefix_is_char_boundary(s: Seq<char>, k: int)
    requires
        0 <= k <= s.len(),
    ensures
        is_char_boundary(encode_utf8(s), utf8_len(s.take(k)) as int),
    decreases s.len(),
{
    let bytes = encode_utf8(s);
    encode_utf8_valid_utf8(s);
    if k == 0 {
        assert(s.take(0) =~= Seq::<char>::empty());
    } else {
        let rest = s.drop_first();
        encode_utf8_first_scalar(s);
        lemma_encode_scalar_len(s[0]);
        let w = utf8_width(s[0]);
        assert(bytes == encode_scalar(s[0] as u32) + encode_utf8(rest));
        assert(pop_first_scalar(bytes) =~= encode_utf8(rest));
        assert(s.take(k).drop_first() =~= rest.take(k - 1));
        lemma_units_first(s.take(k), TextRangeEncoding::Utf8Bytes);
        assert(s.take(k)[0] == s[0]);
        assert(s =~= s.take(k) + s.skip(k));
        lemma_units_concat(s.take(k), s.skip(k), TextRangeEncoding::Utf8Bytes);
        lemma_encode_utf8_len(s);
        lemma_prefix_is_char_boundary(rest, k - 1);
    }
}

/// Every converted range designates a slice of the text: both ends are
/// character boundaries of the text's UTF-8 bytes (`str::is_char_boundary`)
/// and lie within its byte length (`str::len`), start before end.
pub proof fn lemma_utf8_range_on_char_boundaries(range: TextTargetRange, text: Seq<char>)
    requires
        utf8_range_for(range, text) is Some,
    ensures
        is_char_boundary(encode_utf8(text), utf8_range_for(range, text)->0.start as int),
        is_char_boundary(encode_utf8(text), utf8_range_for(range, text)->0.end as int),
        utf8_range_for(range, text)->0.start <= utf8_range_for(range, text)->0.end <= encode_utf8(
            text,
        ).len(),
{
    let ks = boundary_index(text, range.encoding, range.range.start as int);
    let ke = boundary_index(text, range.encoding, range.range.end as int);
    lemma_prefix_is_char_boundary(text, ks);
    lemma_prefix_is_char_boundary(text, ke);
    assert(text =~= text.take(ke) + text.skip(ke));
    lemma_units_concat(text.take(ke), text.skip(ke), TextRangeEncoding::Utf8Bytes);
    lemma_encode_utf8_len(text);
}

/// Every character boundary of the UTF-8 encoding of a text is the UTF-8
/// length of one of its prefixes.
pub proof fn lemma_char_boundary_is_prefix(s: Seq<char>, i: int)
    requires
        is_char_boundary(encode_utf8(s), i),
    ensures
        is_boundary(s, TextRangeEncoding::Utf8Bytes, i),
    decreases s.len(),
{
    let bytes = encode_utf8(s);
    encode_utf8_valid_utf8(s);
    if i == 0 {
        assert(s.take(0) =~= Seq::<char>::empty());
        assert(units_len(s.take(0), TextRangeEncoding::Utf8Bytes) == 0);
    } else {
        lemma_encode_utf8_len(s);
        assert(s.len() > 0);
        let rest = s.drop_first();
        encode_utf8_first_scalar(s);
        lemma_encode_scalar_len(s[0]);
        let w = utf8_width(s[0]);
        assert(bytes == encode_scalar(s[0] as u32) + encode_utf8(rest));
        assert(pop_first_scalar(bytes) =~= encode_utf8(rest));
        lemma_char_boundary_is_prefix(rest, i - w);
        let k = choose|k: int|
            0 <= k <= rest.len() && #[trigger] units_len(rest.take(k), TextRangeEncoding::Utf8Bytes)
                == i - w;
        assert(s.take(k + 1).drop_first() =~= rest.take(k));
        lemma_units_first(s.take(k + 1), TextRangeEncoding::Utf8Bytes);
        assert(s.take(k + 1)[0] == s[0]);
        assert(units_len(s.take(k + 1), TextRangeEncoding::Utf8Bytes) == i);
    }
}

/// A UTF-8 selection is valid in a text exactly when it is ordered and both
/// ends are character boundaries of the text's UTF-8 bytes
/// (`str::is_char_boundary`, which also bounds them by `str::len`).
pub proof fn lemma_valid_selection_iff_char_boundaries(text: Seq<char>, selection: TextRange)
    ensures
        is_valid_utf8_selection(text, selection) <==> {
            &&& selection.start <= selection.end
            &&& is_char_boundary(encode_utf8(text), selection.start as int)
            &&& is_char_boundary(encode_utf8(text), selection.end as int)
        },
{
    let range = TextTargetRange { range: selection, encoding: TextRangeEncoding::Utf8Bytes };
    if is_valid_utf8_selection(text, selection) {
        lemma_utf8_range_roundtrip(range, text);
        lemma_utf8_range_on_char_boundaries(range, text);
        let u = utf8_range_for(range, text)->0;
        assert(u.start == selection.start);
        assert(u.end == selection.end);
    }
    if selection.start <= selection.end && is_char_boundary(
        encode_utf8(text),
        selection.start as int,
    ) && is_char_boundary(encode_utf8(text), selection.end as int) {
        lemma_char_boundary_is_prefix(text, selection.start as int);
        lemma_char_boundary_is_prefix(text, selection.end as int);
        let ks = choose|k: int|
            0 <= k <= text.len() && #[trigger] units_len(
                text.take(k),
                TextRangeEncoding::Utf8Bytes,
            ) == selection.start;
        let ke = choose|k: int|
            0 <= k <= text.len() && #[trigger] units_len(
                text.take(k),
                TextRangeEncoding::Utf8Bytes,
            ) == selection.end;
        lemma_offset_at(text, TextRangeEncoding::Utf8Bytes, selection.start, ks);
        lemma_offset_at(text, TextRangeEncoding::Utf8Bytes, selection.end, ke);
    }
}

/// Every scalar of `text` is ASCII.
pub open spec fn is_ascii_text(text: Seq<char>) -> bool {
    forall|i: int| 0 <= i < text.len() ==> (text[i] as u32) < 0x80
}

/// On ASCII text a prefix of `k` scalars measures `k` units in every encoding.
proof fn lemma_ascii_prefix(text: Seq<char>, encoding: TextRangeEncoding, k: int)
    requires
        is_ascii_text(text),
        0 <= k <= text.len(),
    ensures
        units_len(text.take(k), encoding) == k,
    decreases k,
{
    if k == 0 {
        assert(text.take(0) =~= Seq::<char>::empty());
    } else {
        lemma_units_step(text, encoding, k - 1);
        lemma_ascii_prefix(text, encoding, k - 1);
    }
}

/// On ASCII text an offset in any encoding is a boundary exactly when it is
/// at most the text's length, and converts to itself.
pub proof fn lemma_ascii_offset(text: Seq<char>, encoding: TextRangeEncoding, offset: u32)
    requires
        is_ascii_text(text),
    ensures
        utf8_offset_for(text, encoding, offset) == if offset <= text.len() {
            Some(offset)
        } else {
            None
        },
{
    if offset <= text.len() {
        lemma_ascii_prefix(text, encoding, offset as int);
        lemma_ascii_prefix(text, TextRangeEncoding::Utf8Bytes, offset as int);
        lemma_offset_at(text, encoding, offset, offset as int);
    } else if is_boundary(text, encoding, offset as int) {
        let k = boundary_index(text, encoding, offset as int);
        lemma_ascii_prefix(text, encoding, k);
    }
}

/// On ASCII text the three encodings agree: a range converts to the same
/// UTF-8 byte range whether its offsets count UTF-8 bytes, UTF-16 code
/// units or code points.
pub proof fn lemma_ascii_encodings_agree(text: Seq<char>, range: TextRange)
    requires
        is_ascii_text(text),
    ensures
        utf8_range_for(
            TextTargetRange { range, encoding: TextRangeEncoding::Utf16CodeUnits },
            text,
        ) == utf8_range_for(TextTargetRange { range, encoding: TextRangeEncoding::Utf8Bytes }, text),
        utf8_range_for(
            TextTargetRange { range, encoding: TextRangeEncoding::UnicodeCodePoints },
            text,
        ) == utf8_range_for(TextTargetRange { range, encoding: TextRangeEncoding::Utf8Bytes }, text),
{
    lemma_ascii_offset(text, TextRangeEncoding::Utf8Bytes, range.start);
    lemma_ascii_offset(text, TextRangeEncoding::Utf8Bytes, range.end);
    lemma_ascii_offset(text, TextRangeEncoding::Utf16CodeUnits, range.start);
    lemma_ascii_offset(text, TextRangeEncoding::Utf16CodeUnits, range.end);
    lemma_ascii_offset(text, TextRangeEncoding::UnicodeCodePoints, range.start);
    lemma_ascii_offset(text, TextRangeEncoding::UnicodeCodePoints, range.end);
}

/// Number of UTF-8 bytes that encode `c`.
fn char_utf8_width(c: char) -> (r: u64)
    ensures
        r == utf8_width(c),
{
    let v = c as u32;
    if v < 0x80 {
        1
    } else if v < 0x800 {
        2
    } else if v < 0x10000 {
        3
    } else {
        4
    }
}

/// Number of UTF-16 code units that encode `c`.
fn char_utf16_width(c: char) -> (r: u64)
    ensures
        r == utf16_width(c),
{
    if (c as u32) < 0x10000 {
        1
    } else {
        2
    }
}

fn utf8_offset_to_utf8_byte_offset(text: &str, utf8_offset: u32) -> (r: Option<u32>)
    ensures
        r == utf8_offset_for(text@, TextRangeEncoding::Utf8Bytes, utf8_offset),
{
    if utf8_offset == 0 {
        proof {
            lemma_offset_zero(text@, TextRangeEncoding::Utf8Bytes);
        }
        return Some(0);
    }
    let target = utf8_offset as u64;
    let mut byte_count: u64 = 0;
    let ghost s = text@;
    proof {
        assert(s.take(0) =~= Seq::<char>::empty());
    }
    for ch in it: text.chars()
        invariant
            it.seq() == s,
            s == text@,
            target == utf8_offset,
            byte_count == units_len(s.take(it.index() as int), TextRangeEncoding::Utf8Bytes),
            byte_count < target,
    {
        proof {
            lemma_units_step(s, TextRangeEncoding::Utf8Bytes, it.index() as int);
        }
        byte_count = byte_count + char_utf8_width(ch);
        if byte_count == target {
            proof {
                lemma_offset_at(s, TextRangeEncoding::Utf8Bytes, utf8_offset, it.index() + 1);
            }
            return Some(utf8_offset);
        }
        if byte_count > target {
            proof {
                lemma_offset_missed(s, TextRangeEncoding::Utf8Bytes, utf8_offset, it.index() as int);
            }
            return None;
        }
    }
    proof {
        assert(s.take(s.len() as int) =~= s);
        lemma_offset_missed(s, TextRangeEncoding::Utf8Bytes, utf8_offset, s.len() as int);
    }
    None
}

fn utf16_offset_to_utf8_byte_offset(text: &str, utf16_offset: u32) -> (r: Option<u32>)
    ensures
        r == utf8_offset_for(text@, TextRangeEncoding::Utf16CodeUnits, utf16_offset),
{
    if utf16_offset == 0 {
        proof {
            lemma_offset_zero(text@, TextRangeEncoding::Utf16CodeUnits);
        }
        return Some(0);
    }
    let target = utf16_offset as u64;
    let mut utf16_count: u64 = 0;
    let mut byte_count: u64 = 0;
    let ghost s = text@;
    proof {
        assert(s.take(0) =~= Seq::<char>::empty());
    }
    for ch in it: text.chars()
        invariant
            it.seq() == s,
            s == text@,
            target == utf16_offset,
            utf16_count == units_len(s.take(it.index() as int), TextRangeEncoding::Utf16CodeUnits),
            byte_count == utf8_len(s.take(it.index() as int)),
            utf16_count < target,
    {
        proof {
            lemma_units_step(s, TextRangeEncoding::Utf16CodeUnits, it.index() as int);
            lemma_units_step(s, TextRangeEncoding::Utf8Bytes, it.index() as int);
            lemma_utf8_bounded(s.take(it.index() + 1));
        }
        utf16_count = utf16_count + char_utf16_width(ch);
        byte_count = byte_count + char_utf8_width(ch);
        if utf16_count == target {
            proof {
                lemma_offset_at(s, TextRangeEncoding::Utf16CodeUnits, utf16_offset, it.index() + 1);
            }
            if byte_count <= u32::MAX as u64 {
                return Some(byte_count as u32);
            } else {
                return None;
            }
        }
        if utf16_count > target {
            proof {
                lemma_offset_missed(
                    s,
                    TextRangeEncoding::Utf16CodeUnits,
                    utf16_offset,
                    it.index() as int,
                );
            }
            return None;
        }
    }
    proof {
        assert(s.take(s.len() as int) =~= s);
        lemma_offset_missed(s, TextRangeEncoding::Utf16CodeUnits, utf16_offset, s.len() as int);
    }
    None
}

fn code_point_offset_to_utf8_byte_offset(text: &str, code_point_offset: u32) -> (r: Option<u32>)
    ensures
        r == utf8_offset_for(text@, TextRangeEncoding::UnicodeCodePoints, code_point_offset),
{
    if code_point_offset == 0 {
        proof {
            lemma_offset_zero(text@, TextRangeEncoding::UnicodeCodePoints);
        }
        return Some(0);
    }
    let target = code_point_offset as u64;
    let mut code_point_count: u64 = 0;
    let mut byte_count: u64 = 0;
    let ghost s = text@;
    proof {
        assert(s.take(0) =~= Seq::<char>::empty());
    }
    for ch in it: text.chars()
        invariant
            it.seq() == s,
            s == text@,
            target == code_point_offset,
            code_point_count == it.index(),
            code_point_count == units_len(
                s.take(it.index() as int),
                TextRangeEncoding::UnicodeCodePoints,
            ),
            byte_count == utf8_len(s.take(it.index() as int)),
            code_point_count <= target,
    {
        if code_point_count == target {
            proof {
                lemma_offset_at(
                    s,
                    TextRangeEncoding::UnicodeCodePoints,
                    code_point_offset,
                    it.index() as int,
                );
            }
            if byte_count <= u32::MAX as u64 {
                return Some(byte_count as u32);
            } else {
                return None;
            }
        }
        proof {
            lemma_units_step(s, TextRangeEncoding::UnicodeCodePoints, it.index() as int);
            lemma_units_step(s, TextRangeEncoding::Utf8Bytes, it.index() as int);
            lemma_utf8_bounded(s.take(it.index() + 1));
        }
        code_point_count = code_point_count + 1;
        byte_count = byte_count + char_utf8_width(ch);
    }
    proof {
        assert(s.take(s.len() as int) =~= s);
    }
    if code_point_count == target {
        proof {
            lemma_offset_at(s, TextRangeEncoding::UnicodeCodePoints, code_point_offset, s.len() as int);
        }
        if byte_count <= u32::MAX as u64 {
            Some(byte_count as u32)
        } else {
            None
        }
    } else {
        proof {
            lemma_offset_missed(s, TextRangeEncoding::UnicodeCodePoints, code_point_offset, s.len() as int);
        }
        None
    }
}

impl TextTargetRange {
    /// Construct a range whose offsets are UTF-8 byte indices.
    pub fn utf8_bytes(start: u32, end: u32) -> (r: Self)
        ensures
            r == (TextTargetRange {
                range: TextRange { start, end },
                encoding: TextRangeEncoding::Utf8Bytes,
            }),
    {
        Self { range: TextRange::new(start, end), encoding: TextRangeEncoding::Utf8Bytes }
    }

    /// Construct a range whose offsets are UTF-16 code-unit indices.
    pub fn utf16_code_units(start: u32, end: u32) -> (r: Self)
        ensures
            r == (TextTargetRange {
                range: TextRange { start, end },
                encoding: TextRangeEncoding::Utf16CodeUnits,
            }),
    {
        Self { range: TextRange::new(start, end), encoding: TextRangeEncoding::Utf16CodeUnits }
    }

    /// Construct a range whose offsets are Unicode code-point indices.
    pub fn unicode_code_points(start: u32, end: u32) -> (r: Self)
        ensures
            r == (TextTargetRange {
                range: TextRange { start, end },
                encoding: TextRangeEncoding::UnicodeCodePoints,
            }),
    {
        Self { range: TextRange::new(start, end), encoding: TextRangeEncoding::UnicodeCodePoints }
    }

    /// Convert this platform-provided range into UTF-8 byte offsets for `text`.
    ///
    /// Returns `None` when the source offsets are out of bounds, reversed, or
    /// do not land on valid character boundaries for the given encoding.
    pub fn to_utf8_range_in(self, text: &str) -> (r: Option<TextRange>)
        ensures
            r == utf8_range_for(self, text@),
    {
        let start = match self.offset_to_utf8(text, self.range.start) {
            Some(v) => v,
            None => return None,
        };
        let end = match self.offset_to_utf8(text, self.range.end) {
            Some(v) => v,
            None => return None,
        };
        if start <= end {
            Some(TextRange::new(start, end))
        } else {
            None
        }
    }

    /// Convert this platform-provided range into a Rust string slice range.
    ///
    /// Returns `None` when the source offsets are out of bounds, reversed, or
    /// do not land on valid character boundaries for the given encoding.
    pub fn to_range_in(self, text: &str) -> (r: Option<core::ops::Range<usize>>)
        ensures
            match utf8_range_for(self, text@) {
                Some(u) => r matches Some(x) && x.start == u.start && x.end == u.end,
                None => r is None,
            },
    {
        match self.to_utf8_range_in(text) {
            Some(range) => Some(range.start as usize..range.end as usize),
            None => None,
        }
    }

    fn offset_to_utf8(self, text: &str, offset: u32) -> (r: Option<u32>)
        ensures
            r == utf8_offset_for(text@, self.encoding, offset),
    {
        match self.encoding {
            TextRangeEncoding::Utf8Bytes => utf8_offset_to_utf8_byte_offset(text, offset),
            TextRangeEncoding::Utf16CodeUnits => utf16_offset_to_utf8_byte_offset(text, offset),
            TextRangeEncoding::UnicodeCodePoints => {
                code_point_offset_to_utf8_byte_offset(text, offset)
            },
        }
    }
}

/// A committed text insertion.
///
/// This is the common committed-text path used by web, winit, and Apple text
/// adapters. Android-style adapters may additionally populate
/// [`replacement_range`](Self::replacement_range) and
/// [`cursor_placement`](Self::cursor_placement).
#[non_exhaustive]
#[derive(Clone, Debug, PartialEq, Eq)]
pub struct TextInsertEvent {
    /// The committed text.
    pub text: String,
    /// The document range to replace, when the platform provides one.
    pub replacement_range: Option<TextTargetRange>,
    /// Cursor-placement metadata associated with this insertion.
    pub cursor_placement: TextCursorPlacement,
}

/// The abstract content of a [`TextInsertEvent`].
pub struct TextInsertEventView {
    pub text: Seq<char>,
    pub replacement_range: Option<TextTargetRange>,
    pub cursor_placement: TextCursorPlacement,
}

impl View for TextInsertEvent {
    type V = TextInsertEventView;

    open spec fn view(&self) -> TextInsertEventView {
        TextInsertEventView {
            text: self.text@,
            replacement_range: self.replacement_range,
            cursor_placement: self.cursor_placement,
        }
    }
}

impl TextInsertEvent {
    /// Create an insertion event from committed text.
    pub fn new(text: &str) -> (r: Self)
        ensures
            r@ == (TextInsertEventView {
                text: text@,
                replacement_range: None,
                cursor_placement: TextCursorPlacement::Unspecified,
            }),
    {
        Self {
            text: text.to_owned(),
            replacement_range: None,
            cursor_placement: TextCursorPlacement::Unspecified,
        }
    }

    /// Attach a replacement range to this insertion.
    pub fn with_replacement_range(self, replacement_range: TextTargetRange) -> (r: Self)
        ensures
            r@ == (TextInsertEventView { replacement_range: Some(replacement_range), ..self@ }),
    {
        let mut this = self;
        this.replacement_range = Some(replacement_range);
        this
    }

    /// Attach cursor-placement metadata to this insertion.
    pub fn with_cursor_placement(self, cursor_placement: TextCursorPlacement) -> (r: Self)
        ensures
            r@ == (TextInsertEventView { cursor_placement, ..self@ }),
    {
        let mut this = self;
        this.cursor_placement = cursor_placement;
        this
    }
}

/// A request to delete content around the current selection or insertion point.
///
/// The units of `before_length` and `after_length` are determined by
/// [`Self::encoding`].
///
/// This shape exists primarily for Android-style text protocols such as
/// `InputConnection::deleteSurroundingText`.
#[derive(Clone, Copy, Debug, PartialEq, Eq, Hash, Structural)]
pub struct TextDeleteSurroundingEvent {
    /// The number of units to delete before the insertion point.
    pub before_length: u32,
    /// The number of units to delete after the insertion point.
    pub after_length: u32,
    /// The encoding used for both lengths.
    pub encoding: TextRangeEncoding,
}

impl TextDeleteSurroundingEvent {
    /// Construct a surrounding-delete request in UTF-8 byte units.
    pub fn utf8_bytes(before_length: u32, after_length: u32) -> (r: Self)
        ensures
            r == (TextDeleteSurroundingEvent {
                before_length,
                after_length,
                encoding: TextRangeEncoding::Utf8Bytes,
            }),
    {
        Self { before_length, after_length, encoding: TextRangeEncoding::Utf8Bytes }
    }

    /// Construct a surrounding-delete request in UTF-16 code units.
    pub fn utf16_code_units(before_length: u32, after_length: u32) -> (r: Self)
        ensures
            r == (TextDeleteSurroundingEvent {
                before_length,
                after_length,
                encoding: TextRangeEncoding::Utf16CodeUnits,
            }),
    {
        Self { before_length, after_length, encoding: TextRangeEncoding::Utf16CodeUnits }
    }

    /// Construct a surrounding-delete request in Unicode code points.
    pub fn unicode_code_points(before_length: u32, after_length: u32) -> (r: Self)
        ensures
            r == (TextDeleteSurroundingEvent {
                before_length,
                after_length,
                encoding: TextRangeEncoding::UnicodeCodePoints,
            }),
    {
        Self { before_length, after_length, encoding: TextRangeEncoding::UnicodeCodePoints }
    }
}

/// A semantic editor action requested by the platform text system.
///
/// This is primarily for Android-style IME action buttons such as "done",
/// "next", and "search".
#[non_exhaustive]
#[derive(Clone, Copy, Debug, PartialEq, Eq, Hash, Structural)]
pub enum TextInputAction {
    /// Submit the current field with a "done" action.
    Done,
    /// Submit the current field with a "go" action.
    Go,
    /// Move focus to the next field.
    Next,
    /// Move focus to the previous field.
    Previous,
    /// Submit the current field with a "search" action.
    Search,
    /// Submit the current field with a "send" action.
    Send,
    /// Insert a newline as the preferred editor action.
    Newline,
}

/// Cursor placement associated with a text insertion or composition update.
///
/// This is optional because Android exposes explicit cursor-placement metadata,
/// while the currently modeled web, winit, and Apple adapters do not.
#[derive(Clone, Copy, Debug, PartialEq, Eq, Hash, Default, Structural)]
pub enum TextCursorPlacement {
    /// The platform did not specify cursor placement metadata.
    #[default]
    Unspecified,
    /// The platform specified a relative cursor offset.
    Offset(TextCursorOffset),
}

/// A relative cursor offset associated with inserted or composing text.
///
/// This currently exists to preserve Android cursor-placement semantics.
#[derive(Clone, Copy, Debug, PartialEq, Eq, Hash, Structural)]
pub struct TextCursorOffset {
    /// The offset value in the units specified by [`Self::encoding`].
    pub value: i32,
    /// The encoding used by `value`.
    pub encoding: TextRangeEncoding,
    /// The anchor point from which `value` is interpreted.
    pub relative_to: TextCursorAnchor,
}

impl TextCursorOffset {
    /// Construct a cursor offset with explicit encoding and anchor metadata.
    pub fn new(value: i32, encoding: TextRangeEncoding, relative_to: TextCursorAnchor) -> (r: Self)
        ensures
            r == (TextCursorOffset { value, encoding, relative_to }),
    {
        Self { value, encoding, relative_to }
    }

    /// Construct a UTF-8 byte cursor offset.
    pub fn utf8_bytes(value: i32, relative_to: TextCursorAnchor) -> (r: Self)
        ensures
            r == (TextCursorOffset { value, encoding: TextRangeEncoding::Utf8Bytes, relative_to }),
    {
        Self::new(value, TextRangeEncoding::Utf8Bytes, relative_to)
    }

    /// Construct a UTF-16 code-unit cursor offset.
    pub fn utf16_code_units(value: i32, relative_to: TextCursorAnchor) -> (r: Self)
        ensures
            r == (TextCursorOffset {
                value,
                encoding: TextRangeEncoding::Utf16CodeUnits,
                relative_to,
            }),
    {
        Self::new(value, TextRangeEncoding::Utf16CodeUnits, relative_to)
    }

    /// Construct a Unicode code-point cursor offset.
    pub fn unicode_code_points(value: i32, relative_to: TextCursorAnchor) -> (r: Self)
        ensures
            r == (TextCursorOffset {
                value,
                encoding: TextRangeEncoding::UnicodeCodePoints,
                relative_to,
            }),
    {
        Self::new(value, TextRangeEncoding::UnicodeCodePoints, relative_to)
    }
}

/// The anchor point for interpreting a relative cursor offset.
///
/// These anchors are chosen to describe Android-style relative cursor placement
/// without forcing adapters that do not expose such metadata to invent values.
#[derive(Clone, Copy, Debug, PartialEq, Eq, Hash, Structural)]
pub enum TextCursorAnchor {
    /// Relative to the start of the inserted or composing text.
    InsertedTextStart,
    /// Relative to the end of the inserted or composing text.
    InsertedTextEnd,
    /// Relative to the start of the replaced document range.
    ReplacedRangeStart,
    /// Relative to the end of the replaced document range.
    ReplacedRangeEnd,
}

/// Whether `selection` is a UTF-8 byte range of `text` that is ordered, in
/// bounds and on character boundaries (equivalently, by
/// [`lemma_valid_selection_iff_char_boundaries`], ordered with both ends
/// satisfying `str::is_char_boundary`).
pub open spec fn is_valid_utf8_selection(text: Seq<char>, selection: TextRange) -> bool {
    utf8_range_for(
        TextTargetRange { range: selection, encoding: TextRangeEncoding::Utf8Bytes },
        text,
    ) is Some
}

/// A snapshot of the current composition text.
///
/// This is emitted while an IME or soft keyboard is building text that has not
/// yet been committed to the underlying editor content.
///
/// This is the common composition/preedit path used by web, winit, and Apple
/// text adapters. Android-style adapters may additionally populate
/// [`replacement_range`](Self::replacement_range) and
/// [`cursor_placement`](Self::cursor_placement).
#[non_exhaustive]
#[derive(Clone, Debug, PartialEq, Eq)]
pub struct CompositionState {
    /// The current composition text.
    pub text: String,
    /// The selection within `text`, expressed as UTF-8 byte offsets.
    pub selection: Option<TextRange>,
    /// The document range to replace, when the platform provides one.
    pub replacement_range: Option<TextTargetRange>,
    /// Cursor-placement metadata associated with this composition update.
    pub cursor_placement: TextCursorPlacement,
}

/// The abstract content of a [`CompositionState`].
pub struct CompositionStateView {
    pub text: Seq<char>,
    pub selection: Option<TextRange>,
    pub replacement_range: Option<TextTargetRange>,
    pub cursor_placement: TextCursorPlacement,
}

impl View for CompositionState {
    type V = CompositionStateView;

    open spec fn view(&self) -> CompositionStateView {
        CompositionStateView {
            text: self.text@,
            selection: self.selection,
            replacement_range: self.replacement_range,
            cursor_placement: self.cursor_placement,
        }
    }
}

impl CompositionState {
    /// Create a composition snapshot from the provided text.
    pub fn new(text: &str) -> (r: Self)
        ensures
            r@ == (CompositionStateView {
                text: text@,
                selection: None,
                replacement_range: None,
                cursor_placement: TextCursorPlacement::Unspecified,
            }),
    {
        Self {
            text: text.to_owned(),
            selection: None,
            replacement_range: None,
            cursor_placement: TextCursorPlacement::Unspecified,
        }
    }

    /// Attach a selection within the composing text.
    ///
    /// `selection` must be ordered, in bounds for [`Self::text`], and land on
    /// UTF-8 character boundaries. Use [`Self::try_with_selection`] when
    /// converting unchecked platform offsets.
    pub fn with_selection(self, selection: TextRange) -> (r: Self)
        requires
            is_valid_utf8_selection(self.text@, selection),
        ensures
            r@ == (CompositionStateView { selection: Some(selection), ..self@ }),
    {
        let mut this = self;
        this.selection = Some(selection);
        this
    }

    /// Try to attach a selection within the composing text.
    ///
    /// Returns `None` when `selection` is reversed, out of bounds, or does not
    /// land on UTF-8 character boundaries in [`Self::text`].
    pub fn try_with_selection(self, selection: TextRange) -> (r: Option<Self>)
        ensures
            is_valid_utf8_selection(self.text@, selection) ==> (r matches Some(c) && c@ == (
            CompositionStateView { selection: Some(selection), ..self@ })),
            !is_valid_utf8_selection(self.text@, selection) ==> r is None,
    {
        if self.is_valid_selection(selection) {
            let mut this = self;
            this.selection = Some(selection);
            Some(this)
        } else {
            None
        }
    }

    /// Attach a replacement range to this composition update.
    pub fn with_replacement_range(self, replacement_range: TextTargetRange) -> (r: Self)
        ensures
            r@ == (CompositionStateView { replacement_range: Some(replacement_range), ..self@ }),
    {
        let mut this = self;
        this.replacement_range = Some(replacement_range);
        this
    }

    /// Attach cursor-placement metadata to this composition update.
    pub fn with_cursor_placement(self, cursor_placement: TextCursorPlacement) -> (r: Self)
        ensures
            r@ == (CompositionStateView { cursor_placement, ..self@ }),
    {
        let mut this = self;
        this.cursor_placement = cursor_placement;
        this
    }

    fn is_valid_selection(&self, selection: TextRange) -> (r: bool)
        ensures
            r == is_valid_utf8_selection(self.text@, selection),
    {
        TextTargetRange::utf8_bytes(selection.start, selection.end).to_range_in(
            self.text.as_str(),
        ).is_some()
    }
}

/// A text-input event.
///
/// These events represent editing intent, not physical key transitions.
#[non_exhaustive]
#[derive(Clone, Debug, PartialEq, Eq)]
pub enum TextInputEvent {
    /// Insert committed text at the current insertion point or selection.
    ///
    /// The text may contain multiple Unicode scalar values or grapheme
    /// clusters, for example when committing emoji or multi-character IME
    /// output.
    Insert(TextInsertEvent),
    /// Delete content immediately before the insertion point.
    DeleteBackward,
    /// Delete content immediately after the insertion point.
    DeleteForward,
    /// Delete content surrounding the current insertion point or selection.
    ///
    /// Primarily produced by Android-style text protocols.
    DeleteSurrounding(TextDeleteSurroundingEvent),
    /// Update the document selection range.
    ///
    /// Primarily produced by Android-style text protocols.
    SetSelection(TextTargetRange),
    /// Update the current composing region in the document.
    ///
    /// Primarily produced by Android-style text protocols.
    SetComposingRegion(TextTargetRange),
    /// Update the current composition text.
    CompositionUpdate(CompositionState),
    /// Clear the current composition.
    CompositionEnd,
    /// Request a semantic editor action such as "search" or "done".
    ///
    /// Primarily produced by Android-style text protocols.
    Action(TextInputAction),
}

/// The abstract content of a [`TextInputEvent`].
pub enum TextInputEventView {
    Insert(TextInsertEventView),
    DeleteBackward,
    DeleteForward,
    DeleteSurrounding(TextDeleteSurroundingEvent),
    SetSelection(TextTargetRange),
    SetComposingRegion(TextTargetRange),
    CompositionUpdate(CompositionStateView),
    CompositionEnd,
    Action(TextInputAction),
}

impl View for TextInputEvent {
    type V = TextInputEventView;

    open spec fn view(&self) -> TextInputEventView {
        match self {
            TextInputEvent::Insert(e) => TextInputEventView::Insert(e@),
            TextInputEvent::DeleteBackward => TextInputEventView::DeleteBackward,
            TextInputEvent::DeleteForward => TextInputEventView::DeleteForward,
            TextInputEvent::DeleteSurrounding(d) => TextInputEventView::DeleteSurrounding(*d),
            TextInputEvent::SetSelection(r) => TextInputEventView::SetSelection(*r),
            TextInputEvent::SetComposingRegion(r) => TextInputEventView::SetComposingRegion(*r),
            TextInputEvent::CompositionUpdate(c) => TextInputEventView::CompositionUpdate(c@),
            TextInputEvent::CompositionEnd => TextInputEventView::CompositionEnd,
            TextInputEvent::Action(a) => TextInputEventView::Action(*a),
        }
    }
}

impl TextInputEvent {
    /// Construct a committed text insertion.
    pub fn insert(text: &str) -> (r: Self)
        ensures
            r@ == TextInputEventView::Insert(
                TextInsertEventView {
                    text: text@,
                    replacement_range: None,
                    cursor_placement: TextCursorPlacement::Unspecified,
                },
            ),
    {
        Self::Insert(TextInsertEvent::new(text))
    }

    /// Construct a committed text insertion with an explicit replacement range.
    pub fn replace(text: &str, replacement_range: TextTargetRange) -> (r: Self)
        ensures
            r@ == TextInputEventView::Insert(
                TextInsertEventView {
                    text: text@,
                    replacement_range: Some(replacement_range),
                    cursor_placement: TextCursorPlacement::Unspecified,
                },
            ),
    {
        Self::Insert(TextInsertEvent::new(text).with_replacement_range(replacement_range))
    }

    /// Construct a composition update with no selection or replacement metadata.
    pub fn composition(text: &str) -> (r: Self)
        ensures
            r@ == TextInputEventView::CompositionUpdate(
                CompositionStateView {
                    text: text@,
                    selection: None,
                    replacement_range: None,
                    cursor_placement: TextCursorPlacement::Unspecified,
                },
            ),
    {
        Self::CompositionUpdate(CompositionState::new(text))
    }

    /// Construct a surrounding-delete request in UTF-8 byte units.
    pub fn delete_surrounding_utf8(before_length: u32, after_length: u32) -> (r: Self)
        ensures
            r == TextInputEvent::DeleteSurrounding(
                TextDeleteSurroundingEvent {
                    before_length,
                    after_length,
                    encoding: TextRangeEncoding::Utf8Bytes,
                },
            ),
    {
        Self::DeleteSurrounding(TextDeleteSurroundingEvent::utf8_bytes(before_length, after_length))
    }

    /// Construct a surrounding-delete request in UTF-16 code-unit units.
    pub fn delete_surrounding_utf16_code_units(before_length: u32, after_length: u32) -> (r: Self)
        ensures
            r == TextInputEvent::DeleteSurrounding(
                TextDeleteSurroundingEvent {
                    before_length,
                    after_length,
                    encoding: TextRangeEncoding::Utf16CodeUnits,
                },
            ),
    {
        Self::DeleteSurrounding(
            TextDeleteSurroundingEvent::utf16_code_units(before_length, after_length),
        )
    }

    /// Construct a surrounding-delete request in Unicode code-point units.
    pub fn delete_surrounding_unicode_code_points(before_length: u32, after_length: u32) -> (r:
        Self)
        ensures
            r == TextInputEvent::DeleteSurrounding(
                TextDeleteSurroundingEvent {
                    before_length,
                    after_length,
                    encoding: TextRangeEncoding::UnicodeCodePoints,
                },
            ),
    {
        Self::DeleteSurrounding(
            TextDeleteSurroundingEvent::unicode_code_points(before_length, after_length),
        )
    }

    /// Construct an explicit document selection update.
    pub fn set_selection(range: TextTargetRange) -> (r: Self)
        ensures
            r == TextInputEvent::SetSelection(range),
    {
        Self::SetSelection(range)
    }

    /// Construct an explicit composing-region update.
    pub fn set_composing_region(range: TextTargetRange) -> (r: Self)
        ensures
            r == TextInputEvent::SetComposingRegion(range),
    {
        Self::SetComposingRegion(range)
    }

    /// Construct a semantic editor action.
    pub fn action(action: TextInputAction) -> (r: Self)
        ensures
            r == TextInputEvent::Action(action),
    {
        Self::Action(action)
    }
}

} // verus!
