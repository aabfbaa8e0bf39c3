//! Mapping rules for DOM pointer, mouse and touch events.
//!
//! The DOM event objects themselves are read by the host; these functions
//! take the values read from them (button numbers, button masks, event type
//! strings, pointer and touch identifiers) and compute the event vocabulary.
use vstd::prelude::*;
use vstd::std_specs::iter::IteratorSpec;
use vstd::string::StrSliceExecFns;

use crate::apple::buttons::buttons_from_bitmask;
use crate::apple::identity::pointer_id_value;
use crate::pointer::{
    button_at, lemma_index_of_button_at, PersistentDeviceId, PointerButton, PointerButtons, PointerId, PointerInfo,
    PointerType, PRIMARY_POINTER_ID,
};

verus! {

broadcast use vstd::string::group_string_axioms;

/// Whether two strings hold the same characters.
fn same_text(a: &str, b: &str) -> (r: bool)
    ensures
        r == (a@ == b@),
{
    if a.unicode_len() != b.unicode_len() {
        return false;
    }
    let ghost bs = b@;
    let mut other = b.chars();
    assert(other.remaining() == bs);
    for ch in it: a.chars()
        invariant
            it.seq() == a@,
            a@.len() == bs.len(),
            bs == b@,
            other.remaining() == bs.skip(it.index() as int),
            forall|j: int| 0 <= j < it.index() ==> a@[j] == bs[j],
    {
        let ghost before = other.remaining();
        assert(before.len() > 0);
        match other.next() {
            Some(c) => {
                assert(c == bs[it.index() as int]);
                assert(other.remaining() =~= bs.skip(it.index() + 1));
                if c != ch {
                    return false;
                }
            },
            None => {
                return false;
            },
        }
    }
    assert(a@ =~= bs);
    true
}

/// The button that DOM `MouseEvent.button` number `i` denotes: 0 is primary,
/// 1 auxiliary (middle), 2 secondary (right); from 3 on, numbers follow the
/// bit order of [`PointerButtons`].
pub open spec fn web_button_at(i: int) -> PointerButton {
    if i == 1 {
        PointerButton::Auxiliary
    } else if i == 2 {
        PointerButton::Secondary
    } else {
        button_at(i)
    }
}

/// The bit of the DOM `MouseEvent.buttons` mask that the button numbered
/// `i` in `MouseEvent.button` sets: the DOM numbers the secondary and
/// auxiliary buttons the other way round from their bits; every other button
/// number is its bit's index.
pub open spec fn web_button_bit_index(i: int) -> int {
    if i == 1 {
        2
    } else if i == 2 {
        1
    } else {
        i
    }
}

/// The button that DOM button number `i` denotes is the one whose bit the
/// DOM `buttons` mask sets for it: its index is `web_button_bit_index(i)`.
/// So numbers 0 and 3 to 31 denote the button at that very bit index.
pub proof fn lemma_web_button_index(i: int)
    requires
        0 <= i < 32,
    ensures
        web_button_at(i).index() == web_button_bit_index(i),
        i != 1 && i != 2 ==> web_button_at(i) == button_at(i),
{
    lemma_index_of_button_at(i);
}

/// Try to make a [`PointerButton`] from a DOM `MouseEvent.button` value.
///
/// Values less than 0 or greater than 31 will not be mapped.
///
/// This corresponds to §5.1.1.2 of the Pointer Events Level 2
/// specification.
pub fn try_from_web_button(b: i16) -> (r: Option<PointerButton>)
    ensures
        r == if 0 <= b < 32 {
            Some(web_button_at(b as int))
        } else {
            None
        },
        r is Some <==> 0 <= b < 32,
        r matches Some(button) ==> button.index() == web_button_bit_index(b as int),
{
    proof {
        if 0 <= b < 32 {
            lemma_web_button_index(b as int);
        }
    }
    Some(
        match b {
            0 => PointerButton::Primary,
            // https://www.w3.org/TR/uievents/#dom-mouseevent-button
            // 1 = auxiliary (middle), 2 = secondary (right)
            1 => PointerButton::Auxiliary,
            2 => PointerButton::Secondary,
            3 => PointerButton::X1,
            4 => PointerButton::X2,
            5 => PointerButton::PenEraser,
            6 => PointerButton::B7,
            7 => PointerButton::B8,
            8 => PointerButton::B9,
            9 => PointerButton::B10,
            10 => PointerButton::B11,
            11 => PointerButton::B12,
            12 => PointerButton::B13,
            13 => PointerButton::B14,
            14 => PointerButton::B15,
            15 => PointerButton::B16,
            16 => PointerButton::B17,
            17 => PointerButton::B18,
            18 => PointerButton::B19,
            19 => PointerButton::B20,
            20 => PointerButton::B21,
            21 => PointerButton::B22,
            22 => PointerButton::B23,
            23 => PointerButton::B24,
            24 => PointerButton::B25,
            25 => PointerButton::B26,
            26 => PointerButton::B27,
            27 => PointerButton::B28,
            28 => PointerButton::B29,
            29 => PointerButton::B30,
            30 => PointerButton::B31,
            31 => PointerButton::B32,
            _ => {
                return None;
            },
        },
    )
}

/// Convert a DOM `MouseEvent.buttons` bitfield into [`PointerButtons`].
///
/// Bit `i` of the DOM bitfield is the button at index `i`
/// (1 = primary, 2 = secondary, 4 = auxiliary, ...), so the set keeps the
/// bitfield as it is.
pub fn from_web_buttons_mask(mask: u16) -> (r: PointerButtons)
    ensures
        r@ == mask as u32,
{
    let out = buttons_from_bitmask(mask as u64);
    assert(((mask as u64) & 0xFFFF_FFFF) as u32 == mask as u32) by (bit_vector);
    out
}

/// The pointer identity of the mouse: the primary pointer of type mouse.
pub fn pointer_info_mouse() -> (r: PointerInfo)
    ensures
        pointer_id_value(r.pointer_id) == Some(PRIMARY_POINTER_ID),
        r.persistent_device_id == None::<PersistentDeviceId>,
        r.pointer_type == PointerType::Mouse,
{
    PointerInfo {
        pointer_id: Some(PointerId::primary()),
        persistent_device_id: None,
        pointer_type: PointerType::Mouse,
    }
}

/// The pointer type named by a DOM `PointerEvent.pointerType` string.
pub open spec fn pointer_type_named(s: Seq<char>) -> PointerType {
    if s == "mouse"@ {
        PointerType::Mouse
    } else if s == "pen"@ {
        PointerType::Pen
    } else if s == "touch"@ {
        PointerType::Touch
    } else {
        PointerType::Unknown
    }
}

/// Each known pointer type comes from exactly one `pointerType` string,
/// and every other string is of unknown type.
pub proof fn lemma_pointer_type_names(s: Seq<char>)
    ensures
        pointer_type_named(s) == PointerType::Mouse <==> s == "mouse"@,
        pointer_type_named(s) == PointerType::Pen <==> s == "pen"@,
        pointer_type_named(s) == PointerType::Touch <==> s == "touch"@,
        pointer_type_named(s) == PointerType::Unknown <==> !(s == "mouse"@ || s == "pen"@ || s
            == "touch"@),
{
    reveal_strlit("mouse");
    assert("mouse"@.len() == 5);
    reveal_strlit("pen");
    assert("pen"@.len() == 3);
    reveal_strlit("touch");
    assert("touch"@.len() == 5);
    assert("mouse"@[0] != "touch"@[0]);
}

/// Map a DOM `PointerEvent.pointerType` string to a [`PointerType`].
pub fn pointer_type_from_str(s: &str) -> (r: PointerType)
    ensures
        r == pointer_type_named(s@),
{
    if same_text(s, "mouse") {
        PointerType::Mouse
    } else if same_text(s, "pen") {
        PointerType::Pen
    } else if same_text(s, "touch") {
        PointerType::Touch
    } else {
        PointerType::Unknown
    }
}

/// The id that a DOM pointer id becomes: the primary pointer gets the
/// reserved id; others are shifted up by one (saturating) to keep clear of
/// it, the DOM id taken as a `u64` the way `as` widens an `i32`.
pub open spec fn web_pointer_id_value(is_primary: bool, pointer_id: i32) -> u64 {
    if is_primary {
        PRIMARY_POINTER_ID
    } else if pointer_id as u64 == u64::MAX {
        u64::MAX
    } else {
        (pointer_id as u64 + 1) as u64
    }
}

/// A non-primary pointer with a non-negative DOM id `a` gets the id `a + 1`,
/// so distinct DOM ids give distinct pointer ids, and only DOM id 0 meets the
/// primary id.
pub proof fn lemma_web_pointer_ids(a: i32, b: i32)
    requires
        0 <= a,
        0 <= b,
    ensures
        web_pointer_id_value(false, a) == a + 1,
        a != b ==> web_pointer_id_value(false, a) != web_pointer_id_value(false, b),
        web_pointer_id_value(false, a) == PRIMARY_POINTER_ID <==> a == 0,
        web_pointer_id_value(true, a) == PRIMARY_POINTER_ID,
{
}

/// Build a [`PointerInfo`] from the values of a DOM `PointerEvent`:
/// `isPrimary`, `pointerId` and `pointerType`.
pub fn pointer_info_from_web_pointer(is_primary: bool, pointer_id: i32, pointer_type: &str) -> (r:
    PointerInfo)
    ensures
        pointer_id_value(r.pointer_id) == Some(web_pointer_id_value(is_primary, pointer_id)),
        r.persistent_device_id == None::<PersistentDeviceId>,
        r.pointer_type == pointer_type_named(pointer_type@),
        is_primary ==> crate::pointer::is_primary_id(r.pointer_id),
        !is_primary ==> (crate::pointer::is_primary_id(r.pointer_id) <==> pointer_id == 0),
{
    proof {
        assert(pointer_id != 0 ==> pointer_id as u64 != 0) by (bit_vector);
    }
    let id = if is_primary {
        Some(PointerId::primary())
    } else {
        // Shift non-primary ids by 1 to avoid colliding with the primary id.
        PointerId::new((pointer_id as u64).saturating_add(1))
    };
    PointerInfo {
        pointer_id: id,
        persistent_device_id: None,
        pointer_type: pointer_type_from_str(pointer_type),
    }
}

/// The identifier of a DOM `Touch`, when it is non-negative.
pub fn touch_identifier_u64(id: i32) -> (r: Option<u64>)
    ensures
        r == if id < 0 {
            None
        } else {
            Some(id as u64)
        },
{
    if id < 0 {
        return None;
    }
    Some(id as u64)
}

/// Every identifier of `ids` is non-negative and there is at least one.
pub open spec fn has_min_identifier(ids: Seq<i32>) -> bool {
    ids.len() > 0 && forall|j: int| 0 <= j < ids.len() ==> ids[j] >= 0
}

/// `m` is the smallest identifier of `ids`.
pub open spec fn is_min_identifier(ids: Seq<i32>, m: u64) -> bool {
    &&& forall|j: int| 0 <= j < ids.len() ==> ids[j] >= 0 && m <= ids[j] as u64
    &&& exists|j: int| 0 <= j < ids.len() && ids[j] as u64 == m
}

/// The smallest of a list of touch identifiers: `None` when the list is
/// empty or holds a negative identifier.
pub fn min_touch_identifier(ids: &[i32]) -> (r: Option<u64>)
    ensures
        r is Some <==> has_min_identifier(ids@),
        r matches Some(m) ==> is_min_identifier(ids@, m),
{
    let mut min: Option<u64> = None;
    let len = ids.len();
    for i in 0..len
        invariant
            len == ids@.len(),
            forall|j: int| 0 <= j < i ==> ids@[j] >= 0,
            min is Some <==> i > 0,
            min matches Some(m) ==> is_min_identifier(ids@.take(i as int), m),
    {
        let id = match touch_identifier_u64(ids[i]) {
            Some(id) => id,
            None => return None,
        };
        let ghost prev = ids@.take(i as int);
        assert(ids@.take(i + 1) =~= prev.push(ids@[i as int]));
        min = Some(
            match min {
                Some(m) => if m <= id {
                    m
                } else {
                    id
                },
                None => id,
            },
        );
        proof {
            let m = min->0;
            let s = ids@.take(i + 1);
            assert(s[i as int] == ids@[i as int]);
            assert forall|j: int| 0 <= j < s.len() implies s[j] >= 0 && m <= s[j] as u64 by {
                if j < i {
                    assert(s[j] == prev[j]);
                }
            }
            if m == id {
                assert(s[i as int] as u64 == m);
            } else {
                let w = choose|j: int| 0 <= j < prev.len() && prev[j] as u64 == m;
                assert(s[w] == prev[w]);
            }
        }
    }
    proof {
        assert(ids@.take(len as int) =~= ids@);
    }
    min
}

/// The smallest identifier of a list is unique.
pub proof fn lemma_min_identifier_unique(ids: Seq<i32>, a: u64, b: u64)
    requires
        is_min_identifier(ids, a),
        is_min_identifier(ids, b),
    ensures
        a == b,
{
    let wa = choose|j: int| 0 <= j < ids.len() && ids[j] as u64 == a;
    let wb = choose|j: int| 0 <= j < ids.len() && ids[j] as u64 == b;
    assert(a <= ids[wb] as u64);
    assert(b <= ids[wa] as u64);
}

/// The identifier of the primary touch of a DOM `TouchEvent` with active
/// touches `active` and changed touches `changed`:
/// - no primary touch when there is no active touch or an active identifier
///   is negative;
/// - otherwise, when the changed touches have a smallest identifier, the
///   smallest identifier of both lists together;
/// - otherwise the smallest active identifier.
pub open spec fn primary_touch_identifier(active: Seq<i32>, changed: Seq<i32>) -> Option<u64> {
    if !has_min_identifier(active) {
        None
    } else if has_min_identifier(changed) {
        Some(choose|m: u64| is_min_identifier(active + changed, m))
    } else {
        Some(choose|m: u64| is_min_identifier(active, m))
    }
}

/// The identifier of the primary touch of a DOM `TouchEvent`: the smallest
/// identifier among its active touches and, when they have one, its changed
/// touches (see [`primary_touch_identifier`]).
pub fn min_touch_identifier_from_event(touches: &[i32], changed_touches: &[i32]) -> (r: Option<
    u64,
>)
    ensures
        r == primary_touch_identifier(touches@, changed_touches@),
{
    let tm = match min_touch_identifier(touches) {
        Some(m) => m,
        None => return None,
    };
    let ghost t = touches@;
    let ghost c = changed_touches@;
    let r = match min_touch_identifier(changed_touches) {
        Some(changed_min) => {
            let m = if changed_min < tm {
                changed_min
            } else {
                tm
            };
            proof {
                let all = t + c;
                assert forall|j: int| 0 <= j < all.len() implies all[j] >= 0 && m <= all[j] as u64 by {
                    if j < t.len() {
                        assert(all[j] == t[j]);
                    } else {
                        assert(all[j] == c[j - t.len()]);
                    }
                }
                if m == tm {
                    let w = choose|j: int| 0 <= j < t.len() && t[j] as u64 == tm;
                    assert(all[w] == t[w]);
                } else {
                    let w = choose|j: int| 0 <= j < c.len() && c[j] as u64 == changed_min;
                    assert(all[t.len() + w] == c[w]);
                }
                let x = choose|x: u64| is_min_identifier(all, x);
                lemma_min_identifier_unique(all, m, x);
            }
            m
        },
        None => {
            proof {
                let x = choose|x: u64| is_min_identifier(t, x);
                lemma_min_identifier_unique(t, tm, x);
            }
            tm
        },
    };
    Some(r)
}

/// The pointer id of a touch: the primary touch gets the reserved primary
/// id; other touches are shifted up by two (saturating) so that they never
/// collide with it. Negative identifiers give no id.
pub open spec fn touch_pointer_id_value(id: i32, primary_identifier: Option<u64>) -> Option<u64> {
    if id < 0 {
        None
    } else if primary_identifier == Some(id as u64) {
        Some(PRIMARY_POINTER_ID)
    } else if id as u64 + 2 > u64::MAX {
        Some(u64::MAX)
    } else {
        Some((id as u64 + 2) as u64)
    }
}

/// A non-negative touch identifier `a` that is not the primary one gets the
/// id `a + 2`: never the primary id, and distinct for distinct identifiers;
/// the primary touch gets the primary id, and a negative identifier none.
pub proof fn lemma_touch_pointer_ids(a: i32, b: i32, primary_identifier: Option<u64>)
    ensures
        a >= 0 && primary_identifier != Some(a as u64) ==> touch_pointer_id_value(a, primary_identifier)
            == Some((a + 2) as u64),
        a >= 0 && primary_identifier != Some(a as u64) ==> touch_pointer_id_value(a, primary_identifier)
            != Some(PRIMARY_POINTER_ID),
        a >= 0 && b >= 0 && a != b && touch_pointer_id_value(a, primary_identifier) is Some
            && touch_pointer_id_value(b, primary_identifier) is Some ==> touch_pointer_id_value(a, primary_identifier)
            != touch_pointer_id_value(b, primary_identifier),
        a >= 0 && primary_identifier == Some(a as u64) ==> touch_pointer_id_value(a, primary_identifier)
            == Some(PRIMARY_POINTER_ID),
        a < 0 ==> touch_pointer_id_value(a, primary_identifier) is None,
{
}

/// The pointer id of a DOM `Touch` with identifier `id`, given the
/// identifier of the primary touch.
pub fn pointer_id_from_touch_identifier(id: i32, primary_identifier: Option<u64>) -> (r: Option<
    PointerId,
>)
    ensures
        pointer_id_value(r) == touch_pointer_id_value(id, primary_identifier),
        crate::pointer::is_primary_id(r) <==> (id >= 0 && primary_identifier == Some(id as u64)),
{
    if id < 0 {
        return None;
    }
    let id_u64 = id as u64;
    let is_primary = match primary_identifier {
        Some(p) => p == id_u64,
        None => false,
    };
    if is_primary {
        return Some(PointerId::primary());
    }
    PointerId::new(id_u64.saturating_add(2))
}

/// The number of active touches, saturated to the range of a `u8`.
pub fn pointer_attach_count_from_active_touches(active_touches: u32) -> (r: u8)
    ensures
        r == if active_touches < 255 {
            active_touches
        } else {
            255
        },
{
    if active_touches < 255 {
        active_touches as u8
    } else {
        255
    }
}

/// The pointer identity of a DOM `Touch` with identifier `identifier`.
pub fn pointer_info_from_touch(identifier: i32, primary_identifier: Option<u64>) -> (r: PointerInfo)
    ensures
        pointer_id_value(r.pointer_id) == touch_pointer_id_value(identifier, primary_identifier),
        r.persistent_device_id == None::<PersistentDeviceId>,
        r.pointer_type == PointerType::Touch,
{
    PointerInfo {
        pointer_id: pointer_id_from_touch_identifier(identifier, primary_identifier),
        persistent_device_id: None,
        pointer_type: PointerType::Touch,
    }
}

/// The kind of pointer event that a DOM event type produces.
#[derive(Clone, Copy, Debug, PartialEq, Eq, Hash, Structural)]
pub enum PointerEventKind {
    /// A button or contact went down.
    Down,
    /// A button or contact went up.
    Up,
    /// The pointer moved.
    Move,
    /// The pointer entered the target.
    Enter,
    /// The pointer left the target.
    Leave,
    /// The pointer was cancelled by the platform.
    Cancel,
}

/// The pointer event kind of a DOM `TouchEvent` type: `touchstart`,
/// `touchmove`, `touchend` and `touchcancel`; other types produce nothing.
pub open spec fn touch_kind_named(s: Seq<char>) -> Option<PointerEventKind> {
    if s == "touchstart"@ {
        Some(PointerEventKind::Down)
    } else if s == "touchmove"@ {
        Some(PointerEventKind::Move)
    } else if s == "touchend"@ {
        Some(PointerEventKind::Up)
    } else if s == "touchcancel"@ {
        Some(PointerEventKind::Cancel)
    } else {
        None
    }
}

/// The pointer event kind that each changed touch of a DOM `TouchEvent` of
/// type `event_type` produces.
pub fn touch_event_kind(event_type: &str) -> (r: Option<PointerEventKind>)
    ensures
        r == touch_kind_named(event_type@),
{
    if same_text(event_type, "touchstart") {
        Some(PointerEventKind::Down)
    } else if same_text(event_type, "touchmove") {
        Some(PointerEventKind::Move)
    } else if same_text(event_type, "touchend") {
        Some(PointerEventKind::Up)
    } else if same_text(event_type, "touchcancel") {
        Some(PointerEventKind::Cancel)
    } else {
        None
    }
}

/// The pointer event kind of a DOM `PointerEvent` type: `pointerdown`,
/// `pointerup`, `pointermove`, `pointerenter`, `pointerleave` and
/// `pointercancel`; other types produce nothing.
pub open spec fn pointer_kind_named(s: Seq<char>) -> Option<PointerEventKind> {
    if s == "pointerdown"@ {
        Some(PointerEventKind::Down)
    } else if s == "pointerup"@ {
        Some(PointerEventKind::Up)
    } else if s == "pointermove"@ {
        Some(PointerEventKind::Move)
    } else if s == "pointerenter"@ {
        Some(PointerEventKind::Enter)
    } else if s == "pointerleave"@ {
        Some(PointerEventKind::Leave)
    } else if s == "pointercancel"@ {
        Some(PointerEventKind::Cancel)
    } else {
        None
    }
}

/// The pointer event kind that a DOM `PointerEvent` of type `event_type`
/// produces.
pub fn pointer_event_kind(event_type: &str) -> (r: Option<PointerEventKind>)
    ensures
        r == pointer_kind_named(event_type@),
{
    if same_text(event_type, "pointerdown") {
        Some(PointerEventKind::Down)
    } else if same_text(event_type, "pointerup") {
        Some(PointerEventKind::Up)
    } else if same_text(event_type, "pointermove") {
        Some(PointerEventKind::Move)
    } else if same_text(event_type, "pointerenter") {
        Some(PointerEventKind::Enter)
    } else if same_text(event_type, "pointerleave") {
        Some(PointerEventKind::Leave)
    } else if same_text(event_type, "pointercancel") {
        Some(PointerEventKind::Cancel)
    } else {
        None
    }
}

/// The pointer event kind of a DOM `MouseEvent` type: `mousedown`,
/// `mouseup`, `mousemove`, `mouseenter` and `mouseleave`; other types
/// produce nothing.
pub open spec fn mouse_kind_named(s: Seq<char>) -> Option<PointerEventKind> {
    if s == "mousedown"@ {
        Some(PointerEventKind::Down)
    } else if s == "mouseup"@ {
        Some(PointerEventKind::Up)
    } else if s == "mousemove"@ {
        Some(PointerEventKind::Move)
    } else if s == "mouseenter"@ {
        Some(PointerEventKind::Enter)
    } else if s == "mouseleave"@ {
        Some(PointerEventKind::Leave)
    } else {
        None
    }
}

/// The pointer event kind that a DOM `MouseEvent` of type `event_type`
/// produces.
pub fn mouse_event_kind(event_type: &str) -> (r: Option<PointerEventKind>)
    ensures
        r == mouse_kind_named(event_type@),
{
    if same_text(event_type, "mousedown") {
        Some(PointerEventKind::Down)
    } else if same_text(event_type, "mouseup") {
        Some(PointerEventKind::Up)
    } else if same_text(event_type, "mousemove") {
        Some(PointerEventKind::Move)
    } else if same_text(event_type, "mouseenter") {
        Some(PointerEventKind::Enter)
    } else if same_text(event_type, "mouseleave") {
        Some(PointerEventKind::Leave)
    } else {
        None
    }
}

/// A DOM `PointerEvent` type produces a pointer event exactly when it is one
/// of `pointerdown`, `pointerup`, `pointermove`, `pointerenter`,
/// `pointerleave` and `pointercancel`, and each kind comes from exactly one
/// of them.
pub proof fn lemma_pointer_kind_names(s: Seq<char>)
    ensures
        pointer_kind_named(s) is Some <==> (s == "pointerdown"@ || s == "pointerup"@ || s
            == "pointermove"@ || s == "pointerenter"@ || s == "pointerleave"@ || s
            == "pointercancel"@),
        pointer_kind_named(s) == Some(PointerEventKind::Down) <==> s == "pointerdown"@,
        pointer_kind_named(s) == Some(PointerEventKind::Up) <==> s == "pointerup"@,
        pointer_kind_named(s) == Some(PointerEventKind::Move) <==> s == "pointermove"@,
        pointer_kind_named(s) == Some(PointerEventKind::Enter) <==> s == "pointerenter"@,
        pointer_kind_named(s) == Some(PointerEventKind::Leave) <==> s == "pointerleave"@,
        pointer_kind_named(s) == Some(PointerEventKind::Cancel) <==> s == "pointercancel"@,
{
    reveal_strlit("pointerdown");
    assert("pointerdown"@.len() == 11);
    reveal_strlit("pointerup");
    assert("pointerup"@.len() == 9);
    reveal_strlit("pointermove");
    assert("pointermove"@.len() == 11);
    reveal_strlit("pointerenter");
    assert("pointerenter"@.len() == 12);
    reveal_strlit("pointerleave");
    assert("pointerleave"@.len() == 12);
    reveal_strlit("pointercancel");
    assert("pointercancel"@.len() == 13);
    assert("pointermove"@[7] != "pointerdown"@[7]);
    assert("pointerleave"@[7] != "pointerenter"@[7]);
}

/// A DOM `MouseEvent` type produces a pointer event exactly when it is one
/// of `mousedown`, `mouseup`, `mousemove`, `mouseenter` and `mouseleave`,
/// and each kind comes from exactly one of them; none is a cancel.
pub proof fn lemma_mouse_kind_names(s: Seq<char>)
    ensures
        mouse_kind_named(s) is Some <==> (s == "mousedown"@ || s == "mouseup"@ || s
            == "mousemove"@ || s == "mouseenter"@ || s == "mouseleave"@),
        mouse_kind_named(s) == Some(PointerEventKind::Down) <==> s == "mousedown"@,
        mouse_kind_named(s) == Some(PointerEventKind::Up) <==> s == "mouseup"@,
        mouse_kind_named(s) == Some(PointerEventKind::Move) <==> s == "mousemove"@,
        mouse_kind_named(s) == Some(PointerEventKind::Enter) <==> s == "mouseenter"@,
        mouse_kind_named(s) == Some(PointerEventKind::Leave) <==> s == "mouseleave"@,
        mouse_kind_named(s) != Some(PointerEventKind::Cancel),
{
    reveal_strlit("mousedown");
    assert("mousedown"@.len() == 9);
    reveal_strlit("mouseup");
    assert("mouseup"@.len() == 7);
    reveal_strlit("mousemove");
    assert("mousemove"@.len() == 9);
    reveal_strlit("mouseenter");
    assert("mouseenter"@.len() == 10);
    reveal_strlit("mouseleave");
    assert("mouseleave"@.len() == 10);
    assert("mousemove"@[5] != "mousedown"@[5]);
    assert("mouseleave"@[5] != "mouseenter"@[5]);
}

/// A DOM `TouchEvent` type produces pointer events exactly when it is one
/// of `touchstart`, `touchmove`, `touchend` and `touchcancel`, and each kind
/// comes from exactly one of them; touches never enter or leave.
pub proof fn lemma_touch_kind_names(s: Seq<char>)
    ensures
        touch_kind_named(s) is Some <==> (s == "touchstart"@ || s == "touchmove"@ || s
            == "touchend"@ || s == "touchcancel"@),
        touch_kind_named(s) == Some(PointerEventKind::Down) <==> s == "touchstart"@,
        touch_kind_named(s) == Some(PointerEventKind::Move) <==> s == "touchmove"@,
        touch_kind_named(s) == Some(PointerEventKind::Up) <==> s == "touchend"@,
        touch_kind_named(s) == Some(PointerEventKind::Cancel) <==> s == "touchcancel"@,
        touch_kind_named(s) != Some(PointerEventKind::Enter),
        touch_kind_named(s) != Some(PointerEventKind::Leave),
{
    reveal_strlit("touchstart");
    assert("touchstart"@.len() == 10);
    reveal_strlit("touchmove");
    assert("touchmove"@.len() == 9);
    reveal_strlit("touchend");
    assert("touchend"@.len() == 8);
    reveal_strlit("touchcancel");
    assert("touchcancel"@.len() == 11);
}

/// The pointer events that a DOM `TouchEvent` of type `event_type` with
/// active touches `touches` and changed touches `changed_touches` produces:
/// one per changed touch, in order, each given by its kind and its pointer
/// identity. Other event types produce none.
pub fn touch_event_pointers(event_type: &str, touches: &[i32], changed_touches: &[i32]) -> (r: Vec<
    (PointerEventKind, PointerInfo),
>)
    ensures
        touch_kind_named(event_type@) is None ==> r@.len() == 0,
        touch_kind_named(event_type@) matches Some(kind) ==> {
            &&& r@.len() == changed_touches@.len()
            &&& forall|j: int|
                0 <= j < r@.len() ==> {
                    &&& (#[trigger] r@[j]).0 == kind
                    &&& pointer_id_value(r@[j].1.pointer_id) == touch_pointer_id_value(
                        changed_touches@[j],
                        primary_touch_identifier(touches@, changed_touches@),
                    )
                    &&& r@[j].1.persistent_device_id == None::<PersistentDeviceId>
                    &&& r@[j].1.pointer_type == PointerType::Touch
                }
        },
{
    let mut out: Vec<(PointerEventKind, PointerInfo)> = Vec::new();
    let kind = match touch_event_kind(event_type) {
        Some(k) => k,
        None => return out,
    };
    let primary_identifier = min_touch_identifier_from_event(touches, changed_touches);
    let n = changed_touches.len();
    for i in 0..n
        invariant
            n == changed_touches@.len(),
            touch_kind_named(event_type@) == Some(kind),
            primary_identifier == primary_touch_identifier(touches@, changed_touches@),
            out@.len() == i,
            forall|j: int|
                0 <= j < i ==> {
                    &&& (#[trigger] out@[j]).0 == kind
                    &&& pointer_id_value(out@[j].1.pointer_id) == touch_pointer_id_value(
                        changed_touches@[j],
                        primary_identifier,
                    )
                    &&& out@[j].1.persistent_device_id == None::<PersistentDeviceId>
                    &&& out@[j].1.pointer_type == PointerType::Touch
                },
    {
        let pointer = pointer_info_from_touch(changed_touches[i], primary_identifier);
        out.push((kind, pointer));
    }
    out
}

/// While a touch is active, the touch with the smallest identifier among
/// the active and changed touches is the primary pointer.
pub proof fn lemma_smallest_touch_is_primary(active: Seq<i32>, changed: Seq<i32>, j: int)
    requires
        0 <= j < changed.len(),
        active.len() > 0,
        has_min_identifier(active + changed),
        forall|k: int| 0 <= k < (active + changed).len() ==> changed[j] <= (active + changed)[k],
    ensures
        touch_pointer_id_value(changed[j], primary_touch_identifier(active, changed)) == Some(
            PRIMARY_POINTER_ID,
        ),
{
    let all = active + changed;
    assert(all[active.len() + j] == changed[j]);
    assert(is_min_identifier(all, changed[j] as u64));
    assert forall|k: int| 0 <= k < changed.len() implies changed[k] >= 0 by {
        assert(all[active.len() + k] == changed[k]);
    }
    assert forall|k: int| 0 <= k < active.len() implies active[k] >= 0 by {
        assert(all[k] == active[k]);
    }
    let m = choose|x: u64| is_min_identifier(all, x);
    lemma_min_identifier_unique(all, m, changed[j] as u64);
}

/// Which converter handles a DOM event.
#[derive(Clone, Copy, Debug, PartialEq, Eq, Hash, Structural)]
pub enum DomEventRoute {
    /// The events already converted from the `TouchEvent`.
    Touch,
    /// The `WheelEvent` converter.
    Wheel,
    /// The `PointerEvent` converter.
    Pointer,
    /// The `MouseEvent` converter.
    Mouse,
    /// No converter: the event produces nothing.
    Nothing,
}

/// Choose the converter for a DOM event. A `TouchEvent` is used only when it
/// produced at least one pointer event; otherwise the event falls through to
/// the wheel, pointer and mouse converters, in that order (a `WheelEvent` and
/// a `PointerEvent` are also `MouseEvent`s).
pub fn dom_event_route(
    touch_produced_events: bool,
    is_wheel: bool,
    is_pointer: bool,
    is_mouse: bool,
) -> (r: DomEventRoute)
    ensures
        r == if touch_produced_events {
            DomEventRoute::Touch
        } else if is_wheel {
            DomEventRoute::Wheel
        } else if is_pointer {
            DomEventRoute::Pointer
        } else if is_mouse {
            DomEventRoute::Mouse
        } else {
            DomEventRoute::Nothing
        },
{
    if touch_produced_events {
        DomEventRoute::Touch
    } else if is_wheel {
        DomEventRoute::Wheel
    } else if is_pointer {
        DomEventRoute::Pointer
    } else if is_mouse {
        DomEventRoute::Mouse
    } else {
        DomEventRoute::Nothing
    }
}

/// Which of several converted events to report when only one is wanted:
/// the first one that belongs to the primary pointer, otherwise the first
/// one; `None` when there is none. `is_primary[i]` tells whether event `i`
/// belongs to the primary pointer.
pub fn primary_event_index(is_primary: &[bool]) -> (r: Option<usize>)
    ensures
        match r {
            None => is_primary@.len() == 0,
            Some(i) => {
                &&& i < is_primary@.len()
                &&& forall|j: int| 0 <= j < i ==> !is_primary@[j]
                &&& is_primary@[i as int] || forall|j: int|
                    0 <= j < is_primary@.len() ==> !is_primary@[j]
                &&& (forall|j: int| 0 <= j < is_primary@.len() ==> !is_primary@[j]) ==> i == 0
            },
        },
{
    let len = is_primary.len();
    for i in 0..len
        invariant
            len == is_primary@.len(),
            forall|j: int| 0 <= j < i ==> !is_primary@[j],
    {
        if is_primary[i] {
            return Some(i);
        }
    }
    if len == 0 {
        None
    } else {
        Some(0)
    }
}

} // verus!
