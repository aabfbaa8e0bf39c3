use ui_events::apple::{
    buttons_from_bitmask, composition_update_event_with_utf16_ranges,
    composition_update_event_with_utf16_selection, modifiers_from_bools,
    pointer_info_from_platform_ids, pointer_info_from_platform_pointer_id,
    pointer_info_primary_for_type, text_insert_event, text_insert_event_with_utf16_replacement,
    try_from_button_index, utf16_range_from_location_length,
};
use ui_events::keyboard::{Code, Location, Modifiers, NamedKey};
use ui_events::pointer::{
    pointer_count_from_click_count, PointerButton, PointerId, PointerType,
};
use ui_events::text::{CompositionState, TextInputEvent, TextRange, TextTargetRange};
use ui_events::uikit::{hid_usage_to_code_named_location, modifiers_from_uikit_modifier_bits};
use ui_events::uikit::UIKIT_SHIFT_BIT;
use ui_events::web::{
    from_web_buttons_mask, min_touch_identifier, min_touch_identifier_from_event,
    mouse_event_kind, pointer_event_kind, pointer_info_from_touch, pointer_info_from_web_pointer,
    pointer_info_mouse, pointer_type_from_str, primary_event_index, touch_event_kind,
    dom_event_route, touch_event_pointers, touch_identifier_u64, DomEventRoute,
    PointerEventKind,
};

#[test]
fn converted_range_reads_back_as_the_same_utf8_range() {
    let text = "a🙂b";
    let utf8 = TextTargetRange::utf16_code_units(1, 3)
        .to_utf8_range_in(text)
        .expect("valid range");
    assert_eq!(utf8, TextRange::new(1, 5));
    assert_eq!(
        TextTargetRange::utf8_bytes(utf8.start, utf8.end).to_utf8_range_in(text),
        Some(utf8)
    );
}

#[test]
fn converted_ranges_slice_the_text() {
    let text = "e\u{301}🙂z";
    let range = TextTargetRange::unicode_code_points(2, 3)
        .to_range_in(text)
        .expect("valid range");
    assert_eq!(&text[range], "🙂");
    let range = TextTargetRange::utf16_code_units(2, 4)
        .to_range_in(text)
        .expect("valid range");
    assert_eq!(&text[range], "🙂");
    let range = TextTargetRange::utf16_code_units(4, 5)
        .to_range_in(text)
        .expect("valid range");
    assert_eq!(&text[range], "z");
}

#[test]
fn ascii_text_converts_alike_in_every_encoding() {
    let text = "hello";
    for (start, end) in [(0, 0), (1, 3), (0, 5), (5, 5), (2, 6), (4, 2)] {
        let utf8 = TextTargetRange::utf8_bytes(start, end).to_utf8_range_in(text);
        assert_eq!(
            TextTargetRange::utf16_code_units(start, end).to_utf8_range_in(text),
            utf8
        );
        assert_eq!(
            TextTargetRange::unicode_code_points(start, end).to_utf8_range_in(text),
            utf8
        );
    }
    assert_eq!(
        TextTargetRange::utf16_code_units(1, 3).to_utf8_range_in(text),
        Some(TextRange::new(1, 3))
    );
}

#[test]
fn utf16_offsets_inside_a_surrogate_pair_are_rejected() {
    assert_eq!(TextTargetRange::utf16_code_units(0, 1).to_utf8_range_in("🙂"), None);
    assert_eq!(
        TextTargetRange::utf16_code_units(0, 2).to_utf8_range_in("🙂"),
        Some(TextRange::new(0, 4))
    );
    assert_eq!(TextTargetRange::utf8_bytes(0, 3).to_utf8_range_in("🙂"), None);
    assert_eq!(TextTargetRange::utf8_bytes(0, 0).to_utf8_range_in(""), Some(TextRange::new(0, 0)));
    assert_eq!(TextTargetRange::unicode_code_points(0, 1).to_utf8_range_in(""), None);
}

#[test]
fn multibyte_utf8_widths_are_counted() {
    // 'é' is two bytes, 'に' three, '🙂' four.
    let text = "éに🙂";
    assert_eq!(
        TextTargetRange::unicode_code_points(1, 2).to_utf8_range_in(text),
        Some(TextRange::new(2, 5))
    );
    assert_eq!(
        TextTargetRange::utf16_code_units(2, 4).to_utf8_range_in(text),
        Some(TextRange::new(5, 9))
    );
    assert_eq!(
        TextTargetRange::unicode_code_points(3, 3).to_utf8_range_in(text),
        Some(TextRange::new(9, 9))
    );
}

#[test]
fn checked_selection_accepts_exactly_valid_utf8_ranges() {
    assert!(CompositionState::new("abc")
        .try_with_selection(TextRange::new(0, 3))
        .is_some());
    assert!(CompositionState::new("abc")
        .try_with_selection(TextRange::new(0, 4))
        .is_none());
    assert!(CompositionState::new("é")
        .try_with_selection(TextRange::new(1, 2))
        .is_none());
}

#[test]
fn apple_helpers_reject_overflowing_ranges() {
    assert_eq!(
        utf16_range_from_location_length(u32::MAX, 0),
        Some(TextTargetRange::utf16_code_units(u32::MAX, u32::MAX))
    );
    assert_eq!(text_insert_event_with_utf16_replacement("x", u32::MAX, 1), None);
    assert_eq!(
        composition_update_event_with_utf16_ranges("ni", None, None, Some(u32::MAX), Some(2)),
        None
    );
    assert_eq!(
        composition_update_event_with_utf16_selection("ni", Some(u32::MAX), Some(2)),
        None
    );
    assert_eq!(
        composition_update_event_with_utf16_ranges("ni", None, None, None, None),
        Some(TextInputEvent::composition("ni"))
    );
    assert_eq!(text_insert_event("x"), TextInputEvent::insert("x"));
}

#[test]
fn button_indices_map_in_bit_order() {
    assert_eq!(try_from_button_index(-1), None);
    assert_eq!(try_from_button_index(0), Some(PointerButton::Primary));
    assert_eq!(try_from_button_index(2), Some(PointerButton::Auxiliary));
    assert_eq!(try_from_button_index(5), Some(PointerButton::PenEraser));
    assert_eq!(try_from_button_index(31), Some(PointerButton::B32));
    assert_eq!(try_from_button_index(32), None);
    assert_eq!(PointerButton::B32.bits(), 1 << 31);
}

#[test]
fn bitmask_conversions_keep_the_low_bits() {
    assert_eq!(buttons_from_bitmask((1 << 32) | 1).bits(), 1);
    assert_eq!(buttons_from_bitmask(u64::MAX).bits(), u32::MAX);
    let web = from_web_buttons_mask(0b101);
    assert!(web.contains(PointerButton::Primary));
    assert!(web.contains(PointerButton::Auxiliary));
    assert!(!web.contains(PointerButton::Secondary));
    assert_eq!(from_web_buttons_mask(u16::MAX).bits(), u16::MAX as u32);
    assert!(from_web_buttons_mask(0).is_empty());
}

#[test]
fn platform_ids_that_overflow_give_no_id() {
    assert_eq!(
        pointer_info_from_platform_pointer_id(PointerType::Mouse, u64::MAX).pointer_id,
        None
    );
    let info = pointer_info_from_platform_ids(PointerType::Pen, None, Some(u64::MAX - 2));
    assert_eq!(info.pointer_id, None);
    assert_eq!(info.persistent_device_id.map(|d| d.get_inner()), Some(u64::MAX));
    let primary = pointer_info_primary_for_type(PointerType::Touch);
    assert!(primary.is_primary_pointer());
    assert_eq!(primary.pointer_type, PointerType::Touch);
    assert_eq!(PointerId::new(0), None);
}

#[test]
fn modifier_flags_match_their_inputs() {
    let m = modifiers_from_bools(true, false, true, false);
    assert!(m.ctrl() && m.shift() && !m.alt() && !m.meta());
    assert_eq!(m.bits(), Modifiers::CONTROL | Modifiers::SHIFT);
    let u = modifiers_from_uikit_modifier_bits(UIKIT_SHIFT_BIT);
    assert_eq!(u.bits(), Modifiers::SHIFT);
    assert_eq!(modifiers_from_bools(false, false, false, false).bits(), 0);
}

#[test]
fn hid_usages_cover_ranges_and_unknowns() {
    assert_eq!(
        hid_usage_to_code_named_location(0x04),
        (Code::KeyA, None, Location::Standard)
    );
    assert_eq!(
        hid_usage_to_code_named_location(0x1D),
        (Code::KeyZ, None, Location::Standard)
    );
    assert_eq!(
        hid_usage_to_code_named_location(0x27),
        (Code::Digit0, None, Location::Standard)
    );
    assert_eq!(
        hid_usage_to_code_named_location(0x45),
        (Code::F12, Some(NamedKey::F12), Location::Standard)
    );
    assert_eq!(
        hid_usage_to_code_named_location(0x53),
        (Code::NumLock, Some(NamedKey::NumLock), Location::Numpad)
    );
    assert_eq!(
        hid_usage_to_code_named_location(0x00),
        (Code::Unidentified, Some(NamedKey::Unidentified), Location::Standard)
    );
}

#[test]
fn web_pointer_identity_shifts_non_primary_ids() {
    let primary = pointer_info_from_web_pointer(true, 7, "pen");
    assert!(primary.is_primary_pointer());
    assert_eq!(primary.pointer_type, PointerType::Pen);
    let other = pointer_info_from_web_pointer(false, 5, "touch");
    assert_eq!(other.pointer_id, PointerId::new(6));
    assert_eq!(other.pointer_type, PointerType::Touch);
    // The shift by one takes DOM id 0 onto the primary id.
    let zero = pointer_info_from_web_pointer(false, 0, "mouse");
    assert_eq!(zero.pointer_id, PointerId::new(1));
    assert!(zero.is_primary_pointer());
    assert_eq!(pointer_info_from_web_pointer(false, 1, "mouse").pointer_id, PointerId::new(2));
    assert_eq!(pointer_info_from_web_pointer(false, -1, "mouse").pointer_id, PointerId::new(u64::MAX));
    assert_eq!(pointer_type_from_str("mouse"), PointerType::Mouse);
    assert_eq!(pointer_type_from_str("pen"), PointerType::Pen);
    assert_eq!(pointer_type_from_str("touch"), PointerType::Touch);
    assert_eq!(pointer_type_from_str("Mouse"), PointerType::Unknown);
    assert_eq!(pointer_type_from_str(""), PointerType::Unknown);
    let mouse = pointer_info_mouse();
    assert!(mouse.is_primary_pointer());
    assert_eq!(mouse.pointer_type, PointerType::Mouse);
}

#[test]
fn touch_identifiers_find_the_primary_touch() {
    assert_eq!(touch_identifier_u64(-3), None);
    assert_eq!(touch_identifier_u64(4), Some(4));
    assert_eq!(min_touch_identifier(&[3, 1, 2]), Some(1));
    assert_eq!(min_touch_identifier(&[]), None);
    assert_eq!(min_touch_identifier(&[2, -1, 0]), None);
    assert_eq!(min_touch_identifier_from_event(&[5, 7], &[2]), Some(2));
    assert_eq!(min_touch_identifier_from_event(&[5, 7], &[9]), Some(5));
    assert_eq!(min_touch_identifier_from_event(&[5, 7], &[-2]), Some(5));
    assert_eq!(min_touch_identifier_from_event(&[-1, 7], &[2]), None);
    assert_eq!(min_touch_identifier_from_event(&[], &[-2]), None);
    assert_eq!(min_touch_identifier_from_event(&[], &[2]), None);
    assert_eq!(min_touch_identifier_from_event(&[], &[]), None);
    let info = pointer_info_from_touch(5, Some(5));
    assert!(info.is_primary_pointer());
    assert_eq!(info.pointer_type, PointerType::Touch);
    assert_eq!(pointer_info_from_touch(4, Some(5)).pointer_id, PointerId::new(6));
}

#[test]
fn dom_event_types_select_the_event_kind() {
    assert_eq!(touch_event_kind("touchstart"), Some(PointerEventKind::Down));
    assert_eq!(touch_event_kind("touchmove"), Some(PointerEventKind::Move));
    assert_eq!(touch_event_kind("touchend"), Some(PointerEventKind::Up));
    assert_eq!(touch_event_kind("touchcancel"), Some(PointerEventKind::Cancel));
    assert_eq!(touch_event_kind("touch"), None);
    assert_eq!(pointer_event_kind("pointerdown"), Some(PointerEventKind::Down));
    assert_eq!(pointer_event_kind("pointerup"), Some(PointerEventKind::Up));
    assert_eq!(pointer_event_kind("pointermove"), Some(PointerEventKind::Move));
    assert_eq!(pointer_event_kind("pointerenter"), Some(PointerEventKind::Enter));
    assert_eq!(pointer_event_kind("pointerleave"), Some(PointerEventKind::Leave));
    assert_eq!(pointer_event_kind("pointercancel"), Some(PointerEventKind::Cancel));
    assert_eq!(pointer_event_kind("pointerover"), None);
    assert_eq!(mouse_event_kind("mousedown"), Some(PointerEventKind::Down));
    assert_eq!(mouse_event_kind("mouseup"), Some(PointerEventKind::Up));
    assert_eq!(mouse_event_kind("mousemove"), Some(PointerEventKind::Move));
    assert_eq!(mouse_event_kind("mouseenter"), Some(PointerEventKind::Enter));
    assert_eq!(mouse_event_kind("mouseleave"), Some(PointerEventKind::Leave));
    assert_eq!(mouse_event_kind("click"), None);
}

#[test]
fn the_primary_event_is_preferred() {
    assert_eq!(primary_event_index(&[false, true, true]), Some(1));
    assert_eq!(primary_event_index(&[false, false]), Some(0));
    assert_eq!(primary_event_index(&[false, false, false]), Some(0));
    assert_eq!(primary_event_index(&[true]), Some(0));
    assert_eq!(primary_event_index(&[]), None);
}

#[test]
fn a_touch_is_primary_only_while_a_touch_is_active() {
    let down = touch_event_pointers("touchstart", &[4], &[4]);
    assert_eq!(down.len(), 1);
    assert_eq!(down[0].0, PointerEventKind::Down);
    assert!(down[0].1.is_primary_pointer());
    // With no active touch left there is no primary touch: the ending
    // touch gets its shifted id.
    let up = touch_event_pointers("touchend", &[], &[4]);
    assert_eq!(up.len(), 1);
    assert_eq!(up[0].0, PointerEventKind::Up);
    assert_eq!(up[0].1.pointer_id, PointerId::new(6));
    assert!(!up[0].1.is_primary_pointer());
    // A changed touch with a negative identifier leaves the smallest active
    // touch primary.
    let moved = touch_event_pointers("touchmove", &[3, 8], &[-1, 3]);
    assert_eq!(moved[0].1.pointer_id, None);
    assert!(moved[1].1.is_primary_pointer());
}

#[test]
fn touch_events_produce_one_pointer_per_changed_touch() {
    let moved = touch_event_pointers("touchmove", &[0, 3, 5], &[5, 3]);
    assert_eq!(moved.len(), 2);
    assert!(moved.iter().all(|(k, p)| *k == PointerEventKind::Move && p.pointer_type == PointerType::Touch));
    assert_eq!(moved[0].1.pointer_id, PointerId::new(7));
    assert_eq!(moved[1].1.pointer_id, PointerId::new(5));
    let cancelled = touch_event_pointers("touchcancel", &[], &[0]);
    assert_eq!(cancelled[0].0, PointerEventKind::Cancel);
    assert_eq!(cancelled[0].1.pointer_id, PointerId::new(2));
    assert!(touch_event_pointers("touchforcechange", &[1], &[1]).is_empty());
}

#[test]
fn click_counts_clamp_into_a_byte() {
    assert_eq!(pointer_count_from_click_count(-5), 0);
    assert_eq!(pointer_count_from_click_count(0), 0);
    assert_eq!(pointer_count_from_click_count(2), 2);
    assert_eq!(pointer_count_from_click_count(255), 255);
    assert_eq!(pointer_count_from_click_count(256), 255);
    assert_eq!(pointer_count_from_click_count(i64::MAX), 255);
}

#[test]
fn dom_events_fall_through_touch_wheel_pointer_mouse() {
    assert_eq!(dom_event_route(true, false, false, false), DomEventRoute::Touch);
    assert_eq!(dom_event_route(false, true, false, true), DomEventRoute::Wheel);
    assert_eq!(dom_event_route(false, false, true, true), DomEventRoute::Pointer);
    assert_eq!(dom_event_route(false, false, false, true), DomEventRoute::Mouse);
    assert_eq!(dom_event_route(false, false, false, false), DomEventRoute::Nothing);
}
