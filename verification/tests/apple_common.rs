use ui_events::apple::{
    buttons_from_bitmask, composition_update_event_with_utf16_ranges,
    composition_update_event_with_utf16_selection, modifiers_from_bools,
    pointer_info_from_platform_ids, pointer_info_from_platform_pointer_id,
    text_insert_event_with_utf16_replacement, utf16_range_from_location_length,
    PLATFORM_POINTER_ID_OFFSET,
};
use ui_events::pointer::{PersistentDeviceId, PointerButton, PointerId, PointerType};
use ui_events::text::{
    CompositionState, TextInputEvent, TextRange, TextRangeEncoding, TextTargetRange,
};

#[test]
fn buttons_from_bitmask_maps_common_buttons() {
    let buttons = buttons_from_bitmask((1 << 0) | (1 << 1) | (1 << 4));
    assert!(buttons.contains(PointerButton::Primary));
    assert!(buttons.contains(PointerButton::Secondary));
    assert!(buttons.contains(PointerButton::X2));
}

#[test]
fn platform_pointer_id_zero_does_not_collide_with_primary() {
    let pointer = pointer_info_from_platform_pointer_id(PointerType::Pen, 0);
    assert_eq!(
        pointer
            .pointer_id
            .expect("platform ids should be assigned")
            .get_inner(),
        PLATFORM_POINTER_ID_OFFSET
    );
    assert_ne!(pointer.pointer_id, Some(PointerId::primary()));
    assert!(!pointer.is_primary_pointer());
}

#[test]
fn platform_pointer_and_device_ids_zero_do_not_collide_with_primary() {
    let pointer = pointer_info_from_platform_ids(PointerType::Pen, Some(0), Some(0));
    assert_eq!(
        pointer
            .pointer_id
            .expect("platform ids should be assigned")
            .get_inner(),
        PLATFORM_POINTER_ID_OFFSET
    );
    assert_eq!(
        pointer.persistent_device_id,
        PersistentDeviceId::new(PLATFORM_POINTER_ID_OFFSET)
    );
    assert_ne!(pointer.pointer_id, Some(PointerId::primary()));
}

#[test]
fn modifiers_from_bools_sets_expected_bits() {
    let mods = modifiers_from_bools(true, true, true, true);
    assert!(mods.ctrl());
    assert!(mods.alt());
    assert!(mods.shift());
    assert!(mods.meta());
}

#[test]
fn utf16_ranges_use_location_plus_length() {
    let range = utf16_range_from_location_length(2, 3).expect("valid range");
    assert_eq!(range.range, TextRange::new(2, 5));
    assert_eq!(range.encoding, TextRangeEncoding::Utf16CodeUnits);
    assert_eq!(utf16_range_from_location_length(u32::MAX, 1), None);
}

#[test]
fn insert_event_preserves_utf16_replacement_range() {
    assert_eq!(
        text_insert_event_with_utf16_replacement("x", 1, 2),
        Some(TextInputEvent::replace(
            "x",
            TextTargetRange::utf16_code_units(1, 3)
        ))
    );
}

#[test]
fn composition_selection_converts_to_utf8_offsets() {
    assert_eq!(
        composition_update_event_with_utf16_selection("a🙂b", Some(1), Some(2)),
        Some(TextInputEvent::CompositionUpdate(
            CompositionState::new("a🙂b").with_selection(TextRange::new(1, 5))
        ))
    );
}

#[test]
fn composition_selection_rejects_half_specified_selection() {
    assert_eq!(
        composition_update_event_with_utf16_selection("abc", Some(1), None),
        None
    );
    assert_eq!(
        composition_update_event_with_utf16_selection("abc", None, Some(1)),
        None
    );
}

#[test]
fn composition_update_preserves_document_replacement_range() {
    assert_eq!(
        composition_update_event_with_utf16_ranges("ni", Some(0), Some(2), Some(4), Some(3)),
        Some(TextInputEvent::CompositionUpdate(
            CompositionState::new("ni")
                .with_selection(TextRange::new(0, 2))
                .with_replacement_range(TextTargetRange::utf16_code_units(4, 7))
        ))
    );
}

#[test]
fn composition_update_rejects_half_specified_replacement_range() {
    assert_eq!(
        composition_update_event_with_utf16_ranges("ni", Some(0), Some(2), Some(4), None),
        None
    );
    assert_eq!(
        composition_update_event_with_utf16_ranges("ni", Some(0), Some(2), None, Some(3)),
        None
    );
}

#[test]
fn composition_selection_rejects_invalid_utf16_boundaries() {
    assert_eq!(
        composition_update_event_with_utf16_selection("🙂", Some(1), Some(1)),
        None
    );
}
