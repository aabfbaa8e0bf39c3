use ui_events::apple::buttons_from_bitmask;
use ui_events::keyboard::{Code, Location, NamedKey};
use ui_events::pointer::{PointerButton, PointerType};
use ui_events::uikit::hid;
use ui_events::uikit::{
    contact_button_for_uikit_pointer, contact_buttons_mask_for_uikit_pointer,
    hid_usage_to_code_named_location, modifiers_from_uikit_modifier_bits,
    pointer_info_from_platform_pointer_id, UIKIT_ALT_BIT, UIKIT_CONTROL_BIT, UIKIT_META_BIT,
    UIKIT_SHIFT_BIT,
};

#[test]
fn platform_pointer_ids_do_not_collide_with_primary() {
    let pointer = pointer_info_from_platform_pointer_id(PointerType::Touch, 0);
    assert_eq!(
        pointer
            .pointer_id
            .expect("platform ids should be assigned")
            .get_inner(),
        2
    );
    assert!(!pointer.is_primary_pointer());
}

#[test]
fn uikit_modifier_bits_map_to_ui_events_modifiers() {
    let mods = modifiers_from_uikit_modifier_bits(
        UIKIT_CONTROL_BIT | UIKIT_ALT_BIT | UIKIT_SHIFT_BIT | UIKIT_META_BIT,
    );
    assert!(mods.ctrl());
    assert!(mods.alt());
    assert!(mods.shift());
    assert!(mods.meta());
}

#[test]
fn hid_usage_maps_modifier_locations() {
    assert_eq!(
        hid_usage_to_code_named_location(hid::SHIFT_LEFT),
        (Code::ShiftLeft, Some(NamedKey::Shift), Location::Left)
    );
    assert_eq!(
        hid_usage_to_code_named_location(hid::META_RIGHT),
        (Code::MetaRight, Some(NamedKey::Meta), Location::Right)
    );
}

#[test]
fn hid_usage_maps_numpad_keys() {
    assert_eq!(
        hid_usage_to_code_named_location(hid::NUMPAD_1),
        (Code::Numpad1, None, Location::Numpad)
    );
    assert_eq!(
        hid_usage_to_code_named_location(hid::NUMPAD_ENTER),
        (Code::NumpadEnter, Some(NamedKey::Enter), Location::Numpad)
    );
    assert_eq!(
        hid_usage_to_code_named_location(hid::NUMPAD_EQUAL),
        (Code::NumpadEqual, None, Location::Numpad)
    );
}

#[test]
fn hid_usage_maps_function_named_keys() {
    assert_eq!(
        hid_usage_to_code_named_location(hid::F1),
        (Code::F1, Some(NamedKey::F1), Location::Standard)
    );
    assert_eq!(
        hid_usage_to_code_named_location(hid::F13),
        (Code::F13, Some(NamedKey::F13), Location::Standard)
    );
    assert_eq!(
        hid_usage_to_code_named_location(hid::F24),
        (Code::F24, Some(NamedKey::F24), Location::Standard)
    );
}

#[test]
fn uikit_pen_contact_maps_to_primary_button() {
    assert_eq!(
        contact_button_for_uikit_pointer(PointerType::Pen),
        Some(PointerButton::Primary)
    );

    let buttons = buttons_from_bitmask(contact_buttons_mask_for_uikit_pointer(
        PointerType::Pen,
        true,
        PointerButton::Secondary.bits() as u64,
    ));
    assert!(buttons.contains(PointerButton::Primary));
    assert!(buttons.contains(PointerButton::Secondary));
}

#[test]
fn uikit_touch_contact_stays_buttonless() {
    assert_eq!(contact_button_for_uikit_pointer(PointerType::Touch), None);
    assert_eq!(
        contact_buttons_mask_for_uikit_pointer(PointerType::Touch, true, 0),
        0
    );
}
