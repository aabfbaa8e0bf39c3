use ui_events::pointer::{PointerButton, PointerId};
use ui_events::web::{
    pointer_attach_count_from_active_touches, pointer_id_from_touch_identifier,
    try_from_web_button,
};

#[test]
fn web_mouse_button_mapping_matches_dom_spec() {
    assert_eq!(try_from_web_button(0), Some(PointerButton::Primary));
    assert_eq!(try_from_web_button(1), Some(PointerButton::Auxiliary));
    assert_eq!(try_from_web_button(2), Some(PointerButton::Secondary));
    assert_eq!(try_from_web_button(3), Some(PointerButton::X1));
    assert_eq!(try_from_web_button(4), Some(PointerButton::X2));
    assert_eq!(try_from_web_button(-1), None);
    assert_eq!(try_from_web_button(32), None);
}

#[test]
fn touch_identifier_to_pointer_id_mapping() {
    assert_eq!(
        pointer_id_from_touch_identifier(0, Some(0)),
        Some(PointerId::primary())
    );
    assert_eq!(
        pointer_id_from_touch_identifier(0, Some(1)),
        PointerId::new(2)
    );
    assert_eq!(
        pointer_id_from_touch_identifier(1, Some(1)),
        Some(PointerId::primary())
    );
    assert_eq!(
        pointer_id_from_touch_identifier(1, Some(0)),
        PointerId::new(3)
    );
    assert_eq!(pointer_id_from_touch_identifier(-1, Some(0)), None);
}

#[test]
fn touch_count_clamps_to_u8() {
    assert_eq!(pointer_attach_count_from_active_touches(0), 0);
    assert_eq!(pointer_attach_count_from_active_touches(1), 1);
    assert_eq!(pointer_attach_count_from_active_touches(255), 255);
    assert_eq!(pointer_attach_count_from_active_touches(256), 255);
    assert_eq!(pointer_attach_count_from_active_touches(u32::MAX), 255);
}
