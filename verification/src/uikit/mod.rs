//! UIKit (iOS/tvOS) mapping helpers built from raw values.
//!
//! - Finger touches use `button: None`; active stylus contacts press the
//!   primary button.
//! - Keyboard input arrives as HID usages and `UIKeyModifierFlags` bits.
pub mod hid;
pub mod mapping;

pub use mapping::{
    contact_button_for_uikit_pointer, contact_buttons_mask_for_uikit_pointer,
    hid_usage_to_code_named_location, modifiers_from_uikit_modifier_bits,
    pointer_info_from_platform_pointer_id, UIKIT_ALT_BIT, UIKIT_CONTROL_BIT, UIKIT_META_BIT,
    UIKIT_SHIFT_BIT,
};
