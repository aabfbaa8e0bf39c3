//! Mapping helpers shared by the AppKit and UIKit adapters, built from raw
//! platform values without any Objective-C types.
pub mod buttons;
pub mod identity;
pub mod modifiers;
pub mod text;

pub use buttons::{buttons_from_bitmask, try_from_button_index};
pub use identity::{
    pointer_info_from_platform_ids, pointer_info_from_platform_pointer_id,
    pointer_info_primary_for_type, PLATFORM_POINTER_ID_OFFSET,
};
pub use modifiers::modifiers_from_bools;
pub use text::{
    composition_end_event, composition_update_event_with_utf16_ranges,
    composition_update_event_with_utf16_selection, delete_backward_event, text_insert_event,
    text_insert_event_with_utf16_replacement, utf16_range_from_location_length,
};
