//! UIKit-specific mapping helpers for building events from raw values.
use vstd::prelude::*;

use crate::apple::modifiers::{modifier_bits, modifiers_from_bools};
use crate::apple::identity::{platform_id_value, pointer_id_value};
use crate::keyboard::{Code, Location, Modifiers, NamedKey};
use crate::pointer::{PersistentDeviceId, PointerButton, PointerInfo, PointerType};
use crate::uikit::hid;

verus! {

/// Build a [`PointerInfo`] from a UIKit pointer identifier.
///
/// The resulting id is never the reserved primary id.
pub fn pointer_info_from_platform_pointer_id(pointer_type: PointerType, pointer_id: u64) -> (r:
    PointerInfo)
    ensures
        pointer_id_value(r.pointer_id) == platform_id_value(Some(pointer_id)),
        r.persistent_device_id == None::<PersistentDeviceId>,
        r.pointer_type == pointer_type,
        !crate::pointer::is_primary_id(r.pointer_id),
{
    crate::apple::identity::pointer_info_from_platform_pointer_id(pointer_type, pointer_id)
}

/// The pressed-button bitmask of a UIKit contact: an active pen contact
/// presses the primary button in addition to the event's buttons; other
/// contacts keep the event's buttons unchanged.
pub fn contact_buttons_mask_for_uikit_pointer(
    pointer_type: PointerType,
    active: bool,
    event_buttons_mask: u64,
) -> (r: u64)
    ensures
        r == if active && pointer_type == PointerType::Pen {
            event_buttons_mask | 1u64
        } else {
            event_buttons_mask
        },
{
    let mut buttons_mask = event_buttons_mask;
    assert(1u32 << 0u32 == 1u32) by (bit_vector);
    if active && matches!(pointer_type, PointerType::Pen) {
        buttons_mask = buttons_mask | (PointerButton::Primary.bits() as u64);
    }
    buttons_mask
}

/// The button a UIKit contact reports: pens contact with the primary button;
/// finger touches report no button.
pub fn contact_button_for_uikit_pointer(pointer_type: PointerType) -> (r: Option<PointerButton>)
    ensures
        r == if pointer_type == PointerType::Pen {
            Some(PointerButton::Primary)
        } else {
            None
        },
{
    if matches!(pointer_type, PointerType::Pen) {
        Some(PointerButton::Primary)
    } else {
        None
    }
}

/// `UIKeyModifierFlags` bit for Shift.
pub const UIKIT_SHIFT_BIT: u64 = 0x2_0000;
/// `UIKeyModifierFlags` bit for Control.
pub const UIKIT_CONTROL_BIT: u64 = 0x4_0000;
/// `UIKeyModifierFlags` bit for Alternate (Option).
pub const UIKIT_ALT_BIT: u64 = 0x8_0000;
/// `UIKeyModifierFlags` bit for Command.
pub const UIKIT_META_BIT: u64 = 0x10_0000;

/// Build [`Modifiers`] from `UIKeyModifierFlags` bits.
pub fn modifiers_from_uikit_modifier_bits(bits: u64) -> (r: Modifiers)
    ensures
        r@ == modifier_bits(
            bits & UIKIT_CONTROL_BIT != 0,
            bits & UIKIT_ALT_BIT != 0,
            bits & UIKIT_SHIFT_BIT != 0,
            bits & UIKIT_META_BIT != 0,
        ),
        r.has(Modifiers::CONTROL) == (bits & UIKIT_CONTROL_BIT != 0),
        r.has(Modifiers::ALT) == (bits & UIKIT_ALT_BIT != 0),
        r.has(Modifiers::SHIFT) == (bits & UIKIT_SHIFT_BIT != 0),
        r.has(Modifiers::META) == (bits & UIKIT_META_BIT != 0),
{
    modifiers_from_bools(
        (bits & UIKIT_CONTROL_BIT) != 0,
        (bits & UIKIT_ALT_BIT) != 0,
        (bits & UIKIT_SHIFT_BIT) != 0,
        (bits & UIKIT_META_BIT) != 0,
    )
}

/// The letter key at offset `i` from `KeyA`.
pub open spec fn letter_code(i: int) -> Code {
    if i == 0 {
        Code::KeyA
    } else if i == 1 {
        Code::KeyB
    } else if i == 2 {
        Code::KeyC
    } else if i == 3 {
        Code::KeyD
    } else if i == 4 {
        Code::KeyE
    } else if i == 5 {
        Code::KeyF
    } else if i == 6 {
        Code::KeyG
    } else if i == 7 {
        Code::KeyH
    } else if i == 8 {
        Code::KeyI
    } else if i == 9 {
        Code::KeyJ
    } else if i == 10 {
        Code::KeyK
    } else if i == 11 {
        Code::KeyL
    } else if i == 12 {
        Code::KeyM
    } else if i == 13 {
        Code::KeyN
    } else if i == 14 {
        Code::KeyO
    } else if i == 15 {
        Code::KeyP
    } else if i == 16 {
        Code::KeyQ
    } else if i == 17 {
        Code::KeyR
    } else if i == 18 {
        Code::KeyS
    } else if i == 19 {
        Code::KeyT
    } else if i == 20 {
        Code::KeyU
    } else if i == 21 {
        Code::KeyV
    } else if i == 22 {
        Code::KeyW
    } else if i == 23 {
        Code::KeyX
    } else if i == 24 {
        Code::KeyY
    } else {
        Code::KeyZ
    }
}

/// The digit key of the HID usage `usage` in `DIGIT_1..=DIGIT_0`.
pub open spec fn digit_code(usage: int) -> Code {
    if usage == 0x1e {
        Code::Digit1
    } else if usage == 0x1f {
        Code::Digit2
    } else if usage == 0x20 {
        Code::Digit3
    } else if usage == 0x21 {
        Code::Digit4
    } else if usage == 0x22 {
        Code::Digit5
    } else if usage == 0x23 {
        Code::Digit6
    } else if usage == 0x24 {
        Code::Digit7
    } else if usage == 0x25 {
        Code::Digit8
    } else if usage == 0x26 {
        Code::Digit9
    } else {
        Code::Digit0
    }
}

/// The numeric keypad digit of the HID usage `usage` in `NUMPAD_1..=NUMPAD_0`.
pub open spec fn numpad_code(usage: int) -> Code {
    if usage == 0x59 {
        Code::Numpad1
    } else if usage == 0x5a {
        Code::Numpad2
    } else if usage == 0x5b {
        Code::Numpad3
    } else if usage == 0x5c {
        Code::Numpad4
    } else if usage == 0x5d {
        Code::Numpad5
    } else if usage == 0x5e {
        Code::Numpad6
    } else if usage == 0x5f {
        Code::Numpad7
    } else if usage == 0x60 {
        Code::Numpad8
    } else if usage == 0x61 {
        Code::Numpad9
    } else {
        Code::Numpad0
    }
}

/// The code and named key of function key `F{idx}`.
pub open spec fn function_key(idx: int) -> (Code, NamedKey) {
    if idx == 1 {
        (Code::F1, NamedKey::F1)
    } else if idx == 2 {
        (Code::F2, NamedKey::F2)
    } else if idx == 3 {
        (Code::F3, NamedKey::F3)
    } else if idx == 4 {
        (Code::F4, NamedKey::F4)
    } else if idx == 5 {
        (Code::F5, NamedKey::F5)
    } else if idx == 6 {
        (Code::F6, NamedKey::F6)
    } else if idx == 7 {
        (Code::F7, NamedKey::F7)
    } else if idx == 8 {
        (Code::F8, NamedKey::F8)
    } else if idx == 9 {
        (Code::F9, NamedKey::F9)
    } else if idx == 10 {
        (Code::F10, NamedKey::F10)
    } else if idx == 11 {
        (Code::F11, NamedKey::F11)
    } else if idx == 12 {
        (Code::F12, NamedKey::F12)
    } else if idx == 13 {
        (Code::F13, NamedKey::F13)
    } else if idx == 14 {
        (Code::F14, NamedKey::F14)
    } else if idx == 15 {
        (Code::F15, NamedKey::F15)
    } else if idx == 16 {
        (Code::F16, NamedKey::F16)
    } else if idx == 17 {
        (Code::F17, NamedKey::F17)
    } else if idx == 18 {
        (Code::F18, NamedKey::F18)
    } else if idx == 19 {
        (Code::F19, NamedKey::F19)
    } else if idx == 20 {
        (Code::F20, NamedKey::F20)
    } else if idx == 21 {
        (Code::F21, NamedKey::F21)
    } else if idx == 22 {
        (Code::F22, NamedKey::F22)
    } else if idx == 23 {
        (Code::F23, NamedKey::F23)
    } else {
        (Code::F24, NamedKey::F24)
    }
}

/// The code, named key and location that a HID keyboard usage maps to.
pub open spec fn hid_usage_key(usage: u16) -> (Code, Option<NamedKey>, Location) {
    if hid::A <= usage <= hid::Z {
        (letter_code(usage - hid::A), None, Location::Standard)
    } else if hid::DIGIT_1 <= usage <= hid::DIGIT_0 {
        (digit_code(usage as int), None, Location::Standard)
    } else if hid::NUMPAD_1 <= usage <= hid::NUMPAD_0 {
        (numpad_code(usage as int), None, Location::Numpad)
    } else {
        if usage == hid::RETURN {
            (Code::Enter, Some(NamedKey::Enter), Location::Standard)
        } else if usage == hid::ESCAPE {
            (Code::Escape, Some(NamedKey::Escape), Location::Standard)
        } else if usage == hid::BACKSPACE {
            (Code::Backspace, Some(NamedKey::Backspace), Location::Standard)
        } else if usage == hid::TAB {
            (Code::Tab, Some(NamedKey::Tab), Location::Standard)
        } else if usage == hid::SPACE {
            (Code::Space, None, Location::Standard)
        } else if usage == hid::MINUS {
            (Code::Minus, None, Location::Standard)
        } else if usage == hid::EQUAL {
            (Code::Equal, None, Location::Standard)
        } else if usage == hid::BRACKET_LEFT {
            (Code::BracketLeft, None, Location::Standard)
        } else if usage == hid::BRACKET_RIGHT {
            (Code::BracketRight, None, Location::Standard)
        } else if usage == hid::BACKSLASH {
            (Code::Backslash, None, Location::Standard)
        } else if usage == hid::SEMICOLON {
            (Code::Semicolon, None, Location::Standard)
        } else if usage == hid::QUOTE {
            (Code::Quote, None, Location::Standard)
        } else if usage == hid::GRAVE {
            (Code::Backquote, None, Location::Standard)
        } else if usage == hid::COMMA {
            (Code::Comma, None, Location::Standard)
        } else if usage == hid::PERIOD {
            (Code::Period, None, Location::Standard)
        } else if usage == hid::SLASH {
            (Code::Slash, None, Location::Standard)
        } else if usage == hid::CAPS_LOCK {
            (Code::CapsLock, Some(NamedKey::CapsLock), Location::Standard)
        } else if hid::F1 <= usage <= hid::F12 {
            let key = function_key(usage - hid::F1 + 1);
            (key.0, Some(key.1), Location::Standard)
        } else if hid::F13 <= usage <= hid::F24 {
            let key = function_key(usage - hid::F13 + 13);
            (key.0, Some(key.1), Location::Standard)
        } else if usage == hid::PRINT_SCREEN {
            (Code::PrintScreen, Some(NamedKey::PrintScreen), Location::Standard)
        } else if usage == hid::SCROLL_LOCK {
            (Code::ScrollLock, Some(NamedKey::ScrollLock), Location::Standard)
        } else if usage == hid::PAUSE {
            (Code::Pause, Some(NamedKey::Pause), Location::Standard)
        } else if usage == hid::INSERT {
            (Code::Insert, Some(NamedKey::Insert), Location::Standard)
        } else if usage == hid::HOME {
            (Code::Home, Some(NamedKey::Home), Location::Standard)
        } else if usage == hid::PAGE_UP {
            (Code::PageUp, Some(NamedKey::PageUp), Location::Standard)
        } else if usage == hid::DELETE_FORWARD {
            (Code::Delete, Some(NamedKey::Delete), Location::Standard)
        } else if usage == hid::END {
            (Code::End, Some(NamedKey::End), Location::Standard)
        } else if usage == hid::PAGE_DOWN {
            (Code::PageDown, Some(NamedKey::PageDown), Location::Standard)
        } else if usage == hid::RIGHT_ARROW {
            (Code::ArrowRight, Some(NamedKey::ArrowRight), Location::Standard)
        } else if usage == hid::LEFT_ARROW {
            (Code::ArrowLeft, Some(NamedKey::ArrowLeft), Location::Standard)
        } else if usage == hid::DOWN_ARROW {
            (Code::ArrowDown, Some(NamedKey::ArrowDown), Location::Standard)
        } else if usage == hid::UP_ARROW {
            (Code::ArrowUp, Some(NamedKey::ArrowUp), Location::Standard)
        } else if usage == hid::NUM_LOCK {
            (Code::NumLock, Some(NamedKey::NumLock), Location::Numpad)
        } else if usage == hid::NUMPAD_DIVIDE {
            (Code::NumpadDivide, None, Location::Numpad)
        } else if usage == hid::NUMPAD_MULTIPLY {
            (Code::NumpadMultiply, None, Location::Numpad)
        } else if usage == hid::NUMPAD_SUBTRACT {
            (Code::NumpadSubtract, None, Location::Numpad)
        } else if usage == hid::NUMPAD_ADD {
            (Code::NumpadAdd, None, Location::Numpad)
        } else if usage == hid::NUMPAD_ENTER {
            (Code::NumpadEnter, Some(NamedKey::Enter), Location::Numpad)
        } else if usage == hid::NUMPAD_DECIMAL {
            (Code::NumpadDecimal, None, Location::Numpad)
        } else if usage == hid::NUMPAD_EQUAL {
            (Code::NumpadEqual, None, Location::Numpad)
        } else if usage == hid::CONTROL_LEFT {
            (Code::ControlLeft, Some(NamedKey::Control), Location::Left)
        } else if usage == hid::SHIFT_LEFT {
            (Code::ShiftLeft, Some(NamedKey::Shift), Location::Left)
        } else if usage == hid::ALT_LEFT {
            (Code::AltLeft, Some(NamedKey::Alt), Location::Left)
        } else if usage == hid::META_LEFT {
            (Code::MetaLeft, Some(NamedKey::Meta), Location::Left)
        } else if usage == hid::CONTROL_RIGHT {
            (Code::ControlRight, Some(NamedKey::Control), Location::Right)
        } else if usage == hid::SHIFT_RIGHT {
            (Code::ShiftRight, Some(NamedKey::Shift), Location::Right)
        } else if usage == hid::ALT_RIGHT {
            (Code::AltRight, Some(NamedKey::Alt), Location::Right)
        } else if usage == hid::META_RIGHT {
            (Code::MetaRight, Some(NamedKey::Meta), Location::Right)
        } else {
            (Code::Unidentified, Some(NamedKey::Unidentified), Location::Standard)
        }
    }
}

/// The usage that the USB HID keyboard page (0x07) assigns to the key `code`
/// denotes; `Unidentified` denotes no key.
pub open spec fn code_hid_usage(code: Code) -> Option<u16> {
    match code {
        Code::Unidentified => None,
        Code::KeyA => Some(0x04),
        Code::KeyB => Some(0x05),
        Code::KeyC => Some(0x06),
        Code::KeyD => Some(0x07),
        Code::KeyE => Some(0x08),
        Code::KeyF => Some(0x09),
        Code::KeyG => Some(0x0A),
        Code::KeyH => Some(0x0B),
        Code::KeyI => Some(0x0C),
        Code::KeyJ => Some(0x0D),
        Code::KeyK => Some(0x0E),
        Code::KeyL => Some(0x0F),
        Code::KeyM => Some(0x10),
        Code::KeyN => Some(0x11),
        Code::KeyO => Some(0x12),
        Code::KeyP => Some(0x13),
        Code::KeyQ => Some(0x14),
        Code::KeyR => Some(0x15),
        Code::KeyS => Some(0x16),
        Code::KeyT => Some(0x17),
        Code::KeyU => Some(0x18),
        Code::KeyV => Some(0x19),
        Code::KeyW => Some(0x1A),
        Code::KeyX => Some(0x1B),
        Code::KeyY => Some(0x1C),
        Code::KeyZ => Some(0x1D),
        Code::Digit1 => Some(0x1E),
        Code::Digit2 => Some(0x1F),
        Code::Digit3 => Some(0x20),
        Code::Digit4 => Some(0x21),
        Code::Digit5 => Some(0x22),
        Code::Digit6 => Some(0x23),
        Code::Digit7 => Some(0x24),
        Code::Digit8 => Some(0x25),
        Code::Digit9 => Some(0x26),
        Code::Digit0 => Some(0x27),
        Code::Enter => Some(0x28),
        Code::Escape => Some(0x29),
        Code::Backspace => Some(0x2A),
        Code::Tab => Some(0x2B),
        Code::Space => Some(0x2C),
        Code::Minus => Some(0x2D),
        Code::Equal => Some(0x2E),
        Code::BracketLeft => Some(0x2F),
        Code::BracketRight => Some(0x30),
        Code::Backslash => Some(0x31),
        Code::Semicolon => Some(0x33),
        Code::Quote => Some(0x34),
        Code::Backquote => Some(0x35),
        Code::Comma => Some(0x36),
        Code::Period => Some(0x37),
        Code::Slash => Some(0x38),
        Code::CapsLock => Some(0x39),
        Code::F1 => Some(0x3A),
        Code::F2 => Some(0x3B),
        Code::F3 => Some(0x3C),
        Code::F4 => Some(0x3D),
        Code::F5 => Some(0x3E),
        Code::F6 => Some(0x3F),
        Code::F7 => Some(0x40),
        Code::F8 => Some(0x41),
        Code::F9 => Some(0x42),
        Code::F10 => Some(0x43),
        Code::F11 => Some(0x44),
        Code::F12 => Some(0x45),
        Code::PrintScreen => Some(0x46),
        Code::ScrollLock => Some(0x47),
        Code::Pause => Some(0x48),
        Code::Insert => Some(0x49),
        Code::Home => Some(0x4A),
        Code::PageUp => Some(0x4B),
        Code::Delete => Some(0x4C),
        Code::End => Some(0x4D),
        Code::PageDown => Some(0x4E),
        Code::ArrowRight => Some(0x4F),
        Code::ArrowLeft => Some(0x50),
        Code::ArrowDown => Some(0x51),
        Code::ArrowUp => Some(0x52),
        Code::NumLock => Some(0x53),
        Code::NumpadDivide => Some(0x54),
        Code::NumpadMultiply => Some(0x55),
        Code::NumpadSubtract => Some(0x56),
        Code::NumpadAdd => Some(0x57),
        Code::NumpadEnter => Some(0x58),
        Code::Numpad1 => Some(0x59),
        Code::Numpad2 => Some(0x5A),
        Code::Numpad3 => Some(0x5B),
        Code::Numpad4 => Some(0x5C),
        Code::Numpad5 => Some(0x5D),
        Code::Numpad6 => Some(0x5E),
        Code::Numpad7 => Some(0x5F),
        Code::Numpad8 => Some(0x60),
        Code::Numpad9 => Some(0x61),
        Code::Numpad0 => Some(0x62),
        Code::NumpadDecimal => Some(0x63),
        Code::NumpadEqual => Some(0x67),
        Code::F13 => Some(0x68),
        Code::F14 => Some(0x69),
        Code::F15 => Some(0x6A),
        Code::F16 => Some(0x6B),
        Code::F17 => Some(0x6C),
        Code::F18 => Some(0x6D),
        Code::F19 => Some(0x6E),
        Code::F20 => Some(0x6F),
        Code::F21 => Some(0x70),
        Code::F22 => Some(0x71),
        Code::F23 => Some(0x72),
        Code::F24 => Some(0x73),
        Code::ControlLeft => Some(0xE0),
        Code::ShiftLeft => Some(0xE1),
        Code::AltLeft => Some(0xE2),
        Code::MetaLeft => Some(0xE3),
        Code::ControlRight => Some(0xE4),
        Code::ShiftRight => Some(0xE5),
        Code::AltRight => Some(0xE6),
        Code::MetaRight => Some(0xE7),
    }
}

/// The named key that the key `code` produces, where it is a named key:
/// the key of the same name, `Enter` for both Enter keys, the modifier for
/// either side's modifier key; character keys produce none.
pub open spec fn code_named_key(code: Code) -> Option<NamedKey> {
    match code {
        Code::Unidentified => Some(NamedKey::Unidentified),
        Code::Enter | Code::NumpadEnter => Some(NamedKey::Enter),
        Code::ControlLeft | Code::ControlRight => Some(NamedKey::Control),
        Code::ShiftLeft | Code::ShiftRight => Some(NamedKey::Shift),
        Code::AltLeft | Code::AltRight => Some(NamedKey::Alt),
        Code::MetaLeft | Code::MetaRight => Some(NamedKey::Meta),
        Code::Escape => Some(NamedKey::Escape),
        Code::Backspace => Some(NamedKey::Backspace),
        Code::Tab => Some(NamedKey::Tab),
        Code::CapsLock => Some(NamedKey::CapsLock),
        Code::F1 => Some(NamedKey::F1),
        Code::F2 => Some(NamedKey::F2),
        Code::F3 => Some(NamedKey::F3),
        Code::F4 => Some(NamedKey::F4),
        Code::F5 => Some(NamedKey::F5),
        Code::F6 => Some(NamedKey::F6),
        Code::F7 => Some(NamedKey::F7),
        Code::F8 => Some(NamedKey::F8),
        Code::F9 => Some(NamedKey::F9),
        Code::F10 => Some(NamedKey::F10),
        Code::F11 => Some(NamedKey::F11),
        Code::F12 => Some(NamedKey::F12),
        Code::F13 => Some(NamedKey::F13),
        Code::F14 => Some(NamedKey::F14),
        Code::F15 => Some(NamedKey::F15),
        Code::F16 => Some(NamedKey::F16),
        Code::F17 => Some(NamedKey::F17),
        Code::F18 => Some(NamedKey::F18),
        Code::F19 => Some(NamedKey::F19),
        Code::F20 => Some(NamedKey::F20),
        Code::F21 => Some(NamedKey::F21),
        Code::F22 => Some(NamedKey::F22),
        Code::F23 => Some(NamedKey::F23),
        Code::F24 => Some(NamedKey::F24),
        Code::PrintScreen => Some(NamedKey::PrintScreen),
        Code::ScrollLock => Some(NamedKey::ScrollLock),
        Code::Pause => Some(NamedKey::Pause),
        Code::Insert => Some(NamedKey::Insert),
        Code::Home => Some(NamedKey::Home),
        Code::PageUp => Some(NamedKey::PageUp),
        Code::Delete => Some(NamedKey::Delete),
        Code::End => Some(NamedKey::End),
        Code::PageDown => Some(NamedKey::PageDown),
        Code::ArrowRight => Some(NamedKey::ArrowRight),
        Code::ArrowLeft => Some(NamedKey::ArrowLeft),
        Code::ArrowDown => Some(NamedKey::ArrowDown),
        Code::ArrowUp => Some(NamedKey::ArrowUp),
        Code::NumLock => Some(NamedKey::NumLock),
        _ => None,
    }
}

/// Where the key `code` sits: the left or right modifier keys on their side,
/// Num Lock and the keypad keys on the numeric keypad, every other key in the
/// standard area.
pub open spec fn code_location(code: Code) -> Location {
    match code {
        Code::ControlLeft | Code::ShiftLeft | Code::AltLeft | Code::MetaLeft => Location::Left,
        Code::ControlRight | Code::ShiftRight | Code::AltRight | Code::MetaRight => Location::Right,
        Code::NumLock | Code::Numpad0 | Code::Numpad1 | Code::Numpad2 | Code::Numpad3
        | Code::Numpad4 | Code::Numpad5 | Code::Numpad6 | Code::Numpad7 | Code::Numpad8
        | Code::Numpad9 | Code::NumpadAdd | Code::NumpadDecimal | Code::NumpadDivide
        | Code::NumpadEnter | Code::NumpadEqual | Code::NumpadMultiply
        | Code::NumpadSubtract => Location::Numpad,
        _ => Location::Standard,
    }
}

/// A HID usage maps to the key that the USB HID keyboard page assigns to
/// that usage, or to `Unidentified` where the key is not known here; the
/// named key and the location are those of that key.
pub proof fn lemma_hid_usage_denotes_its_key(usage: u16)
    ensures
        hid_usage_key(usage).0 == Code::Unidentified || code_hid_usage(hid_usage_key(usage).0)
            == Some(usage),
        hid_usage_key(usage).1 == code_named_key(hid_usage_key(usage).0),
        hid_usage_key(usage).2 == code_location(hid_usage_key(usage).0),
{
}

/// Every key that the USB HID keyboard page assigns a usage to is recognised
/// from that usage.
pub proof fn lemma_hid_page_key_is_recognised(code: Code)
    ensures
        code_hid_usage(code) matches Some(usage) ==> hid_usage_key(usage).0 == code,
{
}

/// Map a HID keyboard usage (page 0x07) to a physical code, an optional named
/// key and a key location. Unknown usages map to `Unidentified`.
pub fn hid_usage_to_code_named_location(usage: u16) -> (r: (Code, Option<NamedKey>, Location))
    ensures
        r == hid_usage_key(usage),
{
    if hid::A <= usage && usage <= hid::Z {
        let code = match usage - hid::A {
            0 => Code::KeyA,
            1 => Code::KeyB,
            2 => Code::KeyC,
            3 => Code::KeyD,
            4 => Code::KeyE,
            5 => Code::KeyF,
            6 => Code::KeyG,
            7 => Code::KeyH,
            8 => Code::KeyI,
            9 => Code::KeyJ,
            10 => Code::KeyK,
            11 => Code::KeyL,
            12 => Code::KeyM,
            13 => Code::KeyN,
            14 => Code::KeyO,
            15 => Code::KeyP,
            16 => Code::KeyQ,
            17 => Code::KeyR,
            18 => Code::KeyS,
            19 => Code::KeyT,
            20 => Code::KeyU,
            21 => Code::KeyV,
            22 => Code::KeyW,
            23 => Code::KeyX,
            24 => Code::KeyY,
            _ => Code::KeyZ,
        };
        return (code, None, Location::Standard);
    }
    if hid::DIGIT_1 <= usage && usage <= hid::DIGIT_0 {
        let code = match usage {
            0x1E => Code::Digit1,
            0x1F => Code::Digit2,
            0x20 => Code::Digit3,
            0x21 => Code::Digit4,
            0x22 => Code::Digit5,
            0x23 => Code::Digit6,
            0x24 => Code::Digit7,
            0x25 => Code::Digit8,
            0x26 => Code::Digit9,
            _ => Code::Digit0,
        };
        return (code, None, Location::Standard);
    }
    if hid::NUMPAD_1 <= usage && usage <= hid::NUMPAD_0 {
        let code = match usage {
            0x59 => Code::Numpad1,
            0x5A => Code::Numpad2,
            0x5B => Code::Numpad3,
            0x5C => Code::Numpad4,
            0x5D => Code::Numpad5,
            0x5E => Code::Numpad6,
            0x5F => Code::Numpad7,
            0x60 => Code::Numpad8,
            0x61 => Code::Numpad9,
            _ => Code::Numpad0,
        };
        return (code, None, Location::Numpad);
    }
    match usage {
        hid::RETURN => (Code::Enter, Some(NamedKey::Enter), Location::Standard),
        hid::ESCAPE => (Code::Escape, Some(NamedKey::Escape), Location::Standard),
        hid::BACKSPACE => (Code::Backspace, Some(NamedKey::Backspace), Location::Standard),
        hid::TAB => (Code::Tab, Some(NamedKey::Tab), Location::Standard),
        hid::SPACE => (Code::Space, None, Location::Standard),
        hid::MINUS => (Code::Minus, None, Location::Standard),
        hid::EQUAL => (Code::Equal, None, Location::Standard),
        hid::BRACKET_LEFT => (Code::BracketLeft, None, Location::Standard),
        hid::BRACKET_RIGHT => (Code::BracketRight, None, Location::Standard),
        hid::BACKSLASH => (Code::Backslash, None, Location::Standard),
        hid::SEMICOLON => (Code::Semicolon, None, Location::Standard),
        hid::QUOTE => (Code::Quote, None, Location::Standard),
        hid::GRAVE => (Code::Backquote, None, Location::Standard),
        hid::COMMA => (Code::Comma, None, Location::Standard),
        hid::PERIOD => (Code::Period, None, Location::Standard),
        hid::SLASH => (Code::Slash, None, Location::Standard),
        hid::CAPS_LOCK => (Code::CapsLock, Some(NamedKey::CapsLock), Location::Standard),
        hid::F1..=hid::F12 => {
            let idx = (usage - hid::F1) as u8 + 1;
            let (code, named) = match idx {
                1 => (Code::F1, NamedKey::F1),
                2 => (Code::F2, NamedKey::F2),
                3 => (Code::F3, NamedKey::F3),
                4 => (Code::F4, NamedKey::F4),
                5 => (Code::F5, NamedKey::F5),
                6 => (Code::F6, NamedKey::F6),
                7 => (Code::F7, NamedKey::F7),
                8 => (Code::F8, NamedKey::F8),
                9 => (Code::F9, NamedKey::F9),
                10 => (Code::F10, NamedKey::F10),
                11 => (Code::F11, NamedKey::F11),
                _ => (Code::F12, NamedKey::F12),
            };
            (code, Some(named), Location::Standard)
        },
        hid::F13..=hid::F24 => {
            let idx = (usage - hid::F13) as u8 + 13;
            let (code, named) = match idx {
                13 => (Code::F13, NamedKey::F13),
                14 => (Code::F14, NamedKey::F14),
                15 => (Code::F15, NamedKey::F15),
                16 => (Code::F16, NamedKey::F16),
                17 => (Code::F17, NamedKey::F17),
                18 => (Code::F18, NamedKey::F18),
                19 => (Code::F19, NamedKey::F19),
                20 => (Code::F20, NamedKey::F20),
                21 => (Code::F21, NamedKey::F21),
                22 => (Code::F22, NamedKey::F22),
                23 => (Code::F23, NamedKey::F23),
                _ => (Code::F24, NamedKey::F24),
            };
            (code, Some(named), Location::Standard)
        },
        hid::PRINT_SCREEN => (Code::PrintScreen, Some(NamedKey::PrintScreen), Location::Standard),
        hid::SCROLL_LOCK => (Code::ScrollLock, Some(NamedKey::ScrollLock), Location::Standard),
        hid::PAUSE => (Code::Pause, Some(NamedKey::Pause), Location::Standard),
        hid::INSERT => (Code::Insert, Some(NamedKey::Insert), Location::Standard),
        hid::HOME => (Code::Home, Some(NamedKey::Home), Location::Standard),
        hid::PAGE_UP => (Code::PageUp, Some(NamedKey::PageUp), Location::Standard),
        hid::DELETE_FORWARD => (Code::Delete, Some(NamedKey::Delete), Location::Standard),
        hid::END => (Code::End, Some(NamedKey::End), Location::Standard),
        hid::PAGE_DOWN => (Code::PageDown, Some(NamedKey::PageDown), Location::Standard),
        hid::RIGHT_ARROW => (Code::ArrowRight, Some(NamedKey::ArrowRight), Location::Standard),
        hid::LEFT_ARROW => (Code::ArrowLeft, Some(NamedKey::ArrowLeft), Location::Standard),
        hid::DOWN_ARROW => (Code::ArrowDown, Some(NamedKey::ArrowDown), Location::Standard),
        hid::UP_ARROW => (Code::ArrowUp, Some(NamedKey::ArrowUp), Location::Standard),
        hid::NUM_LOCK => (Code::NumLock, Some(NamedKey::NumLock), Location::Numpad),
        hid::NUMPAD_DIVIDE => (Code::NumpadDivide, None, Location::Numpad),
        hid::NUMPAD_MULTIPLY => (Code::NumpadMultiply, None, Location::Numpad),
        hid::NUMPAD_SUBTRACT => (Code::NumpadSubtract, None, Location::Numpad),
        hid::NUMPAD_ADD => (Code::NumpadAdd, None, Location::Numpad),
        hid::NUMPAD_ENTER => (Code::NumpadEnter, Some(NamedKey::Enter), Location::Numpad),
        hid::NUMPAD_DECIMAL => (Code::NumpadDecimal, None, Location::Numpad),
        hid::NUMPAD_EQUAL => (Code::NumpadEqual, None, Location::Numpad),
        hid::CONTROL_LEFT => (Code::ControlLeft, Some(NamedKey::Control), Location::Left),
        hid::SHIFT_LEFT => (Code::ShiftLeft, Some(NamedKey::Shift), Location::Left),
        hid::ALT_LEFT => (Code::AltLeft, Some(NamedKey::Alt), Location::Left),
        hid::META_LEFT => (Code::MetaLeft, Some(NamedKey::Meta), Location::Left),
        hid::CONTROL_RIGHT => (Code::ControlRight, Some(NamedKey::Control), Location::Right),
        hid::SHIFT_RIGHT => (Code::ShiftRight, Some(NamedKey::Shift), Location::Right),
        hid::ALT_RIGHT => (Code::AltRight, Some(NamedKey::Alt), Location::Right),
        hid::META_RIGHT => (Code::MetaRight, Some(NamedKey::Meta), Location::Right),
        _ => (Code::Unidentified, Some(NamedKey::Unidentified), Location::Standard),
    }
}

} // verus!
