//! USB HID keyboard usage identifiers (usage page 0x07) reported by UIKit's
//! `UIKey.keyCode`.
use vstd::prelude::*;

verus! {

    pub const A: u16 = 0x04;
    pub const Z: u16 = 0x1D;
    pub const DIGIT_1: u16 = 0x1E; // through 0x27 => 0..9
    pub const DIGIT_0: u16 = 0x27;
    pub const RETURN: u16 = 0x28;
    pub const ESCAPE: u16 = 0x29;
    pub const BACKSPACE: u16 = 0x2A; // Delete (Backspace)
    pub const TAB: u16 = 0x2B;
    pub const SPACE: u16 = 0x2C;
    pub const MINUS: u16 = 0x2D;
    pub const EQUAL: u16 = 0x2E;
    pub const BRACKET_LEFT: u16 = 0x2F;
    pub const BRACKET_RIGHT: u16 = 0x30;
    pub const BACKSLASH: u16 = 0x31;
    pub const SEMICOLON: u16 = 0x33;
    pub const QUOTE: u16 = 0x34;
    pub const GRAVE: u16 = 0x35;
    pub const COMMA: u16 = 0x36;
    pub const PERIOD: u16 = 0x37;
    pub const SLASH: u16 = 0x38;
    pub const CAPS_LOCK: u16 = 0x39;
    pub const F1: u16 = 0x3A; // through F12: 0x45
    pub const F12: u16 = 0x45;
    pub const F13: u16 = 0x68; // through F24: 0x73
    pub const F24: u16 = 0x73;
    pub const PRINT_SCREEN: u16 = 0x46;
    pub const SCROLL_LOCK: u16 = 0x47;
    pub const PAUSE: u16 = 0x48;
    pub const INSERT: u16 = 0x49;
    pub const HOME: u16 = 0x4A;
    pub const PAGE_UP: u16 = 0x4B;
    pub const DELETE_FORWARD: u16 = 0x4C;
    pub const END: u16 = 0x4D;
    pub const PAGE_DOWN: u16 = 0x4E;
    pub const RIGHT_ARROW: u16 = 0x4F;
    pub const LEFT_ARROW: u16 = 0x50;
    pub const DOWN_ARROW: u16 = 0x51;
    pub const UP_ARROW: u16 = 0x52;
    pub const NUM_LOCK: u16 = 0x53;
    pub const NUMPAD_DIVIDE: u16 = 0x54;
    pub const NUMPAD_MULTIPLY: u16 = 0x55;
    pub const NUMPAD_SUBTRACT: u16 = 0x56;
    pub const NUMPAD_ADD: u16 = 0x57;
    pub const NUMPAD_ENTER: u16 = 0x58;
    pub const NUMPAD_1: u16 = 0x59; // ..0x62 = 1..0
    pub const NUMPAD_0: u16 = 0x62;
    pub const NUMPAD_DECIMAL: u16 = 0x63;
    pub const NUMPAD_EQUAL: u16 = 0x67;
    pub const CONTROL_LEFT: u16 = 0xE0;
    pub const SHIFT_LEFT: u16 = 0xE1;
    pub const ALT_LEFT: u16 = 0xE2;
    pub const META_LEFT: u16 = 0xE3;
    pub const CONTROL_RIGHT: u16 = 0xE4;
    pub const SHIFT_RIGHT: u16 = 0xE5;
    pub const ALT_RIGHT: u16 = 0xE6;
    pub const META_RIGHT: u16 = 0xE7;

} // verus!
