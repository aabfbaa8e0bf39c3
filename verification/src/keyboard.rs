//! Keyboard vocabulary used by the adapters: modifier flags, physical key
//! codes, named keys and key locations.
use vstd::prelude::*;

verus! {

/// A set of keyboard modifier flags, stored as a bitmask.
#[derive(Clone, Copy, Debug, Default, PartialEq, Eq, Hash, Structural)]
pub struct Modifiers {
    bits: u32,
}

impl View for Modifiers {
    type V = u32;

    closed spec fn view(&self) -> u32 {
        self.bits
    }
}

impl Modifiers {
    /// The Alt (Option) key.
    pub const ALT: u32 = 0x01;
    /// The AltGraph key.
    pub const ALT_GRAPH: u32 = 0x02;
    /// The Caps Lock state.
    pub const CAPS_LOCK: u32 = 0x04;
    /// The Control key.
    pub const CONTROL: u32 = 0x08;
    /// The Fn key.
    pub const FN: u32 = 0x10;
    /// The Fn Lock state.
    pub const FN_LOCK: u32 = 0x20;
    /// The Meta (Command, Windows) key.
    pub const META: u32 = 0x40;
    /// The Num Lock state.
    pub const NUM_LOCK: u32 = 0x80;
    /// The Scroll Lock state.
    pub const SCROLL_LOCK: u32 = 0x100;
    /// The Shift key.
    pub const SHIFT: u32 = 0x200;
    /// The Symbol key.
    pub const SYMBOL: u32 = 0x400;
    /// The Symbol Lock state.
    pub const SYMBOL_LOCK: u32 = 0x800;

    /// Whether every flag of `flag` is in the set.
    pub open spec fn has(self, flag: u32) -> bool {
        self@ & flag == flag
    }

    /// The empty set of modifiers.
    pub fn empty() -> (r: Self)
        ensures
            r@ == 0,
    {
        Modifiers { bits: 0 }
    }

    /// The set with exactly the bitmask `bits`.
    pub fn from_bits(bits: u32) -> (r: Self)
        ensures
            r@ == bits,
    {
        Modifiers { bits }
    }

    /// The bitmask of this set.
    pub fn bits(self) -> (r: u32)
        ensures
            r == self@,
    {
        self.bits
    }

    /// Add the flags of `flag` to the set.
    pub fn insert(&mut self, flag: u32)
        ensures
            final(self)@ == old(self)@ | flag,
    {
        self.bits = self.bits | flag;
    }

    /// Whether every flag of `flag` is in the set.
    pub fn contains(self, flag: u32) -> (r: bool)
        ensures
            r == self.has(flag),
    {
        (self.bits & flag) == flag
    }

    /// Whether Control is held.
    pub fn ctrl(self) -> (r: bool)
        ensures
            r == self.has(Self::CONTROL),
    {
        self.contains(Self::CONTROL)
    }

    /// Whether Alt is held.
    pub fn alt(self) -> (r: bool)
        ensures
            r == self.has(Self::ALT),
    {
        self.contains(Self::ALT)
    }

    /// Whether Shift is held.
    pub fn shift(self) -> (r: bool)
        ensures
            r == self.has(Self::SHIFT),
    {
        self.contains(Self::SHIFT)
    }

    /// Whether Meta is held.
    pub fn meta(self) -> (r: bool)
        ensures
            r == self.has(Self::META),
    {
        self.contains(Self::META)
    }
}

/// A modifier set is determined by its bitmask: sets with equal views are
/// equal.
pub proof fn lemma_modifiers_view_determines(a: Modifiers, b: Modifiers)
    ensures
        a@ == b@ <==> a == b,
{
}

/// Where on the keyboard a key sits.
#[derive(Clone, Copy, Debug, PartialEq, Eq, Hash, Structural)]
pub enum Location {
    /// The key has a single position on the keyboard.
    Standard,
    /// The left copy of a key that exists twice.
    Left,
    /// The right copy of a key that exists twice.
    Right,
    /// The key is on the numeric keypad.
    Numpad,
}

/// A named (non-printable) key value.
#[derive(Clone, Copy, Debug, PartialEq, Eq, Hash, Structural)]
pub enum NamedKey {
    Unidentified,
    Alt,
    CapsLock,
    Control,
    Meta,
    NumLock,
    ScrollLock,
    Shift,
    Enter,
    Tab,
    ArrowDown,
    ArrowLeft,
    ArrowRight,
    ArrowUp,
    End,
    Home,
    PageDown,
    PageUp,
    Backspace,
    Delete,
    Insert,
    Escape,
    Pause,
    PrintScreen,
    F1,
    F2,
    F3,
    F4,
    F5,
    F6,
    F7,
    F8,
    F9,
    F10,
    F11,
    F12,
    F13,
    F14,
    F15,
    F16,
    F17,
    F18,
    F19,
    F20,
    F21,
    F22,
    F23,
    F24,
}

/// A physical key position, named after the key on a US layout.
#[derive(Clone, Copy, Debug, PartialEq, Eq, Hash, Structural)]
pub enum Code {
    Unidentified,
    Backquote,
    Backslash,
    BracketLeft,
    BracketRight,
    Comma,
    Digit0,
    Digit1,
    Digit2,
    Digit3,
    Digit4,
    Digit5,
    Digit6,
    Digit7,
    Digit8,
    Digit9,
    Equal,
    KeyA,
    KeyB,
    KeyC,
    KeyD,
    KeyE,
    KeyF,
    KeyG,
    KeyH,
    KeyI,
    KeyJ,
    KeyK,
    KeyL,
    KeyM,
    KeyN,
    KeyO,
    KeyP,
    KeyQ,
    KeyR,
    KeyS,
    KeyT,
    KeyU,
    KeyV,
    KeyW,
    KeyX,
    KeyY,
    KeyZ,
    Minus,
    Period,
    Quote,
    Semicolon,
    Slash,
    AltLeft,
    AltRight,
    Backspace,
    CapsLock,
    ControlLeft,
    ControlRight,
    Enter,
    MetaLeft,
    MetaRight,
    ShiftLeft,
    ShiftRight,
    Space,
    Tab,
    Delete,
    End,
    Home,
    Insert,
    PageDown,
    PageUp,
    ArrowDown,
    ArrowLeft,
    ArrowRight,
    ArrowUp,
    NumLock,
    Numpad0,
    Numpad1,
    Numpad2,
    Numpad3,
    Numpad4,
    Numpad5,
    Numpad6,
    Numpad7,
    Numpad8,
    Numpad9,
    NumpadAdd,
    NumpadDecimal,
    NumpadDivide,
    NumpadEnter,
    NumpadEqual,
    NumpadMultiply,
    NumpadSubtract,
    Escape,
    F1,
    F2,
    F3,
    F4,
    F5,
    F6,
    F7,
    F8,
    F9,
    F10,
    F11,
    F12,
    F13,
    F14,
    F15,
    F16,
    F17,
    F18,
    F19,
    F20,
    F21,
    F22,
    F23,
    F24,
    PrintScreen,
    ScrollLock,
    Pause,
}

} // verus!
