//! Pointer identity and button types shared by the platform adapters.
//!
//! Buttons follow the W3C Pointer Events numbering: the button at index `i`
//! occupies bit `i` of a [`PointerButtons`] set, so `Primary` is bit 0,
//! `Secondary` bit 1, `Auxiliary` bit 2, and so on up to `B32` at bit 31.
use vstd::prelude::*;

verus! {

/// A pointer button.
#[derive(Clone, Copy, Debug, PartialEq, Eq, Hash, Structural)]
pub enum PointerButton {
    /// Primary button, commonly the left mouse button, touch contact, pen contact.
    Primary,
    /// Secondary button, commonly the right mouse button, pen barrel button.
    Secondary,
    /// Auxiliary button, commonly the middle mouse button.
    Auxiliary,
    /// X1 (back) mouse button.
    X1,
    /// X2 (forward) mouse button.
    X2,
    /// Pen eraser button.
    PenEraser,
    /// Button 7.
    B7,
    /// Button 8.
    B8,
    /// Button 9.
    B9,
    /// Button 10.
    B10,
    /// Button 11.
    B11,
    /// Button 12.
    B12,
    /// Button 13.
    B13,
    /// Button 14.
    B14,
    /// Button 15.
    B15,
    /// Button 16.
    B16,
    /// Button 17.
    B17,
    /// Button 18.
    B18,
    /// Button 19.
    B19,
    /// Button 20.
    B20,
    /// Button 21.
    B21,
    /// Button 22.
    B22,
    /// Button 23.
    B23,
    /// Button 24.
    B24,
    /// Button 25.
    B25,
    /// Button 26.
    B26,
    /// Button 27.
    B27,
    /// Button 28.
    B28,
    /// Button 29.
    B29,
    /// Button 30.
    B30,
    /// Button 31.
    B31,
    /// Button 32.
    B32,
}

/// The button whose bit index is `i` (meaningful for `0 <= i < 32`).
pub open spec fn button_at(i: int) -> PointerButton {
    if i == 0 {
        PointerButton::Primary
    } else if i == 1 {
        PointerButton::Secondary
    } else if i == 2 {
        PointerButton::Auxiliary
    } else if i == 3 {
        PointerButton::X1
    } else if i == 4 {
        PointerButton::X2
    } else if i == 5 {
        PointerButton::PenEraser
    } else if i == 6 {
        PointerButton::B7
    } else if i == 7 {
        PointerButton::B8
    } else if i == 8 {
        PointerButton::B9
    } else if i == 9 {
        PointerButton::B10
    } else if i == 10 {
        PointerButton::B11
    } else if i == 11 {
        PointerButton::B12
    } else if i == 12 {
        PointerButton::B13
    } else if i == 13 {
        PointerButton::B14
    } else if i == 14 {
        PointerButton::B15
    } else if i == 15 {
        PointerButton::B16
    } else if i == 16 {
        PointerButton::B17
    } else if i == 17 {
        PointerButton::B18
    } else if i == 18 {
        PointerButton::B19
    } else if i == 19 {
        PointerButton::B20
    } else if i == 20 {
        PointerButton::B21
    } else if i == 21 {
        PointerButton::B22
    } else if i == 22 {
        PointerButton::B23
    } else if i == 23 {
        PointerButton::B24
    } else if i == 24 {
        PointerButton::B25
    } else if i == 25 {
        PointerButton::B26
    } else if i == 26 {
        PointerButton::B27
    } else if i == 27 {
        PointerButton::B28
    } else if i == 28 {
        PointerButton::B29
    } else if i == 29 {
        PointerButton::B30
    } else if i == 30 {
        PointerButton::B31
    } else {
        PointerButton::B32
    }
}

impl PointerButton {
    /// The bit index of this button in a [`PointerButtons`] set.
    pub open spec fn index(self) -> u32 {
        match self {
            PointerButton::Primary => 0,
            PointerButton::Secondary => 1,
            PointerButton::Auxiliary => 2,
            PointerButton::X1 => 3,
            PointerButton::X2 => 4,
            PointerButton::PenEraser => 5,
            PointerButton::B7 => 6,
            PointerButton::B8 => 7,
            PointerButton::B9 => 8,
            PointerButton::B10 => 9,
            PointerButton::B11 => 10,
            PointerButton::B12 => 11,
            PointerButton::B13 => 12,
            PointerButton::B14 => 13,
            PointerButton::B15 => 14,
            PointerButton::B16 => 15,
            PointerButton::B17 => 16,
            PointerButton::B18 => 17,
            PointerButton::B19 => 18,
            PointerButton::B20 => 19,
            PointerButton::B21 => 20,
            PointerButton::B22 => 21,
            PointerButton::B23 => 22,
            PointerButton::B24 => 23,
            PointerButton::B25 => 24,
            PointerButton::B26 => 25,
            PointerButton::B27 => 26,
            PointerButton::B28 => 27,
            PointerButton::B29 => 28,
            PointerButton::B30 => 29,
            PointerButton::B31 => 30,
            PointerButton::B32 => 31,
        }
    }

    /// The single-bit mask of this button.
    pub open spec fn bit(self) -> u32 {
        1u32 << self.index()
    }

    /// The single-bit mask of this button (`1 << index`).
    pub fn bits(self) -> (r: u32)
        ensures
            r == self.bit(),
    {
        let i: u32 = match self {
            PointerButton::Primary => 0,
            PointerButton::Secondary => 1,
            PointerButton::Auxiliary => 2,
            PointerButton::X1 => 3,
            PointerButton::X2 => 4,
            PointerButton::PenEraser => 5,
            PointerButton::B7 => 6,
            PointerButton::B8 => 7,
            PointerButton::B9 => 8,
            PointerButton::B10 => 9,
            PointerButton::B11 => 10,
            PointerButton::B12 => 11,
            PointerButton::B13 => 12,
            PointerButton::B14 => 13,
            PointerButton::B15 => 14,
            PointerButton::B16 => 15,
            PointerButton::B17 => 16,
            PointerButton::B18 => 17,
            PointerButton::B19 => 18,
            PointerButton::B20 => 19,
            PointerButton::B21 => 20,
            PointerButton::B22 => 21,
            PointerButton::B23 => 22,
            PointerButton::B24 => 23,
            PointerButton::B25 => 24,
            PointerButton::B26 => 25,
            PointerButton::B27 => 26,
            PointerButton::B28 => 27,
            PointerButton::B29 => 28,
            PointerButton::B30 => 29,
            PointerButton::B31 => 30,
            PointerButton::B32 => 31,
        };
        1u32 << i
    }
}

/// Every button sits at its own index below 32: `button_at` inverts `index`.
pub proof fn lemma_button_at_index(b: PointerButton)
    ensures
        button_at(b.index() as int) == b,
        b.index() < 32,
{
}

/// `index` inverts `button_at` on `0..32`.
pub proof fn lemma_index_of_button_at(i: int)
    requires
        0 <= i < 32,
    ensures
        button_at(i).index() == i,
{
}

/// A set of pointer buttons, stored as a bitmask indexed by
/// [`PointerButton::index`].
#[derive(Clone, Copy, Debug, Default, PartialEq, Eq, Hash, Structural)]
pub struct PointerButtons {
    bits: u32,
}

impl View for PointerButtons {
    type V = u32;

    closed spec fn view(&self) -> u32 {
        self.bits
    }
}

impl PointerButtons {
    /// Whether `button` is in a set with bitmask `mask`.
    pub open spec fn mask_has(mask: u32, button: PointerButton) -> bool {
        mask & button.bit() != 0
    }

    /// The empty set.
    pub fn new() -> (r: Self)
        ensures
            r@ == 0,
    {
        PointerButtons { bits: 0 }
    }

    /// The set with exactly the bitmask `bits`.
    pub fn from_bits(bits: u32) -> (r: Self)
        ensures
            r@ == bits,
    {
        PointerButtons { bits }
    }

    /// The bitmask of this set.
    pub fn bits(self) -> (r: u32)
        ensures
            r == self@,
    {
        self.bits
    }

    /// Add `button` to the set.
    pub fn insert(&mut self, button: PointerButton)
        ensures
            final(self)@ == old(self)@ | button.bit(),
    {
        self.bits = self.bits | button.bits();
    }

    /// Whether `button` is in the set.
    pub fn contains(self, button: PointerButton) -> (r: bool)
        ensures
            r == Self::mask_has(self@, button),
    {
        (self.bits & button.bits()) != 0
    }

    /// Whether the set holds no button.
    pub fn is_empty(self) -> (r: bool)
        ensures
            r == (self@ == 0),
    {
        self.bits == 0
    }
}

/// A button set is determined by its bitmask: sets with equal views are equal.
pub proof fn lemma_buttons_view_determines(a: PointerButtons, b: PointerButtons)
    ensures
        a@ == b@ <==> a == b,
{
}

/// The click or contact count of a pointer state: a platform count clamped
/// into `0..=255`.
pub fn pointer_count_from_click_count(click_count: i64) -> (r: u8)
    ensures
        r == if click_count < 0 {
            0
        } else if click_count > 255 {
            255
        } else {
            click_count
        },
{
    if click_count < 0 {
        0
    } else if click_count > 255 {
        255
    } else {
        click_count as u8
    }
}

/// The kind of device behind a pointer.
#[derive(Clone, Copy, Debug, Default, PartialEq, Eq, Hash, Structural)]
pub enum PointerType {
    /// The type of the pointer is unknown.
    #[default]
    Unknown,
    /// A mouse.
    Mouse,
    /// A pen or stylus.
    Pen,
    /// A touch contact.
    Touch,
}

/// The value of the reserved primary pointer id.
pub const PRIMARY_POINTER_ID: u64 = 1;

/// An identifier for a pointer; never zero.
///
/// The value [`PRIMARY_POINTER_ID`] is reserved for the primary pointer.
#[derive(Clone, Copy, Debug, PartialEq, Eq, Hash, Structural)]
pub struct PointerId {
    id: u64,
}

impl PointerId {
    #[verifier::type_invariant]
    spec fn nonzero(self) -> bool {
        self.id != 0
    }

    /// The numeric value of this id.
    pub closed spec fn value(self) -> u64 {
        self.id
    }

    /// The reserved id of the primary pointer.
    pub fn primary() -> (r: Self)
        ensures
            r.value() == PRIMARY_POINTER_ID,
    {
        PointerId { id: PRIMARY_POINTER_ID }
    }

    /// Make a pointer id from a raw value; `None` for zero.
    pub fn new(id: u64) -> (r: Option<Self>)
        ensures
            match r {
                Some(p) => id != 0 && p.value() == id,
                None => id == 0,
            },
    {
        if id == 0 {
            None
        } else {
            Some(PointerId { id })
        }
    }

    /// The raw value of this id, which is never zero.
    pub fn get_inner(self) -> (r: u64)
        ensures
            r == self.value(),
            r != 0,
    {
        proof {
            use_type_invariant(&self);
        }
        self.id
    }

    /// Whether this is the reserved primary pointer id.
    pub fn is_primary_pointer(self) -> (r: bool)
        ensures
            r == (self.value() == PRIMARY_POINTER_ID),
    {
        self.id == PRIMARY_POINTER_ID
    }
}

/// A pointer id is determined by its value: ids with equal values are equal.
pub proof fn lemma_pointer_id_value_determines(a: PointerId, b: PointerId)
    ensures
        a.value() == b.value() <==> a == b,
{
}

/// A persistent identifier for a physical pointing device; never zero.
#[derive(Clone, Copy, Debug, PartialEq, Eq, Hash, Structural)]
pub struct PersistentDeviceId {
    id: u64,
}

impl PersistentDeviceId {
    #[verifier::type_invariant]
    spec fn nonzero(self) -> bool {
        self.id != 0
    }

    /// The numeric value of this id.
    pub closed spec fn value(self) -> u64 {
        self.id
    }

    /// Make a device id from a raw value; `None` for zero.
    pub fn new(id: u64) -> (r: Option<Self>)
        ensures
            match r {
                Some(p) => id != 0 && p.value() == id,
                None => id == 0,
            },
    {
        if id == 0 {
            None
        } else {
            Some(PersistentDeviceId { id })
        }
    }

    /// The raw value of this id, which is never zero.
    pub fn get_inner(self) -> (r: u64)
        ensures
            r == self.value(),
            r != 0,
    {
        proof {
            use_type_invariant(&self);
        }
        self.id
    }
}

/// A device id is determined by its value: ids with equal values are equal.
pub proof fn lemma_device_id_value_determines(a: PersistentDeviceId, b: PersistentDeviceId)
    ensures
        a.value() == b.value() <==> a == b,
{
}

/// Identity of a pointer: its id, its device and its type.
#[derive(Clone, Copy, Debug, PartialEq, Eq, Hash, Structural)]
pub struct PointerInfo {
    /// The pointer id, when known.
    pub pointer_id: Option<PointerId>,
    /// The persistent device id, when known.
    pub persistent_device_id: Option<PersistentDeviceId>,
    /// The kind of device.
    pub pointer_type: PointerType,
}

/// Whether an optional pointer id is the primary one.
pub open spec fn is_primary_id(id: Option<PointerId>) -> bool {
    match id {
        Some(p) => p.value() == PRIMARY_POINTER_ID,
        None => false,
    }
}

impl PointerInfo {
    /// Whether this pointer carries the reserved primary id.
    pub fn is_primary_pointer(&self) -> (r: bool)
        ensures
            r == is_primary_id(self.pointer_id),
    {
        match self.pointer_id {
            Some(p) => p.is_primary_pointer(),
            None => false,
        }
    }
}

} // verus!
