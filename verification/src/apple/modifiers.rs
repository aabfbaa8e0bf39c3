//! Modifier flags built from platform booleans.
use vstd::prelude::*;

use crate::keyboard::Modifiers;

verus! {

/// The modifier bitmask holding exactly the flags whose booleans are set.
pub open spec fn modifier_bits(ctrl: bool, alt: bool, shift: bool, meta: bool) -> u32 {
    (if ctrl {
        Modifiers::CONTROL
    } else {
        0u32
    }) | (if alt {
        Modifiers::ALT
    } else {
        0u32
    }) | (if shift {
        Modifiers::SHIFT
    } else {
        0u32
    }) | (if meta {
        Modifiers::META
    } else {
        0u32
    })
}

proof fn lemma_modifier_bits(ctrl: bool, alt: bool, shift: bool, meta: bool)
    by (bit_vector)
    ensures
        (modifier_bits(ctrl, alt, shift, meta) & Modifiers::CONTROL == Modifiers::CONTROL) == ctrl,
        (modifier_bits(ctrl, alt, shift, meta) & Modifiers::ALT == Modifiers::ALT) == alt,
        (modifier_bits(ctrl, alt, shift, meta) & Modifiers::SHIFT == Modifiers::SHIFT) == shift,
        (modifier_bits(ctrl, alt, shift, meta) & Modifiers::META == Modifiers::META) == meta,
        modifier_bits(ctrl, alt, shift, meta) & !(Modifiers::CONTROL | Modifiers::ALT
            | Modifiers::SHIFT | Modifiers::META) == 0,
{
}

/// Build a [`Modifiers`] from booleans.
///
/// Exactly the flags whose booleans are set are present.
pub fn modifiers_from_bools(ctrl: bool, alt: bool, shift: bool, meta: bool) -> (r: Modifiers)
    ensures
        r@ == modifier_bits(ctrl, alt, shift, meta),
        r.has(Modifiers::CONTROL) == ctrl,
        r.has(Modifiers::ALT) == alt,
        r.has(Modifiers::SHIFT) == shift,
        r.has(Modifiers::META) == meta,
{
    let bits: u32 = (if ctrl {
        Modifiers::CONTROL
    } else {
        0
    }) | (if alt {
        Modifiers::ALT
    } else {
        0
    }) | (if shift {
        Modifiers::SHIFT
    } else {
        0
    }) | (if meta {
        Modifiers::META
    } else {
        0
    });
    proof {
        lemma_modifier_bits(ctrl, alt, shift, meta);
    }
    Modifiers::from_bits(bits)
}

} // verus!
