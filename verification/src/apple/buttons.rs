//! Platform button indices and pressed-button bitmasks.
use vstd::prelude::*;

use crate::pointer::{
    button_at, lemma_button_at_index, lemma_index_of_button_at, PointerButton, PointerButtons,
};

verus! {


/// Map a platform button index to a [`PointerButton`].
///
/// Common mapping: 0=Primary (left), 1=Secondary (right), 2=Auxiliary
/// (middle), 3=X1, 4=X2; higher indices map to B7..B32 when possible.
pub fn try_from_button_index(i: i64) -> (r: Option<PointerButton>)
    ensures
        r == if 0 <= i < 32 {
            Some(button_at(i as int))
        } else {
            None
        },
{
    Some(
        match i {
            0 => PointerButton::Primary,
            1 => PointerButton::Secondary,
            2 => PointerButton::Auxiliary,
            3 => PointerButton::X1,
            4 => PointerButton::X2,
            5 => PointerButton::PenEraser,
            6 => PointerButton::B7,
            7 => PointerButton::B8,
            8 => PointerButton::B9,
            9 => PointerButton::B10,
            10 => PointerButton::B11,
            11 => PointerButton::B12,
            12 => PointerButton::B13,
            13 => PointerButton::B14,
            14 => PointerButton::B15,
            15 => PointerButton::B16,
            16 => PointerButton::B17,
            17 => PointerButton::B18,
            18 => PointerButton::B19,
            19 => PointerButton::B20,
            20 => PointerButton::B21,
            21 => PointerButton::B22,
            22 => PointerButton::B23,
            23 => PointerButton::B24,
            24 => PointerButton::B25,
            25 => PointerButton::B26,
            26 => PointerButton::B27,
            27 => PointerButton::B28,
            28 => PointerButton::B29,
            29 => PointerButton::B30,
            30 => PointerButton::B31,
            31 => PointerButton::B32,
            _ => return None,
        },
    )
}

/// The mask of the bits below `idx`.
pub open spec fn low_mask(idx: u64) -> u64 {
    ((1u64 << idx) - 1) as u64
}

/// Setting bit `idx` (when `mask` has it) extends the low bits of `mask`
/// below `idx` to the low bits below `idx + 1`.
proof fn lemma_low_bits_step(mask: u64, idx: u64)
    by (bit_vector)
    requires
        idx < 32,
    ensures
        (mask & (1u64 << idx)) != 0 ==> ((mask & low_mask(idx)) as u32 | (1u32 << idx as u32))
            == (mask & low_mask((idx + 1) as u64)) as u32,
        (mask & (1u64 << idx)) == 0 ==> (mask & low_mask(idx)) as u32 == (mask & low_mask(
            (idx + 1) as u64,
        )) as u32,
{
}

/// Whether bit `i` of `mask` is set.
pub open spec fn mask_bit_set(mask: u64, i: u32) -> bool {
    mask & (1u64 << i) != 0
}

/// Convert a bitmask of pressed buttons (LSB = button 0) into
/// [`PointerButtons`].
///
/// Bits 32 and above name no button and are dropped.
pub fn buttons_from_bitmask(mask: u64) -> (r: PointerButtons)
    ensures
        r@ == (mask & 0xFFFF_FFFF) as u32,
        forall|b: PointerButton|
            #![trigger PointerButtons::mask_has(r@, b)]
            PointerButtons::mask_has(r@, b) <==> mask_bit_set(mask, b.index()),
{
    let mut out = PointerButtons::new();
    let mut idx: u64 = 0;
    assert((mask & low_mask(0u64)) as u32 == 0) by (bit_vector);
    while idx < 32
        invariant
            idx <= 32,
            out@ == (mask & low_mask(idx)) as u32,
        decreases 32 - idx,
    {
        proof {
            lemma_low_bits_step(mask, idx);
        }
        if (mask & (1u64 << idx)) != 0 {
            let b = try_from_button_index(idx as i64);
            if let Some(b) = b {
                proof {
                    lemma_index_of_button_at(idx as int);
                }
                out.insert(b);
            }
        }
        idx = idx + 1;
    }
    assert((mask & low_mask(32u64)) as u32 == (mask & 0xFFFF_FFFF) as u32) by (bit_vector);
    proof {
        assert forall|b: PointerButton|
            #![trigger PointerButtons::mask_has(out@, b)]
            PointerButtons::mask_has(out@, b) <==> mask_bit_set(mask, b.index()) by {
            lemma_button_at_index(b);
            let i = b.index();
            assert(((mask & 0xFFFF_FFFF) as u32 & (1u32 << i) != 0) <==> (mask & (1u64 << i) != 0))
                by (bit_vector)
                requires
                    i < 32,
            ;
        }
    }
    out
}

} // verus!
