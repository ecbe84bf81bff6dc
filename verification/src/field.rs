//! Field descriptors and the bit arithmetic of a field within a machine word.

use vstd::prelude::*;
use vstd::arithmetic::power2::pow2;
use vstd::arithmetic::power2::lemma2_to64;
use vstd::bits::lemma_usize_shl_is_mul;
use crate::register::Register;

verus! {

/// The widest field that is supported: a wider one gets a mask of zero.
pub const MAX_WIDTH: usize = 31;

/// The mask of a field of `width` bits: `2^width - 1`, that is `width` set
/// bits starting at bit 0, for a width of at most [`MAX_WIDTH`]; zero for
/// any other width.
pub open spec fn mask_of_width(width: usize) -> usize {
    if width <= MAX_WIDTH {
        (pow2(width as nat) - 1) as usize
    } else {
        0
    }
}

/// Describes a run of adjacent bits within one register.
#[derive(Clone, Copy, Debug)]
pub struct Field {
    /// The field's mask before it is moved into position: for a width of
    /// `3` bits it is `0b111`.
    mask: usize,
    /// The position of the field's lowest bit within the register.
    offset: usize,
    /// The register that holds the field.
    register: Register,
}

impl Field {
    /// The field's mask before it is moved into position.
    pub closed spec fn spec_mask(&self) -> usize {
        self.mask
    }

    /// The position of the field's lowest bit within the register.
    pub closed spec fn spec_offset(&self) -> usize {
        self.offset
    }

    /// The register that holds the field.
    pub closed spec fn spec_register(&self) -> Register {
        self.register
    }

    /// The mask is that of some supported width: a run of at most
    /// [`MAX_WIDTH`] set bits that starts at bit 0.
    #[verifier::type_invariant]
    pub open spec fn well_formed(&self) -> bool {
        exists|width: usize| width <= MAX_WIDTH && self.mask() == mask_of_width(width)
    }

    /// The number of places by which the field is shifted. A shift by the
    /// word's width or more wraps round, as the machine's shift does, so a
    /// field that starts beyond the word lands on lower bits of it.
    pub open spec fn spec_shift(&self) -> usize {
        self.offset() % (usize::BITS as usize)
    }

    /// The field's mask moved into position. Bits that the shift pushes
    /// beyond the word are lost.
    pub open spec fn mask_in_place(&self) -> usize {
        self.mask() << self.shift()
    }

    /// The field's content in a register that holds `word`.
    pub open spec fn extract(&self, word: usize) -> usize {
        (word >> self.shift()) & self.mask()
    }

    /// The word that holds `raw` at the field's position and nothing else.
    /// `raw` is not cut down to the field's width.
    pub open spec fn place(&self, raw: usize) -> usize {
        raw << self.shift()
    }

    /// The word `word` with the field's bits replaced by `raw`: the bits
    /// under the mask in place are cleared and `raw`, moved into position,
    /// is or-ed in.
    pub open spec fn merge(&self, word: usize, raw: usize) -> usize {
        (word & !self.mask_in_place()) | self.place(raw)
    }

    /// Describes the field of `width` bits whose lowest bit is bit `offset`
    /// of `register`.
    ///
    /// A width above [`MAX_WIDTH`] gives a mask of zero. Nothing checks that
    /// the field lies within the word.
    pub fn new(width: usize, offset: usize, register: Register) -> (field: Field)
        ensures
            field.mask() == mask_of_width(width),
            width <= MAX_WIDTH ==> field.mask() == (1usize << width) - 1,
            field.offset() == offset,
            field.register() == register,
            field.well_formed(),
    {
        let mask: usize = if width <= MAX_WIDTH {
            proof {
                lemma_one_shifted(width);
            }
            (1usize << width) - 1
        } else {
            proof {
                lemma2_to64();
            }
            0
        };
        proof {
            if width <= MAX_WIDTH {
                assert(mask == mask_of_width(width));
            } else {
                assert(pow2(0) == 1);
                assert(mask == mask_of_width(0));
            }
        }
        Field { mask, offset, register }
    }

    /// The field's mask before it is moved into position.
    #[verifier::when_used_as_spec(spec_mask)]
    pub fn mask(&self) -> (mask: usize)
        ensures
            mask == self.spec_mask(),
    {
        self.mask
    }

    /// The position of the field's lowest bit within the register.
    #[verifier::when_used_as_spec(spec_offset)]
    pub fn offset(&self) -> (offset: usize)
        ensures
            offset == self.spec_offset(),
    {
        self.offset
    }

    /// The number of places by which the field is shifted: its offset,
    /// taken modulo the width of a machine word.
    #[verifier::when_used_as_spec(spec_shift)]
    pub fn shift(&self) -> (shift: usize)
        ensures
            shift == self.spec_shift(),
            shift < usize::BITS,
            self.offset() < usize::BITS ==> shift == self.offset(),
    {
        proof {
            if self.offset() < usize::BITS {
                lemma_shift_within_word(*self);
            }
        }
        self.offset % (usize::BITS as usize)
    }

    /// The register that holds the field.
    #[verifier::when_used_as_spec(spec_register)]
    pub fn register(&self) -> (register: Register)
        ensures
            register == self.spec_register(),
    {
        self.register
    }
}

/// A field that starts within the word is shifted by its offset.
pub proof fn lemma_shift_within_word(field: Field)
    requires
        field.offset() < usize::BITS,
    ensures
        field.shift() == field.offset(),
{
    let offset = field.offset();
    assert(offset % (usize::BITS as usize) == offset) by (bit_vector)
        requires
            offset < usize::BITS,
    ;
}

/// One shifted left by a supported width is two to the power of that width.
pub(crate) proof fn lemma_one_shifted(width: usize)
    requires
        width <= MAX_WIDTH,
    ensures
        1usize << width == pow2(width as nat),
        1 <= pow2(width as nat) <= 0x8000_0000,
{
    lemma2_to64();
    vstd::arithmetic::power2::lemma_pow2_pos(width as nat);
    if width < 31 {
        vstd::arithmetic::power2::lemma_pow2_strictly_increases(width as nat, 31);
    }
    lemma_usize_shl_is_mul(1usize, width);
}

} // verus!
