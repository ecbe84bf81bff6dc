//! The accessor: where a register lies, and how logical values and raw
//! machine words turn into each other on the way to and from it.

use core::marker::PhantomData;
use vstd::prelude::*;
use crate::field::Field;
use crate::register::Register;

verus! {

/// The size of a machine word in bytes.
pub open spec fn word_bytes() -> int {
    usize::BITS as int / 8
}

/// The accessor of one peripheral's register block, for registers whose
/// logical values are of type `T`.
///
/// It holds the address of the block and computes; the caller moves the
/// words between it and the hardware, with one volatile access each.
pub struct CSR<T> {
    base: usize,
    logical: PhantomData<T>,
}

impl<T> CSR<T> where T: TryFrom<usize> + TryInto<usize> + Default {
    /// The address of the register block.
    pub closed spec fn spec_base(&self) -> usize {
        self.base
    }

    /// The address of `reg` in this block: its index in words above the
    /// base, cut to the range of an address.
    pub open spec fn spec_address(&self, reg: Register) -> usize {
        ((self.base() + reg.offset() * word_bytes()) % (usize::MAX + 1)) as usize
    }

    /// `value` is what a register that holds `raw` reads as: the outcome of
    /// `T::try_from(raw)` where it succeeds, and an outcome of
    /// `T::default()` where it fails.
    pub open spec fn decodes(raw: usize, value: T) -> bool {
        exists|converted: Result<T, <T as TryFrom<usize>>::Error>|
            #[trigger] call_ensures(T::try_from, (raw,), converted) && match converted {
                Ok(v) => value == v,
                Err(_) => call_ensures(T::default, (), value),
            }
    }

    /// `raw` is what writing `value` hands to a register: the outcome of
    /// `value.try_into()` where it succeeds, and zero where it fails.
    pub open spec fn encodes(value: T, raw: usize) -> bool {
        exists|converted: Result<usize, <T as TryInto<usize>>::Error>|
            #[trigger] call_ensures(T::try_into, (value,), converted) && match converted {
                Ok(word) => raw == word,
                Err(_) => raw == 0,
            }
    }

    /// `next` is a word that an update of `field` to `value` gives for a
    /// register that holds `word`: the word with the field's bits replaced
    /// by what writing `value` hands over.
    pub open spec fn updates(field: Field, value: T, word: usize, next: usize) -> bool {
        exists|raw: usize| #[trigger] Self::encodes(value, raw) && next == field.merge(word, raw)
    }

    /// `next` is a word that a write of `value` to `field` without a read
    /// gives: what writing `value` hands over, moved to the field's
    /// position.
    pub open spec fn overwrites(field: Field, value: T, next: usize) -> bool {
        exists|raw: usize| #[trigger] Self::encodes(value, raw) && next == field.place(raw)
    }

    /// Whatever writing `value` hands over is at most the mask of `field`:
    /// the value fits in the field's width.
    pub open spec fn fits(value: T, field: Field) -> bool {
        forall|raw: usize| #[trigger] Self::encodes(value, raw) ==> raw <= field.mask()
    }

    /// The two conversions of `T` agree on `value`: a register that holds
    /// what writing `value` hands over reads as `value` and as nothing
    /// else.
    pub open spec fn faithful(value: T) -> bool {
        forall|raw: usize, back: T|
            #[trigger] Self::encodes(value, raw) && #[trigger] Self::decodes(raw, back) ==> back
                == value
    }

    /// Binds an accessor to the register block at address `base`.
    pub fn new(base: usize) -> (csr: Self)
        ensures
            csr.base() == base,
    {
        CSR { base, logical: PhantomData }
    }

    /// The address of the register block.
    #[verifier::when_used_as_spec(spec_base)]
    pub fn base(&self) -> (base: usize)
        ensures
            base == self.spec_base(),
    {
        self.base
    }

    /// The address of the machine word that holds `reg`.
    #[verifier::when_used_as_spec(spec_address)]
    pub fn address(&self, reg: Register) -> (address: usize)
        ensures
            address == self.spec_address(reg),
            self.base() + reg.offset() * word_bytes() <= usize::MAX ==> address == self.base()
                + reg.offset() * word_bytes(),
    {
        let bytes: usize = (usize::BITS / 8) as usize;
        let above: usize = reg.offset().wrapping_mul(bytes);
        let address: usize = self.base.wrapping_add(above);
        proof {
            let range: int = usize::MAX + 1;
            let product: int = reg.offset() * word_bytes();
            assert(above == product % range);
            vstd::arithmetic::div_mod::lemma_add_mod_noop_right(self.base as int, product, range);
            vstd::arithmetic::div_mod::lemma_small_mod(address as nat, range as nat);
            vstd::arithmetic::div_mod::lemma_mod_add_multiples_vanish(address as int, range);
        }
        address
    }

    /// The logical value of a register that was read as `word`.
    ///
    /// A word that `T` cannot hold reads as `T`'s default.
    pub fn r(&self, word: usize) -> (value: T)
        ensures
            Self::decodes(word, value),
    {
        match T::try_from(word) {
            Ok(value) => value,
            Err(_) => T::default(),
        }
    }

    /// The logical value of `field` in a register that was read as `word`.
    pub fn rf(&self, field: Field, word: usize) -> (value: T)
        ensures
            Self::decodes(field.extract(word), value),
    {
        self.r((word >> field.shift()) & field.mask())
    }

    /// The word to write to a register that was read as `word`, so that
    /// `field` holds `value` and the bits outside the field's mask stay as
    /// they were.
    pub fn rmwf(&self, field: Field, value: T, word: usize) -> (next: usize)
        ensures
            Self::updates(field, value, word, next),
    {
        let raw: usize = self.w(value);
        let previous: usize = word & !(field.mask() << field.shift());
        previous | (raw << field.shift())
    }

    /// The word to write to a register so that `field` holds `value`,
    /// whatever the register held: every bit that the shifted value does
    /// not set is written as zero.
    pub fn wf(&self, field: Field, value: T) -> (next: usize)
        ensures
            Self::overwrites(field, value, next),
    {
        self.w(value) << field.shift()
    }

    /// The word to write to a register so that it holds `value`.
    ///
    /// A value that a machine word cannot hold is written as zero.
    pub fn w(&self, value: T) -> (next: usize)
        ensures
            Self::encodes(value, next),
    {
        match value.try_into() {
            Ok(word) => word,
            Err(_) => 0,
        }
    }
}

} // verus!
