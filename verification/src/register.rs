//! Register descriptors.

use vstd::prelude::*;

verus! {

/// Describes one register of a peripheral by its position in the
/// peripheral's register block.
///
/// The position is an index in machine words, not a byte address.
#[derive(Clone, Copy, Debug)]
pub struct Register {
    offset: usize,
}

impl Register {
    /// The register's index in machine words from the base of its block.
    pub closed spec fn spec_offset(&self) -> usize {
        self.offset
    }

    /// Describes the register that lies `offset` machine words above the
    /// base of its block.
    pub fn new(offset: usize) -> (reg: Register)
        ensures
            reg.offset() == offset,
    {
        Register { offset }
    }

    /// The register's index in machine words from the base of its block.
    #[verifier::when_used_as_spec(spec_offset)]
    pub fn offset(&self) -> (offset: usize)
        ensures
            offset == self.spec_offset(),
    {
        self.offset
    }
}

} // verus!
