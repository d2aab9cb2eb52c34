//! The place of a block in its epoch.

use vstd::prelude::*;

verus! {

/// An epoch number, with the place of a block in that epoch: the block is the
/// `index`-th, counted from zero, of the `length` blocks of epoch `number`.
#[derive(Clone, Copy, Debug, PartialEq, Eq, Structural)]
pub struct EpochNumberWithFraction {
    pub number: u64,
    pub index: u64,
    pub length: u64,
}

impl EpochNumberWithFraction {
    /// The block lies inside its epoch.
    pub open spec fn wf(self) -> bool {
        self.index < self.length
    }

    /// What a 64-bit word stands for: the number in the low 24 bits, then 16
    /// bits of index and 16 bits of length.
    pub open spec fn unpacked(value: u64) -> Self {
        EpochNumberWithFraction {
            number: value & 0xff_ffff,
            index: (value >> 24) & 0xffff,
            length: (value >> 40) & 0xffff,
        }
    }

    /// The 64-bit word that stands for this value, where each part fits in
    /// its bits.
    pub open spec fn packed(self) -> u64 {
        (self.length << 40) | (self.index << 24) | self.number
    }

    /// The place of a block from its parts.
    pub fn new(number: u64, index: u64, length: u64) -> (r: Self)
        ensures
            r == (EpochNumberWithFraction { number, index, length }),
    {
        EpochNumberWithFraction { number, index, length }
    }

    /// Reads a 64-bit word as a header holds it, whatever its parts are: a
    /// length of zero stays zero.
    pub fn from_full_value_unchecked(value: u64) -> (r: Self)
        ensures
            r == Self::unpacked(value),
    {
        EpochNumberWithFraction {
            number: value & 0xff_ffff,
            index: (value >> 24) & 0xffff,
            length: (value >> 40) & 0xffff,
        }
    }

    /// The 64-bit word for this value, as a header holds it.
    pub fn full_value(&self) -> (r: u64)
        ensures
            r == self.packed(),
    {
        (self.length << 40) | (self.index << 24) | self.number
    }

    /// The epoch number.
    pub fn number(&self) -> (r: u64)
        ensures
            r == self.number,
    {
        self.number
    }

    /// The index of the block in its epoch.
    pub fn index(&self) -> (r: u64)
        ensures
            r == self.index,
    {
        self.index
    }

    /// The number of blocks in the epoch.
    pub fn length(&self) -> (r: u64)
        ensures
            r == self.length,
    {
        self.length
    }
}

} // verus!
