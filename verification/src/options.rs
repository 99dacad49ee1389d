//! The per-message option bits: RCK (request an acknowledgement), ACK (the
//! message is an acknowledgement), ICK (ignore the checksum).

use vstd::prelude::*;

verus! {

/// A set of option bits carried in one byte of the frame. Only the three low
/// bits are meaningful; every constructor keeps the rest clear.
#[derive(Copy, Clone, PartialEq, Eq, Structural, Debug)]
pub struct OctopipesOptions {
    bits: u8,
}

impl View for OctopipesOptions {
    type V = u8;

    closed spec fn view(&self) -> u8 {
        self.bits
    }
}

/// The RCK bit: the sender requests an acknowledgement.
pub const OPTION_RCK: u8 = 0x01;

/// The ACK bit: the message is an acknowledgement.
pub const OPTION_ACK: u8 = 0x02;

/// The ICK bit: the checksum byte is written as zero and not verified.
pub const OPTION_ICK: u8 = 0x04;

impl OctopipesOptions {
    /// Every constructible option set keeps only the three known bits.
    #[verifier::type_invariant]
    pub open spec fn inv(self) -> bool {
        self@ < 8
    }

    /// No option set.
    pub fn empty() -> (r: OctopipesOptions)
        ensures
            r@ == 0u8,
    {
        OctopipesOptions { bits: 0 }
    }

    /// Only RCK set.
    pub fn rck() -> (r: OctopipesOptions)
        ensures
            r@ == OPTION_RCK,
    {
        OctopipesOptions { bits: OPTION_RCK }
    }

    /// Only ACK set.
    pub fn ack() -> (r: OctopipesOptions)
        ensures
            r@ == OPTION_ACK,
    {
        OctopipesOptions { bits: OPTION_ACK }
    }

    /// Only ICK set.
    pub fn ick() -> (r: OctopipesOptions)
        ensures
            r@ == OPTION_ICK,
    {
        OctopipesOptions { bits: OPTION_ICK }
    }

    /// The option byte as written on the wire.
    pub fn bits(&self) -> (r: u8)
        ensures
            r == self@,
    {
        self.bits
    }

    /// Reads an option byte from the wire; bits beyond the three known ones
    /// are dropped.
    pub fn from_u8(value: u8) -> (r: OctopipesOptions)
        ensures
            r@ == value & 7,
    {
        assert(value & 7 < 8) by (bit_vector);
        OctopipesOptions { bits: value & 7 }
    }

    /// Whether this set and `option` share a bit.
    pub fn intersects(&self, option: OctopipesOptions) -> (r: bool)
        ensures
            r == ((self@ & option@) != 0),
    {
        self.bits & option.bits != 0
    }

    /// The union of two option sets.
    pub fn union(&self, option: OctopipesOptions) -> (r: OctopipesOptions)
        ensures
            r@ == (self@ | option@),
    {
        proof {
            use_type_invariant(self);
            use_type_invariant(option);
            let a = self.bits;
            let b = option.bits;
            assert(a < 8 && b < 8 ==> (a | b) < 8) by (bit_vector);
        }
        OctopipesOptions { bits: self.bits | option.bits }
    }
}

} // verus!
