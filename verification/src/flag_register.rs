use vstd::prelude::*;

verus! {

/// The four condition flags of the ALU.
///
/// Viewed as the low byte of the AF pair, the flags occupy the low nibble of
/// a byte — zero in bit 3, subtract in bit 2, half-carry in bit 1, carry in
/// bit 0 — and bits 4 to 7 are unused and fixed to zero. The byte form and
/// the four-boolean form are isomorphic; `lemma_flags_to_byte_to_flags` and
/// `lemma_byte_to_flags_to_byte` state the round trip.
#[derive(Clone, Copy, Debug, PartialEq, Eq, Structural)]
pub struct FlagRegister {
    pub zero: bool,
    pub subtract: bool,
    pub half_carry: bool,
    pub carry: bool,
}

/// The byte encoding of a flag register: zero contributes 8, subtract 4,
/// half-carry 2 and carry 1, so the value always lies below 16.
pub open spec fn spec_flags_to_byte(f: FlagRegister) -> u8 {
    ((if f.zero { 8int } else { 0int }) + (if f.subtract { 4int } else { 0int })
        + (if f.half_carry { 2int } else { 0int }) + (if f.carry { 1int } else { 0int })) as u8
}

/// The flag register read from a byte: each flag is one bit of the low
/// nibble; bits 4 to 7 are ignored.
pub open spec fn spec_flags_from_byte(b: u8) -> FlagRegister {
    FlagRegister {
        zero: (b / 8) % 2 == 1,
        subtract: (b / 4) % 2 == 1,
        half_carry: (b / 2) % 2 == 1,
        carry: b % 2 == 1,
    }
}

impl FlagRegister {
    /// A fresh flag register with every flag cleared.
    pub fn new() -> (r: FlagRegister)
        ensures
            r == (FlagRegister { zero: false, subtract: false, half_carry: false, carry: false }),
    {
        FlagRegister { zero: false, subtract: false, half_carry: false, carry: false }
    }

    /// Packs the four flags into their byte encoding; the high nibble of the
    /// result is always zero.
    pub fn to_byte(self) -> (r: u8)
        ensures
            r == spec_flags_to_byte(self),
            r < 16,
    {
        let zero_bit: u8 = if self.zero { 8 } else { 0 };
        let subtract_bit: u8 = if self.subtract { 4 } else { 0 };
        let half_carry_bit: u8 = if self.half_carry { 2 } else { 0 };
        let carry_bit: u8 = if self.carry { 1 } else { 0 };
        zero_bit + subtract_bit + half_carry_bit + carry_bit
    }

    /// Reads the four flags out of a byte's low nibble; bits 4 to 7 are
    /// ignored.
    pub fn from_byte(b: u8) -> (r: FlagRegister)
        ensures
            r == spec_flags_from_byte(b),
    {
        FlagRegister {
            zero: (b / 8) % 2 == 1,
            subtract: (b / 4) % 2 == 1,
            half_carry: (b / 2) % 2 == 1,
            carry: b % 2 == 1,
        }
    }
}

/// Law: decoding the byte encoding of any flag register yields the same four
/// flags back.
pub proof fn lemma_flags_to_byte_to_flags(f: FlagRegister)
    ensures
        spec_flags_from_byte(spec_flags_to_byte(f)) == f,
{
}

/// Law: for any byte whose high nibble is zero, encoding the flags decoded
/// from it yields the byte back.
pub proof fn lemma_byte_to_flags_to_byte(b: u8)
    requires
        b < 16,
    ensures
        spec_flags_to_byte(spec_flags_from_byte(b)) == b,
{
}

} // verus!
