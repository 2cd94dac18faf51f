use vstd::prelude::*;

use crate::flag_register::FlagRegister;
use crate::flag_register::spec_flags_from_byte;
use crate::flag_register::spec_flags_to_byte;

verus! {

/// The register file: seven 8-bit general-purpose registers and the flag
/// register. The 16-bit pairs AF, BC, DE and HL are not separate storage;
/// they are folded from and unfolded into these bytes on demand.
#[derive(Clone, Copy, Debug, PartialEq, Eq, Structural)]
pub struct Registers {
    pub a: u8,
    pub b: u8,
    pub c: u8,
    pub d: u8,
    pub e: u8,
    pub f: FlagRegister,
    pub h: u8,
    pub l: u8,
}

/// The 16-bit value built from a high and a low byte, high byte first.
pub open spec fn spec_fold(left: u8, right: u8) -> u16 {
    (left * 256 + right) as u16
}

/// The high and low byte of a 16-bit value, high byte first.
pub open spec fn spec_unfold(value: u16) -> (u8, u8) {
    ((value / 256) as u8, (value % 256) as u8)
}

/// Concatenates two bytes into a 16-bit value, the left one as the high
/// byte.
pub fn fold(left: u8, right: u8) -> (r: u16)
    ensures
        r == spec_fold(left, right),
{
    (left as u16) * 256 + (right as u16)
}

/// Splits a 16-bit value into its high and low byte, high byte first.
pub fn unfold(value: u16) -> (r: (u8, u8))
    ensures
        r == spec_unfold(value),
{
    ((value / 256) as u8, (value % 256) as u8)
}

/// Law: unfolding a folded pair gives the two bytes back, for every pair.
pub proof fn lemma_unfold_fold(left: u8, right: u8)
    ensures
        spec_unfold(spec_fold(left, right)) == (left, right),
{
    assert(spec_fold(left, right) / 256 == left) by (nonlinear_arith);
    assert(spec_fold(left, right) % 256 == right) by (nonlinear_arith);
}

/// Law: folding the two unfolded bytes gives the 16-bit value back, for
/// every value.
pub proof fn lemma_fold_unfold(value: u16)
    ensures
        spec_fold(spec_unfold(value).0, spec_unfold(value).1) == value,
{
    assert((value / 256) * 256 + value % 256 == value) by (nonlinear_arith);
}

impl Registers {
    /// A fresh register file: every register at zero and every flag cleared.
    pub fn new() -> (r: Registers)
        ensures
            r.a == 0,
            r.b == 0,
            r.c == 0,
            r.d == 0,
            r.e == 0,
            r.f == (FlagRegister { zero: false, subtract: false, half_carry: false, carry: false }),
            r.h == 0,
            r.l == 0,
    {
        Registers {
            a: 0,
            b: 0,
            c: 0,
            d: 0,
            e: 0,
            f: FlagRegister::new(),
            h: 0,
            l: 0,
        }
    }

    /// The AF pair: register A as the high byte, the flag byte as the low
    /// byte. The flag byte's high nibble is zero, so AF's low nibble of
    /// bits 4 to 7 stays zero.
    pub fn get_af(&self) -> (r: u16)
        ensures
            r == spec_fold(self.a, spec_flags_to_byte(self.f)),
    {
        fold(self.a, self.f.to_byte())
    }

    /// The BC pair: register B as the high byte, C as the low byte.
    pub fn get_bc(&self) -> (r: u16)
        ensures
            r == spec_fold(self.b, self.c),
    {
        fold(self.b, self.c)
    }

    /// The DE pair: register D as the high byte, E as the low byte.
    pub fn get_de(&self) -> (r: u16)
        ensures
            r == spec_fold(self.d, self.e),
    {
        fold(self.d, self.e)
    }

    /// The HL pair: register H as the high byte, L as the low byte.
    pub fn get_hl(&self) -> (r: u16)
        ensures
            r == spec_fold(self.h, self.l),
    {
        fold(self.h, self.l)
    }

    /// Writes the AF pair: the high byte goes to register A, the low byte's
    /// low nibble becomes the four flags (its high nibble is discarded).
    /// Every other register keeps its value.
    pub fn set_af(&mut self, value: u16)
        ensures
            final(self).a == spec_unfold(value).0,
            final(self).f == spec_flags_from_byte(spec_unfold(value).1),
            final(self).b == old(self).b,
            final(self).c == old(self).c,
            final(self).d == old(self).d,
            final(self).e == old(self).e,
            final(self).h == old(self).h,
            final(self).l == old(self).l,
    {
        let (a, f) = unfold(value);
        self.a = a;
        self.f = FlagRegister::from_byte(f);
    }

    /// Writes the BC pair: the high byte goes to B, the low byte to C.
    /// Every other register and the flags keep their value.
    pub fn set_bc(&mut self, value: u16)
        ensures
            final(self).b == spec_unfold(value).0,
            final(self).c == spec_unfold(value).1,
            final(self).a == old(self).a,
            final(self).d == old(self).d,
            final(self).e == old(self).e,
            final(self).f == old(self).f,
            final(self).h == old(self).h,
            final(self).l == old(self).l,
    {
        let (b, c) = unfold(value);
        self.b = b;
        self.c = c;
    }

    /// Writes the DE pair: the high byte goes to D, the low byte to E.
    /// Every other register and the flags keep their value.
    pub fn set_de(&mut self, value: u16)
        ensures
            final(self).d == spec_unfold(value).0,
            final(self).e == spec_unfold(value).1,
            final(self).a == old(self).a,
            final(self).b == old(self).b,
            final(self).c == old(self).c,
            final(self).f == old(self).f,
            final(self).h == old(self).h,
            final(self).l == old(self).l,
    {
        let (d, e) = unfold(value);
        self.d = d;
        self.e = e;
    }

    /// Writes the HL pair: the high byte goes to H, the low byte to L.
    /// Every other register and the flags keep their value.
    pub fn set_hl(&mut self, value: u16)
        ensures
            final(self).h == spec_unfold(value).0,
            final(self).l == spec_unfold(value).1,
            final(self).a == old(self).a,
            final(self).b == old(self).b,
            final(self).c == old(self).c,
            final(self).d == old(self).d,
            final(self).e == old(self).e,
            final(self).f == old(self).f,
    {
        let (h, l) = unfold(value);
        self.h = h;
        self.l = l;
    }
}

} // verus!
