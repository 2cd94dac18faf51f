use vstd::prelude::*;

use crate::flag_register::FlagRegister;
use crate::opcodes::AritmeticTarget;
use crate::opcodes::Instruction;
use crate::registers::Registers;

verus! {

/// The CPU core: the register file together with the instruction-execution
/// engine. Each call of `execute` is one atomic transition of the register
/// file; there is no other state.
#[derive(Debug)]
pub struct CPU {
    pub registers: Registers,
}

/// The low nibble of a byte.
pub open spec fn spec_low_nibble(v: u8) -> int {
    (v % 16) as int
}

/// Addition modulo 256.
pub open spec fn spec_wrapping_add(a: u8, b: u8) -> u8 {
    ((a + b) % 256) as u8
}

/// Subtraction modulo 256.
pub open spec fn spec_wrapping_sub(a: u8, b: u8) -> u8 {
    if a >= b {
        (a - b) as u8
    } else {
        (a + 256 - b) as u8
    }
}

/// The value a register holds in a given register file.
pub open spec fn spec_reg(r: Registers, target: AritmeticTarget) -> u8 {
    match target {
        AritmeticTarget::A => r.a,
        AritmeticTarget::B => r.b,
        AritmeticTarget::C => r.c,
        AritmeticTarget::D => r.d,
        AritmeticTarget::E => r.e,
        AritmeticTarget::H => r.h,
        AritmeticTarget::L => r.l,
    }
}

/// The register file after one register was overwritten.
pub open spec fn spec_set_reg(r: Registers, target: AritmeticTarget, value: u8) -> Registers {
    match target {
        AritmeticTarget::A => Registers { a: value, ..r },
        AritmeticTarget::B => Registers { b: value, ..r },
        AritmeticTarget::C => Registers { c: value, ..r },
        AritmeticTarget::D => Registers { d: value, ..r },
        AritmeticTarget::E => Registers { e: value, ..r },
        AritmeticTarget::H => Registers { h: value, ..r },
        AritmeticTarget::L => Registers { l: value, ..r },
    }
}

/// ADD: the wrapped 8-bit sum and its flags. Half-carry reports a carry out
/// of the low nibble, carry an overflow of the full byte; both are computed
/// on the pre-operation values.
pub open spec fn spec_add(a: u8, value: u8) -> (u8, FlagRegister) {
    let result = spec_wrapping_add(a, value);
    (
        result,
        FlagRegister {
            zero: result == 0,
            subtract: false,
            half_carry: spec_low_nibble(a) + spec_low_nibble(value) > 15,
            carry: a + value > 255,
        },
    )
}

/// ADC: the sum of accumulator, operand and incoming carry bit, truncated
/// to 8 bits. The carry flag reports the 16-bit sum exceeding 0xFF; the
/// half-carry test is the same nibble test as ADD's and does not include
/// the incoming carry bit.
pub open spec fn spec_adc(a: u8, value: u8, carry_in: bool) -> (u8, FlagRegister) {
    let sum = a + value + (if carry_in { 1int } else { 0int });
    let result = (sum % 256) as u8;
    (
        result,
        FlagRegister {
            zero: result == 0,
            subtract: false,
            half_carry: spec_low_nibble(a) + spec_low_nibble(value) > 15,
            carry: sum > 255,
        },
    )
}

/// SUB: the wrapped 8-bit difference and its flags. Half-carry reports a
/// borrow into the low nibble, carry a borrow into the full byte; both are
/// computed on the pre-operation values.
pub open spec fn spec_sub(a: u8, value: u8) -> (u8, FlagRegister) {
    let result = spec_wrapping_sub(a, value);
    (
        result,
        FlagRegister {
            zero: result == 0,
            subtract: true,
            half_carry: spec_low_nibble(a) < spec_low_nibble(value),
            carry: value > a,
        },
    )
}

/// SBC: the operand is first lowered by the incoming carry bit, with that
/// inner subtraction wrapping modulo 256, then subtracted from the
/// accumulator, again wrapping. The carry flag reports the borrow of the
/// outer subtraction; the half-carry test uses the operand before the
/// carry bit was applied.
pub open spec fn spec_sbc(a: u8, value: u8, carry_in: bool) -> (u8, FlagRegister) {
    let operand = if carry_in {
        spec_wrapping_sub(value, 1)
    } else {
        value
    };
    let result = spec_wrapping_sub(a, operand);
    (
        result,
        FlagRegister {
            zero: result == 0,
            subtract: true,
            half_carry: spec_low_nibble(a) < spec_low_nibble(value),
            carry: operand > a,
        },
    )
}

/// AND: the bitwise conjunction; half-carry is fixed to true, carry to
/// false.
pub open spec fn spec_and(a: u8, value: u8) -> (u8, FlagRegister) {
    let result = a & value;
    (
        result,
        FlagRegister { zero: result == 0, subtract: false, half_carry: true, carry: false },
    )
}

/// OR: the bitwise disjunction; half-carry and carry are fixed to false.
pub open spec fn spec_or(a: u8, value: u8) -> (u8, FlagRegister) {
    let result = a | value;
    (
        result,
        FlagRegister { zero: result == 0, subtract: false, half_carry: false, carry: false },
    )
}

/// XOR: the bitwise exclusive or; half-carry and carry are fixed to false.
pub open spec fn spec_xor(a: u8, value: u8) -> (u8, FlagRegister) {
    let result = a ^ value;
    (
        result,
        FlagRegister { zero: result == 0, subtract: false, half_carry: false, carry: false },
    )
}

/// INC: the target's value plus one, wrapping. The carry flag is the one
/// the register file already held, preserved untouched. The half-carry
/// test reads the accumulator's low nibble, whatever register the target
/// is; that accumulator-based formula is this engine's documented
/// behaviour.
pub open spec fn spec_inc(value: u8, accumulator: u8, carry_old: bool) -> (u8, FlagRegister) {
    let result = spec_wrapping_add(value, 1);
    (
        result,
        FlagRegister {
            zero: result == 0,
            subtract: false,
            half_carry: spec_low_nibble(accumulator) + 1 > 15,
            carry: carry_old,
        },
    )
}

/// DEC: the target's value minus one, wrapping. The carry flag is the one
/// the register file already held, preserved untouched. The half-carry
/// test reads the accumulator's low nibble, whatever register the target
/// is; that accumulator-based formula is this engine's documented
/// behaviour.
pub open spec fn spec_dec(value: u8, accumulator: u8, carry_old: bool) -> (u8, FlagRegister) {
    let result = spec_wrapping_sub(value, 1);
    (
        result,
        FlagRegister {
            zero: result == 0,
            subtract: true,
            half_carry: spec_low_nibble(accumulator) == 0,
            carry: carry_old,
        },
    )
}

/// SWAP: the two nibbles exchanged. Every flag is fixed to false — also
/// when the result is zero, so the zero flag stays false there by design.
pub open spec fn spec_swap(value: u8) -> (u8, FlagRegister) {
    (
        ((value % 16) * 16 + value / 16) as u8,
        FlagRegister { zero: false, subtract: false, half_carry: false, carry: false },
    )
}

/// Whether an instruction belongs to one of the eleven families the engine
/// implements. The rotate variants are decoded but have no routine here.
pub open spec fn spec_supported(instruction: Instruction) -> bool {
    match instruction {
        Instruction::ADD(_) => true,
        Instruction::ADC(_) => true,
        Instruction::SUB(_) => true,
        Instruction::SBC(_) => true,
        Instruction::AND(_) => true,
        Instruction::OR(_) => true,
        Instruction::XOR(_) => true,
        Instruction::CP(_) => true,
        Instruction::INC(_) => true,
        Instruction::DEC(_) => true,
        Instruction::SWAP(_) => true,
        Instruction::RLC(_) => false,
        Instruction::RRC(_) => false,
        Instruction::RL(_) => false,
        Instruction::RR(_) => false,
    }
}

/// The register file after one supported instruction: the single atomic
/// transition that `execute` commits.
pub open spec fn spec_step(r: Registers, instruction: Instruction) -> Registers
    recommends
        spec_supported(instruction),
{
    match instruction {
        Instruction::ADD(target) => {
            let (value, flags) = spec_add(r.a, spec_reg(r, target));
            Registers { a: value, f: flags, ..r }
        },
        Instruction::ADC(target) => {
            let (value, flags) = spec_adc(r.a, spec_reg(r, target), r.f.carry);
            Registers { a: value, f: flags, ..r }
        },
        Instruction::SUB(target) => {
            let (value, flags) = spec_sub(r.a, spec_reg(r, target));
            Registers { a: value, f: flags, ..r }
        },
        Instruction::SBC(target) => {
            let (value, flags) = spec_sbc(r.a, spec_reg(r, target), r.f.carry);
            Registers { a: value, f: flags, ..r }
        },
        Instruction::AND(target) => {
            let (value, flags) = spec_and(r.a, spec_reg(r, target));
            Registers { a: value, f: flags, ..r }
        },
        Instruction::OR(target) => {
            let (value, flags) = spec_or(r.a, spec_reg(r, target));
            Registers { a: value, f: flags, ..r }
        },
        Instruction::XOR(target) => {
            let (value, flags) = spec_xor(r.a, spec_reg(r, target));
            Registers { a: value, f: flags, ..r }
        },
        Instruction::CP(target) => {
            let (_, flags) = spec_sub(r.a, spec_reg(r, target));
            Registers { f: flags, ..r }
        },
        Instruction::INC(target) => {
            let (value, flags) = spec_inc(spec_reg(r, target), r.a, r.f.carry);
            Registers { f: flags, ..spec_set_reg(r, target, value) }
        },
        Instruction::DEC(target) => {
            let (value, flags) = spec_dec(spec_reg(r, target), r.a, r.f.carry);
            Registers { f: flags, ..spec_set_reg(r, target, value) }
        },
        Instruction::SWAP(target) => {
            let (value, flags) = spec_swap(spec_reg(r, target));
            Registers { f: flags, ..spec_set_reg(r, target, value) }
        },
        _ => r,
    }
}

/// Law: INC then DEC on the same target returns that register to its
/// starting value v (0 <= v <= 254) and preserves unrelated state: every
/// general-purpose register ends as it began, and the carry flag is
/// bit-for-bit the one held before the two steps — already after the
/// first, and still after the second — whatever its pre-existing value.
pub proof fn lemma_inc_dec_round_trip(r: Registers, target: AritmeticTarget)
    requires
        spec_reg(r, target) <= 254,
    ensures
        ({
            let r1 = spec_step(r, Instruction::INC(target));
            let r2 = spec_step(r1, Instruction::DEC(target));
            &&& spec_reg(r2, target) == spec_reg(r, target)
            &&& r2 == (Registers { f: r2.f, ..r })
            &&& r1.f.carry == r.f.carry
            &&& r2.f.carry == r.f.carry
        }),
{
    let v = spec_reg(r, target);
    assert(spec_wrapping_add(v, 1) == v + 1);
    assert(spec_wrapping_sub((v + 1) as u8, 1) == v);
}

/// Law: CP never mutates the accumulator. For any accumulator and operand
/// pair, the step leaves every register — A included — as it was, and
/// writes exactly the flags SUB on the same target would have produced.
pub proof fn lemma_cp_preserves_a(r: Registers, target: AritmeticTarget)
    ensures
        ({
            let rc = spec_step(r, Instruction::CP(target));
            &&& rc.a == r.a
            &&& rc == (Registers { f: rc.f, ..r })
            &&& rc.f == spec_step(r, Instruction::SUB(target)).f
        }),
{
}

/// The failure an unimplemented opcode signals: the engine refuses the
/// instruction and leaves the register file untouched.
#[derive(Clone, Copy, Debug, PartialEq, Eq, Structural)]
pub struct UnimplementedInstruction;

impl CPU {
    /// Executes one supported instruction: commits the new register values
    /// and flags of `spec_step` into the register file, atomically.
    /// Instructions outside the eleven implemented families are excluded by
    /// the precondition; `try_execute` is the total entry point that
    /// refuses them observably.
    pub fn execute(&mut self, instruction: Instruction)
        requires
            spec_supported(instruction),
        ensures
            final(self).registers == spec_step(old(self).registers, instruction),
    {
        match instruction {
            Instruction::ADD(target) => {
                let (new_value, flags) = self.add(target);
                self.registers.a = new_value;
                self.registers.f = flags;
            },
            Instruction::ADC(target) => {
                let (new_value, flags) = self.add_with_carry(target);
                self.registers.a = new_value;
                self.registers.f = flags;
            },
            Instruction::SUB(target) => {
                let (new_value, flags) = self.subtract(target);
                self.registers.a = new_value;
                self.registers.f = flags;
            },
            Instruction::SBC(target) => {
                let (new_value, flags) = self.subtract_with_carry(target);
                self.registers.a = new_value;
                self.registers.f = flags;
            },
            Instruction::AND(target) => {
                let (new_value, flags) = self.and(target);
                self.registers.a = new_value;
                self.registers.f = flags;
            },
            Instruction::OR(target) => {
                let (new_value, flags) = self.or(target);
                self.registers.a = new_value;
                self.registers.f = flags;
            },
            Instruction::XOR(target) => {
                let (new_value, flags) = self.xor(target);
                self.registers.a = new_value;
                self.registers.f = flags;
            },
            Instruction::CP(target) => {
                let (_, flags) = self.subtract(target);
                self.registers.f = flags;
            },
            Instruction::INC(target) => {
                let (new_value, flags) = self.increment(target);
                self.write_register(target, new_value);
                self.registers.f = flags;
            },
            Instruction::DEC(target) => {
                let (new_value, flags) = self.decrement(target);
                self.write_register(target, new_value);
                self.registers.f = flags;
            },
            Instruction::SWAP(target) => {
                let (new_value, flags) = self.swap(target);
                self.write_register(target, new_value);
                self.registers.f = flags;
            },
            Instruction::RLC(_) => unreached(),
            Instruction::RRC(_) => unreached(),
            Instruction::RL(_) => unreached(),
            Instruction::RR(_) => unreached(),
        }
    }

    /// The total entry point: executes a supported instruction exactly as
    /// `execute` does, and refuses an unimplemented opcode loudly — the
    /// caller gets an error and the register file is left exactly as it
    /// was, never a silently defaulted state.
    pub fn try_execute(&mut self, instruction: Instruction) -> (r: Result<
        (),
        UnimplementedInstruction,
    >)
        ensures
            spec_supported(instruction) ==> r is Ok && final(self).registers == spec_step(
                old(self).registers,
                instruction,
            ),
            !spec_supported(instruction) ==> r is Err && final(self).registers == old(
                self,
            ).registers,
    {
        match instruction {
            Instruction::RLC(_) => Err(UnimplementedInstruction),
            Instruction::RRC(_) => Err(UnimplementedInstruction),
            Instruction::RL(_) => Err(UnimplementedInstruction),
            Instruction::RR(_) => Err(UnimplementedInstruction),
            _ => {
                self.execute(instruction);
                Ok(())
            },
        }
    }

    /// ADD's arithmetic routine: the wrapped sum of the accumulator and the
    /// target register, with the flags of `spec_add`. Pure; `execute`
    /// commits the result.
    pub fn add(&self, target: AritmeticTarget) -> (r: (u8, FlagRegister))
        ensures
            r == spec_add(self.registers.a, spec_reg(self.registers, target)),
    {
        let value = self.register_from_target(target);
        let sum: u16 = self.registers.a as u16 + value as u16;
        let new_value: u8 = (sum % 256) as u8;
        let flags = FlagRegister {
            zero: new_value == 0,
            subtract: false,
            half_carry: self.registers.a % 16 + value % 16 > 15,
            carry: sum > 255,
        };
        (new_value, flags)
    }

    /// ADC's arithmetic routine: the accumulator plus the target register
    /// plus the incoming carry bit, truncated to 8 bits, with the flags of
    /// `spec_adc`. Pure; `execute` commits the result.
    pub fn add_with_carry(&self, target: AritmeticTarget) -> (r: (u8, FlagRegister))
        ensures
            r == spec_adc(self.registers.a, spec_reg(self.registers, target), self.registers.f.carry),
    {
        let value = self.register_from_target(target);
        let carry_in: u16 = if self.registers.f.carry {
            1
        } else {
            0
        };
        let big_value: u16 = self.registers.a as u16 + value as u16 + carry_in;
        let new_value: u8 = (big_value % 256) as u8;
        let flags = FlagRegister {
            zero: new_value == 0,
            subtract: false,
            half_carry: self.registers.a % 16 + value % 16 > 15,
            carry: big_value > 255,
        };
        (new_value, flags)
    }

    /// SUB's arithmetic routine: the wrapped difference of the accumulator
    /// and the target register, with the flags of `spec_sub`.
    fn subtract(&self, target: AritmeticTarget) -> (r: (u8, FlagRegister))
        ensures
            r == spec_sub(self.registers.a, spec_reg(self.registers, target)),
    {
        let value = self.register_from_target(target);
        let a = self.registers.a;
        let new_value: u8 = if a >= value {
            a - value
        } else {
            ((a as u16 + 256 - value as u16) % 256) as u8
        };
        let flags = FlagRegister {
            zero: new_value == 0,
            subtract: true,
            half_carry: a % 16 < value % 16,
            carry: value > a,
        };
        (new_value, flags)
    }

    /// SBC's arithmetic routine: the operand is the target register lowered
    /// by the incoming carry bit, that inner subtraction wrapping modulo
    /// 256, and the result the wrapped difference of the accumulator and
    /// the operand, with the flags of `spec_sbc`.
    fn subtract_with_carry(&self, target: AritmeticTarget) -> (r: (u8, FlagRegister))
        ensures
            r == spec_sbc(self.registers.a, spec_reg(self.registers, target), self.registers.f.carry),
    {
        let value = self.register_from_target(target);
        let carry_in: u8 = if self.registers.f.carry {
            1
        } else {
            0
        };
        let operand: u8 = if value >= carry_in {
            value - carry_in
        } else {
            255
        };
        let a = self.registers.a;
        let new_value: u8 = if a >= operand {
            a - operand
        } else {
            ((a as u16 + 256 - operand as u16) % 256) as u8
        };
        let flags = FlagRegister {
            zero: new_value == 0,
            subtract: true,
            half_carry: a % 16 < value % 16,
            carry: operand > a,
        };
        (new_value, flags)
    }

    /// XOR's routine: bitwise exclusive or with the flags of `spec_xor`.
    fn xor(&self, target: AritmeticTarget) -> (r: (u8, FlagRegister))
        ensures
            r == spec_xor(self.registers.a, spec_reg(self.registers, target)),
    {
        let value = self.register_from_target(target);
        let new_value = self.registers.a ^ value;
        let flags = FlagRegister {
            zero: new_value == 0,
            subtract: false,
            half_carry: false,
            carry: false,
        };
        (new_value, flags)
    }

    /// AND's routine: bitwise conjunction with the flags of `spec_and`.
    fn and(&self, target: AritmeticTarget) -> (r: (u8, FlagRegister))
        ensures
            r == spec_and(self.registers.a, spec_reg(self.registers, target)),
    {
        let value = self.register_from_target(target);
        let new_value = self.registers.a & value;
        let flags = FlagRegister {
            zero: new_value == 0,
            subtract: false,
            half_carry: true,
            carry: false,
        };
        (new_value, flags)
    }

    /// OR's routine: bitwise disjunction with the flags of `spec_or`.
    fn or(&self, target: AritmeticTarget) -> (r: (u8, FlagRegister))
        ensures
            r == spec_or(self.registers.a, spec_reg(self.registers, target)),
    {
        let value = self.register_from_target(target);
        let new_value = self.registers.a | value;
        let flags = FlagRegister {
            zero: new_value == 0,
            subtract: false,
            half_carry: false,
            carry: false,
        };
        (new_value, flags)
    }

    /// INC's routine: the target register plus one, wrapping, with the
    /// flags of `spec_inc` — the carry flag passes through unchanged.
    fn increment(&self, target: AritmeticTarget) -> (r: (u8, FlagRegister))
        ensures
            r == spec_inc(spec_reg(self.registers, target), self.registers.a, self.registers.f.carry),
    {
        let value = self.register_from_target(target);
        let new_value: u8 = if value == 255 {
            0
        } else {
            value + 1
        };
        let flags = FlagRegister {
            zero: new_value == 0,
            subtract: false,
            half_carry: self.registers.a % 16 + 1 > 15,
            carry: self.registers.f.carry,
        };
        (new_value, flags)
    }

    /// DEC's routine: the target register minus one, wrapping, with the
    /// flags of `spec_dec` — the carry flag passes through unchanged.
    fn decrement(&self, target: AritmeticTarget) -> (r: (u8, FlagRegister))
        ensures
            r == spec_dec(spec_reg(self.registers, target), self.registers.a, self.registers.f.carry),
    {
        let value = self.register_from_target(target);
        let new_value: u8 = if value == 0 {
            255
        } else {
            value - 1
        };
        let flags = FlagRegister {
            zero: new_value == 0,
            subtract: true,
            half_carry: self.registers.a % 16 == 0,
            carry: self.registers.f.carry,
        };
        (new_value, flags)
    }

    /// SWAP's routine: the target register's two nibbles exchanged, with
    /// every flag false — also on a zero result.
    fn swap(&self, target: AritmeticTarget) -> (r: (u8, FlagRegister))
        ensures
            r == spec_swap(spec_reg(self.registers, target)),
    {
        let value = self.register_from_target(target);
        let new_value: u8 = (value % 16) * 16 + value / 16;
        let flags = FlagRegister {
            zero: false,
            subtract: false,
            half_carry: false,
            carry: false,
        };
        (new_value, flags)
    }

    /// Reads the register the selector names. Total: every selector is
    /// valid.
    fn register_from_target(&self, target: AritmeticTarget) -> (r: u8)
        ensures
            r == spec_reg(self.registers, target),
    {
        match target {
            AritmeticTarget::A => self.registers.a,
            AritmeticTarget::B => self.registers.b,
            AritmeticTarget::C => self.registers.c,
            AritmeticTarget::D => self.registers.d,
            AritmeticTarget::E => self.registers.e,
            AritmeticTarget::H => self.registers.h,
            AritmeticTarget::L => self.registers.l,
        }
    }

    /// Overwrites the register the selector names, leaving every other
    /// register and the flags as they were.
    fn write_register(&mut self, target: AritmeticTarget, value: u8)
        ensures
            final(self).registers == spec_set_reg(old(self).registers, target, value),
    {
        match target {
            AritmeticTarget::A => {
                self.registers.a = value;
            },
            AritmeticTarget::B => {
                self.registers.b = value;
            },
            AritmeticTarget::C => {
                self.registers.c = value;
            },
            AritmeticTarget::D => {
                self.registers.d = value;
            },
            AritmeticTarget::E => {
                self.registers.e = value;
            },
            AritmeticTarget::H => {
                self.registers.h = value;
            },
            AritmeticTarget::L => {
                self.registers.l = value;
            },
        }
    }
}

} // verus!
