use gb_alu::cpu::CPU;
use gb_alu::opcodes::{AritmeticTarget, Instruction};
use gb_alu::registers::{fold, Registers};

fn cpu_with_a_and_b(a: u8, b: u8) -> CPU {
    let mut cpu = CPU {
        registers: Registers::new(),
    };
    cpu.registers.a = a;
    cpu.registers.b = b;
    cpu
}

fn cpu_with_carry_a_and_b(a: u8, b: u8) -> CPU {
    let mut cpu = CPU {
        registers: Registers::new(),
    };
    cpu.registers.set_af(fold(a, 1));
    cpu.registers.b = b;
    cpu
}

#[test]
fn add_with_carry_includes_the_incoming_carry_bit() {
    let mut cpu = cpu_with_carry_a_and_b(0xFE, 0x01);
    assert!(cpu.registers.f.carry);
    cpu.execute(Instruction::ADC(AritmeticTarget::B));
    assert_eq!(cpu.registers.a, 0x00);
    assert!(cpu.registers.f.zero);
    assert!(cpu.registers.f.carry);
    assert!(!cpu.registers.f.half_carry);
    assert!(!cpu.registers.f.subtract);
}

#[test]
fn add_with_carry_without_incoming_carry_behaves_like_add() {
    let mut cpu = cpu_with_a_and_b(0x0F, 0x01);
    cpu.execute(Instruction::ADC(AritmeticTarget::B));
    assert_eq!(cpu.registers.a, 0x10);
    assert!(cpu.registers.f.half_carry);
    assert!(!cpu.registers.f.carry);
    assert!(!cpu.registers.f.zero);
}

#[test]
fn subtracting_borrows_across_the_nibble_and_byte_boundaries() {
    let mut cpu = cpu_with_a_and_b(0x10, 0x01);
    cpu.execute(Instruction::SUB(AritmeticTarget::B));
    assert_eq!(cpu.registers.a, 0x0F);
    assert!(cpu.registers.f.subtract);
    assert!(cpu.registers.f.half_carry);
    assert!(!cpu.registers.f.carry);
    assert!(!cpu.registers.f.zero);

    let mut wrapped = cpu_with_a_and_b(0x00, 0x01);
    wrapped.execute(Instruction::SUB(AritmeticTarget::B));
    assert_eq!(wrapped.registers.a, 0xFF);
    assert!(wrapped.registers.f.carry);
    assert!(wrapped.registers.f.half_carry);

    let mut to_zero = cpu_with_a_and_b(0x21, 0x21);
    to_zero.execute(Instruction::SUB(AritmeticTarget::B));
    assert_eq!(to_zero.registers.a, 0);
    assert!(to_zero.registers.f.zero);
    assert!(!to_zero.registers.f.carry);
}

#[test]
fn subtract_with_carry_lowers_the_operand_by_the_carry_bit() {
    let mut cpu = cpu_with_carry_a_and_b(9, 3);
    cpu.execute(Instruction::SBC(AritmeticTarget::B));
    assert_eq!(cpu.registers.a, 7);
    assert!(cpu.registers.f.subtract);
    assert!(!cpu.registers.f.carry);
    assert!(!cpu.registers.f.zero);
}

#[test]
fn subtract_with_carry_wraps_the_operand_when_it_is_zero_with_carry_in() {
    // The inner value-minus-carry subtraction wraps modulo 256: operand
    // 0 with carry in becomes 255, so A gains one modulo 256 and the
    // outer subtraction borrows.
    let mut cpu = cpu_with_carry_a_and_b(10, 0);
    cpu.execute(Instruction::SBC(AritmeticTarget::B));
    assert_eq!(cpu.registers.a, 11);
    assert!(cpu.registers.f.carry);
    assert!(cpu.registers.f.subtract);
    assert!(!cpu.registers.f.half_carry);
    assert!(!cpu.registers.f.zero);
}

#[test]
fn and_masks_the_accumulator_and_fixes_half_carry() {
    let mut cpu = cpu_with_a_and_b(0b1100_1010, 0b1010_0110);
    cpu.execute(Instruction::AND(AritmeticTarget::B));
    assert_eq!(cpu.registers.a, 0b1000_0010);
    assert!(cpu.registers.f.half_carry);
    assert!(!cpu.registers.f.zero);
    assert!(!cpu.registers.f.subtract);
    assert!(!cpu.registers.f.carry);

    let mut to_zero = cpu_with_a_and_b(0xF0, 0x0F);
    to_zero.execute(Instruction::AND(AritmeticTarget::B));
    assert_eq!(to_zero.registers.a, 0);
    assert!(to_zero.registers.f.zero);
    assert!(to_zero.registers.f.half_carry);
}

#[test]
fn or_merges_the_accumulator_with_all_flags_fixed_clear() {
    let mut cpu = cpu_with_a_and_b(0xF0, 0x0F);
    cpu.execute(Instruction::OR(AritmeticTarget::B));
    assert_eq!(cpu.registers.a, 0xFF);
    assert!(!cpu.registers.f.zero);
    assert!(!cpu.registers.f.subtract);
    assert!(!cpu.registers.f.half_carry);
    assert!(!cpu.registers.f.carry);

    let mut to_zero = cpu_with_a_and_b(0, 0);
    to_zero.execute(Instruction::OR(AritmeticTarget::B));
    assert_eq!(to_zero.registers.a, 0);
    assert!(to_zero.registers.f.zero);
}

#[test]
fn xor_differences_the_accumulator_with_all_flags_fixed_clear() {
    let mut cpu = cpu_with_a_and_b(0b0110, 0b0011);
    cpu.execute(Instruction::XOR(AritmeticTarget::B));
    assert_eq!(cpu.registers.a, 0b0101);
    assert!(!cpu.registers.f.zero);
    assert!(!cpu.registers.f.half_carry);
    assert!(!cpu.registers.f.carry);

    let mut to_zero = cpu_with_a_and_b(0xAB, 0xAB);
    to_zero.execute(Instruction::XOR(AritmeticTarget::B));
    assert_eq!(to_zero.registers.a, 0);
    assert!(to_zero.registers.f.zero);
}

#[test]
fn increment_wraps_at_the_byte_boundary() {
    let mut cpu = cpu_with_a_and_b(0, 0);
    cpu.registers.e = 255;
    cpu.execute(Instruction::INC(AritmeticTarget::E));
    assert_eq!(cpu.registers.e, 0);
    assert!(cpu.registers.f.zero);
    assert!(!cpu.registers.f.subtract);
}

#[test]
fn decrement_wraps_at_the_byte_boundary() {
    let mut cpu = cpu_with_a_and_b(1, 0);
    cpu.registers.h = 0;
    cpu.execute(Instruction::DEC(AritmeticTarget::H));
    assert_eq!(cpu.registers.h, 255);
    assert!(!cpu.registers.f.zero);
    assert!(cpu.registers.f.subtract);
}

#[test]
fn increment_half_carry_reads_the_accumulator_nibble_not_the_target() {
    // The engine's documented behaviour: the INC half-carry test uses the
    // accumulator's low nibble even when another register is the target.
    let mut cpu = cpu_with_a_and_b(0x0F, 5);
    cpu.execute(Instruction::INC(AritmeticTarget::B));
    assert_eq!(cpu.registers.b, 6);
    assert!(cpu.registers.f.half_carry);

    let mut other = cpu_with_a_and_b(0x10, 0x0F);
    other.execute(Instruction::INC(AritmeticTarget::B));
    assert_eq!(other.registers.b, 0x10);
    assert!(!other.registers.f.half_carry);
}

#[test]
fn decrement_half_carry_reads_the_accumulator_nibble_not_the_target() {
    // The engine's documented behaviour: the DEC half-carry test uses the
    // accumulator's low nibble even when another register is the target.
    let mut cpu = cpu_with_a_and_b(0x10, 5);
    cpu.execute(Instruction::DEC(AritmeticTarget::B));
    assert_eq!(cpu.registers.b, 4);
    assert!(cpu.registers.f.half_carry);

    let mut other = cpu_with_a_and_b(0x01, 0x10);
    other.execute(Instruction::DEC(AritmeticTarget::B));
    assert_eq!(other.registers.b, 0x0F);
    assert!(!other.registers.f.half_carry);
}

#[test]
fn every_register_can_be_the_operand_and_a_can_add_itself() {
    let mut cpu = CPU {
        registers: Registers::new(),
    };
    cpu.registers.a = 3;
    cpu.execute(Instruction::ADD(AritmeticTarget::A));
    assert_eq!(cpu.registers.a, 6);
    cpu.execute(Instruction::SUB(AritmeticTarget::A));
    assert_eq!(cpu.registers.a, 0);
    assert!(cpu.registers.f.zero);
}
