use vstd::prelude::*;

verus! {

/// Selects which of the seven addressable 8-bit registers supplies an
/// operand — and, for INC, DEC and SWAP, which one receives the result.
#[derive(Clone, Copy, Debug, PartialEq, Eq, Structural)]
pub enum AritmeticTarget {
    A,
    B,
    C,
    D,
    E,
    H,
    L,
}

/// A decoded instruction: an opcode family carrying its target-register
/// selector.
///
/// Only the eleven arithmetic/logic families ADD, ADC, SUB, SBC, AND, OR,
/// XOR, CP, INC, DEC and SWAP have an execution routine here. The rotate
/// family RLC, RRC, RL and RR is decoded but out of scope: executing one of
/// those variants is an unimplemented-opcode failure, never a silent no-op.
#[derive(Clone, Copy, Debug, PartialEq, Eq, Structural)]
pub enum Instruction {
    ADD(AritmeticTarget),
    ADC(AritmeticTarget),
    SUB(AritmeticTarget),
    SBC(AritmeticTarget),
    AND(AritmeticTarget),
    OR(AritmeticTarget),
    XOR(AritmeticTarget),
    CP(AritmeticTarget),
    INC(AritmeticTarget),
    DEC(AritmeticTarget),
    SWAP(AritmeticTarget),
    RLC(AritmeticTarget),
    RRC(AritmeticTarget),
    RL(AritmeticTarget),
    RR(AritmeticTarget),
}

} // verus!
