//! Arithmetic-logic and register core of an 8-bit CPU.
//!
//! The crate models the register file of a Game-Boy-class processor (seven
//! 8-bit general-purpose registers, a four-flag condition register, and the
//! paired 16-bit views over them) together with the execution engine for the
//! arithmetic/logic instruction families ADD, ADC, SUB, SBC, AND, OR, XOR,
//! CP, INC, DEC and SWAP. Every operation's result value and flag side
//! effects are stated as contracts and verified.

pub mod cpu;
pub mod flag_register;
pub mod opcodes;
pub mod registers;
