//! The assembler-direction view of an instruction: an operation code plus
//! up to three arguments, matched against the variant table of
//! `crate::variant` to find the bit pattern that encodes it.

use vstd::prelude::*;

verus! {

/// How many argument slots an instruction carries.
pub const MAX_ARGUMENTS: usize = 3;

/// Why an instruction could not be encoded.
#[derive(Clone, Copy, Debug, PartialEq, Eq, Structural)]
pub enum InstructionError {
    /// A label must be resolved to an address before encoding.
    UnresolvedLabel,
}

/// The operation an instruction performs, independent of its encoding.
#[derive(Clone, Copy, Debug, PartialEq, Eq, Structural)]
pub enum Code {
    ClearScreen,
    Return,
    Jump,
    Call,
    SkipEquals,
    SkipNotEquals,
    Load,
    Add,
    Or,
    And,
    Xor,
    Subtract,
    ShiftRight,
    SubtractInverse,
    ShiftLeft,
    Rand,
    Draw,
    SkipKeyPressed,
    SkipKeyNotPressed,
}

/// One argument slot: empty, a concrete operand, one of the fixed
/// pseudo-operands that select an encoding, or a not-yet-resolved label.
#[derive(Debug, Clone, PartialEq, Eq)]
pub enum Argument {
    Empty,
    Address(u16),
    Register(u8),
    Byte(u8),
    ImagePointer,
    KeyRegister,
    DelayTimer,
    SoundTimer,
    FontPointer,
    BcdPointer,
    ArrayPointer,
    Label(String),
}

/// The 16-bit value an argument contributes to an encoding: its operand
/// value, zero for the fixed pseudo-operands, and a refusal for a label.
pub open spec fn spec_get_value(a: Argument) -> Result<u16, InstructionError> {
    match a {
        Argument::Address(x) => Ok(x),
        Argument::Register(r) => Ok(r as u16),
        Argument::Byte(b) => Ok(b as u16),
        Argument::Label(_) => Err(InstructionError::UnresolvedLabel),
        _ => Ok(0u16),
    }
}

impl Argument {
    /// The value this argument contributes to an encoding.
    pub fn get_value(&self) -> (r: Result<u16, InstructionError>)
        ensures
            r == spec_get_value(*self),
    {
        match self {
            Argument::Address(a) => Ok(*a),
            Argument::Register(r) => Ok(*r as u16),
            Argument::Byte(b) => Ok(*b as u16),
            Argument::Label(_) => Err(InstructionError::UnresolvedLabel),
            _ => Ok(0u16),
        }
    }
}

/// An instruction on the assembler side: its operation and the three
/// argument slots, trailing slots empty.
pub struct Instruction {
    pub code: Code,
    pub arguments: [Argument; 3],
}

} // verus!
