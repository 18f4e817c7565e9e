//! The table of instruction encodings for the assembler direction: every
//! way an operation can be written down as a 16-bit word, with the bit
//! mask of each argument. `get_variant` finds the first table entry whose
//! shape an instruction fits.

use vstd::prelude::*;
use vstd::std_specs::bits::{axiom_u16_trailing_zeros, u16_trailing_zeros};
use crate::instruction::{Argument, Code, Instruction, InstructionError, MAX_ARGUMENTS};

verus! {

/// The shape of one argument slot, without its value.
#[derive(Clone, Copy, Debug, PartialEq, Eq, Structural)]
pub enum ArgumentType {
    Empty,
    Address,
    Register,
    Byte,
    ImagePointer,
    KeyRegister,
    DelayTimer,
    SoundTimer,
    FontPointer,
    BcdPointer,
    ArrayPointer,
}

/// The shape an argument has: a label stands for an address.
pub open spec fn spec_from_argument(arg: Argument) -> ArgumentType {
    match arg {
        Argument::Empty => ArgumentType::Empty,
        Argument::Address(_) => ArgumentType::Address,
        Argument::Register(_) => ArgumentType::Register,
        Argument::Byte(_) => ArgumentType::Byte,
        Argument::ImagePointer => ArgumentType::ImagePointer,
        Argument::KeyRegister => ArgumentType::KeyRegister,
        Argument::DelayTimer => ArgumentType::DelayTimer,
        Argument::SoundTimer => ArgumentType::SoundTimer,
        Argument::FontPointer => ArgumentType::FontPointer,
        Argument::BcdPointer => ArgumentType::BcdPointer,
        Argument::ArrayPointer => ArgumentType::ArrayPointer,
        Argument::Label(_) => ArgumentType::Address,
    }
}

impl ArgumentType {
    /// The shape of a concrete argument.
    pub fn from_argument(arg: &Argument) -> (r: ArgumentType)
        ensures
            r == spec_from_argument(*arg),
    {
        match arg {
            Argument::Empty => ArgumentType::Empty,
            Argument::Address(_) => ArgumentType::Address,
            Argument::Register(_) => ArgumentType::Register,
            Argument::Byte(_) => ArgumentType::Byte,
            Argument::ImagePointer => ArgumentType::ImagePointer,
            Argument::KeyRegister => ArgumentType::KeyRegister,
            Argument::DelayTimer => ArgumentType::DelayTimer,
            Argument::SoundTimer => ArgumentType::SoundTimer,
            Argument::FontPointer => ArgumentType::FontPointer,
            Argument::BcdPointer => ArgumentType::BcdPointer,
            Argument::ArrayPointer => ArgumentType::ArrayPointer,
            Argument::Label(_) => ArgumentType::Address,
        }
    }
}

/// One argument slot of an encoding: its shape and the bits of the word
/// that carry its value; a zero mask carries nothing.
#[derive(Clone, Copy, Debug, PartialEq, Eq, Structural)]
pub struct ArgumentDefinition {
    pub arg_type: ArgumentType,
    pub mask: u16,
}

/// One encoding: the operation it encodes, its base opcode bits, and the
/// shapes and masks of its three argument slots.
#[derive(Clone, Copy, Debug)]
pub struct Variant {
    pub code: Code,
    pub opcode: u16,
    pub arguments: [ArgumentDefinition; 3],
}

/// Whether an instruction fits an encoding: same operation, and every
/// argument slot of the matching shape.
pub open spec fn spec_matches(v: Variant, inst: Instruction) -> bool {
    &&& v.code == inst.code
    &&& forall|k: int|
        0 <= k < 3 ==> v.arguments@[k].arg_type == #[trigger] spec_from_argument(
            inst.arguments@[k],
        )
}

/// The bits one argument contributes to the encoded word: its value
/// shifted into the slot's mask; a valueless or maskless slot adds none.
pub open spec fn spec_contribution(mask: u16, value: u16) -> u16 {
    if mask != 0 && value != 0 {
        (value << (u16_trailing_zeros(mask) as u16)) & mask
    } else {
        0u16
    }
}

/// What encoding an instruction gets from a variant: the base opcode with
/// every argument's bits folded in, or a refusal while a label is
/// unresolved.
pub open spec fn spec_as_binary(v: Variant, inst: Instruction) -> Result<u16, InstructionError> {
    if inst.arguments@[0] is Label || inst.arguments@[1] is Label || inst.arguments@[2] is Label {
        Err(InstructionError::UnresolvedLabel)
    } else {
        Ok(
            v.opcode | spec_contribution(
                v.arguments@[0].mask,
                spec_get_value_ok(inst.arguments@[0]),
            ) | spec_contribution(v.arguments@[1].mask, spec_get_value_ok(inst.arguments@[1]))
                | spec_contribution(v.arguments@[2].mask, spec_get_value_ok(inst.arguments@[2])),
        )
    }
}

/// The value of an argument that is not a label.
pub open spec fn spec_get_value_ok(a: Argument) -> u16 {
    crate::instruction::spec_get_value(a)->Ok_0
}

/// The bits one argument contributes to the encoded word.
fn contribution(mask: u16, value: u16) -> (r: u16)
    ensures
        r == spec_contribution(mask, value),
{
    if mask != 0 && value != 0 {
        proof {
            axiom_u16_trailing_zeros(mask);
        }
        let tz = mask.trailing_zeros();
        (value << (tz as u16)) & mask
    } else {
        0u16
    }
}

impl Variant {
    /// Whether an instruction fits this encoding.
    pub fn matches(&self, inst: &Instruction) -> (r: bool)
        ensures
            r == spec_matches(*self, *inst),
    {
        if self.code != inst.code {
            return false;
        }
        let mut i: usize = 0;
        while i < MAX_ARGUMENTS
            invariant
                i <= 3,
                self.code == inst.code,
                forall|k: int|
                    0 <= k < i ==> self.arguments@[k].arg_type == #[trigger] spec_from_argument(
                        inst.arguments@[k],
                    ),
            decreases 3 - i,
        {
            let t = ArgumentType::from_argument(&inst.arguments[i]);
            if t != self.arguments[i].arg_type {
                return false;
            }
            i = i + 1;
        }
        true
    }

    /// Encodes an instruction through this variant.
    pub fn as_binary(&self, inst: &Instruction) -> (r: Result<u16, InstructionError>)
        ensures
            r == spec_as_binary(*self, *inst),
    {
        let v0 = match inst.arguments[0].get_value() {
            Ok(v) => v,
            Err(e) => {
                return Err(e);
            },
        };
        let v1 = match inst.arguments[1].get_value() {
            Ok(v) => v,
            Err(e) => {
                return Err(e);
            },
        };
        let v2 = match inst.arguments[2].get_value() {
            Ok(v) => v,
            Err(e) => {
                return Err(e);
            },
        };
        let mut bin_inst = self.opcode;
        bin_inst = bin_inst | contribution(self.arguments[0].mask, v0);
        bin_inst = bin_inst | contribution(self.arguments[1].mask, v1);
        bin_inst = bin_inst | contribution(self.arguments[2].mask, v2);
        Ok(bin_inst)
    }
}

/// The canonical encoding table, in matching priority order.
pub open spec fn spec_variant_table() -> Seq<Variant> {
    seq![
        Variant {
            code: Code::ClearScreen,
            opcode: 0x00E0,
            arguments: [
                ArgumentDefinition { arg_type: ArgumentType::Empty, mask: 0 },
                ArgumentDefinition { arg_type: ArgumentType::Empty, mask: 0 },
                ArgumentDefinition { arg_type: ArgumentType::Empty, mask: 0 },
            ],
        },
        Variant {
            code: Code::Return,
            opcode: 0x00EE,
            arguments: [
                ArgumentDefinition { arg_type: ArgumentType::Empty, mask: 0 },
                ArgumentDefinition { arg_type: ArgumentType::Empty, mask: 0 },
                ArgumentDefinition { arg_type: ArgumentType::Empty, mask: 0 },
            ],
        },
        Variant {
            code: Code::Jump,
            opcode: 0x1000,
            arguments: [
                ArgumentDefinition { arg_type: ArgumentType::Address, mask: 0xFFF },
                ArgumentDefinition { arg_type: ArgumentType::Empty, mask: 0 },
                ArgumentDefinition { arg_type: ArgumentType::Empty, mask: 0 },
            ],
        },
        Variant {
            code: Code::Call,
            opcode: 0x2000,
            arguments: [
                ArgumentDefinition { arg_type: ArgumentType::Address, mask: 0xFFF },
                ArgumentDefinition { arg_type: ArgumentType::Empty, mask: 0 },
                ArgumentDefinition { arg_type: ArgumentType::Empty, mask: 0 },
            ],
        },
        Variant {
            code: Code::SkipEquals,
            opcode: 0x3000,
            arguments: [
                ArgumentDefinition { arg_type: ArgumentType::Register, mask: 0xF00 },
                ArgumentDefinition { arg_type: ArgumentType::Byte, mask: 0x0FF },
                ArgumentDefinition { arg_type: ArgumentType::Empty, mask: 0 },
            ],
        },
        Variant {
            code: Code::SkipNotEquals,
            opcode: 0x4000,
            arguments: [
                ArgumentDefinition { arg_type: ArgumentType::Register, mask: 0xF00 },
                ArgumentDefinition { arg_type: ArgumentType::Byte, mask: 0x0FF },
                ArgumentDefinition { arg_type: ArgumentType::Empty, mask: 0 },
            ],
        },
        Variant {
            code: Code::SkipEquals,
            opcode: 0x5000,
            arguments: [
                ArgumentDefinition { arg_type: ArgumentType::Register, mask: 0xF00 },
                ArgumentDefinition { arg_type: ArgumentType::Register, mask: 0x0F0 },
                ArgumentDefinition { arg_type: ArgumentType::Empty, mask: 0 },
            ],
        },
        Variant {
            code: Code::Load,
            opcode: 0x6000,
            arguments: [
                ArgumentDefinition { arg_type: ArgumentType::Register, mask: 0xF00 },
                ArgumentDefinition { arg_type: ArgumentType::Byte, mask: 0x0FF },
                ArgumentDefinition { arg_type: ArgumentType::Empty, mask: 0 },
            ],
        },
        Variant {
            code: Code::Add,
            opcode: 0x7000,
            arguments: [
                ArgumentDefinition { arg_type: ArgumentType::Register, mask: 0xF00 },
                ArgumentDefinition { arg_type: ArgumentType::Byte, mask: 0x0FF },
                ArgumentDefinition { arg_type: ArgumentType::Empty, mask: 0 },
            ],
        },
        Variant {
            code: Code::Load,
            opcode: 0x8000,
            arguments: [
                ArgumentDefinition { arg_type: ArgumentType::Register, mask: 0xF00 },
                ArgumentDefinition { arg_type: ArgumentType::Register, mask: 0x0F0 },
                ArgumentDefinition { arg_type: ArgumentType::Empty, mask: 0 },
            ],
        },
        Variant {
            code: Code::Or,
            opcode: 0x8001,
            arguments: [
                ArgumentDefinition { arg_type: ArgumentType::Register, mask: 0xF00 },
                ArgumentDefinition { arg_type: ArgumentType::Register, mask: 0x0F0 },
                ArgumentDefinition { arg_type: ArgumentType::Empty, mask: 0 },
            ],
        },
        Variant {
            code: Code::And,
            opcode: 0x8002,
            arguments: [
                ArgumentDefinition { arg_type: ArgumentType::Register, mask: 0xF00 },
                ArgumentDefinition { arg_type: ArgumentType::Register, mask: 0x0F0 },
                ArgumentDefinition { arg_type: ArgumentType::Empty, mask: 0 },
            ],
        },
        Variant {
            code: Code::Xor,
            opcode: 0x8003,
            arguments: [
                ArgumentDefinition { arg_type: ArgumentType::Register, mask: 0xF00 },
                ArgumentDefinition { arg_type: ArgumentType::Register, mask: 0x0F0 },
                ArgumentDefinition { arg_type: ArgumentType::Empty, mask: 0 },
            ],
        },
        Variant {
            code: Code::Add,
            opcode: 0x8004,
            arguments: [
                ArgumentDefinition { arg_type: ArgumentType::Register, mask: 0xF00 },
                ArgumentDefinition { arg_type: ArgumentType::Register, mask: 0x0F0 },
                ArgumentDefinition { arg_type: ArgumentType::Empty, mask: 0 },
            ],
        },
        Variant {
            code: Code::Subtract,
            opcode: 0x8005,
            arguments: [
                ArgumentDefinition { arg_type: ArgumentType::Register, mask: 0xF00 },
                ArgumentDefinition { arg_type: ArgumentType::Register, mask: 0x0F0 },
                ArgumentDefinition { arg_type: ArgumentType::Empty, mask: 0 },
            ],
        },
        Variant {
            code: Code::ShiftRight,
            opcode: 0x8006,
            arguments: [
                ArgumentDefinition { arg_type: ArgumentType::Register, mask: 0xF00 },
                ArgumentDefinition { arg_type: ArgumentType::Empty, mask: 0 },
                ArgumentDefinition { arg_type: ArgumentType::Empty, mask: 0 },
            ],
        },
        Variant {
            code: Code::ShiftRight,
            opcode: 0x8006,
            arguments: [
                ArgumentDefinition { arg_type: ArgumentType::Register, mask: 0xF00 },
                ArgumentDefinition { arg_type: ArgumentType::Register, mask: 0x0F0 },
                ArgumentDefinition { arg_type: ArgumentType::Empty, mask: 0 },
            ],
        },
        Variant {
            code: Code::SubtractInverse,
            opcode: 0x8007,
            arguments: [
                ArgumentDefinition { arg_type: ArgumentType::Register, mask: 0xF00 },
                ArgumentDefinition { arg_type: ArgumentType::Register, mask: 0x0F0 },
                ArgumentDefinition { arg_type: ArgumentType::Empty, mask: 0 },
            ],
        },
        Variant {
            code: Code::ShiftLeft,
            opcode: 0x800E,
            arguments: [
                ArgumentDefinition { arg_type: ArgumentType::Register, mask: 0xF00 },
                ArgumentDefinition { arg_type: ArgumentType::Empty, mask: 0 },
                ArgumentDefinition { arg_type: ArgumentType::Empty, mask: 0 },
            ],
        },
        Variant {
            code: Code::ShiftLeft,
            opcode: 0x800E,
            arguments: [
                ArgumentDefinition { arg_type: ArgumentType::Register, mask: 0xF00 },
                ArgumentDefinition { arg_type: ArgumentType::Register, mask: 0x0F0 },
                ArgumentDefinition { arg_type: ArgumentType::Empty, mask: 0 },
            ],
        },
        Variant {
            code: Code::SkipNotEquals,
            opcode: 0x9000,
            arguments: [
                ArgumentDefinition { arg_type: ArgumentType::Register, mask: 0xF00 },
                ArgumentDefinition { arg_type: ArgumentType::Register, mask: 0x0F0 },
                ArgumentDefinition { arg_type: ArgumentType::Empty, mask: 0 },
            ],
        },
        Variant {
            code: Code::Load,
            opcode: 0xA000,
            arguments: [
                ArgumentDefinition { arg_type: ArgumentType::ImagePointer, mask: 0 },
                ArgumentDefinition { arg_type: ArgumentType::Address, mask: 0xFFF },
                ArgumentDefinition { arg_type: ArgumentType::Empty, mask: 0 },
            ],
        },
        Variant {
            code: Code::Jump,
            opcode: 0xB000,
            arguments: [
                ArgumentDefinition { arg_type: ArgumentType::Register, mask: 0 },
                ArgumentDefinition { arg_type: ArgumentType::Address, mask: 0xFFF },
                ArgumentDefinition { arg_type: ArgumentType::Empty, mask: 0 },
            ],
        },
        Variant {
            code: Code::Rand,
            opcode: 0xC000,
            arguments: [
                ArgumentDefinition { arg_type: ArgumentType::Register, mask: 0xF00 },
                ArgumentDefinition { arg_type: ArgumentType::Byte, mask: 0x0FF },
                ArgumentDefinition { arg_type: ArgumentType::Empty, mask: 0 },
            ],
        },
        Variant {
            code: Code::Draw,
            opcode: 0xD000,
            arguments: [
                ArgumentDefinition { arg_type: ArgumentType::Register, mask: 0xF00 },
                ArgumentDefinition { arg_type: ArgumentType::Register, mask: 0x0F0 },
                ArgumentDefinition { arg_type: ArgumentType::Byte, mask: 0x00F },
            ],
        },
        Variant {
            code: Code::SkipKeyPressed,
            opcode: 0xE09E,
            arguments: [
                ArgumentDefinition { arg_type: ArgumentType::Register, mask: 0xF00 },
                ArgumentDefinition { arg_type: ArgumentType::Empty, mask: 0 },
                ArgumentDefinition { arg_type: ArgumentType::Empty, mask: 0 },
            ],
        },
        Variant {
            code: Code::SkipKeyNotPressed,
            opcode: 0xE0A1,
            arguments: [
                ArgumentDefinition { arg_type: ArgumentType::Register, mask: 0xF00 },
                ArgumentDefinition { arg_type: ArgumentType::Empty, mask: 0 },
                ArgumentDefinition { arg_type: ArgumentType::Empty, mask: 0 },
            ],
        },
        Variant {
            code: Code::Load,
            opcode: 0xF007,
            arguments: [
                ArgumentDefinition { arg_type: ArgumentType::Register, mask: 0xF00 },
                ArgumentDefinition { arg_type: ArgumentType::DelayTimer, mask: 0 },
                ArgumentDefinition { arg_type: ArgumentType::Empty, mask: 0 },
            ],
        },
        Variant {
            code: Code::Load,
            opcode: 0xF00A,
            arguments: [
                ArgumentDefinition { arg_type: ArgumentType::Register, mask: 0xF00 },
                ArgumentDefinition { arg_type: ArgumentType::KeyRegister, mask: 0 },
                ArgumentDefinition { arg_type: ArgumentType::Empty, mask: 0 },
            ],
        },
        Variant {
            code: Code::Load,
            opcode: 0xF015,
            arguments: [
                ArgumentDefinition { arg_type: ArgumentType::DelayTimer, mask: 0 },
                ArgumentDefinition { arg_type: ArgumentType::Register, mask: 0xF00 },
                ArgumentDefinition { arg_type: ArgumentType::Empty, mask: 0 },
            ],
        },
        Variant {
            code: Code::Load,
            opcode: 0xF018,
            arguments: [
                ArgumentDefinition { arg_type: ArgumentType::SoundTimer, mask: 0 },
                ArgumentDefinition { arg_type: ArgumentType::Register, mask: 0xF00 },
                ArgumentDefinition { arg_type: ArgumentType::Empty, mask: 0 },
            ],
        },
        Variant {
            code: Code::Add,
            opcode: 0xF01E,
            arguments: [
                ArgumentDefinition { arg_type: ArgumentType::ImagePointer, mask: 0 },
                ArgumentDefinition { arg_type: ArgumentType::Register, mask: 0xF00 },
                ArgumentDefinition { arg_type: ArgumentType::Empty, mask: 0 },
            ],
        },
        Variant {
            code: Code::Load,
            opcode: 0xF029,
            arguments: [
                ArgumentDefinition { arg_type: ArgumentType::FontPointer, mask: 0 },
                ArgumentDefinition { arg_type: ArgumentType::Register, mask: 0xF00 },
                ArgumentDefinition { arg_type: ArgumentType::Empty, mask: 0 },
            ],
        },
        Variant {
            code: Code::Load,
            opcode: 0xF033,
            arguments: [
                ArgumentDefinition { arg_type: ArgumentType::BcdPointer, mask: 0 },
                ArgumentDefinition { arg_type: ArgumentType::Register, mask: 0xF00 },
                ArgumentDefinition { arg_type: ArgumentType::Empty, mask: 0 },
            ],
        },
        Variant {
            code: Code::Load,
            opcode: 0xF055,
            arguments: [
                ArgumentDefinition { arg_type: ArgumentType::ArrayPointer, mask: 0 },
                ArgumentDefinition { arg_type: ArgumentType::Register, mask: 0xF00 },
                ArgumentDefinition { arg_type: ArgumentType::Empty, mask: 0 },
            ],
        },
        Variant {
            code: Code::Load,
            opcode: 0xF065,
            arguments: [
                ArgumentDefinition { arg_type: ArgumentType::Register, mask: 0xF00 },
                ArgumentDefinition { arg_type: ArgumentType::ArrayPointer, mask: 0 },
                ArgumentDefinition { arg_type: ArgumentType::Empty, mask: 0 },
            ],
        }
    ]
}

/// Builds the canonical encoding table.
pub fn instruction_variants() -> (table: Vec<Variant>)
    ensures
        table@ == spec_variant_table(),
{
    let mut table: Vec<Variant> = Vec::new();
    table.push(
        Variant {
            code: Code::ClearScreen,
            opcode: 0x00E0,
            arguments: [
                ArgumentDefinition { arg_type: ArgumentType::Empty, mask: 0 },
                ArgumentDefinition { arg_type: ArgumentType::Empty, mask: 0 },
                ArgumentDefinition { arg_type: ArgumentType::Empty, mask: 0 },
            ],
        },
    );
    table.push(
        Variant {
            code: Code::Return,
            opcode: 0x00EE,
            arguments: [
                ArgumentDefinition { arg_type: ArgumentType::Empty, mask: 0 },
                ArgumentDefinition { arg_type: ArgumentType::Empty, mask: 0 },
                ArgumentDefinition { arg_type: ArgumentType::Empty, mask: 0 },
            ],
        },
    );
    table.push(
        Variant {
            code: Code::Jump,
            opcode: 0x1000,
            arguments: [
                ArgumentDefinition { arg_type: ArgumentType::Address, mask: 0xFFF },
                ArgumentDefinition { arg_type: ArgumentType::Empty, mask: 0 },
                ArgumentDefinition { arg_type: ArgumentType::Empty, mask: 0 },
            ],
        },
    );
    table.push(
        Variant {
            code: Code::Call,
            opcode: 0x2000,
            arguments: [
                ArgumentDefinition { arg_type: ArgumentType::Address, mask: 0xFFF },
                ArgumentDefinition { arg_type: ArgumentType::Empty, mask: 0 },
                ArgumentDefinition { arg_type: ArgumentType::Empty, mask: 0 },
            ],
        },
    );
    table.push(
        Variant {
            code: Code::SkipEquals,
            opcode: 0x3000,
            arguments: [
                ArgumentDefinition { arg_type: ArgumentType::Register, mask: 0xF00 },
                ArgumentDefinition { arg_type: ArgumentType::Byte, mask: 0x0FF },
                ArgumentDefinition { arg_type: ArgumentType::Empty, mask: 0 },
            ],
        },
    );
    table.push(
        Variant {
            code: Code::SkipNotEquals,
            opcode: 0x4000,
            arguments: [
                ArgumentDefinition { arg_type: ArgumentType::Register, mask: 0xF00 },
                ArgumentDefinition { arg_type: ArgumentType::Byte, mask: 0x0FF },
                ArgumentDefinition { arg_type: ArgumentType::Empty, mask: 0 },
            ],
        },
    );
    table.push(
        Variant {
            code: Code::SkipEquals,
            opcode: 0x5000,
            arguments: [
                ArgumentDefinition { arg_type: ArgumentType::Register, mask: 0xF00 },
                ArgumentDefinition { arg_type: ArgumentType::Register, mask: 0x0F0 },
                ArgumentDefinition { arg_type: ArgumentType::Empty, mask: 0 },
            ],
        },
    );
    table.push(
        Variant {
            code: Code::Load,
            opcode: 0x6000,
            arguments: [
                ArgumentDefinition { arg_type: ArgumentType::Register, mask: 0xF00 },
                ArgumentDefinition { arg_type: ArgumentType::Byte, mask: 0x0FF },
                ArgumentDefinition { arg_type: ArgumentType::Empty, mask: 0 },
            ],
        },
    );
    table.push(
        Variant {
            code: Code::Add,
            opcode: 0x7000,
            arguments: [
                ArgumentDefinition { arg_type: ArgumentType::Register, mask: 0xF00 },
                ArgumentDefinition { arg_type: ArgumentType::Byte, mask: 0x0FF },
                ArgumentDefinition { arg_type: ArgumentType::Empty, mask: 0 },
            ],
        },
    );
    table.push(
        Variant {
            code: Code::Load,
            opcode: 0x8000,
            arguments: [
                ArgumentDefinition { arg_type: ArgumentType::Register, mask: 0xF00 },
                ArgumentDefinition { arg_type: ArgumentType::Register, mask: 0x0F0 },
                ArgumentDefinition { arg_type: ArgumentType::Empty, mask: 0 },
            ],
        },
    );
    table.push(
        Variant {
            code: Code::Or,
            opcode: 0x8001,
            arguments: [
                ArgumentDefinition { arg_type: ArgumentType::Register, mask: 0xF00 },
                ArgumentDefinition { arg_type: ArgumentType::Register, mask: 0x0F0 },
                ArgumentDefinition { arg_type: ArgumentType::Empty, mask: 0 },
            ],
        },
    );
    table.push(
        Variant {
            code: Code::And,
            opcode: 0x8002,
            arguments: [
                ArgumentDefinition { arg_type: ArgumentType::Register, mask: 0xF00 },
                ArgumentDefinition { arg_type: ArgumentType::Register, mask: 0x0F0 },
                ArgumentDefinition { arg_type: ArgumentType::Empty, mask: 0 },
            ],
        },
    );
    table.push(
        Variant {
            code: Code::Xor,
            opcode: 0x8003,
            arguments: [
                ArgumentDefinition { arg_type: ArgumentType::Register, mask: 0xF00 },
                ArgumentDefinition { arg_type: ArgumentType::Register, mask: 0x0F0 },
                ArgumentDefinition { arg_type: ArgumentType::Empty, mask: 0 },
            ],
        },
    );
    table.push(
        Variant {
            code: Code::Add,
            opcode: 0x8004,
            arguments: [
                ArgumentDefinition { arg_type: ArgumentType::Register, mask: 0xF00 },
                ArgumentDefinition { arg_type: ArgumentType::Register, mask: 0x0F0 },
                ArgumentDefinition { arg_type: ArgumentType::Empty, mask: 0 },
            ],
        },
    );
    table.push(
        Variant {
            code: Code::Subtract,
            opcode: 0x8005,
            arguments: [
                ArgumentDefinition { arg_type: ArgumentType::Register, mask: 0xF00 },
                ArgumentDefinition { arg_type: ArgumentType::Register, mask: 0x0F0 },
                ArgumentDefinition { arg_type: ArgumentType::Empty, mask: 0 },
            ],
        },
    );
    table.push(
        Variant {
            code: Code::ShiftRight,
            opcode: 0x8006,
            arguments: [
                ArgumentDefinition { arg_type: ArgumentType::Register, mask: 0xF00 },
                ArgumentDefinition { arg_type: ArgumentType::Empty, mask: 0 },
                ArgumentDefinition { arg_type: ArgumentType::Empty, mask: 0 },
            ],
        },
    );
    table.push(
        Variant {
            code: Code::ShiftRight,
            opcode: 0x8006,
            arguments: [
                ArgumentDefinition { arg_type: ArgumentType::Register, mask: 0xF00 },
                ArgumentDefinition { arg_type: ArgumentType::Register, mask: 0x0F0 },
                ArgumentDefinition { arg_type: ArgumentType::Empty, mask: 0 },
            ],
        },
    );
    table.push(
        Variant {
            code: Code::SubtractInverse,
            opcode: 0x8007,
            arguments: [
                ArgumentDefinition { arg_type: ArgumentType::Register, mask: 0xF00 },
                ArgumentDefinition { arg_type: ArgumentType::Register, mask: 0x0F0 },
                ArgumentDefinition { arg_type: ArgumentType::Empty, mask: 0 },
            ],
        },
    );
    table.push(
        Variant {
            code: Code::ShiftLeft,
            opcode: 0x800E,
            arguments: [
                ArgumentDefinition { arg_type: ArgumentType::Register, mask: 0xF00 },
                ArgumentDefinition { arg_type: ArgumentType::Empty, mask: 0 },
                ArgumentDefinition { arg_type: ArgumentType::Empty, mask: 0 },
            ],
        },
    );
    table.push(
        Variant {
            code: Code::ShiftLeft,
            opcode: 0x800E,
            arguments: [
                ArgumentDefinition { arg_type: ArgumentType::Register, mask: 0xF00 },
                ArgumentDefinition { arg_type: ArgumentType::Register, mask: 0x0F0 },
                ArgumentDefinition { arg_type: ArgumentType::Empty, mask: 0 },
            ],
        },
    );
    table.push(
        Variant {
            code: Code::SkipNotEquals,
            opcode: 0x9000,
            arguments: [
                ArgumentDefinition { arg_type: ArgumentType::Register, mask: 0xF00 },
                ArgumentDefinition { arg_type: ArgumentType::Register, mask: 0x0F0 },
                ArgumentDefinition { arg_type: ArgumentType::Empty, mask: 0 },
            ],
        },
    );
    table.push(
        Variant {
            code: Code::Load,
            opcode: 0xA000,
            arguments: [
                ArgumentDefinition { arg_type: ArgumentType::ImagePointer, mask: 0 },
                ArgumentDefinition { arg_type: ArgumentType::Address, mask: 0xFFF },
                ArgumentDefinition { arg_type: ArgumentType::Empty, mask: 0 },
            ],
        },
    );
    table.push(
        Variant {
            code: Code::Jump,
            opcode: 0xB000,
            arguments: [
                ArgumentDefinition { arg_type: ArgumentType::Register, mask: 0 },
                ArgumentDefinition { arg_type: ArgumentType::Address, mask: 0xFFF },
                ArgumentDefinition { arg_type: ArgumentType::Empty, mask: 0 },
            ],
        },
    );
    table.push(
        Variant {
            code: Code::Rand,
            opcode: 0xC000,
            arguments: [
                ArgumentDefinition { arg_type: ArgumentType::Register, mask: 0xF00 },
                ArgumentDefinition { arg_type: ArgumentType::Byte, mask: 0x0FF },
                ArgumentDefinition { arg_type: ArgumentType::Empty, mask: 0 },
            ],
        },
    );
    table.push(
        Variant {
            code: Code::Draw,
            opcode: 0xD000,
            arguments: [
                ArgumentDefinition { arg_type: ArgumentType::Register, mask: 0xF00 },
                ArgumentDefinition { arg_type: ArgumentType::Register, mask: 0x0F0 },
                ArgumentDefinition { arg_type: ArgumentType::Byte, mask: 0x00F },
            ],
        },
    );
    table.push(
        Variant {
            code: Code::SkipKeyPressed,
            opcode: 0xE09E,
            arguments: [
                ArgumentDefinition { arg_type: ArgumentType::Register, mask: 0xF00 },
                ArgumentDefinition { arg_type: ArgumentType::Empty, mask: 0 },
                ArgumentDefinition { arg_type: ArgumentType::Empty, mask: 0 },
            ],
        },
    );
    table.push(
        Variant {
            code: Code::SkipKeyNotPressed,
            opcode: 0xE0A1,
            arguments: [
                ArgumentDefinition { arg_type: ArgumentType::Register, mask: 0xF00 },
                ArgumentDefinition { arg_type: ArgumentType::Empty, mask: 0 },
                ArgumentDefinition { arg_type: ArgumentType::Empty, mask: 0 },
            ],
        },
    );
    table.push(
        Variant {
            code: Code::Load,
            opcode: 0xF007,
            arguments: [
                ArgumentDefinition { arg_type: ArgumentType::Register, mask: 0xF00 },
                ArgumentDefinition { arg_type: ArgumentType::DelayTimer, mask: 0 },
                ArgumentDefinition { arg_type: ArgumentType::Empty, mask: 0 },
            ],
        },
    );
    table.push(
        Variant {
            code: Code::Load,
            opcode: 0xF00A,
            arguments: [
                ArgumentDefinition { arg_type: ArgumentType::Register, mask: 0xF00 },
                ArgumentDefinition { arg_type: ArgumentType::KeyRegister, mask: 0 },
                ArgumentDefinition { arg_type: ArgumentType::Empty, mask: 0 },
            ],
        },
    );
    table.push(
        Variant {
            code: Code::Load,
            opcode: 0xF015,
            arguments: [
                ArgumentDefinition { arg_type: ArgumentType::DelayTimer, mask: 0 },
                ArgumentDefinition { arg_type: ArgumentType::Register, mask: 0xF00 },
                ArgumentDefinition { arg_type: ArgumentType::Empty, mask: 0 },
            ],
        },
    );
    table.push(
        Variant {
            code: Code::Load,
            opcode: 0xF018,
            arguments: [
                ArgumentDefinition { arg_type: ArgumentType::SoundTimer, mask: 0 },
                ArgumentDefinition { arg_type: ArgumentType::Register, mask: 0xF00 },
                ArgumentDefinition { arg_type: ArgumentType::Empty, mask: 0 },
            ],
        },
    );
    table.push(
        Variant {
            code: Code::Add,
            opcode: 0xF01E,
            arguments: [
                ArgumentDefinition { arg_type: ArgumentType::ImagePointer, mask: 0 },
                ArgumentDefinition { arg_type: ArgumentType::Register, mask: 0xF00 },
                ArgumentDefinition { arg_type: ArgumentType::Empty, mask: 0 },
            ],
        },
    );
    table.push(
        Variant {
            code: Code::Load,
            opcode: 0xF029,
            arguments: [
                ArgumentDefinition { arg_type: ArgumentType::FontPointer, mask: 0 },
                ArgumentDefinition { arg_type: ArgumentType::Register, mask: 0xF00 },
                ArgumentDefinition { arg_type: ArgumentType::Empty, mask: 0 },
            ],
        },
    );
    table.push(
        Variant {
            code: Code::Load,
            opcode: 0xF033,
            arguments: [
                ArgumentDefinition { arg_type: ArgumentType::BcdPointer, mask: 0 },
                ArgumentDefinition { arg_type: ArgumentType::Register, mask: 0xF00 },
                ArgumentDefinition { arg_type: ArgumentType::Empty, mask: 0 },
            ],
        },
    );
    table.push(
        Variant {
            code: Code::Load,
            opcode: 0xF055,
            arguments: [
                ArgumentDefinition { arg_type: ArgumentType::ArrayPointer, mask: 0 },
                ArgumentDefinition { arg_type: ArgumentType::Register, mask: 0xF00 },
                ArgumentDefinition { arg_type: ArgumentType::Empty, mask: 0 },
            ],
        },
    );
    table.push(
        Variant {
            code: Code::Load,
            opcode: 0xF065,
            arguments: [
                ArgumentDefinition { arg_type: ArgumentType::Register, mask: 0xF00 },
                ArgumentDefinition { arg_type: ArgumentType::ArrayPointer, mask: 0 },
                ArgumentDefinition { arg_type: ArgumentType::Empty, mask: 0 },
            ],
        },
    );
    assert(table@ =~= spec_variant_table());
    table
}

/// The first table entry from `k` on that the instruction fits.
pub open spec fn spec_first_match(tbl: Seq<Variant>, inst: Instruction, k: int) -> Option<Variant>
    decreases tbl.len() - k,
{
    if k < 0 || k >= tbl.len() {
        Option::None
    } else if spec_matches(tbl[k], inst) {
        Option::Some(tbl[k])
    } else {
        spec_first_match(tbl, inst, k + 1)
    }
}

/// The encoding an instruction gets: the first fitting entry of the
/// canonical table, or nothing when no entry fits.
pub open spec fn spec_get_variant(inst: Instruction) -> Option<Variant> {
    spec_first_match(spec_variant_table(), inst, 0)
}

/// Finds the first encoding of the canonical table that `inst` fits.
pub fn get_variant(inst: &Instruction) -> (r: Option<Variant>)
    ensures
        r == spec_get_variant(*inst),
{
    let table = instruction_variants();
    let mut k: usize = 0;
    while k < table.len()
        invariant
            k <= table@.len(),
            table@ == spec_variant_table(),
            spec_get_variant(*inst) == spec_first_match(table@, *inst, k as int),
        decreases table@.len() - k,
    {
        if table[k].matches(inst) {
            return Some(table[k]);
        }
        k = k + 1;
    }
    None
}

} // verus!
