//! The instruction decoder: a pure, total map from a 16-bit instruction
//! word to a typed `Instruction`, or a decode error for the words that
//! match none of the defined bit patterns. The two full-word patterns are
//! matched first, then the masked families in a fixed order, so no word is
//! claimed twice.

use vstd::prelude::*;
use crate::cpu::CPUError;

verus! {

/// A 12-bit address operand, carried in a 16-bit value.
pub type DWord = u16;

/// An 8-bit immediate operand.
pub type Word = u8;

/// A 4-bit operand (a register index or a sprite height), carried in a byte.
pub type Nibble = u8;

/// The right-hand operand of the compare/load/add families: either another
/// register or an immediate byte.
#[derive(Clone, Copy, Debug, PartialEq, Eq, Structural)]
pub enum Value {
    Register(Nibble),
    Byte(Word),
}

/// A decoded instruction: one variant per operation, carrying its operands.
#[allow(non_camel_case_types)]
#[derive(Clone, Copy, Debug, PartialEq, Eq, Structural)]
pub enum Instruction {
    SYS(DWord),
    CLS,
    RET,
    JP(DWord),
    CALL(DWord),
    SE(Nibble, Value),
    SNE(Nibble, Value),
    LD(Nibble, Value),
    ADD(Nibble, Value),
    OR(Nibble, Nibble),
    AND(Nibble, Nibble),
    XOR(Nibble, Nibble),
    SUB(Nibble, Nibble),
    SHR(Nibble, Nibble),
    SUBN(Nibble, Nibble),
    SHL(Nibble, Nibble),
    LDI(DWord),
    JPO(DWord),
    RND(Nibble, Word),
    DRW(Nibble, Nibble, Nibble),
    SKP(Nibble),
    SKNP(Nibble),
    LDDT(Nibble),
    LDK(Nibble),
    LDSDT(Nibble),
    LDSST(Nibble),
    ADDI(Nibble),
    LDF(Nibble),
    LDB(Nibble),
    LDSBLK(Nibble),
    LDBLK(Nibble),
}

/// The 4-bit field of `i` that starts `offset` bits from the top.
pub open spec fn nibble_of(i: u16, offset: u16) -> u16 {
    if offset == 4 {
        (i >> 8) & 0xF
    } else if offset == 8 {
        (i >> 4) & 0xF
    } else {
        i & 0xF
    }
}

/// The low byte of `i`.
pub open spec fn word_of(i: u16) -> u16 {
    i & 0xFF
}

/// Extracts a 4-bit operand field.
fn get_nibble(i: u16, offset: u16) -> (r: u8)
    requires
        offset == 4 || offset == 8 || offset == 12,
    ensures
        r == nibble_of(i, offset),
        r < 16,
{
    proof {
        assert((i >> 8) & 0xF < 16 && (i >> 4) & 0xF < 16 && i & 0xF < 16) by (bit_vector);
    }
    if offset == 4 {
        ((i >> 8) & 0xF) as u8
    } else if offset == 8 {
        ((i >> 4) & 0xF) as u8
    } else {
        (i & 0xF) as u8
    }
}

/// Extracts the 8-bit immediate field.
fn get_word(i: u16) -> (r: u8)
    ensures
        r == word_of(i),
{
    proof {
        assert(i & 0xFF < 256) by (bit_vector);
    }
    (i & 0xFF) as u8
}

/// What `Instruction::from_binary` decodes each word to: the two full-word
/// patterns first, then the masked families in a fixed order.
pub open spec fn spec_decode(i: u16) -> Result<Instruction, CPUError> {
    if i == 0x00EE {
        Ok(Instruction::RET)
    } else if i == 0x00E0 {
        Ok(Instruction::CLS)
    } else if i & 0xF000 == 0x0000 {
        Ok(Instruction::SYS(i & 0xFFF))
    } else if i & 0xF000 == 0x1000 {
        Ok(Instruction::JP(i & 0xFFF))
    } else if i & 0xF000 == 0x2000 {
        Ok(Instruction::CALL(i & 0xFFF))
    } else if i & 0xF000 == 0x3000 {
        Ok(Instruction::SE(nibble_of(i, 4) as u8, Value::Byte(word_of(i) as u8)))
    } else if i & 0xF000 == 0x4000 {
        Ok(Instruction::SNE(nibble_of(i, 4) as u8, Value::Byte(word_of(i) as u8)))
    } else if i & 0xF00F == 0x5000 {
        Ok(Instruction::SE(nibble_of(i, 4) as u8, Value::Register(nibble_of(i, 8) as u8)))
    } else if i & 0xF000 == 0x6000 {
        Ok(Instruction::LD(nibble_of(i, 4) as u8, Value::Byte(word_of(i) as u8)))
    } else if i & 0xF000 == 0x7000 {
        Ok(Instruction::ADD(nibble_of(i, 4) as u8, Value::Byte(word_of(i) as u8)))
    } else if i & 0xF00F == 0x8000 {
        Ok(Instruction::LD(nibble_of(i, 4) as u8, Value::Register(nibble_of(i, 8) as u8)))
    } else if i & 0xF00F == 0x8001 {
        Ok(Instruction::OR(nibble_of(i, 4) as u8, nibble_of(i, 8) as u8))
    } else if i & 0xF00F == 0x8002 {
        Ok(Instruction::AND(nibble_of(i, 4) as u8, nibble_of(i, 8) as u8))
    } else if i & 0xF00F == 0x8003 {
        Ok(Instruction::XOR(nibble_of(i, 4) as u8, nibble_of(i, 8) as u8))
    } else if i & 0xF00F == 0x8004 {
        Ok(Instruction::ADD(nibble_of(i, 4) as u8, Value::Register(nibble_of(i, 8) as u8)))
    } else if i & 0xF00F == 0x8005 {
        Ok(Instruction::SUB(nibble_of(i, 4) as u8, nibble_of(i, 8) as u8))
    } else if i & 0xF00F == 0x8006 {
        Ok(Instruction::SHR(nibble_of(i, 4) as u8, nibble_of(i, 8) as u8))
    } else if i & 0xF00F == 0x8007 {
        Ok(Instruction::SUBN(nibble_of(i, 4) as u8, nibble_of(i, 8) as u8))
    } else if i & 0xF00F == 0x800E {
        Ok(Instruction::SHL(nibble_of(i, 4) as u8, nibble_of(i, 8) as u8))
    } else if i & 0xF00F == 0x9000 {
        Ok(Instruction::SNE(nibble_of(i, 4) as u8, Value::Register(nibble_of(i, 8) as u8)))
    } else if i & 0xF000 == 0xA000 {
        Ok(Instruction::LDI(i & 0xFFF))
    } else if i & 0xF000 == 0xB000 {
        Ok(Instruction::JPO(i & 0xFFF))
    } else if i & 0xF000 == 0xC000 {
        Ok(Instruction::RND(nibble_of(i, 4) as u8, word_of(i) as u8))
    } else if i & 0xF000 == 0xD000 {
        Ok(Instruction::DRW(nibble_of(i, 4) as u8, nibble_of(i, 8) as u8, nibble_of(i, 12) as u8))
    } else if i & 0xF0FF == 0xE09E {
        Ok(Instruction::SKP(nibble_of(i, 4) as u8))
    } else if i & 0xF0FF == 0xE0A1 {
        Ok(Instruction::SKNP(nibble_of(i, 4) as u8))
    } else if i & 0xF0FF == 0xF007 {
        Ok(Instruction::LDDT(nibble_of(i, 4) as u8))
    } else if i & 0xF0FF == 0xF00A {
        Ok(Instruction::LDK(nibble_of(i, 4) as u8))
    } else if i & 0xF0FF == 0xF015 {
        Ok(Instruction::LDSDT(nibble_of(i, 4) as u8))
    } else if i & 0xF0FF == 0xF018 {
        Ok(Instruction::LDSST(nibble_of(i, 4) as u8))
    } else if i & 0xF0FF == 0xF01E {
        Ok(Instruction::ADDI(nibble_of(i, 4) as u8))
    } else if i & 0xF0FF == 0xF029 {
        Ok(Instruction::LDF(nibble_of(i, 4) as u8))
    } else if i & 0xF0FF == 0xF033 {
        Ok(Instruction::LDB(nibble_of(i, 4) as u8))
    } else if i & 0xF0FF == 0xF055 {
        Ok(Instruction::LDSBLK(nibble_of(i, 4) as u8))
    } else if i & 0xF0FF == 0xF065 {
        Ok(Instruction::LDBLK(nibble_of(i, 4) as u8))
    } else {
        Err(CPUError::DecodeError(i))
    }
}

impl Instruction {
    /// Every operand is within its field's range: addresses are 12-bit,
    /// register indices and nibbles 4-bit.
    pub open spec fn wf(self) -> bool {
        match self {
            Instruction::SYS(a) => a <= 0xFFF,
            Instruction::CLS => true,
            Instruction::RET => true,
            Instruction::JP(a) => a <= 0xFFF,
            Instruction::CALL(a) => a <= 0xFFF,
            Instruction::SE(r, v) => r < 16 && v.wf(),
            Instruction::SNE(r, v) => r < 16 && v.wf(),
            Instruction::LD(r, v) => r < 16 && v.wf(),
            Instruction::ADD(r, v) => r < 16 && v.wf(),
            Instruction::OR(l, r) => l < 16 && r < 16,
            Instruction::AND(l, r) => l < 16 && r < 16,
            Instruction::XOR(l, r) => l < 16 && r < 16,
            Instruction::SUB(l, r) => l < 16 && r < 16,
            Instruction::SHR(l, r) => l < 16 && r < 16,
            Instruction::SUBN(l, r) => l < 16 && r < 16,
            Instruction::SHL(l, r) => l < 16 && r < 16,
            Instruction::LDI(a) => a <= 0xFFF,
            Instruction::JPO(a) => a <= 0xFFF,
            Instruction::RND(r, _) => r < 16,
            Instruction::DRW(x, y, n) => x < 16 && y < 16 && n < 16,
            Instruction::SKP(r) => r < 16,
            Instruction::SKNP(r) => r < 16,
            Instruction::LDDT(r) => r < 16,
            Instruction::LDK(r) => r < 16,
            Instruction::LDSDT(r) => r < 16,
            Instruction::LDSST(r) => r < 16,
            Instruction::ADDI(r) => r < 16,
            Instruction::LDF(r) => r < 16,
            Instruction::LDB(r) => r < 16,
            Instruction::LDSBLK(r) => r < 16,
            Instruction::LDBLK(r) => r < 16,
        }
    }

    /// Whether this machine's executor implements the instruction. The
    /// keyboard, timer and font-pointer instructions decode but have no
    /// execution semantics here: their collaborators are out of scope.
    pub open spec fn supported(self) -> bool {
        match self {
            Instruction::SKP(_) => false,
            Instruction::SKNP(_) => false,
            Instruction::LDDT(_) => false,
            Instruction::LDK(_) => false,
            Instruction::LDSDT(_) => false,
            Instruction::LDSST(_) => false,
            Instruction::LDF(_) => false,
            _ => true,
        }
    }

    /// Executable test for `supported`.
    pub fn is_supported(&self) -> (b: bool)
        ensures
            b == self.supported(),
    {
        match self {
            Instruction::SKP(_) => false,
            Instruction::SKNP(_) => false,
            Instruction::LDDT(_) => false,
            Instruction::LDK(_) => false,
            Instruction::LDSDT(_) => false,
            Instruction::LDSST(_) => false,
            Instruction::LDF(_) => false,
            _ => true,
        }
    }

    /// Decodes a 16-bit instruction word; a word that matches none of the
    /// defined patterns yields `CPUError::DecodeError` carrying the word.
    pub fn from_binary(i: u16) -> (r: Result<Instruction, CPUError>)
        ensures
            r == spec_decode(i),
            r matches Ok(inst) ==> inst.wf(),
    {
        proof {
            lemma_decode_wf(i);
        }
        if i == 0x00EE {
            Ok(Instruction::RET)
        } else if i == 0x00E0 {
            Ok(Instruction::CLS)
        } else if i & 0xF000 == 0x0000 {
            Ok(Instruction::SYS(i & 0xFFF))
        } else if i & 0xF000 == 0x1000 {
            Ok(Instruction::JP(i & 0xFFF))
        } else if i & 0xF000 == 0x2000 {
            Ok(Instruction::CALL(i & 0xFFF))
        } else if i & 0xF000 == 0x3000 {
            Ok(Instruction::SE(get_nibble(i, 4), Value::Byte(get_word(i))))
        } else if i & 0xF000 == 0x4000 {
            Ok(Instruction::SNE(get_nibble(i, 4), Value::Byte(get_word(i))))
        } else if i & 0xF00F == 0x5000 {
            Ok(Instruction::SE(get_nibble(i, 4), Value::Register(get_nibble(i, 8))))
        } else if i & 0xF000 == 0x6000 {
            Ok(Instruction::LD(get_nibble(i, 4), Value::Byte(get_word(i))))
        } else if i & 0xF000 == 0x7000 {
            Ok(Instruction::ADD(get_nibble(i, 4), Value::Byte(get_word(i))))
        } else if i & 0xF00F == 0x8000 {
            Ok(Instruction::LD(get_nibble(i, 4), Value::Register(get_nibble(i, 8))))
        } else if i & 0xF00F == 0x8001 {
            Ok(Instruction::OR(get_nibble(i, 4), get_nibble(i, 8)))
        } else if i & 0xF00F == 0x8002 {
            Ok(Instruction::AND(get_nibble(i, 4), get_nibble(i, 8)))
        } else if i & 0xF00F == 0x8003 {
            Ok(Instruction::XOR(get_nibble(i, 4), get_nibble(i, 8)))
        } else if i & 0xF00F == 0x8004 {
            Ok(Instruction::ADD(get_nibble(i, 4), Value::Register(get_nibble(i, 8))))
        } else if i & 0xF00F == 0x8005 {
            Ok(Instruction::SUB(get_nibble(i, 4), get_nibble(i, 8)))
        } else if i & 0xF00F == 0x8006 {
            Ok(Instruction::SHR(get_nibble(i, 4), get_nibble(i, 8)))
        } else if i & 0xF00F == 0x8007 {
            Ok(Instruction::SUBN(get_nibble(i, 4), get_nibble(i, 8)))
        } else if i & 0xF00F == 0x800E {
            Ok(Instruction::SHL(get_nibble(i, 4), get_nibble(i, 8)))
        } else if i & 0xF00F == 0x9000 {
            Ok(Instruction::SNE(get_nibble(i, 4), Value::Register(get_nibble(i, 8))))
        } else if i & 0xF000 == 0xA000 {
            Ok(Instruction::LDI(i & 0xFFF))
        } else if i & 0xF000 == 0xB000 {
            Ok(Instruction::JPO(i & 0xFFF))
        } else if i & 0xF000 == 0xC000 {
            Ok(Instruction::RND(get_nibble(i, 4), get_word(i)))
        } else if i & 0xF000 == 0xD000 {
            Ok(Instruction::DRW(get_nibble(i, 4), get_nibble(i, 8), get_nibble(i, 12)))
        } else if i & 0xF0FF == 0xE09E {
            Ok(Instruction::SKP(get_nibble(i, 4)))
        } else if i & 0xF0FF == 0xE0A1 {
            Ok(Instruction::SKNP(get_nibble(i, 4)))
        } else if i & 0xF0FF == 0xF007 {
            Ok(Instruction::LDDT(get_nibble(i, 4)))
        } else if i & 0xF0FF == 0xF00A {
            Ok(Instruction::LDK(get_nibble(i, 4)))
        } else if i & 0xF0FF == 0xF015 {
            Ok(Instruction::LDSDT(get_nibble(i, 4)))
        } else if i & 0xF0FF == 0xF018 {
            Ok(Instruction::LDSST(get_nibble(i, 4)))
        } else if i & 0xF0FF == 0xF01E {
            Ok(Instruction::ADDI(get_nibble(i, 4)))
        } else if i & 0xF0FF == 0xF029 {
            Ok(Instruction::LDF(get_nibble(i, 4)))
        } else if i & 0xF0FF == 0xF033 {
            Ok(Instruction::LDB(get_nibble(i, 4)))
        } else if i & 0xF0FF == 0xF055 {
            Ok(Instruction::LDSBLK(get_nibble(i, 4)))
        } else if i & 0xF0FF == 0xF065 {
            Ok(Instruction::LDBLK(get_nibble(i, 4)))
        } else {
            Err(CPUError::DecodeError(i))
        }
    }
}

impl Value {
    /// A register operand names one of the sixteen registers.
    pub open spec fn wf(self) -> bool {
        match self {
            Value::Register(r) => r < 16,
            Value::Byte(_) => true,
        }
    }
}

/// Whatever a word decodes to has all operand fields in range.
pub proof fn lemma_decode_wf(i: u16)
    ensures
        spec_decode(i) matches Ok(inst) ==> inst.wf(),
{
    assert((i >> 8) & 0xF < 16 && (i >> 4) & 0xF < 16 && i & 0xF < 16 && i & 0xFFF <= 0xFFF)
        by (bit_vector);
}

} // verus!
