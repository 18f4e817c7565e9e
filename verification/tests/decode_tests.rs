use tw_chip8::cpu::CPUError;
use tw_chip8::inst::{Instruction, Value};
use tw_chip8::parser::{parse_binary, ParserError};

#[test]
fn decode_full_word_patterns() {
    assert_eq!(Instruction::from_binary(0x00EE), Ok(Instruction::RET));
    assert_eq!(Instruction::from_binary(0x00E0), Ok(Instruction::CLS));
}

#[test]
fn decode_address_patterns() {
    assert_eq!(Instruction::from_binary(0x0123), Ok(Instruction::SYS(0x123)));
    assert_eq!(Instruction::from_binary(0x0100), Ok(Instruction::SYS(0x100)));
    assert_eq!(Instruction::from_binary(0x1234), Ok(Instruction::JP(0x234)));
    assert_eq!(Instruction::from_binary(0x2345), Ok(Instruction::CALL(0x345)));
    assert_eq!(Instruction::from_binary(0xA678), Ok(Instruction::LDI(0x678)));
    assert_eq!(Instruction::from_binary(0xB789), Ok(Instruction::JPO(0x789)));
}

#[test]
fn decode_immediate_patterns() {
    assert_eq!(Instruction::from_binary(0x3A42), Ok(Instruction::SE(0xA, Value::Byte(0x42))));
    assert_eq!(Instruction::from_binary(0x4B17), Ok(Instruction::SNE(0xB, Value::Byte(0x17))));
    assert_eq!(Instruction::from_binary(0x6C99), Ok(Instruction::LD(0xC, Value::Byte(0x99))));
    assert_eq!(Instruction::from_binary(0x7D01), Ok(Instruction::ADD(0xD, Value::Byte(0x01))));
    assert_eq!(Instruction::from_binary(0xC3F0), Ok(Instruction::RND(0x3, 0xF0)));
}

#[test]
fn decode_register_patterns() {
    assert_eq!(Instruction::from_binary(0x5AB0), Ok(Instruction::SE(0xA, Value::Register(0xB))));
    assert_eq!(Instruction::from_binary(0x8AB0), Ok(Instruction::LD(0xA, Value::Register(0xB))));
    assert_eq!(Instruction::from_binary(0x8AB1), Ok(Instruction::OR(0xA, 0xB)));
    assert_eq!(Instruction::from_binary(0x8AB2), Ok(Instruction::AND(0xA, 0xB)));
    assert_eq!(Instruction::from_binary(0x8AB3), Ok(Instruction::XOR(0xA, 0xB)));
    assert_eq!(Instruction::from_binary(0x8AB4), Ok(Instruction::ADD(0xA, Value::Register(0xB))));
    assert_eq!(Instruction::from_binary(0x8AB5), Ok(Instruction::SUB(0xA, 0xB)));
    assert_eq!(Instruction::from_binary(0x8AB6), Ok(Instruction::SHR(0xA, 0xB)));
    assert_eq!(Instruction::from_binary(0x8AB7), Ok(Instruction::SUBN(0xA, 0xB)));
    assert_eq!(Instruction::from_binary(0x8ABE), Ok(Instruction::SHL(0xA, 0xB)));
    assert_eq!(Instruction::from_binary(0x9AB0), Ok(Instruction::SNE(0xA, Value::Register(0xB))));
    assert_eq!(Instruction::from_binary(0xD125), Ok(Instruction::DRW(0x1, 0x2, 0x5)));
}

#[test]
fn decode_low_byte_patterns() {
    assert_eq!(Instruction::from_binary(0xEA9E), Ok(Instruction::SKP(0xA)));
    assert_eq!(Instruction::from_binary(0xEBA1), Ok(Instruction::SKNP(0xB)));
    assert_eq!(Instruction::from_binary(0xF107), Ok(Instruction::LDDT(0x1)));
    assert_eq!(Instruction::from_binary(0xF20A), Ok(Instruction::LDK(0x2)));
    assert_eq!(Instruction::from_binary(0xF315), Ok(Instruction::LDSDT(0x3)));
    assert_eq!(Instruction::from_binary(0xF418), Ok(Instruction::LDSST(0x4)));
    assert_eq!(Instruction::from_binary(0xF51E), Ok(Instruction::ADDI(0x5)));
    assert_eq!(Instruction::from_binary(0xF629), Ok(Instruction::LDF(0x6)));
    assert_eq!(Instruction::from_binary(0xF733), Ok(Instruction::LDB(0x7)));
    assert_eq!(Instruction::from_binary(0xF855), Ok(Instruction::LDSBLK(0x8)));
    assert_eq!(Instruction::from_binary(0xF965), Ok(Instruction::LDBLK(0x9)));
}

#[test]
fn decode_rejects_undefined_words() {
    for word in [0x5AB1u16, 0x5ABF, 0x8AB8, 0x8ABF, 0xE000, 0xEA9F, 0xF000, 0xF0FF, 0xFFFF] {
        assert_eq!(Instruction::from_binary(word), Err(CPUError::DecodeError(word)));
    }
}

#[test]
fn parse_binary_test() {
    assert_eq!(parse_binary(0x00E0), Ok(Instruction::CLS));
    assert_eq!(parse_binary(0x1234), Ok(Instruction::JP(0x234)));
    assert_eq!(parse_binary(0xFFFF), Err(ParserError::UnknownInstruction));
    assert_eq!(parse_binary(0x8AB9), Err(ParserError::UnknownInstruction));
}

#[test]
fn parse_rom_test() {
    let rom = vec![0x6A, 0x05, 0x00, 0xE0, 0xFF, 0xFF, 0x12];
    let listing = tw_chip8::parser::parse_rom(&rom);
    assert_eq!(listing.len(), 4);
    assert_eq!(listing[0], Ok(Instruction::LD(0xA, Value::Byte(5))));
    assert_eq!(listing[1], Ok(Instruction::CLS));
    assert_eq!(listing[2], Err(ParserError::UnknownInstruction));
    // a trailing odd byte decodes with a zero low byte
    assert_eq!(listing[3], Ok(Instruction::JP(0x200)));
}
