use tw_chip8::instruction::{Argument, Code, Instruction, InstructionError};
use tw_chip8::variant::{get_variant, ArgumentDefinition, ArgumentType, Variant};

fn arg(arg_type: ArgumentType, mask: u16) -> ArgumentDefinition {
    ArgumentDefinition { arg_type, mask }
}

#[test]
fn arg_value_test() {
    let static_arg = Argument::ImagePointer;
    assert_eq!(static_arg.get_value().unwrap(), 0u16);

    let address_arg = Argument::Address(0xDED);
    assert_eq!(address_arg.get_value().unwrap(), 0xDEDu16);

    let register_arg = Argument::Register(10);
    assert_eq!(register_arg.get_value().unwrap(), 10u16);

    let byte_arg = Argument::Byte(142);
    assert_eq!(byte_arg.get_value().unwrap(), 142u16);

    let label_arg = Argument::Label(String::from("hello"));
    assert_eq!(label_arg.get_value().unwrap_err(), InstructionError::UnresolvedLabel);
}

#[test]
fn matches_test() {
    // "LD I, 0xnnn" instruction
    let variant = Variant {
        code: Code::Load,
        opcode: 0xA000,
        arguments: [
            arg(ArgumentType::ImagePointer, 0),
            arg(ArgumentType::Address, 0xFFF),
            arg(ArgumentType::Empty, 0),
        ],
    };

    // Test good instruction
    let good = Instruction {
        code: Code::Load,
        arguments: [Argument::ImagePointer, Argument::Address(0x123), Argument::Empty],
    };
    assert_eq!(variant.matches(&good), true);

    // Test bad code instruction
    let bad_code = Instruction {
        code: Code::Add,
        arguments: [Argument::ImagePointer, Argument::Address(0x123), Argument::Empty],
    };
    assert_eq!(variant.matches(&bad_code), false);

    // Test bad argument instruction
    let bad_arg = Instruction {
        code: Code::Load,
        arguments: [Argument::ImagePointer, Argument::Address(0x123), Argument::Byte(42)],
    };
    assert_eq!(variant.matches(&bad_arg), false);

    // Test good instruction (with label)
    let good_label = Instruction {
        code: Code::Load,
        arguments: [
            Argument::ImagePointer,
            Argument::Label(String::from("tuturu")),
            Argument::Empty,
        ],
    };
    assert_eq!(variant.matches(&good_label), true);
}

#[test]
fn binary_test() {
    // "DRW vx, vy, n" instruction
    let drw_variant = Variant {
        code: Code::Draw,
        opcode: 0xD000,
        arguments: [
            arg(ArgumentType::Register, 0xF00),
            arg(ArgumentType::Register, 0x0F0),
            arg(ArgumentType::Byte, 0x00F),
        ],
    };

    // "LD I, nnn" instruction
    let ld_variant = Variant {
        code: Code::Load,
        opcode: 0xA000,
        arguments: [
            arg(ArgumentType::ImagePointer, 0),
            arg(ArgumentType::Address, 0xFFF),
            arg(ArgumentType::Empty, 0),
        ],
    };

    // Test good DRW instruction
    let good_drw_inst = Instruction {
        code: Code::Draw,
        arguments: [Argument::Register(4), Argument::Register(2), Argument::Byte(12)],
    };
    assert_eq!(drw_variant.as_binary(&good_drw_inst).unwrap(), 0xD42Cu16);

    // Test good LD instruction
    let good_ld_inst = Instruction {
        code: Code::Load,
        arguments: [Argument::ImagePointer, Argument::Address(0xDED), Argument::Empty],
    };
    assert_eq!(ld_variant.as_binary(&good_ld_inst).unwrap(), 0xADEDu16);
}

#[test]
fn binary_label_test() {
    let ld_variant = Variant {
        code: Code::Load,
        opcode: 0xA000,
        arguments: [
            arg(ArgumentType::ImagePointer, 0),
            arg(ArgumentType::Address, 0xFFF),
            arg(ArgumentType::Empty, 0),
        ],
    };
    let labelled = Instruction {
        code: Code::Load,
        arguments: [
            Argument::ImagePointer,
            Argument::Label(String::from("loop")),
            Argument::Empty,
        ],
    };
    assert_eq!(ld_variant.as_binary(&labelled).unwrap_err(), InstructionError::UnresolvedLabel);
}

#[test]
fn get_variant_test() {
    // Test instruction with one variant, without argument
    let cls_inst = Instruction {
        code: Code::ClearScreen,
        arguments: [Argument::Empty, Argument::Empty, Argument::Empty],
    };
    assert_eq!(get_variant(&cls_inst).unwrap().opcode, 0x00E0);

    // Test instruction with one variant, with good arguments
    let good_drw_inst = Instruction {
        code: Code::Draw,
        arguments: [Argument::Register(4), Argument::Register(2), Argument::Byte(10)],
    };
    assert_eq!(get_variant(&good_drw_inst).unwrap().opcode, 0xD000);

    // Test instruction with one variant, but bad arguments
    let bad_drw_inst = Instruction {
        code: Code::Draw,
        arguments: [Argument::Register(4), Argument::Register(2), Argument::ImagePointer],
    };
    assert!(get_variant(&bad_drw_inst).is_none());

    // Test instruction with multiple variants
    let ldi_inst = Instruction {
        code: Code::Load,
        arguments: [Argument::ImagePointer, Argument::Address(0xDED), Argument::Empty],
    };
    assert_eq!(get_variant(&ldi_inst).unwrap().opcode, 0xA000);
}
