use tw_chip8::com::Communicator;
use tw_chip8::cpu::{CPUError, CPU};
use tw_chip8::memory::MemoryError;

fn machine(rom: Vec<u8>) -> (CPU, Communicator) {
    let mut cpu = CPU::new();
    cpu.load_rom(rom);
    (cpu, Communicator::new())
}

#[test]
fn stack_discipline_test() {
    let mut cpu = CPU::new();
    for k in 0..16u16 {
        assert!(cpu.push(0x200 + k).is_ok());
    }
    assert_eq!(cpu.push(0x999), Err(CPUError::StackOverflow));
    for k in (0..16u16).rev() {
        assert_eq!(cpu.pop(), Ok(0x200 + k));
    }
    assert_eq!(cpu.pop(), Err(CPUError::StackUnderflow));
}

#[test]
fn push_pop_restores_test() {
    let mut cpu = CPU::new();
    let sp_before = cpu.sp;
    assert!(cpu.push(0xABC).is_ok());
    assert_eq!(cpu.pop(), Ok(0xABC));
    assert_eq!(cpu.sp, sp_before);
}

#[test]
fn add_register_carry_test() {
    // ADD V0, V1 with V0=250, V1=10: 260 mod 256 = 4, carry set
    let (mut cpu, mut com) = machine(vec![0x80, 0x14]);
    cpu.v_registers[0] = 250;
    cpu.v_registers[1] = 10;
    assert!(cpu.step(&mut com).is_ok());
    assert_eq!(cpu.v_registers[0], 4);
    assert_eq!(cpu.v_registers[15], 1);
    assert_eq!(cpu.pc, 0x202);
}

#[test]
fn add_register_no_carry_test() {
    // ADD V0, V1 with V0=1, V1=1
    let (mut cpu, mut com) = machine(vec![0x80, 0x14]);
    cpu.v_registers[0] = 1;
    cpu.v_registers[1] = 1;
    cpu.v_registers[15] = 9;
    assert!(cpu.step(&mut com).is_ok());
    assert_eq!(cpu.v_registers[0], 2);
    assert_eq!(cpu.v_registers[15], 0);
}

#[test]
fn add_immediate_no_flag_test() {
    // ADD V0, 10 with V0=250: truncates, but the immediate form leaves VF alone
    let (mut cpu, mut com) = machine(vec![0x70, 0x0A]);
    cpu.v_registers[0] = 250;
    cpu.v_registers[15] = 9;
    assert!(cpu.step(&mut com).is_ok());
    assert_eq!(cpu.v_registers[0], 4);
    assert_eq!(cpu.v_registers[15], 9);
}

#[test]
fn sub_flag_test() {
    // SUB V0, V1 with V0=5, V1=3
    let (mut cpu, mut com) = machine(vec![0x80, 0x15]);
    cpu.v_registers[0] = 5;
    cpu.v_registers[1] = 3;
    assert!(cpu.step(&mut com).is_ok());
    assert_eq!(cpu.v_registers[0], 2);
    assert_eq!(cpu.v_registers[15], 1);
}

#[test]
fn sub_borrow_test() {
    // SUB V0, V1 with V0=3, V1=5: wraps
    let (mut cpu, mut com) = machine(vec![0x80, 0x15]);
    cpu.v_registers[0] = 3;
    cpu.v_registers[1] = 5;
    assert!(cpu.step(&mut com).is_ok());
    assert_eq!(cpu.v_registers[0], 254);
    assert_eq!(cpu.v_registers[15], 0);
}

#[test]
fn subn_test() {
    // SUBN V0, V1 with V0=3, V1=5: V0 = V1 - V0
    let (mut cpu, mut com) = machine(vec![0x80, 0x17]);
    cpu.v_registers[0] = 3;
    cpu.v_registers[1] = 5;
    assert!(cpu.step(&mut com).is_ok());
    assert_eq!(cpu.v_registers[0], 2);
    assert_eq!(cpu.v_registers[15], 1);
}

#[test]
fn shr_test() {
    // SHR V0 with V0=0b00000011
    let (mut cpu, mut com) = machine(vec![0x80, 0x16]);
    cpu.v_registers[0] = 0b0000_0011;
    assert!(cpu.step(&mut com).is_ok());
    assert_eq!(cpu.v_registers[0], 0b0000_0001);
    assert_eq!(cpu.v_registers[15], 1);
}

#[test]
fn shl_test() {
    // SHL V0 with V0=0b10000001
    let (mut cpu, mut com) = machine(vec![0x80, 0x1E]);
    cpu.v_registers[0] = 0b1000_0001;
    assert!(cpu.step(&mut com).is_ok());
    assert_eq!(cpu.v_registers[0], 0b0000_0010);
    assert_eq!(cpu.v_registers[15], 1);
}

#[test]
fn or_and_xor_test() {
    let (mut cpu, mut com) = machine(vec![0x80, 0x11, 0x80, 0x12, 0x80, 0x13]);
    cpu.v_registers[0] = 0b1010;
    cpu.v_registers[1] = 0b0110;
    assert!(cpu.step(&mut com).is_ok());
    assert_eq!(cpu.v_registers[0], 0b1110);
    assert!(cpu.step(&mut com).is_ok());
    assert_eq!(cpu.v_registers[0], 0b0110);
    assert!(cpu.step(&mut com).is_ok());
    assert_eq!(cpu.v_registers[0], 0b0000);
}

#[test]
fn call_ret_symmetry_test() {
    // CALL 0x300 at 0x200; RET at 0x300
    let mut rom = vec![0x23, 0x00];
    while rom.len() < 0x100 {
        rom.push(0);
    }
    rom.push(0x00);
    rom.push(0xEE);
    let (mut cpu, mut com) = machine(rom);
    assert_eq!(cpu.pc, 0x200);
    assert!(cpu.step(&mut com).is_ok());
    assert_eq!(cpu.pc, 0x300);
    assert_eq!(cpu.sp, 1);
    assert!(cpu.step(&mut com).is_ok());
    assert_eq!(cpu.pc, 0x202);
    assert_eq!(cpu.sp, 0);
}

#[test]
fn ret_underflow_test() {
    let (mut cpu, mut com) = machine(vec![0x00, 0xEE]);
    assert_eq!(cpu.step(&mut com), Err(CPUError::StackUnderflow));
}

#[test]
fn call_overflow_test() {
    // CALL 0x200: calls itself until the stack is full
    let (mut cpu, mut com) = machine(vec![0x22, 0x00]);
    for _ in 0..16 {
        assert!(cpu.step(&mut com).is_ok());
    }
    assert_eq!(cpu.step(&mut com), Err(CPUError::StackOverflow));
}

#[test]
fn skip_equal_test() {
    // SE V0, 0x0A with V0=10: skip
    let (mut cpu, mut com) = machine(vec![0x30, 0x0A]);
    cpu.v_registers[0] = 10;
    assert!(cpu.step(&mut com).is_ok());
    assert_eq!(cpu.pc, 0x204);
    // SNE V0, 0x0A with V0=10: no skip
    let (mut cpu2, mut com2) = machine(vec![0x40, 0x0A]);
    cpu2.v_registers[0] = 10;
    assert!(cpu2.step(&mut com2).is_ok());
    assert_eq!(cpu2.pc, 0x202);
}

#[test]
fn jump_test() {
    let (mut cpu, mut com) = machine(vec![0x14, 0x56]);
    assert!(cpu.step(&mut com).is_ok());
    assert_eq!(cpu.pc, 0x456);
}

#[test]
fn jump_offset_test() {
    // JP V0, 0x300 with V0=0x10
    let (mut cpu, mut com) = machine(vec![0xB3, 0x00]);
    cpu.v_registers[0] = 0x10;
    assert!(cpu.step(&mut com).is_ok());
    assert_eq!(cpu.pc, 0x310);
}

#[test]
fn load_and_index_test() {
    // LD V3, 0x42 then LD I, 0x5AB then ADD I, V3
    let (mut cpu, mut com) = machine(vec![0x63, 0x42, 0xA5, 0xAB, 0xF3, 0x1E]);
    assert!(cpu.step(&mut com).is_ok());
    assert_eq!(cpu.v_registers[3], 0x42);
    assert!(cpu.step(&mut com).is_ok());
    assert_eq!(cpu.i_register, 0x5AB);
    assert!(cpu.step(&mut com).is_ok());
    assert_eq!(cpu.i_register, 0x5AB + 0x42);
    assert_eq!(cpu.pc, 0x206);
}

#[test]
fn bcd_test() {
    // LD I, 0x300 then LD B, V0 with V0=234
    let (mut cpu, mut com) = machine(vec![0xA3, 0x00, 0xF0, 0x33]);
    cpu.v_registers[0] = 234;
    assert!(cpu.step(&mut com).is_ok());
    assert!(cpu.step(&mut com).is_ok());
    let ram = cpu.dump_memory();
    assert_eq!(ram[0x300], 2);
    assert_eq!(ram[0x301], 3);
    assert_eq!(ram[0x302], 4);
}

#[test]
fn bulk_store_load_inclusive_test() {
    // LD I, 0x300; LD [I], V2: copies V0 through V2 inclusive
    let (mut cpu, mut com) = machine(vec![0xA3, 0x00, 0xF2, 0x55]);
    cpu.v_registers[0] = 11;
    cpu.v_registers[1] = 22;
    cpu.v_registers[2] = 33;
    cpu.v_registers[3] = 44;
    assert!(cpu.step(&mut com).is_ok());
    assert!(cpu.step(&mut com).is_ok());
    let ram = cpu.dump_memory();
    assert_eq!(ram[0x300], 11);
    assert_eq!(ram[0x301], 22);
    assert_eq!(ram[0x302], 33);
    assert_eq!(ram[0x303], 0);

    // LD I, 0x300; LD V1, [I]: fills V0 through V1 inclusive
    let (mut cpu2, mut com2) = machine(vec![0xA3, 0x00, 0xF1, 0x65]);
    cpu2.memory.write_byte(0x300, 55).unwrap();
    cpu2.memory.write_byte(0x301, 66).unwrap();
    cpu2.memory.write_byte(0x302, 77).unwrap();
    assert!(cpu2.step(&mut com2).is_ok());
    assert!(cpu2.step(&mut com2).is_ok());
    assert_eq!(cpu2.v_registers[0], 55);
    assert_eq!(cpu2.v_registers[1], 66);
    assert_eq!(cpu2.v_registers[2], 0);
}

#[test]
fn bulk_store_region_error_test() {
    // LD I, 0xFFF; LD [I], V2: the second write runs off the store
    let (mut cpu, mut com) = machine(vec![0xAF, 0xFF, 0xF2, 0x55]);
    cpu.v_registers[0] = 11;
    cpu.v_registers[1] = 22;
    assert!(cpu.step(&mut com).is_ok());
    assert_eq!(cpu.step(&mut com), Err(CPUError::MemoryError(MemoryError::UnmappedAddress(0x1000))));
    let ram = cpu.dump_memory();
    assert_eq!(ram[0xFFF], 11);
}

#[test]
fn fetch_error_test() {
    let (mut cpu, mut com) = machine(vec![]);
    cpu.pc = 0x1000;
    assert_eq!(
        cpu.step(&mut com),
        Err(CPUError::MemoryError(MemoryError::UnmappedAddress(0x1000)))
    );
    cpu.pc = 0x100;
    assert_eq!(
        cpu.step(&mut com),
        Err(CPUError::MemoryError(MemoryError::ReservedAddress(0x100)))
    );
}

#[test]
fn decode_error_is_fatal_test() {
    let (mut cpu, mut com) = machine(vec![0xFF, 0xFF]);
    assert_eq!(cpu.step(&mut com), Err(CPUError::DecodeError(0xFFFF)));
}

#[test]
fn invalid_register_test() {
    let cpu = CPU::new();
    assert_eq!(cpu.get_register(16), Err(CPUError::InvalidRegister(16)));
    assert_eq!(cpu.get_register(15), Ok(0));
}

#[test]
fn rnd_mask_test() {
    // RND V0, 0x00: whatever byte comes back, the mask zeroes it
    let (mut cpu, mut com) = machine(vec![0xC0, 0x00]);
    cpu.v_registers[0] = 0xAA;
    assert!(cpu.step(&mut com).is_ok());
    assert_eq!(cpu.v_registers[0], 0);
    assert_eq!(cpu.pc, 0x202);
}

#[test]
fn rnd_stays_in_mask_test() {
    // RND V0, 0x0F: the high nibble is always cleared
    let (mut cpu, mut com) = machine(vec![0xC0, 0x0F]);
    assert!(cpu.step(&mut com).is_ok());
    assert!(cpu.v_registers[0] <= 0x0F);
}

#[test]
fn sys_halt_test() {
    // SYS 0x100 halts in place
    let (mut cpu, mut com) = machine(vec![0x01, 0x00]);
    assert!(cpu.is_running());
    assert!(cpu.step(&mut com).is_ok());
    assert!(!cpu.is_running());
    assert_eq!(cpu.pc, 0x200);
}

#[test]
fn sys_other_is_noop_test() {
    let (mut cpu, mut com) = machine(vec![0x02, 0x34]);
    assert!(cpu.step(&mut com).is_ok());
    assert!(cpu.is_running());
    assert_eq!(cpu.pc, 0x202);
}

#[test]
fn next_step_supported_test() {
    // LD V1, K is decoded but not executed by this machine
    let (cpu_unsupported, _) = machine(vec![0xF1, 0x0A]);
    assert!(!cpu_unsupported.next_step_supported());
    let (cpu_ok, _) = machine(vec![0x6A, 0x05]);
    assert!(cpu_ok.next_step_supported());
    // an undecodable word is a fatal step, not an unsupported one
    let (cpu_bad, _) = machine(vec![0xFF, 0xFF]);
    assert!(cpu_bad.next_step_supported());
}
