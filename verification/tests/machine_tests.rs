use tw_chip8::com::Communicator;
use tw_chip8::cpu::CPU;
use tw_chip8::video::VideoSignal;

fn machine(rom: Vec<u8>) -> (CPU, Communicator) {
    let mut cpu = CPU::new();
    cpu.load_rom(rom);
    (cpu, Communicator::new())
}

#[test]
fn end_to_end_test() {
    // LD VA, 5 then CLS
    let (mut cpu, mut com) = machine(vec![0x6A, 0x05, 0x00, 0xE0]);
    assert!(cpu.step(&mut com).is_ok());
    assert!(cpu.step(&mut com).is_ok());
    assert_eq!(cpu.v_registers[10], 5);
    assert!(com.video.display.iter().all(|p| !p));
    assert_eq!(com.video.signal, VideoSignal::Clear);
    assert_eq!(cpu.pc, 0x204);
}

#[test]
fn draw_and_collision_test() {
    // LD I, 0x206; DRW V0, V1, 1; DRW V0, V1, 1; sprite row 0xFF at 0x206
    let (mut cpu, mut com) = machine(vec![0xA2, 0x06, 0xD0, 0x11, 0xD0, 0x11, 0xFF]);
    assert!(cpu.step(&mut com).is_ok());
    assert_eq!(cpu.i_register, 0x206);

    // first draw: eight pixels lit at the origin, no collision
    assert!(cpu.step(&mut com).is_ok());
    for col in 0..8 {
        assert!(com.video.display[col]);
    }
    assert!(com.video.display[8..].iter().all(|p| !p));
    assert_eq!(cpu.v_registers[15], 0);
    assert_eq!(com.video.signal, VideoSignal::Refresh);

    // second identical draw: cleared back to blank, collision reported
    assert!(cpu.step(&mut com).is_ok());
    assert!(com.video.display.iter().all(|p| !p));
    assert_eq!(cpu.v_registers[15], 1);
    assert_eq!(com.video.signal, VideoSignal::Refresh);
}

#[test]
fn draw_wraps_at_width_test() {
    // LD I, 0x204; DRW V0, V1, 1 with V0 = 64: x wraps to column 0
    let (mut cpu, mut com) = machine(vec![0xA2, 0x04, 0xD0, 0x11, 0x80]);
    cpu.v_registers[0] = 64;
    assert!(cpu.step(&mut com).is_ok());
    assert!(cpu.step(&mut com).is_ok());
    assert!(com.video.display[0]);
    assert!(com.video.display[1..].iter().all(|p| !p));
}

#[test]
fn draw_wraps_at_height_test() {
    // DRW V0, V1, 1 with V1 = 33: y wraps to row 1
    let (mut cpu, mut com) = machine(vec![0xA2, 0x04, 0xD0, 0x11, 0x80]);
    cpu.v_registers[1] = 33;
    assert!(cpu.step(&mut com).is_ok());
    assert!(cpu.step(&mut com).is_ok());
    assert!(com.video.display[64]);
}

#[test]
fn draw_reads_font_fails_in_reserved_region_test() {
    // the font lives in the reserved region, so a draw from it is refused
    let (mut cpu, mut com) = machine(vec![0xA1, 0x00, 0xD0, 0x15]);
    assert!(cpu.step(&mut com).is_ok());
    assert!(cpu.step(&mut com).is_err());
}

#[test]
fn clear_screen_resets_pixels_test() {
    // draw something, then CLS
    let (mut cpu, mut com) = machine(vec![0xA2, 0x06, 0xD0, 0x11, 0x00, 0xE0, 0xFF]);
    assert!(cpu.step(&mut com).is_ok());
    assert!(cpu.step(&mut com).is_ok());
    assert!(com.video.display[0]);
    assert!(cpu.step(&mut com).is_ok());
    assert!(com.video.display.iter().all(|p| !p));
    assert_eq!(com.video.signal, VideoSignal::Clear);
}

#[test]
fn dump_memory_holds_rom_test() {
    let (cpu, _) = machine(vec![0x12, 0x34, 0x56]);
    let ram = cpu.dump_memory();
    assert_eq!(ram.len(), 0x1000);
    assert_eq!(ram[0x200], 0x12);
    assert_eq!(ram[0x201], 0x34);
    assert_eq!(ram[0x202], 0x56);
}

#[test]
fn run_loop_halts_test() {
    // a driving loop: LD V0, 7 then SYS 0x100
    let (mut cpu, mut com) = machine(vec![0x60, 0x07, 0x01, 0x00]);
    let mut steps = 0;
    while cpu.is_running() && steps < 10 {
        assert!(cpu.next_step_supported());
        assert!(cpu.step(&mut com).is_ok());
        steps += 1;
    }
    assert_eq!(cpu.v_registers[0], 7);
    assert!(!cpu.is_running());
    assert_eq!(steps, 2);
}
