use tw_chip8::memory::{Memory, MemoryError};

fn some_data() -> Vec<u8> {
    vec![25, 25, 2, 42, 128, 64, 100, 99]
}

#[test]
fn loading_test() {
    let mut mem = Memory::new();
    mem.load_in_ram(&some_data(), 0x204);
    mem.load_in_ram(&some_data(), 0x200);
    let ram = mem.dump();
    let data = some_data();
    for i in 0..8 {
        assert!(ram[i + 0x200] == data[i]);
    }
    assert!(ram[0x208] == data[4]);
}

#[test]
fn font_test() {
    let font: Vec<u8> = vec![
        0xF0, 0x90, 0x90, 0x90, 0xF0, // 0
        0x20, 0x60, 0x20, 0x20, 0x70, // 1
        0xF0, 0x10, 0xF0, 0x80, 0xF0, // 2
        0xF0, 0x10, 0xF0, 0x10, 0xF0, // 3
        0x90, 0x90, 0xF0, 0x10, 0x10, // 4
        0xF0, 0x80, 0xF0, 0x10, 0xF0, // 5
        0xF0, 0x80, 0xF0, 0x90, 0xF0, // 6
        0xF0, 0x10, 0x20, 0x40, 0x40, // 7
        0xF0, 0x90, 0xF0, 0x90, 0xF0, // 8
        0xF0, 0x90, 0xF0, 0x10, 0xF0, // 9
        0xF0, 0x90, 0xF0, 0x90, 0x90, // A
        0xE0, 0x90, 0xE0, 0x90, 0xE0, // B
        0xF0, 0x80, 0x80, 0x80, 0xF0, // C
        0xE0, 0x90, 0x90, 0x90, 0xE0, // D
        0xF0, 0x80, 0xF0, 0x80, 0xF0, // E
        0xF0, 0x80, 0xF0, 0x80, 0x80, // F
    ];
    let mem = Memory::new();
    let ram = mem.dump();
    let mut all_equal = true;
    for i in 0..80 {
        if ram[i + 0x100] != font[i] {
            all_equal = false;
        }
    }
    assert!(all_equal);
}

#[test]
fn dump_test() {
    let mem = Memory::new();
    let ram_copy = mem.dump();
    assert!(ram_copy.len() == 0x1000);
    assert_eq!(ram_copy, mem.dump());
}

#[test]
fn region_checks_test() {
    let mut mem = Memory::new();
    assert_eq!(mem.write_byte(0x1FF, 7), Err(MemoryError::ReservedAddress(0x1FF)));
    assert!(mem.write_byte(0x200, 7).is_ok());
    assert_eq!(mem.read_byte(0x200), Ok(7));
    assert_eq!(mem.read_byte(0x1000), Err(MemoryError::UnmappedAddress(0x1000)));
    assert_eq!(mem.read_byte(0x1FF), Err(MemoryError::ReservedAddress(0x1FF)));
}

#[test]
fn read_word_test() {
    let mut mem = Memory::new();
    mem.write_byte(0x300, 0xAB).unwrap();
    mem.write_byte(0x301, 0xCD).unwrap();
    assert_eq!(mem.read_word(0x300), Ok(0xABCD));
    assert_eq!(mem.read_word(0xFFF), Err(MemoryError::UnmappedAddress(0x1000)));
    assert_eq!(mem.read_word(0x100), Err(MemoryError::ReservedAddress(0x100)));
}

#[test]
fn load_truncates_test() {
    let mut mem = Memory::new();
    let data = vec![1u8, 2, 3, 4];
    mem.load_in_ram(&data, 0xFFE);
    let ram = mem.dump();
    assert_eq!(ram[0xFFE], 1);
    assert_eq!(ram[0xFFF], 2);
    // the rest fell off the end of the store
    assert_eq!(ram.len(), 0x1000);
}
