use chip8_core::fault::Fault;
use chip8_core::memory::{Memory, MAX_MEMORY_ADDRESS, PROGRAM_START_ADDRESS, STACK_DEPTH};
use chip8_core::rom::Rom;

#[test]
fn new_memory_is_zero_filled() {
    let memory = Memory::new();
    let bytes = memory.get_values_in_range(0..4096);
    assert_eq!(bytes.len(), 4096);
    assert!(bytes.iter().all(|b| *b == 0));
    assert_eq!(MAX_MEMORY_ADDRESS, 4096);
    assert_eq!(PROGRAM_START_ADDRESS, 0x200);
    assert_eq!(STACK_DEPTH, 16);
}

#[test]
fn load_rom_places_bytes_at_program_start() {
    let mut memory = Memory::new();
    memory.load_rom(Rom { content: vec![0x71, 0x05, 0x80, 0x14, 0xFF] });
    assert_eq!(memory.get_values_in_range(0x200..0x205), &[0x71, 0x05, 0x80, 0x14, 0xFF]);
    assert!(memory.get_values_in_range(0..0x200).iter().all(|b| *b == 0));
    assert!(memory.get_values_in_range(0x205..4096).iter().all(|b| *b == 0));
}

#[test]
fn load_rom_of_exactly_the_program_area() {
    let content: Vec<u8> = (0..3584usize).map(|i| (i % 251) as u8 + 1).collect();
    let mut memory = Memory::new();
    memory.load_rom(Rom { content: content.clone() });
    assert_eq!(memory.get_values_in_range(0x200..4096), &content[..]);
    assert!(memory.get_values_in_range(0..0x200).iter().all(|b| *b == 0));
}

#[test]
fn load_rom_truncates_a_long_program() {
    let content: Vec<u8> = (0..5000usize).map(|i| (i % 251) as u8 + 1).collect();
    let mut memory = Memory::new();
    memory.load_rom(Rom { content: content.clone() });
    assert_eq!(memory.get_values_in_range(0x200..4096), &content[..3584]);
    assert!(memory.get_values_in_range(0..0x200).iter().all(|b| *b == 0));
    assert_eq!(memory.pop_return(1), Ok((0, 0)));
}

#[test]
fn load_rom_of_nothing_changes_nothing() {
    let mut memory = Memory::new();
    assert_eq!(memory.write_byte(0x300, 9), Ok(()));
    memory.load_rom(Rom { content: Vec::new() });
    assert_eq!(memory.read_byte(0x300), Ok(9));
    assert_eq!(memory.read_byte(0x200), Ok(0));
}

#[test]
fn load_rom_keeps_the_reserved_bytes_and_what_lies_behind_the_program() {
    let mut memory = Memory::new();
    assert_eq!(memory.write_byte(0x1FF, 0xAB), Ok(()));
    assert_eq!(memory.write_byte(0x202, 0xCD), Ok(()));
    memory.load_rom(Rom { content: vec![1, 2] });
    assert_eq!(memory.get_values_in_range(0x1FF..0x203), &[0xAB, 1, 2, 0xCD]);
}

#[test]
fn get_values_in_range_of_an_empty_range() {
    let memory = Memory::new();
    assert_eq!(memory.get_values_in_range(4096..4096).len(), 0);
    assert_eq!(memory.get_values_in_range(7..7).len(), 0);
}

#[test]
fn read_and_write_within_and_beyond_the_memory() {
    let mut memory = Memory::new();
    assert_eq!(memory.write_byte(4095, 0x42), Ok(()));
    assert_eq!(memory.read_byte(4095), Ok(0x42));
    assert_eq!(memory.read_byte(0), Ok(0));
    assert_eq!(memory.write_byte(4096, 1), Err(Fault::AddressOutOfBounds));
    assert_eq!(memory.read_byte(4096), Err(Fault::AddressOutOfBounds));
    assert_eq!(memory.read_byte(usize::MAX), Err(Fault::AddressOutOfBounds));
    assert!(memory.get_values_in_range(0..4095).iter().all(|b| *b == 0));
}

#[test]
fn return_addresses_are_pushed_and_popped() {
    let mut memory = Memory::new();
    assert_eq!(memory.push_return(0, 0x202), Ok(1));
    assert_eq!(memory.push_return(1, 0x3A0), Ok(2));
    assert_eq!(memory.pop_return(2), Ok((0x3A0, 1)));
    assert_eq!(memory.pop_return(1), Ok((0x202, 0)));
    assert_eq!(memory.pop_return(0), Err(Fault::StackUnderflow));
    assert_eq!(memory.pop_return(17), Err(Fault::StackUnderflow));
    assert_eq!(memory.push_return(15, 0x444), Ok(16));
    assert_eq!(memory.pop_return(16), Ok((0x444, 15)));
    assert_eq!(memory.push_return(16, 0x555), Err(Fault::StackOverflow));
    assert_eq!(memory.push_return(255, 0x555), Err(Fault::StackOverflow));
    assert_eq!(memory.pop_return(16), Ok((0x444, 15)));
}
