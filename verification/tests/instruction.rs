use chip8_core::instruction::{decode, Instruction};

#[test]
fn decode_system_words() {
    assert_eq!(decode(0x0000), Instruction::Halt);
    assert_eq!(decode(0x00E0), Instruction::ClearDisplay);
    assert_eq!(decode(0x00EE), Instruction::Return);
    assert_eq!(decode(0x0123), Instruction::Unknown);
    assert_eq!(decode(0x01EE), Instruction::Unknown);
}

#[test]
fn decode_control_flow_words() {
    assert_eq!(decode(0x1ABC), Instruction::Jump { address: 0xABC });
    assert_eq!(decode(0x2FFF), Instruction::Call { address: 0xFFF });
    assert_eq!(decode(0x3A42), Instruction::SkipIfEqual { x: 0xA, byte: 0x42 });
    assert_eq!(decode(0x4B07), Instruction::SkipIfNotEqual { x: 0xB, byte: 0x07 });
    assert_eq!(decode(0x5120), Instruction::SkipIfRegistersEqual { x: 1, y: 2 });
    assert_eq!(decode(0x5121), Instruction::Unknown);
    assert_eq!(decode(0x9EF0), Instruction::SkipIfRegistersNotEqual { x: 0xE, y: 0xF });
    assert_eq!(decode(0x9EF3), Instruction::Unknown);
    assert_eq!(decode(0xB123), Instruction::JumpOffset { address: 0x123 });
}

#[test]
fn decode_load_and_arithmetic_words() {
    assert_eq!(decode(0x6C99), Instruction::Load { x: 0xC, byte: 0x99 });
    assert_eq!(decode(0x7105), Instruction::AddByte { x: 1, byte: 5 });
    assert_eq!(decode(0x8010), Instruction::Copy { x: 0, y: 1 });
    assert_eq!(decode(0x8231), Instruction::Or { x: 2, y: 3 });
    assert_eq!(decode(0x8232), Instruction::And { x: 2, y: 3 });
    assert_eq!(decode(0x8233), Instruction::Xor { x: 2, y: 3 });
    assert_eq!(decode(0x8014), Instruction::AddRegister { x: 0, y: 1 });
    assert_eq!(decode(0x8AB5), Instruction::SubtractRegister { x: 0xA, y: 0xB });
    assert_eq!(decode(0x8236), Instruction::ShiftRight { x: 2 });
    assert_eq!(decode(0x8AB7), Instruction::SubtractReversed { x: 0xA, y: 0xB });
    assert_eq!(decode(0x823E), Instruction::ShiftLeft { x: 2 });
    assert_eq!(decode(0x8238), Instruction::Unknown);
    assert_eq!(decode(0x823F), Instruction::Unknown);
    assert_eq!(decode(0xA2F0), Instruction::LoadIndex { address: 0x2F0 });
}

#[test]
fn decode_host_and_miscellaneous_words() {
    assert_eq!(decode(0xC30F), Instruction::Random { x: 3, byte: 0x0F });
    assert_eq!(decode(0xD125), Instruction::Draw { x: 1, y: 2, rows: 5 });
    assert_eq!(decode(0xE49E), Instruction::SkipIfKey { x: 4 });
    assert_eq!(decode(0xE4A1), Instruction::SkipIfNoKey { x: 4 });
    assert_eq!(decode(0xE4A2), Instruction::Unknown);
    assert_eq!(decode(0xF507), Instruction::ReadDelay { x: 5 });
    assert_eq!(decode(0xF50A), Instruction::WaitKey { x: 5 });
    assert_eq!(decode(0xF515), Instruction::SetDelay { x: 5 });
    assert_eq!(decode(0xF518), Instruction::SetSound { x: 5 });
    assert_eq!(decode(0xF51E), Instruction::AddIndex { x: 5 });
    assert_eq!(decode(0xF529), Instruction::FontAddress { x: 5 });
    assert_eq!(decode(0xF533), Instruction::StoreDecimal { x: 5 });
    assert_eq!(decode(0xF555), Instruction::StoreRegisters { x: 5 });
    assert_eq!(decode(0xF565), Instruction::LoadRegisters { x: 5 });
    assert_eq!(decode(0xF5FF), Instruction::Unknown);
}

#[test]
fn well_formed_instructions_name_registers_below_sixteen() {
    assert!(Instruction::Halt.is_well_formed());
    assert!(Instruction::Unknown.is_well_formed());
    assert!(Instruction::Jump { address: 0xFFF }.is_well_formed());
    assert!(!Instruction::Jump { address: 0x1000 }.is_well_formed());
    assert!(Instruction::Load { x: 15, byte: 0xFF }.is_well_formed());
    assert!(!Instruction::Load { x: 16, byte: 0 }.is_well_formed());
    assert!(Instruction::Copy { x: 15, y: 15 }.is_well_formed());
    assert!(!Instruction::Copy { x: 1, y: 16 }.is_well_formed());
    assert!(!Instruction::ShiftLeft { x: 200 }.is_well_formed());
    assert!(Instruction::Draw { x: 1, y: 2, rows: 15 }.is_well_formed());
    assert!(!Instruction::Draw { x: 1, y: 2, rows: 16 }.is_well_formed());
    for word in 0..=0xFFFFu16 {
        assert!(decode(word).is_well_formed());
    }
}
