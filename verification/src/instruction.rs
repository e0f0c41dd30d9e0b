//! The instruction set: the operations a two-byte instruction word can name,
//! and the decoding of a word into its operation and operands.

use vstd::prelude::*;

verus! {

/// A decoded instruction. `x` and `y` select general-purpose registers,
/// `byte` is an immediate value and `address` a 12-bit address.
#[derive(Clone, Copy, Debug, PartialEq, Eq, Structural)]
pub enum Instruction {
    /// `0000`: the halt sentinel.
    Halt,
    /// `00E0`: clear the display.
    ClearDisplay,
    /// `00EE`: return from a subroutine.
    Return,
    /// `1nnn`: jump to `address`.
    Jump { address: u16 },
    /// `2nnn`: call the subroutine at `address`.
    Call { address: u16 },
    /// `3xkk`: skip the next instruction if register `x` equals `byte`.
    SkipIfEqual { x: u8, byte: u8 },
    /// `4xkk`: skip the next instruction if register `x` differs from `byte`.
    SkipIfNotEqual { x: u8, byte: u8 },
    /// `5xy0`: skip the next instruction if registers `x` and `y` are equal.
    SkipIfRegistersEqual { x: u8, y: u8 },
    /// `6xkk`: load `byte` into register `x`.
    Load { x: u8, byte: u8 },
    /// `7xkk`: add `byte` to register `x`, wrapping, with no flag.
    AddByte { x: u8, byte: u8 },
    /// `8xy0`: copy register `y` into register `x`.
    Copy { x: u8, y: u8 },
    /// `8xy1`: or register `y` into register `x`.
    Or { x: u8, y: u8 },
    /// `8xy2`: and register `y` into register `x`.
    And { x: u8, y: u8 },
    /// `8xy3`: exclusive-or register `y` into register `x`.
    Xor { x: u8, y: u8 },
    /// `8xy4`: add register `y` to register `x`; the flag tells of the carry.
    AddRegister { x: u8, y: u8 },
    /// `8xy5`: subtract register `y` from register `x`; the flag tells of the
    /// borrow.
    SubtractRegister { x: u8, y: u8 },
    /// `8xy6`: shift register `x` right by one; the flag is the bit that left.
    ShiftRight { x: u8 },
    /// `8xy7`: register `x` becomes register `y` less register `x`; the flag
    /// tells of the borrow.
    SubtractReversed { x: u8, y: u8 },
    /// `8xyE`: shift register `x` left by one; the flag is the bit that left.
    ShiftLeft { x: u8 },
    /// `9xy0`: skip the next instruction if registers `x` and `y` differ.
    SkipIfRegistersNotEqual { x: u8, y: u8 },
    /// `Annn`: load `address` into the index register.
    LoadIndex { address: u16 },
    /// `Bnnn`: jump to `address` plus register 0.
    JumpOffset { address: u16 },
    /// `Cxkk`: load register `x` with a random byte masked by `byte`.
    Random { x: u8, byte: u8 },
    /// `Dxyn`: draw the sprite of `rows` bytes at the index register, at the
    /// position that registers `x` and `y` give.
    Draw { x: u8, y: u8, rows: u8 },
    /// `Ex9E`: skip the next instruction if the key in register `x` is down.
    SkipIfKey { x: u8 },
    /// `ExA1`: skip the next instruction if the key in register `x` is up.
    SkipIfNoKey { x: u8 },
    /// `Fx07`: read the delay timer into register `x`.
    ReadDelay { x: u8 },
    /// `Fx0A`: wait for a key and store it in register `x`.
    WaitKey { x: u8 },
    /// `Fx15`: set the delay timer from register `x`.
    SetDelay { x: u8 },
    /// `Fx18`: set the sound timer from register `x`.
    SetSound { x: u8 },
    /// `Fx1E`: add register `x` to the index register.
    AddIndex { x: u8 },
    /// `Fx29`: point the index register at the font sprite of the digit in
    /// register `x`.
    FontAddress { x: u8 },
    /// `Fx33`: store the three decimal digits of register `x` at the index
    /// register.
    StoreDecimal { x: u8 },
    /// `Fx55`: store registers 0 to `x` at the index register.
    StoreRegisters { x: u8 },
    /// `Fx65`: load registers 0 to `x` from the index register.
    LoadRegisters { x: u8 },
    /// Any other word: nothing is done.
    Unknown,
}

/// The operation family: bits 15 to 12.
pub open spec fn family_of(word: u16) -> u16 {
    word >> 12
}

/// The register operand `x`: bits 11 to 8.
pub open spec fn x_of(word: u16) -> u8 {
    ((word >> 8) & 0xF) as u8
}

/// The register operand `y`: bits 7 to 4.
pub open spec fn y_of(word: u16) -> u8 {
    ((word >> 4) & 0xF) as u8
}

/// The lowest nibble: bits 3 to 0.
pub open spec fn nibble_of(word: u16) -> u8 {
    (word & 0xF) as u8
}

/// The immediate byte: bits 7 to 0.
pub open spec fn byte_of(word: u16) -> u8 {
    (word & 0xFF) as u8
}

/// The address operand: bits 11 to 0.
pub open spec fn address_of(word: u16) -> u16 {
    word & 0xFFF
}

/// The instruction that a register-to-register word of family 8 names.
pub open spec fn decoded_alu(word: u16) -> Instruction {
    let x = x_of(word);
    let y = y_of(word);
    let n = nibble_of(word);
    if n == 0x0 {
        Instruction::Copy { x, y }
    } else if n == 0x1 {
        Instruction::Or { x, y }
    } else if n == 0x2 {
        Instruction::And { x, y }
    } else if n == 0x3 {
        Instruction::Xor { x, y }
    } else if n == 0x4 {
        Instruction::AddRegister { x, y }
    } else if n == 0x5 {
        Instruction::SubtractRegister { x, y }
    } else if n == 0x6 {
        Instruction::ShiftRight { x }
    } else if n == 0x7 {
        Instruction::SubtractReversed { x, y }
    } else if n == 0xE {
        Instruction::ShiftLeft { x }
    } else {
        Instruction::Unknown
    }
}

/// The instruction that a word of family F names.
pub open spec fn decoded_misc(word: u16) -> Instruction {
    let x = x_of(word);
    let byte = byte_of(word);
    if byte == 0x07 {
        Instruction::ReadDelay { x }
    } else if byte == 0x0A {
        Instruction::WaitKey { x }
    } else if byte == 0x15 {
        Instruction::SetDelay { x }
    } else if byte == 0x18 {
        Instruction::SetSound { x }
    } else if byte == 0x1E {
        Instruction::AddIndex { x }
    } else if byte == 0x29 {
        Instruction::FontAddress { x }
    } else if byte == 0x33 {
        Instruction::StoreDecimal { x }
    } else if byte == 0x55 {
        Instruction::StoreRegisters { x }
    } else if byte == 0x65 {
        Instruction::LoadRegisters { x }
    } else {
        Instruction::Unknown
    }
}

/// The instruction that a word names.
pub open spec fn decoded(word: u16) -> Instruction {
    let family = family_of(word);
    let x = x_of(word);
    let y = y_of(word);
    let n = nibble_of(word);
    let byte = byte_of(word);
    let address = address_of(word);
    if word == 0x0000 {
        Instruction::Halt
    } else if word == 0x00E0 {
        Instruction::ClearDisplay
    } else if word == 0x00EE {
        Instruction::Return
    } else if family == 0x1 {
        Instruction::Jump { address }
    } else if family == 0x2 {
        Instruction::Call { address }
    } else if family == 0x3 {
        Instruction::SkipIfEqual { x, byte }
    } else if family == 0x4 {
        Instruction::SkipIfNotEqual { x, byte }
    } else if family == 0x5 && n == 0 {
        Instruction::SkipIfRegistersEqual { x, y }
    } else if family == 0x6 {
        Instruction::Load { x, byte }
    } else if family == 0x7 {
        Instruction::AddByte { x, byte }
    } else if family == 0x8 {
        decoded_alu(word)
    } else if family == 0x9 && n == 0 {
        Instruction::SkipIfRegistersNotEqual { x, y }
    } else if family == 0xA {
        Instruction::LoadIndex { address }
    } else if family == 0xB {
        Instruction::JumpOffset { address }
    } else if family == 0xC {
        Instruction::Random { x, byte }
    } else if family == 0xD {
        Instruction::Draw { x, y, rows: n }
    } else if family == 0xE && byte == 0x9E {
        Instruction::SkipIfKey { x }
    } else if family == 0xE && byte == 0xA1 {
        Instruction::SkipIfNoKey { x }
    } else if family == 0xF {
        decoded_misc(word)
    } else {
        Instruction::Unknown
    }
}

impl Instruction {
    /// The first register operand, where the instruction has one.
    pub open spec fn first_register(self) -> Option<u8> {
        match self {
            Instruction::SkipIfEqual { x, .. }
            | Instruction::SkipIfNotEqual { x, .. }
            | Instruction::SkipIfRegistersEqual { x, .. }
            | Instruction::Load { x, .. }
            | Instruction::AddByte { x, .. }
            | Instruction::Copy { x, .. }
            | Instruction::Or { x, .. }
            | Instruction::And { x, .. }
            | Instruction::Xor { x, .. }
            | Instruction::AddRegister { x, .. }
            | Instruction::SubtractRegister { x, .. }
            | Instruction::ShiftRight { x }
            | Instruction::SubtractReversed { x, .. }
            | Instruction::ShiftLeft { x }
            | Instruction::SkipIfRegistersNotEqual { x, .. }
            | Instruction::Random { x, .. }
            | Instruction::Draw { x, .. }
            | Instruction::SkipIfKey { x }
            | Instruction::SkipIfNoKey { x }
            | Instruction::ReadDelay { x }
            | Instruction::WaitKey { x }
            | Instruction::SetDelay { x }
            | Instruction::SetSound { x }
            | Instruction::AddIndex { x }
            | Instruction::FontAddress { x }
            | Instruction::StoreDecimal { x }
            | Instruction::StoreRegisters { x }
            | Instruction::LoadRegisters { x } => Some(x),
            _ => None,
        }
    }

    /// The second register operand, where the instruction has one.
    pub open spec fn second_register(self) -> Option<u8> {
        match self {
            Instruction::SkipIfRegistersEqual { y, .. }
            | Instruction::Copy { y, .. }
            | Instruction::Or { y, .. }
            | Instruction::And { y, .. }
            | Instruction::Xor { y, .. }
            | Instruction::AddRegister { y, .. }
            | Instruction::SubtractRegister { y, .. }
            | Instruction::SubtractReversed { y, .. }
            | Instruction::SkipIfRegistersNotEqual { y, .. }
            | Instruction::Draw { y, .. } => Some(y),
            _ => None,
        }
    }

    /// The address operand, where the instruction has one.
    pub open spec fn target(self) -> Option<u16> {
        match self {
            Instruction::Jump { address }
            | Instruction::Call { address }
            | Instruction::LoadIndex { address }
            | Instruction::JumpOffset { address } => Some(address),
            _ => None,
        }
    }

    /// Every register operand names one of the 16 registers, a sprite has at
    /// most 15 rows, and an address operand has 12 bits.
    pub open spec fn well_formed(self) -> bool {
        &&& self.first_register() matches Some(x) ==> x < 16
        &&& self.second_register() matches Some(y) ==> y < 16
        &&& self.target() matches Some(address) ==> address < 0x1000
        &&& self matches Instruction::Draw { rows, .. } ==> rows < 16
    }

    /// Whether the instruction is well formed.
    pub fn is_well_formed(&self) -> (r: bool)
        ensures
            r == self.well_formed(),
    {
        match self {
            Instruction::Jump { address } => *address < 0x1000,
            Instruction::Call { address } => *address < 0x1000,
            Instruction::LoadIndex { address } => *address < 0x1000,
            Instruction::JumpOffset { address } => *address < 0x1000,
            Instruction::SkipIfEqual { x, .. } => *x < 16,
            Instruction::SkipIfNotEqual { x, .. } => *x < 16,
            Instruction::Load { x, .. } => *x < 16,
            Instruction::AddByte { x, .. } => *x < 16,
            Instruction::Random { x, .. } => *x < 16,
            Instruction::ShiftRight { x } => *x < 16,
            Instruction::ShiftLeft { x } => *x < 16,
            Instruction::SkipIfKey { x } => *x < 16,
            Instruction::SkipIfNoKey { x } => *x < 16,
            Instruction::ReadDelay { x } => *x < 16,
            Instruction::WaitKey { x } => *x < 16,
            Instruction::SetDelay { x } => *x < 16,
            Instruction::SetSound { x } => *x < 16,
            Instruction::AddIndex { x } => *x < 16,
            Instruction::FontAddress { x } => *x < 16,
            Instruction::StoreDecimal { x } => *x < 16,
            Instruction::StoreRegisters { x } => *x < 16,
            Instruction::LoadRegisters { x } => *x < 16,
            Instruction::SkipIfRegistersEqual { x, y } => *x < 16 && *y < 16,
            Instruction::Copy { x, y } => *x < 16 && *y < 16,
            Instruction::Or { x, y } => *x < 16 && *y < 16,
            Instruction::And { x, y } => *x < 16 && *y < 16,
            Instruction::Xor { x, y } => *x < 16 && *y < 16,
            Instruction::AddRegister { x, y } => *x < 16 && *y < 16,
            Instruction::SubtractRegister { x, y } => *x < 16 && *y < 16,
            Instruction::SubtractReversed { x, y } => *x < 16 && *y < 16,
            Instruction::SkipIfRegistersNotEqual { x, y } => *x < 16 && *y < 16,
            Instruction::Draw { x, y, rows } => *x < 16 && *y < 16 && *rows < 16,
            _ => true,
        }
    }
}

/// Decodes an instruction word.
pub fn decode(word: u16) -> (instruction: Instruction)
    ensures
        instruction == decoded(word),
        instruction.well_formed(),
{
    let family: u16 = word >> 12;
    let x: u8 = ((word >> 8) & 0xF) as u8;
    let y: u8 = ((word >> 4) & 0xF) as u8;
    let n: u8 = (word & 0xF) as u8;
    let byte: u8 = (word & 0xFF) as u8;
    let address: u16 = word & 0xFFF;
    proof {
        assert(((word >> 8) & 0xF) < 16) by (bit_vector);
        assert(((word >> 4) & 0xF) < 16) by (bit_vector);
        assert((word & 0xF) < 16) by (bit_vector);
        assert((word & 0xFFF) < 0x1000) by (bit_vector);
    }
    if word == 0x0000 {
        Instruction::Halt
    } else if word == 0x00E0 {
        Instruction::ClearDisplay
    } else if word == 0x00EE {
        Instruction::Return
    } else if family == 0x1 {
        Instruction::Jump { address }
    } else if family == 0x2 {
        Instruction::Call { address }
    } else if family == 0x3 {
        Instruction::SkipIfEqual { x, byte }
    } else if family == 0x4 {
        Instruction::SkipIfNotEqual { x, byte }
    } else if family == 0x5 && n == 0 {
        Instruction::SkipIfRegistersEqual { x, y }
    } else if family == 0x6 {
        Instruction::Load { x, byte }
    } else if family == 0x7 {
        Instruction::AddByte { x, byte }
    } else if family == 0x8 {
        decode_alu(x, y, n, Ghost(word))
    } else if family == 0x9 && n == 0 {
        Instruction::SkipIfRegistersNotEqual { x, y }
    } else if family == 0xA {
        Instruction::LoadIndex { address }
    } else if family == 0xB {
        Instruction::JumpOffset { address }
    } else if family == 0xC {
        Instruction::Random { x, byte }
    } else if family == 0xD {
        Instruction::Draw { x, y, rows: n }
    } else if family == 0xE && byte == 0x9E {
        Instruction::SkipIfKey { x }
    } else if family == 0xE && byte == 0xA1 {
        Instruction::SkipIfNoKey { x }
    } else if family == 0xF {
        decode_misc(x, byte, Ghost(word))
    } else {
        Instruction::Unknown
    }
}

/// Selects the register-to-register operation by the lowest nibble.
fn decode_alu(x: u8, y: u8, n: u8, Ghost(word): Ghost<u16>) -> (instruction: Instruction)
    requires
        x == x_of(word),
        y == y_of(word),
        n == nibble_of(word),
        x < 16,
        y < 16,
    ensures
        instruction == decoded_alu(word),
        instruction.well_formed(),
{
    if n == 0x0 {
        Instruction::Copy { x, y }
    } else if n == 0x1 {
        Instruction::Or { x, y }
    } else if n == 0x2 {
        Instruction::And { x, y }
    } else if n == 0x3 {
        Instruction::Xor { x, y }
    } else if n == 0x4 {
        Instruction::AddRegister { x, y }
    } else if n == 0x5 {
        Instruction::SubtractRegister { x, y }
    } else if n == 0x6 {
        Instruction::ShiftRight { x }
    } else if n == 0x7 {
        Instruction::SubtractReversed { x, y }
    } else if n == 0xE {
        Instruction::ShiftLeft { x }
    } else {
        Instruction::Unknown
    }
}

/// Selects the operation of family F by the low byte.
fn decode_misc(x: u8, byte: u8, Ghost(word): Ghost<u16>) -> (instruction: Instruction)
    requires
        x == x_of(word),
        byte == byte_of(word),
        x < 16,
    ensures
        instruction == decoded_misc(word),
        instruction.well_formed(),
{
    if byte == 0x07 {
        Instruction::ReadDelay { x }
    } else if byte == 0x0A {
        Instruction::WaitKey { x }
    } else if byte == 0x15 {
        Instruction::SetDelay { x }
    } else if byte == 0x18 {
        Instruction::SetSound { x }
    } else if byte == 0x1E {
        Instruction::AddIndex { x }
    } else if byte == 0x29 {
        Instruction::FontAddress { x }
    } else if byte == 0x33 {
        Instruction::StoreDecimal { x }
    } else if byte == 0x55 {
        Instruction::StoreRegisters { x }
    } else if byte == 0x65 {
        Instruction::LoadRegisters { x }
    } else {
        Instruction::Unknown
    }
}

/// The word made of a family and a 12-bit address.
pub open spec fn word_with_address(family: u16, address: u16) -> u16 {
    (family << 12) | address
}

/// The word made of a family, a register and an immediate byte.
pub open spec fn word_with_byte(family: u16, x: u8, byte: u8) -> u16 {
    (family << 12) | ((x as u16) << 8) | (byte as u16)
}

/// The word made of a family, two registers and a lowest nibble.
pub open spec fn word_with_nibbles(family: u16, x: u8, y: u8, n: u8) -> u16 {
    (family << 12) | ((x as u16) << 8) | ((y as u16) << 4) | (n as u16)
}

/// A word that names the instruction. Where the instruction set ignores a
/// field of the word, that field is zero. An unknown instruction has no word
/// of its own; it is given `0x0001`, one of those that name nothing.
pub open spec fn encoded(i: Instruction) -> u16 {
    match i {
        Instruction::Halt => 0x0000,
        Instruction::ClearDisplay => 0x00E0,
        Instruction::Return => 0x00EE,
        Instruction::Jump { address } => word_with_address(0x1, address),
        Instruction::Call { address } => word_with_address(0x2, address),
        Instruction::LoadIndex { address } => word_with_address(0xA, address),
        Instruction::JumpOffset { address } => word_with_address(0xB, address),
        Instruction::SkipIfEqual { x, byte } => word_with_byte(0x3, x, byte),
        Instruction::SkipIfNotEqual { x, byte } => word_with_byte(0x4, x, byte),
        Instruction::Load { x, byte } => word_with_byte(0x6, x, byte),
        Instruction::AddByte { x, byte } => word_with_byte(0x7, x, byte),
        Instruction::Random { x, byte } => word_with_byte(0xC, x, byte),
        Instruction::SkipIfKey { x } => word_with_byte(0xE, x, 0x9E),
        Instruction::SkipIfNoKey { x } => word_with_byte(0xE, x, 0xA1),
        Instruction::ReadDelay { x } => word_with_byte(0xF, x, 0x07),
        Instruction::WaitKey { x } => word_with_byte(0xF, x, 0x0A),
        Instruction::SetDelay { x } => word_with_byte(0xF, x, 0x15),
        Instruction::SetSound { x } => word_with_byte(0xF, x, 0x18),
        Instruction::AddIndex { x } => word_with_byte(0xF, x, 0x1E),
        Instruction::FontAddress { x } => word_with_byte(0xF, x, 0x29),
        Instruction::StoreDecimal { x } => word_with_byte(0xF, x, 0x33),
        Instruction::StoreRegisters { x } => word_with_byte(0xF, x, 0x55),
        Instruction::LoadRegisters { x } => word_with_byte(0xF, x, 0x65),
        Instruction::SkipIfRegistersEqual { x, y } => word_with_nibbles(0x5, x, y, 0),
        Instruction::Copy { x, y } => word_with_nibbles(0x8, x, y, 0x0),
        Instruction::Or { x, y } => word_with_nibbles(0x8, x, y, 0x1),
        Instruction::And { x, y } => word_with_nibbles(0x8, x, y, 0x2),
        Instruction::Xor { x, y } => word_with_nibbles(0x8, x, y, 0x3),
        Instruction::AddRegister { x, y } => word_with_nibbles(0x8, x, y, 0x4),
        Instruction::SubtractRegister { x, y } => word_with_nibbles(0x8, x, y, 0x5),
        Instruction::ShiftRight { x } => word_with_nibbles(0x8, x, 0, 0x6),
        Instruction::SubtractReversed { x, y } => word_with_nibbles(0x8, x, y, 0x7),
        Instruction::ShiftLeft { x } => word_with_nibbles(0x8, x, 0, 0xE),
        Instruction::SkipIfRegistersNotEqual { x, y } => word_with_nibbles(0x9, x, y, 0),
        Instruction::Draw { x, y, rows } => word_with_nibbles(0xD, x, y, rows),
        Instruction::Unknown => 0x0001,
    }
}

/// The fields of a word made of a family and an address.
proof fn address_word_fields(family: u16, address: u16)
    requires
        0 < family < 16,
        address < 0x1000,
    ensures
        word_with_address(family, address) >= 0x1000,
        family_of(word_with_address(family, address)) == family,
        address_of(word_with_address(family, address)) == address,
{
    assert(((family << 12) | address) >= 0x1000 && ((family << 12) | address) >> 12 == family && ((
    family << 12) | address) & 0xFFF == address) by (bit_vector)
        requires
            0 < family < 16,
            address < 0x1000,
    ;
}

/// The fields of a word made of a family, a register and a byte.
proof fn byte_word_fields(family: u16, x: u8, byte: u8)
    requires
        0 < family < 16,
        x < 16,
    ensures
        word_with_byte(family, x, byte) >= 0x1000,
        family_of(word_with_byte(family, x, byte)) == family,
        x_of(word_with_byte(family, x, byte)) == x,
        byte_of(word_with_byte(family, x, byte)) == byte,
{
    let wide_x = x as u16;
    let wide_byte = byte as u16;
    let word = (family << 12) | (wide_x << 8) | wide_byte;
    assert(word >= 0x1000 && word >> 12 == family && (word >> 8) & 0xF == wide_x && word & 0xFF
        == wide_byte) by (bit_vector)
        requires
            word == (family << 12) | (wide_x << 8) | wide_byte,
            0 < family < 16,
            wide_x < 16,
            wide_byte < 0x100,
    ;
}

/// The fields of a word made of a family, two registers and a nibble.
proof fn nibble_word_fields(family: u16, x: u8, y: u8, n: u8)
    requires
        0 < family < 16,
        x < 16,
        y < 16,
        n < 16,
    ensures
        word_with_nibbles(family, x, y, n) >= 0x1000,
        family_of(word_with_nibbles(family, x, y, n)) == family,
        x_of(word_with_nibbles(family, x, y, n)) == x,
        y_of(word_with_nibbles(family, x, y, n)) == y,
        nibble_of(word_with_nibbles(family, x, y, n)) == n,
{
    let wide_x = x as u16;
    let wide_y = y as u16;
    let wide_n = n as u16;
    let word = (family << 12) | (wide_x << 8) | (wide_y << 4) | wide_n;
    assert(word >= 0x1000 && word >> 12 == family && (word >> 8) & 0xF == wide_x && (word >> 4)
        & 0xF == wide_y && word & 0xF == wide_n) by (bit_vector)
        requires
            word == (family << 12) | (wide_x << 8) | (wide_y << 4) | wide_n,
            0 < family < 16,
            wide_x < 16,
            wide_y < 16,
            wide_n < 16,
    ;
}

/// Every instruction but the unknown one has a word, and decoding that word
/// gives the instruction back.
pub proof fn decoding_inverts_encoding(i: Instruction)
    requires
        i.well_formed(),
        i != Instruction::Unknown,
    ensures
        decoded(encoded(i)) == i,
{
    match i {
        Instruction::Jump { address } => {
            address_word_fields(0x1, address);
        },
        Instruction::Call { address } => {
            address_word_fields(0x2, address);
        },
        Instruction::LoadIndex { address } => {
            address_word_fields(0xA, address);
        },
        Instruction::JumpOffset { address } => {
            address_word_fields(0xB, address);
        },
        Instruction::SkipIfEqual { x, byte } => {
            byte_word_fields(0x3, x, byte);
        },
        Instruction::SkipIfNotEqual { x, byte } => {
            byte_word_fields(0x4, x, byte);
        },
        Instruction::Load { x, byte } => {
            byte_word_fields(0x6, x, byte);
        },
        Instruction::AddByte { x, byte } => {
            byte_word_fields(0x7, x, byte);
        },
        Instruction::Random { x, byte } => {
            byte_word_fields(0xC, x, byte);
        },
        Instruction::SkipIfKey { x } => {
            byte_word_fields(0xE, x, 0x9E);
        },
        Instruction::SkipIfNoKey { x } => {
            byte_word_fields(0xE, x, 0xA1);
        },
        Instruction::ReadDelay { x } => {
            byte_word_fields(0xF, x, 0x07);
        },
        Instruction::WaitKey { x } => {
            byte_word_fields(0xF, x, 0x0A);
        },
        Instruction::SetDelay { x } => {
            byte_word_fields(0xF, x, 0x15);
        },
        Instruction::SetSound { x } => {
            byte_word_fields(0xF, x, 0x18);
        },
        Instruction::AddIndex { x } => {
            byte_word_fields(0xF, x, 0x1E);
        },
        Instruction::FontAddress { x } => {
            byte_word_fields(0xF, x, 0x29);
        },
        Instruction::StoreDecimal { x } => {
            byte_word_fields(0xF, x, 0x33);
        },
        Instruction::StoreRegisters { x } => {
            byte_word_fields(0xF, x, 0x55);
        },
        Instruction::LoadRegisters { x } => {
            byte_word_fields(0xF, x, 0x65);
        },
        Instruction::SkipIfRegistersEqual { x, y } => {
            nibble_word_fields(0x5, x, y, 0);
        },
        Instruction::Copy { x, y } => {
            nibble_word_fields(0x8, x, y, 0x0);
        },
        Instruction::Or { x, y } => {
            nibble_word_fields(0x8, x, y, 0x1);
        },
        Instruction::And { x, y } => {
            nibble_word_fields(0x8, x, y, 0x2);
        },
        Instruction::Xor { x, y } => {
            nibble_word_fields(0x8, x, y, 0x3);
        },
        Instruction::AddRegister { x, y } => {
            nibble_word_fields(0x8, x, y, 0x4);
        },
        Instruction::SubtractRegister { x, y } => {
            nibble_word_fields(0x8, x, y, 0x5);
        },
        Instruction::ShiftRight { x } => {
            nibble_word_fields(0x8, x, 0, 0x6);
        },
        Instruction::SubtractReversed { x, y } => {
            nibble_word_fields(0x8, x, y, 0x7);
        },
        Instruction::ShiftLeft { x } => {
            nibble_word_fields(0x8, x, 0, 0xE);
        },
        Instruction::SkipIfRegistersNotEqual { x, y } => {
            nibble_word_fields(0x9, x, y, 0);
        },
        Instruction::Draw { x, y, rows } => {
            nibble_word_fields(0xD, x, y, rows);
        },
        _ => {},
    }
}

/// The word given to the unknown instruction names nothing.
pub proof fn unknown_word_names_nothing()
    ensures
        decoded(encoded(Instruction::Unknown)) == Instruction::Unknown,
{
    assert(0x0001u16 >> 12 == 0) by (bit_vector);
}

} // verus!
