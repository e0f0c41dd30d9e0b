//! The processor: the register file, the timers, the stack pointer, the index
//! register and the instruction pointer, and the cycle that fetches a word
//! from memory, decodes it and executes it.
//!
//! The display, the keypad and the random source belong to the host. An
//! instruction that needs one of them ends the cycle with a request; the host
//! does its part and hands the answer to [`Cpu::deliver`].

use vstd::prelude::*;
use crate::fault::Fault;
use crate::instruction::{decode, decoded, Instruction};
use crate::memory::{Memory, MemoryState, MAX_MEMORY_ADDRESS, STACK_DEPTH};
use crate::register::Register;
use crate::unsigned::UnsignedNum;

verus! {

/// The address at which execution of a loaded program starts.
pub const BIN_INSTRUCTION_START_ADDRESS: u16 = 0x200;

/// The number of bytes of one instruction.
pub const INSTRUCTION_SIZE_BYTES: u16 = 2;

/// The number of bytes of one font sprite; the sprite of digit `d` starts at
/// address `5 * d`.
pub const FONT_SPRITE_BYTES: u16 = 5;

/// What a processor holds, as plain values.
pub struct CpuState {
    /// The 16 general-purpose registers.
    pub registers: Seq<u8>,
    /// The carry/flag register.
    pub flag: u8,
    /// The delay timer.
    pub delay: u8,
    /// The sound timer.
    pub sound: u8,
    /// The number of return addresses on the stack.
    pub stack_pointer: u8,
    /// The address of the next instruction.
    pub instruction_pointer: u16,
    /// The index register.
    pub index: u16,
}

/// How a cycle ended, and what the host has to do before the next one.
#[derive(Clone, Copy, Debug, PartialEq, Eq, Structural)]
pub enum Outcome {
    /// The halt sentinel was fetched: execution is over.
    Halted,
    /// The instruction is done; the next can be fetched.
    Continue,
    /// The host clears the display.
    ClearDisplay,
    /// The host draws the `rows` bytes at `address` as a sprite at (`x`, `y`)
    /// and delivers 1 if a pixel was erased, else 0.
    Draw { x: u8, y: u8, address: u16, rows: u8 },
    /// The host delivers a random byte for register `register`.
    Random { register: u8, mask: u8 },
    /// The host delivers 1 if key `key` is down, else 0.
    KeyQuery { key: u8, skip_if_pressed: bool },
    /// The host waits for a key and delivers it for register `register`.
    KeyWait { register: u8 },
}

/// The processor and the memory after some execution, with its result.
pub struct Step {
    pub cpu: CpuState,
    pub memory: MemoryState,
    pub result: Result<Outcome, Fault>,
}

impl Outcome {
    /// A register that the host is to deliver a value for is one of the 16.
    pub open spec fn well_formed(self) -> bool {
        match self {
            Outcome::Random { register, .. } => register < 16,
            Outcome::KeyWait { register } => register < 16,
            _ => true,
        }
    }

    /// Whether an answer to this request can be delivered: whether it is
    /// well formed.
    pub fn is_deliverable(&self) -> (r: bool)
        ensures
            r == self.well_formed(),
    {
        match self {
            Outcome::Random { register, .. } => *register < 16,
            Outcome::KeyWait { register } => *register < 16,
            _ => true,
        }
    }
}

impl CpuState {
    /// This state with `value` in register `x`.
    pub open spec fn with_register(self, x: int, value: u8) -> CpuState {
        CpuState { registers: self.registers.update(x, value), ..self }
    }

    /// This state with the instruction pointer at `next`.
    pub open spec fn at(self, next: u16) -> CpuState {
        CpuState { instruction_pointer: next, ..self }
    }

    /// This state with every general-purpose register at zero: what it holds
    /// beside them.
    pub open spec fn at_rest(self) -> CpuState {
        CpuState { registers: Seq::new(16, |i: int| 0u8), ..self }
    }

    /// This state with `flag` in the flag register.
    pub open spec fn with_flag(self, flag: u8) -> CpuState {
        CpuState { flag, ..self }
    }
}

/// The state of a new processor: everything is zero.
pub open spec fn initial() -> CpuState {
    CpuState {
        registers: Seq::new(16, |i: int| 0u8),
        flag: 0,
        delay: 0,
        sound: 0,
        stack_pointer: 0,
        instruction_pointer: 0,
        index: 0,
    }
}

/// A number reduced to 16 bits.
pub open spec fn wrapped16(n: int) -> u16 {
    (n % 0x1_0000) as u16
}

/// A number reduced to 8 bits.
pub open spec fn wrapped8(n: int) -> u8 {
    (n % 0x100) as u8
}

/// The instruction word at `pointer`: the byte there is its high byte, the
/// next its low byte. A word that would reach beyond the memory is a fault.
pub open spec fn fetched(pointer: u16, bytes: Seq<u8>) -> Result<u16, Fault> {
    if pointer + INSTRUCTION_SIZE_BYTES <= MAX_MEMORY_ADDRESS {
        Ok((bytes[pointer as int] * 0x100 + bytes[pointer + 1]) as u16)
    } else {
        Err(Fault::AddressOutOfBounds)
    }
}

/// Where the instruction sends the instruction pointer: a jump, call or
/// return names the address, a skip whose condition holds passes over one
/// instruction, and everything else goes on with the next instruction. A
/// return with nothing to return to is a fault.
pub open spec fn destination(c: CpuState, m: MemoryState, i: Instruction) -> Result<int, Fault> {
    let next = c.instruction_pointer + INSTRUCTION_SIZE_BYTES;
    let skip = next + INSTRUCTION_SIZE_BYTES;
    match i {
        Instruction::Jump { address } => Ok(address as int),
        Instruction::Call { address } => Ok(address as int),
        Instruction::Return => if 0 < c.stack_pointer <= STACK_DEPTH {
            Ok(m.stack[c.stack_pointer - 1] as int)
        } else {
            Err(Fault::StackUnderflow)
        },
        Instruction::JumpOffset { address } => Ok(address + c.registers[0]),
        Instruction::SkipIfEqual { x, byte } => Ok(
            if c.registers[x as int] == byte {
                skip
            } else {
                next
            },
        ),
        Instruction::SkipIfNotEqual { x, byte } => Ok(
            if c.registers[x as int] != byte {
                skip
            } else {
                next
            },
        ),
        Instruction::SkipIfRegistersEqual { x, y } => Ok(
            if c.registers[x as int] == c.registers[y as int] {
                skip
            } else {
                next
            },
        ),
        Instruction::SkipIfRegistersNotEqual { x, y } => Ok(
            if c.registers[x as int] != c.registers[y as int] {
                skip
            } else {
                next
            },
        ),
        _ => Ok(next),
    }
}

/// The destination as an instruction pointer. One at which no whole
/// instruction lies within the memory is a fault.
pub open spec fn checked_destination(c: CpuState, m: MemoryState, i: Instruction) -> Result<
    u16,
    Fault,
> {
    match destination(c, m, i) {
        Err(fault) => Err(fault),
        Ok(target) => if target + INSTRUCTION_SIZE_BYTES <= MAX_MEMORY_ADDRESS {
            Ok(target as u16)
        } else {
            Err(Fault::AddressOutOfBounds)
        },
    }
}

/// A step that succeeded.
pub open spec fn done(cpu: CpuState, memory: MemoryState, outcome: Outcome) -> Step {
    Step { cpu, memory, result: Ok(outcome) }
}

/// A step that failed: nothing changes.
pub open spec fn failed(cpu: CpuState, memory: MemoryState, fault: Fault) -> Step {
    Step { cpu, memory, result: Err(fault) }
}

/// What a load or an arithmetic instruction does to the registers and the
/// flag.
pub open spec fn computed(c: CpuState, i: Instruction) -> CpuState {
    match i {
        Instruction::Load { x, byte } => c.with_register(x as int, byte),
        Instruction::AddByte { x, byte } => c.with_register(
            x as int,
            wrapped8(c.registers[x as int] + byte),
        ),
        Instruction::Copy { x, y } => c.with_register(x as int, c.registers[y as int]),
        Instruction::Or { x, y } => c.with_register(
            x as int,
            c.registers[x as int] | c.registers[y as int],
        ),
        Instruction::And { x, y } => c.with_register(
            x as int,
            c.registers[x as int] & c.registers[y as int],
        ),
        Instruction::Xor { x, y } => c.with_register(
            x as int,
            c.registers[x as int] ^ c.registers[y as int],
        ),
        Instruction::AddRegister { x, y } => c.with_register(
            x as int,
            wrapped8(c.registers[x as int] + c.registers[y as int]),
        ).with_flag(
            if c.registers[x as int] + c.registers[y as int] <= 255 {
                1
            } else {
                0
            },
        ),
        Instruction::SubtractRegister { x, y } => c.with_register(
            x as int,
            wrapped8(c.registers[x as int] - c.registers[y as int]),
        ).with_flag(
            if c.registers[y as int] > c.registers[x as int] {
                1
            } else {
                0
            },
        ),
        Instruction::ShiftRight { x } => c.with_register(
            x as int,
            c.registers[x as int] >> 1u8,
        ).with_flag(c.registers[x as int] & 1),
        Instruction::SubtractReversed { x, y } => c.with_register(
            x as int,
            wrapped8(c.registers[y as int] - c.registers[x as int]),
        ).with_flag(
            if c.registers[x as int] > c.registers[y as int] {
                1
            } else {
                0
            },
        ),
        Instruction::ShiftLeft { x } => c.with_register(
            x as int,
            c.registers[x as int] << 1u8,
        ).with_flag(c.registers[x as int] >> 7u8),
        Instruction::ReadDelay { x } => c.with_register(x as int, c.delay),
        Instruction::SetDelay { x } => CpuState { delay: c.registers[x as int], ..c },
        Instruction::SetSound { x } => CpuState { sound: c.registers[x as int], ..c },
        Instruction::LoadIndex { address } => CpuState { index: address, ..c },
        Instruction::AddIndex { x } => CpuState {
            index: wrapped16(c.index + c.registers[x as int]),
            ..c
        },
        Instruction::FontAddress { x } => CpuState {
            index: (FONT_SPRITE_BYTES * (c.registers[x as int] % 16)) as u16,
            ..c
        },
        _ => c,
    }
}

/// The bytes of a memory after registers 0 to `x` were stored from address
/// `index` on.
pub open spec fn registers_stored(bytes: Seq<u8>, registers: Seq<u8>, index: int, x: int) -> Seq<
    u8,
> {
    Seq::new(
        bytes.len(),
        |a: int|
            if index <= a <= index + x {
                registers[a - index]
            } else {
                bytes[a]
            },
    )
}

/// The registers after registers 0 to `x` were loaded from address `index`
/// on.
pub open spec fn registers_loaded(registers: Seq<u8>, bytes: Seq<u8>, index: int, x: int) -> Seq<
    u8,
> {
    Seq::new(
        registers.len(),
        |r: int|
            if r <= x {
                bytes[index + r]
            } else {
                registers[r]
            },
    )
}

/// What an instruction does, given the instruction pointer that follows it.
pub open spec fn effect(c: CpuState, m: MemoryState, i: Instruction, next: u16) -> Step {
    match i {
        Instruction::Halt => done(c, m, Outcome::Halted),
        Instruction::ClearDisplay => done(c.at(next), m, Outcome::ClearDisplay),
        Instruction::Return => done(
            CpuState { stack_pointer: (c.stack_pointer - 1) as u8, ..c }.at(next),
            m,
            Outcome::Continue,
        ),
        Instruction::Call { address } => if c.stack_pointer < STACK_DEPTH {
            done(
                CpuState { stack_pointer: (c.stack_pointer + 1) as u8, ..c }.at(next),
                MemoryState {
                    stack: m.stack.update(
                        c.stack_pointer as int,
                        wrapped16(c.instruction_pointer + INSTRUCTION_SIZE_BYTES),
                    ),
                    ..m
                },
                Outcome::Continue,
            )
        } else {
            failed(c, m, Fault::StackOverflow)
        },
        Instruction::Random { x, byte } => done(
            c.at(next),
            m,
            Outcome::Random { register: x, mask: byte },
        ),
        Instruction::Draw { x, y, rows } => if c.index + rows <= MAX_MEMORY_ADDRESS {
            done(
                c.at(next),
                m,
                Outcome::Draw {
                    x: c.registers[x as int],
                    y: c.registers[y as int],
                    address: c.index,
                    rows,
                },
            )
        } else {
            failed(c, m, Fault::AddressOutOfBounds)
        },
        Instruction::SkipIfKey { x } => done(
            c.at(next),
            m,
            Outcome::KeyQuery { key: c.registers[x as int], skip_if_pressed: true },
        ),
        Instruction::SkipIfNoKey { x } => done(
            c.at(next),
            m,
            Outcome::KeyQuery { key: c.registers[x as int], skip_if_pressed: false },
        ),
        Instruction::WaitKey { x } => done(c.at(next), m, Outcome::KeyWait { register: x }),
        Instruction::StoreDecimal { x } => if c.index + 2 < MAX_MEMORY_ADDRESS {
            done(
                c.at(next),
                MemoryState {
                    bytes: m.bytes.update(c.index as int, c.registers[x as int] / 100).update(
                        c.index + 1,
                        (c.registers[x as int] / 10) % 10,
                    ).update(c.index + 2, c.registers[x as int] % 10),
                    ..m
                },
                Outcome::Continue,
            )
        } else {
            failed(c, m, Fault::AddressOutOfBounds)
        },
        Instruction::StoreRegisters { x } => if c.index + x < MAX_MEMORY_ADDRESS {
            done(
                c.at(next),
                MemoryState {
                    bytes: registers_stored(m.bytes, c.registers, c.index as int, x as int),
                    ..m
                },
                Outcome::Continue,
            )
        } else {
            failed(c, m, Fault::AddressOutOfBounds)
        },
        Instruction::LoadRegisters { x } => if c.index + x < MAX_MEMORY_ADDRESS {
            done(
                CpuState {
                    registers: registers_loaded(c.registers, m.bytes, c.index as int, x as int),
                    ..c
                }.at(next),
                m,
                Outcome::Continue,
            )
        } else {
            failed(c, m, Fault::AddressOutOfBounds)
        },
        _ => done(computed(c, i).at(next), m, Outcome::Continue),
    }
}

/// The processor and the memory after one instruction. The halt sentinel
/// changes nothing. A fault changes nothing either.
pub open spec fn executed(c: CpuState, m: MemoryState, i: Instruction) -> Step {
    if i == Instruction::Halt {
        done(c, m, Outcome::Halted)
    } else {
        match checked_destination(c, m, i) {
            Err(fault) => failed(c, m, fault),
            Ok(next) => effect(c, m, i, next),
        }
    }
}

/// One cycle: fetch at the instruction pointer, decode, execute.
pub open spec fn cycled(c: CpuState, m: MemoryState) -> Step {
    match fetched(c.instruction_pointer, m.bytes) {
        Err(fault) => failed(c, m, fault),
        Ok(word) => executed(c, m, decoded(word)),
    }
}

/// Up to `cycles` cycles: execution goes on while a cycle ends with
/// `Continue`, and stops at the first that ends otherwise.
pub open spec fn ran(c: CpuState, m: MemoryState, cycles: nat) -> Step
    decreases cycles,
{
    if cycles == 0 {
        done(c, m, Outcome::Continue)
    } else {
        let step = cycled(c, m);
        if step.result == Ok::<Outcome, Fault>(Outcome::Continue) {
            ran(step.cpu, step.memory, (cycles - 1) as nat)
        } else {
            step
        }
    }
}

/// The processor after the host's answer to a request: a collision sets the
/// flag, a random byte is masked into its register, a key query whose answer
/// matches skips one instruction, an awaited key goes to its register. A skip
/// to where no whole instruction lies within the memory is a fault.
pub open spec fn delivered(c: CpuState, request: Outcome, reply: u8) -> (CpuState, Result<(), Fault>) {
    match request {
        Outcome::Draw { .. } => (c.with_flag(if reply != 0 { 1 } else { 0 }), Ok(())),
        Outcome::Random { register, mask } => (c.with_register(register as int, reply & mask), Ok(())),
        Outcome::KeyQuery { key, skip_if_pressed } => if (reply != 0) == skip_if_pressed {
            if c.instruction_pointer + 2 * INSTRUCTION_SIZE_BYTES <= MAX_MEMORY_ADDRESS {
                (c.at((c.instruction_pointer + INSTRUCTION_SIZE_BYTES) as u16), Ok(()))
            } else {
                (c, Err(Fault::AddressOutOfBounds))
            }
        } else {
            (c, Ok(()))
        },
        Outcome::KeyWait { register } => (c.with_register(register as int, reply), Ok(())),
        _ => (c, Ok(())),
    }
}

/// The processor after one tick of the timer clock.
pub open spec fn ticked(c: CpuState) -> CpuState {
    CpuState {
        delay: if c.delay > 0 {
            (c.delay - 1) as u8
        } else {
            0
        },
        sound: if c.sound > 0 {
            (c.sound - 1) as u8
        } else {
            0
        },
        ..c
    }
}

/// Whether the instruction itself says where execution goes on: a jump, a
/// call, a return or a conditional skip.
pub open spec fn redirects(i: Instruction) -> bool {
    i is Jump || i is Call || i is Return || i is JumpOffset || i is SkipIfEqual
        || i is SkipIfNotEqual || i is SkipIfRegistersEqual || i is SkipIfRegistersNotEqual
}

/// A fault leaves the processor and the memory as they were.
pub proof fn fault_changes_nothing(c: CpuState, m: MemoryState, i: Instruction)
    requires
        executed(c, m, i).result is Err,
    ensures
        executed(c, m, i).cpu == c,
        executed(c, m, i).memory == m,
{
}

/// An instruction that succeeds and is neither the halt sentinel nor a jump,
/// call, return or skip moves the instruction pointer on by exactly 2.
pub proof fn plain_instruction_advances_by_two(c: CpuState, m: MemoryState, i: Instruction)
    requires
        i != Instruction::Halt,
        !redirects(i),
        executed(c, m, i).result is Ok,
    ensures
        executed(c, m, i).cpu.instruction_pointer == c.instruction_pointer + INSTRUCTION_SIZE_BYTES,
{
}

/// After an instruction that succeeds and is not the halt sentinel, a whole
/// instruction lies within the memory at the instruction pointer.
pub proof fn pointer_stays_fetchable(c: CpuState, m: MemoryState, i: Instruction)
    requires
        i != Instruction::Halt,
        executed(c, m, i).result is Ok,
    ensures
        executed(c, m, i).cpu.instruction_pointer + INSTRUCTION_SIZE_BYTES <= MAX_MEMORY_ADDRESS,
{
}

/// The stack pointer never passes the depth of the stack, and no
/// instruction changes the size of the register file, of the memory or of
/// the stack.
pub proof fn sizes_are_kept(c: CpuState, m: MemoryState, i: Instruction)
    requires
        c.stack_pointer <= STACK_DEPTH,
        c.registers.len() == 16,
        m.bytes.len() == MAX_MEMORY_ADDRESS,
        m.stack.len() == STACK_DEPTH,
        i.well_formed(),
    ensures
        executed(c, m, i).cpu.stack_pointer <= STACK_DEPTH,
        executed(c, m, i).cpu.registers.len() == 16,
        executed(c, m, i).memory.bytes.len() == MAX_MEMORY_ADDRESS,
        executed(c, m, i).memory.stack.len() == STACK_DEPTH,
{
}

/// A word that names no instruction does nothing but move the instruction
/// pointer on by 2.
pub proof fn unknown_instruction_is_passed_over(c: CpuState, m: MemoryState)
    requires
        c.instruction_pointer + 2 * INSTRUCTION_SIZE_BYTES <= MAX_MEMORY_ADDRESS,
    ensures
        executed(c, m, Instruction::Unknown) == done(
            c.at((c.instruction_pointer + INSTRUCTION_SIZE_BYTES) as u16),
            m,
            Outcome::Continue,
        ),
{
}

/// Where the word at the instruction pointer is zero, a run of any length
/// halts at once, and the processor and the memory stay as they were.
pub proof fn zero_word_halts_the_run(c: CpuState, m: MemoryState, cycles: nat)
    requires
        cycles > 0,
        fetched(c.instruction_pointer, m.bytes) == Ok::<u16, Fault>(0),
    ensures
        ran(c, m, cycles) == done(c, m, Outcome::Halted),
{
}

/// An addition whose sum is 256 or more leaves the sum less 256 in register
/// `x` and clears the flag; a smaller sum is stored as it is and sets the
/// flag.
pub proof fn addition_reports_carry(c: CpuState, m: MemoryState, x: u8, y: u8)
    requires
        c.registers.len() == 16,
        x < 16,
        y < 16,
        c.instruction_pointer + 2 * INSTRUCTION_SIZE_BYTES <= MAX_MEMORY_ADDRESS,
    ensures
        ({
            let after = executed(c, m, Instruction::AddRegister { x, y }).cpu;
            let sum = c.registers[x as int] + c.registers[y as int];
            &&& after.flag == (if sum <= 255 { 1u8 } else { 0u8 })
            &&& after.registers[x as int] == (if sum <= 255 { sum } else { sum - 256 })
            &&& after.instruction_pointer == c.instruction_pointer + INSTRUCTION_SIZE_BYTES
        }),
{
}

/// The processor.
pub struct Cpu {
    timer_register: Register<u8>,
    sound_register: Register<u8>,
    carry_flag_register: Register<u8>,
    stack_pointer: u8,
    instruction_pointer: u16,
    index_register: u16,
    gp_registers: [Register<u8>; 16],
}

impl View for Cpu {
    type V = CpuState;

    closed spec fn view(&self) -> CpuState {
        CpuState {
            registers: Seq::new(16, |i: int| self.gp_registers@[i].value),
            flag: self.carry_flag_register.value,
            delay: self.timer_register.value,
            sound: self.sound_register.value,
            stack_pointer: self.stack_pointer,
            instruction_pointer: self.instruction_pointer,
            index: self.index_register,
        }
    }
}

impl Cpu {
    /// A processor always has 16 general-purpose registers.
    pub proof fn register_count_is_fixed(&self)
        ensures
            self@.registers.len() == 16,
    {
    }

    /// A processor with every register, timer and pointer at zero.
    pub fn new() -> (cpu: Cpu)
        ensures
            cpu@ == initial(),
    {
        let cpu = Cpu {
            timer_register: Register::new(),
            sound_register: Register::new(),
            carry_flag_register: Register::new(),
            stack_pointer: 0,
            instruction_pointer: 0,
            index_register: 0,
            gp_registers: [
                Register::new(),
                Register::new(),
                Register::new(),
                Register::new(),
                Register::new(),
                Register::new(),
                Register::new(),
                Register::new(),
                Register::new(),
                Register::new(),
                Register::new(),
                Register::new(),
                Register::new(),
                Register::new(),
                Register::new(),
                Register::new(),
            ],
        };
        assert(cpu@.registers =~= initial().registers);
        cpu
    }

    /// General-purpose register `reg_number`, to be changed in place.
    pub fn get_gp_reg(&mut self, reg_number: u16) -> (reg: &mut Register<u8>)
        requires
            reg_number < 16,
        ensures
            reg.value == old(self)@.registers[reg_number as int],
            final(self)@.registers =~= old(self)@.registers.update(
                reg_number as int,
                final(reg).value,
            ),
            final(self)@.at_rest() == old(self)@.at_rest(),
    {
        &mut self.gp_registers[reg_number as usize]
    }

    /// The value of general-purpose register `reg_number`.
    pub fn get_gp_reg_value(&self, reg_number: u16) -> (value: u8)
        requires
            reg_number < 16,
        ensures
            value == self@.registers[reg_number as int],
    {
        self.gp_registers[reg_number as usize].value
    }

    /// The carry/flag register.
    pub fn carry_flag(&self) -> (value: u8)
        ensures
            value == self@.flag,
    {
        self.carry_flag_register.value
    }

    /// The delay timer.
    pub fn delay_timer(&self) -> (value: u8)
        ensures
            value == self@.delay,
    {
        self.timer_register.value
    }

    /// The sound timer.
    pub fn sound_timer(&self) -> (value: u8)
        ensures
            value == self@.sound,
    {
        self.sound_register.value
    }

    /// The number of return addresses on the stack.
    pub fn stack_pointer(&self) -> (value: u8)
        ensures
            value == self@.stack_pointer,
    {
        self.stack_pointer
    }

    /// The address of the next instruction.
    pub fn instruction_pointer(&self) -> (value: u16)
        ensures
            value == self@.instruction_pointer,
    {
        self.instruction_pointer
    }

    /// The index register.
    pub fn index(&self) -> (value: u16)
        ensures
            value == self@.index,
    {
        self.index_register
    }

    /// One tick of the 60 Hz clock: each timer that is not zero goes down by
    /// one.
    pub fn tick_timers(&mut self)
        ensures
            final(self)@ == ticked(old(self)@),
    {
        if self.timer_register.value > 0 {
            let delay: u8 = self.timer_register.value - 1;
            self.timer_register.set(delay);
        }
        if self.sound_register.value > 0 {
            let sound: u8 = self.sound_register.value - 1;
            self.sound_register.set(sound);
        }
    }

    /// Reads the instruction word at the instruction pointer, high byte
    /// first. The processor stays as it is.
    pub fn load_next_instruction(&mut self, memory: &Memory) -> (word: Result<u16, Fault>)
        ensures
            word == fetched(old(self)@.instruction_pointer, memory@.bytes),
            final(self)@ == old(self)@,
    {
        let start_address: usize = self.instruction_pointer as usize;
        let end_address: usize = start_address + INSTRUCTION_SIZE_BYTES as usize;
        if end_address > MAX_MEMORY_ADDRESS {
            return Err(Fault::AddressOutOfBounds);
        }
        proof {
            memory.size_is_fixed();
        }
        let slices = memory.get_values_in_range(start_address..end_address);
        let high: u16 = slices[0] as u16;
        let low: u16 = slices[1] as u16;
        Ok(high * 0x100 + low)
    }

    /// The instruction pointer that follows `instruction`.
    fn next_pointer(&self, memory: &Memory, instruction: Instruction) -> (next: Result<u16, Fault>)
        requires
            instruction.well_formed(),
        ensures
            next == checked_destination(self@, memory@, instruction),
    {
        let following: u32 = self.instruction_pointer as u32 + INSTRUCTION_SIZE_BYTES as u32;
        let skipping: u32 = following + INSTRUCTION_SIZE_BYTES as u32;
        let target: u32 = match instruction {
            Instruction::Jump { address } => address as u32,
            Instruction::Call { address } => address as u32,
            Instruction::Return => match memory.pop_return(self.stack_pointer) {
                Ok(popped) => popped.0 as u32,
                Err(fault) => {
                    return Err(fault);
                },
            },
            Instruction::JumpOffset { address } => address as u32 + self.get_gp_reg_value(0) as u32,
            Instruction::SkipIfEqual { x, byte } => if self.get_gp_reg_value(x as u16) == byte {
                skipping
            } else {
                following
            },
            Instruction::SkipIfNotEqual { x, byte } => if self.get_gp_reg_value(x as u16) != byte {
                skipping
            } else {
                following
            },
            Instruction::SkipIfRegistersEqual { x, y } => if self.get_gp_reg_value(x as u16)
                == self.get_gp_reg_value(y as u16) {
                skipping
            } else {
                following
            },
            Instruction::SkipIfRegistersNotEqual { x, y } => if self.get_gp_reg_value(x as u16)
                != self.get_gp_reg_value(y as u16) {
                skipping
            } else {
                following
            },
            _ => following,
        };
        if target + INSTRUCTION_SIZE_BYTES as u32 <= MAX_MEMORY_ADDRESS as u32 {
            Ok(target as u16)
        } else {
            Err(Fault::AddressOutOfBounds)
        }
    }

    /// Carries out a load or an arithmetic instruction on the registers.
    fn compute(&mut self, instruction: Instruction)
        requires
            instruction.well_formed(),
        ensures
            final(self)@ == computed(old(self)@, instruction),
    {
        match instruction {
            Instruction::Load { x, byte } => {
                self.get_gp_reg(x as u16).set(byte);
            },
            Instruction::AddByte { x, byte } => {
                self.get_gp_reg(x as u16).add(byte);
            },
            Instruction::Copy { x, y } => {
                let vy_value: u8 = self.get_gp_reg_value(y as u16);
                self.get_gp_reg(x as u16).set(vy_value);
            },
            Instruction::Or { x, y } => {
                let vy_value: u8 = self.get_gp_reg_value(y as u16);
                self.get_gp_reg(x as u16).or(vy_value);
            },
            Instruction::And { x, y } => {
                let vy_value: u8 = self.get_gp_reg_value(y as u16);
                self.get_gp_reg(x as u16).and(vy_value);
            },
            Instruction::Xor { x, y } => {
                let vy_value: u8 = self.get_gp_reg_value(y as u16);
                self.get_gp_reg(x as u16).xor(vy_value);
            },
            Instruction::AddRegister { x, y } => {
                let vy_value: u8 = self.get_gp_reg_value(y as u16);
                let cf_value: u8 = self.get_gp_reg(x as u16).add_with_carry(vy_value);
                self.carry_flag_register.set(cf_value);
            },
            Instruction::SubtractRegister { x, y } => {
                let vy_value: u8 = self.get_gp_reg_value(y as u16);
                let cf_value: u8 = self.get_gp_reg(x as u16).sub_with_borrow(vy_value);
                self.carry_flag_register.set(cf_value);
            },
            Instruction::ShiftRight { x } => {
                let vx_value: u8 = self.get_gp_reg_value(x as u16);
                let cf_value: u8 = self.get_gp_reg(x as u16).shr(vx_value, 1);
                assert(cf_value == vx_value.bit_and(1u8));
                self.carry_flag_register.set(cf_value);
            },
            Instruction::SubtractReversed { x, y } => {
                let vx_value: u8 = self.get_gp_reg_value(x as u16);
                let mut difference: Register<u8> = Register::new();
                difference.set(self.get_gp_reg_value(y as u16));
                let cf_value: u8 = difference.sub_with_borrow(vx_value);
                self.get_gp_reg(x as u16).set_from_reg(&difference);
                self.carry_flag_register.set(cf_value);
            },
            Instruction::ShiftLeft { x } => {
                let vx_value: u8 = self.get_gp_reg_value(x as u16);
                self.get_gp_reg(x as u16).set(vx_value << 1u8);
                self.carry_flag_register.set(vx_value >> 7u8);
            },
            Instruction::ReadDelay { x } => {
                let delay: u8 = self.timer_register.value;
                self.get_gp_reg(x as u16).set(delay);
            },
            Instruction::SetDelay { x } => {
                let vx_value: u8 = self.get_gp_reg_value(x as u16);
                self.timer_register.set(vx_value);
            },
            Instruction::SetSound { x } => {
                let vx_value: u8 = self.get_gp_reg_value(x as u16);
                self.sound_register.set(vx_value);
            },
            Instruction::LoadIndex { address } => {
                self.index_register = address;
            },
            Instruction::AddIndex { x } => {
                let vx_value: u8 = self.get_gp_reg_value(x as u16);
                self.index_register = self.index_register.wrapping_add(vx_value as u16);
            },
            Instruction::FontAddress { x } => {
                let vx_value: u8 = self.get_gp_reg_value(x as u16);
                let digit: u16 = (vx_value % 16) as u16;
                assert(FONT_SPRITE_BYTES * digit <= 75);
                self.index_register = FONT_SPRITE_BYTES * digit;
            },
            _ => {},
        }
    }

    /// Stores registers 0 to `x` in memory from the index register on.
    fn store_registers(&self, memory: &mut Memory, x: u8)
        requires
            x < 16,
            self@.index + x < MAX_MEMORY_ADDRESS,
        ensures
            final(memory)@.stack == old(memory)@.stack,
            final(memory)@.bytes == registers_stored(
                old(memory)@.bytes,
                self@.registers,
                self@.index as int,
                x as int,
            ),
    {
        let index: usize = self.index_register as usize;
        let mut r: u8 = 0;
        proof {
            memory.size_is_fixed();
            assert(memory@.bytes =~= registers_stored(
                old(memory)@.bytes,
                self@.registers,
                index as int,
                r - 1,
            ));
        }
        while r <= x
            invariant
                x < 16,
                r <= x + 1,
                index == self@.index,
                index + x < MAX_MEMORY_ADDRESS,
                old(memory)@.bytes.len() == MAX_MEMORY_ADDRESS,
                memory@.stack == old(memory)@.stack,
                memory@.bytes == registers_stored(
                    old(memory)@.bytes,
                    self@.registers,
                    index as int,
                    r - 1,
                ),
            decreases x + 1 - r,
        {
            let value: u8 = self.get_gp_reg_value(r as u16);
            let _ = memory.write_byte(index + r as usize, value);
            assert(memory@.bytes =~= registers_stored(
                old(memory)@.bytes,
                self@.registers,
                index as int,
                r as int,
            ));
            r += 1;
        }
    }

    /// Loads registers 0 to `x` from memory from the index register on.
    fn load_registers(&mut self, memory: &Memory, x: u8)
        requires
            x < 16,
            old(self)@.index + x < MAX_MEMORY_ADDRESS,
        ensures
            final(self)@ == (CpuState {
                registers: registers_loaded(
                    old(self)@.registers,
                    memory@.bytes,
                    old(self)@.index as int,
                    x as int,
                ),
                ..old(self)@
            }),
    {
        let index: usize = self.index_register as usize;
        let mut r: u8 = 0;
        assert(self@.registers =~= registers_loaded(
            old(self)@.registers,
            memory@.bytes,
            index as int,
            r - 1,
        ));
        while r <= x
            invariant
                x < 16,
                r <= x + 1,
                index == old(self)@.index,
                index + x < MAX_MEMORY_ADDRESS,
                self@.at_rest() == old(self)@.at_rest(),
                old(self)@.registers.len() == 16,
                self@.registers == registers_loaded(
                    old(self)@.registers,
                    memory@.bytes,
                    index as int,
                    r - 1,
                ),
            decreases x + 1 - r,
        {
            match memory.read_byte(index + r as usize) {
                Ok(value) => {
                    self.get_gp_reg(r as u16).set(value);
                },
                Err(_) => {},
            }
            assert(self@.registers =~= registers_loaded(
                old(self)@.registers,
                memory@.bytes,
                index as int,
                r as int,
            ));
            r += 1;
        }
    }

    /// Executes one decoded instruction and moves the instruction pointer
    /// on. A fault leaves the processor and the memory as they were.
    pub fn execute(&mut self, memory: &mut Memory, instruction: Instruction) -> (result: Result<
        Outcome,
        Fault,
    >)
        requires
            instruction.well_formed(),
        ensures
            (Step { cpu: final(self)@, memory: final(memory)@, result }) == executed(
                old(self)@,
                old(memory)@,
                instruction,
            ),
            result matches Ok(outcome) ==> outcome.well_formed(),
    {
        if instruction == Instruction::Halt {
            return Ok(Outcome::Halted);
        }
        let next: u16 = match self.next_pointer(memory, instruction) {
            Ok(next) => next,
            Err(fault) => {
                return Err(fault);
            },
        };
        let index: usize = self.index_register as usize;
        let outcome: Outcome = match instruction {
            Instruction::ClearDisplay => Outcome::ClearDisplay,
            Instruction::Return => {
                self.stack_pointer = self.stack_pointer - 1;
                Outcome::Continue
            },
            Instruction::Call { address } => {
                let return_address: u16 = self.instruction_pointer.wrapping_add(
                    INSTRUCTION_SIZE_BYTES,
                );
                match memory.push_return(self.stack_pointer, return_address) {
                    Ok(raised) => {
                        self.stack_pointer = raised;
                    },
                    Err(fault) => {
                        return Err(fault);
                    },
                }
                Outcome::Continue
            },
            Instruction::Random { x, byte } => Outcome::Random { register: x, mask: byte },
            Instruction::Draw { x, y, rows } => {
                if index + rows as usize > MAX_MEMORY_ADDRESS {
                    return Err(Fault::AddressOutOfBounds);
                }
                Outcome::Draw {
                    x: self.get_gp_reg_value(x as u16),
                    y: self.get_gp_reg_value(y as u16),
                    address: self.index_register,
                    rows,
                }
            },
            Instruction::SkipIfKey { x } => Outcome::KeyQuery {
                key: self.get_gp_reg_value(x as u16),
                skip_if_pressed: true,
            },
            Instruction::SkipIfNoKey { x } => Outcome::KeyQuery {
                key: self.get_gp_reg_value(x as u16),
                skip_if_pressed: false,
            },
            Instruction::WaitKey { x } => Outcome::KeyWait { register: x },
            Instruction::StoreDecimal { x } => {
                if index + 2 >= MAX_MEMORY_ADDRESS {
                    return Err(Fault::AddressOutOfBounds);
                }
                let vx_value: u8 = self.get_gp_reg_value(x as u16);
                let _ = memory.write_byte(index, vx_value / 100);
                let _ = memory.write_byte(index + 1, (vx_value / 10) % 10);
                let _ = memory.write_byte(index + 2, vx_value % 10);
                Outcome::Continue
            },
            Instruction::StoreRegisters { x } => {
                if index + x as usize >= MAX_MEMORY_ADDRESS {
                    return Err(Fault::AddressOutOfBounds);
                }
                self.store_registers(memory, x);
                Outcome::Continue
            },
            Instruction::LoadRegisters { x } => {
                if index + x as usize >= MAX_MEMORY_ADDRESS {
                    return Err(Fault::AddressOutOfBounds);
                }
                self.load_registers(memory, x);
                Outcome::Continue
            },
            _ => {
                self.compute(instruction);
                Outcome::Continue
            },
        };
        self.instruction_pointer = next;
        Ok(outcome)
    }

    /// Decodes and executes one instruction word.
    pub fn run_from_instruction(&mut self, memory: &mut Memory, instruction: u16) -> (result:
        Result<Outcome, Fault>)
        ensures
            (Step { cpu: final(self)@, memory: final(memory)@, result }) == executed(
                old(self)@,
                old(memory)@,
                decoded(instruction),
            ),
            result matches Ok(outcome) ==> outcome.well_formed(),
    {
        self.execute(memory, decode(instruction))
    }

    /// One cycle: fetches the word at the instruction pointer and executes
    /// it.
    pub fn cycle(&mut self, memory: &mut Memory) -> (result: Result<Outcome, Fault>)
        ensures
            (Step { cpu: final(self)@, memory: final(memory)@, result }) == cycled(
                old(self)@,
                old(memory)@,
            ),
            result matches Ok(outcome) ==> outcome.well_formed(),
    {
        match self.load_next_instruction(memory) {
            Ok(word) => self.run_from_instruction(memory, word),
            Err(fault) => Err(fault),
        }
    }

    /// Runs from the instruction pointer for at most `max_cycles` cycles.
    /// Execution stops at the halt sentinel, at a fault and at a request to
    /// the host; `Continue` is returned when the cycles are used up.
    pub fn resume(&mut self, memory: &mut Memory, max_cycles: u64) -> (result: Result<
        Outcome,
        Fault,
    >)
        ensures
            (Step { cpu: final(self)@, memory: final(memory)@, result }) == ran(
                old(self)@,
                old(memory)@,
                max_cycles as nat,
            ),
            result matches Ok(outcome) ==> outcome.well_formed(),
    {
        let mut remaining: u64 = max_cycles;
        while remaining > 0
            invariant
                ran(old(self)@, old(memory)@, max_cycles as nat) == ran(
                    self@,
                    memory@,
                    remaining as nat,
                ),
            decreases remaining,
        {
            let result = self.cycle(memory);
            match result {
                Ok(Outcome::Continue) => {
                    remaining -= 1;
                },
                _ => {
                    return result;
                },
            }
        }
        Ok(Outcome::Continue)
    }

    /// Runs a loaded program: sets the instruction pointer to 0x200 and runs
    /// from there, as `resume` does.
    pub fn run_bin(&mut self, memory: &mut Memory, max_cycles: u64) -> (result: Result<
        Outcome,
        Fault,
    >)
        ensures
            (Step { cpu: final(self)@, memory: final(memory)@, result }) == ran(
                old(self)@.at(BIN_INSTRUCTION_START_ADDRESS),
                old(memory)@,
                max_cycles as nat,
            ),
            result matches Ok(outcome) ==> outcome.well_formed(),
    {
        self.instruction_pointer = BIN_INSTRUCTION_START_ADDRESS;
        self.resume(memory, max_cycles)
    }

    /// Takes the host's answer to a request.
    pub fn deliver(&mut self, request: Outcome, reply: u8) -> (result: Result<(), Fault>)
        requires
            request.well_formed(),
        ensures
            (final(self)@, result) == delivered(old(self)@, request, reply),
    {
        match request {
            Outcome::Draw { .. } => {
                self.carry_flag_register.set(if reply != 0 { 1 } else { 0 });
            },
            Outcome::Random { register, mask } => {
                self.get_gp_reg(register as u16).set(reply & mask);
            },
            Outcome::KeyQuery { skip_if_pressed, .. } => {
                if (reply != 0) == skip_if_pressed {
                    if self.instruction_pointer as usize + 2 * INSTRUCTION_SIZE_BYTES as usize
                        > MAX_MEMORY_ADDRESS {
                        return Err(Fault::AddressOutOfBounds);
                    }
                    self.instruction_pointer = self.instruction_pointer + INSTRUCTION_SIZE_BYTES;
                }
            },
            Outcome::KeyWait { register } => {
                self.get_gp_reg(register as u16).set(reply);
            },
            _ => {},
        }
        Ok(())
    }
}

} // verus!
