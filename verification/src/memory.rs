//! The 4096-byte address space and the 16-slot stack of return addresses.

use vstd::prelude::*;
use crate::fault::Fault;
use crate::rom::Rom;
use std::ops::Range;

verus! {

/// The number of addressable bytes.
pub const MAX_MEMORY_ADDRESS: usize = 4096;

/// The address at which a program begins; the bytes below it are reserved.
pub const PROGRAM_START_ADDRESS: usize = 0x200;

/// The number of return addresses that the stack holds.
pub const STACK_DEPTH: usize = 16;

/// What a memory holds, as plain sequences.
pub struct MemoryState {
    /// The 4096 addressable bytes.
    pub bytes: Seq<u8>,
    /// The 16 stack slots.
    pub stack: Seq<u16>,
}

/// The address space and the stack of return addresses.
#[derive(Debug)]
pub struct Memory {
    addressable_storage: [u8; MAX_MEMORY_ADDRESS],
    stack: [u16; STACK_DEPTH],
}

/// The bytes of a memory into which `rom` was loaded over `bytes`: the
/// program area holds the leading bytes of `rom`, as many as fit, and every
/// other address keeps its byte.
pub open spec fn loaded(bytes: Seq<u8>, rom: Seq<u8>) -> Seq<u8> {
    Seq::new(
        bytes.len(),
        |i: int|
            if PROGRAM_START_ADDRESS <= i < PROGRAM_START_ADDRESS + rom.len() {
                rom[i - PROGRAM_START_ADDRESS]
            } else {
                bytes[i]
            },
    )
}

/// The contents of a new memory: every byte and every stack slot is zero.
pub open spec fn zeroed() -> MemoryState {
    MemoryState {
        bytes: Seq::new(MAX_MEMORY_ADDRESS as nat, |i: int| 0u8),
        stack: Seq::new(STACK_DEPTH as nat, |i: int| 0u16),
    }
}

impl View for Memory {
    type V = MemoryState;

    closed spec fn view(&self) -> MemoryState {
        MemoryState { bytes: self.addressable_storage@, stack: self.stack@ }
    }
}

/// Loading a program of at most 3584 bytes into a zero-filled memory puts its
/// bytes, unchanged, at the addresses from 0x200 on, and every other byte
/// stays zero.
pub proof fn program_is_placed_unchanged(rom: Seq<u8>)
    requires
        rom.len() <= MAX_MEMORY_ADDRESS - PROGRAM_START_ADDRESS,
    ensures
        loaded(zeroed().bytes, rom).len() == MAX_MEMORY_ADDRESS,
        forall|i: int|
            0 <= i < rom.len() ==> loaded(zeroed().bytes, rom)[PROGRAM_START_ADDRESS + i] == rom[i],
        forall|a: int|
            0 <= a < PROGRAM_START_ADDRESS || PROGRAM_START_ADDRESS + rom.len() <= a
                < MAX_MEMORY_ADDRESS ==> loaded(zeroed().bytes, rom)[a] == 0,
{
}

/// Loading a program of any length keeps the memory at 4096 bytes and the
/// reserved bytes as they were; of a program longer than 3584 bytes exactly
/// the first 3584 are stored.
pub proof fn long_program_is_cut_off(bytes: Seq<u8>, rom: Seq<u8>)
    requires
        bytes.len() == MAX_MEMORY_ADDRESS,
    ensures
        loaded(bytes, rom).len() == MAX_MEMORY_ADDRESS,
        loaded(bytes, rom).subrange(0, PROGRAM_START_ADDRESS as int) == bytes.subrange(
            0,
            PROGRAM_START_ADDRESS as int,
        ),
        rom.len() >= MAX_MEMORY_ADDRESS - PROGRAM_START_ADDRESS ==> loaded(bytes, rom).subrange(
            PROGRAM_START_ADDRESS as int,
            MAX_MEMORY_ADDRESS as int,
        ) == rom.subrange(0, MAX_MEMORY_ADDRESS - PROGRAM_START_ADDRESS),
{
    assert(loaded(bytes, rom).subrange(0, PROGRAM_START_ADDRESS as int) =~= bytes.subrange(
        0,
        PROGRAM_START_ADDRESS as int,
    ));
    if rom.len() >= MAX_MEMORY_ADDRESS - PROGRAM_START_ADDRESS {
        assert(loaded(bytes, rom).subrange(
            PROGRAM_START_ADDRESS as int,
            MAX_MEMORY_ADDRESS as int,
        ) =~= rom.subrange(0, MAX_MEMORY_ADDRESS - PROGRAM_START_ADDRESS));
    }
}

impl Memory {
    /// A memory always has 4096 bytes and 16 stack slots.
    pub proof fn size_is_fixed(&self)
        ensures
            self@.bytes.len() == MAX_MEMORY_ADDRESS,
            self@.stack.len() == STACK_DEPTH,
    {
    }

    /// A zero-filled memory.
    pub fn new() -> (memory: Memory)
        ensures
            memory@ == zeroed(),
    {
        let memory = Memory { addressable_storage: [0; MAX_MEMORY_ADDRESS], stack: [0; STACK_DEPTH] };
        assert(memory@.bytes =~= zeroed().bytes);
        assert(memory@.stack =~= zeroed().stack);
        memory
    }

    /// Copies the program into the memory from address 0x200 on. Bytes of the
    /// program that do not fit below address 4096 are dropped.
    pub fn load_rom(&mut self, rom: Rom)
        ensures
            final(self)@.bytes == loaded(old(self)@.bytes, rom.content@),
            final(self)@.stack == old(self)@.stack,
    {
        let mut address: usize = PROGRAM_START_ADDRESS;
        while address < MAX_MEMORY_ADDRESS && address - PROGRAM_START_ADDRESS < rom.content.len()
            invariant
                PROGRAM_START_ADDRESS <= address <= MAX_MEMORY_ADDRESS,
                address - PROGRAM_START_ADDRESS <= rom.content@.len(),
                self.stack == old(self).stack,
                forall|i: int|
                    0 <= i < MAX_MEMORY_ADDRESS ==> #[trigger] self.addressable_storage@[i] == (if
                        PROGRAM_START_ADDRESS <= i < address {
                        rom.content@[i - PROGRAM_START_ADDRESS]
                    } else {
                        old(self).addressable_storage@[i]
                    }),
            decreases MAX_MEMORY_ADDRESS - address,
        {
            self.addressable_storage[address] = rom.content[address - PROGRAM_START_ADDRESS];
            address += 1;
        }
        assert(self@.bytes =~= loaded(old(self)@.bytes, rom.content@));
    }

    /// The bytes at the addresses from `address.start` up to, not including,
    /// `address.end`.
    pub fn get_values_in_range(&self, address: Range<usize>) -> (values: &[u8])
        requires
            address.start <= address.end <= MAX_MEMORY_ADDRESS,
        ensures
            values@ == self@.bytes.subrange(address.start as int, address.end as int),
    {
        &self.addressable_storage[address]
    }

    /// The byte at `address`; an address of 4096 or more is a fault.
    pub fn read_byte(&self, address: usize) -> (r: Result<u8, Fault>)
        ensures
            r == (if address < MAX_MEMORY_ADDRESS {
                Ok::<u8, Fault>(self@.bytes[address as int])
            } else {
                Err(Fault::AddressOutOfBounds)
            }),
    {
        if address < MAX_MEMORY_ADDRESS {
            Ok(self.addressable_storage[address])
        } else {
            Err(Fault::AddressOutOfBounds)
        }
    }

    /// Stores `value` at `address`; an address of 4096 or more is a fault and
    /// leaves the memory as it was.
    pub fn write_byte(&mut self, address: usize, value: u8) -> (r: Result<(), Fault>)
        ensures
            final(self)@.stack == old(self)@.stack,
            address < MAX_MEMORY_ADDRESS ==> r == Ok::<(), Fault>(()) && final(self)@.bytes == old(self)@.bytes.update(address as int, value),
            address >= MAX_MEMORY_ADDRESS ==> r == Err::<(), Fault>(Fault::AddressOutOfBounds)
                && final(self)@ == old(self)@,
    {
        if address < MAX_MEMORY_ADDRESS {
            self.addressable_storage[address] = value;
            assert(self@.bytes =~= old(self)@.bytes.update(address as int, value));
            Ok(())
        } else {
            Err(Fault::AddressOutOfBounds)
        }
    }

    /// Stores a return address in the slot that `stack_pointer` names and
    /// returns the stack pointer raised by one. A full stack is a fault and
    /// leaves the memory as it was.
    pub fn push_return(&mut self, stack_pointer: u8, address: u16) -> (r: Result<u8, Fault>)
        ensures
            final(self)@.bytes == old(self)@.bytes,
            stack_pointer < STACK_DEPTH ==> r == Ok::<u8, Fault>((stack_pointer + 1) as u8)
                && final(self)@.stack == old(self)@.stack.update(stack_pointer as int, address),
            stack_pointer >= STACK_DEPTH ==> r == Err::<u8, Fault>(Fault::StackOverflow) && final(self)@ == old(self)@,
    {
        if (stack_pointer as usize) < STACK_DEPTH {
            self.stack[stack_pointer as usize] = address;
            assert(self@.stack =~= old(self)@.stack.update(stack_pointer as int, address));
            Ok(stack_pointer + 1)
        } else {
            Err(Fault::StackOverflow)
        }
    }

    /// The return address below `stack_pointer`, with the stack pointer
    /// lowered by one. An empty stack, or a stack pointer beyond the stack,
    /// is a fault.
    pub fn pop_return(&self, stack_pointer: u8) -> (r: Result<(u16, u8), Fault>)
        ensures
            r == (if 0 < stack_pointer <= STACK_DEPTH {
                Ok::<(u16, u8), Fault>(
                    (self@.stack[stack_pointer - 1], (stack_pointer - 1) as u8),
                )
            } else {
                Err(Fault::StackUnderflow)
            }),
    {
        if 0 < stack_pointer && (stack_pointer as usize) <= STACK_DEPTH {
            Ok((self.stack[(stack_pointer - 1) as usize], stack_pointer - 1))
        } else {
            Err(Fault::StackUnderflow)
        }
    }
}

} // verus!
