//! Main memory, ROM images and the return-address stack.

use vstd::prelude::*;

use crate::constants::{MEMORY_SIZE, STACK_SIZE};
use crate::fault::Fault;

verus! {

/// 4 KiB of byte-addressable memory, addresses `0x000..=0xFFF`.
pub struct Memory {
    memory: [u8; MEMORY_SIZE],
}

/// The big-endian 16-bit word made of the bytes at `addr` and `addr + 1`.
pub open spec fn word_at(mem: Seq<u8>, addr: int) -> u16 {
    (mem[addr] as int * 256 + mem[addr + 1] as int) as u16
}

impl View for Memory {
    type V = Seq<u8>;

    closed spec fn view(&self) -> Seq<u8> {
        self.memory@
    }
}

impl Memory {
    /// Memory with every byte zero.
    pub fn new() -> (r: Self)
        ensures
            r@ == Seq::new(MEMORY_SIZE as nat, |_i: int| 0u8),
    {
        let r = Self { memory: [0u8; MEMORY_SIZE] };
        assert(r@ =~= Seq::new(MEMORY_SIZE as nat, |_i: int| 0u8));
        r
    }

    /// The byte at `address`.
    pub fn read(&self, address: u16) -> (r: u8)
        requires
            address < 0x1000,
        ensures
            r == self@[address as int],
    {
        self.memory[address as usize]
    }

    /// The big-endian word at `address`, used to fetch instructions. The
    /// second byte must lie inside memory too.
    pub fn read_u16(&self, address: u16) -> (r: u16)
        requires
            address < 0xFFF,
        ensures
            r == word_at(self@, address as int),
    {
        let hi = self.memory[address as usize] as u16;
        let lo = self.memory[(address + 1) as usize] as u16;
        (hi * 256) + lo
    }

    /// Stores `value` at `address`.
    pub fn write(&mut self, address: u16, value: u8)
        requires
            address < 0x1000,
        ensures
            final(self)@ == old(self)@.update(address as int, value),
    {
        self.memory[address as usize] = value;
    }
}

/// A program image, copied verbatim into memory before execution.
#[allow(non_camel_case_types)]
pub struct rom_file {
    pub data: Vec<u8>,
}

impl rom_file {
    pub fn new(data: Vec<u8>) -> (r: Self)
        ensures
            r.data@ == data@,
    {
        Self { data }
    }

    /// Copies the image into `memory` starting at `start_address`; every
    /// other byte keeps its value. The image must fit below the top of memory.
    pub fn load_to_memory(&self, memory: &mut Memory, start_address: u16)
        requires
            old(memory)@.len() == MEMORY_SIZE,
            start_address as int + self.data@.len() <= MEMORY_SIZE,
        ensures
            final(memory)@.len() == MEMORY_SIZE,
            forall|a: int|
                0 <= a < MEMORY_SIZE ==> #[trigger] final(memory)@[a] == if start_address <= a
                    < start_address + self.data@.len() {
                    self.data@[a - start_address]
                } else {
                    old(memory)@[a]
                },
    {
        let mut i: usize = 0;
        while i < self.data.len()
            invariant
                i <= self.data@.len(),
                start_address as int + self.data@.len() <= MEMORY_SIZE,
                memory@.len() == MEMORY_SIZE,
                forall|a: int|
                    0 <= a < MEMORY_SIZE ==> #[trigger] memory@[a] == if start_address <= a
                        < start_address + i {
                        self.data@[a - start_address]
                    } else {
                        old(memory)@[a]
                    },
            decreases self.data@.len() - i,
        {
            memory.write(start_address + i as u16, self.data[i]);
            i += 1;
        }
    }
}

/// The stack after pushing `value`: it grows by `value` at the top, or, when
/// twelve addresses are already held, the push fails with `StackOverflow`.
pub open spec fn stack_push(s: Seq<u16>, value: u16) -> Result<Seq<u16>, Fault> {
    if s.len() >= STACK_SIZE {
        Err(Fault::StackOverflow)
    } else {
        Ok(s.push(value))
    }
}

/// The stack after a pop and the address popped: the top address comes
/// off; an empty stack stays empty and gives `None`.
pub open spec fn stack_pop(s: Seq<u16>) -> (Seq<u16>, Option<u16>) {
    if s.len() == 0 {
        (s, None)
    } else {
        (s.drop_last(), Some(s.last()))
    }
}

/// Pushing `a` and then `b` onto a stack with room for both, and popping
/// twice, gives back `b`, then `a`, then the stack as it was; popping an
/// empty stack gives `None` and leaves it empty.
pub proof fn lemma_stack_round_trip(s: Seq<u16>, a: u16, b: u16)
    requires
        s.len() + 2 <= STACK_SIZE,
    ensures
        stack_push(s, a) matches Ok(s1) && stack_push(s1, b) matches Ok(s2) && stack_pop(s2) == (
        s1, Some(b)) && stack_pop(s1) == (s, Some(a)),
        stack_pop(Seq::<u16>::empty()) == (Seq::<u16>::empty(), None::<u16>),
{
    assert(s.push(a).push(b).drop_last() =~= s.push(a));
    assert(s.push(a).drop_last() =~= s);
}

/// The return-address stack: at most twelve 16-bit addresses, the most
/// recent last.
pub struct Stack {
    stack: Vec<u16>,
}

impl View for Stack {
    type V = Seq<u16>;

    closed spec fn view(&self) -> Seq<u16> {
        self.stack@
    }
}

impl Stack {
    pub fn new() -> (r: Self)
        ensures
            r@ == Seq::<u16>::empty(),
    {
        Self { stack: Vec::new() }
    }

    /// Removes and returns the most recently pushed address. On an empty
    /// stack it returns `None` and leaves the stack as it was.
    pub fn pop(&mut self) -> (r: Option<u16>)
        ensures
            (final(self)@, r) == stack_pop(old(self)@),
    {
        self.stack.pop()
    }

    /// Pushes `value`, or fails with `StackOverflow` when twelve addresses
    /// are already held, leaving the stack as it was.
    pub fn push(&mut self, value: u16) -> (r: Result<(), Fault>)
        ensures
            match stack_push(old(self)@, value) {
                Ok(s) => r is Ok && final(self)@ == s,
                Err(f) => r == Err::<(), Fault>(f) && final(self)@ == old(self)@,
            },
    {
        if self.stack.len() >= STACK_SIZE {
            Err(Fault::StackOverflow)
        } else {
            self.stack.push(value);
            Ok(())
        }
    }

    /// The number of addresses held.
    pub fn depth(&self) -> (r: usize)
        ensures
            r == self@.len(),
    {
        self.stack.len()
    }
}

} // verus!
