//! A bus that is nothing but memory: 64 KiB of it, one cell for each address.

use vstd::prelude::*;
use vstd::array::spec_array_update;
use crate::bus::{is_memory_cell, Bus};
use crate::cpu::stack_address;
use crate::stack::stack_is_memory;

verus! {

/// Plain memory over the whole address space. A read returns the byte that
/// was written last at that address and changes nothing.
pub struct Ram {
    pub cells: [u8; 65536],
}

impl Ram {
    /// Memory with every cell zero.
    pub fn new() -> (ram: Self)
        ensures
            forall|addr: u16| ram.peek(addr) == 0,
    {
        Ram { cells: [0;65536] }
    }

    /// Copies `bytes` into memory from `start` on. The bytes must fit below
    /// the end of the address space.
    pub fn load(&mut self, start: u16, bytes: &[u8])
        requires
            start + bytes@.len() <= 0x1_0000,
        ensures
            forall|addr: u16|
                final(self).peek(addr) == if start <= addr < start + bytes@.len() {
                    bytes@[addr - start]
                } else {
                    old(self).peek(addr)
                },
    {
        let first = start as usize;
        let mut i: usize = 0;
        while i < bytes.len()
            invariant
                i <= bytes@.len(),
                first == start,
                first + bytes@.len() <= 0x1_0000,
                forall|addr: u16|
                    self.peek(addr) == if start <= addr < start + i {
                        bytes@[addr - start]
                    } else {
                        old(self).peek(addr)
                    },
            decreases bytes@.len() - i,
        {
            let ghost before = *self;
            self.cells[first + i] = bytes[i];
            assert(self.cells@ == before.cells@.update(first + i, bytes@[i as int]));
            assert forall|addr: u16|
                self.peek(addr) == if start <= addr < start + i + 1 {
                    bytes@[addr - start]
                } else {
                    old(self).peek(addr)
                } by {
                assert(self.cells@[addr as int] == if addr == first + i {
                    bytes@[i as int]
                } else {
                    before.cells@[addr as int]
                });
                assert(before.peek(addr) == before.cells@[addr as int]);
            }
            i += 1;
        }
    }
}

impl Bus for Ram {
    open spec fn peek(&self, addr: u16) -> u8 {
        self.cells[addr as int]
    }

    open spec fn after_read(&self, addr: u16) -> Self {
        *self
    }

    open spec fn after_write(&self, addr: u16, value: u8) -> Self {
        Ram { cells: spec_array_update(self.cells, addr as int, value) }
    }

    fn read(&mut self, addr: u16) -> (value: u8) {
        self.cells[addr as usize]
    }

    fn write(&mut self, addr: u16, value: u8) {
        self.cells[addr as usize] = value;
        assert(self.cells =~= spec_array_update(old(self).cells, addr as int, value));
    }
}

/// Every address of a `Ram` is a memory cell, those of the stack page too.
pub proof fn lemma_ram_is_memory(addr: u16)
    ensures
        is_memory_cell::<Ram>(addr),
        stack_is_memory::<Ram>(),
{
    assert forall|sp: u8| is_memory_cell::<Ram>(#[trigger] stack_address(sp)) by {}
}

} // verus!
