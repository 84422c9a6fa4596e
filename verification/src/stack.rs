//! The stack as a whole: what sequences of pushes and pops do.

use vstd::prelude::*;
use crate::bus::{is_memory_cell, Bus};
use crate::cpu::{stack_address, Cpu6502};

verus! {

/// Whether the stack page behaves as memory on every bus of the type `B`.
pub open spec fn stack_is_memory<B: Bus>() -> bool {
    forall|sp: u8| is_memory_cell::<B>(#[trigger] stack_address(sp))
}

/// The stack pointer that lies `count` cells away from `sp`, modulo 256:
/// below it for a positive count, above it for a negative one.
pub open spec fn stack_pointer_below(sp: u8, count: int) -> u8 {
    ((sp - count) % 0x100) as u8
}

impl<B: Bus> Cpu6502<B> {
    /// The core after the bytes of a sequence were pushed, the first byte
    /// first.
    pub open spec fn spec_push_all(self, values: Seq<u8>) -> Self
        decreases values.len(),
    {
        if values.len() == 0 {
            self
        } else {
            self.spec_push_all(values.drop_last()).spec_stack_push(values.last())
        }
    }

    /// The core after `count` pops, and the bytes popped, the first byte
    /// first.
    pub open spec fn spec_pop_all(self, count: nat) -> (Self, Seq<u8>)
        decreases count,
    {
        if count == 0 {
            (self, Seq::empty())
        } else {
            let (after, value) = self.spec_stack_pop();
            let (end, rest) = after.spec_pop_all((count - 1) as nat);
            (end, seq![value] + rest)
        }
    }
}

/// Pushes move the stack pointer down by their number, modulo 256, and touch
/// neither registers nor program counter.
pub proof fn lemma_push_all_moves_sp<B: Bus>(cpu: Cpu6502<B>, values: Seq<u8>)
    ensures
        cpu.spec_push_all(values).sp == stack_pointer_below(cpu.sp, values.len() as int),
        cpu.spec_push_all(values).reg == cpu.reg,
        cpu.spec_push_all(values).pc == cpu.pc,
    decreases values.len(),
{
    if values.len() > 0 {
        lemma_push_all_moves_sp(cpu, values.drop_last());
    }
}

/// 256 pushes in a row bring the stack pointer back to where it was.
pub proof fn lemma_stack_wraps_around<B: Bus>(cpu: Cpu6502<B>, values: Seq<u8>)
    requires
        values.len() == 256,
    ensures
        cpu.spec_push_all(values).sp == cpu.sp,
{
    lemma_push_all_moves_sp(cpu, values);
}

/// Where the stack page is memory, up to 256 pushes leave each byte in its
/// own cell: the byte pushed as number `i` lies `i` cells below the cell that
/// the stack pointer pointed to.
pub proof fn lemma_push_all_fills_cells<B: Bus>(cpu: Cpu6502<B>, values: Seq<u8>)
    requires
        stack_is_memory::<B>(),
        values.len() <= 256,
    ensures
        forall|i: int|
            0 <= i < values.len() ==> cpu.spec_push_all(values).bus.peek(
                stack_address(#[trigger] stack_pointer_below(cpu.sp, i)),
            ) == values[i],
    decreases values.len(),
{
    if values.len() > 0 {
        let front = values.drop_last();
        let before = cpu.spec_push_all(front);
        let after = cpu.spec_push_all(values);
        lemma_push_all_fills_cells(cpu, front);
        lemma_push_all_moves_sp(cpu, front);
        let written = stack_address(before.sp);
        assert(after.bus == before.bus.after_write(written, values.last()));
        assert forall|i: int| 0 <= i < values.len() implies after.bus.peek(
            stack_address(#[trigger] stack_pointer_below(cpu.sp, i)),
        ) == values[i] by {
            let cell = stack_address(stack_pointer_below(cpu.sp, i));
            assert(is_memory_cell::<B>(cell));
            if i == values.len() - 1 {
                assert(cell == written);
            } else {
                assert(stack_pointer_below(cpu.sp, i) != before.sp);
                assert(cell != written);
                assert(before.bus.peek(cell) == front[i]);
            }
        }
    }
}

/// Where the stack page is memory, pops read the cells above the stack
/// pointer one after the other, move the stack pointer up by their number,
/// modulo 256, and leave the stack page as it is.
pub proof fn lemma_pop_all_reads_cells<B: Bus>(cpu: Cpu6502<B>, count: nat)
    requires
        stack_is_memory::<B>(),
    ensures
        cpu.spec_pop_all(count).1.len() == count,
        forall|j: int|
            0 <= j < count ==> #[trigger] cpu.spec_pop_all(count).1[j] == cpu.bus.peek(
                stack_address(stack_pointer_below(cpu.sp, -1 - j)),
            ),
        cpu.spec_pop_all(count).0.sp == stack_pointer_below(cpu.sp, -(count as int)),
        cpu.spec_pop_all(count).0.reg == cpu.reg,
        cpu.spec_pop_all(count).0.pc == cpu.pc,
        forall|sp: u8|
            cpu.spec_pop_all(count).0.bus.peek(#[trigger] stack_address(sp)) == cpu.bus.peek(
                stack_address(sp),
            ),
    decreases count,
{
    if count > 0 {
        let (after, value) = cpu.spec_stack_pop();
        let (end, rest) = after.spec_pop_all((count - 1) as nat);
        lemma_pop_all_reads_cells(after, (count - 1) as nat);
        let read = stack_address(after.sp);
        assert(after.bus == cpu.bus.after_read(read));
        assert forall|sp: u8| after.bus.peek(#[trigger] stack_address(sp)) == cpu.bus.peek(
            stack_address(sp),
        ) by {
            assert(is_memory_cell::<B>(stack_address(sp)));
        }
        let popped = cpu.spec_pop_all(count).1;
        assert(popped == seq![value] + rest);
        assert forall|j: int| 0 <= j < count implies #[trigger] popped[j] == cpu.bus.peek(
            stack_address(stack_pointer_below(cpu.sp, -1 - j)),
        ) by {
            if j == 0 {
                assert(after.sp == stack_pointer_below(cpu.sp, -1));
            } else {
                assert(popped[j] == rest[j - 1]);
                assert(stack_pointer_below(after.sp, -1 - (j - 1)) == stack_pointer_below(
                    cpu.sp,
                    -1 - j,
                ));
            }
        }
    }
}

/// Going down by `count` cells and up again by `j + 1` ends `count - 1 - j`
/// cells below the start.
proof fn lemma_down_and_up(sp: u8, count: int, j: int)
    requires
        0 <= j < count <= 256,
    ensures
        stack_pointer_below(stack_pointer_below(sp, count), -1 - j) == stack_pointer_below(
            sp,
            count - 1 - j,
        ),
        stack_pointer_below(stack_pointer_below(sp, count), -count) == sp,
{
    let low = stack_pointer_below(sp, count) as int;
    assert(low == (sp - count) % 0x100);
    assert((low + 1 + j) % 0x100 == (sp - count + 1 + j) % 0x100) by {
        assert(low == sp - count + 0x100 * (-((sp - count) / 0x100)));
    }
    assert((low + count) % 0x100 == sp as int) by {
        assert(low == sp - count + 0x100 * (-((sp - count) / 0x100)));
    }
}

/// Where the stack page is memory, popping as many bytes as were pushed, up
/// to 256, returns them in reverse order and brings the stack pointer back.
pub proof fn lemma_pops_reverse_pushes<B: Bus>(cpu: Cpu6502<B>, values: Seq<u8>)
    requires
        stack_is_memory::<B>(),
        values.len() <= 256,
    ensures
        cpu.spec_push_all(values).spec_pop_all(values.len()).1 == values.reverse(),
        cpu.spec_push_all(values).spec_pop_all(values.len()).0.sp == cpu.sp,
{
    let count = values.len();
    let pushed = cpu.spec_push_all(values);
    let popped = pushed.spec_pop_all(count).1;
    lemma_push_all_moves_sp(cpu, values);
    lemma_push_all_fills_cells(cpu, values);
    lemma_pop_all_reads_cells(pushed, count);
    if count > 0 {
        lemma_down_and_up(cpu.sp, count as int, 0);
    }
    assert(popped.len() == values.reverse().len());
    assert forall|j: int| 0 <= j < count implies popped[j] == values.reverse()[j] by {
        let i = count - 1 - j;
        lemma_down_and_up(cpu.sp, count as int, j);
        assert(popped[j] == pushed.bus.peek(
            stack_address(stack_pointer_below(pushed.sp, -1 - j)),
        ));
        assert(pushed.bus.peek(stack_address(stack_pointer_below(cpu.sp, i))) == values[i]);
        assert(values.reverse()[j] == values[i]);
    }
    assert(popped =~= values.reverse());
}

} // verus!
