//! Calls and interrupts that return: what is pushed on the way in comes back
//! on the way out.

use vstd::prelude::*;
use crate::bus::{is_memory_cell, Bus};
use crate::cpu::{stack_address, Cpu6502, IRQ_BRK_VECTOR, NMI_VECTOR};
use crate::opcode::{spec_decode, AddrMode, Operation};
use crate::reg_state::{lemma_status_round_trip, RegisterState};
use crate::stack::stack_is_memory;
use crate::word::{high_byte_of, lemma_word_of_bytes, low_byte_of, word};

verus! {

/// The opcode of the call instruction.
pub const JSR: u8 = 0x20;

/// The opcode of the return from a call.
pub const RTS: u8 = 0x60;

/// The opcode of the software interrupt.
pub const BRK: u8 = 0x00;

/// The opcode of the return from an interrupt.
pub const RTI: u8 = 0x40;

/// Where the stack page is memory, a read anywhere leaves its cells alone.
proof fn lemma_read_keeps_stack<B: Bus>(bus: B, addr: u16, sp: u8)
    requires
        stack_is_memory::<B>(),
    ensures
        bus.after_read(addr).peek(stack_address(sp)) == bus.peek(stack_address(sp)),
{
    assert(is_memory_cell::<B>(stack_address(sp)));
}

/// Where the stack page is memory, a write to one of its cells sets that cell
/// and leaves the others alone.
proof fn lemma_write_sets_cell<B: Bus>(bus: B, written: u8, value: u8, sp: u8)
    requires
        stack_is_memory::<B>(),
    ensures
        bus.after_write(stack_address(written), value).peek(stack_address(sp)) == (if sp
            == written {
            value
        } else {
            bus.peek(stack_address(sp))
        }),
{
    assert(is_memory_cell::<B>(stack_address(sp)));
}

/// Where the stack page is memory, a read of a word anywhere leaves its cells
/// alone.
proof fn lemma_read_u16_keeps_stack<B: Bus>(cpu: Cpu6502<B>, addr: u16, sp: u8)
    requires
        stack_is_memory::<B>(),
    ensures
        cpu.spec_read_u16(addr).0.bus.peek(stack_address(sp)) == cpu.bus.peek(stack_address(sp)),
        cpu.spec_read_u16(addr).0.reg == cpu.reg,
        cpu.spec_read_u16(addr).0.sp == cpu.sp,
        cpu.spec_read_u16(addr).0.pc == cpu.pc,
{
    lemma_read_keeps_stack(cpu.bus, addr, sp);
    lemma_read_keeps_stack(cpu.bus.after_read(addr), addr.wrapping_add(1), sp);
}

/// Where the stack page is memory, a call leaves the address of its last byte
/// in the two cells at and below the stack pointer, and the return that pops
/// them continues after that byte.
pub proof fn lemma_return_undoes_call<B: Bus>(cpu: Cpu6502<B>, target: u16, fetched: u16)
    requires
        stack_is_memory::<B>(),
    ensures
        ({
            let called = cpu.spec_call(target);
            let (at_target, _) = called.spec_read(fetched);
            let returned = at_target.spec_return();
            &&& called.pc == target
            &&& returned.pc == cpu.pc
            &&& returned.sp == cpu.sp
            &&& returned.reg == cpu.reg
        }),
{
    let last = cpu.pc.wrapping_sub(1);
    let high = high_byte_of(last);
    let low = low_byte_of(last);
    let first = cpu.spec_stack_push(high);
    let called = first.spec_stack_push(low).with_pc(target);
    assert(called == cpu.spec_call(target));
    let (at_target, _) = called.spec_read(fetched);
    let upper = cpu.sp;
    let lower = cpu.sp.wrapping_sub(1);
    assert(first.sp == lower);
    assert(called.sp == lower.wrapping_sub(1));
    lemma_write_sets_cell(cpu.bus, upper, high, upper);
    lemma_write_sets_cell(first.bus, lower, low, upper);
    lemma_write_sets_cell(first.bus, lower, low, lower);
    assert(called.bus.peek(stack_address(upper)) == high);
    assert(called.bus.peek(stack_address(lower)) == low);
    lemma_read_keeps_stack(called.bus, fetched, upper);
    lemma_read_keeps_stack(called.bus, fetched, lower);
    let (one, popped_low) = at_target.spec_stack_pop();
    assert(called.sp.wrapping_add(1) == lower);
    assert(popped_low == low);
    lemma_read_keeps_stack(at_target.bus, stack_address(lower), upper);
    let (two, popped_high) = one.spec_stack_pop();
    assert(lower.wrapping_add(1) == upper);
    assert(popped_high == high);
    lemma_word_of_bytes(last);
    assert(word(low, high).wrapping_add(1) == cpu.pc);
}

/// Where the stack page is memory, executing a call instruction and then, at
/// its target, a return instruction leaves the program counter at the address
/// that follows the three bytes of the call, with the stack pointer and the
/// registers as they were.
pub proof fn lemma_call_then_return<B: Bus>(cpu: Cpu6502<B>)
    requires
        stack_is_memory::<B>(),
        cpu.bus.peek(cpu.pc) == JSR,
        cpu.spec_step().bus.peek(cpu.spec_step().pc) == RTS,
    ensures
        cpu.spec_step().spec_step().pc == cpu.pc.wrapping_add(3),
        cpu.spec_step().spec_step().sp == cpu.sp,
        cpu.spec_step().spec_step().reg == cpu.reg,
{
    let (fetched, opcode) = cpu.spec_take_u8_at_pc();
    assert(spec_decode(JSR) == (AddrMode::Absolute, Operation::Jsr));
    let (resolved, operand) = fetched.spec_resolve(AddrMode::Absolute);
    let target = operand->0;
    assert(resolved.pc == cpu.pc.wrapping_add(3));
    assert(resolved.sp == cpu.sp && resolved.reg == cpu.reg);
    let called = resolved.spec_call(target);
    assert(cpu.spec_step() == called);
    lemma_return_undoes_call(resolved, target, target);
    assert(spec_decode(RTS) == (AddrMode::Implied, Operation::Rts));
    let (at_target, second_opcode) = called.spec_take_u8_at_pc();
    assert(second_opcode == RTS);
    assert(called.spec_step() == at_target.spec_return());
    let (read_only, _) = called.spec_read(target);
    assert(at_target == read_only.with_pc(target.wrapping_add(1)));
    assert(at_target.spec_return().pc == read_only.spec_return().pc);
    assert(at_target.spec_return().sp == read_only.spec_return().sp);
    assert(at_target.spec_return().reg == read_only.spec_return().reg);
}

/// Where the stack page is memory, the interrupt sequence leaves the program
/// counter and the status byte in the three cells at and below the stack
/// pointer, and the return from the interrupt that pops them brings back the
/// program counter and all six flags, whatever the break bit was; registers
/// and stack pointer are as they were.
pub proof fn lemma_return_undoes_interrupt<B: Bus>(
    cpu: Cpu6502<B>,
    vector: u16,
    brk: bool,
    fetched: u16,
)
    requires
        stack_is_memory::<B>(),
    ensures
        ({
            let entered = cpu.spec_interrupt(vector, brk);
            let (at_handler, _) = entered.spec_read(fetched);
            let returned = at_handler.spec_return_from_interrupt();
            &&& entered.reg == (RegisterState { interrupt_disable: true, ..cpu.reg })
            &&& returned.pc == cpu.pc
            &&& returned.sp == cpu.sp
            &&& returned.reg == cpu.reg
        }),
{
    let high = high_byte_of(cpu.pc);
    let low = low_byte_of(cpu.pc);
    let status = cpu.reg.spec_get_status(brk);
    let top = cpu.sp;
    let middle = top.wrapping_sub(1);
    let bottom = middle.wrapping_sub(1);
    let first = cpu.spec_stack_push(high);
    let second = first.spec_stack_push(low);
    let third = second.spec_stack_push(status);
    assert(first.sp == middle && second.sp == bottom && third.sp == bottom.wrapping_sub(1));
    lemma_write_sets_cell(cpu.bus, top, high, top);
    lemma_write_sets_cell(first.bus, middle, low, top);
    lemma_write_sets_cell(first.bus, middle, low, middle);
    lemma_write_sets_cell(second.bus, bottom, status, top);
    lemma_write_sets_cell(second.bus, bottom, status, middle);
    lemma_write_sets_cell(second.bus, bottom, status, bottom);
    assert(third.bus.peek(stack_address(top)) == high);
    assert(third.bus.peek(stack_address(middle)) == low);
    assert(third.bus.peek(stack_address(bottom)) == status);
    let masked = third.with_reg(RegisterState { interrupt_disable: true, ..cpu.reg });
    let (loaded, target) = masked.spec_read_u16(vector);
    lemma_read_u16_keeps_stack(masked, vector, top);
    lemma_read_u16_keeps_stack(masked, vector, middle);
    lemma_read_u16_keeps_stack(masked, vector, bottom);
    let entered = loaded.with_pc(target);
    assert(entered == cpu.spec_interrupt(vector, brk));
    let (at_handler, _) = entered.spec_read(fetched);
    lemma_read_keeps_stack(entered.bus, fetched, top);
    lemma_read_keeps_stack(entered.bus, fetched, middle);
    lemma_read_keeps_stack(entered.bus, fetched, bottom);
    assert(at_handler.sp.wrapping_add(1) == bottom);
    let (one, popped_status) = at_handler.spec_stack_pop();
    assert(popped_status == status);
    lemma_read_keeps_stack(at_handler.bus, stack_address(bottom), top);
    lemma_read_keeps_stack(at_handler.bus, stack_address(bottom), middle);
    assert(bottom.wrapping_add(1) == middle);
    let (two, popped_low) = one.spec_stack_pop();
    assert(popped_low == low);
    lemma_read_keeps_stack(one.bus, stack_address(middle), top);
    assert(middle.wrapping_add(1) == top);
    let (three, popped_high) = two.spec_stack_pop();
    assert(popped_high == high);
    lemma_word_of_bytes(cpu.pc);
    lemma_status_round_trip(cpu.reg, brk, entered.reg);
    assert(at_handler.reg.spec_set_status(status) == cpu.reg);
}

/// Where the stack page is memory, executing the software interrupt and then,
/// at its handler, a return from interrupt leaves the program counter two
/// bytes after the interrupt instruction, past its operand byte, and brings
/// back all six flags; registers and stack pointer are as they were.
pub proof fn lemma_break_then_return<B: Bus>(cpu: Cpu6502<B>)
    requires
        stack_is_memory::<B>(),
        cpu.bus.peek(cpu.pc) == BRK,
        cpu.spec_step().bus.peek(cpu.spec_step().pc) == RTI,
    ensures
        cpu.spec_step().reg == (RegisterState { interrupt_disable: true, ..cpu.reg }),
        cpu.spec_step().spec_step().pc == cpu.pc.wrapping_add(2),
        cpu.spec_step().spec_step().sp == cpu.sp,
        cpu.spec_step().spec_step().reg == cpu.reg,
{
    let (fetched, opcode) = cpu.spec_take_u8_at_pc();
    assert(spec_decode(BRK) == (AddrMode::Implied, Operation::Brk));
    let skipped = fetched.with_pc(fetched.pc.wrapping_add(1));
    assert(skipped.pc == cpu.pc.wrapping_add(2));
    let entered = skipped.spec_interrupt(IRQ_BRK_VECTOR, true);
    assert(cpu.spec_step() == entered);
    lemma_interrupt_then_return(skipped, IRQ_BRK_VECTOR, true);
}

/// Where the stack page is memory, an interrupt entered through any vector
/// and left by a return-from-interrupt instruction at its handler brings back
/// the program counter, the six flags, the registers and the stack pointer.
pub proof fn lemma_interrupt_then_return<B: Bus>(cpu: Cpu6502<B>, vector: u16, brk: bool)
    requires
        stack_is_memory::<B>(),
        ({
            let entered = cpu.spec_interrupt(vector, brk);
            entered.bus.peek(entered.pc) == RTI
        }),
    ensures
        cpu.spec_interrupt(vector, brk).spec_step().pc == cpu.pc,
        cpu.spec_interrupt(vector, brk).spec_step().sp == cpu.sp,
        cpu.spec_interrupt(vector, brk).spec_step().reg == cpu.reg,
{
    let entered = cpu.spec_interrupt(vector, brk);
    lemma_return_undoes_interrupt(cpu, vector, brk, entered.pc);
    assert(spec_decode(RTI) == (AddrMode::Implied, Operation::Rti));
    let (at_handler, opcode) = entered.spec_take_u8_at_pc();
    assert(entered.spec_step() == at_handler.spec_return_from_interrupt());
    let (read_only, _) = entered.spec_read(entered.pc);
    assert(at_handler == read_only.with_pc(entered.pc.wrapping_add(1)));
    assert(at_handler.spec_return_from_interrupt().pc
        == read_only.spec_return_from_interrupt().pc);
    assert(at_handler.spec_return_from_interrupt().sp
        == read_only.spec_return_from_interrupt().sp);
    assert(at_handler.spec_return_from_interrupt().reg
        == read_only.spec_return_from_interrupt().reg);
}

/// Where the stack page is memory, a non-maskable interrupt that its handler
/// leaves by a return from interrupt brings back the program counter, the
/// flags, the registers and the stack pointer.
pub proof fn lemma_nmi_then_return<B: Bus>(cpu: Cpu6502<B>)
    requires
        stack_is_memory::<B>(),
        cpu.spec_nmi().bus.peek(cpu.spec_nmi().pc) == RTI,
    ensures
        cpu.spec_nmi().spec_step().pc == cpu.pc,
        cpu.spec_nmi().spec_step().sp == cpu.sp,
        cpu.spec_nmi().spec_step().reg == cpu.reg,
{
    lemma_interrupt_then_return(cpu, NMI_VECTOR, false);
}

/// Where the stack page is memory, a maskable interrupt that is taken, and
/// that its handler leaves by a return from interrupt, brings back the
/// program counter, the flags, the registers and the stack pointer.
pub proof fn lemma_irq_then_return<B: Bus>(cpu: Cpu6502<B>)
    requires
        stack_is_memory::<B>(),
        !cpu.reg.interrupt_disable,
        cpu.spec_irq().bus.peek(cpu.spec_irq().pc) == RTI,
    ensures
        cpu.spec_irq().spec_step().pc == cpu.pc,
        cpu.spec_irq().spec_step().sp == cpu.sp,
        cpu.spec_irq().spec_step().reg == cpu.reg,
{
    lemma_interrupt_then_return(cpu, IRQ_BRK_VECTOR, false);
}

} // verus!
