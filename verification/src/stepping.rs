//! What one step does to the program counter and to the negative and zero
//! flags, for every instruction.

use vstd::prelude::*;
use crate::alu::{byte_of, modify};
use crate::bits::lemma_bit_tests;
use crate::bus::Bus;
use crate::cpu::{branch_taken, Cpu6502};
use crate::reg_state::RegisterState;
use crate::opcode::{instruction_length, spec_decode, AddrMode, Operation};
use crate::word::branch_target;

verus! {

/// The address of the instruction that follows the one at `pc`, modulo 65536.
pub open spec fn following_address(pc: u16, opcode: u8) -> u16 {
    ((pc + instruction_length(opcode)) % 0x1_0000) as u16
}

/// Resolving an operand moves the program counter past the operand bytes of
/// the mode and leaves registers and stack pointer alone.
pub proof fn lemma_resolve_advances_pc<B: Bus>(cpu: Cpu6502<B>, mode: AddrMode)
    ensures
        cpu.spec_resolve(mode).0.pc == ((cpu.pc + mode.operand_len()) % 0x1_0000) as u16,
        cpu.spec_resolve(mode).0.reg == cpu.reg,
        cpu.spec_resolve(mode).0.sp == cpu.sp,
        cpu.spec_resolve(mode).1 is Some == mode.has_address(),
{
}

/// Only branches, jumps, calls, returns and the software interrupt write the
/// program counter when they execute.
pub proof fn lemma_execute_keeps_pc<B: Bus>(cpu: Cpu6502<B>, op: Operation, operand: Option<u16>)
    requires
        !op.is_transfer(),
    ensures
        !op.is_branch() ==> cpu.spec_execute(op, operand).pc == cpu.pc,
        op.is_branch() ==> cpu.spec_execute(op, operand).pc == (match operand {
            Some(target) if branch_taken(op, cpu.reg) => target,
            _ => cpu.pc,
        }),
{
}

/// One step moves the program counter to the instruction that follows, by the
/// length of the instruction that the opcode starts. A branch that is taken
/// moves it on from there by its signed offset. Jumps, calls, returns and the
/// software interrupt load the program counter instead, and are left out.
pub proof fn lemma_step_advances_pc<B: Bus>(cpu: Cpu6502<B>)
    requires
        !spec_decode(cpu.bus.peek(cpu.pc)).1.is_transfer(),
    ensures
        ({
            let opcode = cpu.bus.peek(cpu.pc);
            let op = spec_decode(opcode).1;
            let following = following_address(cpu.pc, opcode);
            let offset = cpu.bus.after_read(cpu.pc).peek(cpu.pc.wrapping_add(1));
            cpu.spec_step().pc == if op.is_branch() && branch_taken(op, cpu.reg) {
                branch_target(following, offset)
            } else {
                following
            }
        }),
{
    let (fetched, opcode) = cpu.spec_take_u8_at_pc();
    let (mode, op) = spec_decode(opcode);
    let (resolved, operand) = fetched.spec_resolve(mode);
    lemma_resolve_advances_pc(fetched, mode);
    lemma_execute_keeps_pc(resolved, op, operand);
    crate::opcode::lemma_decode_is_consistent(opcode);
}

/// Whether the negative and zero flags report a result byte: negative is its
/// high bit, zero tells whether it is 0.
pub open spec fn flags_report(reg: RegisterState, result: u8) -> bool {
    reg.negative == (result & 0x80 != 0) && reg.zero == (result == 0)
}

/// The register that a comparison compares.
pub open spec fn compared_register(op: Operation, reg: RegisterState) -> u8 {
    match op {
        Operation::Cpx => reg.x,
        Operation::Cpy => reg.y,
        _ => reg.a,
    }
}

/// The operations that leave their result in a register.
proof fn lemma_register_reports<B: Bus>(cpu: Cpu6502<B>, op: Operation, operand: Option<u16>)
    requires
        op.takes_address() && !op.is_shift() ==> operand is Some,
        op.loads_a() || op.loads_x() || op.loads_y() || (op.is_shift() && operand is None),
    ensures
        ({
            let after = cpu.spec_execute(op, operand);
            &&& op.loads_a() ==> flags_report(after.reg, after.reg.a)
            &&& op.loads_x() ==> flags_report(after.reg, after.reg.x)
            &&& op.loads_y() ==> flags_report(after.reg, after.reg.y)
            &&& op.is_shift() && operand is None ==> flags_report(after.reg, after.reg.a)
        }),
{
    let after = cpu.spec_execute(op, operand);
    lemma_bit_tests(after.reg.a);
    lemma_bit_tests(after.reg.x);
    lemma_bit_tests(after.reg.y);
    if op == Operation::Adc || op == Operation::Sbc {
        let addr = operand->0;
        let value = cpu.bus.peek(addr);
        assert(after.reg == if op == Operation::Adc {
            crate::alu::spec_adc(cpu.reg, value)
        } else {
            crate::alu::spec_sbc(cpu.reg, value)
        });
        assert(after.reg.negative == (after.reg.a >= 0x80));
        assert(after.reg.zero == (after.reg.a == 0));
    }
}

/// The operations that change a byte of memory in place.
proof fn lemma_memory_reports<B: Bus>(cpu: Cpu6502<B>, op: Operation, addr: u16)
    requires
        op.is_modification(),
    ensures
        ({
            let after = cpu.spec_execute(op, Some(addr));
            let result = modify(op, cpu.bus.peek(addr), cpu.reg.carry).0;
            &&& flags_report(after.reg, result)
            &&& after.bus == cpu.bus.after_read(addr).after_write(addr, result)
        }),
{
    lemma_bit_tests(modify(op, cpu.bus.peek(addr), cpu.reg.carry).0);
}

/// The comparisons.
proof fn lemma_comparison_reports<B: Bus>(cpu: Cpu6502<B>, op: Operation, addr: u16)
    requires
        op.is_comparison(),
    ensures
        flags_report(
            cpu.spec_execute(op, Some(addr)).reg,
            byte_of(compared_register(op, cpu.reg) - cpu.bus.peek(addr)),
        ),
{
    lemma_bit_tests(byte_of(compared_register(op, cpu.reg) - cpu.bus.peek(addr)));
}

/// The operations that report no result.
proof fn lemma_others_keep_flags<B: Bus>(cpu: Cpu6502<B>, op: Operation, operand: Option<u16>)
    requires
        !op.reports_result(),
        op != Operation::Bit && op != Operation::Plp && op != Operation::Rti,
    ensures
        cpu.spec_execute(op, operand).reg.negative == cpu.reg.negative,
        cpu.spec_execute(op, operand).reg.zero == cpu.reg.zero,
{
    if op == Operation::Brk {
        let entered = cpu.with_pc(cpu.pc.wrapping_add(1)).spec_interrupt(
            crate::cpu::IRQ_BRK_VECTOR,
            true,
        );
        assert(entered.reg.negative == cpu.reg.negative && entered.reg.zero == cpu.reg.zero);
    }
}

/// After every operation that sets the negative and zero flags from a result,
/// the two flags report that result: the register that took it, the byte that
/// was written back to memory, or the difference that a comparison formed.
/// Of the other operations only the bit test and the two that unpack a status
/// byte change the two flags at all.
pub proof fn lemma_flags_report_result<B: Bus>(
    cpu: Cpu6502<B>,
    op: Operation,
    operand: Option<u16>,
)
    requires
        op.takes_address() && !op.is_shift() ==> operand is Some,
    ensures
        ({
            let after = cpu.spec_execute(op, operand);
            &&& op.loads_a() ==> flags_report(after.reg, after.reg.a)
            &&& op.loads_x() ==> flags_report(after.reg, after.reg.x)
            &&& op.loads_y() ==> flags_report(after.reg, after.reg.y)
            &&& op.is_shift() && operand is None ==> flags_report(after.reg, after.reg.a)
            &&& op.is_modification() ==> (operand matches Some(addr) ==> {
                let result = modify(op, cpu.bus.peek(addr), cpu.reg.carry).0;
                &&& flags_report(after.reg, result)
                &&& after.bus == cpu.bus.after_read(addr).after_write(addr, result)
            })
            &&& op.is_comparison() ==> (operand matches Some(addr) ==> flags_report(
                after.reg,
                byte_of(compared_register(op, cpu.reg) - cpu.bus.peek(addr)),
            ))
            &&& !op.reports_result() && op != Operation::Bit && op != Operation::Plp && op
                != Operation::Rti ==> after.reg.negative == cpu.reg.negative && after.reg.zero
                == cpu.reg.zero
        }),
{
    if op.loads_a() || op.loads_x() || op.loads_y() || (op.is_shift() && operand is None) {
        lemma_register_reports(cpu, op, operand);
    }
    if op.is_modification() && operand is Some {
        lemma_memory_reports(cpu, op, operand->0);
    }
    if op.is_comparison() && operand is Some {
        lemma_comparison_reports(cpu, op, operand->0);
    }
    if !op.reports_result() && op != Operation::Bit && op != Operation::Plp && op
        != Operation::Rti {
        lemma_others_keep_flags(cpu, op, operand);
    }
}

} // verus!
