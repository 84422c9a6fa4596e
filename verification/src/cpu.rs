//! The processor core: registers, stack pointer and program counter on a bus,
//! and the execution of one instruction at a time.

use vstd::prelude::*;
use crate::alu::{
    carries_disagree, decimal_add, decimal_subtract, lemma_overflow_rule,
    lemma_subtract_is_add_complement, modify, spec_adc, spec_binary_adc, spec_bit, spec_compare,
    spec_sbc,
};
use crate::bits::{
    lemma_bit_tests, lemma_byte_operations, lemma_shift_in_left, lemma_shift_in_right,
    lemma_shift_left, lemma_word_operations,
};
pub use crate::bus::Bus;
pub use crate::flags::CpuFlag;
use crate::opcode::{decode, spec_decode, AddrMode, Operation};
use crate::reg_state::RegisterState;
use crate::stepping::{following_address, lemma_step_advances_pc};
use crate::word::{
    add_offset, branch_target, high_byte, high_byte_of, low_byte, low_byte_of, make_word, word,
    zero_page, zero_page_address,
};

verus! {

/// The first address of the page that holds the stack.
pub const STACK_START: u16 = 0x0100;

/// The address of the vector of the maskable and the software interrupt.
pub const IRQ_BRK_VECTOR: u16 = 0xFFFE;

/// The address of the reset vector.
pub const RESET_VECTOR: u16 = 0xFFFC;

/// The address of the vector of the non-maskable interrupt.
pub const NMI_VECTOR: u16 = 0xFFFA;

/// The processor core. It owns its bus; the host reaches the bus, the
/// registers, the stack pointer and the program counter through the fields.
pub struct Cpu6502<B> {
    pub bus: B,
    pub reg: RegisterState,
    pub sp: u8,
    pub pc: u16,
}

/// Whether a branch is taken: each of the eight branches tests one flag for
/// one value. Nothing else is ever taken.
pub open spec fn branch_taken(op: Operation, reg: RegisterState) -> bool {
    match op {
        Operation::Bpl => !reg.negative,
        Operation::Bmi => reg.negative,
        Operation::Bvc => !reg.overflow,
        Operation::Bvs => reg.overflow,
        Operation::Bcc => !reg.carry,
        Operation::Bcs => reg.carry,
        Operation::Bne => !reg.zero,
        Operation::Beq => reg.zero,
        _ => false,
    }
}

/// The address of the stack cell that a stack pointer points to.
pub open spec fn stack_address(sp: u8) -> u16 {
    (STACK_START + sp) as u16
}

impl<B: Bus> Cpu6502<B> {
    /// The core as it is created: all registers, the stack pointer and the
    /// program counter zero, all flags clear.
    pub open spec fn spec_new(bus: B) -> Self {
        Cpu6502 { bus, reg: RegisterState::spec_default(), sp: 0, pc: 0 }
    }

    /// The core with another register file.
    pub open spec fn with_reg(self, reg: RegisterState) -> Self {
        Cpu6502 { reg, ..self }
    }

    /// The core with another program counter.
    pub open spec fn with_pc(self, pc: u16) -> Self {
        Cpu6502 { pc, ..self }
    }

    /// A read on the bus: the core after it, and the byte read.
    pub open spec fn spec_read(self, addr: u16) -> (Self, u8) {
        (Cpu6502 { bus: self.bus.after_read(addr), ..self }, self.bus.peek(addr))
    }

    /// A write on the bus.
    pub open spec fn spec_write(self, addr: u16, value: u8) -> Self {
        Cpu6502 { bus: self.bus.after_write(addr, value), ..self }
    }

    /// Two reads, at `addr` and at the address after it (modulo 65536), that
    /// give the low and the high byte of a word.
    pub open spec fn spec_read_u16(self, addr: u16) -> (Self, u16) {
        let (first, low) = self.spec_read(addr);
        let (second, high) = first.spec_read(addr.wrapping_add(1));
        (second, word(low, high))
    }

    /// A read at the program counter, which then moves on by one (modulo
    /// 65536).
    pub open spec fn spec_take_u8_at_pc(self) -> (Self, u8) {
        let (after, value) = self.spec_read(self.pc);
        (after.with_pc(self.pc.wrapping_add(1)), value)
    }

    /// Two reads at the program counter that give a word, low byte first.
    pub open spec fn spec_take_u16_at_pc(self) -> (Self, u16) {
        let (first, low) = self.spec_take_u8_at_pc();
        let (second, high) = first.spec_take_u8_at_pc();
        (second, word(low, high))
    }

    /// A push: the byte is written where the stack pointer points, in the
    /// stack page, and the stack pointer moves down by one (modulo 256).
    pub open spec fn spec_stack_push(self, value: u8) -> Self {
        Cpu6502 { sp: self.sp.wrapping_sub(1), ..self.spec_write(stack_address(self.sp), value) }
    }

    /// A pop: the stack pointer moves up by one (modulo 256), and the byte is
    /// read where it then points.
    pub open spec fn spec_stack_pop(self) -> (Self, u8) {
        let sp = self.sp.wrapping_add(1);
        let (after, value) = self.spec_read(stack_address(sp));
        (Cpu6502 { sp, ..after }, value)
    }

    /// The sequence that every interrupt shares: the program counter is
    /// pushed, high byte first, then the status byte with the break bit as
    /// given; interrupts are disabled; the program counter is loaded from the
    /// vector.
    pub open spec fn spec_interrupt(self, vector: u16, brk: bool) -> Self {
        let pushed = self.spec_stack_push(high_byte_of(self.pc)).spec_stack_push(
            low_byte_of(self.pc),
        ).spec_stack_push(self.reg.spec_get_status(brk));
        let masked = pushed.with_reg(RegisterState { interrupt_disable: true, ..self.reg });
        let (after, target) = masked.spec_read_u16(vector);
        after.with_pc(target)
    }

    /// Reset: interrupts are disabled, the stack pointer moves down by three
    /// without a write, and the program counter is loaded from the reset
    /// vector.
    pub open spec fn spec_reset(self) -> Self {
        let (after, target) = self.spec_read_u16(RESET_VECTOR);
        Cpu6502 {
            reg: RegisterState { interrupt_disable: true, ..self.reg },
            sp: self.sp.wrapping_sub(3),
            pc: target,
            ..after
        }
    }

    /// A request for a maskable interrupt: taken through the vector at
    /// `IRQ_BRK_VECTOR`, with the break bit clear, unless interrupts are
    /// disabled; then nothing happens.
    pub open spec fn spec_irq(self) -> Self {
        if self.reg.interrupt_disable {
            self
        } else {
            self.spec_interrupt(IRQ_BRK_VECTOR, false)
        }
    }

    /// A non-maskable interrupt: always taken, through the vector at
    /// `NMI_VECTOR`, with the break bit clear.
    pub open spec fn spec_nmi(self) -> Self {
        self.spec_interrupt(NMI_VECTOR, false)
    }

    /// Creates a core on a bus, with all registers, the stack pointer and the
    /// program counter zero and all flags clear.
    pub fn new(bus: B) -> (cpu: Self)
        ensures
            cpu == Self::spec_new(bus),
    {
        Self { bus, reg: RegisterState::default(), sp: 0, pc: 0 }
    }

    fn read_u16(&mut self, addr: u16) -> (value: u16)
        ensures
            (*final(self), value) == old(self).spec_read_u16(addr),
    {
        let low = self.bus.read(addr);
        let high = self.bus.read(addr.wrapping_add(1));
        make_word(low, high)
    }

    fn take_u8_at_pc(&mut self) -> (byte: u8)
        ensures
            (*final(self), byte) == old(self).spec_take_u8_at_pc(),
    {
        let byte = self.bus.read(self.pc);
        self.pc = self.pc.wrapping_add(1);
        byte
    }

    fn take_u16_at_pc(&mut self) -> (value: u16)
        ensures
            (*final(self), value) == old(self).spec_take_u16_at_pc(),
    {
        let low = self.take_u8_at_pc();
        let high = self.take_u8_at_pc();
        make_word(low, high)
    }

    fn stack_push(&mut self, value: u8)
        ensures
            *final(self) == old(self).spec_stack_push(value),
    {
        self.bus.write(STACK_START + self.sp as u16, value);
        self.sp = self.sp.wrapping_sub(1);
    }

    fn stack_pop(&mut self) -> (value: u8)
        ensures
            (*final(self), value) == old(self).spec_stack_pop(),
    {
        self.sp = self.sp.wrapping_add(1);
        self.bus.read(STACK_START + self.sp as u16)
    }

    fn interrupt(&mut self, vector: u16, brk: bool)
        ensures
            *final(self) == old(self).spec_interrupt(vector, brk),
    {
        let pc_low = low_byte(self.pc);
        let pc_high = high_byte(self.pc);
        self.stack_push(pc_high);
        self.stack_push(pc_low);
        let status = self.reg.get_status(brk);
        self.stack_push(status);
        self.reg.interrupt_disable = true;
        self.pc = self.read_u16(vector);
    }

    /// Resets the core: disables interrupts, moves the stack pointer down by
    /// three without writing, and loads the program counter from the reset
    /// vector.
    pub fn reset(&mut self)
        ensures
            *final(self) == old(self).spec_reset(),
    {
        self.reg.interrupt_disable = true;
        self.sp = self.sp.wrapping_sub(3);
        self.pc = self.read_u16(RESET_VECTOR);
    }

    /// Delivers a maskable interrupt, unless interrupts are disabled.
    pub fn irq(&mut self)
        ensures
            *final(self) == old(self).spec_irq(),
    {
        if !self.reg.interrupt_disable {
            self.interrupt(IRQ_BRK_VECTOR, false);
        }
    }

    /// Delivers a non-maskable interrupt.
    pub fn nmi(&mut self)
        ensures
            *final(self) == old(self).spec_nmi(),
    {
        self.interrupt(NMI_VECTOR, false);
    }
}


// The meaning of the instructions.
impl<B: Bus> Cpu6502<B> {
    /// A branch: the program counter takes the target if the condition holds.
    pub open spec fn spec_branch(self, taken: bool, target: u16) -> Self {
        if taken {
            self.with_pc(target)
        } else {
            self
        }
    }

    /// A call: the address of the last byte of the call instruction, one below
    /// the program counter, is pushed, high byte first, and the program
    /// counter takes the target.
    pub open spec fn spec_call(self, target: u16) -> Self {
        let last = self.pc.wrapping_sub(1);
        self.spec_stack_push(high_byte_of(last)).spec_stack_push(low_byte_of(last)).with_pc(target)
    }

    /// The return from a call: an address is popped, low byte first, and the
    /// program counter takes the address after it.
    pub open spec fn spec_return(self) -> Self {
        let (first, low) = self.spec_stack_pop();
        let (second, high) = first.spec_stack_pop();
        second.with_pc(word(low, high).wrapping_add(1))
    }

    /// The return from an interrupt: the status byte is popped and unpacked
    /// into the flags, then the program counter is popped, low byte first.
    pub open spec fn spec_return_from_interrupt(self) -> Self {
        let (first, status) = self.spec_stack_pop();
        let (second, low) = first.spec_stack_pop();
        let (third, high) = second.spec_stack_pop();
        third.with_reg(self.reg.spec_set_status(status)).with_pc(word(low, high))
    }

    /// A result written back to memory: the byte goes to the bus, negative and
    /// zero follow it, and carry is as given.
    pub open spec fn spec_write_back(self, addr: u16, result: u8, carry: bool) -> Self {
        self.spec_write(addr, result).with_reg(
            RegisterState { carry, ..self.reg.spec_update_nz_flags(result) },
        )
    }

    /// A result written to the accumulator, with carry as given.
    pub open spec fn spec_accumulate(self, result: u8, carry: bool) -> Self {
        self.with_reg(RegisterState { carry, ..self.reg.spec_update_a(result) })
    }

    /// What an operation does with an effective address. Operations that work
    /// on no address do nothing here.
    pub open spec fn spec_execute_at(self, op: Operation, addr: u16) -> Self {
        let (after, value) = self.spec_read(addr);
        let reg = self.reg;
        match op {
            Operation::Bpl | Operation::Bmi | Operation::Bvc | Operation::Bvs | Operation::Bcc
            | Operation::Bcs | Operation::Bne | Operation::Beq => self.spec_branch(
                branch_taken(op, reg),
                addr,
            ),
            Operation::Jmp => self.with_pc(addr),
            Operation::Jsr => self.spec_call(addr),
            Operation::Sta => self.spec_write(addr, reg.a),
            Operation::Stx => self.spec_write(addr, reg.x),
            Operation::Sty => self.spec_write(addr, reg.y),
            Operation::Lda => after.with_reg(reg.spec_update_a(value)),
            Operation::Ldx => after.with_reg(reg.spec_update_x(value)),
            Operation::Ldy => after.with_reg(reg.spec_update_y(value)),
            Operation::Inc | Operation::Dec | Operation::Asl | Operation::Rol | Operation::Lsr
            | Operation::Ror => after.spec_write_back(
                addr,
                modify(op, value, reg.carry).0,
                modify(op, value, reg.carry).1,
            ),
            Operation::Cmp => after.with_reg(spec_compare(reg, reg.a, value)),
            Operation::Cpx => after.with_reg(spec_compare(reg, reg.x, value)),
            Operation::Cpy => after.with_reg(spec_compare(reg, reg.y, value)),
            Operation::Adc => after.with_reg(spec_adc(reg, value)),
            Operation::Sbc => after.with_reg(spec_sbc(reg, value)),
            Operation::Ora => after.with_reg(reg.spec_update_a(reg.a | value)),
            Operation::And => after.with_reg(reg.spec_update_a(reg.a & value)),
            Operation::Eor => after.with_reg(reg.spec_update_a(reg.a ^ value)),
            Operation::Bit => after.with_reg(spec_bit(reg, value)),
            _ => self,
        }
    }

    /// What an operation does without an effective address. The shifts work
    /// on the accumulator; the other operations that need an address do
    /// nothing here, and neither does `Nop`.
    pub open spec fn spec_execute_implied(self, op: Operation) -> Self {
        let reg = self.reg;
        match op {
            Operation::Brk => self.with_pc(self.pc.wrapping_add(1)).spec_interrupt(
                IRQ_BRK_VECTOR,
                true,
            ),
            Operation::Rti => self.spec_return_from_interrupt(),
            Operation::Rts => self.spec_return(),
            Operation::Php => self.spec_stack_push(reg.spec_get_status(true)),
            Operation::Plp => {
                let (after, status) = self.spec_stack_pop();
                after.with_reg(reg.spec_set_status(status))
            },
            Operation::Pha => self.spec_stack_push(reg.a),
            Operation::Pla => {
                let (after, value) = self.spec_stack_pop();
                after.with_reg(reg.spec_update_a(value))
            },
            Operation::Clc => self.with_reg(RegisterState { carry: false, ..reg }),
            Operation::Sec => self.with_reg(RegisterState { carry: true, ..reg }),
            Operation::Cli => self.with_reg(RegisterState { interrupt_disable: false, ..reg }),
            Operation::Sei => self.with_reg(RegisterState { interrupt_disable: true, ..reg }),
            Operation::Cld => self.with_reg(RegisterState { decimal: false, ..reg }),
            Operation::Sed => self.with_reg(RegisterState { decimal: true, ..reg }),
            Operation::Clv => self.with_reg(RegisterState { overflow: false, ..reg }),
            Operation::Tya => self.with_reg(reg.spec_update_a(reg.y)),
            Operation::Tay => self.with_reg(reg.spec_update_y(reg.a)),
            Operation::Txa => self.with_reg(reg.spec_update_a(reg.x)),
            Operation::Tax => self.with_reg(reg.spec_update_x(reg.a)),
            Operation::Txs => Cpu6502 { sp: reg.x, ..self },
            Operation::Tsx => self.with_reg(reg.spec_update_x(self.sp)),
            Operation::Iny => self.with_reg(reg.spec_update_y(reg.y.wrapping_add(1))),
            Operation::Dey => self.with_reg(reg.spec_update_y(reg.y.wrapping_sub(1))),
            Operation::Inx => self.with_reg(reg.spec_update_x(reg.x.wrapping_add(1))),
            Operation::Dex => self.with_reg(reg.spec_update_x(reg.x.wrapping_sub(1))),
            Operation::Asl | Operation::Rol | Operation::Lsr | Operation::Ror => self.spec_accumulate(
                modify(op, reg.a, reg.carry).0,
                modify(op, reg.a, reg.carry).1,
            ),
            _ => self,
        }
    }

    /// What an operation does with the operand that the addressing mode gave.
    pub open spec fn spec_execute(self, op: Operation, operand: Option<u16>) -> Self {
        match operand {
            Some(addr) => if op.takes_address() {
                self.spec_execute_at(op, addr)
            } else {
                self.spec_execute_implied(op)
            },
            None => self.spec_execute_implied(op),
        }
    }

    /// The operand of an instruction: the operand bytes are read at the
    /// program counter, which moves past them, and the effective address is
    /// computed, through further reads where the mode is indirect. Without an
    /// address the operation works on the accumulator or on nothing.
    pub open spec fn spec_resolve(self, mode: AddrMode) -> (Self, Option<u16>) {
        let (one, byte) = self.spec_take_u8_at_pc();
        let (two, base) = self.spec_take_u16_at_pc();
        match mode {
            AddrMode::Implied | AddrMode::Accumulator => (self, None),
            AddrMode::Immediate => (one, Some(self.pc)),
            AddrMode::Relative => (one, Some(branch_target(one.pc, byte))),
            AddrMode::ZeroPage => (one, Some(zero_page(byte))),
            AddrMode::ZeroPageX => (one, Some(zero_page(byte.wrapping_add(self.reg.x)))),
            AddrMode::ZeroPageY => (one, Some(zero_page(byte.wrapping_add(self.reg.y)))),
            AddrMode::Absolute => (two, Some(base)),
            AddrMode::AbsoluteX => (two, Some(base.wrapping_add(zero_page(self.reg.x)))),
            AddrMode::AbsoluteY => (two, Some(base.wrapping_add(zero_page(self.reg.y)))),
            AddrMode::Indirect => {
                let (after, target) = two.spec_read_u16(base);
                (after, Some(target))
            },
            AddrMode::IndexedIndirect => {
                let (after, target) = one.spec_read_u16(
                    zero_page(byte.wrapping_add(self.reg.x)),
                );
                (after, Some(target))
            },
            AddrMode::IndirectIndexed => {
                let (after, target) = one.spec_read_u16(zero_page(byte));
                (after, Some(target.wrapping_add(zero_page(self.reg.y))))
            },
        }
    }

    /// One instruction: the opcode is read at the program counter and
    /// decoded, the operand is resolved, and the operation is executed.
    pub open spec fn spec_step(self) -> Self {
        let (fetched, opcode) = self.spec_take_u8_at_pc();
        let (mode, op) = spec_decode(opcode);
        let (resolved, operand) = fetched.spec_resolve(mode);
        resolved.spec_execute(op, operand)
    }
}


// The instructions, one function each.
impl<B: Bus> Cpu6502<B> {
    /// Adds the operand and the carry to the accumulator in binary and sets
    /// carry, overflow, negative and zero, whatever the decimal flag says.
    /// Overflow is computed as the disagreement of two carries, which is the
    /// two's-complement overflow rule.
    fn binary_adc(&mut self, operand: u8)
        ensures
            *final(self) == old(self).with_reg(spec_binary_adc(old(self).reg, operand)),
            final(self).reg.overflow == carries_disagree(
                old(self).reg.a,
                operand,
                old(self).reg.carry,
            ),
    {
        let a = self.reg.a as u16;
        let operand = operand as u16;
        let carry: u16 = if self.reg.carry {
            1
        } else {
            0
        };
        let result = a + operand + carry;
        proof {
            lemma_word_operations(a);
            lemma_word_operations(operand);
            lemma_word_operations(result);
            lemma_overflow_rule(self.reg.a, operand as u8, self.reg.carry);
        }
        let seven_bit_result = (a & 0x7F) + (operand & 0x7F) + carry;
        let carry_out = result > 0xFF;
        let seven_bit_carry_out = seven_bit_result > 0x7F;
        self.reg.carry = carry_out;
        self.reg.overflow = carry_out != seven_bit_carry_out;
        self.reg.update_a(#[verifier::truncate] (result as u8));
    }

    // Branches

    fn bpl(&mut self, addr: u16)
        ensures
            *final(self) == old(self).spec_execute_at(Operation::Bpl, addr),
    {
        if !self.reg.negative {
            self.pc = addr;
        }
    }

    fn bmi(&mut self, addr: u16)
        ensures
            *final(self) == old(self).spec_execute_at(Operation::Bmi, addr),
    {
        if self.reg.negative {
            self.pc = addr;
        }
    }

    fn bvc(&mut self, addr: u16)
        ensures
            *final(self) == old(self).spec_execute_at(Operation::Bvc, addr),
    {
        if !self.reg.overflow {
            self.pc = addr;
        }
    }

    fn bvs(&mut self, addr: u16)
        ensures
            *final(self) == old(self).spec_execute_at(Operation::Bvs, addr),
    {
        if self.reg.overflow {
            self.pc = addr;
        }
    }

    fn bcc(&mut self, addr: u16)
        ensures
            *final(self) == old(self).spec_execute_at(Operation::Bcc, addr),
    {
        if !self.reg.carry {
            self.pc = addr;
        }
    }

    fn bcs(&mut self, addr: u16)
        ensures
            *final(self) == old(self).spec_execute_at(Operation::Bcs, addr),
    {
        if self.reg.carry {
            self.pc = addr;
        }
    }

    fn bne(&mut self, addr: u16)
        ensures
            *final(self) == old(self).spec_execute_at(Operation::Bne, addr),
    {
        if !self.reg.zero {
            self.pc = addr;
        }
    }

    fn beq(&mut self, addr: u16)
        ensures
            *final(self) == old(self).spec_execute_at(Operation::Beq, addr),
    {
        if self.reg.zero {
            self.pc = addr;
        }
    }

    // Flags

    fn clc_implied(&mut self)
        ensures
            *final(self) == old(self).spec_execute_implied(Operation::Clc),
    {
        self.reg.carry = false;
    }

    fn sec_implied(&mut self)
        ensures
            *final(self) == old(self).spec_execute_implied(Operation::Sec),
    {
        self.reg.carry = true;
    }

    fn cli_implied(&mut self)
        ensures
            *final(self) == old(self).spec_execute_implied(Operation::Cli),
    {
        self.reg.interrupt_disable = false;
    }

    fn sei_implied(&mut self)
        ensures
            *final(self) == old(self).spec_execute_implied(Operation::Sei),
    {
        self.reg.interrupt_disable = true;
    }

    fn cld_implied(&mut self)
        ensures
            *final(self) == old(self).spec_execute_implied(Operation::Cld),
    {
        self.reg.decimal = false;
    }

    fn sed_implied(&mut self)
        ensures
            *final(self) == old(self).spec_execute_implied(Operation::Sed),
    {
        self.reg.decimal = true;
    }

    fn clv_implied(&mut self)
        ensures
            *final(self) == old(self).spec_execute_implied(Operation::Clv),
    {
        self.reg.overflow = false;
    }

    // Jumps and subroutines

    fn jmp(&mut self, addr: u16)
        ensures
            *final(self) == old(self).spec_execute_at(Operation::Jmp, addr),
    {
        self.pc = addr;
    }

    fn jsr(&mut self, addr: u16)
        ensures
            *final(self) == old(self).spec_execute_at(Operation::Jsr, addr),
    {
        let return_addr = self.pc.wrapping_sub(1);
        let ret_low = low_byte(return_addr);
        let ret_high = high_byte(return_addr);
        self.stack_push(ret_high);
        self.stack_push(ret_low);
        self.pc = addr;
    }

    fn rts_implied(&mut self)
        ensures
            *final(self) == old(self).spec_execute_implied(Operation::Rts),
    {
        let ret_low = self.stack_pop();
        let ret_high = self.stack_pop();
        let return_addr = make_word(ret_low, ret_high);
        self.pc = return_addr.wrapping_add(1);
    }

    // Interrupts

    fn brk_implied(&mut self)
        ensures
            *final(self) == old(self).spec_execute_implied(Operation::Brk),
    {
        self.pc = self.pc.wrapping_add(1);
        self.interrupt(IRQ_BRK_VECTOR, true);
    }

    fn rti_implied(&mut self)
        ensures
            *final(self) == old(self).spec_execute_implied(Operation::Rti),
    {
        let status = self.stack_pop();
        self.reg.set_status(status);
        let ret_low = self.stack_pop();
        let ret_high = self.stack_pop();
        self.pc = make_word(ret_low, ret_high);
    }

    // Stack

    fn php_implied(&mut self)
        ensures
            *final(self) == old(self).spec_execute_implied(Operation::Php),
    {
        let status = self.reg.get_status(true);
        self.stack_push(status);
    }

    fn plp_implied(&mut self)
        ensures
            *final(self) == old(self).spec_execute_implied(Operation::Plp),
    {
        let status = self.stack_pop();
        self.reg.set_status(status);
    }

    fn pha_implied(&mut self)
        ensures
            *final(self) == old(self).spec_execute_implied(Operation::Pha),
    {
        let a = self.reg.a;
        self.stack_push(a);
    }

    fn pla_implied(&mut self)
        ensures
            *final(self) == old(self).spec_execute_implied(Operation::Pla),
    {
        let a = self.stack_pop();
        self.reg.update_a(a);
    }

    // Stores and loads

    fn sty(&mut self, addr: u16)
        ensures
            *final(self) == old(self).spec_execute_at(Operation::Sty, addr),
    {
        let value = self.reg.y;
        self.bus.write(addr, value);
    }

    fn ldy(&mut self, addr: u16)
        ensures
            *final(self) == old(self).spec_execute_at(Operation::Ldy, addr),
    {
        let n = self.bus.read(addr);
        self.reg.update_y(n);
    }

    fn stx(&mut self, addr: u16)
        ensures
            *final(self) == old(self).spec_execute_at(Operation::Stx, addr),
    {
        let value = self.reg.x;
        self.bus.write(addr, value);
    }

    fn ldx(&mut self, addr: u16)
        ensures
            *final(self) == old(self).spec_execute_at(Operation::Ldx, addr),
    {
        let n = self.bus.read(addr);
        self.reg.update_x(n);
    }

    fn sta(&mut self, addr: u16)
        ensures
            *final(self) == old(self).spec_execute_at(Operation::Sta, addr),
    {
        let value = self.reg.a;
        self.bus.write(addr, value);
    }

    fn lda(&mut self, addr: u16)
        ensures
            *final(self) == old(self).spec_execute_at(Operation::Lda, addr),
    {
        let n = self.bus.read(addr);
        self.reg.update_a(n);
    }

    // Transfers

    fn tya_implied(&mut self)
        ensures
            *final(self) == old(self).spec_execute_implied(Operation::Tya),
    {
        let value = self.reg.y;
        self.reg.update_a(value);
    }

    fn tay_implied(&mut self)
        ensures
            *final(self) == old(self).spec_execute_implied(Operation::Tay),
    {
        let value = self.reg.a;
        self.reg.update_y(value);
    }

    fn txa_implied(&mut self)
        ensures
            *final(self) == old(self).spec_execute_implied(Operation::Txa),
    {
        let value = self.reg.x;
        self.reg.update_a(value);
    }

    fn tax_implied(&mut self)
        ensures
            *final(self) == old(self).spec_execute_implied(Operation::Tax),
    {
        let value = self.reg.a;
        self.reg.update_x(value);
    }

    fn txs_implied(&mut self)
        ensures
            *final(self) == old(self).spec_execute_implied(Operation::Txs),
    {
        self.sp = self.reg.x;
    }

    fn tsx_implied(&mut self)
        ensures
            *final(self) == old(self).spec_execute_implied(Operation::Tsx),
    {
        let value = self.sp;
        self.reg.update_x(value);
    }

    // Increments and decrements

    fn iny_implied(&mut self)
        ensures
            *final(self) == old(self).spec_execute_implied(Operation::Iny),
    {
        let value = self.reg.y.wrapping_add(1);
        self.reg.update_y(value);
    }

    fn dey_implied(&mut self)
        ensures
            *final(self) == old(self).spec_execute_implied(Operation::Dey),
    {
        let value = self.reg.y.wrapping_sub(1);
        self.reg.update_y(value);
    }

    fn inx_implied(&mut self)
        ensures
            *final(self) == old(self).spec_execute_implied(Operation::Inx),
    {
        let value = self.reg.x.wrapping_add(1);
        self.reg.update_x(value);
    }

    fn dex_implied(&mut self)
        ensures
            *final(self) == old(self).spec_execute_implied(Operation::Dex),
    {
        let value = self.reg.x.wrapping_sub(1);
        self.reg.update_x(value);
    }

    fn inc(&mut self, addr: u16)
        ensures
            *final(self) == old(self).spec_execute_at(Operation::Inc, addr),
    {
        let n = self.bus.read(addr);
        let result = n.wrapping_add(1);
        self.bus.write(addr, result);
        self.reg.update_nz_flags(result);
    }

    fn dec(&mut self, addr: u16)
        ensures
            *final(self) == old(self).spec_execute_at(Operation::Dec, addr),
    {
        let n = self.bus.read(addr);
        let result = n.wrapping_sub(1);
        self.bus.write(addr, result);
        self.reg.update_nz_flags(result);
    }

    // Comparisons

    fn cpy(&mut self, addr: u16)
        ensures
            *final(self) == old(self).spec_execute_at(Operation::Cpy, addr),
    {
        let n = self.bus.read(addr);
        let register = self.reg.y;
        self.reg.update_nz_flags(register.wrapping_sub(n));
        self.reg.carry = register >= n;
    }

    fn cpx(&mut self, addr: u16)
        ensures
            *final(self) == old(self).spec_execute_at(Operation::Cpx, addr),
    {
        let n = self.bus.read(addr);
        let register = self.reg.x;
        self.reg.update_nz_flags(register.wrapping_sub(n));
        self.reg.carry = register >= n;
    }

    fn cmp(&mut self, addr: u16)
        ensures
            *final(self) == old(self).spec_execute_at(Operation::Cmp, addr),
    {
        let n = self.bus.read(addr);
        let register = self.reg.a;
        self.reg.update_nz_flags(register.wrapping_sub(n));
        self.reg.carry = register >= n;
    }

    // Arithmetic

    fn adc(&mut self, addr: u16)
        ensures
            *final(self) == old(self).spec_execute_at(Operation::Adc, addr),
    {
        let operand = self.bus.read(addr);
        let a = self.reg.a;
        let carry = self.reg.carry;
        self.binary_adc(operand);
        if self.reg.decimal {
            let (result, carry_out) = decimal_add(a, operand, carry);
            self.reg.carry = carry_out;
            self.reg.update_a(result);
        }
    }

    fn sbc(&mut self, addr: u16)
        ensures
            *final(self) == old(self).spec_execute_at(Operation::Sbc, addr),
    {
        let operand = self.bus.read(addr);
        let a = self.reg.a;
        let carry = self.reg.carry;
        proof {
            lemma_byte_operations(operand);
            lemma_subtract_is_add_complement(self.reg, operand);
        }
        self.binary_adc(!operand);
        if self.reg.decimal {
            let (result, carry_out) = decimal_subtract(a, operand, carry);
            self.reg.carry = carry_out;
            self.reg.update_a(result);
        }
    }

    // Logic

    fn ora(&mut self, addr: u16)
        ensures
            *final(self) == old(self).spec_execute_at(Operation::Ora, addr),
    {
        let n = self.bus.read(addr);
        let value = self.reg.a | n;
        self.reg.update_a(value);
    }

    fn and(&mut self, addr: u16)
        ensures
            *final(self) == old(self).spec_execute_at(Operation::And, addr),
    {
        let n = self.bus.read(addr);
        let value = self.reg.a & n;
        self.reg.update_a(value);
    }

    fn eor(&mut self, addr: u16)
        ensures
            *final(self) == old(self).spec_execute_at(Operation::Eor, addr),
    {
        let n = self.bus.read(addr);
        let value = self.reg.a ^ n;
        self.reg.update_a(value);
    }

    fn bit(&mut self, addr: u16)
        ensures
            *final(self) == old(self).spec_execute_at(Operation::Bit, addr),
    {
        let n = self.bus.read(addr);
        proof {
            lemma_bit_tests(n);
        }
        self.reg.zero = self.reg.a & n == 0;
        self.reg.negative = n & 0b1000_0000 != 0;
        self.reg.overflow = n & 0b0100_0000 != 0;
    }

    // Shifts and rotations, in memory and on the accumulator

    fn asl(&mut self, addr: u16)
        ensures
            *final(self) == old(self).spec_execute_at(Operation::Asl, addr),
    {
        let n = self.bus.read(addr);
        proof {
            lemma_bit_tests(n);
            lemma_shift_left(n);
        }
        self.reg.carry = n & 0b1000_0000 != 0;
        let result = n << 1;
        self.bus.write(addr, result);
        self.reg.update_nz_flags(result);
    }

    fn asl_implied(&mut self)
        ensures
            *final(self) == old(self).spec_execute_implied(Operation::Asl),
    {
        let a = self.reg.a;
        proof {
            lemma_bit_tests(a);
            lemma_shift_left(a);
        }
        self.reg.carry = a & 0b1000_0000 != 0;
        self.reg.update_a(a << 1);
    }

    fn rol(&mut self, addr: u16)
        ensures
            *final(self) == old(self).spec_execute_at(Operation::Rol, addr),
    {
        let n = self.bus.read(addr);
        let carry: u8 = if self.reg.carry {
            1
        } else {
            0
        };
        proof {
            lemma_bit_tests(n);
            lemma_shift_in_left(n, carry);
        }
        self.reg.carry = n & 0b1000_0000 != 0;
        let result = (n << 1) | carry;
        self.bus.write(addr, result);
        self.reg.update_nz_flags(result);
    }

    fn rol_implied(&mut self)
        ensures
            *final(self) == old(self).spec_execute_implied(Operation::Rol),
    {
        let a = self.reg.a;
        let carry: u8 = if self.reg.carry {
            1
        } else {
            0
        };
        proof {
            lemma_bit_tests(a);
            lemma_shift_in_left(a, carry);
        }
        self.reg.carry = a & 0b1000_0000 != 0;
        self.reg.update_a((a << 1) | carry);
    }

    fn lsr(&mut self, addr: u16)
        ensures
            *final(self) == old(self).spec_execute_at(Operation::Lsr, addr),
    {
        let n = self.bus.read(addr);
        proof {
            lemma_bit_tests(n);
            lemma_byte_operations(n);
        }
        self.reg.carry = n & 0b0000_0001 != 0;
        let result = n >> 1;
        self.bus.write(addr, result);
        self.reg.update_nz_flags(result);
    }

    fn lsr_implied(&mut self)
        ensures
            *final(self) == old(self).spec_execute_implied(Operation::Lsr),
    {
        let a = self.reg.a;
        proof {
            lemma_bit_tests(a);
            lemma_byte_operations(a);
        }
        self.reg.carry = a & 0b0000_0001 != 0;
        self.reg.update_a(a >> 1);
    }

    fn ror(&mut self, addr: u16)
        ensures
            *final(self) == old(self).spec_execute_at(Operation::Ror, addr),
    {
        let n = self.bus.read(addr);
        let carry: u8 = if self.reg.carry {
            0b1000_0000
        } else {
            0
        };
        proof {
            lemma_bit_tests(n);
            lemma_shift_in_right(n, carry);
        }
        self.reg.carry = n & 0b0000_0001 != 0;
        let result = (n >> 1) | carry;
        self.bus.write(addr, result);
        self.reg.update_nz_flags(result);
    }

    fn ror_implied(&mut self)
        ensures
            *final(self) == old(self).spec_execute_implied(Operation::Ror),
    {
        let a = self.reg.a;
        let carry: u8 = if self.reg.carry {
            0b1000_0000
        } else {
            0
        };
        proof {
            lemma_bit_tests(a);
            lemma_shift_in_right(a, carry);
        }
        self.reg.carry = a & 0b0000_0001 != 0;
        self.reg.update_a((a >> 1) | carry);
    }

    // No operation

    fn nop_implied(&mut self)
        ensures
            *final(self) == *old(self),
    {
    }

    // Dispatch

    /// Executes an operation that works without an effective address. The
    /// shifts work on the accumulator; an operation that needs an address does
    /// nothing.
    fn execute_implied(&mut self, op: Operation)
        ensures
            *final(self) == old(self).spec_execute_implied(op),
    {
        match op {
            Operation::Brk => self.brk_implied(),
            Operation::Rti => self.rti_implied(),
            Operation::Rts => self.rts_implied(),
            Operation::Php => self.php_implied(),
            Operation::Plp => self.plp_implied(),
            Operation::Pha => self.pha_implied(),
            Operation::Pla => self.pla_implied(),
            Operation::Clc => self.clc_implied(),
            Operation::Sec => self.sec_implied(),
            Operation::Cli => self.cli_implied(),
            Operation::Sei => self.sei_implied(),
            Operation::Cld => self.cld_implied(),
            Operation::Sed => self.sed_implied(),
            Operation::Clv => self.clv_implied(),
            Operation::Tya => self.tya_implied(),
            Operation::Tay => self.tay_implied(),
            Operation::Txa => self.txa_implied(),
            Operation::Tax => self.tax_implied(),
            Operation::Txs => self.txs_implied(),
            Operation::Tsx => self.tsx_implied(),
            Operation::Iny => self.iny_implied(),
            Operation::Dey => self.dey_implied(),
            Operation::Inx => self.inx_implied(),
            Operation::Dex => self.dex_implied(),
            Operation::Asl => self.asl_implied(),
            Operation::Rol => self.rol_implied(),
            Operation::Lsr => self.lsr_implied(),
            Operation::Ror => self.ror_implied(),
            _ => self.nop_implied(),
        }
    }

    /// Executes an operation on the operand that the addressing mode gave.
    fn execute(&mut self, op: Operation, operand: Option<u16>)
        ensures
            *final(self) == old(self).spec_execute(op, operand),
    {
        match operand {
            Some(addr) => match op {
                Operation::Adc => self.adc(addr),
                Operation::And => self.and(addr),
                Operation::Asl => self.asl(addr),
                Operation::Bcc => self.bcc(addr),
                Operation::Bcs => self.bcs(addr),
                Operation::Beq => self.beq(addr),
                Operation::Bit => self.bit(addr),
                Operation::Bmi => self.bmi(addr),
                Operation::Bne => self.bne(addr),
                Operation::Bpl => self.bpl(addr),
                Operation::Bvc => self.bvc(addr),
                Operation::Bvs => self.bvs(addr),
                Operation::Cmp => self.cmp(addr),
                Operation::Cpx => self.cpx(addr),
                Operation::Cpy => self.cpy(addr),
                Operation::Dec => self.dec(addr),
                Operation::Eor => self.eor(addr),
                Operation::Inc => self.inc(addr),
                Operation::Jmp => self.jmp(addr),
                Operation::Jsr => self.jsr(addr),
                Operation::Lda => self.lda(addr),
                Operation::Ldx => self.ldx(addr),
                Operation::Ldy => self.ldy(addr),
                Operation::Lsr => self.lsr(addr),
                Operation::Ora => self.ora(addr),
                Operation::Rol => self.rol(addr),
                Operation::Ror => self.ror(addr),
                Operation::Sbc => self.sbc(addr),
                Operation::Sta => self.sta(addr),
                Operation::Stx => self.stx(addr),
                Operation::Sty => self.sty(addr),
                _ => self.execute_implied(op),
            },
            None => self.execute_implied(op),
        }
    }

    /// Reads the operand bytes of an instruction and computes its effective
    /// address, if its addressing mode has one.
    fn resolve(&mut self, mode: AddrMode) -> (operand: Option<u16>)
        ensures
            (*final(self), operand) == old(self).spec_resolve(mode),
    {
        match mode {
            AddrMode::Implied | AddrMode::Accumulator => None,
            AddrMode::Immediate => {
                let addr = self.pc;
                self.take_u8_at_pc();
                Some(addr)
            },
            AddrMode::Relative => {
                let offset = self.take_u8_at_pc();
                Some(add_offset(self.pc, offset))
            },
            AddrMode::ZeroPage => {
                let byte = self.take_u8_at_pc();
                Some(zero_page_address(byte))
            },
            AddrMode::ZeroPageX => {
                let byte = self.take_u8_at_pc();
                Some(zero_page_address(byte.wrapping_add(self.reg.x)))
            },
            AddrMode::ZeroPageY => {
                let byte = self.take_u8_at_pc();
                Some(zero_page_address(byte.wrapping_add(self.reg.y)))
            },
            AddrMode::Absolute => {
                let addr = self.take_u16_at_pc();
                Some(addr)
            },
            AddrMode::AbsoluteX => {
                let base = self.take_u16_at_pc();
                Some(base.wrapping_add(zero_page_address(self.reg.x)))
            },
            AddrMode::AbsoluteY => {
                let base = self.take_u16_at_pc();
                Some(base.wrapping_add(zero_page_address(self.reg.y)))
            },
            AddrMode::Indirect => {
                let pointer = self.take_u16_at_pc();
                let addr = self.read_u16(pointer);
                Some(addr)
            },
            AddrMode::IndexedIndirect => {
                let byte = self.take_u8_at_pc();
                let pointer = zero_page_address(byte.wrapping_add(self.reg.x));
                let addr = self.read_u16(pointer);
                Some(addr)
            },
            AddrMode::IndirectIndexed => {
                let byte = self.take_u8_at_pc();
                let base = self.read_u16(zero_page_address(byte));
                Some(base.wrapping_add(zero_page_address(self.reg.y)))
            },
        }
    }

    /// Executes exactly one instruction: fetches the opcode at the program
    /// counter, decodes it, resolves its operand and performs its operation.
    /// Every opcode is executed; none fails.
    ///
    /// Unless the instruction is a jump, a call, a return or the software
    /// interrupt, the program counter ends at the instruction that follows,
    /// or, after a branch that is taken, at the target of the branch.
    pub fn step(&mut self)
        ensures
            *final(self) == old(self).spec_step(),
            ({
                let opcode = old(self).bus.peek(old(self).pc);
                let op = spec_decode(opcode).1;
                let following = following_address(old(self).pc, opcode);
                let offset = old(self).bus.after_read(old(self).pc).peek(
                    old(self).pc.wrapping_add(1),
                );
                !op.is_transfer() ==> final(self).pc == if op.is_branch() && branch_taken(
                    op,
                    old(self).reg,
                ) {
                    branch_target(following, offset)
                } else {
                    following
                }
            }),
    {
        proof {
            if !spec_decode(self.bus.peek(self.pc)).1.is_transfer() {
                lemma_step_advances_pc(*self);
            }
        }
        let opcode = self.take_u8_at_pc();
        let (mode, op) = decode(opcode);
        let operand = self.resolve(mode);
        self.execute(op, operand);
    }
}

} // verus!
