//! Instruction decoding: from an opcode byte to an addressing mode and an
//! operation.

use vstd::prelude::*;

verus! {

/// How an instruction finds its operand.
#[derive(Debug, Clone, Copy, PartialEq, Eq, Hash, Structural)]
pub enum AddrMode {
    /// No operand.
    Implied,
    /// The operand is the accumulator.
    Accumulator,
    /// The operand is the byte that follows the opcode.
    Immediate,
    /// A signed offset from the address of the next instruction.
    Relative,
    /// An address in the zero page.
    ZeroPage,
    /// An address in the zero page, plus X, kept within the zero page.
    ZeroPageX,
    /// An address in the zero page, plus Y, kept within the zero page.
    ZeroPageY,
    /// A 16-bit address, low byte first.
    Absolute,
    /// A 16-bit address plus X.
    AbsoluteX,
    /// A 16-bit address plus Y.
    AbsoluteY,
    /// A 16-bit address that holds the address of the operand.
    Indirect,
    /// An address in the zero page, plus X, that holds the address of the
    /// operand.
    IndexedIndirect,
    /// An address in the zero page that holds an address, to which Y is added.
    IndirectIndexed,
}

/// What an instruction does, by its mnemonic. Opcodes that stand for no
/// documented instruction decode to `Nop`.
#[derive(Debug, Clone, Copy, PartialEq, Eq, Hash, Structural)]
pub enum Operation {
    /// Add memory and carry to the accumulator.
    Adc,
    /// And memory with the accumulator.
    And,
    /// Shift left.
    Asl,
    /// Branch if carry is clear.
    Bcc,
    /// Branch if carry is set.
    Bcs,
    /// Branch if zero is set.
    Beq,
    /// Test bits of memory against the accumulator.
    Bit,
    /// Branch if negative is set.
    Bmi,
    /// Branch if zero is clear.
    Bne,
    /// Branch if negative is clear.
    Bpl,
    /// Software interrupt.
    Brk,
    /// Branch if overflow is clear.
    Bvc,
    /// Branch if overflow is set.
    Bvs,
    /// Clear carry.
    Clc,
    /// Clear decimal mode.
    Cld,
    /// Enable interrupts.
    Cli,
    /// Clear overflow.
    Clv,
    /// Compare memory with the accumulator.
    Cmp,
    /// Compare memory with X.
    Cpx,
    /// Compare memory with Y.
    Cpy,
    /// Decrement memory.
    Dec,
    /// Decrement X.
    Dex,
    /// Decrement Y.
    Dey,
    /// Exclusive-or memory with the accumulator.
    Eor,
    /// Increment memory.
    Inc,
    /// Increment X.
    Inx,
    /// Increment Y.
    Iny,
    /// Jump.
    Jmp,
    /// Call a subroutine.
    Jsr,
    /// Load the accumulator.
    Lda,
    /// Load X.
    Ldx,
    /// Load Y.
    Ldy,
    /// Shift right.
    Lsr,
    /// Do nothing.
    Nop,
    /// Or memory with the accumulator.
    Ora,
    /// Push the accumulator.
    Pha,
    /// Push the status byte.
    Php,
    /// Pull the accumulator.
    Pla,
    /// Pull the status byte.
    Plp,
    /// Rotate left through carry.
    Rol,
    /// Rotate right through carry.
    Ror,
    /// Return from an interrupt.
    Rti,
    /// Return from a subroutine.
    Rts,
    /// Subtract memory and borrow from the accumulator.
    Sbc,
    /// Set carry.
    Sec,
    /// Set decimal mode.
    Sed,
    /// Disable interrupts.
    Sei,
    /// Store the accumulator.
    Sta,
    /// Store X.
    Stx,
    /// Store Y.
    Sty,
    /// Transfer the accumulator to X.
    Tax,
    /// Transfer the accumulator to Y.
    Tay,
    /// Transfer the stack pointer to X.
    Tsx,
    /// Transfer X to the accumulator.
    Txa,
    /// Transfer X to the stack pointer.
    Txs,
    /// Transfer Y to the accumulator.
    Tya,
}

impl AddrMode {
    /// The number of operand bytes that follow the opcode.
    pub open spec fn operand_len(self) -> int {
        match self {
            AddrMode::Implied | AddrMode::Accumulator => 0,
            AddrMode::Absolute | AddrMode::AbsoluteX | AddrMode::AbsoluteY | AddrMode::Indirect => 2,
            _ => 1,
        }
    }

    /// Whether the mode yields an effective address.
    pub open spec fn has_address(self) -> bool {
        self != AddrMode::Implied && self != AddrMode::Accumulator
    }
}

impl Operation {
    /// Whether the operation is one of the eight conditional branches.
    pub open spec fn is_branch(self) -> bool {
        matches!(
            self,
            Operation::Bpl | Operation::Bmi | Operation::Bvc | Operation::Bvs | Operation::Bcc
                | Operation::Bcs | Operation::Bne | Operation::Beq
        )
    }

    /// Whether the operation loads the program counter from elsewhere than
    /// the instruction stream: jump, call, the two returns and the software
    /// interrupt.
    pub open spec fn is_transfer(self) -> bool {
        matches!(
            self,
            Operation::Jmp | Operation::Jsr | Operation::Rts | Operation::Rti | Operation::Brk
        )
    }

    /// Whether the operation shifts or rotates, and so works on the
    /// accumulator as well as on memory.
    pub open spec fn is_shift(self) -> bool {
        matches!(self, Operation::Asl | Operation::Rol | Operation::Lsr | Operation::Ror)
    }

    /// Whether the operation changes a byte in place: increment, decrement,
    /// shift or rotation.
    pub open spec fn is_modification(self) -> bool {
        self.is_shift() || self == Operation::Inc || self == Operation::Dec
    }

    /// Whether the operation leaves its result in the accumulator.
    pub open spec fn loads_a(self) -> bool {
        matches!(
            self,
            Operation::Lda | Operation::Txa | Operation::Tya | Operation::Pla | Operation::And
                | Operation::Ora | Operation::Eor | Operation::Adc | Operation::Sbc
        )
    }

    /// Whether the operation leaves its result in index register X.
    pub open spec fn loads_x(self) -> bool {
        matches!(
            self,
            Operation::Ldx | Operation::Tax | Operation::Tsx | Operation::Inx | Operation::Dex
        )
    }

    /// Whether the operation leaves its result in index register Y.
    pub open spec fn loads_y(self) -> bool {
        matches!(self, Operation::Ldy | Operation::Tay | Operation::Iny | Operation::Dey)
    }

    /// Whether the operation compares a register with its operand.
    pub open spec fn is_comparison(self) -> bool {
        matches!(self, Operation::Cmp | Operation::Cpx | Operation::Cpy)
    }

    /// Whether the operation sets the negative and zero flags from a result:
    /// a load, a transfer into a register, arithmetic, logic, a comparison or
    /// a change in place.
    pub open spec fn reports_result(self) -> bool {
        self.loads_a() || self.loads_x() || self.loads_y() || self.is_comparison()
            || self.is_modification()
    }

    /// Whether the operation works on an effective address.
    pub open spec fn takes_address(self) -> bool {
        matches!(
            self,
            Operation::Adc | Operation::And | Operation::Asl | Operation::Bcc | Operation::Bcs
                | Operation::Beq | Operation::Bit | Operation::Bmi | Operation::Bne
                | Operation::Bpl | Operation::Bvc | Operation::Bvs | Operation::Cmp
                | Operation::Cpx | Operation::Cpy | Operation::Dec | Operation::Eor
                | Operation::Inc | Operation::Jmp | Operation::Jsr | Operation::Lda
                | Operation::Ldx | Operation::Ldy | Operation::Lsr | Operation::Ora
                | Operation::Rol | Operation::Ror | Operation::Sbc | Operation::Sta
                | Operation::Stx | Operation::Sty
        )
    }
}

/// The row of an opcode in the opcode matrix: its top three bits. Within a
/// group the row mostly picks the operation.
pub open spec fn opcode_row(opcode: u8) -> int {
    opcode as int / 32
}

/// The column of an opcode: its middle three bits. Within a group the column
/// mostly picks the addressing mode.
pub open spec fn opcode_column(opcode: u8) -> int {
    (opcode as int / 4) % 8
}

/// The group of an opcode: its low two bits.
pub open spec fn opcode_group(opcode: u8) -> int {
    opcode as int % 4
}

/// The addressing mode of each column in the group of the accumulator
/// arithmetic.
pub open spec fn arithmetic_mode(column: int) -> AddrMode {
    if column == 0 {
        AddrMode::IndexedIndirect
    } else if column == 1 {
        AddrMode::ZeroPage
    } else if column == 2 {
        AddrMode::Immediate
    } else if column == 3 {
        AddrMode::Absolute
    } else if column == 4 {
        AddrMode::IndirectIndexed
    } else if column == 5 {
        AddrMode::ZeroPageX
    } else if column == 6 {
        AddrMode::AbsoluteY
    } else {
        AddrMode::AbsoluteX
    }
}

/// The operation of each row in the group of the accumulator arithmetic.
pub open spec fn arithmetic_operation(row: int) -> Operation {
    if row == 0 {
        Operation::Ora
    } else if row == 1 {
        Operation::And
    } else if row == 2 {
        Operation::Eor
    } else if row == 3 {
        Operation::Adc
    } else if row == 4 {
        Operation::Sta
    } else if row == 5 {
        Operation::Lda
    } else if row == 6 {
        Operation::Cmp
    } else {
        Operation::Sbc
    }
}

/// The group of the accumulator arithmetic (low bits 01): eight operations,
/// each in the same eight addressing modes. Only a store to an immediate
/// operand does not exist.
pub open spec fn decode_arithmetic(row: int, column: int) -> (AddrMode, Operation) {
    if row == 4 && column == 2 {
        (AddrMode::Immediate, Operation::Nop)
    } else {
        (arithmetic_mode(column), arithmetic_operation(row))
    }
}

/// The operation of each row in the group of the shifts.
pub open spec fn shift_operation(row: int) -> Operation {
    if row == 0 {
        Operation::Asl
    } else if row == 1 {
        Operation::Rol
    } else if row == 2 {
        Operation::Lsr
    } else if row == 3 {
        Operation::Ror
    } else if row == 4 {
        Operation::Stx
    } else if row == 5 {
        Operation::Ldx
    } else if row == 6 {
        Operation::Dec
    } else {
        Operation::Inc
    }
}

/// The group of the shifts, of the X register and of increment and decrement
/// in memory (low bits 10). Rows 4 and 5, store and load X, index by Y where
/// the others index by X.
pub open spec fn decode_shift(row: int, column: int) -> (AddrMode, Operation) {
    let by_y = row == 4 || row == 5;
    if column == 0 {
        if row == 5 {
            (AddrMode::Immediate, Operation::Ldx)
        } else if row < 4 {
            (AddrMode::Implied, Operation::Nop)
        } else {
            (AddrMode::Immediate, Operation::Nop)
        }
    } else if column == 1 {
        (AddrMode::ZeroPage, shift_operation(row))
    } else if column == 2 {
        if row < 4 {
            (AddrMode::Accumulator, shift_operation(row))
        } else if row == 4 {
            (AddrMode::Implied, Operation::Txa)
        } else if row == 5 {
            (AddrMode::Implied, Operation::Tax)
        } else if row == 6 {
            (AddrMode::Implied, Operation::Dex)
        } else {
            (AddrMode::Implied, Operation::Nop)
        }
    } else if column == 3 {
        (AddrMode::Absolute, shift_operation(row))
    } else if column == 4 {
        (AddrMode::Implied, Operation::Nop)
    } else if column == 5 {
        (
            if by_y {
                AddrMode::ZeroPageY
            } else {
                AddrMode::ZeroPageX
            },
            shift_operation(row),
        )
    } else if column == 6 {
        if row == 4 {
            (AddrMode::Implied, Operation::Txs)
        } else if row == 5 {
            (AddrMode::Implied, Operation::Tsx)
        } else {
            (AddrMode::Implied, Operation::Nop)
        }
    } else {
        if row == 4 {
            (AddrMode::AbsoluteY, Operation::Nop)
        } else if row == 5 {
            (AddrMode::AbsoluteY, Operation::Ldx)
        } else {
            (AddrMode::AbsoluteX, shift_operation(row))
        }
    }
}

/// The operation of each row in the columns of the Y register and of the
/// comparisons of X and Y, where the row has one.
pub open spec fn index_operation(row: int) -> Operation {
    if row == 4 {
        Operation::Sty
    } else if row == 5 {
        Operation::Ldy
    } else if row == 6 {
        Operation::Cpy
    } else if row == 7 {
        Operation::Cpx
    } else {
        Operation::Nop
    }
}

/// The branch of each row: the rows go through the negative, overflow, carry
/// and zero flag, each first clear, then set.
pub open spec fn branch_operation(row: int) -> Operation {
    if row == 0 {
        Operation::Bpl
    } else if row == 1 {
        Operation::Bmi
    } else if row == 2 {
        Operation::Bvc
    } else if row == 3 {
        Operation::Bvs
    } else if row == 4 {
        Operation::Bcc
    } else if row == 5 {
        Operation::Bcs
    } else if row == 6 {
        Operation::Bne
    } else {
        Operation::Beq
    }
}

/// The operations without operand of column 2 in the control group: the
/// stack, and the Y and X register.
pub open spec fn stack_operation(row: int) -> Operation {
    if row == 0 {
        Operation::Php
    } else if row == 1 {
        Operation::Plp
    } else if row == 2 {
        Operation::Pha
    } else if row == 3 {
        Operation::Pla
    } else if row == 4 {
        Operation::Dey
    } else if row == 5 {
        Operation::Tay
    } else if row == 6 {
        Operation::Iny
    } else {
        Operation::Inx
    }
}

/// The operations without operand of column 6 in the control group: the
/// flags, and the transfer from Y.
pub open spec fn flag_operation(row: int) -> Operation {
    if row == 0 {
        Operation::Clc
    } else if row == 1 {
        Operation::Sec
    } else if row == 2 {
        Operation::Cli
    } else if row == 3 {
        Operation::Sei
    } else if row == 4 {
        Operation::Tya
    } else if row == 5 {
        Operation::Clv
    } else if row == 6 {
        Operation::Cld
    } else {
        Operation::Sed
    }
}

/// The control group (low bits 00): interrupt, call and returns, bit test,
/// jumps, the Y register, comparisons of X and Y, branches, stack and flags.
pub open spec fn decode_control(row: int, column: int) -> (AddrMode, Operation) {
    if column == 0 {
        if row == 0 {
            (AddrMode::Implied, Operation::Brk)
        } else if row == 1 {
            (AddrMode::Absolute, Operation::Jsr)
        } else if row == 2 {
            (AddrMode::Implied, Operation::Rti)
        } else if row == 3 {
            (AddrMode::Implied, Operation::Rts)
        } else if row == 4 {
            (AddrMode::Immediate, Operation::Nop)
        } else {
            (AddrMode::Immediate, index_operation(row))
        }
    } else if column == 1 {
        if row == 1 {
            (AddrMode::ZeroPage, Operation::Bit)
        } else {
            (AddrMode::ZeroPage, index_operation(row))
        }
    } else if column == 2 {
        (AddrMode::Implied, stack_operation(row))
    } else if column == 3 {
        if row == 1 {
            (AddrMode::Absolute, Operation::Bit)
        } else if row == 2 {
            (AddrMode::Absolute, Operation::Jmp)
        } else if row == 3 {
            (AddrMode::Indirect, Operation::Jmp)
        } else {
            (AddrMode::Absolute, index_operation(row))
        }
    } else if column == 4 {
        (AddrMode::Relative, branch_operation(row))
    } else if column == 5 {
        if row == 4 || row == 5 {
            (AddrMode::ZeroPageX, index_operation(row))
        } else {
            (AddrMode::ZeroPageX, Operation::Nop)
        }
    } else if column == 6 {
        (AddrMode::Implied, flag_operation(row))
    } else {
        if row == 5 {
            (AddrMode::AbsoluteX, Operation::Ldy)
        } else {
            (AddrMode::AbsoluteX, Operation::Nop)
        }
    }
}

/// The group without documented instructions (low bits 11). Its opcodes do
/// nothing, in the addressing mode of their column; rows 4 and 5 index by Y
/// where the others index by X.
pub open spec fn decode_undocumented(row: int, column: int) -> (AddrMode, Operation) {
    let by_y = row == 4 || row == 5;
    if by_y && column == 5 {
        (AddrMode::ZeroPageY, Operation::Nop)
    } else if by_y && column == 7 {
        (AddrMode::AbsoluteY, Operation::Nop)
    } else {
        (arithmetic_mode(column), Operation::Nop)
    }
}

/// The addressing mode and the operation of an opcode.
pub open spec fn spec_decode(opcode: u8) -> (AddrMode, Operation) {
    let row = opcode_row(opcode);
    let column = opcode_column(opcode);
    let group = opcode_group(opcode);
    if group == 0 {
        decode_control(row, column)
    } else if group == 1 {
        decode_arithmetic(row, column)
    } else if group == 2 {
        decode_shift(row, column)
    } else {
        decode_undocumented(row, column)
    }
}

/// The length of the instruction that an opcode starts, in bytes.
pub open spec fn instruction_length(opcode: u8) -> int {
    1 + spec_decode(opcode).0.operand_len()
}

/// Decodes an opcode. Every byte decodes; those that stand for no documented
/// instruction decode to `Nop` in the addressing mode of their place in the
/// opcode matrix.
pub fn decode(opcode: u8) -> (instruction: (AddrMode, Operation))
    ensures
        instruction == spec_decode(opcode),
{
    match opcode {
        0x00 => (AddrMode::Implied, Operation::Brk),
        0x01 => (AddrMode::IndexedIndirect, Operation::Ora),
        0x02 => (AddrMode::Implied, Operation::Nop),
        0x03 => (AddrMode::IndexedIndirect, Operation::Nop),
        0x04 => (AddrMode::ZeroPage, Operation::Nop),
        0x05 => (AddrMode::ZeroPage, Operation::Ora),
        0x06 => (AddrMode::ZeroPage, Operation::Asl),
        0x07 => (AddrMode::ZeroPage, Operation::Nop),
        0x08 => (AddrMode::Implied, Operation::Php),
        0x09 => (AddrMode::Immediate, Operation::Ora),
        0x0A => (AddrMode::Accumulator, Operation::Asl),
        0x0B => (AddrMode::Immediate, Operation::Nop),
        0x0C => (AddrMode::Absolute, Operation::Nop),
        0x0D => (AddrMode::Absolute, Operation::Ora),
        0x0E => (AddrMode::Absolute, Operation::Asl),
        0x0F => (AddrMode::Absolute, Operation::Nop),
        0x10 => (AddrMode::Relative, Operation::Bpl),
        0x11 => (AddrMode::IndirectIndexed, Operation::Ora),
        0x12 => (AddrMode::Implied, Operation::Nop),
        0x13 => (AddrMode::IndirectIndexed, Operation::Nop),
        0x14 => (AddrMode::ZeroPageX, Operation::Nop),
        0x15 => (AddrMode::ZeroPageX, Operation::Ora),
        0x16 => (AddrMode::ZeroPageX, Operation::Asl),
        0x17 => (AddrMode::ZeroPageX, Operation::Nop),
        0x18 => (AddrMode::Implied, Operation::Clc),
        0x19 => (AddrMode::AbsoluteY, Operation::Ora),
        0x1A => (AddrMode::Implied, Operation::Nop),
        0x1B => (AddrMode::AbsoluteY, Operation::Nop),
        0x1C => (AddrMode::AbsoluteX, Operation::Nop),
        0x1D => (AddrMode::AbsoluteX, Operation::Ora),
        0x1E => (AddrMode::AbsoluteX, Operation::Asl),
        0x1F => (AddrMode::AbsoluteX, Operation::Nop),
        0x20 => (AddrMode::Absolute, Operation::Jsr),
        0x21 => (AddrMode::IndexedIndirect, Operation::And),
        0x22 => (AddrMode::Implied, Operation::Nop),
        0x23 => (AddrMode::IndexedIndirect, Operation::Nop),
        0x24 => (AddrMode::ZeroPage, Operation::Bit),
        0x25 => (AddrMode::ZeroPage, Operation::And),
        0x26 => (AddrMode::ZeroPage, Operation::Rol),
        0x27 => (AddrMode::ZeroPage, Operation::Nop),
        0x28 => (AddrMode::Implied, Operation::Plp),
        0x29 => (AddrMode::Immediate, Operation::And),
        0x2A => (AddrMode::Accumulator, Operation::Rol),
        0x2B => (AddrMode::Immediate, Operation::Nop),
        0x2C => (AddrMode::Absolute, Operation::Bit),
        0x2D => (AddrMode::Absolute, Operation::And),
        0x2E => (AddrMode::Absolute, Operation::Rol),
        0x2F => (AddrMode::Absolute, Operation::Nop),
        0x30 => (AddrMode::Relative, Operation::Bmi),
        0x31 => (AddrMode::IndirectIndexed, Operation::And),
        0x32 => (AddrMode::Implied, Operation::Nop),
        0x33 => (AddrMode::IndirectIndexed, Operation::Nop),
        0x34 => (AddrMode::ZeroPageX, Operation::Nop),
        0x35 => (AddrMode::ZeroPageX, Operation::And),
        0x36 => (AddrMode::ZeroPageX, Operation::Rol),
        0x37 => (AddrMode::ZeroPageX, Operation::Nop),
        0x38 => (AddrMode::Implied, Operation::Sec),
        0x39 => (AddrMode::AbsoluteY, Operation::And),
        0x3A => (AddrMode::Implied, Operation::Nop),
        0x3B => (AddrMode::AbsoluteY, Operation::Nop),
        0x3C => (AddrMode::AbsoluteX, Operation::Nop),
        0x3D => (AddrMode::AbsoluteX, Operation::And),
        0x3E => (AddrMode::AbsoluteX, Operation::Rol),
        0x3F => (AddrMode::AbsoluteX, Operation::Nop),
        0x40 => (AddrMode::Implied, Operation::Rti),
        0x41 => (AddrMode::IndexedIndirect, Operation::Eor),
        0x42 => (AddrMode::Implied, Operation::Nop),
        0x43 => (AddrMode::IndexedIndirect, Operation::Nop),
        0x44 => (AddrMode::ZeroPage, Operation::Nop),
        0x45 => (AddrMode::ZeroPage, Operation::Eor),
        0x46 => (AddrMode::ZeroPage, Operation::Lsr),
        0x47 => (AddrMode::ZeroPage, Operation::Nop),
        0x48 => (AddrMode::Implied, Operation::Pha),
        0x49 => (AddrMode::Immediate, Operation::Eor),
        0x4A => (AddrMode::Accumulator, Operation::Lsr),
        0x4B => (AddrMode::Immediate, Operation::Nop),
        0x4C => (AddrMode::Absolute, Operation::Jmp),
        0x4D => (AddrMode::Absolute, Operation::Eor),
        0x4E => (AddrMode::Absolute, Operation::Lsr),
        0x4F => (AddrMode::Absolute, Operation::Nop),
        0x50 => (AddrMode::Relative, Operation::Bvc),
        0x51 => (AddrMode::IndirectIndexed, Operation::Eor),
        0x52 => (AddrMode::Implied, Operation::Nop),
        0x53 => (AddrMode::IndirectIndexed, Operation::Nop),
        0x54 => (AddrMode::ZeroPageX, Operation::Nop),
        0x55 => (AddrMode::ZeroPageX, Operation::Eor),
        0x56 => (AddrMode::ZeroPageX, Operation::Lsr),
        0x57 => (AddrMode::ZeroPageX, Operation::Nop),
        0x58 => (AddrMode::Implied, Operation::Cli),
        0x59 => (AddrMode::AbsoluteY, Operation::Eor),
        0x5A => (AddrMode::Implied, Operation::Nop),
        0x5B => (AddrMode::AbsoluteY, Operation::Nop),
        0x5C => (AddrMode::AbsoluteX, Operation::Nop),
        0x5D => (AddrMode::AbsoluteX, Operation::Eor),
        0x5E => (AddrMode::AbsoluteX, Operation::Lsr),
        0x5F => (AddrMode::AbsoluteX, Operation::Nop),
        0x60 => (AddrMode::Implied, Operation::Rts),
        0x61 => (AddrMode::IndexedIndirect, Operation::Adc),
        0x62 => (AddrMode::Implied, Operation::Nop),
        0x63 => (AddrMode::IndexedIndirect, Operation::Nop),
        0x64 => (AddrMode::ZeroPage, Operation::Nop),
        0x65 => (AddrMode::ZeroPage, Operation::Adc),
        0x66 => (AddrMode::ZeroPage, Operation::Ror),
        0x67 => (AddrMode::ZeroPage, Operation::Nop),
        0x68 => (AddrMode::Implied, Operation::Pla),
        0x69 => (AddrMode::Immediate, Operation::Adc),
        0x6A => (AddrMode::Accumulator, Operation::Ror),
        0x6B => (AddrMode::Immediate, Operation::Nop),
        0x6C => (AddrMode::Indirect, Operation::Jmp),
        0x6D => (AddrMode::Absolute, Operation::Adc),
        0x6E => (AddrMode::Absolute, Operation::Ror),
        0x6F => (AddrMode::Absolute, Operation::Nop),
        0x70 => (AddrMode::Relative, Operation::Bvs),
        0x71 => (AddrMode::IndirectIndexed, Operation::Adc),
        0x72 => (AddrMode::Implied, Operation::Nop),
        0x73 => (AddrMode::IndirectIndexed, Operation::Nop),
        0x74 => (AddrMode::ZeroPageX, Operation::Nop),
        0x75 => (AddrMode::ZeroPageX, Operation::Adc),
        0x76 => (AddrMode::ZeroPageX, Operation::Ror),
        0x77 => (AddrMode::ZeroPageX, Operation::Nop),
        0x78 => (AddrMode::Implied, Operation::Sei),
        0x79 => (AddrMode::AbsoluteY, Operation::Adc),
        0x7A => (AddrMode::Implied, Operation::Nop),
        0x7B => (AddrMode::AbsoluteY, Operation::Nop),
        0x7C => (AddrMode::AbsoluteX, Operation::Nop),
        0x7D => (AddrMode::AbsoluteX, Operation::Adc),
        0x7E => (AddrMode::AbsoluteX, Operation::Ror),
        0x7F => (AddrMode::AbsoluteX, Operation::Nop),
        0x80 => (AddrMode::Immediate, Operation::Nop),
        0x81 => (AddrMode::IndexedIndirect, Operation::Sta),
        0x82 => (AddrMode::Immediate, Operation::Nop),
        0x83 => (AddrMode::IndexedIndirect, Operation::Nop),
        0x84 => (AddrMode::ZeroPage, Operation::Sty),
        0x85 => (AddrMode::ZeroPage, Operation::Sta),
        0x86 => (AddrMode::ZeroPage, Operation::Stx),
        0x87 => (AddrMode::ZeroPage, Operation::Nop),
        0x88 => (AddrMode::Implied, Operation::Dey),
        0x89 => (AddrMode::Immediate, Operation::Nop),
        0x8A => (AddrMode::Implied, Operation::Txa),
        0x8B => (AddrMode::Immediate, Operation::Nop),
        0x8C => (AddrMode::Absolute, Operation::Sty),
        0x8D => (AddrMode::Absolute, Operation::Sta),
        0x8E => (AddrMode::Absolute, Operation::Stx),
        0x8F => (AddrMode::Absolute, Operation::Nop),
        0x90 => (AddrMode::Relative, Operation::Bcc),
        0x91 => (AddrMode::IndirectIndexed, Operation::Sta),
        0x92 => (AddrMode::Implied, Operation::Nop),
        0x93 => (AddrMode::IndirectIndexed, Operation::Nop),
        0x94 => (AddrMode::ZeroPageX, Operation::Sty),
        0x95 => (AddrMode::ZeroPageX, Operation::Sta),
        0x96 => (AddrMode::ZeroPageY, Operation::Stx),
        0x97 => (AddrMode::ZeroPageY, Operation::Nop),
        0x98 => (AddrMode::Implied, Operation::Tya),
        0x99 => (AddrMode::AbsoluteY, Operation::Sta),
        0x9A => (AddrMode::Implied, Operation::Txs),
        0x9B => (AddrMode::AbsoluteY, Operation::Nop),
        0x9C => (AddrMode::AbsoluteX, Operation::Nop),
        0x9D => (AddrMode::AbsoluteX, Operation::Sta),
        0x9E => (AddrMode::AbsoluteY, Operation::Nop),
        0x9F => (AddrMode::AbsoluteY, Operation::Nop),
        0xA0 => (AddrMode::Immediate, Operation::Ldy),
        0xA1 => (AddrMode::IndexedIndirect, Operation::Lda),
        0xA2 => (AddrMode::Immediate, Operation::Ldx),
        0xA3 => (AddrMode::IndexedIndirect, Operation::Nop),
        0xA4 => (AddrMode::ZeroPage, Operation::Ldy),
        0xA5 => (AddrMode::ZeroPage, Operation::Lda),
        0xA6 => (AddrMode::ZeroPage, Operation::Ldx),
        0xA7 => (AddrMode::ZeroPage, Operation::Nop),
        0xA8 => (AddrMode::Implied, Operation::Tay),
        0xA9 => (AddrMode::Immediate, Operation::Lda),
        0xAA => (AddrMode::Implied, Operation::Tax),
        0xAB => (AddrMode::Immediate, Operation::Nop),
        0xAC => (AddrMode::Absolute, Operation::Ldy),
        0xAD => (AddrMode::Absolute, Operation::Lda),
        0xAE => (AddrMode::Absolute, Operation::Ldx),
        0xAF => (AddrMode::Absolute, Operation::Nop),
        0xB0 => (AddrMode::Relative, Operation::Bcs),
        0xB1 => (AddrMode::IndirectIndexed, Operation::Lda),
        0xB2 => (AddrMode::Implied, Operation::Nop),
        0xB3 => (AddrMode::IndirectIndexed, Operation::Nop),
        0xB4 => (AddrMode::ZeroPageX, Operation::Ldy),
        0xB5 => (AddrMode::ZeroPageX, Operation::Lda),
        0xB6 => (AddrMode::ZeroPageY, Operation::Ldx),
        0xB7 => (AddrMode::ZeroPageY, Operation::Nop),
        0xB8 => (AddrMode::Implied, Operation::Clv),
        0xB9 => (AddrMode::AbsoluteY, Operation::Lda),
        0xBA => (AddrMode::Implied, Operation::Tsx),
        0xBB => (AddrMode::AbsoluteY, Operation::Nop),
        0xBC => (AddrMode::AbsoluteX, Operation::Ldy),
        0xBD => (AddrMode::AbsoluteX, Operation::Lda),
        0xBE => (AddrMode::AbsoluteY, Operation::Ldx),
        0xBF => (AddrMode::AbsoluteY, Operation::Nop),
        0xC0 => (AddrMode::Immediate, Operation::Cpy),
        0xC1 => (AddrMode::IndexedIndirect, Operation::Cmp),
        0xC2 => (AddrMode::Immediate, Operation::Nop),
        0xC3 => (AddrMode::IndexedIndirect, Operation::Nop),
        0xC4 => (AddrMode::ZeroPage, Operation::Cpy),
        0xC5 => (AddrMode::ZeroPage, Operation::Cmp),
        0xC6 => (AddrMode::ZeroPage, Operation::Dec),
        0xC7 => (AddrMode::ZeroPage, Operation::Nop),
        0xC8 => (AddrMode::Implied, Operation::Iny),
        0xC9 => (AddrMode::Immediate, Operation::Cmp),
        0xCA => (AddrMode::Implied, Operation::Dex),
        0xCB => (AddrMode::Immediate, Operation::Nop),
        0xCC => (AddrMode::Absolute, Operation::Cpy),
        0xCD => (AddrMode::Absolute, Operation::Cmp),
        0xCE => (AddrMode::Absolute, Operation::Dec),
        0xCF => (AddrMode::Absolute, Operation::Nop),
        0xD0 => (AddrMode::Relative, Operation::Bne),
        0xD1 => (AddrMode::IndirectIndexed, Operation::Cmp),
        0xD2 => (AddrMode::Implied, Operation::Nop),
        0xD3 => (AddrMode::IndirectIndexed, Operation::Nop),
        0xD4 => (AddrMode::ZeroPageX, Operation::Nop),
        0xD5 => (AddrMode::ZeroPageX, Operation::Cmp),
        0xD6 => (AddrMode::ZeroPageX, Operation::Dec),
        0xD7 => (AddrMode::ZeroPageX, Operation::Nop),
        0xD8 => (AddrMode::Implied, Operation::Cld),
        0xD9 => (AddrMode::AbsoluteY, Operation::Cmp),
        0xDA => (AddrMode::Implied, Operation::Nop),
        0xDB => (AddrMode::AbsoluteY, Operation::Nop),
        0xDC => (AddrMode::AbsoluteX, Operation::Nop),
        0xDD => (AddrMode::AbsoluteX, Operation::Cmp),
        0xDE => (AddrMode::AbsoluteX, Operation::Dec),
        0xDF => (AddrMode::AbsoluteX, Operation::Nop),
        0xE0 => (AddrMode::Immediate, Operation::Cpx),
        0xE1 => (AddrMode::IndexedIndirect, Operation::Sbc),
        0xE2 => (AddrMode::Immediate, Operation::Nop),
        0xE3 => (AddrMode::IndexedIndirect, Operation::Nop),
        0xE4 => (AddrMode::ZeroPage, Operation::Cpx),
        0xE5 => (AddrMode::ZeroPage, Operation::Sbc),
        0xE6 => (AddrMode::ZeroPage, Operation::Inc),
        0xE7 => (AddrMode::ZeroPage, Operation::Nop),
        0xE8 => (AddrMode::Implied, Operation::Inx),
        0xE9 => (AddrMode::Immediate, Operation::Sbc),
        0xEA => (AddrMode::Implied, Operation::Nop),
        0xEB => (AddrMode::Immediate, Operation::Nop),
        0xEC => (AddrMode::Absolute, Operation::Cpx),
        0xED => (AddrMode::Absolute, Operation::Sbc),
        0xEE => (AddrMode::Absolute, Operation::Inc),
        0xEF => (AddrMode::Absolute, Operation::Nop),
        0xF0 => (AddrMode::Relative, Operation::Beq),
        0xF1 => (AddrMode::IndirectIndexed, Operation::Sbc),
        0xF2 => (AddrMode::Implied, Operation::Nop),
        0xF3 => (AddrMode::IndirectIndexed, Operation::Nop),
        0xF4 => (AddrMode::ZeroPageX, Operation::Nop),
        0xF5 => (AddrMode::ZeroPageX, Operation::Sbc),
        0xF6 => (AddrMode::ZeroPageX, Operation::Inc),
        0xF7 => (AddrMode::ZeroPageX, Operation::Nop),
        0xF8 => (AddrMode::Implied, Operation::Sed),
        0xF9 => (AddrMode::AbsoluteY, Operation::Sbc),
        0xFA => (AddrMode::Implied, Operation::Nop),
        0xFB => (AddrMode::AbsoluteY, Operation::Nop),
        0xFC => (AddrMode::AbsoluteX, Operation::Nop),
        0xFD => (AddrMode::AbsoluteX, Operation::Sbc),
        0xFE => (AddrMode::AbsoluteX, Operation::Inc),
        0xFF => (AddrMode::AbsoluteX, Operation::Nop),
    }
}

/// Each opcode pairs an operation with a mode that suits it: an operation
/// that works on an address comes with a mode that yields one, except that a
/// shift may come with the accumulator; and only `Nop` and the operations
/// that work on an address come with a mode that yields an address.
pub proof fn lemma_decode_is_consistent(opcode: u8)
    ensures
        ({
            let (mode, op) = spec_decode(opcode);
            &&& op.takes_address() ==> mode.has_address() || (op.is_shift() && mode
                == AddrMode::Accumulator)
            &&& mode.has_address() ==> op.takes_address() || op == Operation::Nop
            &&& mode == AddrMode::Accumulator ==> op.is_shift()
            &&& op.is_branch() <==> mode == AddrMode::Relative
            &&& 1 <= instruction_length(opcode) <= 3
        }),
{
}

} // verus!
