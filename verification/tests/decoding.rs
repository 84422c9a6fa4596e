use pones_6502::opcode::{decode, AddrMode, Operation};
use pones_6502::{Cpu6502, Ram};

/// The length in bytes of the instruction that each opcode starts, row by row
/// of the opcode matrix.
const LENGTHS: [&str; 16] = [
    "1212222212123333",
    "2212222213133333",
    "3212222212123333",
    "2212222213133333",
    "1212222212123333",
    "2212222213133333",
    "1212222212123333",
    "2212222213133333",
    "2222222212123333",
    "2212222213133333",
    "2222222212123333",
    "2212222213133333",
    "2222222212123333",
    "2212222213133333",
    "2222222212123333",
    "2212222213133333",
];

fn length(opcode: u8) -> u16 {
    let digit = LENGTHS[(opcode >> 4) as usize].as_bytes()[(opcode & 0xF) as usize];
    (digit - b'0') as u16
}

fn operand_bytes(mode: AddrMode) -> u16 {
    match mode {
        AddrMode::Implied | AddrMode::Accumulator => 0,
        AddrMode::Absolute | AddrMode::AbsoluteX | AddrMode::AbsoluteY | AddrMode::Indirect => 2,
        _ => 1,
    }
}

#[test]
fn documented_opcodes_decode_to_their_instruction() {
    assert_eq!(decode(0x00), (AddrMode::Implied, Operation::Brk));
    assert_eq!(decode(0x01), (AddrMode::IndexedIndirect, Operation::Ora));
    assert_eq!(decode(0x0A), (AddrMode::Accumulator, Operation::Asl));
    assert_eq!(decode(0x10), (AddrMode::Relative, Operation::Bpl));
    assert_eq!(decode(0x20), (AddrMode::Absolute, Operation::Jsr));
    assert_eq!(decode(0x24), (AddrMode::ZeroPage, Operation::Bit));
    assert_eq!(decode(0x2C), (AddrMode::Absolute, Operation::Bit));
    assert_eq!(decode(0x40), (AddrMode::Implied, Operation::Rti));
    assert_eq!(decode(0x4C), (AddrMode::Absolute, Operation::Jmp));
    assert_eq!(decode(0x60), (AddrMode::Implied, Operation::Rts));
    assert_eq!(decode(0x6C), (AddrMode::Indirect, Operation::Jmp));
    assert_eq!(decode(0x71), (AddrMode::IndirectIndexed, Operation::Adc));
    assert_eq!(decode(0x8A), (AddrMode::Implied, Operation::Txa));
    assert_eq!(decode(0x94), (AddrMode::ZeroPageX, Operation::Sty));
    assert_eq!(decode(0x96), (AddrMode::ZeroPageY, Operation::Stx));
    assert_eq!(decode(0x99), (AddrMode::AbsoluteY, Operation::Sta));
    assert_eq!(decode(0x9A), (AddrMode::Implied, Operation::Txs));
    assert_eq!(decode(0xA2), (AddrMode::Immediate, Operation::Ldx));
    assert_eq!(decode(0xA9), (AddrMode::Immediate, Operation::Lda));
    assert_eq!(decode(0xB6), (AddrMode::ZeroPageY, Operation::Ldx));
    assert_eq!(decode(0xBC), (AddrMode::AbsoluteX, Operation::Ldy));
    assert_eq!(decode(0xBE), (AddrMode::AbsoluteY, Operation::Ldx));
    assert_eq!(decode(0xC9), (AddrMode::Immediate, Operation::Cmp));
    assert_eq!(decode(0xDD), (AddrMode::AbsoluteX, Operation::Cmp));
    assert_eq!(decode(0xE0), (AddrMode::Immediate, Operation::Cpx));
    assert_eq!(decode(0xEA), (AddrMode::Implied, Operation::Nop));
    assert_eq!(decode(0xFE), (AddrMode::AbsoluteX, Operation::Inc));
}

#[test]
fn undocumented_opcodes_decode_to_nop_in_their_mode() {
    assert_eq!(decode(0x02), (AddrMode::Implied, Operation::Nop));
    assert_eq!(decode(0x03), (AddrMode::IndexedIndirect, Operation::Nop));
    assert_eq!(decode(0x04), (AddrMode::ZeroPage, Operation::Nop));
    assert_eq!(decode(0x0B), (AddrMode::Immediate, Operation::Nop));
    assert_eq!(decode(0x0C), (AddrMode::Absolute, Operation::Nop));
    assert_eq!(decode(0x13), (AddrMode::IndirectIndexed, Operation::Nop));
    assert_eq!(decode(0x14), (AddrMode::ZeroPageX, Operation::Nop));
    assert_eq!(decode(0x1A), (AddrMode::Implied, Operation::Nop));
    assert_eq!(decode(0x1B), (AddrMode::AbsoluteY, Operation::Nop));
    assert_eq!(decode(0x1C), (AddrMode::AbsoluteX, Operation::Nop));
    assert_eq!(decode(0x80), (AddrMode::Immediate, Operation::Nop));
    assert_eq!(decode(0x89), (AddrMode::Immediate, Operation::Nop));
    assert_eq!(decode(0x97), (AddrMode::ZeroPageY, Operation::Nop));
    assert_eq!(decode(0x9E), (AddrMode::AbsoluteY, Operation::Nop));
    assert_eq!(decode(0x9F), (AddrMode::AbsoluteY, Operation::Nop));
    assert_eq!(decode(0xB7), (AddrMode::ZeroPageY, Operation::Nop));
    assert_eq!(decode(0xBF), (AddrMode::AbsoluteY, Operation::Nop));
    assert_eq!(decode(0xEB), (AddrMode::Immediate, Operation::Nop));
    assert_eq!(decode(0xFF), (AddrMode::AbsoluteX, Operation::Nop));
    for opcode in 0..=255u8 {
        if opcode & 3 == 3 {
            assert_eq!(decode(opcode).1, Operation::Nop);
        }
    }
}

#[test]
fn there_are_151_documented_opcodes() {
    let others = (0..=255u8).filter(|opcode| decode(*opcode).1 != Operation::Nop).count();
    assert_eq!(others, 150);
}

#[test]
fn arithmetic_group_is_regular() {
    let operations = [
        Operation::Ora,
        Operation::And,
        Operation::Eor,
        Operation::Adc,
        Operation::Sta,
        Operation::Lda,
        Operation::Cmp,
        Operation::Sbc,
    ];
    let modes = [
        AddrMode::IndexedIndirect,
        AddrMode::ZeroPage,
        AddrMode::Immediate,
        AddrMode::Absolute,
        AddrMode::IndirectIndexed,
        AddrMode::ZeroPageX,
        AddrMode::AbsoluteY,
        AddrMode::AbsoluteX,
    ];
    for row in 0..8u8 {
        for column in 0..8u8 {
            let opcode = row << 5 | column << 2 | 1;
            if opcode != 0x89 {
                assert_eq!(decode(opcode), (modes[column as usize], operations[row as usize]));
            }
        }
    }
}

#[test]
fn branches_fill_one_column() {
    let branches = [
        Operation::Bpl,
        Operation::Bmi,
        Operation::Bvc,
        Operation::Bvs,
        Operation::Bcc,
        Operation::Bcs,
        Operation::Bne,
        Operation::Beq,
    ];
    for row in 0..8u8 {
        assert_eq!(decode(row << 5 | 0x10), (AddrMode::Relative, branches[row as usize]));
    }
    let relative = (0..=255u8).filter(|opcode| decode(*opcode).0 == AddrMode::Relative).count();
    assert_eq!(relative, 8);
}

#[test]
fn length_follows_the_addressing_mode() {
    for opcode in 0..=255u8 {
        assert_eq!(1 + operand_bytes(decode(opcode).0), length(opcode), "opcode {:#04X}", opcode);
    }
}

#[test]
fn every_opcode_steps_and_advances_by_its_length() {
    for opcode in 0..=255u8 {
        let op = decode(opcode).1;
        let transfers = matches!(
            op,
            Operation::Jmp | Operation::Jsr | Operation::Rts | Operation::Rti | Operation::Brk
        );
        let mut ram = Ram::new();
        ram.cells[0x0400] = opcode;
        let mut cpu = Cpu6502::new(ram);
        cpu.pc = 0x0400;
        cpu.step();
        if !transfers {
            assert_eq!(cpu.pc, 0x0400 + length(opcode), "opcode {:#04X}", opcode);
        }
    }
}

#[test]
fn undocumented_opcodes_change_nothing_but_the_program_counter() {
    for opcode in 0..=255u8 {
        if decode(opcode).1 != Operation::Nop {
            continue;
        }
        let mut ram = Ram::new();
        for addr in 0..65536usize {
            ram.cells[addr] = (addr as u8).wrapping_mul(7).wrapping_add(3);
        }
        ram.cells[0x0400] = opcode;
        let memory = ram.cells;
        let mut cpu = Cpu6502::new(ram);
        cpu.pc = 0x0400;
        cpu.sp = 0x80;
        cpu.reg.a = 1;
        cpu.reg.x = 2;
        cpu.reg.y = 3;
        cpu.reg.carry = true;
        let reg = cpu.reg;
        cpu.step();
        assert_eq!(cpu.pc, 0x0400 + length(opcode), "opcode {:#04X}", opcode);
        assert_eq!(cpu.reg, reg);
        assert_eq!(cpu.sp, 0x80);
        assert!(cpu.bus.cells == memory);
    }
}
