use pones_6502::alu::{decimal_add, decimal_subtract};
use pones_6502::{Cpu6502, Ram};

const ADC_IMMEDIATE: u8 = 0x69;
const SBC_IMMEDIATE: u8 = 0xE9;

fn machine() -> Cpu6502<Ram> {
    let mut cpu = Cpu6502::new(Ram::new());
    cpu.pc = 0x0400;
    cpu
}

/// Runs one instruction with an immediate operand on the given accumulator
/// and carry.
fn run(cpu: &mut Cpu6502<Ram>, opcode: u8, a: u8, operand: u8, carry: bool, decimal: bool) {
    cpu.bus.cells[0x0400] = opcode;
    cpu.bus.cells[0x0401] = operand;
    cpu.pc = 0x0400;
    cpu.reg.a = a;
    cpu.reg.carry = carry;
    cpu.reg.decimal = decimal;
    cpu.reg.overflow = false;
    cpu.step();
}

fn is_bcd(value: u8) -> bool {
    value & 0x0F <= 9 && value >> 4 <= 9
}

fn from_bcd(value: u8) -> i32 {
    10 * (value >> 4) as i32 + (value & 0x0F) as i32
}

fn to_bcd(value: i32) -> u8 {
    ((value / 10) << 4 | value % 10) as u8
}

#[test]
fn binary_add_matches_the_overflow_rule_for_all_inputs() {
    let mut cpu = machine();
    for a in 0..=255u8 {
        for operand in 0..=255u8 {
            for carry in [false, true] {
                run(&mut cpu, ADC_IMMEDIATE, a, operand, carry, false);
                let sum = a as u16 + operand as u16 + carry as u16;
                let result = sum as u8;
                let signed = a as i8 as i16 + operand as i8 as i16 + carry as i16;
                assert_eq!(cpu.reg.a, result);
                assert_eq!(cpu.reg.carry, sum > 0xFF);
                assert_eq!(cpu.reg.overflow, !(-128..=127).contains(&signed));
                assert_eq!(cpu.reg.overflow, (a ^ result) & (operand ^ result) & 0x80 != 0);
                assert_eq!(cpu.reg.negative, result & 0x80 != 0);
                assert_eq!(cpu.reg.zero, result == 0);
                assert_eq!(cpu.pc, 0x0402);
            }
        }
    }
}

#[test]
fn binary_subtract_matches_the_overflow_rule_for_all_inputs() {
    let mut cpu = machine();
    for a in 0..=255u8 {
        for operand in 0..=255u8 {
            for carry in [false, true] {
                run(&mut cpu, SBC_IMMEDIATE, a, operand, carry, false);
                let difference = a as i16 - operand as i16 - !carry as i16;
                let result = difference as u8;
                let signed = a as i8 as i16 - operand as i8 as i16 - !carry as i16;
                assert_eq!(cpu.reg.a, result);
                assert_eq!(cpu.reg.carry, difference >= 0);
                assert_eq!(cpu.reg.overflow, !(-128..=127).contains(&signed));
                assert_eq!(cpu.reg.overflow, (a ^ operand) & (a ^ result) & 0x80 != 0);
                assert_eq!(cpu.reg.negative, result & 0x80 != 0);
                assert_eq!(cpu.reg.zero, result == 0);
            }
        }
    }
}

#[test]
fn overflow_is_that_of_the_binary_sum_in_decimal_mode_too() {
    let mut cpu = machine();
    for a in 0..=255u8 {
        for operand in 0..=255u8 {
            for carry in [false, true] {
                run(&mut cpu, ADC_IMMEDIATE, a, operand, carry, true);
                let signed = a as i8 as i16 + operand as i8 as i16 + carry as i16;
                assert_eq!(cpu.reg.overflow, !(-128..=127).contains(&signed));
                run(&mut cpu, SBC_IMMEDIATE, a, operand, carry, true);
                let signed = a as i8 as i16 - operand as i8 as i16 - !carry as i16;
                assert_eq!(cpu.reg.overflow, !(-128..=127).contains(&signed));
            }
        }
    }
}

#[test]
fn binary_add_examples() {
    let mut cpu = machine();
    run(&mut cpu, ADC_IMMEDIATE, 0x50, 0x50, false, false);
    assert_eq!((cpu.reg.a, cpu.reg.carry, cpu.reg.overflow), (0xA0, false, true));
    assert!(cpu.reg.negative && !cpu.reg.zero);
    run(&mut cpu, ADC_IMMEDIATE, 0xFF, 0x01, false, false);
    assert_eq!((cpu.reg.a, cpu.reg.carry, cpu.reg.overflow), (0x00, true, false));
    assert!(!cpu.reg.negative && cpu.reg.zero);
    run(&mut cpu, ADC_IMMEDIATE, 0xD0, 0x90, false, false);
    assert_eq!((cpu.reg.a, cpu.reg.carry, cpu.reg.overflow), (0x60, true, true));
    run(&mut cpu, ADC_IMMEDIATE, 0x7F, 0x00, true, false);
    assert_eq!((cpu.reg.a, cpu.reg.carry, cpu.reg.overflow), (0x80, false, true));
    run(&mut cpu, ADC_IMMEDIATE, 0x01, 0x01, true, false);
    assert_eq!((cpu.reg.a, cpu.reg.carry, cpu.reg.overflow), (0x03, false, false));
}

#[test]
fn binary_subtract_examples() {
    let mut cpu = machine();
    run(&mut cpu, SBC_IMMEDIATE, 0x50, 0xF0, true, false);
    assert_eq!((cpu.reg.a, cpu.reg.carry, cpu.reg.overflow), (0x60, false, false));
    run(&mut cpu, SBC_IMMEDIATE, 0x50, 0xB0, true, false);
    assert_eq!((cpu.reg.a, cpu.reg.carry, cpu.reg.overflow), (0xA0, false, true));
    run(&mut cpu, SBC_IMMEDIATE, 0xD0, 0x70, true, false);
    assert_eq!((cpu.reg.a, cpu.reg.carry, cpu.reg.overflow), (0x60, true, true));
    run(&mut cpu, SBC_IMMEDIATE, 0x05, 0x05, true, false);
    assert_eq!((cpu.reg.a, cpu.reg.carry, cpu.reg.zero), (0x00, true, true));
    run(&mut cpu, SBC_IMMEDIATE, 0x05, 0x05, false, false);
    assert_eq!((cpu.reg.a, cpu.reg.carry, cpu.reg.negative), (0xFF, false, true));
}

#[test]
fn decimal_add_examples() {
    let mut cpu = machine();
    run(&mut cpu, ADC_IMMEDIATE, 0x58, 0x46, true, true);
    assert_eq!((cpu.reg.a, cpu.reg.carry), (0x05, true));
    run(&mut cpu, ADC_IMMEDIATE, 0x12, 0x34, false, true);
    assert_eq!((cpu.reg.a, cpu.reg.carry), (0x46, false));
    run(&mut cpu, ADC_IMMEDIATE, 0x15, 0x26, false, true);
    assert_eq!((cpu.reg.a, cpu.reg.carry), (0x41, false));
    run(&mut cpu, ADC_IMMEDIATE, 0x81, 0x92, false, true);
    assert_eq!((cpu.reg.a, cpu.reg.carry), (0x73, true));
    run(&mut cpu, ADC_IMMEDIATE, 0x99, 0x01, false, true);
    assert_eq!((cpu.reg.a, cpu.reg.carry), (0x00, true));
    assert!(cpu.reg.zero && !cpu.reg.negative);
    run(&mut cpu, ADC_IMMEDIATE, 0x79, 0x10, false, true);
    assert_eq!((cpu.reg.a, cpu.reg.carry), (0x89, false));
    assert!(!cpu.reg.zero && cpu.reg.negative);
}

#[test]
fn decimal_subtract_examples() {
    let mut cpu = machine();
    run(&mut cpu, SBC_IMMEDIATE, 0x46, 0x12, true, true);
    assert_eq!((cpu.reg.a, cpu.reg.carry), (0x34, true));
    run(&mut cpu, SBC_IMMEDIATE, 0x40, 0x13, true, true);
    assert_eq!((cpu.reg.a, cpu.reg.carry), (0x27, true));
    run(&mut cpu, SBC_IMMEDIATE, 0x32, 0x02, false, true);
    assert_eq!((cpu.reg.a, cpu.reg.carry), (0x29, true));
    run(&mut cpu, SBC_IMMEDIATE, 0x12, 0x21, true, true);
    assert_eq!((cpu.reg.a, cpu.reg.carry), (0x91, false));
    run(&mut cpu, SBC_IMMEDIATE, 0x00, 0x01, true, true);
    assert_eq!((cpu.reg.a, cpu.reg.carry), (0x99, false));
    assert!(cpu.reg.negative && !cpu.reg.zero);
    run(&mut cpu, SBC_IMMEDIATE, 0x21, 0x21, true, true);
    assert_eq!((cpu.reg.a, cpu.reg.carry), (0x00, true));
    assert!(cpu.reg.zero);
}

#[test]
fn decimal_add_is_addition_modulo_100_on_decimal_digits() {
    for a in (0..=255u8).filter(|a| is_bcd(*a)) {
        for operand in (0..=255u8).filter(|m| is_bcd(*m)) {
            for carry in [false, true] {
                let total = from_bcd(a) + from_bcd(operand) + carry as i32;
                assert_eq!(decimal_add(a, operand, carry), (to_bcd(total % 100), total >= 100));
            }
        }
    }
}

#[test]
fn decimal_subtract_is_subtraction_modulo_100_on_decimal_digits() {
    for a in (0..=255u8).filter(|a| is_bcd(*a)) {
        for operand in (0..=255u8).filter(|m| is_bcd(*m)) {
            for carry in [false, true] {
                let total = from_bcd(a) - from_bcd(operand) - !carry as i32;
                assert_eq!(
                    decimal_subtract(a, operand, carry),
                    (to_bcd(total.rem_euclid(100)), total >= 0)
                );
            }
        }
    }
}

#[test]
fn decimal_arithmetic_on_other_nibbles_follows_the_nibble_rule() {
    assert_eq!(decimal_add(0x0F, 0x0F, false), (0x14, false));
    assert_eq!(decimal_add(0x0A, 0x00, false), (0x10, false));
    assert_eq!(decimal_add(0xF0, 0xF0, false), (0x40, true));
    assert_eq!(decimal_add(0xFF, 0xFF, true), (0x55, true));
    assert_eq!(decimal_add(0xA0, 0x00, false), (0x00, true));
    assert_eq!(decimal_subtract(0x00, 0x0F, true), (0x9B, false));
    assert_eq!(decimal_subtract(0x0F, 0x00, true), (0x0F, true));
    assert_eq!(decimal_subtract(0xF0, 0x00, true), (0xF0, true));
    assert_eq!(decimal_subtract(0x00, 0xF0, true), (0xB0, false));
    assert_eq!(decimal_subtract(0x00, 0xFF, false), (0xAA, false));
}

#[test]
fn instruction_in_decimal_mode_uses_the_decimal_functions() {
    let mut cpu = machine();
    for a in 0..=255u8 {
        for operand in 0..=255u8 {
            for carry in [false, true] {
                run(&mut cpu, ADC_IMMEDIATE, a, operand, carry, true);
                let (sum, carry_out) = decimal_add(a, operand, carry);
                assert_eq!((cpu.reg.a, cpu.reg.carry), (sum, carry_out));
                assert_eq!(cpu.reg.negative, sum & 0x80 != 0);
                assert_eq!(cpu.reg.zero, sum == 0);
                run(&mut cpu, SBC_IMMEDIATE, a, operand, carry, true);
                let (difference, carry_out) = decimal_subtract(a, operand, carry);
                assert_eq!((cpu.reg.a, cpu.reg.carry), (difference, carry_out));
                assert_eq!(cpu.reg.negative, difference & 0x80 != 0);
                assert_eq!(cpu.reg.zero, difference == 0);
            }
        }
    }
}

#[test]
fn decimal_add_then_subtract_restores_when_the_carry_flips() {
    let mut cpu = machine();
    let mut restored = 0;
    for a in (0..=255u8).filter(|a| is_bcd(*a)) {
        for operand in (0..=255u8).filter(|m| is_bcd(*m)) {
            for carry in [false, true] {
                run(&mut cpu, ADC_IMMEDIATE, a, operand, carry, true);
                let carry_out = cpu.reg.carry;
                let sum = cpu.reg.a;
                run(&mut cpu, SBC_IMMEDIATE, sum, operand, carry_out, true);
                assert_eq!(cpu.reg.a == a, carry_out != carry);
                if cpu.reg.a == a {
                    restored += 1;
                }
            }
        }
    }
    assert_eq!(restored, 9900);
}

#[test]
fn decimal_add_then_subtract_with_the_inverted_carry_in_always_restores() {
    for a in (0..=255u8).filter(|a| is_bcd(*a)) {
        for operand in (0..=255u8).filter(|m| is_bcd(*m)) {
            for carry in [false, true] {
                let (sum, _) = decimal_add(a, operand, carry);
                assert_eq!(decimal_subtract(sum, operand, !carry).0, a);
            }
        }
    }
}
