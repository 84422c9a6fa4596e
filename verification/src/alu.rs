//! The arithmetic and logic unit: add-with-carry and subtract-with-carry in
//! binary and in decimal mode, shifts, comparisons and the bit test, stated
//! over the integers.

use vstd::prelude::*;
use crate::bits::{lemma_byte_operations, lemma_join_nibbles, lemma_nibble_difference};
use crate::opcode::Operation;
use crate::reg_state::RegisterState;
use crate::word::signed;

verus! {

/// The carry flag as a number.
pub open spec fn carry_value(carry: bool) -> int {
    if carry {
        1
    } else {
        0
    }
}

/// Whether a number lies outside the range of a signed byte.
pub open spec fn overflows_signed_byte(n: int) -> bool {
    n < -128 || n > 127
}

/// The byte that is left of a number when it is reduced modulo 256.
pub open spec fn byte_of(n: int) -> u8 {
    (n % 0x100) as u8
}

/// Add-with-carry in binary: the accumulator takes the low eight bits of
/// accumulator + operand + carry. Carry is the ninth bit of that sum, overflow
/// tells whether the sum of the three, read as signed numbers, leaves the
/// range of a signed byte. Negative and zero follow the new accumulator.
pub open spec fn spec_binary_adc(reg: RegisterState, operand: u8) -> RegisterState {
    let sum = reg.a + operand + carry_value(reg.carry);
    let signed_sum = signed(reg.a) + signed(operand) + carry_value(reg.carry);
    RegisterState {
        carry: sum > 0xFF,
        overflow: overflows_signed_byte(signed_sum),
        ..reg.spec_update_a(byte_of(sum))
    }
}

/// Subtract-with-carry in binary: the accumulator takes the low eight bits of
/// accumulator - operand - borrow, where the borrow is the inverted carry.
/// Carry is set when no borrow is needed, overflow tells whether the signed
/// difference leaves the range of a signed byte.
pub open spec fn spec_binary_sbc(reg: RegisterState, operand: u8) -> RegisterState {
    let borrow = 1 - carry_value(reg.carry);
    let difference = reg.a - operand - borrow;
    let signed_difference = signed(reg.a) - signed(operand) - borrow;
    RegisterState {
        carry: difference >= 0,
        overflow: overflows_signed_byte(signed_difference),
        ..reg.spec_update_a(byte_of(difference))
    }
}

/// The overflow rule as the hardware computes it: the carry out of bit 7
/// disagrees with the carry out of the sum of the low seven bits.
pub open spec fn carries_disagree(a: u8, operand: u8, carry: bool) -> bool {
    let carry_out = a + operand + carry_value(carry) > 0xFF;
    let seven_bit_carry_out = a % 0x80 + operand % 0x80 + carry_value(carry) > 0x7F;
    carry_out != seven_bit_carry_out
}

/// The two's-complement overflow rule: the signed sum leaves the range of a
/// signed byte exactly when the carry out of bit 7 and the carry out of bit 6
/// disagree.
pub proof fn lemma_overflow_rule(a: u8, operand: u8, carry: bool)
    ensures
        overflows_signed_byte(signed(a) + signed(operand) + carry_value(carry))
            == carries_disagree(a, operand, carry),
{
}

/// Subtracting an operand is adding its bitwise complement.
pub proof fn lemma_subtract_is_add_complement(reg: RegisterState, operand: u8)
    ensures
        spec_binary_adc(reg, (0xFF - operand) as u8) == spec_binary_sbc(reg, operand),
{
}

/// A shift to the left by one bit: `carry_in` enters at the right, and the
/// bit that leaves at the left is the new carry. Returns the result and the
/// carry.
pub open spec fn shift_left(value: u8, carry_in: bool) -> (u8, bool) {
    (byte_of(value * 2 + carry_value(carry_in)), value >= 0x80)
}

/// A shift to the right by one bit: `carry_in` enters at the left, and the
/// bit that leaves at the right is the new carry. Returns the result and the
/// carry.
pub open spec fn shift_right(value: u8, carry_in: bool) -> (u8, bool) {
    ((value / 2 + 0x80 * carry_value(carry_in)) as u8, value % 2 == 1)
}

/// What the operations that change a byte in place make of it: increment and
/// decrement wrap modulo 256 and leave the carry, the shifts and rotations
/// move the bits by one place through the carry. Returns the result and the
/// carry. Other operations leave both.
pub open spec fn modify(op: Operation, value: u8, carry: bool) -> (u8, bool) {
    match op {
        Operation::Inc => (value.wrapping_add(1), carry),
        Operation::Dec => (value.wrapping_sub(1), carry),
        Operation::Asl => shift_left(value, false),
        Operation::Rol => shift_left(value, carry),
        Operation::Lsr => shift_right(value, false),
        Operation::Ror => shift_right(value, carry),
        _ => (value, carry),
    }
}

/// A comparison of a register with an operand: carry tells whether the
/// register is at least the operand; negative and zero follow the low eight
/// bits of their difference. No register changes.
pub open spec fn spec_compare(reg: RegisterState, register: u8, operand: u8) -> RegisterState {
    RegisterState {
        carry: register >= operand,
        ..reg.spec_update_nz_flags(byte_of(register - operand))
    }
}

/// The bit test: zero tells whether accumulator and operand have no bit in
/// common; negative and overflow are bits 7 and 6 of the operand.
pub open spec fn spec_bit(reg: RegisterState, operand: u8) -> RegisterState {
    RegisterState {
        zero: reg.a & operand == 0,
        negative: operand >= 0x80,
        overflow: (operand / 0x40) % 2 == 1,
        ..reg
    }
}

/// Whether both nibbles of a byte are decimal digits.
pub open spec fn is_bcd(value: u8) -> bool {
    value % 16 <= 9 && value / 16 <= 9
}

/// The number from 0 to 99 that a byte of two decimal digits stands for.
pub open spec fn bcd_value(value: u8) -> int {
    10 * (value / 16) + value % 16
}

/// A sum of two decimal digits and a carry, brought back to one digit: a sum
/// above 9 loses ten and carries. The digit is kept to four bits.
pub open spec fn decimal_carry(sum: int) -> (int, bool) {
    if sum >= 10 {
        ((sum - 10) % 16, true)
    } else {
        (sum, false)
    }
}

/// A difference of two decimal digits and a borrow, brought back to one
/// digit: a difference below 0 gains ten and borrows. The digit is kept to
/// four bits.
pub open spec fn decimal_borrow(difference: int) -> (int, bool) {
    if difference < 0 {
        ((difference + 10) % 16, true)
    } else {
        (difference, false)
    }
}

/// Add-with-carry in decimal mode, nibble by nibble: the low nibbles and the
/// carry are added and, if that exceeds 9, reduced by ten with a carry into
/// the high nibble, which is then treated alike. Returns the accumulator and
/// the carry.
pub open spec fn bcd_add(a: u8, operand: u8, carry: bool) -> (u8, bool) {
    let (low_digit, half_carry) = decimal_carry(a % 16 + operand % 16 + carry_value(carry));
    let (high_digit, carry_out) = decimal_carry(a / 16 + operand / 16 + carry_value(half_carry));
    ((high_digit * 16 + low_digit) as u8, carry_out)
}

/// Subtract-with-carry in decimal mode, nibble by nibble: the low nibbles are
/// subtracted with the borrow and, if that falls below 0, raised by ten with
/// a borrow from the high nibble, which is then treated alike. Returns the
/// accumulator and the carry, which is clear when the whole borrows.
pub open spec fn bcd_sub(a: u8, operand: u8, carry: bool) -> (u8, bool) {
    let (low_digit, half_borrow) = decimal_borrow(
        a % 16 - operand % 16 - (1 - carry_value(carry)),
    );
    let (high_digit, borrow) = decimal_borrow(a / 16 - operand / 16 - carry_value(half_borrow));
    ((high_digit * 16 + low_digit) as u8, !borrow)
}

/// Adds two bytes of decimal digits and a carry, nibble by nibble. Returns
/// the sum and the carry out.
pub fn decimal_add(a: u8, operand: u8, carry: bool) -> (sum: (u8, bool))
    ensures
        sum == bcd_add(a, operand, carry),
{
    proof {
        lemma_byte_operations(a);
        lemma_byte_operations(operand);
    }
    let carry_in: u8 = if carry {
        1
    } else {
        0
    };
    let mut carry_out = false;
    let mut lower = (a & 0xF) + (operand & 0xF) + carry_in;
    let mut upper = (a >> 4) + (operand >> 4);
    let ghost low_sum = lower as int;
    if lower >= 10 {
        proof {
            lemma_byte_operations((lower - 10) as u8);
        }
        lower = (lower - 10) & 0xF;
        upper += 1;
    }
    let ghost high_sum = upper as int;
    assert(lower == decimal_carry(low_sum).0);
    assert(high_sum == a / 16 + operand / 16 + carry_value(decimal_carry(low_sum).1));
    if upper >= 10 {
        proof {
            lemma_byte_operations((upper - 10) as u8);
        }
        upper = (upper - 10) & 0xF;
        carry_out = true;
    }
    assert(upper == decimal_carry(high_sum).0);
    assert(carry_out == decimal_carry(high_sum).1);
    proof {
        lemma_join_nibbles(upper, lower);
    }
    ((upper << 4) | lower, carry_out)
}

/// Subtracts a byte of decimal digits and a borrow from another, nibble by
/// nibble. The borrow is the inverted carry. Returns the difference and the
/// carry out, which is clear when the whole borrows.
pub fn decimal_subtract(a: u8, operand: u8, carry: bool) -> (difference: (u8, bool))
    ensures
        difference == bcd_sub(a, operand, carry),
{
    proof {
        lemma_byte_operations(a);
        lemma_byte_operations(operand);
    }
    let borrow_in: i16 = if carry {
        0
    } else {
        1
    };
    let mut carry_out = true;
    let mut lower: i16 = (a & 0xF) as i16 - (operand & 0xF) as i16 - borrow_in;
    let mut upper: i16 = (a >> 4) as i16 - (operand >> 4) as i16;
    let ghost low_difference = lower as int;
    assert(low_difference == a % 16 - operand % 16 - (1 - carry_value(carry)));
    assert(-16 <= lower <= 15 && -15 <= upper <= 15);
    proof {
        lemma_nibble_difference(lower);
    }
    if lower & 0x10 != 0 {
        let raised: i16 = lower + 10;
        proof {
            lemma_nibble_difference(raised);
            assert((low_difference + 10) % 16 == raised & 0xF);
        }
        lower = raised & 0xF;
        upper -= 1;
    }
    let ghost high_difference = upper as int;
    assert(lower == decimal_borrow(low_difference).0);
    assert(high_difference == a / 16 - operand / 16 - carry_value(
        decimal_borrow(low_difference).1,
    ));
    assert(0 <= lower <= 15 && -16 <= upper <= 15);
    proof {
        lemma_nibble_difference(upper);
    }
    if upper & 0x10 != 0 {
        let raised: i16 = upper + 10;
        proof {
            lemma_nibble_difference(raised);
            assert((high_difference + 10) % 16 == raised & 0xF);
        }
        upper = raised & 0xF;
        carry_out = false;
    }
    assert(upper == decimal_borrow(high_difference).0);
    assert(carry_out == !decimal_borrow(high_difference).1);
    assert(0 <= upper <= 15);
    let high = upper as u8;
    let low = lower as u8;
    proof {
        lemma_join_nibbles(high, low);
    }
    ((high << 4) | low, carry_out)
}

/// Add-with-carry as the instruction performs it. The binary sum sets all four
/// flags and the accumulator; in decimal mode the accumulator and the carry
/// are then replaced by those of the decimal sum, and negative and zero follow
/// the new accumulator. Overflow is that of the binary sum in both modes.
pub open spec fn spec_adc(reg: RegisterState, operand: u8) -> RegisterState {
    let binary = spec_binary_adc(reg, operand);
    if reg.decimal {
        let (result, carry) = bcd_add(reg.a, operand, reg.carry);
        RegisterState { carry, ..binary.spec_update_a(result) }
    } else {
        binary
    }
}

/// Subtract-with-carry as the instruction performs it. The binary difference
/// sets all four flags and the accumulator; in decimal mode the accumulator
/// and the carry are then replaced by those of the decimal difference, and
/// negative and zero follow the new accumulator.
pub open spec fn spec_sbc(reg: RegisterState, operand: u8) -> RegisterState {
    let binary = spec_binary_sbc(reg, operand);
    if reg.decimal {
        let (result, carry) = bcd_sub(reg.a, operand, reg.carry);
        RegisterState { carry, ..binary.spec_update_a(result) }
    } else {
        binary
    }
}

/// A byte put together from two nibbles has them as its digits in base 16.
proof fn lemma_nibbles(high: int, low: int)
    requires
        0 <= high < 16,
        0 <= low < 16,
    ensures
        0 <= high * 16 + low < 256,
        (high * 16 + low) / 16 == high,
        (high * 16 + low) % 16 == low,
{
}

/// Within the range that two decimal digits and a carry can reach, one digit
/// and a carry of ten stand for the sum.
proof fn lemma_decimal_carry(sum: int)
    requires
        0 <= sum <= 19,
    ensures
        0 <= decimal_carry(sum).0 <= 9,
        decimal_carry(sum).0 + 10 * carry_value(decimal_carry(sum).1) == sum,
{
}

/// Within the range that two decimal digits and a borrow can reach, one digit
/// and a borrow of ten stand for the difference.
proof fn lemma_decimal_borrow(difference: int)
    requires
        -10 <= difference <= 9,
    ensures
        0 <= decimal_borrow(difference).0 <= 9,
        decimal_borrow(difference).0 - 10 * carry_value(decimal_borrow(difference).1)
            == difference,
{
}

/// On decimal digits, decimal add-with-carry is addition modulo 100: the
/// result is again a pair of decimal digits, and the carry tells whether the
/// sum reached 100.
pub proof fn lemma_bcd_add_is_decimal(a: u8, operand: u8, carry: bool)
    requires
        is_bcd(a),
        is_bcd(operand),
    ensures
        is_bcd(bcd_add(a, operand, carry).0),
        bcd_value(bcd_add(a, operand, carry).0) == (bcd_value(a) + bcd_value(operand)
            + carry_value(carry)) % 100,
        bcd_add(a, operand, carry).1 == (bcd_value(a) + bcd_value(operand) + carry_value(carry)
            >= 100),
{
    let low = a % 16 + operand % 16 + carry_value(carry);
    let (low_digit, half_carry) = decimal_carry(low);
    lemma_decimal_carry(low);
    let high = a / 16 + operand / 16 + carry_value(half_carry);
    let (high_digit, carry_out) = decimal_carry(high);
    lemma_decimal_carry(high);
    lemma_nibbles(high_digit, low_digit);
    let result = bcd_add(a, operand, carry).0;
    assert(result == high_digit * 16 + low_digit);
    let total = bcd_value(a) + bcd_value(operand) + carry_value(carry);
    assert(bcd_value(result) == 10 * high_digit + low_digit);
    assert(total == 100 * carry_value(carry_out) + bcd_value(result));
    assert(0 <= bcd_value(result) <= 99);
}

/// On decimal digits, decimal subtract-with-carry is subtraction modulo 100:
/// the result is again a pair of decimal digits, and the carry is clear
/// exactly when the difference fell below 0.
pub proof fn lemma_bcd_sub_is_decimal(a: u8, operand: u8, carry: bool)
    requires
        is_bcd(a),
        is_bcd(operand),
    ensures
        is_bcd(bcd_sub(a, operand, carry).0),
        bcd_value(bcd_sub(a, operand, carry).0) == (bcd_value(a) - bcd_value(operand) - (1
            - carry_value(carry))) % 100,
        bcd_sub(a, operand, carry).1 == (bcd_value(a) - bcd_value(operand) - (1 - carry_value(
            carry,
        )) >= 0),
{
    let low = a % 16 - operand % 16 - (1 - carry_value(carry));
    let (low_digit, half_borrow) = decimal_borrow(low);
    lemma_decimal_borrow(low);
    let high = a / 16 - operand / 16 - carry_value(half_borrow);
    let (high_digit, borrow) = decimal_borrow(high);
    lemma_decimal_borrow(high);
    lemma_nibbles(high_digit, low_digit);
    let result = bcd_sub(a, operand, carry).0;
    assert(result == high_digit * 16 + low_digit);
    let total = bcd_value(a) - bcd_value(operand) - (1 - carry_value(carry));
    assert(bcd_value(result) == 10 * high_digit + low_digit);
    assert(total == bcd_value(result) - 100 * carry_value(borrow));
    assert(0 <= bcd_value(result) <= 99);
}

/// Two bytes of decimal digits that stand for the same number are the same.
proof fn lemma_bcd_value_is_injective(x: u8, y: u8)
    requires
        is_bcd(x),
        is_bcd(y),
    ensures
        (bcd_value(x) == bcd_value(y)) == (x == y),
        0 <= bcd_value(x) <= 99,
{
}

/// Adding a number below 100 with a carry in, and subtracting it again with
/// the carry out as the borrow's complement, both modulo 100, gives back the
/// start exactly when carry in and carry out differ.
proof fn lemma_add_then_sub_modulo_100(start: int, operand: int, carry: int, carry_out: int)
    requires
        0 <= start <= 99,
        0 <= operand <= 99,
        0 <= carry <= 1,
        carry_out == (if start + operand + carry >= 100 {
            1int
        } else {
            0int
        }),
    ensures
        ((((start + operand + carry) % 100) - operand - (1 - carry_out)) % 100 == start) == (
        carry_out != carry),
{
    let sum = (start + operand + carry) % 100;
    assert(sum == start + operand + carry - 100 * carry_out);
    let difference = sum - operand - (1 - carry_out);
    assert(difference == start + carry + carry_out - 1 - 100 * carry_out);
}

/// Decimal add-with-carry followed by decimal subtract-with-carry of the same
/// operand, with the carry that the addition left, gives back the accumulator
/// exactly when the addition's carry out differs from its carry in.
pub proof fn lemma_bcd_add_then_sub(a: u8, operand: u8, carry: bool)
    requires
        is_bcd(a),
        is_bcd(operand),
    ensures
        ({
            let (sum, carry_out) = bcd_add(a, operand, carry);
            (bcd_sub(sum, operand, carry_out).0 == a) == (carry_out != carry)
        }),
{
    let (sum, carry_out) = bcd_add(a, operand, carry);
    let back = bcd_sub(sum, operand, carry_out).0;
    lemma_bcd_add_is_decimal(a, operand, carry);
    lemma_bcd_sub_is_decimal(sum, operand, carry_out);
    lemma_bcd_value_is_injective(back, a);
    lemma_bcd_value_is_injective(operand, operand);
    lemma_add_then_sub_modulo_100(
        bcd_value(a),
        bcd_value(operand),
        carry_value(carry),
        carry_value(carry_out),
    );
}

/// The flags of add-with-carry. Overflow follows the two's-complement rule in
/// binary and in decimal mode alike, computed from the carries or from the
/// signed sum; in binary mode carry is the ninth bit of the sum.
pub proof fn lemma_add_flags(reg: RegisterState, operand: u8)
    ensures
        spec_adc(reg, operand).overflow == carries_disagree(reg.a, operand, reg.carry),
        spec_adc(reg, operand).overflow == overflows_signed_byte(
            signed(reg.a) + signed(operand) + carry_value(reg.carry),
        ),
        !reg.decimal ==> spec_adc(reg, operand).carry == (reg.a + operand + carry_value(
            reg.carry,
        ) > 0xFF),
{
    lemma_overflow_rule(reg.a, operand, reg.carry);
}

/// The flags of subtract-with-carry, which adds the complement of the operand.
/// Overflow follows the two's-complement rule in binary and in decimal mode
/// alike, computed from the carries of that addition or from the signed
/// difference; in binary mode carry is the ninth bit of that addition's sum,
/// set exactly when the subtraction needs no borrow.
pub proof fn lemma_subtract_flags(reg: RegisterState, operand: u8)
    ensures
        spec_sbc(reg, operand).overflow == carries_disagree(
            reg.a,
            (0xFF - operand) as u8,
            reg.carry,
        ),
        spec_sbc(reg, operand).overflow == overflows_signed_byte(
            signed(reg.a) - signed(operand) - (1 - carry_value(reg.carry)),
        ),
        !reg.decimal ==> spec_sbc(reg, operand).carry == (reg.a + (0xFF - operand) + carry_value(
            reg.carry,
        ) > 0xFF),
        !reg.decimal ==> spec_sbc(reg, operand).carry == (reg.a >= operand + (1 - carry_value(
            reg.carry,
        ))),
{
    lemma_overflow_rule(reg.a, (0xFF - operand) as u8, reg.carry);
    lemma_subtract_is_add_complement(reg, operand);
}

/// In decimal mode, on decimal digits, add-with-carry followed by
/// subtract-with-carry of the same operand gives back the accumulator exactly
/// when the addition's carry out differs from its carry in.
pub proof fn lemma_decimal_add_then_subtract(reg: RegisterState, operand: u8)
    requires
        reg.decimal,
        is_bcd(reg.a),
        is_bcd(operand),
    ensures
        (spec_sbc(spec_adc(reg, operand), operand).a == reg.a) == (spec_adc(reg, operand).carry
            != reg.carry),
{
    lemma_bcd_add_then_sub(reg.a, operand, reg.carry);
    let added = spec_adc(reg, operand);
    assert(added.a == bcd_add(reg.a, operand, reg.carry).0);
    assert(added.carry == bcd_add(reg.a, operand, reg.carry).1);
    assert(added.decimal);
    assert(spec_sbc(added, operand).a == bcd_sub(added.a, operand, added.carry).0);
}

} // verus!
