//! The register file: accumulator, index registers and the six status flags.

use vstd::prelude::*;
use crate::bits::{lemma_bit_tests, lemma_or_of_distinct_bits};
use crate::flags::CpuFlag;

verus! {

/// The architectural registers of the processor, without the stack pointer
/// and the program counter.
///
/// Only six flags are kept. The break and reserved bits exist only in a status
/// byte, while it is packed or unpacked.
#[derive(Debug, Clone, Copy, PartialEq, Eq, Hash, Structural)]
pub struct RegisterState {
    pub a: u8,
    pub x: u8,
    pub y: u8,
    pub carry: bool,
    pub zero: bool,
    pub interrupt_disable: bool,
    pub decimal: bool,
    pub overflow: bool,
    pub negative: bool,
}

/// The weight that a flag contributes to the status byte.
pub open spec fn flag_value(set: bool, flag: CpuFlag) -> int {
    if set {
        flag.weight()
    } else {
        0
    }
}

impl RegisterState {
    /// The register file with all registers zero and all flags clear.
    pub open spec fn spec_default() -> Self {
        RegisterState {
            a: 0,
            x: 0,
            y: 0,
            carry: false,
            zero: false,
            interrupt_disable: false,
            decimal: false,
            overflow: false,
            negative: false,
        }
    }

    /// The negative and zero flags taken from a result byte: negative is its
    /// high bit, zero tells whether it is 0.
    pub open spec fn spec_update_nz_flags(self, value: u8) -> Self {
        RegisterState { negative: value >= 0x80, zero: value == 0, ..self }
    }

    pub open spec fn spec_update_a(self, value: u8) -> Self {
        RegisterState { a: value, ..self }.spec_update_nz_flags(value)
    }

    pub open spec fn spec_update_x(self, value: u8) -> Self {
        RegisterState { x: value, ..self }.spec_update_nz_flags(value)
    }

    pub open spec fn spec_update_y(self, value: u8) -> Self {
        RegisterState { y: value, ..self }.spec_update_nz_flags(value)
    }

    /// The value of a flag as it goes into a status byte. The break bit is the
    /// caller's, the reserved bit is always set.
    pub open spec fn flag(self, flag: CpuFlag, brk: bool) -> bool {
        match flag {
            CpuFlag::Carry => self.carry,
            CpuFlag::Zero => self.zero,
            CpuFlag::InterruptDisable => self.interrupt_disable,
            CpuFlag::Decimal => self.decimal,
            CpuFlag::Break => brk,
            CpuFlag::Reserved => true,
            CpuFlag::Overflow => self.overflow,
            CpuFlag::Negative => self.negative,
        }
    }

    /// The status byte: each flag at its position.
    pub open spec fn spec_get_status(self, brk: bool) -> u8 {
        (flag_value(self.carry, CpuFlag::Carry) + flag_value(self.zero, CpuFlag::Zero)
            + flag_value(self.interrupt_disable, CpuFlag::InterruptDisable) + flag_value(
            self.decimal,
            CpuFlag::Decimal,
        ) + flag_value(brk, CpuFlag::Break) + flag_value(true, CpuFlag::Reserved) + flag_value(
            self.overflow,
            CpuFlag::Overflow,
        ) + flag_value(self.negative, CpuFlag::Negative)) as u8
    }

    /// The register file with the six flags taken from a status byte. The break
    /// and reserved bits of the byte are ignored.
    pub open spec fn spec_set_status(self, value: u8) -> Self {
        RegisterState {
            carry: CpuFlag::Carry.is_set_in(value),
            zero: CpuFlag::Zero.is_set_in(value),
            interrupt_disable: CpuFlag::InterruptDisable.is_set_in(value),
            decimal: CpuFlag::Decimal.is_set_in(value),
            overflow: CpuFlag::Overflow.is_set_in(value),
            negative: CpuFlag::Negative.is_set_in(value),
            ..self
        }
    }

    /// Loads the accumulator and sets the negative and zero flags from it.
    pub fn update_a(&mut self, value: u8)
        ensures
            *final(self) == old(self).spec_update_a(value),
            final(self).a == value,
            final(self).negative == (value & 0x80 != 0),
            final(self).zero == (value == 0),
    {
        self.a = value;
        self.update_nz_flags(self.a);
    }

    /// Loads index register X and sets the negative and zero flags from it.
    pub fn update_x(&mut self, value: u8)
        ensures
            *final(self) == old(self).spec_update_x(value),
            final(self).x == value,
            final(self).negative == (value & 0x80 != 0),
            final(self).zero == (value == 0),
    {
        self.x = value;
        self.update_nz_flags(self.x);
    }

    /// Loads index register Y and sets the negative and zero flags from it.
    pub fn update_y(&mut self, value: u8)
        ensures
            *final(self) == old(self).spec_update_y(value),
            final(self).y == value,
            final(self).negative == (value & 0x80 != 0),
            final(self).zero == (value == 0),
    {
        self.y = value;
        self.update_nz_flags(self.y);
    }

    /// Sets the negative and zero flags from a result byte and leaves all else.
    pub fn update_nz_flags(&mut self, value: u8)
        ensures
            *final(self) == old(self).spec_update_nz_flags(value),
            final(self).negative == (value & 0x80 != 0),
            final(self).zero == (value == 0),
    {
        proof {
            lemma_bit_tests(value);
        }
        self.negative = value & 0x80 != 0;
        self.zero = value == 0;
    }

    /// Packs the flags into a status byte, with the break bit as given and the
    /// reserved bit set.
    pub fn get_status(&self, brk: bool) -> (status: u8)
        ensures
            status == self.spec_get_status(brk),
            forall|flag: CpuFlag| flag.is_set_in(status) == self.flag(flag, brk),
    {
        let b0 = mask_if(self.carry, 0x01);
        let b1 = mask_if(self.zero, 0x02);
        let b2 = mask_if(self.interrupt_disable, 0x04);
        let b3 = mask_if(self.decimal, 0x08);
        let b4 = mask_if(brk, 0x10);
        let b5 = mask_if(true, 0x20);
        let b6 = mask_if(self.overflow, 0x40);
        let b7 = mask_if(self.negative, 0x80);
        proof {
            lemma_or_of_distinct_bits(b0, b1, b2, b3, b4, b5, b6, b7);
            lemma_status_bits(*self, brk);
        }
        b0 | b1 | b2 | b3 | b4 | b5 | b6 | b7
    }

    /// Unpacks a status byte into the six flags. The break and reserved bits
    /// of the byte are dropped, the registers stay.
    pub fn set_status(&mut self, value: u8)
        ensures
            *final(self) == old(self).spec_set_status(value),
    {
        proof {
            lemma_bit_tests(value);
        }
        self.carry = value & 0x01 != 0;
        self.zero = value & 0x02 != 0;
        self.interrupt_disable = value & 0x04 != 0;
        self.decimal = value & 0x08 != 0;
        self.overflow = value & 0x40 != 0;
        self.negative = value & 0x80 != 0;
    }
}

impl Default for RegisterState {
    fn default() -> (r: Self)
        ensures
            r == RegisterState::spec_default(),
    {
        RegisterState {
            a: 0,
            x: 0,
            y: 0,
            carry: false,
            zero: false,
            interrupt_disable: false,
            decimal: false,
            overflow: false,
            negative: false,
        }
    }
}

fn mask_if(set: bool, mask: u8) -> (r: u8)
    ensures
        r == (if set {
            mask
        } else {
            0
        }),
{
    if set {
        mask
    } else {
        0
    }
}

/// Each bit of a packed status byte is the flag that stands at its position.
pub proof fn lemma_status_bits(reg: RegisterState, brk: bool)
    ensures
        forall|flag: CpuFlag| flag.is_set_in(reg.spec_get_status(brk)) == reg.flag(flag, brk),
{
    let status = reg.spec_get_status(brk) as int;
    let d7: int = if reg.negative { 1 } else { 0 };
    let d6: int = if reg.overflow { 1 } else { 0 };
    let d5: int = 1;
    let d4: int = if brk { 1 } else { 0 };
    let d3: int = if reg.decimal { 1 } else { 0 };
    let d2: int = if reg.interrupt_disable { 1 } else { 0 };
    let d1: int = if reg.zero { 1 } else { 0 };
    let d0: int = if reg.carry { 1 } else { 0 };
    let t7 = d7;
    let t6 = d6 + 2 * t7;
    let t5 = d5 + 2 * t6;
    let t4 = d4 + 2 * t5;
    let t3 = d3 + 2 * t4;
    let t2 = d2 + 2 * t3;
    let t1 = d1 + 2 * t2;
    let t0 = d0 + 2 * t1;
    assert(status == t0);
    assert(status / 2 == t1 && status % 2 == d0);
    assert(status / 4 == t2 && t1 % 2 == d1);
    assert(status / 8 == t3 && t2 % 2 == d2);
    assert(status / 16 == t4 && t3 % 2 == d3);
    assert(status / 32 == t5 && t4 % 2 == d4);
    assert(status / 64 == t6 && t5 % 2 == d5);
    assert(status / 128 == t7 && t6 % 2 == d6);
    assert forall|flag: CpuFlag| flag.is_set_in(reg.spec_get_status(brk)) == reg.flag(
        flag,
        brk,
    ) by {
        match flag {
            CpuFlag::Carry => {},
            CpuFlag::Zero => {},
            CpuFlag::InterruptDisable => {},
            CpuFlag::Decimal => {},
            CpuFlag::Break => {},
            CpuFlag::Reserved => {},
            CpuFlag::Overflow => {},
            CpuFlag::Negative => {},
        }
    }
}

/// Unpacking a packed status byte gives back the six flags, whatever the break
/// bit was.
pub proof fn lemma_status_round_trip(reg: RegisterState, brk: bool, other: RegisterState)
    ensures
        other.spec_set_status(reg.spec_get_status(brk)) == (RegisterState {
            a: other.a,
            x: other.x,
            y: other.y,
            ..reg
        }),
        reg.spec_set_status(reg.spec_get_status(brk)) == reg,
{
    lemma_status_bits(reg, brk);
    let status = reg.spec_get_status(brk);
    assert(CpuFlag::Carry.is_set_in(status) == reg.flag(CpuFlag::Carry, brk));
    assert(CpuFlag::Zero.is_set_in(status) == reg.flag(CpuFlag::Zero, brk));
    assert(CpuFlag::InterruptDisable.is_set_in(status) == reg.flag(
        CpuFlag::InterruptDisable,
        brk,
    ));
    assert(CpuFlag::Decimal.is_set_in(status) == reg.flag(CpuFlag::Decimal, brk));
    assert(CpuFlag::Overflow.is_set_in(status) == reg.flag(CpuFlag::Overflow, brk));
    assert(CpuFlag::Negative.is_set_in(status) == reg.flag(CpuFlag::Negative, brk));
}

} // verus!
