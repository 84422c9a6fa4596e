use pones_6502::{CpuFlag, RegisterState};

fn flags(bits: u8) -> RegisterState {
    RegisterState {
        a: 0x11,
        x: 0x22,
        y: 0x33,
        carry: bits & 1 != 0,
        zero: bits & 2 != 0,
        interrupt_disable: bits & 4 != 0,
        decimal: bits & 8 != 0,
        overflow: bits & 16 != 0,
        negative: bits & 32 != 0,
    }
}

#[test]
fn default_is_all_zero_and_clear() {
    let reg = RegisterState::default();
    assert_eq!(
        reg,
        RegisterState {
            a: 0,
            x: 0,
            y: 0,
            carry: false,
            zero: false,
            interrupt_disable: false,
            decimal: false,
            overflow: false,
            negative: false,
        }
    );
}

#[test]
fn update_a_loads_and_sets_flags() {
    let mut reg = RegisterState::default();
    reg.update_a(0x80);
    assert_eq!(reg.a, 0x80);
    assert!(reg.negative);
    assert!(!reg.zero);
    reg.update_a(0);
    assert_eq!(reg.a, 0);
    assert!(!reg.negative);
    assert!(reg.zero);
    assert_eq!((reg.x, reg.y), (0, 0));
}

#[test]
fn update_x_loads_and_sets_flags() {
    let mut reg = RegisterState::default();
    reg.update_x(0x7F);
    assert_eq!(reg.x, 0x7F);
    assert!(!reg.negative);
    assert!(!reg.zero);
    reg.update_x(0xFF);
    assert!(reg.negative);
    assert_eq!((reg.a, reg.y), (0, 0));
}

#[test]
fn update_y_loads_and_sets_flags() {
    let mut reg = RegisterState::default();
    reg.update_y(0);
    assert_eq!(reg.y, 0);
    assert!(reg.zero);
    reg.update_y(0x81);
    assert_eq!(reg.y, 0x81);
    assert!(reg.negative);
    assert!(!reg.zero);
    assert_eq!((reg.a, reg.x), (0, 0));
}

#[test]
fn negative_and_zero_follow_every_byte() {
    for value in 0..=255u8 {
        let mut reg = flags(0b01_1101);
        reg.update_nz_flags(value);
        assert_eq!(reg.negative, value & 0x80 != 0);
        assert_eq!(reg.zero, value == 0);
        assert_eq!((reg.a, reg.x, reg.y), (0x11, 0x22, 0x33));
        assert!(reg.carry && reg.interrupt_disable && reg.decimal && reg.overflow);
    }
}

#[test]
fn status_byte_has_each_flag_at_its_bit() {
    let clear = RegisterState::default();
    assert_eq!(clear.get_status(false), 0x20);
    assert_eq!(clear.get_status(true), 0x30);
    assert_eq!(RegisterState { carry: true, ..clear }.get_status(false), 0x21);
    assert_eq!(RegisterState { zero: true, ..clear }.get_status(false), 0x22);
    assert_eq!(RegisterState { interrupt_disable: true, ..clear }.get_status(false), 0x24);
    assert_eq!(RegisterState { decimal: true, ..clear }.get_status(false), 0x28);
    assert_eq!(RegisterState { overflow: true, ..clear }.get_status(false), 0x60);
    assert_eq!(RegisterState { negative: true, ..clear }.get_status(false), 0xA0);
    assert_eq!(flags(0b11_1111).get_status(true), 0xFF);
    assert_eq!(flags(0b11_1111).get_status(false), 0xEF);
}

#[test]
fn status_byte_does_not_depend_on_registers() {
    let mut reg = flags(0b10_0101);
    let before = reg.get_status(false);
    reg.a = 0xFF;
    reg.x = 0xFF;
    reg.y = 0xFF;
    assert_eq!(reg.get_status(false), before);
}

#[test]
fn set_status_unpacks_six_flags_and_keeps_registers() {
    let mut reg = flags(0);
    reg.set_status(0xFF);
    assert_eq!(reg, flags(0b11_1111));
    reg.set_status(0x00);
    assert_eq!(reg, flags(0));
    reg.set_status(0x30);
    assert_eq!(reg, flags(0));
    reg.set_status(0x01);
    assert_eq!(reg, flags(0b00_0001));
    reg.set_status(0x02);
    assert_eq!(reg, flags(0b00_0010));
    reg.set_status(0x04);
    assert_eq!(reg, flags(0b00_0100));
    reg.set_status(0x08);
    assert_eq!(reg, flags(0b00_1000));
    reg.set_status(0x40);
    assert_eq!(reg, flags(0b01_0000));
    reg.set_status(0x80);
    assert_eq!(reg, flags(0b10_0000));
}

#[test]
fn status_round_trip_restores_every_combination() {
    for bits in 0..64u8 {
        for brk in [false, true] {
            let reg = flags(bits);
            let status = reg.get_status(brk);
            assert_eq!(status & 0x20, 0x20);
            assert_eq!(status & 0x10 != 0, brk);
            let mut other = flags(!bits & 0x3F);
            other.set_status(status);
            assert_eq!(other, reg);
        }
    }
}

#[test]
fn every_status_byte_unpacks_and_packs_to_itself_but_for_two_bits() {
    for value in 0..=255u8 {
        let mut reg = RegisterState::default();
        reg.set_status(value);
        assert_eq!(reg.get_status(false), (value & 0xCF) | 0x20);
        assert_eq!(reg.get_status(true), value | 0x30);
    }
}

#[test]
fn flags_are_ordered_by_bit_position() {
    let order = [
        CpuFlag::Carry,
        CpuFlag::Zero,
        CpuFlag::InterruptDisable,
        CpuFlag::Decimal,
        CpuFlag::Break,
        CpuFlag::Reserved,
        CpuFlag::Overflow,
        CpuFlag::Negative,
    ];
    for pair in order.windows(2) {
        assert!(pair[0] < pair[1]);
    }
    assert_eq!(CpuFlag::Carry, CpuFlag::Carry);
    assert_ne!(CpuFlag::Carry, CpuFlag::Zero);
}
