//! The console of a small machine that runs an interpreter: one address at
//! which the program polls the keyboard, one at which it writes to the
//! screen. The host does the input and output; what a key means to the
//! program and what a write asks of the screen is decided here.

use vstd::prelude::*;

verus! {

/// The address at which the interpreter image is loaded and started.
pub const PROGRAM_ADDR: u16 = 0xC000;

/// The address at which the program reads the key that was pressed, or 0.
pub const IO_READ_ADDR: u16 = 0xF004;

/// The address at which the program writes a character for the screen.
pub const IO_WRITE_ADDR: u16 = 0xF001;

/// The code of the key that deletes the character before the cursor.
pub const BACKSPACE: u8 = 8;

/// The code of the key that ends a line.
pub const CARRIAGE_RETURN: u8 = 13;

/// A key as the program can see it.
#[derive(Debug, Clone, Copy, PartialEq, Eq, Structural)]
pub enum KeyPress {
    Enter,
    Backspace,
    /// A character, by its code point.
    Char(u32),
    /// Any other key.
    Other,
}

/// What a write asks of the screen.
#[derive(Debug, Clone, Copy, PartialEq, Eq, Structural)]
pub enum ScreenAction {
    /// Delete the character before the cursor.
    ClearChar,
    /// Print the character with this code.
    Print(u8),
}

/// The byte that the program reads for a key: carriage return for Enter, 8
/// for Backspace, the low eight bits of the code point for a character, and
/// 0 for any other key and for no key at all.
pub open spec fn spec_key_byte(key: Option<KeyPress>) -> u8 {
    match key {
        Some(KeyPress::Enter) => CARRIAGE_RETURN,
        Some(KeyPress::Backspace) => BACKSPACE,
        Some(KeyPress::Char(code)) => (code % 0x100) as u8,
        _ => 0,
    }
}

/// What a write of `value` at `addr` asks of the screen: nothing unless the
/// address is the output address; there 8 deletes a character and every other
/// byte is printed.
pub open spec fn spec_screen_action(addr: u16, value: u8) -> Option<ScreenAction> {
    if addr != IO_WRITE_ADDR {
        None
    } else if value == BACKSPACE {
        Some(ScreenAction::ClearChar)
    } else {
        Some(ScreenAction::Print(value))
    }
}

/// Whether a read at `addr` polls the keyboard.
pub fn reads_keyboard(addr: u16) -> (polls: bool)
    ensures
        polls == (addr == IO_READ_ADDR),
{
    addr == IO_READ_ADDR
}

/// The byte that the program reads for the key that was pressed, if any.
pub fn key_byte(key: Option<KeyPress>) -> (byte: u8)
    ensures
        byte == spec_key_byte(key),
{
    match key {
        Some(KeyPress::Enter) => CARRIAGE_RETURN,
        Some(KeyPress::Backspace) => BACKSPACE,
        Some(KeyPress::Char(code)) => (code % 0x100) as u8,
        _ => 0,
    }
}

/// What a write of `value` at `addr` asks of the screen.
pub fn screen_action(addr: u16, value: u8) -> (action: Option<ScreenAction>)
    ensures
        action == spec_screen_action(addr, value),
{
    if addr != IO_WRITE_ADDR {
        None
    } else if value == BACKSPACE {
        Some(ScreenAction::ClearChar)
    } else {
        Some(ScreenAction::Print(value))
    }
}

} // verus!
