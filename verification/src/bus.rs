//! The bus: the one capability through which the processor core reaches
//! memory and peripherals.

use vstd::prelude::*;

verus! {

/// A byte-addressable bus over a 16-bit address space, to be implemented by
/// the host.
///
/// The core never looks inside a bus. It knows a bus as a state machine: in
/// each state a read at an address has a value, `peek`, and leaves the bus in
/// the state `after_read`; a write leaves it in the state `after_write`.
/// Neither is required to behave as memory: a read may change what later
/// reads return, and a write may be ignored. Whatever decides the outcome of
/// an access (pending input of a peripheral too) counts as part of the state.
///
/// Both operations are total and cannot fail. The contracts of `read` and
/// `write` tie them to the three functions of the model. For an
/// implementation in this crate they are proved; for one of a host they are
/// taken on trust, and all that is proved of the core on that bus rests on
/// them. A host writes the three functions of the model as ordinary
/// functions; the core never calls them.
pub trait Bus: Sized {
    /// The byte that a read at `addr` returns in this state.
    spec fn peek(&self, addr: u16) -> u8;

    /// The state in which a read at `addr` leaves the bus.
    spec fn after_read(&self, addr: u16) -> Self;

    /// The state in which a write of `value` at `addr` leaves the bus.
    spec fn after_write(&self, addr: u16, value: u8) -> Self;

    /// Reads the byte at `addr`.
    fn read(&mut self, addr: u16) -> (value: u8)
        ensures
            value == old(self).peek(addr),
            *final(self) == old(self).after_read(addr),
    ;

    /// Writes `value` at `addr`.
    fn write(&mut self, addr: u16, value: u8)
        ensures
            *final(self) == old(self).after_write(addr, value),
    ;
}

/// Whether the address `addr` behaves as a memory cell on every bus of the
/// type `B`: a read there returns the byte written last, and neither a read
/// anywhere nor a write elsewhere changes it.
pub open spec fn is_memory_cell<B: Bus>(addr: u16) -> bool {
    &&& forall|bus: B, value: u8| #[trigger] bus.after_write(addr, value).peek(addr) == value
    &&& forall|bus: B, other: u16, value: u8|
        other != addr ==> #[trigger] bus.after_write(other, value).peek(addr) == bus.peek(addr)
    &&& forall|bus: B, other: u16| #[trigger] bus.after_read(other).peek(addr) == bus.peek(addr)
}

} // verus!
