use vstd::prelude::*;

verus! {

/// The eight bits of the processor status byte, from the lowest to the highest.
#[derive(Debug, Clone, Copy, Hash, PartialEq, Eq, PartialOrd, Ord)]
pub enum CpuFlag {
    Carry,
    Zero,
    InterruptDisable,
    Decimal,
    Break,
    Reserved,
    Overflow,
    Negative,
}

impl CpuFlag {
    /// The weight of the flag's bit in the status byte: two to the power of
    /// its position.
    pub open spec fn weight(self) -> int {
        match self {
            CpuFlag::Carry => 1,
            CpuFlag::Zero => 2,
            CpuFlag::InterruptDisable => 4,
            CpuFlag::Decimal => 8,
            CpuFlag::Break => 16,
            CpuFlag::Reserved => 32,
            CpuFlag::Overflow => 64,
            CpuFlag::Negative => 128,
        }
    }

    /// Whether the flag's bit is set in a status byte.
    pub open spec fn is_set_in(self, status: u8) -> bool {
        (status as int / self.weight()) % 2 == 1
    }
}

} // verus!
