use vstd::prelude::*;

use super::{be_bytes, be_pair};

verus! {

/// A register range to read: first address and number of registers.
#[derive(Debug, Clone, Copy, PartialEq, Eq, Structural)]
pub struct ReadRegisters {
    pub start_address: u16,
    pub quantity: u16,
}

/// One holding register to write.
#[derive(Debug, Clone, Copy, PartialEq, Eq, Structural)]
pub struct WriteRegister {
    pub address: u16,
    pub value: u16,
}

impl ReadRegisters {
    /// Start address then quantity, each big-endian.
    pub fn to_be_bytes(&self) -> (r: [u8; 4])
        ensures
            r@ == be_pair(self.start_address, self.quantity),
    {
        be_bytes(self.start_address, self.quantity)
    }
}

impl WriteRegister {
    /// Address then value, each big-endian.
    pub fn to_be_bytes(&self) -> (r: [u8; 4])
        ensures
            r@ == be_pair(self.address, self.value),
    {
        be_bytes(self.address, self.value)
    }
}

} // verus!
