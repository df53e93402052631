//! Read access to the SDRAM controller interrupt status register `ISR`.

#![allow(non_camel_case_types)]

use vstd::prelude::*;

verus! {

/// Reader of register `ISR`.
#[derive(Clone, Copy, Debug, PartialEq, Eq, Structural)]
pub struct R {
    /// The raw bits read from the register.
    pub bits: u32,
}

/// Reader of field `RES`.
#[derive(Clone, Copy, Debug, PartialEq, Eq, Structural)]
pub struct RES_R {
    /// The value read from the field.
    pub bits: bool,
}

impl RES_R {
    /// The value of the field bit.
    pub fn bit(&self) -> (b: bool)
        ensures
            b == self.bits,
    {
        self.bits
    }

    /// Whether the field bit is set.
    pub fn bit_is_set(&self) -> (b: bool)
        ensures
            b == self.bits,
    {
        self.bits
    }

    /// Whether the field bit is clear.
    pub fn bit_is_clear(&self) -> (b: bool)
        ensures
            b == !self.bits,
    {
        !self.bits
    }
}

impl R {
    /// A reader holding the given raw register bits.
    pub fn new(bits: u32) -> (r: R)
        ensures
            r.bits == bits,
    {
        R { bits }
    }

    /// Bit 0 - Refresh error status.
    pub fn res(&self) -> (r: RES_R)
        ensures
            r.bits == ((self.bits & 0x01) != 0),
    {
        RES_R { bits: (self.bits & 0x01) != 0 }
    }
}

} // verus!
