//! Read access to the PWM channel 5 counter register `CCNT5`.

#![allow(non_camel_case_types)]

use vstd::prelude::*;

verus! {

/// Reader of register `CCNT5`.
#[derive(Clone, Copy, Debug, PartialEq, Eq, Structural)]
pub struct R {
    /// The raw bits read from the register.
    pub bits: u32,
}

/// Reader of field `CNT`.
#[derive(Clone, Copy, Debug, PartialEq, Eq, Structural)]
pub struct CNT_R {
    /// The value read from the field.
    pub bits: u32,
}

impl CNT_R {
    /// The value of the field.
    pub fn bits(&self) -> (b: u32)
        ensures
            b == self.bits,
    {
        self.bits
    }
}

impl R {
    /// A reader holding the given raw register bits.
    pub fn new(bits: u32) -> (r: R)
        ensures
            r.bits == bits,
    {
        R { bits }
    }

    /// Bits 0:23 - Channel counter.
    pub fn cnt(&self) -> (r: CNT_R)
        ensures
            r.bits == (self.bits & 0x00ff_ffff),
    {
        CNT_R { bits: self.bits & 0x00ff_ffff }
    }
}

} // verus!
