//! Access to the PWM synchronous channels update control register `SCUC`.

#![allow(non_camel_case_types)]

use vstd::prelude::*;

use crate::bits::with_bit;

verus! {

/// Reader of register `SCUC`.
#[derive(Clone, Copy, Debug, PartialEq, Eq, Structural)]
pub struct R {
    /// The raw bits read from the register.
    pub bits: u32,
}

/// Writer for register `SCUC`.
#[derive(Clone, Copy, Debug, PartialEq, Eq, Structural)]
pub struct W {
    /// The raw bits that the register write will carry.
    pub bits: u32,
}

/// Reader of field `UPDULOCK`.
#[derive(Clone, Copy, Debug, PartialEq, Eq, Structural)]
pub struct UPDULOCK_R {
    /// The value read from the field.
    pub bits: bool,
}

impl UPDULOCK_R {
    /// The value of the field bit.
    pub fn bit(&self) -> (b: bool)
        ensures
            b == self.bits,
    {
        self.bits
    }

    /// Whether the field bit is set.
    pub fn bit_is_set(&self) -> (b: bool)
        ensures
            b == self.bits,
    {
        self.bits
    }

    /// Whether the field bit is clear.
    pub fn bit_is_clear(&self) -> (b: bool)
        ensures
            b == !self.bits,
    {
        !self.bits
    }
}

impl R {
    /// A reader holding the given raw register bits.
    pub fn new(bits: u32) -> (r: R)
        ensures
            r.bits == bits,
    {
        R { bits }
    }

    /// Bit 0 - Synchronous channels update unlock.
    pub fn updulock(&self) -> (r: UPDULOCK_R)
        ensures
            r.bits == ((self.bits & 0x01) != 0),
    {
        UPDULOCK_R { bits: (self.bits & 0x01) != 0 }
    }
}

/// Write proxy for field `UPDULOCK`.
pub struct UPDULOCK_W {
    /// The writer that the field write goes to.
    pub w: W,
}

impl UPDULOCK_W {
    /// Sets the field bit.
    pub fn set_bit(self) -> (w: W)
        ensures
            w.bits == with_bit(self.w.bits, 0, true),
    {
        self.bit(true)
    }

    /// Clears the field bit.
    pub fn clear_bit(self) -> (w: W)
        ensures
            w.bits == with_bit(self.w.bits, 0, false),
    {
        self.bit(false)
    }

    /// Writes the field bit.
    pub fn bit(self, value: bool) -> (w: W)
        ensures
            w.bits == with_bit(self.w.bits, 0, value),
    {
        if value {
            W { bits: self.w.bits | (1u32 << 0u32) }
        } else {
            W { bits: self.w.bits & !(1u32 << 0u32) }
        }
    }
}

impl W {
    /// A writer carrying the given raw bits; a write-with-zero starts
    /// from 0.
    pub fn new(bits: u32) -> (w: W)
        ensures
            w.bits == bits,
    {
        W { bits }
    }

    /// Bit 0 - Synchronous channels update unlock.
    pub fn updulock(self) -> (r: UPDULOCK_W)
        ensures
            r.w == self,
    {
        UPDULOCK_W { w: self }
    }
}

} // verus!
