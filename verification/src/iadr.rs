//! Access to the two-wire interface internal address register `IADR`.

#![allow(non_camel_case_types)]

use vstd::prelude::*;

use crate::bits::with_field;

verus! {

/// Reader of register `IADR`.
#[derive(Clone, Copy, Debug, PartialEq, Eq, Structural)]
pub struct R {
    /// The raw bits read from the register.
    pub bits: u32,
}

/// Writer for register `IADR`.
#[derive(Clone, Copy, Debug, PartialEq, Eq, Structural)]
pub struct W {
    /// The raw bits that the register write will carry.
    pub bits: u32,
}

/// Reader of field `IADR`.
#[derive(Clone, Copy, Debug, PartialEq, Eq, Structural)]
pub struct IADR_R {
    /// The value read from the field.
    pub bits: u32,
}

impl IADR_R {
    /// The value of the field.
    pub fn bits(&self) -> (b: u32)
        ensures
            b == self.bits,
    {
        self.bits
    }
}

impl R {
    /// A reader holding the given raw register bits.
    pub fn new(bits: u32) -> (r: R)
        ensures
            r.bits == bits,
    {
        R { bits }
    }

    /// Bits 0:23 - Internal address.
    pub fn iadr(&self) -> (r: IADR_R)
        ensures
            r.bits == (self.bits & 0x00ff_ffff),
    {
        IADR_R { bits: self.bits & 0x00ff_ffff }
    }
}

/// Write proxy for field `IADR`.
pub struct IADR_W {
    /// The writer that the field write goes to.
    pub w: W,
}

impl IADR_W {
    /// Writes the given value to the 24-bit field, leaving the bits above
    /// it unchanged.
    pub fn bits(self, value: u32) -> (w: W)
        ensures
            w.bits == with_field(self.w.bits, 0x00ff_ffff, value),
    {
        W { bits: (self.w.bits & !0x00ff_ffffu32) | (value & 0x00ff_ffffu32) }
    }
}

impl W {
    /// A writer carrying the given raw bits; a write-with-zero starts
    /// from 0.
    pub fn new(bits: u32) -> (w: W)
        ensures
            w.bits == bits,
    {
        W { bits }
    }

    /// Bits 0:23 - Internal address.
    pub fn iadr(self) -> (r: IADR_W)
        ensures
            r.w == self,
    {
        IADR_W { w: self }
    }
}

} // verus!
