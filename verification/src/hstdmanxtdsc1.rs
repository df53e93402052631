//! Access to the USB OTG host DMA channel 1 next descriptor address
//! register `HSTDMANXTDSC1`.

#![allow(non_camel_case_types)]

use vstd::prelude::*;

use crate::bits::with_field;

verus! {

/// Reader of register `HSTDMANXTDSC1`.
#[derive(Clone, Copy, Debug, PartialEq, Eq, Structural)]
pub struct R {
    /// The raw bits read from the register.
    pub bits: u32,
}

/// Writer for register `HSTDMANXTDSC1`.
#[derive(Clone, Copy, Debug, PartialEq, Eq, Structural)]
pub struct W {
    /// The raw bits that the register write will carry.
    pub bits: u32,
}

/// Reader of field `NXT_DSC_ADD`.
#[derive(Clone, Copy, Debug, PartialEq, Eq, Structural)]
pub struct NXT_DSC_ADD_R {
    /// The value read from the field.
    pub bits: u32,
}

impl NXT_DSC_ADD_R {
    /// The value of the field.
    pub fn bits(&self) -> (b: u32)
        ensures
            b == self.bits,
    {
        self.bits
    }
}

impl R {
    /// A reader holding the given raw register bits.
    pub fn new(bits: u32) -> (r: R)
        ensures
            r.bits == bits,
    {
        R { bits }
    }

    /// Bits 0:31 - Next descriptor address.
    pub fn nxt_dsc_add(&self) -> (r: NXT_DSC_ADD_R)
        ensures
            r.bits == (self.bits & 0xffff_ffff),
    {
        NXT_DSC_ADD_R { bits: self.bits & 0xffff_ffff }
    }
}

/// Write proxy for field `NXT_DSC_ADD`.
pub struct NXT_DSC_ADD_W {
    /// The writer that the field write goes to.
    pub w: W,
}

impl NXT_DSC_ADD_W {
    /// Writes the given value to the full-width field.
    pub fn bits(self, value: u32) -> (w: W)
        ensures
            w.bits == with_field(self.w.bits, 0xffff_ffff, value),
    {
        W { bits: (self.w.bits & !0xffff_ffffu32) | (value & 0xffff_ffffu32) }
    }
}

impl W {
    /// A writer carrying the given raw bits; a write-with-zero starts
    /// from 0.
    pub fn new(bits: u32) -> (w: W)
        ensures
            w.bits == bits,
    {
        W { bits }
    }

    /// Bits 0:31 - Next descriptor address.
    pub fn nxt_dsc_add(self) -> (r: NXT_DSC_ADD_W)
        ensures
            r.w == self,
    {
        NXT_DSC_ADD_W { w: self }
    }
}

} // verus!
