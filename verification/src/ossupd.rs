//! Write access to the PWM output selection set update register `OSSUPD`:
//! one single-bit field per channel output.

#![allow(non_camel_case_types)]

use vstd::prelude::*;

use crate::bits::with_bit;

verus! {

/// Writer for register `OSSUPD`.
#[derive(Clone, Copy, Debug, PartialEq, Eq, Structural)]
pub struct W {
    /// The raw bits that the register write will carry.
    pub bits: u32,
}

impl W {
    /// A writer carrying the given raw bits; a write-with-zero starts
    /// from 0.
    pub fn new(bits: u32) -> (w: W)
        ensures
            w.bits == bits,
    {
        W { bits }
    }

    /// Bit 0 - Output selection set for the PWMH output of channel 0.
    pub fn ossuph0(self) -> (r: OSSUPH0_W)
        ensures
            r.w == self,
    {
        OSSUPH0_W { w: self }
    }

    /// Bit 1 - Output selection set for the PWMH output of channel 1.
    pub fn ossuph1(self) -> (r: OSSUPH1_W)
        ensures
            r.w == self,
    {
        OSSUPH1_W { w: self }
    }

    /// Bit 2 - Output selection set for the PWMH output of channel 2.
    pub fn ossuph2(self) -> (r: OSSUPH2_W)
        ensures
            r.w == self,
    {
        OSSUPH2_W { w: self }
    }

    /// Bit 3 - Output selection set for the PWMH output of channel 3.
    pub fn ossuph3(self) -> (r: OSSUPH3_W)
        ensures
            r.w == self,
    {
        OSSUPH3_W { w: self }
    }

    /// Bit 4 - Output selection set for the PWMH output of channel 4.
    pub fn ossuph4(self) -> (r: OSSUPH4_W)
        ensures
            r.w == self,
    {
        OSSUPH4_W { w: self }
    }

    /// Bit 5 - Output selection set for the PWMH output of channel 5.
    pub fn ossuph5(self) -> (r: OSSUPH5_W)
        ensures
            r.w == self,
    {
        OSSUPH5_W { w: self }
    }

    /// Bit 6 - Output selection set for the PWMH output of channel 6.
    pub fn ossuph6(self) -> (r: OSSUPH6_W)
        ensures
            r.w == self,
    {
        OSSUPH6_W { w: self }
    }

    /// Bit 7 - Output selection set for the PWMH output of channel 7.
    pub fn ossuph7(self) -> (r: OSSUPH7_W)
        ensures
            r.w == self,
    {
        OSSUPH7_W { w: self }
    }

    /// Bit 16 - Output selection set for the PWML output of channel 0.
    pub fn ossupl0(self) -> (r: OSSUPL0_W)
        ensures
            r.w == self,
    {
        OSSUPL0_W { w: self }
    }

    /// Bit 17 - Output selection set for the PWML output of channel 1.
    pub fn ossupl1(self) -> (r: OSSUPL1_W)
        ensures
            r.w == self,
    {
        OSSUPL1_W { w: self }
    }

    /// Bit 18 - Output selection set for the PWML output of channel 2.
    pub fn ossupl2(self) -> (r: OSSUPL2_W)
        ensures
            r.w == self,
    {
        OSSUPL2_W { w: self }
    }

    /// Bit 19 - Output selection set for the PWML output of channel 3.
    pub fn ossupl3(self) -> (r: OSSUPL3_W)
        ensures
            r.w == self,
    {
        OSSUPL3_W { w: self }
    }

    /// Bit 20 - Output selection set for the PWML output of channel 4.
    pub fn ossupl4(self) -> (r: OSSUPL4_W)
        ensures
            r.w == self,
    {
        OSSUPL4_W { w: self }
    }

    /// Bit 21 - Output selection set for the PWML output of channel 5.
    pub fn ossupl5(self) -> (r: OSSUPL5_W)
        ensures
            r.w == self,
    {
        OSSUPL5_W { w: self }
    }

    /// Bit 22 - Output selection set for the PWML output of channel 6.
    pub fn ossupl6(self) -> (r: OSSUPL6_W)
        ensures
            r.w == self,
    {
        OSSUPL6_W { w: self }
    }

    /// Bit 23 - Output selection set for the PWML output of channel 7.
    pub fn ossupl7(self) -> (r: OSSUPL7_W)
        ensures
            r.w == self,
    {
        OSSUPL7_W { w: self }
    }

}


/// Write proxy for field `OSSUPH0`.
pub struct OSSUPH0_W {
    /// The writer that the field write goes to.
    pub w: W,
}

impl OSSUPH0_W {
    /// Sets the field bit.
    pub fn set_bit(self) -> (w: W)
        ensures
            w.bits == with_bit(self.w.bits, 0, true),
    {
        self.bit(true)
    }

    /// Clears the field bit.
    pub fn clear_bit(self) -> (w: W)
        ensures
            w.bits == with_bit(self.w.bits, 0, false),
    {
        self.bit(false)
    }

    /// Writes the field bit.
    pub fn bit(self, value: bool) -> (w: W)
        ensures
            w.bits == with_bit(self.w.bits, 0, value),
    {
        if value {
            W { bits: self.w.bits | (1u32 << 0u32) }
        } else {
            W { bits: self.w.bits & !(1u32 << 0u32) }
        }
    }
}

/// Write proxy for field `OSSUPH1`.
pub struct OSSUPH1_W {
    /// The writer that the field write goes to.
    pub w: W,
}

impl OSSUPH1_W {
    /// Sets the field bit.
    pub fn set_bit(self) -> (w: W)
        ensures
            w.bits == with_bit(self.w.bits, 1, true),
    {
        self.bit(true)
    }

    /// Clears the field bit.
    pub fn clear_bit(self) -> (w: W)
        ensures
            w.bits == with_bit(self.w.bits, 1, false),
    {
        self.bit(false)
    }

    /// Writes the field bit.
    pub fn bit(self, value: bool) -> (w: W)
        ensures
            w.bits == with_bit(self.w.bits, 1, value),
    {
        if value {
            W { bits: self.w.bits | (1u32 << 1u32) }
        } else {
            W { bits: self.w.bits & !(1u32 << 1u32) }
        }
    }
}

/// Write proxy for field `OSSUPH2`.
pub struct OSSUPH2_W {
    /// The writer that the field write goes to.
    pub w: W,
}

impl OSSUPH2_W {
    /// Sets the field bit.
    pub fn set_bit(self) -> (w: W)
        ensures
            w.bits == with_bit(self.w.bits, 2, true),
    {
        self.bit(true)
    }

    /// Clears the field bit.
    pub fn clear_bit(self) -> (w: W)
        ensures
            w.bits == with_bit(self.w.bits, 2, false),
    {
        self.bit(false)
    }

    /// Writes the field bit.
    pub fn bit(self, value: bool) -> (w: W)
        ensures
            w.bits == with_bit(self.w.bits, 2, value),
    {
        if value {
            W { bits: self.w.bits | (1u32 << 2u32) }
        } else {
            W { bits: self.w.bits & !(1u32 << 2u32) }
        }
    }
}

/// Write proxy for field `OSSUPH3`.
pub struct OSSUPH3_W {
    /// The writer that the field write goes to.
    pub w: W,
}

impl OSSUPH3_W {
    /// Sets the field bit.
    pub fn set_bit(self) -> (w: W)
        ensures
            w.bits == with_bit(self.w.bits, 3, true),
    {
        self.bit(true)
    }

    /// Clears the field bit.
    pub fn clear_bit(self) -> (w: W)
        ensures
            w.bits == with_bit(self.w.bits, 3, false),
    {
        self.bit(false)
    }

    /// Writes the field bit.
    pub fn bit(self, value: bool) -> (w: W)
        ensures
            w.bits == with_bit(self.w.bits, 3, value),
    {
        if value {
            W { bits: self.w.bits | (1u32 << 3u32) }
        } else {
            W { bits: self.w.bits & !(1u32 << 3u32) }
        }
    }
}

/// Write proxy for field `OSSUPH4`.
pub struct OSSUPH4_W {
    /// The writer that the field write goes to.
    pub w: W,
}

impl OSSUPH4_W {
    /// Sets the field bit.
    pub fn set_bit(self) -> (w: W)
        ensures
            w.bits == with_bit(self.w.bits, 4, true),
    {
        self.bit(true)
    }

    /// Clears the field bit.
    pub fn clear_bit(self) -> (w: W)
        ensures
            w.bits == with_bit(self.w.bits, 4, false),
    {
        self.bit(false)
    }

    /// Writes the field bit.
    pub fn bit(self, value: bool) -> (w: W)
        ensures
            w.bits == with_bit(self.w.bits, 4, value),
    {
        if value {
            W { bits: self.w.bits | (1u32 << 4u32) }
        } else {
            W { bits: self.w.bits & !(1u32 << 4u32) }
        }
    }
}

/// Write proxy for field `OSSUPH5`.
pub struct OSSUPH5_W {
    /// The writer that the field write goes to.
    pub w: W,
}

impl OSSUPH5_W {
    /// Sets the field bit.
    pub fn set_bit(self) -> (w: W)
        ensures
            w.bits == with_bit(self.w.bits, 5, true),
    {
        self.bit(true)
    }

    /// Clears the field bit.
    pub fn clear_bit(self) -> (w: W)
        ensures
            w.bits == with_bit(self.w.bits, 5, false),
    {
        self.bit(false)
    }

    /// Writes the field bit.
    pub fn bit(self, value: bool) -> (w: W)
        ensures
            w.bits == with_bit(self.w.bits, 5, value),
    {
        if value {
            W { bits: self.w.bits | (1u32 << 5u32) }
        } else {
            W { bits: self.w.bits & !(1u32 << 5u32) }
        }
    }
}

/// Write proxy for field `OSSUPH6`.
pub struct OSSUPH6_W {
    /// The writer that the field write goes to.
    pub w: W,
}

impl OSSUPH6_W {
    /// Sets the field bit.
    pub fn set_bit(self) -> (w: W)
        ensures
            w.bits == with_bit(self.w.bits, 6, true),
    {
        self.bit(true)
    }

    /// Clears the field bit.
    pub fn clear_bit(self) -> (w: W)
        ensures
            w.bits == with_bit(self.w.bits, 6, false),
    {
        self.bit(false)
    }

    /// Writes the field bit.
    pub fn bit(self, value: bool) -> (w: W)
        ensures
            w.bits == with_bit(self.w.bits, 6, value),
    {
        if value {
            W { bits: self.w.bits | (1u32 << 6u32) }
        } else {
            W { bits: self.w.bits & !(1u32 << 6u32) }
        }
    }
}

/// Write proxy for field `OSSUPH7`.
pub struct OSSUPH7_W {
    /// The writer that the field write goes to.
    pub w: W,
}

impl OSSUPH7_W {
    /// Sets the field bit.
    pub fn set_bit(self) -> (w: W)
        ensures
            w.bits == with_bit(self.w.bits, 7, true),
    {
        self.bit(true)
    }

    /// Clears the field bit.
    pub fn clear_bit(self) -> (w: W)
        ensures
            w.bits == with_bit(self.w.bits, 7, false),
    {
        self.bit(false)
    }

    /// Writes the field bit.
    pub fn bit(self, value: bool) -> (w: W)
        ensures
            w.bits == with_bit(self.w.bits, 7, value),
    {
        if value {
            W { bits: self.w.bits | (1u32 << 7u32) }
        } else {
            W { bits: self.w.bits & !(1u32 << 7u32) }
        }
    }
}

/// Write proxy for field `OSSUPL0`.
pub struct OSSUPL0_W {
    /// The writer that the field write goes to.
    pub w: W,
}

impl OSSUPL0_W {
    /// Sets the field bit.
    pub fn set_bit(self) -> (w: W)
        ensures
            w.bits == with_bit(self.w.bits, 16, true),
    {
        self.bit(true)
    }

    /// Clears the field bit.
    pub fn clear_bit(self) -> (w: W)
        ensures
            w.bits == with_bit(self.w.bits, 16, false),
    {
        self.bit(false)
    }

    /// Writes the field bit.
    pub fn bit(self, value: bool) -> (w: W)
        ensures
            w.bits == with_bit(self.w.bits, 16, value),
    {
        if value {
            W { bits: self.w.bits | (1u32 << 16u32) }
        } else {
            W { bits: self.w.bits & !(1u32 << 16u32) }
        }
    }
}

/// Write proxy for field `OSSUPL1`.
pub struct OSSUPL1_W {
    /// The writer that the field write goes to.
    pub w: W,
}

impl OSSUPL1_W {
    /// Sets the field bit.
    pub fn set_bit(self) -> (w: W)
        ensures
            w.bits == with_bit(self.w.bits, 17, true),
    {
        self.bit(true)
    }

    /// Clears the field bit.
    pub fn clear_bit(self) -> (w: W)
        ensures
            w.bits == with_bit(self.w.bits, 17, false),
    {
        self.bit(false)
    }

    /// Writes the field bit.
    pub fn bit(self, value: bool) -> (w: W)
        ensures
            w.bits == with_bit(self.w.bits, 17, value),
    {
        if value {
            W { bits: self.w.bits | (1u32 << 17u32) }
        } else {
            W { bits: self.w.bits & !(1u32 << 17u32) }
        }
    }
}

/// Write proxy for field `OSSUPL2`.
pub struct OSSUPL2_W {
    /// The writer that the field write goes to.
    pub w: W,
}

impl OSSUPL2_W {
    /// Sets the field bit.
    pub fn set_bit(self) -> (w: W)
        ensures
            w.bits == with_bit(self.w.bits, 18, true),
    {
        self.bit(true)
    }

    /// Clears the field bit.
    pub fn clear_bit(self) -> (w: W)
        ensures
            w.bits == with_bit(self.w.bits, 18, false),
    {
        self.bit(false)
    }

    /// Writes the field bit.
    pub fn bit(self, value: bool) -> (w: W)
        ensures
            w.bits == with_bit(self.w.bits, 18, value),
    {
        if value {
            W { bits: self.w.bits | (1u32 << 18u32) }
        } else {
            W { bits: self.w.bits & !(1u32 << 18u32) }
        }
    }
}

/// Write proxy for field `OSSUPL3`.
pub struct OSSUPL3_W {
    /// The writer that the field write goes to.
    pub w: W,
}

impl OSSUPL3_W {
    /// Sets the field bit.
    pub fn set_bit(self) -> (w: W)
        ensures
            w.bits == with_bit(self.w.bits, 19, true),
    {
        self.bit(true)
    }

    /// Clears the field bit.
    pub fn clear_bit(self) -> (w: W)
        ensures
            w.bits == with_bit(self.w.bits, 19, false),
    {
        self.bit(false)
    }

    /// Writes the field bit.
    pub fn bit(self, value: bool) -> (w: W)
        ensures
            w.bits == with_bit(self.w.bits, 19, value),
    {
        if value {
            W { bits: self.w.bits | (1u32 << 19u32) }
        } else {
            W { bits: self.w.bits & !(1u32 << 19u32) }
        }
    }
}

/// Write proxy for field `OSSUPL4`.
pub struct OSSUPL4_W {
    /// The writer that the field write goes to.
    pub w: W,
}

impl OSSUPL4_W {
    /// Sets the field bit.
    pub fn set_bit(self) -> (w: W)
        ensures
            w.bits == with_bit(self.w.bits, 20, true),
    {
        self.bit(true)
    }

    /// Clears the field bit.
    pub fn clear_bit(self) -> (w: W)
        ensures
            w.bits == with_bit(self.w.bits, 20, false),
    {
        self.bit(false)
    }

    /// Writes the field bit.
    pub fn bit(self, value: bool) -> (w: W)
        ensures
            w.bits == with_bit(self.w.bits, 20, value),
    {
        if value {
            W { bits: self.w.bits | (1u32 << 20u32) }
        } else {
            W { bits: self.w.bits & !(1u32 << 20u32) }
        }
    }
}

/// Write proxy for field `OSSUPL5`.
pub struct OSSUPL5_W {
    /// The writer that the field write goes to.
    pub w: W,
}

impl OSSUPL5_W {
    /// Sets the field bit.
    pub fn set_bit(self) -> (w: W)
        ensures
            w.bits == with_bit(self.w.bits, 21, true),
    {
        self.bit(true)
    }

    /// Clears the field bit.
    pub fn clear_bit(self) -> (w: W)
        ensures
            w.bits == with_bit(self.w.bits, 21, false),
    {
        self.bit(false)
    }

    /// Writes the field bit.
    pub fn bit(self, value: bool) -> (w: W)
        ensures
            w.bits == with_bit(self.w.bits, 21, value),
    {
        if value {
            W { bits: self.w.bits | (1u32 << 21u32) }
        } else {
            W { bits: self.w.bits & !(1u32 << 21u32) }
        }
    }
}

/// Write proxy for field `OSSUPL6`.
pub struct OSSUPL6_W {
    /// The writer that the field write goes to.
    pub w: W,
}

impl OSSUPL6_W {
    /// Sets the field bit.
    pub fn set_bit(self) -> (w: W)
        ensures
            w.bits == with_bit(self.w.bits, 22, true),
    {
        self.bit(true)
    }

    /// Clears the field bit.
    pub fn clear_bit(self) -> (w: W)
        ensures
            w.bits == with_bit(self.w.bits, 22, false),
    {
        self.bit(false)
    }

    /// Writes the field bit.
    pub fn bit(self, value: bool) -> (w: W)
        ensures
            w.bits == with_bit(self.w.bits, 22, value),
    {
        if value {
            W { bits: self.w.bits | (1u32 << 22u32) }
        } else {
            W { bits: self.w.bits & !(1u32 << 22u32) }
        }
    }
}

/// Write proxy for field `OSSUPL7`.
pub struct OSSUPL7_W {
    /// The writer that the field write goes to.
    pub w: W,
}

impl OSSUPL7_W {
    /// Sets the field bit.
    pub fn set_bit(self) -> (w: W)
        ensures
            w.bits == with_bit(self.w.bits, 23, true),
    {
        self.bit(true)
    }

    /// Clears the field bit.
    pub fn clear_bit(self) -> (w: W)
        ensures
            w.bits == with_bit(self.w.bits, 23, false),
    {
        self.bit(false)
    }

    /// Writes the field bit.
    pub fn bit(self, value: bool) -> (w: W)
        ensures
            w.bits == with_bit(self.w.bits, 23, value),
    {
        if value {
            W { bits: self.w.bits | (1u32 << 23u32) }
        } else {
            W { bits: self.w.bits & !(1u32 << 23u32) }
        }
    }
}

} // verus!
