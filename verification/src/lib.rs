//! Clock-tree and register-field support for the ATSAM3X family.
//!
//! The heart of the crate is [`clock::SystemClocks`], a controller for the
//! power-management (PMC) and supply (SUPC) register blocks.  It sequences
//! oscillator, PLL and master-clock configuration, records every register
//! write it performs, and derives the resulting clock frequencies.  The
//! remaining modules provide typed read/write views of individual hardware
//! register fields.

pub mod bits;
pub mod ccnt5;
pub mod clock;
pub mod hstdmanxtdsc1;
pub mod iadr;
pub mod isr;
pub mod ossupd;
pub mod scuc;
pub mod time;
