//! Configuring the system clock sources.
//!
//! [`SystemClocks`] owns a model of the two hardware register blocks that
//! govern the clock tree — the power management controller ([`PMC`]) and the
//! supply controller ([`SUPC`]) — and sequences their configuration exactly as
//! the hardware requires: oscillators are switched only while both are
//! running, PLL sources are primed through the main clock before the final
//! switch, and every configuration write is followed by a wait on the matching
//! readiness bit.  Every register write the controller performs is recorded in
//! order in its write trace, so the contracts (and tests) can speak about the
//! exact sequence of writes, not just the final register contents.
//!
//! Hardware settling is modelled as immediate: the readiness bits that a write
//! affects read as settled right after the write, so every busy-wait loop in
//! this module exits on its first poll.

use vstd::prelude::*;

use crate::time::Hertz;

verus! {

/// Unlock key that every write to the `CKGR_MOR` register must carry.
pub const CKGR_MOR_KEY: u8 = 0x37;

/// Unlock key that every write to the `SUPC_CR` register must carry.
pub const SUPC_CR_KEY: u8 = 0xA5;

/// Crystal oscillator startup allowance written by `set_main_clock_source`,
/// counted in units of 8 slow-clock cycles.
pub const MAIN_XTAL_STARTUP_CYCLES: u8 = 8;

/// Largest multiplier-minus-one accepted for PLLA: the derived frequency
/// (at most 12 MHz times `mula + 1`) must still fit in a `u32`.
pub const PLLA_MULA_MAX: u16 = 356;

/// Oscillator sources that can be used by the slow clock.
///
/// The low power RC oscillator starts up faster, but is less accurate, so it
/// is the default clock for the system.  If more accurate timing is required,
/// switch to the low power crystal oscillator.  Once the crystal oscillator
/// has been enabled, it is not possible to switch back.
#[derive(Clone, Copy, Debug, PartialEq, Eq, Structural)]
pub enum SlowClockSource {
    /// Slow clock RC oscillator, runs at 32000 Hz and is less accurate.
    LowPowerRC,
    /// Slow clock external crystal oscillator, runs at 32768 Hz and is
    /// more accurate.
    LowPowerXtal32Khz,
}

/// Valid frequency settings for the fast RC oscillator.
#[allow(non_camel_case_types)]
#[derive(Clone, Copy, Debug, PartialEq, Eq, Structural)]
pub enum FastRCFreq {
    /// 4 MHz, uncalibrated; the power-on default.
    _4_MHZ,
    /// 8 MHz, calibrated.
    _8_MHZ,
    /// 12 MHz, calibrated.
    _12_MHZ,
}

/// Oscillator sources that can be used by the main clock.
///
/// The fast RC oscillator starts up quickly, but generally has lower accuracy
/// than whatever external crystal or ceramic oscillator has been connected,
/// in spite of the calibration on the 8 MHz and 12 MHz settings.  The main
/// crystal frequency is determined by the board designer; 12 MHz is the value
/// this crate assumes.
#[derive(Clone, Copy, Debug, PartialEq, Eq, Structural)]
pub enum MainClockSource {
    /// Internal RC oscillator at the given frequency.
    FastRc(FastRCFreq),
    /// External crystal or ceramic oscillator.
    MainXtal,
}

/// Divider to apply to the master clock when using either PLLA or UPLL as
/// the source.
#[derive(Clone, Copy, Debug, PartialEq, Eq, Structural)]
pub enum PllDiv {
    /// No divider.
    One,
    /// Run the master clock at half the frequency of the source PLL.
    Two,
}

/// Valid clock sources for the system master clock.
#[allow(non_camel_case_types)]
#[derive(Clone, Copy, Debug, PartialEq, Eq, Structural)]
pub enum ClockSource {
    /// The 32 kHz slow clock.
    SLOW_CLK,
    /// The main clock (RC oscillator or crystal).
    MAIN_CLK,
    /// The PLLA output.
    PLLA_CLK,
    /// The UPLL output.
    UPLL_CLK,
}

/// Valid prescaler values for the system master clock.
#[allow(non_camel_case_types)]
#[derive(Clone, Copy, Debug, PartialEq, Eq, Structural)]
pub enum ClockPrescaler {
    /// Divide by 1.
    CLK_1,
    /// Divide by 2.
    CLK_2,
    /// Divide by 4.
    CLK_4,
    /// Divide by 8.
    CLK_8,
    /// Divide by 16.
    CLK_16,
    /// Divide by 32.
    CLK_32,
    /// Divide by 64.
    CLK_64,
    /// Divide by 3, the one non-power-of-two option.
    CLK_3,
}

/// Configuration options for setting up the PLLA clock source.  The output
/// frequency is the source clock frequency times `(mula + 1) / diva`.  The
/// PLL is parked (its output rate is 0) when `mula` is 0.
#[derive(Clone, Copy, Debug, PartialEq, Eq, Structural)]
pub struct PllAClockConfig {
    /// Clock multiplier minus one.
    pub mula: u16,
    /// Clock divider.
    pub diva: u8,
    /// How many slow clock ticks are required for PLLA to settle.
    pub count: u8,
}

/// Configuration options for setting up the UPLL clock source.  To use USB,
/// the main clock must be configured to use the external crystal oscillator,
/// and it must be a 12 MHz crystal.  The output frequency is the source clock
/// frequency times 40.
#[derive(Clone, Copy, Debug, PartialEq, Eq, Structural)]
pub struct UPllClockConfig {
    /// How many slow clock ticks are required for UPLL to settle.
    pub count: u8,
}

impl From<u8> for UPllClockConfig {
    fn from(count: u8) -> Self {
        Self { count }
    }
}

impl vstd::std_specs::convert::FromSpecImpl<u8> for UPllClockConfig {
    open spec fn obeys_from_spec() -> bool {
        true
    }

    open spec fn from_spec(count: u8) -> Self {
        UPllClockConfig { count }
    }
}

/// Identifier used for enabling or disabling the clock to a peripheral, as
/// well as for controlling the peripheral interrupt in the NVIC.  Peripherals
/// 0 through 7 and peripheral 10 are always clocked and are not under PMC
/// control.
#[derive(Clone, Copy, Debug, PartialEq, Eq, Structural)]
pub enum PeripheralID {
    /// ID  0, supply controller; no PMC clock control.
    Id00Supc,
    /// ID  1, reset controller; no PMC clock control.
    Id01Rstc,
    /// ID  2, real-time clock; no PMC clock control.
    Id02Rtc,
    /// ID  3, real-time timer; no PMC clock control.
    Id03Rtt,
    /// ID  4, watchdog timer; no PMC clock control.
    Id04Wdg,
    /// ID  5, power management controller; no PMC clock control.
    Id05Pmc,
    /// ID  6, enhanced embedded flash controller 1; no PMC clock control.
    Id06Eefc0,
    /// ID  7, enhanced embedded flash controller 2; no PMC clock control.
    Id07Eefc1,
    /// ID  8, universal asynchronous receiver-transmitter.
    Id08Uart,
    /// ID  9, static memory controller / SDRAM controller.
    Id09SmcSdramc,
    /// ID 10, SDRAM controller; no PMC clock control.
    Id10Sdramc,
    /// ID 11, parallel I/O controller A.
    Id11PioA,
    /// ID 12, parallel I/O controller B.
    Id12PioB,
    /// ID 13, parallel I/O controller C.
    Id13PioC,
    /// ID 14, parallel I/O controller D.
    Id14PioD,
    /// ID 15, parallel I/O controller E.
    Id15PioE,
    /// ID 16, parallel I/O controller F.
    Id16PioF,
    /// ID 17, synchronous UART 0.
    Id17Usart0,
    /// ID 18, synchronous UART 1.
    Id18Usart1,
    /// ID 19, synchronous UART 2.
    Id19Usart2,
    /// ID 20, synchronous UART 3.
    Id20Usart3,
    /// ID 21, high speed media card interface.
    Id21Hsmci,
    /// ID 22, two-wire interface 0.
    Id22Twi0,
    /// ID 23, two-wire interface 1.
    Id23Twi1,
    /// ID 24, serial peripheral interface 0.
    Id24Spi0,
    /// ID 25, serial peripheral interface 1.
    Id25Spi1,
    /// ID 26, synchronous serial controller.
    Id26Ssc,
    /// ID 27, timer counter channel 0.
    Id27Tc0,
    /// ID 28, timer counter channel 1.
    Id28Tc1,
    /// ID 29, timer counter channel 2.
    Id29Tc2,
    /// ID 30, timer counter channel 3.
    Id30Tc3,
    /// ID 31, timer counter channel 4.
    Id31Tc4,
    /// ID 32, timer counter channel 5.
    Id32Tc5,
    /// ID 33, timer counter channel 6.
    Id33Tc6,
    /// ID 34, timer counter channel 7.
    Id34Tc7,
    /// ID 35, timer counter channel 8.
    Id35Tc8,
    /// ID 36, pulse width modulation controller.
    Id36Pwm,
    /// ID 37, ADC controller.
    Id37Adc,
    /// ID 38, DAC controller.
    Id38Dacc,
    /// ID 39, DMA controller.
    Id39Dmac,
    /// ID 40, USB OTG high speed.
    Id40Uotghs,
    /// ID 41, true random number generator.
    Id41Trng,
    /// ID 42, Ethernet MAC.
    Id42Emac,
    /// ID 43, CAN controller 0.
    Id43Can0,
    /// ID 44, CAN controller 1.
    Id44Can1,
}

/// The main oscillator register `CKGR_MOR`, as named fields.
#[derive(Clone, Copy, Debug, PartialEq, Eq, Structural)]
pub struct CkgrMor {
    /// Main crystal oscillator enable.
    pub moscxten: bool,
    /// Main RC oscillator enable.
    pub moscrcen: bool,
    /// Main RC oscillator frequency selection.
    pub moscrcf: FastRCFreq,
    /// Main crystal oscillator startup time.
    pub moscxtst: u8,
    /// Main oscillator selection: `false` is the RC oscillator, `true` the
    /// crystal.
    pub moscsel: bool,
}

/// The main clock frequency register `CKGR_MCFR`, as named fields.
#[derive(Clone, Copy, Debug, PartialEq, Eq, Structural)]
pub struct CkgrMcfr {
    /// How many main clock ticks were counted during 16 slow clock cycles.
    pub mainf: u16,
    /// Whether `mainf` has been measured since the last main clock change.
    pub mainfrdy: bool,
}

/// The PLLA configuration register `CKGR_PLLAR`, as named fields.
#[derive(Clone, Copy, Debug, PartialEq, Eq, Structural)]
pub struct CkgrPllar {
    /// Reserved bit that the hardware requires to be written as one.
    pub one: bool,
    /// Clock multiplier minus one; 0 parks the PLL.
    pub mula: u16,
    /// Clock divider.
    pub diva: u8,
    /// How many slow clock ticks the PLL is allotted to lock.
    pub pllacount: u8,
}

/// The UPLL configuration register `CKGR_UCKR`, as named fields.
#[derive(Clone, Copy, Debug, PartialEq, Eq, Structural)]
pub struct CkgrUckr {
    /// UPLL enable.
    pub upllen: bool,
    /// How many slow clock ticks the UPLL is allotted to lock.
    pub upllcount: u8,
}

/// The master clock register `PMC_MCKR`, as named fields.
#[derive(Clone, Copy, Debug, PartialEq, Eq, Structural)]
pub struct PmcMckr {
    /// Master clock source selection.
    pub css: ClockSource,
    /// Master clock prescaler.
    pub pres: ClockPrescaler,
    /// Divide the PLLA output by two before it reaches the master clock.
    pub plladiv2: bool,
    /// Divide the UPLL output by two before it reaches the master clock.
    pub uplldiv2: bool,
}

/// The PMC status register `PMC_SR`, as named fields.
#[derive(Clone, Copy, Debug, PartialEq, Eq, Structural)]
pub struct PmcSr {
    /// Main crystal oscillator stabilized.
    pub moscxts: bool,
    /// Main RC oscillator stabilized.
    pub moscrcs: bool,
    /// Main oscillator selection done.
    pub moscsels: bool,
    /// Master clock ready.
    pub mckrdy: bool,
    /// PLLA locked.
    pub locka: bool,
    /// UPLL locked.
    pub locku: bool,
}

/// The power management controller register block, as named registers.
#[derive(Debug, PartialEq, Eq, Structural)]
pub struct PMC {
    /// Main oscillator register.
    pub ckgr_mor: CkgrMor,
    /// Main clock frequency register.
    pub ckgr_mcfr: CkgrMcfr,
    /// PLLA configuration register.
    pub ckgr_pllar: CkgrPllar,
    /// UPLL configuration register.
    pub ckgr_uckr: CkgrUckr,
    /// Master clock register.
    pub pmc_mckr: PmcMckr,
    /// Status register.
    pub pmc_sr: PmcSr,
    /// Peripheral clock status register 0, one gate bit per peripheral 0-31.
    pub pmc_pcsr0: u32,
    /// Peripheral clock status register 1, one gate bit per peripheral 32-44.
    pub pmc_pcsr1: u32,
}

/// The supply controller status register `SUPC_SR`, as named fields.
#[derive(Clone, Copy, Debug, PartialEq, Eq, Structural)]
pub struct SupcSr {
    /// Slow clock oscillator selection: `false` is the RC oscillator,
    /// `true` the 32768 Hz crystal.
    pub oscsel: bool,
}

/// The supply controller register block, as named registers.
#[derive(Debug, PartialEq, Eq, Structural)]
pub struct SUPC {
    /// Status register.
    pub sr: SupcSr,
}

impl PMC {
    /// The power management controller in its power-on state: main clock on
    /// the 4 MHz RC oscillator, master clock on the main clock undivided,
    /// PLLA parked, UPLL off, and every peripheral gate closed.  The
    /// frequency measure shows the 4 MHz main clock counted against the
    /// 32 kHz slow clock (2000 ticks in 16 slow clock cycles).
    pub fn reset() -> (r: PMC)
        ensures
            r == PMC::spec_reset(),
    {
        PMC {
            ckgr_mor: CkgrMor {
                moscxten: false,
                moscrcen: true,
                moscrcf: FastRCFreq::_4_MHZ,
                moscxtst: 0,
                moscsel: false,
            },
            ckgr_mcfr: CkgrMcfr { mainf: 2000, mainfrdy: true },
            ckgr_pllar: CkgrPllar { one: false, mula: 0, diva: 0, pllacount: 0x3f },
            ckgr_uckr: CkgrUckr { upllen: false, upllcount: 0 },
            pmc_mckr: PmcMckr {
                css: ClockSource::MAIN_CLK,
                pres: ClockPrescaler::CLK_1,
                plladiv2: false,
                uplldiv2: false,
            },
            pmc_sr: PmcSr {
                moscxts: false,
                moscrcs: true,
                moscsels: true,
                mckrdy: true,
                locka: false,
                locku: false,
            },
            pmc_pcsr0: 0,
            pmc_pcsr1: 0,
        }
    }

    /// The power-on state returned by [`PMC::reset`].
    pub open spec fn spec_reset() -> PMC {
        PMC {
            ckgr_mor: CkgrMor {
                moscxten: false,
                moscrcen: true,
                moscrcf: FastRCFreq::_4_MHZ,
                moscxtst: 0,
                moscsel: false,
            },
            ckgr_mcfr: CkgrMcfr { mainf: 2000, mainfrdy: true },
            ckgr_pllar: CkgrPllar { one: false, mula: 0, diva: 0, pllacount: 0x3f },
            ckgr_uckr: CkgrUckr { upllen: false, upllcount: 0 },
            pmc_mckr: PmcMckr {
                css: ClockSource::MAIN_CLK,
                pres: ClockPrescaler::CLK_1,
                plladiv2: false,
                uplldiv2: false,
            },
            pmc_sr: PmcSr {
                moscxts: false,
                moscrcs: true,
                moscsels: true,
                mckrdy: true,
                locka: false,
                locku: false,
            },
            pmc_pcsr0: 0,
            pmc_pcsr1: 0,
        }
    }
}

impl SUPC {
    /// The supply controller in its power-on state: slow clock on the
    /// internal RC oscillator.
    pub fn reset() -> (r: SUPC)
        ensures
            r == (SUPC { sr: SupcSr { oscsel: false } }),
    {
        SUPC { sr: SupcSr { oscsel: false } }
    }
}

/// One register write performed by the controller, in the order issued.
/// Writes to unlock-protected registers carry their key.
#[derive(Clone, Copy, Debug, PartialEq, Eq, Structural)]
pub enum RegWrite {
    /// Write to the supply controller control register.
    SupcCr { key: u8, xtalsel: bool },
    /// Write to the main oscillator register.
    CkgrMor { key: u8, value: CkgrMor },
    /// Write to the PLLA configuration register.
    CkgrPllar(CkgrPllar),
    /// Write to the UPLL configuration register.
    CkgrUckr(CkgrUckr),
    /// Write to the master clock register.
    PmcMckr(PmcMckr),
    /// Write-ones-to-set write to peripheral clock enable register 0.
    PmcPcer0(u32),
    /// Write-ones-to-clear write to peripheral clock disable register 0.
    PmcPcdr0(u32),
    /// Write-ones-to-set write to peripheral clock enable register 1.
    PmcPcer1(u32),
    /// Write-ones-to-clear write to peripheral clock disable register 1.
    PmcPcdr1(u32),
}

// ---------------------------------------------------------------------------
// Derived clock rates.
// ---------------------------------------------------------------------------

/// The slow clock frequency that the supply controller's oscillator
/// selection implies: 32000 Hz from the RC oscillator, 32768 Hz from the
/// crystal.
pub open spec fn slow_clock_rate(supc: SUPC) -> int {
    if supc.sr.oscsel {
        32768
    } else {
        32000
    }
}

/// The frequency of one fast RC oscillator setting.
pub open spec fn rc_frequency(f: FastRCFreq) -> int {
    match f {
        FastRCFreq::_4_MHZ => 4_000_000,
        FastRCFreq::_8_MHZ => 8_000_000,
        FastRCFreq::_12_MHZ => 12_000_000,
    }
}

/// The main clock frequency that the oscillator register implies: the 12 MHz
/// board crystal when the crystal is selected, else the selected RC setting.
pub open spec fn main_clock_rate(mor: CkgrMor) -> int {
    if mor.moscsel {
        12_000_000
    } else {
        rc_frequency(mor.moscrcf)
    }
}

/// The main clock frequency that a requested source will run at.
pub open spec fn main_source_rate(source: MainClockSource) -> int {
    match source {
        MainClockSource::FastRc(f) => rc_frequency(f),
        MainClockSource::MainXtal => 12_000_000,
    }
}

/// Whether the PLLA configuration register holds a configuration whose
/// derived rate can be computed in 32 bits: a parked PLL, or a positive
/// divider with a multiplier small enough that the product fits.
pub open spec fn plla_cfg_ok(p: CkgrPllar) -> bool {
    p.mula <= PLLA_MULA_MAX && (p.mula > 0 ==> p.diva >= 1)
}

/// The PLLA output frequency: the main clock times `(mula + 1) / diva`,
/// truncating, or 0 when the PLL is parked (`mula == 0`).
pub open spec fn plla_clock_rate(pmc: PMC) -> int {
    if pmc.ckgr_pllar.mula == 0 {
        0
    } else {
        main_clock_rate(pmc.ckgr_mor) * (pmc.ckgr_pllar.mula + 1) / pmc.ckgr_pllar.diva as int
    }
}

/// The UPLL output frequency: the main clock times the fixed multiplier 40.
/// Only physically accurate when the main clock is a 12 MHz crystal.
pub open spec fn upll_clock_rate(pmc: PMC) -> int {
    main_clock_rate(pmc.ckgr_mor) * 40
}

/// The divisor that a master clock prescaler setting applies.
pub open spec fn prescaler_divisor(p: ClockPrescaler) -> int {
    match p {
        ClockPrescaler::CLK_1 => 1,
        ClockPrescaler::CLK_2 => 2,
        ClockPrescaler::CLK_4 => 4,
        ClockPrescaler::CLK_8 => 8,
        ClockPrescaler::CLK_16 => 16,
        ClockPrescaler::CLK_32 => 32,
        ClockPrescaler::CLK_64 => 64,
        ClockPrescaler::CLK_3 => 3,
    }
}

/// The master clock frequency: the selected source's rate, halved if the
/// source is a PLL with its divide-by-two flag set, then divided by the
/// prescaler.
pub open spec fn master_clock_rate(pmc: PMC, supc: SUPC) -> int {
    let unscaled = match pmc.pmc_mckr.css {
        ClockSource::SLOW_CLK => slow_clock_rate(supc),
        ClockSource::MAIN_CLK => main_clock_rate(pmc.ckgr_mor),
        ClockSource::PLLA_CLK => if pmc.pmc_mckr.plladiv2 {
            plla_clock_rate(pmc) / 2
        } else {
            plla_clock_rate(pmc)
        },
        ClockSource::UPLL_CLK => if pmc.pmc_mckr.uplldiv2 {
            upll_clock_rate(pmc) / 2
        } else {
            upll_clock_rate(pmc)
        },
    };
    unscaled / prescaler_divisor(pmc.pmc_mckr.pres)
}

// ---------------------------------------------------------------------------
// The peripheral clock gate table.
// ---------------------------------------------------------------------------

/// The numeric identifier of a peripheral, 0 through 44.
pub open spec fn pid_number(pid: PeripheralID) -> int {
    match pid {
        PeripheralID::Id00Supc => 0,
        PeripheralID::Id01Rstc => 1,
        PeripheralID::Id02Rtc => 2,
        PeripheralID::Id03Rtt => 3,
        PeripheralID::Id04Wdg => 4,
        PeripheralID::Id05Pmc => 5,
        PeripheralID::Id06Eefc0 => 6,
        PeripheralID::Id07Eefc1 => 7,
        PeripheralID::Id08Uart => 8,
        PeripheralID::Id09SmcSdramc => 9,
        PeripheralID::Id10Sdramc => 10,
        PeripheralID::Id11PioA => 11,
        PeripheralID::Id12PioB => 12,
        PeripheralID::Id13PioC => 13,
        PeripheralID::Id14PioD => 14,
        PeripheralID::Id15PioE => 15,
        PeripheralID::Id16PioF => 16,
        PeripheralID::Id17Usart0 => 17,
        PeripheralID::Id18Usart1 => 18,
        PeripheralID::Id19Usart2 => 19,
        PeripheralID::Id20Usart3 => 20,
        PeripheralID::Id21Hsmci => 21,
        PeripheralID::Id22Twi0 => 22,
        PeripheralID::Id23Twi1 => 23,
        PeripheralID::Id24Spi0 => 24,
        PeripheralID::Id25Spi1 => 25,
        PeripheralID::Id26Ssc => 26,
        PeripheralID::Id27Tc0 => 27,
        PeripheralID::Id28Tc1 => 28,
        PeripheralID::Id29Tc2 => 29,
        PeripheralID::Id30Tc3 => 30,
        PeripheralID::Id31Tc4 => 31,
        PeripheralID::Id32Tc5 => 32,
        PeripheralID::Id33Tc6 => 33,
        PeripheralID::Id34Tc7 => 34,
        PeripheralID::Id35Tc8 => 35,
        PeripheralID::Id36Pwm => 36,
        PeripheralID::Id37Adc => 37,
        PeripheralID::Id38Dacc => 38,
        PeripheralID::Id39Dmac => 39,
        PeripheralID::Id40Uotghs => 40,
        PeripheralID::Id41Trng => 41,
        PeripheralID::Id42Emac => 42,
        PeripheralID::Id43Can0 => 43,
        PeripheralID::Id44Can1 => 44,
    }
}

/// Whether the peripheral's clock gate is under PMC control.  Peripherals 0
/// through 7 and the SDRAM controller (peripheral 10) are permanently
/// clocked.
pub open spec fn pid_controllable(pid: PeripheralID) -> bool {
    pid_number(pid) > 7 && pid_number(pid) != 10
}

/// A controllable peripheral's gate bit within its gate register:
/// bit `pid_number` of register 0 for peripherals 8-31, bit
/// `pid_number - 32` of register 1 from peripheral 32 on.
pub open spec fn pid_gate_mask(pid: PeripheralID) -> u32 {
    if pid_number(pid) < 32 {
        1u32 << pid_number(pid) as u32
    } else {
        1u32 << (pid_number(pid) - 32) as u32
    }
}

impl PeripheralID {
    /// The peripheral's numeric identifier, 0 through 44.
    pub fn number(&self) -> (n: u32)
        ensures
            n == pid_number(*self),
            n <= 44,
    {
        match *self {
            PeripheralID::Id00Supc => 0,
            PeripheralID::Id01Rstc => 1,
            PeripheralID::Id02Rtc => 2,
            PeripheralID::Id03Rtt => 3,
            PeripheralID::Id04Wdg => 4,
            PeripheralID::Id05Pmc => 5,
            PeripheralID::Id06Eefc0 => 6,
            PeripheralID::Id07Eefc1 => 7,
            PeripheralID::Id08Uart => 8,
            PeripheralID::Id09SmcSdramc => 9,
            PeripheralID::Id10Sdramc => 10,
            PeripheralID::Id11PioA => 11,
            PeripheralID::Id12PioB => 12,
            PeripheralID::Id13PioC => 13,
            PeripheralID::Id14PioD => 14,
            PeripheralID::Id15PioE => 15,
            PeripheralID::Id16PioF => 16,
            PeripheralID::Id17Usart0 => 17,
            PeripheralID::Id18Usart1 => 18,
            PeripheralID::Id19Usart2 => 19,
            PeripheralID::Id20Usart3 => 20,
            PeripheralID::Id21Hsmci => 21,
            PeripheralID::Id22Twi0 => 22,
            PeripheralID::Id23Twi1 => 23,
            PeripheralID::Id24Spi0 => 24,
            PeripheralID::Id25Spi1 => 25,
            PeripheralID::Id26Ssc => 26,
            PeripheralID::Id27Tc0 => 27,
            PeripheralID::Id28Tc1 => 28,
            PeripheralID::Id29Tc2 => 29,
            PeripheralID::Id30Tc3 => 30,
            PeripheralID::Id31Tc4 => 31,
            PeripheralID::Id32Tc5 => 32,
            PeripheralID::Id33Tc6 => 33,
            PeripheralID::Id34Tc7 => 34,
            PeripheralID::Id35Tc8 => 35,
            PeripheralID::Id36Pwm => 36,
            PeripheralID::Id37Adc => 37,
            PeripheralID::Id38Dacc => 38,
            PeripheralID::Id39Dmac => 39,
            PeripheralID::Id40Uotghs => 40,
            PeripheralID::Id41Trng => 41,
            PeripheralID::Id42Emac => 42,
            PeripheralID::Id43Can0 => 43,
            PeripheralID::Id44Can1 => 44,
        }
    }

    /// Whether this peripheral's clock gate is under PMC control.
    pub fn pmc_controllable(&self) -> (b: bool)
        ensures
            b == pid_controllable(*self),
    {
        let n = self.number();
        n > 7 && n != 10
    }
}

// ---------------------------------------------------------------------------
// The write sequences of the two multi-step transitions.
// ---------------------------------------------------------------------------

/// A keyed write of the main oscillator register.
pub open spec fn mor_write(m: CkgrMor) -> RegWrite {
    RegWrite::CkgrMor { key: CKGR_MOR_KEY, value: m }
}

/// The oscillator register with both main oscillators enabled and the
/// crystal startup allowance set: the overlap state that every main clock
/// transition passes through.
pub open spec fn mor_both_enabled(m: CkgrMor) -> CkgrMor {
    CkgrMor { moscrcen: true, moscxten: true, moscxtst: MAIN_XTAL_STARTUP_CYCLES, ..m }
}

/// The oscillator register after a main clock transition to `source`.
pub open spec fn main_transition_final(m0: CkgrMor, source: MainClockSource) -> CkgrMor {
    match source {
        MainClockSource::FastRc(f) => CkgrMor {
            moscxten: false,
            moscrcen: true,
            moscrcf: f,
            moscxtst: MAIN_XTAL_STARTUP_CYCLES,
            moscsel: false,
        },
        MainClockSource::MainXtal => CkgrMor {
            moscxten: true,
            moscrcen: false,
            moscrcf: m0.moscrcf,
            moscxtst: MAIN_XTAL_STARTUP_CYCLES,
            moscsel: true,
        },
    }
}

/// The exact sequence of register writes that a main clock transition to
/// `source` performs: enable both oscillators, then (for the RC oscillator)
/// retune, select and drop the crystal, or (for the crystal) select and drop
/// the RC oscillator.
pub open spec fn main_transition_writes(m0: CkgrMor, source: MainClockSource) -> Seq<RegWrite> {
    let m1 = mor_both_enabled(m0);
    match source {
        MainClockSource::FastRc(f) => {
            let m2 = CkgrMor { moscrcf: f, ..m1 };
            let m3 = CkgrMor { moscsel: false, ..m2 };
            let m4 = CkgrMor { moscxten: false, ..m3 };
            seq![mor_write(m1), mor_write(m2), mor_write(m3), mor_write(m4)]
        },
        MainClockSource::MainXtal => {
            let m2 = CkgrMor { moscsel: true, ..m1 };
            let m3 = CkgrMor { moscrcen: false, ..m2 };
            seq![mor_write(m1), mor_write(m2), mor_write(m3)]
        },
    }
}

/// Whether a master clock source is one of the two PLLs.
pub open spec fn is_pll(source: ClockSource) -> bool {
    source == ClockSource::PLLA_CLK || source == ClockSource::UPLL_CLK
}

/// The master clock register with its prescaler replaced.
pub open spec fn mckr_with_pres(m: PmcMckr, p: ClockPrescaler) -> PmcMckr {
    PmcMckr { pres: p, ..m }
}

/// The master clock register primed for a switch to a PLL: pointed at the
/// main clock with that PLL's divide-by-two flag already set.
pub open spec fn mckr_primed(m: PmcMckr, source: ClockSource, pll_div2: bool) -> PmcMckr {
    if source == ClockSource::UPLL_CLK {
        PmcMckr { css: ClockSource::MAIN_CLK, uplldiv2: pll_div2, ..m }
    } else {
        PmcMckr { css: ClockSource::MAIN_CLK, plladiv2: pll_div2, ..m }
    }
}

/// The master clock register after the final switch to `source`.
pub open spec fn mckr_switched(m: PmcMckr, source: ClockSource, pll_div2: bool) -> PmcMckr {
    match source {
        ClockSource::SLOW_CLK => PmcMckr { css: source, ..m },
        ClockSource::MAIN_CLK => PmcMckr { css: source, ..m },
        ClockSource::PLLA_CLK => PmcMckr { css: source, plladiv2: pll_div2, ..m },
        ClockSource::UPLL_CLK => PmcMckr { css: source, uplldiv2: pll_div2, ..m },
    }
}

/// The master clock register after a master clock transition.
pub open spec fn master_transition_final(
    m0: PmcMckr,
    source: ClockSource,
    prescaler: Option<ClockPrescaler>,
    pll_div2: bool,
) -> PmcMckr {
    match prescaler {
        Some(p) => if is_pll(source) {
            mckr_switched(mckr_primed(mckr_with_pres(m0, p), source, pll_div2), source, pll_div2)
        } else {
            mckr_with_pres(mckr_switched(m0, source, pll_div2), p)
        },
        None => if is_pll(source) {
            mckr_switched(mckr_primed(m0, source, pll_div2), source, pll_div2)
        } else {
            mckr_switched(m0, source, pll_div2)
        },
    }
}

/// The exact sequence of master clock register writes that
/// `set_master_clock_source_and_prescaler` performs.  For a PLL target the
/// prescaler (when given) is written first and the switch is primed through
/// the main clock; for the slow and main clocks the prescaler is written
/// after the switch.
pub open spec fn master_transition_writes(
    m0: PmcMckr,
    source: ClockSource,
    prescaler: Option<ClockPrescaler>,
    pll_div2: bool,
) -> Seq<RegWrite> {
    match prescaler {
        Some(p) => if is_pll(source) {
            let m1 = mckr_with_pres(m0, p);
            let m2 = mckr_primed(m1, source, pll_div2);
            let m3 = mckr_switched(m2, source, pll_div2);
            seq![RegWrite::PmcMckr(m1), RegWrite::PmcMckr(m2), RegWrite::PmcMckr(m3)]
        } else {
            let m1 = mckr_switched(m0, source, pll_div2);
            let m2 = mckr_with_pres(m1, p);
            seq![RegWrite::PmcMckr(m1), RegWrite::PmcMckr(m2)]
        },
        None => if is_pll(source) {
            let m1 = mckr_primed(m0, source, pll_div2);
            let m2 = mckr_switched(m1, source, pll_div2);
            seq![RegWrite::PmcMckr(m1), RegWrite::PmcMckr(m2)]
        } else {
            seq![RegWrite::PmcMckr(mckr_switched(m0, source, pll_div2))]
        },
    }
}

// ---------------------------------------------------------------------------
// The controller.
// ---------------------------------------------------------------------------

/// `SystemClocks` encapsulates the PMC and SUPC clock hardware and is the
/// only path through which their registers are configured: it is built by
/// taking ownership of both register blocks, and the blocks cannot be
/// copied, so a program holds at most one controller for them.  Every
/// register write the controller issues is appended to `writes`.
pub struct SystemClocks {
    /// Power management controller.
    pub pmc: PMC,
    /// Supply controller.
    pub supc: SUPC,
    /// Every register write issued so far, oldest first.
    pub writes: Vec<RegWrite>,
}

impl SystemClocks {
    /// Writes the oscillator register (with its unlock key) and lets the
    /// hardware settle: afterwards each enabled oscillator reads as stable
    /// and the oscillator selection reads as done.
    fn write_ckgr_mor(&mut self, v: CkgrMor)
        ensures
            final(self).pmc == (PMC {
                ckgr_mor: v,
                pmc_sr: (PmcSr {
                    moscrcs: v.moscrcen,
                    moscxts: v.moscxten,
                    moscsels: true,
                    ..old(self).pmc.pmc_sr
                }),
                ..old(self).pmc
            }),
            final(self).supc == old(self).supc,
            final(self).writes@ == old(self).writes@.push(mor_write(v)),
    {
        self.pmc.ckgr_mor = v;
        self.pmc.pmc_sr.moscrcs = v.moscrcen;
        self.pmc.pmc_sr.moscxts = v.moscxten;
        self.pmc.pmc_sr.moscsels = true;
        self.writes.push(RegWrite::CkgrMor { key: CKGR_MOR_KEY, value: v });
    }

    /// Writes the PLLA configuration register and lets the PLL settle: the
    /// lock bit reads as set afterwards.
    fn write_ckgr_pllar(&mut self, v: CkgrPllar)
        ensures
            final(self).pmc == (PMC {
                ckgr_pllar: v,
                pmc_sr: (PmcSr { locka: true, ..old(self).pmc.pmc_sr }),
                ..old(self).pmc
            }),
            final(self).supc == old(self).supc,
            final(self).writes@ == old(self).writes@.push(RegWrite::CkgrPllar(v)),
    {
        self.pmc.ckgr_pllar = v;
        self.pmc.pmc_sr.locka = true;
        self.writes.push(RegWrite::CkgrPllar(v));
    }

    /// Writes the UPLL configuration register and lets the PLL settle: the
    /// lock bit afterwards reads as set exactly when the PLL is enabled.
    fn write_ckgr_uckr(&mut self, v: CkgrUckr)
        ensures
            final(self).pmc == (PMC {
                ckgr_uckr: v,
                pmc_sr: (PmcSr { locku: v.upllen, ..old(self).pmc.pmc_sr }),
                ..old(self).pmc
            }),
            final(self).supc == old(self).supc,
            final(self).writes@ == old(self).writes@.push(RegWrite::CkgrUckr(v)),
    {
        self.pmc.ckgr_uckr = v;
        self.pmc.pmc_sr.locku = v.upllen;
        self.writes.push(RegWrite::CkgrUckr(v));
    }

    /// Writes the master clock register and lets the master clock settle:
    /// the ready bit reads as set afterwards.
    fn write_pmc_mckr(&mut self, v: PmcMckr)
        ensures
            final(self).pmc == (PMC {
                pmc_mckr: v,
                pmc_sr: (PmcSr { mckrdy: true, ..old(self).pmc.pmc_sr }),
                ..old(self).pmc
            }),
            final(self).supc == old(self).supc,
            final(self).writes@ == old(self).writes@.push(RegWrite::PmcMckr(v)),
    {
        self.pmc.pmc_mckr = v;
        self.pmc.pmc_sr.mckrdy = true;
        self.writes.push(RegWrite::PmcMckr(v));
    }

    /// Write-ones-to-set write to peripheral clock enable register 0:
    /// opens the gates selected by `mask` and disturbs no other bit.
    fn write_pmc_pcer0(&mut self, mask: u32)
        ensures
            final(self).pmc == (PMC { pmc_pcsr0: old(self).pmc.pmc_pcsr0 | mask, ..old(self).pmc }),
            final(self).supc == old(self).supc,
            final(self).writes@ == old(self).writes@.push(RegWrite::PmcPcer0(mask)),
    {
        self.pmc.pmc_pcsr0 = self.pmc.pmc_pcsr0 | mask;
        self.writes.push(RegWrite::PmcPcer0(mask));
    }

    /// Write-ones-to-clear write to peripheral clock disable register 0:
    /// closes the gates selected by `mask` and disturbs no other bit.
    fn write_pmc_pcdr0(&mut self, mask: u32)
        ensures
            final(self).pmc == (PMC { pmc_pcsr0: old(self).pmc.pmc_pcsr0 & !mask, ..old(self).pmc }),
            final(self).supc == old(self).supc,
            final(self).writes@ == old(self).writes@.push(RegWrite::PmcPcdr0(mask)),
    {
        self.pmc.pmc_pcsr0 = self.pmc.pmc_pcsr0 & !mask;
        self.writes.push(RegWrite::PmcPcdr0(mask));
    }

    /// Write-ones-to-set write to peripheral clock enable register 1.
    fn write_pmc_pcer1(&mut self, mask: u32)
        ensures
            final(self).pmc == (PMC { pmc_pcsr1: old(self).pmc.pmc_pcsr1 | mask, ..old(self).pmc }),
            final(self).supc == old(self).supc,
            final(self).writes@ == old(self).writes@.push(RegWrite::PmcPcer1(mask)),
    {
        self.pmc.pmc_pcsr1 = self.pmc.pmc_pcsr1 | mask;
        self.writes.push(RegWrite::PmcPcer1(mask));
    }

    /// Write-ones-to-clear write to peripheral clock disable register 1.
    fn write_pmc_pcdr1(&mut self, mask: u32)
        ensures
            final(self).pmc == (PMC { pmc_pcsr1: old(self).pmc.pmc_pcsr1 & !mask, ..old(self).pmc }),
            final(self).supc == old(self).supc,
            final(self).writes@ == old(self).writes@.push(RegWrite::PmcPcdr1(mask)),
    {
        self.pmc.pmc_pcsr1 = self.pmc.pmc_pcsr1 & !mask;
        self.writes.push(RegWrite::PmcPcdr1(mask));
    }

    /// Writes the supply controller control register (with its unlock key)
    /// to select the 32768 Hz crystal as the slow clock source.
    fn write_supc_cr_xtalsel(&mut self)
        ensures
            final(self).pmc == old(self).pmc,
            final(self).supc == (SUPC { sr: SupcSr { oscsel: true } }),
            final(self).writes@ == old(self).writes@.push(
                RegWrite::SupcCr { key: SUPC_CR_KEY, xtalsel: true },
            ),
    {
        self.supc.sr.oscsel = true;
        self.writes.push(RegWrite::SupcCr { key: SUPC_CR_KEY, xtalsel: true });
    }

    /// Busy-waits until the main RC oscillator reports stable.
    fn wait_moscrcs(&self)
        requires
            self.pmc.pmc_sr.moscrcs,
    {
        while !self.pmc.pmc_sr.moscrcs
            invariant
                self.pmc.pmc_sr.moscrcs,
            decreases 0int,
        {
        }
    }

    /// Busy-waits until the main crystal oscillator reports stable.
    fn wait_moscxts(&self)
        requires
            self.pmc.pmc_sr.moscxts,
    {
        while !self.pmc.pmc_sr.moscxts
            invariant
                self.pmc.pmc_sr.moscxts,
            decreases 0int,
        {
        }
    }

    /// Busy-waits until the main oscillator selection reports done.
    fn wait_moscsels(&self)
        requires
            self.pmc.pmc_sr.moscsels,
    {
        while !self.pmc.pmc_sr.moscsels
            invariant
                self.pmc.pmc_sr.moscsels,
            decreases 0int,
        {
        }
    }

    /// Busy-waits until the master clock reports ready.
    fn wait_mckrdy(&self)
        requires
            self.pmc.pmc_sr.mckrdy,
    {
        while !self.pmc.pmc_sr.mckrdy
            invariant
                self.pmc.pmc_sr.mckrdy,
            decreases 0int,
        {
        }
    }

    /// Busy-waits until PLLA reports locked.
    fn wait_locka(&self)
        requires
            self.pmc.pmc_sr.locka,
    {
        while !self.pmc.pmc_sr.locka
            invariant
                self.pmc.pmc_sr.locka,
            decreases 0int,
        {
        }
    }

    /// Busy-waits until UPLL reports locked.
    fn wait_locku(&self)
        requires
            self.pmc.pmc_sr.locku,
    {
        while !self.pmc.pmc_sr.locku
            invariant
                self.pmc.pmc_sr.locku,
            decreases 0int,
        {
        }
    }

    /// Busy-waits until the main clock frequency measurement reports ready.
    fn wait_mainfrdy(&self)
        requires
            self.pmc.ckgr_mcfr.mainfrdy,
    {
        while !self.pmc.ckgr_mcfr.mainfrdy
            invariant
                self.pmc.ckgr_mcfr.mainfrdy,
            decreases 0int,
        {
        }
    }

    /// Select the specified slow clock oscillator, and clock the system to
    /// run at that frequency.
    pub fn with_slow_clk(pmc: PMC, supc: SUPC, use_external_crystal: bool) -> (clk: Self)
        ensures
            clk.pmc == (PMC {
                pmc_mckr: mckr_switched(pmc.pmc_mckr, ClockSource::SLOW_CLK, false),
                pmc_sr: (PmcSr { mckrdy: true, ..pmc.pmc_sr }),
                ..pmc
            }),
            clk.supc == (SUPC {
                sr: SupcSr { oscsel: use_external_crystal || supc.sr.oscsel },
            }),
            use_external_crystal ==> clk.writes@ == seq![
                RegWrite::SupcCr { key: SUPC_CR_KEY, xtalsel: true },
            ] + master_transition_writes(pmc.pmc_mckr, ClockSource::SLOW_CLK, None, false),
            !use_external_crystal ==> clk.writes@ == master_transition_writes(
                pmc.pmc_mckr,
                ClockSource::SLOW_CLK,
                None,
                false,
            ),
    {
        let mut clk = Self { pmc, supc, writes: Vec::new() };
        if use_external_crystal {
            clk.enable_slow_clock_xtal();
        }
        clk.set_master_clock_source_and_prescaler(ClockSource::SLOW_CLK, None, false);
        clk
    }

    /// Set the main clock source, and clock the system to run at that
    /// frequency.
    pub fn with_main_clk(pmc: PMC, supc: SUPC, source: MainClockSource) -> (clk: Self)
        ensures
            clk.pmc == (PMC {
                ckgr_mor: main_transition_final(pmc.ckgr_mor, source),
                pmc_mckr: mckr_switched(pmc.pmc_mckr, ClockSource::MAIN_CLK, false),
                pmc_sr: (PmcSr {
                    moscrcs: main_transition_final(pmc.ckgr_mor, source).moscrcen,
                    moscxts: main_transition_final(pmc.ckgr_mor, source).moscxten,
                    moscsels: true,
                    mckrdy: true,
                    ..pmc.pmc_sr
                }),
                ..pmc
            }),
            clk.supc == supc,
            clk.writes@ == main_transition_writes(pmc.ckgr_mor, source)
                + master_transition_writes(pmc.pmc_mckr, ClockSource::MAIN_CLK, None, false),
            main_clock_rate(clk.pmc.ckgr_mor) == main_source_rate(source),
    {
        let mut clk = Self { pmc, supc, writes: Vec::new() };
        clk.set_main_clock_source(source);
        clk.set_master_clock_source_and_prescaler(ClockSource::MAIN_CLK, None, false);
        clk
    }

    /// Configure the main clock to run off the main oscillator crystal, then
    /// configure PLLA to run at 14 times that, and set the system to run at
    /// half the frequency of PLLA.
    pub fn with_plla_clk(pmc: PMC, supc: SUPC) -> (clk: Self)
        ensures
            clk.pmc.ckgr_mor == main_transition_final(pmc.ckgr_mor, MainClockSource::MainXtal),
            clk.pmc.ckgr_pllar == (CkgrPllar { one: true, mula: 13, diva: 1, pllacount: 0x3f }),
            clk.pmc.pmc_mckr == (PmcMckr {
                css: ClockSource::PLLA_CLK,
                plladiv2: true,
                ..pmc.pmc_mckr
            }),
            clk.supc == supc,
            plla_clock_rate(clk.pmc) == 168_000_000,
            master_clock_rate(clk.pmc, clk.supc)
                == 84_000_000int / prescaler_divisor(pmc.pmc_mckr.pres),
    {
        let mut clk = Self::with_main_clk(pmc, supc, MainClockSource::MainXtal);

        clk.configure_plla(PllAClockConfig { mula: 14 - 1, diva: 1, count: 0x3f });
        clk.set_master_clock_source_and_prescaler(ClockSource::PLLA_CLK, None, true);

        clk
    }

    /// Set the main clock to the external crystal, and clock the system to
    /// run at that frequency.
    pub fn new(pmc: PMC, supc: SUPC) -> (clk: Self)
        ensures
            clk.pmc == (PMC {
                ckgr_mor: main_transition_final(pmc.ckgr_mor, MainClockSource::MainXtal),
                pmc_mckr: mckr_switched(pmc.pmc_mckr, ClockSource::MAIN_CLK, false),
                pmc_sr: (PmcSr {
                    moscrcs: false,
                    moscxts: true,
                    moscsels: true,
                    mckrdy: true,
                    ..pmc.pmc_sr
                }),
                ..pmc
            }),
            clk.supc == supc,
            main_clock_rate(clk.pmc.ckgr_mor) == 12_000_000,
    {
        Self::with_main_clk(pmc, supc, MainClockSource::MainXtal)
    }

    /// Return the frequency that the slow clock is operating at, read from
    /// the supply controller's oscillator selection status at call time.
    pub fn get_slow_clock_rate(&self) -> (r: Hertz)
        ensures
            r.0 == slow_clock_rate(self.supc),
    {
        match self.supc.sr.oscsel {
            false => Hertz(32000),
            true => Hertz(32768),
        }
    }

    /// Return the frequency that the main clock is operating at.
    pub fn get_main_clock_rate(&self) -> (r: Hertz)
        ensures
            r.0 == main_clock_rate(self.pmc.ckgr_mor),
    {
        if self.pmc.ckgr_mor.moscsel {
            Hertz(12_000_000)
        } else {
            match self.pmc.ckgr_mor.moscrcf {
                FastRCFreq::_4_MHZ => Hertz(4_000_000),
                FastRCFreq::_8_MHZ => Hertz(8_000_000),
                FastRCFreq::_12_MHZ => Hertz(12_000_000),
            }
        }
    }

    /// Return the frequency that the main clock is operating at, measured by
    /// the hardware against the slow clock rather than read from the nominal
    /// configuration: `mainf` counts main clock ticks over 16 slow clock
    /// cycles.
    pub fn get_main_clock_rate_calibrated(&self) -> (r: Hertz)
        requires
            self.pmc.ckgr_mcfr.mainfrdy,
        ensures
            r.0 == self.pmc.ckgr_mcfr.mainf * slow_clock_rate(self.supc) / 16,
    {
        // Wait until mainf has been measured since the last change of the
        // main clock.
        self.wait_mainfrdy();

        let mainf = self.pmc.ckgr_mcfr.mainf as u32;
        let slow = self.get_slow_clock_rate().0;
        proof {
            assert(mainf * slow <= 0xffff * 32768) by (nonlinear_arith)
                requires
                    mainf <= 0xffff,
                    slow <= 32768,
            ;
        }
        Hertz((mainf * slow) / 16)
    }

    /// Return the frequency that the PLLA clock is operating at: the main
    /// clock times `(mula + 1) / diva`, or 0 while the PLL is parked.
    pub fn get_plla_clock_rate(&self) -> (r: Hertz)
        requires
            plla_cfg_ok(self.pmc.ckgr_pllar),
        ensures
            r.0 == plla_clock_rate(self.pmc),
    {
        let mula = self.pmc.ckgr_pllar.mula;
        if mula == 0 {
            Hertz(0)
        } else {
            let main = self.get_main_clock_rate().0;
            proof {
                assert(main * (mula + 1) <= 12_000_000 * 357) by (nonlinear_arith)
                    requires
                        main <= 12_000_000,
                        mula <= 356,
                ;
            }
            let scaled: u32 = main * (mula as u32 + 1);
            Hertz(scaled / (self.pmc.ckgr_pllar.diva as u32))
        }
    }

    /// Return the frequency that the UPLL clock is operating at: the main
    /// clock times 40.  The value is only physically accurate when the main
    /// clock is a 12 MHz crystal.
    pub fn get_upll_clock_rate(&self) -> (r: Hertz)
        ensures
            r.0 == upll_clock_rate(self.pmc),
    {
        let main = self.get_main_clock_rate().0;
        Hertz(main * 40)
    }

    /// Return the frequency that the master clock is operating at: the
    /// selected source's rate, halved if the source is a PLL with its
    /// divide-by-two flag set, then divided by the prescaler.
    pub fn get_syscore(&mut self) -> (r: Hertz)
        requires
            old(self).pmc.pmc_mckr.css == ClockSource::PLLA_CLK
                ==> plla_cfg_ok(old(self).pmc.ckgr_pllar),
        ensures
            *final(self) == *old(self),
            r.0 == master_clock_rate(old(self).pmc, old(self).supc),
    {
        // Determine the unscaled frequency according to the selected source,
        // with the PLL-specific divide-by-two flag applied.
        let unscaled: u32 = match self.pmc.pmc_mckr.css {
            ClockSource::SLOW_CLK => self.get_slow_clock_rate().0,
            ClockSource::MAIN_CLK => self.get_main_clock_rate().0,
            ClockSource::PLLA_CLK => {
                let r = self.get_plla_clock_rate().0;
                if self.pmc.pmc_mckr.plladiv2 {
                    r / 2
                } else {
                    r
                }
            },
            ClockSource::UPLL_CLK => {
                let r = self.get_upll_clock_rate().0;
                if self.pmc.pmc_mckr.uplldiv2 {
                    r / 2
                } else {
                    r
                }
            },
        };
        // Apply the prescaler.
        let divisor: u32 = match self.pmc.pmc_mckr.pres {
            ClockPrescaler::CLK_1 => 1,
            ClockPrescaler::CLK_2 => 2,
            ClockPrescaler::CLK_4 => 4,
            ClockPrescaler::CLK_8 => 8,
            ClockPrescaler::CLK_16 => 16,
            ClockPrescaler::CLK_32 => 32,
            ClockPrescaler::CLK_64 => 64,
            ClockPrescaler::CLK_3 => 3,
        };
        Hertz(unscaled / divisor)
    }

    /// Slow clock is always enabled, but is sourced from a low-accuracy RC
    /// oscillator.  This enables the more accurate crystal oscillator and
    /// switches the slow clock to it.  Once the crystal oscillator has been
    /// selected it cannot be deselected: no operation of this controller
    /// clears the selection.
    pub fn enable_slow_clock_xtal(&mut self)
        ensures
            final(self).pmc == old(self).pmc,
            final(self).supc == (SUPC { sr: SupcSr { oscsel: true } }),
            final(self).writes@ == old(self).writes@.push(
                RegWrite::SupcCr { key: SUPC_CR_KEY, xtalsel: true },
            ),
    {
        self.write_supc_cr_xtalsel();
    }

    /// Disabling the main clock is usually only done to enter low power or
    /// idle states.  It may only be re-enabled by an interrupt or rebooting.
    pub fn disable_main_clock(&mut self)
        ensures
            final(self).pmc == (PMC {
                ckgr_mor: (CkgrMor {
                    moscrcen: false,
                    moscxten: false,
                    ..old(self).pmc.ckgr_mor
                }),
                pmc_sr: (PmcSr {
                    moscrcs: false,
                    moscxts: false,
                    moscsels: true,
                    ..old(self).pmc.pmc_sr
                }),
                ..old(self).pmc
            }),
            final(self).supc == old(self).supc,
            final(self).writes@ == old(self).writes@.push(mor_write(
                CkgrMor { moscrcen: false, moscxten: false, ..old(self).pmc.ckgr_mor },
            )),
    {
        let v = CkgrMor { moscrcen: false, moscxten: false, ..self.pmc.ckgr_mor };
        self.write_ckgr_mor(v);
    }

    /// Select the oscillator source to use for the main clock.
    ///
    /// To ensure a smooth transition in case other clocks are running off
    /// the main clock, both oscillators are enabled first and the switch is
    /// made only once both report stable, so at no point of the transition
    /// is the main clock without a running oscillator.  The oscillator that
    /// ends up unused is disabled last.
    pub fn set_main_clock_source(&mut self, source: MainClockSource)
        ensures
            final(self).pmc == (PMC {
                ckgr_mor: main_transition_final(old(self).pmc.ckgr_mor, source),
                pmc_sr: (PmcSr {
                    moscrcs: main_transition_final(old(self).pmc.ckgr_mor, source).moscrcen,
                    moscxts: main_transition_final(old(self).pmc.ckgr_mor, source).moscxten,
                    moscsels: true,
                    ..old(self).pmc.pmc_sr
                }),
                ..old(self).pmc
            }),
            final(self).supc == old(self).supc,
            final(self).writes@ == old(self).writes@
                + main_transition_writes(old(self).pmc.ckgr_mor, source),
            main_clock_rate(final(self).pmc.ckgr_mor) == main_source_rate(source),
    {
        let m0 = self.pmc.ckgr_mor;

        // Enable both oscillators, with the crystal's startup allowance set,
        // and wait out both startup times.
        let m1 = CkgrMor {
            moscrcen: true,
            moscxten: true,
            moscxtst: MAIN_XTAL_STARTUP_CYCLES,
            ..m0
        };
        self.write_ckgr_mor(m1);
        self.wait_moscrcs();
        self.wait_moscxts();

        match source {
            MainClockSource::FastRc(f) => {
                // Set the RC oscillator frequency and let it stabilize.
                let m2 = CkgrMor { moscrcf: f, ..m1 };
                self.write_ckgr_mor(m2);
                self.wait_moscrcs();

                // Switch the main clock to the RC oscillator and wait until
                // the selection reports done.
                let m3 = CkgrMor { moscsel: false, ..m2 };
                self.write_ckgr_mor(m3);
                self.wait_moscsels();

                // Disable the now-unused crystal oscillator.
                let m4 = CkgrMor { moscxten: false, ..m3 };
                self.write_ckgr_mor(m4);
            },
            MainClockSource::MainXtal => {
                // Switch the main clock to the crystal and wait until the
                // selection reports done.
                let m2 = CkgrMor { moscsel: true, ..m1 };
                self.write_ckgr_mor(m2);
                self.wait_moscsels();

                // Disable the now-unused RC oscillator.
                let m3 = CkgrMor { moscrcen: false, ..m2 };
                self.write_ckgr_mor(m3);
            },
        }
        proof {
            assert(self.writes@ =~= old(self).writes@ + main_transition_writes(m0, source));
        }
    }

    /// Disable PLLA by parking it: the multiplier is set to zero, which
    /// brings its output rate to 0, while the hardware-mandated reserved bit
    /// stays written.
    pub fn disable_plla(&mut self)
        requires
            old(self).pmc.pmc_mckr.css != ClockSource::PLLA_CLK,
        ensures
            final(self).pmc == (PMC {
                ckgr_pllar: (CkgrPllar { one: true, mula: 0, diva: 1, pllacount: 0 }),
                pmc_sr: (PmcSr { locka: true, ..old(self).pmc.pmc_sr }),
                ..old(self).pmc
            }),
            final(self).supc == old(self).supc,
            final(self).writes@ == old(self).writes@.push(RegWrite::CkgrPllar(
                CkgrPllar { one: true, mula: 0, diva: 1, pllacount: 0 },
            )),
            plla_clock_rate(final(self).pmc) == 0,
    {
        self.configure_plla(PllAClockConfig { mula: 0, diva: 1, count: 0 });
    }

    /// PLLA is always "enabled" but defaults to a multiplier of zero,
    /// effectively disabling it.  The resulting clock speed is the main
    /// clock times `(mula + 1) / diva`.  The configuration is written in one
    /// register write (with the hardware-mandated reserved bit set), then
    /// the call waits for the PLL to report locked.  The master clock must
    /// not be running off PLLA while it is reconfigured; switch it to the
    /// main clock first.
    pub fn configure_plla(&mut self, config: PllAClockConfig)
        requires
            old(self).pmc.pmc_mckr.css != ClockSource::PLLA_CLK,
            config.mula <= PLLA_MULA_MAX,
            config.mula > 0 ==> config.diva >= 1,
        ensures
            final(self).pmc == (PMC {
                ckgr_pllar: (CkgrPllar {
                    one: true,
                    mula: config.mula,
                    diva: config.diva,
                    pllacount: config.count,
                }),
                pmc_sr: (PmcSr { locka: true, ..old(self).pmc.pmc_sr }),
                ..old(self).pmc
            }),
            final(self).supc == old(self).supc,
            final(self).writes@ == old(self).writes@.push(RegWrite::CkgrPllar(
                CkgrPllar {
                    one: true,
                    mula: config.mula,
                    diva: config.diva,
                    pllacount: config.count,
                },
            )),
            plla_cfg_ok(final(self).pmc.ckgr_pllar),
    {
        let v = CkgrPllar {
            one: true,
            mula: config.mula,
            diva: config.diva,
            pllacount: config.count,
        };
        self.write_ckgr_pllar(v);

        // Wait until the PLL is locked.
        self.wait_locka();
    }

    /// Enable the UTMI PLL, primarily used for clocking USB.  For the
    /// resulting rate to be the 480 MHz that USB needs, the main clock must
    /// already be a 12 MHz external crystal; that is a documented caller
    /// contract, not checked here.  The master clock must not be running off
    /// UPLL while it is reconfigured.
    pub fn enable_upll(&mut self, config: UPllClockConfig)
        requires
            old(self).pmc.pmc_mckr.css != ClockSource::UPLL_CLK,
        ensures
            final(self).pmc == (PMC {
                ckgr_uckr: (CkgrUckr { upllen: true, upllcount: config.count }),
                pmc_sr: (PmcSr { locku: true, ..old(self).pmc.pmc_sr }),
                ..old(self).pmc
            }),
            final(self).supc == old(self).supc,
            final(self).writes@ == old(self).writes@.push(RegWrite::CkgrUckr(
                CkgrUckr { upllen: true, upllcount: config.count },
            )),
    {
        self.write_ckgr_uckr(CkgrUckr { upllen: true, upllcount: config.count });

        // Wait until the PLL is locked.
        self.wait_locku();
    }

    /// Disable the UTMI PLL, disabling the USB bus and any clocks configured
    /// to use it as a source.  No wait is required.  The master clock must
    /// not be running off UPLL when it is disabled.
    pub fn disable_upll(&mut self)
        requires
            old(self).pmc.pmc_mckr.css != ClockSource::UPLL_CLK,
        ensures
            final(self).pmc == (PMC {
                ckgr_uckr: (CkgrUckr { upllen: false, upllcount: 0 }),
                pmc_sr: (PmcSr { locku: false, ..old(self).pmc.pmc_sr }),
                ..old(self).pmc
            }),
            final(self).supc == old(self).supc,
            final(self).writes@ == old(self).writes@.push(RegWrite::CkgrUckr(
                CkgrUckr { upllen: false, upllcount: 0 },
            )),
    {
        self.write_ckgr_uckr(CkgrUckr { upllen: false, upllcount: 0 });
    }

    /// Select which clock source the master clock should use, along with
    /// some options for dividing the source clock.
    ///
    /// For a PLL target the prescaler (when given) is committed before the
    /// source switch, and the switch itself is primed by first pointing the
    /// selector at the main clock with the PLL's divide-by-two flag already
    /// set; for the slow and main clocks the prescaler is applied after the
    /// switch.  Every write is followed by a wait on the master clock ready
    /// bit.
    #[verifier::rlimit(20)]
    pub fn set_master_clock_source_and_prescaler(
        &mut self,
        source: ClockSource,
        prescaler: Option<ClockPrescaler>,
        pll_div2: bool,
    )
        ensures
            final(self).pmc == (PMC {
                pmc_mckr: master_transition_final(
                    old(self).pmc.pmc_mckr,
                    source,
                    prescaler,
                    pll_div2,
                ),
                pmc_sr: (PmcSr { mckrdy: true, ..old(self).pmc.pmc_sr }),
                ..old(self).pmc
            }),
            final(self).supc == old(self).supc,
            final(self).writes@ == old(self).writes@ + master_transition_writes(
                old(self).pmc.pmc_mckr,
                source,
                prescaler,
                pll_div2,
            ),
    {
        let m0 = self.pmc.pmc_mckr;

        // For PLLs, the prescaler is applied before changing the clock
        // source.
        if source == ClockSource::PLLA_CLK || source == ClockSource::UPLL_CLK {
            match prescaler {
                Some(p) => {
                    self.write_pmc_mckr(PmcMckr { pres: p, ..self.pmc.pmc_mckr });
                    self.wait_mckrdy();
                },
                None => {},
            }
        }
        // For switching to a PLL, prime the transition by first selecting
        // the main clock with the PLL's divider already in place.
        if source == ClockSource::PLLA_CLK {
            self.write_pmc_mckr(PmcMckr {
                css: ClockSource::MAIN_CLK,
                plladiv2: pll_div2,
                ..self.pmc.pmc_mckr
            });
            self.wait_mckrdy();
        }
        if source == ClockSource::UPLL_CLK {
            self.write_pmc_mckr(PmcMckr {
                css: ClockSource::MAIN_CLK,
                uplldiv2: pll_div2,
                ..self.pmc.pmc_mckr
            });
            self.wait_mckrdy();
        }

        // Switch to the desired clock.
        let switched = match source {
            ClockSource::SLOW_CLK => PmcMckr { css: source, ..self.pmc.pmc_mckr },
            ClockSource::MAIN_CLK => PmcMckr { css: source, ..self.pmc.pmc_mckr },
            ClockSource::PLLA_CLK => PmcMckr {
                css: source,
                plladiv2: pll_div2,
                ..self.pmc.pmc_mckr
            },
            ClockSource::UPLL_CLK => PmcMckr {
                css: source,
                uplldiv2: pll_div2,
                ..self.pmc.pmc_mckr
            },
        };
        self.write_pmc_mckr(switched);
        self.wait_mckrdy();

        // For the slow and main clocks, the prescaler is applied after
        // changing the clock source.
        if source == ClockSource::SLOW_CLK || source == ClockSource::MAIN_CLK {
            match prescaler {
                Some(p) => {
                    self.write_pmc_mckr(PmcMckr { pres: p, ..self.pmc.pmc_mckr });
                    self.wait_mckrdy();
                },
                None => {},
            }
        }
        proof {
            assert(self.writes@ =~= old(self).writes@
                + master_transition_writes(m0, source, prescaler, pll_div2));
        }
    }

    /// Enable the clock for the specified peripheral.  Some peripherals'
    /// clocks are not under PMC control: for those identifiers the call
    /// performs no register write at all.  For the others it sets exactly
    /// one bit in one of the two gate registers through the write-ones-to-
    /// set enable register, leaving every sibling gate untouched.
    pub fn enable_peripheral_clock(&mut self, pid: PeripheralID)
        ensures
            !pid_controllable(pid) ==> *final(self) == *old(self),
            pid_controllable(pid) && pid_number(pid) < 32 ==> final(self).pmc == (PMC {
                pmc_pcsr0: old(self).pmc.pmc_pcsr0 | pid_gate_mask(pid),
                ..old(self).pmc
            }) && final(self).writes@ == old(self).writes@.push(
                RegWrite::PmcPcer0(pid_gate_mask(pid)),
            ),
            pid_controllable(pid) && pid_number(pid) >= 32 ==> final(self).pmc == (PMC {
                pmc_pcsr1: old(self).pmc.pmc_pcsr1 | pid_gate_mask(pid),
                ..old(self).pmc
            }) && final(self).writes@ == old(self).writes@.push(
                RegWrite::PmcPcer1(pid_gate_mask(pid)),
            ),
            final(self).supc == old(self).supc,
    {
        if pid.pmc_controllable() {
            let n = pid.number();
            if n < 32 {
                self.write_pmc_pcer0(1u32 << n);
            } else {
                self.write_pmc_pcer1(1u32 << (n - 32));
            }
        }
    }

    /// Disable the clock for the specified peripheral.  Some peripherals'
    /// clocks are not under PMC control: for those identifiers the call
    /// performs no register write at all.  For the others it clears exactly
    /// one bit in one of the two gate registers through the write-ones-to-
    /// clear disable register, leaving every sibling gate untouched.
    pub fn disable_peripheral_clock(&mut self, pid: PeripheralID)
        ensures
            !pid_controllable(pid) ==> *final(self) == *old(self),
            pid_controllable(pid) && pid_number(pid) < 32 ==> final(self).pmc == (PMC {
                pmc_pcsr0: old(self).pmc.pmc_pcsr0 & !pid_gate_mask(pid),
                ..old(self).pmc
            }) && final(self).writes@ == old(self).writes@.push(
                RegWrite::PmcPcdr0(pid_gate_mask(pid)),
            ),
            pid_controllable(pid) && pid_number(pid) >= 32 ==> final(self).pmc == (PMC {
                pmc_pcsr1: old(self).pmc.pmc_pcsr1 & !pid_gate_mask(pid),
                ..old(self).pmc
            }) && final(self).writes@ == old(self).writes@.push(
                RegWrite::PmcPcdr1(pid_gate_mask(pid)),
            ),
            final(self).supc == old(self).supc,
    {
        if pid.pmc_controllable() {
            let n = pid.number();
            if n < 32 {
                self.write_pmc_pcdr0(1u32 << n);
            } else {
                self.write_pmc_pcdr1(1u32 << (n - 32));
            }
        }
    }
}

// ---------------------------------------------------------------------------
// Laws.
// ---------------------------------------------------------------------------

/// After configuring PLLA with a positive multiplier-minus-one and a
/// positive divider, the derived PLLA rate is the main clock times
/// `(mula + 1) / diva`, truncating.
pub proof fn lemma_plla_rate_after_configure(pmc: PMC, config: PllAClockConfig)
    requires
        config.mula >= 1,
        config.diva >= 1,
    ensures
        plla_clock_rate(PMC {
            ckgr_pllar: (CkgrPllar {
                one: true,
                mula: config.mula,
                diva: config.diva,
                pllacount: config.count,
            }),
            ..pmc
        }) == main_clock_rate(pmc.ckgr_mor) * (config.mula + 1) / config.diva as int,
{
}

/// The UPLL rate is always exactly 40 times the main clock rate, whatever
/// the rest of the configuration holds.
pub proof fn lemma_upll_rate_is_forty_times_main(pmc: PMC)
    ensures
        upll_clock_rate(pmc) == main_clock_rate(pmc.ckgr_mor) * 40,
{
}

/// Every register write of a main clock transition leaves at least one of
/// the two main oscillators enabled: the transition is glitch-free.
pub proof fn lemma_main_transition_overlap(m0: CkgrMor, source: MainClockSource)
    ensures
        forall|i: int|
            0 <= i < main_transition_writes(m0, source).len()
                ==> ((#[trigger] main_transition_writes(m0, source)[i]) matches
                    RegWrite::CkgrMor { key, value }
                    && (value.moscrcen || value.moscxten)),
{
    let ws = main_transition_writes(m0, source);
    match source {
        MainClockSource::FastRc(f) => {
            assert forall|i: int| 0 <= i < ws.len() implies (#[trigger] ws[i]) matches
                RegWrite::CkgrMor { key, value } && (value.moscrcen || value.moscxten) by {
                if i == 0 {
                } else if i == 1 {
                } else if i == 2 {
                } else {
                    assert(i == 3);
                }
            }
        },
        MainClockSource::MainXtal => {
            assert forall|i: int| 0 <= i < ws.len() implies (#[trigger] ws[i]) matches
                RegWrite::CkgrMor { key, value } && (value.moscrcen || value.moscxten) by {
                if i == 0 {
                } else if i == 1 {
                } else {
                    assert(i == 2);
                }
            }
        },
    }
}

/// When the master clock is switched to a PLL with a prescaler given, the
/// prescaler is committed by the first write, which leaves the source
/// selector untouched; the selector reaches the PLL only in the last write.
pub proof fn lemma_pll_prescaler_written_before_switch(
    m0: PmcMckr,
    source: ClockSource,
    p: ClockPrescaler,
    pll_div2: bool,
)
    requires
        is_pll(source),
    ensures
        master_transition_writes(m0, source, Some(p), pll_div2).len() == 3,
        master_transition_writes(m0, source, Some(p), pll_div2)[0] matches
            RegWrite::PmcMckr(m) && m.pres == p && m.css == m0.css,
        master_transition_writes(m0, source, Some(p), pll_div2)[1] matches
            RegWrite::PmcMckr(m) && m.css == ClockSource::MAIN_CLK,
        master_transition_writes(m0, source, Some(p), pll_div2)[2] matches
            RegWrite::PmcMckr(m) && m.css == source,
{
}

/// When the master clock is switched to the slow or main clock with a
/// prescaler given, the source selector is written first, with the old
/// prescaler still in place; the prescaler follows in the second write.
pub proof fn lemma_slow_main_prescaler_written_after_switch(
    m0: PmcMckr,
    source: ClockSource,
    p: ClockPrescaler,
    pll_div2: bool,
)
    requires
        !is_pll(source),
    ensures
        master_transition_writes(m0, source, Some(p), pll_div2).len() == 2,
        master_transition_writes(m0, source, Some(p), pll_div2)[0] matches
            RegWrite::PmcMckr(m) && m.css == source && m.pres == m0.pres,
        master_transition_writes(m0, source, Some(p), pll_div2)[1] matches
            RegWrite::PmcMckr(m) && m.pres == p && m.css == source,
{
}

/// Enabling and then disabling the clock gate of a PMC-controllable
/// peripheral restores a gate register in which that gate started out
/// closed.
pub proof fn lemma_gate_round_trip(reg: u32, pid: PeripheralID)
    requires
        pid_controllable(pid),
        reg & pid_gate_mask(pid) == 0,
    ensures
        (reg | pid_gate_mask(pid)) & !pid_gate_mask(pid) == reg,
{
    crate::bits::lemma_set_then_clear_mask(reg, pid_gate_mask(pid));
}

} // verus!
