//! Frequency derivation behaviour of the clock controller.

use sam3x_hal::clock::{
    ClockPrescaler, ClockSource, FastRCFreq, MainClockSource, PllAClockConfig, SystemClocks,
    UPllClockConfig, PMC, SUPC,
};

fn fresh() -> (PMC, SUPC) {
    (PMC::reset(), SUPC::reset())
}

#[test]
fn slow_clock_rate_defaults_to_rc() {
    let (pmc, supc) = fresh();
    let clk = SystemClocks::with_slow_clk(pmc, supc, false);
    assert_eq!(clk.get_slow_clock_rate().0, 32000);
}

#[test]
fn slow_clock_rate_after_crystal_selection() {
    let (pmc, supc) = fresh();
    let mut clk = SystemClocks::with_main_clk(pmc, supc, MainClockSource::MainXtal);
    assert_eq!(clk.get_slow_clock_rate().0, 32000);
    clk.enable_slow_clock_xtal();
    assert_eq!(clk.get_slow_clock_rate().0, 32768);
}

#[test]
fn main_clock_rate_for_each_rc_setting() {
    for (freq, hz) in [
        (FastRCFreq::_4_MHZ, 4_000_000),
        (FastRCFreq::_8_MHZ, 8_000_000),
        (FastRCFreq::_12_MHZ, 12_000_000),
    ] {
        let (pmc, supc) = fresh();
        let clk = SystemClocks::with_main_clk(pmc, supc, MainClockSource::FastRc(freq));
        assert_eq!(clk.get_main_clock_rate().0, hz);
    }
}

#[test]
fn main_clock_rate_for_crystal() {
    let (pmc, supc) = fresh();
    let clk = SystemClocks::with_main_clk(pmc, supc, MainClockSource::MainXtal);
    assert_eq!(clk.get_main_clock_rate().0, 12_000_000);
}

#[test]
fn main_clock_rate_calibrated_uses_measured_ticks() {
    // The power-on model measured 2000 main clock ticks over 16 slow clock
    // cycles: 2000 * 32000 / 16 = 4 MHz.
    let (pmc, supc) = fresh();
    let clk = SystemClocks { pmc, supc, writes: Vec::new() };
    assert_eq!(clk.get_main_clock_rate_calibrated().0, 4_000_000);
}

#[test]
fn plla_rate_follows_the_formula() {
    // 12 MHz * (9 + 1) / 2 = 60 MHz.
    let (pmc, supc) = fresh();
    let mut clk = SystemClocks::with_main_clk(pmc, supc, MainClockSource::MainXtal);
    clk.configure_plla(PllAClockConfig { mula: 9, diva: 2, count: 0x3f });
    assert_eq!(clk.get_plla_clock_rate().0, 60_000_000);
}

#[test]
fn plla_rate_truncates_the_division() {
    // 12 MHz * (1 + 1) / 7 = 3428571.42..., truncated to 3428571.
    let (pmc, supc) = fresh();
    let mut clk = SystemClocks::with_main_clk(pmc, supc, MainClockSource::MainXtal);
    clk.configure_plla(PllAClockConfig { mula: 1, diva: 7, count: 0x3f });
    assert_eq!(clk.get_plla_clock_rate().0, 3_428_571);
}

#[test]
fn plla_rate_is_zero_after_disable() {
    let (pmc, supc) = fresh();
    let mut clk = SystemClocks::with_main_clk(pmc, supc, MainClockSource::MainXtal);
    clk.configure_plla(PllAClockConfig { mula: 14 - 1, diva: 1, count: 0x3f });
    assert_eq!(clk.get_plla_clock_rate().0, 168_000_000);
    clk.disable_plla();
    assert_eq!(clk.get_plla_clock_rate().0, 0);
}

#[test]
fn upll_rate_is_forty_times_main() {
    let (pmc, supc) = fresh();
    let clk = SystemClocks::with_main_clk(pmc, supc, MainClockSource::MainXtal);
    assert_eq!(clk.get_upll_clock_rate().0, 480_000_000);

    let (pmc, supc) = fresh();
    let clk = SystemClocks::with_main_clk(
        pmc,
        supc,
        MainClockSource::FastRc(FastRCFreq::_8_MHZ),
    );
    assert_eq!(clk.get_upll_clock_rate().0, 320_000_000);
}

#[test]
fn upll_rate_ignores_other_configuration() {
    let (pmc, supc) = fresh();
    let mut clk = SystemClocks::with_main_clk(pmc, supc, MainClockSource::MainXtal);
    clk.configure_plla(PllAClockConfig { mula: 9, diva: 2, count: 0x3f });
    clk.enable_upll(UPllClockConfig::from(3));
    clk.set_master_clock_source_and_prescaler(
        ClockSource::MAIN_CLK,
        Some(ClockPrescaler::CLK_4),
        false,
    );
    assert_eq!(clk.get_upll_clock_rate().0, 480_000_000);
}

#[test]
fn syscore_of_the_default_configuration() {
    let (pmc, supc) = fresh();
    let mut clk = SystemClocks::new(pmc, supc);
    assert_eq!(clk.get_syscore().0, 12_000_000);
}

#[test]
fn syscore_of_the_plla_configuration() {
    // Main crystal 12 MHz, PLLA at 14x, master clock at PLLA / 2.
    let (pmc, supc) = fresh();
    let mut clk = SystemClocks::with_plla_clk(pmc, supc);
    assert_eq!(clk.get_plla_clock_rate().0, 168_000_000);
    assert_eq!(clk.get_syscore().0, 84_000_000);
}

#[test]
fn syscore_applies_power_of_two_prescalers() {
    for (pres, hz) in [
        (ClockPrescaler::CLK_1, 12_000_000),
        (ClockPrescaler::CLK_2, 6_000_000),
        (ClockPrescaler::CLK_4, 3_000_000),
        (ClockPrescaler::CLK_8, 1_500_000),
        (ClockPrescaler::CLK_16, 750_000),
        (ClockPrescaler::CLK_32, 375_000),
        (ClockPrescaler::CLK_64, 187_500),
    ] {
        let (pmc, supc) = fresh();
        let mut clk = SystemClocks::with_main_clk(pmc, supc, MainClockSource::MainXtal);
        clk.set_master_clock_source_and_prescaler(ClockSource::MAIN_CLK, Some(pres), false);
        assert_eq!(clk.get_syscore().0, hz);
    }
}

#[test]
fn syscore_applies_the_divide_by_three_prescaler() {
    let (pmc, supc) = fresh();
    let mut clk = SystemClocks::with_slow_clk(pmc, supc, false);
    clk.set_master_clock_source_and_prescaler(
        ClockSource::SLOW_CLK,
        Some(ClockPrescaler::CLK_3),
        false,
    );
    // 32000 / 3 = 10666, truncating.
    assert_eq!(clk.get_syscore().0, 10_666);
}

#[test]
fn syscore_from_the_slow_clock_crystal() {
    let (pmc, supc) = fresh();
    let mut clk = SystemClocks::with_slow_clk(pmc, supc, true);
    assert_eq!(clk.get_syscore().0, 32768);
}

#[test]
fn syscore_from_upll_with_divider() {
    let (pmc, supc) = fresh();
    let mut clk = SystemClocks::with_main_clk(pmc, supc, MainClockSource::MainXtal);
    clk.enable_upll(UPllClockConfig { count: 3 });
    clk.set_master_clock_source_and_prescaler(ClockSource::UPLL_CLK, None, true);
    // 480 MHz halved by the UPLL divider.
    assert_eq!(clk.get_syscore().0, 240_000_000);
}
