//! The exact register write sequences of the multi-step transitions,
//! observed through the controller's write trace.

use sam3x_hal::clock::{
    ClockPrescaler, ClockSource, FastRCFreq, MainClockSource, RegWrite, SystemClocks,
    CKGR_MOR_KEY, PMC, SUPC, SUPC_CR_KEY,
};

fn fresh() -> (PMC, SUPC) {
    (PMC::reset(), SUPC::reset())
}

#[test]
fn main_transition_never_leaves_both_oscillators_disabled() {
    let (pmc, supc) = fresh();
    let mut clk = SystemClocks::with_main_clk(pmc, supc, MainClockSource::MainXtal);
    let n0 = clk.writes.len();
    clk.set_main_clock_source(MainClockSource::FastRc(FastRCFreq::_8_MHZ));
    let transition = &clk.writes[n0..];
    assert_eq!(transition.len(), 4);
    for w in transition {
        match w {
            RegWrite::CkgrMor { key: _, value } => {
                assert!(value.moscrcen || value.moscxten);
            }
            other => panic!("unexpected write in a main clock transition: {:?}", other),
        }
    }
    assert_eq!(clk.get_main_clock_rate().0, 8_000_000);
}

#[test]
fn main_transition_enables_both_oscillators_first() {
    let (pmc, supc) = fresh();
    let mut clk = SystemClocks::with_main_clk(pmc, supc, MainClockSource::MainXtal);
    let n0 = clk.writes.len();
    clk.set_main_clock_source(MainClockSource::FastRc(FastRCFreq::_8_MHZ));
    match clk.writes[n0] {
        RegWrite::CkgrMor { key: _, value } => {
            assert!(value.moscrcen && value.moscxten);
        }
        other => panic!("unexpected first write: {:?}", other),
    }
}

#[test]
fn main_transition_to_crystal_drops_the_rc_oscillator_last() {
    let (pmc, supc) = fresh();
    let mut clk = SystemClocks::with_slow_clk(pmc, supc, false);
    let n0 = clk.writes.len();
    clk.set_main_clock_source(MainClockSource::MainXtal);
    let transition = &clk.writes[n0..];
    assert_eq!(transition.len(), 3);
    match transition[2] {
        RegWrite::CkgrMor { key: _, value } => {
            assert!(value.moscxten && !value.moscrcen && value.moscsel);
        }
        other => panic!("unexpected last write: {:?}", other),
    }
    assert_eq!(clk.get_main_clock_rate().0, 12_000_000);
}

#[test]
fn keyed_registers_carry_their_unlock_keys() {
    let (pmc, supc) = fresh();
    let mut clk = SystemClocks::with_main_clk(pmc, supc, MainClockSource::MainXtal);
    clk.enable_slow_clock_xtal();
    let mut saw_mor = false;
    let mut saw_supc = false;
    for w in &clk.writes {
        match w {
            RegWrite::CkgrMor { key, value: _ } => {
                assert_eq!(*key, CKGR_MOR_KEY);
                saw_mor = true;
            }
            RegWrite::SupcCr { key, xtalsel: _ } => {
                assert_eq!(*key, SUPC_CR_KEY);
                saw_supc = true;
            }
            _ => {}
        }
    }
    assert!(saw_mor && saw_supc);
}

#[test]
fn pll_prescaler_is_programmed_before_the_source_switch() {
    let (pmc, supc) = fresh();
    let mut clk = SystemClocks::with_plla_clk(pmc, supc);
    clk.set_master_clock_source_and_prescaler(ClockSource::MAIN_CLK, None, false);
    let n0 = clk.writes.len();
    clk.set_master_clock_source_and_prescaler(
        ClockSource::PLLA_CLK,
        Some(ClockPrescaler::CLK_2),
        false,
    );
    let transition = &clk.writes[n0..];
    assert_eq!(transition.len(), 3);
    // First the prescaler alone, with the source selector untouched.
    match transition[0] {
        RegWrite::PmcMckr(m) => {
            assert_eq!(m.pres, ClockPrescaler::CLK_2);
            assert_eq!(m.css, ClockSource::MAIN_CLK);
        }
        other => panic!("unexpected first write: {:?}", other),
    }
    // Then the priming step through the main clock.
    match transition[1] {
        RegWrite::PmcMckr(m) => {
            assert_eq!(m.css, ClockSource::MAIN_CLK);
            assert!(!m.plladiv2);
        }
        other => panic!("unexpected second write: {:?}", other),
    }
    // Only the final write reaches the PLL selector.
    match transition[2] {
        RegWrite::PmcMckr(m) => {
            assert_eq!(m.css, ClockSource::PLLA_CLK);
        }
        other => panic!("unexpected third write: {:?}", other),
    }
}

#[test]
fn slow_clock_prescaler_is_programmed_after_the_source_switch() {
    let (pmc, supc) = fresh();
    let mut clk = SystemClocks::with_main_clk(pmc, supc, MainClockSource::MainXtal);
    let n0 = clk.writes.len();
    clk.set_master_clock_source_and_prescaler(
        ClockSource::SLOW_CLK,
        Some(ClockPrescaler::CLK_2),
        false,
    );
    let transition = &clk.writes[n0..];
    assert_eq!(transition.len(), 2);
    // First the source selector, with the old prescaler still in place.
    match transition[0] {
        RegWrite::PmcMckr(m) => {
            assert_eq!(m.css, ClockSource::SLOW_CLK);
            assert_eq!(m.pres, ClockPrescaler::CLK_1);
        }
        other => panic!("unexpected first write: {:?}", other),
    }
    // Then the prescaler.
    match transition[1] {
        RegWrite::PmcMckr(m) => {
            assert_eq!(m.css, ClockSource::SLOW_CLK);
            assert_eq!(m.pres, ClockPrescaler::CLK_2);
        }
        other => panic!("unexpected second write: {:?}", other),
    }
}

#[test]
fn pll_switch_without_prescaler_still_primes_through_main() {
    let (pmc, supc) = fresh();
    let mut clk = SystemClocks::with_main_clk(pmc, supc, MainClockSource::MainXtal);
    clk.configure_plla(sam3x_hal::clock::PllAClockConfig { mula: 14 - 1, diva: 1, count: 0x3f });
    let n0 = clk.writes.len();
    clk.set_master_clock_source_and_prescaler(ClockSource::PLLA_CLK, None, true);
    let transition = &clk.writes[n0..];
    assert_eq!(transition.len(), 2);
    match transition[0] {
        RegWrite::PmcMckr(m) => {
            assert_eq!(m.css, ClockSource::MAIN_CLK);
            assert!(m.plladiv2);
        }
        other => panic!("unexpected first write: {:?}", other),
    }
    match transition[1] {
        RegWrite::PmcMckr(m) => {
            assert_eq!(m.css, ClockSource::PLLA_CLK);
            assert!(m.plladiv2);
        }
        other => panic!("unexpected second write: {:?}", other),
    }
}

#[test]
fn with_slow_clk_switches_the_master_clock_to_slow() {
    let (pmc, supc) = fresh();
    let clk = SystemClocks::with_slow_clk(pmc, supc, true);
    assert_eq!(clk.pmc.pmc_mckr.css, ClockSource::SLOW_CLK);
    assert!(clk.supc.sr.oscsel);
    assert!(matches!(
        clk.writes[0],
        RegWrite::SupcCr { key: SUPC_CR_KEY, xtalsel: true }
    ));
}

#[test]
fn with_plla_clk_runs_plla_at_fourteen_times_main_halved() {
    let (pmc, supc) = fresh();
    let clk = SystemClocks::with_plla_clk(pmc, supc);
    assert_eq!(clk.pmc.pmc_mckr.css, ClockSource::PLLA_CLK);
    assert!(clk.pmc.pmc_mckr.plladiv2);
    assert_eq!(clk.pmc.ckgr_pllar.mula, 13);
    assert_eq!(clk.pmc.ckgr_pllar.diva, 1);
    assert_eq!(clk.pmc.ckgr_pllar.pllacount, 0x3f);
    assert!(clk.pmc.ckgr_pllar.one);
}

#[test]
fn new_runs_the_system_from_the_main_crystal() {
    let (pmc, supc) = fresh();
    let clk = SystemClocks::new(pmc, supc);
    assert_eq!(clk.pmc.pmc_mckr.css, ClockSource::MAIN_CLK);
    assert!(clk.pmc.ckgr_mor.moscsel);
    assert!(!clk.pmc.ckgr_mor.moscrcen);
    assert!(clk.pmc.ckgr_mor.moscxten);
}

#[test]
fn disable_main_clock_turns_both_oscillators_off() {
    let (pmc, supc) = fresh();
    let mut clk = SystemClocks::with_slow_clk(pmc, supc, false);
    clk.disable_main_clock();
    assert!(!clk.pmc.ckgr_mor.moscrcen);
    assert!(!clk.pmc.ckgr_mor.moscxten);
}

#[test]
fn enable_and_disable_upll_write_the_uckr_register() {
    let (pmc, supc) = fresh();
    let mut clk = SystemClocks::with_main_clk(pmc, supc, MainClockSource::MainXtal);
    clk.enable_upll(7u8.into());
    assert!(clk.pmc.ckgr_uckr.upllen);
    assert_eq!(clk.pmc.ckgr_uckr.upllcount, 7);
    assert!(clk.pmc.pmc_sr.locku);
    clk.disable_upll();
    assert!(!clk.pmc.ckgr_uckr.upllen);
    assert!(!clk.pmc.pmc_sr.locku);
}
