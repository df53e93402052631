//! Peripheral clock gating behaviour.

use sam3x_hal::clock::{MainClockSource, PeripheralID, SystemClocks, PMC, SUPC};

const ALL_IDS: [PeripheralID; 45] = [
    PeripheralID::Id00Supc,
    PeripheralID::Id01Rstc,
    PeripheralID::Id02Rtc,
    PeripheralID::Id03Rtt,
    PeripheralID::Id04Wdg,
    PeripheralID::Id05Pmc,
    PeripheralID::Id06Eefc0,
    PeripheralID::Id07Eefc1,
    PeripheralID::Id08Uart,
    PeripheralID::Id09SmcSdramc,
    PeripheralID::Id10Sdramc,
    PeripheralID::Id11PioA,
    PeripheralID::Id12PioB,
    PeripheralID::Id13PioC,
    PeripheralID::Id14PioD,
    PeripheralID::Id15PioE,
    PeripheralID::Id16PioF,
    PeripheralID::Id17Usart0,
    PeripheralID::Id18Usart1,
    PeripheralID::Id19Usart2,
    PeripheralID::Id20Usart3,
    PeripheralID::Id21Hsmci,
    PeripheralID::Id22Twi0,
    PeripheralID::Id23Twi1,
    PeripheralID::Id24Spi0,
    PeripheralID::Id25Spi1,
    PeripheralID::Id26Ssc,
    PeripheralID::Id27Tc0,
    PeripheralID::Id28Tc1,
    PeripheralID::Id29Tc2,
    PeripheralID::Id30Tc3,
    PeripheralID::Id31Tc4,
    PeripheralID::Id32Tc5,
    PeripheralID::Id33Tc6,
    PeripheralID::Id34Tc7,
    PeripheralID::Id35Tc8,
    PeripheralID::Id36Pwm,
    PeripheralID::Id37Adc,
    PeripheralID::Id38Dacc,
    PeripheralID::Id39Dmac,
    PeripheralID::Id40Uotghs,
    PeripheralID::Id41Trng,
    PeripheralID::Id42Emac,
    PeripheralID::Id43Can0,
    PeripheralID::Id44Can1,
];

fn controller() -> SystemClocks {
    SystemClocks::with_main_clk(PMC::reset(), SUPC::reset(), MainClockSource::MainXtal)
}

#[test]
fn peripheral_numbers_run_from_zero_to_forty_four() {
    for (i, pid) in ALL_IDS.iter().enumerate() {
        assert_eq!(pid.number(), i as u32);
    }
}

#[test]
fn permanently_clocked_peripherals_are_not_controllable() {
    for pid in ALL_IDS {
        let n = pid.number();
        let expected = n > 7 && n != 10;
        assert_eq!(pid.pmc_controllable(), expected);
    }
}

#[test]
fn enabling_an_ungated_peripheral_performs_no_register_write() {
    let mut clk = controller();
    let writes_before = clk.writes.len();
    let pcsr0_before = clk.pmc.pmc_pcsr0;
    let pcsr1_before = clk.pmc.pmc_pcsr1;
    clk.enable_peripheral_clock(PeripheralID::Id00Supc);
    assert_eq!(clk.writes.len(), writes_before);
    assert_eq!(clk.pmc.pmc_pcsr0, pcsr0_before);
    assert_eq!(clk.pmc.pmc_pcsr1, pcsr1_before);
}

#[test]
fn disabling_an_ungated_peripheral_performs_no_register_write() {
    let mut clk = controller();
    for pid in ALL_IDS {
        if !pid.pmc_controllable() {
            let writes_before = clk.writes.len();
            clk.disable_peripheral_clock(pid);
            assert_eq!(clk.writes.len(), writes_before);
        }
    }
}

#[test]
fn enabling_sets_exactly_the_peripheral_gate_bit() {
    let mut clk = controller();
    clk.enable_peripheral_clock(PeripheralID::Id08Uart);
    assert_eq!(clk.pmc.pmc_pcsr0, 1 << 8);
    assert_eq!(clk.pmc.pmc_pcsr1, 0);

    clk.enable_peripheral_clock(PeripheralID::Id32Tc5);
    assert_eq!(clk.pmc.pmc_pcsr0, 1 << 8);
    assert_eq!(clk.pmc.pmc_pcsr1, 1 << 0);

    clk.enable_peripheral_clock(PeripheralID::Id44Can1);
    assert_eq!(clk.pmc.pmc_pcsr1, (1 << 0) | (1 << 12));
}

#[test]
fn enabling_does_not_disturb_sibling_gates() {
    let mut clk = controller();
    clk.enable_peripheral_clock(PeripheralID::Id11PioA);
    clk.enable_peripheral_clock(PeripheralID::Id12PioB);
    assert_eq!(clk.pmc.pmc_pcsr0, (1 << 11) | (1 << 12));
    clk.disable_peripheral_clock(PeripheralID::Id11PioA);
    assert_eq!(clk.pmc.pmc_pcsr0, 1 << 12);
}

#[test]
fn gate_round_trip_restores_the_registers_for_every_gated_peripheral() {
    for pid in ALL_IDS {
        if pid.pmc_controllable() {
            let mut clk = controller();
            let pcsr0_before = clk.pmc.pmc_pcsr0;
            let pcsr1_before = clk.pmc.pmc_pcsr1;
            clk.enable_peripheral_clock(pid);
            assert!(
                clk.pmc.pmc_pcsr0 != pcsr0_before || clk.pmc.pmc_pcsr1 != pcsr1_before,
                "enabling {:?} did not open a gate",
                pid
            );
            clk.disable_peripheral_clock(pid);
            assert_eq!(clk.pmc.pmc_pcsr0, pcsr0_before);
            assert_eq!(clk.pmc.pmc_pcsr1, pcsr1_before);
        }
    }
}
