//! The typed register-field readers and writers.

use sam3x_hal::{ccnt5, hstdmanxtdsc1, iadr, isr, ossupd, scuc};

#[test]
fn ossupd_set_bit_targets_the_right_offsets() {
    assert_eq!(ossupd::W::new(0).ossuph0().set_bit().bits, 1 << 0);
    assert_eq!(ossupd::W::new(0).ossuph7().set_bit().bits, 1 << 7);
    assert_eq!(ossupd::W::new(0).ossupl0().set_bit().bits, 1 << 16);
    assert_eq!(ossupd::W::new(0).ossupl7().set_bit().bits, 1 << 23);
}

#[test]
fn ossupd_writes_compose_without_disturbing_each_other() {
    let w = ossupd::W::new(0)
        .ossuph1()
        .set_bit()
        .ossuph4()
        .set_bit()
        .ossupl2()
        .set_bit();
    assert_eq!(w.bits, (1 << 1) | (1 << 4) | (1 << 18));
    let w = w.ossuph4().clear_bit();
    assert_eq!(w.bits, (1 << 1) | (1 << 18));
}

#[test]
fn ossupd_clear_bit_clears_only_its_field() {
    let w = ossupd::W::new(u32::MAX).ossuph3().clear_bit();
    assert_eq!(w.bits, u32::MAX & !(1 << 3));
    let w = ossupd::W::new(u32::MAX).ossupl5().bit(false);
    assert_eq!(w.bits, u32::MAX & !(1 << 21));
}

#[test]
fn scuc_updulock_round_trips_through_writer_and_reader() {
    let w = scuc::W::new(0).updulock().set_bit();
    assert_eq!(w.bits, 1);
    assert!(scuc::R::new(w.bits).updulock().bit_is_set());
    let w = scuc::W::new(w.bits).updulock().clear_bit();
    assert_eq!(w.bits, 0);
    assert!(scuc::R::new(w.bits).updulock().bit_is_clear());
}

#[test]
fn scuc_reader_ignores_bits_above_the_field() {
    let r = scuc::R::new(0xffff_fffe);
    assert!(!r.updulock().bit());
}

#[test]
fn ccnt5_counter_reads_its_low_twenty_four_bits() {
    let r = ccnt5::R::new(0xabcd_ef12);
    assert_eq!(r.cnt().bits(), 0x00cd_ef12);
}

#[test]
fn iadr_field_write_masks_to_twenty_four_bits() {
    let w = iadr::W::new(0).iadr().bits(0x12ab_cdef);
    assert_eq!(w.bits, 0x00ab_cdef);
}

#[test]
fn iadr_field_write_preserves_the_high_byte() {
    let w = iadr::W::new(0xff00_0000).iadr().bits(0x0012_3456);
    assert_eq!(w.bits, 0xff12_3456);
    let r = iadr::R::new(w.bits);
    assert_eq!(r.iadr().bits(), 0x0012_3456);
}

#[test]
fn hstdmanxtdsc1_field_spans_the_whole_register() {
    let w = hstdmanxtdsc1::W::new(0x1111_1111).nxt_dsc_add().bits(0xdead_beef);
    assert_eq!(w.bits, 0xdead_beef);
    let r = hstdmanxtdsc1::R::new(w.bits);
    assert_eq!(r.nxt_dsc_add().bits(), 0xdead_beef);
}

#[test]
fn isr_refresh_error_reads_bit_zero() {
    assert!(isr::R::new(0x1).res().bit());
    assert!(isr::R::new(0x0).res().bit_is_clear());
    assert!(isr::R::new(0xffff_fff0).res().bit_is_clear());
}
