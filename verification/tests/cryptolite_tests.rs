use psc3::cryptolite::{
    Cryptolite, CryptoliteErr, TrngBitstreamSelect, TrngConfig, TrngRoSelect, INTR_TRNG,
    TRNG_CTL0, TRNG_CTL1, TRNG_FIRO_CTL, TRNG_GARO_CTL, TRNG_MON_AP_CTL, TRNG_MON_CTL,
    TRNG_MON_RC_CTL,
};
use psc3::regs::RegOp;

#[test]
fn default_config() {
    let c = TrngConfig::default();
    assert_eq!(c.sample_clock_div, 1);
    assert_eq!(c.reduced_clock_div, 3);
    assert_eq!(c.init_delay, 255);
    assert!(c.vn_corrector_enable && c.enable_ap_test && c.enable_rc_test);
    assert!(c.stop_on_ap_detect && c.stop_on_rc_detect);
    assert_eq!(c.garo31_poly, 0xb2d1_ab70);
    assert_eq!(c.firo31_poly, 0xe6b8_c3b3);
    assert_eq!(c.mon_bitstream_select, TrngBitstreamSelect::TR);
    assert_eq!(c.mon_cutoff_count8, 255);
    assert_eq!(c.mon_cutoff_count16, 255);
    assert_eq!(c.mon_window_size, 255);
}

#[test]
fn init_with_default_config() {
    let c = Cryptolite::new();
    let ops = c.trng_init(&TrngConfig::default()).unwrap();
    assert_eq!(
        ops,
        vec![
            RegOp::Write { addr: INTR_TRNG, value: 0x3 },
            RegOp::Write { addr: INTR_TRNG, value: 0xC },
            RegOp::Write { addr: TRNG_GARO_CTL, value: 0x32d1_ab70 },
            RegOp::Write { addr: TRNG_FIRO_CTL, value: 0x66b8_c3b3 },
            RegOp::Write { addr: TRNG_CTL0, value: 0x31FF_0301 },
            RegOp::Modify { addr: TRNG_MON_CTL, mask: 0x3, value: 0x2 },
            RegOp::Modify { addr: TRNG_MON_CTL, mask: 0x100, value: 0x100 },
            RegOp::Modify { addr: TRNG_MON_CTL, mask: 0x200, value: 0x200 },
            RegOp::Write { addr: TRNG_MON_RC_CTL, value: 0xFF },
            RegOp::Write { addr: TRNG_MON_AP_CTL, value: 0x00FF_00FF },
        ]
    );
}

#[test]
fn init_without_tests() {
    let c = Cryptolite::new();
    let mut cfg = TrngConfig::default();
    cfg.enable_ap_test = false;
    cfg.enable_rc_test = false;
    cfg.vn_corrector_enable = false;
    cfg.stop_on_rc_detect = false;
    cfg.mon_bitstream_select = TrngBitstreamSelect::DAS;
    cfg.mon_cutoff_count16 = 0x1234;
    cfg.mon_window_size = 0xABCD;
    let ops = c.trng_init(&cfg).unwrap();
    assert_eq!(ops.len(), 8);
    assert_eq!(ops[4], RegOp::Write { addr: TRNG_CTL0, value: 0x10FF_0301 });
    assert_eq!(ops[5], RegOp::Modify { addr: TRNG_MON_CTL, mask: 0x3, value: 0x0 });
    assert_eq!(ops[7], RegOp::Write { addr: TRNG_MON_AP_CTL, value: 0xABCD_1234 });
}

#[test]
fn init_rejects_undefined_bitstream() {
    let c = Cryptolite::new();
    let mut cfg = TrngConfig::default();
    cfg.mon_bitstream_select = TrngBitstreamSelect::UNDEFINED;
    assert_eq!(c.trng_init(&cfg), Err(CryptoliteErr::BadParams));
    assert_eq!(
        c.trng_mon_set_bitstream_selector(TrngBitstreamSelect::UNDEFINED),
        Err(CryptoliteErr::BadParams)
    );
    assert_eq!(
        c.trng_mon_set_bitstream_selector(TrngBitstreamSelect::RED),
        Ok(RegOp::Modify { addr: TRNG_MON_CTL, mask: 0x3, value: 0x1 })
    );
}

#[test]
fn deinit_sequence() {
    let c = Cryptolite::new();
    let ops = c.trng_deinit();
    assert_eq!(
        ops,
        vec![
            RegOp::Write { addr: TRNG_CTL0, value: 0x0003_0000 },
            RegOp::Write { addr: TRNG_CTL1, value: 0 },
            RegOp::Write { addr: TRNG_GARO_CTL, value: 0 },
            RegOp::Write { addr: TRNG_FIRO_CTL, value: 0 },
            RegOp::Write { addr: TRNG_MON_CTL, value: 2 },
            RegOp::Write { addr: TRNG_MON_RC_CTL, value: 0 },
            RegOp::Write { addr: TRNG_MON_AP_CTL, value: 0 },
            RegOp::Write { addr: INTR_TRNG, value: 0x3 },
            RegOp::Write { addr: INTR_TRNG, value: 0xC },
        ]
    );
    assert!(!c.trng_is_enabled(0));
}

#[test]
fn enable_and_disable() {
    let c = Cryptolite::new();
    assert!(!c.trng_is_enabled(0xFFFF_FFC0));
    assert!(c.trng_is_enabled(0x20));
    let on = c.trng_enable(0).unwrap();
    assert_eq!(
        on,
        vec![RegOp::Write { addr: INTR_TRNG, value: 3 }, RegOp::Write { addr: TRNG_CTL1, value: 0x3F }]
    );
    assert!(c.trng_is_enabled(on[1].apply(0)));
    assert_eq!(c.trng_enable(0x3F).unwrap(), vec![]);
    assert_eq!(c.trng_enable(0xFFFF_FFFF).unwrap(), vec![]);
    // partly enabled: all six are enabled
    let partly = c.trng_enable(0x01).unwrap();
    assert_eq!(
        partly,
        vec![RegOp::Write { addr: INTR_TRNG, value: 3 }, RegOp::Write { addr: TRNG_CTL1, value: 0x3F }]
    );
    assert_eq!(partly[1].apply(0x01), 0x3F);
    let off = c.trng_disable(0x3F).unwrap();
    assert_eq!(
        off,
        vec![RegOp::Write { addr: INTR_TRNG, value: 3 }, RegOp::Write { addr: TRNG_CTL1, value: 0 }]
    );
    assert!(!c.trng_is_enabled(off[1].apply(0x3F)));
    assert_eq!(c.trng_disable(0).unwrap(), vec![]);
}

#[test]
fn interrupt_decisions() {
    let c = Cryptolite::new();
    assert!(c.trng_init_done(0x1));
    assert!(!c.trng_init_done(0xE));
    assert!(!c.trng_data_ready(0x1));
    assert!(c.trng_data_ready(0x2));
    assert!(c.trng_data_ready(0x4));
    assert!(c.trng_data_ready(0x8));
    assert_eq!(c.trng_mon_get_health_status(0x3), 0);
    assert_eq!(c.trng_mon_get_health_status(0x4), 1);
    assert_eq!(c.trng_mon_get_health_status(0x8), 2);
    assert_eq!(c.trng_mon_get_health_status(0xF), 3);
    assert_eq!(c.trng_mon_clear_health_status(), RegOp::Write { addr: INTR_TRNG, value: 0xC });
    assert_eq!(c.trng_mon_enable_ap_test(), RegOp::Modify { addr: TRNG_MON_CTL, mask: 0x100, value: 0x100 });
    assert_eq!(c.trng_mon_enable_rc_test(), RegOp::Modify { addr: TRNG_MON_CTL, mask: 0x200, value: 0x200 });
}

#[test]
fn read_data() {
    let c = Cryptolite::new();
    assert_eq!(c.trng_read_data(0), Err(CryptoliteErr::TrngNotEnabled));
    assert_eq!(c.trng_read_data(0x1), Ok(()));
    assert_eq!(c.trng_read_result(0xDEAD_BEEF, 0x2), Ok(0xDEAD_BEEF));
    assert_eq!(c.trng_read_result(0xDEAD_BEEF, 0x6), Err(CryptoliteErr::TrngUnhealthy));
    assert_eq!(c.trng_read_result(0xDEAD_BEEF, 0xA), Err(CryptoliteErr::TrngUnhealthy));
}

#[test]
fn fill_bytes_little_endian() {
    let c = Cryptolite::new();
    assert_eq!(c.trng_try_fill_bytes(0), Err(CryptoliteErr::TrngNotEnabled));
    assert_eq!(c.trng_try_fill_bytes(0x3F), Ok(()));
    let mut dest = [0xAAu8; 7];
    let next = c.trng_fill_step(&mut dest, 0, 0x4433_2211);
    assert_eq!(next, 4);
    assert_eq!(dest, [0x11, 0x22, 0x33, 0x44, 0xAA, 0xAA, 0xAA]);
    let next = c.trng_fill_step(&mut dest, next, 0x8877_6655);
    assert_eq!(next, 7);
    assert_eq!(dest, [0x11, 0x22, 0x33, 0x44, 0x55, 0x66, 0x77]);
}

#[test]
fn codes() {
    assert_eq!(CryptoliteErr::BadParams.code(), 0x01);
    assert_eq!(CryptoliteErr::TrngNotEnabled.code(), 0x07);
    assert_eq!(CryptoliteErr::TrngUnhealthy.code(), 0x08);
    assert_eq!(CryptoliteErr::HwError.code(), 0x0a);
    assert_eq!(TrngRoSelect::Ro11.value(), 0);
    assert_eq!(TrngRoSelect::Firo31.value(), 5);
    assert_eq!(TrngBitstreamSelect::UNDEFINED.value(), 3);
}

#[test]
fn init_then_enable_then_read() {
    let c = Cryptolite::new();
    let init = c.trng_init(&TrngConfig::default()).unwrap();
    assert!(init.iter().all(|op| op.addr() != TRNG_CTL1));
    let mut ctl1 = 0x04;
    for op in c.trng_enable(ctl1).unwrap() {
        if op.addr() == TRNG_CTL1 {
            ctl1 = op.apply(ctl1);
        }
    }
    assert_eq!(ctl1, 0x3F);
    assert_eq!(c.trng_read_data(ctl1), Ok(()));
}
