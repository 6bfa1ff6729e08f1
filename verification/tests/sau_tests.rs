use psc3::regs::RegOp;
use psc3::sau::{self, SauError, SauRegion, SauRegionAttribute, SAU_CTRL, SAU_RBAR, SAU_RLAR, SAU_RNR};

fn region(base: u32, limit: u32, attribute: SauRegionAttribute) -> SauRegion {
    SauRegion { base_address: base, limit_address: limit, attribute }
}

#[test]
fn region_numbers_reads_sregion_field() {
    let s = sau::new();
    assert_eq!(s.region_numbers(0x0000_0008), 8);
    assert_eq!(s.region_numbers(0xFFFF_FF04), 4);
    assert_eq!(s.region_numbers(0), 0);
}

#[test]
fn enable_sets_ctrl_enable_bit() {
    let mut s = sau::new();
    let op = s.enable();
    assert_eq!(op, RegOp::Modify { addr: SAU_CTRL, mask: 1, value: 1 });
    assert_eq!(op.apply(0b10), 0b11);
    assert_eq!(op.apply(0b01), 0b01);
}

#[test]
fn set_region_writes_rnr_rbar_rlar() {
    let mut s = sau::new();
    let ops = s
        .set_region(8, 3, region(0x1000_0000, 0x1003_FFFF, SauRegionAttribute::NonSecure))
        .unwrap();
    assert_eq!(
        ops,
        vec![
            RegOp::Write { addr: SAU_RNR, value: 3 },
            RegOp::Write { addr: SAU_RBAR, value: 0x1000_0000 },
            RegOp::Write { addr: SAU_RLAR, value: 0x1003_FFE1 },
        ]
    );
}

#[test]
fn set_region_attribute_bits() {
    let mut s = sau::new();
    let secure = s.set_region(8, 0, region(0x20, 0x3F, SauRegionAttribute::Secure)).unwrap();
    assert_eq!(secure[2], RegOp::Write { addr: SAU_RLAR, value: 0x20 });
    let nsc = s
        .set_region(8, 0, region(0x20, 0x3F, SauRegionAttribute::NonSecureCallable))
        .unwrap();
    assert_eq!(nsc[2], RegOp::Write { addr: SAU_RLAR, value: 0x23 });
}

#[test]
fn set_region_errors_in_order() {
    let mut s = sau::new();
    // region number checked first
    assert_eq!(
        s.set_region(8, 8, region(0x1, 0x0, SauRegionAttribute::Secure)),
        Err(SauError::RegionNumberTooBig)
    );
    assert_eq!(
        s.set_region(0, 0, region(0x0, 0x1F, SauRegionAttribute::Secure)),
        Err(SauError::RegionNumberTooBig)
    );
    // then base address
    assert_eq!(
        s.set_region(8, 7, region(0x1001, 0x0, SauRegionAttribute::Secure)),
        Err(SauError::WrongBaseAddress)
    );
    // then limit address
    assert_eq!(
        s.set_region(8, 7, region(0x1000, 0x1FFE, SauRegionAttribute::Secure)),
        Err(SauError::WrongLimitAddress)
    );
}

#[test]
fn get_region_selects_region() {
    let mut s = sau::new();
    assert_eq!(s.get_region(8, 5), Ok(RegOp::Write { addr: SAU_RNR, value: 5 }));
    assert_eq!(s.get_region(8, 8), Err(SauError::RegionNumberTooBig));
}

#[test]
fn region_from_registers_decodes_attributes() {
    let s = sau::new();
    assert_eq!(
        s.region_from_registers(0x1000_001F, 0x1003_FFE0),
        region(0x1000_0000, 0x1003_FFFF, SauRegionAttribute::Secure)
    );
    assert_eq!(
        s.region_from_registers(0x2000_0000, 0x2000_0FE2).attribute,
        SauRegionAttribute::Secure
    );
    assert_eq!(
        s.region_from_registers(0x2000_0000, 0x2000_0FE1).attribute,
        SauRegionAttribute::NonSecure
    );
    assert_eq!(
        s.region_from_registers(0x2000_0000, 0x2000_0FE3).attribute,
        SauRegionAttribute::NonSecureCallable
    );
}

#[test]
fn set_then_get_region_roundtrip() {
    let mut s = sau::new();
    for attribute in [
        SauRegionAttribute::Secure,
        SauRegionAttribute::NonSecureCallable,
        SauRegionAttribute::NonSecure,
    ] {
        let r = region(0x0C00_0040, 0x0C0F_FFFF, attribute);
        let ops = s.set_region(4, 2, r).unwrap();
        assert_eq!(s.get_region(4, 2), Ok(ops[0]));
        let rbar = match ops[1] {
            RegOp::Write { value, .. } => value,
            _ => unreachable!(),
        };
        let rlar = match ops[2] {
            RegOp::Write { value, .. } => value,
            _ => unreachable!(),
        };
        assert_eq!(s.region_from_registers(rbar, rlar), r);
    }
}
