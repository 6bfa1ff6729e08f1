use psc3::ppc::{
    lock_protection_contexts, set_protection_context, set_trustzone_access, set_viloation_response,
    PpcRegion, PpcViolationResponse, PPC_CTL, PPC_LOCK_MASK, PPC_NS_ATTRS, PPC_NS_P_ATTRS,
    PPC_PC_MASKS, PPC_S_P_ATTRS,
};
use psc3::regs::RegOp;

#[test]
fn region_indices() {
    assert_eq!(PpcRegion::ProtPeri0Main.index(), 0);
    assert_eq!(PpcRegion::ProtCryptoliteTrng.index(), 126);
    assert_eq!(PpcRegion::ProtMcpass.index(), 221);
}

#[test]
fn trustzone_access_last_region() {
    // region 221: register 6, bit 29
    let ops = set_trustzone_access(PpcRegion::ProtMcpass, true, false, true);
    let bit = 1u32 << 29;
    assert_eq!(
        ops,
        vec![
            RegOp::Modify { addr: PPC_NS_ATTRS + 24, mask: bit, value: bit },
            RegOp::Modify { addr: PPC_S_P_ATTRS + 24, mask: bit, value: 0 },
            RegOp::Modify { addr: PPC_NS_P_ATTRS + 24, mask: bit, value: bit },
        ]
    );
}

#[test]
fn trustzone_access_first_region() {
    let ops = set_trustzone_access(PpcRegion::ProtPeri0Main, false, true, false);
    assert_eq!(ops[0], RegOp::Modify { addr: PPC_NS_ATTRS, mask: 1, value: 0 });
    assert_eq!(ops[1], RegOp::Modify { addr: PPC_S_P_ATTRS, mask: 1, value: 1 });
    assert_eq!(ops[2], RegOp::Modify { addr: PPC_NS_P_ATTRS, mask: 1, value: 0 });
}

#[test]
fn trustzone_access_changes_only_region_bit() {
    // region 33: register 1, bit 1
    let ops = set_trustzone_access(PpcRegion::ProtFlashcMpc0PpcMpcMain, true, true, true);
    assert_eq!(ops[0].addr(), PPC_NS_ATTRS + 4);
    assert_eq!(ops[0].apply(0x0000_0000), 0x0000_0002);
    assert_eq!(ops[0].apply(0xFFFF_FFFD), 0xFFFF_FFFF);
    // privileged access required: the privilege attribute bit is cleared
    assert_eq!(ops[1].apply(0xFFFF_FFFF), 0xFFFF_FFFD);
    assert_eq!(ops[2].apply(0x0000_0002), 0x0000_0000);
}

#[test]
fn protection_context_byte() {
    // region 126: register 31, byte 2
    let op = set_protection_context(PpcRegion::ProtCryptoliteTrng, 0x5A);
    assert_eq!(
        op,
        RegOp::Modify { addr: PPC_PC_MASKS + 31 * 4, mask: 0x00FF_0000, value: 0x005A_0000 }
    );
    assert_eq!(op.apply(0x1122_3344), 0x115A_3344);
}

#[test]
fn protection_context_first_byte() {
    let op = set_protection_context(PpcRegion::ProtPeri0Gr3Group, 0x01);
    // region 4: register 1, byte 0
    assert_eq!(op, RegOp::Modify { addr: PPC_PC_MASKS + 4, mask: 0xFF, value: 0x01 });
    assert_eq!(op.apply(0xAABB_CCDD), 0xAABB_CC01);
}

#[test]
fn lock_and_response() {
    assert_eq!(lock_protection_contexts(), RegOp::Write { addr: PPC_LOCK_MASK, value: 0xFF });
    assert_eq!(
        set_viloation_response(PpcViolationResponse::Rzwi),
        RegOp::Write { addr: PPC_CTL, value: 0 }
    );
    assert_eq!(
        set_viloation_response(PpcViolationResponse::BusError),
        RegOp::Write { addr: PPC_CTL, value: 1 }
    );
}

#[test]
fn trustzone_access_commutes() {
    // regions 32 and 33 share their attribute registers
    let a = set_trustzone_access(PpcRegion::ProtFlashcEcc, true, false, false);
    let b = set_trustzone_access(PpcRegion::ProtFlashcMpc0PpcMpcMain, false, true, true);
    for k in 0..3 {
        assert_eq!(a[k].addr(), b[k].addr());
        for old in [0u32, 0xFFFF_FFFF, 0x1234_5678] {
            assert_eq!(b[k].apply(a[k].apply(old)), a[k].apply(b[k].apply(old)));
        }
    }
}
