use psc3::efuse::{get_device_lifecycle, SyslibLcsMode};
use psc3::mxcm33::{set_ns_vector_table_base, MXCM33_NS_VECTOR_TABLE_BASE};
use psc3::regs::RegOp;

#[test]
fn ns_vector_table_base_aligned() {
    assert_eq!(
        set_ns_vector_table_base(0x3210_0000),
        RegOp::Write { addr: MXCM33_NS_VECTOR_TABLE_BASE, value: 0x3210_0000 }
    );
}

#[test]
fn ns_vector_table_base_rounds_down() {
    assert_eq!(
        set_ns_vector_table_base(0x1234_5678),
        RegOp::Write { addr: MXCM33_NS_VECTOR_TABLE_BASE, value: 0x1234_5600 }
    );
    assert_eq!(
        set_ns_vector_table_base(0xFFFF_FFFF),
        RegOp::Write { addr: MXCM33_NS_VECTOR_TABLE_BASE, value: 0xFFFF_FF80 }
    );
}

#[test]
fn lifecycle_known_values() {
    let all = [
        (0x0000, SyslibLcsMode::Virgin),
        (0x0029, SyslibLcsMode::Sort),
        (0x00E9, SyslibLcsMode::Provisioned),
        (0xC0E9, SyslibLcsMode::NormalProvisioned),
        (0xC029, SyslibLcsMode::Normal),
        (0xC3E9, SyslibLcsMode::Secure),
        (0xCC29, SyslibLcsMode::NormalNoSecure),
        (0xF3E9, SyslibLcsMode::Rma),
        (0xFFFF, SyslibLcsMode::Corrupted),
    ];
    for (value, mode) in all {
        assert_eq!(get_device_lifecycle(value), mode);
        assert_eq!(mode.value(), value);
        assert_eq!(get_device_lifecycle(mode.value()), mode);
    }
}

#[test]
fn lifecycle_unknown_values_are_corrupted() {
    assert_eq!(get_device_lifecycle(0x1234), SyslibLcsMode::Corrupted);
    assert_eq!(get_device_lifecycle(0x0001_C029), SyslibLcsMode::Corrupted);
    assert_eq!(get_device_lifecycle(0xFFFF_FFFF), SyslibLcsMode::Corrupted);
}
