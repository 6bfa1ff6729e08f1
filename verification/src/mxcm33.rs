//! MXCM33 CPU subsystem registers: the non-secure vector table base.
use vstd::prelude::*;
use crate::regs::{RegOp, field_value};

verus! {

/// Address of the CM33 non-secure vector table base register.
pub const MXCM33_NS_VECTOR_TABLE_BASE: u32 = 0x4216_1004;

/// Mask of the 25-bit ADDR25 field, which sits at bit 7.
pub const ADDR25_MASK: u32 = 0x01FF_FFFF;

/// Set the non-secure vector table base: the write of the ADDR25 field, which
/// holds the address shifted right by 7. The table base is the address rounded
/// down to a multiple of 128.
pub fn set_ns_vector_table_base(addr: u32) -> (op: RegOp)
    ensures
        op == (RegOp::Write {
            addr: MXCM33_NS_VECTOR_TABLE_BASE,
            value: field_value(ADDR25_MASK, 7, addr >> 7),
        }),
        op->Write_value == addr & 0xffff_ff80,
        op->Write_value == addr - addr % 128,
{
    let value = ((addr >> 7) & ADDR25_MASK) << 7;
    assert(((addr >> 7) & 0x01FF_FFFFu32) << 7 == addr & 0xffff_ff80) by (bit_vector);
    assert(addr & 0xffff_ff80 == addr - addr % 128) by (bit_vector);
    RegOp::Write { addr: MXCM33_NS_VECTOR_TABLE_BASE, value }
}

} // verus!
