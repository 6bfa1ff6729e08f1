//! Register words and the operations that drivers ask to be performed on them.
//!
//! A driver in this crate never touches memory-mapped registers itself: it decides
//! which registers to read and computes the exact sequence of register operations
//! to perform. The field arithmetic here follows the usual layout of a register
//! field: a mask of the field's width, placed at a bit offset (`shift`).
use vstd::prelude::*;

verus! {

/// The value of a register field of width given by `mask`, placed at bit `shift`:
/// bits of `v` outside the field's width are dropped.
pub open spec fn field_value(mask: u32, shift: u32, v: u32) -> u32 {
    (v & mask) << shift
}

/// The content of the field described by `mask` and `shift` in the register word `reg`.
pub open spec fn field_read(reg: u32, mask: u32, shift: u32) -> u32 {
    (reg >> shift) & mask
}

/// Whether bit `bit` of `reg` is set.
pub open spec fn bit_is_set(reg: u32, bit: u32) -> bool {
    reg & (1u32 << bit) != 0
}

/// An operation on one 32-bit memory-mapped register, named by its absolute address.
#[derive(Clone, Copy, Debug, PartialEq, Eq, Structural)]
pub enum RegOp {
    /// Store `value` into the register.
    Write { addr: u32, value: u32 },
    /// Read the register, clear the bits of `mask`, set the bits of `value`, and
    /// store the result.
    Modify { addr: u32, mask: u32, value: u32 },
}

impl RegOp {
    /// The address of the register that the operation stores into.
    pub open spec fn addr_of(self) -> u32 {
        match self {
            RegOp::Write { addr, .. } => addr,
            RegOp::Modify { addr, .. } => addr,
        }
    }

    /// The content of the register after the operation, where `old` is its content
    /// before, for a register that keeps what is stored into it.
    pub open spec fn result_on(self, old: u32) -> u32 {
        match self {
            RegOp::Write { value, .. } => value,
            RegOp::Modify { mask, value, .. } => (old & !mask) | value,
        }
    }

    /// The content of the register after the operation (see `result_on`).
    pub fn apply(&self, old: u32) -> (r: u32)
        ensures
            r == self.result_on(old),
    {
        match self {
            RegOp::Write { value, .. } => *value,
            RegOp::Modify { mask, value, .. } => (old & !*mask) | *value,
        }
    }

    /// The address of the register that the operation stores into.
    pub fn addr(&self) -> (r: u32)
        ensures
            r == self.addr_of(),
    {
        match self {
            RegOp::Write { addr, .. } => *addr,
            RegOp::Modify { addr, .. } => *addr,
        }
    }
}

/// A modify operation that stores `value` into the single bit `bit` of a register
/// and keeps the others.
pub open spec fn bit_modify(addr: u32, bit: u32, value: bool) -> RegOp {
    RegOp::Modify {
        addr,
        mask: 1u32 << bit,
        value: if value { 1u32 << bit } else { 0 },
    }
}

/// Storing a bit by `bit_modify` sets that bit to the given value and leaves every
/// other bit of the register as it was.
pub proof fn lemma_bit_modify(addr: u32, bit: u32, value: bool, old: u32)
    requires
        bit < 32,
    ensures
        bit_is_set(bit_modify(addr, bit, value).result_on(old), bit) == value,
        forall|other: u32|
            other < 32 && other != bit ==> bit_is_set(
                #[trigger] bit_modify(addr, bit, value).result_on(old),
                other,
            ) == bit_is_set(old, other),
{
    let r = bit_modify(addr, bit, value).result_on(old);
    if value {
        assert(r == (old & !(1u32 << bit)) | (1u32 << bit));
        assert(((old & !(1u32 << bit)) | (1u32 << bit)) & (1u32 << bit) != 0) by (bit_vector)
            requires
                bit < 32,
        ;
    } else {
        assert(r == (old & !(1u32 << bit)) | 0);
        assert(((old & !(1u32 << bit)) | 0) & (1u32 << bit) == 0) by (bit_vector);
    }
    assert forall|other: u32| other < 32 && other != bit implies bit_is_set(
        #[trigger] bit_modify(addr, bit, value).result_on(old),
        other,
    ) == bit_is_set(old, other) by {
        if value {
            assert((((old & !(1u32 << bit)) | (1u32 << bit)) & (1u32 << other) != 0) == (old & (
            1u32 << other) != 0)) by (bit_vector)
                requires
                    bit < 32,
                    other < 32,
                    other != bit,
            ;
        } else {
            assert((((old & !(1u32 << bit)) | 0) & (1u32 << other) != 0) == (old & (1u32 << other)
                != 0)) by (bit_vector)
                requires
                    bit < 32,
                    other < 32,
                    other != bit,
            ;
        }
    }
}

/// The content of the register at `addr` after performing `ops` in order, where
/// `old` is its content before, for a register that keeps what is stored into it.
pub open spec fn reg_after(ops: Seq<RegOp>, addr: u32, old: u32) -> u32
    decreases ops.len(),
{
    if ops.len() == 0 {
        old
    } else {
        let prev = reg_after(ops.drop_last(), addr, old);
        if ops.last().addr_of() == addr {
            ops.last().result_on(prev)
        } else {
            prev
        }
    }
}

/// Performing operations one list after the other is performing their
/// concatenation.
pub proof fn lemma_reg_after_append(a: Seq<RegOp>, b: Seq<RegOp>, addr: u32, old: u32)
    ensures
        reg_after(a + b, addr, old) == reg_after(b, addr, reg_after(a, addr, old)),
    decreases b.len(),
{
    if b.len() == 0 {
        assert(a + b =~= a);
    } else {
        assert((a + b).drop_last() =~= a + b.drop_last());
        lemma_reg_after_append(a, b.drop_last(), addr, old);
    }
}

/// Operations that store into other registers leave a register as it was.
pub proof fn lemma_reg_after_untouched(ops: Seq<RegOp>, addr: u32, old: u32)
    requires
        forall|i: int| 0 <= i < ops.len() ==> (#[trigger] ops[i]).addr_of() != addr,
    ensures
        reg_after(ops, addr, old) == old,
    decreases ops.len(),
{
    if ops.len() > 0 {
        lemma_reg_after_untouched(ops.drop_last(), addr, old);
    }
}

/// Storing two different bits of a register by `bit_modify` gives the same register
/// content in either order.
pub proof fn lemma_bit_modify_commute(
    addr: u32,
    bit1: u32,
    value1: bool,
    bit2: u32,
    value2: bool,
    old: u32,
)
    requires
        bit1 < 32,
        bit2 < 32,
        bit1 != bit2,
    ensures
        bit_modify(addr, bit2, value2).result_on(bit_modify(addr, bit1, value1).result_on(old))
            == bit_modify(addr, bit1, value1).result_on(bit_modify(addr, bit2, value2).result_on(old)),
{
    let m1 = 1u32 << bit1;
    let m2 = 1u32 << bit2;
    let v1: u32 = if value1 { m1 } else { 0 };
    let v2: u32 = if value2 { m2 } else { 0 };
    assert((((old & !m1) | v1) & !m2) | v2 == (((old & !m2) | v2) & !m1) | v1) by (bit_vector)
        requires
            m1 == 1u32 << bit1,
            m2 == 1u32 << bit2,
            bit1 < 32,
            bit2 < 32,
            bit1 != bit2,
            v1 == 0 || v1 == m1,
            v2 == 0 || v2 == m2,
    ;
}

} // verus!
