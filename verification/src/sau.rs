//! Security Attribution Unit (SAU) of the Armv8-M architecture (section B8.3 of the
//! Armv8-M Architecture Reference Manual).
//!
//! The SAU is programmed region by region: the Region Number Register (RNR) selects
//! a region, whose base and limit are then accessed through RBAR and RLAR.
use vstd::prelude::*;
use crate::regs::{RegOp, bit_modify, reg_after};

verus! {

/// Address of the SAU Control Register.
pub const SAU_CTRL: u32 = 0xE000_EDD0;
/// Address of the SAU Type Register.
pub const SAU_TYPE: u32 = 0xE000_EDD4;
/// Address of the SAU Region Number Register.
pub const SAU_RNR: u32 = 0xE000_EDD8;
/// Address of the SAU Region Base Address Register.
pub const SAU_RBAR: u32 = 0xE000_EDDC;
/// Address of the SAU Region Limit Address Register.
pub const SAU_RLAR: u32 = 0xE000_EDE0;
/// Address of the Secure Fault Status Register.
pub const SAU_SFSR: u32 = 0xE000_EDE4;
/// Address of the Secure Fault Address Register.
pub const SAU_SFAR: u32 = 0xE000_EDE8;

/// Mask of the 27-bit address fields BADDR (RBAR) and LADDR (RLAR), which sit at bit 5.
pub const ADDR_FIELD_MASK: u32 = 0x07FF_FFFF;

/// Possible attribute of a SAU region.
#[derive(Clone, Copy, Debug, PartialEq, Eq, Structural)]
pub enum SauRegionAttribute {
    /// SAU region is Secure
    Secure,
    /// SAU region is Non-Secure Callable
    NonSecureCallable,
    /// SAU region is Non-Secure
    NonSecure,
}

/// Description of a SAU region.
#[derive(Clone, Copy, Debug, PartialEq, Eq, Structural)]
pub struct SauRegion {
    /// First address of the region, its 5 least significant bits must be set to zero.
    pub base_address: u32,
    /// Last address of the region, its 5 least significant bits must be set to one.
    pub limit_address: u32,
    /// Attribute of the region.
    pub attribute: SauRegionAttribute,
}

/// Possible error values returned by the SAU methods.
#[derive(Clone, Copy, Debug, PartialEq, Eq, Structural)]
pub enum SauError {
    /// The region number parameter to set or get a region must be between 0 and
    /// region_numbers() - 1.
    RegionNumberTooBig,
    /// Bits 0 to 4 of the base address of a SAU region must be set to zero.
    WrongBaseAddress,
    /// Bits 0 to 4 of the limit address of a SAU region must be set to one.
    WrongLimitAddress,
}

/// The SAU peripheral of the Cortex-M33, whose registers sit at the fixed
/// addresses `SAU_CTRL` to `SAU_SFAR`.
pub struct SAU {}

/// Create a new SAU interface for the Cortex-M33 SAU peripheral.
pub fn new() -> (sau: SAU) {
    SAU {}
}

/// The number of implemented regions, as the SREGION field (bits 0 to 7) of the
/// Type Register gives it.
pub open spec fn region_count(type_reg: u32) -> u8 {
    (type_reg % 256) as u8
}

/// Whether a region is well aligned: its base address ends in five zero bits and
/// its limit address in five one bits.
pub open spec fn region_is_aligned(region: SauRegion) -> bool {
    &&& region.base_address % 32 == 0
    &&& region.limit_address % 32 == 31
}

/// The RBAR word that describes a base address: its BADDR field (bits 5 to 31)
/// holds the address shifted right by 5, so the word is the address rounded down
/// to a multiple of 32.
pub open spec fn rbar_word(base_address: u32) -> u32 {
    (base_address - base_address % 32) as u32
}

/// The NSC (bit 1) and ENABLE (bit 0) bits of RLAR for an attribute.
pub open spec fn attribute_bits(attribute: SauRegionAttribute) -> u32 {
    match attribute {
        SauRegionAttribute::Secure => 0,
        SauRegionAttribute::NonSecureCallable => 3,
        SauRegionAttribute::NonSecure => 1,
    }
}

/// The RLAR word that describes a limit address and an attribute: its LADDR field
/// (bits 5 to 31) holds the address shifted right by 5, and the attribute sits in
/// NSC (bit 1) and ENABLE (bit 0).
pub open spec fn rlar_word(limit_address: u32, attribute: SauRegionAttribute) -> u32 {
    (limit_address - limit_address % 32 + attribute_bits(attribute)) as u32
}

/// The region that the RBAR and RLAR words describe.
pub open spec fn region_of_words(rbar: u32, rlar: u32) -> SauRegion {
    SauRegion {
        base_address: (rbar - rbar % 32) as u32,
        limit_address: (rlar - rlar % 32 + 31) as u32,
        attribute: if rlar % 2 == 0 {
            SauRegionAttribute::Secure
        } else if (rlar / 2) % 2 == 0 {
            SauRegionAttribute::NonSecure
        } else {
            SauRegionAttribute::NonSecureCallable
        },
    }
}

/// What `set_region` decides: the first check that fails, in the order region
/// number, base address, limit address; or else the writes that select the region
/// and program its base, limit and attribute.
pub open spec fn set_region_spec(type_reg: u32, region_number: u8, region: SauRegion) -> Result<
    Seq<RegOp>,
    SauError,
> {
    if region_number >= region_count(type_reg) {
        Err(SauError::RegionNumberTooBig)
    } else if region.base_address % 32 != 0 {
        Err(SauError::WrongBaseAddress)
    } else if region.limit_address % 32 != 31 {
        Err(SauError::WrongLimitAddress)
    } else {
        Ok(
            seq![
                RegOp::Write { addr: SAU_RNR, value: region_number as u32 },
                RegOp::Write { addr: SAU_RBAR, value: rbar_word(region.base_address) },
                RegOp::Write {
                    addr: SAU_RLAR,
                    value: rlar_word(region.limit_address, region.attribute),
                },
            ],
        )
    }
}

/// What `get_region` decides before reading: an error if the region number is not
/// implemented, or else the write that selects the region.
pub open spec fn get_region_spec(type_reg: u32, region_number: u8) -> Result<RegOp, SauError> {
    if region_number >= region_count(type_reg) {
        Err(SauError::RegionNumberTooBig)
    } else {
        Ok(RegOp::Write { addr: SAU_RNR, value: region_number as u32 })
    }
}

impl SAU {
    /// Get the number of implemented SAU regions, from the value `type_reg` read
    /// from the Type Register.
    pub fn region_numbers(&self, type_reg: u32) -> (n: u8)
        ensures
            n == region_count(type_reg),
    {
        assert(type_reg & 0xff == type_reg % 256) by (bit_vector);
        (type_reg & 0xff) as u8
    }

    /// Enable the SAU: the operation that sets the ENABLE bit of the Control Register.
    pub fn enable(&mut self) -> (op: RegOp)
        ensures
            op == bit_modify(SAU_CTRL, 0, true),
    {
        assert(1u32 << 0u32 == 1) by (bit_vector);
        RegOp::Modify { addr: SAU_CTRL, mask: 1, value: 1 }
    }

    /// Set a SAU region to a region number, where `type_reg` is the value read from
    /// the Type Register.
    /// SAU regions must be 32 bytes aligned and their sizes must be a multiple of 32 bytes. It
    /// means that the 5 least significant bits of the base address of a SAU region must be set to
    /// zero and the 5 least significant bits of the limit address must be set to one.
    /// The region number must be valid.
    /// On success, the result is the sequence of writes to perform, in order.
    pub fn set_region(&mut self, type_reg: u32, region_number: u8, region: SauRegion) -> (r:
        Result<Vec<RegOp>, SauError>)
        ensures
            match r {
                Ok(ops) => set_region_spec(type_reg, region_number, region) == Ok::<
                    Seq<RegOp>,
                    SauError,
                >(ops@),
                Err(e) => set_region_spec(type_reg, region_number, region) == Err::<
                    Seq<RegOp>,
                    SauError,
                >(e),
            },
    {
        let base_address = region.base_address;
        let limit_address = region.limit_address;
        let attribute = region.attribute;

        if region_number >= self.region_numbers(type_reg) {
            return Err(SauError::RegionNumberTooBig);
        }
        assert(base_address & 0x1f == base_address % 32) by (bit_vector);
        assert(limit_address & 0x1f == limit_address % 32) by (bit_vector);
        if base_address & 0x1F != 0 {
            return Err(SauError::WrongBaseAddress);
        }
        if limit_address & 0x1F != 0x1F {
            return Err(SauError::WrongLimitAddress);
        }

        let rbar = ((base_address >> 5) & ADDR_FIELD_MASK) << 5;
        let attribute_value: u32 = match attribute {
            SauRegionAttribute::Secure => 0,
            SauRegionAttribute::NonSecureCallable => 3,
            SauRegionAttribute::NonSecure => 1,
        };
        let rlar = (((limit_address >> 5) & ADDR_FIELD_MASK) << 5) | attribute_value;
        assert(((base_address >> 5) & 0x07FF_FFFFu32) << 5 == base_address - base_address % 32)
            by (bit_vector);
        assert((((limit_address >> 5) & 0x07FF_FFFFu32) << 5) | attribute_value == limit_address
            - limit_address % 32 + attribute_value) by (bit_vector)
            requires
                attribute_value < 4,
        ;
        let mut ops: Vec<RegOp> = Vec::new();
        ops.push(RegOp::Write { addr: SAU_RNR, value: region_number as u32 });
        ops.push(RegOp::Write { addr: SAU_RBAR, value: rbar });
        ops.push(RegOp::Write { addr: SAU_RLAR, value: rlar });
        assert(ops@ =~= set_region_spec(type_reg, region_number, region)->Ok_0);
        Ok(ops)
    }

    /// Get a region from the SAU, first step: check the region number against the
    /// value `type_reg` read from the Type Register, and give the write that selects
    /// the region. RBAR and RLAR, read after that write, are then decoded by
    /// `region_from_registers`.
    /// The region number must be valid.
    pub fn get_region(&mut self, type_reg: u32, region_number: u8) -> (r: Result<RegOp, SauError>)
        ensures
            r == get_region_spec(type_reg, region_number),
    {
        if region_number >= self.region_numbers(type_reg) {
            return Err(SauError::RegionNumberTooBig);
        }
        Ok(RegOp::Write { addr: SAU_RNR, value: region_number as u32 })
    }

    /// Get a region from the SAU, second step: the region that the words read from
    /// RBAR and RLAR describe. A disabled region is Secure; an enabled one is
    /// Non-Secure Callable if its NSC bit is set and Non-Secure otherwise.
    pub fn region_from_registers(&self, rbar: u32, rlar: u32) -> (region: SauRegion)
        ensures
            region == region_of_words(rbar, rlar),
            region_is_aligned(region),
    {
        let enabled = rlar & 1 != 0;
        let nsc = rlar & 2 != 0;
        let attribute = match (enabled, nsc) {
            (false, _) => SauRegionAttribute::Secure,
            (true, false) => SauRegionAttribute::NonSecure,
            (true, true) => SauRegionAttribute::NonSecureCallable,
        };
        let base_address = ((rbar >> 5) & ADDR_FIELD_MASK) << 5;
        let limit_address = (((rlar >> 5) & ADDR_FIELD_MASK) << 5) | 0x1F;
        proof {
            assert(rlar & 1 != 0 <==> rlar % 2 != 0) by (bit_vector);
            assert(rlar & 2 != 0 <==> (rlar / 2) % 2 != 0) by (bit_vector);
            assert(((rbar >> 5) & 0x07FF_FFFFu32) << 5 == rbar - rbar % 32) by (bit_vector);
            assert((((rlar >> 5) & 0x07FF_FFFFu32) << 5) | 0x1f == rlar - rlar % 32 + 31)
                by (bit_vector);
        }
        SauRegion { base_address, limit_address, attribute }
    }
}

/// What a read gives back of a write: for a well-aligned region and an implemented
/// region number, `set_region` succeeds, `get_region` selects the same region
/// number, and the RBAR and RLAR words that `set_region` wrote decode to the very
/// region that was set.
pub proof fn lemma_set_then_get_region(type_reg: u32, region_number: u8, region: SauRegion)
    requires
        region_number < region_count(type_reg),
        region_is_aligned(region),
    ensures
        set_region_spec(type_reg, region_number, region) is Ok,
        get_region_spec(type_reg, region_number) == Ok::<RegOp, SauError>(
            set_region_spec(type_reg, region_number, region)->Ok_0[0],
        ),
        region_of_words(
            set_region_spec(type_reg, region_number, region)->Ok_0[1]->Write_value,
            set_region_spec(type_reg, region_number, region)->Ok_0[2]->Write_value,
        ) == region,
{
}

/// What programming a well-aligned region leaves in the SAU registers, whatever
/// they held before: RNR holds the region number; RBAR holds the base address;
/// RLAR holds the limit address with its five low bits replaced by the attribute,
/// whose ENABLE bit (bit 0) is set exactly for the non-secure attributes and whose
/// NSC bit (bit 1) is set exactly for the non-secure callable one.
pub proof fn lemma_set_region_registers(type_reg: u32, region_number: u8, region: SauRegion, old: u32)
    requires
        region_number < region_count(type_reg),
        region_is_aligned(region),
    ensures
        ({
            let ops = set_region_spec(type_reg, region_number, region)->Ok_0;
            let rlar = reg_after(ops, SAU_RLAR, old);
            &&& reg_after(ops, SAU_RNR, old) == region_number
            &&& reg_after(ops, SAU_RBAR, old) == region.base_address
            &&& rlar / 32 == region.limit_address / 32
            &&& (rlar % 2 == 1) == (region.attribute != SauRegionAttribute::Secure)
            &&& ((rlar / 2) % 2 == 1) == (region.attribute == SauRegionAttribute::NonSecureCallable)
            &&& (rlar % 32) / 4 == 0
        }),
{
    reveal_with_fuel(reg_after, 4);
    let ops = set_region_spec(type_reg, region_number, region)->Ok_0;
    assert(ops.drop_last() =~= seq![ops[0], ops[1]]);
    assert(ops.drop_last().drop_last() =~= seq![ops[0]]);
    assert(ops.drop_last().drop_last().drop_last() =~= Seq::<RegOp>::empty());
}

} // verus!
