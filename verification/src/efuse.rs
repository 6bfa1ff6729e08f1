//! EFUSE interface: the device lifecycle stage, from the boot row latched at
//! power-on reset.
use vstd::prelude::*;

verus! {

/// Address of the BOOTROW register, whose 32-bit BOOT_ROW_DATA field holds the
/// content of the boot row latches at power-on reset.
pub const EFUSE_BOOTROW: u32 = 0x4261_0180;

/// Lifecycle stage of the device, as encoded in the boot row.
#[derive(Clone, Copy, Debug, PartialEq, Eq, Structural)]
pub enum SyslibLcsMode {
    /// Boot row data `0x0000`.
    Virgin,
    /// Boot row data `0x0029`.
    Sort,
    /// Boot row data `0x00E9`.
    Provisioned,
    /// Boot row data `0xC0E9`.
    NormalProvisioned,
    /// Boot row data `0xC029`.
    Normal,
    /// Boot row data `0xC3E9`.
    Secure,
    /// Boot row data `0xCC29`.
    NormalNoSecure,
    /// Boot row data `0xF3E9`.
    Rma,
    /// Boot row data `0xFFFF`.
    Corrupted,
}

impl SyslibLcsMode {
    /// The boot row data of the stage.
    pub open spec fn spec_value(self) -> u32 {
        match self {
            SyslibLcsMode::Virgin => 0x0000,
            SyslibLcsMode::Sort => 0x0029,
            SyslibLcsMode::Provisioned => 0x00E9,
            SyslibLcsMode::NormalProvisioned => 0xC0E9,
            SyslibLcsMode::Normal => 0xC029,
            SyslibLcsMode::Secure => 0xC3E9,
            SyslibLcsMode::NormalNoSecure => 0xCC29,
            SyslibLcsMode::Rma => 0xF3E9,
            SyslibLcsMode::Corrupted => 0xFFFF,
        }
    }

    /// The boot row data of the stage.
    pub fn value(&self) -> (v: u32)
        ensures
            v == self.spec_value(),
    {
        match self {
            SyslibLcsMode::Virgin => 0x0000,
            SyslibLcsMode::Sort => 0x0029,
            SyslibLcsMode::Provisioned => 0x00E9,
            SyslibLcsMode::NormalProvisioned => 0xC0E9,
            SyslibLcsMode::Normal => 0xC029,
            SyslibLcsMode::Secure => 0xC3E9,
            SyslibLcsMode::NormalNoSecure => 0xCC29,
            SyslibLcsMode::Rma => 0xF3E9,
            SyslibLcsMode::Corrupted => 0xFFFF,
        }
    }
}

/// The lifecycle stage that a boot row word encodes, `Corrupted` for a word that
/// encodes none.
pub open spec fn lifecycle_of(bootrow: u32) -> SyslibLcsMode {
    if bootrow == 0x0000 {
        SyslibLcsMode::Virgin
    } else if bootrow == 0x0029 {
        SyslibLcsMode::Sort
    } else if bootrow == 0x00E9 {
        SyslibLcsMode::Provisioned
    } else if bootrow == 0xC0E9 {
        SyslibLcsMode::NormalProvisioned
    } else if bootrow == 0xC029 {
        SyslibLcsMode::Normal
    } else if bootrow == 0xC3E9 {
        SyslibLcsMode::Secure
    } else if bootrow == 0xCC29 {
        SyslibLcsMode::NormalNoSecure
    } else if bootrow == 0xF3E9 {
        SyslibLcsMode::Rma
    } else {
        SyslibLcsMode::Corrupted
    }
}

/// Whether a boot row word is the encoding of some lifecycle stage.
pub open spec fn is_known_lifecycle(bootrow: u32) -> bool {
    exists|m: SyslibLcsMode| m.spec_value() == bootrow
}

/// The lifecycle stage of the device, from the word `bootrow` read from the BOOTROW
/// register: the stage that the word encodes, or `Corrupted` if it encodes none.
pub fn get_device_lifecycle(bootrow: u32) -> (m: SyslibLcsMode)
    ensures
        m == lifecycle_of(bootrow),
        is_known_lifecycle(bootrow) ==> m.spec_value() == bootrow,
        !is_known_lifecycle(bootrow) ==> m == SyslibLcsMode::Corrupted,
{
    let m = if bootrow == 0x0000 {
        SyslibLcsMode::Virgin
    } else if bootrow == 0x0029 {
        SyslibLcsMode::Sort
    } else if bootrow == 0x00E9 {
        SyslibLcsMode::Provisioned
    } else if bootrow == 0xC0E9 {
        SyslibLcsMode::NormalProvisioned
    } else if bootrow == 0xC029 {
        SyslibLcsMode::Normal
    } else if bootrow == 0xC3E9 {
        SyslibLcsMode::Secure
    } else if bootrow == 0xCC29 {
        SyslibLcsMode::NormalNoSecure
    } else if bootrow == 0xF3E9 {
        SyslibLcsMode::Rma
    } else {
        SyslibLcsMode::Corrupted
    };
    proof {
        if m != SyslibLcsMode::Corrupted {
            assert(m.spec_value() == bootrow);
        }
        if is_known_lifecycle(bootrow) {
            let w = choose|w: SyslibLcsMode| w.spec_value() == bootrow;
            assert(w.spec_value() == bootrow);
        }
    }
    m
}

/// Each lifecycle stage is read back from its own encoding: distinct stages have
/// distinct encodings, and decoding the encoding of a stage gives that stage.
pub proof fn lemma_lifecycle_roundtrip(m: SyslibLcsMode, n: SyslibLcsMode)
    ensures
        m.spec_value() == n.spec_value() ==> m == n,
        is_known_lifecycle(m.spec_value()),
        lifecycle_of(m.spec_value()) == m,
{
}

} // verus!
