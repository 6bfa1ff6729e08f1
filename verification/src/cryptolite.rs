//! CRYPTOLITE peripheral driver for PSC3: control of the true random number
//! generator (TRNG) and reading of its data.
//!
//! Typical TRNG usage sequence:
//! 1. Create a `Cryptolite` instance.
//! 2. Call `trng_init` with `TrngConfig::default()` or a custom `TrngConfig`.
//! 3. Call `trng_enable()`.
//! 4. Call `trng_read_data()`.
//! 5. Call `trng_disable()` when finished.
//!
//! Reading data gives `Err(CryptoliteErr::TrngUnhealthy)` when the adaptive
//! proportion or repetition count checks detect unhealthy entropy.
//!
//! The driver decides from the register words that the caller reads and gives the
//! register operations to perform, in order; waiting for the hardware is the
//! caller's part, by polling the interrupt register until `trng_init_done` or
//! `trng_data_ready` holds.
use vstd::prelude::*;
use crate::regs::{RegOp, reg_after, lemma_reg_after_append, lemma_reg_after_untouched};

verus! {

/// Address of the CRYPTOLITE register block.
pub const CRYPTOLITE_BASE: u32 = 0x4223_0000;
/// Address of the TRNG control register 0.
pub const TRNG_CTL0: u32 = 0x4223_0100;
/// Address of the TRNG control register 1 (ring oscillator enables).
pub const TRNG_CTL1: u32 = 0x4223_0104;
/// Address of the TRNG result register.
pub const TRNG_RESULT: u32 = 0x4223_0110;
/// Address of the TRNG GARO control register.
pub const TRNG_GARO_CTL: u32 = 0x4223_0120;
/// Address of the TRNG FIRO control register.
pub const TRNG_FIRO_CTL: u32 = 0x4223_0124;
/// Address of the TRNG monitor control register.
pub const TRNG_MON_CTL: u32 = 0x4223_0140;
/// Address of the TRNG monitor repetition count control register.
pub const TRNG_MON_RC_CTL: u32 = 0x4223_0150;
/// Address of the TRNG monitor adaptive proportion control register.
pub const TRNG_MON_AP_CTL: u32 = 0x4223_0160;
/// Address of the TRNG interrupt register; writing a one clears a cause.
pub const INTR_TRNG: u32 = 0x4223_01F0;

/// Mask of the 31-bit polynomial fields.
pub const POLY_MASK: u32 = 0x7fff_ffff;
/// Default polynomial of the programmable Galois ring oscillator.
pub const DEFAULT_GARO31_POLY: u32 = 0xb2d1_ab70;
/// Default polynomial of the programmable Fibonacci ring oscillator.
pub const DEFAULT_FIRO31_POLY: u32 = 0xe6b8_c3b3;

/// INTR_TRNG: the INITIALIZED cause (bit 0).
pub const INTR_INITIALIZED: u32 = 0x1;
/// INTR_TRNG: the DATA_AVAILABLE cause (bit 1).
pub const INTR_DATA_AVAILABLE: u32 = 0x2;
/// INTR_TRNG: the adaptive proportion detection cause (bit 2).
pub const INTR_AP_DETECT: u32 = 0x4;
/// INTR_TRNG: the repetition count detection cause (bit 3).
pub const INTR_RC_DETECT: u32 = 0x8;
/// TRNG_CTL1: the enable bits of the six ring oscillators (bits 0 to 5).
pub const TRNG_CTL1_ALL_RO: u32 = 0x3f;
/// TRNG_MON_CTL: the BITSTREAM_SEL field (bits 0 and 1).
pub const MON_CTL_BITSTREAM_SEL: u32 = 0x3;
/// TRNG_MON_CTL: the adaptive proportion test enable (bit 8).
pub const MON_CTL_AP: u32 = 0x100;
/// TRNG_MON_CTL: the repetition count test enable (bit 9).
pub const MON_CTL_RC: u32 = 0x200;

/// Errors of the CRYPTOLITE operations.
#[derive(Clone, Copy, Debug, PartialEq, Eq, Structural)]
pub enum CryptoliteErr {
    BadParams,
    HwBusy,
    BusError,
    NotSupported,
    SizeNotX16,
    AlignmentError,
    TrngNotEnabled,
    TrngUnhealthy,
    BufferNotAligned,
    HwError,
}

impl CryptoliteErr {
    /// The error's code.
    pub open spec fn spec_code(self) -> u8 {
        match self {
            CryptoliteErr::BadParams => 0x01,
            CryptoliteErr::HwBusy => 0x02,
            CryptoliteErr::BusError => 0x03,
            CryptoliteErr::NotSupported => 0x04,
            CryptoliteErr::SizeNotX16 => 0x05,
            CryptoliteErr::AlignmentError => 0x06,
            CryptoliteErr::TrngNotEnabled => 0x07,
            CryptoliteErr::TrngUnhealthy => 0x08,
            CryptoliteErr::BufferNotAligned => 0x09,
            CryptoliteErr::HwError => 0x0a,
        }
    }

    /// The error's code.
    pub fn code(&self) -> (c: u8)
        ensures
            c == self.spec_code(),
    {
        match self {
            CryptoliteErr::BadParams => 0x01,
            CryptoliteErr::HwBusy => 0x02,
            CryptoliteErr::BusError => 0x03,
            CryptoliteErr::NotSupported => 0x04,
            CryptoliteErr::SizeNotX16 => 0x05,
            CryptoliteErr::AlignmentError => 0x06,
            CryptoliteErr::TrngNotEnabled => 0x07,
            CryptoliteErr::TrngUnhealthy => 0x08,
            CryptoliteErr::BufferNotAligned => 0x09,
            CryptoliteErr::HwError => 0x0a,
        }
    }
}

/// The ring oscillators of the TRNG.
#[derive(Clone, Copy, Debug, PartialEq, Eq, Structural)]
pub enum TrngRoSelect {
    Ro11,
    Ro15,
    Garo15,
    Garo31,
    Firo15,
    Firo31,
}

impl TrngRoSelect {
    /// The oscillator's number, which is also its enable bit in TRNG_CTL1.
    pub open spec fn spec_value(self) -> u32 {
        match self {
            TrngRoSelect::Ro11 => 0,
            TrngRoSelect::Ro15 => 1,
            TrngRoSelect::Garo15 => 2,
            TrngRoSelect::Garo31 => 3,
            TrngRoSelect::Firo15 => 4,
            TrngRoSelect::Firo31 => 5,
        }
    }

    /// The oscillator's number, which is also its enable bit in TRNG_CTL1.
    pub fn value(&self) -> (v: u32)
        ensures
            v == self.spec_value(),
    {
        match self {
            TrngRoSelect::Ro11 => 0,
            TrngRoSelect::Ro15 => 1,
            TrngRoSelect::Garo15 => 2,
            TrngRoSelect::Garo31 => 3,
            TrngRoSelect::Firo15 => 4,
            TrngRoSelect::Firo31 => 5,
        }
    }
}

/// The bitstream that the TRNG monitor tests (BITSTREAM_SEL of TRNG_MON_CTL).
#[derive(Clone, Copy, Debug, PartialEq, Eq, Structural)]
pub enum TrngBitstreamSelect {
    /// The digitized analog signal.
    DAS,
    /// The reduced bits.
    RED,
    /// The true random bits.
    TR,
    /// Not a valid selection.
    UNDEFINED,
}

impl TrngBitstreamSelect {
    /// The field value of the selection.
    pub open spec fn spec_value(self) -> u32 {
        match self {
            TrngBitstreamSelect::DAS => 0,
            TrngBitstreamSelect::RED => 1,
            TrngBitstreamSelect::TR => 2,
            TrngBitstreamSelect::UNDEFINED => 3,
        }
    }

    /// The field value of the selection.
    pub fn value(&self) -> (v: u32)
        ensures
            v == self.spec_value(),
    {
        match self {
            TrngBitstreamSelect::DAS => 0,
            TrngBitstreamSelect::RED => 1,
            TrngBitstreamSelect::TR => 2,
            TrngBitstreamSelect::UNDEFINED => 3,
        }
    }
}

/// Configuration of the TRNG.
#[derive(Clone, Copy, Debug, PartialEq, Eq, Structural)]
pub struct TrngConfig {
    pub sample_clock_div: u8,
    pub reduced_clock_div: u8,
    pub init_delay: u8,
    pub vn_corrector_enable: bool,
    pub enable_ap_test: bool,
    pub enable_rc_test: bool,
    pub stop_on_ap_detect: bool,
    pub stop_on_rc_detect: bool,
    pub garo31_poly: u32,
    pub firo31_poly: u32,
    pub mon_bitstream_select: TrngBitstreamSelect,
    pub mon_cutoff_count8: u8,
    pub mon_cutoff_count16: u16,
    pub mon_window_size: u16,
}

/// The default configuration.
pub open spec fn default_trng_config() -> TrngConfig {
    TrngConfig {
        sample_clock_div: 1,
        reduced_clock_div: 3,
        init_delay: 255,
        vn_corrector_enable: true,
        enable_ap_test: true,
        enable_rc_test: true,
        stop_on_ap_detect: true,
        stop_on_rc_detect: true,
        garo31_poly: DEFAULT_GARO31_POLY,
        firo31_poly: DEFAULT_FIRO31_POLY,
        mon_bitstream_select: TrngBitstreamSelect::TR,
        mon_cutoff_count8: 255,
        mon_cutoff_count16: 255,
        mon_window_size: 255,
    }
}

impl Default for TrngConfig {
    fn default() -> (config: Self)
        ensures
            config == default_trng_config(),
    {
        Self {
            sample_clock_div: 1,
            reduced_clock_div: 3,
            init_delay: 255,
            vn_corrector_enable: true,
            enable_ap_test: true,
            enable_rc_test: true,
            stop_on_ap_detect: true,
            stop_on_rc_detect: true,
            garo31_poly: DEFAULT_GARO31_POLY,
            firo31_poly: DEFAULT_FIRO31_POLY,
            mon_bitstream_select: TrngBitstreamSelect::TR,
            mon_cutoff_count8: 255,
            mon_cutoff_count16: 255,
            mon_window_size: 255,
        }
    }
}

/// 1 for `true`, 0 for `false`.
pub open spec fn bool_bit(b: bool) -> u32 {
    if b {
        1
    } else {
        0
    }
}

/// The TRNG_CTL0 word of a configuration: SAMPLE_CLOCK_DIV (bits 0 to 7),
/// RED_CLOCK_DIV (bits 8 to 15), INIT_DELAY (bits 16 to 23), VON_NEUMANN_CORR
/// (bit 24), STOP_ON_AP_DETECT (bit 28) and STOP_ON_RC_DETECT (bit 29); the other
/// fields are zero.
pub open spec fn ctl0_word(c: TrngConfig) -> u32 {
    (c.sample_clock_div as u32) | ((c.reduced_clock_div as u32) << 8) | ((c.init_delay as u32)
        << 16) | (bool_bit(c.vn_corrector_enable) << 24) | (bool_bit(c.stop_on_ap_detect) << 28)
        | (bool_bit(c.stop_on_rc_detect) << 29)
}

/// The TRNG_MON_AP_CTL word of a configuration: CUTOFF_COUNT16 (bits 0 to 15) and
/// WINDOW_SIZE (bits 16 to 31).
pub open spec fn ap_ctl_word(c: TrngConfig) -> u32 {
    (c.mon_cutoff_count16 as u32) | ((c.mon_window_size as u32) << 16)
}

/// The write that clears the DATA_AVAILABLE and INITIALIZED causes.
pub open spec fn clear_data_and_init_op() -> RegOp {
    RegOp::Write { addr: INTR_TRNG, value: INTR_DATA_AVAILABLE | INTR_INITIALIZED }
}

/// The write that clears the health causes (adaptive proportion and repetition count).
pub open spec fn clear_health_op() -> RegOp {
    RegOp::Write { addr: INTR_TRNG, value: INTR_AP_DETECT | INTR_RC_DETECT }
}

/// The operations of `trng_init` for a configuration whose bitstream selection is
/// valid: clear the interrupt causes, program both polynomials (31 bits), the
/// control word, the monitored bitstream and the enabled tests, then the cutoff
/// counts and window size.
pub open spec fn trng_init_ops(c: TrngConfig) -> Seq<RegOp> {
    seq![
        clear_data_and_init_op(),
        clear_health_op(),
        RegOp::Write { addr: TRNG_GARO_CTL, value: c.garo31_poly & POLY_MASK },
        RegOp::Write { addr: TRNG_FIRO_CTL, value: c.firo31_poly & POLY_MASK },
        RegOp::Write { addr: TRNG_CTL0, value: ctl0_word(c) },
        RegOp::Modify {
            addr: TRNG_MON_CTL,
            mask: MON_CTL_BITSTREAM_SEL,
            value: c.mon_bitstream_select.spec_value(),
        },
    ] + (if c.enable_ap_test {
        seq![RegOp::Modify { addr: TRNG_MON_CTL, mask: MON_CTL_AP, value: MON_CTL_AP }]
    } else {
        Seq::empty()
    }) + (if c.enable_rc_test {
        seq![RegOp::Modify { addr: TRNG_MON_CTL, mask: MON_CTL_RC, value: MON_CTL_RC }]
    } else {
        Seq::empty()
    }) + seq![
        RegOp::Write { addr: TRNG_MON_RC_CTL, value: c.mon_cutoff_count8 as u32 },
        RegOp::Write { addr: TRNG_MON_AP_CTL, value: ap_ctl_word(c) },
    ]
}

/// The operations of `trng_deinit`: the control word back to its reset value
/// (INIT_DELAY 3), all oscillators off, polynomials, cutoff counts and window size
/// zero, the true random bitstream monitored, and all interrupt causes cleared.
pub open spec fn trng_deinit_ops() -> Seq<RegOp> {
    seq![
        RegOp::Write { addr: TRNG_CTL0, value: 3u32 << 16 },
        RegOp::Write { addr: TRNG_CTL1, value: 0 },
        RegOp::Write { addr: TRNG_GARO_CTL, value: 0 },
        RegOp::Write { addr: TRNG_FIRO_CTL, value: 0 },
        RegOp::Write { addr: TRNG_MON_CTL, value: TrngBitstreamSelect::TR.spec_value() },
        RegOp::Write { addr: TRNG_MON_RC_CTL, value: 0 },
        RegOp::Write { addr: TRNG_MON_AP_CTL, value: 0 },
        clear_data_and_init_op(),
        clear_health_op(),
    ]
}

/// Whether a TRNG_CTL1 word has any ring oscillator enabled.
pub open spec fn ctl1_enabled(trng_ctl1: u32) -> bool {
    trng_ctl1 & TRNG_CTL1_ALL_RO != 0
}

/// Whether a TRNG_CTL1 word has all six ring oscillators enabled.
pub open spec fn ctl1_all_enabled(trng_ctl1: u32) -> bool {
    trng_ctl1 & TRNG_CTL1_ALL_RO == TRNG_CTL1_ALL_RO
}

/// The operations of `trng_enable` given the TRNG_CTL1 word: none if all six
/// oscillators are enabled; otherwise clear the data and initialization causes and
/// enable all six.
pub open spec fn trng_enable_ops(trng_ctl1: u32) -> Seq<RegOp> {
    if ctl1_all_enabled(trng_ctl1) {
        Seq::empty()
    } else {
        seq![clear_data_and_init_op(), RegOp::Write { addr: TRNG_CTL1, value: TRNG_CTL1_ALL_RO }]
    }
}

/// The operations of `trng_disable` given the TRNG_CTL1 word: if an oscillator is
/// enabled, clear the data and initialization causes and disable all six;
/// otherwise none.
pub open spec fn trng_disable_ops(trng_ctl1: u32) -> Seq<RegOp> {
    if ctl1_enabled(trng_ctl1) {
        seq![clear_data_and_init_op(), RegOp::Write { addr: TRNG_CTL1, value: 0 }]
    } else {
        Seq::empty()
    }
}

/// The health status of an INTR_TRNG word: bit 0 is the adaptive proportion
/// detection, bit 1 the repetition count detection.
pub open spec fn health_status(intr: u32) -> u8 {
    (if intr & INTR_AP_DETECT != 0 { 1u8 } else { 0u8 }) | (if intr & INTR_RC_DETECT != 0 {
        2u8
    } else {
        0u8
    })
}

/// Byte `k` (0 to 3, least significant first) of a word.
pub open spec fn le_byte(word: u32, k: int) -> u8 {
    ((word >> (8 * k) as u32) & 0xff) as u8
}

/// The bytes that filling a buffer of `len` bytes writes from the words read: byte
/// `i` is byte `i % 4` of word `i / 4`.
pub open spec fn fill_bytes(words: Seq<u32>, len: nat) -> Seq<u8> {
    Seq::new(len, |i: int| le_byte(words[i / 4], i % 4))
}

/// The buffer after storing a value from position `offset` (see `trng_fill_step`).
pub open spec fn fill_step_spec(d: Seq<u8>, offset: int, word: u32) -> Seq<u8> {
    Seq::new(
        d.len(),
        |i: int| if offset <= i < offset + 4 { le_byte(word, i - offset) } else { d[i] },
    )
}

/// The buffer after storing the values `words[j]`, `words[j + 1]`, ... from
/// position `4 * j` on, until the values or the buffer run out.
pub open spec fn fill_run(d: Seq<u8>, words: Seq<u32>, j: nat) -> Seq<u8>
    decreases words.len() - j,
{
    if j >= words.len() || 4 * j >= d.len() {
        d
    } else {
        fill_run(fill_step_spec(d, (4 * j) as int, words[j as int]), words, j + 1)
    }
}

/// The CRYPTOLITE peripheral, whose registers sit at `CRYPTOLITE_BASE`.
pub struct Cryptolite {}

impl Cryptolite {
    /// The CRYPTOLITE peripheral.
    pub fn new() -> (c: Self) {
        Self {}
    }

    /// The write that clears the health causes of the monitor.
    pub fn trng_mon_clear_health_status(&self) -> (op: RegOp)
        ensures
            op == clear_health_op(),
    {
        RegOp::Write { addr: INTR_TRNG, value: INTR_AP_DETECT | INTR_RC_DETECT }
    }

    /// Whether the TRNG has finished its initialization, from an INTR_TRNG word:
    /// the INITIALIZED cause is set. After enabling the oscillators the caller polls
    /// the interrupt register until this holds.
    pub fn trng_init_done(&self, intr: u32) -> (r: bool)
        ensures
            r == (intr & INTR_INITIALIZED != 0),
    {
        intr & INTR_INITIALIZED != 0
    }

    /// Whether a random number generation is over, from an INTR_TRNG word: data is
    /// available, or a health test has detected an error. Before reading the result
    /// the caller polls the interrupt register until this holds.
    pub fn trng_data_ready(&self, intr: u32) -> (r: bool)
        ensures
            r == (intr & INTR_DATA_AVAILABLE != 0 || intr & INTR_AP_DETECT != 0 || intr
                & INTR_RC_DETECT != 0),
    {
        intr & INTR_DATA_AVAILABLE != 0 || intr & INTR_AP_DETECT != 0 || intr & INTR_RC_DETECT != 0
    }

    /// The health status of the monitor, from an INTR_TRNG word (see `health_status`).
    pub fn trng_mon_get_health_status(&self, intr: u32) -> (s: u8)
        ensures
            s == health_status(intr),
            s == 0 <==> intr & (INTR_AP_DETECT | INTR_RC_DETECT) == 0,
    {
        let ap: u8 = if intr & INTR_AP_DETECT != 0 { 1 } else { 0 };
        let rc: u8 = if intr & INTR_RC_DETECT != 0 { 1 } else { 0 };
        assert(((intr & 4u32 != 0) || (intr & 8u32 != 0)) <==> intr & (4u32 | 8u32) != 0)
            by (bit_vector);
        assert((ap | (rc << 1u8)) == (if ap == 1 { 1u8 } else { 0u8 }) | (if rc == 1 { 2u8 } else { 0u8 }))
            by (bit_vector)
            requires
                ap == 0 || ap == 1,
                rc == 0 || rc == 1,
        ;
        assert(((if ap == 1 { 1u8 } else { 0u8 }) | (if rc == 1 { 2u8 } else { 0u8 })) == 0 <==> (ap == 0 && rc == 0))
            by (bit_vector)
            requires
                ap == 0 || ap == 1,
                rc == 0 || rc == 1,
        ;
        ap | (rc << 1)
    }

    /// Select the bitstream that the monitor tests: the modification of the
    /// BITSTREAM_SEL field; `UNDEFINED` is refused.
    pub fn trng_mon_set_bitstream_selector(&self, bitstream_selector: TrngBitstreamSelect) -> (r:
        Result<RegOp, CryptoliteErr>)
        ensures
            bitstream_selector == TrngBitstreamSelect::UNDEFINED ==> r == Err::<
                RegOp,
                CryptoliteErr,
            >(CryptoliteErr::BadParams),
            bitstream_selector != TrngBitstreamSelect::UNDEFINED ==> r == Ok::<
                RegOp,
                CryptoliteErr,
            >(
                RegOp::Modify {
                    addr: TRNG_MON_CTL,
                    mask: MON_CTL_BITSTREAM_SEL,
                    value: bitstream_selector.spec_value(),
                },
            ),
    {
        if bitstream_selector == TrngBitstreamSelect::UNDEFINED {
            return Err(CryptoliteErr::BadParams);
        }
        Ok(
            RegOp::Modify {
                addr: TRNG_MON_CTL,
                mask: MON_CTL_BITSTREAM_SEL,
                value: bitstream_selector.value(),
            },
        )
    }

    /// Enable the adaptive proportion test: the modification that sets its bit.
    pub fn trng_mon_enable_ap_test(&self) -> (op: RegOp)
        ensures
            op == (RegOp::Modify { addr: TRNG_MON_CTL, mask: MON_CTL_AP, value: MON_CTL_AP }),
    {
        RegOp::Modify { addr: TRNG_MON_CTL, mask: MON_CTL_AP, value: MON_CTL_AP }
    }

    /// Enable the repetition count test: the modification that sets its bit.
    pub fn trng_mon_enable_rc_test(&self) -> (op: RegOp)
        ensures
            op == (RegOp::Modify { addr: TRNG_MON_CTL, mask: MON_CTL_RC, value: MON_CTL_RC }),
    {
        RegOp::Modify { addr: TRNG_MON_CTL, mask: MON_CTL_RC, value: MON_CTL_RC }
    }
}

impl Cryptolite {
    /// Configure TRNG control and monitor registers: the operations of
    /// `trng_init_ops`, in order; a configuration that selects the `UNDEFINED`
    /// bitstream is refused before any operation.
    pub fn trng_init(&self, config: &TrngConfig) -> (r: Result<Vec<RegOp>, CryptoliteErr>)
        ensures
            config.mon_bitstream_select == TrngBitstreamSelect::UNDEFINED ==> (r matches Err(e) && e
                == CryptoliteErr::BadParams),
            config.mon_bitstream_select != TrngBitstreamSelect::UNDEFINED ==> (r matches Ok(ops)
                && ops@ == trng_init_ops(*config)),
    {
        if config.mon_bitstream_select == TrngBitstreamSelect::UNDEFINED {
            return Err(CryptoliteErr::BadParams);
        }
        let mut ops: Vec<RegOp> = Vec::new();
        ops.push(RegOp::Write { addr: INTR_TRNG, value: INTR_DATA_AVAILABLE | INTR_INITIALIZED });
        ops.push(self.trng_mon_clear_health_status());
        ops.push(RegOp::Write { addr: TRNG_GARO_CTL, value: config.garo31_poly & POLY_MASK });
        ops.push(RegOp::Write { addr: TRNG_FIRO_CTL, value: config.firo31_poly & POLY_MASK });
        let vn: u32 = if config.vn_corrector_enable { 1 } else { 0 };
        let stop_ap: u32 = if config.stop_on_ap_detect { 1 } else { 0 };
        let stop_rc: u32 = if config.stop_on_rc_detect { 1 } else { 0 };
        let ctl0 = (config.sample_clock_div as u32) | ((config.reduced_clock_div as u32) << 8) | ((
        config.init_delay as u32) << 16) | (vn << 24) | (stop_ap << 28) | (stop_rc << 29);
        ops.push(RegOp::Write { addr: TRNG_CTL0, value: ctl0 });
        match self.trng_mon_set_bitstream_selector(config.mon_bitstream_select) {
            Ok(op) => ops.push(op),
            Err(e) => {
                return Err(e);
            },
        }
        let ghost first = ops@;
        if config.enable_ap_test {
            ops.push(self.trng_mon_enable_ap_test());
        }
        let ghost second = ops@;
        if config.enable_rc_test {
            ops.push(self.trng_mon_enable_rc_test());
        }
        let ghost third = ops@;
        ops.push(RegOp::Write { addr: TRNG_MON_RC_CTL, value: config.mon_cutoff_count8 as u32 });
        ops.push(
            RegOp::Write {
                addr: TRNG_MON_AP_CTL,
                value: (config.mon_cutoff_count16 as u32) | ((config.mon_window_size as u32) << 16),
            },
        );
        proof {
            let c = *config;
            assert(first =~= seq![
                clear_data_and_init_op(),
                clear_health_op(),
                RegOp::Write { addr: TRNG_GARO_CTL, value: c.garo31_poly & POLY_MASK },
                RegOp::Write { addr: TRNG_FIRO_CTL, value: c.firo31_poly & POLY_MASK },
                RegOp::Write { addr: TRNG_CTL0, value: ctl0_word(c) },
                RegOp::Modify {
                    addr: TRNG_MON_CTL,
                    mask: MON_CTL_BITSTREAM_SEL,
                    value: c.mon_bitstream_select.spec_value(),
                },
            ]);
            assert(ops@ =~= trng_init_ops(c));
        }
        Ok(ops)
    }

    /// Return the TRNG to its reset configuration: the operations of
    /// `trng_deinit_ops`, in order.
    pub fn trng_deinit(&self) -> (ops: Vec<RegOp>)
        ensures
            ops@ == trng_deinit_ops(),
    {
        let mut ops: Vec<RegOp> = Vec::new();
        ops.push(RegOp::Write { addr: TRNG_CTL0, value: 3u32 << 16 });
        ops.push(RegOp::Write { addr: TRNG_CTL1, value: 0 });
        ops.push(RegOp::Write { addr: TRNG_GARO_CTL, value: 0 });
        ops.push(RegOp::Write { addr: TRNG_FIRO_CTL, value: 0 });
        ops.push(RegOp::Write { addr: TRNG_MON_CTL, value: TrngBitstreamSelect::TR.value() });
        ops.push(RegOp::Write { addr: TRNG_MON_RC_CTL, value: 0 });
        ops.push(RegOp::Write { addr: TRNG_MON_AP_CTL, value: 0 });
        ops.push(RegOp::Write { addr: INTR_TRNG, value: INTR_DATA_AVAILABLE | INTR_INITIALIZED });
        ops.push(self.trng_mon_clear_health_status());
        assert(ops@ =~= trng_deinit_ops());
        ops
    }

    /// Whether the TRNG is enabled, from the TRNG_CTL1 word: any of the six ring
    /// oscillators is enabled.
    pub fn trng_is_enabled(&self, trng_ctl1: u32) -> (r: bool)
        ensures
            r == ctl1_enabled(trng_ctl1),
    {
        trng_ctl1 & TRNG_CTL1_ALL_RO != 0
    }

    /// Enable all TRNG ring oscillators, given the TRNG_CTL1 word: nothing to do if
    /// all six are enabled already; otherwise clear the data and initialization
    /// causes and enable all six, after which the caller waits for the
    /// initialization (`trng_init_done`).
    pub fn trng_enable(&self, trng_ctl1: u32) -> (r: Result<Vec<RegOp>, CryptoliteErr>)
        ensures
            r matches Ok(ops) && ops@ == trng_enable_ops(trng_ctl1),
    {
        let mut ops: Vec<RegOp> = Vec::new();
        if trng_ctl1 & TRNG_CTL1_ALL_RO == TRNG_CTL1_ALL_RO {
            return Ok(ops);
        }
        ops.push(RegOp::Write { addr: INTR_TRNG, value: INTR_DATA_AVAILABLE | INTR_INITIALIZED });
        ops.push(RegOp::Write { addr: TRNG_CTL1, value: TRNG_CTL1_ALL_RO });
        assert(ops@ =~= trng_enable_ops(trng_ctl1));
        Ok(ops)
    }

    /// Disable all TRNG ring oscillators, given the TRNG_CTL1 word: if one is
    /// enabled, clear the data and initialization causes and disable all six;
    /// otherwise nothing to do.
    pub fn trng_disable(&self, trng_ctl1: u32) -> (r: Result<Vec<RegOp>, CryptoliteErr>)
        ensures
            r matches Ok(ops) && ops@ == trng_disable_ops(trng_ctl1),
    {
        let mut ops: Vec<RegOp> = Vec::new();
        if self.trng_is_enabled(trng_ctl1) {
            ops.push(RegOp::Write { addr: INTR_TRNG, value: INTR_DATA_AVAILABLE | INTR_INITIALIZED });
            ops.push(RegOp::Write { addr: TRNG_CTL1, value: 0 });
        }
        assert(ops@ =~= trng_disable_ops(trng_ctl1));
        Ok(ops)
    }

    /// Read one 32-bit random value, first step, given the TRNG_CTL1 word: fails
    /// with `TrngNotEnabled` if the TRNG is disabled. On success the caller waits
    /// for the generation (`trng_data_ready`), reads TRNG_RESULT and then INTR_TRNG,
    /// and gets the value from `trng_read_result`.
    pub fn trng_read_data(&self, trng_ctl1: u32) -> (r: Result<(), CryptoliteErr>)
        ensures
            ctl1_enabled(trng_ctl1) ==> r is Ok,
            !ctl1_enabled(trng_ctl1) ==> r == Err::<(), CryptoliteErr>(CryptoliteErr::TrngNotEnabled),
    {
        if !self.trng_is_enabled(trng_ctl1) {
            return Err(CryptoliteErr::TrngNotEnabled);
        }
        Ok(())
    }

    /// Read one 32-bit random value, last step: the word read from TRNG_RESULT,
    /// unless the INTR_TRNG word read after it reports a health test detection, in
    /// which case `TrngUnhealthy`.
    pub fn trng_read_result(&self, result: u32, intr: u32) -> (r: Result<u32, CryptoliteErr>)
        ensures
            health_status(intr) == 0 ==> r == Ok::<u32, CryptoliteErr>(result),
            health_status(intr) != 0 ==> r == Err::<u32, CryptoliteErr>(CryptoliteErr::TrngUnhealthy),
    {
        if self.trng_mon_get_health_status(intr) != 0 {
            Err(CryptoliteErr::TrngUnhealthy)
        } else {
            Ok(result)
        }
    }

    /// Fill a buffer with random bytes, first step, given the TRNG_CTL1 word: fails
    /// with `TrngNotEnabled` if the TRNG is disabled. On success the caller reads
    /// random values (`trng_read_data`) while the buffer is not full, stopping at
    /// the first error, and stores each by `trng_fill_step`.
    pub fn trng_try_fill_bytes(&self, trng_ctl1: u32) -> (r: Result<(), CryptoliteErr>)
        ensures
            ctl1_enabled(trng_ctl1) ==> r is Ok,
            !ctl1_enabled(trng_ctl1) ==> r == Err::<(), CryptoliteErr>(CryptoliteErr::TrngNotEnabled),
    {
        if !self.trng_is_enabled(trng_ctl1) {
            return Err(CryptoliteErr::TrngNotEnabled);
        }
        Ok(())
    }

    /// Store a random value into a buffer being filled from position `offset`: its
    /// bytes, least significant first, as many as fit; the result is the next
    /// position.
    pub fn trng_fill_step(&self, dest: &mut [u8], offset: usize, word: u32) -> (next: usize)
        requires
            offset < old(dest)@.len(),
        ensures
            next == if offset + 4 <= old(dest)@.len() { offset + 4 } else { old(dest)@.len() as int },
            final(dest)@.len() == old(dest)@.len(),
            forall|i: int| 0 <= i < offset ==> final(dest)@[i] == old(dest)@[i],
            forall|i: int| offset <= i < next ==> final(dest)@[i] == le_byte(word, i - offset),
            forall|i: int| next <= i < final(dest)@.len() ==> final(dest)@[i] == old(dest)@[i],
            final(dest)@ == fill_step_spec(old(dest)@, offset as int, word),
    {
        let remaining = dest.len() - offset;
        let take = if remaining < 4 { remaining } else { 4 };
        let mut k: usize = 0;
        while k < take
            invariant
                take <= 4,
                offset + take <= dest@.len(),
                dest@.len() <= usize::MAX,
                k <= take,
                dest@.len() == old(dest)@.len(),
                forall|i: int| 0 <= i < offset ==> dest@[i] == old(dest)@[i],
                forall|i: int| offset <= i < offset + k ==> dest@[i] == le_byte(word, i - offset),
                forall|i: int| offset + k <= i < dest@.len() ==> dest@[i] == old(dest)@[i],
            decreases take - k,
        {
            let shift = (8 * k) as u32;
            assert((word >> shift) & 0xff < 256) by (bit_vector);
            let byte = ((word >> shift) & 0xff) as u8;
            dest[offset + k] = byte;
            k = k + 1;
        }
        assert(dest@ =~= fill_step_spec(old(dest)@, offset as int, word));
        offset + take
    }
}

/// Storing values one after the other from position `4 * j` writes byte `i % 4` of
/// value `i / 4` at each position `i` from `4 * j` up to the end of the values or
/// of the buffer, and leaves the other positions as they were.
pub proof fn lemma_fill_run(d: Seq<u8>, words: Seq<u32>, j: nat)
    ensures
        fill_run(d, words, j).len() == d.len(),
        forall|i: int|
            0 <= i < d.len() ==> #[trigger] fill_run(d, words, j)[i] == if 4 * j <= i < 4
                * words.len() {
                le_byte(words[i / 4], i % 4)
            } else {
                d[i]
            },
    decreases words.len() - j,
{
    if j >= words.len() || 4 * j >= d.len() {
    } else {
        let d1 = fill_step_spec(d, (4 * j) as int, words[j as int]);
        lemma_fill_run(d1, words, j + 1);
        assert forall|i: int| 0 <= i < d.len() implies #[trigger] fill_run(d, words, j)[i] == if 4
            * j <= i < 4 * words.len() {
            le_byte(words[i / 4], i % 4)
        } else {
            d[i]
        } by {
            if 4 * j <= i < 4 * j + 4 {
                assert(i / 4 == j);
                assert(i % 4 == i - 4 * j);
            }
        }
    }
}

/// Filling a buffer stores the random values' bytes in order, least significant
/// first: once a value has been stored for every four bytes, byte `i` of the buffer
/// is byte `i % 4` of value `i / 4`, whatever the buffer held before. A fill that
/// stops early at an error leaves the bytes past the stored values as they were.
pub proof fn lemma_fill_bytes(d: Seq<u8>, words: Seq<u32>)
    ensures
        4 * words.len() >= d.len() ==> fill_run(d, words, 0) == fill_bytes(words, d.len()),
        forall|i: int|
            4 * words.len() <= i < d.len() ==> #[trigger] fill_run(d, words, 0)[i] == d[i],
{
    lemma_fill_run(d, words, 0);
    if 4 * words.len() >= d.len() {
        assert(fill_run(d, words, 0) =~= fill_bytes(words, d.len()));
    }
}

/// Enabling, disabling and deinitializing the TRNG leave TRNG_CTL1 as their names
/// say: after enabling, all six ring oscillators are enabled (each one's bit is
/// set), whatever the word was before; after disabling or deinitializing, none is.
pub proof fn lemma_enable_disable(trng_ctl1: u32, ro: TrngRoSelect)
    ensures
        ctl1_all_enabled(reg_after(trng_enable_ops(trng_ctl1), TRNG_CTL1, trng_ctl1)),
        ctl1_enabled(reg_after(trng_enable_ops(trng_ctl1), TRNG_CTL1, trng_ctl1)),
        reg_after(trng_enable_ops(trng_ctl1), TRNG_CTL1, trng_ctl1) & (1u32 << ro.spec_value())
            != 0,
        !ctl1_enabled(reg_after(trng_disable_ops(trng_ctl1), TRNG_CTL1, trng_ctl1)),
        !ctl1_enabled(reg_after(trng_deinit_ops(), TRNG_CTL1, trng_ctl1)),
{
    let b = ro.spec_value();
    assert(b < 6);
    let on = reg_after(trng_enable_ops(trng_ctl1), TRNG_CTL1, trng_ctl1);
    let ops = trng_enable_ops(trng_ctl1);
    if !ctl1_all_enabled(trng_ctl1) {
        assert(ops.drop_last().drop_last() =~= Seq::<RegOp>::empty());
        assert(on == 0x3f);
    } else {
        assert(on == trng_ctl1);
    }
    assert(0x3fu32 & 0x3f == 0x3f) by (bit_vector);
    assert(on & 0x3f == 0x3f ==> on & 0x3f != 0 && on & (1u32 << b) != 0) by (bit_vector)
        requires
            b < 6,
    ;
    let dops = trng_disable_ops(trng_ctl1);
    if ctl1_enabled(trng_ctl1) {
        assert(dops.drop_last().drop_last() =~= Seq::<RegOp>::empty());
        assert(reg_after(dops, TRNG_CTL1, trng_ctl1) == 0);
    }
    assert(0u32 & 0x3f == 0) by (bit_vector);
    let de = trng_deinit_ops();
    let first = de.subrange(0, 2);
    let rest = de.subrange(2, 9);
    assert(de =~= first + rest);
    lemma_reg_after_append(first, rest, TRNG_CTL1, trng_ctl1);
    assert(first.drop_last().drop_last() =~= Seq::<RegOp>::empty());
    assert(first.drop_last() =~= seq![first[0]]);
    assert(reg_after(first, TRNG_CTL1, trng_ctl1) == 0);
    lemma_reg_after_untouched(rest, TRNG_CTL1, 0);
}

/// Configuring the TRNG leaves the oscillator enables alone, so that after a
/// configuration and an enable, reading data does not fail with `TrngNotEnabled`:
/// the TRNG_CTL1 word it reads makes the TRNG enabled.
pub proof fn lemma_init_enable_read(config: TrngConfig, trng_ctl1: u32)
    ensures
        reg_after(trng_init_ops(config), TRNG_CTL1, trng_ctl1) == trng_ctl1,
        ctl1_enabled(
            reg_after(
                trng_enable_ops(reg_after(trng_init_ops(config), TRNG_CTL1, trng_ctl1)),
                TRNG_CTL1,
                reg_after(trng_init_ops(config), TRNG_CTL1, trng_ctl1),
            ),
        ),
{
    let ops = trng_init_ops(config);
    assert forall|i: int| 0 <= i < ops.len() implies (#[trigger] ops[i]).addr_of() != TRNG_CTL1 by {
        let head = seq![
            clear_data_and_init_op(),
            clear_health_op(),
            RegOp::Write { addr: TRNG_GARO_CTL, value: config.garo31_poly & POLY_MASK },
            RegOp::Write { addr: TRNG_FIRO_CTL, value: config.firo31_poly & POLY_MASK },
            RegOp::Write { addr: TRNG_CTL0, value: ctl0_word(config) },
            RegOp::Modify {
                addr: TRNG_MON_CTL,
                mask: MON_CTL_BITSTREAM_SEL,
                value: config.mon_bitstream_select.spec_value(),
            },
        ];
        let ap: Seq<RegOp> = if config.enable_ap_test {
            seq![RegOp::Modify { addr: TRNG_MON_CTL, mask: MON_CTL_AP, value: MON_CTL_AP }]
        } else {
            Seq::empty()
        };
        let rc: Seq<RegOp> = if config.enable_rc_test {
            seq![RegOp::Modify { addr: TRNG_MON_CTL, mask: MON_CTL_RC, value: MON_CTL_RC }]
        } else {
            Seq::empty()
        };
        let tail = seq![
            RegOp::Write { addr: TRNG_MON_RC_CTL, value: config.mon_cutoff_count8 as u32 },
            RegOp::Write { addr: TRNG_MON_AP_CTL, value: ap_ctl_word(config) },
        ];
        assert(ops == head + ap + rc + tail);
        if i < 6 {
            assert(ops[i] == head[i]);
        } else if i < 6 + ap.len() {
            assert(ops[i] == ap[i - 6]);
        } else if i < 6 + ap.len() + rc.len() {
            assert(ops[i] == rc[i - 6 - ap.len()]);
        } else {
            assert(ops[i] == tail[i - 6 - ap.len() - rc.len()]);
        }
    }
    lemma_reg_after_untouched(ops, TRNG_CTL1, trng_ctl1);
    lemma_enable_disable(trng_ctl1, TrngRoSelect::Ro11);
}

/// Each setting of a configuration lands in its own field of the control word and
/// of the adaptive proportion control word, and the feedback enable (bit 25) is
/// left clear.
pub proof fn lemma_init_fields(c: TrngConfig)
    ensures
        ctl0_word(c) & 0xff == c.sample_clock_div as u32,
        (ctl0_word(c) >> 8) & 0xff == c.reduced_clock_div as u32,
        (ctl0_word(c) >> 16) & 0xff == c.init_delay as u32,
        ((ctl0_word(c) >> 24) & 1 == 1) == c.vn_corrector_enable,
        (ctl0_word(c) >> 25) & 1 == 0,
        ((ctl0_word(c) >> 28) & 1 == 1) == c.stop_on_ap_detect,
        ((ctl0_word(c) >> 29) & 1 == 1) == c.stop_on_rc_detect,
        ap_ctl_word(c) & 0xffff == c.mon_cutoff_count16 as u32,
        ap_ctl_word(c) >> 16 == c.mon_window_size as u32,
{
    let s = c.sample_clock_div as u32;
    let r = c.reduced_clock_div as u32;
    let d = c.init_delay as u32;
    let vn = bool_bit(c.vn_corrector_enable);
    let ap = bool_bit(c.stop_on_ap_detect);
    let rc = bool_bit(c.stop_on_rc_detect);
    let w = ctl0_word(c);
    assert(w == s | (r << 8) | (d << 16) | (vn << 24) | (ap << 28) | (rc << 29));
    assert({
        let w = s | (r << 8) | (d << 16) | (vn << 24) | (ap << 28) | (rc << 29);
        &&& w & 0xff == s
        &&& (w >> 8) & 0xff == r
        &&& (w >> 16) & 0xff == d
        &&& (w >> 24) & 1 == vn
        &&& (w >> 25) & 1 == 0
        &&& (w >> 28) & 1 == ap
        &&& (w >> 29) & 1 == rc
    }) by (bit_vector)
        requires
            s < 256,
            r < 256,
            d < 256,
            vn < 2,
            ap < 2,
            rc < 2,
    ;
    let lo = c.mon_cutoff_count16 as u32;
    let hi = c.mon_window_size as u32;
    assert((lo | (hi << 16)) & 0xffff == lo && (lo | (hi << 16)) >> 16 == hi) by (bit_vector)
        requires
            lo < 0x10000,
            hi < 0x10000,
    ;
}

/// The operations of `trng_init`, split as `trng_init_ops` builds them.
proof fn lemma_init_ops_parts(c: TrngConfig, addr: u32, old: u32)
    ensures
        ({
            let head = trng_init_ops(c).subrange(0, 6);
            let ap: Seq<RegOp> = if c.enable_ap_test {
                seq![RegOp::Modify { addr: TRNG_MON_CTL, mask: MON_CTL_AP, value: MON_CTL_AP }]
            } else {
                Seq::empty()
            };
            let rc: Seq<RegOp> = if c.enable_rc_test {
                seq![RegOp::Modify { addr: TRNG_MON_CTL, mask: MON_CTL_RC, value: MON_CTL_RC }]
            } else {
                Seq::empty()
            };
            let tail = seq![
                RegOp::Write { addr: TRNG_MON_RC_CTL, value: c.mon_cutoff_count8 as u32 },
                RegOp::Write { addr: TRNG_MON_AP_CTL, value: ap_ctl_word(c) },
            ];
            &&& head == seq![
                clear_data_and_init_op(),
                clear_health_op(),
                RegOp::Write { addr: TRNG_GARO_CTL, value: c.garo31_poly & POLY_MASK },
                RegOp::Write { addr: TRNG_FIRO_CTL, value: c.firo31_poly & POLY_MASK },
                RegOp::Write { addr: TRNG_CTL0, value: ctl0_word(c) },
                RegOp::Modify {
                    addr: TRNG_MON_CTL,
                    mask: MON_CTL_BITSTREAM_SEL,
                    value: c.mon_bitstream_select.spec_value(),
                },
            ]
            &&& reg_after(trng_init_ops(c), addr, old) == reg_after(
                tail,
                addr,
                reg_after(rc, addr, reg_after(ap, addr, reg_after(head, addr, old))),
            )
        }),
{
    let ops = trng_init_ops(c);
    let head = ops.subrange(0, 6);
    let ap: Seq<RegOp> = if c.enable_ap_test {
        seq![RegOp::Modify { addr: TRNG_MON_CTL, mask: MON_CTL_AP, value: MON_CTL_AP }]
    } else {
        Seq::empty()
    };
    let rc: Seq<RegOp> = if c.enable_rc_test {
        seq![RegOp::Modify { addr: TRNG_MON_CTL, mask: MON_CTL_RC, value: MON_CTL_RC }]
    } else {
        Seq::empty()
    };
    let tail = seq![
        RegOp::Write { addr: TRNG_MON_RC_CTL, value: c.mon_cutoff_count8 as u32 },
        RegOp::Write { addr: TRNG_MON_AP_CTL, value: ap_ctl_word(c) },
    ];
    let h = seq![
        clear_data_and_init_op(),
        clear_health_op(),
        RegOp::Write { addr: TRNG_GARO_CTL, value: c.garo31_poly & POLY_MASK },
        RegOp::Write { addr: TRNG_FIRO_CTL, value: c.firo31_poly & POLY_MASK },
        RegOp::Write { addr: TRNG_CTL0, value: ctl0_word(c) },
        RegOp::Modify {
            addr: TRNG_MON_CTL,
            mask: MON_CTL_BITSTREAM_SEL,
            value: c.mon_bitstream_select.spec_value(),
        },
    ];
    assert(ops == h + ap + rc + tail);
    assert(head =~= h);
    lemma_reg_after_append(h + ap + rc, tail, addr, old);
    lemma_reg_after_append(h + ap, rc, addr, old);
    lemma_reg_after_append(h, ap, addr, old);
}

/// What configuring the TRNG leaves in its configuration registers, whatever they
/// held before: both polynomials, cut to their 31 bits; each setting in its field
/// of the control word, with the feedback enable clear; the monitored bitstream,
/// with the adaptive proportion test enabled when requested and the repetition
/// count test enabled when requested (either stays as it was otherwise), and the
/// other monitor control bits kept; the repetition count cutoff; the adaptive
/// proportion cutoff and window size. The oscillator enables are left alone.
pub proof fn lemma_init_registers(c: TrngConfig, old: u32)
    requires
        c.mon_bitstream_select != TrngBitstreamSelect::UNDEFINED,
    ensures
        reg_after(trng_init_ops(c), TRNG_GARO_CTL, old) == c.garo31_poly % 0x8000_0000,
        reg_after(trng_init_ops(c), TRNG_FIRO_CTL, old) == c.firo31_poly % 0x8000_0000,
        ({
            let w = reg_after(trng_init_ops(c), TRNG_CTL0, old);
            &&& w % 256 == c.sample_clock_div
            &&& (w / 256) % 256 == c.reduced_clock_div
            &&& (w / 0x1_0000) % 256 == c.init_delay
            &&& ((w / 0x100_0000) % 2 == 1) == c.vn_corrector_enable
            &&& (w / 0x200_0000) % 2 == 0
            &&& ((w / 0x1000_0000) % 2 == 1) == c.stop_on_ap_detect
            &&& ((w / 0x2000_0000) % 2 == 1) == c.stop_on_rc_detect
        }),
        ({
            let m = reg_after(trng_init_ops(c), TRNG_MON_CTL, old);
            &&& m % 4 == c.mon_bitstream_select.spec_value()
            &&& ((m / 0x100) % 2 == 1) == (c.enable_ap_test || (old / 0x100) % 2 == 1)
            &&& ((m / 0x200) % 2 == 1) == (c.enable_rc_test || (old / 0x200) % 2 == 1)
            &&& m & !0x303u32 == old & !0x303u32
        }),
        reg_after(trng_init_ops(c), TRNG_MON_RC_CTL, old) == c.mon_cutoff_count8,
        reg_after(trng_init_ops(c), TRNG_MON_AP_CTL, old) % 0x1_0000 == c.mon_cutoff_count16,
        reg_after(trng_init_ops(c), TRNG_MON_AP_CTL, old) / 0x1_0000 == c.mon_window_size,
        reg_after(trng_init_ops(c), TRNG_CTL1, old) == old,
{
    reveal_with_fuel(reg_after, 7);
    let ap: Seq<RegOp> = if c.enable_ap_test {
        seq![RegOp::Modify { addr: TRNG_MON_CTL, mask: MON_CTL_AP, value: MON_CTL_AP }]
    } else {
        Seq::empty()
    };
    let rc: Seq<RegOp> = if c.enable_rc_test {
        seq![RegOp::Modify { addr: TRNG_MON_CTL, mask: MON_CTL_RC, value: MON_CTL_RC }]
    } else {
        Seq::empty()
    };
    let tail = seq![
        RegOp::Write { addr: TRNG_MON_RC_CTL, value: c.mon_cutoff_count8 as u32 },
        RegOp::Write { addr: TRNG_MON_AP_CTL, value: ap_ctl_word(c) },
    ];
    let head = trng_init_ops(c).subrange(0, 6);
    assert(ap.len() == 1 ==> ap.drop_last() =~= Seq::<RegOp>::empty());
    assert(rc.len() == 1 ==> rc.drop_last() =~= Seq::<RegOp>::empty());
    assert(tail.drop_last() =~= seq![tail[0]]);
    assert(tail.drop_last().drop_last() =~= Seq::<RegOp>::empty());

    // the polynomials
    lemma_init_ops_parts(c, TRNG_GARO_CTL, old);
    lemma_init_ops_parts(c, TRNG_FIRO_CTL, old);
    assert(head.drop_last() =~= head.subrange(0, 5));
    assert(head.subrange(0, 5).drop_last() =~= head.subrange(0, 4));
    assert(head.subrange(0, 4).drop_last() =~= head.subrange(0, 3));
    assert(head.subrange(0, 3).drop_last() =~= head.subrange(0, 2));
    assert(head.subrange(0, 2).drop_last() =~= head.subrange(0, 1));
    assert(head.subrange(0, 1).drop_last() =~= Seq::<RegOp>::empty());
    let g = c.garo31_poly;
    let f = c.firo31_poly;
    assert(g & 0x7fff_ffff == g % 0x8000_0000) by (bit_vector);
    assert(f & 0x7fff_ffff == f % 0x8000_0000) by (bit_vector);

    // the control word
    lemma_init_ops_parts(c, TRNG_CTL0, old);
    lemma_init_fields(c);
    let w = ctl0_word(c);
    assert(w & 0xff == w % 256 && (w >> 8) & 0xff == (w / 256) % 256 && (w >> 16) & 0xff == (w
        / 0x1_0000) % 256 && (w >> 24) & 1 == (w / 0x100_0000) % 2 && (w >> 25) & 1 == (w
        / 0x200_0000) % 2 && (w >> 28) & 1 == (w / 0x1000_0000) % 2 && (w >> 29) & 1 == (w
        / 0x2000_0000) % 2) by (bit_vector);

    // the monitor control word
    lemma_init_ops_parts(c, TRNG_MON_CTL, old);
    let sel = c.mon_bitstream_select.spec_value();
    assert(sel < 3);
    let m0 = (old & !3u32) | sel;
    let m1 = if c.enable_ap_test { (m0 & !0x100u32) | 0x100 } else { m0 };
    let m2 = if c.enable_rc_test { (m1 & !0x200u32) | 0x200 } else { m1 };
    assert(reg_after(head, TRNG_MON_CTL, old) == m0);
    assert(reg_after(ap, TRNG_MON_CTL, m0) == m1);
    assert(reg_after(rc, TRNG_MON_CTL, m1) == m2);
    assert(reg_after(tail, TRNG_MON_CTL, m2) == m2);
    let ap_on = c.enable_ap_test;
    let rc_on = c.enable_rc_test;
    assert({
        &&& m2 % 4 == sel
        &&& ((m2 / 0x100) % 2 == 1) == (ap_on || (old / 0x100) % 2 == 1)
        &&& ((m2 / 0x200) % 2 == 1) == (rc_on || (old / 0x200) % 2 == 1)
        &&& m2 & !0x303u32 == old & !0x303u32
    }) by (bit_vector)
        requires
            sel < 3,
            m0 == (old & !3u32) | sel,
            m1 == if ap_on { (m0 & !0x100u32) | 0x100 } else { m0 },
            m2 == if rc_on { (m1 & !0x200u32) | 0x200 } else { m1 },
    ;

    // the cutoff counts and window size
    lemma_init_ops_parts(c, TRNG_MON_RC_CTL, old);
    lemma_init_ops_parts(c, TRNG_MON_AP_CTL, old);
    let a = ap_ctl_word(c);
    assert(a & 0xffff == a % 0x1_0000 && a >> 16 == a / 0x1_0000) by (bit_vector);

    lemma_init_enable_read(c, old);
}

/// The four bytes stored for a random value are its little-endian encoding: byte
/// `k` is the value divided by 256 to the power `k`, modulo 256, so the value is
/// their sum weighted by powers of 256.
pub proof fn lemma_le_bytes(word: u32)
    ensures
        le_byte(word, 0) == word % 0x100,
        le_byte(word, 1) == (word / 0x100) % 0x100,
        le_byte(word, 2) == (word / 0x1_0000) % 0x100,
        le_byte(word, 3) == word / 0x100_0000,
        word == le_byte(word, 0) + 0x100 * le_byte(word, 1) + 0x1_0000 * le_byte(word, 2)
            + 0x100_0000 * le_byte(word, 3),
{
    assert((word >> 0u32) & 0xff == word % 0x100 && (word >> 8u32) & 0xff == (word / 0x100) % 0x100
        && (word >> 16u32) & 0xff == (word / 0x1_0000) % 0x100 && (word >> 24u32) & 0xff == word
        / 0x100_0000) by (bit_vector);
    assert(word == word % 0x100 + 0x100 * ((word / 0x100) % 0x100) + 0x1_0000 * ((word / 0x1_0000)
        % 0x100) + 0x100_0000 * (word / 0x100_0000)) by (nonlinear_arith);
}

/// What deinitializing the TRNG leaves in its configuration registers, whatever
/// they held before: the control word with only INIT_DELAY, at 3; all oscillators
/// off; both polynomials, the cutoff counts and the window size zero; the true
/// random bitstream monitored with both health tests off.
pub proof fn lemma_deinit_registers(old: u32)
    ensures
        reg_after(trng_deinit_ops(), TRNG_CTL0, old) == 3 * 0x1_0000,
        reg_after(trng_deinit_ops(), TRNG_CTL1, old) == 0,
        reg_after(trng_deinit_ops(), TRNG_GARO_CTL, old) == 0,
        reg_after(trng_deinit_ops(), TRNG_FIRO_CTL, old) == 0,
        reg_after(trng_deinit_ops(), TRNG_MON_CTL, old) == TrngBitstreamSelect::TR.spec_value(),
        TrngBitstreamSelect::TR.spec_value() == 2,
        reg_after(trng_deinit_ops(), TRNG_MON_RC_CTL, old) == 0,
        reg_after(trng_deinit_ops(), TRNG_MON_AP_CTL, old) == 0,
{
    reveal_with_fuel(reg_after, 10);
    let d = trng_deinit_ops();
    assert(d.drop_last() =~= d.subrange(0, 8));
    assert(d.subrange(0, 8).drop_last() =~= d.subrange(0, 7));
    assert(d.subrange(0, 7).drop_last() =~= d.subrange(0, 6));
    assert(d.subrange(0, 6).drop_last() =~= d.subrange(0, 5));
    assert(d.subrange(0, 5).drop_last() =~= d.subrange(0, 4));
    assert(d.subrange(0, 4).drop_last() =~= d.subrange(0, 3));
    assert(d.subrange(0, 3).drop_last() =~= d.subrange(0, 2));
    assert(d.subrange(0, 2).drop_last() =~= d.subrange(0, 1));
    assert(d.subrange(0, 1).drop_last() =~= Seq::<RegOp>::empty());
    assert(3u32 << 16u32 == 3 * 0x1_0000) by (bit_vector);
}

} // verus!
