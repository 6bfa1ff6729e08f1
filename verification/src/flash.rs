//! PSC3 flash integration through the boot ROM flash function table.
//!
//! The flash is programmed and erased row by row (a row is a page of 512 bytes) by
//! routines of the boot ROM. `Flash` holds the driver's state and decides, for each
//! request, whether it can proceed, which row it addresses and which context the
//! ROM routine gets; the caller runs the ROM routine and hands its status back.
use vstd::prelude::*;

verus! {

/// Size of a flash sector.
pub const CYBOOT_FLASH_SECTOR_SIZE: usize = 128 * 1024;
/// Number of flash sectors.
pub const CYBOOT_N_FLASH_SECTORS: usize = 2;
/// Size of a flash row (a page).
pub const CY_FLASH_ROW_SIZE: usize = 512;
/// Size of the column 33 (extra data) of a row.
pub const CYBOOT_FLASH_COLUMN33_SIZE: usize = 16;
/// Size of the main flash.
pub const CYBOOT_FLASH_TOTAL_SIZE: usize = CYBOOT_FLASH_SECTOR_SIZE * CYBOOT_N_FLASH_SECTORS;
/// Address of the main flash.
pub const CYBOOT_FLASH_BASE_ADDR: usize = 0x3200_0000;
/// Number of 32-bit words in a row with its column 33.
pub const FLASH_ROW_AND_COL33_WORDS: usize = (CY_FLASH_ROW_SIZE + CYBOOT_FLASH_COLUMN33_SIZE) / 4;
/// Number of pages (rows) of the main flash.
pub const FLASH_PAGE_COUNT: usize = CYBOOT_FLASH_TOTAL_SIZE / CY_FLASH_ROW_SIZE;
/// Sector index that the refresh routines get: the main sectors, without SFLASH.
pub const SECTOR_INDEX_WITHOUT_SFLASH: u32 = 0;
/// Address of the boot ROM's flash function table.
pub const ROM_FUNC_ADDR: usize = 0x1080_FF6C;

/// Flags of a blocking flash operation.
pub const CYBOOT_FLASH_MODE_BLOCKING: u32 = 1;

/// ROM status: success.
pub const CYBOOT_FLASH_STATUS_SUCCESS: u32 = 0x0D50_B002;
/// ROM status: the operation failed.
pub const CYBOOT_FLASH_STATUS_FAILED: u32 = 0xBAF0_0008;
/// ROM status: recovery error.
pub const CYBOOT_FLASH_STATUS_RECOVER_ERR: u32 = 0xBAF0_0009;
/// ROM status: initialization failed.
pub const CYBOOT_FLASH_STATUS_INIT_FAILED: u32 = 0xBAF0_004B;
/// ROM status: invalid address.
pub const CYBOOT_FLASH_STATUS_ADDR_INVALID: u32 = 0xBAF0_004C;
/// ROM status: invalid parameter.
pub const CYBOOT_FLASH_STATUS_PARAM_INVALID: u32 = 0xBAF0_004D;
/// ROM status: unexpected fault.
pub const CYBOOT_FLASH_STATUS_FAULT_UNEXPECTED: u32 = 0xBAF0_004E;

/// Errors of the flash operations.
#[derive(Clone, Copy, Debug, PartialEq, Eq, Structural)]
pub enum ErrorCode {
    /// An argument (page number, address or parameter) is out of range.
    InvalidArgument,
    /// The operation failed.
    GenericError,
    /// The driver's state does not allow the operation now.
    BadState,
}

/// State of the ROM flash refresh algorithm.
#[derive(Clone, Copy, Debug, PartialEq, Eq, Structural)]
pub struct CybootFlashRefresh {
    pub min_count: u32,
    pub max_count: u32,
    pub min_page_addr: u32,
    pub scratch_row_idx: u32,
}

/// Context of a ROM flash operation. Its three callbacks (before and after
/// interrupts, and on completion) are always the no-op callback, so they are not
/// held here; `refresh_attached` says whether the refresh state is attached to the
/// context (a non-null refresh pointer).
#[derive(Clone, Copy, Debug, PartialEq, Eq, Structural)]
pub struct CybootFlashContext {
    pub flags: u32,
    pub hv_params_addr: u32,
    pub refresh_attached: bool,
    pub callback_param: u32,
    pub state: u32,
    pub flash_addr: u32,
    pub data_addr: u32,
    pub reserved0: u32,
    pub reserved1: u32,
}

/// The context of a blocking operation with nothing else set.
pub open spec fn blocking_context() -> CybootFlashContext {
    CybootFlashContext {
        flags: CYBOOT_FLASH_MODE_BLOCKING,
        hv_params_addr: 0,
        refresh_attached: false,
        callback_param: 0,
        state: 0,
        flash_addr: 0,
        data_addr: 0,
        reserved0: 0,
        reserved1: 0,
    }
}

impl CybootFlashContext {
    /// The context of a blocking operation with nothing else set.
    pub fn blocking_default() -> (ctx: Self)
        ensures
            ctx == blocking_context(),
    {
        CybootFlashContext {
            flags: CYBOOT_FLASH_MODE_BLOCKING,
            hv_params_addr: 0,
            refresh_attached: false,
            callback_param: 0,
            state: 0,
            flash_addr: 0,
            data_addr: 0,
            reserved0: 0,
            reserved1: 0,
        }
    }
}

/// The result of a ROM routine given its status word: success, an invalid address
/// or parameter, or any other failure.
pub open spec fn rom_status_result(code: u32) -> Result<(), ErrorCode> {
    if code == CYBOOT_FLASH_STATUS_SUCCESS {
        Ok(())
    } else if code == CYBOOT_FLASH_STATUS_ADDR_INVALID || code == CYBOOT_FLASH_STATUS_PARAM_INVALID {
        Err(ErrorCode::InvalidArgument)
    } else {
        Err(ErrorCode::GenericError)
    }
}

/// Maps the status word of a ROM routine to a result.
pub fn map_rom_status(code: u32) -> (r: Result<(), ErrorCode>)
    ensures
        r == rom_status_result(code),
{
    if code == CYBOOT_FLASH_STATUS_SUCCESS {
        Ok(())
    } else if code == CYBOOT_FLASH_STATUS_ADDR_INVALID || code == CYBOOT_FLASH_STATUS_PARAM_INVALID {
        Err(ErrorCode::InvalidArgument)
    } else if code == CYBOOT_FLASH_STATUS_FAILED || code == CYBOOT_FLASH_STATUS_RECOVER_ERR
        || code == CYBOOT_FLASH_STATUS_INIT_FAILED || code == CYBOOT_FLASH_STATUS_FAULT_UNEXPECTED {
        Err(ErrorCode::GenericError)
    } else {
        Err(ErrorCode::GenericError)
    }
}

/// The address of a page of the main flash, or `None` for a page number past its end.
pub open spec fn page_address(page_number: usize) -> Option<usize> {
    if page_number < FLASH_PAGE_COUNT {
        Some((CYBOOT_FLASH_BASE_ADDR + page_number * CY_FLASH_ROW_SIZE) as usize)
    } else {
        None
    }
}

/// The address of a page of the main flash, or `None` for a page number past its end.
pub fn page_to_address(page_number: usize) -> (r: Option<usize>)
    ensures
        r == page_address(page_number),
        r matches Some(a) ==> CYBOOT_FLASH_BASE_ADDR <= a < CYBOOT_FLASH_BASE_ADDR
            + CYBOOT_FLASH_TOTAL_SIZE && (a - CYBOOT_FLASH_BASE_ADDR) % (CY_FLASH_ROW_SIZE as int)
            == 0,
{
    let offset = match page_number.checked_mul(CY_FLASH_ROW_SIZE) {
        Some(o) => o,
        None => {
            return None;
        },
    };
    if offset >= CYBOOT_FLASH_TOTAL_SIZE {
        return None;
    }
    CYBOOT_FLASH_BASE_ADDR.checked_add(offset)
}

/// One page of flash.
pub struct FlashPage(pub [u8; 512]);

impl Default for FlashPage {
    fn default() -> (page: Self)
        ensures
            forall|i: int| 0 <= i < 512 ==> page.0[i] == 0u8,
    {
        Self([0u8; 512])
    }
}

impl AsMut<[u8]> for FlashPage {
    fn as_mut(&mut self) -> (bytes: &mut [u8])
        ensures
            bytes@ == old(self).0@,
            final(self).0@ == final(bytes)@,
    {
        &mut self.0
    }
}

/// The 32-bit word whose little-endian bytes are `b0` to `b3`.
pub open spec fn le_word(b0: u8, b1: u8, b2: u8, b3: u8) -> u32 {
    (b0 as u32) | ((b1 as u32) << 8) | ((b2 as u32) << 16) | ((b3 as u32) << 24)
}

/// The row buffer that the ROM programs: the 512 bytes of the page as 128
/// little-endian words, then the 4 words of column 33, which are zero.
pub open spec fn row_words_of(page: [u8; 512]) -> Seq<u32> {
    Seq::new(
        132,
        |i: int|
            if i < 128 {
                le_word(page[4 * i], page[4 * i + 1], page[4 * i + 2], page[4 * i + 3])
            } else {
                0u32
            },
    )
}

/// The row buffer that the ROM programs for a page (see `row_words_of`).
pub fn row_words(page: &FlashPage) -> (words: Vec<u32>)
    ensures
        words@ == row_words_of(page.0),
{
    let mut words: Vec<u32> = Vec::new();
    let mut i: usize = 0;
    while i < 128
        invariant
            i <= 128,
            words@.len() == i,
            forall|j: int| 0 <= j < i ==> words@[j] == row_words_of(page.0)[j],
        decreases 128 - i,
    {
        let b0 = page.0[4 * i];
        let b1 = page.0[4 * i + 1];
        let b2 = page.0[4 * i + 2];
        let b3 = page.0[4 * i + 3];
        let w = (b0 as u32) | ((b1 as u32) << 8) | ((b2 as u32) << 16) | ((b3 as u32) << 24);
        words.push(w);
        i = i + 1;
    }
    while i < FLASH_ROW_AND_COL33_WORDS
        invariant
            128 <= i <= 132,
            words@.len() == i,
            forall|j: int| 0 <= j < i ==> words@[j] == row_words_of(page.0)[j],
        decreases 132 - i,
    {
        words.push(0);
        i = i + 1;
    }
    assert(words@ =~= row_words_of(page.0));
    words
}

/// The state of the flash driver.
pub struct FlashState {
    /// `init` has succeeded.
    pub initialized: bool,
    /// The refresh algorithm has been started.
    pub refresh_enabled: bool,
    /// The operation context.
    pub context: Option<CybootFlashContext>,
    /// The refresh state.
    pub refresh: Option<CybootFlashRefresh>,
}

impl FlashState {
    /// The driver holds its context and its refresh state, and the refresh
    /// algorithm is only ever started on an initialized driver.
    pub open spec fn wf(self) -> bool {
        &&& self.refresh_enabled ==> self.initialized
        &&& self.context is Some
        &&& self.refresh is Some
    }
}

/// The state of a driver that was just created.
pub open spec fn new_state() -> FlashState {
    FlashState {
        initialized: false,
        refresh_enabled: false,
        context: Some(blocking_context()),
        refresh: Some(CybootFlashRefresh { min_count: 0, max_count: 0, min_page_addr: 0, scratch_row_idx: 0 }),
    }
}

/// What `init` does: the state afterwards, and its result. On an initialized driver
/// it changes nothing and asks for the refresh to be enabled when that is requested
/// and not yet done; otherwise it needs the context, which it sets up for blocking
/// operations, and then asks for the refresh to be enabled if that is requested.
pub open spec fn init_spec(s: FlashState, refresh_enable: bool) -> (FlashState, Result<bool, ErrorCode>) {
    if s.initialized {
        (s, Ok(refresh_enable && !s.refresh_enabled))
    } else {
        match s.context {
            None => (s, Err(ErrorCode::BadState)),
            Some(ctx) => (
                FlashState {
                    initialized: true,
                    context: Some(CybootFlashContext { flags: CYBOOT_FLASH_MODE_BLOCKING, ..ctx }),
                    ..s
                },
                Ok(refresh_enable),
            ),
        }
    }
}

/// What the first step of enabling the refresh does: it needs the context and the
/// refresh state, attaches the refresh state to the context, and gives both for the
/// ROM refresh routines.
pub open spec fn refresh_begin_spec(s: FlashState) -> (FlashState, Result<(CybootFlashContext, CybootFlashRefresh), ErrorCode>) {
    match (s.context, s.refresh) {
        (Some(ctx), Some(refresh)) => (
            FlashState { context: Some(CybootFlashContext { refresh_attached: true, ..ctx }), ..s },
            Ok((CybootFlashContext { refresh_attached: true, ..ctx }, refresh)),
        ),
        _ => (s, Err(ErrorCode::BadState)),
    }
}

/// What the last step of enabling the refresh does: it stores the context and the
/// refresh state that the ROM routines left, records that the refresh is enabled,
/// and gives the result of the recovery routine's status.
pub open spec fn refresh_end_spec(
    s: FlashState,
    ctx: CybootFlashContext,
    refresh: CybootFlashRefresh,
    recover_status: u32,
) -> (FlashState, Result<(), ErrorCode>) {
    (
        FlashState { refresh_enabled: true, context: Some(ctx), refresh: Some(refresh), ..s },
        rom_status_result(recover_status),
    )
}

/// What the preparation of a write or an erase of a page does: the state afterwards
/// and its result. It first initializes the driver with its current refresh
/// setting, then needs a valid page number and the context, which it sets up for a
/// blocking operation; the result is the row's address and that context, for the
/// ROM routine.
pub open spec fn prepare_spec(s: FlashState, page_number: usize) -> (FlashState, Result<(u32, CybootFlashContext), ErrorCode>) {
    let (s1, r1) = init_spec(s, s.refresh_enabled);
    match r1 {
        Err(e) => (s1, Err(e)),
        Ok(_) => match page_address(page_number) {
            None => (s1, Err(ErrorCode::InvalidArgument)),
            Some(a) => match s1.context {
                None => (s1, Err(ErrorCode::BadState)),
                Some(ctx) => (
                    FlashState {
                        context: Some(CybootFlashContext { flags: CYBOOT_FLASH_MODE_BLOCKING, ..ctx }),
                        ..s1
                    },
                    Ok((a as u32, CybootFlashContext { flags: CYBOOT_FLASH_MODE_BLOCKING, ..ctx })),
                ),
            },
        },
    }
}

/// What the end of a write or an erase does: it stores the context that the ROM
/// routine left, and gives the result of the routine's status.
pub open spec fn finish_spec(s: FlashState, ctx: CybootFlashContext, status: u32) -> (FlashState, Result<(), ErrorCode>) {
    (FlashState { context: Some(ctx), ..s }, rom_status_result(status))
}

/// A request to program one row: its address, the row buffer and the context.
pub struct FlashRowWrite {
    pub address: u32,
    pub row_words: Vec<u32>,
    pub context: CybootFlashContext,
}

/// The flash driver.
pub struct Flash {
    initialized: bool,
    refresh_enabled: bool,
    context: Option<CybootFlashContext>,
    refresh: Option<CybootFlashRefresh>,
}

impl View for Flash {
    type V = FlashState;

    closed spec fn view(&self) -> FlashState {
        FlashState {
            initialized: self.initialized,
            refresh_enabled: self.refresh_enabled,
            context: self.context,
            refresh: self.refresh,
        }
    }
}

impl Flash {
    /// The driver holds its context and its refresh state, and the refresh
    /// algorithm is only ever started on an initialized driver.
    #[verifier::type_invariant]
    spec fn holds_state(self) -> bool {
        &&& self.refresh_enabled ==> self.initialized
        &&& self.context is Some
        &&& self.refresh is Some
    }

    /// A driver that is not initialized, with its context set up for blocking
    /// operations and a cleared refresh state.
    pub fn new() -> (flash: Self)
        ensures
            flash@ == new_state(),
            flash@.wf(),
    {
        Self {
            initialized: false,
            refresh_enabled: false,
            context: Some(CybootFlashContext::blocking_default()),
            refresh: Some(CybootFlashRefresh { min_count: 0, max_count: 0, min_page_addr: 0, scratch_row_idx: 0 }),
        }
    }

    /// Whether `init` has succeeded.
    pub fn initialized(&self) -> (b: bool)
        ensures
            b == self@.initialized,
    {
        self.initialized
    }

    /// Initialize the driver (see `init_spec`). `Ok(true)` means that the refresh
    /// algorithm must now be enabled, by `enable_refresh_begin`, the ROM refresh
    /// routines and `enable_refresh_end`, whose result is then that of the
    /// initialization.
    pub fn init(&mut self, refresh_enable: bool) -> (r: Result<bool, ErrorCode>)
        ensures
            (final(self)@, r) == init_spec(old(self)@, refresh_enable),
            old(self)@.wf(),
            final(self)@.wf(),
            r is Ok ==> final(self)@.initialized,
    {
        proof { use_type_invariant(&*self); }
        if self.initialized {
            return Ok(refresh_enable && !self.refresh_enabled);
        }
        let mut ctx = match self.context {
            Some(ctx) => ctx,
            None => {
                return Err(ErrorCode::BadState);
            },
        };
        ctx.flags = CYBOOT_FLASH_MODE_BLOCKING;
        self.context = Some(ctx);
        self.initialized = true;
        Ok(refresh_enable)
    }

    /// Enable the refresh algorithm, first step (see `refresh_begin_spec`): the
    /// context, with the refresh state attached, and the refresh state, for the ROM
    /// routines that initialize the refresh and recover an interrupted one (both on
    /// sector `SECTOR_INDEX_WITHOUT_SFLASH`). The driver keeps the attached context.
    pub fn enable_refresh_begin(&mut self) -> (r: Result<(CybootFlashContext, CybootFlashRefresh), ErrorCode>)
        requires
            old(self)@.initialized,
        ensures
            (final(self)@, r) == refresh_begin_spec(old(self)@),
            r is Ok,
            final(self)@.wf(),
    {
        proof { use_type_invariant(&*self); }
        let mut ctx = match self.context {
            Some(ctx) => ctx,
            None => {
                return Err(ErrorCode::BadState);
            },
        };
        let refresh = match self.refresh {
            Some(refresh) => refresh,
            None => {
                return Err(ErrorCode::BadState);
            },
        };
        ctx.refresh_attached = true;
        self.context = Some(ctx);
        Ok((ctx, refresh))
    }

    /// Enable the refresh algorithm, last step (see `refresh_end_spec`): store the
    /// context and the refresh state as the ROM routines left them, record that the
    /// refresh is enabled, and give the result of the recovery routine's status
    /// `recover_status`.
    pub fn enable_refresh_end(
        &mut self,
        ctx: CybootFlashContext,
        refresh: CybootFlashRefresh,
        recover_status: u32,
    ) -> (r: Result<(), ErrorCode>)
        requires
            old(self)@.initialized,
        ensures
            (final(self)@, r) == refresh_end_spec(old(self)@, ctx, refresh, recover_status),
            final(self)@.wf(),
    {
        proof { use_type_invariant(&*self); }
        self.refresh = Some(refresh);
        self.context = Some(ctx);
        self.refresh_enabled = true;
        map_rom_status(recover_status)
    }

    /// Read a page: the address of its first byte; the page is the 512 bytes from there.
    pub fn read_page(&self, page_number: usize) -> (r: Result<usize, ErrorCode>)
        ensures
            match page_address(page_number) {
                Some(a) => r == Ok::<usize, ErrorCode>(a),
                None => r == Err::<usize, ErrorCode>(ErrorCode::InvalidArgument),
            },
    {
        match page_to_address(page_number) {
            Some(address) => Ok(address),
            None => Err(ErrorCode::InvalidArgument),
        }
    }

    /// The preparation shared by `write_page` and `erase_page` (see `prepare_spec`).
    fn prepare_row_operation(&mut self, page_number: usize) -> (r: Result<(u32, CybootFlashContext), ErrorCode>)
        ensures
            (final(self)@, r) == prepare_spec(old(self)@, page_number),
            final(self)@.wf(),
    {
        proof { use_type_invariant(&*self); }
        let refresh_enabled = self.refresh_enabled;
        match self.init(refresh_enabled) {
            Err(e) => {
                return Err(e);
            },
            Ok(_) => {},
        }
        let address = match page_to_address(page_number) {
            Some(a) => a,
            None => {
                return Err(ErrorCode::InvalidArgument);
            },
        };
        let address_u32 = match u32::try_from(address) {
            Ok(a) => a,
            Err(_) => {
                return Err(ErrorCode::InvalidArgument);
            },
        };
        proof { use_type_invariant(&*self); }
        let mut ctx = match self.context {
            Some(ctx) => ctx,
            None => {
                return Err(ErrorCode::BadState);
            },
        };
        ctx.flags = CYBOOT_FLASH_MODE_BLOCKING;
        self.context = Some(ctx);
        Ok((address_u32, ctx))
    }

    /// Write a page, first step: initialize the driver, check the page number, and
    /// set up the context for the ROM routine that writes the row; the request holds
    /// the row's address, the row buffer for `buf` and the context.
    /// `finish_operation` ends the write with the routine's status.
    pub fn write_page(&mut self, page_number: usize, buf: &FlashPage) -> (r: Result<FlashRowWrite, ErrorCode>)
        ensures
            final(self)@ == prepare_spec(old(self)@, page_number).0,
            final(self)@.wf(),
            r matches Ok(w) ==> w.context == (CybootFlashContext {
                flags: CYBOOT_FLASH_MODE_BLOCKING,
                ..old(self)@.context.unwrap()
            }) && w.address == CYBOOT_FLASH_BASE_ADDR + page_number * CY_FLASH_ROW_SIZE,
            match prepare_spec(old(self)@, page_number).1 {
                Ok((address, context)) => r matches Ok(w) && w.address == address && w.context == context
                    && w.row_words@ == row_words_of(buf.0),
                Err(e) => r == Err::<FlashRowWrite, ErrorCode>(e),
            },
    {
        proof { use_type_invariant(&*self); }
        match self.prepare_row_operation(page_number) {
            Ok((address, context)) => {
                let words = row_words(buf);
                Ok(FlashRowWrite { address, row_words: words, context })
            },
            Err(e) => Err(e),
        }
    }

    /// Erase a page, first step: initialize the driver, check the page number, and
    /// set up the context for the ROM routine that erases the row; the result is the
    /// row's address and the context. `finish_operation` ends the erase with the
    /// routine's status.
    pub fn erase_page(&mut self, page_number: usize) -> (r: Result<(u32, CybootFlashContext), ErrorCode>)
        ensures
            (final(self)@, r) == prepare_spec(old(self)@, page_number),
            final(self)@.wf(),
            r matches Ok((address, ctx)) ==> ctx == (CybootFlashContext {
                flags: CYBOOT_FLASH_MODE_BLOCKING,
                ..old(self)@.context.unwrap()
            }) && address == CYBOOT_FLASH_BASE_ADDR + page_number * CY_FLASH_ROW_SIZE,
    {
        proof { use_type_invariant(&*self); }
        self.prepare_row_operation(page_number)
    }

    /// End a write or an erase (see `finish_spec`): store the context as the ROM
    /// routine left it, and give the result of the routine's status.
    pub fn finish_operation(&mut self, ctx: CybootFlashContext, status: u32) -> (r: Result<(), ErrorCode>)
        ensures
            (final(self)@, r) == finish_spec(old(self)@, ctx, status),
            final(self)@.wf(),
    {
        proof { use_type_invariant(&*self); }
        self.context = Some(ctx);
        map_rom_status(status)
    }
}

/// Every step of the driver keeps it holding its context and its refresh state,
/// never clears `initialized` or `refresh_enabled`, and never fails with
/// `BadState`: initialization always succeeds, the first step of enabling the
/// refresh always succeeds on an initialized driver, and a write or an erase fails
/// only for a page number past the end of the flash.
pub proof fn lemma_driver_steps(
    s: FlashState,
    refresh_enable: bool,
    page_number: usize,
    ctx: CybootFlashContext,
    refresh: CybootFlashRefresh,
    status: u32,
)
    requires
        s.wf(),
    ensures
        init_spec(s, refresh_enable).0.wf(),
        init_spec(s, refresh_enable).1 is Ok,
        prepare_spec(s, page_number).0.wf(),
        prepare_spec(s, page_number).1 is Ok <==> page_number < FLASH_PAGE_COUNT,
        prepare_spec(s, page_number).1 is Err ==> prepare_spec(s, page_number).1 == Err::<
            (u32, CybootFlashContext),
            ErrorCode,
        >(ErrorCode::InvalidArgument),
        finish_spec(s, ctx, status).0.wf(),
        s.initialized ==> refresh_begin_spec(s).0.wf() && refresh_begin_spec(s).1 is Ok,
        s.initialized ==> refresh_end_spec(s, ctx, refresh, status).0.wf(),
        s.initialized ==> init_spec(s, refresh_enable).0.initialized
            && prepare_spec(s, page_number).0.initialized,
        s.refresh_enabled ==> init_spec(s, refresh_enable).0.refresh_enabled
            && prepare_spec(s, page_number).0.refresh_enabled,
{
}

/// The initialization that a write or an erase performs, with the driver's own
/// refresh setting, never asks for the refresh algorithm to be enabled.
pub proof fn lemma_init_with_current_setting(s: FlashState)
    requires
        s.wf(),
    ensures
        init_spec(s, s.refresh_enabled).1 == Ok::<bool, ErrorCode>(false),
{
}

/// Initialization is idempotent: after a first initialization, whatever its
/// setting, a second one changes nothing, and asks for the refresh exactly when it
/// is requested and not yet enabled; repeating the same initialization after the
/// refresh it asked for has been enabled asks for nothing.
pub proof fn lemma_init_idempotent(
    s: FlashState,
    first: bool,
    second: bool,
    ctx: CybootFlashContext,
    refresh: CybootFlashRefresh,
    status: u32,
)
    requires
        s.wf(),
    ensures
        ({
            let s1 = init_spec(s, first).0;
            &&& s1.initialized
            &&& init_spec(s1, second) == (s1, Ok::<bool, ErrorCode>(second && !s1.refresh_enabled))
            &&& init_spec(refresh_end_spec(s1, ctx, refresh, status).0, first).1 == Ok::<
                bool,
                ErrorCode,
            >(false)
        }),
{
}

/// Enabling the refresh algorithm on an initialized driver: the first step always
/// succeeds and gives the driver's context with the refresh state attached, and
/// the driver's refresh state; after the last step the driver holds the context and
/// refresh state that the ROM routines left, the refresh is enabled, and the result
/// is that of the recovery routine's status.
pub proof fn lemma_refresh_cycle(
    s: FlashState,
    ctx: CybootFlashContext,
    refresh: CybootFlashRefresh,
    recover_status: u32,
)
    requires
        s.wf(),
        s.initialized,
    ensures
        ({
            let (s1, r1) = refresh_begin_spec(s);
            let (s2, r2) = refresh_end_spec(s1, ctx, refresh, recover_status);
            &&& r1 == Ok::<(CybootFlashContext, CybootFlashRefresh), ErrorCode>((
                CybootFlashContext { refresh_attached: true, ..s.context.unwrap() },
                s.refresh.unwrap(),
            ))
            &&& s2.wf()
            &&& s2.initialized
            &&& s2.refresh_enabled
            &&& s2.context == Some(ctx)
            &&& s2.refresh == Some(refresh)
            &&& r2 == rom_status_result(recover_status)
        }),
{
}

/// A new driver serves every page of the main flash: preparing a write or an erase
/// of a page succeeds exactly for the page numbers below `FLASH_PAGE_COUNT`, and
/// gives the page's address and a blocking context.
pub proof fn lemma_new_driver_serves_pages(page_number: usize)
    ensures
        prepare_spec(new_state(), page_number).1 is Ok <==> page_number < FLASH_PAGE_COUNT,
        page_number < FLASH_PAGE_COUNT ==> prepare_spec(new_state(), page_number).1 == Ok::<
            (u32, CybootFlashContext),
            ErrorCode,
        >(((CYBOOT_FLASH_BASE_ADDR + page_number * CY_FLASH_ROW_SIZE) as u32, blocking_context())),
        page_number >= FLASH_PAGE_COUNT ==> prepare_spec(new_state(), page_number).1 == Err::<
            (u32, CybootFlashContext),
            ErrorCode,
        >(ErrorCode::InvalidArgument),
{
}

/// A finished operation leaves the driver ready for the next one: after a
/// preparation and the end of the operation, preparing a valid page again
/// succeeds, and the driver's initialization, refresh setting and refresh state are
/// as the first preparation left them.
pub proof fn lemma_operation_cycle(
    s: FlashState,
    page_number: usize,
    next_page: usize,
    ctx: CybootFlashContext,
    status: u32,
)
    requires
        s.wf(),
        next_page < FLASH_PAGE_COUNT,
    ensures
        ({
            let s1 = prepare_spec(s, page_number).0;
            let s2 = finish_spec(s1, ctx, status).0;
            &&& s1.initialized
            &&& s1.refresh_enabled == s.refresh_enabled
            &&& s1.refresh == s.refresh
            &&& prepare_spec(s2, next_page).1 is Ok
            &&& prepare_spec(s2, next_page).0.initialized
            &&& prepare_spec(s2, next_page).0.refresh_enabled == s.refresh_enabled
        }),
{
}

/// A write or an erase hands the ROM routine the driver's own context with only
/// its flags set to a blocking operation, and the row's address; the driver keeps
/// that context. So once the refresh has been enabled, every write and erase runs
/// with the refresh state attached.
pub proof fn lemma_prepared_context(
    s: FlashState,
    page_number: usize,
    ctx: CybootFlashContext,
    refresh: CybootFlashRefresh,
    recover_status: u32,
)
    requires
        s.wf(),
    ensures
        prepare_spec(s, page_number).1 matches Ok((address, c)) ==> {
            &&& address == CYBOOT_FLASH_BASE_ADDR + page_number * CY_FLASH_ROW_SIZE
            &&& c == CybootFlashContext { flags: CYBOOT_FLASH_MODE_BLOCKING, ..s.context.unwrap() }
            &&& prepare_spec(s, page_number).0.context == Some(c)
        },
        s.initialized ==> ({
            let s1 = refresh_begin_spec(s).0;
            let attached = refresh_begin_spec(s).1->Ok_0.0;
            let s2 = refresh_end_spec(s1, attached, refresh, recover_status).0;
            prepare_spec(s2, page_number).1 matches Ok((_, c)) ==> c.refresh_attached
        }),
{
}

/// The words of the row buffer are the little-endian encoding of the page: each
/// of the 128 words is the sum of its four bytes weighted by powers of 256, the
/// byte at the lowest address first; the words of column 33 are zero.
pub proof fn lemma_row_words_little_endian(page: [u8; 512], i: int)
    requires
        0 <= i < 132,
    ensures
        i < 128 ==> row_words_of(page)[i] == page[4 * i] + 0x100 * page[4 * i + 1] + 0x1_0000
            * page[4 * i + 2] + 0x100_0000 * page[4 * i + 3],
        i >= 128 ==> row_words_of(page)[i] == 0,
        row_words_of(page).len() == 132,
{
    if i < 128 {
        let b0 = page[4 * i];
        let b1 = page[4 * i + 1];
        let b2 = page[4 * i + 2];
        let b3 = page[4 * i + 3];
        let w0 = b0 as u32;
        let w1 = b1 as u32;
        let w2 = b2 as u32;
        let w3 = b3 as u32;
        assert(w0 | (w1 << 8) | (w2 << 16) | (w3 << 24) == w0 + 0x100 * w1 + 0x1_0000 * w2 + 0x100_0000
            * w3) by (bit_vector)
            requires
                w0 < 256,
                w1 < 256,
                w2 < 256,
                w3 < 256,
        ;
    }
}

} // verus!
