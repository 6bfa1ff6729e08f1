use psc3::flash::{
    map_rom_status, page_to_address, row_words, CybootFlashContext, CybootFlashRefresh,
    ErrorCode, Flash, FlashPage, CYBOOT_FLASH_MODE_BLOCKING, CYBOOT_FLASH_STATUS_ADDR_INVALID,
    CYBOOT_FLASH_STATUS_FAILED, CYBOOT_FLASH_STATUS_FAULT_UNEXPECTED,
    CYBOOT_FLASH_STATUS_INIT_FAILED, CYBOOT_FLASH_STATUS_PARAM_INVALID,
    CYBOOT_FLASH_STATUS_RECOVER_ERR, CYBOOT_FLASH_STATUS_SUCCESS,
};

#[test]
fn page_addresses() {
    assert_eq!(page_to_address(0), Some(0x3200_0000));
    assert_eq!(page_to_address(1), Some(0x3200_0200));
    assert_eq!(page_to_address(511), Some(0x3203_FE00));
    assert_eq!(page_to_address(512), None);
    assert_eq!(page_to_address(usize::MAX), None);
    assert_eq!(page_to_address(usize::MAX / 512 + 1), None);
}

#[test]
fn rom_status_mapping() {
    assert_eq!(map_rom_status(CYBOOT_FLASH_STATUS_SUCCESS), Ok(()));
    assert_eq!(map_rom_status(CYBOOT_FLASH_STATUS_ADDR_INVALID), Err(ErrorCode::InvalidArgument));
    assert_eq!(map_rom_status(CYBOOT_FLASH_STATUS_PARAM_INVALID), Err(ErrorCode::InvalidArgument));
    for code in [
        CYBOOT_FLASH_STATUS_FAILED,
        CYBOOT_FLASH_STATUS_RECOVER_ERR,
        CYBOOT_FLASH_STATUS_INIT_FAILED,
        CYBOOT_FLASH_STATUS_FAULT_UNEXPECTED,
        0,
        0xDEAD_BEEF,
    ] {
        assert_eq!(map_rom_status(code), Err(ErrorCode::GenericError));
    }
}

#[test]
fn blocking_default_context() {
    let ctx = CybootFlashContext::blocking_default();
    assert_eq!(ctx.flags, CYBOOT_FLASH_MODE_BLOCKING);
    assert!(!ctx.refresh_attached);
    assert_eq!(ctx.flash_addr, 0);
    assert_eq!(ctx.data_addr, 0);
}

#[test]
fn page_default_and_row_words() {
    let mut page = FlashPage::default();
    assert!(page.0.iter().all(|b| *b == 0));
    page.as_mut()[0] = 0x11;
    page.as_mut()[1] = 0x22;
    page.as_mut()[2] = 0x33;
    page.as_mut()[3] = 0x44;
    page.0[511] = 0xAB;
    let words = row_words(&page);
    assert_eq!(words.len(), 132);
    assert_eq!(words[0], 0x4433_2211);
    assert_eq!(words[1], 0);
    assert_eq!(words[127], 0xAB00_0000);
    assert_eq!(&words[128..], &[0, 0, 0, 0]);
}

#[test]
fn init_without_refresh() {
    let mut flash = Flash::new();
    assert_eq!(flash.init(false), Ok(false));
    // a second initialization changes nothing
    assert_eq!(flash.init(false), Ok(false));
    // asking for the refresh later asks for it to be enabled
    assert_eq!(flash.init(true), Ok(true));
}

#[test]
fn init_with_refresh() {
    let mut flash = Flash::new();
    assert_eq!(flash.init(true), Ok(true));
    let (ctx, refresh) = flash.enable_refresh_begin().unwrap();
    assert!(ctx.refresh_attached);
    assert_eq!(ctx.flags, CYBOOT_FLASH_MODE_BLOCKING);
    assert_eq!(
        refresh,
        CybootFlashRefresh { min_count: 0, max_count: 0, min_page_addr: 0, scratch_row_idx: 0 }
    );
    // the driver keeps holding them: starting again gives the same
    assert_eq!(flash.enable_refresh_begin(), Ok((ctx, refresh)));
    assert_eq!(flash.enable_refresh_end(ctx, refresh, CYBOOT_FLASH_STATUS_SUCCESS), Ok(()));
    // refresh enabled: nothing more to do
    assert_eq!(flash.init(true), Ok(false));
}

#[test]
fn refresh_recover_failure_is_reported() {
    let mut flash = Flash::new();
    assert_eq!(flash.init(true), Ok(true));
    let (ctx, refresh) = flash.enable_refresh_begin().unwrap();
    assert_eq!(
        flash.enable_refresh_end(ctx, refresh, CYBOOT_FLASH_STATUS_RECOVER_ERR),
        Err(ErrorCode::GenericError)
    );
    // the refresh counts as enabled all the same
    assert_eq!(flash.init(true), Ok(false));
}

#[test]
fn read_page_addresses() {
    let flash = Flash::new();
    assert_eq!(flash.read_page(3), Ok(0x3200_0600));
    assert_eq!(flash.read_page(512), Err(ErrorCode::InvalidArgument));
}

#[test]
fn write_page_request() {
    let mut flash = Flash::new();
    let mut page = FlashPage::default();
    page.0[4] = 0xEF;
    page.0[5] = 0xBE;
    let w = flash.write_page(2, &page).unwrap();
    assert_eq!(w.address, 0x3200_0400);
    assert_eq!(w.row_words.len(), 132);
    assert_eq!(w.row_words[1], 0x0000_BEEF);
    assert_eq!(w.context.flags, CYBOOT_FLASH_MODE_BLOCKING);
    assert_eq!(flash.finish_operation(w.context, CYBOOT_FLASH_STATUS_SUCCESS), Ok(()));
    // the next operation is accepted
    let (address, ctx) = flash.erase_page(511).unwrap();
    assert_eq!(address, 0x3203_FE00);
    assert_eq!(flash.finish_operation(ctx, CYBOOT_FLASH_STATUS_ADDR_INVALID), Err(ErrorCode::InvalidArgument));
}

#[test]
fn write_and_erase_out_of_range() {
    let mut flash = Flash::new();
    let page = FlashPage::default();
    assert_eq!(flash.write_page(512, &page).err(), Some(ErrorCode::InvalidArgument));
    assert_eq!(flash.erase_page(usize::MAX), Err(ErrorCode::InvalidArgument));
    // the driver was initialized on the way, and stays usable
    assert_eq!(flash.init(false), Ok(false));
    assert!(flash.erase_page(0).is_ok());
}
