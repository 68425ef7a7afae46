use gd32vf103xx_hal::flash::{Error, FlashSize, Parts, FLASH_END, FLASH_START};

fn writer() -> gd32vf103xx_hal::flash::FlashWriter {
    Parts::new().writer(FlashSize::Sz128K)
}

#[test]
fn flash_sizes_in_bytes() {
    assert_eq!(FlashSize::Sz16K.bytes(), 16 * 1024);
    assert_eq!(FlashSize::Sz32K.bytes(), 32 * 1024);
    assert_eq!(FlashSize::Sz64K.bytes(), 64 * 1024);
    assert_eq!(FlashSize::Sz128K.bytes(), 128 * 1024);
    assert_eq!(FLASH_END - FLASH_START + 1, FlashSize::Sz128K.bytes());
}

#[test]
fn write_and_read_round_trip() {
    let mut w = writer();
    let data = vec![0x11, 0x22, 0x33, 0x44, 0x55, 0x66];
    assert_eq!(w.write(0x100, &data), Ok(()));
    assert_eq!(w.read(0x100, 6), Ok(data));
    // the controller is locked again afterwards
    assert!(w.fmc.lk);
}

#[test]
fn reading_erased_flash_yields_all_ones() {
    let w = writer();
    assert_eq!(w.read(0, 4), Ok(vec![0xFF, 0xFF, 0xFF, 0xFF]));
}

#[test]
fn programming_twice_fails_until_erased() {
    let mut w = writer();
    assert_eq!(w.write(0, &vec![0x01, 0x02]), Ok(()));
    // the target no longer reads as erased
    assert_eq!(w.write(0, &vec![0x05, 0x06]), Err(Error::ProgrammingError));
    // the old value stays
    assert_eq!(w.read(0, 2), Ok(vec![0x01, 0x02]));

    assert_eq!(w.page_erase(0), Ok(()));
    assert_eq!(w.read(0, 2), Ok(vec![0xFF, 0xFF]));
    assert_eq!(w.write(0, &vec![0x05, 0x06]), Ok(()));
    assert_eq!(w.read(0, 2), Ok(vec![0x05, 0x06]));
}

#[test]
fn a_failed_write_keeps_the_programmed_prefix() {
    let mut w = writer();
    // occupy the third halfword
    assert_eq!(w.write(4, &vec![0xAA, 0xBB]), Ok(()));
    // a write across it programs the first two halfwords, then stops
    let r = w.write(0, &vec![1, 2, 3, 4, 5, 6]);
    assert_eq!(r, Err(Error::ProgrammingError));
    assert_eq!(w.read(0, 4), Ok(vec![1, 2, 3, 4]));
    assert_eq!(w.read(4, 2), Ok(vec![0xAA, 0xBB]));
}

#[test]
fn page_erase_clears_the_whole_page_and_nothing_else() {
    let mut w = writer();
    assert_eq!(w.write(0x3FE, &vec![0x01, 0x02]), Ok(()));
    assert_eq!(w.write(0x400, &vec![0x03, 0x04]), Ok(()));
    // erasing by an address in the middle of the first page
    assert_eq!(w.page_erase(0x200), Ok(()));
    assert_eq!(w.read(0x3FE, 2), Ok(vec![0xFF, 0xFF]));
    // the next page keeps its data
    assert_eq!(w.read(0x400, 2), Ok(vec![0x03, 0x04]));
}

#[test]
fn erase_covers_every_touched_page() {
    let mut w = writer();
    assert_eq!(w.write(0, &vec![9, 9]), Ok(()));
    assert_eq!(w.write(0x400, &vec![8, 8]), Ok(()));
    assert_eq!(w.write(0x800, &vec![7, 7]), Ok(()));
    // two bytes past the first page boundary touch two pages
    assert_eq!(w.erase(0, 0x402), Ok(()));
    assert_eq!(w.read(0, 2), Ok(vec![0xFF, 0xFF]));
    assert_eq!(w.read(0x400, 2), Ok(vec![0xFF, 0xFF]));
    assert_eq!(w.read(0x800, 2), Ok(vec![7, 7]));
}

#[test]
fn address_and_length_validation() {
    let mut w = writer();
    // odd address
    assert_eq!(w.page_erase(1), Err(Error::AddressMisaligned));
    assert_eq!(w.write(1, &vec![0, 0]), Err(Error::AddressMisaligned));
    // beyond the flash area
    assert_eq!(w.page_erase(0x2_0000), Err(Error::AddressLargerThanFlash));
    assert_eq!(w.read(0x2_0000, 2), Err(Error::AddressLargerThanFlash));
    // past the configured size
    assert_eq!(w.write(0x1_FFFE, &vec![0, 0, 0, 0]), Err(Error::LengthTooLong));
    assert_eq!(w.read(0x1_FFFE, 4), Err(Error::LengthTooLong));
    // odd length
    assert_eq!(w.write(0, &vec![0, 0, 0]), Err(Error::LengthNotMultiple2));
    assert_eq!(w.erase(0, 3), Err(Error::LengthNotMultiple2));
}

#[test]
fn a_smaller_part_rejects_offsets_past_its_size() {
    let mut w = Parts::new().writer(FlashSize::Sz16K);
    assert_eq!(w.write(16 * 1024 - 2, &vec![1, 2]), Ok(()));
    assert_eq!(w.write(16 * 1024, &vec![1, 2]), Err(Error::LengthTooLong));
}

#[test]
fn verification_can_be_switched_off() {
    let mut w = writer();
    w.change_verification(false);
    assert_eq!(w.write(0, &vec![1, 2]), Ok(()));
    assert_eq!(w.page_erase(0), Ok(()));
    assert!(!w.verify);
}
