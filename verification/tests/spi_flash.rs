//! Scenarios of the flash driver's decisions.
use sfdp_dfu::error::ErrorCode;
use sfdp_dfu::sfdp::reader::sfdp_bytes_needed;
use sfdp_dfu::spi_flash::{
    format_cmd_prefix, read_flash_parameters, sfdp_read_command, status_means_busy, InitStep,
    SpiFlashState,
};

/// An SFDP space with one basic flash parameter header of 16 words at 0x80,
/// for a flash of `density` (the raw density word).
fn sfdp_image(density: u32, word11: u32) -> Vec<u8> {
    let mut image = vec![0xffu8; 0x80 + 64];
    image[..16].copy_from_slice(&[
        0x53, 0x46, 0x44, 0x50, 0x05, 0x01, 0x00, 0xff, 0x00, 0x05, 0x01, 0x10, 0x80, 0x00, 0x00,
        0xff,
    ]);
    image[0x84..0x88].copy_from_slice(&density.to_le_bytes());
    image[0x80 + 40..0x80 + 44].copy_from_slice(&word11.to_le_bytes());
    image
}

/// A word 11 with 256-byte pages.
const WORD11_256: u32 = 0x0000_0080;

#[test]
fn format_prefixes() {
    assert_eq!(format_cmd_prefix(0x03, 0x0012_3456, 3), ([0x03, 0x12, 0x34, 0x56, 0], 4));
    assert_eq!(format_cmd_prefix(0x03, 0x7812_3456, 4), ([0x03, 0x78, 0x12, 0x34, 0x56], 5));
    assert_eq!(sfdp_read_command(0x0102_0304), [0x5A, 0x02, 0x03, 0x04, 0]);
}

#[test]
fn busy_from_status() {
    assert!(status_means_busy(Ok(0x01)));
    assert!(status_means_busy(Ok(0x03)));
    assert!(!status_means_busy(Ok(0x02)));
    assert!(status_means_busy(Err(ErrorCode::FLASH_GENERIC_BUSY)));
}

#[test]
fn uninitialized_driver_refuses() {
    let s = SpiFlashState::new();
    assert!(!s.initialized());
    assert_eq!(s.geometry(), Err(ErrorCode::FLASH_GENERIC_NOT_INITIALIZED));
    assert_eq!(s.read_command(0, 4), Err(ErrorCode::FLASH_GENERIC_NOT_INITIALIZED));
    assert_eq!(s.erase_command(0, 4096), Err(ErrorCode::FLASH_GENERIC_NOT_INITIALIZED));
    assert!(matches!(s.program_plan(0, 4), Err(ErrorCode::FLASH_GENERIC_NOT_INITIALIZED)));
}

#[test]
fn small_flash_uses_3_byte_addresses() {
    // 16 MiB: 128 Mbit, density 0x07ff_ffff.
    let image = sfdp_image(0x07ff_ffff, WORD11_256);
    let table = read_flash_parameters(&image).unwrap();
    let mut s = SpiFlashState::new();
    assert_eq!(s.configure(&table), Ok(InitStep::Done));
    assert!(s.initialized());
    assert_eq!(s.geometry(), Ok((16 * 1024 * 1024, 4096, 0x1_1000)));
    assert_eq!(s.read_command(0x0010_2030, 16), Ok(Some(vec![0x03, 0x10, 0x20, 0x30])));
    assert_eq!(s.read_command(0, 0), Ok(None));
    assert_eq!(
        s.read_command(16 * 1024 * 1024 - 1, 2),
        Err(ErrorCode::FLASH_GENERIC_ADDR_OUT_OF_BOUNDS)
    );
    assert_eq!(s.erase_command(0x1000, 4096), Ok(vec![0x20, 0x00, 0x10, 0x00]));
    assert_eq!(s.erase_command(0x1_0000, 65536), Ok(vec![0xD8, 0x01, 0x00, 0x00]));
    assert_eq!(s.erase_command(0x800, 4096), Err(ErrorCode::FLASH_GENERIC_ERASE_INVALID_ADDR));
    assert_eq!(s.erase_command(0, 8192), Err(ErrorCode::FLASH_GENERIC_ERASE_INVALID_SIZE));
    assert_eq!(
        s.erase_command(16 * 1024 * 1024, 4096),
        Err(ErrorCode::FLASH_GENERIC_ADDR_OUT_OF_BOUNDS)
    );
}

#[test]
fn large_flash_needs_4_byte_mode() {
    // 64 MiB: 512 Mbit, density 0x1fff_ffff.
    let image = sfdp_image(0x1fff_ffff, WORD11_256);
    let table = read_flash_parameters(&image).unwrap();
    let mut s = SpiFlashState::new();
    assert_eq!(s.configure(&table), Ok(InitStep::Enter4ByteMode));
    assert!(!s.initialized());
    s.finish_4byte_init();
    assert!(s.initialized());
    assert_eq!(s.read_command(0x0102_0304, 1), Ok(Some(vec![0x03, 0x01, 0x02, 0x03, 0x04])));
    assert_eq!(s.erase_command(0x0200_0000, 4096), Ok(vec![0x20, 0x02, 0x00, 0x00, 0x00]));
}

#[test]
fn wrong_page_size_is_refused() {
    // 512-byte pages.
    let image = sfdp_image(0x07ff_ffff, 0x0000_0090);
    let table = read_flash_parameters(&image).unwrap();
    let mut s = SpiFlashState::new();
    assert_eq!(s.configure(&table), Err(ErrorCode::FLASH_GENERIC_INVALID_PAGE_SIZE));
    assert!(!s.initialized());
}

#[test]
fn bad_sfdp_is_reported() {
    let mut image = sfdp_image(0x07ff_ffff, WORD11_256);
    image[0] = 0;
    assert!(matches!(
        read_flash_parameters(&image),
        Err(ErrorCode::FLASH_GENERIC_SFDP_INVALID_SIGNATURE)
    ));
    let mut image = sfdp_image(0x07ff_ffff, WORD11_256);
    image[11] = 2; // two words only
    assert!(matches!(
        read_flash_parameters(&image),
        Err(ErrorCode::FLASH_GENERIC_SFDP_PARAMETERS_TOO_SHORT)
    ));
}

#[test]
fn program_pieces_stop_at_window_boundaries() {
    let image = sfdp_image(0x07ff_ffff, WORD11_256);
    let table = read_flash_parameters(&image).unwrap();
    let mut s = SpiFlashState::new();
    s.configure(&table).unwrap();
    let plan = s.program_plan(0x0000_01f0, 0x220).unwrap();
    let pieces: Vec<(Vec<u8>, usize, usize)> =
        plan.into_iter().map(|c| (c.prefix, c.data_start, c.data_len)).collect();
    assert_eq!(
        pieces,
        vec![
            (vec![0x02, 0x00, 0x01, 0xf0], 0, 0x10),
            (vec![0x02, 0x00, 0x02, 0x00], 0x10, 0x100),
            (vec![0x02, 0x00, 0x03, 0x00], 0x110, 0x100),
            (vec![0x02, 0x00, 0x04, 0x00], 0x210, 0x10),
        ]
    );
    assert!(s.program_plan(0x100, 0).unwrap().is_empty());
}

#[test]
fn needed_bytes_grow_to_the_table() {
    let image = sfdp_image(0x07ff_ffff, WORD11_256);
    assert_eq!(sfdp_bytes_needed(&[]), 8);
    assert_eq!(sfdp_bytes_needed(&image[..8]), 16);
    assert_eq!(sfdp_bytes_needed(&image[..16]), 0x80 + 64);
    let needed = sfdp_bytes_needed(&image[..0x80 + 64]);
    assert_eq!(needed, 0x80 + 64);
    // Parsing the needed bytes gives what parsing more bytes gives.
    let mut longer = image.clone();
    longer.extend_from_slice(&[0u8; 100]);
    assert_eq!(read_flash_parameters(&image[..needed]), read_flash_parameters(&longer));
    // An invalid signature needs nothing more.
    assert_eq!(sfdp_bytes_needed(&[0u8; 8]), 8);
}
