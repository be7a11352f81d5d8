//! Error codes reported by the library.
use vstd::prelude::*;

verus! {

/// The errors reported by the SFDP parser and the flash driver logic.
#[allow(non_camel_case_types)]
#[derive(Clone, Copy, Debug, PartialEq, Eq, Structural)]
pub enum ErrorCode {
    /// The SFDP header does not carry the `SFDP` signature.
    FLASH_GENERIC_SFDP_INVALID_SIGNATURE,
    /// The SFDP header announces a major revision other than 1.
    FLASH_GENERIC_SFDP_UNSUPPORTED_HEADER_MAJOR_REV,
    /// No usable parameter header was found for the requested table.
    FLASH_GENERIC_SFDP_NO_VALID_PARAMETER_HEADER_FOUND,
    /// A parameter table is shorter than its minimal size.
    FLASH_GENERIC_SFDP_PARAMETERS_TOO_SHORT,
    /// A parameter table length does not fit in memory.
    FLASH_GENERIC_SFDP_PARAMETERS_TOO_LONG,
    /// The memory density word cannot be represented or decoded.
    FLASH_GENERIC_SFDP_INVALID_MEMORY_DENSITY,
    /// A read reached past the end of the readable region.
    IO_READ_OUT_OF_BOUNDS,
    /// The flash driver was used before it was initialized.
    FLASH_GENERIC_NOT_INITIALIZED,
    /// An address range reaches past the end of the flash.
    FLASH_GENERIC_ADDR_OUT_OF_BOUNDS,
    /// A command could not be laid out in its buffer.
    FLASH_GENERIC_BAD_ALIGNMENT,
    /// The SPI bus reported a failure.
    FLASH_GENERIC_BUSY,
    /// An erase address is not aligned to the erase size.
    FLASH_GENERIC_ERASE_INVALID_ADDR,
    /// The erase size is not supported by the chip.
    FLASH_GENERIC_ERASE_INVALID_SIZE,
    /// The chip's page size is not supported by the driver.
    FLASH_GENERIC_INVALID_PAGE_SIZE,
}

} // verus!
