//! Verified parsing of JEDEC SFDP (Serial Flash Discoverable Parameters)
//! tables, the decision logic of a generic SPI NOR flash driver, a USB DFU 1.1
//! class state machine, and the payload handling of an SPI TPM bridge.
pub mod bits;
pub mod error;
pub mod sfdp;
pub mod usb;
pub mod dfu;
pub mod spi_flash;
pub mod tpm;
