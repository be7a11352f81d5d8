# sfdp_dfu

Firmware building blocks with their behaviour proved by Verus:

- `src/sfdp/`: decoding of JEDEC SFDP images (the SFDP header, parameter
  headers, the Basic Flash Parameter Table in its JESD216/A/C/F revisions,
  and the 4-byte Address Instruction Table), with a decode specification for
  every field and round-trip laws for the encoded enums and the memory
  density.
- `src/spi_flash.rs`: the decisions of a generic SPI NOR flash driver: which
  parameters to adopt from SFDP, command prefixes, bounds and alignment
  checks, and how a program operation is cut into page-sized pieces.
- `src/usb.rs`, `src/dfu.rs`: a USB DFU 1.1 class as a state machine over
  setup and data packets, with the protocol's transitions stated as laws.
- `src/tpm.rs`: the payload handling of an SPI TPM bridge and a mock TPM.

`app/` holds what talks to hardware or the kernel: the SPI transactions of
the flash driver (over `embedded-hal`'s `SpiDevice`), the USB transfer loop of
the DFU class, and the TPM bridge's event loop.
