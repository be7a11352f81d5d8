//! The SFDP header and the parameter headers that follow it.
use vstd::prelude::*;

use crate::bits::{le_u32, read_le_u32};

verus! {

/// The signature word of an SFDP header.
#[derive(Clone, Copy, Debug, PartialEq, Eq, Structural)]
pub struct SfdpSignature(pub u32);

impl SfdpSignature {
    /// The bytes `S`, `F`, `D`, `P` read as a little-endian word.
    pub const EXPECTED_VALUE: u32 = 0x50444653;

    /// The expected signature.
    pub fn new() -> (r: Self)
        ensures
            r.0 == Self::EXPECTED_VALUE,
    {
        SfdpSignature(Self::EXPECTED_VALUE)
    }

    /// Whether this is the expected signature.
    pub fn is_valid(self) -> (r: bool)
        ensures
            r == (self.0 == Self::EXPECTED_VALUE),
    {
        self.0 == Self::EXPECTED_VALUE
    }
}

impl Default for SfdpSignature {
    fn default() -> (r: Self)
        ensures
            r.0 == Self::EXPECTED_VALUE,
    {
        Self::new()
    }
}

/// The access protocol byte of an SFDP header.
#[derive(Clone, Copy, Debug, PartialEq, Eq, Structural)]
pub struct AccessProtocol(pub u8);

impl AccessProtocol {
    pub const XSPI_NAND_CLASS2: u8 = 241;
    pub const SPI_NAND_CLASS_1: u8 = 244;
    pub const SPI_NAND_CLASS_2: u8 = 245;
    pub const XSPI_NOR_PROFILE_2_5B: u8 = 250;
    pub const XSPI_NOR_PROFILE_1_OCTAL_3B_8W: u8 = 252;
    pub const XSPI_NOR_PROFILE_1_OCTAL_4B_20W: u8 = 253;
    pub const XSPI_NOR_PROFILE_1_OCTAL_4B_8W: u8 = 254;
    pub const LEGACY: u8 = 255;
}

/// The 8-byte header at the start of the SFDP space.
#[derive(Clone, Copy, Debug, PartialEq, Eq, Structural)]
pub struct SfdpHeader {
    pub sig: SfdpSignature,
    pub minor_rev: u8,
    pub major_rev: u8,
    /// The number of parameter headers, minus one.
    pub num_parameter_header: u8,
    pub access_protocol: AccessProtocol,
}

/// The size in bytes of the SFDP header and of each parameter header.
pub const HEADER_LEN: usize = 8;

impl SfdpHeader {
    /// The header laid out in the 8 bytes of `s` starting at `off`.
    pub open spec fn decode(s: Seq<u8>, off: int) -> Self {
        SfdpHeader {
            sig: SfdpSignature(le_u32(s, off)),
            minor_rev: s[off + 4],
            major_rev: s[off + 5],
            num_parameter_header: s[off + 6],
            access_protocol: AccessProtocol(s[off + 7]),
        }
    }

    /// Reads the header from the 8 bytes of `s` starting at `off`.
    pub fn read_from(s: &[u8], off: usize) -> (r: Self)
        requires
            off + HEADER_LEN <= s.len(),
        ensures
            r == Self::decode(s@, off as int),
    {
        SfdpHeader {
            sig: SfdpSignature(read_le_u32(s, off)),
            minor_rev: s[off + 4],
            major_rev: s[off + 5],
            num_parameter_header: s[off + 6],
            access_protocol: AccessProtocol(s[off + 7]),
        }
    }
}

/// A 24-bit little-endian unsigned integer, held as its three bytes.
#[derive(Clone, Copy, Debug, PartialEq, Eq, Structural)]
pub struct U24(pub u8, pub u8, pub u8);

impl U24 {
    /// The value of the three bytes, least significant first.
    pub open spec fn value(self) -> nat {
        (self.0 + 0x100 * self.1 + 0x1_0000 * self.2) as nat
    }

    /// The three low bytes of `val`.
    pub open spec fn of(val: u32) -> Self {
        U24((val % 0x100) as u8, (val / 0x100 % 0x100) as u8, (val / 0x1_0000 % 0x100) as u8)
    }

    /// The low 24 bits of `val`.
    pub fn new(val: u32) -> (r: Self)
        ensures
            r == Self::of(val),
    {
        U24((val % 0x100) as u8, (val / 0x100 % 0x100) as u8, (val / 0x1_0000 % 0x100) as u8)
    }

    /// The value as a `u32`.
    pub fn as_u32(&self) -> (r: u32)
        ensures
            r == self.value(),
    {
        self.0 as u32 + 0x100 * (self.1 as u32) + 0x1_0000 * (self.2 as u32)
    }

    /// The value as a `usize`.
    pub fn as_usize(&self) -> (r: usize)
        ensures
            r == self.value(),
    {
        self.as_u32() as usize
    }
}

/// A `U24` made from a word holds the word's low 24 bits, and a `U24` made
/// from the value of another is that other.
pub proof fn lemma_u24_roundtrip(val: u32, u: U24)
    ensures
        U24::of(val).value() == val % 0x100_0000,
        U24::of(u.value() as u32) == u,
{
    let v = val as int;
    assert((v % 0x100) + 0x100 * (v / 0x100 % 0x100) + 0x1_0000 * (v / 0x1_0000 % 0x100) == v
        % 0x100_0000) by (nonlinear_arith)
        requires
            v >= 0,
    ;
    let w = u.value() as int;
    assert(w % 0x100 == u.0 && w / 0x100 % 0x100 == u.1 && w / 0x1_0000 % 0x100 == u.2)
        by (nonlinear_arith)
        requires
            w == u.0 + 0x100 * u.1 + 0x1_0000 * u.2,
            0 <= u.0 < 0x100,
            0 <= u.1 < 0x100,
            0 <= u.2 < 0x100,
    ;
}

/// The identifier of a parameter table, as assigned by JEDEC.
#[derive(Clone, Copy, Debug, PartialEq, Eq, Structural)]
pub struct FunctionSpecificParameterTableIdAssignments(pub u16);

impl FunctionSpecificParameterTableIdAssignments {
    /// The basic flash parameter table.
    pub const BASIC_FLASH: u16 = 0xFF00;
    /// The 4-byte address instruction table.
    pub const _4B_ADDRESS_INSTRUCTION_TABLE: u16 = 0xFF84;
}

/// A parameter header: which table it describes, its revision, its length
/// and where it lies in the SFDP space.
#[derive(Clone, Copy, Debug, PartialEq, Eq, Structural)]
pub struct ParameterHeader {
    pub parameter_id_lsb: u8,
    pub minor_rev: u8,
    pub major_rev: u8,
    pub len_in_dwords: u8,
    pub ptr: U24,
    pub parameter_id_msb: u8,
}

impl ParameterHeader {
    /// The parameter header laid out in the 8 bytes of `s` starting at `off`.
    pub open spec fn decode(s: Seq<u8>, off: int) -> Self {
        ParameterHeader {
            parameter_id_lsb: s[off],
            minor_rev: s[off + 1],
            major_rev: s[off + 2],
            len_in_dwords: s[off + 3],
            ptr: U24(s[off + 4], s[off + 5], s[off + 6]),
            parameter_id_msb: s[off + 7],
        }
    }

    /// Reads the parameter header from the 8 bytes of `s` starting at `off`.
    pub fn read_from(s: &[u8], off: usize) -> (r: Self)
        requires
            off + HEADER_LEN <= s.len(),
        ensures
            r == Self::decode(s@, off as int),
    {
        ParameterHeader {
            parameter_id_lsb: s[off],
            minor_rev: s[off + 1],
            major_rev: s[off + 2],
            len_in_dwords: s[off + 3],
            ptr: U24(s[off + 4], s[off + 5], s[off + 6]),
            parameter_id_msb: s[off + 7],
        }
    }

    /// The 16-bit table identifier: the most significant byte above the least.
    pub open spec fn id(self) -> u16 {
        (0x100 * self.parameter_id_msb + self.parameter_id_lsb) as u16
    }

    /// The table identifier.
    pub fn parameter_id(&self) -> (r: FunctionSpecificParameterTableIdAssignments)
        ensures
            r.0 == self.id(),
    {
        FunctionSpecificParameterTableIdAssignments(
            0x100 * (self.parameter_id_msb as u16) + self.parameter_id_lsb as u16,
        )
    }
}

} // verus!
