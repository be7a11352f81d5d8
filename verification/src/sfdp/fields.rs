//! The enumerated fields of the basic flash parameter table.
//!
//! Each field is decoded from the low bits of a byte: the bits above the
//! field's width are ignored, and every variant has one code.
use vstd::prelude::*;

use crate::bits::lemma_low_mask_u8;

verus! {

/// The legacy 4 KiB erase support field of the first basic flash word.
#[derive(Clone, Copy, Debug, PartialEq, Eq, Structural)]
pub enum LegacyEraseSizes {
    Reserved0,
    Erase4k,
    Reserved2,
    Erase4kNotAvailable,
}

impl LegacyEraseSizes {
    /// The 2-bit code of each variant.
    pub open spec fn encoding(self) -> u8 {
        match self {
            LegacyEraseSizes::Reserved0 => 0,
            LegacyEraseSizes::Erase4k => 1,
            LegacyEraseSizes::Reserved2 => 2,
            LegacyEraseSizes::Erase4kNotAvailable => 3,
        }
    }

    /// The variant that the low 2 bits of `bits` select.
    pub open spec fn decode(bits: u8) -> Self {
        let v = bits & 3;
        if v == 0 {
            LegacyEraseSizes::Reserved0
        } else if v == 1 {
            LegacyEraseSizes::Erase4k
        } else if v == 2 {
            LegacyEraseSizes::Reserved2
        } else {
            LegacyEraseSizes::Erase4kNotAvailable
        }
    }

    /// Decodes the low 2 bits of `bits`.
    pub fn from_bits(bits: u8) -> (r: Self)
        ensures
            r == Self::decode(bits),
    {
        match bits & 3 {
            0 => LegacyEraseSizes::Reserved0,
            1 => LegacyEraseSizes::Erase4k,
            2 => LegacyEraseSizes::Reserved2,
            _ => LegacyEraseSizes::Erase4kNotAvailable,
        }
    }

    /// The code of this variant.
    pub fn into_bits(self) -> (r: u8)
        ensures
            r == self.encoding(),
    {
        match self {
            LegacyEraseSizes::Reserved0 => 0,
            LegacyEraseSizes::Erase4k => 1,
            LegacyEraseSizes::Reserved2 => 2,
            LegacyEraseSizes::Erase4kNotAvailable => 3,
        }
    }
}

/// Decoding the code of a variant gives the variant back, and the code of
/// a decoded value is the low 2 bits of what was decoded.
pub proof fn lemma_legacy_erase_sizes_roundtrip(e: LegacyEraseSizes, bits: u8)
    ensures
        LegacyEraseSizes::decode(e.encoding()) == e,
        LegacyEraseSizes::decode(bits).encoding() == bits & 3,
{
    lemma_low_mask_u8(e.encoding(), 3);
    lemma_low_mask_u8(bits, 3);
}

/// The legacy write granularity flag of the first basic flash word.
#[derive(Clone, Copy, Debug, PartialEq, Eq, Structural)]
pub enum LegacyWriteGranularity {
    SingleByte,
    Buffer64,
}

impl LegacyWriteGranularity {
    /// The 1-bit code of each variant.
    pub open spec fn encoding(self) -> u8 {
        match self {
            LegacyWriteGranularity::SingleByte => 0,
            LegacyWriteGranularity::Buffer64 => 1,
        }
    }

    /// The variant that the low 1 bit of `bits` select.
    pub open spec fn decode(bits: u8) -> Self {
        let v = bits & 1;
        if v == 0 {
            LegacyWriteGranularity::SingleByte
        } else {
            LegacyWriteGranularity::Buffer64
        }
    }

    /// Decodes the low 1 bit of `bits`.
    pub fn from_bits(bits: u8) -> (r: Self)
        ensures
            r == Self::decode(bits),
    {
        match bits & 1 {
            0 => LegacyWriteGranularity::SingleByte,
            _ => LegacyWriteGranularity::Buffer64,
        }
    }

    /// The code of this variant.
    pub fn into_bits(self) -> (r: u8)
        ensures
            r == self.encoding(),
    {
        match self {
            LegacyWriteGranularity::SingleByte => 0,
            LegacyWriteGranularity::Buffer64 => 1,
        }
    }
}

/// Decoding the code of a variant gives the variant back, and the code of
/// a decoded value is the low 1 bit of what was decoded.
pub proof fn lemma_legacy_write_granularity_roundtrip(e: LegacyWriteGranularity, bits: u8)
    ensures
        LegacyWriteGranularity::decode(e.encoding()) == e,
        LegacyWriteGranularity::decode(bits).encoding() == bits & 1,
{
    lemma_low_mask_u8(e.encoding(), 1);
    lemma_low_mask_u8(bits, 1);
}

/// The number of address bytes the device accepts.
#[allow(non_camel_case_types)]
#[derive(Clone, Copy, Debug, PartialEq, Eq, Structural)]
pub enum AddressBytes {
    _3ByteOnly,
    _3Or4Byte,
    _4ByteOnly,
    Reserved3,
}

impl AddressBytes {
    /// The 2-bit code of each variant.
    pub open spec fn encoding(self) -> u8 {
        match self {
            AddressBytes::_3ByteOnly => 0,
            AddressBytes::_3Or4Byte => 1,
            AddressBytes::_4ByteOnly => 2,
            AddressBytes::Reserved3 => 3,
        }
    }

    /// The variant that the low 2 bits of `bits` select.
    pub open spec fn decode(bits: u8) -> Self {
        let v = bits & 3;
        if v == 0 {
            AddressBytes::_3ByteOnly
        } else if v == 1 {
            AddressBytes::_3Or4Byte
        } else if v == 2 {
            AddressBytes::_4ByteOnly
        } else {
            AddressBytes::Reserved3
        }
    }

    /// Decodes the low 2 bits of `bits`.
    pub fn from_bits(bits: u8) -> (r: Self)
        ensures
            r == Self::decode(bits),
    {
        match bits & 3 {
            0 => AddressBytes::_3ByteOnly,
            1 => AddressBytes::_3Or4Byte,
            2 => AddressBytes::_4ByteOnly,
            _ => AddressBytes::Reserved3,
        }
    }

    /// The code of this variant.
    pub fn into_bits(self) -> (r: u8)
        ensures
            r == self.encoding(),
    {
        match self {
            AddressBytes::_3ByteOnly => 0,
            AddressBytes::_3Or4Byte => 1,
            AddressBytes::_4ByteOnly => 2,
            AddressBytes::Reserved3 => 3,
        }
    }
}

/// Decoding the code of a variant gives the variant back, and the code of
/// a decoded value is the low 2 bits of what was decoded.
pub proof fn lemma_address_bytes_roundtrip(e: AddressBytes, bits: u8)
    ensures
        AddressBytes::decode(e.encoding()) == e,
        AddressBytes::decode(bits).encoding() == bits & 3,
{
    lemma_low_mask_u8(e.encoding(), 3);
    lemma_low_mask_u8(bits, 3);
}

/// The unit of a typical sector erase time.
#[allow(non_camel_case_types)]
#[derive(Clone, Copy, Debug, PartialEq, Eq, Structural)]
pub enum EraseTimeUnit {
    _1ms,
    _16ms,
    _128ms,
    _1s,
}

impl EraseTimeUnit {
    /// The 2-bit code of each variant.
    pub open spec fn encoding(self) -> u8 {
        match self {
            EraseTimeUnit::_1ms => 0,
            EraseTimeUnit::_16ms => 1,
            EraseTimeUnit::_128ms => 2,
            EraseTimeUnit::_1s => 3,
        }
    }

    /// The variant that the low 2 bits of `bits` select.
    pub open spec fn decode(bits: u8) -> Self {
        let v = bits & 3;
        if v == 0 {
            EraseTimeUnit::_1ms
        } else if v == 1 {
            EraseTimeUnit::_16ms
        } else if v == 2 {
            EraseTimeUnit::_128ms
        } else {
            EraseTimeUnit::_1s
        }
    }

    /// Decodes the low 2 bits of `bits`.
    pub fn from_bits(bits: u8) -> (r: Self)
        ensures
            r == Self::decode(bits),
    {
        match bits & 3 {
            0 => EraseTimeUnit::_1ms,
            1 => EraseTimeUnit::_16ms,
            2 => EraseTimeUnit::_128ms,
            _ => EraseTimeUnit::_1s,
        }
    }

    /// The code of this variant.
    pub fn into_bits(self) -> (r: u8)
        ensures
            r == self.encoding(),
    {
        match self {
            EraseTimeUnit::_1ms => 0,
            EraseTimeUnit::_16ms => 1,
            EraseTimeUnit::_128ms => 2,
            EraseTimeUnit::_1s => 3,
        }
    }
}

/// Decoding the code of a variant gives the variant back, and the code of
/// a decoded value is the low 2 bits of what was decoded.
pub proof fn lemma_erase_time_unit_roundtrip(e: EraseTimeUnit, bits: u8)
    ensures
        EraseTimeUnit::decode(e.encoding()) == e,
        EraseTimeUnit::decode(bits).encoding() == bits & 3,
{
    lemma_low_mask_u8(e.encoding(), 3);
    lemma_low_mask_u8(bits, 3);
}

/// The unit of a typical page program time.
#[allow(non_camel_case_types)]
#[derive(Clone, Copy, Debug, PartialEq, Eq, Structural)]
pub enum PageProgramTimeUnit {
    _8us,
    _64us,
}

impl PageProgramTimeUnit {
    /// The 1-bit code of each variant.
    pub open spec fn encoding(self) -> u8 {
        match self {
            PageProgramTimeUnit::_8us => 0,
            PageProgramTimeUnit::_64us => 1,
        }
    }

    /// The variant that the low 1 bit of `bits` select.
    pub open spec fn decode(bits: u8) -> Self {
        let v = bits & 1;
        if v == 0 {
            PageProgramTimeUnit::_8us
        } else {
            PageProgramTimeUnit::_64us
        }
    }

    /// Decodes the low 1 bit of `bits`.
    pub fn from_bits(bits: u8) -> (r: Self)
        ensures
            r == Self::decode(bits),
    {
        match bits & 1 {
            0 => PageProgramTimeUnit::_8us,
            _ => PageProgramTimeUnit::_64us,
        }
    }

    /// The code of this variant.
    pub fn into_bits(self) -> (r: u8)
        ensures
            r == self.encoding(),
    {
        match self {
            PageProgramTimeUnit::_8us => 0,
            PageProgramTimeUnit::_64us => 1,
        }
    }
}

/// Decoding the code of a variant gives the variant back, and the code of
/// a decoded value is the low 1 bit of what was decoded.
pub proof fn lemma_page_program_time_unit_roundtrip(e: PageProgramTimeUnit, bits: u8)
    ensures
        PageProgramTimeUnit::decode(e.encoding()) == e,
        PageProgramTimeUnit::decode(bits).encoding() == bits & 1,
{
    lemma_low_mask_u8(e.encoding(), 1);
    lemma_low_mask_u8(bits, 1);
}

/// The unit of a typical byte program time.
#[allow(non_camel_case_types)]
#[derive(Clone, Copy, Debug, PartialEq, Eq, Structural)]
pub enum ByteProgramTimeUnit {
    _1us,
    _8us,
}

impl ByteProgramTimeUnit {
    /// The 1-bit code of each variant.
    pub open spec fn encoding(self) -> u8 {
        match self {
            ByteProgramTimeUnit::_1us => 0,
            ByteProgramTimeUnit::_8us => 1,
        }
    }

    /// The variant that the low 1 bit of `bits` select.
    pub open spec fn decode(bits: u8) -> Self {
        let v = bits & 1;
        if v == 0 {
            ByteProgramTimeUnit::_1us
        } else {
            ByteProgramTimeUnit::_8us
        }
    }

    /// Decodes the low 1 bit of `bits`.
    pub fn from_bits(bits: u8) -> (r: Self)
        ensures
            r == Self::decode(bits),
    {
        match bits & 1 {
            0 => ByteProgramTimeUnit::_1us,
            _ => ByteProgramTimeUnit::_8us,
        }
    }

    /// The code of this variant.
    pub fn into_bits(self) -> (r: u8)
        ensures
            r == self.encoding(),
    {
        match self {
            ByteProgramTimeUnit::_1us => 0,
            ByteProgramTimeUnit::_8us => 1,
        }
    }
}

/// Decoding the code of a variant gives the variant back, and the code of
/// a decoded value is the low 1 bit of what was decoded.
pub proof fn lemma_byte_program_time_unit_roundtrip(e: ByteProgramTimeUnit, bits: u8)
    ensures
        ByteProgramTimeUnit::decode(e.encoding()) == e,
        ByteProgramTimeUnit::decode(bits).encoding() == bits & 1,
{
    lemma_low_mask_u8(e.encoding(), 1);
    lemma_low_mask_u8(bits, 1);
}

/// The unit of a typical chip erase time.
#[allow(non_camel_case_types)]
#[derive(Clone, Copy, Debug, PartialEq, Eq, Structural)]
pub enum ChipEraseTimeUnit {
    _16ms,
    _256ms,
    _4s,
    _64s,
}

impl ChipEraseTimeUnit {
    /// The 2-bit code of each variant.
    pub open spec fn encoding(self) -> u8 {
        match self {
            ChipEraseTimeUnit::_16ms => 0,
            ChipEraseTimeUnit::_256ms => 1,
            ChipEraseTimeUnit::_4s => 2,
            ChipEraseTimeUnit::_64s => 3,
        }
    }

    /// The variant that the low 2 bits of `bits` select.
    pub open spec fn decode(bits: u8) -> Self {
        let v = bits & 3;
        if v == 0 {
            ChipEraseTimeUnit::_16ms
        } else if v == 1 {
            ChipEraseTimeUnit::_256ms
        } else if v == 2 {
            ChipEraseTimeUnit::_4s
        } else {
            ChipEraseTimeUnit::_64s
        }
    }

    /// Decodes the low 2 bits of `bits`.
    pub fn from_bits(bits: u8) -> (r: Self)
        ensures
            r == Self::decode(bits),
    {
        match bits & 3 {
            0 => ChipEraseTimeUnit::_16ms,
            1 => ChipEraseTimeUnit::_256ms,
            2 => ChipEraseTimeUnit::_4s,
            _ => ChipEraseTimeUnit::_64s,
        }
    }

    /// The code of this variant.
    pub fn into_bits(self) -> (r: u8)
        ensures
            r == self.encoding(),
    {
        match self {
            ChipEraseTimeUnit::_16ms => 0,
            ChipEraseTimeUnit::_256ms => 1,
            ChipEraseTimeUnit::_4s => 2,
            ChipEraseTimeUnit::_64s => 3,
        }
    }
}

/// Decoding the code of a variant gives the variant back, and the code of
/// a decoded value is the low 2 bits of what was decoded.
pub proof fn lemma_chip_erase_time_unit_roundtrip(e: ChipEraseTimeUnit, bits: u8)
    ensures
        ChipEraseTimeUnit::decode(e.encoding()) == e,
        ChipEraseTimeUnit::decode(bits).encoding() == bits & 3,
{
    lemma_low_mask_u8(e.encoding(), 3);
    lemma_low_mask_u8(bits, 3);
}

/// The unit of the suspend latencies and power-down delays.
#[allow(non_camel_case_types)]
#[derive(Clone, Copy, Debug, PartialEq, Eq, Structural)]
pub enum DurationEnumAUnit {
    _128ns,
    _1us,
    _8us,
    _64us,
}

impl DurationEnumAUnit {
    /// The 2-bit code of each variant.
    pub open spec fn encoding(self) -> u8 {
        match self {
            DurationEnumAUnit::_128ns => 0,
            DurationEnumAUnit::_1us => 1,
            DurationEnumAUnit::_8us => 2,
            DurationEnumAUnit::_64us => 3,
        }
    }

    /// The variant that the low 2 bits of `bits` select.
    pub open spec fn decode(bits: u8) -> Self {
        let v = bits & 3;
        if v == 0 {
            DurationEnumAUnit::_128ns
        } else if v == 1 {
            DurationEnumAUnit::_1us
        } else if v == 2 {
            DurationEnumAUnit::_8us
        } else {
            DurationEnumAUnit::_64us
        }
    }

    /// Decodes the low 2 bits of `bits`.
    pub fn from_bits(bits: u8) -> (r: Self)
        ensures
            r == Self::decode(bits),
    {
        match bits & 3 {
            0 => DurationEnumAUnit::_128ns,
            1 => DurationEnumAUnit::_1us,
            2 => DurationEnumAUnit::_8us,
            _ => DurationEnumAUnit::_64us,
        }
    }

    /// The code of this variant.
    pub fn into_bits(self) -> (r: u8)
        ensures
            r == self.encoding(),
    {
        match self {
            DurationEnumAUnit::_128ns => 0,
            DurationEnumAUnit::_1us => 1,
            DurationEnumAUnit::_8us => 2,
            DurationEnumAUnit::_64us => 3,
        }
    }
}

/// Decoding the code of a variant gives the variant back, and the code of
/// a decoded value is the low 2 bits of what was decoded.
pub proof fn lemma_duration_enum_a_unit_roundtrip(e: DurationEnumAUnit, bits: u8)
    ensures
        DurationEnumAUnit::decode(e.encoding()) == e,
        DurationEnumAUnit::decode(bits).encoding() == bits & 3,
{
    lemma_low_mask_u8(e.encoding(), 3);
    lemma_low_mask_u8(bits, 3);
}

/// How the quad enable (QE) bit is set, if at all.
#[derive(Clone, Copy, Debug, PartialEq, Eq, Structural)]
pub enum QuadEnableRequirements {
    NoQeBit,
    QeBit1SR2A,
    QeBit6SR1,
    QeBit7SR2B,
    QeBit1SR2C,
    QeBit1SR2D,
    QeBit1SR2E,
    Reserved,
}

impl QuadEnableRequirements {
    /// The 3-bit code of each variant.
    pub open spec fn encoding(self) -> u8 {
        match self {
            QuadEnableRequirements::NoQeBit => 0,
            QuadEnableRequirements::QeBit1SR2A => 1,
            QuadEnableRequirements::QeBit6SR1 => 2,
            QuadEnableRequirements::QeBit7SR2B => 3,
            QuadEnableRequirements::QeBit1SR2C => 4,
            QuadEnableRequirements::QeBit1SR2D => 5,
            QuadEnableRequirements::QeBit1SR2E => 6,
            QuadEnableRequirements::Reserved => 7,
        }
    }

    /// The variant that the low 3 bits of `bits` select.
    pub open spec fn decode(bits: u8) -> Self {
        let v = bits & 7;
        if v == 0 {
            QuadEnableRequirements::NoQeBit
        } else if v == 1 {
            QuadEnableRequirements::QeBit1SR2A
        } else if v == 2 {
            QuadEnableRequirements::QeBit6SR1
        } else if v == 3 {
            QuadEnableRequirements::QeBit7SR2B
        } else if v == 4 {
            QuadEnableRequirements::QeBit1SR2C
        } else if v == 5 {
            QuadEnableRequirements::QeBit1SR2D
        } else if v == 6 {
            QuadEnableRequirements::QeBit1SR2E
        } else {
            QuadEnableRequirements::Reserved
        }
    }

    /// Decodes the low 3 bits of `bits`.
    pub fn from_bits(bits: u8) -> (r: Self)
        ensures
            r == Self::decode(bits),
    {
        match bits & 7 {
            0 => QuadEnableRequirements::NoQeBit,
            1 => QuadEnableRequirements::QeBit1SR2A,
            2 => QuadEnableRequirements::QeBit6SR1,
            3 => QuadEnableRequirements::QeBit7SR2B,
            4 => QuadEnableRequirements::QeBit1SR2C,
            5 => QuadEnableRequirements::QeBit1SR2D,
            6 => QuadEnableRequirements::QeBit1SR2E,
            _ => QuadEnableRequirements::Reserved,
        }
    }

    /// The code of this variant.
    pub fn into_bits(self) -> (r: u8)
        ensures
            r == self.encoding(),
    {
        match self {
            QuadEnableRequirements::NoQeBit => 0,
            QuadEnableRequirements::QeBit1SR2A => 1,
            QuadEnableRequirements::QeBit6SR1 => 2,
            QuadEnableRequirements::QeBit7SR2B => 3,
            QuadEnableRequirements::QeBit1SR2C => 4,
            QuadEnableRequirements::QeBit1SR2D => 5,
            QuadEnableRequirements::QeBit1SR2E => 6,
            QuadEnableRequirements::Reserved => 7,
        }
    }
}

/// Decoding the code of a variant gives the variant back, and the code of
/// a decoded value is the low 3 bits of what was decoded.
pub proof fn lemma_quad_enable_requirements_roundtrip(e: QuadEnableRequirements, bits: u8)
    ensures
        QuadEnableRequirements::decode(e.encoding()) == e,
        QuadEnableRequirements::decode(bits).encoding() == bits & 7,
{
    lemma_low_mask_u8(e.encoding(), 7);
    lemma_low_mask_u8(bits, 7);
}

/// The data strobe waveform used in STR modes.
#[derive(Clone, Copy, Debug, PartialEq, Eq, Structural)]
pub enum DataStrobeWaveformStr {
    Reserved,
    DataStartRisingDS,
    RisingDSMiddleData,
    RisingDsBeforeData,
}

impl DataStrobeWaveformStr {
    /// The 2-bit code of each variant.
    pub open spec fn encoding(self) -> u8 {
        match self {
            DataStrobeWaveformStr::Reserved => 0,
            DataStrobeWaveformStr::DataStartRisingDS => 1,
            DataStrobeWaveformStr::RisingDSMiddleData => 2,
            DataStrobeWaveformStr::RisingDsBeforeData => 3,
        }
    }

    /// The variant that the low 2 bits of `bits` select.
    pub open spec fn decode(bits: u8) -> Self {
        let v = bits & 3;
        if v == 0 {
            DataStrobeWaveformStr::Reserved
        } else if v == 1 {
            DataStrobeWaveformStr::DataStartRisingDS
        } else if v == 2 {
            DataStrobeWaveformStr::RisingDSMiddleData
        } else {
            DataStrobeWaveformStr::RisingDsBeforeData
        }
    }

    /// Decodes the low 2 bits of `bits`.
    pub fn from_bits(bits: u8) -> (r: Self)
        ensures
            r == Self::decode(bits),
    {
        match bits & 3 {
            0 => DataStrobeWaveformStr::Reserved,
            1 => DataStrobeWaveformStr::DataStartRisingDS,
            2 => DataStrobeWaveformStr::RisingDSMiddleData,
            _ => DataStrobeWaveformStr::RisingDsBeforeData,
        }
    }

    /// The code of this variant.
    pub fn into_bits(self) -> (r: u8)
        ensures
            r == self.encoding(),
    {
        match self {
            DataStrobeWaveformStr::Reserved => 0,
            DataStrobeWaveformStr::DataStartRisingDS => 1,
            DataStrobeWaveformStr::RisingDSMiddleData => 2,
            DataStrobeWaveformStr::RisingDsBeforeData => 3,
        }
    }
}

/// Decoding the code of a variant gives the variant back, and the code of
/// a decoded value is the low 2 bits of what was decoded.
pub proof fn lemma_data_strobe_waveform_str_roundtrip(e: DataStrobeWaveformStr, bits: u8)
    ensures
        DataStrobeWaveformStr::decode(e.encoding()) == e,
        DataStrobeWaveformStr::decode(bits).encoding() == bits & 3,
{
    lemma_low_mask_u8(e.encoding(), 3);
    lemma_low_mask_u8(bits, 3);
}

/// How the command extension is formed in 8D-8D-8D mode.
#[derive(Clone, Copy, Debug, PartialEq, Eq, Structural)]
pub enum OctalDtrCmd {
    CmdExtSameAsCmd,
    CmdExtInverseCmd,
    Reserved,
    CmdAndCmdExtMake16b,
}

impl OctalDtrCmd {
    /// The 2-bit code of each variant.
    pub open spec fn encoding(self) -> u8 {
        match self {
            OctalDtrCmd::CmdExtSameAsCmd => 0,
            OctalDtrCmd::CmdExtInverseCmd => 1,
            OctalDtrCmd::Reserved => 2,
            OctalDtrCmd::CmdAndCmdExtMake16b => 3,
        }
    }

    /// The variant that the low 2 bits of `bits` select.
    pub open spec fn decode(bits: u8) -> Self {
        let v = bits & 3;
        if v == 0 {
            OctalDtrCmd::CmdExtSameAsCmd
        } else if v == 1 {
            OctalDtrCmd::CmdExtInverseCmd
        } else if v == 2 {
            OctalDtrCmd::Reserved
        } else {
            OctalDtrCmd::CmdAndCmdExtMake16b
        }
    }

    /// Decodes the low 2 bits of `bits`.
    pub fn from_bits(bits: u8) -> (r: Self)
        ensures
            r == Self::decode(bits),
    {
        match bits & 3 {
            0 => OctalDtrCmd::CmdExtSameAsCmd,
            1 => OctalDtrCmd::CmdExtInverseCmd,
            2 => OctalDtrCmd::Reserved,
            _ => OctalDtrCmd::CmdAndCmdExtMake16b,
        }
    }

    /// The code of this variant.
    pub fn into_bits(self) -> (r: u8)
        ensures
            r == self.encoding(),
    {
        match self {
            OctalDtrCmd::CmdExtSameAsCmd => 0,
            OctalDtrCmd::CmdExtInverseCmd => 1,
            OctalDtrCmd::Reserved => 2,
            OctalDtrCmd::CmdAndCmdExtMake16b => 3,
        }
    }
}

/// Decoding the code of a variant gives the variant back, and the code of
/// a decoded value is the low 2 bits of what was decoded.
pub proof fn lemma_octal_dtr_cmd_roundtrip(e: OctalDtrCmd, bits: u8)
    ensures
        OctalDtrCmd::decode(e.encoding()) == e,
        OctalDtrCmd::decode(bits).encoding() == bits & 3,
{
    lemma_low_mask_u8(e.encoding(), 3);
    lemma_low_mask_u8(bits, 3);
}

/// The byte order of 8D-8D-8D mode.
#[derive(Clone, Copy, Debug, PartialEq, Eq, Structural)]
pub enum ByteOrder8D8D8D {
    SameAs1S1S1S,
    Swapped,
}

impl ByteOrder8D8D8D {
    /// The 1-bit code of each variant.
    pub open spec fn encoding(self) -> u8 {
        match self {
            ByteOrder8D8D8D::SameAs1S1S1S => 0,
            ByteOrder8D8D8D::Swapped => 1,
        }
    }

    /// The variant that the low 1 bit of `bits` select.
    pub open spec fn decode(bits: u8) -> Self {
        let v = bits & 1;
        if v == 0 {
            ByteOrder8D8D8D::SameAs1S1S1S
        } else {
            ByteOrder8D8D8D::Swapped
        }
    }

    /// Decodes the low 1 bit of `bits`.
    pub fn from_bits(bits: u8) -> (r: Self)
        ensures
            r == Self::decode(bits),
    {
        match bits & 1 {
            0 => ByteOrder8D8D8D::SameAs1S1S1S,
            _ => ByteOrder8D8D8D::Swapped,
        }
    }

    /// The code of this variant.
    pub fn into_bits(self) -> (r: u8)
        ensures
            r == self.encoding(),
    {
        match self {
            ByteOrder8D8D8D::SameAs1S1S1S => 0,
            ByteOrder8D8D8D::Swapped => 1,
        }
    }
}

/// Decoding the code of a variant gives the variant back, and the code of
/// a decoded value is the low 1 bit of what was decoded.
pub proof fn lemma_byte_order8_d8_d8_d_roundtrip(e: ByteOrder8D8D8D, bits: u8)
    ensures
        ByteOrder8D8D8D::decode(e.encoding()) == e,
        ByteOrder8D8D8D::decode(bits).encoding() == bits & 1,
{
    lemma_low_mask_u8(e.encoding(), 1);
    lemma_low_mask_u8(bits, 1);
}

/// How octal mode is enabled, if at all.
#[derive(Clone, Copy, Debug, PartialEq, Eq, Structural)]
pub enum OctalEnableReqs {
    NoOctalEnableBit,
    OctalEnableIsBit3,
    Reserved0,
    Reserved1,
    Reserved2,
    Reserved3,
    Reserved4,
}

impl OctalEnableReqs {
    /// The 3-bit code of each variant.
    pub open spec fn encoding(self) -> u8 {
        match self {
            OctalEnableReqs::NoOctalEnableBit => 0,
            OctalEnableReqs::OctalEnableIsBit3 => 1,
            OctalEnableReqs::Reserved0 => 2,
            OctalEnableReqs::Reserved1 => 4,
            OctalEnableReqs::Reserved2 => 5,
            OctalEnableReqs::Reserved3 => 6,
            OctalEnableReqs::Reserved4 => 7,
        }
    }

    /// The variant that the low 3 bits of `bits` select.
    pub open spec fn decode(bits: u8) -> Self {
        let v = bits & 7;
        if v == 0 {
            OctalEnableReqs::NoOctalEnableBit
        } else if v == 1 {
            OctalEnableReqs::OctalEnableIsBit3
        } else if v == 2 {
            OctalEnableReqs::Reserved0
        } else if v == 4 {
            OctalEnableReqs::Reserved1
        } else if v == 5 {
            OctalEnableReqs::Reserved2
        } else if v == 6 {
            OctalEnableReqs::Reserved3
        } else {
            OctalEnableReqs::Reserved4
        }
    }

    /// Decodes the low 3 bits of `bits`.
    pub fn from_bits(bits: u8) -> (r: Self)
        ensures
            r == Self::decode(bits),
    {
        match bits & 7 {
            0 => OctalEnableReqs::NoOctalEnableBit,
            1 => OctalEnableReqs::OctalEnableIsBit3,
            2 => OctalEnableReqs::Reserved0,
            4 => OctalEnableReqs::Reserved1,
            5 => OctalEnableReqs::Reserved2,
            6 => OctalEnableReqs::Reserved3,
            _ => OctalEnableReqs::Reserved4,
        }
    }

    /// The code of this variant.
    pub fn into_bits(self) -> (r: u8)
        ensures
            r == self.encoding(),
    {
        match self {
            OctalEnableReqs::NoOctalEnableBit => 0,
            OctalEnableReqs::OctalEnableIsBit3 => 1,
            OctalEnableReqs::Reserved0 => 2,
            OctalEnableReqs::Reserved1 => 4,
            OctalEnableReqs::Reserved2 => 5,
            OctalEnableReqs::Reserved3 => 6,
            OctalEnableReqs::Reserved4 => 7,
        }
    }
}

/// Decoding the code of a variant gives the variant back, and the code of
/// a decoded value is the low 3 bits of what was decoded, except for the
/// unassigned code 3, which decodes to `Reserved4`.
pub proof fn lemma_octal_enable_reqs_roundtrip(e: OctalEnableReqs, bits: u8)
    ensures
        OctalEnableReqs::decode(e.encoding()) == e,
        bits & 7 != 3 ==> OctalEnableReqs::decode(bits).encoding() == bits & 7,
        bits & 7 == 3 ==> OctalEnableReqs::decode(bits) == OctalEnableReqs::Reserved4,
{
    lemma_low_mask_u8(e.encoding(), 7);
    lemma_low_mask_u8(bits, 7);
}

/// A maximum clock speed code.
#[allow(non_camel_case_types)]
#[derive(Clone, Copy, Debug, PartialEq, Eq, Structural)]
pub enum MaxSpeed {
    Reserved0,
    _33Mhz,
    _50Mhz,
    _66Mhz,
    _80Mhz,
    _100Mhz,
    _133Mhz,
    _166Mhz,
    _200Mhz,
    _250Mhz,
    _266Mhz,
    _333Mhz,
    _400Mhz,
    Reserved1,
    NotCharacterized,
    NotSupported,
}

impl MaxSpeed {
    /// The 4-bit code of each variant.
    pub open spec fn encoding(self) -> u8 {
        match self {
            MaxSpeed::Reserved0 => 0,
            MaxSpeed::_33Mhz => 1,
            MaxSpeed::_50Mhz => 2,
            MaxSpeed::_66Mhz => 3,
            MaxSpeed::_80Mhz => 4,
            MaxSpeed::_100Mhz => 5,
            MaxSpeed::_133Mhz => 6,
            MaxSpeed::_166Mhz => 7,
            MaxSpeed::_200Mhz => 8,
            MaxSpeed::_250Mhz => 9,
            MaxSpeed::_266Mhz => 10,
            MaxSpeed::_333Mhz => 11,
            MaxSpeed::_400Mhz => 12,
            MaxSpeed::Reserved1 => 13,
            MaxSpeed::NotCharacterized => 14,
            MaxSpeed::NotSupported => 15,
        }
    }

    /// The variant that the low 4 bits of `bits` select.
    pub open spec fn decode(bits: u8) -> Self {
        let v = bits & 15;
        if v == 0 {
            MaxSpeed::Reserved0
        } else if v == 1 {
            MaxSpeed::_33Mhz
        } else if v == 2 {
            MaxSpeed::_50Mhz
        } else if v == 3 {
            MaxSpeed::_66Mhz
        } else if v == 4 {
            MaxSpeed::_80Mhz
        } else if v == 5 {
            MaxSpeed::_100Mhz
        } else if v == 6 {
            MaxSpeed::_133Mhz
        } else if v == 7 {
            MaxSpeed::_166Mhz
        } else if v == 8 {
            MaxSpeed::_200Mhz
        } else if v == 9 {
            MaxSpeed::_250Mhz
        } else if v == 10 {
            MaxSpeed::_266Mhz
        } else if v == 11 {
            MaxSpeed::_333Mhz
        } else if v == 12 {
            MaxSpeed::_400Mhz
        } else if v == 13 {
            MaxSpeed::Reserved1
        } else if v == 14 {
            MaxSpeed::NotCharacterized
        } else {
            MaxSpeed::NotSupported
        }
    }

    /// Decodes the low 4 bits of `bits`.
    pub fn from_bits(bits: u8) -> (r: Self)
        ensures
            r == Self::decode(bits),
    {
        match bits & 15 {
            0 => MaxSpeed::Reserved0,
            1 => MaxSpeed::_33Mhz,
            2 => MaxSpeed::_50Mhz,
            3 => MaxSpeed::_66Mhz,
            4 => MaxSpeed::_80Mhz,
            5 => MaxSpeed::_100Mhz,
            6 => MaxSpeed::_133Mhz,
            7 => MaxSpeed::_166Mhz,
            8 => MaxSpeed::_200Mhz,
            9 => MaxSpeed::_250Mhz,
            10 => MaxSpeed::_266Mhz,
            11 => MaxSpeed::_333Mhz,
            12 => MaxSpeed::_400Mhz,
            13 => MaxSpeed::Reserved1,
            14 => MaxSpeed::NotCharacterized,
            _ => MaxSpeed::NotSupported,
        }
    }

    /// The code of this variant.
    pub fn into_bits(self) -> (r: u8)
        ensures
            r == self.encoding(),
    {
        match self {
            MaxSpeed::Reserved0 => 0,
            MaxSpeed::_33Mhz => 1,
            MaxSpeed::_50Mhz => 2,
            MaxSpeed::_66Mhz => 3,
            MaxSpeed::_80Mhz => 4,
            MaxSpeed::_100Mhz => 5,
            MaxSpeed::_133Mhz => 6,
            MaxSpeed::_166Mhz => 7,
            MaxSpeed::_200Mhz => 8,
            MaxSpeed::_250Mhz => 9,
            MaxSpeed::_266Mhz => 10,
            MaxSpeed::_333Mhz => 11,
            MaxSpeed::_400Mhz => 12,
            MaxSpeed::Reserved1 => 13,
            MaxSpeed::NotCharacterized => 14,
            MaxSpeed::NotSupported => 15,
        }
    }
}

/// Decoding the code of a variant gives the variant back, and the code of
/// a decoded value is the low 4 bits of what was decoded.
pub proof fn lemma_max_speed_roundtrip(e: MaxSpeed, bits: u8)
    ensures
        MaxSpeed::decode(e.encoding()) == e,
        MaxSpeed::decode(bits).encoding() == bits & 15,
{
    lemma_low_mask_u8(e.encoding(), 15);
    lemma_low_mask_u8(bits, 15);
}

/// A maximum clock speed code of 4S-4S-4S mode with data strobe.
#[allow(non_camel_case_types)]
#[derive(Clone, Copy, Debug, PartialEq, Eq, Structural)]
pub enum MaxSpeed4s4s4sWithDataStrobe {
    Reserved0,
    _33Mhz,
    _50Mhz,
    _66Mhz,
    _80Mhz,
    _100Mhz,
    _133Mhz,
    _166Mhz,
    Reserved1,
    Reserved2,
    Reserved3,
    Reserved4,
    Reserved5,
    Reserved6,
    NotCharacterized,
    NotSupported,
}

impl MaxSpeed4s4s4sWithDataStrobe {
    /// The 4-bit code of each variant.
    pub open spec fn encoding(self) -> u8 {
        match self {
            MaxSpeed4s4s4sWithDataStrobe::Reserved0 => 0,
            MaxSpeed4s4s4sWithDataStrobe::_33Mhz => 1,
            MaxSpeed4s4s4sWithDataStrobe::_50Mhz => 2,
            MaxSpeed4s4s4sWithDataStrobe::_66Mhz => 3,
            MaxSpeed4s4s4sWithDataStrobe::_80Mhz => 4,
            MaxSpeed4s4s4sWithDataStrobe::_100Mhz => 5,
            MaxSpeed4s4s4sWithDataStrobe::_133Mhz => 6,
            MaxSpeed4s4s4sWithDataStrobe::_166Mhz => 7,
            MaxSpeed4s4s4sWithDataStrobe::Reserved1 => 8,
            MaxSpeed4s4s4sWithDataStrobe::Reserved2 => 9,
            MaxSpeed4s4s4sWithDataStrobe::Reserved3 => 10,
            MaxSpeed4s4s4sWithDataStrobe::Reserved4 => 11,
            MaxSpeed4s4s4sWithDataStrobe::Reserved5 => 12,
            MaxSpeed4s4s4sWithDataStrobe::Reserved6 => 13,
            MaxSpeed4s4s4sWithDataStrobe::NotCharacterized => 14,
            MaxSpeed4s4s4sWithDataStrobe::NotSupported => 15,
        }
    }

    /// The variant that the low 4 bits of `bits` select.
    pub open spec fn decode(bits: u8) -> Self {
        let v = bits & 15;
        if v == 0 {
            MaxSpeed4s4s4sWithDataStrobe::Reserved0
        } else if v == 1 {
            MaxSpeed4s4s4sWithDataStrobe::_33Mhz
        } else if v == 2 {
            MaxSpeed4s4s4sWithDataStrobe::_50Mhz
        } else if v == 3 {
            MaxSpeed4s4s4sWithDataStrobe::_66Mhz
        } else if v == 4 {
            MaxSpeed4s4s4sWithDataStrobe::_80Mhz
        } else if v == 5 {
            MaxSpeed4s4s4sWithDataStrobe::_100Mhz
        } else if v == 6 {
            MaxSpeed4s4s4sWithDataStrobe::_133Mhz
        } else if v == 7 {
            MaxSpeed4s4s4sWithDataStrobe::_166Mhz
        } else if v == 8 {
            MaxSpeed4s4s4sWithDataStrobe::Reserved1
        } else if v == 9 {
            MaxSpeed4s4s4sWithDataStrobe::Reserved2
        } else if v == 10 {
            MaxSpeed4s4s4sWithDataStrobe::Reserved3
        } else if v == 11 {
            MaxSpeed4s4s4sWithDataStrobe::Reserved4
        } else if v == 12 {
            MaxSpeed4s4s4sWithDataStrobe::Reserved5
        } else if v == 13 {
            MaxSpeed4s4s4sWithDataStrobe::Reserved6
        } else if v == 14 {
            MaxSpeed4s4s4sWithDataStrobe::NotCharacterized
        } else {
            MaxSpeed4s4s4sWithDataStrobe::NotSupported
        }
    }

    /// Decodes the low 4 bits of `bits`.
    pub fn from_bits(bits: u8) -> (r: Self)
        ensures
            r == Self::decode(bits),
    {
        match bits & 15 {
            0 => MaxSpeed4s4s4sWithDataStrobe::Reserved0,
            1 => MaxSpeed4s4s4sWithDataStrobe::_33Mhz,
            2 => MaxSpeed4s4s4sWithDataStrobe::_50Mhz,
            3 => MaxSpeed4s4s4sWithDataStrobe::_66Mhz,
            4 => MaxSpeed4s4s4sWithDataStrobe::_80Mhz,
            5 => MaxSpeed4s4s4sWithDataStrobe::_100Mhz,
            6 => MaxSpeed4s4s4sWithDataStrobe::_133Mhz,
            7 => MaxSpeed4s4s4sWithDataStrobe::_166Mhz,
            8 => MaxSpeed4s4s4sWithDataStrobe::Reserved1,
            9 => MaxSpeed4s4s4sWithDataStrobe::Reserved2,
            10 => MaxSpeed4s4s4sWithDataStrobe::Reserved3,
            11 => MaxSpeed4s4s4sWithDataStrobe::Reserved4,
            12 => MaxSpeed4s4s4sWithDataStrobe::Reserved5,
            13 => MaxSpeed4s4s4sWithDataStrobe::Reserved6,
            14 => MaxSpeed4s4s4sWithDataStrobe::NotCharacterized,
            _ => MaxSpeed4s4s4sWithDataStrobe::NotSupported,
        }
    }

    /// The code of this variant.
    pub fn into_bits(self) -> (r: u8)
        ensures
            r == self.encoding(),
    {
        match self {
            MaxSpeed4s4s4sWithDataStrobe::Reserved0 => 0,
            MaxSpeed4s4s4sWithDataStrobe::_33Mhz => 1,
            MaxSpeed4s4s4sWithDataStrobe::_50Mhz => 2,
            MaxSpeed4s4s4sWithDataStrobe::_66Mhz => 3,
            MaxSpeed4s4s4sWithDataStrobe::_80Mhz => 4,
            MaxSpeed4s4s4sWithDataStrobe::_100Mhz => 5,
            MaxSpeed4s4s4sWithDataStrobe::_133Mhz => 6,
            MaxSpeed4s4s4sWithDataStrobe::_166Mhz => 7,
            MaxSpeed4s4s4sWithDataStrobe::Reserved1 => 8,
            MaxSpeed4s4s4sWithDataStrobe::Reserved2 => 9,
            MaxSpeed4s4s4sWithDataStrobe::Reserved3 => 10,
            MaxSpeed4s4s4sWithDataStrobe::Reserved4 => 11,
            MaxSpeed4s4s4sWithDataStrobe::Reserved5 => 12,
            MaxSpeed4s4s4sWithDataStrobe::Reserved6 => 13,
            MaxSpeed4s4s4sWithDataStrobe::NotCharacterized => 14,
            MaxSpeed4s4s4sWithDataStrobe::NotSupported => 15,
        }
    }
}

/// Decoding the code of a variant gives the variant back, and the code of
/// a decoded value is the low 4 bits of what was decoded.
pub proof fn lemma_max_speed4s4s4s_with_data_strobe_roundtrip(e: MaxSpeed4s4s4sWithDataStrobe, bits: u8)
    ensures
        MaxSpeed4s4s4sWithDataStrobe::decode(e.encoding()) == e,
        MaxSpeed4s4s4sWithDataStrobe::decode(bits).encoding() == bits & 15,
{
    lemma_low_mask_u8(e.encoding(), 15);
    lemma_low_mask_u8(bits, 15);
}

} // verus!
