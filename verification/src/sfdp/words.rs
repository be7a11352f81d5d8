//! The bit-field words of the SFDP parameter tables.
//!
//! Each word is decoded from a little-endian 32-bit value; fields are laid
//! out from the least significant bit up, and reserved bits are ignored.
use vstd::prelude::*;

use vstd::arithmetic::power2::pow2;
use vstd::bits::{lemma_usize_pow2_no_overflow, lemma_usize_shl_is_mul};

use crate::bits::{
    field16, field32, field8, get_field8, get_field_u16, get_field_u8, get_flag, get_flag16,
    get_flag8, lemma_low_mask_u8,
};
use crate::sfdp::fields::{
    AddressBytes, ByteOrder8D8D8D, DataStrobeWaveformStr, LegacyEraseSizes, LegacyWriteGranularity,
    MaxSpeed, MaxSpeed4s4s4sWithDataStrobe, OctalDtrCmd, OctalEnableReqs, QuadEnableRequirements,
};
use crate::sfdp::timing::{
    ByteProgramTime, ChipEraseTime, DurationEnumA, EraseTime, Interval64us, PageProgramTime,
};

verus! {

/// Operations that are prohibited while a program is suspended.
#[derive(Clone, Copy, Debug, PartialEq, Eq, Structural)]
pub struct ProhibitedOpsDuringProgramSuspend {
    pub erase_nesting_permitted: bool,
    pub program_nesting_permitted: bool,
    pub no_read: bool,
    pub erase_and_program_restrictions_are_sufficient: bool,
}

impl ProhibitedOpsDuringProgramSuspend {
    /// The flags held in `bits`, one bit each.
    pub open spec fn decode(bits: u8) -> Self {
        ProhibitedOpsDuringProgramSuspend {
            erase_nesting_permitted: field8(bits, 0, 1) == 1,
            program_nesting_permitted: field8(bits, 1, 1) == 1,
            no_read: field8(bits, 2, 1) == 1,
            erase_and_program_restrictions_are_sufficient: field8(bits, 3, 1) == 1,
        }
    }

    /// Decodes the flags; the other bits are reserved and ignored.
    pub fn from_bits(bits: u8) -> (r: Self)
        ensures
            r == Self::decode(bits),
    {
        ProhibitedOpsDuringProgramSuspend {
            erase_nesting_permitted: get_flag8(bits, 0),
            program_nesting_permitted: get_flag8(bits, 1),
            no_read: get_flag8(bits, 2),
            erase_and_program_restrictions_are_sufficient: get_flag8(bits, 3),
        }
    }
}

/// Operations that are prohibited while an erase is suspended.
#[derive(Clone, Copy, Debug, PartialEq, Eq, Structural)]
pub struct ProhibitedOpsDuringEraseSuspend {
    pub erase_nesting_permitted: bool,
    pub program_nesting_permitted: bool,
    pub no_read: bool,
    pub erase_and_program_restrictions_are_sufficient: bool,
}

impl ProhibitedOpsDuringEraseSuspend {
    /// The flags held in `bits`, one bit each.
    pub open spec fn decode(bits: u8) -> Self {
        ProhibitedOpsDuringEraseSuspend {
            erase_nesting_permitted: field8(bits, 0, 1) == 1,
            program_nesting_permitted: field8(bits, 1, 1) == 1,
            no_read: field8(bits, 2, 1) == 1,
            erase_and_program_restrictions_are_sufficient: field8(bits, 3, 1) == 1,
        }
    }

    /// Decodes the flags; the other bits are reserved and ignored.
    pub fn from_bits(bits: u8) -> (r: Self)
        ensures
            r == Self::decode(bits),
    {
        ProhibitedOpsDuringEraseSuspend {
            erase_nesting_permitted: get_flag8(bits, 0),
            program_nesting_permitted: get_flag8(bits, 1),
            no_read: get_flag8(bits, 2),
            erase_and_program_restrictions_are_sufficient: get_flag8(bits, 3),
        }
    }
}

/// How the busy state of the device may be polled.
#[derive(Clone, Copy, Debug, PartialEq, Eq, Structural)]
pub struct StatusRegisterPollingDeviceBusy {
    pub legacy_polling_supported: bool,
    pub bit_7_polled_any_time: bool,
}

impl StatusRegisterPollingDeviceBusy {
    /// The flags held in `bits`, one bit each.
    pub open spec fn decode(bits: u8) -> Self {
        StatusRegisterPollingDeviceBusy {
            legacy_polling_supported: field8(bits, 0, 1) == 1,
            bit_7_polled_any_time: field8(bits, 1, 1) == 1,
        }
    }

    /// Decodes the flags; the other bits are reserved and ignored.
    pub fn from_bits(bits: u8) -> (r: Self)
        ensures
            r == Self::decode(bits),
    {
        StatusRegisterPollingDeviceBusy {
            legacy_polling_supported: get_flag8(bits, 0),
            bit_7_polled_any_time: get_flag8(bits, 1),
        }
    }
}

/// The sequences that leave 4S-4S-4S mode.
#[derive(Clone, Copy, Debug, PartialEq, Eq, Structural)]
pub struct ModeDisableSequence4S4S4S {
    pub issue_ff_instr: bool,
    pub issue_f5_instr: bool,
    pub read_mod_write_seq: bool,
    pub issue_soft_reset: bool,
}

impl ModeDisableSequence4S4S4S {
    /// The flags held in `bits`, one bit each.
    pub open spec fn decode(bits: u8) -> Self {
        ModeDisableSequence4S4S4S {
            issue_ff_instr: field8(bits, 0, 1) == 1,
            issue_f5_instr: field8(bits, 1, 1) == 1,
            read_mod_write_seq: field8(bits, 2, 1) == 1,
            issue_soft_reset: field8(bits, 3, 1) == 1,
        }
    }

    /// Decodes the flags; the other bits are reserved and ignored.
    pub fn from_bits(bits: u8) -> (r: Self)
        ensures
            r == Self::decode(bits),
    {
        ModeDisableSequence4S4S4S {
            issue_ff_instr: get_flag8(bits, 0),
            issue_f5_instr: get_flag8(bits, 1),
            read_mod_write_seq: get_flag8(bits, 2),
            issue_soft_reset: get_flag8(bits, 3),
        }
    }
}

/// The sequences that enter 4S-4S-4S mode.
#[derive(Clone, Copy, Debug, PartialEq, Eq, Structural)]
pub struct ModeEnableSequence4S4S4S {
    pub set_qe: bool,
    pub issue_38_instr: bool,
    pub issue_35_instr: bool,
    pub read_mod_write_seq1: bool,
    pub read_mod_write_seq2: bool,
}

impl ModeEnableSequence4S4S4S {
    /// The flags held in `bits`, one bit each.
    pub open spec fn decode(bits: u8) -> Self {
        ModeEnableSequence4S4S4S {
            set_qe: field8(bits, 0, 1) == 1,
            issue_38_instr: field8(bits, 1, 1) == 1,
            issue_35_instr: field8(bits, 2, 1) == 1,
            read_mod_write_seq1: field8(bits, 3, 1) == 1,
            read_mod_write_seq2: field8(bits, 4, 1) == 1,
        }
    }

    /// Decodes the flags; the other bits are reserved and ignored.
    pub fn from_bits(bits: u8) -> (r: Self)
        ensures
            r == Self::decode(bits),
    {
        ModeEnableSequence4S4S4S {
            set_qe: get_flag8(bits, 0),
            issue_38_instr: get_flag8(bits, 1),
            issue_35_instr: get_flag8(bits, 2),
            read_mod_write_seq1: get_flag8(bits, 3),
            read_mod_write_seq2: get_flag8(bits, 4),
        }
    }
}

/// The methods that exit 0-4-4 mode.
#[derive(Clone, Copy, Debug, PartialEq, Eq, Structural)]
pub struct ModeExitMethod044 {
    pub mod_bits_00: bool,
    pub input_io1: bool,
    pub input_io2: bool,
    pub mod_bits_not_ax: bool,
}

impl ModeExitMethod044 {
    /// The flags held in `bits`, one bit each.
    pub open spec fn decode(bits: u8) -> Self {
        ModeExitMethod044 {
            mod_bits_00: field8(bits, 0, 1) == 1,
            input_io1: field8(bits, 1, 1) == 1,
            input_io2: field8(bits, 3, 1) == 1,
            mod_bits_not_ax: field8(bits, 4, 1) == 1,
        }
    }

    /// Decodes the flags; the other bits are reserved and ignored.
    pub fn from_bits(bits: u8) -> (r: Self)
        ensures
            r == Self::decode(bits),
    {
        ModeExitMethod044 {
            mod_bits_00: get_flag8(bits, 0),
            input_io1: get_flag8(bits, 1),
            input_io2: get_flag8(bits, 3),
            mod_bits_not_ax: get_flag8(bits, 4),
        }
    }
}

/// The methods that enter 0-4-4 mode.
#[derive(Clone, Copy, Debug, PartialEq, Eq, Structural)]
pub struct ModeEntryMethod044 {
    pub mod_bits_a5: bool,
    pub instr_85: bool,
    pub mod_bits_ax: bool,
}

impl ModeEntryMethod044 {
    /// The flags held in `bits`, one bit each.
    pub open spec fn decode(bits: u8) -> Self {
        ModeEntryMethod044 {
            mod_bits_a5: field8(bits, 0, 1) == 1,
            instr_85: field8(bits, 1, 1) == 1,
            mod_bits_ax: field8(bits, 2, 1) == 1,
        }
    }

    /// Decodes the flags; the other bits are reserved and ignored.
    pub fn from_bits(bits: u8) -> (r: Self)
        ensures
            r == Self::decode(bits),
    {
        ModeEntryMethod044 {
            mod_bits_a5: get_flag8(bits, 0),
            instr_85: get_flag8(bits, 1),
            mod_bits_ax: get_flag8(bits, 2),
        }
    }
}

/// The write enable instructions of volatile and non-volatile status register bits.
#[derive(Clone, Copy, Debug, PartialEq, Eq, Structural)]
pub struct VolatileNonRegisterWriteEnableInstr {
    pub non_volatile_reg1_last_written_we06: bool,
    pub volatile_reg1_last_written_we06: bool,
    pub volatile_reg1_last_written_we50: bool,
    pub volatile_non_reg1_last_written_we0650: bool,
    pub mix_volatile_we06: bool,
}

impl VolatileNonRegisterWriteEnableInstr {
    /// The flags held in `bits`, one bit each.
    pub open spec fn decode(bits: u8) -> Self {
        VolatileNonRegisterWriteEnableInstr {
            non_volatile_reg1_last_written_we06: field8(bits, 0, 1) == 1,
            volatile_reg1_last_written_we06: field8(bits, 1, 1) == 1,
            volatile_reg1_last_written_we50: field8(bits, 2, 1) == 1,
            volatile_non_reg1_last_written_we0650: field8(bits, 3, 1) == 1,
            mix_volatile_we06: field8(bits, 4, 1) == 1,
        }
    }

    /// Decodes the flags; the other bits are reserved and ignored.
    pub fn from_bits(bits: u8) -> (r: Self)
        ensures
            r == Self::decode(bits),
    {
        VolatileNonRegisterWriteEnableInstr {
            non_volatile_reg1_last_written_we06: get_flag8(bits, 0),
            volatile_reg1_last_written_we06: get_flag8(bits, 1),
            volatile_reg1_last_written_we50: get_flag8(bits, 2),
            volatile_non_reg1_last_written_we0650: get_flag8(bits, 3),
            mix_volatile_we06: get_flag8(bits, 4),
        }
    }
}

/// The supported soft reset and rescue sequences.
#[derive(Clone, Copy, Debug, PartialEq, Eq, Structural)]
pub struct SoftResetRescureSeqSupport {
    pub drive0_f8_clk: bool,
    pub drive0_f10_clk: bool,
    pub drive0_f16_clk: bool,
    pub instr_f0: bool,
    pub instr66_then99: bool,
    pub exit044_first: bool,
}

impl SoftResetRescureSeqSupport {
    /// The flags held in `bits`, one bit each.
    pub open spec fn decode(bits: u8) -> Self {
        SoftResetRescureSeqSupport {
            drive0_f8_clk: field8(bits, 0, 1) == 1,
            drive0_f10_clk: field8(bits, 1, 1) == 1,
            drive0_f16_clk: field8(bits, 2, 1) == 1,
            instr_f0: field8(bits, 3, 1) == 1,
            instr66_then99: field8(bits, 4, 1) == 1,
            exit044_first: field8(bits, 5, 1) == 1,
        }
    }

    /// Decodes the flags; the other bits are reserved and ignored.
    pub fn from_bits(bits: u8) -> (r: Self)
        ensures
            r == Self::decode(bits),
    {
        SoftResetRescureSeqSupport {
            drive0_f8_clk: get_flag8(bits, 0),
            drive0_f10_clk: get_flag8(bits, 1),
            drive0_f16_clk: get_flag8(bits, 2),
            instr_f0: get_flag8(bits, 3),
            instr66_then99: get_flag8(bits, 4),
            exit044_first: get_flag8(bits, 5),
        }
    }
}

/// The methods that leave 4-byte addressing.
#[derive(Clone, Copy, Debug, PartialEq, Eq, Structural)]
pub struct Exit4BAddressing {
    pub instr_e9: bool,
    pub instr_06_then_e9: bool,
    pub ear: bool,
    pub bank_reg: bool,
    pub conf_reg: bool,
    pub hardware_reset: bool,
    pub software_reset: bool,
    pub power_cycle: bool,
}

impl Exit4BAddressing {
    /// The flags held in `bits`, one bit each.
    pub open spec fn decode(bits: u16) -> Self {
        Exit4BAddressing {
            instr_e9: field16(bits, 0, 1) == 1,
            instr_06_then_e9: field16(bits, 1, 1) == 1,
            ear: field16(bits, 2, 1) == 1,
            bank_reg: field16(bits, 3, 1) == 1,
            conf_reg: field16(bits, 4, 1) == 1,
            hardware_reset: field16(bits, 5, 1) == 1,
            software_reset: field16(bits, 6, 1) == 1,
            power_cycle: field16(bits, 7, 1) == 1,
        }
    }

    /// Decodes the flags; the other bits are reserved and ignored.
    pub fn from_bits(bits: u16) -> (r: Self)
        ensures
            r == Self::decode(bits),
    {
        Exit4BAddressing {
            instr_e9: get_flag16(bits, 0),
            instr_06_then_e9: get_flag16(bits, 1),
            ear: get_flag16(bits, 2),
            bank_reg: get_flag16(bits, 3),
            conf_reg: get_flag16(bits, 4),
            hardware_reset: get_flag16(bits, 5),
            software_reset: get_flag16(bits, 6),
            power_cycle: get_flag16(bits, 7),
        }
    }
}

/// The methods that enter 4-byte addressing.
#[derive(Clone, Copy, Debug, PartialEq, Eq, Structural)]
pub struct Enter4BAddressing {
    pub intr_b7: bool,
    pub instr_06_then_b7: bool,
    pub ear: bool,
    pub bank_reg: bool,
    pub conf_reg: bool,
    pub dedicated_add: bool,
    pub always_4b: bool,
}

impl Enter4BAddressing {
    /// The flags held in `bits`, one bit each.
    pub open spec fn decode(bits: u8) -> Self {
        Enter4BAddressing {
            intr_b7: field8(bits, 0, 1) == 1,
            instr_06_then_b7: field8(bits, 1, 1) == 1,
            ear: field8(bits, 2, 1) == 1,
            bank_reg: field8(bits, 3, 1) == 1,
            conf_reg: field8(bits, 4, 1) == 1,
            dedicated_add: field8(bits, 5, 1) == 1,
            always_4b: field8(bits, 6, 1) == 1,
        }
    }

    /// Decodes the flags; the other bits are reserved and ignored.
    pub fn from_bits(bits: u8) -> (r: Self)
        ensures
            r == Self::decode(bits),
    {
        Enter4BAddressing {
            intr_b7: get_flag8(bits, 0),
            instr_06_then_b7: get_flag8(bits, 1),
            ear: get_flag8(bits, 2),
            bank_reg: get_flag8(bits, 3),
            conf_reg: get_flag8(bits, 4),
            dedicated_add: get_flag8(bits, 5),
            always_4b: get_flag8(bits, 6),
        }
    }
}

/// The supported output driver strengths.
#[derive(Clone, Copy, Debug, PartialEq, Eq, Structural)]
pub struct OuputDriverStr {
    pub type0_supported: bool,
    pub type1_supported: bool,
    pub type2_supported: bool,
    pub type3_supported: bool,
    pub type4_supported: bool,
}

impl OuputDriverStr {
    /// The flags held in `bits`, one bit each.
    pub open spec fn decode(bits: u8) -> Self {
        OuputDriverStr {
            type0_supported: field8(bits, 0, 1) == 1,
            type1_supported: field8(bits, 1, 1) == 1,
            type2_supported: field8(bits, 2, 1) == 1,
            type3_supported: field8(bits, 3, 1) == 1,
            type4_supported: field8(bits, 4, 1) == 1,
        }
    }

    /// Decodes the flags; the other bits are reserved and ignored.
    pub fn from_bits(bits: u8) -> (r: Self)
        ensures
            r == Self::decode(bits),
    {
        OuputDriverStr {
            type0_supported: get_flag8(bits, 0),
            type1_supported: get_flag8(bits, 1),
            type2_supported: get_flag8(bits, 2),
            type3_supported: get_flag8(bits, 3),
            type4_supported: get_flag8(bits, 4),
        }
    }
}

/// The sequences that leave 8S-8S-8S mode.
#[derive(Clone, Copy, Debug, PartialEq, Eq, Structural)]
pub struct Mode8s8s8sDisableSequences {
    pub instr_06_then_ff: bool,
    pub soft_reset_66_99: bool,
}

impl Mode8s8s8sDisableSequences {
    /// The flags held in `bits`, one bit each.
    pub open spec fn decode(bits: u8) -> Self {
        Mode8s8s8sDisableSequences {
            instr_06_then_ff: field8(bits, 0, 1) == 1,
            soft_reset_66_99: field8(bits, 3, 1) == 1,
        }
    }

    /// Decodes the flags; the other bits are reserved and ignored.
    pub fn from_bits(bits: u8) -> (r: Self)
        ensures
            r == Self::decode(bits),
    {
        Mode8s8s8sDisableSequences {
            instr_06_then_ff: get_flag8(bits, 0),
            soft_reset_66_99: get_flag8(bits, 3),
        }
    }
}

/// The sequences that enter 8S-8S-8S mode.
#[derive(Clone, Copy, Debug, PartialEq, Eq, Structural)]
pub struct Mode8s8s8sEnableSequences {
    pub instr_06_then_e8: bool,
    pub instr_06_then_72: bool,
}

impl Mode8s8s8sEnableSequences {
    /// The flags held in `bits`, one bit each.
    pub open spec fn decode(bits: u8) -> Self {
        Mode8s8s8sEnableSequences {
            instr_06_then_e8: field8(bits, 1, 1) == 1,
            instr_06_then_72: field8(bits, 2, 1) == 1,
        }
    }

    /// Decodes the flags; the other bits are reserved and ignored.
    pub fn from_bits(bits: u8) -> (r: Self)
        ensures
            r == Self::decode(bits),
    {
        Mode8s8s8sEnableSequences {
            instr_06_then_e8: get_flag8(bits, 1),
            instr_06_then_72: get_flag8(bits, 2),
        }
    }
}

/// The methods that exit 0-8-8 mode.
#[derive(Clone, Copy, Debug, PartialEq, Eq, Structural)]
pub struct Mode088ExitMethod {
    pub mode_bits: bool,
    pub ff_on_dq: bool,
}

impl Mode088ExitMethod {
    /// The flags held in `bits`, one bit each.
    pub open spec fn decode(bits: u8) -> Self {
        Mode088ExitMethod {
            mode_bits: field8(bits, 0, 1) == 1,
            ff_on_dq: field8(bits, 1, 1) == 1,
        }
    }

    /// Decodes the flags; the other bits are reserved and ignored.
    pub fn from_bits(bits: u8) -> (r: Self)
        ensures
            r == Self::decode(bits),
    {
        Mode088ExitMethod {
            mode_bits: get_flag8(bits, 0),
            ff_on_dq: get_flag8(bits, 1),
        }
    }
}

/// The methods that enter 0-8-8 mode.
#[derive(Clone, Copy, Debug, PartialEq, Eq, Structural)]
pub struct Mode088EntryMethod {
    pub read_conf_reg: bool,
}

impl Mode088EntryMethod {
    /// The flags held in `bits`, one bit each.
    pub open spec fn decode(bits: u8) -> Self {
        Mode088EntryMethod {
            read_conf_reg: field8(bits, 0, 1) == 1,
        }
    }

    /// Decodes the flags; the other bits are reserved and ignored.
    pub fn from_bits(bits: u8) -> (r: Self)
        ensures
            r == Self::decode(bits),
    {
        Mode088EntryMethod {
            read_conf_reg: get_flag8(bits, 0),
        }
    }
}

/// A power of two given by its exponent.
#[derive(Clone, Copy, Debug, PartialEq, Eq, Structural)]
pub struct PowerOf2 {
    pub n: u8,
}

impl PowerOf2 {
    /// The exponent held in `bits`.
    pub open spec fn decode(bits: u8) -> Self {
        PowerOf2 { n: bits }
    }

    /// Decodes the exponent from its byte.
    pub fn from_bits(bits: u8) -> (r: Self)
        ensures
            r == Self::decode(bits),
    {
        PowerOf2 { n: bits }
    }

    /// `2^n`, when it fits in a `usize`.
    pub fn value(&self) -> (r: Option<usize>)
        ensures
            r == (if self.n < usize::BITS {
                Some(pow2(self.n as nat) as usize)
            } else {
                None
            }),
    {
        let n = self.n;
        if (n as u32) < usize::BITS {
            proof {
                lemma_usize_pow2_no_overflow(n as nat);
                lemma_usize_shl_is_mul(1, n as usize);
            }
            Some(1usize << n as usize)
        } else {
            None
        }
    }
}

/// A power of two given by a 4-bit exponent.
#[derive(Clone, Copy, Debug, PartialEq, Eq, Structural)]
pub struct SmallPowerOf2 {
    pub n: u8,
}

impl SmallPowerOf2 {
    /// The exponent held in bits 0..4 of `bits`.
    pub open spec fn decode(bits: u8) -> Self {
        SmallPowerOf2 { n: field8(bits, 0, 0xf) }
    }

    /// Decodes the exponent; bits 4 to 7 are reserved and ignored.
    pub fn from_bits(bits: u8) -> (r: Self)
        ensures
            r == Self::decode(bits),
    {
        SmallPowerOf2 { n: get_field8(bits, 0, 0xf) }
    }

    /// `2^n`, where only the low four bits of `n` count.
    pub fn value(&self) -> (r: usize)
        ensures
            r == pow2((self.n & 0xf) as nat),
    {
        let n = self.n & 0xf;
        proof {
            lemma_low_mask_u8(self.n, 0xf);
            lemma_usize_pow2_no_overflow(n as nat);
            lemma_usize_shl_is_mul(1, n as usize);
        }
        1usize << n as usize
    }
}

/// The first word: erase, write and read support.
#[derive(Clone, Copy, Debug, PartialEq, Eq, Structural)]
pub struct BasicFlashWord1 {
    pub legacy_erase_sizes: LegacyEraseSizes,
    pub legacy_write_granularity: LegacyWriteGranularity,
    pub block_protect_is_volatile: bool,
    pub status_write_requires_write_enable: bool,
    pub erase4k_instr: u8,
    pub supports_1s_1s_2s_read: bool,
    pub addr_bytes: AddressBytes,
    pub dtr_clocking_supported: bool,
    pub supports_1s_2s_2s_read: bool,
    pub supports_1s_4s_4s_read: bool,
    pub supports_1s_1s_4s_read: bool,
}

impl BasicFlashWord1 {
    /// The fields held in the word `w`.
    pub open spec fn decode(w: u32) -> Self {
        BasicFlashWord1 {
            legacy_erase_sizes: LegacyEraseSizes::decode(field32(w, 0, 0x3) as u8),
            legacy_write_granularity: LegacyWriteGranularity::decode(field32(w, 2, 0x1) as u8),
            block_protect_is_volatile: field32(w, 3, 1) == 1,
            status_write_requires_write_enable: field32(w, 4, 1) == 1,
            erase4k_instr: field32(w, 8, 0xff) as u8,
            supports_1s_1s_2s_read: field32(w, 16, 1) == 1,
            addr_bytes: AddressBytes::decode(field32(w, 17, 0x3) as u8),
            dtr_clocking_supported: field32(w, 19, 1) == 1,
            supports_1s_2s_2s_read: field32(w, 20, 1) == 1,
            supports_1s_4s_4s_read: field32(w, 21, 1) == 1,
            supports_1s_1s_4s_read: field32(w, 22, 1) == 1,
        }
    }

    /// Decodes the word; reserved bits are ignored.
    pub fn from_bits(w: u32) -> (r: Self)
        ensures
            r == Self::decode(w),
    {
        BasicFlashWord1 {
            legacy_erase_sizes: LegacyEraseSizes::from_bits(get_field_u8(w, 0, 0x3)),
            legacy_write_granularity: LegacyWriteGranularity::from_bits(get_field_u8(w, 2, 0x1)),
            block_protect_is_volatile: get_flag(w, 3),
            status_write_requires_write_enable: get_flag(w, 4),
            erase4k_instr: get_field_u8(w, 8, 0xff),
            supports_1s_1s_2s_read: get_flag(w, 16),
            addr_bytes: AddressBytes::from_bits(get_field_u8(w, 17, 0x3)),
            dtr_clocking_supported: get_flag(w, 19),
            supports_1s_2s_2s_read: get_flag(w, 20),
            supports_1s_4s_4s_read: get_flag(w, 21),
            supports_1s_1s_4s_read: get_flag(w, 22),
        }
    }
}

/// The third word: 1S-4S-4S and 1S-1S-4S fast read.
#[derive(Clone, Copy, Debug, PartialEq, Eq, Structural)]
pub struct BasicFlashWord3 {
    pub fast_read_1s_4s_4s_wait_states: u8,
    pub fast_read_1s_4s_4s_mode_clocks: u8,
    pub fast_read_1s_4s_4s_instr: u8,
    pub fast_read_1s_1s_4s_wait_states: u8,
    pub fast_read_1s_1s_4s_mode_clocks: u8,
    pub fast_read_1s_1s_4s_instr: u8,
}

impl BasicFlashWord3 {
    /// The fields held in the word `w`.
    pub open spec fn decode(w: u32) -> Self {
        BasicFlashWord3 {
            fast_read_1s_4s_4s_wait_states: field32(w, 0, 0x1f) as u8,
            fast_read_1s_4s_4s_mode_clocks: field32(w, 5, 0x7) as u8,
            fast_read_1s_4s_4s_instr: field32(w, 8, 0xff) as u8,
            fast_read_1s_1s_4s_wait_states: field32(w, 16, 0x1f) as u8,
            fast_read_1s_1s_4s_mode_clocks: field32(w, 21, 0x7) as u8,
            fast_read_1s_1s_4s_instr: field32(w, 24, 0xff) as u8,
        }
    }

    /// Decodes the word; reserved bits are ignored.
    pub fn from_bits(w: u32) -> (r: Self)
        ensures
            r == Self::decode(w),
    {
        BasicFlashWord3 {
            fast_read_1s_4s_4s_wait_states: get_field_u8(w, 0, 0x1f),
            fast_read_1s_4s_4s_mode_clocks: get_field_u8(w, 5, 0x7),
            fast_read_1s_4s_4s_instr: get_field_u8(w, 8, 0xff),
            fast_read_1s_1s_4s_wait_states: get_field_u8(w, 16, 0x1f),
            fast_read_1s_1s_4s_mode_clocks: get_field_u8(w, 21, 0x7),
            fast_read_1s_1s_4s_instr: get_field_u8(w, 24, 0xff),
        }
    }
}

/// The fourth word: 1S-1S-2S and 1S-2S-2S fast read.
#[derive(Clone, Copy, Debug, PartialEq, Eq, Structural)]
pub struct BasicFlashWord4 {
    pub fast_read_1s_1s_2s_wait_states: u8,
    pub fast_read_1s_1s_2s_mode_clocks: u8,
    pub fast_read_1s_1s_2s_instr: u8,
    pub fast_read_1s_2s_2s_wait_states: u8,
    pub fast_read_1s_2s_2s_mode_clocks: u8,
    pub fast_read_1s_2s_2s_instr: u8,
}

impl BasicFlashWord4 {
    /// The fields held in the word `w`.
    pub open spec fn decode(w: u32) -> Self {
        BasicFlashWord4 {
            fast_read_1s_1s_2s_wait_states: field32(w, 0, 0x1f) as u8,
            fast_read_1s_1s_2s_mode_clocks: field32(w, 5, 0x7) as u8,
            fast_read_1s_1s_2s_instr: field32(w, 8, 0xff) as u8,
            fast_read_1s_2s_2s_wait_states: field32(w, 16, 0x1f) as u8,
            fast_read_1s_2s_2s_mode_clocks: field32(w, 21, 0x7) as u8,
            fast_read_1s_2s_2s_instr: field32(w, 24, 0xff) as u8,
        }
    }

    /// Decodes the word; reserved bits are ignored.
    pub fn from_bits(w: u32) -> (r: Self)
        ensures
            r == Self::decode(w),
    {
        BasicFlashWord4 {
            fast_read_1s_1s_2s_wait_states: get_field_u8(w, 0, 0x1f),
            fast_read_1s_1s_2s_mode_clocks: get_field_u8(w, 5, 0x7),
            fast_read_1s_1s_2s_instr: get_field_u8(w, 8, 0xff),
            fast_read_1s_2s_2s_wait_states: get_field_u8(w, 16, 0x1f),
            fast_read_1s_2s_2s_mode_clocks: get_field_u8(w, 21, 0x7),
            fast_read_1s_2s_2s_instr: get_field_u8(w, 24, 0xff),
        }
    }
}

/// The fifth word: 2S-2S-2S and 4S-4S-4S fast read support.
#[derive(Clone, Copy, Debug, PartialEq, Eq, Structural)]
pub struct BasicFlashWord5 {
    pub fast_read_2x_2s_2s_supported: bool,
    pub fast_read_4x_4s_4s_supported: bool,
}

impl BasicFlashWord5 {
    /// The fields held in the word `w`.
    pub open spec fn decode(w: u32) -> Self {
        BasicFlashWord5 {
            fast_read_2x_2s_2s_supported: field32(w, 0, 1) == 1,
            fast_read_4x_4s_4s_supported: field32(w, 4, 1) == 1,
        }
    }

    /// Decodes the word; reserved bits are ignored.
    pub fn from_bits(w: u32) -> (r: Self)
        ensures
            r == Self::decode(w),
    {
        BasicFlashWord5 {
            fast_read_2x_2s_2s_supported: get_flag(w, 0),
            fast_read_4x_4s_4s_supported: get_flag(w, 4),
        }
    }
}

/// The sixth word: 2S-2S-2S fast read.
#[derive(Clone, Copy, Debug, PartialEq, Eq, Structural)]
pub struct BasicFlashWord6 {
    pub fast_read_2s_2s_2s_wait_states: u8,
    pub fast_read_2s_2s_2s_mode_clocks: u8,
    pub fast_read_2s_2s_2s_instr: u8,
}

impl BasicFlashWord6 {
    /// The fields held in the word `w`.
    pub open spec fn decode(w: u32) -> Self {
        BasicFlashWord6 {
            fast_read_2s_2s_2s_wait_states: field32(w, 16, 0x1f) as u8,
            fast_read_2s_2s_2s_mode_clocks: field32(w, 21, 0x7) as u8,
            fast_read_2s_2s_2s_instr: field32(w, 24, 0xff) as u8,
        }
    }

    /// Decodes the word; reserved bits are ignored.
    pub fn from_bits(w: u32) -> (r: Self)
        ensures
            r == Self::decode(w),
    {
        BasicFlashWord6 {
            fast_read_2s_2s_2s_wait_states: get_field_u8(w, 16, 0x1f),
            fast_read_2s_2s_2s_mode_clocks: get_field_u8(w, 21, 0x7),
            fast_read_2s_2s_2s_instr: get_field_u8(w, 24, 0xff),
        }
    }
}

/// The seventh word: 4S-4S-4S fast read.
#[derive(Clone, Copy, Debug, PartialEq, Eq, Structural)]
pub struct BasicFlashWord7 {
    pub fast_read_4s_4s_4s_wait_states: u8,
    pub fast_read_4s_4s_4s_mode_clocks: u8,
    pub fast_read_4s_4s_4s_instr: u8,
}

impl BasicFlashWord7 {
    /// The fields held in the word `w`.
    pub open spec fn decode(w: u32) -> Self {
        BasicFlashWord7 {
            fast_read_4s_4s_4s_wait_states: field32(w, 16, 0x1f) as u8,
            fast_read_4s_4s_4s_mode_clocks: field32(w, 21, 0x7) as u8,
            fast_read_4s_4s_4s_instr: field32(w, 24, 0xff) as u8,
        }
    }

    /// Decodes the word; reserved bits are ignored.
    pub fn from_bits(w: u32) -> (r: Self)
        ensures
            r == Self::decode(w),
    {
        BasicFlashWord7 {
            fast_read_4s_4s_4s_wait_states: get_field_u8(w, 16, 0x1f),
            fast_read_4s_4s_4s_mode_clocks: get_field_u8(w, 21, 0x7),
            fast_read_4s_4s_4s_instr: get_field_u8(w, 24, 0xff),
        }
    }
}

/// The eighth word: erase types 1 and 2.
#[derive(Clone, Copy, Debug, PartialEq, Eq, Structural)]
pub struct BasicFlashWord8 {
    pub erase_type_1_size: PowerOf2,
    pub erase_type_1_instr: u8,
    pub erase_type_2_size: PowerOf2,
    pub erase_type_2_instr: u8,
}

impl BasicFlashWord8 {
    /// The fields held in the word `w`.
    pub open spec fn decode(w: u32) -> Self {
        BasicFlashWord8 {
            erase_type_1_size: PowerOf2::decode(field32(w, 0, 0xff) as u8),
            erase_type_1_instr: field32(w, 8, 0xff) as u8,
            erase_type_2_size: PowerOf2::decode(field32(w, 16, 0xff) as u8),
            erase_type_2_instr: field32(w, 24, 0xff) as u8,
        }
    }

    /// Decodes the word; reserved bits are ignored.
    pub fn from_bits(w: u32) -> (r: Self)
        ensures
            r == Self::decode(w),
    {
        BasicFlashWord8 {
            erase_type_1_size: PowerOf2::from_bits(get_field_u8(w, 0, 0xff)),
            erase_type_1_instr: get_field_u8(w, 8, 0xff),
            erase_type_2_size: PowerOf2::from_bits(get_field_u8(w, 16, 0xff)),
            erase_type_2_instr: get_field_u8(w, 24, 0xff),
        }
    }
}

/// The ninth word: erase types 3 and 4.
#[derive(Clone, Copy, Debug, PartialEq, Eq, Structural)]
pub struct BasicFlashWord9 {
    pub erase_type_3_size: PowerOf2,
    pub erase_type_3_instr: u8,
    pub erase_type_4_size: PowerOf2,
    pub erase_type_4_instr: u8,
}

impl BasicFlashWord9 {
    /// The fields held in the word `w`.
    pub open spec fn decode(w: u32) -> Self {
        BasicFlashWord9 {
            erase_type_3_size: PowerOf2::decode(field32(w, 0, 0xff) as u8),
            erase_type_3_instr: field32(w, 8, 0xff) as u8,
            erase_type_4_size: PowerOf2::decode(field32(w, 16, 0xff) as u8),
            erase_type_4_instr: field32(w, 24, 0xff) as u8,
        }
    }

    /// Decodes the word; reserved bits are ignored.
    pub fn from_bits(w: u32) -> (r: Self)
        ensures
            r == Self::decode(w),
    {
        BasicFlashWord9 {
            erase_type_3_size: PowerOf2::from_bits(get_field_u8(w, 0, 0xff)),
            erase_type_3_instr: get_field_u8(w, 8, 0xff),
            erase_type_4_size: PowerOf2::from_bits(get_field_u8(w, 16, 0xff)),
            erase_type_4_instr: get_field_u8(w, 24, 0xff),
        }
    }
}

/// The tenth word: typical erase times.
#[derive(Clone, Copy, Debug, PartialEq, Eq, Structural)]
pub struct BasicFlashWord10 {
    pub multiplier_max_erase_time: u8,
    pub erase_type_1_time: EraseTime,
    pub erase_type_2_time: EraseTime,
    pub erase_type_3_time: EraseTime,
    pub erase_type_4_time: EraseTime,
}

impl BasicFlashWord10 {
    /// The fields held in the word `w`.
    pub open spec fn decode(w: u32) -> Self {
        BasicFlashWord10 {
            multiplier_max_erase_time: field32(w, 0, 0xf) as u8,
            erase_type_1_time: EraseTime::decode(field32(w, 4, 0x7f) as u8),
            erase_type_2_time: EraseTime::decode(field32(w, 11, 0x7f) as u8),
            erase_type_3_time: EraseTime::decode(field32(w, 18, 0x7f) as u8),
            erase_type_4_time: EraseTime::decode(field32(w, 25, 0x7f) as u8),
        }
    }

    /// Decodes the word; reserved bits are ignored.
    pub fn from_bits(w: u32) -> (r: Self)
        ensures
            r == Self::decode(w),
    {
        BasicFlashWord10 {
            multiplier_max_erase_time: get_field_u8(w, 0, 0xf),
            erase_type_1_time: EraseTime::from_bits(get_field_u8(w, 4, 0x7f)),
            erase_type_2_time: EraseTime::from_bits(get_field_u8(w, 11, 0x7f)),
            erase_type_3_time: EraseTime::from_bits(get_field_u8(w, 18, 0x7f)),
            erase_type_4_time: EraseTime::from_bits(get_field_u8(w, 25, 0x7f)),
        }
    }
}

/// The eleventh word: page size and program and chip erase times.
#[derive(Clone, Copy, Debug, PartialEq, Eq, Structural)]
pub struct BasicFlashWord11 {
    pub multiplier_max_page_program: u8,
    pub page_size: SmallPowerOf2,
    pub page_program_time: PageProgramTime,
    pub byte_program_first_time: ByteProgramTime,
    pub byte_program_additional_time: ByteProgramTime,
    pub chip_erase_time: ChipEraseTime,
}

impl BasicFlashWord11 {
    /// The fields held in the word `w`.
    pub open spec fn decode(w: u32) -> Self {
        BasicFlashWord11 {
            multiplier_max_page_program: field32(w, 0, 0xf) as u8,
            page_size: SmallPowerOf2::decode(field32(w, 4, 0xf) as u8),
            page_program_time: PageProgramTime::decode(field32(w, 8, 0x3f) as u8),
            byte_program_first_time: ByteProgramTime::decode(field32(w, 14, 0x1f) as u8),
            byte_program_additional_time: ByteProgramTime::decode(field32(w, 19, 0x1f) as u8),
            chip_erase_time: ChipEraseTime::decode(field32(w, 24, 0x7f) as u8),
        }
    }

    /// Decodes the word; reserved bits are ignored.
    pub fn from_bits(w: u32) -> (r: Self)
        ensures
            r == Self::decode(w),
    {
        BasicFlashWord11 {
            multiplier_max_page_program: get_field_u8(w, 0, 0xf),
            page_size: SmallPowerOf2::from_bits(get_field_u8(w, 4, 0xf)),
            page_program_time: PageProgramTime::from_bits(get_field_u8(w, 8, 0x3f)),
            byte_program_first_time: ByteProgramTime::from_bits(get_field_u8(w, 14, 0x1f)),
            byte_program_additional_time: ByteProgramTime::from_bits(get_field_u8(w, 19, 0x1f)),
            chip_erase_time: ChipEraseTime::from_bits(get_field_u8(w, 24, 0x7f)),
        }
    }
}

/// The twelfth word: suspend and resume.
#[derive(Clone, Copy, Debug, PartialEq, Eq, Structural)]
pub struct BasicFlashWord12 {
    pub prohibited_ops_during_program_suspend: ProhibitedOpsDuringProgramSuspend,
    pub prohibited_ops_during_erase_suspend: ProhibitedOpsDuringEraseSuspend,
    pub program_resume_suspend_interval: Interval64us,
    pub suspend_in_progress_program_max_latency: DurationEnumA,
    pub erase_resume_suspend_interval: Interval64us,
    pub suspend_in_progress_erase_max_latency: DurationEnumA,
    pub suspend_resume_supported: bool,
}

impl BasicFlashWord12 {
    /// The fields held in the word `w`.
    pub open spec fn decode(w: u32) -> Self {
        BasicFlashWord12 {
            prohibited_ops_during_program_suspend: ProhibitedOpsDuringProgramSuspend::decode(field32(w, 0, 0xf) as u8),
            prohibited_ops_during_erase_suspend: ProhibitedOpsDuringEraseSuspend::decode(field32(w, 4, 0xf) as u8),
            program_resume_suspend_interval: Interval64us::decode(field32(w, 9, 0xf) as u8),
            suspend_in_progress_program_max_latency: DurationEnumA::decode(field32(w, 13, 0x7f) as u8),
            erase_resume_suspend_interval: Interval64us::decode(field32(w, 20, 0xf) as u8),
            suspend_in_progress_erase_max_latency: DurationEnumA::decode(field32(w, 24, 0x7f) as u8),
            suspend_resume_supported: field32(w, 31, 1) == 1,
        }
    }

    /// Decodes the word; reserved bits are ignored.
    pub fn from_bits(w: u32) -> (r: Self)
        ensures
            r == Self::decode(w),
    {
        BasicFlashWord12 {
            prohibited_ops_during_program_suspend: ProhibitedOpsDuringProgramSuspend::from_bits(get_field_u8(w, 0, 0xf)),
            prohibited_ops_during_erase_suspend: ProhibitedOpsDuringEraseSuspend::from_bits(get_field_u8(w, 4, 0xf)),
            program_resume_suspend_interval: Interval64us::from_bits(get_field_u8(w, 9, 0xf)),
            suspend_in_progress_program_max_latency: DurationEnumA::from_bits(get_field_u8(w, 13, 0x7f)),
            erase_resume_suspend_interval: Interval64us::from_bits(get_field_u8(w, 20, 0xf)),
            suspend_in_progress_erase_max_latency: DurationEnumA::from_bits(get_field_u8(w, 24, 0x7f)),
            suspend_resume_supported: get_flag(w, 31),
        }
    }
}

/// The thirteenth word: suspend and resume instructions.
#[derive(Clone, Copy, Debug, PartialEq, Eq, Structural)]
pub struct BasicFlashWord13 {
    pub program_resume_instr: u8,
    pub program_suspend_instr: u8,
    pub resume_instr: u8,
    pub suspend_instr: u8,
}

impl BasicFlashWord13 {
    /// The fields held in the word `w`.
    pub open spec fn decode(w: u32) -> Self {
        BasicFlashWord13 {
            program_resume_instr: field32(w, 0, 0xff) as u8,
            program_suspend_instr: field32(w, 8, 0xff) as u8,
            resume_instr: field32(w, 16, 0xff) as u8,
            suspend_instr: field32(w, 24, 0xff) as u8,
        }
    }

    /// Decodes the word; reserved bits are ignored.
    pub fn from_bits(w: u32) -> (r: Self)
        ensures
            r == Self::decode(w),
    {
        BasicFlashWord13 {
            program_resume_instr: get_field_u8(w, 0, 0xff),
            program_suspend_instr: get_field_u8(w, 8, 0xff),
            resume_instr: get_field_u8(w, 16, 0xff),
            suspend_instr: get_field_u8(w, 24, 0xff),
        }
    }
}

/// The fourteenth word: deep power-down and busy polling.
#[derive(Clone, Copy, Debug, PartialEq, Eq, Structural)]
pub struct BasicFlashWord14 {
    pub status_register_polling_device_busy: StatusRegisterPollingDeviceBusy,
    pub exit_deep_powerdown_next_op_delay: DurationEnumA,
    pub exit_deep_powerdown_instr: u8,
    pub enter_deep_powerdown_instr: u8,
    pub deep_powerdown_supported: bool,
}

impl BasicFlashWord14 {
    /// The fields held in the word `w`.
    pub open spec fn decode(w: u32) -> Self {
        BasicFlashWord14 {
            status_register_polling_device_busy: StatusRegisterPollingDeviceBusy::decode(field32(w, 2, 0x3f) as u8),
            exit_deep_powerdown_next_op_delay: DurationEnumA::decode(field32(w, 8, 0x7f) as u8),
            exit_deep_powerdown_instr: field32(w, 15, 0xff) as u8,
            enter_deep_powerdown_instr: field32(w, 23, 0xff) as u8,
            deep_powerdown_supported: field32(w, 31, 1) == 1,
        }
    }

    /// Decodes the word; reserved bits are ignored.
    pub fn from_bits(w: u32) -> (r: Self)
        ensures
            r == Self::decode(w),
    {
        BasicFlashWord14 {
            status_register_polling_device_busy: StatusRegisterPollingDeviceBusy::from_bits(get_field_u8(w, 2, 0x3f)),
            exit_deep_powerdown_next_op_delay: DurationEnumA::from_bits(get_field_u8(w, 8, 0x7f)),
            exit_deep_powerdown_instr: get_field_u8(w, 15, 0xff),
            enter_deep_powerdown_instr: get_field_u8(w, 23, 0xff),
            deep_powerdown_supported: get_flag(w, 31),
        }
    }
}

/// The fifteenth word: 4S-4S-4S and 0-4-4 modes and quad enable.
#[derive(Clone, Copy, Debug, PartialEq, Eq, Structural)]
pub struct BasicFlashWord15 {
    pub mode_disable_sequence_4s_4s_4s: ModeDisableSequence4S4S4S,
    pub mode_enable_sequence_4s_4s_4s: ModeEnableSequence4S4S4S,
    pub mode_0_4_4_supported: bool,
    pub mode_exit_method_0_4_4: ModeExitMethod044,
    pub mode_entry_method_0_4_4: ModeEntryMethod044,
    pub quad_enable_requirements: QuadEnableRequirements,
    pub hold_or_reset_disable: bool,
}

impl BasicFlashWord15 {
    /// The fields held in the word `w`.
    pub open spec fn decode(w: u32) -> Self {
        BasicFlashWord15 {
            mode_disable_sequence_4s_4s_4s: ModeDisableSequence4S4S4S::decode(field32(w, 0, 0xf) as u8),
            mode_enable_sequence_4s_4s_4s: ModeEnableSequence4S4S4S::decode(field32(w, 4, 0x1f) as u8),
            mode_0_4_4_supported: field32(w, 9, 1) == 1,
            mode_exit_method_0_4_4: ModeExitMethod044::decode(field32(w, 10, 0x3f) as u8),
            mode_entry_method_0_4_4: ModeEntryMethod044::decode(field32(w, 16, 0xf) as u8),
            quad_enable_requirements: QuadEnableRequirements::decode(field32(w, 20, 0x7) as u8),
            hold_or_reset_disable: field32(w, 23, 1) == 1,
        }
    }

    /// Decodes the word; reserved bits are ignored.
    pub fn from_bits(w: u32) -> (r: Self)
        ensures
            r == Self::decode(w),
    {
        BasicFlashWord15 {
            mode_disable_sequence_4s_4s_4s: ModeDisableSequence4S4S4S::from_bits(get_field_u8(w, 0, 0xf)),
            mode_enable_sequence_4s_4s_4s: ModeEnableSequence4S4S4S::from_bits(get_field_u8(w, 4, 0x1f)),
            mode_0_4_4_supported: get_flag(w, 9),
            mode_exit_method_0_4_4: ModeExitMethod044::from_bits(get_field_u8(w, 10, 0x3f)),
            mode_entry_method_0_4_4: ModeEntryMethod044::from_bits(get_field_u8(w, 16, 0xf)),
            quad_enable_requirements: QuadEnableRequirements::from_bits(get_field_u8(w, 20, 0x7)),
            hold_or_reset_disable: get_flag(w, 23),
        }
    }
}

/// The sixteenth word: 4-byte addressing, soft reset and write enable.
#[derive(Clone, Copy, Debug, PartialEq, Eq, Structural)]
pub struct BasicFlashWord16 {
    pub volatile_non_register_write_enable_instr: VolatileNonRegisterWriteEnableInstr,
    pub soft_reset_rescue_seq_support: SoftResetRescureSeqSupport,
    pub exit_4_b_addressing: Exit4BAddressing,
    pub enter_4_b_addressing: Enter4BAddressing,
}

impl BasicFlashWord16 {
    /// The fields held in the word `w`.
    pub open spec fn decode(w: u32) -> Self {
        BasicFlashWord16 {
            volatile_non_register_write_enable_instr: VolatileNonRegisterWriteEnableInstr::decode(field32(w, 0, 0x7f) as u8),
            soft_reset_rescue_seq_support: SoftResetRescureSeqSupport::decode(field32(w, 8, 0x3f) as u8),
            exit_4_b_addressing: Exit4BAddressing::decode(field32(w, 14, 0x3ff) as u16),
            enter_4_b_addressing: Enter4BAddressing::decode(field32(w, 24, 0xff) as u8),
        }
    }

    /// Decodes the word; reserved bits are ignored.
    pub fn from_bits(w: u32) -> (r: Self)
        ensures
            r == Self::decode(w),
    {
        BasicFlashWord16 {
            volatile_non_register_write_enable_instr: VolatileNonRegisterWriteEnableInstr::from_bits(get_field_u8(w, 0, 0x7f)),
            soft_reset_rescue_seq_support: SoftResetRescureSeqSupport::from_bits(get_field_u8(w, 8, 0x3f)),
            exit_4_b_addressing: Exit4BAddressing::from_bits(get_field_u16(w, 14, 0x3ff)),
            enter_4_b_addressing: Enter4BAddressing::from_bits(get_field_u8(w, 24, 0xff)),
        }
    }
}

/// The seventeenth word: 1S-8S-8S and 1S-1S-8S fast read.
#[derive(Clone, Copy, Debug, PartialEq, Eq, Structural)]
pub struct BasicFlashWord17 {
    pub fast_read_wait_states_1s_8s_8s: u8,
    pub fast_read_mode_clocks_1s_8s_8s: u8,
    pub fast_read_instr_1s_8s_8s: u8,
    pub fast_read_wait_states_1s_1s_8s: u8,
    pub fast_read_mode_clocks_1s_1s_8s: u8,
    pub fast_read_instr_1s_1s_8s: u8,
}

impl BasicFlashWord17 {
    /// The fields held in the word `w`.
    pub open spec fn decode(w: u32) -> Self {
        BasicFlashWord17 {
            fast_read_wait_states_1s_8s_8s: field32(w, 0, 0x1f) as u8,
            fast_read_mode_clocks_1s_8s_8s: field32(w, 5, 0x7) as u8,
            fast_read_instr_1s_8s_8s: field32(w, 8, 0xff) as u8,
            fast_read_wait_states_1s_1s_8s: field32(w, 16, 0x1f) as u8,
            fast_read_mode_clocks_1s_1s_8s: field32(w, 21, 0x7) as u8,
            fast_read_instr_1s_1s_8s: field32(w, 24, 0xff) as u8,
        }
    }

    /// Decodes the word; reserved bits are ignored.
    pub fn from_bits(w: u32) -> (r: Self)
        ensures
            r == Self::decode(w),
    {
        BasicFlashWord17 {
            fast_read_wait_states_1s_8s_8s: get_field_u8(w, 0, 0x1f),
            fast_read_mode_clocks_1s_8s_8s: get_field_u8(w, 5, 0x7),
            fast_read_instr_1s_8s_8s: get_field_u8(w, 8, 0xff),
            fast_read_wait_states_1s_1s_8s: get_field_u8(w, 16, 0x1f),
            fast_read_mode_clocks_1s_1s_8s: get_field_u8(w, 21, 0x7),
            fast_read_instr_1s_1s_8s: get_field_u8(w, 24, 0xff),
        }
    }
}

/// The eighteenth word: output driver, data strobe and octal DTR commands.
#[derive(Clone, Copy, Debug, PartialEq, Eq, Structural)]
pub struct BasicFlashWord18 {
    pub output_driver_str: OuputDriverStr,
    pub jedec_spi_protocol_reset_implemented: bool,
    pub data_strobe_waveform_str: DataStrobeWaveformStr,
    pub data_strobe_support_qpi_str_4s_4s_4s: bool,
    pub data_strobe_support_qpi_dtr_4s_4d_4d: bool,
    pub octal_dtr_8d_8d_8d_cmd: OctalDtrCmd,
    pub octal_dtr_8d_8d_8d_mode: ByteOrder8D8D8D,
}

impl BasicFlashWord18 {
    /// The fields held in the word `w`.
    pub open spec fn decode(w: u32) -> Self {
        BasicFlashWord18 {
            output_driver_str: OuputDriverStr::decode(field32(w, 18, 0x1f) as u8),
            jedec_spi_protocol_reset_implemented: field32(w, 23, 1) == 1,
            data_strobe_waveform_str: DataStrobeWaveformStr::decode(field32(w, 24, 0x3) as u8),
            data_strobe_support_qpi_str_4s_4s_4s: field32(w, 26, 1) == 1,
            data_strobe_support_qpi_dtr_4s_4d_4d: field32(w, 27, 1) == 1,
            octal_dtr_8d_8d_8d_cmd: OctalDtrCmd::decode(field32(w, 29, 0x3) as u8),
            octal_dtr_8d_8d_8d_mode: ByteOrder8D8D8D::decode(field32(w, 31, 0x1) as u8),
        }
    }

    /// Decodes the word; reserved bits are ignored.
    pub fn from_bits(w: u32) -> (r: Self)
        ensures
            r == Self::decode(w),
    {
        BasicFlashWord18 {
            output_driver_str: OuputDriverStr::from_bits(get_field_u8(w, 18, 0x1f)),
            jedec_spi_protocol_reset_implemented: get_flag(w, 23),
            data_strobe_waveform_str: DataStrobeWaveformStr::from_bits(get_field_u8(w, 24, 0x3)),
            data_strobe_support_qpi_str_4s_4s_4s: get_flag(w, 26),
            data_strobe_support_qpi_dtr_4s_4d_4d: get_flag(w, 27),
            octal_dtr_8d_8d_8d_cmd: OctalDtrCmd::from_bits(get_field_u8(w, 29, 0x3)),
            octal_dtr_8d_8d_8d_mode: ByteOrder8D8D8D::from_bits(get_field_u8(w, 31, 0x1)),
        }
    }
}

/// The nineteenth word: 8S-8S-8S and 0-8-8 modes and octal enable.
#[derive(Clone, Copy, Debug, PartialEq, Eq, Structural)]
pub struct BasicFlashWord19 {
    pub mode_8s_8s_8s_disable_sequences: Mode8s8s8sDisableSequences,
    pub mode_8s_8s_8s_enable_sequences: Mode8s8s8sEnableSequences,
    pub mode_0_8_8_supported: bool,
    pub mode_0_8_8_exit_method: Mode088ExitMethod,
    pub mode_0_8_8_entry_method: Mode088EntryMethod,
    pub octal_enable_requirements: OctalEnableReqs,
}

impl BasicFlashWord19 {
    /// The fields held in the word `w`.
    pub open spec fn decode(w: u32) -> Self {
        BasicFlashWord19 {
            mode_8s_8s_8s_disable_sequences: Mode8s8s8sDisableSequences::decode(field32(w, 0, 0xf) as u8),
            mode_8s_8s_8s_enable_sequences: Mode8s8s8sEnableSequences::decode(field32(w, 4, 0x1f) as u8),
            mode_0_8_8_supported: field32(w, 9, 1) == 1,
            mode_0_8_8_exit_method: Mode088ExitMethod::decode(field32(w, 10, 0x3f) as u8),
            mode_0_8_8_entry_method: Mode088EntryMethod::decode(field32(w, 16, 0xf) as u8),
            octal_enable_requirements: OctalEnableReqs::decode(field32(w, 20, 0x7) as u8),
        }
    }

    /// Decodes the word; reserved bits are ignored.
    pub fn from_bits(w: u32) -> (r: Self)
        ensures
            r == Self::decode(w),
    {
        BasicFlashWord19 {
            mode_8s_8s_8s_disable_sequences: Mode8s8s8sDisableSequences::from_bits(get_field_u8(w, 0, 0xf)),
            mode_8s_8s_8s_enable_sequences: Mode8s8s8sEnableSequences::from_bits(get_field_u8(w, 4, 0x1f)),
            mode_0_8_8_supported: get_flag(w, 9),
            mode_0_8_8_exit_method: Mode088ExitMethod::from_bits(get_field_u8(w, 10, 0x3f)),
            mode_0_8_8_entry_method: Mode088EntryMethod::from_bits(get_field_u8(w, 16, 0xf)),
            octal_enable_requirements: OctalEnableReqs::from_bits(get_field_u8(w, 20, 0x7)),
        }
    }
}

/// The twentieth word: maximum speeds.
#[derive(Clone, Copy, Debug, PartialEq, Eq, Structural)]
pub struct BasicFlashWord20 {
    pub max_speed_4s_4s_4s_no_data_strobe: MaxSpeed,
    pub max_speed_4s_4s_4s_with_data_strobe: MaxSpeed4s4s4sWithDataStrobe,
    pub max_speed_4s_4d_4d_no_data_strobe: MaxSpeed,
    pub max_speed_4s_4d_4d_with_data_strobe: MaxSpeed,
    pub max_speed_8s_8s_8s_no_data_strobe: MaxSpeed,
    pub max_speed_8s_8s_8s_with_data_strobe: MaxSpeed,
    pub max_speed_8d_8d_8d_no_data_strobe: MaxSpeed,
    pub max_speed_8d_8d_8d_with_data_strobe: MaxSpeed,
}

impl BasicFlashWord20 {
    /// The fields held in the word `w`.
    pub open spec fn decode(w: u32) -> Self {
        BasicFlashWord20 {
            max_speed_4s_4s_4s_no_data_strobe: MaxSpeed::decode(field32(w, 0, 0xf) as u8),
            max_speed_4s_4s_4s_with_data_strobe: MaxSpeed4s4s4sWithDataStrobe::decode(field32(w, 4, 0xf) as u8),
            max_speed_4s_4d_4d_no_data_strobe: MaxSpeed::decode(field32(w, 8, 0xf) as u8),
            max_speed_4s_4d_4d_with_data_strobe: MaxSpeed::decode(field32(w, 12, 0xf) as u8),
            max_speed_8s_8s_8s_no_data_strobe: MaxSpeed::decode(field32(w, 16, 0xf) as u8),
            max_speed_8s_8s_8s_with_data_strobe: MaxSpeed::decode(field32(w, 20, 0xf) as u8),
            max_speed_8d_8d_8d_no_data_strobe: MaxSpeed::decode(field32(w, 24, 0xf) as u8),
            max_speed_8d_8d_8d_with_data_strobe: MaxSpeed::decode(field32(w, 28, 0xf) as u8),
        }
    }

    /// Decodes the word; reserved bits are ignored.
    pub fn from_bits(w: u32) -> (r: Self)
        ensures
            r == Self::decode(w),
    {
        BasicFlashWord20 {
            max_speed_4s_4s_4s_no_data_strobe: MaxSpeed::from_bits(get_field_u8(w, 0, 0xf)),
            max_speed_4s_4s_4s_with_data_strobe: MaxSpeed4s4s4sWithDataStrobe::from_bits(get_field_u8(w, 4, 0xf)),
            max_speed_4s_4d_4d_no_data_strobe: MaxSpeed::from_bits(get_field_u8(w, 8, 0xf)),
            max_speed_4s_4d_4d_with_data_strobe: MaxSpeed::from_bits(get_field_u8(w, 12, 0xf)),
            max_speed_8s_8s_8s_no_data_strobe: MaxSpeed::from_bits(get_field_u8(w, 16, 0xf)),
            max_speed_8s_8s_8s_with_data_strobe: MaxSpeed::from_bits(get_field_u8(w, 20, 0xf)),
            max_speed_8d_8d_8d_no_data_strobe: MaxSpeed::from_bits(get_field_u8(w, 24, 0xf)),
            max_speed_8d_8d_8d_with_data_strobe: MaxSpeed::from_bits(get_field_u8(w, 28, 0xf)),
        }
    }
}

/// The twenty-first word: DTR fast read support.
#[derive(Clone, Copy, Debug, PartialEq, Eq, Structural)]
pub struct BasicFlashWord21 {
    pub support_1s_1d_1d_fast_read: bool,
    pub support_1s_2d_2d_fast_read: bool,
    pub support_1s_4d_4d_fast_read: bool,
    pub support_4s_4d_4d_fast_read: bool,
}

impl BasicFlashWord21 {
    /// The fields held in the word `w`.
    pub open spec fn decode(w: u32) -> Self {
        BasicFlashWord21 {
            support_1s_1d_1d_fast_read: field32(w, 0, 1) == 1,
            support_1s_2d_2d_fast_read: field32(w, 1, 1) == 1,
            support_1s_4d_4d_fast_read: field32(w, 2, 1) == 1,
            support_4s_4d_4d_fast_read: field32(w, 3, 1) == 1,
        }
    }

    /// Decodes the word; reserved bits are ignored.
    pub fn from_bits(w: u32) -> (r: Self)
        ensures
            r == Self::decode(w),
    {
        BasicFlashWord21 {
            support_1s_1d_1d_fast_read: get_flag(w, 0),
            support_1s_2d_2d_fast_read: get_flag(w, 1),
            support_1s_4d_4d_fast_read: get_flag(w, 2),
            support_4s_4d_4d_fast_read: get_flag(w, 3),
        }
    }
}

/// The twenty-second word: 1S-1D-1D and 1S-2D-2D fast read.
#[derive(Clone, Copy, Debug, PartialEq, Eq, Structural)]
pub struct BasicFlashWord22 {
    pub fast_read_1s_1d_1d_wait_states: u8,
    pub fast_read_1s_1d_1d_mode_clocks: u8,
    pub fast_read_1s_1d_1d_instr: u8,
    pub fast_read_1s_2d_2d_wait_states: u8,
    pub fast_read_1s_2d_2d_mode_clocks: u8,
    pub fast_read_1s_2d_2d_instr: u8,
}

impl BasicFlashWord22 {
    /// The fields held in the word `w`.
    pub open spec fn decode(w: u32) -> Self {
        BasicFlashWord22 {
            fast_read_1s_1d_1d_wait_states: field32(w, 0, 0x1f) as u8,
            fast_read_1s_1d_1d_mode_clocks: field32(w, 5, 0x7) as u8,
            fast_read_1s_1d_1d_instr: field32(w, 8, 0xff) as u8,
            fast_read_1s_2d_2d_wait_states: field32(w, 16, 0x1f) as u8,
            fast_read_1s_2d_2d_mode_clocks: field32(w, 21, 0x7) as u8,
            fast_read_1s_2d_2d_instr: field32(w, 24, 0xff) as u8,
        }
    }

    /// Decodes the word; reserved bits are ignored.
    pub fn from_bits(w: u32) -> (r: Self)
        ensures
            r == Self::decode(w),
    {
        BasicFlashWord22 {
            fast_read_1s_1d_1d_wait_states: get_field_u8(w, 0, 0x1f),
            fast_read_1s_1d_1d_mode_clocks: get_field_u8(w, 5, 0x7),
            fast_read_1s_1d_1d_instr: get_field_u8(w, 8, 0xff),
            fast_read_1s_2d_2d_wait_states: get_field_u8(w, 16, 0x1f),
            fast_read_1s_2d_2d_mode_clocks: get_field_u8(w, 21, 0x7),
            fast_read_1s_2d_2d_instr: get_field_u8(w, 24, 0xff),
        }
    }
}

/// The twenty-third word: 1S-4D-4D and 4S-4D-4D fast read.
#[derive(Clone, Copy, Debug, PartialEq, Eq, Structural)]
pub struct BasicFlashWord23 {
    pub fast_read_1s_4d_4d_wait_states: u8,
    pub fast_read_1s_4d_4d_mode_clocks: u8,
    pub fast_read_1s_4d_4d_instr: u8,
    pub fast_read_4s_4d_4d_wait_states: u8,
    pub fast_read_4s_4d_4d_mode_clocks: u8,
    pub fast_read_4s_4d_4d_instr: u8,
}

impl BasicFlashWord23 {
    /// The fields held in the word `w`.
    pub open spec fn decode(w: u32) -> Self {
        BasicFlashWord23 {
            fast_read_1s_4d_4d_wait_states: field32(w, 0, 0x1f) as u8,
            fast_read_1s_4d_4d_mode_clocks: field32(w, 5, 0x7) as u8,
            fast_read_1s_4d_4d_instr: field32(w, 8, 0xff) as u8,
            fast_read_4s_4d_4d_wait_states: field32(w, 16, 0x1f) as u8,
            fast_read_4s_4d_4d_mode_clocks: field32(w, 21, 0x7) as u8,
            fast_read_4s_4d_4d_instr: field32(w, 24, 0xff) as u8,
        }
    }

    /// Decodes the word; reserved bits are ignored.
    pub fn from_bits(w: u32) -> (r: Self)
        ensures
            r == Self::decode(w),
    {
        BasicFlashWord23 {
            fast_read_1s_4d_4d_wait_states: get_field_u8(w, 0, 0x1f),
            fast_read_1s_4d_4d_mode_clocks: get_field_u8(w, 5, 0x7),
            fast_read_1s_4d_4d_instr: get_field_u8(w, 8, 0xff),
            fast_read_4s_4d_4d_wait_states: get_field_u8(w, 16, 0x1f),
            fast_read_4s_4d_4d_mode_clocks: get_field_u8(w, 21, 0x7),
            fast_read_4s_4d_4d_instr: get_field_u8(w, 24, 0xff),
        }
    }
}

/// The first word of the 4-byte address instruction table: which 4-byte instructions are supported.
#[allow(non_camel_case_types)]
#[derive(Clone, Copy, Debug, PartialEq, Eq, Structural)]
pub struct _4BInstructionTableWord1 {
    pub _1s_1s_1s_read_support: bool,
    pub _1s_1s_1s_fast_read_support: bool,
    pub _1s_1s_2s_fast_read_support: bool,
    pub _1s_2s_2s_fast_read_support: bool,
    pub _1s_1s_4s_fast_read_support: bool,
    pub _1s_4s_4s_fast_read_support: bool,
    pub _1s_1s_1s_page_program_support: bool,
    pub _1s_1s_4s_page_program_support: bool,
    pub _1s_4s_4s_page_program_support: bool,
    pub erase_type_1_support: bool,
    pub erase_type_2_support: bool,
    pub erase_type_3_support: bool,
    pub erase_type_4_support: bool,
    pub _1s_1d_1d_dtr_read_support: bool,
    pub _1s_2d_2d_dtr_read_support: bool,
    pub _1s_4d_4d_dtr_read_support: bool,
    pub volatile_sector_lock_read_support: bool,
    pub volatile_sector_lock_write_support: bool,
    pub non_volatile_sector_lock_read_support: bool,
    pub non_volatile_sector_lock_write_support: bool,
    pub _1s_1s_8s_fast_read_support: bool,
    pub _1s_8s_8s_fast_read_support: bool,
    pub _1s_8d_8d_dtr_read_support: bool,
    pub _1s_1s_8s_page_program_support: bool,
    pub _1s_8s_8s_page_program_support: bool,
}

impl _4BInstructionTableWord1 {
    /// The fields held in the word `w`.
    pub open spec fn decode(w: u32) -> Self {
        _4BInstructionTableWord1 {
            _1s_1s_1s_read_support: field32(w, 0, 1) == 1,
            _1s_1s_1s_fast_read_support: field32(w, 1, 1) == 1,
            _1s_1s_2s_fast_read_support: field32(w, 2, 1) == 1,
            _1s_2s_2s_fast_read_support: field32(w, 3, 1) == 1,
            _1s_1s_4s_fast_read_support: field32(w, 4, 1) == 1,
            _1s_4s_4s_fast_read_support: field32(w, 5, 1) == 1,
            _1s_1s_1s_page_program_support: field32(w, 6, 1) == 1,
            _1s_1s_4s_page_program_support: field32(w, 7, 1) == 1,
            _1s_4s_4s_page_program_support: field32(w, 8, 1) == 1,
            erase_type_1_support: field32(w, 9, 1) == 1,
            erase_type_2_support: field32(w, 10, 1) == 1,
            erase_type_3_support: field32(w, 11, 1) == 1,
            erase_type_4_support: field32(w, 12, 1) == 1,
            _1s_1d_1d_dtr_read_support: field32(w, 13, 1) == 1,
            _1s_2d_2d_dtr_read_support: field32(w, 14, 1) == 1,
            _1s_4d_4d_dtr_read_support: field32(w, 15, 1) == 1,
            volatile_sector_lock_read_support: field32(w, 16, 1) == 1,
            volatile_sector_lock_write_support: field32(w, 17, 1) == 1,
            non_volatile_sector_lock_read_support: field32(w, 18, 1) == 1,
            non_volatile_sector_lock_write_support: field32(w, 19, 1) == 1,
            _1s_1s_8s_fast_read_support: field32(w, 20, 1) == 1,
            _1s_8s_8s_fast_read_support: field32(w, 21, 1) == 1,
            _1s_8d_8d_dtr_read_support: field32(w, 22, 1) == 1,
            _1s_1s_8s_page_program_support: field32(w, 23, 1) == 1,
            _1s_8s_8s_page_program_support: field32(w, 24, 1) == 1,
        }
    }

    /// Decodes the word; reserved bits are ignored.
    pub fn from_bits(w: u32) -> (r: Self)
        ensures
            r == Self::decode(w),
    {
        _4BInstructionTableWord1 {
            _1s_1s_1s_read_support: get_flag(w, 0),
            _1s_1s_1s_fast_read_support: get_flag(w, 1),
            _1s_1s_2s_fast_read_support: get_flag(w, 2),
            _1s_2s_2s_fast_read_support: get_flag(w, 3),
            _1s_1s_4s_fast_read_support: get_flag(w, 4),
            _1s_4s_4s_fast_read_support: get_flag(w, 5),
            _1s_1s_1s_page_program_support: get_flag(w, 6),
            _1s_1s_4s_page_program_support: get_flag(w, 7),
            _1s_4s_4s_page_program_support: get_flag(w, 8),
            erase_type_1_support: get_flag(w, 9),
            erase_type_2_support: get_flag(w, 10),
            erase_type_3_support: get_flag(w, 11),
            erase_type_4_support: get_flag(w, 12),
            _1s_1d_1d_dtr_read_support: get_flag(w, 13),
            _1s_2d_2d_dtr_read_support: get_flag(w, 14),
            _1s_4d_4d_dtr_read_support: get_flag(w, 15),
            volatile_sector_lock_read_support: get_flag(w, 16),
            volatile_sector_lock_write_support: get_flag(w, 17),
            non_volatile_sector_lock_read_support: get_flag(w, 18),
            non_volatile_sector_lock_write_support: get_flag(w, 19),
            _1s_1s_8s_fast_read_support: get_flag(w, 20),
            _1s_8s_8s_fast_read_support: get_flag(w, 21),
            _1s_8d_8d_dtr_read_support: get_flag(w, 22),
            _1s_1s_8s_page_program_support: get_flag(w, 23),
            _1s_8s_8s_page_program_support: get_flag(w, 24),
        }
    }
}

/// The second word of the 4-byte address instruction table: the 4-byte erase instructions.
#[allow(non_camel_case_types)]
#[derive(Clone, Copy, Debug, PartialEq, Eq, Structural)]
pub struct _4BInstructionTableWord2 {
    pub erase_type_1_instr: u8,
    pub erase_type_2_instr: u8,
    pub erase_type_3_instr: u8,
    pub erase_type_4_instr: u8,
}

impl _4BInstructionTableWord2 {
    /// The fields held in the word `w`.
    pub open spec fn decode(w: u32) -> Self {
        _4BInstructionTableWord2 {
            erase_type_1_instr: field32(w, 0, 0xff) as u8,
            erase_type_2_instr: field32(w, 8, 0xff) as u8,
            erase_type_3_instr: field32(w, 16, 0xff) as u8,
            erase_type_4_instr: field32(w, 24, 0xff) as u8,
        }
    }

    /// Decodes the word; reserved bits are ignored.
    pub fn from_bits(w: u32) -> (r: Self)
        ensures
            r == Self::decode(w),
    {
        _4BInstructionTableWord2 {
            erase_type_1_instr: get_field_u8(w, 0, 0xff),
            erase_type_2_instr: get_field_u8(w, 8, 0xff),
            erase_type_3_instr: get_field_u8(w, 16, 0xff),
            erase_type_4_instr: get_field_u8(w, 24, 0xff),
        }
    }
}

} // verus!
