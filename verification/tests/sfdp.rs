//! Scenarios of the SFDP parser: headers, tables, densities and timings.
use core::time::Duration;

use sfdp_dfu::error::ErrorCode::{
    FLASH_GENERIC_SFDP_INVALID_MEMORY_DENSITY, FLASH_GENERIC_SFDP_PARAMETERS_TOO_SHORT,
};
use sfdp_dfu::sfdp::density::MemoryDensity;
use sfdp_dfu::sfdp::header::{AccessProtocol, FunctionSpecificParameterTableIdAssignments};
use sfdp_dfu::sfdp::reader::SfdpReader;
use sfdp_dfu::sfdp::timing::EraseTime;

#[test]
fn test_duration() {
    let et = EraseTime::from_bits(0b1000010);
    assert_eq!(Duration::from(et), Duration::from_millis(384));
}

#[test]
fn small() {
    let density: MemoryDensity = MemoryDensity::read_from_bytes(&[0xFF, 0xFF, 0xFF, 0x00]).unwrap();
    assert_eq!(density.byte_len().unwrap(), 16 * 1024 * 1024 / 8);
    assert_eq!(
        MemoryDensity::from_byte_len(2 * 1024 * 1024)
            .unwrap()
            .as_bytes(),
        &[0xFF, 0xFF, 0xFF, 0x00]
    );
}

#[test]
fn big() {
    let density: MemoryDensity = MemoryDensity::read_from_bytes(&[0x21, 0x00, 0x00, 0x80]).unwrap();
    assert_eq!(density.byte_len().unwrap(), 1024 * 1024 * 1024);
    assert_eq!(
        MemoryDensity::from_byte_len(1024 * 1024 * 1024)
            .unwrap()
            .as_bytes(),
        &[0x21, 0x00, 0x00, 0x80]
    );
}

#[test]
fn too_big() {
    let density: MemoryDensity = MemoryDensity::read_from_bytes(&[0x24, 0x00, 0x00, 0x80]).unwrap();
    assert_eq!(
        density.byte_len(),
        Err(FLASH_GENERIC_SFDP_INVALID_MEMORY_DENSITY)
    );
}

#[test]
fn from_byte_len() {
    assert_eq!(
        MemoryDensity::from_byte_len(0),
        Err(FLASH_GENERIC_SFDP_INVALID_MEMORY_DENSITY)
    );
    assert_eq!(MemoryDensity::from_byte_len(1), Ok(MemoryDensity(0x7)));
    assert_eq!(MemoryDensity::from_byte_len(2), Ok(MemoryDensity(0xf)));
    assert_eq!(MemoryDensity::from_byte_len(3), Ok(MemoryDensity(0x17)));
    assert_eq!(MemoryDensity::from_byte_len(4), Ok(MemoryDensity(0x1f)));
    assert_eq!(
        MemoryDensity::from_byte_len(1024),
        Ok(MemoryDensity(0x1fff))
    );
    assert_eq!(
        MemoryDensity::from_byte_len(1025),
        Ok(MemoryDensity(0x2007))
    );
    assert_eq!(
        MemoryDensity::from_byte_len(1024 * 1024),
        Ok(MemoryDensity(0x7f_ffff))
    );
    assert_eq!(
        MemoryDensity::from_byte_len(256 * 1024 * 1024),
        Ok(MemoryDensity(0x7fff_ffff))
    );
    assert_eq!(
        MemoryDensity::from_byte_len(256 * 1024 * 1024 + 1),
        Err(FLASH_GENERIC_SFDP_INVALID_MEMORY_DENSITY)
    );
    assert_eq!(
        MemoryDensity::from_byte_len(512 * 1024 * 1024),
        Ok(MemoryDensity(0x8000_0020))
    );
    assert_eq!(
        MemoryDensity::from_byte_len(1024 * 1024 * 1024),
        Ok(MemoryDensity(0x8000_0021))
    );
    assert_eq!(
        MemoryDensity::from_byte_len(2048 * 1024 * 1024),
        Ok(MemoryDensity(0x8000_0022))
    );
    assert_eq!(
        MemoryDensity::from_byte_len(u32::MAX),
        Err(FLASH_GENERIC_SFDP_INVALID_MEMORY_DENSITY)
    );
}

#[test]
fn too_long() {
    let sfdp_bytes_params_too_long: &[u8] = &[
        0x53, 0x46, 0x44, 0x50, 0x05, 0x01, 0x00, 0xff, 0x00, 0x05, 0x01,
        /*param len =*/ 0x20, 0x80, 0x00, 0x00, 0xff, 0xff, 0xff, 0xff, 0xff, 0xff, 0xff,
        0xff, 0xff, 0xff, 0xff, 0xff, 0xff, 0xff, 0xff, 0xff, 0xff, 0xff, 0xff, 0xff, 0xff,
        0xff, 0xff, 0xff, 0xff, 0xff, 0xff, 0xff, 0xff, 0xff, 0xff, 0xff, 0xff, 0xff, 0xff,
        0xff, 0xff, 0xff, 0xff, 0xff, 0xff, 0xff, 0xff, 0xff, 0xff, 0xff, 0xff, 0xff, 0xff,
        0xff, 0xff, 0xff, 0xff, 0xff, 0xff, 0xff, 0xff, 0xff, 0xff, 0xff, 0xff, 0xff, 0xff,
        0xff, 0xff, 0xff, 0xff, 0xff, 0xff, 0xff, 0xff, 0xff, 0xff, 0xff, 0xff, 0xff, 0xff,
        0xff, 0xff, 0xff, 0xff, 0xff, 0xff, 0xff, 0xff, 0xff, 0xff, 0xff, 0xff, 0xff, 0xff,
        0xff, 0xff, 0xff, 0xff, 0xff, 0xff, 0xff, 0xff, 0xff, 0xff, 0xff, 0xff, 0xff, 0xff,
        0xff, 0xff, 0xff, 0xff, 0xff, 0xff, 0xff, 0xff, 0xe5, 0x20, 0xf9, 0xff, 0xff, 0xff,
        0xff, 0x07, 0x44, 0xeb, 0x08, 0x6b, 0x08, 0x3b, 0x42, 0xbb, 0xfe, 0xff, 0xff, 0xff,
        0xff, 0xff, 0x00, 0x00, 0xff, 0xff, 0x40, 0xeb, 0x0c, 0x20, 0x0f, 0x52, 0x10, 0xd8,
        0x00, 0x00, 0x36, 0x02, 0xa6, 0x00, 0x82, 0xea, 0x14, 0xc9, 0xe9, 0x63, 0x76, 0x33,
        0x7a, 0x75, 0x7a, 0x75, 0xf7, 0xa2, 0xd5, 0x5c, 0x19, 0xf7, 0x4d, 0xff, 0xe9, 0x30,
        0xf8, 0x80, 0xff, 0xff, 0xff, 0xff, 0xff, 0xff, 0xff, 0xff, 0xff, 0xff, 0xff, 0xff,
        0xff, 0xff, 0xff, 0xff, 0xff, 0xff, 0xff, 0xff, 0xff, 0xff, 0xff, 0xff, 0xff, 0xff,
        0xff, 0xff, 0xff, 0xff, 0xff, 0xff, 0xff, 0xff, 0xff, 0xff, 0xff, 0xff, 0xff, 0xff,
        0xff, 0xff, 0xff, 0xff, 0xff, 0xff, 0xff, 0xff, 0xff, 0xff, 0xff, 0xff, 0xff, 0xff,
        0xff, 0xff, 0xff, 0xff, 0xff, 0xff, 0xff, 0xff, 0xff, 0xff,
    ];
    let mut sfdp_reader: SfdpReader = SfdpReader::new(sfdp_bytes_params_too_long).unwrap();
    let params = sfdp_reader.basic_flash_parameters().unwrap();
    assert!(params.table_jesd216f().is_some());
}

#[test]
fn too_short() {
    let sfdp_bytes_params_too_short: &[u8] = &[
        0x53, 0x46, 0x44, 0x50, 0x05, 0x01, 0x00, 0xff, 0x00, 0x05, 0x01,
        /*param len =*/ 0x02, 0x80, 0x00, 0x00, 0xff, 0xff, 0xff, 0xff, 0xff, 0xff, 0xff,
        0xff, 0xff, 0xff, 0xff, 0xff, 0xff, 0xff, 0xff, 0xff, 0xff, 0xff, 0xff, 0xff, 0xff,
        0xff, 0xff, 0xff, 0xff, 0xff, 0xff, 0xff, 0xff, 0xff, 0xff, 0xff, 0xff, 0xff, 0xff,
        0xff, 0xff, 0xff, 0xff, 0xff, 0xff, 0xff, 0xff, 0xff, 0xff, 0xff, 0xff, 0xff, 0xff,
        0xff, 0xff, 0xff, 0xff, 0xff, 0xff, 0xff, 0xff, 0xff, 0xff, 0xff, 0xff, 0xff, 0xff,
        0xff, 0xff, 0xff, 0xff, 0xff, 0xff, 0xff, 0xff, 0xff, 0xff, 0xff, 0xff, 0xff, 0xff,
        0xff, 0xff, 0xff, 0xff, 0xff, 0xff, 0xff, 0xff, 0xff, 0xff, 0xff, 0xff, 0xff, 0xff,
        0xff, 0xff, 0xff, 0xff, 0xff, 0xff, 0xff, 0xff, 0xff, 0xff, 0xff, 0xff, 0xff, 0xff,
        0xff, 0xff, 0xff, 0xff, 0xff, 0xff, 0xff, 0xff, 0xe5, 0x20, 0xf9, 0xff, 0xff, 0xff,
        0xff, 0x07, 0x44, 0xeb, 0x08, 0x6b, 0x08, 0x3b, 0x42, 0xbb, 0xfe, 0xff, 0xff, 0xff,
        0xff, 0xff, 0x00, 0x00, 0xff, 0xff, 0x40, 0xeb, 0x0c, 0x20, 0x0f, 0x52, 0x10, 0xd8,
        0x00, 0x00, 0x36, 0x02, 0xa6, 0x00, 0x82, 0xea, 0x14, 0xc9, 0xe9, 0x63, 0x76, 0x33,
        0x7a, 0x75, 0x7a, 0x75, 0xf7, 0xa2, 0xd5, 0x5c, 0x19, 0xf7, 0x4d, 0xff, 0xe9, 0x30,
        0xf8, 0x80, 0xff, 0xff, 0xff, 0xff, 0xff, 0xff, 0xff, 0xff, 0xff, 0xff, 0xff, 0xff,
        0xff, 0xff, 0xff, 0xff, 0xff, 0xff, 0xff, 0xff, 0xff, 0xff, 0xff, 0xff, 0xff, 0xff,
        0xff, 0xff, 0xff, 0xff, 0xff, 0xff, 0xff, 0xff, 0xff, 0xff, 0xff, 0xff, 0xff, 0xff,
        0xff, 0xff, 0xff, 0xff, 0xff, 0xff, 0xff, 0xff, 0xff, 0xff, 0xff, 0xff, 0xff, 0xff,
        0xff, 0xff, 0xff, 0xff, 0xff, 0xff, 0xff, 0xff, 0xff, 0xff,
    ];
    let mut sfdp_reader: SfdpReader = SfdpReader::new(sfdp_bytes_params_too_short).unwrap();
    assert_eq!(
        sfdp_reader.basic_flash_parameters(),
        Err(FLASH_GENERIC_SFDP_PARAMETERS_TOO_SHORT)
    );
}

#[test]
fn print_params() {
    let sfdp_bytes: &[u8] = &[
        0x53, 0x46, 0x44, 0x50, 0x05, 0x01, 0x00, 0xff, 0x00, 0x05, 0x01, 0x10, 0x80, 0x00,
        0x00, 0xff, 0xff, 0xff, 0xff, 0xff, 0xff, 0xff, 0xff, 0xff, 0xff, 0xff, 0xff, 0xff,
        0xff, 0xff, 0xff, 0xff, 0xff, 0xff, 0xff, 0xff, 0xff, 0xff, 0xff, 0xff, 0xff, 0xff,
        0xff, 0xff, 0xff, 0xff, 0xff, 0xff, 0xff, 0xff, 0xff, 0xff, 0xff, 0xff, 0xff, 0xff,
        0xff, 0xff, 0xff, 0xff, 0xff, 0xff, 0xff, 0xff, 0xff, 0xff, 0xff, 0xff, 0xff, 0xff,
        0xff, 0xff, 0xff, 0xff, 0xff, 0xff, 0xff, 0xff, 0xff, 0xff, 0xff, 0xff, 0xff, 0xff,
        0xff, 0xff, 0xff, 0xff, 0xff, 0xff, 0xff, 0xff, 0xff, 0xff, 0xff, 0xff, 0xff, 0xff,
        0xff, 0xff, 0xff, 0xff, 0xff, 0xff, 0xff, 0xff, 0xff, 0xff, 0xff, 0xff, 0xff, 0xff,
        0xff, 0xff, 0xff, 0xff, 0xff, 0xff, 0xff, 0xff, 0xff, 0xff, 0xff, 0xff, 0xff, 0xff,
        0xff, 0xff, 0xe5, 0x20, 0xf9, 0xff, 0xff, 0xff, 0xff, 0x07, 0x44, 0xeb, 0x08, 0x6b,
        0x08, 0x3b, 0x42, 0xbb, 0xfe, 0xff, 0xff, 0xff, 0xff, 0xff, 0x00, 0x00, 0xff, 0xff,
        0x40, 0xeb, 0x0c, 0x20, 0x0f, 0x52, 0x10, 0xd8, 0x00, 0x00, 0x36, 0x02, 0xa6, 0x00,
        0x82, 0xea, 0x14, 0xc9, 0xe9, 0x63, 0x76, 0x33, 0x7a, 0x75, 0x7a, 0x75, 0xf7, 0xa2,
        0xd5, 0x5c, 0x19, 0xf7, 0x4d, 0xff, 0xe9, 0x30, 0xf8, 0x80, 0xff, 0xff, 0xff, 0xff,
        0xff, 0xff, 0xff, 0xff, 0xff, 0xff, 0xff, 0xff, 0xff, 0xff, 0xff, 0xff, 0xff, 0xff,
        0xff, 0xff, 0xff, 0xff, 0xff, 0xff, 0xff, 0xff, 0xff, 0xff, 0xff, 0xff, 0xff, 0xff,
        0xff, 0xff, 0xff, 0xff, 0xff, 0xff, 0xff, 0xff, 0xff, 0xff, 0xff, 0xff, 0xff, 0xff,
        0xff, 0xff, 0xff, 0xff, 0xff, 0xff, 0xff, 0xff, 0xff, 0xff, 0xff, 0xff, 0xff, 0xff,
        0xff, 0xff, 0xff, 0xff,
    ];

    let mut sfdp_reader: SfdpReader = SfdpReader::new(sfdp_bytes).unwrap();

    let sfdp_header = sfdp_reader.header().unwrap();
    assert!(sfdp_header.sig.is_valid());
    assert_eq!(sfdp_header.access_protocol.0, AccessProtocol::LEGACY);
    assert_eq!(sfdp_header.major_rev, 1);
    assert_eq!(sfdp_header.minor_rev, 5);
    assert_eq!(sfdp_header.num_parameter_header, 0);

    let basic_flash = sfdp_reader.basic_flash_parameters().unwrap();

    assert_eq!(
        basic_flash.header.parameter_id().0,
        FunctionSpecificParameterTableIdAssignments::BASIC_FLASH
    );
    assert_eq!(basic_flash.header.major_rev, 1);
    assert_eq!(basic_flash.header.minor_rev, 5);
    assert_eq!(basic_flash.header.len_in_dwords, 16);
    assert_eq!(basic_flash.header.ptr.as_u32(), 128);

    assert_eq!(
        format!("{:#?}", basic_flash.table_jesd216()),
            r#"BasicFlashParameterTableJESD216 {
    word1: BasicFlashWord1 {
        legacy_erase_sizes: Erase4k,
        legacy_write_granularity: Buffer64,
        block_protect_is_volatile: false,
        status_write_requires_write_enable: false,
        erase4k_instr: 32,
        supports_1s_1s_2s_read: true,
        addr_bytes: _3ByteOnly,
        dtr_clocking_supported: true,
        supports_1s_2s_2s_read: true,
        supports_1s_4s_4s_read: true,
        supports_1s_1s_4s_read: true,
    },
    memory_density: MemoryDensity(
        134217727,
    ),
    word3: BasicFlashWord3 {
        fast_read_1s_4s_4s_wait_states: 4,
        fast_read_1s_4s_4s_mode_clocks: 2,
        fast_read_1s_4s_4s_instr: 235,
        fast_read_1s_1s_4s_wait_states: 8,
        fast_read_1s_1s_4s_mode_clocks: 0,
        fast_read_1s_1s_4s_instr: 107,
    },
    word4: BasicFlashWord4 {
        fast_read_1s_1s_2s_wait_states: 8,
        fast_read_1s_1s_2s_mode_clocks: 0,
        fast_read_1s_1s_2s_instr: 59,
        fast_read_1s_2s_2s_wait_states: 2,
        fast_read_1s_2s_2s_mode_clocks: 2,
        fast_read_1s_2s_2s_instr: 187,
    },
    word5: BasicFlashWord5 {
        fast_read_2x_2s_2s_supported: false,
        fast_read_4x_4s_4s_supported: true,
    },
    word6: BasicFlashWord6 {
        fast_read_2s_2s_2s_wait_states: 0,
        fast_read_2s_2s_2s_mode_clocks: 0,
        fast_read_2s_2s_2s_instr: 0,
    },
    word7: BasicFlashWord7 {
        fast_read_4s_4s_4s_wait_states: 0,
        fast_read_4s_4s_4s_mode_clocks: 2,
        fast_read_4s_4s_4s_instr: 235,
    },
    word8: BasicFlashWord8 {
        erase_type_1_size: PowerOf2 {
            n: 12,
        },
        erase_type_1_instr: 32,
        erase_type_2_size: PowerOf2 {
            n: 15,
        },
        erase_type_2_instr: 82,
    },
    word9: BasicFlashWord9 {
        erase_type_3_size: PowerOf2 {
            n: 16,
        },
        erase_type_3_instr: 216,
        erase_type_4_size: PowerOf2 {
            n: 0,
        },
        erase_type_4_instr: 0,
    },
}"#
    );
    assert_eq!(
        format!("{:#?}", basic_flash.table_jesd216a().unwrap()),
            r#"BasicFlashParameterTableJESD216A {
    word10: BasicFlashWord10 {
        multiplier_max_erase_time: 6,
        erase_type_1_time: EraseTime {
            count: 3,
            units: _16ms,
        },
        erase_type_2_time: EraseTime {
            count: 0,
            units: _128ms,
        },
        erase_type_3_time: EraseTime {
            count: 9,
            units: _16ms,
        },
        erase_type_4_time: EraseTime {
            count: 0,
            units: _1ms,
        },
    },
    word11: BasicFlashWord11 {
        multiplier_max_page_program: 2,
        page_size: SmallPowerOf2 {
            n: 8,
        },
        page_program_time: PageProgramTime {
            count: 10,
            units: _64us,
        },
        byte_program_first_time: ByteProgramTime {
            count: 3,
            unit: _8us,
        },
        byte_program_additional_time: ByteProgramTime {
            count: 2,
            unit: _1us,
        },
        chip_erase_time: ChipEraseTime {
            count: 9,
            units: _16ms,
        },
    },
    word12: BasicFlashWord12 {
        prohibited_ops_during_program_suspend: ProhibitedOpsDuringProgramSuspend {
            erase_nesting_permitted: true,
            program_nesting_permitted: false,
            no_read: false,
            erase_and_program_restrictions_are_sufficient: true,
        },
        prohibited_ops_during_erase_suspend: ProhibitedOpsDuringEraseSuspend {
            erase_nesting_permitted: false,
            program_nesting_permitted: true,
            no_read: true,
            erase_and_program_restrictions_are_sufficient: true,
        },
        program_resume_suspend_interval: Interval64us {
            counts_64ms: 1,
        },
        suspend_in_progress_program_max_latency: DurationEnumA {
            count: 19,
            units: _1us,
        },
        erase_resume_suspend_interval: Interval64us {
            counts_64ms: 7,
        },
        suspend_in_progress_erase_max_latency: DurationEnumA {
            count: 19,
            units: _1us,
        },
        suspend_resume_supported: false,
    },
    word13: BasicFlashWord13 {
        program_resume_instr: 122,
        program_suspend_instr: 117,
        resume_instr: 122,
        suspend_instr: 117,
    },
    word14: BasicFlashWord14 {
        status_register_polling_device_busy: StatusRegisterPollingDeviceBusy {
            legacy_polling_supported: true,
            bit_7_polled_any_time: false,
        },
        exit_deep_powerdown_next_op_delay: DurationEnumA {
            count: 2,
            units: _1us,
        },
        exit_deep_powerdown_instr: 171,
        enter_deep_powerdown_instr: 185,
        deep_powerdown_supported: false,
    },
    word15: BasicFlashWord15 {
        mode_disable_sequence_4s_4s_4s: ModeDisableSequence4S4S4S {
            issue_ff_instr: true,
            issue_f5_instr: false,
            read_mod_write_seq: false,
            issue_soft_reset: true,
        },
        mode_enable_sequence_4s_4s_4s: ModeEnableSequence4S4S4S {
            set_qe: true,
            issue_38_instr: false,
            issue_35_instr: false,
            read_mod_write_seq1: false,
            read_mod_write_seq2: true,
        },
        mode_0_4_4_supported: true,
        mode_exit_method_0_4_4: ModeExitMethod044 {
            mod_bits_00: true,
            input_io1: false,
            input_io2: true,
            mod_bits_not_ax: true,
        },
        mode_entry_method_0_4_4: ModeEntryMethod044 {
            mod_bits_a5: true,
            instr_85: false,
            mod_bits_ax: true,
        },
        quad_enable_requirements: QeBit1SR2C,
        hold_or_reset_disable: false,
    },
    word16: BasicFlashWord16 {
        volatile_non_register_write_enable_instr: VolatileNonRegisterWriteEnableInstr {
            non_volatile_reg1_last_written_we06: true,
            volatile_reg1_last_written_we06: false,
            volatile_reg1_last_written_we50: false,
            volatile_non_reg1_last_written_we0650: true,
            mix_volatile_we06: false,
        },
        soft_reset_rescue_seq_support: SoftResetRescureSeqSupport {
            drive0_f8_clk: false,
            drive0_f10_clk: false,
            drive0_f16_clk: false,
            instr_f0: false,
            instr66_then99: true,
            exit044_first: true,
        },
        exit_4_b_addressing: Exit4BAddressing {
            instr_e9: false,
            instr_06_then_e9: false,
            ear: false,
            bank_reg: false,
            conf_reg: false,
            hardware_reset: true,
            software_reset: true,
            power_cycle: true,
        },
        enter_4_b_addressing: Enter4BAddressing {
            intr_b7: false,
            instr_06_then_b7: false,
            ear: false,
            bank_reg: false,
            conf_reg: false,
            dedicated_add: false,
            always_4b: false,
        },
    },
}"#
    );

    assert!(basic_flash.table_jesd216c().is_none());
    assert!(basic_flash.table_jesd216f().is_none());
}

struct TestSample<'a> {
    name: &'a str,
    sfdp_bytes: &'a [u8],
    expected_mem_density: u32,
    expected_page_size_from_jesd216a: Option<usize>,
    expected_4b_table: bool,
}

const TEST_SAMPLES: &[TestSample] = &[
    TestSample {
        name: "test_1",
        sfdp_bytes: &[
            0x53, 0x46, 0x44, 0x50, 0x05, 0x01, 0x01, 0xFF, 0x00, 0x05, 0x01, 0x10, 0x18, 0x00,
            0x00, 0xFF, 0x26, 0x00, 0x01, 0x04, 0x58, 0x00, 0x00, 0xFF, 0xF5, 0x20, 0x85, 0xFF,
            0xFF, 0xFF, 0xFF, 0x1F, 0x00, 0x00, 0x00, 0x00, 0x08, 0x3B, 0x00, 0x00, 0xEE, 0xFF,
            0xFF, 0xFF, 0xFF, 0xFF, 0x00, 0x00, 0xFF, 0xFF, 0x00, 0x00, 0x0C, 0x20, 0x00, 0x00,
            0x00, 0x00, 0x00, 0x00, 0x01, 0x04, 0x00, 0x00, 0x81, 0xEF, 0xFF, 0xE1, 0x00, 0x01,
            0x00, 0x80, 0x00, 0x00, 0x00, 0x00, 0x07, 0x00, 0x00, 0x80, 0x00, 0x00, 0x00, 0xFF,
            0x82, 0x00, 0x00, 0x40, 0x47, 0x4F, 0x4F, 0x47, 0x00, 0x00, 0x70, 0x00, 0x00, 0x04,
            0x00, 0x00, 0xED, 0x2B, 0x00, 0x00, 0x00, 0x00, 0x00, 0x00, 0x00, 0x00, 0x00, 0x00,
            0x00, 0x00, 0x00, 0x00, 0x00, 0x00, 0x00, 0x00, 0x00, 0x00, 0x00, 0x00, 0x00, 0x00,
            0x00, 0x00,
        ],
        expected_mem_density: 64 * 1024 * 1024,
        expected_page_size_from_jesd216a: Some(256),
        expected_4b_table: false,
    },
    TestSample {
        name: "test_2",
        sfdp_bytes: &[
            0x53, 0x46, 0x44, 0x50, 0x00, 0x01, 0x01, 0xFF, 0x00, 0x00, 0x01, 0x09, 0x30, 0x00,
            0x00, 0xFF, 0xC2, 0x00, 0x01, 0x04, 0x60, 0x00, 0x00, 0xFF, 0xFF, 0xFF, 0xFF, 0xFF,
            0xFF, 0xFF, 0xFF, 0xFF, 0xFF, 0xFF, 0xFF, 0xFF, 0xFF, 0xFF, 0xFF, 0xFF, 0xFF, 0xFF,
            0xFF, 0xFF, 0xFF, 0xFF, 0xFF, 0xFF, 0xE5, 0x20, 0xF3, 0xFF, 0xFF, 0xFF, 0xFF, 0x0F,
            0x44, 0xEB, 0x08, 0x6B, 0x08, 0x3B, 0x04, 0xBB, 0xFE, 0xFF, 0xFF, 0xFF, 0xFF, 0xFF,
            0x00, 0xFF, 0xFF, 0xFF, 0x44, 0xEB, 0x0C, 0x20, 0x0F, 0x52, 0x10, 0xD8, 0x00, 0xFF,
            0xFF, 0xFF, 0xFF, 0xFF, 0xFF, 0xFF, 0xFF, 0xFF, 0xFF, 0xFF, 0xFF, 0xFF, 0x00, 0x36,
            0x00, 0x27, 0x9D, 0xF9, 0xC0, 0x64, 0x85, 0xCB, 0xFF, 0xFF, 0xFF, 0xFF, 0xFF, 0xFF,
            0xFF, 0xFF, 0xFF, 0xFF, 0xFF, 0xFF, 0xFF, 0xFF, 0xFF, 0xFF, 0xFF, 0xFF, 0xFF, 0xFF,
            0xFF, 0xFF,
        ],
        expected_mem_density: 32 * 1024 * 1024,
        expected_page_size_from_jesd216a: None, // doesn't support JESD216A
        expected_4b_table: false,
    },
    TestSample {
        name: "test_3",
        sfdp_bytes: &[
            0x53, 0x46, 0x44, 0x50, 0x05, 0x01, 0x01, 0xFF, 0x00, 0x05, 0x01, 0x10, 0x18, 0x00,
            0x00, 0xFF, 0x26, 0x00, 0x01, 0x04, 0x58, 0x00, 0x00, 0xFF, 0xF5, 0x20, 0x85, 0xFF,
            0xFF, 0xFF, 0xFF, 0x0F, 0x00, 0x00, 0x00, 0x00, 0x08, 0x3B, 0x00, 0x00, 0xEE, 0xFF,
            0xFF, 0xFF, 0xFF, 0xFF, 0x00, 0x00, 0xFF, 0xFF, 0x00, 0x00, 0x0C, 0x20, 0x10, 0xD8,
            0x00, 0x00, 0x00, 0x00, 0x01, 0x04, 0x00, 0x00, 0x81, 0xEF, 0xFF, 0xE1, 0x00, 0x01,
            0x00, 0x80, 0x00, 0x00, 0x00, 0x00, 0x07, 0x00, 0x00, 0x80, 0x00, 0x00, 0x00, 0xFF,
            0x82, 0x00, 0x00, 0x40, 0x47, 0x4F, 0x4F, 0x47, 0x00, 0x00, 0x90, 0x00, 0x00, 0x04,
            0x00, 0x00, 0xEF, 0x28, 0x00, 0x00, 0x00, 0x00, 0x00, 0x00, 0x00, 0x00, 0x00, 0x00,
            0x00, 0x00, 0x00, 0x00, 0x00, 0x00, 0x00, 0x00, 0x00, 0x00, 0x00, 0x00, 0x00, 0x00,
            0x00, 0x00,
        ],
        expected_mem_density: 32 * 1024 * 1024,
        expected_page_size_from_jesd216a: Some(256),
        expected_4b_table: false,
    },
    TestSample {
        name: "test_4",
        sfdp_bytes: &[
            0x53, 0x46, 0x44, 0x50, 0x00, 0x01, 0x01, 0xFF, 0x00, 0x00, 0x01, 0x09, 0x30, 0x00,
            0x00, 0xFF, 0xC2, 0x00, 0x01, 0x04, 0x60, 0x00, 0x00, 0xFF, 0xFF, 0xFF, 0xFF, 0xFF,
            0xFF, 0xFF, 0xFF, 0xFF, 0xFF, 0xFF, 0xFF, 0xFF, 0xFF, 0xFF, 0xFF, 0xFF, 0xFF, 0xFF,
            0xFF, 0xFF, 0xFF, 0xFF, 0xFF, 0xFF, 0xE5, 0x20, 0xF3, 0xFF, 0xFF, 0xFF, 0xFF, 0x1F,
            0x44, 0xEB, 0x08, 0x6B, 0x08, 0x3B, 0x04, 0xBB, 0xFE, 0xFF, 0xFF, 0xFF, 0xFF, 0xFF,
            0x00, 0xFF, 0xFF, 0xFF, 0x44, 0xEB, 0x0C, 0x20, 0x0F, 0x52, 0x10, 0xD8, 0x00, 0xFF,
            0xFF, 0xFF, 0xFF, 0xFF, 0xFF, 0xFF, 0xFF, 0xFF, 0xFF, 0xFF, 0xFF, 0xFF, 0x00, 0x36,
            0x00, 0x27, 0x9D, 0xF9, 0xC0, 0x64, 0x85, 0xCB, 0xFF, 0xFF, 0xFF, 0xFF, 0xFF, 0xFF,
            0xFF, 0xFF, 0xFF, 0xFF, 0xFF, 0xFF, 0xFF, 0xFF, 0xFF, 0xFF, 0xFF, 0xFF, 0xFF, 0xFF,
            0xFF, 0xFF,
        ],
        expected_mem_density: 64 * 1024 * 1024,
        expected_page_size_from_jesd216a: None, // doesn't support JESD216A
        expected_4b_table: false,
    },
    TestSample {
        name: "test_5",
        sfdp_bytes: &[
            0x53, 0x46, 0x44, 0x50, 0x06, 0x01, 0x02, 0xFF, //
            // v=1.6, l=0x10, ptr=0x30, f=0xff00
            0x00, 0x06, 0x01, 0x10, 0x30, 0x00, 0x00, 0xFF, //
            // v=1.0, l=0x04, ptr=0x10, f=0xffc2
            0xC2, 0x00, 0x01, 0x04, 0x10, 0x01, 0x00, 0xFF, //
            // v=1.0, l=0x02, ptr=0xC0, f=0xff84, the data is outside of this sample data
            0x84, 0x00, 0x01, 0x02, 0xC0, 0x00, 0x00, 0xFF, //
            0xFF, 0xFF, 0xFF, 0xFF, 0xFF, 0xFF, 0xFF, 0xFF, //
            0xFF, 0xFF, 0xFF, 0xFF, 0xFF, 0xFF, 0xFF, 0xFF, //
            0xE5, 0x20, 0xFB, 0xFF, 0xFF, 0xFF, 0xFF, 0x1F, //
            0x44, 0xEB, 0x08, 0x6B, 0x08, 0x3B, 0x04, 0xBB, //
            0xFE, 0xFF, 0xFF, 0xFF, 0xFF, 0xFF, 0x00, 0xFF, //
            0xFF, 0xFF, 0x44, 0xEB, 0x0C, 0x20, 0x0F, 0x52, //
            0x10, 0xD8, 0x00, 0xFF, 0xD6, 0x49, 0xC5, 0x00, //
            0x81, 0xDF, 0x04, 0xE3, 0x44, 0x03, 0x67, 0x38, //
            0x30, 0xB0, 0x30, 0xB0, 0xF7, 0xBD, 0xD5, 0x5C, //
            0x4A, 0x9E, 0x29, 0xFF, 0xF0, 0x50, 0xF9, 0x85, //
            0xFF, 0xFF, 0xFF, 0xFF, 0xFF, 0xFF, 0xFF, 0xFF, //
            0xFF, 0xFF, 0xFF, 0xFF, 0xFF, 0xFF, 0xFF, 0xFF, //
        ],
        expected_mem_density: 64 * 1024 * 1024,
        expected_page_size_from_jesd216a: Some(256),
        expected_4b_table: true,
    },
    TestSample {
        name: "test_6",
        sfdp_bytes: &[
            0x53, 0x46, 0x44, 0x50, 0x06, 0x01, 0x02, 0xFF, 0x00, 0x06, 0x01, 0x10, 0x30, 0x00,
            0x00, 0xFF, 0xC2, 0x00, 0x01, 0x04, 0x10, 0x01, 0x00, 0xFF, 0x84, 0x00, 0x01, 0x02,
            0xC0, 0x00, 0x00, 0xFF, 0xFF, 0xFF, 0xFF, 0xFF, 0xFF, 0xFF, 0xFF, 0xFF, 0xFF, 0xFF,
            0xFF, 0xFF, 0xFF, 0xFF, 0xFF, 0xFF, 0xE5, 0x20, 0xFB, 0xFF, 0xFF, 0xFF, 0xFF, 0x3F,
            0x44, 0xEB, 0x08, 0x6B, 0x08, 0x3B, 0x04, 0xBB, 0xFE, 0xFF, 0xFF, 0xFF, 0xFF, 0xFF,
            0x00, 0xFF, 0xFF, 0xFF, 0x44, 0xEB, 0x0C, 0x20, 0x0F, 0x52, 0x10, 0xD8, 0x00, 0xFF,
            0xD6, 0x49, 0xC5, 0x00, 0x85, 0xDF, 0x04, 0xE3, 0x44, 0x03, 0x67, 0x38, 0x30, 0xB0,
            0x30, 0xB0, 0xF7, 0xBD, 0xD5, 0x5C, 0x4A, 0x9E, 0x29, 0xFF, 0xF0, 0x50, 0xF9, 0x85,
            0xFF, 0xFF, 0xFF, 0xFF, 0xFF, 0xFF, 0xFF, 0xFF, 0xFF, 0xFF, 0xFF, 0xFF, 0xFF, 0xFF,
            0xFF, 0xFF,
        ],
        expected_mem_density: 128 * 1024 * 1024,
        expected_page_size_from_jesd216a: Some(256),
        expected_4b_table: true,
    },
    TestSample {
        name: "test_7",
        sfdp_bytes: &[
            0x53, 0x46, 0x44, 0x50, 0x06, 0x01, 0x02, 0xFF, 0x00, 0x06, 0x01, 0x10, 0x30, 0x00,
            0x00, 0xFF, 0xC2, 0x00, 0x01, 0x04, 0x10, 0x01, 0x00, 0xFF, 0x84, 0x00, 0x01, 0x02,
            0xC0, 0x00, 0x00, 0xFF, 0xFF, 0xFF, 0xFF, 0xFF, 0xFF, 0xFF, 0xFF, 0xFF, 0xFF, 0xFF,
            0xFF, 0xFF, 0xFF, 0xFF, 0xFF, 0xFF, 0xE5, 0x20, 0xFB, 0xFF, 0xFF, 0xFF, 0xFF, 0x3F,
            0x44, 0xEB, 0x08, 0x6B, 0x08, 0x3B, 0x04, 0xBB, 0xFE, 0xFF, 0xFF, 0xFF, 0xFF, 0xFF,
            0x00, 0xFF, 0xFF, 0xFF, 0x44, 0xEB, 0x0C, 0x20, 0x0F, 0x52, 0x10, 0xD8, 0x00, 0xFF,
            0xD6, 0x49, 0xC5, 0x00, 0x85, 0xDF, 0x04, 0xE3, 0x44, 0x03, 0x67, 0x38, 0x30, 0xB0,
            0x30, 0xB0, 0xF7, 0xBD, 0xD5, 0x5C, 0x4A, 0x9E, 0x29, 0xFF, 0xF0, 0x50, 0xF9, 0x85,
            0xFF, 0xFF, 0xFF, 0xFF, 0xFF, 0xFF, 0xFF, 0xFF, 0xFF, 0xFF, 0xFF, 0xFF, 0xFF, 0xFF,
            0xFF, 0xFF,
        ],
        expected_mem_density: 128 * 1024 * 1024,
        expected_page_size_from_jesd216a: Some(256),
        expected_4b_table: true,
    },
    TestSample {
        name: "test_8",
        sfdp_bytes: &[
            0x53, 0x46, 0x44, 0x50, 0x05, 0x01, 0x00, 0xFF, 0x00, 0x05, 0x01, 0x10, 0x80, 0x00,
            0x00, 0xFF, 0xFF, 0xFF, 0xFF, 0xFF, 0xFF, 0xFF, 0xFF, 0xFF, 0xFF, 0xFF, 0xFF, 0xFF,
            0xFF, 0xFF, 0xFF, 0xFF, 0xFF, 0x01, 0xFF, 0xFF, 0xFF, 0xFF, 0xFF, 0xFF, 0xFF, 0xFF,
            0xFF, 0xFF, 0xFF, 0xFF, 0xFF, 0xFF, 0xFF, 0xFF, 0xFF, 0xFF, 0xFF, 0xFF, 0xFF, 0xFF,
            0xFF, 0xFF, 0xFF, 0xFF, 0xFF, 0xFF, 0xFF, 0xFF, 0xFF, 0xFF, 0xFF, 0xFF, 0xFF, 0xFF,
            0xFF, 0xFF, 0xFF, 0xFF, 0xFF, 0xFF, 0xFF, 0xFF, 0xFF, 0xFF, 0xFF, 0xFF, 0xFF, 0xFF,
            0xFF, 0xFF, 0xFF, 0xFF, 0xFF, 0xFF, 0xFF, 0xFF, 0xFF, 0xFF, 0xFF, 0xFF, 0xFF, 0xFF,
            0xFF, 0xFF, 0xFF, 0xFF, 0xFF, 0xFF, 0xFF, 0xFF, 0xFF, 0xFF, 0xFF, 0xFF, 0xFF, 0xFF,
            0xFF, 0xFF, 0xFF, 0xFF, 0xFF, 0xFF, 0xFF, 0xFF, 0xFF, 0xFF, 0xFF, 0xFF, 0xFF, 0xFF,
            0xFF, 0xFF, 0xE5, 0x20, 0xF9, 0xFF, 0xFF, 0xFF, 0xFF, 0x07, 0x44, 0xEB, 0x08, 0x6B,
            0x08, 0x3B, 0x42, 0xBB, 0xFE, 0xFF, 0xFF, 0xFF, 0xFF, 0xFF, 0x00, 0x00, 0xFF, 0xFF,
            0x40, 0xEB, 0x0C, 0x20, 0x0F, 0x52, 0x10, 0xD8, 0x00, 0x00, 0x36, 0x02, 0xA6, 0x00,
            0x82, 0xEA, 0x14, 0xC9, 0xE9, 0x63, 0x76, 0x33, 0x7A, 0x75, 0x7A, 0x75, 0xF7, 0xA2,
            0xD5, 0x5C, 0x19, 0xF7, 0x4D, 0xFF, 0xE9, 0x30, 0xF8, 0x80,
        ],
        expected_mem_density: 16 * 1024 * 1024,
        expected_page_size_from_jesd216a: Some(256),
        expected_4b_table: false,
    },
    TestSample {
        name: "test_9",
        sfdp_bytes: &[
            0x53, 0x46, 0x44, 0x50, 0x06, 0x01, 0x01, 0xFF, 0x00, 0x06, 0x01, 0x10, 0x80, 0x00,
            0x00, 0xFF, 0x84, 0x00, 0x01, 0x02, 0xD0, 0x00, 0x00, 0xFF, 0x03, 0x00, 0x01, 0x02,
            0xF0, 0x00, 0x00, 0xFF, 0xFF, 0xFF, 0xFF, 0xFF, 0xFF, 0xFF, 0xFF, 0xFF, 0xFF, 0xFF,
            0xFF, 0xFF, 0xFF, 0xFF, 0xFF, 0xFF, 0xFF, 0xFF, 0xFF, 0xFF, 0xFF, 0xFF, 0xFF, 0xFF,
            0xFF, 0xFF, 0xFF, 0xFF, 0xFF, 0xFF, 0xFF, 0xFF, 0xFF, 0xFF, 0xFF, 0xFF, 0xFF, 0xFF,
            0xFF, 0xFF, 0xFF, 0xFF, 0xFF, 0xFF, 0xFF, 0xFF, 0xFF, 0xFF, 0xFF, 0xFF, 0xFF, 0xFF,
            0xFF, 0xFF, 0xFF, 0xFF, 0xFF, 0xFF, 0xFF, 0xFF, 0xFF, 0xFF, 0xFF, 0xFF, 0xFF, 0xFF,
            0xFF, 0xFF, 0xFF, 0xFF, 0xFF, 0xFF, 0xFF, 0xFF, 0xFF, 0xFF, 0xFF, 0xFF, 0xFF, 0xFF,
            0xFF, 0xFF, 0xFF, 0xFF, 0xFF, 0xFF, 0xFF, 0xFF, 0xFF, 0xFF, 0xFF, 0xFF, 0xFF, 0xFF,
            0xFF, 0xFF, 0xE5, 0x20, 0xFB, 0xFF, 0xFF, 0xFF, 0xFF, 0x3F, 0x44, 0xEB, 0x08, 0x6B,
            0x08, 0x3B, 0x42, 0xBB, 0xFE, 0xFF, 0xFF, 0xFF, 0xFF, 0xFF, 0x00, 0x00, 0xFF, 0xFF,
            0x40, 0xEB, 0x0C, 0x20, 0x0F, 0x52, 0x10, 0xD8, 0x00, 0x00, 0x36, 0x02, 0xA6, 0x00,
            0x82, 0xEA, 0x14, 0xE2, 0xE9, 0x63, 0x76, 0x33, 0x7A, 0x75, 0x7A, 0x75, 0xF7, 0xA2,
            0xD5, 0x5C, 0x19, 0xF7, 0x4D, 0xFF, 0xE9, 0x70, 0xF9, 0xA5, 0xFF, 0xFF, 0xFF, 0xFF,
            0xFF, 0xFF, 0xFF, 0xFF, 0xFF, 0xFF, 0xFF, 0xFF, 0xFF, 0xFF, 0xFF, 0xFF, 0xFF, 0x0A,
            0xF0, 0xFF, 0x21, 0xFF, 0xDC, 0xFF, 0xFF, 0xFF, 0xFF, 0xFF, 0xFF, 0xFF, 0xFF, 0xFF,
            0xFF, 0xFF, 0xFF, 0xFF, 0xFF, 0xFF, 0xFF, 0xFF, 0xFF, 0xFF, 0xFF, 0xFF, 0xFF, 0xFF,
            0xFF, 0xFF, 0xFF, 0xFF, 0xFF, 0xFF, 0xFF, 0xFF, 0xFF, 0xFF, 0xFF, 0xFF, 0xFF, 0xFF,
            0xFF, 0xFF, 0xFF, 0xFF,
        ],
        expected_mem_density: 128 * 1024 * 1024,
        expected_page_size_from_jesd216a: Some(256),
        expected_4b_table: true,
    },
];

#[test]
fn test_all_samples() {
    for td in TEST_SAMPLES {
        println!("Sample name: {}", td.name);
        let mut sfdp_reader: SfdpReader = SfdpReader::new(td.sfdp_bytes).unwrap();
        let basic_flash = sfdp_reader.basic_flash_parameters().unwrap();
        assert_eq!(
            basic_flash
                .table_jesd216()
                .memory_density
                .byte_len()
                .unwrap(),
            td.expected_mem_density
        );
        assert_eq!(
            basic_flash
                .table_jesd216a()
                .map(|t| t.word11.page_size.value()),
            td.expected_page_size_from_jesd216a
        );
        if td.expected_4b_table {
            assert!(sfdp_reader._4b_instructions_header().is_some());
        } else {
            assert_eq!(sfdp_reader._4b_instructions_header(), None);
        }
    }
}

#[test]
fn get_4b_table() {
    let sfdp_bytes: &[u8] = &[
        0x53, 0x46, 0x44, 0x50, 0x06, 0x01, 0x01, 0xFF, 0x00, 0x06, 0x01, 0x10, 0x80, 0x00,
        0x00, 0xFF, 0x84, 0x00, 0x01, 0x02, 0xD0, 0x00, 0x00, 0xFF, 0x03, 0x00, 0x01, 0x02,
        0xF0, 0x00, 0x00, 0xFF, 0xFF, 0xFF, 0xFF, 0xFF, 0xFF, 0xFF, 0xFF, 0xFF, 0xFF, 0xFF,
        0xFF, 0xFF, 0xFF, 0xFF, 0xFF, 0xFF, 0xFF, 0xFF, 0xFF, 0xFF, 0xFF, 0xFF, 0xFF, 0xFF,
        0xFF, 0xFF, 0xFF, 0xFF, 0xFF, 0xFF, 0xFF, 0xFF, 0xFF, 0xFF, 0xFF, 0xFF, 0xFF, 0xFF,
        0xFF, 0xFF, 0xFF, 0xFF, 0xFF, 0xFF, 0xFF, 0xFF, 0xFF, 0xFF, 0xFF, 0xFF, 0xFF, 0xFF,
        0xFF, 0xFF, 0xFF, 0xFF, 0xFF, 0xFF, 0xFF, 0xFF, 0xFF, 0xFF, 0xFF, 0xFF, 0xFF, 0xFF,
        0xFF, 0xFF, 0xFF, 0xFF, 0xFF, 0xFF, 0xFF, 0xFF, 0xFF, 0xFF, 0xFF, 0xFF, 0xFF, 0xFF,
        0xFF, 0xFF, 0xFF, 0xFF, 0xFF, 0xFF, 0xFF, 0xFF, 0xFF, 0xFF, 0xFF, 0xFF, 0xFF, 0xFF,
        0xFF, 0xFF, 0xE5, 0x20, 0xFB, 0xFF, 0xFF, 0xFF, 0xFF, 0x3F, 0x44, 0xEB, 0x08, 0x6B,
        0x08, 0x3B, 0x42, 0xBB, 0xFE, 0xFF, 0xFF, 0xFF, 0xFF, 0xFF, 0x00, 0x00, 0xFF, 0xFF,
        0x40, 0xEB, 0x0C, 0x20, 0x0F, 0x52, 0x10, 0xD8, 0x00, 0x00, 0x36, 0x02, 0xA6, 0x00,
        0x82, 0xEA, 0x14, 0xE2, 0xE9, 0x63, 0x76, 0x33, 0x7A, 0x75, 0x7A, 0x75, 0xF7, 0xA2,
        0xD5, 0x5C, 0x19, 0xF7, 0x4D, 0xFF, 0xE9, 0x70, 0xF9, 0xA5, 0xFF, 0xFF, 0xFF, 0xFF,
        0xFF, 0xFF, 0xFF, 0xFF, 0xFF, 0xFF, 0xFF, 0xFF, 0xFF, 0xFF, 0xFF, 0xFF, 0xFF, 0x0A,
        0xF0, 0xFF, 0x21, 0xFF, 0xDC, 0xFF, 0xFF, 0xFF, 0xFF, 0xFF, 0xFF, 0xFF, 0xFF, 0xFF,
        0xFF, 0xFF, 0xFF, 0xFF, 0xFF, 0xFF, 0xFF, 0xFF, 0xFF, 0xFF, 0xFF, 0xFF, 0xFF, 0xFF,
        0xFF, 0xFF, 0xFF, 0xFF, 0xFF, 0xFF, 0xFF, 0xFF, 0xFF, 0xFF, 0xFF, 0xFF, 0xFF, 0xFF,
        0xFF, 0xFF, 0xFF, 0xFF,
    ];

    let mut sfdp_reader: SfdpReader = SfdpReader::new(sfdp_bytes).unwrap();
    let table = sfdp_reader._4b_instructions_parameters().unwrap();
    assert!(table.table.word1.erase_type_1_support);
    assert!(table.table.word1.erase_type_3_support);
    assert_eq!(table.table.word2.erase_type_1_instr, 0x21);
    assert_eq!(table.table.word2.erase_type_3_instr, 0xdc);
}
