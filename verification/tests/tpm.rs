//! Scenarios of the SPI TPM bridge payload handling.
use sfdp_dfu::tpm::{
    bridge_request, collect_write_payload, decode_tpm_access, echo_response, payload_words, response_fifo_words,
    TpmAccess,
};

#[test]
fn access_decoding() {
    assert_eq!(decode_tpm_access(0x03, 0x24), TpmAccess::FifoWrite { size: 4 });
    assert_eq!(decode_tpm_access(0x3f, 0x24), TpmAccess::FifoWrite { size: 64 });
    assert_eq!(decode_tpm_access(0x83, 0x24), TpmAccess::FifoRead);
    assert_eq!(decode_tpm_access(0x03, 0x18), TpmAccess::Ignored);
}

#[test]
fn write_payload_is_little_endian_words() {
    let words = [0x4433_2211u32, 0x8877_6655, 0xccbb_aa99];
    assert_eq!(payload_words(6), 2);
    assert_eq!(collect_write_payload(&words, 6), vec![0x11, 0x22, 0x33, 0x44, 0x55, 0x66]);
    assert_eq!(collect_write_payload(&words, 12).len(), 12);
    assert!(collect_write_payload(&words, 0).is_empty());
}

#[test]
fn response_and_echo() {
    assert_eq!(response_fifo_words(&[1, 2, 3, 0xff], 3), vec![1u32, 2, 3]);
    assert_eq!(echo_response(&[7, 8]), Some(vec![7, 8]));
    assert_eq!(echo_response(&[]), None);
}

#[test]
fn bridge_turn_sends_the_written_bytes_only() {
    let mut fifo = [0u32; 16];
    fifo[0] = 0x0403_0201;
    fifo[1] = 0x0807_0605;
    fifo[15] = 0xffff_ffff;
    // A write of 5 bytes to the data FIFO.
    assert_eq!(bridge_request(0x04, 0x24, &fifo), Some(vec![1, 2, 3, 4, 5]));
    // A write of the full 64 bytes.
    let full = bridge_request(0x3f, 0x24, &fifo).unwrap();
    assert_eq!(full.len(), 64);
    assert_eq!(full[63], 0xff);
    // Reads and other registers send nothing.
    assert_eq!(bridge_request(0x84, 0x24, &fifo), None);
    assert_eq!(bridge_request(0x04, 0x18, &fifo), None);
}
