use scd30_interface::error::DataError;
use scd30_interface::util::{check_deserialization, compute_crc8, crc8_matches};

#[test]
fn sample_data_crc_computes_properly() {
    let result = compute_crc8(&[0xBE, 0xEF]);
    assert_eq!(result, 0x92);
}

#[test]
fn sample_data_2_crc_computes_properly() {
    let result = compute_crc8(&[0x43, 0xDB]);
    assert_eq!(result, 0xCB);
}

#[test]
fn sample_firmware_version_crc_computes_properly() {
    let result = compute_crc8(&[0x03, 0x42]);
    assert_eq!(result, 0xF3);
}

#[test]
fn zero_data_crc_computes_properly() {
    let result = compute_crc8(&[0x00]);
    assert_eq!(result, 0xAC);
}

#[test]
fn deserialization_with_spec_sample_works() {
    let data = [0x03, 0x42, 0xF3];
    let result = check_deserialization(&data[..], 3);
    assert!(result.is_ok());
}

#[test]
fn deserialize_errors_if_buffer_to_big() {
    let data = [0x03, 0x42, 0xF3, 0x12];
    let result = check_deserialization(&data[..], 3);
    assert_eq!(result.unwrap_err(), DataError::ReceivedBufferWrongSize)
}

#[test]
fn deserialize_errors_if_buffer_to_small() {
    let data = [0x03, 0x42];
    let result = check_deserialization(&data[..], 3);
    assert_eq!(result.unwrap_err(), DataError::ReceivedBufferWrongSize)
}

#[test]
fn deserialize_errors_if_crc_is_wrong() {
    let data = [0x03, 0x42, 0xFF];
    let result = check_deserialization(&data[..], 3);
    assert_eq!(result.unwrap_err(), DataError::CrcFailed)
}

#[test]
fn empty_data_crc_is_initial_value() {
    assert_eq!(compute_crc8(&[]), 0xFF);
}

#[test]
fn every_word_verifies_against_its_own_checksum() {
    for hi in 0..=255u8 {
        for lo in 0..=255u8 {
            let word = [hi, lo];
            assert!(crc8_matches(&word, compute_crc8(&word)));
        }
    }
}

#[test]
fn every_single_bit_flip_is_detected() {
    for hi in 0..=255u8 {
        for lo in (0..=255u8).step_by(5) {
            let word = [hi, lo];
            let crc = compute_crc8(&word);
            for bit in 0..8 {
                assert!(!crc8_matches(&[hi ^ (1 << bit), lo], crc));
                assert!(!crc8_matches(&[hi, lo ^ (1 << bit)], crc));
                assert!(!crc8_matches(&word, crc ^ (1 << bit)));
            }
        }
    }
}

#[test]
fn wrong_length_is_reported_before_checksum() {
    // Neither buffer holds a valid checksum: the length decides first.
    assert_eq!(
        check_deserialization(&[0x03, 0x42], 3).unwrap_err(),
        DataError::ReceivedBufferWrongSize
    );
    assert_eq!(
        check_deserialization(&[0x03, 0x42, 0xFF], 18).unwrap_err(),
        DataError::ReceivedBufferWrongSize
    );
    assert_eq!(
        check_deserialization(&[], 3).unwrap_err(),
        DataError::ReceivedBufferWrongSize
    );
}

#[test]
fn empty_response_of_no_words_is_accepted() {
    assert!(check_deserialization(&[], 0).is_ok());
}

#[test]
fn one_bad_word_among_six_rejects_the_whole_response() {
    let good: [u8; 18] = [
        0x43, 0xDB, 0xCB, 0x8C, 0x2E, 0x8F, 0x41, 0xD9, 0x70, 0xE7, 0xFF, 0xF5, 0x42, 0x43, 0xBF,
        0x3A, 0x1B, 0x74,
    ];
    assert!(check_deserialization(&good, 18).is_ok());
    for at in 0..18 {
        let mut altered = good;
        altered[at] ^= 0x40;
        assert_eq!(
            check_deserialization(&altered, 18).unwrap_err(),
            DataError::CrcFailed
        );
    }
}
