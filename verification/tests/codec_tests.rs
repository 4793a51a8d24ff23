use meter_link::checksum::{append_checksum, append_checksum_value, checksum, is_checksum_of};
use meter_link::codec::{
    build_request, decode_consumption, decode_reply, verify, Decoded, Reading,
    CONSUMPTION_REPLY_MIN_LEN, FRAME_LEN, RAW_UNITS_PER_KWH,
};
use meter_link::error::PollError;

/// A valid request whose bytes at offsets 2 and 3 ask for consumption.
fn consumption_request(address: u8) -> Vec<u8> {
    build_request(address, 9, 0x0500)
}

#[test]
fn checksum_of_check_string_is_the_standard_value() {
    assert_eq!(checksum(b"123456789"), 0xCBF4_3926);
}

#[test]
fn checksum_of_nothing_is_zero() {
    assert_eq!(checksum(&[]), 0);
}

#[test]
fn checksum_value_is_appended_most_significant_byte_first() {
    let mut buffer = vec![9u8, 8];
    append_checksum_value(&mut buffer, 0x1234_5678);
    assert_eq!(buffer, vec![9, 8, 0x12, 0x34, 0x56, 0x78]);
}

#[test]
fn checksum_value_with_zero_bytes_is_appended_in_full() {
    let mut buffer = Vec::new();
    append_checksum_value(&mut buffer, 0x0000_0100);
    assert_eq!(buffer, vec![0, 0, 1, 0]);
}

#[test]
fn append_checksum_covers_what_the_buffer_held() {
    let mut buffer = vec![1u8, 5, 0, 1];
    append_checksum(&mut buffer);
    assert_eq!(buffer, vec![1, 5, 0, 1, 0xE8, 0x34, 0x4A, 0x04]);
}

#[test]
fn is_checksum_of_compares_all_four_bytes() {
    assert!(is_checksum_of(&[0x12, 0x34, 0x56, 0x78], 0x1234_5678));
    assert!(!is_checksum_of(&[0x78, 0x56, 0x34, 0x12], 0x1234_5678));
    assert!(!is_checksum_of(&[0x12, 0x34, 0x56, 0x79], 0x1234_5678));
    assert!(!is_checksum_of(&[0x13, 0x34, 0x56, 0x78], 0x1234_5678));
}

#[test]
fn is_checksum_of_rejects_other_lengths() {
    assert!(!is_checksum_of(&[0x12, 0x34, 0x56], 0x1234_5678));
    assert!(!is_checksum_of(&[0x12, 0x34, 0x56, 0x78, 0x00], 0x1234_5678));
    assert!(!is_checksum_of(&[], 0));
}

#[test]
fn request_for_address_one_tariff_one() {
    let frame = build_request(1, 5, 0x0001);
    assert_eq!(frame, vec![1, 5, 0, 1, 0xE8, 0x34, 0x4A, 0x04]);
}

#[test]
fn request_checksum_is_that_of_the_first_four_bytes() {
    let frame = build_request(1, 5, 0x0001);
    let crc = checksum(&[1, 5, 0, 1]);
    assert_eq!(frame[4..].to_vec(), crc.to_be_bytes().to_vec());
}

#[test]
fn request_splits_the_parameter_high_byte_first() {
    let frame = build_request(0x11, 0x22, 0xABCD);
    assert_eq!(frame.len(), FRAME_LEN);
    assert_eq!(frame[..4].to_vec(), vec![0x11, 0x22, 0xAB, 0xCD]);
}

#[test]
fn request_for_other_addresses() {
    assert_eq!(build_request(0, 5, 1), vec![0, 5, 0, 1, 80, 136, 45, 97]);
    assert_eq!(build_request(7, 5, 1), vec![7, 5, 0, 1, 205, 95, 21, 216]);
}

#[test]
fn build_request_is_deterministic() {
    for address in [0u8, 1, 127, 255] {
        for function_code in [0u8, 5, 255] {
            for param in [0u16, 1, 0x0500, 0xFFFF] {
                let first = build_request(address, function_code, param);
                let second = build_request(address, function_code, param);
                assert_eq!(first, second);
            }
        }
    }
}

#[test]
fn built_requests_verify() {
    for address in 0..=255u8 {
        for function_code in [0u8, 5, 200] {
            for param in [0u16, 1, 0x0500, 0x1234, 0xFFFF] {
                assert!(verify(&build_request(address, function_code, param)));
            }
        }
    }
}

#[test]
fn any_single_bit_flip_fails_verification() {
    for (address, function_code, param) in [(1u8, 5u8, 1u16), (0, 0, 0), (255, 255, 0xFFFF), (7, 5, 0x0500)] {
        let frame = build_request(address, function_code, param);
        for index in 0..frame.len() {
            for bit in 0..8 {
                let mut altered = frame.clone();
                altered[index] ^= 1 << bit;
                assert!(!verify(&altered), "byte {} bit {}", index, bit);
            }
        }
    }
}

#[test]
fn verify_rejects_frames_of_other_lengths() {
    let frame = build_request(1, 5, 1);
    assert!(!verify(&[]));
    assert!(!verify(&frame[..7]));
    let mut longer = frame.clone();
    longer.push(0);
    assert!(!verify(&longer));
    assert!(!verify(&[0, 0, 0, 0]));
}

#[test]
fn verify_rejects_a_checksum_in_the_other_byte_order() {
    let mut frame = vec![1u8, 5, 0, 1];
    frame.extend_from_slice(&checksum(&[1, 5, 0, 1]).to_le_bytes());
    assert!(!verify(&frame));
}

#[test]
fn consumption_reply_decodes_to_one_thousandth_kwh() {
    let request = consumption_request(1);
    let response = [0xAA, 0xBB, 0x00, 0x00, 0x3F, 0xF0];
    let decoded = decode_consumption(&request, &response);
    let expected = Reading { tariff_index: request[4], raw_bits: 0x3FF0_0000_0000_0000 };
    assert_eq!(decoded, Ok(Decoded::Reading(expected)));
    let raw = f64::from_bits(expected.raw_bits);
    assert_eq!(raw, 1.0);
    assert_eq!(raw / f64::from(RAW_UNITS_PER_KWH), 0.001);
}

#[test]
fn consumption_reply_ignores_its_first_two_bytes_and_what_follows_the_sixth() {
    let request = consumption_request(1);
    let short = decode_consumption(&request, &[0, 0, 0x00, 0x00, 0x3F, 0xF0]);
    let long = decode_consumption(&request, &[9, 9, 0x00, 0x00, 0x3F, 0xF0, 1, 2, 3]);
    assert_eq!(short, long);
}

#[test]
fn register_bytes_are_taken_in_the_order_four_five_two_three() {
    let request = [1u8, 9, 5, 0, 7, 0, 0, 0];
    let response = [0xAA, 0xBB, 0x12, 0x34, 0x56, 0x78];
    let decoded = decode_reply(&request, &response);
    assert_eq!(
        decoded,
        Ok(Decoded::Reading(Reading { tariff_index: 7, raw_bits: 0x5678_1234_0000_0000 }))
    );
}

#[test]
fn reply_of_one_thousand_raw_units_is_one_kwh() {
    let request = [1u8, 9, 5, 0, 2, 0, 0, 0];
    let response = [0, 0, 0x40, 0x00, 0x40, 0x8F];
    match decode_reply(&request, &response) {
        Ok(Decoded::Reading(reading)) => {
            assert_eq!(reading.tariff_index, 2);
            assert_eq!(reading.raw_bits, 0x408F_4000_0000_0000);
            assert_eq!(f64::from_bits(reading.raw_bits) / f64::from(RAW_UNITS_PER_KWH), 1.0);
        },
        other => panic!("unexpected {:?}", other),
    }
}

#[test]
fn tariff_index_is_the_request_byte_at_offset_four() {
    for tariff in [0u8, 1, 4, 255] {
        let request = [1u8, 9, 5, 0, tariff, 0, 0, 0];
        match decode_reply(&request, &[0, 0, 0, 0, 0, 0]) {
            Ok(Decoded::Reading(reading)) => assert_eq!(reading.tariff_index, tariff),
            other => panic!("unexpected {:?}", other),
        }
    }
}

#[test]
fn short_reply_to_a_consumption_request_is_malformed() {
    let request = consumption_request(1);
    for len in 0..CONSUMPTION_REPLY_MIN_LEN {
        let response = vec![0u8; len];
        assert_eq!(decode_consumption(&request, &response), Err(PollError::MalformedResponse));
    }
    assert!(decode_consumption(&request, &[0u8; 6]).is_ok());
}

#[test]
fn empty_reply_to_a_consumption_request_is_malformed() {
    let request = consumption_request(3);
    assert_eq!(decode_consumption(&request, &[]), Err(PollError::MalformedResponse));
}

#[test]
fn unrecognized_request_is_a_no_op() {
    let response = [0u8, 0, 0, 0, 0x3F, 0xF0];
    for (function_code, param) in [(5u8, 0x0001u16), (5, 0x0000), (0, 0x0501), (9, 0x0600), (9, 0x0005)] {
        let request = build_request(1, function_code, param);
        assert_eq!(decode_consumption(&request, &response), Ok(Decoded::NoUpdate));
    }
}

#[test]
fn unrecognized_request_is_a_no_op_whatever_the_reply() {
    let request = build_request(1, 5, 0x0001);
    assert_eq!(decode_consumption(&request, &[]), Ok(Decoded::NoUpdate));
    assert_eq!(decode_consumption(&request, &[1, 2, 3]), Ok(Decoded::NoUpdate));
    assert_eq!(decode_consumption(&request, &[0u8; 255]), Ok(Decoded::NoUpdate));
}

#[test]
fn corrupted_request_is_a_checksum_mismatch() {
    let mut request = consumption_request(1);
    request[7] ^= 0x01;
    let response = [0u8, 0, 0, 0, 0x3F, 0xF0];
    assert_eq!(decode_consumption(&request, &response), Err(PollError::ChecksumMismatch));
}

#[test]
fn request_that_is_no_whole_frame_is_a_checksum_mismatch() {
    let response = [0u8, 0, 0, 0, 0x3F, 0xF0];
    assert_eq!(decode_consumption(&[], &response), Err(PollError::ChecksumMismatch));
    assert_eq!(decode_consumption(&[1, 9, 5, 0, 7], &response), Err(PollError::ChecksumMismatch));
}

#[test]
fn checksum_is_judged_before_the_reply() {
    let mut request = consumption_request(1);
    request[0] ^= 0x80;
    assert_eq!(decode_consumption(&request, &[]), Err(PollError::ChecksumMismatch));
}

#[test]
fn decoding_the_same_bytes_gives_the_same_result() {
    let request = consumption_request(5);
    let response = [1u8, 2, 3, 4, 5, 6, 7];
    let first = decode_consumption(&request, &response);
    let second = decode_consumption(&request, &response);
    assert_eq!(first, second);
    assert_eq!(request, consumption_request(5));
    assert_eq!(response, [1u8, 2, 3, 4, 5, 6, 7]);
}
