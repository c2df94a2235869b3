use megatec_ups_control::codec::decode_descriptor_payload;
use megatec_ups_control::codec::is_valid_char;
use megatec_ups_control::UpsError;

#[test]
fn noise_characters_are_always_dropped() {
    assert!(!is_valid_char(34)); // '"'
    assert!(!is_valid_char(96)); // '`'
    assert!(!is_valid_char(40)); // '('
}

#[test]
fn out_of_range_bytes_are_dropped() {
    assert!(!is_valid_char(31));
    assert!(!is_valid_char(127));
    assert!(!is_valid_char(0));
    assert!(!is_valid_char(255));
}

#[test]
fn printable_bytes_are_kept() {
    assert!(is_valid_char(65)); // 'A'
    assert!(is_valid_char(32)); // space, the protocol's separator
    assert!(is_valid_char(126));
    assert!(is_valid_char(33));
}

#[test]
fn short_responses_fail_regardless_of_content() {
    assert!(matches!(
        decode_descriptor_payload(&vec![]),
        Err(UpsError::InvalidResponse)
    ));
    assert!(matches!(
        decode_descriptor_payload(&vec![65]),
        Err(UpsError::InvalidResponse)
    ));
    assert!(matches!(
        decode_descriptor_payload(&vec![65, 66]),
        Err(UpsError::InvalidResponse)
    ));
}

#[test]
fn header_bytes_are_not_candidate_text() {
    // 0x3e is '>' and would pass the filter, but it is the length byte of
    // the descriptor header, so it must not reach the output.
    let raw = vec![0x3e, 0x03, b'A', b'B'];
    assert_eq!(decode_descriptor_payload(&raw).unwrap(), "AB");
}

#[test]
fn filtering_compacts_the_payload_in_order() {
    let raw = vec![9, 3, b'U', 34, b'P', 96, 40, b'S', 31, 127];
    assert_eq!(decode_descriptor_payload(&raw).unwrap(), "UPS");
}

#[test]
fn three_byte_response_decodes_its_single_candidate() {
    let raw = vec![3, 3, b'V'];
    assert_eq!(decode_descriptor_payload(&raw).unwrap(), "V");
    let raw_noise = vec![3, 3, 34];
    assert_eq!(decode_descriptor_payload(&raw_noise).unwrap(), "");
}
