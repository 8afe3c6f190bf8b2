use netreporter::codec::DecodeError;
use netreporter::codec::ICMP_CODE_NO_CODE;
use netreporter::codec::ICMP_HEADER_LEN;
use netreporter::codec::ICMP_TYPE_ECHO_REQUEST;
use netreporter::codec::checksum;
use netreporter::codec::decode_message;
use netreporter::codec::encode_echo_request;

#[test]
fn checksum_of_empty_message() {
    // No words to sum: the complement of zero.
    assert_eq!(checksum(&[]), 0xFFFF);
}

#[test]
fn checksum_of_single_byte_pads_with_zero() {
    // 0x01 padded to the word 0x0100; complement is 0xFEFF.
    assert_eq!(checksum(&[0x01]), 0xFEFF);
}

#[test]
fn checksum_folds_carries_back_in() {
    // 0xFFFF + 0xFFFF = 0x1FFFE; folding gives 0xFFFF; complement 0.
    assert_eq!(checksum(&[0xFF, 0xFF, 0xFF, 0xFF]), 0x0000);
}

#[test]
fn checksum_exact_value_for_echo_header() {
    // Words 0x0800, 0x0000, 0x0030, 0x002F sum to 0x085F, no carry;
    // complement is 0xF7A0.
    assert_eq!(checksum(&[8, 0, 0, 0, 0, 48, 0, 47]), 0xF7A0);
}

#[test]
fn encode_scenario_fixed_fields() {
    let buffer = encode_echo_request(48, 47);
    assert_eq!(buffer.len(), ICMP_HEADER_LEN);
    assert_eq!(buffer[0], 8);
    assert_eq!(buffer[1], 0);
    assert_eq!(buffer[4], 0x00);
    assert_eq!(buffer[5], 0x30);
    assert_eq!(buffer[6], 0x00);
    assert_eq!(buffer[7], 0x2F);
}

#[test]
fn encode_scenario_checksum_matches_recomputation() {
    let buffer = encode_echo_request(48, 47);
    let stored = (buffer[2] as u16) * 256 + (buffer[3] as u16);
    let mut zeroed = buffer.clone();
    zeroed[2] = 0;
    zeroed[3] = 0;
    assert_eq!(stored, checksum(&zeroed));
    assert_eq!(stored, 0xF7A0);
}

#[test]
fn checksum_round_trip_many_pairs() {
    for &(identifier, sequence) in
        &[(0u16, 0u16), (1, 2), (48, 47), (0xFFFF, 0xFFFF), (0x1234, 0xFEDC)]
    {
        let buffer = encode_echo_request(identifier, sequence);
        let stored = (buffer[2] as u16) * 256 + (buffer[3] as u16);
        let mut zeroed = buffer.clone();
        zeroed[2] = 0;
        zeroed[3] = 0;
        assert_eq!(stored, checksum(&zeroed));
    }
}

#[test]
fn decode_scenario_reads_back_encoded_fields() {
    let buffer = encode_echo_request(48, 47);
    let reply = decode_message(&buffer).unwrap();
    assert_eq!(reply.icmp_type, ICMP_TYPE_ECHO_REQUEST);
    assert_eq!(reply.code, ICMP_CODE_NO_CODE);
    assert_eq!(reply.identifier, 48);
    assert_eq!(reply.sequence, 47);
}

#[test]
fn encode_decode_round_trip_many_pairs() {
    for &(identifier, sequence) in
        &[(0u16, 0u16), (1, 2), (48, 47), (0xFFFF, 0xFFFF), (0xABCD, 0x0102)]
    {
        let buffer = encode_echo_request(identifier, sequence);
        let reply = decode_message(&buffer).unwrap();
        assert_eq!(reply.icmp_type, ICMP_TYPE_ECHO_REQUEST);
        assert_eq!(reply.code, ICMP_CODE_NO_CODE);
        assert_eq!(reply.identifier, identifier);
        assert_eq!(reply.sequence, sequence);
    }
}

#[test]
fn decode_rejects_every_short_length() {
    let full = [0u8, 0, 0x30, 0x2F, 0, 48, 0, 47];
    for len in 0..8usize {
        assert_eq!(decode_message(&full[..len]), Err(DecodeError::TooShort));
    }
}

#[test]
fn decode_accepts_minimum_length() {
    let reply = decode_message(&[0, 0, 0x12, 0x34, 0, 48, 0, 47]).unwrap();
    assert_eq!(reply.icmp_type, 0);
    assert_eq!(reply.code, 0);
    assert_eq!(reply.checksum, 0x1234);
    assert_eq!(reply.identifier, 48);
    assert_eq!(reply.sequence, 47);
}

#[test]
fn decode_non_echo_type_still_decodes() {
    // Destination unreachable (type 3) decodes; correlation, not the
    // decoder, is what ignores it.
    let reply = decode_message(&[3, 1, 0, 0, 0, 9, 0, 9]).unwrap();
    assert_eq!(reply.icmp_type, 3);
    assert_eq!(reply.code, 1);
}
