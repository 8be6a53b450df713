use ddc_macos::error::{Error, ErrorCode};
use ddc_macos::protocol::{checksum, decode_response, encode_command};

/// Echoes an encoded packet back the way a loopback transport would: the
/// checksum byte is adjusted for the read bit of the virtual reply address.
fn echo(packet: &[u8]) -> Vec<u8> {
    let mut echoed = packet.to_vec();
    let last = echoed.len() - 1;
    echoed[last] ^= 1;
    echoed
}

#[test]
fn test_checksum_of_known_bytes() {
    assert_eq!(checksum(&vec![]), 0x00);
    assert_eq!(checksum(&vec![0x6e, 0x51, 0x82, 0x01, 0x60]), 0xdc);
    assert_eq!(checksum(&vec![0x42]), 0x42);
    assert_eq!(checksum(&vec![0x42, 0x42]), 0x00);
}

#[test]
fn test_encode_get_vcp_feature_packet() {
    // Get VCP feature 0x60 at the standard chip address: the packet is
    // [0x51, 0x82, 0x01, 0x60, checksum] where the checksum is the XOR of
    // 0x6e, 0x51, 0x82, 0x01, 0x60.
    let packet = encode_command(&vec![0x01, 0x60], 0x37);
    assert_eq!(packet.len(), 5);
    assert_eq!(packet, vec![0x51, 0x82, 0x01, 0x60, 0xdc]);
}

#[test]
fn test_encode_empty_payload() {
    let packet = encode_command(&vec![], 0x37);
    assert_eq!(packet, vec![0x51, 0x80, 0x6e ^ 0x51 ^ 0x80]);
}

#[test]
fn test_round_trip_through_echo() {
    for payload in [
        vec![],
        vec![0x01, 0x60],
        vec![0x00],
        vec![0x7f; 36],
        (0u8..36).collect::<Vec<u8>>(),
    ] {
        let packet = encode_command(&payload, 0x37);
        let reply = decode_response(&echo(&packet), 0x37).unwrap();
        assert_eq!(reply, payload);
    }
}

#[test]
fn test_round_trip_alternate_chip_address() {
    let payload = vec![0x01, 0x10];
    let packet = encode_command(&payload, 0xb7);
    let reply = decode_response(&echo(&packet), 0xb7).unwrap();
    assert_eq!(reply, payload);
}

#[test]
fn test_decode_empty_reply() {
    // A command with no defined reply hands back an empty buffer.
    let reply = decode_response(&vec![], 0x37).unwrap();
    assert!(reply.is_empty());
}

#[test]
fn test_decode_valid_minimal_reply() {
    // One payload byte, declared length one, checksum over
    // 0x6f, 0x51, 0x81, 0x42; the leading byte is a transport artifact.
    let cks = 0x6f ^ 0x51 ^ 0x81 ^ 0x42;
    let reply = decode_response(&vec![0xaa, 0x81, 0x42, cks], 0x37).unwrap();
    assert_eq!(reply, vec![0x42]);
}

#[test]
fn test_invalid_length_boundary() {
    // Declared length plus two equal to the buffer length: rejected.
    let r = decode_response(&vec![0xaa, 0x82, 0x42, 0x00], 0x37);
    assert_eq!(r, Err(Error::Ddc(ErrorCode::InvalidLength)));
    // Declared length plus two one short of the buffer length: the length
    // check passes and validation reaches the checksum.
    let cks = 0x6f ^ 0x51 ^ 0x81 ^ 0x42;
    let r = decode_response(&vec![0xaa, 0x81, 0x42, cks], 0x37);
    assert!(r.is_ok());
}

#[test]
fn test_invalid_length_when_reply_claims_too_much() {
    let r = decode_response(&vec![0xaa, 0x85, 0x01], 0x37);
    assert_eq!(r, Err(Error::Ddc(ErrorCode::InvalidLength)));
    // The high bit of the length byte does not count toward the length.
    let r = decode_response(&vec![0xaa, 0x05, 0x01], 0x37);
    assert_eq!(r, Err(Error::Ddc(ErrorCode::InvalidLength)));
}

#[test]
fn test_single_byte_corruption_fails_checksum() {
    let packet = encode_command(&vec![0x01, 0x60], 0x37);
    let valid = echo(&packet);
    assert!(decode_response(&valid, 0x37).is_ok());
    // Corrupting any payload byte or the checksum byte must be caught.
    for i in 2..valid.len() {
        let mut corrupted = valid.clone();
        corrupted[i] ^= 0x04;
        let r = decode_response(&corrupted, 0x37);
        assert_eq!(r, Err(Error::Ddc(ErrorCode::InvalidChecksum)));
    }
    // Flipping the read bit of the length byte keeps the declared length
    // but changes a checksummed byte.
    let mut corrupted = valid.clone();
    corrupted[1] ^= 0x80;
    let r = decode_response(&corrupted, 0x37);
    assert_eq!(r, Err(Error::Ddc(ErrorCode::InvalidChecksum)));
}

#[test]
fn test_leading_byte_is_transport_artifact() {
    // The first reply byte is reserved by the transport and is not covered
    // by validation.
    let packet = encode_command(&vec![0x01, 0x60], 0x37);
    let mut echoed = echo(&packet);
    echoed[0] = 0xff;
    let reply = decode_response(&echoed, 0x37).unwrap();
    assert_eq!(reply, vec![0x01, 0x60]);
}

#[test]
fn test_wrong_chip_address_fails_checksum() {
    // A reply framed for one chip address does not validate under another.
    let packet = encode_command(&vec![0x01, 0x60], 0x37);
    let r = decode_response(&echo(&packet), 0x36);
    assert_eq!(r, Err(Error::Ddc(ErrorCode::InvalidChecksum)));
}
