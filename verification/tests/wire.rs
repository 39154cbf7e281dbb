use param_codec::error::ProtocolError;
use param_codec::fields::{push_u16_be, push_u32_be, read_u16_be, read_u32_be};
use param_codec::protocol::{
    ProtocolHandler, ProtocolResponse, RequestHeader, ResponseHeader, WriteHeader, CMD_READ,
    CMD_WRITE,
};

#[test]
fn test_read_response_serialized_bytes() {
    // A two-byte read reply serialises to exactly the documented layout:
    // tag, big-endian 15 (13 + 2), chip, big-endian data_len, big-endian
    // param_addr, success 0, reserved 0, then the payload.
    let response = ProtocolHandler::create_read_response(0x07, 2, 0xf6fb, vec![0xde, 0xad]);
    let bytes = response.to_bytes();
    assert_eq!(
        bytes,
        vec![
            0x0b, // response tag
            0x00, 0x00, 0x00, 0x0f, // total_len = 15
            0x07, // chip_addr
            0x00, 0x00, 0x00, 0x02, // data_len = 2
            0xf6, 0xfb, // param_addr
            0x00, // success
            0x00, // reserved
            0xde, 0xad, // payload
        ]
    );
}

#[test]
fn test_read_response_quirk_data_len_four() {
    // When the echoed data_len is exactly 4 the declared total length is one
    // more than the true frame length: 13 + 4 + 1 = 18 (0x12), not 17.
    let response = ProtocolHandler::create_read_response(0x01, 4, 0x0010, vec![1, 2, 3, 4]);
    let bytes = response.to_bytes();
    assert_eq!(bytes.len(), 18);
    assert_eq!(&bytes[1..5], &[0x00, 0x00, 0x00, 0x12]);
    // Every other data_len declares the true length; 13 + 4 payload bytes.
    let plain = ProtocolHandler::create_read_response(0x01, 5, 0x0010, vec![1, 2, 3, 4]);
    let bytes = plain.to_bytes();
    assert_eq!(&bytes[1..5], &[0x00, 0x00, 0x00, 0x11]);
}

#[test]
fn test_write_and_error_responses_are_empty() {
    assert_eq!(ProtocolResponse::Write.to_bytes(), Vec::<u8>::new());
    let error = ProtocolHandler::create_error_response(String::from("no such chip"));
    match &error {
        ProtocolResponse::Error(message) => assert_eq!(message, "no such chip"),
        _ => panic!("Expected Error response"),
    }
    assert_eq!(error.to_bytes(), Vec::<u8>::new());
}

#[test]
fn test_response_header_to_bytes() {
    let header = ResponseHeader {
        control_bit: 0x0b,
        total_len: 15,
        chip_addr: 0x02,
        data_len: 2,
        param_addr: 0xabcd,
        success: 0,
        reserved: [0],
    };
    assert_eq!(
        header.to_bytes(),
        vec![0x0b, 0x00, 0x00, 0x00, 0x0f, 0x02, 0x00, 0x00, 0x00, 0x02, 0xab, 0xcd, 0x00, 0x00]
    );
}

#[test]
fn test_request_header_from_bytes() {
    let buf = [
        0x0a, 0x00, 0x00, 0x01, 0x00, 0x05, 0x00, 0x01, 0x00, 0x00, 0x80, 0x01,
    ];
    let header = RequestHeader::from_bytes(&buf).unwrap();
    assert_eq!(header.control_bit, CMD_READ);
    assert_eq!(header.total_len, 0x0100);
    assert_eq!(header.chip_addr, 0x05);
    assert_eq!(header.data_len, 0x0001_0000);
    assert_eq!(header.param_addr, 0x8001);

    let err = RequestHeader::from_bytes(&buf[..11]).unwrap_err();
    assert_eq!(err, ProtocolError::ReadHeaderTooShort { expected: 12, actual: 11 });
}

#[test]
fn test_write_header_from_bytes() {
    let buf = [
        0x09, 0x01, 0x02, 0x00, 0x00, 0x00, 0x10, 0x03, 0x00, 0x00, 0x00, 0x02, 0x40, 0x20,
    ];
    let header = WriteHeader::from_bytes(&buf).unwrap();
    assert_eq!(header.control_bit, CMD_WRITE);
    assert_eq!(header.safeload, 0x01);
    assert_eq!(header.channel_num, 0x02);
    assert_eq!(header.total_len, 0x10);
    assert_eq!(header.chip_addr, 0x03);
    assert_eq!(header.data_len, 0x02);
    assert_eq!(header.param_addr, 0x4020);

    let err = WriteHeader::from_bytes(&buf[..13]).unwrap_err();
    assert_eq!(err, ProtocolError::WriteHeaderTooShort { expected: 14, actual: 13 });
}

#[test]
fn test_field_decode() {
    let buf = [0x12, 0x34, 0x56, 0x78, 0x9a];
    assert_eq!(read_u16_be(&buf, 0).unwrap(), 0x1234);
    assert_eq!(read_u16_be(&buf, 3).unwrap(), 0x789a);
    assert_eq!(read_u32_be(&buf, 1).unwrap(), 0x3456_789a);

    assert_eq!(read_u16_be(&buf, 4).unwrap_err(), ProtocolError::MalformedFieldWidth);
    assert_eq!(read_u32_be(&buf, 2).unwrap_err(), ProtocolError::MalformedFieldWidth);
    assert_eq!(read_u32_be(&[], 0).unwrap_err(), ProtocolError::MalformedFieldWidth);
}

#[test]
fn test_field_encode() {
    let mut out = vec![0xff];
    push_u16_be(&mut out, 0xbeef);
    assert_eq!(out, vec![0xff, 0xbe, 0xef]);
    push_u32_be(&mut out, 0x0102_0304);
    assert_eq!(out, vec![0xff, 0xbe, 0xef, 0x01, 0x02, 0x03, 0x04]);
}
