use rustrando::codec::{
    decode_device_list, decode_raw_bytes, device_list_from_document, encode_attach,
    encode_list_devices, encode_read, frame_attach, to_hex,
};
use rustrando::error::DecodeError;

#[test]
fn list_devices_request_is_the_fixed_text() {
    assert_eq!(encode_list_devices(), "{\"Opcode\": \"DeviceList\", \"Space\": \"SNES\"}");
}

#[test]
fn attach_request_quotes_the_device() {
    assert_eq!(
        encode_attach("SD2SNES COM3"),
        "{\"Opcode\": \"Attach\", \"Space\": \"SNES\", \"Operands\": [\"SD2SNES COM3\"]}"
    );
}

#[test]
fn attach_request_escapes_the_device() {
    assert_eq!(
        encode_attach("a\"b\\c"),
        "{\"Opcode\": \"Attach\", \"Space\": \"SNES\", \"Operands\": [\"a\\\"b\\\\c\"]}"
    );
}

#[test]
fn read_request_uses_lowercase_hex_without_prefix() {
    assert_eq!(
        encode_read(0xF5F000, 0x400),
        "{\"Opcode\": \"GetAddress\", \"Space\": \"SNES\", \"Operands\": [\"f5f000\", \"400\"]}"
    );
}

#[test]
fn hex_of_edge_values() {
    assert_eq!(to_hex(0), "0");
    assert_eq!(to_hex(9), "9");
    assert_eq!(to_hex(10), "a");
    assert_eq!(to_hex(15), "f");
    assert_eq!(to_hex(16), "10");
    assert_eq!(to_hex(0xABCDEF), "abcdef");
    assert_eq!(to_hex(u32::MAX), "ffffffff");
}

#[test]
fn device_list_is_decoded_in_order() {
    let devices = decode_device_list(b"{\"Results\": [\"first\", \"second\"]}");
    assert_eq!(devices, Ok(vec!["first".to_string(), "second".to_string()]));
}

#[test]
fn empty_device_list_is_decoded() {
    assert_eq!(decode_device_list(b"{\"Results\":[]}"), Ok(Vec::<String>::new()));
}

#[test]
fn malformed_text_is_rejected() {
    assert_eq!(decode_device_list(b"{\"Results\": ["), Err(DecodeError::MalformedResponse));
    assert_eq!(decode_device_list(b""), Err(DecodeError::MalformedResponse));
    assert_eq!(decode_device_list(&[0xff, 0xfe]), Err(DecodeError::MalformedResponse));
}

#[test]
fn missing_results_member_is_rejected() {
    assert_eq!(decode_device_list(b"{\"Other\": []}"), Err(DecodeError::MalformedResponse));
    assert_eq!(decode_device_list(b"[\"first\"]"), Err(DecodeError::MalformedResponse));
}

#[test]
fn results_of_another_shape_are_rejected() {
    assert_eq!(decode_device_list(b"{\"Results\": \"first\"}"), Err(DecodeError::MalformedResponse));
    assert_eq!(decode_device_list(b"{\"Results\": [\"first\", 2]}"), Err(DecodeError::MalformedResponse));
}

#[test]
fn raw_bytes_pass_through() {
    assert_eq!(decode_raw_bytes(&[1, 2, 3, 0, 255]), vec![1, 2, 3, 0, 255]);
    assert_eq!(decode_raw_bytes(&[]), Vec::<u8>::new());
}

#[test]
fn extra_members_are_ignored() {
    let devices = decode_device_list(b" { \"Version\": 7, \"Results\" : [ \"only\" ] } ");
    assert_eq!(devices, Ok(vec!["only".to_string()]));
}

#[test]
fn escapes_in_device_names_are_resolved() {
    let devices = decode_device_list(b"{\"Results\": [\"a\\\"b\", \"tab\\there\", \"\\u00e9\"]}");
    assert_eq!(
        devices,
        Ok(vec!["a\"b".to_string(), "tab\there".to_string(), "\u{e9}".to_string()])
    );
}

#[test]
fn attach_of_a_decoded_device_round_trips() {
    let devices = decode_device_list(b"{\"Results\": [\"COM3 \\\"sd2snes\\\"\"]}").unwrap();
    let message = encode_attach(&devices[0]);
    let document: serde_json::Value = serde_json::from_str(&message).unwrap();
    assert_eq!(document["Opcode"].as_str(), Some("Attach"));
    assert_eq!(document["Space"].as_str(), Some("SNES"));
    assert_eq!(document["Operands"][0].as_str(), Some("COM3 \"sd2snes\""));
}

#[test]
fn requests_are_well_formed_documents() {
    let list: serde_json::Value = serde_json::from_str(&encode_list_devices()).unwrap();
    assert_eq!(list["Opcode"].as_str(), Some("DeviceList"));
    assert_eq!(list["Space"].as_str(), Some("SNES"));
    let read: serde_json::Value = serde_json::from_str(&encode_read(0xF50010, 1)).unwrap();
    assert_eq!(read["Opcode"].as_str(), Some("GetAddress"));
    assert_eq!(read["Space"].as_str(), Some("SNES"));
    assert_eq!(read["Operands"][0].as_str(), Some("f50010"));
    assert_eq!(read["Operands"][1].as_str(), Some("1"));
}

#[test]
fn document_is_read_after_parsing() {
    let document: serde_json::Value =
        serde_json::from_str("{\"Results\": [\"one\", \"two\", \"three\"]}").unwrap();
    assert_eq!(
        device_list_from_document(&document),
        Ok(vec!["one".to_string(), "two".to_string(), "three".to_string()])
    );
    let nested: serde_json::Value =
        serde_json::from_str("{\"Outer\": {\"Results\": [\"one\"]}}").unwrap();
    assert_eq!(device_list_from_document(&nested), Err(DecodeError::MalformedResponse));
    let mixed: serde_json::Value =
        serde_json::from_str("{\"Results\": [\"one\", null, \"three\"]}").unwrap();
    assert_eq!(device_list_from_document(&mixed), Err(DecodeError::MalformedResponse));
    let object: serde_json::Value = serde_json::from_str("{\"Results\": {\"0\": \"one\"}}").unwrap();
    assert_eq!(device_list_from_document(&object), Err(DecodeError::MalformedResponse));
}

#[test]
fn frame_of_a_literal_is_not_quoted_again() {
    assert_eq!(
        frame_attach("\"device\""),
        "{\"Opcode\": \"Attach\", \"Space\": \"SNES\", \"Operands\": [\"device\"]}"
    );
}
