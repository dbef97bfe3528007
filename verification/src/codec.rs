//! The protocol codec: the three requests that the session sends, and the
//! two kinds of response that it reads.
//!
//! Requests are JSON texts. The response to a device list request is a
//! JSON text too; the response to a read is the raw memory, byte for byte.

use crate::error::DecodeError;
use crate::json::{
    json_string_literal, json_tree, parse_json, parsed_json, quote_json_string, value_items,
    value_member, value_text, JsonTree,
};
use vstd::prelude::*;
use vstd::slice::slice_to_vec;
use vstd::string::StringExecFns;

verus! {

/// The request that asks the bridge for its devices.
pub open spec fn list_devices_text() -> Seq<char> {
    "{\"Opcode\": \"DeviceList\", \"Space\": \"SNES\"}"@
}

/// What stands before the device in an attach request.
pub open spec fn attach_head() -> Seq<char> {
    "{\"Opcode\": \"Attach\", \"Space\": \"SNES\", \"Operands\": ["@
}

/// What stands behind the device in an attach request.
pub open spec fn attach_tail() -> Seq<char> {
    "]}"@
}

/// What stands before the address in a read request.
pub open spec fn read_head() -> Seq<char> {
    "{\"Opcode\": \"GetAddress\", \"Space\": \"SNES\", \"Operands\": [\""@
}

/// What stands between the address and the size in a read request.
pub open spec fn read_middle() -> Seq<char> {
    "\", \""@
}

/// What stands behind the size in a read request.
pub open spec fn read_tail() -> Seq<char> {
    "\"]}"@
}

/// The member of a device list response that holds the devices.
pub open spec fn results_key() -> Seq<char> {
    "Results"@
}

/// The lowercase hexadecimal digit of a value below sixteen.
pub open spec fn hex_digit(d: nat) -> char {
    if d == 0 {
        '0'
    } else if d == 1 {
        '1'
    } else if d == 2 {
        '2'
    } else if d == 3 {
        '3'
    } else if d == 4 {
        '4'
    } else if d == 5 {
        '5'
    } else if d == 6 {
        '6'
    } else if d == 7 {
        '7'
    } else if d == 8 {
        '8'
    } else if d == 9 {
        '9'
    } else if d == 10 {
        'a'
    } else if d == 11 {
        'b'
    } else if d == 12 {
        'c'
    } else if d == 13 {
        'd'
    } else if d == 14 {
        'e'
    } else {
        'f'
    }
}

/// `n` in lowercase hexadecimal, without prefix and without leading zeros.
pub open spec fn hex_text(n: nat) -> Seq<char>
    decreases n,
{
    if n < 16 {
        seq![hex_digit(n)]
    } else {
        hex_text(n / 16).push(hex_digit(n % 16))
    }
}

/// The attach request around a device that is already written as a JSON
/// string literal.
pub open spec fn attach_text(device_literal: Seq<char>) -> Seq<char> {
    attach_head() + device_literal + attach_tail()
}

/// The request that reads `size` bytes at `address`.
pub open spec fn read_text(address: u32, size: u32) -> Seq<char> {
    read_head() + hex_text(address as nat) + read_middle() + hex_text(size as nat) + read_tail()
}

/// Every item is a string.
pub open spec fn all_text(items: Seq<JsonTree>) -> bool {
    forall|i: int| 0 <= i < items.len() ==> (#[trigger] items[i]) is Text
}

/// The text of an item that is a string.
pub open spec fn text_of(item: JsonTree) -> Seq<char> {
    match item {
        JsonTree::Text(text) => text,
        _ => Seq::empty(),
    }
}

/// The devices that a document lists: the strings of its member
/// `Results`. A document that is no object, has no such member, or holds
/// anything but a list of strings there is malformed.
pub open spec fn device_list_of(document: JsonTree) -> Result<Seq<Seq<char>>, DecodeError> {
    match document {
        JsonTree::Object(fields) => if fields.contains_key(results_key()) {
            match fields[results_key()] {
                JsonTree::Array(items) => if all_text(items) {
                    Ok(Seq::new(items.len(), |i: int| text_of(items[i])))
                } else {
                    Err(DecodeError::MalformedResponse)
                },
                _ => Err(DecodeError::MalformedResponse),
            }
        } else {
            Err(DecodeError::MalformedResponse)
        },
        _ => Err(DecodeError::MalformedResponse),
    }
}

/// The devices that a response lists. Bytes that are not well-formed JSON
/// are malformed.
pub open spec fn decoded_device_list(bytes: Seq<u8>) -> Result<Seq<Seq<char>>, DecodeError> {
    match parsed_json(bytes) {
        Some(document) => device_list_of(document),
        None => Err(DecodeError::MalformedResponse),
    }
}

/// The text of each string, in order.
pub open spec fn string_views(strings: Seq<String>) -> Seq<Seq<char>> {
    Seq::new(strings.len(), |i: int| strings[i]@)
}

/// Encodes the request for the list of devices.
pub fn encode_list_devices() -> (message: String)
    ensures
        message@ == list_devices_text(),
{
    String::from_str("{\"Opcode\": \"DeviceList\", \"Space\": \"SNES\"}")
}

/// Frames an attach request around `device_literal`, a device that is
/// already written as a JSON string literal.
pub fn frame_attach(device_literal: &str) -> (message: String)
    ensures
        message@ == attach_text(device_literal@),
{
    let mut message = String::from_str("{\"Opcode\": \"Attach\", \"Space\": \"SNES\", \"Operands\": [");
    message.append(device_literal);
    message.append("]}");
    message
}

/// Encodes the request that attaches the session to `device_id`.
pub fn encode_attach(device_id: &str) -> (message: String)
    ensures
        message@ == attach_text(json_string_literal(device_id@)),
{
    let literal = quote_json_string(device_id);
    frame_attach(literal.as_str())
}

/// The digit of `d` as a text of one character.
fn hex_digit_text(d: u32) -> (text: &'static str)
    requires
        d < 16,
    ensures
        text@ == seq![hex_digit(d as nat)],
{
    proof {
        reveal_strlit("0");
        reveal_strlit("1");
        reveal_strlit("2");
        reveal_strlit("3");
        reveal_strlit("4");
        reveal_strlit("5");
        reveal_strlit("6");
        reveal_strlit("7");
        reveal_strlit("8");
        reveal_strlit("9");
        reveal_strlit("a");
        reveal_strlit("b");
        reveal_strlit("c");
        reveal_strlit("d");
        reveal_strlit("e");
        reveal_strlit("f");
    }
    if d == 0 {
        "0"
    } else if d == 1 {
        "1"
    } else if d == 2 {
        "2"
    } else if d == 3 {
        "3"
    } else if d == 4 {
        "4"
    } else if d == 5 {
        "5"
    } else if d == 6 {
        "6"
    } else if d == 7 {
        "7"
    } else if d == 8 {
        "8"
    } else if d == 9 {
        "9"
    } else if d == 10 {
        "a"
    } else if d == 11 {
        "b"
    } else if d == 12 {
        "c"
    } else if d == 13 {
        "d"
    } else if d == 14 {
        "e"
    } else {
        "f"
    }
}

/// Writes `n` in lowercase hexadecimal, without prefix and without leading
/// zeros.
pub fn to_hex(n: u32) -> (text: String)
    ensures
        text@ == hex_text(n as nat),
    decreases n,
{
    if n < 16 {
        String::from_str(hex_digit_text(n))
    } else {
        let mut text = to_hex(n / 16);
        text.append(hex_digit_text(n % 16));
        text
    }
}

/// Encodes the request that reads `size` bytes at `address`.
pub fn encode_read(address: u32, size: u32) -> (message: String)
    ensures
        message@ == read_text(address, size),
{
    let mut message = String::from_str(
        "{\"Opcode\": \"GetAddress\", \"Space\": \"SNES\", \"Operands\": [\"",
    );
    let address_text = to_hex(address);
    message.append(address_text.as_str());
    message.append("\", \"");
    let size_text = to_hex(size);
    message.append(size_text.as_str());
    message.append("\"]}");
    message
}

/// Reads the list of devices out of a parsed response.
pub fn device_list_from_document(document: &serde_json::Value) -> (outcome: Result<
    Vec<String>,
    DecodeError,
>)
    ensures
        match outcome {
            Ok(devices) => device_list_of(json_tree(*document)) == Ok::<
                Seq<Seq<char>>,
                DecodeError,
            >(string_views(devices@)),
            Err(error) => device_list_of(json_tree(*document)) == Err::<
                Seq<Seq<char>>,
                DecodeError,
            >(error),
        },
{
    let results = match value_member(document, "Results") {
        Some(results) => results,
        None => {
            return Err(DecodeError::MalformedResponse);
        },
    };
    let items = match value_items(results) {
        Some(items) => items,
        None => {
            return Err(DecodeError::MalformedResponse);
        },
    };
    let ghost trees = match json_tree(*results) {
        JsonTree::Array(trees) => trees,
        _ => Seq::empty(),
    };
    let mut devices: Vec<String> = Vec::new();
    let mut i: usize = 0;
    while i < items.len()
        invariant
            i <= items.len(),
            devices@.len() == i,
            trees.len() == items@.len(),
            device_list_of(json_tree(*document)) == if all_text(trees) {
                Ok::<Seq<Seq<char>>, DecodeError>(Seq::new(trees.len(), |k: int| text_of(trees[k])))
            } else {
                Err::<Seq<Seq<char>>, DecodeError>(DecodeError::MalformedResponse)
            },
            forall|j: int| 0 <= j < items@.len() ==> trees[j] == json_tree(#[trigger] items@[j]),
            forall|j: int| 0 <= j < i ==> trees[j] == JsonTree::Text((#[trigger] devices@[j])@),
        decreases items.len() - i,
    {
        match value_text(&items[i]) {
            Some(text) => {
                devices.push(text.to_owned());
            },
            None => {
                return Err(DecodeError::MalformedResponse);
            },
        }
        i = i + 1;
    }
    proof {
        assert forall|j: int| 0 <= j < trees.len() implies (#[trigger] trees[j]) is Text by {
            assert(trees[j] == JsonTree::Text(devices@[j]@));
        }
        assert(string_views(devices@) =~= Seq::new(trees.len(), |k: int| text_of(trees[k])));
    }
    Ok(devices)
}

/// Decodes the response to a device list request.
///
/// The outcome is `Ok` with the devices, in their order, exactly where the
/// bytes are well-formed JSON whose member `Results` is a list of strings.
pub fn decode_device_list(bytes: &[u8]) -> (outcome: Result<Vec<String>, DecodeError>)
    ensures
        match outcome {
            Ok(devices) => decoded_device_list(bytes@) == Ok::<Seq<Seq<char>>, DecodeError>(
                string_views(devices@),
            ),
            Err(error) => decoded_device_list(bytes@) == Err::<Seq<Seq<char>>, DecodeError>(error),
        },
{
    match parse_json(bytes) {
        Ok(document) => device_list_from_document(&document),
        Err(_) => Err(DecodeError::MalformedResponse),
    }
}

/// Decodes the response to a read: the memory itself, byte for byte.
pub fn decode_raw_bytes(bytes: &[u8]) -> (memory: Vec<u8>)
    ensures
        memory@ == bytes@,
{
    slice_to_vec(bytes)
}

} // verus!
