//! What can go wrong while tracking.

use crate::map_element::MapElementKind;
use vstd::prelude::*;

verus! {

/// An inbound payload could not be decoded.
#[derive(Debug, Clone, Copy, PartialEq, Eq, Structural)]
pub enum DecodeError {
    /// The payload is not well-formed structured text, or it lacks the
    /// expected list of results.
    MalformedResponse,
}

/// The protocol or one of its parts was used out of order.
#[derive(Debug, Clone, Copy, PartialEq, Eq, Structural)]
pub enum ProtocolViolation {
    /// An attach was due, but the device list names no device.
    NoDevices,
    /// A chunk was appended to an assembler that had not begun a snapshot.
    AppendBeforeBegin,
    /// A chunk was appended to a snapshot that was already complete.
    AppendAfterComplete,
    /// A snapshot was taken before it was complete.
    TakeBeforeComplete,
}

/// The errors of the tracking core.
#[derive(Debug, Clone, Copy, PartialEq, Eq, Structural)]
pub enum TrackerError {
    /// The transport could not connect or send, or went silent.
    Transport,
    /// A response was malformed. The message is dropped and the session
    /// goes on.
    Decode(DecodeError),
    /// A usage error. The current sequence is aborted.
    Protocol(ProtocolViolation),
    /// The evaluator was asked about a location that the table lacks.
    UnknownLocation(MapElementKind),
}

} // verus!
