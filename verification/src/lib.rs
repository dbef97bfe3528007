//! Auto-tracking core of a location tracker for a randomized adventure game.
//!
//! The crate turns raw console memory, read over a device bridge, into facts
//! about which locations have been checked. It does no input or output: the
//! embedding application owns the transport, the timer and the display.
//!
//! - [`memory_layout`]: which bits of which bytes stand for which location.
//! - [`codec`]: the requests sent to the bridge and the responses read back.
//! - [`snapshot`]: memory snapshots and their assembly from chunks.
//! - [`evaluator`]: the diff of two snapshots, as events.
//! - [`session`]: the connection state machine that ties these together.
//! - [`json`]: the JSON functions of `serde_json` that the codec relies on.
//! - [`map_element`], [`row_element`]: the elements that the display shows.
//! - [`error`]: what can go wrong.

pub mod codec;
pub mod error;
pub mod evaluator;
pub mod json;
pub mod map_element;
pub mod memory_layout;
pub mod row_element;
pub mod session;
pub mod snapshot;
