//! Client side of the music daemon's line protocol: request encoding,
//! response framing and decoding into typed entities, idle change sets,
//! the connection's state machine, and saturating counters; with the data
//! types of the command line, the theme and the browsing screens.
use vstd::prelude::*;

pub mod cli;
pub mod client;
pub mod command;
pub mod connection;
pub mod counter;
pub mod decode;
pub mod entities;
pub mod response;
pub mod screens;
pub mod text;
pub mod theme;
pub mod wire;

verus! {

} // verus!
