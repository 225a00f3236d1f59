//! Protocol engine for an RS-485 pool-equipment controller bus.
//!
//! The library covers the byte-level protocol work: locating the frame
//! preamble in an unstructured byte stream, assembling length-delimited,
//! checksum-validated raw packets, decoding packets into typed messages,
//! and the shared protocol state that aggregates decoded messages for
//! readers while tracking pending control requests.
//!
//! Reading bytes from the serial line, serving the state over HTTP and
//! loading configuration files are left to the surrounding application;
//! the library only works on plain values handed to it.

pub mod config;
pub mod config_json;
pub mod controller;
pub mod errors;
pub mod framing;
pub mod hexutil;
pub mod message;
pub mod protocol;
pub mod system_state;
pub mod ui;
