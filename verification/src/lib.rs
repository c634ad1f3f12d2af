//! Verified core of the J2534 PassThru bridge: wire-protocol types, J2534
//! frame encoding and decoding, receive buffering, drain and connection
//! sequences, and the command-line helpers of the dump tool.

pub mod text;
pub mod j2534;
pub mod protocol;
pub mod worker;
pub mod bridge;
pub mod client;
pub mod dump;
