//! Link-layer framing for a point-to-point byte stream: packet encoding and
//! an incremental, byte-at-a-time receive state machine.

pub mod laws;
pub mod link;
pub mod packet;
pub mod parser;
