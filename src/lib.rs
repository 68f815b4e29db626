//! Message framing and header encoding for HSMS, the TCP/IP transport of
//! SEMI equipment communication: a 4-byte length, a 10-byte header packed
//! from bit-level sub-fields, and a body of opaque bytes.

pub mod le;
pub mod hsms;
pub mod laws;
