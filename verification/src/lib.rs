//! Decoding of the fixed-width record-length field that opens the leader of a
//! MARC-style bibliographic record.

pub mod leader;

pub use leader::Leader;
pub use leader::ParseLeaderError;
