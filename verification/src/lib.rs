//! Wire-level packet layer for chained servo actuators on a half-duplex
//! serial bus: checksummed instruction frames out, validated status frames
//! back, with a closed taxonomy of transmit/receive outcomes.

pub mod checksum;
pub mod outcome;
pub mod instruction;
pub mod scripted;
pub mod session;
pub mod status;
pub mod transport;
