//! Recognising the addresses that a Zcash wallet can pay to.
//!
//! A text is tried as a shielded Sapling address first and as a transparent
//! Base58Check address second. Network parameters are arguments of every
//! call, so one process can serve several networks.

pub mod base58check;
pub mod transparent;
pub mod recipient;
