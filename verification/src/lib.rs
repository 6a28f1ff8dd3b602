//! A single-shot liveness probe for IPv4 addresses on the local
//! segment: build an ICMP Echo Request with a correct RFC 1071
//! checksum, send it, and race a one-receive listener against a
//! timeout to decide whether the address is already in use.
//!
//! The packet layout, the checksum, and every decision the probe makes
//! are verified here; the raw-socket I/O and the listener thread live
//! in the unverified shell around this crate.

use vstd::prelude::*;

pub mod addr;
pub mod bytes;
pub mod packet;
pub mod probe;

verus! {

/// ICMP message type code of an Echo Request (RFC 792).
pub const ECHO_REQUEST_TYPE: u8 = 8;

/// ICMP message type code of an Echo Reply (RFC 792).
pub const ECHO_REPLY_TYPE: u8 = 0;

} // verus!
