//! Reliable file-delivery engine in the style of the CCSDS File Delivery
//! Protocol: per-transfer sender and receiver state machines with
//! acknowledged-mode retransmission, a daemon that routes protocol data
//! units between transports and transactions, and the decision logic of a
//! transport's polling loop. All protocol logic is verified; the physical
//! media, threads and channels live outside this crate.

pub mod daemon;
pub mod pdu;
pub mod receiver;
pub mod sender;
pub mod segment;
pub mod transaction;
pub mod transport;

use vstd::prelude::*;

verus! {

/// The protocol never moves a file larger than this many bytes; a segment
/// or declared file size past the cap is refused rather than applied.
pub const MAX_FILE_SIZE: usize = 0x4000_0000;

} // verus!
