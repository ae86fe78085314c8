//! Values shared by the daemon and the per-transfer state machines: the
//! command mailbox alphabet, user requests, progress reports and the
//! tunable protocol parameters.

use vstd::prelude::*;

use crate::pdu::{Condition, EntityID, TransactionID, TransmissionMode, PDU};

verus! {

/// A message delivered from the daemon to a transaction worker. A report
/// request is answered with a [`Report`] through the worker's reply path.
#[derive(Clone, Debug)]
pub enum Command {
    Pdu(PDU),
    Cancel,
    Suspend,
    Resume,
    Report,
}

/// The coarse position of a transaction in its lifecycle.
#[derive(Clone, Copy, PartialEq, Eq, Structural, Debug)]
pub enum TransactionPhase {
    /// Created, nothing sent or received yet.
    Start,
    /// File data is moving or still owed.
    Transferring,
    /// End-of-file has been exchanged; an acknowledgment is awaited.
    AwaitingAck,
    /// The closing Finished exchange is under way.
    Finished,
    /// Terminal: the transaction does nothing further.
    Closed,
}

/// A point-in-time snapshot of a transaction's condition and progress.
#[derive(Clone, Copy, PartialEq, Eq, Structural, Debug)]
pub struct Report {
    pub id: TransactionID,
    pub phase: TransactionPhase,
    pub condition: Condition,
    /// Bytes of file content sent or stored so far.
    pub progress: u64,
}

/// A user-issued description of a transfer to start.
#[derive(Clone, Debug)]
pub struct PutRequest {
    pub source_filename: String,
    pub destination_filename: String,
    pub destination_entity_id: EntityID,
    pub transmission_mode: TransmissionMode,
    pub filestore_requests: Vec<String>,
    pub message_to_user: Vec<String>,
}

/// Tunable protocol parameters. Retry limits and segment sizes are
/// configuration, not protocol logic.
#[derive(Clone, Copy, PartialEq, Eq, Structural, Debug)]
pub struct TransactionConfig {
    /// How many consecutive timeouts of one awaited acknowledgment are
    /// tolerated before the transaction faults with
    /// `PositiveLimitReached`.
    pub ack_limit: u32,
    /// Largest number of file bytes carried by one FileData PDU.
    pub segment_size: usize,
}

impl TransactionConfig {
    /// A configuration is usable only with a non-empty segment size.
    pub open spec fn valid(&self) -> bool {
        self.segment_size >= 1
    }
}

} // verus!
