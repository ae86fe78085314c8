//! The decoded protocol data unit (PDU) model: header fields, directive
//! kinds and payloads. The wire encoding of a PDU is a versioned external
//! byte-format contract and is not part of this crate; everything here is
//! the already-decoded value that the engine routes and inspects.

use vstd::prelude::*;

verus! {

/// Identifier of a protocol participant, used purely as a routing key.
pub type EntityID = u64;

/// Unique identifier of one file transfer: the originating entity plus a
/// sequence number that the daemon assigns monotonically and never reuses.
#[derive(Clone, Copy, PartialEq, Eq, Structural, Debug, Hash)]
pub struct TransactionID {
    pub source: EntityID,
    pub number: u64,
}

/// Whether the transfer engages the retransmission and acknowledgment
/// machinery (`Acknowledged`) or runs best-effort (`Unacknowledged`).
#[derive(Clone, Copy, PartialEq, Eq, Structural, Debug)]
pub enum TransmissionMode {
    Acknowledged,
    Unacknowledged,
}

/// Terminal or fault outcome of a transaction, reported to the user.
#[derive(Clone, Copy, PartialEq, Eq, Structural, Debug)]
pub enum Condition {
    NoError,
    /// An awaited acknowledgment timed out more often than the configured
    /// limit allows.
    PositiveLimitReached,
    /// The transfer was cancelled by a user command or a cancelling EOF.
    CancelReceived,
    /// A declared or implied file size exceeds what the engine accepts.
    FileSizeError,
}

/// The directive kind of a PDU, the one header field beside the
/// `TransactionID` that routing inspects.
#[derive(Clone, Copy, PartialEq, Eq, Structural, Debug)]
pub enum PDUDirective {
    Metadata,
    FileData,
    EoF,
    Ack,
    Finished,
    Nak,
}

/// The payload of a decoded PDU.
#[derive(Clone, Debug)]
pub enum PDUPayload {
    /// Opens a transfer: declares the file size and where the file is to
    /// be stored at the destination.
    Metadata { file_size: u64, destination_filename: String },
    /// One segment of file content, applied at its absolute offset.
    FileData { offset: u64, data: Vec<u8> },
    /// Marks the end of the sender's data: declares the full file size.
    /// A condition other than `NoError` cancels the transfer.
    EoF { file_size: u64, condition: Condition },
    /// Positive acknowledgment of the control PDU named by `directive`
    /// (EOF or Finished).
    Ack { directive: PDUDirective, condition: Condition },
    /// The receiver's report that the transfer is over.
    Finished { condition: Condition },
    /// Negative acknowledgment: the byte ranges `start <= i < end` still
    /// missing at the receiver. The pair `(0, 0)` asks for the Metadata
    /// PDU itself.
    Nak { requests: Vec<(u64, u64)> },
}

impl PDUPayload {
    /// The directive kind of this payload.
    pub open spec fn spec_directive(&self) -> PDUDirective {
        match self {
            PDUPayload::Metadata { .. } => PDUDirective::Metadata,
            PDUPayload::FileData { .. } => PDUDirective::FileData,
            PDUPayload::EoF { .. } => PDUDirective::EoF,
            PDUPayload::Ack { .. } => PDUDirective::Ack,
            PDUPayload::Finished { .. } => PDUDirective::Finished,
            PDUPayload::Nak { .. } => PDUDirective::Nak,
        }
    }

    /// Classifies the payload by its directive kind.
    pub fn directive(&self) -> (d: PDUDirective)
        ensures
            d == self.spec_directive(),
    {
        match self {
            PDUPayload::Metadata { .. } => PDUDirective::Metadata,
            PDUPayload::FileData { .. } => PDUDirective::FileData,
            PDUPayload::EoF { .. } => PDUDirective::EoF,
            PDUPayload::Ack { .. } => PDUDirective::Ack,
            PDUPayload::Finished { .. } => PDUDirective::Finished,
            PDUPayload::Nak { .. } => PDUDirective::Nak,
        }
    }
}

/// A decoded protocol data unit: header fields plus payload.
#[derive(Clone, Debug)]
pub struct PDU {
    pub source: EntityID,
    pub destination: EntityID,
    pub transaction: TransactionID,
    pub mode: TransmissionMode,
    pub payload: PDUPayload,
}

impl PDU {
    /// The directive kind of this PDU.
    pub fn directive(&self) -> (d: PDUDirective)
        ensures
            d == self.payload.spec_directive(),
    {
        self.payload.directive()
    }
}

} // verus!
