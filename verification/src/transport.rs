//! Decision logic of a transport's polling loop. A transport owns one
//! physical medium and runs one loop: each iteration receives at most one
//! unit from the medium, forwards a decoded PDU inward, and drains at most
//! one outbound PDU. The medium itself, the decoding of bytes, and the
//! channels live outside this crate; this module decides, for every
//! possible outcome of one iteration, what is forwarded, what is
//! transmitted, and what is fatal.

use vstd::prelude::*;

use crate::pdu::{EntityID, PDU};

verus! {

/// The kind of a failed receive attempt on the medium, as the medium's
/// driver reports it.
#[derive(Clone, Copy, PartialEq, Eq, Structural, Debug)]
pub enum RecvErrorKind {
    /// The bounded wait elapsed with nothing to read.
    TimedOut,
    /// The medium had nothing to read right now.
    WouldBlock,
    /// Any other failure of the medium.
    Other,
}

/// Whether a failed receive attempt is fatal to the transport's loop: a
/// timeout or would-block outcome only paces the shutdown poll and the
/// loop goes on; anything else is a hard medium failure.
pub fn recv_error_fatal(kind: &RecvErrorKind) -> (r: bool)
    ensures
        r == !(kind is TimedOut || kind is WouldBlock),
{
    matches!(kind, RecvErrorKind::Other)
}

/// What terminated a transport's loop.
#[derive(Clone, Copy, PartialEq, Eq, Structural, Debug)]
pub enum TransportFault {
    /// A hard failure of the medium: receive failed for a reason other
    /// than a bounded wait elapsing, or a transmission failed.
    MediumFailure,
    /// A channel to or from the daemon is permanently closed.
    ChannelDisconnected,
}

/// The outcome of one receive attempt on the medium, after decoding.
#[derive(Clone, Debug)]
pub enum MediumPoll {
    /// A unit arrived and decoded into a PDU.
    Pdu(PDU),
    /// A unit arrived but did not decode; it is dropped, the loop goes
    /// on.
    Malformed,
    /// Nothing arrived within the bounded wait.
    Idle,
    /// A hard receive failure.
    Failed,
}

/// The outcome of draining the outbound queue once, without waiting.
#[derive(Clone, Debug)]
pub enum QueuePoll {
    /// A PDU is owed to this destination entity.
    Item(EntityID, PDU),
    /// Nothing pending; not an error.
    Empty,
    /// The queue is permanently closed.
    Disconnected,
}

/// What one loop iteration does.
#[derive(Debug)]
pub struct TransportStep {
    /// The decoded PDU to forward to the daemon, if one arrived.
    pub forward: Option<PDU>,
    /// The PDU to transmit and its destination entity, if one is owed.
    pub transmit: Option<(EntityID, PDU)>,
    /// Set exactly when the loop must terminate, with what to report.
    pub fault: Option<TransportFault>,
}

/// Decides one iteration of the transport loop from the two poll
/// outcomes: a decoded PDU is forwarded inward and a malformed unit is
/// dropped without stopping the loop; a hard receive failure is fatal and
/// suppresses the drain; otherwise one pending outbound PDU is handed on
/// for transmission, an empty queue is no error, and a closed queue is
/// fatal.
pub fn handler_step(medium: MediumPoll, queue: QueuePoll) -> (r: TransportStep)
    ensures
        medium matches MediumPoll::Pdu(p) ==> r.forward == Some(p),
        !(medium is Pdu) ==> r.forward is None,
        medium is Failed ==> r.fault == Some(TransportFault::MediumFailure) && r.transmit is None,
        !(medium is Failed) ==> {
            &&& (queue matches QueuePoll::Item(e, p) ==> r.transmit == Some((e, p)))
            &&& (!(queue is Item) ==> r.transmit is None)
            &&& (queue is Disconnected ==> r.fault == Some(TransportFault::ChannelDisconnected))
            &&& (!(queue is Disconnected) ==> r.fault is None)
        },
{
    let mut step = TransportStep { forward: None, transmit: None, fault: None };
    match medium {
        MediumPoll::Pdu(p) => {
            step.forward = Some(p);
        },
        MediumPoll::Malformed => {},
        MediumPoll::Idle => {},
        MediumPoll::Failed => {
            step.fault = Some(TransportFault::MediumFailure);
            return step;
        },
    }
    match queue {
        QueuePoll::Item(e, p) => {
            step.transmit = Some((e, p));
        },
        QueuePoll::Empty => {},
        QueuePoll::Disconnected => {
            step.fault = Some(TransportFault::ChannelDisconnected);
        },
    }
    step
}

} // verus!
