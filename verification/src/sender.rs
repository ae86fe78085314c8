//! The sending side of one file transfer: emits Metadata, the file as
//! segments, and EOF; retransmits EOF (and Metadata, while the peer has
//! never been heard from) on acknowledgment timeout; answers negative
//! acknowledgments with exactly the requested ranges; and faults with
//! `PositiveLimitReached` once the retry budget is exhausted.

use vstd::prelude::*;

use crate::pdu::{Condition, EntityID, PDUDirective, PDUPayload, TransactionID, TransmissionMode, PDU};
use crate::transaction::{Report, TransactionConfig, TransactionPhase};
use crate::MAX_FILE_SIZE;

verus! {

/// One expiry of the acknowledgment timer, abstractly: as long as no
/// fault stands, it spends one attempt, and faults once the attempts
/// exceed the limit.
pub open spec fn timeout_step(attempts: nat, limit: nat, faulted: bool) -> (nat, bool) {
    if faulted {
        (attempts, true)
    } else if attempts >= limit {
        (attempts, true)
    } else {
        ((attempts + 1) as nat, false)
    }
}

/// The attempt counter and fault flag after `n` timer expiries with no
/// acknowledgment arriving in between.
pub open spec fn timeouts(attempts: nat, limit: nat, faulted: bool, n: nat) -> (nat, bool)
    decreases n,
{
    if n == 0 {
        (attempts, faulted)
    } else {
        let s = timeout_step(attempts, limit, faulted);
        timeouts(s.0, limit, s.1, (n - 1) as nat)
    }
}

/// If every acknowledgment directed at the waiting side is lost, the
/// fault is reached after finitely many timer expiries — `limit + 1`
/// expiries from a fresh counter always suffice, so the transaction
/// cannot wait past its retry budget.
pub proof fn lemma_ack_limit_faults(attempts: nat, limit: nat, n: nat)
    requires
        attempts <= limit,
        n >= limit - attempts + 1,
    ensures
        timeouts(attempts, limit, false, n).1,
    decreases n,
{
    if attempts >= limit {
        lemma_faulted_stays(attempts, limit, (n - 1) as nat);
    } else {
        lemma_ack_limit_faults((attempts + 1) as nat, limit, (n - 1) as nat);
    }
}

/// Once faulted, further timer expiries change nothing.
proof fn lemma_faulted_stays(attempts: nat, limit: nat, n: nat)
    ensures
        timeouts(attempts, limit, true, n).1,
    decreases n,
{
    if n > 0 {
        lemma_faulted_stays(attempts, limit, (n - 1) as nat);
    }
}

/// The sending state machine of one transaction.
pub struct SendTransaction {
    /// The transaction this machine exclusively owns.
    pub id: TransactionID,
    /// The receiving entity, destination of every PDU this machine emits.
    pub peer: EntityID,
    /// The local entity, source of every PDU this machine emits.
    pub local: EntityID,
    pub mode: TransmissionMode,
    pub config: TransactionConfig,
    /// The full file content to deliver.
    pub file: Vec<u8>,
    /// Where the file is to be stored at the destination.
    pub destination_filename: String,
    pub phase: TransactionPhase,
    pub condition: Condition,
    /// Consecutive timeouts of the awaited acknowledgment of EOF.
    pub ack_attempts: u32,
    /// Whether any PDU of this transaction has ever arrived from the
    /// peer; until one has, an EOF retransmission is prefixed with the
    /// Metadata PDU, since a lost Metadata leaves the peer unaware of the
    /// transaction and unable to ask for anything.
    pub heard_from_peer: bool,
    pub suspended: bool,
}

impl SendTransaction {
    /// Structural soundness: the configuration is usable and the file
    /// respects the engine's size cap.
    pub open spec fn wf(&self) -> bool {
        &&& self.config.valid()
        &&& self.file@.len() <= MAX_FILE_SIZE
    }

    /// The routing identity, configuration and file content never change
    /// over the life of the machine.
    pub open spec fn same_identity(pre: Self, post: Self) -> bool {
        &&& post.id == pre.id
        &&& post.peer == pre.peer
        &&& post.local == pre.local
        &&& post.mode == pre.mode
        &&& post.config == pre.config
        &&& post.file@ == pre.file@
        &&& post.destination_filename@ == pre.destination_filename@
    }

    /// Whether `p` is this machine's Metadata PDU.
    pub open spec fn metadata_ok(&self, p: PDU) -> bool {
        &&& p.source == self.local && p.destination == self.peer && p.transaction == self.id
            && p.mode == self.mode
        &&& p.payload is Metadata
        &&& p.payload->Metadata_file_size == self.file@.len()
        &&& p.payload->Metadata_destination_filename@ == self.destination_filename@
    }

    /// The EOF PDU this machine emits.
    pub open spec fn spec_eof(&self) -> PDU {
        PDU {
            source: self.local,
            destination: self.peer,
            transaction: self.id,
            mode: self.mode,
            payload: PDUPayload::EoF {
                file_size: self.file@.len() as u64,
                condition: Condition::NoError,
            },
        }
    }

    /// The acknowledgment of Finished this machine emits.
    pub open spec fn spec_ack_finished(&self) -> PDU {
        PDU {
            source: self.local,
            destination: self.peer,
            transaction: self.id,
            mode: self.mode,
            payload: PDUPayload::Ack {
                directive: PDUDirective::Finished,
                condition: Condition::NoError,
            },
        }
    }

    /// Whether `p` is a file-data segment of this machine's file: its
    /// bytes are exactly the file content at its absolute offset.
    pub open spec fn chunk_ok(&self, p: PDU) -> bool {
        &&& p.source == self.local && p.destination == self.peer && p.transaction == self.id
            && p.mode == self.mode
        &&& p.payload is FileData
        &&& {
            let off = p.payload->FileData_offset as int;
            let d = p.payload->FileData_data@;
            &&& off + d.len() <= self.file@.len()
            &&& d == self.file@.subrange(off, off + d.len())
            &&& 1 <= d.len() <= self.config.segment_size
        }
    }

    /// Whether `out`, after a leading Metadata PDU and before a trailing
    /// EOF PDU, carries segments that tile the whole file in order: the
    /// first starts at offset zero, each next one starts where the
    /// previous ended, every one but the last is full, and the last ends
    /// exactly at the file's end.
    pub open spec fn chunks_tile(&self, out: Seq<PDU>) -> bool {
        &&& (self.file@.len() == 0 ==> out.len() == 2)
        &&& (self.file@.len() > 0 ==> {
            &&& out.len() >= 3
            &&& out[1].payload->FileData_offset == 0
            &&& out[out.len() - 2].payload->FileData_offset + out[out.len()
                - 2].payload->FileData_data@.len() == self.file@.len()
            &&& forall|k: int|
                1 <= k < out.len() - 2 ==> (#[trigger] out[k + 1].payload)->FileData_offset
                    == out[k].payload->FileData_offset + out[k].payload->FileData_data@.len()
            &&& forall|k: int|
                1 <= k < out.len() - 2 ==> (#[trigger] out[k].payload)->FileData_data@.len()
                    == self.config.segment_size
        })
        &&& forall|k: int| 1 <= k < out.len() - 1 ==> self.chunk_ok(#[trigger] out[k])
    }

    /// A fresh sending machine, spawned when the daemon accepts a
    /// put request.
    pub fn new(
        id: TransactionID,
        peer: EntityID,
        local: EntityID,
        mode: TransmissionMode,
        config: TransactionConfig,
        file: Vec<u8>,
        destination_filename: String,
    ) -> (r: Self)
        requires
            config.valid(),
            file@.len() <= MAX_FILE_SIZE,
        ensures
            r.wf(),
            r.id == id && r.peer == peer && r.local == local && r.mode == mode && r.config
                == config,
            r.file@ == file@,
            r.destination_filename@ == destination_filename@,
            r.phase is Start,
            r.condition is NoError,
            r.ack_attempts == 0,
            !r.heard_from_peer,
            !r.suspended,
    {
        SendTransaction {
            id,
            peer,
            local,
            mode,
            config,
            file,
            destination_filename,
            phase: TransactionPhase::Start,
            condition: Condition::NoError,
            ack_attempts: 0,
            heard_from_peer: false,
            suspended: false,
        }
    }

    /// Builds this machine's Metadata PDU.
    fn metadata_pdu(&self) -> (r: PDU)
        ensures
            self.metadata_ok(r),
    {
        PDU {
            source: self.local,
            destination: self.peer,
            transaction: self.id,
            mode: self.mode,
            payload: PDUPayload::Metadata {
                file_size: self.file.len() as u64,
                destination_filename: self.destination_filename.clone(),
            },
        }
    }

    /// Builds this machine's EOF PDU.
    fn eof_pdu(&self) -> (r: PDU)
        ensures
            r == self.spec_eof(),
    {
        PDU {
            source: self.local,
            destination: self.peer,
            transaction: self.id,
            mode: self.mode,
            payload: PDUPayload::EoF {
                file_size: self.file.len() as u64,
                condition: Condition::NoError,
            },
        }
    }

    /// Builds the acknowledgment of Finished.
    fn ack_finished_pdu(&self) -> (r: PDU)
        ensures
            r == self.spec_ack_finished(),
    {
        PDU {
            source: self.local,
            destination: self.peer,
            transaction: self.id,
            mode: self.mode,
            payload: PDUPayload::Ack {
                directive: PDUDirective::Finished,
                condition: Condition::NoError,
            },
        }
    }

    /// Builds one file-data segment: the file content from `start`
    /// (exclusive of anything else) up to `end`.
    fn chunk_pdu(&self, start: usize, end: usize) -> (r: PDU)
        requires
            self.wf(),
            start < end <= self.file@.len(),
            end - start <= self.config.segment_size,
        ensures
            self.chunk_ok(r),
            r.payload->FileData_offset == start,
            r.payload->FileData_data@.len() == end - start,
    {
        let mut d: Vec<u8> = Vec::new();
        let mut i: usize = start;
        while i < end
            invariant
                start <= i <= end <= self.file@.len(),
                d@ == self.file@.subrange(start as int, i as int),
            decreases end - i,
        {
            let b = self.file[i];
            d.push(b);
            proof {
                assert(d@ =~= self.file@.subrange(start as int, i + 1 as int));
            }
            i = i + 1;
        }
        PDU {
            source: self.local,
            destination: self.peer,
            transaction: self.id,
            mode: self.mode,
            payload: PDUPayload::FileData { offset: start as u64, data: d },
        }
    }

    /// Opens the transfer: emits Metadata, every file segment in order,
    /// and EOF. In acknowledged mode the machine then awaits the
    /// acknowledgment of EOF; in unacknowledged mode it is done.
    pub fn start(&mut self) -> (out: Vec<PDU>)
        requires
            old(self).wf(),
            old(self).phase is Start,
        ensures
            final(self).wf(),
            Self::same_identity(*old(self), *final(self)),
            final(self).condition == old(self).condition,
            final(self).heard_from_peer == old(self).heard_from_peer,
            final(self).suspended == old(self).suspended,
            old(self).mode is Acknowledged ==> (final(self).phase is AwaitingAck
                && final(self).ack_attempts == 0),
            old(self).mode is Unacknowledged ==> final(self).phase is Closed,
            out@.len() >= 2,
            final(self).metadata_ok(out@[0]),
            out@[out@.len() - 1] == final(self).spec_eof(),
            final(self).chunks_tile(out@),
    {
        let mut out: Vec<PDU> = Vec::new();
        out.push(self.metadata_pdu());
        let len = self.file.len();
        let seg = self.config.segment_size;
        let mut offset: usize = 0;
        while offset < len
            invariant
                self.wf(),
                len == self.file@.len(),
                seg == self.config.segment_size,
                offset <= len,
                out@.len() >= 1,
                self.metadata_ok(out@[0]),
                offset == 0 ==> out@.len() == 1,
                offset > 0 ==> {
                    &&& out@.len() >= 2
                    &&& out@[1].payload->FileData_offset == 0
                    &&& out@[out@.len() - 1].payload->FileData_offset + out@[out@.len()
                        - 1].payload->FileData_data@.len() == offset
                    &&& out@[out@.len() - 1].payload->FileData_data@.len() == seg || offset == len
                    &&& forall|k: int|
                        1 <= k < out@.len() - 1 ==> (#[trigger] out@[k
                            + 1].payload)->FileData_offset == out@[k].payload->FileData_offset
                            + out@[k].payload->FileData_data@.len()
                    &&& forall|k: int|
                        1 <= k < out@.len() - 1 ==> (#[trigger] out@[k].payload)->FileData_data@.len()
                            == seg
                    &&& forall|k: int| 1 <= k < out@.len() ==> self.chunk_ok(#[trigger] out@[k])
                },
            decreases len - offset,
        {
            let end = if len - offset <= seg {
                len
            } else {
                offset + seg
            };
            out.push(self.chunk_pdu(offset, end));
            offset = end;
        }
        out.push(self.eof_pdu());
        if matches!(self.mode, TransmissionMode::Acknowledged) {
            self.phase = TransactionPhase::AwaitingAck;
            self.ack_attempts = 0;
        } else {
            self.phase = TransactionPhase::Closed;
        }
        out
    }

    /// Whether `p` is the right answer to the single request `r` of a
    /// negative acknowledgment: the Metadata PDU for an empty range, and
    /// otherwise a file-data segment carrying exactly the requested
    /// bytes, clipped to the file.
    pub open spec fn response_ok(&self, r: (u64, u64), p: PDU) -> bool {
        if r.0 >= r.1 {
            self.metadata_ok(p)
        } else {
            let len = self.file@.len() as int;
            let start = if r.0 <= len { r.0 as int } else { len };
            let end = if r.1 <= len { r.1 as int } else { len };
            let stop = if start <= end { end } else { start };
            &&& p.source == self.local && p.destination == self.peer && p.transaction == self.id
                && p.mode == self.mode
            &&& p.payload is FileData
            &&& p.payload->FileData_offset == start
            &&& p.payload->FileData_data@ == self.file@.subrange(start, stop)
        }
    }

    /// Handles one inbound PDU of this transaction and returns the PDUs
    /// to send back to the peer. An acknowledgment of EOF ends the EOF
    /// retry timer; a negative acknowledgment is answered with exactly
    /// the requested ranges; Finished is acknowledged — every time it
    /// arrives, so a lost acknowledgment of Finished is recoverable — and
    /// closes the transfer.
    pub fn handle_pdu(&mut self, pdu: &PDU) -> (out: Vec<PDU>)
        requires
            old(self).wf(),
            pdu.transaction == old(self).id,
        ensures
            final(self).wf(),
            Self::same_identity(*old(self), *final(self)),
            // An acknowledgment of EOF: the machine stops retransmitting
            // EOF and awaits Finished; a duplicate changes nothing more.
            pdu.payload is Ack ==> ({
                let pre = *old(self);
                let post = *final(self);
                &&& out@.len() == 0
                &&& (pdu.payload->Ack_directive is EoF && pre.phase is AwaitingAck ==> post
                    == (Self {
                    phase: TransactionPhase::Finished,
                    ack_attempts: 0,
                    heard_from_peer: true,
                    ..pre
                }))
                &&& (!(pdu.payload->Ack_directive is EoF && pre.phase is AwaitingAck) ==> post
                    == (Self { heard_from_peer: pre.heard_from_peer || !(pre.phase is Closed), ..pre }))
            }),
            // A negative acknowledgment: one response per request, each
            // carrying exactly what was asked; the state only records
            // that the peer is alive.
            pdu.payload is Nak ==> ({
                let pre = *old(self);
                let post = *final(self);
                let reqs = pdu.payload->Nak_requests@;
                &&& (pre.phase is Closed ==> post == pre && out@.len() == 0)
                &&& (!(pre.phase is Closed) ==> {
                    &&& post == (Self { heard_from_peer: true, ..pre })
                    &&& out@.len() == reqs.len()
                    &&& forall|k: int|
                        0 <= k < reqs.len() ==> post.response_ok(reqs[k], #[trigger] out@[k])
                })
            }),
            // Finished: acknowledged whenever it arrives; the first one
            // fixes the terminal condition and closes the machine.
            pdu.payload is Finished ==> ({
                let pre = *old(self);
                let post = *final(self);
                &&& out@ =~= seq![post.spec_ack_finished()]
                &&& (pre.phase is Closed ==> post == pre)
                &&& (!(pre.phase is Closed) ==> post == (Self {
                    phase: TransactionPhase::Closed,
                    condition: pdu.payload->Finished_condition,
                    heard_from_peer: true,
                    ..pre
                }))
            }),
            // Anything else directed the wrong way is ignored.
            pdu.payload is Metadata || pdu.payload is FileData || pdu.payload is EoF
                ==> *final(self) == *old(self) && out@.len() == 0,
    {
        let mut out: Vec<PDU> = Vec::new();
        match &pdu.payload {
            PDUPayload::Ack { directive, .. } => {
                if !matches!(self.phase, TransactionPhase::Closed) {
                    self.heard_from_peer = true;
                }
                if matches!(directive, PDUDirective::EoF) && matches!(
                    self.phase,
                    TransactionPhase::AwaitingAck,
                ) {
                    self.phase = TransactionPhase::Finished;
                    self.ack_attempts = 0;
                    self.heard_from_peer = true;
                }
            },
            PDUPayload::Nak { requests } => {
                if !matches!(self.phase, TransactionPhase::Closed) {
                    self.heard_from_peer = true;
                    let mut k: usize = 0;
                    while k < requests.len()
                        invariant
                            self.wf(),
                            k <= requests@.len(),
                            out@.len() == k,
                            forall|j: int|
                                0 <= j < k ==> self.response_ok(requests@[j], #[trigger] out@[j]),
                        decreases requests@.len() - k,
                    {
                        let r = requests[k];
                        if r.0 >= r.1 {
                            out.push(self.metadata_pdu());
                        } else {
                            let len = self.file.len();
                            let start = if r.0 <= len as u64 {
                                r.0 as usize
                            } else {
                                len
                            };
                            let end = if r.1 <= len as u64 {
                                r.1 as usize
                            } else {
                                len
                            };
                            let stop = if start <= end {
                                end
                            } else {
                                start
                            };
                            out.push(self.range_pdu(start, stop));
                        }
                        k = k + 1;
                    }
                }
            },
            PDUPayload::Finished { condition } => {
                if !matches!(self.phase, TransactionPhase::Closed) {
                    self.condition = *condition;
                    self.phase = TransactionPhase::Closed;
                    self.heard_from_peer = true;
                }
                out.push(self.ack_finished_pdu());
            },
            PDUPayload::Metadata { .. } => {},
            PDUPayload::FileData { .. } => {},
            PDUPayload::EoF { .. } => {},
        }
        out
    }

    /// Builds the file-data segment for one requested range, already
    /// clipped to the file.
    fn range_pdu(&self, start: usize, stop: usize) -> (r: PDU)
        requires
            self.wf(),
            start <= stop <= self.file@.len(),
        ensures
            r.source == self.local && r.destination == self.peer && r.transaction == self.id
                && r.mode == self.mode,
            r.payload is FileData,
            r.payload->FileData_offset == start,
            r.payload->FileData_data@ == self.file@.subrange(start as int, stop as int),
    {
        let mut d: Vec<u8> = Vec::new();
        let mut i: usize = start;
        while i < stop
            invariant
                start <= i <= stop <= self.file@.len(),
                d@ == self.file@.subrange(start as int, i as int),
            decreases stop - i,
        {
            let b = self.file[i];
            d.push(b);
            proof {
                assert(d@ =~= self.file@.subrange(start as int, i + 1 as int));
            }
            i = i + 1;
        }
        PDU {
            source: self.local,
            destination: self.peer,
            transaction: self.id,
            mode: self.mode,
            payload: PDUPayload::FileData { offset: start as u64, data: d },
        }
    }

    /// The acknowledgment timer for EOF fired. While the machine awaits
    /// the acknowledgment of EOF, it retransmits EOF — prefixed with
    /// Metadata when nothing has ever been heard from the peer — and
    /// faults with `PositiveLimitReached` once the configured limit is
    /// exhausted. Each expiry behaves exactly as one [`timeout_step`] of
    /// the retry model.
    pub fn on_ack_timeout(&mut self) -> (out: Vec<PDU>)
        requires
            old(self).wf(),
        ensures
            final(self).wf(),
            Self::same_identity(*old(self), *final(self)),
            ({
                let pre = *old(self);
                let post = *final(self);
                if !pre.suspended && pre.phase is AwaitingAck {
                    let step = timeout_step(pre.ack_attempts as nat, pre.config.ack_limit as nat,
                        false);
                    &&& post.ack_attempts == step.0
                    &&& step.1 <==> (post.phase is Closed && post.condition
                        is PositiveLimitReached)
                    &&& (step.1 ==> out@.len() == 0)
                    &&& (!step.1 ==> {
                        &&& post.phase is AwaitingAck
                        &&& post.condition == pre.condition
                        &&& (pre.heard_from_peer ==> out@ =~= seq![post.spec_eof()])
                        &&& (!pre.heard_from_peer ==> out@.len() == 2 && post.metadata_ok(out@[0])
                            && out@[1] == post.spec_eof())
                    })
                    &&& post.heard_from_peer == pre.heard_from_peer
                    &&& post.suspended == pre.suspended
                } else {
                    post == pre && out@.len() == 0
                }
            }),
    {
        let mut out: Vec<PDU> = Vec::new();
        if !self.suspended && matches!(self.phase, TransactionPhase::AwaitingAck) {
            if self.ack_attempts >= self.config.ack_limit {
                self.condition = Condition::PositiveLimitReached;
                self.phase = TransactionPhase::Closed;
            } else {
                self.ack_attempts = self.ack_attempts + 1;
                if !self.heard_from_peer {
                    out.push(self.metadata_pdu());
                }
                out.push(self.eof_pdu());
            }
        }
        out
    }

    /// A point-in-time snapshot of this transaction.
    pub fn report(&self) -> (r: Report)
        ensures
            r.id == self.id,
            r.phase == self.phase,
            r.condition == self.condition,
            r.progress == (if self.phase is Start {
                0int
            } else {
                self.file@.len() as int
            }),
    {
        Report {
            id: self.id,
            phase: self.phase,
            condition: self.condition,
            progress: if matches!(self.phase, TransactionPhase::Start) {
                0
            } else {
                self.file.len() as u64
            },
        }
    }

    /// A user cancel: terminal for this transfer.
    pub fn cancel(&mut self)
        requires
            old(self).wf(),
        ensures
            final(self).wf(),
            Self::same_identity(*old(self), *final(self)),
            old(self).phase is Closed ==> *final(self) == *old(self),
            !(old(self).phase is Closed) ==> (final(self).condition is CancelReceived
                && final(self).phase is Closed),
    {
        if !matches!(self.phase, TransactionPhase::Closed) {
            self.condition = Condition::CancelReceived;
            self.phase = TransactionPhase::Closed;
        }
    }

    /// Pauses the timers; inbound PDUs are still processed.
    pub fn suspend(&mut self)
        requires
            old(self).wf(),
        ensures
            final(self).wf(),
            *final(self) == (Self { suspended: true, ..*old(self) }),
    {
        self.suspended = true;
    }

    /// Resumes the timers.
    pub fn resume(&mut self)
        requires
            old(self).wf(),
        ensures
            final(self).wf(),
            *final(self) == (Self { suspended: false, ..*old(self) }),
    {
        self.suspended = false;
    }
}

} // verus!
