//! The receiving side of one file transfer: stores file data by absolute
//! offset (so duplicated or reordered segments are harmless), acknowledges
//! EOF, asks for exactly the missing byte ranges by negative
//! acknowledgment, and closes through the Finished exchange.

use vstd::prelude::*;

use crate::pdu::{Condition, EntityID, PDUDirective, PDUPayload, TransactionID, TransmissionMode, PDU};
use crate::segment::{
    apply_bytes, apply_segment, ensure_len, grow_false, grow_zeros, in_ranges, mark_have,
    missing_ranges,
};
use crate::transaction::{Report, TransactionConfig, TransactionPhase};
use crate::MAX_FILE_SIZE;

verus! {

/// Whether a request list opens with the marker pair `(0, 0)` that asks
/// for the Metadata PDU itself.
pub open spec fn has_metadata_request(reqs: Seq<(u64, u64)>) -> bool {
    reqs.len() > 0 && reqs[0] == (0u64, 0u64)
}

/// The file-data ranges of a request list: everything but a leading
/// metadata marker.
pub open spec fn data_requests(reqs: Seq<(u64, u64)>) -> Seq<(u64, u64)> {
    if has_metadata_request(reqs) {
        reqs.skip(1)
    } else {
        reqs
    }
}

/// The receiving state machine of one transaction.
pub struct RecvTransaction {
    /// The transaction this machine exclusively owns.
    pub id: TransactionID,
    /// The sending entity, destination of every PDU this machine emits.
    pub peer: EntityID,
    /// The local entity, source of every PDU this machine emits.
    pub local: EntityID,
    pub mode: TransmissionMode,
    pub config: TransactionConfig,
    pub metadata_received: bool,
    /// File size declared by Metadata; meaningful once `metadata_received`.
    pub declared_size: u64,
    /// Where the file is to be stored; meaningful once `metadata_received`.
    pub destination_filename: String,
    /// File content stored so far, by absolute offset.
    pub data: Vec<u8>,
    /// Which bytes of `data` have actually arrived.
    pub have: Vec<bool>,
    pub eof_received: bool,
    /// File size declared by EOF; meaningful once `eof_received`.
    pub eof_size: u64,
    pub phase: TransactionPhase,
    pub condition: Condition,
    /// Consecutive timeouts of the awaited acknowledgment of Finished.
    pub ack_attempts: u32,
    pub suspended: bool,
}

impl RecvTransaction {
    /// Structural soundness: storage and bitmap run in step, stay under
    /// the size cap, and cover everything EOF declared.
    pub open spec fn wf(&self) -> bool {
        &&& self.data@.len() == self.have@.len()
        &&& self.data@.len() <= MAX_FILE_SIZE
        &&& self.config.valid()
        &&& (self.eof_received ==> self.eof_size <= self.data@.len())
    }

    /// The routing identity and configuration never change over the life
    /// of the machine.
    pub open spec fn same_identity(pre: Self, post: Self) -> bool {
        &&& post.id == pre.id
        &&& post.peer == pre.peer
        &&& post.local == pre.local
        &&& post.mode == pre.mode
        &&& post.config == pre.config
    }

    /// Every byte EOF declared has arrived and Metadata is in hand.
    pub open spec fn complete(&self) -> bool {
        &&& self.metadata_received
        &&& self.eof_received
        &&& forall|i: int| 0 <= i < self.eof_size ==> self.have@[i]
    }

    /// The acknowledgment of EOF this machine emits.
    pub open spec fn spec_ack_eof(&self) -> PDU {
        PDU {
            source: self.local,
            destination: self.peer,
            transaction: self.id,
            mode: self.mode,
            payload: PDUPayload::Ack {
                directive: PDUDirective::EoF,
                condition: Condition::NoError,
            },
        }
    }

    /// The Finished PDU this machine emits on completion.
    pub open spec fn spec_finished(&self) -> PDU {
        PDU {
            source: self.local,
            destination: self.peer,
            transaction: self.id,
            mode: self.mode,
            payload: PDUPayload::Finished { condition: Condition::NoError },
        }
    }

    /// A correct negative acknowledgment: it asks for Metadata exactly
    /// when Metadata is missing, and its ranges cover exactly the bytes
    /// below the EOF-declared size that have not arrived.
    pub open spec fn nak_correct(&self, reqs: Seq<(u64, u64)>) -> bool {
        &&& has_metadata_request(reqs) == !self.metadata_received
        &&& forall|i: int|
            0 <= i < self.eof_size ==> (in_ranges(data_requests(reqs), i) <==> !self.have@[i])
        &&& forall|i: int| !(0 <= i < self.eof_size) ==> !in_ranges(data_requests(reqs), i)
    }

    /// A fresh receiving machine, spawned when the daemon sees the first
    /// PDU of an untracked transaction.
    pub fn new(
        id: TransactionID,
        peer: EntityID,
        local: EntityID,
        mode: TransmissionMode,
        config: TransactionConfig,
    ) -> (r: Self)
        requires
            config.valid(),
        ensures
            r.wf(),
            r.id == id && r.peer == peer && r.local == local && r.mode == mode && r.config
                == config,
            !r.metadata_received && !r.eof_received,
            r.phase is Transferring,
            r.condition is NoError,
            r.data@.len() == 0,
            r.ack_attempts == 0,
            !r.suspended,
    {
        RecvTransaction {
            id,
            peer,
            local,
            mode,
            config,
            metadata_received: false,
            declared_size: 0,
            destination_filename: String::new(),
            data: Vec::new(),
            have: Vec::new(),
            eof_received: false,
            eof_size: 0,
            phase: TransactionPhase::Transferring,
            condition: Condition::NoError,
            ack_attempts: 0,
            suspended: false,
        }
    }

    /// Whether every byte the EOF declared has arrived.
    pub fn is_complete(&self) -> (r: bool)
        requires
            self.wf(),
        ensures
            r == self.complete(),
    {
        if !self.metadata_received || !self.eof_received {
            return false;
        }
        let n = self.eof_size as usize;
        let mut i: usize = 0;
        while i < n
            invariant
                self.wf(),
                self.metadata_received,
                self.eof_received,
                n == self.eof_size,
                i <= n <= self.have@.len(),
                forall|j: int| 0 <= j < i ==> self.have@[j],
            decreases n - i,
        {
            if !self.have[i] {
                return false;
            }
            i = i + 1;
        }
        true
    }

    /// The file as delivered: the stored bytes up to the EOF-declared
    /// size.
    pub fn delivered_file(&self) -> (r: Vec<u8>)
        requires
            self.wf(),
            self.eof_received,
        ensures
            r@ == self.data@.subrange(0, self.eof_size as int),
    {
        let n = self.eof_size as usize;
        let mut r: Vec<u8> = Vec::new();
        let mut i: usize = 0;
        while i < n
            invariant
                i <= n <= self.data@.len(),
                r@ == self.data@.subrange(0, i as int),
            decreases n - i,
        {
            let b = self.data[i];
            r.push(b);
            proof {
                assert(r@ =~= self.data@.subrange(0, i + 1 as int));
            }
            i = i + 1;
        }
        r
    }

    /// A point-in-time snapshot of this transaction.
    pub fn report(&self) -> (r: Report)
        ensures
            r.id == self.id,
            r.phase == self.phase,
            r.condition == self.condition,
            r.progress == self.data@.len(),
    {
        Report {
            id: self.id,
            phase: self.phase,
            condition: self.condition,
            progress: self.data.len() as u64,
        }
    }

    /// Builds the negative acknowledgment asking for everything still
    /// missing.
    fn build_nak(&self) -> (out: PDU)
        requires
            self.wf(),
            self.eof_received,
        ensures
            out.source == self.local && out.destination == self.peer && out.transaction == self.id
                && out.mode == self.mode,
            out.payload matches PDUPayload::Nak { requests } && self.nak_correct(requests@),
    {
        let upto = self.eof_size as usize;
        let ranges = missing_ranges(&self.have, upto);
        let mut requests: Vec<(u64, u64)> = Vec::new();
        if !self.metadata_received {
            requests.push((0u64, 0u64));
        }
        let mut k: usize = 0;
        while k < ranges.len()
            invariant
                k <= ranges@.len(),
                requests@ == (if self.metadata_received {
                    ranges@.subrange(0, k as int)
                } else {
                    seq![(0u64, 0u64)] + ranges@.subrange(0, k as int)
                }),
            decreases ranges@.len() - k,
        {
            let r = ranges[k];
            requests.push(r);
            proof {
                if self.metadata_received {
                    assert(requests@ =~= ranges@.subrange(0, k + 1 as int));
                } else {
                    assert(requests@ =~= seq![(0u64, 0u64)] + ranges@.subrange(0, k + 1 as int));
                }
            }
            k = k + 1;
        }
        proof {
            if self.metadata_received {
                assert(requests@ =~= ranges@);
            } else {
                assert(requests@.skip(1) =~= ranges@);
            }
            assert(data_requests(requests@) =~= ranges@);
        }
        PDU {
            source: self.local,
            destination: self.peer,
            transaction: self.id,
            mode: self.mode,
            payload: PDUPayload::Nak { requests },
        }
    }

    /// Handles one inbound PDU of this transaction and returns the PDUs
    /// to send back to the peer. See each `matches` clause for the exact
    /// effect of each directive kind; re-delivery of an already-processed
    /// PDU never alters the stored file content or the condition.
    pub fn handle_pdu(&mut self, pdu: &PDU) -> (out: Vec<PDU>)
        requires
            old(self).wf(),
            pdu.transaction == old(self).id,
        ensures
            final(self).wf(),
            Self::same_identity(*old(self), *final(self)),
            old(self).phase is Closed ==> *final(self) == *old(self) && out@.len() == 0,
            // Metadata: recorded once; a duplicate changes nothing.
            pdu.payload is Metadata && !(old(self).phase is Closed) ==> ({
                let file_size = pdu.payload->Metadata_file_size;
                let destination_filename = pdu.payload->Metadata_destination_filename;
                let pre = *old(self);
                let post = *final(self);
                &&& (pre.metadata_received ==> post == pre && out@.len() == 0)
                &&& (!pre.metadata_received && file_size > MAX_FILE_SIZE ==> post.condition
                    is FileSizeError && post.phase is Closed && out@.len() == 0)
                &&& (!pre.metadata_received && file_size <= MAX_FILE_SIZE ==> {
                    &&& post.metadata_received
                    &&& post.declared_size == file_size
                    &&& post.destination_filename@ == destination_filename@
                    &&& post.data@ == grow_zeros(pre.data@, file_size as int)
                    &&& post.have@ == grow_false(pre.have@, file_size as int)
                    &&& post.eof_received == pre.eof_received && post.eof_size == pre.eof_size
                    &&& post.condition == pre.condition
                    &&& (post.complete() && pre.mode is Acknowledged && pre.phase is Transferring
                        ==> post.phase is Finished && out@ =~= seq![post.spec_finished()])
                    &&& (!(post.complete() && pre.mode is Acknowledged && pre.phase
                        is Transferring) ==> post.phase == pre.phase && out@.len() == 0)
                })
            }),
            // FileData: applied at its absolute offset; idempotent.
            pdu.payload is FileData && !(old(self).phase is Closed) ==> ({
                let offset = pdu.payload->FileData_offset;
                let seg = pdu.payload->FileData_data;
                let pre = *old(self);
                let post = *final(self);
                &&& (offset + seg@.len() > MAX_FILE_SIZE ==> post == pre && out@.len() == 0)
                &&& (offset + seg@.len() <= MAX_FILE_SIZE ==> {
                    let grown = grow_zeros(pre.data@, offset + seg@.len());
                    let grown_have = grow_false(pre.have@, offset + seg@.len());
                    &&& post.data@ == apply_bytes(grown, offset as int, seg@)
                    &&& post.have@ == mark_have(grown_have, offset as int, seg@.len() as int)
                    &&& post.condition == pre.condition
                    &&& post.metadata_received == pre.metadata_received
                    &&& post.eof_received == pre.eof_received && post.eof_size == pre.eof_size
                    &&& post.destination_filename == pre.destination_filename
                    &&& post.declared_size == pre.declared_size
                    &&& post.suspended == pre.suspended
                    &&& (post.complete() && pre.mode is Acknowledged && pre.phase is Transferring
                        ==> post.phase is Finished && post.ack_attempts == 0 && out@ =~= seq![
                        post.spec_finished(),
                    ])
                    &&& (!(post.complete() && pre.mode is Acknowledged && pre.phase
                        is Transferring) ==> post.phase == pre.phase && post.ack_attempts
                        == pre.ack_attempts && out@.len() == 0)
                })
            }),
            // EOF: acknowledged every time it arrives; the first one fixes
            // the file size; then either Finished (complete) or a NAK for
            // exactly the missing ranges.
            pdu.payload is EoF && !(old(self).phase is Closed) ==> ({
                let file_size = pdu.payload->EoF_file_size;
                let condition = pdu.payload->EoF_condition;
                let pre = *old(self);
                let post = *final(self);
                &&& (!(condition is NoError) ==> post.condition is CancelReceived && post.phase
                    is Closed && out@.len() == 0)
                &&& (condition is NoError && !pre.eof_received && file_size > MAX_FILE_SIZE
                    ==> post.condition is FileSizeError && post.phase is Closed && out@.len() == 0)
                &&& (condition is NoError && (pre.eof_received || file_size <= MAX_FILE_SIZE)
                    ==> {
                    &&& post.eof_received
                    &&& post.eof_size == (if pre.eof_received {
                        pre.eof_size
                    } else {
                        file_size
                    })
                    &&& post.condition == pre.condition
                    &&& post.metadata_received == pre.metadata_received
                    &&& post.data@ == grow_zeros(pre.data@, post.eof_size as int)
                    &&& post.have@ == grow_false(pre.have@, post.eof_size as int)
                    &&& (pre.mode is Unacknowledged ==> post.phase is Closed && out@.len() == 0)
                    &&& (pre.mode is Acknowledged ==> out@.len() >= 1 && out@[0]
                        == post.spec_ack_eof())
                    &&& (pre.mode is Acknowledged && post.complete() && pre.phase is Transferring
                        ==> post.phase is Finished && out@ =~= seq![
                        post.spec_ack_eof(),
                        post.spec_finished(),
                    ])
                    &&& (pre.mode is Acknowledged && !post.complete() && pre.phase
                        is Transferring ==> post.phase is Transferring && out@.len() == 2 && (
                    out@[1].payload matches PDUPayload::Nak { requests } && post.nak_correct(
                        requests@,
                    )) && out@[1].source == post.local && out@[1].destination == post.peer
                        && out@[1].transaction == post.id && out@[1].mode == post.mode)
                    &&& (pre.mode is Acknowledged && !(pre.phase is Transferring) ==> post.phase
                        == pre.phase && out@.len() == 1)
                })
            }),
            // The acknowledgment of Finished closes the machine; anything
            // else directed the wrong way is ignored.
            pdu.payload is Ack && !(old(self).phase is Closed) ==> ({
                let directive = pdu.payload->Ack_directive;
                let pre = *old(self);
                let post = *final(self);
                &&& out@.len() == 0
                &&& (directive is Finished && pre.phase is Finished ==> post.phase is Closed
                    && post.condition == pre.condition && post.data@ == pre.data@)
                &&& (!(directive is Finished && pre.phase is Finished) ==> post == pre)
            }),
            pdu.payload is Finished && !(old(self).phase is Closed)
                ==> *final(self) == *old(self) && out@.len() == 0,
            pdu.payload is Nak && !(old(self).phase is Closed)
                ==> *final(self) == *old(self) && out@.len() == 0,
    {
        let mut out: Vec<PDU> = Vec::new();
        if matches!(self.phase, TransactionPhase::Closed) {
            return out;
        }
        match &pdu.payload {
            PDUPayload::Metadata { file_size, destination_filename } => {
                if !self.metadata_received {
                    if *file_size > MAX_FILE_SIZE as u64 {
                        self.condition = Condition::FileSizeError;
                        self.phase = TransactionPhase::Closed;
                    } else {
                        self.metadata_received = true;
                        self.declared_size = *file_size;
                        self.destination_filename = destination_filename.clone();
                        let n = *file_size as usize;
                        let ghost pre_data = self.data@;
                        let ghost pre_have = self.have@;
                        ensure_len(&mut self.data, &mut self.have, n);
                        proof {
                            assert(self.data@ =~= grow_zeros(pre_data, n as int));
                            assert(self.have@ =~= grow_false(pre_have, n as int));
                        }
                        if matches!(self.mode, TransmissionMode::Acknowledged) && matches!(
                            self.phase,
                            TransactionPhase::Transferring,
                        ) && self.is_complete() {
                            self.phase = TransactionPhase::Finished;
                            self.ack_attempts = 0;
                            out.push(self.finished_pdu());
                        }
                    }
                }
            },
            PDUPayload::FileData { offset, data: seg } => {
                let cap = MAX_FILE_SIZE as u64;
                if *offset <= cap && (seg.len() as u64) <= cap - *offset {
                    let end = (*offset as usize) + seg.len();
                    let ghost pre_data = self.data@;
                    let ghost pre_have = self.have@;
                    ensure_len(&mut self.data, &mut self.have, end);
                    proof {
                        assert(self.data@ =~= grow_zeros(pre_data, end as int));
                        assert(self.have@ =~= grow_false(pre_have, end as int));
                    }
                    apply_segment(&mut self.data, &mut self.have, *offset as usize, seg);
                    if matches!(self.mode, TransmissionMode::Acknowledged) && matches!(
                        self.phase,
                        TransactionPhase::Transferring,
                    ) && self.is_complete() {
                        self.phase = TransactionPhase::Finished;
                        self.ack_attempts = 0;
                        out.push(self.finished_pdu());
                    }
                }
            },
            PDUPayload::EoF { file_size, condition } => {
                if !matches!(condition, Condition::NoError) {
                    self.condition = Condition::CancelReceived;
                    self.phase = TransactionPhase::Closed;
                } else if !self.eof_received && *file_size > MAX_FILE_SIZE as u64 {
                    self.condition = Condition::FileSizeError;
                    self.phase = TransactionPhase::Closed;
                } else {
                    if !self.eof_received {
                        self.eof_received = true;
                        self.eof_size = *file_size;
                    }
                    let n = self.eof_size as usize;
                    let ghost pre_data = self.data@;
                    let ghost pre_have = self.have@;
                    ensure_len(&mut self.data, &mut self.have, n);
                    proof {
                        assert(self.data@ =~= grow_zeros(pre_data, n as int));
                        assert(self.have@ =~= grow_false(pre_have, n as int));
                    }
                    if matches!(self.mode, TransmissionMode::Unacknowledged) {
                        self.phase = TransactionPhase::Closed;
                    } else {
                        out.push(self.ack_eof_pdu());
                        if matches!(self.phase, TransactionPhase::Transferring) {
                            if self.is_complete() {
                                self.phase = TransactionPhase::Finished;
                                self.ack_attempts = 0;
                                out.push(self.finished_pdu());
                            } else {
                                out.push(self.build_nak());
                            }
                        }
                    }
                }
            },
            PDUPayload::Ack { directive, .. } => {
                if matches!(directive, PDUDirective::Finished) && matches!(
                    self.phase,
                    TransactionPhase::Finished,
                ) {
                    self.phase = TransactionPhase::Closed;
                }
            },
            PDUPayload::Finished { .. } => {},
            PDUPayload::Nak { .. } => {},
        }
        out
    }

    /// Builds the acknowledgment of EOF.
    fn ack_eof_pdu(&self) -> (r: PDU)
        ensures
            r == self.spec_ack_eof(),
    {
        PDU {
            source: self.local,
            destination: self.peer,
            transaction: self.id,
            mode: self.mode,
            payload: PDUPayload::Ack {
                directive: PDUDirective::EoF,
                condition: Condition::NoError,
            },
        }
    }

    /// Builds the Finished PDU.
    fn finished_pdu(&self) -> (r: PDU)
        ensures
            r == self.spec_finished(),
    {
        PDU {
            source: self.local,
            destination: self.peer,
            transaction: self.id,
            mode: self.mode,
            payload: PDUPayload::Finished { condition: Condition::NoError },
        }
    }

    /// The negative-acknowledgment timer fired: while file data is still
    /// owed after EOF, ask again for exactly what is missing.
    pub fn on_nak_timeout(&mut self) -> (out: Vec<PDU>)
        requires
            old(self).wf(),
        ensures
            final(self).wf(),
            *final(self) == *old(self),
            ({
                let m = *old(self);
                if !m.suspended && m.mode is Acknowledged && m.phase is Transferring
                    && m.eof_received && !m.complete() {
                    out@.len() == 1 && (out@[0].payload matches PDUPayload::Nak { requests }
                        && m.nak_correct(requests@)) && out@[0].source == m.local
                        && out@[0].destination == m.peer && out@[0].transaction == m.id
                        && out@[0].mode == m.mode
                } else {
                    out@.len() == 0
                }
            }),
    {
        let mut out: Vec<PDU> = Vec::new();
        if !self.suspended && matches!(self.mode, TransmissionMode::Acknowledged) && matches!(
            self.phase,
            TransactionPhase::Transferring,
        ) && self.eof_received && !self.is_complete() {
            out.push(self.build_nak());
        }
        out
    }

    /// The acknowledgment timer for Finished fired: retransmit Finished,
    /// or fault with `PositiveLimitReached` once the configured limit is
    /// exhausted.
    pub fn on_ack_timeout(&mut self) -> (out: Vec<PDU>)
        requires
            old(self).wf(),
        ensures
            final(self).wf(),
            Self::same_identity(*old(self), *final(self)),
            final(self).data@ == old(self).data@,
            ({
                let pre = *old(self);
                let post = *final(self);
                if !pre.suspended && pre.mode is Acknowledged && pre.phase is Finished {
                    if pre.ack_attempts >= pre.config.ack_limit {
                        &&& post.condition is PositiveLimitReached
                        &&& post.phase is Closed
                        &&& out@.len() == 0
                    } else {
                        &&& post.ack_attempts == pre.ack_attempts + 1
                        &&& post.phase == pre.phase
                        &&& post.condition == pre.condition
                        &&& out@ =~= seq![post.spec_finished()]
                    }
                } else {
                    post == pre && out@.len() == 0
                }
            }),
    {
        let mut out: Vec<PDU> = Vec::new();
        if !self.suspended && matches!(self.mode, TransmissionMode::Acknowledged) && matches!(
            self.phase,
            TransactionPhase::Finished,
        ) {
            if self.ack_attempts >= self.config.ack_limit {
                self.condition = Condition::PositiveLimitReached;
                self.phase = TransactionPhase::Closed;
            } else {
                self.ack_attempts = self.ack_attempts + 1;
                out.push(self.finished_pdu());
            }
        }
        out
    }

    /// A user cancel: terminal for this transfer.
    pub fn cancel(&mut self)
        requires
            old(self).wf(),
        ensures
            final(self).wf(),
            Self::same_identity(*old(self), *final(self)),
            final(self).data@ == old(self).data@,
            old(self).phase is Closed ==> *final(self) == *old(self),
            !(old(self).phase is Closed) ==> (final(self).condition is CancelReceived
                && final(self).phase is Closed),
    {
        if !matches!(self.phase, TransactionPhase::Closed) {
            self.condition = Condition::CancelReceived;
            self.phase = TransactionPhase::Closed;
        }
    }

    /// Pauses the timers; inbound PDUs are still applied.
    pub fn suspend(&mut self)
        requires
            old(self).wf(),
        ensures
            final(self).wf(),
            *final(self) == (Self { suspended: true, ..*old(self) }),
    {
        self.suspended = true;
    }

    /// Resumes the timers.
    pub fn resume(&mut self)
        requires
            old(self).wf(),
        ensures
            final(self).wf(),
            *final(self) == (Self { suspended: false, ..*old(self) }),
    {
        self.suspended = false;
    }
}

} // verus!
