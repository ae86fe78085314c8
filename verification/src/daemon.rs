//! The process-wide coordinator's decision logic: sequence-number
//! assignment, demultiplexing of inbound PDUs by transaction, routing of
//! outbound PDUs to the transport that owns the destination entity, and
//! the daemon's error taxonomy. The threads, channels and workers that
//! carry these decisions out live outside this crate.

use vstd::prelude::*;

use crate::pdu::{EntityID, PDUDirective, TransactionID, PDU};
use crate::sender::SendTransaction;
use crate::transaction::{Command, PutRequest, TransactionConfig};
use crate::MAX_FILE_SIZE;

verus! {

/// Failure of the filestore collaborator while preparing a transfer.
#[derive(Clone, Copy, PartialEq, Eq, Structural, Debug)]
pub enum FileStoreError {
    /// The source file could not be read.
    SourceUnreadable,
    /// The source file does not fit the engine's size cap.
    FileTooLarge,
}

/// An error the daemon reports upward rather than retries.
#[derive(Clone, Debug)]
pub enum DaemonError {
    /// A sender worker could not be spawned because the filestore could
    /// not provide the source file; only that one transfer is lost.
    SpawnSend(FileStoreError),
    /// A command could not be delivered to a transaction whose channel
    /// is already closed; the undelivered command is carried along.
    TransactionCommunication(TransactionID, Command),
}

impl From<(TransactionID, Command)> for DaemonError {
    /// An undeliverable command becomes the communication error that
    /// carries it.
    fn from(value: (TransactionID, Command)) -> (r: Self) {
        DaemonError::TransactionCommunication(value.0, value.1)
    }
}

impl vstd::std_specs::convert::FromSpecImpl<(TransactionID, Command)> for DaemonError {
    open spec fn obeys_from_spec() -> bool {
        true
    }

    open spec fn from_spec(value: (TransactionID, Command)) -> Self {
        DaemonError::TransactionCommunication(value.0, value.1)
    }
}

/// What the daemon does with one inbound PDU.
#[derive(Clone, Copy, PartialEq, Eq, Structural, Debug)]
pub enum DispatchAction {
    /// A transaction is active for the PDU: deliver it to the worker at
    /// this index.
    Deliver(usize),
    /// No transaction is active and the PDU opens a transfer: spawn a
    /// receiving worker and deliver the PDU to it.
    SpawnReceiver,
    /// No transaction is active and the PDU does not open a transfer:
    /// drop it; no active transaction is disturbed.
    Drop,
}

/// The daemon's view of which transactions are active, in worker order.
pub struct TransactionRegistry {
    /// The local entity that put requests originate from.
    pub local: EntityID,
    /// The transactions currently owned by a worker; index is the worker slot.
    pub active: Vec<TransactionID>,
    /// The sequence number the next put request will take.
    pub next_number: u64,
}

impl TransactionRegistry {
    /// Whether `id` is active.
    pub open spec fn spec_tracks(&self, id: TransactionID) -> bool {
        exists|k: int| 0 <= k < self.active@.len() && self.active@[k] == id
    }

    /// A fresh registry tracking nothing.
    pub fn new(local: EntityID) -> (r: Self)
        ensures
            r.local == local,
            r.active@.len() == 0,
            r.next_number == 0,
    {
        TransactionRegistry { local, active: Vec::new(), next_number: 0 }
    }

    /// Assigns the transaction identifier for a newly accepted put
    /// request: the local entity plus a sequence number that is used
    /// once and never again, and records it as active. Fails only once
    /// the sequence-number space of the whole process life is exhausted.
    pub fn assign(&mut self) -> (id: TransactionID)
        requires
            old(self).next_number < u64::MAX,
        ensures
            id == (TransactionID { source: old(self).local, number: old(self).next_number }),
            final(self).next_number == old(self).next_number + 1,
            final(self).local == old(self).local,
            final(self).active@ == old(self).active@.push(id),
    {
        let id = TransactionID { source: self.local, number: self.next_number };
        self.next_number = self.next_number + 1;
        self.active.push(id);
        id
    }

    /// Accepts a put request: assigns a fresh transaction identifier and
    /// spawns the sending machine, initialized from the request and the
    /// source file's content that the filestore provided. Succeeds for
    /// every file within the engine's size cap; a larger file is refused
    /// as a spawn error, and only that one transfer is lost.
    pub fn submit(
        &mut self,
        request: &PutRequest,
        file: Vec<u8>,
        config: TransactionConfig,
    ) -> (r: Result<(TransactionID, SendTransaction), DaemonError>)
        requires
            old(self).next_number < u64::MAX,
            config.valid(),
        ensures
            file@.len() > MAX_FILE_SIZE ==> ({
                &&& r matches Err(e) && e matches DaemonError::SpawnSend(f) && f is FileTooLarge
                &&& *final(self) == *old(self)
            }),
            file@.len() <= MAX_FILE_SIZE ==> ({
                let id = TransactionID { source: old(self).local, number: old(self).next_number };
                &&& r matches Ok(p) && p.0 == id && p.1.id == id
                &&& (r matches Ok(p) ==> {
                    &&& p.1.wf()
                    &&& p.1.peer == request.destination_entity_id
                    &&& p.1.local == old(self).local
                    &&& p.1.mode == request.transmission_mode
                    &&& p.1.config == config
                    &&& p.1.file@ == file@
                    &&& p.1.destination_filename@ == request.destination_filename@
                    &&& p.1.phase is Start
                    &&& p.1.condition is NoError
                })
                &&& final(self).next_number == old(self).next_number + 1
                &&& final(self).local == old(self).local
                &&& final(self).active@ == old(self).active@.push(id)
            }),
    {
        if file.len() > MAX_FILE_SIZE {
            return Err(DaemonError::SpawnSend(FileStoreError::FileTooLarge));
        }
        let id = self.assign();
        let sender = SendTransaction::new(
            id,
            request.destination_entity_id,
            self.local,
            request.transmission_mode,
            config,
            file,
            request.destination_filename.clone(),
        );
        Ok((id, sender))
    }

    /// Records a transaction spawned for an inbound PDU as active.
    pub fn track(&mut self, id: TransactionID)
        ensures
            final(self).active@ == old(self).active@.push(id),
            final(self).local == old(self).local,
            final(self).next_number == old(self).next_number,
    {
        self.active.push(id);
    }

    /// Forgets a transaction whose worker reached a terminal state and
    /// was reaped; later PDUs for it will be dropped.
    pub fn untrack(&mut self, id: TransactionID)
        ensures
            final(self).local == old(self).local,
            final(self).next_number == old(self).next_number,
            !final(self).spec_tracks(id),
            forall|x: TransactionID| final(self).spec_tracks(x) ==> old(self).spec_tracks(x),
            forall|x: TransactionID|
                old(self).spec_tracks(x) && x != id ==> final(self).spec_tracks(x),
    {
        let mut kept: Vec<TransactionID> = Vec::new();
        let mut k: usize = 0;
        while k < self.active.len()
            invariant
                k <= self.active@.len(),
                forall|j: int|
                    0 <= j < kept@.len() ==> (#[trigger] kept@[j]) != id && exists|m: int|
                        0 <= m < self.active@.len() && self.active@[m] == kept@[j],
                forall|m: int|
                    0 <= m < k && (#[trigger] self.active@[m]) != id ==> exists|j: int|
                        0 <= j < kept@.len() && kept@[j] == self.active@[m],
            decreases self.active@.len() - k,
        {
            let t = self.active[k];
            if !(t.source == id.source && t.number == id.number) {
                let ghost old_kept = kept@;
                kept.push(t);
                proof {
                    assert forall|m: int|
                        0 <= m < k + 1 && (#[trigger] self.active@[m]) != id implies exists|j: int|
                        0 <= j < kept@.len() && kept@[j] == self.active@[m] by {
                        if m < k {
                            let j = choose|j: int|
                                0 <= j < old_kept.len() && old_kept[j] == self.active@[m];
                            assert(kept@[j] == self.active@[m]);
                        } else {
                            assert(kept@[kept@.len() - 1] == self.active@[m]);
                        }
                    }
                }
            }
            k = k + 1;
        }
        let ghost pre = *self;
        let ghost kseq = kept@;
        proof {
            assert(forall|m: int|
                0 <= m < pre.active@.len() && (#[trigger] pre.active@[m]) != id ==> exists|j: int|
                    0 <= j < kseq.len() && kseq[j] == pre.active@[m]);
            assert(forall|j: int|
                0 <= j < kseq.len() ==> (#[trigger] kseq[j]) != id && exists|m: int|
                    0 <= m < pre.active@.len() && pre.active@[m] == kseq[j]);
        }
        self.active = kept;
        proof {
            assert(self.active@ == kseq);
            assert(!self.spec_tracks(id)) by {
                if self.spec_tracks(id) {
                    let j = choose|j: int| 0 <= j < kseq.len() && kseq[j] == id;
                    assert(kseq[j] != id);
                }
            }
            assert forall|x: TransactionID| pre.spec_tracks(x) && x != id implies self.spec_tracks(
                x,
            ) by {
                let m = choose|m: int| 0 <= m < pre.active@.len() && pre.active@[m] == x;
                assert(exists|j: int| 0 <= j < kseq.len() && kseq[j] == pre.active@[m]);
            }
            assert forall|x: TransactionID| self.spec_tracks(x) implies pre.spec_tracks(x) by {
                let j = choose|j: int| 0 <= j < kseq.len() && kseq[j] == x;
                assert(exists|m: int| 0 <= m < pre.active@.len() && pre.active@[m] == kseq[j]);
            }
        }
    }

    /// Whether a transaction is currently tracked; a report request for
    /// an untracked transaction is answered with nothing — the transfer
    /// has already finished and been reaped, which is not an error.
    pub fn tracks(&self, id: TransactionID) -> (r: bool)
        ensures
            r == self.spec_tracks(id),
    {
        let mut k: usize = 0;
        while k < self.active.len()
            invariant
                k <= self.active@.len(),
                forall|j: int| 0 <= j < k ==> self.active@[j] != id,
            decreases self.active@.len() - k,
        {
            let t = self.active[k];
            if t.source == id.source && t.number == id.number {
                return true;
            }
            k = k + 1;
        }
        false
    }

    /// Demultiplexes one inbound PDU: deliver to the active worker, or
    /// spawn a receiver for an untracked Metadata PDU, or drop — the one
    /// choice the protocol allows for each case, leaving every active
    /// transaction undisturbed.
    pub fn dispatch(&self, pdu: &PDU) -> (r: DispatchAction)
        ensures
            r matches DispatchAction::Deliver(k) ==> (k < self.active@.len()
                && self.active@[k as int] == pdu.transaction),
            r is SpawnReceiver ==> !self.spec_tracks(pdu.transaction) && pdu.payload is Metadata,
            r is Drop ==> !self.spec_tracks(pdu.transaction) && !(pdu.payload is Metadata),
            self.spec_tracks(pdu.transaction) ==> r is Deliver,
    {
        let mut k: usize = 0;
        while k < self.active.len()
            invariant
                k <= self.active@.len(),
                forall|j: int| 0 <= j < k ==> self.active@[j] != pdu.transaction,
            decreases self.active@.len() - k,
        {
            let t = self.active[k];
            if t.source == pdu.transaction.source && t.number == pdu.transaction.number {
                return DispatchAction::Deliver(k);
            }
            k = k + 1;
        }
        if matches!(pdu.payload.directive(), PDUDirective::Metadata) {
            DispatchAction::SpawnReceiver
        } else {
            DispatchAction::Drop
        }
    }
}

/// Two transaction identifiers assigned at different points of the
/// registry's life never collide: the sequence number only grows, so an
/// identifier is never reused while the process is alive.
pub proof fn lemma_assigned_ids_unique(local: EntityID, a: u64, b: u64)
    requires
        a != b,
    ensures
        (TransactionID { source: local, number: a }) != (TransactionID {
            source: local,
            number: b,
        }),
{
}

/// The read-only table from destination entity to the transport that
/// owns it. A transport handle is an index into the daemon's transport
/// set; one transport may serve many entities.
pub struct RoutingTable {
    pub entries: Vec<(EntityID, usize)>,
}

impl RoutingTable {
    /// Whether some entry maps `dest`.
    pub open spec fn spec_maps(&self, dest: EntityID) -> bool {
        exists|k: int| 0 <= k < self.entries@.len() && (#[trigger] self.entries@[k]).0 == dest
    }

    /// Looks up which transport owns the destination entity; an unmapped
    /// destination is an address-not-found error at the caller.
    pub fn route(&self, dest: EntityID) -> (r: Option<usize>)
        ensures
            r is Some <==> self.spec_maps(dest),
            r matches Some(t) ==> exists|k: int|
                0 <= k < self.entries@.len() && (#[trigger] self.entries@[k]) == (dest, t),
    {
        let mut k: usize = 0;
        while k < self.entries.len()
            invariant
                k <= self.entries@.len(),
                forall|j: int| 0 <= j < k ==> (#[trigger] self.entries@[j]).0 != dest,
            decreases self.entries@.len() - k,
        {
            let e = self.entries[k];
            if e.0 == dest {
                return Some(e.1);
            }
            k = k + 1;
        }
        None
    }
}

} // verus!
