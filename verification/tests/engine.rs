//! End-to-end exercises of the transfer engine: a sender machine and a
//! receiver machine joined by an in-memory network that can drop chosen
//! PDUs, with the daemon's dispatch rules in between and timers fired
//! whenever the network goes quiet.

use cfdp_core::daemon::{DispatchAction, TransactionRegistry};
use cfdp_core::pdu::{Condition, PDUDirective, PDUPayload, TransactionID, TransmissionMode, PDU};
use cfdp_core::receiver::RecvTransaction;
use cfdp_core::sender::SendTransaction;
use cfdp_core::transaction::{PutRequest, TransactionConfig, TransactionPhase};

/// Which PDUs one direction of the network loses.
#[derive(Clone)]
enum Loss {
    /// Nothing is lost.
    Nothing,
    /// The first instance of this directive kind is lost.
    Once(PDUDirective),
    /// The first instance of every directive kind is lost.
    EachOnce,
    /// Every instance of these directive kinds is lost, forever.
    All(Vec<PDUDirective>),
}

/// One direction of the network: applies its loss rule on send.
struct Link {
    rule: Loss,
    dropped_kinds: Vec<PDUDirective>,
    queue: Vec<PDU>,
}

impl Link {
    fn new(rule: Loss) -> Self {
        Link { rule, dropped_kinds: Vec::new(), queue: Vec::new() }
    }

    fn send(&mut self, pdu: PDU) {
        let kind = pdu.directive();
        let drop_it = match &self.rule {
            Loss::Nothing => false,
            Loss::Once(k) => {
                if *k == kind && !self.dropped_kinds.contains(&kind) {
                    self.dropped_kinds.push(kind);
                    true
                } else {
                    false
                }
            }
            Loss::EachOnce => {
                if !self.dropped_kinds.contains(&kind) {
                    self.dropped_kinds.push(kind);
                    true
                } else {
                    false
                }
            }
            Loss::All(kinds) => kinds.contains(&kind),
        };
        if !drop_it {
            self.queue.push(pdu);
        }
    }

    fn recv(&mut self) -> Option<PDU> {
        if self.queue.is_empty() {
            None
        } else {
            Some(self.queue.remove(0))
        }
    }
}

const LOCAL: u64 = 0;
const REMOTE: u64 = 1;

fn config() -> TransactionConfig {
    TransactionConfig { ack_limit: 3, segment_size: 16 }
}

/// The whole world of one transfer: sender at the local entity, receiver
/// side at the remote entity, one lossy link per direction.
struct World {
    sender: SendTransaction,
    to_remote: Link,
    to_local: Link,
    remote_registry: TransactionRegistry,
    receiver: Option<RecvTransaction>,
}

impl World {
    fn new(file: Vec<u8>, mode: TransmissionMode, s2r: Loss, r2s: Loss) -> Self {
        let mut local_registry = TransactionRegistry::new(LOCAL);
        let request = PutRequest {
            source_filename: String::from("local/medium.txt"),
            destination_filename: String::from("remote/medium.txt"),
            destination_entity_id: REMOTE,
            transmission_mode: mode,
            filestore_requests: Vec::new(),
            message_to_user: Vec::new(),
        };
        let (_id, sender) = local_registry
            .submit(&request, file, config())
            .expect("the put request was refused");
        World {
            sender,
            to_remote: Link::new(s2r),
            to_local: Link::new(r2s),
            remote_registry: TransactionRegistry::new(REMOTE),
            receiver: None,
        }
    }

    fn start(&mut self) {
        let out = self.sender.start();
        for p in out {
            self.to_remote.send(p);
        }
    }

    /// Delivers queued PDUs both ways until the network is quiet.
    fn drain(&mut self) {
        loop {
            let mut moved = false;
            if let Some(p) = self.to_remote.recv() {
                moved = true;
                match self.remote_registry.dispatch(&p) {
                    DispatchAction::Deliver(_) => {
                        if let Some(r) = self.receiver.as_mut() {
                            let out = r.handle_pdu(&p);
                            for q in out {
                                self.to_local.send(q);
                            }
                        }
                    }
                    DispatchAction::SpawnReceiver => {
                        let mut r = RecvTransaction::new(
                            p.transaction,
                            p.source,
                            REMOTE,
                            p.mode,
                            config(),
                        );
                        self.remote_registry.track(p.transaction);
                        let out = r.handle_pdu(&p);
                        self.receiver = Some(r);
                        for q in out {
                            self.to_local.send(q);
                        }
                    }
                    DispatchAction::Drop => {}
                }
            }
            if let Some(p) = self.to_local.recv() {
                moved = true;
                if p.transaction == self.sender.id {
                    let out = self.sender.handle_pdu(&p);
                    for q in out {
                        self.to_remote.send(q);
                    }
                }
            }
            if !moved {
                break;
            }
        }
    }

    /// One quiet-network timer round: every private timer fires once.
    fn fire_timers(&mut self) {
        let out = self.sender.on_ack_timeout();
        for p in out {
            self.to_remote.send(p);
        }
        if let Some(r) = self.receiver.as_mut() {
            let out = r.on_nak_timeout();
            for p in out {
                self.to_local.send(p);
            }
            let out = r.on_ack_timeout();
            for p in out {
                self.to_local.send(p);
            }
        }
    }

    fn settled(&self) -> bool {
        let sender_done = matches!(self.sender.phase, TransactionPhase::Closed);
        let receiver_done = match &self.receiver {
            Some(r) => matches!(r.phase, TransactionPhase::Closed),
            None => true,
        };
        sender_done && receiver_done
    }

    /// Drains the network and fires timers until quiescent, within a
    /// bounded number of timer rounds.
    fn finish(&mut self, rounds: usize) {
        self.drain();
        let mut round = 0;
        while round < rounds && !self.settled() {
            self.fire_timers();
            self.drain();
            round += 1;
        }
    }

    /// Runs the transfer to quiescence within a bounded number of timer
    /// rounds.
    fn run(&mut self, rounds: usize) {
        self.start();
        self.finish(rounds);
    }
}

fn medium_file() -> Vec<u8> {
    let mut f = Vec::new();
    let mut i = 0u32;
    while f.len() < 600 {
        f.push((i % 251) as u8);
        i += 1;
    }
    f
}

fn assert_delivered(world: &World, file: &[u8]) {
    let r = world.receiver.as_ref().expect("no receiver was spawned");
    assert!(r.is_complete());
    assert_eq!(r.delivered_file(), file.to_vec());
    assert_eq!(r.destination_filename, String::from("remote/medium.txt"));
}

#[test]
fn lossless_transfer_acknowledged() {
    let file = medium_file();
    let mut w = World::new(file.clone(), TransmissionMode::Acknowledged, Loss::Nothing, Loss::Nothing);
    w.run(10);
    assert!(w.settled());
    assert_delivered(&w, &file);
    assert_eq!(w.sender.condition, Condition::NoError);
    let r = w.receiver.as_ref().unwrap();
    assert_eq!(r.condition, Condition::NoError);
}

#[test]
fn recovers_from_lost_metadata() {
    let file = medium_file();
    let mut w = World::new(
        file.clone(),
        TransmissionMode::Acknowledged,
        Loss::Once(PDUDirective::Metadata),
        Loss::Nothing,
    );
    w.run(10);
    assert!(w.settled());
    assert_delivered(&w, &file);
    assert_eq!(w.sender.condition, Condition::NoError);
}

#[test]
fn recovers_from_lost_eof() {
    let file = medium_file();
    let mut w = World::new(
        file.clone(),
        TransmissionMode::Acknowledged,
        Loss::Once(PDUDirective::EoF),
        Loss::Nothing,
    );
    w.run(10);
    assert!(w.settled());
    assert_delivered(&w, &file);
    assert_eq!(w.sender.condition, Condition::NoError);
}

#[test]
fn recovers_from_lost_file_data() {
    let file = medium_file();
    let mut w = World::new(
        file.clone(),
        TransmissionMode::Acknowledged,
        Loss::Once(PDUDirective::FileData),
        Loss::Nothing,
    );
    w.run(10);
    assert!(w.settled());
    assert_delivered(&w, &file);
}

#[test]
fn recovers_from_lost_finished() {
    let file = medium_file();
    let mut w = World::new(
        file.clone(),
        TransmissionMode::Acknowledged,
        Loss::Nothing,
        Loss::Once(PDUDirective::Finished),
    );
    w.run(10);
    assert!(w.settled());
    assert_delivered(&w, &file);
    assert_eq!(w.sender.condition, Condition::NoError);
}

#[test]
fn recovers_from_lost_ack_of_eof() {
    let file = medium_file();
    let mut w = World::new(
        file.clone(),
        TransmissionMode::Acknowledged,
        Loss::Nothing,
        Loss::Once(PDUDirective::Ack),
    );
    w.run(10);
    assert!(w.settled());
    assert_delivered(&w, &file);
    assert_eq!(w.sender.condition, Condition::NoError);
}

#[test]
fn recovers_from_lost_ack_of_finished() {
    let file = medium_file();
    let mut w = World::new(
        file.clone(),
        TransmissionMode::Acknowledged,
        Loss::Once(PDUDirective::Ack),
        Loss::Nothing,
    );
    w.run(10);
    assert!(w.settled());
    assert_delivered(&w, &file);
    assert_eq!(w.sender.condition, Condition::NoError);
}

#[test]
fn recovers_from_noisy_both_directions() {
    let file = medium_file();
    let mut w = World::new(
        file.clone(),
        TransmissionMode::Acknowledged,
        Loss::EachOnce,
        Loss::EachOnce,
    );
    w.run(20);
    assert!(w.settled());
    assert_delivered(&w, &file);
}

#[test]
fn ack_limit_reached_when_all_acks_lost() {
    let file = medium_file();
    let mut w = World::new(
        file.clone(),
        TransmissionMode::Acknowledged,
        Loss::Nothing,
        Loss::All(vec![PDUDirective::Ack, PDUDirective::Finished]),
    );
    w.run(20);
    // The file still arrives whole at the destination.
    assert_delivered(&w, &file);
    // But the sender, never acknowledged, exhausts its retry budget and
    // surfaces exactly this condition rather than hanging.
    let report = w.sender.report();
    assert_eq!(report.condition, Condition::PositiveLimitReached);
    assert_eq!(w.sender.phase, TransactionPhase::Closed);
}

#[test]
fn unknown_transaction_non_metadata_is_dropped() {
    let file = medium_file();
    let mut w = World::new(file.clone(), TransmissionMode::Acknowledged, Loss::Nothing, Loss::Nothing);
    w.start();
    w.drain();
    // A stray PDU for a transaction nobody tracks, not a Metadata
    // directive: the remote daemon must drop it.
    let stray = PDU {
        source: 7,
        destination: REMOTE,
        transaction: TransactionID { source: 7, number: 99 },
        mode: TransmissionMode::Acknowledged,
        payload: PDUPayload::FileData { offset: 0, data: vec![1, 2, 3] },
    };
    let action = w.remote_registry.dispatch(&stray);
    assert_eq!(action, DispatchAction::Drop);
    // The in-flight transfer is undisturbed and still completes.
    w.finish(10);
    assert!(w.settled());
    assert_delivered(&w, &file);
    assert_eq!(w.sender.condition, Condition::NoError);
}

#[test]
fn redelivery_of_applied_segment_changes_nothing() {
    let file = medium_file();
    let mut w = World::new(file.clone(), TransmissionMode::Acknowledged, Loss::Nothing, Loss::Nothing);
    w.run(10);
    assert_delivered(&w, &file);
    let r = w.receiver.as_mut().unwrap();
    let before_file = r.delivered_file();
    let before_condition = r.condition;
    // Re-deliver an already-applied segment and already-processed
    // control PDUs.
    let id = r.id;
    let dup_data = PDU {
        source: LOCAL,
        destination: REMOTE,
        transaction: id,
        mode: TransmissionMode::Acknowledged,
        payload: PDUPayload::FileData { offset: 32, data: file[32..64].to_vec() },
    };
    r.handle_pdu(&dup_data);
    let dup_meta = PDU {
        source: LOCAL,
        destination: REMOTE,
        transaction: id,
        mode: TransmissionMode::Acknowledged,
        payload: PDUPayload::Metadata {
            file_size: file.len() as u64,
            destination_filename: String::from("remote/medium.txt"),
        },
    };
    r.handle_pdu(&dup_meta);
    let dup_eof = PDU {
        source: LOCAL,
        destination: REMOTE,
        transaction: id,
        mode: TransmissionMode::Acknowledged,
        payload: PDUPayload::EoF { file_size: file.len() as u64, condition: Condition::NoError },
    };
    r.handle_pdu(&dup_eof);
    assert_eq!(r.delivered_file(), before_file);
    assert_eq!(r.condition, before_condition);
    // The sender likewise shrugs off a re-delivered Finished: it only
    // re-acknowledges.
    let before_sender_condition = w.sender.condition;
    let dup_finished = PDU {
        source: REMOTE,
        destination: LOCAL,
        transaction: w.sender.id,
        mode: TransmissionMode::Acknowledged,
        payload: PDUPayload::Finished { condition: Condition::NoError },
    };
    let out = w.sender.handle_pdu(&dup_finished);
    assert_eq!(out.len(), 1);
    assert_eq!(out[0].directive(), PDUDirective::Ack);
    assert_eq!(w.sender.condition, before_sender_condition);
}

#[test]
fn unacknowledged_lossless_delivers_everything() {
    let file = medium_file();
    let mut w = World::new(file.clone(), TransmissionMode::Unacknowledged, Loss::Nothing, Loss::Nothing);
    w.run(5);
    assert!(w.settled());
    let r = w.receiver.as_ref().unwrap();
    assert!(r.is_complete());
    assert_eq!(r.delivered_file(), file);
    assert_eq!(w.sender.phase, TransactionPhase::Closed);
    assert_eq!(w.sender.condition, Condition::NoError);
}

#[test]
fn unacknowledged_loss_is_best_effort() {
    let file = medium_file();
    let mut w = World::new(
        file.clone(),
        TransmissionMode::Unacknowledged,
        Loss::Once(PDUDirective::FileData),
        Loss::Nothing,
    );
    w.run(5);
    assert!(w.settled());
    let r = w.receiver.as_ref().unwrap();
    // No retransmission: the transfer closed with a gap left in place.
    assert!(!r.is_complete());
    assert_eq!(r.phase, TransactionPhase::Closed);
    assert_eq!(r.delivered_file().len(), file.len());
}

#[test]
fn empty_file_transfer() {
    let file: Vec<u8> = Vec::new();
    let mut w = World::new(file.clone(), TransmissionMode::Acknowledged, Loss::Nothing, Loss::Nothing);
    w.run(10);
    assert!(w.settled());
    assert_delivered(&w, &file);
}

#[test]
fn file_of_exact_segment_multiple() {
    let file: Vec<u8> = (0u8..=255).collect::<Vec<u8>>().repeat(2);
    assert_eq!(file.len() % 16, 0);
    let mut w = World::new(file.clone(), TransmissionMode::Acknowledged, Loss::Nothing, Loss::Nothing);
    w.run(10);
    assert!(w.settled());
    assert_delivered(&w, &file);
}

#[test]
fn cancel_is_terminal() {
    let file = medium_file();
    let mut w = World::new(file, TransmissionMode::Acknowledged, Loss::Nothing, Loss::Nothing);
    w.start();
    w.sender.cancel();
    assert_eq!(w.sender.phase, TransactionPhase::Closed);
    assert_eq!(w.sender.condition, Condition::CancelReceived);
    let report = w.sender.report();
    assert_eq!(report.condition, Condition::CancelReceived);
}

#[test]
fn suspend_pauses_timers_resume_restores_them() {
    let file = medium_file();
    let mut w = World::new(
        file,
        TransmissionMode::Acknowledged,
        Loss::Nothing,
        Loss::All(vec![PDUDirective::Ack, PDUDirective::Finished]),
    );
    w.start();
    w.drain();
    w.sender.suspend();
    let out = w.sender.on_ack_timeout();
    assert!(out.is_empty());
    assert_eq!(w.sender.ack_attempts, 0);
    w.sender.resume();
    let out = w.sender.on_ack_timeout();
    assert!(!out.is_empty());
    assert_eq!(w.sender.ack_attempts, 1);
}
