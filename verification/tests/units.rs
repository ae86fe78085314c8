//! Unit exercises of the engine's pieces: file reassembly, gap
//! computation, segmentation, daemon dispatch and routing, and the
//! transport-loop decisions.

use cfdp_core::daemon::{
    DaemonError, DispatchAction, FileStoreError, RoutingTable, TransactionRegistry,
};
use cfdp_core::pdu::{Condition, PDUDirective, PDUPayload, TransactionID, TransmissionMode, PDU};
use cfdp_core::receiver::RecvTransaction;
use cfdp_core::segment::{apply_segment, ensure_len, missing_ranges};
use cfdp_core::sender::SendTransaction;
use cfdp_core::transaction::{Command, TransactionConfig, TransactionPhase};
use cfdp_core::transport::{
    handler_step, recv_error_fatal, MediumPoll, QueuePoll, RecvErrorKind, TransportFault,
};

fn pdu(payload: PDUPayload) -> PDU {
    PDU {
        source: 0,
        destination: 1,
        transaction: TransactionID { source: 0, number: 0 },
        mode: TransmissionMode::Acknowledged,
        payload,
    }
}

#[test]
fn directive_classification() {
    let p = pdu(PDUPayload::Metadata { file_size: 4, destination_filename: String::from("f") });
    assert_eq!(p.directive(), PDUDirective::Metadata);
    let p = pdu(PDUPayload::FileData { offset: 0, data: vec![1] });
    assert_eq!(p.directive(), PDUDirective::FileData);
    let p = pdu(PDUPayload::EoF { file_size: 4, condition: Condition::NoError });
    assert_eq!(p.directive(), PDUDirective::EoF);
    let p = pdu(PDUPayload::Ack { directive: PDUDirective::EoF, condition: Condition::NoError });
    assert_eq!(p.directive(), PDUDirective::Ack);
    let p = pdu(PDUPayload::Finished { condition: Condition::NoError });
    assert_eq!(p.directive(), PDUDirective::Finished);
    let p = pdu(PDUPayload::Nak { requests: vec![(0, 0)] });
    assert_eq!(p.directive(), PDUDirective::Nak);
}

#[test]
fn apply_segment_writes_at_absolute_offset() {
    let mut data: Vec<u8> = Vec::new();
    let mut have: Vec<bool> = Vec::new();
    ensure_len(&mut data, &mut have, 8);
    assert_eq!(data, vec![0u8; 8]);
    assert_eq!(have, vec![false; 8]);
    apply_segment(&mut data, &mut have, 3, &vec![7, 8, 9]);
    assert_eq!(data, vec![0, 0, 0, 7, 8, 9, 0, 0]);
    assert_eq!(have, vec![false, false, false, true, true, true, false, false]);
    // Re-applying the same segment changes nothing.
    apply_segment(&mut data, &mut have, 3, &vec![7, 8, 9]);
    assert_eq!(data, vec![0, 0, 0, 7, 8, 9, 0, 0]);
}

#[test]
fn missing_ranges_are_exact() {
    let have = vec![false, true, true, false, false, true, false];
    let rs = missing_ranges(&have, 7);
    assert_eq!(rs, vec![(0, 1), (3, 5), (6, 7)]);
    let all_there = vec![true, true];
    assert_eq!(missing_ranges(&all_there, 2), Vec::<(u64, u64)>::new());
    let none_there = vec![false, false, false];
    assert_eq!(missing_ranges(&none_there, 3), vec![(0, 3)]);
    // Only the prefix below the declared size counts.
    assert_eq!(missing_ranges(&have, 4), vec![(0, 1), (3, 4)]);
}

#[test]
fn sender_segments_tile_the_file() {
    let file: Vec<u8> = (0u8..100).collect();
    let cfg = TransactionConfig { ack_limit: 2, segment_size: 30 };
    let mut s = SendTransaction::new(
        TransactionID { source: 0, number: 5 },
        1,
        0,
        TransmissionMode::Acknowledged,
        cfg,
        file.clone(),
        String::from("dest"),
    );
    let out = s.start();
    // Metadata, four segments of 30+30+30+10 bytes, EOF.
    assert_eq!(out.len(), 6);
    assert_eq!(out[0].directive(), PDUDirective::Metadata);
    assert_eq!(out[5].directive(), PDUDirective::EoF);
    let mut rebuilt: Vec<u8> = Vec::new();
    for p in &out[1..5] {
        match &p.payload {
            PDUPayload::FileData { offset, data } => {
                assert_eq!(*offset as usize, rebuilt.len());
                rebuilt.extend_from_slice(data);
            }
            _ => panic!("expected a file-data segment"),
        }
    }
    assert_eq!(rebuilt, file);
    assert_eq!(s.phase, TransactionPhase::AwaitingAck);
}

#[test]
fn sender_answers_nak_with_exact_ranges() {
    let file: Vec<u8> = (0u8..50).collect();
    let cfg = TransactionConfig { ack_limit: 2, segment_size: 16 };
    let mut s = SendTransaction::new(
        TransactionID { source: 0, number: 6 },
        1,
        0,
        TransmissionMode::Acknowledged,
        cfg,
        file.clone(),
        String::from("dest"),
    );
    s.start();
    let nak = pdu(PDUPayload::Nak { requests: vec![(0, 0), (10, 20), (45, 60)] });
    let nak = PDU { transaction: TransactionID { source: 0, number: 6 }, ..nak };
    let out = s.handle_pdu(&nak);
    assert_eq!(out.len(), 3);
    assert_eq!(out[0].directive(), PDUDirective::Metadata);
    match &out[1].payload {
        PDUPayload::FileData { offset, data } => {
            assert_eq!(*offset, 10);
            assert_eq!(data.as_slice(), &file[10..20]);
        }
        _ => panic!("expected a file-data segment"),
    }
    // A range past the end of the file comes back clipped.
    match &out[2].payload {
        PDUPayload::FileData { offset, data } => {
            assert_eq!(*offset, 45);
            assert_eq!(data.as_slice(), &file[45..50]);
        }
        _ => panic!("expected a file-data segment"),
    }
}

#[test]
fn sender_timeout_counts_and_faults() {
    let file: Vec<u8> = vec![1, 2, 3];
    let cfg = TransactionConfig { ack_limit: 2, segment_size: 16 };
    let mut s = SendTransaction::new(
        TransactionID { source: 0, number: 7 },
        1,
        0,
        TransmissionMode::Acknowledged,
        cfg,
        file,
        String::from("dest"),
    );
    s.start();
    // Nothing heard from the peer yet: each retry resends Metadata + EOF.
    let out = s.on_ack_timeout();
    assert_eq!(out.len(), 2);
    assert_eq!(out[0].directive(), PDUDirective::Metadata);
    assert_eq!(out[1].directive(), PDUDirective::EoF);
    let out = s.on_ack_timeout();
    assert_eq!(out.len(), 2);
    assert_eq!(s.ack_attempts, 2);
    // The budget (2) is spent: the next expiry faults.
    let out = s.on_ack_timeout();
    assert!(out.is_empty());
    assert_eq!(s.condition, Condition::PositiveLimitReached);
    assert_eq!(s.phase, TransactionPhase::Closed);
}

#[test]
fn registry_assigns_fresh_ids_and_untracks() {
    let mut reg = TransactionRegistry::new(3);
    let a = reg.assign();
    let b = reg.assign();
    assert_eq!(a, TransactionID { source: 3, number: 0 });
    assert_eq!(b, TransactionID { source: 3, number: 1 });
    assert_ne!(a, b);
    let meta = pdu(PDUPayload::Metadata { file_size: 1, destination_filename: String::from("f") });
    let known = PDU { transaction: a, ..meta.clone() };
    assert_eq!(reg.dispatch(&known), DispatchAction::Deliver(0));
    reg.untrack(a);
    assert_eq!(reg.dispatch(&known), DispatchAction::SpawnReceiver);
    let known_b = PDU { transaction: b, ..meta };
    assert_eq!(reg.dispatch(&known_b), DispatchAction::Deliver(0));
    // The sequence number is not reused after untracking.
    let c = reg.assign();
    assert_eq!(c, TransactionID { source: 3, number: 2 });
}

#[test]
fn registry_tracking_query() {
    let mut reg = TransactionRegistry::new(4);
    let a = reg.assign();
    assert!(reg.tracks(a));
    assert!(!reg.tracks(TransactionID { source: 4, number: 77 }));
    reg.untrack(a);
    assert!(!reg.tracks(a));
}

#[test]
fn dispatch_drops_unknown_non_metadata() {
    let reg = TransactionRegistry::new(3);
    let stray = pdu(PDUPayload::FileData { offset: 0, data: vec![1] });
    assert_eq!(reg.dispatch(&stray), DispatchAction::Drop);
    let stray_fin = pdu(PDUPayload::Finished { condition: Condition::NoError });
    assert_eq!(reg.dispatch(&stray_fin), DispatchAction::Drop);
    let meta = pdu(PDUPayload::Metadata { file_size: 1, destination_filename: String::from("f") });
    assert_eq!(reg.dispatch(&meta), DispatchAction::SpawnReceiver);
}

#[test]
fn routing_table_finds_owner_or_fails() {
    let table = RoutingTable { entries: vec![(1, 0), (2, 0), (5, 1)] };
    assert_eq!(table.route(1), Some(0));
    assert_eq!(table.route(2), Some(0));
    assert_eq!(table.route(5), Some(1));
    assert_eq!(table.route(9), None);
}

#[test]
fn transport_step_decisions() {
    let p = pdu(PDUPayload::Finished { condition: Condition::NoError });
    // A decoded PDU is forwarded; a pending outbound PDU is transmitted.
    let step = handler_step(MediumPoll::Pdu(p.clone()), QueuePoll::Item(1, p.clone()));
    assert!(step.forward.is_some());
    assert!(step.transmit.is_some());
    assert!(step.fault.is_none());
    // A malformed unit is dropped without stopping the loop.
    let step = handler_step(MediumPoll::Malformed, QueuePoll::Empty);
    assert!(step.forward.is_none());
    assert!(step.fault.is_none());
    // A hard receive failure is fatal and suppresses the drain.
    let step = handler_step(MediumPoll::Failed, QueuePoll::Item(1, p.clone()));
    assert_eq!(step.fault, Some(TransportFault::MediumFailure));
    assert!(step.transmit.is_none());
    // A closed queue is fatal.
    let step = handler_step(MediumPoll::Idle, QueuePoll::Disconnected);
    assert_eq!(step.fault, Some(TransportFault::ChannelDisconnected));
    // A quiet iteration does nothing and goes on.
    let step = handler_step(MediumPoll::Idle, QueuePoll::Empty);
    assert!(step.forward.is_none() && step.transmit.is_none() && step.fault.is_none());
}

#[test]
fn recv_error_classification() {
    assert!(!recv_error_fatal(&RecvErrorKind::TimedOut));
    assert!(!recv_error_fatal(&RecvErrorKind::WouldBlock));
    assert!(recv_error_fatal(&RecvErrorKind::Other));
}

#[test]
fn daemon_error_carries_undelivered_command() {
    let id = TransactionID { source: 2, number: 9 };
    let err = DaemonError::from((id, Command::Cancel));
    match err {
        DaemonError::TransactionCommunication(t, Command::Cancel) => assert_eq!(t, id),
        _ => panic!("wrong error variant"),
    }
    let spawn = DaemonError::SpawnSend(FileStoreError::SourceUnreadable);
    assert!(matches!(spawn, DaemonError::SpawnSend(FileStoreError::SourceUnreadable)));
}

#[test]
fn receiver_rejects_oversized_declarations() {
    let cfg = TransactionConfig { ack_limit: 2, segment_size: 16 };
    let id = TransactionID { source: 0, number: 0 };
    let mut r = RecvTransaction::new(id, 0, 1, TransmissionMode::Acknowledged, cfg);
    let huge = PDU {
        source: 0,
        destination: 1,
        transaction: id,
        mode: TransmissionMode::Acknowledged,
        payload: PDUPayload::Metadata {
            file_size: u64::MAX,
            destination_filename: String::from("f"),
        },
    };
    let out = r.handle_pdu(&huge);
    assert!(out.is_empty());
    assert_eq!(r.condition, Condition::FileSizeError);
    assert_eq!(r.phase, TransactionPhase::Closed);
}

#[test]
fn receiver_cancelling_eof_closes_with_cancel() {
    let cfg = TransactionConfig { ack_limit: 2, segment_size: 16 };
    let id = TransactionID { source: 0, number: 0 };
    let mut r = RecvTransaction::new(id, 0, 1, TransmissionMode::Acknowledged, cfg);
    let cancel_eof = PDU {
        source: 0,
        destination: 1,
        transaction: id,
        mode: TransmissionMode::Acknowledged,
        payload: PDUPayload::EoF { file_size: 0, condition: Condition::CancelReceived },
    };
    r.handle_pdu(&cancel_eof);
    assert_eq!(r.condition, Condition::CancelReceived);
    assert_eq!(r.phase, TransactionPhase::Closed);
}
