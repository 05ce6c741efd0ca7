use jiaoziflow_runtime::backend::{
    ChannelRound, ChannelRoundAction, ChannelRoundEvent, ComputeRound, ComputeRoundAction, Delivered, MediaRound, MediaRoundAction,
    RoundEvent,
};
use jiaoziflow_runtime::batch::{MediaDataBatchResponse, MediaDataCell};
use jiaoziflow_runtime::channel::{
    DpIncomingAction, DpIncomingFlow, ChannelIncomingAction, ChannelIncomingEvent, ChannelIncomingFlow, ChannelRequestAction, ChannelRequestEvent,
    ChannelRequestFlow,
};
use jiaoziflow_runtime::incoming::{limit_message, IncomingAction, IncomingEvent, IncomingFlow};
use jiaoziflow_runtime::ipc::{ErrorNumber, IPCError};
use jiaoziflow_runtime::ipc_server::{payload_error_status, PayloadError};
use jiaoziflow_runtime::outgoing::{OutgoingAction, OutgoingEvent, OutgoingFlow};
use jiaoziflow_runtime::requests::{
    completed_reply, completed_start, CompletedAction, DataRequestAction, DataRequestEvent, DataRequestFlow,
    FinishAction, FinishEvent, FinishFlow, SubmitAction, SubmitEvent, SubmitFlow,
};
use jiaoziflow_runtime::state::{DataState, Direction, TrackerState};
use jiaoziflow_runtime::stream::{not_ready, request_reply, transfer_reply, StreamError};
use jiaoziflow_runtime::text::decimal_string;
use jiaoziflow_runtime::tracker::{DataFlag, TrackerInfo, UpstreamCode};
use jiaoziflow_runtime::upstream::{UpstreamAction, UpstreamEvent, UpstreamFlow};

const PLAIN: DataFlag = DataFlag { is_keep_data: false, is_transparent_data: false };
const PASS: DataFlag = DataFlag { is_keep_data: false, is_transparent_data: true };
const KEEP: DataFlag = DataFlag { is_keep_data: true, is_transparent_data: false };

fn batch(id: &str, n: usize) -> MediaDataBatchResponse {
    let cells = (0..n).map(|i| MediaDataCell::new(format!("f{i}"), vec![i as u8])).collect();
    MediaDataBatchResponse::assemble(id, cells)
}

fn reply(a: IncomingAction) -> Result<(), String> {
    match a {
        IncomingAction::Reply(r) => r,
        _ => panic!("expected a reply"),
    }
}

#[test]
fn decimal_rendering() {
    assert_eq!(decimal_string(0), "0");
    assert_eq!(decimal_string(7), "7");
    assert_eq!(decimal_string(10), "10");
    assert_eq!(decimal_string(30), "30");
    assert_eq!(decimal_string(1234567890), "1234567890");
    assert_eq!(decimal_string(u64::MAX), u64::MAX.to_string());
    assert_eq!(limit_message(31, 30), "has reach limit current:31 limit:30");
}

#[test]
fn incoming_plain_batch_is_stored_once() {
    let (mut flow, a) = IncomingFlow::start("node", "b1", 3, PLAIN, 1, true, 30);
    assert!(matches!(a, IncomingAction::FindRecord));
    assert!(matches!(flow.step(IncomingEvent::Found(Ok(false))), IncomingAction::CountReceived));
    assert!(matches!(flow.step(IncomingEvent::Counted(Ok(30))), IncomingAction::WriteCache));
    match flow.step_at(IncomingEvent::Written(Ok(())), 77) {
        IncomingAction::Insert(rec) => {
            assert_eq!((rec.state, rec.direction), (DataState::Received, Direction::In));
            assert_eq!(rec.id, "b1");
            assert_eq!(rec.created_at, 77);
        }
        _ => panic!("expected an insert"),
    }
    assert_eq!(reply(flow.step(IncomingEvent::Inserted(Ok(())))), Ok(()));
}

#[test]
fn incoming_pass_through_batch_leaves_two_records() {
    let (mut flow, _) = IncomingFlow::start("node", "b1", 3, PASS, 1, true, 30);
    flow.step(IncomingEvent::Found(Ok(false)));
    flow.step(IncomingEvent::Counted(Ok(0)));
    let first = match flow.step_at(IncomingEvent::Written(Ok(())), 77) {
        IncomingAction::Insert(rec) => (rec.state, rec.direction, rec.created_at),
        _ => panic!("expected an insert"),
    };
    let second = match flow.step(IncomingEvent::Inserted(Ok(()))) {
        IncomingAction::Insert(rec) => (rec.state, rec.direction, rec.created_at),
        _ => panic!("expected an insert"),
    };
    assert_eq!(first, (DataState::Received, Direction::Out, 77));
    assert_eq!(second, (DataState::Processed, Direction::In, 77));
    assert_eq!(reply(flow.step(IncomingEvent::Inserted(Ok(())))), Ok(()));
}

#[test]
fn incoming_refusals() {
    let (mut flow, _) = IncomingFlow::start("node", "b1", 3, PLAIN, 1, false, 30);
    assert_eq!(reply(flow.step(IncomingEvent::Found(Ok(true)))), Ok(()));

    let (mut flow, _) = IncomingFlow::start("node", "b1", 3, PLAIN, 1, false, 30);
    assert_eq!(reply(flow.step(IncomingEvent::Found(Err("db down".to_string())))), Err("db down".to_string()));

    let (mut flow, _) = IncomingFlow::start("node", "b1", 3, PLAIN, 1, false, 30);
    flow.step(IncomingEvent::Found(Ok(false)));
    assert_eq!(
        reply(flow.step(IncomingEvent::Counted(Ok(31)))),
        Err("cannt query limit from mongo has reach limit current:31 limit:30".to_string())
    );

    let (mut flow, _) = IncomingFlow::start("node", "b1", 3, PLAIN, 1, false, 30);
    flow.step(IncomingEvent::Found(Ok(false)));
    assert_eq!(
        reply(flow.step(IncomingEvent::Counted(Err("timeout".to_string())))),
        Err("cannt query limit from mongo timeout".to_string())
    );

    let (mut flow, _) = IncomingFlow::start("node", "b1", 3, PLAIN, 1, false, 30);
    flow.step(IncomingEvent::Found(Ok(false)));
    flow.step(IncomingEvent::Counted(Ok(1)));
    assert_eq!(reply(flow.step(IncomingEvent::Written(Err("disk full".to_string())))), Err("disk full".to_string()));

    let (mut flow, _) = IncomingFlow::start("node", "b1", 3, PLAIN, 1, false, 30);
    flow.step(IncomingEvent::Found(Ok(false)));
    flow.step(IncomingEvent::Counted(Ok(1)));
    flow.step(IncomingEvent::Written(Ok(())));
    assert!(matches!(flow.step(IncomingEvent::Inserted(Err("dup".to_string()))), IncomingAction::Drop));
}

#[test]
fn outgoing_full_round() {
    let down = vec!["d1".to_string(), "d2".to_string()];
    let (mut flow, a) = OutgoingFlow::start(PLAIN, Some((5, 9)), vec!["d1".to_string()], down.clone());
    assert!(matches!(a, OutgoingAction::ReadCache));
    match flow.step(OutgoingEvent::Read(Ok(batch("b", 2)))) {
        OutgoingAction::Send { batch, already } => {
            assert_eq!(batch.data_flag, 5);
            assert_eq!(batch.priority, 9);
            assert_eq!(batch.size, 2);
            assert_eq!(already, vec!["d1".to_string()]);
        }
        _ => panic!("expected a send"),
    }
    match flow.step(OutgoingEvent::Sent(Ok(()))) {
        OutgoingAction::MarkState { state, sent } => {
            assert_eq!(state, DataState::Sent);
            assert_eq!(sent, Some(down.clone()));
        }
        _ => panic!("expected a mark"),
    }
    assert!(matches!(flow.step(OutgoingEvent::Marked(Ok(()))), OutgoingAction::RemoveCache));
    assert!(matches!(flow.step(OutgoingEvent::Removed(Ok(()))), OutgoingAction::Finish { more: true }));
}

#[test]
fn outgoing_without_stamp_keeps_batch_fields() {
    let (mut flow, _) = OutgoingFlow::start(PLAIN, None, vec![], vec!["d".to_string()]);
    let mut b = batch("b", 1);
    b.data_flag = 3;
    b.priority = 7;
    match flow.step(OutgoingEvent::Read(Ok(b))) {
        OutgoingAction::Send { batch, .. } => assert_eq!((batch.data_flag, batch.priority), (3, 7)),
        _ => panic!("expected a send"),
    }
}

#[test]
fn outgoing_partial_missing_and_kept() {
    let down = vec!["d1".to_string(), "d2".to_string()];
    let (mut flow, _) = OutgoingFlow::start(PLAIN, Some((0, 0)), vec![], down.clone());
    flow.step(OutgoingEvent::Read(Ok(batch("b", 1))));
    match flow.step(OutgoingEvent::Sent(Err(vec!["d2".to_string()]))) {
        OutgoingAction::MarkState { state, sent } => {
            assert_eq!(state, DataState::PartialSent);
            assert_eq!(sent, Some(vec!["d2".to_string()]));
        }
        _ => panic!("expected a mark"),
    }
    assert!(matches!(flow.step(OutgoingEvent::Marked(Ok(()))), OutgoingAction::Finish { more: false }));

    let (mut flow, _) = OutgoingFlow::start(PLAIN, Some((0, 0)), vec![], down.clone());
    match flow.step(OutgoingEvent::Read(Err("gone".to_string()))) {
        OutgoingAction::MarkState { state, sent } => {
            assert_eq!(state, DataState::Error);
            assert_eq!(sent, None);
        }
        _ => panic!("expected a mark"),
    }
    assert!(matches!(flow.step(OutgoingEvent::Marked(Err("x".to_string()))), OutgoingAction::Finish { more: false }));

    // an empty batch is recorded as sent without any network traffic; kept data stays cached
    let (mut flow, _) = OutgoingFlow::start(KEEP, None, vec![], down.clone());
    assert!(matches!(
        flow.step(OutgoingEvent::Read(Ok(batch("b", 0)))),
        OutgoingAction::MarkState { state: DataState::Sent, .. }
    ));
    assert!(matches!(flow.step(OutgoingEvent::Marked(Ok(()))), OutgoingAction::Finish { more: true }));

    // without downstreams nothing is sent either
    let (mut flow, _) = OutgoingFlow::start(PLAIN, None, vec![], vec![]);
    assert!(matches!(
        flow.step(OutgoingEvent::Read(Ok(batch("b", 3)))),
        OutgoingAction::MarkState { state: DataState::Sent, .. }
    ));
    assert!(matches!(flow.step(OutgoingEvent::Marked(Err("x".to_string()))), OutgoingAction::Finish { more: true }));
}

#[test]
fn submit_waits_for_room() {
    let (_, a) = SubmitFlow::start(TrackerState::Finish, "n", "o", 1, PLAIN, 0, 30);
    assert!(matches!(a, SubmitAction::Reply { result: Err(t), notify: false } if t == "node was finished"));

    let (mut flow, a) = SubmitFlow::start(TrackerState::Ready, "n", "o", 1, PLAIN, 0, 30);
    assert!(matches!(a, SubmitAction::CountOutgoing));
    assert!(matches!(flow.step(SubmitEvent::Counted(Ok(31))), SubmitAction::RetryAfter(10)));
    assert!(matches!(flow.step(SubmitEvent::Counted(Err("x".to_string()))), SubmitAction::RetryAfter(10)));
    match flow.step_at(SubmitEvent::Counted(Ok(30)), 4) {
        SubmitAction::Insert(rec) => {
            assert_eq!((rec.state, rec.direction), (DataState::Received, Direction::Out));
            assert_eq!(rec.id, "o");
            assert_eq!(rec.updated_at, 4);
        }
        _ => panic!("expected an insert"),
    }
    assert!(matches!(flow.step(SubmitEvent::Inserted(Ok(()))), SubmitAction::Reply { result: Ok(()), notify: true }));

    let (mut flow, _) = SubmitFlow::start(TrackerState::InComingFinish, "n", "o", 1, PLAIN, 0, 30);
    flow.step(SubmitEvent::Counted(Ok(0)));
    assert!(matches!(
        flow.step(SubmitEvent::Inserted(Err("dup".to_string()))),
        SubmitAction::Reply { result: Err(t), notify: false } if t == "dup"
    ));
}

#[test]
fn finish_waits_until_nothing_runs() {
    let (mut flow, a) = FinishFlow::start();
    assert!(matches!(a, FinishAction::CountRunning));
    assert!(matches!(flow.step(FinishEvent::Counted(Ok(2))), FinishAction::RetryAfter(5)));
    assert!(matches!(flow.step(FinishEvent::Counted(Err("x".to_string()))), FinishAction::RetryAfter(5)));
    assert!(matches!(flow.step(FinishEvent::Counted(Ok(0))), FinishAction::MarkFinished));
    assert!(matches!(flow.step(FinishEvent::Marked(Ok(()))), FinishAction::Reply(Ok(()))));
}

#[test]
fn data_requests() {
    let (_, a) = DataRequestFlow::start(false, TrackerState::Finish);
    assert!(matches!(a, DataRequestAction::Reply(Err(IPCError::NodeError { code: ErrorNumber::AlreadyFinish, .. }))));
    let (_, a) = DataRequestFlow::start(false, TrackerState::InComingFinish);
    assert!(matches!(a, DataRequestAction::Reply(Err(IPCError::NodeError { code: ErrorNumber::InComingFinish, .. }))));
    let (mut flow, a) = DataRequestFlow::start(false, TrackerState::Ready);
    assert!(matches!(a, DataRequestAction::FindAndAssign));
    assert!(matches!(
        flow.step(DataRequestEvent::Assigned(Ok(Some(("b".to_string(), 4))))),
        DataRequestAction::Reply(Ok(Some(d))) if d.id == "b" && d.size == 4
    ));
    let (mut flow, _) = DataRequestFlow::start(false, TrackerState::Ready);
    assert!(matches!(flow.step(DataRequestEvent::Assigned(Ok(None))), DataRequestAction::Reply(Ok(None))));
    let (mut flow, _) = DataRequestFlow::start(false, TrackerState::Ready);
    assert!(matches!(
        flow.step(DataRequestEvent::Assigned(Err("db".to_string()))),
        DataRequestAction::Abort(t) if t == "query available data failed: db"
    ));

    // a named metadata batch is looked up even after the node has finished
    let (mut flow, a) = DataRequestFlow::start(true, TrackerState::Finish);
    assert!(matches!(a, DataRequestAction::FindById));
    assert!(matches!(flow.step(DataRequestEvent::Found(Ok(Some(("m".to_string(), 1))))), DataRequestAction::CheckCache));
    assert!(matches!(
        flow.step(DataRequestEvent::Cached(Ok(true))),
        DataRequestAction::Reply(Ok(Some(d))) if d.id == "m" && d.size == 1
    ));
    let (mut flow, _) = DataRequestFlow::start(true, TrackerState::Ready);
    flow.step(DataRequestEvent::Found(Ok(Some(("m".to_string(), 1)))));
    assert!(matches!(
        flow.step(DataRequestEvent::Cached(Ok(false))),
        DataRequestAction::Reply(Err(IPCError::NodeError { code: ErrorNumber::DataMissing, .. }))
    ));
    let (mut flow, _) = DataRequestFlow::start(true, TrackerState::Ready);
    assert!(matches!(flow.step(DataRequestEvent::Found(Ok(None))), DataRequestAction::Reply(Ok(None))));
}

#[test]
fn completed_reports() {
    assert!(matches!(
        completed_start(TrackerState::Finish),
        CompletedAction::Reply { result: Err(t), remove: false } if t == "node was finished"
    ));
    assert!(matches!(completed_start(TrackerState::Ready), CompletedAction::MarkProcessed));
    assert!(matches!(completed_reply(Ok(())), CompletedAction::Reply { result: Ok(()), remove: true }));
    assert!(matches!(
        completed_reply(Err("db".to_string())),
        CompletedAction::Reply { result: Err(t), remove: false } if t == "db"
    ));
}

#[test]
fn compute_backend_rounds() {
    let (mut round, a) = ComputeRound::start(true, 2);
    assert!(matches!(a, ComputeRoundAction::RevertUnsent));
    assert!(matches!(round.step(RoundEvent::Reverted(Ok(3))), ComputeRoundAction::QueryUpstreams));
    assert!(matches!(
        round.step(RoundEvent::Upstreams(Ok(vec![TrackerState::Finish, TrackerState::Finish]))),
        ComputeRoundAction::CountPendingIn
    ));
    assert!(matches!(round.step(RoundEvent::Counted(Ok(0))), ComputeRoundAction::MarkIncomingFinish));
    assert!(matches!(
        round.step(RoundEvent::Marked(Ok(()))),
        ComputeRoundAction::EndRound { result: Ok(()), keep_checking: false }
    ));

    let (mut round, _) = ComputeRound::start(true, 2);
    round.step(RoundEvent::Reverted(Ok(0)));
    assert!(matches!(
        round.step(RoundEvent::Upstreams(Ok(vec![TrackerState::Finish, TrackerState::Ready]))),
        ComputeRoundAction::EndRound { result: Ok(()), keep_checking: true }
    ));

    let (mut round, _) = ComputeRound::start(false, 2);
    assert!(matches!(
        round.step(RoundEvent::Reverted(Ok(0))),
        ComputeRoundAction::EndRound { result: Ok(()), keep_checking: false }
    ));

    let (mut round, _) = ComputeRound::start(true, 0);
    assert!(matches!(
        round.step(RoundEvent::Reverted(Ok(0))),
        ComputeRoundAction::EndRound { result: Ok(()), keep_checking: true }
    ));

    let (mut round, _) = ComputeRound::start(true, 1);
    assert!(matches!(
        round.step(RoundEvent::Reverted(Err("x".to_string()))),
        ComputeRoundAction::EndRound { result: Err(t), keep_checking: true } if t == "revert data x"
    ));
}

#[test]
fn channel_backend_round() {
    let (mut round, a) = ChannelRound::start();
    assert!(matches!(a, ChannelRoundAction::ListDelivered));
    let listed = vec![
        Delivered { id: "m".to_string(), is_metadata: true },
        Delivered { id: "d".to_string(), is_metadata: false },
        Delivered { id: "e".to_string(), is_metadata: false },
    ];
    assert!(matches!(
        round.step(ChannelRoundEvent::Listed(Ok(listed))),
        ChannelRoundAction::MarkState { id, state: DataState::KeeptForMetadata } if id == "m"
    ));
    assert!(matches!(round.step(ChannelRoundEvent::Marked(Ok(()))), ChannelRoundAction::RemoveCache(id) if id == "d"));
    assert!(matches!(
        round.step(ChannelRoundEvent::Removed(Ok(()))),
        ChannelRoundAction::MarkState { id, state: DataState::Clean } if id == "d"
    ));
    assert!(matches!(round.step(ChannelRoundEvent::Marked(Ok(()))), ChannelRoundAction::RemoveCache(id) if id == "e"));
    assert!(matches!(round.step(ChannelRoundEvent::Removed(Err("busy".to_string()))), ChannelRoundAction::RevertUnsent));
    assert!(matches!(round.step(ChannelRoundEvent::Reverted(Ok(0))), ChannelRoundAction::QueryUpstreams));
    assert!(matches!(round.step(ChannelRoundEvent::Upstreams(Ok(vec![]))), ChannelRoundAction::CountRunning));
    assert!(matches!(round.step(ChannelRoundEvent::Counted(Ok(0))), ChannelRoundAction::MarkFinished));
    assert!(matches!(
        round.step(ChannelRoundEvent::Marked(Ok(()))),
        ChannelRoundAction::EndRound { result: Ok(()), stop: true }
    ));

    let (mut round, _) = ChannelRound::start();
    assert!(matches!(round.step(ChannelRoundEvent::Listed(Err("x".to_string()))), ChannelRoundAction::RevertUnsent));
    round.step(ChannelRoundEvent::Reverted(Ok(0)));
    round.step(ChannelRoundEvent::Upstreams(Ok(vec![TrackerState::Finish])));
    assert!(matches!(
        round.step(ChannelRoundEvent::Counted(Ok(4))),
        ChannelRoundAction::EndRound { result: Ok(()), stop: false }
    ));
}

#[test]
fn channel_requests_skip_broken_batches() {
    let (mut flow, a) = ChannelRequestFlow::start();
    assert!(matches!(a, ChannelRequestAction::FindAndMark));
    assert!(matches!(
        flow.step(ChannelRequestEvent::Found(Ok(Some("b1".to_string())))),
        ChannelRequestAction::ReadCache(id) if id == "b1"
    ));
    assert!(matches!(
        flow.step(ChannelRequestEvent::Read(Err("gone".to_string()))),
        ChannelRequestAction::MarkError { id, direction: Direction::In, state: DataState::Error } if id == "b1"
    ));
    assert!(matches!(flow.step(ChannelRequestEvent::Marked(Ok(()))), ChannelRequestAction::FindAndMark));
    flow.step(ChannelRequestEvent::Found(Ok(Some("b2".to_string()))));
    assert!(matches!(
        flow.step(ChannelRequestEvent::Read(Ok(batch("b2", 2)))),
        ChannelRequestAction::Reply(Ok(Some(b))) if b.id == "b2" && b.size == 2
    ));
    let (mut flow, _) = ChannelRequestFlow::start();
    assert!(matches!(flow.step(ChannelRequestEvent::Found(Ok(None))), ChannelRequestAction::Reply(Ok(None))));
}

#[test]
fn channel_incoming_limits_only_metadata() {
    let (mut flow, _) = ChannelIncomingFlow::start("ch", "plain", 2, 1);
    assert!(matches!(flow.step(ChannelIncomingEvent::Found(Ok(false))), ChannelIncomingAction::WriteCache));
    match flow.step_at(ChannelIncomingEvent::Written(Ok(())), 5) {
        ChannelIncomingAction::Insert(rec) => {
            assert!(!rec.is_metadata);
            assert_eq!((rec.created_at, rec.updated_at), (5, 5));
            assert_eq!((rec.state, rec.direction), (DataState::Received, Direction::In));
        }
        _ => panic!("expected an insert"),
    }
    assert!(matches!(flow.step(ChannelIncomingEvent::Inserted(Ok(()))), ChannelIncomingAction::Reply(Ok(()))));

    let (mut flow, _) = ChannelIncomingFlow::start("ch", "labelsmetadata", 2, 1);
    assert!(matches!(flow.step(ChannelIncomingEvent::Found(Ok(false))), ChannelIncomingAction::CountReceived));
    assert!(matches!(
        flow.step(ChannelIncomingEvent::Counted(Ok(2))),
        ChannelIncomingAction::Reply(Err(t)) if t == "cannt query limit from mongo has reach limit current:2 limit:1"
    ));
    let (mut flow, _) = ChannelIncomingFlow::start("ch", "labelsmetadata", 2, 1);
    flow.step(ChannelIncomingEvent::Found(Ok(false)));
    flow.step(ChannelIncomingEvent::Counted(Ok(1)));
    assert!(matches!(
        flow.step(ChannelIncomingEvent::Written(Ok(()))),
        ChannelIncomingAction::Insert(rec) if rec.is_metadata
    ));
}

#[test]
fn upstream_pull() {
    let (mut flow, a) = UpstreamFlow::start("media", false);
    assert!(matches!(a, UpstreamAction::Connect));
    assert!(matches!(
        flow.step(UpstreamEvent::Connected(Err("refused".to_string()))),
        UpstreamAction::Reply { result: Ok(None), drop_connection: false }
    ));

    let (mut flow, a) = UpstreamFlow::start("media", true);
    assert!(matches!(a, UpstreamAction::Request));
    assert!(matches!(flow.step(UpstreamEvent::Received(Ok(batch("b", 2)))), UpstreamAction::FindById(id) if id == "b"));
    assert!(matches!(
        flow.step(UpstreamEvent::Found(Ok(false))),
        UpstreamAction::WriteCache(b) if b.id == "b" && b.cells.len() == 2
    ));
    assert!(matches!(
        flow.step(UpstreamEvent::Written(Ok(()))),
        UpstreamAction::InsertReceived { id, size: 2 } if id == "b"
    ));
    assert!(matches!(
        flow.step(UpstreamEvent::Inserted(Ok(()))),
        UpstreamAction::MarkDelivered { node, id, direction: Direction::In, state: DataState::EndRecieved }
            if node == "media-channel" && id == "b"
    ));
    assert!(matches!(
        flow.step(UpstreamEvent::Marked(Ok(()))),
        UpstreamAction::Reply { result: Ok(Some(d)), drop_connection: false } if d.id == "b" && d.size == 2
    ));

    let (mut flow, _) = UpstreamFlow::start("media", true);
    assert!(matches!(
        flow.step(UpstreamEvent::Received(Err(UpstreamCode::Unavailable))),
        UpstreamAction::Reply { result: Err(t), drop_connection: true } if t == "connect break"
    ));
    let (mut flow, _) = UpstreamFlow::start("media", true);
    flow.step(UpstreamEvent::Received(Ok(batch("b", 1))));
    assert!(matches!(
        flow.step(UpstreamEvent::Found(Ok(true))),
        UpstreamAction::Reply { result: Ok(None), drop_connection: false }
    ));
}

#[test]
fn stream_replies() {
    assert!(matches!(not_ready(), StreamError::Internal(t) if t == "not ready"));
    assert!(transfer_reply(Ok(Ok(()))).is_ok());
    assert!(matches!(transfer_reply(Ok(Err("full".to_string()))), Err(StreamError::Internal(t)) if t == "full"));
    assert!(matches!(transfer_reply(Err("closed".to_string())), Err(StreamError::Unknown(t)) if t == "closed"));
    assert!(matches!(request_reply(Ok(Ok(Some(batch("b", 1))))), Ok(b) if b.id == "b"));
    assert!(matches!(request_reply(Ok(Ok(None))), Err(StreamError::NotFound(t)) if t == "no avaiable data"));
    assert!(matches!(request_reply(Ok(Err("db".to_string()))), Err(StreamError::Unknown(t)) if t == "db"));
}

#[test]
fn payload_statuses_and_tracker_info() {
    assert_eq!(payload_error_status(PayloadError::ContentType), 415);
    assert_eq!(payload_error_status(PayloadError::DataMismatch), 422);
    assert_eq!(payload_error_status(PayloadError::Other), 400);
    let info = TrackerInfo::new("n", 30, vec!["up".to_string()], vec![], vec!["down".to_string()]);
    assert_eq!(info.name, "n");
    assert_eq!(info.local_state, TrackerState::Init);
    assert_eq!(info.up_nodes, vec!["up".to_string()]);
}

#[test]
fn clock_stamped_records() {
    let (mut flow, _) = IncomingFlow::start("node", "b1", 3, PLAIN, 1, true, 30);
    flow.step(IncomingEvent::Found(Ok(false)));
    flow.step(IncomingEvent::Counted(Ok(0)));
    match flow.step(IncomingEvent::Written(Ok(()))) {
        IncomingAction::Insert(rec) => {
            assert_eq!(rec.created_at, rec.updated_at);
            assert!(rec.created_at > 1_600_000_000);
        }
        _ => panic!("expected an insert"),
    }
    let (mut flow, _) = SubmitFlow::start(TrackerState::Ready, "n", "o", 1, PLAIN, 0, 30);
    match flow.step(SubmitEvent::Counted(Ok(0))) {
        SubmitAction::Insert(rec) => {
            assert_eq!(rec.created_at, rec.updated_at);
            assert!(rec.created_at > 1_600_000_000);
        }
        _ => panic!("expected an insert"),
    }
    let (mut flow, _) = ChannelIncomingFlow::start("ch", "x", 1, 1);
    flow.step(ChannelIncomingEvent::Found(Ok(false)));
    match flow.step(ChannelIncomingEvent::Written(Ok(()))) {
        ChannelIncomingAction::Insert(rec) => assert!(rec.created_at > 1_600_000_000 && rec.created_at == rec.updated_at),
        _ => panic!("expected an insert"),
    }
}

#[test]
fn first_generation_channel_checks_buffer_first() {
    let (mut flow, a) = DpIncomingFlow::start("b", 2, 1);
    assert!(matches!(a, DpIncomingAction::CountPending));
    assert!(matches!(
        flow.step(ChannelIncomingEvent::Counted(Ok(2))),
        DpIncomingAction::Reply(Err(t)) if t == "cannt query limit from mongo has reach limit current:2 limit:1"
    ));
    let (mut flow, _) = DpIncomingFlow::start("b", 2, 1);
    assert!(matches!(flow.step(ChannelIncomingEvent::Counted(Ok(1))), DpIncomingAction::FindRecord));
    assert!(matches!(flow.step(ChannelIncomingEvent::Found(Ok(false))), DpIncomingAction::WriteCache));
    assert!(matches!(
        flow.step(ChannelIncomingEvent::Written(Ok(()))),
        DpIncomingAction::InsertReceived { id, size: 2 } if id == "b"
    ));
    assert!(matches!(flow.step(ChannelIncomingEvent::Inserted(Ok(()))), DpIncomingAction::Reply(Ok(()))));
    let (mut flow, _) = DpIncomingFlow::start("b", 2, 1);
    flow.step(ChannelIncomingEvent::Counted(Ok(0)));
    assert!(matches!(flow.step(ChannelIncomingEvent::Found(Ok(true))), DpIncomingAction::Reply(Ok(()))));
}

#[test]
fn media_round_finishes_when_some_upstream_has_finished() {
    let (mut round, a) = MediaRound::start();
    assert!(matches!(a, MediaRoundAction::RevertUnsent));
    assert!(matches!(round.step(RoundEvent::Reverted(Ok(2))), MediaRoundAction::QueryUpstreams));
    assert!(matches!(
        round.step(RoundEvent::Upstreams(Ok(vec![TrackerState::Ready, TrackerState::Finish]))),
        MediaRoundAction::CountPendingOut
    ));
    assert!(matches!(round.step(RoundEvent::Counted(Ok(0))), MediaRoundAction::MarkFinished));
    assert!(matches!(
        round.step(RoundEvent::Marked(Ok(()))),
        MediaRoundAction::EndRound { result: Ok(()), stop: true }
    ));

    let (mut round, _) = MediaRound::start();
    round.step(RoundEvent::Reverted(Ok(0)));
    assert!(matches!(
        round.step(RoundEvent::Upstreams(Ok(vec![]))),
        MediaRoundAction::EndRound { result: Ok(()), stop: false }
    ));

    let (mut round, _) = MediaRound::start();
    round.step(RoundEvent::Reverted(Ok(0)));
    round.step(RoundEvent::Upstreams(Ok(vec![TrackerState::Finish])));
    assert!(matches!(
        round.step(RoundEvent::Counted(Ok(1))),
        MediaRoundAction::EndRound { result: Ok(()), stop: false }
    ));

    let (mut round, _) = MediaRound::start();
    match round.step(RoundEvent::Reverted(Err("db down".to_string()))) {
        MediaRoundAction::EndRound { result: Err(t), stop: false } => assert_eq!(t, "revert data db down"),
        _ => panic!("expected the round to end"),
    }

    let (mut round, _) = MediaRound::start();
    round.step(RoundEvent::Reverted(Ok(0)));
    round.step(RoundEvent::Upstreams(Ok(vec![TrackerState::Finish])));
    round.step(RoundEvent::Counted(Ok(0)));
    match round.step(RoundEvent::Marked(Err("x".to_string()))) {
        MediaRoundAction::EndRound { result: Err(t), stop: false } => assert_eq!(t, "update node data x"),
        _ => panic!("expected the round to end"),
    }
}

#[test]
fn incoming_side_is_marked_finished_once() {
    let mut to_check = true;
    let mut marks = 0;
    for _ in 0..3 {
        let (mut round, mut action) = ComputeRound::start(to_check, 1);
        loop {
            let event = match action {
                ComputeRoundAction::RevertUnsent => RoundEvent::Reverted(Ok(0)),
                ComputeRoundAction::QueryUpstreams => RoundEvent::Upstreams(Ok(vec![TrackerState::Finish])),
                ComputeRoundAction::CountPendingIn => RoundEvent::Counted(Ok(0)),
                ComputeRoundAction::MarkIncomingFinish => {
                    marks += 1;
                    RoundEvent::Marked(Ok(()))
                }
                ComputeRoundAction::EndRound { keep_checking, .. } => {
                    to_check = keep_checking;
                    break;
                }
            };
            action = round.step(event);
        }
    }
    assert_eq!(marks, 1);
    assert!(!to_check);
}
