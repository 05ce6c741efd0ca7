use jiaoziflow_runtime::ipc::{ErrorNumber, IPCError};
use jiaoziflow_runtime::multi_sender::{already_sent, send_result, MultiSender};
use jiaoziflow_runtime::monitor::{tasks_result, TaskOutcome};
use jiaoziflow_runtime::state::{DataState, Direction, TrackerState};
use jiaoziflow_runtime::tracker::{
    all_finished, any_finished, channel_finished, channel_running_states, check_upstreams, cleanup_state,
    data_request_refusal, drops_cache_after_send, exceeds_buffer, incoming_finished, incoming_records,
    media_finished, media_running_states, metadata_reply, needs_send, on_channel_node_state, on_node_state, pending_in_states,
    running_out_states, state_after_send, submit_limit_states, submitted_record, upstream_failure, DataFlag,
    MetadataLookup, StateUpdate, UpstreamCode,
};

fn s(v: &[&str]) -> Vec<String> {
    v.iter().map(|x| x.to_string()).collect()
}

#[test]
fn send_round_results() {
    let streams = s(&["a", "b", "c"]);
    assert_eq!(send_result(&streams, &s(&[]), &vec![true, true, true]), Ok(()));
    assert_eq!(send_result(&streams, &s(&["b"]), &vec![true, false, true]), Ok(()));
    assert_eq!(send_result(&streams, &s(&["c"]), &vec![false, true, false]), Err(s(&["b", "c"])));
    assert_eq!(send_result(&streams, &s(&[]), &vec![false, false, false]), Err(s(&[])));
    assert_eq!(send_result(&s(&[]), &s(&[]), &vec![]), Ok(()));
    assert!(already_sent(&"b".to_string(), &s(&["a", "b"])));
    assert!(!already_sent(&"c".to_string(), &s(&["a", "b"])));
    let m: MultiSender<u8> = MultiSender::new(s(&["x", "y"]));
    assert_eq!(m.connects.len(), 2);
    assert!(m.connects.iter().all(|c| c.is_none()));
}

#[test]
fn finish_checks() {
    assert!(all_finished(&vec![TrackerState::Finish, TrackerState::Finish]));
    assert!(!all_finished(&vec![TrackerState::Finish, TrackerState::Ready]));
    assert!(all_finished(&vec![]));
    assert!(any_finished(&vec![TrackerState::Ready, TrackerState::Finish]));
    assert!(!any_finished(&vec![]));
    assert!(incoming_finished(true, &vec![TrackerState::Finish], 0));
    assert!(!incoming_finished(true, &vec![TrackerState::Finish], 1));
    assert!(!incoming_finished(false, &vec![TrackerState::Finish], 0));
    assert!(!incoming_finished(true, &vec![], 0));
    assert!(channel_finished(&vec![], 0));
    assert!(!channel_finished(&vec![TrackerState::Init], 0));
    assert!(media_finished(&vec![TrackerState::Init, TrackerState::Finish], 0));
    assert!(!media_finished(&vec![TrackerState::Init, TrackerState::Finish], 3));
    assert!(exceeds_buffer(31, 30));
    assert!(!exceeds_buffer(30, 30));
}

#[test]
fn state_lists() {
    assert_eq!(pending_in_states(), vec![DataState::Received, DataState::Assigned]);
    assert_eq!(submit_limit_states(), vec![DataState::Received, DataState::PartialSent]);
    assert_eq!(
        running_out_states(),
        vec![DataState::Received, DataState::Assigned, DataState::SelectForSend, DataState::PartialSent]
    );
    assert_eq!(channel_running_states(), vec![DataState::Received, DataState::Assigned, DataState::EndRecieved]);
    assert_eq!(
        media_running_states(),
        vec![DataState::Received, DataState::Assigned, DataState::SelectForSend, DataState::PartialSent, DataState::Sent]
    );
}

#[test]
fn records_of_incoming_batches() {
    let plain = DataFlag { is_keep_data: false, is_transparent_data: false };
    let r = incoming_records("n", "b", 3, plain, 1, true, 100);
    assert_eq!(r.len(), 1);
    assert_eq!((r[0].state, r[0].direction), (DataState::Received, Direction::In));
    assert_eq!(r[0].size, 3);
    assert_eq!(r[0].created_at, 100);
    let pass = DataFlag { is_keep_data: true, is_transparent_data: true };
    let r = incoming_records("n", "b", 3, pass, 2, true, 5);
    assert_eq!(r.len(), 2);
    assert_eq!((r[0].state, r[0].direction), (DataState::Received, Direction::Out));
    assert_eq!((r[1].state, r[1].direction), (DataState::Processed, Direction::In));
    let r = incoming_records("n", "b", 3, pass, 2, false, 5);
    assert_eq!(r.len(), 1);
    assert_eq!((r[0].state, r[0].direction), (DataState::Processed, Direction::In));
    let sub = submitted_record("n", "out", 30, plain, 0, 9);
    assert_eq!((sub.state, sub.direction), (DataState::Received, Direction::Out));
    assert_eq!(sub.id, "out");
    assert!(sub.sent.is_empty());
    assert!(sub.machine.is_empty());
}

#[test]
fn data_request_refusals_and_metadata() {
    match data_request_refusal(TrackerState::Finish) {
        Some(IPCError::NodeError { code, msg }) => {
            assert_eq!(code, ErrorNumber::AlreadyFinish);
            assert_eq!(msg, "node is already finish");
        }
        _ => panic!("expected a refusal"),
    }
    match data_request_refusal(TrackerState::InComingFinish) {
        Some(IPCError::NodeError { code, .. }) => assert_eq!(code, ErrorNumber::InComingFinish),
        _ => panic!("expected a refusal"),
    }
    assert!(data_request_refusal(TrackerState::Ready).is_none());

    match metadata_reply(MetadataLookup::Found { id: "m".to_string(), size: 2, cached: Ok(true) }) {
        Ok(Some(d)) => assert_eq!((d.id.as_str(), d.size), ("m", 2)),
        _ => panic!("expected data"),
    }
    match metadata_reply(MetadataLookup::Found { id: "m".to_string(), size: 2, cached: Ok(false) }) {
        Err(IPCError::NodeError { code, msg }) => {
            assert_eq!(code, ErrorNumber::DataMissing);
            assert_eq!(msg, "");
        }
        _ => panic!("expected missing data"),
    }
    assert!(matches!(
        metadata_reply(MetadataLookup::Found { id: "m".to_string(), size: 2, cached: Err("io".to_string()) }),
        Err(IPCError::UnKnown(t)) if t == "io"
    ));
    assert!(matches!(metadata_reply(MetadataLookup::Absent), Ok(None)));
    assert!(matches!(metadata_reply(MetadataLookup::Failed("db".to_string())), Err(IPCError::UnKnown(t)) if t == "db"));
}

#[test]
fn outgoing_decisions() {
    assert!(needs_send(3, 1));
    assert!(!needs_send(0, 1));
    assert!(!needs_send(3, 0));
    let down = s(&["a", "b"]);
    assert_eq!(state_after_send(Ok(()), &down), (DataState::Sent, down.clone()));
    assert_eq!(state_after_send(Err(s(&["a"])), &down), (DataState::PartialSent, s(&["a"])));
    assert!(drops_cache_after_send(DataFlag { is_keep_data: false, is_transparent_data: false }));
    assert!(!drops_cache_after_send(DataFlag { is_keep_data: true, is_transparent_data: false }));
    assert_eq!(cleanup_state(true), DataState::KeeptForMetadata);
    assert_eq!(cleanup_state(false), DataState::Clean);
    assert_eq!(upstream_failure(UpstreamCode::NotFound), (false, None));
    assert_eq!(upstream_failure(UpstreamCode::DeadlineExceeded), (true, Some("network deadline exceeded".to_string())));
    assert_eq!(upstream_failure(UpstreamCode::Unavailable), (true, Some("connect break".to_string())));
    assert_eq!(upstream_failure(UpstreamCode::Other), (false, Some("unable to retrieval data".to_string())));
    assert_eq!(check_upstreams(0), Err("no upstream".to_string()));
    assert_eq!(check_upstreams(2), Ok(()));
}

#[test]
fn state_controller_decisions() {
    assert_eq!(on_node_state(TrackerState::Ready, TrackerState::Ready), StateUpdate::Unchanged);
    assert_eq!(on_node_state(TrackerState::Init, TrackerState::Ready), StateUpdate::Changed { start_routing: true });
    assert_eq!(on_node_state(TrackerState::Ready, TrackerState::InComingFinish), StateUpdate::Changed { start_routing: true });
    assert_eq!(on_node_state(TrackerState::Ready, TrackerState::Finish), StateUpdate::Changed { start_routing: false });
    assert_eq!(on_node_state(TrackerState::Ready, TrackerState::Stop), StateUpdate::Changed { start_routing: false });
    assert_eq!(on_node_state(TrackerState::Ready, TrackerState::Init), StateUpdate::Changed { start_routing: false });
    assert!(on_channel_node_state(TrackerState::Init, TrackerState::Ready));
    assert!(!on_channel_node_state(TrackerState::Ready, TrackerState::Ready));
    assert!(!on_channel_node_state(TrackerState::Init, TrackerState::Finish));
    assert!(TrackerState::Finish.is_end_state() && TrackerState::Stop.is_end_state() && !TrackerState::InComingFinish.is_end_state());
}

#[test]
fn task_results() {
    assert_eq!(tasks_result(&vec![TaskOutcome::Finished, TaskOutcome::Finished]), Ok(()));
    assert_eq!(tasks_result(&vec![]), Ok(()));
    let err = Err("One or more tasks exited with an error".to_string());
    assert_eq!(tasks_result(&vec![TaskOutcome::Finished, TaskOutcome::Failed("x".to_string())]), err);
    assert_eq!(tasks_result(&vec![TaskOutcome::JoinFailed("p".to_string())]), err);
}
