use jiaoziflow_runtime::ipc::{AvaiableDataResponse, ErrorNumber, IPCError};
use jiaoziflow_runtime::ipc_client::{reply_action, ClientCall, ReplyAction};
use jiaoziflow_runtime::ipc_server::{
    channel_not_ready, data_reply, gate, send_failed, status_reply, unit_reply, DataOutcome, Gate, IpcRoute,
    ReplyBody, UnitOutcome,
};
use jiaoziflow_runtime::state::TrackerState;

fn rejected(g: Gate) -> (u16, ErrorNumber, String) {
    match g {
        Gate::Reject(reply) => match reply.body {
            ReplyBody::Error(IPCError::NodeError { code, msg }) => (reply.status, code, msg),
            _ => panic!("expected a node error"),
        },
        _ => panic!("expected a refusal"),
    }
}

#[test]
fn finished_node_refuses_everything() {
    for route in [IpcRoute::DataRequest, IpcRoute::CompleteData, IpcRoute::SubmitOutput] {
        let (status, code, msg) = rejected(gate(route, TrackerState::Finish));
        assert_eq!(status, 400);
        assert_eq!(code, ErrorNumber::AlreadyFinish);
        assert_eq!(msg, "node is already finish");
    }
    let (status, code, _) = rejected(gate(IpcRoute::FinishState, TrackerState::Finish));
    assert_eq!(status, 409);
    assert_eq!(code, ErrorNumber::AlreadyFinish);
}

#[test]
fn incoming_finished_node_refuses_only_data_requests() {
    let (status, code, msg) = rejected(gate(IpcRoute::DataRequest, TrackerState::InComingFinish));
    assert_eq!(status, 400);
    assert_eq!(code, ErrorNumber::InComingFinish);
    assert_eq!(msg, "incoming is already finish");
    assert!(matches!(gate(IpcRoute::SubmitOutput, TrackerState::InComingFinish), Gate::Proceed));
    assert!(matches!(gate(IpcRoute::FinishState, TrackerState::InComingFinish), Gate::Proceed));
}

#[test]
fn init_waits_and_ready_proceeds() {
    for route in [IpcRoute::DataRequest, IpcRoute::CompleteData, IpcRoute::SubmitOutput, IpcRoute::FinishState] {
        assert!(matches!(gate(route, TrackerState::Init), Gate::Wait));
        assert!(matches!(gate(route, TrackerState::Ready), Gate::Proceed));
        assert!(matches!(gate(route, TrackerState::Stop), Gate::Proceed));
    }
}

#[test]
fn replies_to_outcomes() {
    let r = data_reply(DataOutcome::Found(AvaiableDataResponse { id: "b1".to_string(), size: 3 }));
    assert_eq!(r.status, 200);
    match r.body {
        ReplyBody::Data(d) => {
            assert_eq!(d.id, "b1");
            assert_eq!(d.size, 3);
        }
        _ => panic!("expected data"),
    }
    let r = data_reply(DataOutcome::NotFound);
    assert_eq!(r.status, 404);
    match r.body {
        ReplyBody::Error(IPCError::NodeError { code, msg }) => {
            assert_eq!(code, ErrorNumber::DataNotFound);
            assert_eq!(msg, "no avaiable data");
        }
        _ => panic!("expected a node error"),
    }
    assert_eq!(data_reply(DataOutcome::Failed("db".to_string())).status, 500);
    assert_eq!(data_reply(DataOutcome::Dropped("gone".to_string())).status, 503);
    let r = unit_reply(UnitOutcome::Done);
    assert_eq!(r.status, 200);
    assert!(matches!(r.body, ReplyBody::Empty));
    assert_eq!(unit_reply(UnitOutcome::Failed("x".to_string())).status, 500);
    assert_eq!(unit_reply(UnitOutcome::Dropped("x".to_string())).status, 503);
    let r = status_reply(TrackerState::Ready);
    assert_eq!(r.status, 200);
    assert!(matches!(r.body, ReplyBody::State(s) if s.state == TrackerState::Ready));
}

#[test]
fn channel_failures() {
    let r = channel_not_ready();
    assert_eq!(r.status, 500);
    assert!(matches!(r.body, ReplyBody::Text(t) if t == "channel is not ready maybe not start route data"));
    let r = send_failed(IpcRoute::FinishState, "closed");
    assert!(matches!(r.body, ReplyBody::Text(t) if t == "send to finish state channel closed"));
    let r = send_failed(IpcRoute::SubmitOutput, "closed");
    assert!(matches!(r.body, ReplyBody::Text(t) if t == "send to avaiable data channel closed"));
}

#[test]
fn client_reads_statuses() {
    assert_eq!(reply_action(ClientCall::RequestData, 404), ReplyAction::NoData);
    assert_eq!(reply_action(ClientCall::RequestData, 200), ReplyAction::ReadValue);
    assert_eq!(reply_action(ClientCall::RequestData, 400), ReplyAction::ReadError);
    assert_eq!(reply_action(ClientCall::Status, 200), ReplyAction::ReadValue);
    assert_eq!(reply_action(ClientCall::Status, 404), ReplyAction::ReadError);
    assert_eq!(reply_action(ClientCall::Finish, 204), ReplyAction::Succeed);
    assert_eq!(reply_action(ClientCall::Finish, 409), ReplyAction::ReadError);
    assert_eq!(reply_action(ClientCall::SubmitOutput, 299), ReplyAction::Succeed);
    assert_eq!(reply_action(ClientCall::CompleteResult, 300), ReplyAction::ReadError);
    assert_eq!(reply_action(ClientCall::CompleteResult, 199), ReplyAction::ReadError);
}

#[test]
fn refused_request_is_read_as_error() {
    let (status, _, _) = rejected(gate(IpcRoute::FinishState, TrackerState::Finish));
    assert_eq!(reply_action(ClientCall::Finish, status), ReplyAction::ReadError);
    let r = data_reply(DataOutcome::NotFound);
    assert_eq!(reply_action(ClientCall::RequestData, r.status), ReplyAction::NoData);
}
