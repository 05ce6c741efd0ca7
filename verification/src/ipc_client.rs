//! How the user container's IPC client reads each reply status.
use crate::ipc_server::{
    data_reply_status, finished_status, unit_reply_status, DataOutcome, IpcRoute, UnitOutcome,
    HTTP_BAD_REQUEST, HTTP_NOT_FOUND,
};
use vstd::prelude::*;

verus! {

/// The calls the client makes.
#[derive(Clone, Copy, Debug, PartialEq, Eq, Structural)]
pub enum ClientCall {
    Finish,
    Status,
    SubmitOutput,
    RequestData,
    CompleteResult,
}

/// What the client does with a reply.
#[derive(Clone, Copy, Debug, PartialEq, Eq, Structural)]
pub enum ReplyAction {
    /// The call succeeded and its body is not read.
    Succeed,
    /// There is no data: the call gives `None`.
    NoData,
    /// Read the body as an error and fail with it.
    ReadError,
    /// Read the body as the value the call returns.
    ReadValue,
}

/// A 2xx status.
pub open spec fn is_success(status: u16) -> bool {
    200 <= status <= 299
}

/// What the client does with a reply of `status` to `call`.
pub open spec fn reply_action_spec(call: ClientCall, status: u16) -> ReplyAction {
    match call {
        ClientCall::RequestData => if status == HTTP_NOT_FOUND {
            ReplyAction::NoData
        } else if is_success(status) {
            ReplyAction::ReadValue
        } else {
            ReplyAction::ReadError
        },
        ClientCall::Status => if is_success(status) {
            ReplyAction::ReadValue
        } else {
            ReplyAction::ReadError
        },
        _ => if is_success(status) {
            ReplyAction::Succeed
        } else {
            ReplyAction::ReadError
        },
    }
}

/// What the client does with a reply of `status` to `call`.
pub fn reply_action(call: ClientCall, status: u16) -> (r: ReplyAction)
    ensures
        r == reply_action_spec(call, status),
{
    let success = 200 <= status && status <= 299;
    match call {
        ClientCall::RequestData => {
            if status == 404 {
                ReplyAction::NoData
            } else if success {
                ReplyAction::ReadValue
            } else {
                ReplyAction::ReadError
            }
        },
        ClientCall::Status => {
            if success {
                ReplyAction::ReadValue
            } else {
                ReplyAction::ReadError
            }
        },
        _ => {
            if success {
                ReplyAction::Succeed
            } else {
                ReplyAction::ReadError
            }
        },
    }
}

/// The route a client call is served on.
pub open spec fn route_of(call: ClientCall) -> IpcRoute {
    match call {
        ClientCall::Finish => IpcRoute::FinishState,
        ClientCall::SubmitOutput => IpcRoute::SubmitOutput,
        ClientCall::CompleteResult => IpcRoute::CompleteData,
        _ => IpcRoute::DataRequest,
    }
}

/// Law of the protocol: the client reads the server's answer to a data
/// request as the server meant it: a batch as a value, "no data" as `None`,
/// and every failure as an error.
pub proof fn lemma_data_replies_read_as_meant(o: DataOutcome)
    ensures
        reply_action_spec(ClientCall::RequestData, data_reply_status(o)) == match o {
            DataOutcome::Found(_) => ReplyAction::ReadValue,
            DataOutcome::NotFound => ReplyAction::NoData,
            _ => ReplyAction::ReadError,
        },
{
}

/// Law of the protocol: the answer to any other request is read as success
/// exactly when the tracker did the work.
pub proof fn lemma_unit_replies_read_as_meant(call: ClientCall, o: UnitOutcome)
    requires
        call == ClientCall::Finish || call == ClientCall::SubmitOutput || call == ClientCall::CompleteResult,
    ensures
        reply_action_spec(call, unit_reply_status(o)) == if o is Done {
            ReplyAction::Succeed
        } else {
            ReplyAction::ReadError
        },
{
}

/// Law of the protocol: a request refused because the node has finished is
/// read by the client as an error, whatever the call.
pub proof fn lemma_refusals_read_as_errors(call: ClientCall)
    ensures
        reply_action_spec(call, finished_status(route_of(call))) == ReplyAction::ReadError,
        reply_action_spec(call, HTTP_BAD_REQUEST) == ReplyAction::ReadError,
{
}

} // verus!
