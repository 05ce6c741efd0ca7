//! Decisions of the data container's IPC server: which requests it takes
//! in the current node state, and how each outcome is answered.
use crate::ipc::{AvaiableDataResponse, ErrorNumber, IPCError, IPCErrorView, Status};
use crate::state::TrackerState;
use vstd::prelude::*;

verus! {

pub const HTTP_OK: u16 = 200;

pub const HTTP_BAD_REQUEST: u16 = 400;

pub const HTTP_NOT_FOUND: u16 = 404;

pub const HTTP_CONFLICT: u16 = 409;

pub const HTTP_INTERNAL_SERVER_ERROR: u16 = 500;

pub const HTTP_SERVICE_UNAVAILABLE: u16 = 503;

/// The requests the server answers.
#[derive(Clone, Copy, Debug, PartialEq, Eq, Structural)]
pub enum IpcRoute {
    /// `GET /api/v1/data`: ask for a batch to process.
    DataRequest,
    /// `POST /api/v1/data`: a batch has been processed.
    CompleteData,
    /// `POST /api/v1/submit`: a new output batch.
    SubmitOutput,
    /// `POST /api/v1/status`: the user container has finished.
    FinishState,
}

/// What goes in the body of a reply.
pub enum ReplyBody {
    Data(AvaiableDataResponse),
    Error(IPCError),
    Text(String),
    State(Status),
    Empty,
}

/// A reply: its HTTP status and its body.
pub struct HttpReply {
    pub status: u16,
    pub body: ReplyBody,
}

/// What the server does with a request in the current node state.
pub enum Gate {
    /// The node has not started routing data yet: wait and look again.
    Wait,
    /// Hand the request to the tracker.
    Proceed,
    /// Refuse the request with this reply.
    Reject(HttpReply),
}

/// `reply` carries the node error `code` with message `msg` under `status`.
pub open spec fn is_node_error_reply(reply: HttpReply, status: u16, code: ErrorNumber, msg: Seq<char>) -> bool {
    &&& reply.status == status
    &&& reply.body matches ReplyBody::Error(e) && e@ == IPCErrorView::NodeError { code, msg }
}

/// The status under which a request on `route` is refused once the node has
/// finished.
pub open spec fn finished_status(route: IpcRoute) -> u16 {
    if route == IpcRoute::FinishState {
        HTTP_CONFLICT
    } else {
        HTTP_BAD_REQUEST
    }
}

fn node_error_reply(status: u16, code: ErrorNumber, msg: &str) -> (r: HttpReply)
    ensures
        is_node_error_reply(r, status, code, msg@),
{
    HttpReply { status, body: ReplyBody::Error(IPCError::NodeError { code, msg: msg.to_owned() }) }
}

/// The server's decision on a request on `route` while the node is in
/// `state`: a finished node refuses everything, a node whose inputs have
/// finished refuses new data requests, a node that has not started makes
/// the request wait, and any other node takes it.
pub fn gate(route: IpcRoute, state: TrackerState) -> (r: Gate)
    ensures
        state == TrackerState::Finish ==> (r matches Gate::Reject(reply) && is_node_error_reply(
            reply,
            finished_status(route),
            ErrorNumber::AlreadyFinish,
            "node is already finish"@,
        )),
        state == TrackerState::InComingFinish && route == IpcRoute::DataRequest ==> (r matches Gate::Reject(reply)
            && is_node_error_reply(
            reply,
            HTTP_BAD_REQUEST,
            ErrorNumber::InComingFinish,
            "incoming is already finish"@,
        )),
        state == TrackerState::Init ==> r is Wait,
        state != TrackerState::Finish && state != TrackerState::Init && !(state == TrackerState::InComingFinish
            && route == IpcRoute::DataRequest) ==> r is Proceed,
{
    match state {
        TrackerState::Finish => {
            let status = if route == IpcRoute::FinishState {
                HTTP_CONFLICT
            } else {
                HTTP_BAD_REQUEST
            };
            Gate::Reject(node_error_reply(status, ErrorNumber::AlreadyFinish, "node is already finish"))
        },
        TrackerState::InComingFinish => {
            if route == IpcRoute::DataRequest {
                Gate::Reject(
                    node_error_reply(HTTP_BAD_REQUEST, ErrorNumber::InComingFinish, "incoming is already finish"),
                )
            } else {
                Gate::Proceed
            }
        },
        TrackerState::Init => Gate::Wait,
        _ => Gate::Proceed,
    }
}

/// The reply when the tracker has not opened the channel for the request.
pub fn channel_not_ready() -> (r: HttpReply)
    ensures
        r.status == HTTP_INTERNAL_SERVER_ERROR,
        r.body matches ReplyBody::Text(t) && t@ == "channel is not ready maybe not start route data"@,
{
    HttpReply {
        status: HTTP_INTERNAL_SERVER_ERROR,
        body: ReplyBody::Text(String::from_str("channel is not ready maybe not start route data")),
    }
}

/// The prefix of the message when a request cannot be handed to the tracker.
pub open spec fn send_failure_prefix(route: IpcRoute) -> Seq<char> {
    if route == IpcRoute::FinishState {
        "send to finish state channel "@
    } else {
        "send to avaiable data channel "@
    }
}

/// The reply when handing the request to the tracker failed with `err`.
pub fn send_failed(route: IpcRoute, err: &str) -> (r: HttpReply)
    ensures
        r.status == HTTP_INTERNAL_SERVER_ERROR,
        r.body matches ReplyBody::Text(t) && t@ == send_failure_prefix(route) + err@,
{
    let prefix = if route == IpcRoute::FinishState {
        "send to finish state channel "
    } else {
        "send to avaiable data channel "
    };
    HttpReply { status: HTTP_INTERNAL_SERVER_ERROR, body: ReplyBody::Text(String::from_str(prefix).concat(err)) }
}

/// How the tracker answered a data request.
pub enum DataOutcome {
    /// A batch is available.
    Found(AvaiableDataResponse),
    /// No batch is available.
    NotFound,
    /// The tracker failed with this message.
    Failed(String),
    /// The tracker dropped the request; the text says why.
    Dropped(String),
}

/// How the tracker answered any other request.
pub enum UnitOutcome {
    Done,
    Failed(String),
    Dropped(String),
}

/// The status of the reply to a data request with outcome `o`.
pub open spec fn data_reply_status(o: DataOutcome) -> u16 {
    match o {
        DataOutcome::Found(_) => HTTP_OK,
        DataOutcome::NotFound => HTTP_NOT_FOUND,
        DataOutcome::Failed(_) => HTTP_INTERNAL_SERVER_ERROR,
        DataOutcome::Dropped(_) => HTTP_SERVICE_UNAVAILABLE,
    }
}

/// The status of the reply to any other request with outcome `o`.
pub open spec fn unit_reply_status(o: UnitOutcome) -> u16 {
    match o {
        UnitOutcome::Done => HTTP_OK,
        UnitOutcome::Failed(_) => HTTP_INTERNAL_SERVER_ERROR,
        UnitOutcome::Dropped(_) => HTTP_SERVICE_UNAVAILABLE,
    }
}

/// The reply to a data request: the batch, a `DataNotFound` node error, or
/// the failure text.
pub fn data_reply(outcome: DataOutcome) -> (r: HttpReply)
    ensures
        r.status == data_reply_status(outcome),
        outcome matches DataOutcome::Found(d) ==> r.body == ReplyBody::Data(d),
        outcome is NotFound ==> is_node_error_reply(r, HTTP_NOT_FOUND, ErrorNumber::DataNotFound, "no avaiable data"@),
        outcome matches DataOutcome::Failed(t) ==> r.body == ReplyBody::Text(t),
        outcome matches DataOutcome::Dropped(t) ==> r.body == ReplyBody::Text(t),
{
    match outcome {
        DataOutcome::Found(d) => HttpReply { status: HTTP_OK, body: ReplyBody::Data(d) },
        DataOutcome::NotFound => node_error_reply(HTTP_NOT_FOUND, ErrorNumber::DataNotFound, "no avaiable data"),
        DataOutcome::Failed(t) => HttpReply { status: HTTP_INTERNAL_SERVER_ERROR, body: ReplyBody::Text(t) },
        DataOutcome::Dropped(t) => HttpReply { status: HTTP_SERVICE_UNAVAILABLE, body: ReplyBody::Text(t) },
    }
}

/// The reply to any other request: empty on success, else the failure text.
pub fn unit_reply(outcome: UnitOutcome) -> (r: HttpReply)
    ensures
        r.status == unit_reply_status(outcome),
        outcome is Done ==> r.body is Empty,
        outcome matches UnitOutcome::Failed(t) ==> r.body == ReplyBody::Text(t),
        outcome matches UnitOutcome::Dropped(t) ==> r.body == ReplyBody::Text(t),
{
    match outcome {
        UnitOutcome::Done => HttpReply { status: HTTP_OK, body: ReplyBody::Empty },
        UnitOutcome::Failed(t) => HttpReply { status: HTTP_INTERNAL_SERVER_ERROR, body: ReplyBody::Text(t) },
        UnitOutcome::Dropped(t) => HttpReply { status: HTTP_SERVICE_UNAVAILABLE, body: ReplyBody::Text(t) },
    }
}

/// The reply to a status request: the node state.
pub fn status_reply(state: TrackerState) -> (r: HttpReply)
    ensures
        r.status == HTTP_OK,
        r.body matches ReplyBody::State(s) && s.state == state,
{
    HttpReply { status: HTTP_OK, body: ReplyBody::State(Status { state }) }
}

/// Kinds of malformed request bodies.
#[derive(Clone, Copy, Debug, PartialEq, Eq, Structural)]
pub enum PayloadError {
    /// The body is not declared as JSON.
    ContentType,
    /// The body is JSON but does not fit the request's fields.
    DataMismatch,
    /// Anything else (unreadable JSON, overflow, ...).
    Other,
}

pub const HTTP_UNSUPPORTED_MEDIA_TYPE: u16 = 415;

pub const HTTP_UNPROCESSABLE_ENTITY: u16 = 422;

/// The status a malformed request body is answered with.
pub fn payload_error_status(kind: PayloadError) -> (r: u16)
    ensures
        kind == PayloadError::ContentType ==> r == HTTP_UNSUPPORTED_MEDIA_TYPE,
        kind == PayloadError::DataMismatch ==> r == HTTP_UNPROCESSABLE_ENTITY,
        kind == PayloadError::Other ==> r == HTTP_BAD_REQUEST,
{
    match kind {
        PayloadError::ContentType => HTTP_UNSUPPORTED_MEDIA_TYPE,
        PayloadError::DataMismatch => HTTP_UNPROCESSABLE_ENTITY,
        PayloadError::Other => HTTP_BAD_REQUEST,
    }
}

/// Law of the server's replies: a reply is a success (2xx) exactly when the
/// tracker did the work or found a batch; "no data" is `404`; a node that has
/// finished refuses a finish report with `409` and any other request with
/// `400`; and a node error reply carries exactly the number and message it
/// was made with.
pub proof fn lemma_reply_statuses(route: IpcRoute, d: DataOutcome, u: UnitOutcome, reply: HttpReply, status: u16, code: ErrorNumber, msg: Seq<char>)
    ensures
        (200 <= data_reply_status(d) <= 299) <==> d is Found,
        data_reply_status(d) == 404 <==> d is NotFound,
        (200 <= unit_reply_status(u) <= 299) <==> u is Done,
        finished_status(route) == 409 <==> route == IpcRoute::FinishState,
        finished_status(route) == 400 <==> route != IpcRoute::FinishState,
        is_node_error_reply(reply, status, code, msg) ==> reply.status == status && (reply.body matches ReplyBody::Error(
            IPCError::NodeError { code: c, msg: m },
        ) && c == code && m@ == msg),
{
}

} // verus!
