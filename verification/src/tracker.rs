//! Decisions of the data trackers: when a node has finished, what a request
//! is answered, which records a batch leaves in the job database, and what
//! the state controller does when the recorded node state changes.
use crate::ipc::{AvaiableDataResponse, ErrorNumber, IPCError, IPCErrorView};
use crate::state::{DataState, Direction, TrackerState};
use vstd::prelude::*;

verus! {

/// What a tracker knows of its node: its name, its buffer limit, the nodes
/// it waits for, its upstream and downstream addresses, and its state.
pub struct TrackerInfo {
    pub name: String,
    pub buf_size: usize,
    pub up_nodes: Vec<String>,
    pub upstreams: Vec<String>,
    pub downstreams: Vec<String>,
    pub local_state: TrackerState,
}

impl TrackerInfo {
    /// A tracker of the node `name` that has not started yet.
    pub fn new(name: &str, buf_size: usize, up_nodes: Vec<String>, upstreams: Vec<String>, downstreams: Vec<String>) -> (r: Self)
        ensures
            r.name@ == name@,
            r.buf_size == buf_size,
            r.up_nodes == up_nodes,
            r.upstreams == upstreams,
            r.downstreams == downstreams,
            r.local_state == TrackerState::Init,
    {
        TrackerInfo { name: name.to_owned(), buf_size, up_nodes, upstreams, downstreams, local_state: TrackerState::Init }
    }
}

/// Flags a batch carries through the pipeline.
#[derive(Clone, Copy, Debug, PartialEq, Eq, Structural)]
pub struct DataFlag {
    /// Keep the cached files after the batch has been sent.
    pub is_keep_data: bool,
    /// Pass the batch straight through without handing it to the user
    /// container.
    pub is_transparent_data: bool,
}

/// One record of the job database: a batch, in one node and one direction.
pub struct DataRecord {
    pub node_name: String,
    pub id: String,
    pub size: u32,
    pub sent: Vec<String>,
    pub machine: String,
    pub flag: DataFlag,
    pub priority: u8,
    pub state: DataState,
    pub direction: Direction,
    pub created_at: i64,
    pub updated_at: i64,
}

/// `r` is a fresh record of batch `id` in node `node_name`, in `state` and
/// `direction`, created and updated at `tm`, not sent anywhere and not
/// taken by any machine.
pub open spec fn is_fresh_record(
    r: DataRecord,
    node_name: Seq<char>,
    id: Seq<char>,
    size: u32,
    flag: DataFlag,
    priority: u8,
    state: DataState,
    direction: Direction,
    tm: i64,
) -> bool {
    &&& r.node_name@ == node_name
    &&& r.id@ == id
    &&& r.size == size
    &&& r.sent@.len() == 0
    &&& r.machine@.len() == 0
    &&& r.flag == flag
    &&& r.priority == priority
    &&& r.state == state
    &&& r.direction == direction
    &&& r.created_at == tm
    &&& r.updated_at == tm
}

/// A fresh record of batch `id`.
pub fn fresh_record(
    node_name: &str,
    id: &str,
    size: u32,
    flag: DataFlag,
    priority: u8,
    state: DataState,
    direction: Direction,
    tm: i64,
) -> (r: DataRecord)
    ensures
        is_fresh_record(r, node_name@, id@, size, flag, priority, state, direction, tm),
        r.priority == priority,
        r.flag == flag,
        r.id@ == id@,
        r.size == size,
{
    DataRecord {
        node_name: node_name.to_owned(),
        id: id.to_owned(),
        size,
        sent: Vec::new(),
        machine: String::new(),
        flag,
        priority,
        state,
        direction,
        created_at: tm,
        updated_at: tm,
    }
}

/// Law of the job records: a record made for a batch carries what was given
/// for that batch, whatever it is: its node, identifier, size, flags and
/// priority, the state and direction asked for, and the time given for both
/// its stamps; it is not yet sent anywhere nor taken by any machine.
pub proof fn lemma_fresh_record_carries_batch(
    r: DataRecord,
    node_name: Seq<char>,
    id: Seq<char>,
    size: u32,
    flag: DataFlag,
    priority: u8,
    state: DataState,
    direction: Direction,
    tm: i64,
)
    requires
        is_fresh_record(r, node_name, id, size, flag, priority, state, direction, tm),
    ensures
        r.node_name@ == node_name,
        r.id@ == id,
        r.size == size,
        r.flag == flag,
        r.priority == priority,
        r.state == state,
        r.direction == direction,
        r.created_at == tm,
        r.updated_at == tm,
        r.sent@.len() == 0,
        r.machine@.len() == 0,
{
}

/// Law of an arriving batch's records: one or two records are made, each
/// carrying the batch's node, identifier, size, flags and priority and the
/// time it was stored; the last is always the incoming record, processed
/// already for a pass-through batch and received otherwise; an outgoing
/// record comes first only for a pass-through batch on a node with
/// downstreams.
pub proof fn lemma_incoming_records_carry_batch(
    recs: Seq<DataRecord>,
    node_name: Seq<char>,
    id: Seq<char>,
    size: u32,
    flag: DataFlag,
    priority: u8,
    has_outgoing: bool,
    tm: i64,
)
    requires
        plans_incoming(recs, node_name, id, size, flag, priority, has_outgoing, tm),
    ensures
        1 <= recs.len() <= 2,
        recs.len() == 2 <==> (flag.is_transparent_data && has_outgoing),
        forall|i: int|
            0 <= i < recs.len() ==> {
                &&& (#[trigger] recs[i]).node_name@ == node_name
                &&& recs[i].id@ == id
                &&& recs[i].size == size
                &&& recs[i].flag == flag
                &&& recs[i].priority == priority
                &&& recs[i].created_at == tm
                &&& recs[i].updated_at == tm
                &&& recs[i].sent@.len() == 0
            },
        recs.last().direction == Direction::In,
        recs.last().state == (if flag.is_transparent_data {
            DataState::Processed
        } else {
            DataState::Received
        }),
        recs.len() == 2 ==> recs[0].direction == Direction::Out && recs[0].state == DataState::Received,
{
}

/// The current time in seconds since the epoch, read with
/// `chrono::Utc::now().timestamp()`.  Nothing is claimed of the value: it
/// depends on the clock.
#[verifier::external_body]
pub(crate) fn now_timestamp() -> (r: i64) {
    chrono::Utc::now().timestamp()
}

/// The record left by an output batch that the user container submits: an
/// outgoing batch waiting to be sent.
pub fn submitted_record(node_name: &str, id: &str, size: u32, flag: DataFlag, priority: u8, tm: i64) -> (r: DataRecord)
    ensures
        is_fresh_record(r, node_name@, id@, size, flag, priority, DataState::Received, Direction::Out, tm),
        r.priority == priority,
        r.flag == flag,
        r.id@ == id@,
        r.size == size,
        r.state == DataState::Received,
        r.direction == Direction::Out,
{
    fresh_record(node_name, id, size, flag, priority, DataState::Received, Direction::Out, tm)
}

/// `recs` are the records left by the batch `id` arriving from upstream at
/// `tm`, in insertion order: a pass-through batch is recorded as already
/// processed on the way in and, when the node has downstreams, first as
/// waiting to be sent on the way out; any other batch is recorded as
/// received, for the user container to take.
pub open spec fn plans_incoming(
    recs: Seq<DataRecord>,
    node_name: Seq<char>,
    id: Seq<char>,
    size: u32,
    flag: DataFlag,
    priority: u8,
    has_outgoing: bool,
    tm: i64,
) -> bool {
    if flag.is_transparent_data {
        if has_outgoing {
            &&& recs.len() == 2
            &&& is_fresh_record(recs[0], node_name, id, size, flag, priority, DataState::Received, Direction::Out, tm)
            &&& is_fresh_record(recs[1], node_name, id, size, flag, priority, DataState::Processed, Direction::In, tm)
        } else {
            &&& recs.len() == 1
            &&& is_fresh_record(recs[0], node_name, id, size, flag, priority, DataState::Processed, Direction::In, tm)
        }
    } else {
        &&& recs.len() == 1
        &&& is_fresh_record(recs[0], node_name, id, size, flag, priority, DataState::Received, Direction::In, tm)
    }
}

/// The records left by a batch arriving from upstream, in the order they
/// are inserted.
pub fn incoming_records(
    node_name: &str,
    id: &str,
    size: u32,
    flag: DataFlag,
    priority: u8,
    has_outgoing: bool,
    tm: i64,
) -> (r: Vec<DataRecord>)
    ensures
        plans_incoming(r@, node_name@, id@, size, flag, priority, has_outgoing, tm),
        forall|i: int|
            0 <= i < r@.len() ==> (#[trigger] r@[i]).priority == priority && r@[i].flag == flag && r@[i].id@ == id@
                && r@[i].size == size,
{
    let mut r: Vec<DataRecord> = Vec::new();
    if flag.is_transparent_data {
        if has_outgoing {
            r.push(fresh_record(node_name, id, size, flag, priority, DataState::Received, Direction::Out, tm));
        }
        r.push(fresh_record(node_name, id, size, flag, priority, DataState::Processed, Direction::In, tm));
    } else {
        r.push(fresh_record(node_name, id, size, flag, priority, DataState::Received, Direction::In, tm));
    }
    r
}

/// Whether `count` waiting batches exceed the buffer of `buf_size`.
pub fn exceeds_buffer(count: usize, buf_size: usize) -> (r: bool)
    ensures
        r == (count > buf_size),
{
    count > buf_size
}

/// Every node in `states` has finished.
pub open spec fn all_finished_spec(states: Seq<TrackerState>) -> bool {
    forall|i: int| 0 <= i < states.len() ==> states[i] == TrackerState::Finish
}

/// Some node in `states` has finished.
pub open spec fn any_finished_spec(states: Seq<TrackerState>) -> bool {
    exists|i: int| 0 <= i < states.len() && states[i] == TrackerState::Finish
}

/// Whether every upstream node has finished (true when there is none).
pub fn all_finished(states: &Vec<TrackerState>) -> (r: bool)
    ensures
        r == all_finished_spec(states@),
{
    let n = states.len();
    let mut i: usize = 0;
    while i < n
        invariant
            n == states@.len(),
            i <= n,
            forall|j: int| 0 <= j < i ==> states@[j] == TrackerState::Finish,
        decreases n - i,
    {
        if states[i] != TrackerState::Finish {
            return false;
        }
        i = i + 1;
    }
    true
}

/// Whether some upstream node has finished.
pub fn any_finished(states: &Vec<TrackerState>) -> (r: bool)
    ensures
        r == any_finished_spec(states@),
{
    let n = states.len();
    let mut i: usize = 0;
    while i < n
        invariant
            n == states@.len(),
            i <= n,
            forall|j: int| 0 <= j < i ==> states@[j] != TrackerState::Finish,
        decreases n - i,
    {
        if states[i] == TrackerState::Finish {
            return true;
        }
        i = i + 1;
    }
    false
}

/// Whether the compute node's incoming side has finished: the check is still
/// due, the node has upstreams, all of them have finished, and no incoming
/// batch is still waiting or being processed.
pub fn incoming_finished(to_check: bool, up_states: &Vec<TrackerState>, pending_in: usize) -> (r: bool)
    ensures
        r == (to_check && up_states@.len() > 0 && all_finished_spec(up_states@) && pending_in == 0),
{
    if !to_check || up_states.len() == 0 {
        return false;
    }
    all_finished(up_states) && pending_in == 0
}

/// Whether a channel node has finished: all its upstreams have finished and
/// no batch is left to hand out.
pub fn channel_finished(up_states: &Vec<TrackerState>, pending: usize) -> (r: bool)
    ensures
        r == (all_finished_spec(up_states@) && pending == 0),
{
    all_finished(up_states) && pending == 0
}

/// Whether a media node has finished: some upstream has finished and no
/// outgoing batch is left.
pub fn media_finished(up_states: &Vec<TrackerState>, pending: usize) -> (r: bool)
    ensures
        r == (any_finished_spec(up_states@) && pending == 0),
{
    any_finished(up_states) && pending == 0
}

/// States of incoming batches that still wait for the user container.
pub fn pending_in_states() -> (r: Vec<DataState>)
    ensures
        r@ == seq![DataState::Received, DataState::Assigned],
{
    let mut r = Vec::new();
    r.push(DataState::Received);
    r.push(DataState::Assigned);
    r
}

/// States of outgoing batches counted against the buffer when a new output
/// is submitted.
pub fn submit_limit_states() -> (r: Vec<DataState>)
    ensures
        r@ == seq![DataState::Received, DataState::PartialSent],
{
    let mut r = Vec::new();
    r.push(DataState::Received);
    r.push(DataState::PartialSent);
    r
}

/// States of outgoing batches that must be gone before a compute node may
/// finish.
pub fn running_out_states() -> (r: Vec<DataState>)
    ensures
        r@ == seq![DataState::Received, DataState::Assigned, DataState::SelectForSend, DataState::PartialSent],
{
    let mut r = Vec::new();
    r.push(DataState::Received);
    r.push(DataState::Assigned);
    r.push(DataState::SelectForSend);
    r.push(DataState::PartialSent);
    r
}

/// States of outgoing batches that must be gone before a media node may
/// finish.
pub fn media_running_states() -> (r: Vec<DataState>)
    ensures
        r@ == seq![
            DataState::Received,
            DataState::Assigned,
            DataState::SelectForSend,
            DataState::PartialSent,
            DataState::Sent,
        ],
{
    let mut r = Vec::new();
    r.push(DataState::Received);
    r.push(DataState::Assigned);
    r.push(DataState::SelectForSend);
    r.push(DataState::PartialSent);
    r.push(DataState::Sent);
    r
}

/// States of batches that must be gone before a channel node may finish.
pub fn channel_running_states() -> (r: Vec<DataState>)
    ensures
        r@ == seq![DataState::Received, DataState::Assigned, DataState::EndRecieved],
{
    let mut r = Vec::new();
    r.push(DataState::Received);
    r.push(DataState::Assigned);
    r.push(DataState::EndRecieved);
    r
}

/// The error for a data request that the node no longer serves, if any.
pub fn data_request_refusal(state: TrackerState) -> (r: Option<IPCError>)
    ensures
        state == TrackerState::Finish ==> (r matches Some(e) && e@ == IPCErrorView::NodeError {
            code: ErrorNumber::AlreadyFinish,
            msg: "node is already finish"@,
        }),
        state == TrackerState::InComingFinish ==> (r matches Some(e) && e@ == IPCErrorView::NodeError {
            code: ErrorNumber::InComingFinish,
            msg: "node is already finish"@,
        }),
        state != TrackerState::Finish && state != TrackerState::InComingFinish ==> r is None,
{
    match state {
        TrackerState::Finish => Some(
            IPCError::NodeError { code: ErrorNumber::AlreadyFinish, msg: String::from_str("node is already finish") },
        ),
        TrackerState::InComingFinish => Some(
            IPCError::NodeError { code: ErrorNumber::InComingFinish, msg: String::from_str("node is already finish") },
        ),
        _ => None,
    }
}

/// What was found for a request naming a metadata batch.
pub enum MetadataLookup {
    /// The record exists; `cached` tells whether its files are in the cache,
    /// or why that could not be told.
    Found { id: String, size: u32, cached: Result<bool, String> },
    /// No such record.
    Absent,
    /// The database lookup failed.
    Failed(String),
}

/// The answer to a request naming a metadata batch: the batch when its
/// record and its files are there, nothing when there is no record, and an
/// error otherwise.
pub fn metadata_reply(lookup: MetadataLookup) -> (r: Result<Option<AvaiableDataResponse>, IPCError>)
    ensures
        match lookup {
            MetadataLookup::Found { id, size, cached: Ok(true) } => r matches Ok(Some(d)) && d.id@ == id@ && d.size
                == size,
            MetadataLookup::Found { cached: Ok(false), .. } => r matches Err(e) && e@ == IPCErrorView::NodeError {
                code: ErrorNumber::DataMissing,
                msg: Seq::empty(),
            },
            MetadataLookup::Found { cached: Err(t), .. } => r matches Err(e) && e@ == IPCErrorView::UnKnown(t@),
            MetadataLookup::Absent => r matches Ok(None),
            MetadataLookup::Failed(t) => r matches Err(e) && e@ == IPCErrorView::UnKnown(t@),
        },
{
    match lookup {
        MetadataLookup::Found { id, size, cached } => match cached {
            Ok(true) => Ok(Some(AvaiableDataResponse { id, size })),
            Ok(false) => Err(IPCError::NodeError { code: ErrorNumber::DataMissing, msg: String::new() }),
            Err(t) => Err(IPCError::UnKnown(t)),
        },
        MetadataLookup::Absent => Ok(None),
        MetadataLookup::Failed(t) => Err(IPCError::UnKnown(t)),
    }
}

/// Whether an outgoing batch of `size` files goes over the network: only a
/// non-empty batch, and only when the node has downstreams.
pub fn needs_send(size: u32, downstreams: usize) -> (r: bool)
    ensures
        r == (size > 0 && downstreams > 0),
{
    size > 0 && downstreams > 0
}

/// The state an outgoing batch is recorded in after a round of sends, with
/// the downstreams recorded as having it: all of them after a full round,
/// the ones reached after a partial one.
pub fn state_after_send(round: Result<(), Vec<String>>, downstreams: &Vec<String>) -> (r: (DataState, Vec<String>))
    ensures
        round is Ok ==> r.0 == DataState::Sent && r.1@ == downstreams@,
        round matches Err(reached) ==> r.0 == DataState::PartialSent && r.1@ == reached@,
{
    match round {
        Ok(()) => (DataState::Sent, downstreams.clone()),
        Err(reached) => (DataState::PartialSent, reached),
    }
}

/// Whether the cached files of a sent batch are dropped.
pub fn drops_cache_after_send(flag: DataFlag) -> (r: bool)
    ensures
        r == !flag.is_keep_data,
{
    !flag.is_keep_data
}

/// The state a delivered batch moves to when the channel node cleans up: a
/// metadata batch is kept for later requests, any other is cleaned once its
/// files are gone.
pub fn cleanup_state(is_metadata: bool) -> (r: DataState)
    ensures
        is_metadata ==> r == DataState::KeeptForMetadata,
        !is_metadata ==> r == DataState::Clean,
{
    if is_metadata {
        DataState::KeeptForMetadata
    } else {
        DataState::Clean
    }
}

/// Status codes an upstream channel may answer a data request with.
#[derive(Clone, Copy, Debug, PartialEq, Eq, Structural)]
pub enum UpstreamCode {
    NotFound,
    DeadlineExceeded,
    Unavailable,
    Other,
}

/// What the tracker does when an upstream refuses a data request: whether
/// the connection is dropped, and the answer to the user container
/// (`None` for "no data", else the failure text).
pub fn upstream_failure(code: UpstreamCode) -> (r: (bool, Option<String>))
    ensures
        code == UpstreamCode::NotFound ==> !r.0 && r.1 is None,
        code == UpstreamCode::DeadlineExceeded ==> r.0 && (r.1 matches Some(t) && t@ == "network deadline exceeded"@),
        code == UpstreamCode::Unavailable ==> r.0 && (r.1 matches Some(t) && t@ == "connect break"@),
        code == UpstreamCode::Other ==> !r.0 && (r.1 matches Some(t) && t@ == "unable to retrieval data"@),
{
    match code {
        UpstreamCode::NotFound => (false, None),
        UpstreamCode::DeadlineExceeded => (true, Some(String::from_str("network deadline exceeded"))),
        UpstreamCode::Unavailable => (true, Some(String::from_str("connect break"))),
        UpstreamCode::Other => (false, Some(String::from_str("unable to retrieval data"))),
    }
}

/// A channel node needs upstreams before it routes data.
pub fn check_upstreams(count: usize) -> (r: Result<(), String>)
    ensures
        r is Ok <==> count > 0,
        r matches Err(t) ==> t@ == "no upstream"@,
{
    if count == 0 {
        Err(String::from_str("no upstream"))
    } else {
        Ok(())
    }
}

/// What the compute node's state controller does when the database reports
/// `remote` while the node holds `local`.
#[derive(Clone, Copy, Debug, PartialEq, Eq, Structural)]
pub enum StateUpdate {
    /// Same state: nothing to do.
    Unchanged,
    /// Adopt `remote`; `start_routing` tells whether data routing starts.
    Changed { start_routing: bool },
}

/// The state controller's decision on a report of `remote` while the node
/// holds `local`: a new state is adopted, and routing starts when the new
/// state is neither `Init` nor an end state.
pub open spec fn state_update(local: TrackerState, remote: TrackerState) -> StateUpdate {
    if local == remote {
        StateUpdate::Unchanged
    } else {
        StateUpdate::Changed { start_routing: remote != TrackerState::Init && !remote.spec_is_end_state() }
    }
}

/// What the state controller does on a report of `remote`.
pub fn on_node_state(local: TrackerState, remote: TrackerState) -> (r: StateUpdate)
    ensures
        r == state_update(local, remote),
        local == remote ==> r == StateUpdate::Unchanged,
        local != remote ==> r == (StateUpdate::Changed {
            start_routing: remote != TrackerState::Init && remote != TrackerState::Finish && remote
                != TrackerState::Stop,
        }),
{
    if local == remote {
        StateUpdate::Unchanged
    } else {
        StateUpdate::Changed { start_routing: remote != TrackerState::Init && !remote.is_end_state() }
    }
}

/// Law of the state controller: once a reported state has been adopted, the
/// same report again changes nothing; and routing is never started for a
/// node reported in `Init`, `Finish` or `Stop`.
pub proof fn lemma_state_controller(local: TrackerState, remote: TrackerState)
    ensures
        state_update(remote, remote) == StateUpdate::Unchanged,
        state_update(local, remote) matches StateUpdate::Changed { start_routing: true } ==> remote
            != TrackerState::Init && remote != TrackerState::Finish && remote != TrackerState::Stop,
{
}

/// Law of the state controller: a reported state that differs from the
/// local one is always adopted, and whether routing starts depends on the
/// reported state alone, whatever the node was in before (a stopped or
/// finished node reported `Ready` again routes again): it starts exactly
/// when the reported state is `Ready` or `InComingFinish`.
pub proof fn lemma_routing_follows_reported_state(a: TrackerState, b: TrackerState, remote: TrackerState)
    ensures
        a != remote && b != remote ==> state_update(a, remote) == state_update(b, remote),
        a != remote ==> state_update(a, remote) == (StateUpdate::Changed {
            start_routing: remote == TrackerState::Ready || remote == TrackerState::InComingFinish,
        }),
{
}

/// The channel node's state controller: it starts routing when the database
/// reports `Ready` while the node is still in `Init`, and otherwise does
/// nothing.  A `Stop` report is not handled.
pub fn on_channel_node_state(local: TrackerState, remote: TrackerState) -> (start: bool)
    requires
        remote != TrackerState::Stop,
    ensures
        start == (remote == TrackerState::Ready && local == TrackerState::Init),
{
    remote == TrackerState::Ready && local == TrackerState::Init
}

} // verus!
