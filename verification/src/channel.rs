//! The channel node's handling of requests from its downstream and of
//! batches pushed by its upstream, as step machines.
use crate::batch::MediaDataBatchResponse;
use crate::incoming::{limit_message, limit_prefix, limit_text};
use crate::metadata::{ends_with, is_metadata, metadata_suffix};
use crate::state::{DataState, Direction};
use crate::tracker::now_timestamp;
use vstd::prelude::*;

verus! {

// ---------------------------------------------------------------- requests

#[derive(Clone, Copy, Debug, PartialEq, Eq, Structural)]
pub enum ChannelRequestStage {
    Finding,
    Reading,
    MarkingError,
    Done,
}

/// What the caller does next with a request for data from downstream.
pub enum ChannelRequestAction {
    /// Pick an incoming batch and mark it selected for sending.
    FindAndMark,
    /// Read the files of the batch `id`.
    ReadCache(String),
    /// Record the incoming batch `id` in `state` (broken).
    MarkError { id: String, direction: Direction, state: DataState },
    /// Answer the downstream node.
    Reply(Result<Option<MediaDataBatchResponse>, String>),
}

pub enum ChannelRequestEvent {
    Found(Result<Option<String>, String>),
    Read(Result<MediaDataBatchResponse, String>),
    Marked(Result<(), String>),
}

/// The handling of one request for data: batches whose files cannot be read
/// are recorded as broken and the next batch is tried.
pub struct ChannelRequestFlow {
    stage: ChannelRequestStage,
    current: String,
}

impl ChannelRequestFlow {
    pub closed spec fn stage(&self) -> ChannelRequestStage {
        self.stage
    }

    /// The batch being read.
    pub closed spec fn current(&self) -> Seq<char> {
        self.current@
    }

    pub fn start() -> (r: (ChannelRequestFlow, ChannelRequestAction))
        ensures
            r.0.stage() == ChannelRequestStage::Finding,
            r.1 is FindAndMark,
    {
        (ChannelRequestFlow { stage: ChannelRequestStage::Finding, current: String::new() }, ChannelRequestAction::FindAndMark)
    }

    pub fn step(&mut self, event: ChannelRequestEvent) -> (r: ChannelRequestAction)
        requires
            old(self).stage() == ChannelRequestStage::Finding ==> event is Found,
            old(self).stage() == ChannelRequestStage::Reading ==> event is Read,
            old(self).stage() == ChannelRequestStage::MarkingError ==> event is Marked,
            old(self).stage() != ChannelRequestStage::Done,
        ensures
            match (old(self).stage(), event) {
                (ChannelRequestStage::Finding, ChannelRequestEvent::Found(Ok(Some(id)))) => r matches ChannelRequestAction::ReadCache(
                    i,
                ) && i@ == id@ && final(self).current() == id@ && final(self).stage() == ChannelRequestStage::Reading,
                (ChannelRequestStage::Finding, ChannelRequestEvent::Found(Ok(None))) => r matches ChannelRequestAction::Reply(
                    Ok(None),
                ) && final(self).stage() == ChannelRequestStage::Done,
                (ChannelRequestStage::Finding, ChannelRequestEvent::Found(Err(e))) => r matches ChannelRequestAction::Reply(
                    Err(t),
                ) && t@ == e@ && final(self).stage() == ChannelRequestStage::Done,
                (ChannelRequestStage::Reading, ChannelRequestEvent::Read(Ok(b))) => r matches ChannelRequestAction::Reply(
                    Ok(Some(batch)),
                ) && batch@ == b@ && final(self).stage() == ChannelRequestStage::Done,
                (ChannelRequestStage::Reading, ChannelRequestEvent::Read(Err(_))) => r matches ChannelRequestAction::MarkError { id: i, direction, state }
                    && i@ == old(self).current() && direction == Direction::In && state == DataState::Error && final(self).stage() == ChannelRequestStage::MarkingError,
                (ChannelRequestStage::MarkingError, ChannelRequestEvent::Marked(_)) => r is FindAndMark && final(self).stage() == ChannelRequestStage::Finding,
                _ => false,
            },
    {
        match event {
            ChannelRequestEvent::Found(found) => match found {
                Ok(Some(id)) => {
                    self.stage = ChannelRequestStage::Reading;
                    self.current = id.clone();
                    ChannelRequestAction::ReadCache(id)
                },
                Ok(None) => {
                    self.stage = ChannelRequestStage::Done;
                    ChannelRequestAction::Reply(Ok(None))
                },
                Err(e) => {
                    self.stage = ChannelRequestStage::Done;
                    ChannelRequestAction::Reply(Err(e))
                },
            },
            ChannelRequestEvent::Read(read) => match read {
                Ok(b) => {
                    self.stage = ChannelRequestStage::Done;
                    ChannelRequestAction::Reply(Ok(Some(b)))
                },
                Err(_) => {
                    self.stage = ChannelRequestStage::MarkingError;
                    ChannelRequestAction::MarkError {
                        id: self.current.clone(),
                        direction: Direction::In,
                        state: DataState::Error,
                    }
                },
            },
            ChannelRequestEvent::Marked(_) => {
                self.stage = ChannelRequestStage::Finding;
                ChannelRequestAction::FindAndMark
            },
        }
    }
}

// ---------------------------------------------------------------- incoming

/// The record a channel node keeps of an incoming batch.
pub struct ChannelRecord {
    pub node_name: String,
    pub id: String,
    pub size: u32,
    pub is_metadata: bool,
    pub state: DataState,
    pub sent: Vec<String>,
    pub direction: Direction,
    pub created_at: i64,
    pub updated_at: i64,
}

#[derive(Clone, Copy, Debug, PartialEq, Eq, Structural)]
pub enum ChannelIncomingStage {
    Lookup,
    Count,
    Write,
    Insert,
    Done,
}

pub enum ChannelIncomingAction {
    FindRecord,
    CountReceived,
    WriteCache,
    Insert(ChannelRecord),
    Reply(Result<(), String>),
}

pub enum ChannelIncomingEvent {
    Found(Result<bool, String>),
    Counted(Result<usize, String>),
    Written(Result<(), String>),
    Inserted(Result<(), String>),
}

/// The handling of a batch pushed by the upstream node.
pub struct ChannelIncomingFlow {
    stage: ChannelIncomingStage,
    node_name: String,
    id: String,
    size: u32,
    buf_size: usize,
}

/// One step of the handling of a pushed batch, the record (if one is made
/// in this step) being stamped with `tm`.  A batch recorded before is
/// acknowledged and not stored again; only a metadata batch is held to the
/// buffer limit; once the files are written the batch is recorded as
/// received, marked as metadata or not.
pub open spec fn channel_incoming_next(
    old: ChannelIncomingFlow,
    event: ChannelIncomingEvent,
    tm: i64,
    r: ChannelIncomingAction,
    new: ChannelIncomingFlow,
) -> bool {
    &&& new.node_name() == old.node_name()
    &&& new.id() == old.id()
    &&& new.size() == old.size()
    &&& new.limit() == old.limit()
    &&& match (old.stage(), event) {
        (ChannelIncomingStage::Lookup, ChannelIncomingEvent::Found(Ok(true))) => r matches ChannelIncomingAction::Reply(
            Ok(()),
        ) && new.stage() == ChannelIncomingStage::Done,
        (ChannelIncomingStage::Lookup, ChannelIncomingEvent::Found(Err(e))) => r matches ChannelIncomingAction::Reply(
            Err(t),
        ) && t@ == e@ && new.stage() == ChannelIncomingStage::Done,
        (ChannelIncomingStage::Lookup, ChannelIncomingEvent::Found(Ok(false))) => if ends_with(
            old.id(),
            metadata_suffix(),
        ) {
            r is CountReceived && new.stage() == ChannelIncomingStage::Count
        } else {
            r is WriteCache && new.stage() == ChannelIncomingStage::Write
        },
        (ChannelIncomingStage::Count, ChannelIncomingEvent::Counted(Err(e))) => r matches ChannelIncomingAction::Reply(
            Err(t),
        ) && t@ == limit_prefix() + e@ && new.stage() == ChannelIncomingStage::Done,
        (ChannelIncomingStage::Count, ChannelIncomingEvent::Counted(Ok(c))) => if c > old.limit() {
            r matches ChannelIncomingAction::Reply(Err(t)) && t@ == limit_prefix() + limit_text(
                c as nat,
                old.limit() as nat,
            ) && new.stage() == ChannelIncomingStage::Done
        } else {
            r is WriteCache && new.stage() == ChannelIncomingStage::Write
        },
        (ChannelIncomingStage::Write, ChannelIncomingEvent::Written(Err(e))) => r matches ChannelIncomingAction::Reply(
            Err(t),
        ) && t@ == e@ && new.stage() == ChannelIncomingStage::Done,
        (ChannelIncomingStage::Write, ChannelIncomingEvent::Written(Ok(()))) => r matches ChannelIncomingAction::Insert(
            rec,
        ) && rec.node_name@ == old.node_name() && rec.id@ == old.id() && rec.size == old.size() && rec.is_metadata
            == ends_with(old.id(), metadata_suffix()) && rec.state == DataState::Received && rec.direction
            == Direction::In && rec.sent@.len() == 0 && rec.created_at == tm && rec.updated_at == tm && new.stage()
            == ChannelIncomingStage::Insert,
        (ChannelIncomingStage::Insert, ChannelIncomingEvent::Inserted(res)) => r == ChannelIncomingAction::Reply(res)
            && new.stage() == ChannelIncomingStage::Done,
        _ => false,
    }
}

/// Law of a channel node's handling of a pushed batch: a batch already
/// recorded is acknowledged at once and the handling ends, so its files are
/// not written and no record is made again; only a metadata batch is held to
/// the buffer limit, and only when the count is within the limit do its
/// files get written; a record is made only once the files are written, and
/// it is the batch's, received on the way in and stamped with the time
/// given; the handling ends only with an answer.
pub proof fn lemma_channel_incoming_dedupes(
    old: ChannelIncomingFlow,
    event: ChannelIncomingEvent,
    tm: i64,
    r: ChannelIncomingAction,
    new: ChannelIncomingFlow,
)
    requires
        channel_incoming_next(old, event, tm, r, new),
    ensures
        (old.stage() == ChannelIncomingStage::Lookup && (event matches ChannelIncomingEvent::Found(Ok(true)))) ==> ((r
            matches ChannelIncomingAction::Reply(Ok(()))) && new.stage() == ChannelIncomingStage::Done),
        (r is WriteCache) ==> ((old.stage() == ChannelIncomingStage::Lookup && (event matches ChannelIncomingEvent::Found(
            Ok(false),
        )) && !ends_with(old.id(), metadata_suffix())) || (old.stage() == ChannelIncomingStage::Count && (
        event matches ChannelIncomingEvent::Counted(Ok(c)) && c <= old.limit()))),
        (r is CountReceived) ==> (ends_with(old.id(), metadata_suffix()) && (event matches ChannelIncomingEvent::Found(
            Ok(false),
        ))),
        (r is Insert) ==> (old.stage() == ChannelIncomingStage::Write && (event matches ChannelIncomingEvent::Written(
            Ok(()),
        ))),
        (r matches ChannelIncomingAction::Insert(rec) ==> rec.id@ == old.id() && rec.node_name@ == old.node_name()
            && rec.size == old.size() && rec.state == DataState::Received && rec.direction == Direction::In
            && rec.created_at == tm && rec.updated_at == tm),
        new.stage() == ChannelIncomingStage::Done ==> (r is Reply),
{
}

impl ChannelIncomingFlow {
    pub closed spec fn stage(&self) -> ChannelIncomingStage {
        self.stage
    }

    pub closed spec fn node_name(&self) -> Seq<char> {
        self.node_name@
    }

    pub closed spec fn id(&self) -> Seq<char> {
        self.id@
    }

    pub closed spec fn size(&self) -> u32 {
        self.size
    }

    pub closed spec fn limit(&self) -> usize {
        self.buf_size
    }

    /// Starts handling the batch `id` of `size` files.
    pub fn start(node_name: &str, id: &str, size: u32, buf_size: usize) -> (r: (
        ChannelIncomingFlow,
        ChannelIncomingAction,
    ))
        ensures
            r.0.stage() == ChannelIncomingStage::Lookup,
            r.0.node_name() == node_name@,
            r.0.id() == id@,
            r.0.size() == size,
            r.0.limit() == buf_size,
            r.1 is FindRecord,
    {
        (
            ChannelIncomingFlow {
                stage: ChannelIncomingStage::Lookup,
                node_name: node_name.to_owned(),
                id: id.to_owned(),
                size,
                buf_size,
            },
            ChannelIncomingAction::FindRecord,
        )
    }

    /// The next action; a record made in this step is stamped with the time
    /// read from the clock once the files are written.
    pub fn step(&mut self, event: ChannelIncomingEvent) -> (r: ChannelIncomingAction)
        requires
            old(self).stage() == ChannelIncomingStage::Lookup ==> event is Found,
            old(self).stage() == ChannelIncomingStage::Count ==> event is Counted,
            old(self).stage() == ChannelIncomingStage::Write ==> event is Written,
            old(self).stage() == ChannelIncomingStage::Insert ==> event is Inserted,
            old(self).stage() != ChannelIncomingStage::Done,
        ensures
            exists|tm: i64| channel_incoming_next(*old(self), event, tm, r, *final(self)),
    {
        let tm: i64 = if matches!(event, ChannelIncomingEvent::Written(Ok(()))) {
            now_timestamp()
        } else {
            0
        };
        self.step_at(event, tm)
    }

    /// The next action, a record made in this step being stamped with `tm`.
    pub fn step_at(&mut self, event: ChannelIncomingEvent, tm: i64) -> (r: ChannelIncomingAction)
        requires
            old(self).stage() == ChannelIncomingStage::Lookup ==> event is Found,
            old(self).stage() == ChannelIncomingStage::Count ==> event is Counted,
            old(self).stage() == ChannelIncomingStage::Write ==> event is Written,
            old(self).stage() == ChannelIncomingStage::Insert ==> event is Inserted,
            old(self).stage() != ChannelIncomingStage::Done,
        ensures
            channel_incoming_next(*old(self), event, tm, r, *final(self)),
    {
        match event {
            ChannelIncomingEvent::Found(found) => match found {
                Ok(true) => {
                    self.stage = ChannelIncomingStage::Done;
                    ChannelIncomingAction::Reply(Ok(()))
                },
                Ok(false) => {
                    if is_metadata(self.id.as_str()) {
                        self.stage = ChannelIncomingStage::Count;
                        ChannelIncomingAction::CountReceived
                    } else {
                        self.stage = ChannelIncomingStage::Write;
                        ChannelIncomingAction::WriteCache
                    }
                },
                Err(e) => {
                    self.stage = ChannelIncomingStage::Done;
                    ChannelIncomingAction::Reply(Err(e))
                },
            },
            ChannelIncomingEvent::Counted(counted) => match counted {
                Ok(c) => {
                    if c > self.buf_size {
                        self.stage = ChannelIncomingStage::Done;
                        let msg = limit_message(c, self.buf_size);
                        ChannelIncomingAction::Reply(
                            Err(String::from_str("cannt query limit from mongo ").concat(msg.as_str())),
                        )
                    } else {
                        self.stage = ChannelIncomingStage::Write;
                        ChannelIncomingAction::WriteCache
                    }
                },
                Err(e) => {
                    self.stage = ChannelIncomingStage::Done;
                    ChannelIncomingAction::Reply(Err(String::from_str("cannt query limit from mongo ").concat(e.as_str())))
                },
            },
            ChannelIncomingEvent::Written(written) => match written {
                Ok(()) => {
                    self.stage = ChannelIncomingStage::Insert;
                    let rec = ChannelRecord {
                        node_name: self.node_name.clone(),
                        id: self.id.clone(),
                        size: self.size,
                        is_metadata: is_metadata(self.id.as_str()),
                        state: DataState::Received,
                        sent: Vec::new(),
                        direction: Direction::In,
                        created_at: tm,
                        updated_at: tm,
                    };
                    ChannelIncomingAction::Insert(rec)
                },
                Err(e) => {
                    self.stage = ChannelIncomingStage::Done;
                    ChannelIncomingAction::Reply(Err(e))
                },
            },
            ChannelIncomingEvent::Inserted(res) => {
                self.stage = ChannelIncomingStage::Done;
                ChannelIncomingAction::Reply(res)
            },
        }
    }
}

// ---------------------------------------------------------------- first-generation channel node

/// What the first-generation channel node does next with a pushed batch.
pub enum DpIncomingAction {
    /// Count the node's incoming batches still pending.
    CountPending,
    FindRecord,
    WriteCache,
    /// Record the batch `id` of `size` files as received on the way in.
    InsertReceived { id: String, size: u32 },
    Reply(Result<(), String>),
}

/// The first-generation channel node's handling of a pushed batch: the
/// buffer is checked before anything else, for every batch.
pub struct DpIncomingFlow {
    stage: ChannelIncomingStage,
    id: String,
    size: u32,
    buf_size: usize,
}

impl DpIncomingFlow {
    pub closed spec fn stage(&self) -> ChannelIncomingStage {
        self.stage
    }

    pub closed spec fn batch(&self) -> (Seq<char>, u32) {
        (self.id@, self.size)
    }

    pub closed spec fn limit(&self) -> usize {
        self.buf_size
    }

    pub fn start(id: &str, size: u32, buf_size: usize) -> (r: (DpIncomingFlow, DpIncomingAction))
        ensures
            r.0.stage() == ChannelIncomingStage::Count,
            r.0.batch() == (id@, size),
            r.0.limit() == buf_size,
            r.1 is CountPending,
    {
        (
            DpIncomingFlow { stage: ChannelIncomingStage::Count, id: id.to_owned(), size, buf_size },
            DpIncomingAction::CountPending,
        )
    }

    /// The next action: a full buffer refuses the batch, a batch recorded
    /// before is acknowledged, any other is stored and recorded.
    pub fn step(&mut self, event: ChannelIncomingEvent) -> (r: DpIncomingAction)
        requires
            old(self).stage() == ChannelIncomingStage::Lookup ==> event is Found,
            old(self).stage() == ChannelIncomingStage::Count ==> event is Counted,
            old(self).stage() == ChannelIncomingStage::Write ==> event is Written,
            old(self).stage() == ChannelIncomingStage::Insert ==> event is Inserted,
            old(self).stage() != ChannelIncomingStage::Done,
        ensures
            final(self).batch() == old(self).batch(),
            final(self).limit() == old(self).limit(),
            match (old(self).stage(), event) {
                (ChannelIncomingStage::Count, ChannelIncomingEvent::Counted(Err(e))) => r matches DpIncomingAction::Reply(Err(t))
                    && t@ == limit_prefix() + e@ && final(self).stage() == ChannelIncomingStage::Done,
                (ChannelIncomingStage::Count, ChannelIncomingEvent::Counted(Ok(c))) => if c > old(self).limit() {
                    r matches DpIncomingAction::Reply(Err(t)) && t@ == limit_prefix() + limit_text(c as nat, old(self).limit() as nat)
                        && final(self).stage() == ChannelIncomingStage::Done
                } else {
                    r is FindRecord && final(self).stage() == ChannelIncomingStage::Lookup
                },
                (ChannelIncomingStage::Lookup, ChannelIncomingEvent::Found(Ok(true))) => r matches DpIncomingAction::Reply(Ok(()))
                    && final(self).stage() == ChannelIncomingStage::Done,
                (ChannelIncomingStage::Lookup, ChannelIncomingEvent::Found(Err(e))) => r matches DpIncomingAction::Reply(Err(t))
                    && t@ == e@ && final(self).stage() == ChannelIncomingStage::Done,
                (ChannelIncomingStage::Lookup, ChannelIncomingEvent::Found(Ok(false))) => r is WriteCache && final(self).stage()
                    == ChannelIncomingStage::Write,
                (ChannelIncomingStage::Write, ChannelIncomingEvent::Written(Err(e))) => r matches DpIncomingAction::Reply(Err(t))
                    && t@ == e@ && final(self).stage() == ChannelIncomingStage::Done,
                (ChannelIncomingStage::Write, ChannelIncomingEvent::Written(Ok(()))) => r matches DpIncomingAction::InsertReceived { id, size }
                    && (id@, size) == old(self).batch() && final(self).stage() == ChannelIncomingStage::Insert,
                (ChannelIncomingStage::Insert, ChannelIncomingEvent::Inserted(res)) => r == DpIncomingAction::Reply(res)
                    && final(self).stage() == ChannelIncomingStage::Done,
                _ => false,
            },
    {
        match event {
            ChannelIncomingEvent::Counted(counted) => match counted {
                Ok(c) => {
                    if c > self.buf_size {
                        self.stage = ChannelIncomingStage::Done;
                        let msg = limit_message(c, self.buf_size);
                        DpIncomingAction::Reply(Err(String::from_str("cannt query limit from mongo ").concat(msg.as_str())))
                    } else {
                        self.stage = ChannelIncomingStage::Lookup;
                        DpIncomingAction::FindRecord
                    }
                },
                Err(e) => {
                    self.stage = ChannelIncomingStage::Done;
                    DpIncomingAction::Reply(Err(String::from_str("cannt query limit from mongo ").concat(e.as_str())))
                },
            },
            ChannelIncomingEvent::Found(found) => match found {
                Ok(true) => {
                    self.stage = ChannelIncomingStage::Done;
                    DpIncomingAction::Reply(Ok(()))
                },
                Ok(false) => {
                    self.stage = ChannelIncomingStage::Write;
                    DpIncomingAction::WriteCache
                },
                Err(e) => {
                    self.stage = ChannelIncomingStage::Done;
                    DpIncomingAction::Reply(Err(e))
                },
            },
            ChannelIncomingEvent::Written(written) => match written {
                Ok(()) => {
                    self.stage = ChannelIncomingStage::Insert;
                    DpIncomingAction::InsertReceived { id: self.id.clone(), size: self.size }
                },
                Err(e) => {
                    self.stage = ChannelIncomingStage::Done;
                    DpIncomingAction::Reply(Err(e))
                },
            },
            ChannelIncomingEvent::Inserted(res) => {
                self.stage = ChannelIncomingStage::Done;
                DpIncomingAction::Reply(res)
            },
        }
    }
}

} // verus!
