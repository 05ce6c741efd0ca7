//! The compute node's handling of the user container's requests, each as a
//! step machine: the caller performs each action and feeds back what came
//! of it.
use crate::ipc::{AvaiableDataResponse, IPCError, IPCErrorView};
use crate::state::{DataState, Direction, TrackerState};
use crate::tracker::{
    data_request_refusal, is_fresh_record, metadata_reply, now_timestamp, submitted_record, DataFlag, DataRecord,
    MetadataLookup,
};
use vstd::prelude::*;

verus! {

/// The answer to a request made while the node has finished.
pub open spec fn finished_text() -> Seq<char> {
    "node was finished"@
}

// ---------------------------------------------------------------- submit

#[derive(Clone, Copy, Debug, PartialEq, Eq, Structural)]
pub enum SubmitStage {
    Counting,
    Inserting,
    Done,
}

/// What the caller does next with a submitted output batch.
pub enum SubmitAction {
    /// Count the node's outgoing batches in `Received` or `PartialSent`.
    CountOutgoing,
    /// Wait this many seconds, then count again.
    RetryAfter(u64),
    /// Insert this record.
    Insert(DataRecord),
    /// Answer the user container; `notify` wakes the senders.
    Reply { result: Result<(), String>, notify: bool },
}

pub enum SubmitEvent {
    Counted(Result<usize, String>),
    Inserted(Result<(), String>),
}

/// The handling of one submitted output batch.
pub struct SubmitFlow {
    stage: SubmitStage,
    buf_size: usize,
    node_name: String,
    id: String,
    size: u32,
    flag: DataFlag,
    priority: u8,
}

/// One step of the handling of a submitted batch, its record (if it is made
/// in this step) being stamped with `tm`: wait while the outgoing buffer is
/// over its limit (or cannot be counted), then make the record, insert it
/// and answer.
pub open spec fn submit_next(old: SubmitFlow, event: SubmitEvent, tm: i64, r: SubmitAction, new: SubmitFlow) -> bool {
    &&& new.limit() == old.limit()
    &&& new.batch() == old.batch()
    &&& match (old.stage(), event) {
        (SubmitStage::Counting, SubmitEvent::Counted(Ok(c))) => if c > old.limit() {
            r == SubmitAction::RetryAfter(10) && new.stage() == SubmitStage::Counting
        } else {
            let (node_name, id, size, flag, priority) = old.batch();
            &&& r matches SubmitAction::Insert(rec) && is_fresh_record(
                rec,
                node_name,
                id,
                size,
                flag,
                priority,
                DataState::Received,
                Direction::Out,
                tm,
            )
            &&& new.stage() == SubmitStage::Inserting
        },
        (SubmitStage::Counting, SubmitEvent::Counted(Err(_))) => r == SubmitAction::RetryAfter(10) && new.stage()
            == SubmitStage::Counting,
        (SubmitStage::Inserting, SubmitEvent::Inserted(Ok(()))) => r == (SubmitAction::Reply {
            result: Ok(()),
            notify: true,
        }) && new.stage() == SubmitStage::Done,
        (SubmitStage::Inserting, SubmitEvent::Inserted(Err(e))) => r == (SubmitAction::Reply {
            result: Err(e),
            notify: false,
        }) && new.stage() == SubmitStage::Done,
        _ => false,
    }
}

/// Law of a submitted output batch: nothing is recorded while the count of
/// waiting outgoing batches is over the buffer limit or cannot be read (the
/// handling waits ten seconds and counts again); the record is made only
/// once there is room, and it is the batch's own: its node, identifier,
/// size, flags and priority, waiting to be sent, stamped with the time given;
/// the answer after the insertion passes its outcome on, and only a
/// successful one wakes the senders.
pub proof fn lemma_submit_records_batch_when_room(
    old: SubmitFlow,
    event: SubmitEvent,
    tm: i64,
    r: SubmitAction,
    new: SubmitFlow,
)
    requires
        submit_next(old, event, tm, r, new),
    ensures
        (r is Insert) ==> (old.stage() == SubmitStage::Counting && (event matches SubmitEvent::Counted(Ok(c)) && c
            <= old.limit())),
        (old.stage() == SubmitStage::Counting && !(event matches SubmitEvent::Counted(Ok(c)) && c <= old.limit()))
            ==> (r == SubmitAction::RetryAfter(10) && new.stage() == SubmitStage::Counting),
        (r matches SubmitAction::Insert(rec) ==> {
            let (node_name, id, size, flag, priority) = old.batch();
            &&& rec.node_name@ == node_name
            &&& rec.id@ == id
            &&& rec.size == size
            &&& rec.flag == flag
            &&& rec.priority == priority
            &&& rec.state == DataState::Received
            &&& rec.direction == Direction::Out
            &&& rec.created_at == tm
            &&& rec.updated_at == tm
            &&& rec.sent@.len() == 0
        }),
        (r is Reply) ==> old.stage() == SubmitStage::Inserting,
        (r matches SubmitAction::Reply { result, notify } ==> (notify <==> result is Ok)),
        (r matches SubmitAction::Reply { result: Ok(_), .. } ==> (event matches SubmitEvent::Inserted(Ok(_)))),
        (r matches SubmitAction::Reply { result: Err(t), .. } ==> (event matches SubmitEvent::Inserted(Err(e)) && e
            == t)),
        new.batch() == old.batch(),
{
}

impl SubmitFlow {
    pub closed spec fn stage(&self) -> SubmitStage {
        self.stage
    }

    pub closed spec fn limit(&self) -> usize {
        self.buf_size
    }

    /// The batch: node name, identifier, size, flags and priority.
    pub closed spec fn batch(&self) -> (Seq<char>, Seq<char>, u32, DataFlag, u8) {
        (self.node_name@, self.id@, self.size, self.flag, self.priority)
    }

    /// Starts handling the output batch `id` of `size` files: a finished
    /// node refuses it, any other counts its waiting outgoing batches.
    pub fn start(
        state: TrackerState,
        node_name: &str,
        id: &str,
        size: u32,
        flag: DataFlag,
        priority: u8,
        buf_size: usize,
    ) -> (r: (SubmitFlow, SubmitAction))
        ensures
            r.0.limit() == buf_size,
            r.0.batch() == (node_name@, id@, size, flag, priority),
            state == TrackerState::Finish ==> (r.1 matches SubmitAction::Reply { result: Err(t), notify: false }
                && t@ == finished_text() && r.0.stage() == SubmitStage::Done),
            state != TrackerState::Finish ==> r.1 is CountOutgoing && r.0.stage() == SubmitStage::Counting,
    {
        let stage = if state == TrackerState::Finish {
            SubmitStage::Done
        } else {
            SubmitStage::Counting
        };
        let flow = SubmitFlow {
            stage,
            buf_size,
            node_name: node_name.to_owned(),
            id: id.to_owned(),
            size,
            flag,
            priority,
        };
        if state == TrackerState::Finish {
            (flow, SubmitAction::Reply { result: Err(String::from_str("node was finished")), notify: false })
        } else {
            (flow, SubmitAction::CountOutgoing)
        }
    }

    /// The next action; the record is stamped with the time read from the
    /// clock once the buffer has room.
    pub fn step(&mut self, event: SubmitEvent) -> (r: SubmitAction)
        requires
            old(self).stage() == SubmitStage::Counting ==> event is Counted,
            old(self).stage() == SubmitStage::Inserting ==> event is Inserted,
            old(self).stage() != SubmitStage::Done,
        ensures
            exists|tm: i64| submit_next(*old(self), event, tm, r, *final(self)),
    {
        let room = match &event {
            SubmitEvent::Counted(Ok(c)) => *c <= self.buf_size,
            _ => false,
        };
        let tm: i64 = if room {
            now_timestamp()
        } else {
            0
        };
        self.step_at(event, tm)
    }

    /// The next action, the record made in this step being stamped with `tm`.
    pub fn step_at(&mut self, event: SubmitEvent, tm: i64) -> (r: SubmitAction)
        requires
            old(self).stage() == SubmitStage::Counting ==> event is Counted,
            old(self).stage() == SubmitStage::Inserting ==> event is Inserted,
            old(self).stage() != SubmitStage::Done,
        ensures
            submit_next(*old(self), event, tm, r, *final(self)),
    {
        match event {
            SubmitEvent::Counted(counted) => {
                let over = match counted {
                    Ok(c) => c > self.buf_size,
                    Err(_) => true,
                };
                if over {
                    SubmitAction::RetryAfter(10)
                } else {
                    self.stage = SubmitStage::Inserting;
                    SubmitAction::Insert(
                        submitted_record(self.node_name.as_str(), self.id.as_str(), self.size, self.flag, self.priority, tm),
                    )
                }
            },
            SubmitEvent::Inserted(inserted) => {
                self.stage = SubmitStage::Done;
                match inserted {
                    Ok(()) => SubmitAction::Reply { result: Ok(()), notify: true },
                    Err(e) => SubmitAction::Reply { result: Err(e), notify: false },
                }
            },
        }
    }
}

// ---------------------------------------------------------------- finish

#[derive(Clone, Copy, Debug, PartialEq, Eq, Structural)]
pub enum FinishStage {
    Counting,
    Marking,
    Done,
}

/// What the caller does next with a finish report.
pub enum FinishAction {
    /// Count the node's outgoing batches still on their way.
    CountRunning,
    /// Wait this many seconds, then count again.
    RetryAfter(u64),
    /// Record the node as finished.
    MarkFinished,
    /// Answer the user container.
    Reply(Result<(), String>),
}

pub enum FinishEvent {
    Counted(Result<usize, String>),
    Marked(Result<(), String>),
}

/// The handling of the user container's finish report.
pub struct FinishFlow {
    stage: FinishStage,
}

impl FinishFlow {
    pub closed spec fn stage(&self) -> FinishStage {
        self.stage
    }

    pub fn start() -> (r: (FinishFlow, FinishAction))
        ensures
            r.0.stage() == FinishStage::Counting,
            r.1 == FinishAction::CountRunning,
    {
        (FinishFlow { stage: FinishStage::Counting }, FinishAction::CountRunning)
    }

    /// The next action: the node is recorded as finished only once no
    /// outgoing batch is left on its way.
    pub fn step(&mut self, event: FinishEvent) -> (r: FinishAction)
        requires
            old(self).stage() == FinishStage::Counting ==> event is Counted,
            old(self).stage() == FinishStage::Marking ==> event is Marked,
            old(self).stage() != FinishStage::Done,
        ensures
            match (old(self).stage(), event) {
                (FinishStage::Counting, FinishEvent::Counted(Ok(0))) => r == FinishAction::MarkFinished && final(self).stage() == FinishStage::Marking,
                (FinishStage::Counting, FinishEvent::Counted(_)) => r == FinishAction::RetryAfter(5) && final(self).stage() == FinishStage::Counting,
                (FinishStage::Marking, FinishEvent::Marked(m)) => r == FinishAction::Reply(m) && final(self).stage()
                    == FinishStage::Done,
                _ => false,
            },
    {
        match event {
            FinishEvent::Counted(counted) => {
                let done = match counted {
                    Ok(c) => c == 0,
                    Err(_) => false,
                };
                if done {
                    self.stage = FinishStage::Marking;
                    FinishAction::MarkFinished
                } else {
                    FinishAction::RetryAfter(5)
                }
            },
            FinishEvent::Marked(m) => {
                self.stage = FinishStage::Done;
                FinishAction::Reply(m)
            },
        }
    }
}

// ---------------------------------------------------------------- data request

#[derive(Clone, Copy, Debug, PartialEq, Eq, Structural)]
pub enum DataRequestStage {
    FindingById,
    CheckingCache,
    Assigning,
    Done,
}

/// What the caller does next with a data request.
pub enum DataRequestAction {
    /// Look up the named batch among the node's incoming records.
    FindById,
    /// Tell whether the named batch's files are in the cache.
    CheckCache,
    /// Pick a received batch and mark it assigned to this machine.
    FindAndAssign,
    /// Answer the user container.
    Reply(Result<Option<AvaiableDataResponse>, IPCError>),
    /// The database failed: stop serving requests with this error.
    Abort(String),
}

pub enum DataRequestEvent {
    /// The record found (its identifier and size), or why the lookup failed.
    Found(Result<Option<(String, u32)>, String>),
    /// Whether the files are cached, or why that could not be told.
    Cached(Result<bool, String>),
    /// The batch assigned (its identifier and size), or why assigning failed.
    Assigned(Result<Option<(String, u32)>, String>),
}

/// The handling of one data request.
pub struct DataRequestFlow {
    stage: DataRequestStage,
    found: Option<(String, u32)>,
}

impl DataRequestFlow {
    pub closed spec fn stage(&self) -> DataRequestStage {
        self.stage
    }

    /// The record found for a named batch.
    pub closed spec fn found(&self) -> Option<(Seq<char>, u32)> {
        match self.found {
            Some((id, size)) => Some((id@, size)),
            None => None,
        }
    }

    /// Starts handling a data request, naming a metadata batch or not, while
    /// the node is in `state`.  A named batch is looked up whatever the
    /// state; otherwise a node that has finished, or whose inputs have
    /// finished, refuses, and any other picks a batch.
    pub fn start(metadata_id: bool, state: TrackerState) -> (r: (DataRequestFlow, DataRequestAction))
        ensures
            metadata_id ==> r.1 is FindById && r.0.stage() == DataRequestStage::FindingById,
            !metadata_id && state == TrackerState::Finish ==> (r.1 matches DataRequestAction::Reply(Err(e)) && e@
                == (IPCErrorView::NodeError {
                code: crate::ipc::ErrorNumber::AlreadyFinish,
                msg: "node is already finish"@,
            }) && r.0.stage() == DataRequestStage::Done),
            !metadata_id && state == TrackerState::InComingFinish ==> (r.1 matches DataRequestAction::Reply(Err(e))
                && e@ == (IPCErrorView::NodeError {
                code: crate::ipc::ErrorNumber::InComingFinish,
                msg: "node is already finish"@,
            }) && r.0.stage() == DataRequestStage::Done),
            !metadata_id && state != TrackerState::Finish && state != TrackerState::InComingFinish ==> r.1 is FindAndAssign
                && r.0.stage() == DataRequestStage::Assigning,
    {
        if metadata_id {
            return (DataRequestFlow { stage: DataRequestStage::FindingById, found: None }, DataRequestAction::FindById);
        }
        match data_request_refusal(state) {
            Some(e) => (DataRequestFlow { stage: DataRequestStage::Done, found: None }, DataRequestAction::Reply(Err(e))),
            None => (DataRequestFlow { stage: DataRequestStage::Assigning, found: None }, DataRequestAction::FindAndAssign),
        }
    }

    /// The next action.
    pub fn step(&mut self, event: DataRequestEvent) -> (r: DataRequestAction)
        requires
            old(self).stage() == DataRequestStage::FindingById ==> event is Found,
            old(self).stage() == DataRequestStage::CheckingCache ==> event is Cached && old(self).found() is Some,
            old(self).stage() == DataRequestStage::Assigning ==> event is Assigned,
            old(self).stage() != DataRequestStage::Done,
        ensures
            match (old(self).stage(), event) {
                (DataRequestStage::FindingById, DataRequestEvent::Found(Ok(Some((id, size))))) => r is CheckCache
                    && final(self).stage() == DataRequestStage::CheckingCache && final(self).found() == Some(
                    (id@, size),
                ),
                (DataRequestStage::FindingById, DataRequestEvent::Found(Ok(None))) => r matches DataRequestAction::Reply(
                    Ok(None),
                ) && final(self).stage() == DataRequestStage::Done,
                (DataRequestStage::FindingById, DataRequestEvent::Found(Err(t))) => r matches DataRequestAction::Reply(
                    Err(e),
                ) && e@ == IPCErrorView::UnKnown(t@) && final(self).stage() == DataRequestStage::Done,
                (DataRequestStage::CheckingCache, DataRequestEvent::Cached(c)) => final(self).stage()
                    == DataRequestStage::Done && match c {
                    Ok(true) => r matches DataRequestAction::Reply(Ok(Some(d))) && Some((d.id@, d.size)) == old(self).found(),
                    Ok(false) => r matches DataRequestAction::Reply(Err(e)) && e@ == IPCErrorView::NodeError {
                        code: crate::ipc::ErrorNumber::DataMissing,
                        msg: Seq::empty(),
                    },
                    Err(t) => r matches DataRequestAction::Reply(Err(e)) && e@ == IPCErrorView::UnKnown(t@),
                },
                (DataRequestStage::Assigning, DataRequestEvent::Assigned(Ok(Some((id, size))))) => r matches DataRequestAction::Reply(
                    Ok(Some(d)),
                ) && d.id@ == id@ && d.size == size && final(self).stage() == DataRequestStage::Done,
                (DataRequestStage::Assigning, DataRequestEvent::Assigned(Ok(None))) => r matches DataRequestAction::Reply(
                    Ok(None),
                ) && final(self).stage() == DataRequestStage::Done,
                (DataRequestStage::Assigning, DataRequestEvent::Assigned(Err(t))) => r matches DataRequestAction::Abort(
                    m,
                ) && m@ == "query available data failed: "@ + t@ && final(self).stage() == DataRequestStage::Done,
                _ => false,
            },
    {
        match event {
            DataRequestEvent::Found(found) => match found {
                Ok(Some(rec)) => {
                    self.stage = DataRequestStage::CheckingCache;
                    self.found = Some(rec);
                    DataRequestAction::CheckCache
                },
                Ok(None) => {
                    self.stage = DataRequestStage::Done;
                    DataRequestAction::Reply(metadata_reply(MetadataLookup::Absent))
                },
                Err(t) => {
                    self.stage = DataRequestStage::Done;
                    DataRequestAction::Reply(metadata_reply(MetadataLookup::Failed(t)))
                },
            },
            DataRequestEvent::Cached(cached) => {
                self.stage = DataRequestStage::Done;
                let found = self.found.take();
                match found {
                    Some((id, size)) => DataRequestAction::Reply(metadata_reply(MetadataLookup::Found { id, size, cached })),
                    None => DataRequestAction::Reply(Ok(None)),
                }
            },
            DataRequestEvent::Assigned(assigned) => {
                self.stage = DataRequestStage::Done;
                match assigned {
                    Ok(Some((id, size))) => DataRequestAction::Reply(Ok(Some(AvaiableDataResponse { id, size }))),
                    Ok(None) => DataRequestAction::Reply(Ok(None)),
                    Err(t) => DataRequestAction::Abort(String::from_str("query available data failed: ").concat(t.as_str())),
                }
            },
        }
    }
}

// ---------------------------------------------------------------- completed

/// What the caller does with a "batch processed" report.
pub enum CompletedAction {
    /// Record the batch as processed.
    MarkProcessed,
    /// Answer the user container; with `remove`, drop the batch's files
    /// afterwards.
    Reply { result: Result<(), String>, remove: bool },
}

/// The first action on a "batch processed" report: a finished node refuses
/// it, any other records the batch as processed.
pub fn completed_start(state: TrackerState) -> (r: CompletedAction)
    ensures
        state == TrackerState::Finish ==> (r matches CompletedAction::Reply { result: Err(t), remove: false } && t@
            == finished_text()),
        state != TrackerState::Finish ==> r is MarkProcessed,
{
    if state == TrackerState::Finish {
        CompletedAction::Reply { result: Err(String::from_str("node was finished")), remove: false }
    } else {
        CompletedAction::MarkProcessed
    }
}

/// The answer once the batch has been recorded (or not) as processed; its
/// files are dropped only when the record was written.
pub fn completed_reply(marked: Result<(), String>) -> (r: CompletedAction)
    ensures
        marked is Ok ==> r == (CompletedAction::Reply { result: Ok(()), remove: true }),
        marked matches Err(e) ==> r == (CompletedAction::Reply { result: Err(e), remove: false }),
{
    match marked {
        Ok(()) => CompletedAction::Reply { result: Ok(()), remove: true },
        Err(e) => CompletedAction::Reply { result: Err(e), remove: false },
    }
}

} // verus!
