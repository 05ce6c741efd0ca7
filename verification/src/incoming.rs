//! The compute node's handling of a batch pushed by an upstream node, as a
//! step machine: the caller performs each action and feeds back what came
//! of it.
use crate::text::{decimal, decimal_string};
use crate::tracker::{incoming_records, now_timestamp, plans_incoming, DataFlag, DataRecord};
use vstd::prelude::*;

verus! {

/// The message when `count` waiting batches exceed the buffer `limit`.
pub open spec fn limit_text(count: nat, limit: nat) -> Seq<char> {
    "has reach limit current:"@ + decimal(count) + " limit:"@ + decimal(limit)
}

/// The message when `count` waiting batches exceed the buffer `limit`.
pub fn limit_message(count: usize, limit: usize) -> (r: String)
    ensures
        r@ == limit_text(count as nat, limit as nat),
{
    let s = String::from_str("has reach limit current:");
    let s = s.concat(decimal_string(count as u64).as_str());
    let s = s.concat(" limit:");
    s.concat(decimal_string(limit as u64).as_str())
}

/// Where the handling of an incoming batch stands.
#[derive(Clone, Copy, Debug, PartialEq, Eq, Structural)]
pub enum IncomingStage {
    /// Waiting for the lookup of the batch among the incoming records.
    Lookup,
    /// Waiting for the count of received batches.
    Count,
    /// Waiting for the batch's files to be written to the cache.
    Write,
    /// Waiting for a record to be inserted.
    Insert,
    /// Finished.
    Done,
}

/// What the caller does next.
pub enum IncomingAction {
    /// Look the batch up among the node's incoming records.
    FindRecord,
    /// Count the node's incoming batches in `Received`.
    CountReceived,
    /// Write the batch's files to the cache.
    WriteCache,
    /// Insert this record.
    Insert(DataRecord),
    /// Answer the upstream node.
    Reply(Result<(), String>),
    /// Stop without answering.
    Drop,
}

/// What came of the last action.
pub enum IncomingEvent {
    /// Whether a record of the batch exists, or why the lookup failed.
    Found(Result<bool, String>),
    /// The count, or why counting failed.
    Counted(Result<usize, String>),
    /// Whether the files were written.
    Written(Result<(), String>),
    /// Whether the record was inserted.
    Inserted(Result<(), String>),
}

/// The event the machine waits for in `stage`.
pub open spec fn expects(stage: IncomingStage, e: IncomingEvent) -> bool {
    match stage {
        IncomingStage::Lookup => e is Found,
        IncomingStage::Count => e is Counted,
        IncomingStage::Write => e is Written,
        IncomingStage::Insert => e is Inserted,
        IncomingStage::Done => false,
    }
}

/// The prefix of the answer when the buffer check fails.
pub open spec fn limit_prefix() -> Seq<char> {
    "cannt query limit from mongo "@
}

/// The handling of one incoming batch.
pub struct IncomingFlow {
    stage: IncomingStage,
    buf_size: usize,
    node_name: String,
    id: String,
    size: u32,
    flag: DataFlag,
    priority: u8,
    has_outgoing: bool,
    records: Vec<DataRecord>,
    next: usize,
}

/// One step of the handling of an incoming batch, the records (if they are
/// made in this step) being stamped with `tm`.  A batch recorded before is
/// acknowledged and not stored again; the files are written only when the
/// buffer has room; once they are written the records are made and inserted
/// one by one, and the upstream node is answered once all are in; a failed
/// insertion ends the handling without an answer.
pub open spec fn incoming_next(
    old: IncomingFlow,
    event: IncomingEvent,
    tm: i64,
    r: IncomingAction,
    new: IncomingFlow,
) -> bool {
    &&& new.wf()
    &&& new.batch() == old.batch()
    &&& new.limit() == old.limit()
    &&& old.stage() != IncomingStage::Write ==> new.planned() == old.planned()
    &&& match (old.stage(), event) {
        (IncomingStage::Lookup, IncomingEvent::Found(Ok(true))) => r matches IncomingAction::Reply(Ok(()))
            && new.stage() == IncomingStage::Done,
        (IncomingStage::Lookup, IncomingEvent::Found(Err(e))) => r matches IncomingAction::Reply(Err(t)) && t@
            == e@ && new.stage() == IncomingStage::Done,
        (IncomingStage::Lookup, IncomingEvent::Found(Ok(false))) => r is CountReceived && new.stage()
            == IncomingStage::Count,
        (IncomingStage::Count, IncomingEvent::Counted(Err(e))) => r matches IncomingAction::Reply(Err(t)) && t@
            == limit_prefix() + e@ && new.stage() == IncomingStage::Done,
        (IncomingStage::Count, IncomingEvent::Counted(Ok(c))) => if c > old.limit() {
            r matches IncomingAction::Reply(Err(t)) && t@ == limit_prefix() + limit_text(c as nat, old.limit() as nat)
                && new.stage() == IncomingStage::Done
        } else {
            r is WriteCache && new.stage() == IncomingStage::Write
        },
        (IncomingStage::Write, IncomingEvent::Written(Err(e))) => r matches IncomingAction::Reply(Err(t)) && t@
            == e@ && new.stage() == IncomingStage::Done && new.planned() == old.planned(),
        (IncomingStage::Write, IncomingEvent::Written(Ok(()))) => {
            let (node_name, id, size, flag, priority, has_outgoing) = old.batch();
            &&& plans_incoming(new.planned(), node_name, id, size, flag, priority, has_outgoing, tm)
            &&& r matches IncomingAction::Insert(rec) && same_record(rec, new.planned()[0])
            &&& new.handed_out() == 1
            &&& new.stage() == IncomingStage::Insert
        },
        (IncomingStage::Insert, IncomingEvent::Inserted(Err(_))) => r is Drop && new.stage() == IncomingStage::Done,
        (IncomingStage::Insert, IncomingEvent::Inserted(Ok(()))) => if old.handed_out() < old.planned().len() {
            r matches IncomingAction::Insert(rec) && same_record(rec, old.planned()[old.handed_out() as int])
                && new.handed_out() == old.handed_out() + 1 && new.stage() == IncomingStage::Insert
        } else {
            r matches IncomingAction::Reply(Ok(())) && new.stage() == IncomingStage::Done
        },
        _ => false,
    }
}

/// Law of a compute node's handling of an arriving batch: a batch already
/// recorded is acknowledged at once and the handling ends, so its files are
/// not written and no record is made again; the files are written only when
/// the count of waiting batches is within the buffer limit; records are made
/// only once the files are written, each the batch's own (node, identifier,
/// size, flags, priority) and stamped with the time given; the handling ends
/// only with an answer, or silently after a failed insertion.
pub proof fn lemma_incoming_dedupes(old: IncomingFlow, event: IncomingEvent, tm: i64, r: IncomingAction, new: IncomingFlow)
    requires
        incoming_next(old, event, tm, r, new),
    ensures
        (old.stage() == IncomingStage::Lookup && (event matches IncomingEvent::Found(Ok(true)))) ==> ((r
            matches IncomingAction::Reply(Ok(()))) && new.stage() == IncomingStage::Done),
        (r is WriteCache) ==> (old.stage() == IncomingStage::Count && (event matches IncomingEvent::Counted(Ok(c))
            && c <= old.limit())),
        (old.stage() == IncomingStage::Write && (event matches IncomingEvent::Written(Ok(())))) ==> ({
            let (node_name, id, size, flag, priority, has_outgoing) = old.batch();
            &&& 1 <= new.planned().len() <= 2
            &&& forall|i: int|
                0 <= i < new.planned().len() ==> (#[trigger] new.planned()[i]).node_name@ == node_name
                    && new.planned()[i].id@ == id && new.planned()[i].size == size && new.planned()[i].flag == flag
                    && new.planned()[i].priority == priority && new.planned()[i].created_at == tm
        }),
        (r is Insert) ==> (old.stage() == IncomingStage::Write || old.stage() == IncomingStage::Insert),
        new.stage() == IncomingStage::Done ==> (r is Reply || r is Drop),
{
    if old.stage() == IncomingStage::Write && (event matches IncomingEvent::Written(Ok(()))) {
        let (node_name, id, size, flag, priority, has_outgoing) = old.batch();
        crate::tracker::lemma_incoming_records_carry_batch(
            new.planned(),
            node_name,
            id,
            size,
            flag,
            priority,
            has_outgoing,
            tm,
        );
    }
}

impl IncomingFlow {
    pub closed spec fn stage(&self) -> IncomingStage {
        self.stage
    }

    /// The batch: node name, identifier, size, flags, priority, and whether
    /// the node has downstreams.
    pub closed spec fn batch(&self) -> (Seq<char>, Seq<char>, u32, DataFlag, u8, bool) {
        (self.node_name@, self.id@, self.size, self.flag, self.priority, self.has_outgoing)
    }

    /// The records the batch leaves once its files are written, in insertion
    /// order (none before).
    pub closed spec fn planned(&self) -> Seq<DataRecord> {
        self.records@
    }

    /// How many of the planned records have been handed out for insertion.
    pub closed spec fn handed_out(&self) -> nat {
        self.next as nat
    }

    /// The buffer limit of the node.
    pub closed spec fn limit(&self) -> usize {
        self.buf_size
    }

    pub closed spec fn wf(&self) -> bool {
        &&& self.next <= self.records@.len()
        &&& self.stage == IncomingStage::Insert ==> self.next >= 1 && 1 <= self.records@.len() <= 2
    }

    /// Starts handling the batch `id` of `size` files: first look it up.
    pub fn start(
        node_name: &str,
        id: &str,
        size: u32,
        flag: DataFlag,
        priority: u8,
        has_outgoing: bool,
        buf_size: usize,
    ) -> (r: (IncomingFlow, IncomingAction))
        ensures
            r.0.wf(),
            r.0.stage() == IncomingStage::Lookup,
            r.0.batch() == (node_name@, id@, size, flag, priority, has_outgoing),
            r.0.planned().len() == 0,
            r.0.handed_out() == 0,
            r.0.limit() == buf_size,
            r.1 is FindRecord,
    {
        (
            IncomingFlow {
                stage: IncomingStage::Lookup,
                buf_size,
                node_name: node_name.to_owned(),
                id: id.to_owned(),
                size,
                flag,
                priority,
                has_outgoing,
                records: Vec::new(),
                next: 0,
            },
            IncomingAction::FindRecord,
        )
    }

    /// The next action; the records are stamped with the time read from the
    /// clock once the files are written.
    pub fn step(&mut self, event: IncomingEvent) -> (r: IncomingAction)
        requires
            old(self).wf(),
            expects(old(self).stage(), event),
        ensures
            exists|tm: i64| incoming_next(*old(self), event, tm, r, *final(self)),
    {
        let tm: i64 = if matches!(event, IncomingEvent::Written(Ok(()))) {
            now_timestamp()
        } else {
            0
        };
        self.step_at(event, tm)
    }

    /// The next action, records made in this step being stamped with `tm`.
    pub fn step_at(&mut self, event: IncomingEvent, tm: i64) -> (r: IncomingAction)
        requires
            old(self).wf(),
            expects(old(self).stage(), event),
        ensures
            incoming_next(*old(self), event, tm, r, *final(self)),
    {
        match event {
            IncomingEvent::Found(found) => match found {
                Ok(true) => {
                    self.stage = IncomingStage::Done;
                    IncomingAction::Reply(Ok(()))
                },
                Ok(false) => {
                    self.stage = IncomingStage::Count;
                    IncomingAction::CountReceived
                },
                Err(e) => {
                    self.stage = IncomingStage::Done;
                    IncomingAction::Reply(Err(e))
                },
            },
            IncomingEvent::Counted(counted) => {
                self.stage = IncomingStage::Done;
                match counted {
                    Ok(c) => {
                        if c > self.buf_size {
                            let msg = limit_message(c, self.buf_size);
                            IncomingAction::Reply(Err(String::from_str("cannt query limit from mongo ").concat(msg.as_str())))
                        } else {
                            self.stage = IncomingStage::Write;
                            IncomingAction::WriteCache
                        }
                    },
                    Err(e) => IncomingAction::Reply(
                        Err(String::from_str("cannt query limit from mongo ").concat(e.as_str())),
                    ),
                }
            },
            IncomingEvent::Written(written) => match written {
                Ok(()) => {
                    self.records = incoming_records(
                        self.node_name.as_str(),
                        self.id.as_str(),
                        self.size,
                        self.flag,
                        self.priority,
                        self.has_outgoing,
                        tm,
                    );
                    self.stage = IncomingStage::Insert;
                    self.next = 1;
                    IncomingAction::Insert(self.take_record(0))
                },
                Err(e) => {
                    self.stage = IncomingStage::Done;
                    IncomingAction::Reply(Err(e))
                },
            },
            IncomingEvent::Inserted(inserted) => match inserted {
                Ok(()) => {
                    if self.next < self.records.len() {
                        let k = self.next;
                        self.next = k + 1;
                        IncomingAction::Insert(self.take_record(k))
                    } else {
                        self.stage = IncomingStage::Done;
                        IncomingAction::Reply(Ok(()))
                    }
                },
                Err(_) => {
                    self.stage = IncomingStage::Done;
                    IncomingAction::Drop
                },
            },
        }
    }

    fn take_record(&self, k: usize) -> (r: DataRecord)
        requires
            k < self.records@.len(),
        ensures
            same_record(r, self.records@[k as int]),
    {
        copy_record(&self.records[k])
    }
}

/// `a` and `b` hold the same values.
pub open spec fn same_record(a: DataRecord, b: DataRecord) -> bool {
    &&& a.node_name@ == b.node_name@
    &&& a.id@ == b.id@
    &&& a.size == b.size
    &&& a.sent@.map_values(|s: String| s@) == b.sent@.map_values(|s: String| s@)
    &&& a.machine@ == b.machine@
    &&& a.flag == b.flag
    &&& a.priority == b.priority
    &&& a.state == b.state
    &&& a.direction == b.direction
    &&& a.created_at == b.created_at
    &&& a.updated_at == b.updated_at
}

/// A copy of a record.
pub fn copy_record(rec: &DataRecord) -> (r: DataRecord)
    ensures
        same_record(r, *rec),
{
    let r = DataRecord {
        node_name: rec.node_name.clone(),
        id: rec.id.clone(),
        size: rec.size,
        sent: copy_strings(&rec.sent),
        machine: rec.machine.clone(),
        flag: rec.flag,
        priority: rec.priority,
        state: rec.state,
        direction: rec.direction,
        created_at: rec.created_at,
        updated_at: rec.updated_at,
    };
    r
}

/// A copy of a list of strings.
pub fn copy_strings(v: &Vec<String>) -> (r: Vec<String>)
    ensures
        r@ == v@,
{
    let mut r: Vec<String> = Vec::new();
    let n = v.len();
    let mut i: usize = 0;
    while i < n
        invariant
            n == v@.len(),
            i <= n,
            r@ == v@.subrange(0, i as int),
        decreases n - i,
    {
        r.push(v[i].clone());
        assert(r@ =~= v@.subrange(0, (i + 1) as int));
        i = i + 1;
    }
    assert(r@ =~= v@);
    r
}

} // verus!
