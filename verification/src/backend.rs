//! The periodic background round of the trackers, as step machines: put
//! back batches whose sending never completed, clean up delivered batches,
//! and decide whether the node (or its incoming side) has finished.
use crate::state::{DataState, TrackerState};
use crate::tracker::{all_finished, all_finished_spec, any_finished, any_finished_spec, cleanup_state};
use vstd::prelude::*;

verus! {

/// What the caller does next in a round of the compute node.
pub enum ComputeRoundAction {
    /// Put outgoing batches selected for sending back to `Received`.
    RevertUnsent,
    /// Read the states of the upstream nodes.
    QueryUpstreams,
    /// Count the incoming batches still waiting or being processed.
    CountPendingIn,
    /// Record that the node's incoming side has finished.
    MarkIncomingFinish,
    /// The round is over; `keep_checking` tells whether later rounds still
    /// look for the end of the input.
    EndRound { result: Result<(), String>, keep_checking: bool },
}

pub enum RoundEvent {
    Reverted(Result<usize, String>),
    Upstreams(Result<Vec<TrackerState>, String>),
    Counted(Result<usize, String>),
    Marked(Result<(), String>),
}

#[derive(Clone, Copy, Debug, PartialEq, Eq, Structural)]
pub enum ComputeRoundStage {
    Reverting,
    Querying,
    Counting,
    Marking,
    Done,
}

/// One background round of the compute node.
pub struct ComputeRound {
    stage: ComputeRoundStage,
    check: bool,
    up_nodes: usize,
    marked: Ghost<bool>,
}

/// What a round that started with `to_check`, on a node with `up_nodes`
/// upstream nodes, may end with: it records the incoming side as finished
/// (`marked`) only when it was looking for the end of the input, and then
/// tells later rounds to stop looking; otherwise later rounds look as this
/// one did.
pub open spec fn round_outcome_ok(to_check: bool, up_nodes: nat, marked: bool, keep_checking: bool) -> bool {
    &&& marked ==> to_check && up_nodes > 0 && !keep_checking
    &&& !marked ==> keep_checking == to_check
}

/// Whether round `i` of `rounds` starts looking for the end of the input:
/// the first one does, every later one as the one before it said.
pub open spec fn round_starts_checking(rounds: Seq<(bool, bool)>, i: int) -> bool {
    if i == 0 {
        true
    } else {
        rounds[i - 1].1
    }
}

proof fn lemma_no_mark_after(rounds: Seq<(bool, bool)>, up_nodes: nat, i: int, j: int)
    requires
        0 <= i < j < rounds.len(),
        rounds[i].0,
        forall|m: int|
            0 <= m < rounds.len() ==> #[trigger] round_outcome_ok(
                round_starts_checking(rounds, m),
                up_nodes,
                rounds[m].0,
                rounds[m].1,
            ),
    ensures
        !rounds[j].0,
        !rounds[j].1,
    decreases j - i,
{
    assert(round_outcome_ok(round_starts_checking(rounds, i), up_nodes, rounds[i].0, rounds[i].1));
    assert(round_outcome_ok(round_starts_checking(rounds, j), up_nodes, rounds[j].0, rounds[j].1));
    if j > i + 1 {
        lemma_no_mark_after(rounds, up_nodes, i, j - 1);
    }
}

/// Law of the compute node's background loop: over a run of rounds, each
/// starting to look for the end of the input as the one before it said
/// (the first one does), the incoming side is recorded as finished by at
/// most one round.  `rounds[i]` is whether round `i` recorded it, and what
/// round `i` told later rounds.
pub proof fn lemma_incoming_finish_marked_once(rounds: Seq<(bool, bool)>, up_nodes: nat)
    requires
        forall|m: int|
            0 <= m < rounds.len() ==> #[trigger] round_outcome_ok(
                round_starts_checking(rounds, m),
                up_nodes,
                rounds[m].0,
                rounds[m].1,
            ),
    ensures
        forall|i: int, j: int| 0 <= i < j < rounds.len() ==> !(#[trigger] rounds[i].0 && #[trigger] rounds[j].0),
{
    assert forall|i: int, j: int| 0 <= i < j < rounds.len() implies !(#[trigger] rounds[i].0 && #[trigger] rounds[j].0) by {
        if rounds[i].0 {
            lemma_no_mark_after(rounds, up_nodes, i, j);
        }
    }
}

impl ComputeRound {
    pub closed spec fn stage(&self) -> ComputeRoundStage {
        self.stage
    }

    /// Whether the end of the input is still to be detected.
    pub closed spec fn to_check(&self) -> bool {
        self.check
    }

    /// Whether this round looks for the end of the input.
    pub closed spec fn checking(&self) -> bool {
        self.check && self.up_nodes > 0
    }

    /// The number of upstream nodes.
    pub closed spec fn up_nodes(&self) -> nat {
        self.up_nodes as nat
    }

    /// Whether this round has recorded the incoming side as finished.
    pub closed spec fn marked(&self) -> bool {
        self.marked@
    }

    pub closed spec fn wf(&self) -> bool {
        &&& (self.stage == ComputeRoundStage::Counting || self.stage == ComputeRoundStage::Marking
            || self.stage == ComputeRoundStage::Querying) ==> self.check && self.up_nodes > 0
        &&& self.marked@ ==> self.stage == ComputeRoundStage::Done
    }

    /// Starts a round; `to_check` tells whether the end of the input is
    /// still to be detected, `up_nodes` how many upstream nodes there are.
    pub fn start(to_check: bool, up_nodes: usize) -> (r: (ComputeRound, ComputeRoundAction))
        ensures
            r.0.wf(),
            r.0.stage() == ComputeRoundStage::Reverting,
            r.0.checking() == (to_check && up_nodes > 0),
            r.0.to_check() == to_check,
            r.0.up_nodes() == up_nodes,
            !r.0.marked(),
            r.1 is RevertUnsent,
    {
        (
            ComputeRound { stage: ComputeRoundStage::Reverting, check: to_check, up_nodes, marked: Ghost(false) },
            ComputeRoundAction::RevertUnsent,
        )
    }

    /// The next action.  The incoming side is recorded as finished only when
    /// every upstream node has finished and no incoming batch is pending;
    /// after that, later rounds stop checking.
    pub fn step(&mut self, event: RoundEvent) -> (r: ComputeRoundAction)
        requires
            old(self).wf(),
            old(self).stage() == ComputeRoundStage::Reverting ==> event is Reverted,
            old(self).stage() == ComputeRoundStage::Querying ==> event is Upstreams,
            old(self).stage() == ComputeRoundStage::Counting ==> event is Counted,
            old(self).stage() == ComputeRoundStage::Marking ==> event is Marked,
            old(self).stage() != ComputeRoundStage::Done,
        ensures
            final(self).wf(),
            final(self).checking() == old(self).checking(),
            final(self).to_check() == old(self).to_check(),
            final(self).up_nodes() == old(self).up_nodes(),
            final(self).marked() == (old(self).stage() == ComputeRoundStage::Marking && event matches RoundEvent::Marked(
                Ok(()),
            )),
            r is MarkIncomingFinish ==> old(self).checking(),
            r matches ComputeRoundAction::EndRound { keep_checking: k, .. } ==> round_outcome_ok(
                old(self).to_check(),
                old(self).up_nodes(),
                final(self).marked(),
                k,
            ),
            match (old(self).stage(), event) {
                (ComputeRoundStage::Reverting, RoundEvent::Reverted(Err(e))) => r matches ComputeRoundAction::EndRound {
                    result: Err(t),
                    keep_checking: k,
                } && t@ == "revert data "@ + e@ && k == old(self).to_check() && final(self).stage() == ComputeRoundStage::Done,
                (ComputeRoundStage::Reverting, RoundEvent::Reverted(Ok(_))) => if old(self).checking() {
                    r is QueryUpstreams && final(self).stage() == ComputeRoundStage::Querying
                } else {
                    r matches ComputeRoundAction::EndRound { result: Ok(()), keep_checking: k } && k == old(self).to_check()
                        && final(self).stage() == ComputeRoundStage::Done
                },
                (ComputeRoundStage::Querying, RoundEvent::Upstreams(Err(e))) => r matches ComputeRoundAction::EndRound {
                    result: Err(t),
                    keep_checking: k,
                } && t@ == "query node data "@ + e@ && k == old(self).to_check() && final(self).stage() == ComputeRoundStage::Done,
                (ComputeRoundStage::Querying, RoundEvent::Upstreams(Ok(states))) => if all_finished_spec(states@) {
                    r is CountPendingIn && final(self).stage() == ComputeRoundStage::Counting
                } else {
                    r matches ComputeRoundAction::EndRound { result: Ok(()), keep_checking: k } && k == old(self).to_check()
                        && final(self).stage() == ComputeRoundStage::Done
                },
                (ComputeRoundStage::Counting, RoundEvent::Counted(Err(e))) => r matches ComputeRoundAction::EndRound {
                    result: Err(t),
                    keep_checking: k,
                } && t@ == e@ && k == old(self).to_check() && final(self).stage() == ComputeRoundStage::Done,
                (ComputeRoundStage::Counting, RoundEvent::Counted(Ok(n))) => if n == 0 {
                    r is MarkIncomingFinish && final(self).stage() == ComputeRoundStage::Marking
                } else {
                    r matches ComputeRoundAction::EndRound { result: Ok(()), keep_checking: k } && k == old(self).to_check()
                        && final(self).stage() == ComputeRoundStage::Done
                },
                (ComputeRoundStage::Marking, RoundEvent::Marked(Err(e))) => r matches ComputeRoundAction::EndRound {
                    result: Err(t),
                    keep_checking: k,
                } && t@ == "update node data "@ + e@ && k == old(self).to_check() && final(self).stage() == ComputeRoundStage::Done,
                (ComputeRoundStage::Marking, RoundEvent::Marked(Ok(()))) => r matches ComputeRoundAction::EndRound {
                    result: Ok(()),
                    keep_checking: false,
                } && final(self).stage() == ComputeRoundStage::Done,
                _ => false,
            },
    {
        let keep = self.check;
        match event {
            RoundEvent::Reverted(reverted) => {
                match reverted {
                    Err(e) => {
                        self.stage = ComputeRoundStage::Done;
                        ComputeRoundAction::EndRound {
                            result: Err(String::from_str("revert data ").concat(e.as_str())),
                            keep_checking: keep,
                        }
                    },
                    Ok(_) => {
                        if self.check && self.up_nodes > 0 {
                            self.stage = ComputeRoundStage::Querying;
                            ComputeRoundAction::QueryUpstreams
                        } else {
                            self.stage = ComputeRoundStage::Done;
                            ComputeRoundAction::EndRound { result: Ok(()), keep_checking: keep }
                        }
                    },
                }
            },
            RoundEvent::Upstreams(states) => {
                match states {
                    Err(e) => {
                        self.stage = ComputeRoundStage::Done;
                        ComputeRoundAction::EndRound {
                            result: Err(String::from_str("query node data ").concat(e.as_str())),
                            keep_checking: keep,
                        }
                    },
                    Ok(states) => {
                        if all_finished(&states) {
                            self.stage = ComputeRoundStage::Counting;
                            ComputeRoundAction::CountPendingIn
                        } else {
                            self.stage = ComputeRoundStage::Done;
                            ComputeRoundAction::EndRound { result: Ok(()), keep_checking: keep }
                        }
                    },
                }
            },
            RoundEvent::Counted(counted) => {
                match counted {
                    Err(e) => {
                        self.stage = ComputeRoundStage::Done;
                        ComputeRoundAction::EndRound { result: Err(e), keep_checking: keep }
                    },
                    Ok(n) => {
                        if n == 0 {
                            self.stage = ComputeRoundStage::Marking;
                            ComputeRoundAction::MarkIncomingFinish
                        } else {
                            self.stage = ComputeRoundStage::Done;
                            ComputeRoundAction::EndRound { result: Ok(()), keep_checking: keep }
                        }
                    },
                }
            },
            RoundEvent::Marked(marked) => {
                self.stage = ComputeRoundStage::Done;
                match marked {
                    Err(e) => ComputeRoundAction::EndRound {
                        result: Err(String::from_str("update node data ").concat(e.as_str())),
                        keep_checking: keep,
                    },
                    Ok(()) => {
                        self.marked = Ghost(true);
                        ComputeRoundAction::EndRound { result: Ok(()), keep_checking: false }
                    },
                }
            },
        }
    }
}

/// A delivered batch that the channel node cleans up.
pub struct Delivered {
    pub id: String,
    pub is_metadata: bool,
}

/// What the caller does next in a round of the channel node.
pub enum ChannelRoundAction {
    /// List the batches delivered downstream.
    ListDelivered,
    /// Record the batch `id` in `state`.
    MarkState { id: String, state: DataState },
    /// Drop the files of the batch `id`.
    RemoveCache(String),
    /// Put outgoing batches selected for sending back to `Received`.
    RevertUnsent,
    /// Read the states of the upstream nodes.
    QueryUpstreams,
    /// Count the batches still to be handed out.
    CountRunning,
    /// Record the node as finished.
    MarkFinished,
    /// The round is over; `stop` tells whether the background work ends.
    EndRound { result: Result<(), String>, stop: bool },
}

pub enum ChannelRoundEvent {
    Listed(Result<Vec<Delivered>, String>),
    Marked(Result<(), String>),
    Removed(Result<(), String>),
    Reverted(Result<usize, String>),
    Upstreams(Result<Vec<TrackerState>, String>),
    Counted(Result<usize, String>),
}

#[derive(Clone, Copy, Debug, PartialEq, Eq, Structural)]
pub enum ChannelRoundStage {
    Listing,
    /// Waiting for the removal of the files of the current batch.
    Removing,
    /// Waiting for the record of the current batch.
    Marking,
    Reverting,
    Querying,
    Counting,
    Finishing,
    Done,
}

/// `r` and `stage` are what the round does with the listed batch at `pos`
/// (keep a metadata batch, drop the files of any other), or, once every
/// listed batch is dealt with, the putting back of unsent batches.
pub open spec fn visits(listed: Seq<(Seq<char>, bool)>, pos: nat, r: ChannelRoundAction, stage: ChannelRoundStage) -> bool {
    if pos < listed.len() {
        if listed[pos as int].1 {
            r matches ChannelRoundAction::MarkState { id, state } && id@ == listed[pos as int].0 && state
                == DataState::KeeptForMetadata && stage == ChannelRoundStage::Marking
        } else {
            r matches ChannelRoundAction::RemoveCache(id) && id@ == listed[pos as int].0 && stage
                == ChannelRoundStage::Removing
        }
    } else {
        r is RevertUnsent && stage == ChannelRoundStage::Reverting
    }
}

/// One background round of the channel node.
pub struct ChannelRound {
    stage: ChannelRoundStage,
    delivered: Vec<Delivered>,
    next: usize,
    handled: Ghost<Seq<(Option<bool>, Option<DataState>)>>,
}

/// What the round did with a listed batch `d` (its identifier and whether it
/// is a metadata batch), recorded as `h`: whether it asked for the files to
/// be removed (and whether that succeeded), and the state it asked to record.
/// A metadata batch is recorded as kept and its files are left alone; any
/// other batch has its files removed and is recorded as clean only if the
/// removal succeeded.
pub open spec fn handled_as_due(d: (Seq<char>, bool), h: (Option<bool>, Option<DataState>)) -> bool {
    if d.1 {
        h == (None::<bool>, Some(DataState::KeeptForMetadata))
    } else {
        &&& h.0 is Some
        &&& h.1 == (if h.0 == Some(true) {
            Some(DataState::Clean)
        } else {
            None::<DataState>
        })
    }
}

/// What the round records of the batch at the current position once it is
/// done with it after a record was asked for.
pub open spec fn marked_entry(d: (Seq<char>, bool)) -> (Option<bool>, Option<DataState>) {
    if d.1 {
        (None, Some(DataState::KeeptForMetadata))
    } else {
        (Some(true), Some(DataState::Clean))
    }
}

impl ChannelRound {
    pub closed spec fn stage(&self) -> ChannelRoundStage {
        self.stage
    }

    /// The batches listed for clean-up, and how many have been dealt with.
    pub closed spec fn listed(&self) -> Seq<(Seq<char>, bool)> {
        self.delivered@.map_values(|d: Delivered| (d.id@, d.is_metadata))
    }

    pub closed spec fn position(&self) -> nat {
        self.next as nat
    }

    /// What the round has done with each listed batch it is through with,
    /// in the order they were listed.
    pub closed spec fn handled(&self) -> Seq<(Option<bool>, Option<DataState>)> {
        self.handled@
    }

    /// Whether the round is through with the clean-up of delivered batches.
    pub open spec fn cleaned_up(&self) -> bool {
        self.stage() != ChannelRoundStage::Listing && self.stage() != ChannelRoundStage::Removing && self.stage()
            != ChannelRoundStage::Marking
    }

    pub closed spec fn wf(&self) -> bool {
        &&& self.next <= self.delivered@.len()
        &&& (self.stage == ChannelRoundStage::Removing || self.stage == ChannelRoundStage::Marking) ==> self.next
            < self.delivered@.len()
        &&& self.handled@.len() == self.next
        &&& forall|i: int| 0 <= i < self.next ==> handled_as_due(#[trigger] self.listed()[i], self.handled@[i])
        &&& self.cleaned_up() ==> self.next == self.delivered@.len()
        &&& self.stage == ChannelRoundStage::Removing ==> !self.delivered@[self.next as int].is_metadata
    }

    pub fn start() -> (r: (ChannelRound, ChannelRoundAction))
        ensures
            r.0.wf(),
            r.0.stage() == ChannelRoundStage::Listing,
            r.1 is ListDelivered,
    {
        (
            ChannelRound {
                stage: ChannelRoundStage::Listing,
                delivered: Vec::new(),
                next: 0,
                handled: Ghost(Seq::empty()),
            },
            ChannelRoundAction::ListDelivered,
        )
    }

    /// The first action on the delivered batch at `self.next`, or on the
    /// rest of the round once all of them are dealt with.
    fn visit(&mut self) -> (r: ChannelRoundAction)
        requires
            old(self).next <= old(self).delivered@.len(),
            old(self).handled@.len() == old(self).next,
            forall|i: int| 0 <= i < old(self).next ==> handled_as_due(#[trigger] old(self).listed()[i], old(self).handled@[i]),
        ensures
            final(self).wf(),
            final(self).delivered@ == old(self).delivered@,
            final(self).next == old(self).next,
            final(self).handled == old(self).handled,
            visits(final(self).listed(), final(self).position(), r, final(self).stage),
    {
        let ghost listed = self.listed();
        let r = self.choose_visit();
        assert(self.listed() =~= listed);
        r
    }

    fn choose_visit(&mut self) -> (r: ChannelRoundAction)
        requires
            old(self).next <= old(self).delivered@.len(),
        ensures
            final(self).delivered@ == old(self).delivered@,
            final(self).next == old(self).next,
            final(self).handled == old(self).handled,
            final(self).stage == ChannelRoundStage::Marking || final(self).stage == ChannelRoundStage::Removing
                ==> final(self).next < final(self).delivered@.len(),
            final(self).stage == ChannelRoundStage::Removing ==> !final(self).delivered@[final(self).next as int].is_metadata,
            final(self).stage != ChannelRoundStage::Marking && final(self).stage != ChannelRoundStage::Removing
                ==> final(self).stage == ChannelRoundStage::Reverting && final(self).next == final(self).delivered@.len(),
            visits(final(self).listed(), final(self).position(), r, final(self).stage),
    {
        if self.next < self.delivered.len() {
            let id = self.delivered[self.next].id.clone();
            if self.delivered[self.next].is_metadata {
                self.stage = ChannelRoundStage::Marking;
                ChannelRoundAction::MarkState { id, state: cleanup_state(true) }
            } else {
                self.stage = ChannelRoundStage::Removing;
                ChannelRoundAction::RemoveCache(id)
            }
        } else {
            self.stage = ChannelRoundStage::Reverting;
            ChannelRoundAction::RevertUnsent
        }
    }

    /// The next action.  Each delivered batch is cleaned up in turn: a
    /// metadata batch is kept, any other loses its files and is then
    /// recorded as clean (a batch whose files could not be removed stays as
    /// it is).  The node is recorded as finished, and the background work
    /// ends, only when every upstream node has finished and no batch is
    /// left to hand out.
    pub fn step(&mut self, event: ChannelRoundEvent) -> (r: ChannelRoundAction)
        requires
            old(self).wf(),
            old(self).stage() == ChannelRoundStage::Listing ==> event is Listed,
            old(self).stage() == ChannelRoundStage::Removing ==> event is Removed,
            old(self).stage() == ChannelRoundStage::Marking ==> event is Marked,
            old(self).stage() == ChannelRoundStage::Reverting ==> event is Reverted,
            old(self).stage() == ChannelRoundStage::Querying ==> event is Upstreams,
            old(self).stage() == ChannelRoundStage::Counting ==> event is Counted,
            old(self).stage() == ChannelRoundStage::Finishing ==> event is Marked,
            old(self).stage() != ChannelRoundStage::Done,
        ensures
            final(self).wf(),
            old(self).stage() != ChannelRoundStage::Listing ==> final(self).listed() == old(self).listed(),
            final(self).handled() == match (old(self).stage(), event) {
                (ChannelRoundStage::Listing, _) => Seq::empty(),
                (ChannelRoundStage::Removing, ChannelRoundEvent::Removed(Err(_))) => old(self).handled().push(
                    (Some(false), None),
                ),
                (ChannelRoundStage::Marking, _) => old(self).handled().push(
                    marked_entry(old(self).listed()[old(self).position() as int]),
                ),
                _ => old(self).handled(),
            },
            match (old(self).stage(), event) {
                (ChannelRoundStage::Listing, ChannelRoundEvent::Listed(Ok(list))) => final(self).listed()
                    == list@.map_values(|d: Delivered| (d.id@, d.is_metadata)) && final(self).position() == 0
                    && visits(final(self).listed(), 0, r, final(self).stage()),
                (ChannelRoundStage::Listing, ChannelRoundEvent::Listed(Err(_))) => r is RevertUnsent && final(self).stage() == ChannelRoundStage::Reverting,
                (ChannelRoundStage::Removing, ChannelRoundEvent::Removed(Ok(()))) => r matches ChannelRoundAction::MarkState {
                    id,
                    state,
                } && id@ == old(self).listed()[old(self).position() as int].0 && state == DataState::Clean && final(self).stage() == ChannelRoundStage::Marking && final(self).position() == old(self).position()
                    && final(self).listed() == old(self).listed(),
                (ChannelRoundStage::Removing, ChannelRoundEvent::Removed(Err(_))) => final(self).position() == old(self).position() + 1 && final(self).listed() == old(self).listed()
                    && visits(final(self).listed(), final(self).position(), r, final(self).stage()),
                (ChannelRoundStage::Marking, ChannelRoundEvent::Marked(_)) => final(self).position() == old(self).position() + 1 && final(self).listed() == old(self).listed()
                    && visits(final(self).listed(), final(self).position(), r, final(self).stage()),
                (ChannelRoundStage::Reverting, ChannelRoundEvent::Reverted(Err(e))) => r matches ChannelRoundAction::EndRound {
                    result: Err(t),
                    stop: false,
                } && t@ == "revert data "@ + e@ && final(self).stage() == ChannelRoundStage::Done,
                (ChannelRoundStage::Reverting, ChannelRoundEvent::Reverted(Ok(_))) => r is QueryUpstreams && final(self).stage() == ChannelRoundStage::Querying,
                (ChannelRoundStage::Querying, ChannelRoundEvent::Upstreams(Err(e))) => r matches ChannelRoundAction::EndRound {
                    result: Err(t),
                    stop: false,
                } && t@ == "query node data "@ + e@ && final(self).stage() == ChannelRoundStage::Done,
                (ChannelRoundStage::Querying, ChannelRoundEvent::Upstreams(Ok(states))) => if all_finished_spec(states@) {
                    r is CountRunning && final(self).stage() == ChannelRoundStage::Counting
                } else {
                    r matches ChannelRoundAction::EndRound { result: Ok(()), stop: false } && final(self).stage()
                        == ChannelRoundStage::Done
                },
                (ChannelRoundStage::Counting, ChannelRoundEvent::Counted(Err(e))) => r matches ChannelRoundAction::EndRound {
                    result: Err(t),
                    stop: false,
                } && t@ == e@ && final(self).stage() == ChannelRoundStage::Done,
                (ChannelRoundStage::Counting, ChannelRoundEvent::Counted(Ok(n))) => if n == 0 {
                    r is MarkFinished && final(self).stage() == ChannelRoundStage::Finishing
                } else {
                    r matches ChannelRoundAction::EndRound { result: Ok(()), stop: false } && final(self).stage()
                        == ChannelRoundStage::Done
                },
                (ChannelRoundStage::Finishing, ChannelRoundEvent::Marked(Err(e))) => r matches ChannelRoundAction::EndRound {
                    result: Err(t),
                    stop: false,
                } && t@ == "update node data "@ + e@ && final(self).stage() == ChannelRoundStage::Done,
                (ChannelRoundStage::Finishing, ChannelRoundEvent::Marked(Ok(()))) => r matches ChannelRoundAction::EndRound {
                    result: Ok(()),
                    stop: true,
                } && final(self).stage() == ChannelRoundStage::Done,
                _ => false,
            },
    {
        match event {
            ChannelRoundEvent::Listed(listed) => {
                match listed {
                    Ok(list) => {
                        self.delivered = list;
                        self.next = 0;
                    },
                    Err(_) => {
                        self.delivered = Vec::new();
                        self.next = 0;
                    },
                }
                self.handled = Ghost(Seq::empty());
                self.visit()
            },
            ChannelRoundEvent::Removed(removed) => {
                match removed {
                    Ok(()) => {
                        self.stage = ChannelRoundStage::Marking;
                        let id = self.delivered[self.next].id.clone();
                        ChannelRoundAction::MarkState { id, state: cleanup_state(false) }
                    },
                    Err(_) => {
                        let n = self.delivered.len();
                        assert(self.next < n);
                        self.handled = Ghost(self.handled@.push((Some(false), None)));
                        self.next = self.next + 1;
                        self.visit()
                    },
                }
            },
            ChannelRoundEvent::Marked(marked) => {
                if self.stage == ChannelRoundStage::Marking {
                    let n = self.delivered.len();
                    assert(self.next < n);
                    self.handled = Ghost(self.handled@.push(marked_entry(self.listed()[self.next as int])));
                    self.next = self.next + 1;
                    self.visit()
                } else {
                    self.stage = ChannelRoundStage::Done;
                    match marked {
                        Ok(()) => ChannelRoundAction::EndRound { result: Ok(()), stop: true },
                        Err(e) => ChannelRoundAction::EndRound {
                            result: Err(String::from_str("update node data ").concat(e.as_str())),
                            stop: false,
                        },
                    }
                }
            },
            ChannelRoundEvent::Reverted(reverted) => {
                match reverted {
                    Err(e) => {
                        self.stage = ChannelRoundStage::Done;
                        ChannelRoundAction::EndRound {
                            result: Err(String::from_str("revert data ").concat(e.as_str())),
                            stop: false,
                        }
                    },
                    Ok(_) => {
                        self.stage = ChannelRoundStage::Querying;
                        ChannelRoundAction::QueryUpstreams
                    },
                }
            },
            ChannelRoundEvent::Upstreams(states) => {
                match states {
                    Err(e) => {
                        self.stage = ChannelRoundStage::Done;
                        ChannelRoundAction::EndRound {
                            result: Err(String::from_str("query node data ").concat(e.as_str())),
                            stop: false,
                        }
                    },
                    Ok(states) => {
                        if all_finished(&states) {
                            self.stage = ChannelRoundStage::Counting;
                            ChannelRoundAction::CountRunning
                        } else {
                            self.stage = ChannelRoundStage::Done;
                            ChannelRoundAction::EndRound { result: Ok(()), stop: false }
                        }
                    },
                }
            },
            ChannelRoundEvent::Counted(counted) => {
                match counted {
                    Err(e) => {
                        self.stage = ChannelRoundStage::Done;
                        ChannelRoundAction::EndRound { result: Err(e), stop: false }
                    },
                    Ok(n) => {
                        if n == 0 {
                            self.stage = ChannelRoundStage::Finishing;
                            ChannelRoundAction::MarkFinished
                        } else {
                            self.stage = ChannelRoundStage::Done;
                            ChannelRoundAction::EndRound { result: Ok(()), stop: false }
                        }
                    },
                }
            },
        }
    }
}


/// Law of the channel node's clean-up: once a round is through with the
/// delivered batches it listed, it has dealt with every one of them, in
/// order: a metadata batch was recorded as kept and its files were left
/// alone; any other had its files removed and was recorded as clean only if
/// the removal succeeded.
pub proof fn lemma_round_cleans_every_batch(round: ChannelRound)
    requires
        round.wf(),
        round.cleaned_up(),
    ensures
        round.handled().len() == round.listed().len(),
        forall|i: int|
            0 <= i < round.listed().len() ==> handled_as_due(#[trigger] round.listed()[i], round.handled()[i]),
        forall|i: int|
            0 <= i < round.listed().len() && (#[trigger] round.listed()[i]).1 ==> round.handled()[i].0 is None
                && round.handled()[i].1 == Some(DataState::KeeptForMetadata),
        forall|i: int|
            0 <= i < round.listed().len() && !(#[trigger] round.listed()[i]).1 ==> round.handled()[i].0 is Some && (
            round.handled()[i].1 == Some(DataState::Clean) <==> round.handled()[i].0 == Some(true)) && (
            round.handled()[i].1 is None <==> round.handled()[i].0 == Some(false)),
{
    assert forall|i: int| 0 <= i < round.listed().len() && !(#[trigger] round.listed()[i]).1 implies round.handled()[i].0 is Some && (
        round.handled()[i].1 == Some(DataState::Clean) <==> round.handled()[i].0 == Some(true)) && (
        round.handled()[i].1 is None <==> round.handled()[i].0 == Some(false)) by {
        assert(handled_as_due(round.listed()[i], round.handled()[i]));
        let h = round.handled()[i];
        if h.0 == Some(true) {
        } else {
            assert(h.0 == Some(false));
        }
    }
}

/// Law of a clean-up visit: the files of a metadata batch are never asked
/// to be removed (the batch is recorded as kept), the files of any other
/// batch are asked to be removed before anything is recorded of it, each
/// action names the listed batch at the position reached, and once every
/// listed batch is dealt with the round goes on to put back unsent batches.
pub proof fn lemma_visit_spares_metadata(
    listed: Seq<(Seq<char>, bool)>,
    pos: nat,
    r: ChannelRoundAction,
    stage: ChannelRoundStage,
)
    requires
        visits(listed, pos, r, stage),
    ensures
        pos < listed.len() && listed[pos as int].1 ==> !(r is RemoveCache) && (r matches ChannelRoundAction::MarkState {
            id,
            state,
        } && id@ == listed[pos as int].0 && state == DataState::KeeptForMetadata),
        pos < listed.len() && !listed[pos as int].1 ==> !(r is MarkState) && (r matches ChannelRoundAction::RemoveCache(
            id,
        ) && id@ == listed[pos as int].0),
        pos >= listed.len() ==> (r is RevertUnsent) && stage == ChannelRoundStage::Reverting,
{
}

/// What the caller does next in a round of the media node.
pub enum MediaRoundAction {
    /// Put outgoing batches selected for sending back to `Received`.
    RevertUnsent,
    /// Read the states of the upstream nodes.
    QueryUpstreams,
    /// Count the outgoing batches in any of `media_running_states`.
    CountPendingOut,
    /// Record the node as finished.
    MarkFinished,
    /// The round is over; `stop` tells whether the background work ends.
    EndRound { result: Result<(), String>, stop: bool },
}

#[derive(Clone, Copy, Debug, PartialEq, Eq, Structural)]
pub enum MediaRoundStage {
    Reverting,
    Querying,
    Counting,
    Finishing,
    Done,
}

/// One background round of the media node.
pub struct MediaRound {
    stage: MediaRoundStage,
}

impl MediaRound {
    pub closed spec fn stage(&self) -> MediaRoundStage {
        self.stage
    }

    pub fn start() -> (r: (MediaRound, MediaRoundAction))
        ensures
            r.0.stage() == MediaRoundStage::Reverting,
            r.1 is RevertUnsent,
    {
        (MediaRound { stage: MediaRoundStage::Reverting }, MediaRoundAction::RevertUnsent)
    }

    /// The next action.  The node is recorded as finished, and the
    /// background work ends, only when some upstream node has finished and
    /// no outgoing batch is left in a running state; any failure ends the
    /// round with its text and the work goes on.
    pub fn step(&mut self, event: RoundEvent) -> (r: MediaRoundAction)
        requires
            old(self).stage() == MediaRoundStage::Reverting ==> event is Reverted,
            old(self).stage() == MediaRoundStage::Querying ==> event is Upstreams,
            old(self).stage() == MediaRoundStage::Counting ==> event is Counted,
            old(self).stage() == MediaRoundStage::Finishing ==> event is Marked,
            old(self).stage() != MediaRoundStage::Done,
        ensures
            match (old(self).stage(), event) {
                (MediaRoundStage::Reverting, RoundEvent::Reverted(Err(e))) => r matches MediaRoundAction::EndRound {
                    result: Err(t),
                    stop: false,
                } && t@ == "revert data "@ + e@ && final(self).stage() == MediaRoundStage::Done,
                (MediaRoundStage::Reverting, RoundEvent::Reverted(Ok(_))) => r is QueryUpstreams && final(self).stage()
                    == MediaRoundStage::Querying,
                (MediaRoundStage::Querying, RoundEvent::Upstreams(Err(e))) => r matches MediaRoundAction::EndRound {
                    result: Err(t),
                    stop: false,
                } && t@ == "query node data "@ + e@ && final(self).stage() == MediaRoundStage::Done,
                (MediaRoundStage::Querying, RoundEvent::Upstreams(Ok(states))) => if any_finished_spec(states@) {
                    r is CountPendingOut && final(self).stage() == MediaRoundStage::Counting
                } else {
                    r matches MediaRoundAction::EndRound { result: Ok(()), stop: false } && final(self).stage()
                        == MediaRoundStage::Done
                },
                (MediaRoundStage::Counting, RoundEvent::Counted(Err(e))) => r matches MediaRoundAction::EndRound {
                    result: Err(t),
                    stop: false,
                } && t@ == e@ && final(self).stage() == MediaRoundStage::Done,
                (MediaRoundStage::Counting, RoundEvent::Counted(Ok(n))) => if n == 0 {
                    r is MarkFinished && final(self).stage() == MediaRoundStage::Finishing
                } else {
                    r matches MediaRoundAction::EndRound { result: Ok(()), stop: false } && final(self).stage()
                        == MediaRoundStage::Done
                },
                (MediaRoundStage::Finishing, RoundEvent::Marked(Err(e))) => r matches MediaRoundAction::EndRound {
                    result: Err(t),
                    stop: false,
                } && t@ == "update node data "@ + e@ && final(self).stage() == MediaRoundStage::Done,
                (MediaRoundStage::Finishing, RoundEvent::Marked(Ok(()))) => r matches MediaRoundAction::EndRound {
                    result: Ok(()),
                    stop: true,
                } && final(self).stage() == MediaRoundStage::Done,
                _ => false,
            },
    {
        match event {
            RoundEvent::Reverted(reverted) => match reverted {
                Err(e) => {
                    self.stage = MediaRoundStage::Done;
                    MediaRoundAction::EndRound {
                        result: Err(String::from_str("revert data ").concat(e.as_str())),
                        stop: false,
                    }
                },
                Ok(_) => {
                    self.stage = MediaRoundStage::Querying;
                    MediaRoundAction::QueryUpstreams
                },
            },
            RoundEvent::Upstreams(states) => match states {
                Err(e) => {
                    self.stage = MediaRoundStage::Done;
                    MediaRoundAction::EndRound {
                        result: Err(String::from_str("query node data ").concat(e.as_str())),
                        stop: false,
                    }
                },
                Ok(states) => {
                    if any_finished(&states) {
                        self.stage = MediaRoundStage::Counting;
                        MediaRoundAction::CountPendingOut
                    } else {
                        self.stage = MediaRoundStage::Done;
                        MediaRoundAction::EndRound { result: Ok(()), stop: false }
                    }
                },
            },
            RoundEvent::Counted(counted) => match counted {
                Err(e) => {
                    self.stage = MediaRoundStage::Done;
                    MediaRoundAction::EndRound { result: Err(e), stop: false }
                },
                Ok(n) => {
                    if n == 0 {
                        self.stage = MediaRoundStage::Finishing;
                        MediaRoundAction::MarkFinished
                    } else {
                        self.stage = MediaRoundStage::Done;
                        MediaRoundAction::EndRound { result: Ok(()), stop: false }
                    }
                },
            },
            RoundEvent::Marked(marked) => {
                self.stage = MediaRoundStage::Done;
                match marked {
                    Ok(()) => MediaRoundAction::EndRound { result: Ok(()), stop: true },
                    Err(e) => MediaRoundAction::EndRound {
                        result: Err(String::from_str("update node data ").concat(e.as_str())),
                        stop: false,
                    },
                }
            },
        }
    }
}

} // verus!
