//! The compute node's sending of one outgoing batch that it has selected
//! for sending, as a step machine.
use crate::batch::{MediaDataBatchResponse, MediaDataBatchView};
use crate::state::DataState;
use crate::tracker::DataFlag;
use vstd::prelude::*;

verus! {

/// Where the sending of a batch stands.
#[derive(Clone, Copy, Debug, PartialEq, Eq, Structural)]
pub enum OutgoingStage {
    Read,
    MarkingError,
    Sending,
    MarkingPartial,
    MarkingSent,
    Removing,
    Done,
}

/// What the caller does next.
pub enum OutgoingAction {
    /// Read the batch's files from the cache.
    ReadCache,
    /// Record the batch in `state`, with the downstreams that have it.
    MarkState { state: DataState, sent: Option<Vec<String>> },
    /// Send the batch to every downstream but those in `already`.
    Send { batch: MediaDataBatchResponse, already: Vec<String> },
    /// Drop the batch's files from the cache.
    RemoveCache,
    /// This batch is dealt with; `more` tells whether to look for the next
    /// one at once or to wait for the next round.
    Finish { more: bool },
}

/// What came of the last action.
pub enum OutgoingEvent {
    Read(Result<MediaDataBatchResponse, String>),
    Sent(Result<(), Vec<String>>),
    Marked(Result<(), String>),
    Removed(Result<(), String>),
}

pub open spec fn expects(stage: OutgoingStage, e: OutgoingEvent) -> bool {
    match stage {
        OutgoingStage::Read => e is Read,
        OutgoingStage::Sending => e is Sent,
        OutgoingStage::MarkingError | OutgoingStage::MarkingPartial | OutgoingStage::MarkingSent => e is Marked,
        OutgoingStage::Removing => e is Removed,
        OutgoingStage::Done => false,
    }
}

pub open spec fn texts(v: Seq<String>) -> Seq<Seq<char>> {
    v.map_values(|s: String| s@)
}

/// The batch `b` with the flag bits and priority of `stamp` written in.
pub open spec fn stamped(b: MediaDataBatchView, stamp: Option<(u32, u8)>) -> MediaDataBatchView {
    match stamp {
        Some((bits, priority)) => MediaDataBatchView { data_flag: bits, priority: priority as u32, ..b },
        None => b,
    }
}

/// Law of stamping a batch: the flag bits and priority given are written in
/// and nothing else changes (identifier, size and files stay); without a
/// stamp the batch is left as it is.
pub proof fn lemma_stamp_keeps_batch(b: MediaDataBatchView, bits: u32, priority: u8)
    ensures
        stamped(b, Some((bits, priority))).data_flag == bits,
        stamped(b, Some((bits, priority))).priority == priority as u32,
        stamped(b, Some((bits, priority))).id == b.id,
        stamped(b, Some((bits, priority))).size == b.size,
        stamped(b, Some((bits, priority))).cells == b.cells,
        stamped(b, None) == b,
{
}

/// The sending of one selected batch.
pub struct OutgoingFlow {
    stage: OutgoingStage,
    flag: DataFlag,
    stamp: Option<(u32, u8)>,
    already: Vec<String>,
    downstreams: Vec<String>,
}

impl OutgoingFlow {
    pub closed spec fn stage(&self) -> OutgoingStage {
        self.stage
    }

    pub closed spec fn flag(&self) -> DataFlag {
        self.flag
    }

    /// The flag bits and priority written into the batch before it is
    /// sent, if any.
    pub closed spec fn stamp(&self) -> Option<(u32, u8)> {
        self.stamp
    }

    /// The downstreams that had the batch when it was selected.
    pub closed spec fn already(&self) -> Seq<Seq<char>> {
        texts(self.already@)
    }

    /// All downstreams of the node.
    pub closed spec fn downstreams(&self) -> Seq<Seq<char>> {
        texts(self.downstreams@)
    }

    /// Starts sending a batch with `flag` that the downstreams in `already`
    /// have: first read its files.  With a `stamp`, its flag bits and
    /// priority are written into the batch before it goes out.
    pub fn start(flag: DataFlag, stamp: Option<(u32, u8)>, already: Vec<String>, downstreams: Vec<String>) -> (r: (
        OutgoingFlow,
        OutgoingAction,
    ))
        ensures
            r.0.stage() == OutgoingStage::Read,
            r.0.flag() == flag,
            r.0.stamp() == stamp,
            r.0.already() == texts(already@),
            r.0.downstreams() == texts(downstreams@),
            r.1 is ReadCache,
    {
        (
            OutgoingFlow { stage: OutgoingStage::Read, flag, stamp, already, downstreams },
            OutgoingAction::ReadCache,
        )
    }

    /// The next action.  A batch whose files are gone is recorded as an
    /// error; a non-empty batch goes to every downstream that lacks it; it
    /// is recorded as sent, with all downstreams, only after a full round,
    /// and as partly sent, with the downstreams reached, otherwise; its
    /// files are dropped after it is recorded as sent, unless it is to be
    /// kept.
    pub fn step(&mut self, event: OutgoingEvent) -> (r: OutgoingAction)
        requires
            expects(old(self).stage(), event),
        ensures
            final(self).flag() == old(self).flag(),
            final(self).stamp() == old(self).stamp(),
            final(self).already() == old(self).already(),
            final(self).downstreams() == old(self).downstreams(),
            match (old(self).stage(), event) {
                (OutgoingStage::Read, OutgoingEvent::Read(Err(_))) => r == (OutgoingAction::MarkState {
                    state: DataState::Error,
                    sent: None,
                }) && final(self).stage() == OutgoingStage::MarkingError,
                (OutgoingStage::Read, OutgoingEvent::Read(Ok(b))) => if b.size > 0 && old(self).downstreams().len()
                    > 0 {
                    r matches OutgoingAction::Send { batch, already } && batch@ == stamped(b@, old(self).stamp()) && texts(already@) == old(self).already() && final(self).stage() == OutgoingStage::Sending
                } else {
                    r matches OutgoingAction::MarkState { state: DataState::Sent, sent: Some(s) } && texts(s@) == old(
                        self,
                    ).downstreams() && final(self).stage() == OutgoingStage::MarkingSent
                },
                (OutgoingStage::Sending, OutgoingEvent::Sent(Err(reached))) => r matches OutgoingAction::MarkState {
                    state: DataState::PartialSent,
                    sent: Some(s),
                } && s@ == reached@ && final(self).stage() == OutgoingStage::MarkingPartial,
                (OutgoingStage::Sending, OutgoingEvent::Sent(Ok(()))) => r matches OutgoingAction::MarkState {
                    state: DataState::Sent,
                    sent: Some(s),
                } && texts(s@) == old(self).downstreams() && final(self).stage() == OutgoingStage::MarkingSent,
                (OutgoingStage::MarkingError, OutgoingEvent::Marked(_)) => r == (OutgoingAction::Finish {
                    more: false,
                }) && final(self).stage() == OutgoingStage::Done,
                (OutgoingStage::MarkingPartial, OutgoingEvent::Marked(_)) => r == (OutgoingAction::Finish {
                    more: false,
                }) && final(self).stage() == OutgoingStage::Done,
                (OutgoingStage::MarkingSent, OutgoingEvent::Marked(Ok(()))) => if old(self).flag().is_keep_data {
                    r == (OutgoingAction::Finish { more: true }) && final(self).stage() == OutgoingStage::Done
                } else {
                    r is RemoveCache && final(self).stage() == OutgoingStage::Removing
                },
                (OutgoingStage::MarkingSent, OutgoingEvent::Marked(Err(_))) => r == (OutgoingAction::Finish {
                    more: true,
                }) && final(self).stage() == OutgoingStage::Done,
                (OutgoingStage::Removing, OutgoingEvent::Removed(_)) => r == (OutgoingAction::Finish { more: true })
                    && final(self).stage() == OutgoingStage::Done,
                _ => false,
            },
    {
        match event {
            OutgoingEvent::Read(read) => match read {
                Err(_) => {
                    self.stage = OutgoingStage::MarkingError;
                    OutgoingAction::MarkState { state: DataState::Error, sent: None }
                },
                Ok(batch) => {
                    let mut batch = batch;
                    if let Some((bits, priority)) = self.stamp {
                        batch.data_flag = bits;
                        batch.priority = priority as u32;
                    }
                    if batch.size > 0 && self.downstreams.len() > 0 {
                        self.stage = OutgoingStage::Sending;
                        let already = self.already.clone();
                        OutgoingAction::Send { batch, already }
                    } else {
                        self.stage = OutgoingStage::MarkingSent;
                        OutgoingAction::MarkState { state: DataState::Sent, sent: Some(self.downstreams.clone()) }
                    }
                },
            },
            OutgoingEvent::Sent(round) => match round {
                Err(reached) => {
                    self.stage = OutgoingStage::MarkingPartial;
                    OutgoingAction::MarkState { state: DataState::PartialSent, sent: Some(reached) }
                },
                Ok(()) => {
                    self.stage = OutgoingStage::MarkingSent;
                    OutgoingAction::MarkState { state: DataState::Sent, sent: Some(self.downstreams.clone()) }
                },
            },
            OutgoingEvent::Marked(marked) => {
                if self.stage == OutgoingStage::MarkingSent {
                    match marked {
                        Ok(()) => {
                            if self.flag.is_keep_data {
                                self.stage = OutgoingStage::Done;
                                OutgoingAction::Finish { more: true }
                            } else {
                                self.stage = OutgoingStage::Removing;
                                OutgoingAction::RemoveCache
                            }
                        },
                        Err(_) => {
                            self.stage = OutgoingStage::Done;
                            OutgoingAction::Finish { more: true }
                        },
                    }
                } else {
                    self.stage = OutgoingStage::Done;
                    OutgoingAction::Finish { more: false }
                }
            },
            OutgoingEvent::Removed(_) => {
                self.stage = OutgoingStage::Done;
                OutgoingAction::Finish { more: true }
            },
        }
    }
}

} // verus!
