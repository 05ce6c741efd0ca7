//! States recorded in the job database for nodes and for data batches.
use vstd::prelude::*;

verus! {

/// Life cycle of a node.
#[derive(Clone, Copy, Debug, PartialEq, Eq, Structural)]
pub enum TrackerState {
    Init,
    Ready,
    Stop,
    InComingFinish,
    Finish,
}

impl TrackerState {
    /// A node in an end state does no more work.
    pub open spec fn spec_is_end_state(&self) -> bool {
        *self == TrackerState::Finish || *self == TrackerState::Stop
    }

    /// Whether the node is in an end state (`Finish` or `Stop`).
    #[verifier::when_used_as_spec(spec_is_end_state)]
    pub fn is_end_state(&self) -> (r: bool)
        ensures
            r == self.spec_is_end_state(),
    {
        match self {
            TrackerState::Finish | TrackerState::Stop => true,
            _ => false,
        }
    }
}

/// Life cycle of one data batch in one node.
#[derive(Clone, Copy, Debug, PartialEq, Eq, Structural)]
pub enum DataState {
    Received,
    Assigned,
    Processed,
    SelectForSend,
    PartialSent,
    Sent,
    EndRecieved,
    Clean,
    Error,
    KeeptForMetadata,
}

/// Whether a batch record describes data coming in or going out.
#[derive(Clone, Copy, Debug, PartialEq, Eq, Structural)]
pub enum Direction {
    In,
    Out,
}

} // verus!
