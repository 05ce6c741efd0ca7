//! The media node's answer to a data request from its user container: it
//! pulls a batch from its upstream channel, stores it and records it, as a
//! step machine.
use crate::batch::{MediaDataBatchResponse, MediaDataBatchView};
use crate::ipc::AvaiableDataResponse;
use crate::state::{DataState, Direction};
use crate::tracker::{upstream_failure, UpstreamCode};
use vstd::prelude::*;

verus! {

#[derive(Clone, Copy, Debug, PartialEq, Eq, Structural)]
pub enum UpstreamStage {
    Connecting,
    Requesting,
    Looking,
    Writing,
    Inserting,
    Forwarding,
    Done,
}

/// What the caller does next.
pub enum UpstreamAction {
    /// Open a connection to the upstream channel.
    Connect,
    /// Ask the upstream channel for a batch.
    Request,
    /// Look the batch `id` up among the node's incoming records.
    FindById(String),
    /// Write this batch's files to the cache.
    WriteCache(MediaDataBatchResponse),
    /// Record the batch `id` of `size` files as received on the way in.
    InsertReceived { id: String, size: u32 },
    /// Record the incoming batch `id` of the channel node `node` in `state`
    /// (delivered to its downstream).
    MarkDelivered { node: String, id: String, direction: Direction, state: DataState },
    /// Answer the user container; with `drop_connection`, forget the
    /// connection first.
    Reply { result: Result<Option<AvaiableDataResponse>, String>, drop_connection: bool },
}

pub enum UpstreamEvent {
    Connected(Result<(), String>),
    /// The batch, or the status code the upstream refused with.
    Received(Result<MediaDataBatchResponse, UpstreamCode>),
    Found(Result<bool, String>),
    Written(Result<(), String>),
    Inserted(Result<(), String>),
    Marked(Result<(), String>),
}

/// The name of the channel node that feeds `node`.
pub open spec fn channel_of(node: Seq<char>) -> Seq<char> {
    node + "-channel"@
}

/// Law of channel names: the channel node that feeds a node is named after
/// it, the node's name followed by `-channel`, so two nodes never share a
/// channel node.
pub proof fn lemma_channel_names(a: Seq<char>, b: Seq<char>)
    ensures
        channel_of(a).subrange(0, a.len() as int) == a,
        channel_of(a).len() == a.len() + 8,
        channel_of(a).subrange(a.len() as int, channel_of(a).len() as int) == "-channel"@,
        a != b ==> channel_of(a) != channel_of(b),
{
    reveal_strlit("-channel");
    let ca = channel_of(a);
    let cb = channel_of(b);
    assert(ca.subrange(0, a.len() as int) =~= a);
    assert(ca.subrange(a.len() as int, ca.len() as int) =~= "-channel"@);
    if ca == cb {
        assert(cb.subrange(0, b.len() as int) =~= b);
        assert(a.len() == b.len());
        assert(a =~= b);
    }
}

/// The handling of one data request in a media node.
pub struct UpstreamFlow {
    stage: UpstreamStage,
    node_name: String,
    id: String,
    size: u32,
    held: Option<MediaDataBatchResponse>,
}

impl UpstreamFlow {
    pub closed spec fn stage(&self) -> UpstreamStage {
        self.stage
    }

    pub closed spec fn node_name(&self) -> Seq<char> {
        self.node_name@
    }

    /// The batch being handled.
    pub closed spec fn batch(&self) -> (Seq<char>, u32) {
        (self.id@, self.size)
    }

    /// The batch received from upstream, until it is handed out for writing.
    pub closed spec fn held(&self) -> Option<MediaDataBatchView> {
        match self.held {
            Some(b) => Some(b@),
            None => None,
        }
    }

    pub closed spec fn wf(&self) -> bool {
        self.stage == UpstreamStage::Looking ==> self.held is Some
    }

    /// Starts handling a request; without a connection, open one first.
    pub fn start(node_name: &str, connected: bool) -> (r: (UpstreamFlow, UpstreamAction))
        ensures
            r.0.wf(),
            r.0.node_name() == node_name@,
            connected ==> r.1 is Request && r.0.stage() == UpstreamStage::Requesting,
            !connected ==> r.1 is Connect && r.0.stage() == UpstreamStage::Connecting,
    {
        let stage = if connected {
            UpstreamStage::Requesting
        } else {
            UpstreamStage::Connecting
        };
        let action = if connected {
            UpstreamAction::Request
        } else {
            UpstreamAction::Connect
        };
        (UpstreamFlow { stage, node_name: node_name.to_owned(), id: String::new(), size: 0, held: None }, action)
    }

    /// The next action.  A batch recorded before is not handed out again;
    /// a new batch is handed out only after it is stored, recorded as
    /// received, and recorded as delivered in the channel node; a timed out
    /// or broken connection is forgotten.
    pub fn step(&mut self, event: UpstreamEvent) -> (r: UpstreamAction)
        requires
            old(self).wf(),
            old(self).stage() == UpstreamStage::Connecting ==> event is Connected,
            old(self).stage() == UpstreamStage::Requesting ==> event is Received,
            old(self).stage() == UpstreamStage::Looking ==> event is Found,
            old(self).stage() == UpstreamStage::Writing ==> event is Written,
            old(self).stage() == UpstreamStage::Inserting ==> event is Inserted,
            old(self).stage() == UpstreamStage::Forwarding ==> event is Marked,
            old(self).stage() != UpstreamStage::Done,
        ensures
            final(self).wf(),
            final(self).node_name() == old(self).node_name(),
            match (old(self).stage(), event) {
                (UpstreamStage::Connecting, UpstreamEvent::Connected(Ok(()))) => r is Request && final(self).stage()
                    == UpstreamStage::Requesting,
                (UpstreamStage::Connecting, UpstreamEvent::Connected(Err(_))) => r matches UpstreamAction::Reply {
                    result: Ok(None),
                    drop_connection: false,
                } && final(self).stage() == UpstreamStage::Done,
                (UpstreamStage::Requesting, UpstreamEvent::Received(Ok(b))) => r matches UpstreamAction::FindById(id)
                    && id@ == b.id@ && final(self).batch() == (b.id@, b.size) && final(self).held() == Some(b@) && final(self).stage()
                    == UpstreamStage::Looking,
                (UpstreamStage::Requesting, UpstreamEvent::Received(Err(code))) => final(self).stage()
                    == UpstreamStage::Done && match code {
                    UpstreamCode::NotFound => r matches UpstreamAction::Reply { result: Ok(None), drop_connection: false },
                    UpstreamCode::DeadlineExceeded => r matches UpstreamAction::Reply {
                        result: Err(t),
                        drop_connection: true,
                    } && t@ == "network deadline exceeded"@,
                    UpstreamCode::Unavailable => r matches UpstreamAction::Reply {
                        result: Err(t),
                        drop_connection: true,
                    } && t@ == "connect break"@,
                    UpstreamCode::Other => r matches UpstreamAction::Reply { result: Err(t), drop_connection: false }
                        && t@ == "unable to retrieval data"@,
                },
                (UpstreamStage::Looking, UpstreamEvent::Found(Ok(true))) => r matches UpstreamAction::Reply {
                    result: Ok(None),
                    drop_connection: false,
                } && final(self).stage() == UpstreamStage::Done,
                (UpstreamStage::Looking, UpstreamEvent::Found(Err(e))) => r matches UpstreamAction::Reply {
                    result: Err(t),
                    drop_connection: false,
                } && t@ == e@ && final(self).stage() == UpstreamStage::Done,
                (UpstreamStage::Looking, UpstreamEvent::Found(Ok(false))) => r matches UpstreamAction::WriteCache(b)
                    && Some(b@) == old(self).held() && final(self).stage() == UpstreamStage::Writing && final(
                    self).batch() == old(self).batch(),
                (UpstreamStage::Writing, UpstreamEvent::Written(Err(e))) => r matches UpstreamAction::Reply {
                    result: Err(t),
                    drop_connection: false,
                } && t@ == "write cache files "@ + e@ && final(self).stage() == UpstreamStage::Done,
                (UpstreamStage::Writing, UpstreamEvent::Written(Ok(()))) => r matches UpstreamAction::InsertReceived {
                    id,
                    size,
                } && (id@, size) == old(self).batch() && final(self).stage() == UpstreamStage::Inserting
                    && final(self).batch() == old(self).batch(),
                (UpstreamStage::Inserting, UpstreamEvent::Inserted(Err(e))) => r matches UpstreamAction::Reply {
                    result: Err(t),
                    drop_connection: false,
                } && t@ == "mark data as client receive "@ + e@ && final(self).stage() == UpstreamStage::Done,
                (UpstreamStage::Inserting, UpstreamEvent::Inserted(Ok(()))) => r matches UpstreamAction::MarkDelivered {
                    node,
                    id,
                    direction,
                    state,
                } && direction == Direction::In && state == DataState::EndRecieved && node@ == channel_of(old(self).node_name()) && id@ == old(self).batch().0 && final(self).stage()
                    == UpstreamStage::Forwarding && final(self).batch() == old(self).batch(),
                (UpstreamStage::Forwarding, UpstreamEvent::Marked(Err(e))) => r matches UpstreamAction::Reply {
                    result: Err(t),
                    drop_connection: false,
                } && t@ == "mark data as client receive "@ + e@ && final(self).stage() == UpstreamStage::Done,
                (UpstreamStage::Forwarding, UpstreamEvent::Marked(Ok(()))) => r matches UpstreamAction::Reply {
                    result: Ok(Some(d)),
                    drop_connection: false,
                } && (d.id@, d.size) == old(self).batch() && final(self).stage() == UpstreamStage::Done,
                _ => false,
            },
    {
        match event {
            UpstreamEvent::Connected(c) => match c {
                Ok(()) => {
                    self.stage = UpstreamStage::Requesting;
                    UpstreamAction::Request
                },
                Err(_) => {
                    self.stage = UpstreamStage::Done;
                    UpstreamAction::Reply { result: Ok(None), drop_connection: false }
                },
            },
            UpstreamEvent::Received(received) => match received {
                Ok(b) => {
                    self.stage = UpstreamStage::Looking;
                    self.id = b.id.clone();
                    self.size = b.size;
                    let id = b.id.clone();
                    self.held = Some(b);
                    UpstreamAction::FindById(id)
                },
                Err(code) => {
                    self.stage = UpstreamStage::Done;
                    let (drop_connection, text) = upstream_failure(code);
                    match text {
                        None => UpstreamAction::Reply { result: Ok(None), drop_connection },
                        Some(t) => UpstreamAction::Reply { result: Err(t), drop_connection },
                    }
                },
            },
            UpstreamEvent::Found(found) => match found {
                Ok(true) => {
                    self.stage = UpstreamStage::Done;
                    UpstreamAction::Reply { result: Ok(None), drop_connection: false }
                },
                Ok(false) => {
                    self.stage = UpstreamStage::Writing;
                    let b = self.held.take().unwrap();
                    UpstreamAction::WriteCache(b)
                },
                Err(e) => {
                    self.stage = UpstreamStage::Done;
                    UpstreamAction::Reply { result: Err(e), drop_connection: false }
                },
            },
            UpstreamEvent::Written(written) => match written {
                Ok(()) => {
                    self.stage = UpstreamStage::Inserting;
                    UpstreamAction::InsertReceived { id: self.id.clone(), size: self.size }
                },
                Err(e) => {
                    self.stage = UpstreamStage::Done;
                    UpstreamAction::Reply {
                        result: Err(String::from_str("write cache files ").concat(e.as_str())),
                        drop_connection: false,
                    }
                },
            },
            UpstreamEvent::Inserted(inserted) => match inserted {
                Ok(()) => {
                    self.stage = UpstreamStage::Forwarding;
                    let node = self.node_name.clone().concat("-channel");
                    UpstreamAction::MarkDelivered {
                        node,
                        id: self.id.clone(),
                        direction: Direction::In,
                        state: DataState::EndRecieved,
                    }
                },
                Err(e) => {
                    self.stage = UpstreamStage::Done;
                    UpstreamAction::Reply {
                        result: Err(String::from_str("mark data as client receive ").concat(e.as_str())),
                        drop_connection: false,
                    }
                },
            },
            UpstreamEvent::Marked(marked) => {
                self.stage = UpstreamStage::Done;
                match marked {
                    Ok(()) => UpstreamAction::Reply {
                        result: Ok(Some(AvaiableDataResponse { id: self.id.clone(), size: self.size })),
                        drop_connection: false,
                    },
                    Err(e) => UpstreamAction::Reply {
                        result: Err(String::from_str("mark data as client receive ").concat(e.as_str())),
                        drop_connection: false,
                    },
                }
            },
        }
    }
}

} // verus!
