//! The batch program of a runner node: its life cycle as driven by the
//! node controller, and the bookkeeping of the batches it handles.
use vstd::prelude::*;

verus! {

/// Life cycle of a batch program.
#[derive(Clone, Copy, Debug, PartialEq, Eq, Structural)]
pub enum ProgramState {
    Init,
    Ready,
    Pending,
    Finish,
    Stopped,
}

/// A batch program: its state, the upstreams it reads from and the script
/// it runs on each batch.
pub struct BatchProgram {
    pub state: ProgramState,
    pub upstreams: Option<Vec<String>>,
    pub script: Option<String>,
}

impl BatchProgram {
    /// A program that has not been started.
    pub fn new() -> (r: Self)
        ensures
            r.state == ProgramState::Init,
            r.upstreams is None,
            r.script is None,
    {
        BatchProgram { state: ProgramState::Init, upstreams: None, script: None }
    }

    /// Starts the program with `script`, reading from `upstreams` when they
    /// are given (the upstreams already set are kept otherwise).
    pub fn start(&mut self, script: String, upstreams: Option<Vec<String>>)
        ensures
            final(self).state == ProgramState::Ready,
            final(self).script == Some(script),
            upstreams is Some ==> final(self).upstreams == upstreams,
            upstreams is None ==> final(self).upstreams == old(self).upstreams,
    {
        self.state = ProgramState::Ready;
        if upstreams.is_some() {
            self.upstreams = upstreams;
        }
        self.script = Some(script);
    }

    /// Pauses the program.
    pub fn pause(&mut self)
        ensures
            final(self).state == ProgramState::Pending,
            final(self).script == old(self).script,
            final(self).upstreams == old(self).upstreams,
    {
        self.state = ProgramState::Pending;
    }

    /// Lets a paused program run again.
    pub fn restart(&mut self)
        ensures
            final(self).state == ProgramState::Ready,
            final(self).script == old(self).script,
            final(self).upstreams == old(self).upstreams,
    {
        self.state = ProgramState::Ready;
    }

    /// Stops the program.
    pub fn stop(&mut self)
        ensures
            final(self).state == ProgramState::Stopped,
            final(self).script == old(self).script,
            final(self).upstreams == old(self).upstreams,
    {
        self.state = ProgramState::Stopped;
    }

    /// The script to run on a batch, or an error when none was given.
    pub fn script_to_run(&self) -> (r: Result<&String, String>)
        ensures
            match self.script {
                Some(s) => r == Ok::<&String, String>(&s),
                None => r matches Err(t) && t@ == "script not found"@,
            },
    {
        match &self.script {
            Some(s) => Ok(s),
            None => Err(String::from_str("script not found")),
        }
    }

    /// The upstreams to read from, or an error when none were given.
    pub fn upstreams_to_fetch(&self) -> (r: Result<&Vec<String>, String>)
        ensures
            match self.upstreams {
                Some(u) => r == Ok::<&Vec<String>, String>(&u),
                None => r matches Err(t) && t@ == "no upstream"@,
            },
    {
        match &self.upstreams {
            Some(u) => Ok(u),
            None => Err(String::from_str("no upstream")),
        }
    }
}

/// Calls `uuid::Uuid::new_v4()` and renders it with `to_string`. The
/// identifier is random; uuid's `Display` writes the hyphenated lower-case
/// form, which is 36 characters long, and that length is all that is claimed.
#[verifier::external_body]
fn new_batch_id() -> (id: String)
    ensures
        id@.len() == 36,
{
    uuid::Uuid::new_v4().to_string()
}

/// Where a batch is in a runner node.
#[derive(Clone, Copy, Debug, PartialEq, Eq, Structural)]
pub enum StateEnum {
    Received,
    Assigned,
    Processed,
    Sent,
}

/// The batches a runner node has received, by identifier, each with its
/// state.
pub struct BatchStates {
    entries: Vec<(String, StateEnum)>,
}

impl View for BatchStates {
    type V = Seq<(Seq<char>, StateEnum)>;

    closed spec fn view(&self) -> Seq<(Seq<char>, StateEnum)> {
        self.entries@.map_values(|e: (String, StateEnum)| (e.0@, e.1))
    }
}

impl BatchStates {
    pub fn new() -> (r: Self)
        ensures
            r@ == Seq::<(Seq<char>, StateEnum)>::empty(),
    {
        let r = BatchStates { entries: Vec::new() };
        assert(r@ =~= Seq::<(Seq<char>, StateEnum)>::empty());
        r
    }

    /// Records a newly received batch.
    pub fn receive(&mut self, id: String)
        ensures
            final(self)@ == old(self)@.push((id@, StateEnum::Received)),
    {
        self.entries.push((id, StateEnum::Received));
        assert(self@ =~= old(self)@.push((id@, StateEnum::Received)));
    }

    /// Records a newly received batch under a fresh random identifier, and
    /// returns that identifier.
    pub fn receive_new(&mut self) -> (id: String)
        ensures
            id@.len() == 36,
            final(self)@ == old(self)@.push((id@, StateEnum::Received)),
    {
        let id = new_batch_id();
        self.receive(id.clone());
        id
    }

    /// Hands out the first received batch, marking it assigned; `None` when
    /// every batch has been handed out.
    pub fn assign_next(&mut self) -> (r: Option<String>)
        ensures
            match r {
                Some(id) => exists|i: int|
                    0 <= i < old(self)@.len() && old(self)@[i] == (id@, StateEnum::Received) && (forall|j: int|
                        0 <= j < i ==> old(self)@[j].1 != StateEnum::Received) && final(self)@ == old(self)@.update(
                        i,
                        (id@, StateEnum::Assigned),
                    ),
                None => final(self)@ == old(self)@ && forall|j: int|
                    0 <= j < old(self)@.len() ==> old(self)@[j].1 != StateEnum::Received,
            },
    {
        let n = self.entries.len();
        let mut i: usize = 0;
        while i < n
            invariant
                n == self.entries@.len(),
                i <= n,
                *self == *old(self),
                forall|j: int| 0 <= j < i ==> self@[j].1 != StateEnum::Received,
            decreases n - i,
        {
            if self.entries[i].1 == StateEnum::Received {
                let id = self.entries[i].0.clone();
                let ghost before = self@;
                self.entries.set(i, (id.clone(), StateEnum::Assigned));
                assert(self@ =~= before.update(i as int, (id@, StateEnum::Assigned)));
                assert(before[i as int] == (id@, StateEnum::Received));
                assert(before == old(self)@);
                return Some(id);
            }
            i = i + 1;
        }
        None
    }

    /// Marks the batch `id` processed; an error when it is unknown.
    pub fn complete(&mut self, id: &String) -> (r: Result<(), String>)
        ensures
            match r {
                Ok(()) => exists|i: int|
                    0 <= i < old(self)@.len() && old(self)@[i].0 == id@ && final(self)@ == old(self)@.update(
                        i,
                        (id@, StateEnum::Processed),
                    ),
                Err(t) => final(self)@ == old(self)@ && t@ == "id not found"@ && forall|j: int|
                    0 <= j < old(self)@.len() ==> old(self)@[j].0 != id@,
            },
    {
        let n = self.entries.len();
        let mut i: usize = 0;
        while i < n
            invariant
                n == self.entries@.len(),
                i <= n,
                *self == *old(self),
                forall|j: int| 0 <= j < i ==> self@[j].0 != id@,
            decreases n - i,
        {
            if self.entries[i].0 == *id {
                let ghost before = self@;
                self.entries.set(i, (id.clone(), StateEnum::Processed));
                assert(self@ =~= before.update(i as int, (id@, StateEnum::Processed)));
                return Ok(());
            }
            i = i + 1;
        }
        Err(String::from_str("id not found"))
    }
}

} // verus!
