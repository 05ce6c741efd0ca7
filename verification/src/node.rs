//! Decisions of the user programs that run beside a data container: what
//! they do with each answer to a data request, when they stop, how they
//! split their input into batches and how they prepare the target
//! repository.
use crate::ipc::{AvaiableDataResponse, ErrorNumber, IPCError};
use crate::state::TrackerState;
use vstd::prelude::*;

verus! {

/// What a user program does after asking for data.
pub enum NodeAction {
    /// Process the batch with this identifier.
    Process(String),
    /// Wait a little and ask again.
    Idle,
    /// Stop: the node has finished.
    Exit,
    /// Commit the written files, report the finish, and stop.
    CommitAndFinish,
    /// Report the finish and stop.
    FinishAndExit,
    /// Stop with this error.
    Fail(String),
    /// Log the error and ask again at once.
    LogAndRetry,
    /// Log the error, wait a little longer, and ask again.
    LogAndWait,
}

/// The answer to a data request.
pub type DataAnswer = Result<Option<AvaiableDataResponse>, IPCError>;

/// The node error number of an answer, if it is a node error.
pub open spec fn answer_code(a: DataAnswer) -> Option<ErrorNumber> {
    match a {
        Err(IPCError::NodeError { code, .. }) => Some(code),
        _ => None,
    }
}

/// The writer program (files to a repository): it commits and reports the
/// finish once its inputs have finished.
pub fn writer_action(answer: DataAnswer) -> (r: NodeAction)
    requires
        answer_code(answer) != Some(ErrorNumber::DataMissing),
    ensures
        match answer {
            Ok(Some(d)) => r matches NodeAction::Process(id) && id@ == d.id@,
            Ok(None) => r is Idle,
            Err(IPCError::NodeError { code, .. }) => match code {
                ErrorNumber::AlreadyFinish => r is Exit,
                ErrorNumber::InComingFinish => r is CommitAndFinish,
                _ => r is Idle,
            },
            Err(IPCError::UnKnown(_)) => r is LogAndRetry,
        },
{
    match answer {
        Ok(Some(d)) => NodeAction::Process(d.id),
        Ok(None) => NodeAction::Idle,
        Err(IPCError::NodeError { code, .. }) => match code {
            ErrorNumber::AlreadyFinish => NodeAction::Exit,
            ErrorNumber::InComingFinish => NodeAction::CommitAndFinish,
            _ => NodeAction::Idle,
        },
        Err(IPCError::UnKnown(_)) => NodeAction::LogAndRetry,
    }
}

/// The copy program (moves each input batch to a new output batch): it
/// stops once the node has finished, and waits and asks again on any other
/// node error.
pub fn copier_action(answer: DataAnswer) -> (r: NodeAction)
    ensures
        match answer {
            Ok(Some(d)) => r matches NodeAction::Process(id) && id@ == d.id@,
            Ok(None) => r is Idle,
            Err(IPCError::NodeError { code, .. }) => if code == ErrorNumber::AlreadyFinish {
                r is Exit
            } else {
                r is Idle
            },
            Err(IPCError::UnKnown(_)) => r is LogAndRetry,
        },
{
    match answer {
        Ok(Some(d)) => NodeAction::Process(d.id),
        Ok(None) => NodeAction::Idle,
        Err(IPCError::NodeError { code, .. }) => match code {
            ErrorNumber::AlreadyFinish => NodeAction::Exit,
            _ => NodeAction::Idle,
        },
        Err(IPCError::UnKnown(_)) => NodeAction::LogAndRetry,
    }
}

/// The listing program: it reports the finish once its inputs have finished;
/// a missing-data error cannot come for a request without a batch name and
/// is not handled.
pub fn lister_action(answer: DataAnswer) -> (r: NodeAction)
    requires
        answer_code(answer) != Some(ErrorNumber::DataMissing),
    ensures
        match answer {
            Ok(Some(d)) => r matches NodeAction::Process(id) && id@ == d.id@,
            Ok(None) => r is Idle,
            Err(IPCError::NodeError { code, .. }) => match code {
                ErrorNumber::AlreadyFinish => r is Exit,
                ErrorNumber::InComingFinish => r is FinishAndExit,
                _ => r is Idle,
            },
            Err(IPCError::UnKnown(_)) => r is LogAndWait,
        },
{
    match answer {
        Ok(Some(d)) => NodeAction::Process(d.id),
        Ok(None) => NodeAction::Idle,
        Err(IPCError::NodeError { code, .. }) => match code {
            ErrorNumber::AlreadyFinish => NodeAction::Exit,
            ErrorNumber::InComingFinish => NodeAction::FinishAndExit,
            _ => NodeAction::Idle,
        },
        Err(IPCError::UnKnown(_)) => NodeAction::LogAndWait,
    }
}

/// The listing program while it waits for its labels batch: only a missing
/// batch stops it.
pub fn labels_action(answer: DataAnswer) -> (r: NodeAction)
    ensures
        match answer {
            Ok(Some(d)) => r matches NodeAction::Process(id) && id@ == d.id@,
            Ok(None) => r is Idle,
            Err(IPCError::NodeError { code, .. }) => if code == ErrorNumber::DataMissing {
                r matches NodeAction::Fail(t) && t@ == "record exit, but data is missing"@
            } else {
                r is Idle
            },
            Err(IPCError::UnKnown(_)) => r is LogAndWait,
        },
{
    match answer {
        Ok(Some(d)) => NodeAction::Process(d.id),
        Ok(None) => NodeAction::Idle,
        Err(IPCError::NodeError { code, .. }) => match code {
            ErrorNumber::DataMissing => NodeAction::Fail(String::from_str("record exit, but data is missing")),
            _ => NodeAction::Idle,
        },
        Err(IPCError::UnKnown(_)) => NodeAction::LogAndWait,
    }
}

/// Whether the generator program has produced all it was asked for: a
/// positive target that the count has passed.
pub fn work_done(total_count: u32, count: u32) -> (r: bool)
    ensures
        r == (total_count > 0 && count > total_count),
{
    total_count > 0 && count > total_count
}

/// Whether a program that has done its work still has to report the
/// finish: not when the node already has finished.
pub fn needs_finish_report(state: TrackerState) -> (r: bool)
    ensures
        r == (state != TrackerState::Finish),
{
    state != TrackerState::Finish
}

/// Kinds of repository references.
#[derive(Clone, Copy, Debug, PartialEq, Eq, Structural)]
pub enum RefType {
    Branch,
    Wip,
    Tag,
    Commit,
}

/// The reference kind named `s`.
pub open spec fn ref_type_of(s: Seq<char>) -> Option<RefType> {
    if s == "branch"@ {
        Some(RefType::Branch)
    } else if s == "wip"@ {
        Some(RefType::Wip)
    } else if s == "tag"@ {
        Some(RefType::Tag)
    } else if s == "commit"@ {
        Some(RefType::Commit)
    } else {
        None
    }
}

/// Law of reference kinds: exactly the four names `branch`, `wip`, `tag`
/// and `commit` are understood, and no two of them name the same kind.
pub proof fn lemma_ref_type_names(s: Seq<char>, t: Seq<char>)
    ensures
        ref_type_of(s) is Some <==> (s == "branch"@ || s == "wip"@ || s == "tag"@ || s == "commit"@),
        ref_type_of("branch"@) == Some(RefType::Branch),
        ref_type_of("commit"@) == Some(RefType::Commit),
        ref_type_of(s) is Some && ref_type_of(s) == ref_type_of(t) ==> s == t,
{
    reveal_strlit("branch");
    reveal_strlit("wip");
    reveal_strlit("tag");
    reveal_strlit("commit");
    assert("branch"@ != "wip"@ && "branch"@ != "tag"@ && "branch"@ != "commit"@) by {
        assert("branch"@.len() == 6 && "wip"@.len() == 3 && "tag"@.len() == 3);
        assert("branch"@[0] != "commit"@[0]);
    }
    assert("wip"@ != "tag"@ && "wip"@ != "commit"@ && "tag"@ != "commit"@) by {
        assert("wip"@[0] != "tag"@[0]);
        assert("commit"@.len() == 6);
    }
}

/// The reference kind named `s`, or an error that quotes `s`.
pub fn parse_ref_type(s: &str) -> (r: Result<RefType, String>)
    ensures
        match ref_type_of(s@) {
            Some(t) => r == Ok::<RefType, String>(t),
            None => r matches Err(m) && m@ == "ref type not correct "@ + s@,
        },
{
    let owned = s.to_owned();
    if owned == String::from_str("branch") {
        Ok(RefType::Branch)
    } else if owned == String::from_str("wip") {
        Ok(RefType::Wip)
    } else if owned == String::from_str("tag") {
        Ok(RefType::Tag)
    } else if owned == String::from_str("commit") {
        Ok(RefType::Commit)
    } else {
        Err(String::from_str("ref type not correct ").concat(s))
    }
}

/// The batches `[start, end)` that a list of `len` items is cut into, each
/// `batch_size` long except possibly the last.
pub open spec fn chunk_spec(len: nat, batch_size: nat, i: int) -> (int, int) {
    (i * batch_size, if (i + 1) * batch_size <= len {
        (i + 1) * batch_size
    } else {
        len as int
    })
}

/// Cuts a list of `len` items into consecutive batches of `batch_size`, the
/// last one shorter when `batch_size` does not divide `len`.
pub fn chunk_ranges(len: usize, batch_size: usize) -> (r: Vec<(usize, usize)>)
    requires
        batch_size > 0,
    ensures
        forall|i: int| 0 <= i < r@.len() ==> (r@[i].0 as int, r@[i].1 as int) == #[trigger] chunk_spec(
            len as nat,
            batch_size as nat,
            i,
        ),
        r@.len() * batch_size >= len,
        (r@.len() - 1) * batch_size < len || r@.len() == 0,
        len == 0 <==> r@.len() == 0,
{
    let mut r: Vec<(usize, usize)> = Vec::new();
    let mut start: usize = 0;
    while start < len
        invariant
            batch_size > 0,
            start <= len,
            start as int == r@.len() * batch_size || start == len,
            start == len ==> r@.len() * batch_size >= len,
            r@.len() > 0 ==> (r@.len() - 1) * batch_size < len,
            r@.len() == 0 ==> start == 0,
            forall|i: int| 0 <= i < r@.len() ==> (r@[i].0 as int, r@[i].1 as int) == #[trigger] chunk_spec(
                len as nat,
                batch_size as nat,
                i,
            ),
        decreases len - start,
    {
        let k = r.len();
        assert(start as int == k * batch_size) by (nonlinear_arith)
            requires
                start as int == r@.len() * batch_size || start == len,
                start < len,
                k == r@.len(),
        ;
        let end = if len - start >= batch_size {
            start + batch_size
        } else {
            len
        };
        proof {
            assert((k + 1) * batch_size == k * batch_size + batch_size) by (nonlinear_arith);
        }
        r.push((start, end));
        start = end;
        proof {
            assert((r@.len() - 1) * batch_size == k * batch_size) by (nonlinear_arith)
                requires
                    r@.len() == k + 1,
            ;
        }
    }
    proof {
        if r@.len() == 0 {
            assert(len == 0);
        }
    }
    r
}

/// Law of batching: the batches follow each other without gap or overlap,
/// each holds at least one and at most `batch_size` items, and together
/// they cover the whole list.
pub proof fn lemma_chunks_tile(len: nat, batch_size: nat, count: nat)
    requires
        batch_size > 0,
        count * batch_size >= len,
        count == 0 || (count - 1) * batch_size < len,
    ensures
        forall|i: int| 0 <= i < count ==> chunk_spec(len, batch_size, i).0 < chunk_spec(len, batch_size, i).1,
        forall|i: int|
            0 <= i < count ==> chunk_spec(len, batch_size, i).1 - chunk_spec(len, batch_size, i).0 <= batch_size,
        forall|i: int| 0 <= i < count - 1 ==> chunk_spec(len, batch_size, i).1 == chunk_spec(len, batch_size, i + 1).0,
        count > 0 ==> chunk_spec(len, batch_size, 0).0 == 0,
        count > 0 ==> chunk_spec(len, batch_size, count - 1).1 == len,
{
    assert forall|i: int| 0 <= i < count implies chunk_spec(len, batch_size, i).0 < chunk_spec(len, batch_size, i).1 by {
        assert(i * batch_size <= (count - 1) * batch_size) by (nonlinear_arith)
            requires
                0 <= i < count,
                batch_size > 0,
        ;
        assert((i + 1) * batch_size == i * batch_size + batch_size) by (nonlinear_arith);
    }
    assert forall|i: int| 0 <= i < count implies chunk_spec(len, batch_size, i).1 - chunk_spec(len, batch_size, i).0
        <= batch_size by {
        assert((i + 1) * batch_size == i * batch_size + batch_size) by (nonlinear_arith);
    }
    assert forall|i: int| 0 <= i < count - 1 implies chunk_spec(len, batch_size, i).1 == chunk_spec(
        len,
        batch_size,
        i + 1,
    ).0 by {
        assert((i + 1) * batch_size <= (count - 1) * batch_size) by (nonlinear_arith)
            requires
                0 <= i < count - 1,
                batch_size > 0,
        ;
    }
    if count > 0 {
        assert(((count - 1) + 1) * batch_size == count * batch_size);
    }
}

/// How a call to the repository service failed.
pub enum ApiFailure {
    /// The service answered with this HTTP status; the text describes the
    /// error.
    Status(u16, String),
    /// Any other failure, described by the text.
    Other(String),
}

/// The text of a failure.
pub open spec fn failure_text(f: ApiFailure) -> Seq<char> {
    match f {
        ApiFailure::Status(_, t) => t@,
        ApiFailure::Other(t) => t@,
    }
}

fn failure_message(prefix: &str, f: ApiFailure) -> (r: String)
    ensures
        r@ == prefix@ + failure_text(f),
{
    match f {
        ApiFailure::Status(_, t) => String::from_str(prefix).concat(t.as_str()),
        ApiFailure::Other(t) => String::from_str(prefix).concat(t.as_str()),
    }
}

/// Whether the repository exists after the lookup, creating it when it is
/// missing and creation is allowed (`Ok(false)` means "create it now").
pub fn repo_plan(lookup: Result<(), ApiFailure>, create_if_not_exit: bool) -> (r: Result<bool, String>)
    ensures
        match lookup {
            Ok(()) => r == Ok::<bool, String>(true),
            Err(ApiFailure::Status(404, _)) => if create_if_not_exit {
                r == Ok::<bool, String>(false)
            } else {
                r matches Err(t) && t@ == "repo not exit"@
            },
            Err(f) => r matches Err(t) && t@ == "Failed to query repository: "@ + failure_text(f),
        },
{
    match lookup {
        Ok(()) => Ok(true),
        Err(ApiFailure::Status(404, _)) => {
            if create_if_not_exit {
                Ok(false)
            } else {
                Err(String::from_str("repo not exit"))
            }
        },
        Err(f) => Err(failure_message("Failed to query repository: ", f)),
    }
}

/// Whether the branch has to be created after looking it up in an existing
/// repository.
pub fn branch_plan(lookup: Result<(), ApiFailure>, create_if_not_exit: bool) -> (r: Result<bool, String>)
    ensures
        match lookup {
            Ok(()) => r == Ok::<bool, String>(false),
            Err(ApiFailure::Status(404, _)) => if create_if_not_exit {
                r == Ok::<bool, String>(true)
            } else {
                r matches Err(t) && t@ == "branch not exit"@
            },
            Err(f) => r matches Err(t) && t@ == "Failed to get branch: "@ + failure_text(f),
        },
{
    match lookup {
        Ok(()) => Ok(false),
        Err(ApiFailure::Status(404, _)) => {
            if create_if_not_exit {
                Ok(true)
            } else {
                Err(String::from_str("branch not exit"))
            }
        },
        Err(f) => Err(failure_message("Failed to get branch: ", f)),
    }
}

/// The result of creating a branch: a branch that already exists is fine.
pub fn create_branch_result(created: Result<(), ApiFailure>) -> (r: Result<(), String>)
    ensures
        match created {
            Ok(()) => r is Ok,
            Err(ApiFailure::Status(409, _)) => r is Ok,
            Err(f) => r matches Err(t) && t@ == "Failed to create branch: "@ + failure_text(f),
        },
{
    match created {
        Ok(()) => Ok(()),
        Err(ApiFailure::Status(409, _)) => Ok(()),
        Err(f) => Err(failure_message("Failed to create branch: ", f)),
    }
}

} // verus!
