//! The combined result of a set of background tasks once they have all ended.
use vstd::prelude::*;

verus! {

/// How one background task ended.
pub enum TaskOutcome {
    /// It returned successfully.
    Finished,
    /// It returned this error.
    Failed(String),
    /// It could not be joined (it panicked or was cancelled).
    JoinFailed(String),
}

/// The task ended badly.
pub open spec fn is_failure(o: TaskOutcome) -> bool {
    !(o is Finished)
}

/// The combined result: `Ok` when every task finished successfully, otherwise an
/// error saying that some task did not.
pub fn tasks_result(outcomes: &Vec<TaskOutcome>) -> (r: Result<(), String>)
    ensures
        r is Ok <==> forall|i: int| 0 <= i < outcomes@.len() ==> !is_failure(#[trigger] outcomes@[i]),
        r matches Err(t) ==> t@ == "One or more tasks exited with an error"@,
{
    let n = outcomes.len();
    let mut has_err = false;
    let mut i: usize = 0;
    while i < n
        invariant
            n == outcomes@.len(),
            i <= n,
            has_err <==> exists|j: int| 0 <= j < i && is_failure(#[trigger] outcomes@[j]),
        decreases n - i,
    {
        match &outcomes[i] {
            TaskOutcome::Finished => {},
            _ => {
                has_err = true;
            },
        }
        i = i + 1;
    }
    if !has_err {
        Ok(())
    } else {
        Err(String::from_str("One or more tasks exited with an error"))
    }
}

/// Law of the task monitor: the node's tasks are reported as a success
/// exactly when none of them failed or could not be joined; a task that
/// finished normally never counts as a failure.
pub proof fn lemma_failures_are_errors(o: TaskOutcome)
    ensures
        is_failure(o) <==> (o is Failed || o is JoinFailed),
{
}

} // verus!
