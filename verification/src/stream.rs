//! The answers a node's data-stream service gives to its neighbours.
use crate::batch::MediaDataBatchResponse;
use vstd::prelude::*;

verus! {

/// A refusal of the data-stream service, by kind, with its message.
pub enum StreamError {
    Internal(String),
    NotFound(String),
    Unknown(String),
}

/// The refusal while the tracker has not opened its channels yet.
pub fn not_ready() -> (r: StreamError)
    ensures
        r matches StreamError::Internal(t) && t@ == "not ready"@,
{
    StreamError::Internal(String::from_str("not ready"))
}

/// The answer to a pushed batch, given what came back from the tracker: its
/// result, or the text of a dropped request.
pub fn transfer_reply(outcome: Result<Result<(), String>, String>) -> (r: Result<(), StreamError>)
    ensures
        match outcome {
            Ok(Ok(())) => r is Ok,
            Ok(Err(e)) => r matches Err(StreamError::Internal(t)) && t@ == e@,
            Err(e) => r matches Err(StreamError::Unknown(t)) && t@ == e@,
        },
{
    match outcome {
        Ok(Ok(())) => Ok(()),
        Ok(Err(e)) => Err(StreamError::Internal(e)),
        Err(e) => Err(StreamError::Unknown(e)),
    }
}

/// The answer to a request for data, given what came back from the
/// tracker: the batch, "no data", its failure, or the text of a dropped
/// request.
pub fn request_reply(outcome: Result<Result<Option<MediaDataBatchResponse>, String>, String>) -> (r: Result<
    MediaDataBatchResponse,
    StreamError,
>)
    ensures
        match outcome {
            Ok(Ok(Some(b))) => r matches Ok(c) && c@ == b@,
            Ok(Ok(None)) => r matches Err(StreamError::NotFound(t)) && t@ == "no avaiable data"@,
            Ok(Err(e)) => r matches Err(StreamError::Unknown(t)) && t@ == e@,
            Err(e) => r matches Err(StreamError::Unknown(t)) && t@ == e@,
        },
{
    match outcome {
        Ok(Ok(Some(b))) => Ok(b),
        Ok(Ok(None)) => Err(StreamError::NotFound(String::from_str("no avaiable data"))),
        Ok(Err(e)) => Err(StreamError::Unknown(e)),
        Err(e) => Err(StreamError::Unknown(e)),
    }
}

} // verus!
