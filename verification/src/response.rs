//! Decoding of multiplexed group responses.
//!
//! A group response envelope carries either a typed response or an
//! embedded error payload, never both and never neither; an empty
//! envelope is an internal fault. Each operation then checks that the
//! variant matches what it asked for.

use vstd::prelude::*;
use crate::data::ScheduleState;
use crate::error::Error;

verus! {

/// The response union of a group request; payloads the routing core does
/// not read are carried as opaque bytes.
#[derive(Debug)]
pub enum Response {
    Get { payload: Vec<u8> },
    Scan { payload: Vec<u8> },
    Write { payload: Vec<u8> },
    WriteIntent { payload: Vec<u8> },
    CommitIntent { payload: Vec<u8> },
    ClearIntent { payload: Vec<u8> },
    WatchKey { payload: Vec<u8> },
    CreateShard { payload: Vec<u8> },
    ChangeReplicas { payload: Vec<u8> },
    Transfer { payload: Vec<u8> },
    AcceptShard { payload: Vec<u8> },
    SplitShard { payload: Vec<u8> },
    MergeShard { payload: Vec<u8> },
    MoveReplicas { schedule_state: Option<ScheduleState> },
}

/// The inner wrapper of a response envelope.
#[derive(Debug)]
pub struct GroupResponseUnion {
    pub response: Option<Response>,
}

/// The envelope of a group response: a typed response, or an encoded
/// error to be classified, or (a protocol bug) neither.
#[derive(Debug)]
pub struct GroupResponse {
    pub response: Option<GroupResponseUnion>,
    pub error: Option<Vec<u8>>,
}

/// Why an envelope yielded no typed response.
#[derive(Debug)]
pub enum ResponseFault {
    /// The envelope carried an encoded error; the driver decodes the
    /// bytes into an [`Error`] and feeds it to the status classifier, so
    /// that server-reported and transport errors take one path.
    ErrorBytes(Vec<u8>),
    /// The envelope carried neither a response nor an error.
    Corrupted,
}

/// The envelope holds a typed response (possibly behind the inner
/// wrapper).
pub open spec fn spec_unwrapped(resp: GroupResponse) -> Option<Response> {
    match resp.response {
        Some(union) => union.response,
        None => None,
    }
}

/// Unwraps a response envelope: the typed response if one is present,
/// the embedded error payload if one is, and a fault for the empty
/// envelope.
pub fn group_response(resp: GroupResponse) -> (r: Result<Response, ResponseFault>)
    ensures
        spec_unwrapped(resp) matches Some(inner) ==> (r matches Ok(out) && out == inner),
        spec_unwrapped(resp) is None ==> match resp.error {
            Some(bytes) => (r matches Err(ResponseFault::ErrorBytes(b)) && b == bytes),
            None => r matches Err(ResponseFault::Corrupted),
        },
{
    let inner = match resp.response {
        Some(union) => union.response,
        None => None,
    };
    match inner {
        Some(response) => Ok(response),
        None => match resp.error {
            Some(bytes) => Err(ResponseFault::ErrorBytes(bytes)),
            None => Err(ResponseFault::Corrupted),
        },
    }
}

/// Accepts only the `CreateShard` variant; anything else is a protocol
/// violation.
pub fn expect_create_shard(resp: Response) -> (r: Result<(), Error>)
    ensures
        resp is CreateShard <==> r is Ok,
        !(resp is CreateShard) ==> (r matches Err(Error::Internal(m)) && m@ == "invalid response type, CreateShard is required"@),
{
    match resp {
        Response::CreateShard { .. } => Ok(()),
        _ => Err(Error::Internal("invalid response type, CreateShard is required".to_owned())),
    }
}

/// Accepts only the `Transfer` variant.
pub fn expect_transfer(resp: Response) -> (r: Result<(), Error>)
    ensures
        resp is Transfer <==> r is Ok,
        !(resp is Transfer) ==> (r matches Err(Error::Internal(m)) && m@ == "invalid response type, Transfer is required"@),
{
    match resp {
        Response::Transfer { .. } => Ok(()),
        _ => Err(Error::Internal("invalid response type, Transfer is required".to_owned())),
    }
}

/// Accepts only the `ChangeReplicas` variant, shared by the replica
/// addition, learner addition and replica removal calls.
pub fn expect_change_replicas(resp: Response) -> (r: Result<(), Error>)
    ensures
        resp is ChangeReplicas <==> r is Ok,
        !(resp is ChangeReplicas) ==> (r matches Err(Error::Internal(m)) && m@ == "invalid response type, ChangeReplicas is required"@),
{
    match resp {
        Response::ChangeReplicas { .. } => Ok(()),
        _ => Err(Error::Internal("invalid response type, ChangeReplicas is required".to_owned())),
    }
}

/// Accepts only the `AcceptShard` variant.
pub fn expect_accept_shard(resp: Response) -> (r: Result<(), Error>)
    ensures
        resp is AcceptShard <==> r is Ok,
        !(resp is AcceptShard) ==> (r matches Err(Error::Internal(m)) && m@ == "invalid response type, AcceptShard is required"@),
{
    match resp {
        Response::AcceptShard { .. } => Ok(()),
        _ => Err(Error::Internal("invalid response type, AcceptShard is required".to_owned())),
    }
}

/// Accepts only the `SplitShard` variant.
pub fn expect_split_shard(resp: Response) -> (r: Result<(), Error>)
    ensures
        resp is SplitShard <==> r is Ok,
        !(resp is SplitShard) ==> (r matches Err(Error::Internal(m)) && m@ == "invalid response type, SplitShard is required"@),
{
    match resp {
        Response::SplitShard { .. } => Ok(()),
        _ => Err(Error::Internal("invalid response type, SplitShard is required".to_owned())),
    }
}

/// Accepts only the `MergeShard` variant.
pub fn expect_merge_shard(resp: Response) -> (r: Result<(), Error>)
    ensures
        resp is MergeShard <==> r is Ok,
        !(resp is MergeShard) ==> (r matches Err(Error::Internal(m)) && m@ == "invalid response type, MergeShard is required"@),
{
    match resp {
        Response::MergeShard { .. } => Ok(()),
        _ => Err(Error::Internal("invalid response type, MergeShard is required".to_owned())),
    }
}

/// Accepts only the `WatchKey` variant, applied to each stream element
/// once the subscription is established.
pub fn expect_watch_key(resp: Response) -> (r: Result<Vec<u8>, Error>)
    ensures
        resp matches Response::WatchKey { payload } ==> (r matches Ok(p) && p == payload),
        !(resp is WatchKey) ==> (r matches Err(Error::Internal(m)) && m@ == "WatchKeyResponse is required"@),
{
    match resp {
        Response::WatchKey { payload } => Ok(payload),
        _ => Err(Error::Internal("WatchKeyResponse is required".to_owned())),
    }
}

/// Accepts only a `MoveReplicas` response that carries its schedule
/// state; a missing state is as much a protocol violation as a wrong
/// variant.
pub fn extract_move_replicas(resp: Response) -> (r: Result<ScheduleState, Error>)
    ensures
        resp matches Response::MoveReplicas { schedule_state: Some(state) } ==> (r matches Ok(s)
            && s == state),
        resp matches Response::MoveReplicas { schedule_state: None } ==> (r matches Err(
            Error::Internal(m),
        ) && m@ == "invalid response type, `schedule_state` is required"@),
        !(resp is MoveReplicas) ==> (r matches Err(Error::Internal(m)) && m@
            == "invalid response type, `MoveReplicas` is required"@),
{
    match resp {
        Response::MoveReplicas { schedule_state: Some(state) } => Ok(state),
        Response::MoveReplicas { schedule_state: None } => Err(
            Error::Internal("invalid response type, `schedule_state` is required".to_owned()),
        ),
        _ => Err(Error::Internal("invalid response type, `MoveReplicas` is required".to_owned())),
    }
}

} // verus!
