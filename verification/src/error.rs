//! The error taxonomy the routing core classifies and surfaces.
//!
//! Control-plane conditions (`GroupNotFound`, `NotLeader`, `Connect`,
//! `Transport`, `EpochNotMatch`) drive internal retry transitions and are
//! normally not surfaced on their own; business conditions (`CasFailed`,
//! `InvalidArgument`, `TxnConflict`) and resource exhaustion
//! (`GroupNotAccessible`, `DeadlineExceeded`) are returned to the caller.

use vstd::prelude::*;
use crate::data::{GroupDesc, ReplicaDesc};

verus! {

/// An error observed while submitting a request to a group.
#[derive(Debug)]
pub enum Error {
    /// The target node does not host the group.
    GroupNotFound(u64),
    /// The target replica is not the leader; carries the group id, the
    /// reporting term, and the leader the server knows of, if any.
    NotLeader(u64, u64, Option<ReplicaDesc>),
    /// A connection could not be established; carries the transport's
    /// message.
    Connect(String),
    /// The transport failed mid-call; the request may have partially
    /// applied. Carries the transport's message.
    Transport(String),
    /// The server's membership epoch differs from the request's; carries
    /// the server's descriptor.
    EpochNotMatch(GroupDesc),
    /// A conditional write failed; carries the put index, the condition
    /// index, and the previous value.
    CasFailed(u64, u64, Option<Vec<u8>>),
    /// The request was malformed; carries a message.
    InvalidArgument(String),
    /// The request conflicted with a concurrent transaction.
    TxnConflict,
    /// Every replica of the group was tried without success, or no state
    /// for the group is available.
    GroupNotAccessible(u64),
    /// The per-call deadline elapsed between attempts.
    DeadlineExceeded(String),
    /// A protocol violation: a malformed or mismatched response.
    Internal(String),
}

/// The error is one of the expected business conditions that is surfaced
/// without any warning-level telemetry.
pub open spec fn is_expected_business_error(e: Error) -> bool {
    ||| e is CasFailed
    ||| e is InvalidArgument
    ||| e is TxnConflict
}

} // verus!
