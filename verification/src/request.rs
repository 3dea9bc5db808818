//! The request union submitted to a group, and its idempotency classes.
//!
//! Read-only requests may be retried after a mid-call transport fault
//! without the caller opting in; write-class requests may not, because the
//! write may have partially applied.

use vstd::prelude::*;
use crate::data::ReplicaDesc;
use crate::shard::ShardDesc;

verus! {

/// One key-value insertion of a batch write.
#[derive(Clone, Debug)]
pub struct PutRequest {
    pub key: Vec<u8>,
    pub value: Vec<u8>,
}

/// One key deletion of a batch write.
#[derive(Clone, Debug)]
pub struct DeleteRequest {
    pub key: Vec<u8>,
}

/// The single write carried by a write-intent request.
#[derive(Clone, Debug)]
pub enum IntentWrite {
    Put(PutRequest),
    Delete(DeleteRequest),
}

/// A request addressed to one group.
#[derive(Clone, Debug)]
pub enum Request {
    Get { shard_id: u64, user_key: Vec<u8> },
    Scan { shard_id: u64, prefix: Vec<u8> },
    Write { shard_id: u64, puts: Vec<PutRequest>, deletes: Vec<DeleteRequest> },
    WriteIntent { shard_id: u64, write: Option<IntentWrite> },
    CommitIntent { shard_id: u64, user_key: Vec<u8> },
    ClearIntent { shard_id: u64, user_key: Vec<u8> },
    WatchKey { shard_id: u64, key: Vec<u8>, version: u64 },
    CreateShard { shard: ShardDesc },
    Transfer { dest_replica: u64 },
    ChangeReplicas { replicas: Vec<ReplicaDesc> },
    AcceptShard { src_group: u64, src_epoch: u64, shard: ShardDesc },
    SplitShard { old_shard_id: u64, new_shard_id: u64, split_key: Option<Vec<u8>> },
    MergeShard { left_shard_id: u64, right_shard_id: u64 },
    MoveReplicas { incoming_voters: Vec<ReplicaDesc>, outgoing_voters: Vec<ReplicaDesc> },
}

/// The request only reads; a transport fault cannot leave it partially
/// applied.
pub open spec fn spec_is_read_only_request(request: Request) -> bool {
    request is Get || request is Scan
}

/// Classifies a request as read-only.
pub fn is_read_only_request(request: &Request) -> (r: bool)
    ensures
        r == spec_is_read_only_request(*request),
{
    matches!(request, Request::Get { .. } | Request::Scan { .. })
}

} // verus!
