//! Descriptors for groups, replicas and nodes, and the router's view of a
//! group.
//!
//! These are the plain values the routing core reads: identifiers, the
//! membership epoch, replica lists and shard lists. The epoch is a single
//! 64-bit counter whose upper half advances when the shard set changes and
//! whose lower half advances when the replica set changes.

use vstd::prelude::*;
use crate::shard::ShardDesc;

verus! {

/// The role a replica plays in its consensus group.
#[derive(Clone, Copy, Debug, PartialEq, Eq, Structural)]
pub enum ReplicaRole {
    Voter,
    Learner,
    IncomingVoter,
    OutgoingVoter,
}

impl ReplicaRole {
    /// The role's wire code.
    pub open spec fn spec_code(&self) -> u64 {
        match self {
            ReplicaRole::Voter => 0,
            ReplicaRole::Learner => 1,
            ReplicaRole::IncomingVoter => 2,
            ReplicaRole::OutgoingVoter => 3,
        }
    }

    /// Renders the role as its wire code.
    pub fn code(&self) -> (r: u64)
        ensures
            r == self.spec_code(),
    {
        match self {
            ReplicaRole::Voter => 0,
            ReplicaRole::Learner => 1,
            ReplicaRole::IncomingVoter => 2,
            ReplicaRole::OutgoingVoter => 3,
        }
    }
}

/// One replica of a group: which node hosts it and its role.
#[derive(Clone, Copy, Debug, PartialEq, Eq, Structural)]
pub struct ReplicaDesc {
    pub id: u64,
    pub node_id: u64,
    pub role: ReplicaRole,
}

/// A group: a consensus-replicated unit hosting a set of shards.
#[derive(Debug)]
pub struct GroupDesc {
    pub id: u64,
    pub epoch: u64,
    pub replicas: Vec<ReplicaDesc>,
    pub shards: Vec<ShardDesc>,
}

/// The router cache's snapshot of one group: its epoch, replicas, and the
/// leader it currently believes in, as `(replica_id, term)`.
///
/// The replica list stands in for a map keyed by replica id; well-formed
/// snapshots list each replica id once.
#[derive(Clone, Debug)]
pub struct RouterGroupState {
    pub id: u64,
    pub epoch: u64,
    pub leader_state: Option<(u64, u64)>,
    pub replicas: Vec<ReplicaDesc>,
}

/// The role a replica reports for itself in the consensus protocol.
#[derive(Clone, Copy, Debug, PartialEq, Eq, Structural)]
pub enum RaftRole {
    Follower,
    Candidate,
    Leader,
    PreCandidate,
}

/// The replicated state one replica reports to the root service.
#[derive(Clone, Copy, Debug, PartialEq, Eq, Structural)]
pub struct ReplicaState {
    pub replica_id: u64,
    pub group_id: u64,
    pub term: u64,
    pub voted_for: u64,
    pub role: RaftRole,
}

/// The root service's aggregate view of one group, folded from the replica
/// states it has received.
#[derive(Clone, Debug)]
pub struct GroupState {
    pub group_id: u64,
    pub leader_id: Option<u64>,
    pub replicas: Vec<ReplicaState>,
}

/// A database of the catalog.
#[derive(Clone, Debug)]
pub struct DatabaseDesc {
    pub id: u64,
    pub name: String,
}

/// A table of the catalog, with its free-form properties.
#[derive(Clone, Debug)]
pub struct TableDesc {
    pub id: u64,
    pub name: String,
    pub properties: Vec<(String, String)>,
}

/// A collection of the catalog: a named child of one database.
#[derive(Clone, Debug)]
pub struct CollectionDesc {
    pub id: u64,
    pub name: String,
    pub parent_id: u64,
}

/// A node of the cluster and its transport address.
#[derive(Clone, Debug)]
pub struct NodeDesc {
    pub id: u64,
    pub addr: String,
}

/// Progress of a replica-set change, relayed by the core without being read.
#[derive(Clone, Debug)]
pub struct ScheduleState {
    /// The encoded schedule payload; opaque to the routing core.
    pub payload: Vec<u8>,
}

} // verus!
