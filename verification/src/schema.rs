//! The root catalog: key layout of the system collections, batched puts,
//! and the aggregation of reported replica states.
//!
//! Every record of the catalog lives under a key of the form
//! `collection_id (8 bytes little-endian) ++ record key`. The store that
//! persists these records and the descriptor encoding live outside; this
//! module computes the keys and folds the plain values.

use vstd::prelude::*;
use vstd::bytes::{spec_u64_to_le_bytes, spec_u64_from_le_bytes, u64_to_le_bytes, u64_from_le_bytes};
use vstd::string::StringSliceAdditionalSpecFns;
use crate::data::{GroupState, NodeDesc, RaftRole, ReplicaState};
use crate::request::PutRequest;

verus! {

/// The collection that holds the root catalog itself.
pub const ROOT_SUPER_COLLECTION_ID: u64 = 1;

/// The id of the system database.
pub const SYSTEM_DATABASE_ID: u64 = 1;

pub const SYSTEM_COLLECTION_COLLECTION_ID: u64 = ROOT_SUPER_COLLECTION_ID + 1;

pub const SYSTEM_DATABASE_COLLECTION_ID: u64 = SYSTEM_COLLECTION_COLLECTION_ID + 1;

pub const SYSTEM_MATE_COLLECTION_ID: u64 = SYSTEM_DATABASE_COLLECTION_ID + 1;

pub const SYSTEM_NODE_COLLECTION_ID: u64 = SYSTEM_MATE_COLLECTION_ID + 1;

pub const SYSTEM_GROUP_COLLECTION_ID: u64 = SYSTEM_NODE_COLLECTION_ID + 1;

pub const SYSTEM_REPLICA_STATE_COLLECTION_ID: u64 = SYSTEM_GROUP_COLLECTION_ID + 1;

/// The key of a record of one collection: the collection id in
/// little-endian, then the record's own key.
pub open spec fn spec_data_key(collection_id: u64, key: Seq<u8>) -> Seq<u8> {
    spec_u64_to_le_bytes(collection_id) + key
}

/// Builds the store key of a record of one collection.
pub fn data_key(collection_id: u64, key: &[u8]) -> (r: Vec<u8>)
    ensures
        r@ == spec_data_key(collection_id, key@),
{
    let mut buf = u64_to_le_bytes(collection_id);
    let mut i: usize = 0;
    proof {
        assert(buf@ + key@.take(0) =~= buf@);
    }
    while i < key.len()
        invariant
            i <= key@.len(),
            buf@ == spec_u64_to_le_bytes(collection_id) + key@.take(i as int),
        decreases key@.len() - i,
    {
        buf.push(key[i]);
        proof {
            assert(spec_u64_to_le_bytes(collection_id) + key@.take(i as int) + seq![key@[i as int]]
                =~= spec_u64_to_le_bytes(collection_id) + key@.take(i + 1));
        }
        i = i + 1;
    }
    proof {
        assert(key@.take(i as int) =~= key@);
    }
    buf
}

/// The record key of a collection in the catalog: its database id in
/// little-endian, then its name.
pub open spec fn spec_collection_key(database_id: u64, collection_name: Seq<u8>) -> Seq<u8> {
    spec_u64_to_le_bytes(database_id) + collection_name
}

/// Builds the record key of a collection of one database.
pub fn collection_key(database_id: u64, collection_name: &str) -> (r: Vec<u8>)
    ensures
        r@ == spec_collection_key(database_id, collection_name.spec_bytes()),
{
    data_key(database_id, collection_name.as_bytes())
}

/// The record key of one replica's reported state: group id then replica
/// id, both little-endian.
pub open spec fn spec_replica_key(group_id: u64, replica_id: u64) -> Seq<u8> {
    spec_u64_to_le_bytes(group_id) + spec_u64_to_le_bytes(replica_id)
}

/// Builds the record key of one replica's reported state.
pub fn replica_key(group_id: u64, replica_id: u64) -> (r: Vec<u8>)
    ensures
        r@ == spec_replica_key(group_id, replica_id),
{
    let mut buf = u64_to_le_bytes(group_id);
    let mut tail = u64_to_le_bytes(replica_id);
    buf.append(&mut tail);
    buf
}

/// Reads a stored catalog counter: exactly eight little-endian bytes.
pub fn decode_meta_id(bytes: &Vec<u8>) -> (r: Option<u64>)
    ensures
        bytes@.len() == 8 ==> r == Some(spec_u64_from_le_bytes(bytes@)),
        bytes@.len() != 8 ==> r is None,
{
    if bytes.len() == 8 {
        Some(u64_from_le_bytes(bytes.as_slice()))
    } else {
        None
    }
}

/// Collects puts against the catalog; each typed entry is placed under
/// its system collection with the key layout above. Descriptor values
/// arrive already encoded.
pub struct PutBatchBuilder {
    pub batch: Vec<PutRequest>,
}

impl PutBatchBuilder {
    /// An empty batch.
    pub fn new() -> (r: PutBatchBuilder)
        ensures
            r.batch@.len() == 0,
    {
        PutBatchBuilder { batch: Vec::new() }
    }

    /// True while nothing has been queued.
    pub fn is_empty(&self) -> (r: bool)
        ensures
            r == (self.batch@.len() == 0),
    {
        self.batch.is_empty()
    }

    /// Takes the queued puts.
    pub fn build(self) -> (r: Vec<PutRequest>)
        ensures
            r == self.batch,
    {
        self.batch
    }

    /// Queues a put of `val` under `key` of the given collection.
    pub fn put(&mut self, collection_id: u64, key: Vec<u8>, val: Vec<u8>)
        ensures
            final(self).batch@.len() == old(self).batch@.len() + 1,
            final(self).batch@.last().key@ == spec_data_key(collection_id, key@),
            final(self).batch@.last().value == val,
            final(self).batch@.drop_last() == old(self).batch@,
    {
        let full_key = data_key(collection_id, key.as_slice());
        self.batch.push(PutRequest { key: full_key, value: val });
        proof {
            assert(final(self).batch@.drop_last() =~= old(self).batch@);
        }
    }

    /// Queues a catalog counter or setting.
    pub fn put_meta(&mut self, key: Vec<u8>, val: Vec<u8>)
        ensures
            final(self).batch@.len() == old(self).batch@.len() + 1,
            final(self).batch@.last().key@ == spec_data_key(SYSTEM_MATE_COLLECTION_ID, key@),
            final(self).batch@.last().value == val,
            final(self).batch@.drop_last() == old(self).batch@,
    {
        self.put(SYSTEM_MATE_COLLECTION_ID, key, val);
    }

    /// Queues an encoded group descriptor under its group id.
    pub fn put_group(&mut self, group_id: u64, encoded: Vec<u8>)
        ensures
            final(self).batch@.len() == old(self).batch@.len() + 1,
            final(self).batch@.last().key@ == spec_data_key(
                SYSTEM_GROUP_COLLECTION_ID,
                spec_u64_to_le_bytes(group_id),
            ),
            final(self).batch@.last().value == encoded,
            final(self).batch@.drop_last() == old(self).batch@,
    {
        let key = u64_to_le_bytes(group_id);
        self.put(SYSTEM_GROUP_COLLECTION_ID, key, encoded);
    }

    /// Queues an encoded replica state under its group and replica ids.
    pub fn put_replica_state(&mut self, group_id: u64, replica_id: u64, encoded: Vec<u8>)
        ensures
            final(self).batch@.len() == old(self).batch@.len() + 1,
            final(self).batch@.last().key@ == spec_data_key(
                SYSTEM_REPLICA_STATE_COLLECTION_ID,
                spec_replica_key(group_id, replica_id),
            ),
            final(self).batch@.last().value == encoded,
            final(self).batch@.drop_last() == old(self).batch@,
    {
        let key = replica_key(group_id, replica_id);
        self.put(SYSTEM_REPLICA_STATE_COLLECTION_ID, key, encoded);
    }

    /// Queues an encoded node descriptor under its node id.
    pub fn put_node(&mut self, node_id: u64, encoded: Vec<u8>)
        ensures
            final(self).batch@.len() == old(self).batch@.len() + 1,
            final(self).batch@.last().key@ == spec_data_key(
                SYSTEM_NODE_COLLECTION_ID,
                spec_u64_to_le_bytes(node_id),
            ),
            final(self).batch@.last().value == encoded,
            final(self).batch@.drop_last() == old(self).batch@,
    {
        let key = u64_to_le_bytes(node_id);
        self.put(SYSTEM_NODE_COLLECTION_ID, key, encoded);
    }

    /// Queues an encoded database descriptor under its name.
    pub fn put_database(&mut self, name: &str, encoded: Vec<u8>)
        ensures
            final(self).batch@.len() == old(self).batch@.len() + 1,
            final(self).batch@.last().key@ == spec_data_key(
                SYSTEM_DATABASE_COLLECTION_ID,
                name.spec_bytes(),
            ),
            final(self).batch@.last().value == encoded,
            final(self).batch@.drop_last() == old(self).batch@,
    {
        let bytes = name.as_bytes();
        let mut key: Vec<u8> = Vec::new();
        let mut i: usize = 0;
        proof {
            assert(key@ =~= bytes@.take(0));
        }
        while i < bytes.len()
            invariant
                i <= bytes@.len(),
                key@ == bytes@.take(i as int),
            decreases bytes@.len() - i,
        {
            key.push(bytes[i]);
            proof {
                assert(bytes@.take(i as int).push(bytes@[i as int]) =~= bytes@.take(i + 1));
            }
            i = i + 1;
        }
        proof {
            assert(bytes@.take(i as int) =~= bytes@);
        }
        self.put(SYSTEM_DATABASE_COLLECTION_ID, key, encoded);
    }

    /// Queues an encoded collection descriptor under its database and
    /// name.
    pub fn put_collection(&mut self, parent_id: u64, name: &str, encoded: Vec<u8>)
        ensures
            final(self).batch@.len() == old(self).batch@.len() + 1,
            final(self).batch@.last().key@ == spec_data_key(
                SYSTEM_COLLECTION_COLLECTION_ID,
                spec_collection_key(parent_id, name.spec_bytes()),
            ),
            final(self).batch@.last().value == encoded,
            final(self).batch@.drop_last() == old(self).batch@,
    {
        let key = collection_key(parent_id, name);
        self.put(SYSTEM_COLLECTION_COLLECTION_ID, key, encoded);
    }
}

// ------------------------------------------------------------------
// Folding reported replica states into per-group views.
// ------------------------------------------------------------------

/// The mathematical state of one aggregated group.
#[verifier::ext_equal]
pub ghost struct GroupStateView {
    pub group_id: u64,
    pub leader_id: Option<u64>,
    pub replicas: Seq<ReplicaState>,
}

impl View for GroupState {
    type V = GroupStateView;

    open spec fn view(&self) -> GroupStateView {
        GroupStateView {
            group_id: self.group_id,
            leader_id: self.leader_id,
            replicas: self.replicas@,
        }
    }
}

/// The views of a list of aggregated groups.
pub open spec fn group_views(s: Seq<GroupState>) -> Seq<GroupStateView> {
    s.map(|_i: int, g: GroupState| g@)
}

/// The index of the first aggregate for `group_id`, or `s.len()`.
pub open spec fn group_state_index(s: Seq<GroupStateView>, group_id: u64) -> int
    decreases s.len(),
{
    if s.len() == 0 {
        0
    } else if s[0].group_id == group_id {
        0
    } else {
        1 + group_state_index(s.skip(1), group_id)
    }
}

/// `group_state_index` points at the first aggregate of the group, and
/// runs off the end exactly when there is none.
pub proof fn lemma_group_state_index(s: Seq<GroupStateView>, group_id: u64)
    ensures
        0 <= group_state_index(s, group_id) <= s.len(),
        group_state_index(s, group_id) < s.len() ==> s[group_state_index(s, group_id)].group_id
            == group_id,
        forall|j: int| 0 <= j < group_state_index(s, group_id) ==> s[j].group_id != group_id,
    decreases s.len(),
{
    if s.len() == 0 {
    } else if s[0].group_id == group_id {
    } else {
        lemma_group_state_index(s.skip(1), group_id);
        assert forall|j: int| 0 <= j < group_state_index(s, group_id) implies s[j].group_id
            != group_id by {
            if j > 0 {
                assert(s.skip(1)[j - 1].group_id != group_id);
            }
        }
    }
}

/// `rs` with every state of the given replica removed, order kept.
pub open spec fn without_replica(rs: Seq<ReplicaState>, replica_id: u64) -> Seq<ReplicaState>
    decreases rs.len(),
{
    if rs.len() == 0 {
        Seq::<ReplicaState>::empty()
    } else if rs.last().replica_id == replica_id {
        without_replica(rs.drop_last(), replica_id)
    } else {
        without_replica(rs.drop_last(), replica_id).push(rs.last())
    }
}

/// One group aggregate after taking in one replica's report: a leader
/// report installs the leader, a non-leader report from the believed
/// leader clears it, and the replica's previous state is replaced.
pub open spec fn absorb_replica_state(g: GroupStateView, state: ReplicaState) -> GroupStateView {
    GroupStateView {
        group_id: g.group_id,
        leader_id: if state.role is Leader {
            Some(state.replica_id)
        } else if g.leader_id == Some(state.replica_id) {
            None
        } else {
            g.leader_id
        },
        replicas: without_replica(g.replicas, state.replica_id).push(state),
    }
}

/// The aggregates after taking in one replica's report: the report joins
/// its group's aggregate, or founds one at the end.
pub open spec fn upsert_replica_state(s: Seq<GroupStateView>, state: ReplicaState) -> Seq<
    GroupStateView,
> {
    let i = group_state_index(s, state.group_id);
    if i < s.len() {
        s.update(i, absorb_replica_state(s[i], state))
    } else {
        s.push(
            GroupStateView {
                group_id: state.group_id,
                leader_id: if state.role is Leader {
                    Some(state.replica_id)
                } else {
                    None
                },
                replicas: seq![state],
            },
        )
    }
}

/// The aggregates of a whole report log, folded in order.
pub open spec fn spec_group_states(states: Seq<ReplicaState>) -> Seq<GroupStateView>
    decreases states.len(),
{
    if states.len() == 0 {
        Seq::<GroupStateView>::empty()
    } else {
        upsert_replica_state(spec_group_states(states.drop_last()), states.last())
    }
}

/// Removes every state of `replica_id` from `replicas`, keeping order.
fn retain_other_replicas(replicas: &mut Vec<ReplicaState>, replica_id: u64)
    ensures
        final(replicas)@ == without_replica(old(replicas)@, replica_id),
{
    let mut out: Vec<ReplicaState> = Vec::new();
    let mut i: usize = 0;
    proof {
        assert(out@ =~= without_replica(old(replicas)@.take(0), replica_id));
    }
    while i < replicas.len()
        invariant
            i <= replicas@.len(),
            replicas@ == old(replicas)@,
            out@ == without_replica(replicas@.take(i as int), replica_id),
        decreases replicas@.len() - i,
    {
        let state = replicas[i];
        proof {
            assert(replicas@.take(i + 1).drop_last() =~= replicas@.take(i as int));
            assert(replicas@.take(i + 1).last() == replicas@[i as int]);
        }
        if state.replica_id != replica_id {
            out.push(state);
        }
        i = i + 1;
    }
    proof {
        assert(replicas@.take(i as int) =~= replicas@);
    }
    *replicas = out;
}

/// Finds the aggregate of `group_id`, or the length if none exists yet.
fn position_of_group(states: &Vec<GroupState>, group_id: u64) -> (r: usize)
    ensures
        r as int == group_state_index(group_views(states@), group_id),
{
    let mut i: usize = 0;
    proof {
        assert(group_views(states@).skip(0) =~= group_views(states@));
        lemma_group_state_index(group_views(states@), group_id);
    }
    while i < states.len()
        invariant
            i <= states@.len(),
            group_state_index(group_views(states@), group_id) == i + group_state_index(
                group_views(states@).skip(i as int),
                group_id,
            ),
            group_state_index(group_views(states@).skip(i as int), group_id) >= 0,
        decreases states@.len() - i,
    {
        proof {
            lemma_group_state_index(group_views(states@).skip(i as int), group_id);
            assert(group_views(states@)[i as int] == states@[i as int]@);
        }
        if states[i].group_id == group_id {
            return i;
        }
        proof {
            assert(group_views(states@).skip(i as int).skip(1) =~= group_views(states@).skip(
                i + 1,
            ));
        }
        i = i + 1;
    }
    i
}

/// Folds one replica report into the aggregates.
fn upsert_group_state(states: &mut Vec<GroupState>, state: ReplicaState)
    ensures
        group_views(final(states)@) == upsert_replica_state(group_views(old(states)@), state),
{
    let idx = position_of_group(states, state.group_id);
    proof {
        lemma_group_state_index(group_views(states@), state.group_id);
    }
    if idx < states.len() {
        let mut entry = states.remove(idx);
        proof {
            assert(group_views(states@) =~= group_views(old(states)@).remove(idx as int));
        }
        if state.role == RaftRole::Leader {
            entry.leader_id = Some(state.replica_id);
        } else {
            let was_leader = match entry.leader_id {
                Some(leader_id) => leader_id == state.replica_id,
                None => false,
            };
            if was_leader {
                entry.leader_id = None;
            }
        }
        retain_other_replicas(&mut entry.replicas, state.replica_id);
        entry.replicas.push(state);
        proof {
            assert(entry@ =~= absorb_replica_state(group_views(old(states)@)[idx as int], state));
        }
        states.insert(idx, entry);
        proof {
            assert(group_views(states@) =~= group_views(old(states)@).update(
                idx as int,
                absorb_replica_state(group_views(old(states)@)[idx as int], state),
            ));
        }
    } else {
        let leader_id = if state.role == RaftRole::Leader {
            Some(state.replica_id)
        } else {
            None
        };
        let mut replicas: Vec<ReplicaState> = Vec::new();
        replicas.push(state);
        let entry = GroupState { group_id: state.group_id, leader_id, replicas };
        proof {
            assert(entry@.replicas =~= seq![state]);
        }
        states.push(entry);
        proof {
            assert(group_views(states@) =~= upsert_replica_state(
                group_views(old(states)@),
                state,
            ));
        }
    }
}

/// Folds a log of reported replica states into one aggregate per group,
/// in order of first report: who leads each group, and the latest state
/// of each of its replicas.
pub fn group_states_of(states: &Vec<ReplicaState>) -> (r: Vec<GroupState>)
    ensures
        group_views(r@) == spec_group_states(states@),
{
    let mut out: Vec<GroupState> = Vec::new();
    let mut i: usize = 0;
    proof {
        assert(group_views(out@) =~= spec_group_states(states@.take(0)));
    }
    while i < states.len()
        invariant
            i <= states@.len(),
            group_views(out@) == spec_group_states(states@.take(i as int)),
        decreases states@.len() - i,
    {
        proof {
            assert(states@.take(i + 1).drop_last() =~= states@.take(i as int));
            assert(states@.take(i + 1).last() == states@[i as int]);
        }
        upsert_group_state(&mut out, states[i]);
        i = i + 1;
    }
    proof {
        assert(states@.take(i as int) =~= states@);
    }
    out
}

// ------------------------------------------------------------------
// The nodes hosting the root group.
// ------------------------------------------------------------------

/// The distinct node ids of a replica list, in order of first
/// appearance.
pub open spec fn spec_distinct_nodes(rs: Seq<crate::data::ReplicaDesc>) -> Seq<u64>
    decreases rs.len(),
{
    if rs.len() == 0 {
        Seq::<u64>::empty()
    } else {
        let prev = spec_distinct_nodes(rs.drop_last());
        if prev.contains(rs.last().node_id) {
            prev
        } else {
            prev.push(rs.last().node_id)
        }
    }
}

/// Collects the distinct node ids hosting the given replicas, keeping
/// the order of first appearance; the driver then looks each node up.
pub fn distinct_node_ids(replicas: &Vec<crate::data::ReplicaDesc>) -> (r: Vec<u64>)
    ensures
        r@ == spec_distinct_nodes(replicas@),
{
    let mut out: Vec<u64> = Vec::new();
    let mut i: usize = 0;
    proof {
        assert(out@ =~= spec_distinct_nodes(replicas@.take(0)));
    }
    while i < replicas.len()
        invariant
            i <= replicas@.len(),
            out@ == spec_distinct_nodes(replicas@.take(i as int)),
        decreases replicas@.len() - i,
    {
        let node_id = replicas[i].node_id;
        proof {
            assert(replicas@.take(i + 1).drop_last() =~= replicas@.take(i as int));
            assert(replicas@.take(i + 1).last() == replicas@[i as int]);
        }
        let mut seen = false;
        let mut j: usize = 0;
        while j < out.len()
            invariant
                j <= out@.len(),
                seen == exists|k: int| 0 <= k < j && out@[k] == node_id,
            decreases out@.len() - j,
        {
            if out[j] == node_id {
                seen = true;
            }
            j = j + 1;
        }
        proof {
            assert(seen == out@.contains(node_id));
        }
        if !seen {
            out.push(node_id);
        }
        i = i + 1;
    }
    proof {
        assert(replicas@.take(i as int) =~= replicas@);
    }
    out
}

/// The nodes hosting the root group's replicas.
pub struct ReplicaNodes(pub Vec<NodeDesc>);

/// The index of the first node with the id, or the length.
pub open spec fn node_desc_index(ns: Seq<NodeDesc>, id: u64) -> int
    decreases ns.len(),
{
    if ns.len() == 0 {
        0
    } else if ns[0].id == id {
        0
    } else {
        1 + node_desc_index(ns.skip(1), id)
    }
}

/// Finds the index of the first node with the id, or the length.
fn position_of_node_desc(ns: &Vec<NodeDesc>, id: u64) -> (r: usize)
    ensures
        r as int == node_desc_index(ns@, id),
{
    let mut i: usize = 0;
    proof {
        assert(ns@.skip(0) =~= ns@);
        lemma_node_desc_index(ns@, id);
    }
    while i < ns.len()
        invariant
            i <= ns@.len(),
            node_desc_index(ns@, id) == i + node_desc_index(ns@.skip(i as int), id),
            node_desc_index(ns@.skip(i as int), id) >= 0,
        decreases ns@.len() - i,
    {
        proof {
            lemma_node_desc_index(ns@.skip(i as int), id);
        }
        if ns[i].id == id {
            return i;
        }
        proof {
            assert(ns@.skip(i as int).skip(1) =~= ns@.skip(i + 1));
        }
        i = i + 1;
    }
    i
}

impl ReplicaNodes {
    /// Brings the node with the given id, if present, to the front, so
    /// that it is dialed first.
    pub fn move_first(&mut self, id: u64)
        ensures
            final(self).0@ == ({
                let i = node_desc_index(old(self).0@, id);
                if i < old(self).0@.len() {
                    old(self).0@.update(i, old(self).0@[0]).update(0, old(self).0@[i])
                } else {
                    old(self).0@
                }
            }),
    {
        let idx = position_of_node_desc(&self.0, id);
        proof {
            lemma_node_desc_index(self.0@, id);
        }
        if idx < self.0.len() {
            if idx != 0 {
                let target = self.0.remove(idx);
                let front = self.0.remove(0);
                self.0.insert(0, target);
                self.0.insert(idx, front);
                proof {
                    let s = old(self).0@;
                    let i = idx as int;
                    assert(self.0@ =~= s.update(i, s[0]).update(0, s[i]));
                }
            } else {
                proof {
                    let s = old(self).0@;
                    assert(s.update(0, s[0]).update(0, s[0]) =~= s);
                }
            }
        }
    }
}

/// `node_desc_index` points at the first node with the id, and runs off
/// the end exactly when there is none.
pub proof fn lemma_node_desc_index(ns: Seq<NodeDesc>, id: u64)
    ensures
        0 <= node_desc_index(ns, id) <= ns.len(),
        node_desc_index(ns, id) < ns.len() ==> ns[node_desc_index(ns, id)].id == id,
        forall|j: int| 0 <= j < node_desc_index(ns, id) ==> ns[j].id != id,
    decreases ns.len(),
{
    if ns.len() == 0 {
    } else if ns[0].id == id {
    } else {
        lemma_node_desc_index(ns.skip(1), id);
        assert forall|j: int| 0 <= j < node_desc_index(ns, id) implies ns[j].id != id by {
            if j > 0 {
                assert(ns.skip(1)[j - 1].id != id);
            }
        }
    }
}

} // verus!
