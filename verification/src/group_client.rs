//! The group client: the retry and routing state machine that submits
//! requests to the leader of a group of replicas.
//!
//! It provides leader positioning, recovery from retryable errors, and
//! per-call deadlines. The asynchronous driver owns the transports and the
//! router; this module owns every decision: which node to try next, how a
//! failure changes the client's state, and which errors are surfaced.

use vstd::prelude::*;
use crate::data::{GroupDesc, ReplicaDesc, RouterGroupState};
use crate::error::Error;
use crate::request::{
    DeleteRequest,
    IntentWrite,
    PutRequest,
    Request,
    is_read_only_request,
    spec_is_read_only_request,
};
use crate::shard::{shard_contains, belong_to, ShardDesc};

verus! {

// ------------------------------------------------------------------
// First-match searches over replica and shard lists.
// ------------------------------------------------------------------

/// The index of the first replica hosted by `node_id`, or `rs.len()` if no
/// replica is.
pub open spec fn node_index(rs: Seq<ReplicaDesc>, node_id: u64) -> int
    decreases rs.len(),
{
    if rs.len() == 0 {
        0
    } else if rs[0].node_id == node_id {
        0
    } else {
        1 + node_index(rs.skip(1), node_id)
    }
}

/// Some replica of `rs` is hosted by `node_id`.
pub open spec fn has_node(rs: Seq<ReplicaDesc>, node_id: u64) -> bool {
    exists|i: int| 0 <= i < rs.len() && rs[i].node_id == node_id
}

/// `node_index` points at the first replica hosted by `node_id`, and runs
/// off the end exactly when there is none.
pub proof fn lemma_node_index(rs: Seq<ReplicaDesc>, node_id: u64)
    ensures
        0 <= node_index(rs, node_id) <= rs.len(),
        node_index(rs, node_id) < rs.len() ==> rs[node_index(rs, node_id)].node_id == node_id,
        forall|j: int| 0 <= j < node_index(rs, node_id) ==> rs[j].node_id != node_id,
        has_node(rs, node_id) <==> node_index(rs, node_id) < rs.len(),
    decreases rs.len(),
{
    if rs.len() == 0 {
    } else if rs[0].node_id == node_id {
    } else {
        lemma_node_index(rs.skip(1), node_id);
        assert forall|j: int| 0 <= j < node_index(rs, node_id) implies rs[j].node_id != node_id by {
            if j > 0 {
                assert(rs.skip(1)[j - 1].node_id != node_id);
            }
        }
        if has_node(rs, node_id) {
            let i = choose|i: int| 0 <= i < rs.len() && rs[i].node_id == node_id;
            assert(rs.skip(1)[i - 1].node_id == node_id);
            assert(has_node(rs.skip(1), node_id));
        }
        if has_node(rs.skip(1), node_id) {
            let i = choose|i: int| 0 <= i < rs.skip(1).len() && rs.skip(1)[i].node_id == node_id;
            assert(rs[i + 1].node_id == node_id);
        }
    }
}

/// The index of the first replica with id `replica_id`, or `rs.len()`.
pub open spec fn replica_index(rs: Seq<ReplicaDesc>, replica_id: u64) -> int
    decreases rs.len(),
{
    if rs.len() == 0 {
        0
    } else if rs[0].id == replica_id {
        0
    } else {
        1 + replica_index(rs.skip(1), replica_id)
    }
}

/// `replica_index` points at the first replica with the id, and runs off
/// the end exactly when there is none.
pub proof fn lemma_replica_index(rs: Seq<ReplicaDesc>, replica_id: u64)
    ensures
        0 <= replica_index(rs, replica_id) <= rs.len(),
        replica_index(rs, replica_id) < rs.len() ==> rs[replica_index(rs, replica_id)].id
            == replica_id,
        forall|j: int| 0 <= j < replica_index(rs, replica_id) ==> rs[j].id != replica_id,
    decreases rs.len(),
{
    if rs.len() == 0 {
    } else if rs[0].id == replica_id {
    } else {
        lemma_replica_index(rs.skip(1), replica_id);
        assert forall|j: int| 0 <= j < replica_index(rs, replica_id) implies rs[j].id
            != replica_id by {
            if j > 0 {
                assert(rs.skip(1)[j - 1].id != replica_id);
            }
        }
    }
}

/// Finds the index of the first replica hosted by `node_id`, or the length
/// if none is.
fn position_of_node(replicas: &Vec<ReplicaDesc>, node_id: u64) -> (r: usize)
    ensures
        r as int == node_index(replicas@, node_id),
{
    let mut i: usize = 0;
    proof {
        assert(replicas@.skip(0) =~= replicas@);
        lemma_node_index(replicas@, node_id);
    }
    while i < replicas.len()
        invariant
            i <= replicas@.len(),
            node_index(replicas@, node_id) == i + node_index(replicas@.skip(i as int), node_id),
            node_index(replicas@.skip(i as int), node_id) >= 0,
        decreases replicas@.len() - i,
    {
        proof {
            lemma_node_index(replicas@.skip(i as int), node_id);
        }
        if replicas[i].node_id == node_id {
            return i;
        }
        proof {
            assert(replicas@.skip(i as int).skip(1) =~= replicas@.skip(i + 1));
        }
        i = i + 1;
    }
    i
}

/// Finds the index of the first replica with id `replica_id`, or the
/// length if none is.
fn position_of_replica(replicas: &Vec<ReplicaDesc>, replica_id: u64) -> (r: usize)
    ensures
        r as int == replica_index(replicas@, replica_id),
{
    let mut i: usize = 0;
    proof {
        assert(replicas@.skip(0) =~= replicas@);
        lemma_replica_index(replicas@, replica_id);
    }
    while i < replicas.len()
        invariant
            i <= replicas@.len(),
            replica_index(replicas@, replica_id) == i + replica_index(
                replicas@.skip(i as int),
                replica_id,
            ),
            replica_index(replicas@.skip(i as int), replica_id) >= 0,
        decreases replicas@.len() - i,
    {
        proof {
            lemma_replica_index(replicas@.skip(i as int), replica_id);
        }
        if replicas[i].id == replica_id {
            return i;
        }
        proof {
            assert(replicas@.skip(i as int).skip(1) =~= replicas@.skip(i + 1));
        }
        i = i + 1;
    }
    i
}

// ------------------------------------------------------------------
// Bringing the preferred replica to the front of the list.
// ------------------------------------------------------------------

/// `rs` with the first replica hosted by `node_id` swapped to the front;
/// unchanged when no replica is hosted by `node_id`.
pub open spec fn move_node_first(rs: Seq<ReplicaDesc>, node_id: u64) -> Seq<ReplicaDesc> {
    let i = node_index(rs, node_id);
    if i < rs.len() {
        rs.update(i, rs[0]).update(0, rs[i])
    } else {
        rs
    }
}

/// `rs` with `replica` at the front: the first replica of the same node is
/// swapped to the front, or `replica` itself is added and swapped there
/// when no replica of its node is present.
pub open spec fn move_replica_first(rs: Seq<ReplicaDesc>, replica: ReplicaDesc) -> Seq<
    ReplicaDesc,
> {
    let i = node_index(rs, replica.node_id);
    if i < rs.len() {
        rs.update(i, rs[0]).update(0, rs[i])
    } else if rs.len() == 0 {
        seq![replica]
    } else {
        rs.push(replica).update(rs.len() as int, rs[0]).update(0, replica)
    }
}

/// Bringing a node's replica to the front permutes the list in place: the
/// length is kept, and when the node is present its replica ends up first.
pub proof fn lemma_move_node_first_props(rs: Seq<ReplicaDesc>, node_id: u64)
    ensures
        move_node_first(rs, node_id).len() == rs.len(),
        has_node(rs, node_id) ==> move_node_first(rs, node_id)[0].node_id == node_id,
{
    lemma_node_index(rs, node_id);
}

/// Bringing a replica to the front keeps the list non-empty and puts a
/// replica of that node first; the list grows by one exactly when the
/// node was absent.
pub proof fn lemma_move_replica_first_props(rs: Seq<ReplicaDesc>, replica: ReplicaDesc)
    ensures
        move_replica_first(rs, replica).len() == if has_node(rs, replica.node_id) {
            rs.len()
        } else {
            rs.len() + 1
        },
        move_replica_first(rs, replica)[0].node_id == replica.node_id,
{
    lemma_node_index(rs, replica.node_id);
}

/// Swaps the first replica hosted by `node_id` to the front, if any is.
pub fn move_node_to_first_element(replicas: &mut Vec<ReplicaDesc>, node_id: u64)
    ensures
        final(replicas)@ == move_node_first(old(replicas)@, node_id),
{
    let idx = position_of_node(replicas, node_id);
    proof {
        lemma_node_index(replicas@, node_id);
    }
    if idx < replicas.len() {
        if idx != 0 {
            let front = replicas[0];
            let found = replicas[idx];
            replicas.set(0, found);
            replicas.set(idx, front);
        } else {
            proof {
                assert(move_node_first(replicas@, node_id) =~= replicas@);
            }
        }
    }
}

/// Brings `replica` to the front, adding it first when its node is not
/// present (a fresh leader may be missing from a stale descriptor).
pub fn move_replica_to_first_element(replicas: &mut Vec<ReplicaDesc>, replica: ReplicaDesc)
    ensures
        final(replicas)@ == move_replica_first(old(replicas)@, replica),
{
    let idx = position_of_node(replicas, replica.node_id);
    proof {
        lemma_node_index(replicas@, replica.node_id);
    }
    if idx < replicas.len() {
        if idx != 0 {
            let front = replicas[0];
            let found = replicas[idx];
            replicas.set(0, found);
            replicas.set(idx, front);
        } else {
            proof {
                assert(move_replica_first(replicas@, replica) =~= replicas@);
            }
        }
    } else {
        replicas.push(replica);
        let last = replicas.len() - 1;
        if last != 0 {
            let front = replicas[0];
            replicas.set(0, replica);
            replicas.set(last, front);
        } else {
            proof {
                assert(move_replica_first(old(replicas)@, replica) =~= replicas@);
            }
        }
    }
}

// ------------------------------------------------------------------
// The executability predicate.
// ------------------------------------------------------------------

/// The first shard of `shards` with id `shard_id`, if any.
pub open spec fn first_shard_with_id(shards: Seq<ShardDesc>, shard_id: u64) -> Option<ShardDesc>
    decreases shards.len(),
{
    if shards.len() == 0 {
        None
    } else if shards[0].id == shard_id {
        Some(shards[0])
    } else {
        first_shard_with_id(shards.skip(1), shard_id)
    }
}

/// The descriptor has a shard with id `shard_id` whose range contains
/// `key`.
pub open spec fn spec_target_shard_exists(desc: GroupDesc, shard_id: u64, key: Seq<u8>) -> bool {
    match first_shard_with_id(desc.shards@, shard_id) {
        Some(shard) => shard_contains(shard, key),
        None => false,
    }
}

/// Decides whether `desc` has a shard with id `shard_id` containing `key`.
pub fn is_target_shard_exists(desc: &GroupDesc, shard_id: u64, key: &[u8]) -> (r: bool)
    ensures
        r == spec_target_shard_exists(*desc, shard_id, key@),
{
    let mut i: usize = 0;
    proof {
        assert(desc.shards@.skip(0) =~= desc.shards@);
    }
    while i < desc.shards.len()
        invariant
            i <= desc.shards@.len(),
            first_shard_with_id(desc.shards@, shard_id) == first_shard_with_id(
                desc.shards@.skip(i as int),
                shard_id,
            ),
        decreases desc.shards@.len() - i,
    {
        if desc.shards[i].id == shard_id {
            return belong_to(&desc.shards[i], key);
        }
        proof {
            assert(desc.shards@.skip(i as int).skip(1) =~= desc.shards@.skip(i + 1));
        }
        i = i + 1;
    }
    proof {
        assert(desc.shards@.skip(i as int) =~= Seq::<ShardDesc>::empty());
    }
    false
}

/// Every put and delete of a batch targets a shard of `desc` with id
/// `shard_id` that contains its key.
pub open spec fn spec_all_target_shard_exists(
    desc: GroupDesc,
    shard_id: u64,
    deletes: Seq<DeleteRequest>,
    puts: Seq<PutRequest>,
) -> bool {
    &&& forall|i: int|
        0 <= i < deletes.len() ==> spec_target_shard_exists(desc, shard_id, deletes[i].key@)
    &&& forall|i: int|
        0 <= i < puts.len() ==> spec_target_shard_exists(desc, shard_id, puts[i].key@)
}

/// Decides whether every key of a batch write still lives in `desc`.
pub fn is_all_target_shard_exists(
    descriptor: &GroupDesc,
    shard_id: u64,
    deletes: &Vec<DeleteRequest>,
    puts: &Vec<PutRequest>,
) -> (r: bool)
    ensures
        r == spec_all_target_shard_exists(*descriptor, shard_id, deletes@, puts@),
{
    let mut i: usize = 0;
    while i < deletes.len()
        invariant
            i <= deletes@.len(),
            forall|j: int|
                0 <= j < i ==> spec_target_shard_exists(*descriptor, shard_id, deletes@[j].key@),
        decreases deletes@.len() - i,
    {
        if !is_target_shard_exists(descriptor, shard_id, deletes[i].key.as_slice()) {
            return false;
        }
        i = i + 1;
    }
    let mut k: usize = 0;
    while k < puts.len()
        invariant
            k <= puts@.len(),
            forall|j: int|
                0 <= j < deletes@.len() ==> spec_target_shard_exists(
                    *descriptor,
                    shard_id,
                    deletes@[j].key@,
                ),
            forall|j: int|
                0 <= j < k ==> spec_target_shard_exists(*descriptor, shard_id, puts@[j].key@),
        decreases puts@.len() - k,
    {
        if !is_target_shard_exists(descriptor, shard_id, puts[k].key.as_slice()) {
            return false;
        }
        k = k + 1;
    }
    true
}

/// The target group can still execute the request: every key the request
/// touches lives in a shard (of the request's shard id) of the descriptor.
/// Requests without a key set are never re-routable this way.
pub open spec fn spec_is_executable(desc: GroupDesc, request: Request) -> bool {
    match request {
        Request::Get { shard_id, user_key } => spec_target_shard_exists(
            desc,
            shard_id,
            user_key@,
        ),
        Request::Write { shard_id, puts, deletes } => spec_all_target_shard_exists(
            desc,
            shard_id,
            deletes@,
            puts@,
        ),
        Request::WriteIntent { shard_id, write } => match write {
            Some(IntentWrite::Put(put)) => spec_target_shard_exists(desc, shard_id, put.key@),
            Some(IntentWrite::Delete(delete)) => spec_target_shard_exists(
                desc,
                shard_id,
                delete.key@,
            ),
            None => false,
        },
        Request::CommitIntent { shard_id, user_key } => spec_target_shard_exists(
            desc,
            shard_id,
            user_key@,
        ),
        Request::ClearIntent { shard_id, user_key } => spec_target_shard_exists(
            desc,
            shard_id,
            user_key@,
        ),
        _ => false,
    }
}

/// Decides whether the request is still executable against `descriptor`.
///
/// The decision is a pure function of the two arguments: it reads no
/// client state.
pub fn is_executable(descriptor: &GroupDesc, request: &Request) -> (r: bool)
    ensures
        r == spec_is_executable(*descriptor, *request),
{
    match request {
        Request::Get { shard_id, user_key } => is_target_shard_exists(
            descriptor,
            *shard_id,
            user_key.as_slice(),
        ),
        Request::Write { shard_id, puts, deletes } => is_all_target_shard_exists(
            descriptor,
            *shard_id,
            deletes,
            puts,
        ),
        Request::WriteIntent { shard_id, write } => match write {
            Some(IntentWrite::Put(put)) => is_target_shard_exists(
                descriptor,
                *shard_id,
                put.key.as_slice(),
            ),
            Some(IntentWrite::Delete(delete)) => is_target_shard_exists(
                descriptor,
                *shard_id,
                delete.key.as_slice(),
            ),
            None => false,
        },
        Request::CommitIntent { shard_id, user_key } => is_target_shard_exists(
            descriptor,
            *shard_id,
            user_key.as_slice(),
        ),
        Request::ClearIntent { shard_id, user_key } => is_target_shard_exists(
            descriptor,
            *shard_id,
            user_key.as_slice(),
        ),
        _ => false,
    }
}

// ------------------------------------------------------------------
// The client state and its transitions.
// ------------------------------------------------------------------

/// Per-call invocation options: the pending request (for executability
/// and idempotency decisions) and the caller's retry policy flags.
pub struct InvokeOpt {
    /// The request about to be submitted, when the operation carries one.
    pub request: Option<Request>,
    /// The client's epoch is a precondition of the call: on
    /// `EpochNotMatch` the error is surfaced at once instead of retried.
    pub accurate_epoch: bool,
    /// The request is idempotent: a mid-call transport fault may be
    /// retried even for a write.
    pub ignore_transport_error: bool,
}

/// The mathematical state of a group client.
#[verifier::ext_equal]
pub ghost struct ClientView {
    pub group_id: u64,
    pub epoch: u64,
    pub timeout_ms: Option<u64>,
    pub leader_state: Option<(u64, u64)>,
    pub replicas: Seq<ReplicaDesc>,
    pub access_node_id: Option<u64>,
    pub next_access_index: int,
}

/// A client for submitting requests to the leader of one group of
/// replicas.
///
/// It tracks the group's membership epoch, a leader hint, the replica
/// rotation cursor, and the sticky node latch. It is exclusively owned by
/// its call site for the duration of a call; the transports themselves
/// live with the driver that performs the attempts.
pub struct GroupClient {
    pub group_id: u64,
    /// The membership epoch of the state the client last adopted; zero
    /// until initial state is loaded.
    pub epoch: u64,
    /// A deadline for the next call only, in milliseconds; consumed by
    /// `take_timeout`.
    pub timeout_ms: Option<u64>,
    /// The replica the client believes is the leader, with the term in
    /// which that belief was formed.
    pub leader_state: Option<(u64, u64)>,
    /// The replicas to try, the currently preferred one at the front.
    pub replicas: Vec<ReplicaDesc>,
    /// The sticky node: successive attempts stay here until a
    /// control-plane signal clears it.
    pub access_node_id: Option<u64>,
    /// The rotation cursor over `replicas`.
    pub next_access_index: usize,
}

impl View for GroupClient {
    type V = ClientView;

    open spec fn view(&self) -> ClientView {
        ClientView {
            group_id: self.group_id,
            epoch: self.epoch,
            timeout_ms: self.timeout_ms,
            leader_state: self.leader_state,
            replicas: self.replicas@,
            access_node_id: self.access_node_id,
            next_access_index: self.next_access_index as int,
        }
    }
}

/// The node hosting the leader named by a router snapshot, when that
/// leader is listed among the snapshot's replicas.
pub open spec fn leader_node_of(state: RouterGroupState) -> Option<u64> {
    match state.leader_state {
        Some((leader_id, _)) => {
            let i = replica_index(state.replicas@, leader_id);
            if i < state.replicas@.len() {
                Some(state.replicas@[i].node_id)
            } else {
                None
            }
        },
        None => None,
    }
}

/// The state after adopting a router snapshot: epoch, leader hint and
/// replicas are taken over, and the leader's node is brought to the
/// front of the rotation.
pub open spec fn apply_group_state_step(s: ClientView, state: RouterGroupState) -> ClientView {
    let moved = match leader_node_of(state) {
        Some(node_id) => move_node_first(state.replicas@, node_id),
        None => state.replicas@,
    };
    ClientView {
        epoch: state.epoch,
        leader_state: state.leader_state,
        replicas: moved,
        ..s
    }
}

/// A `NotLeader` report carries a term no newer than the one the client's
/// hint was formed in.
pub open spec fn stale_term(s: ClientView, term: u64) -> bool {
    match s.leader_state {
        Some((_, local_term)) => local_term >= term,
        None => false,
    }
}

/// The state after a `NotLeader` report: the sticky node is cleared; a
/// fresh leader additionally updates the hint, comes to the front of the
/// rotation, and becomes the sticky node.
pub open spec fn not_leader_step(s: ClientView, term: u64, leader: Option<ReplicaDesc>) -> ClientView {
    match leader {
        Some(l) => {
            if stale_term(s, term) {
                ClientView { access_node_id: None, ..s }
            } else {
                ClientView {
                    access_node_id: Some(l.node_id),
                    leader_state: Some((l.id, term)),
                    replicas: move_replica_first(s.replicas, l),
                    ..s
                }
            }
        },
        None => ClientView { access_node_id: None, ..s },
    }
}

/// A mid-call transport fault may be retried: the caller opted in, or the
/// pending request is read-only.
pub open spec fn transport_retryable(opt: InvokeOpt) -> bool {
    opt.ignore_transport_error || match opt.request {
        Some(req) => spec_is_read_only_request(req),
        None => false,
    }
}

/// An `EpochNotMatch` carrying `desc` is recovered locally: the caller
/// did not demand an accurate epoch, and the pending request (if any) is
/// still executable in `desc`.
pub open spec fn epoch_not_match_retryable(
    desc: GroupDesc,
    request: Option<Request>,
    accurate_epoch: bool,
) -> bool {
    !accurate_epoch && match request {
        Some(req) => spec_is_executable(desc, req),
        None => true,
    }
}

/// The state after adopting a newer descriptor from `EpochNotMatch`: its
/// replicas and epoch are taken over, the rotation restarts past the
/// front, and the node just tried is brought to the front so that it is
/// retried first with the new epoch.
pub open spec fn epoch_not_match_step(s: ClientView, desc_epoch: u64, desc_replicas: Seq<ReplicaDesc>) -> ClientView {
    let node_id = match s.access_node_id {
        Some(n) => n,
        None => 0,
    };
    ClientView {
        epoch: desc_epoch,
        replicas: move_node_first(desc_replicas, node_id),
        next_access_index: 1,
        ..s
    }
}

impl GroupClient {
    /// The client's structural invariant: once initial state is loaded
    /// the replica list is non-empty (and always small enough for the
    /// rotation cursor to advance).
    pub open spec fn wf(&self) -> bool {
        &&& self.epoch > 0 ==> self.replicas@.len() > 0
        &&& self.replicas@.len() < usize::MAX
    }

    /// Creates an empty client; the first call loads initial state from
    /// the router.
    pub fn lazy(group_id: u64) -> (r: GroupClient)
        ensures
            r.wf(),
            r@ == (ClientView {
                group_id,
                epoch: 0,
                timeout_ms: None,
                leader_state: None,
                replicas: Seq::<ReplicaDesc>::empty(),
                access_node_id: None,
                next_access_index: 0,
            }),
    {
        let r = GroupClient {
            group_id,
            epoch: 0,
            timeout_ms: None,
            leader_state: None,
            replicas: Vec::new(),
            access_node_id: None,
            next_access_index: 0,
        };
        proof {
            assert(r@ =~= (ClientView {
                group_id,
                epoch: 0,
                timeout_ms: None,
                leader_state: None,
                replicas: Seq::<ReplicaDesc>::empty(),
                access_node_id: None,
                next_access_index: 0,
            }));
        }
        r
    }

    /// Creates a client seeded with a router snapshot.
    pub fn new(group_state: RouterGroupState, ) -> (r: GroupClient)
        requires
            group_state.replicas@.len() > 0,
            group_state.replicas@.len() < usize::MAX,
        ensures
            r.wf(),
            r@ == apply_group_state_step(
                ClientView {
                    group_id: group_state.id,
                    epoch: 0,
                    timeout_ms: None,
                    leader_state: None,
                    replicas: Seq::<ReplicaDesc>::empty(),
                    access_node_id: None,
                    next_access_index: 0,
                },
                group_state,
            ),
    {
        let id = group_state.id;
        let mut c = GroupClient::lazy(id);
        c.apply_group_state(group_state);
        c
    }

    /// Arms a deadline, in milliseconds, for the next call issued via
    /// this client; it is consumed by that call alone.
    pub fn set_timeout(&mut self, timeout_ms: u64)
        ensures
            final(self)@ == (ClientView { timeout_ms: Some(timeout_ms), ..old(self)@ }),
            final(self).wf() == old(self).wf(),
    {
        self.timeout_ms = Some(timeout_ms);
    }

    /// Arms or clears the deadline for the next call.
    pub fn set_timeout_opt(&mut self, timeout_ms: Option<u64>)
        ensures
            final(self)@ == (ClientView { timeout_ms, ..old(self)@ }),
            final(self).wf() == old(self).wf(),
    {
        self.timeout_ms = timeout_ms;
    }

    /// Takes the armed deadline, leaving none for later calls.
    pub fn take_timeout(&mut self) -> (r: Option<u64>)
        ensures
            r == old(self).timeout_ms,
            final(self)@ == (ClientView { timeout_ms: None, ..old(self)@ }),
            final(self).wf() == old(self).wf(),
    {
        let r = self.timeout_ms;
        self.timeout_ms = None;
        r
    }

    /// Adopts a router snapshot: epoch, leader hint and replicas, with
    /// the leader's node brought to the front of the rotation.
    pub fn apply_group_state(&mut self, group: RouterGroupState)
        requires
            group.replicas@.len() > 0,
            group.replicas@.len() < usize::MAX,
            old(self).epoch == 0 || group.epoch >= old(self).epoch,
        ensures
            final(self).wf(),
            final(self)@ == apply_group_state_step(old(self)@, group),
            final(self).epoch >= old(self).epoch,
    {
        let mut leader_node_id: Option<u64> = None;
        if let Some((leader_id, _term)) = group.leader_state {
            let idx = position_of_replica(&group.replicas, leader_id);
            if idx < group.replicas.len() {
                leader_node_id = Some(group.replicas[idx].node_id);
            }
        }
        self.leader_state = group.leader_state;
        self.epoch = group.epoch;
        self.replicas = group.replicas;
        if let Some(node_id) = leader_node_id {
            move_node_to_first_element(&mut self.replicas, node_id);
        }
        proof {
            assert(final(self)@ =~= apply_group_state_step(old(self)@, group));
            if let Some(node_id) = leader_node_id {
                lemma_move_node_first_props(group.replicas@, node_id);
            }
            assert(self.replicas@.len() == group.replicas@.len());
        }
    }

    /// Starts a call: loads initial state from the supplied router
    /// snapshot when none was loaded yet, and resets the rotation cursor.
    ///
    /// Fails with `GroupNotAccessible` when initial state is needed and
    /// the router has none.
    pub fn begin_invoke(&mut self, router_state: Option<RouterGroupState>) -> (r: Result<
        (),
        Error,
    >)
        requires
            old(self).wf(),
            router_state matches Some(s) ==> s.replicas@.len() > 0 && s.replicas@.len()
                < usize::MAX,
        ensures
            final(self).wf(),
            final(self).epoch >= old(self).epoch,
            old(self).epoch > 0 ==> r is Ok && final(self)@ == (ClientView {
                next_access_index: 0,
                ..old(self)@
            }),
            old(self).epoch == 0 && router_state is None ==> (r matches Err(
                Error::GroupNotAccessible(g),
            ) && g == old(self).group_id) && final(self)@ == old(self)@,
            router_state matches Some(s) ==> (old(self).epoch == 0 ==> r is Ok && final(self)@
                == (ClientView { next_access_index: 0, ..apply_group_state_step(old(self)@, s) })),
    {
        if self.epoch == 0 {
            match router_state {
                Some(state) => {
                    self.apply_group_state(state);
                },
                None => {
                    return Err(Error::GroupNotAccessible(self.group_id));
                },
            }
        }
        self.next_access_index = 0;
        Ok(())
    }

    /// Yields the node of the next replica in rotation and advances the
    /// cursor; yields nothing once every replica, and the preferred one a
    /// second time, has been tried.
    ///
    /// The bound is `replicas.len() + 1` successful picks per reset: the
    /// front replica is usually the leader, and it deserves one more try
    /// after a full rotation.
    pub fn next_access_node_id(&mut self) -> (r: Option<u64>)
        requires
            old(self).wf(),
            old(self).replicas@.len() > 0,
        ensures
            final(self).wf(),
            old(self).next_access_index <= old(self).replicas@.len() ==> r == Some(
                old(self).replicas@[old(self).next_access_index as int % (
                old(self).replicas@.len() as int)].node_id,
            ) && final(self)@ == (ClientView {
                next_access_index: old(self)@.next_access_index + 1,
                ..old(self)@
            }),
            old(self).next_access_index > old(self).replicas@.len() ==> r is None && final(self)@
                == old(self)@,
    {
        if self.next_access_index <= self.replicas.len() {
            let replica_node = self.replicas[self.next_access_index % self.replicas.len()].node_id;
            self.next_access_index = self.next_access_index + 1;
            Some(replica_node)
        } else {
            None
        }
    }

    /// The node the next attempt should address: the sticky node when one
    /// is latched, otherwise the next replica in rotation.
    pub fn candidate_node(&mut self) -> (r: Option<u64>)
        requires
            old(self).wf(),
            old(self).replicas@.len() > 0,
        ensures
            final(self).wf(),
            old(self).access_node_id matches Some(n) ==> r == Some(n) && final(self)@ == old(self)@,
            old(self).access_node_id is None && old(self).next_access_index <= old(self).replicas@.len() ==> r == Some(
                old(self).replicas@[old(self).next_access_index as int % (
                old(self).replicas@.len() as int)].node_id,
            ) && final(self)@ == (ClientView {
                next_access_index: old(self)@.next_access_index + 1,
                ..old(self)@
            }),
            old(self).access_node_id is None && old(self).next_access_index > old(self).replicas@.len() ==> r is None && final(self)@ == old(self)@,
    {
        match self.access_node_id {
            Some(node_id) => Some(node_id),
            None => self.next_access_node_id(),
        }
    }

    /// Latches the node a transport was obtained for; successive attempts
    /// stay on it.
    pub fn note_connected(&mut self, node_id: u64)
        ensures
            final(self)@ == (ClientView { access_node_id: Some(node_id), ..old(self)@ }),
            final(self).wf() == old(self).wf(),
    {
        self.access_node_id = Some(node_id);
    }

    /// Clears the sticky node: its address could not be resolved or a
    /// transport could not be established, so rotation moves on.
    pub fn note_unreachable(&mut self)
        ensures
            final(self)@ == (ClientView { access_node_id: None, ..old(self)@ }),
            final(self).wf() == old(self).wf(),
    {
        self.access_node_id = None;
    }

    /// Applies a `NotLeader` report: a stale term (no newer than the
    /// hint's) leaves the hint, the replicas and the epoch unchanged; a
    /// fresh leader updates the hint, comes to the front, and becomes the
    /// sticky node.
    pub fn apply_not_leader_status(&mut self, term: u64, leader_desc: Option<ReplicaDesc>)
        requires
            old(self).wf(),
            old(self).replicas@.len() + 1 < usize::MAX,
        ensures
            final(self).wf(),
            final(self)@ == not_leader_step(old(self)@, term, leader_desc),
            final(self).epoch == old(self).epoch,
    {
        self.access_node_id = None;
        if let Some(leader) = leader_desc {
            let stale = match self.leader_state {
                Some((_, local_term)) => local_term >= term,
                None => false,
            };
            if !stale {
                self.access_node_id = Some(leader.node_id);
                self.leader_state = Some((leader.id, term));
                move_replica_to_first_element(&mut self.replicas, leader);
                proof {
                    lemma_move_replica_first_props(old(self).replicas@, leader);
                }
            }
        }
        proof {
            assert(final(self)@ =~= not_leader_step(old(self)@, term, leader_desc));
        }
    }

    /// Applies an `EpochNotMatch` report carrying the server's newer
    /// descriptor.
    ///
    /// When the caller demanded an accurate epoch, or the pending request
    /// is no longer executable in the new descriptor, the error is
    /// surfaced untouched; otherwise the descriptor is adopted and the
    /// attempt is retried on the same node with the new epoch.
    ///
    /// A server must never report a descriptor whose epoch is not newer
    /// than the client's; callers check this and treat a violation as a
    /// fatal protocol bug.
    pub fn apply_epoch_not_match_status(&mut self, group_desc: GroupDesc, opt: &InvokeOpt) -> (r:
        Result<(), Error>)
        requires
            old(self).wf(),
            !opt.accurate_epoch ==> group_desc.epoch > old(self).epoch
                && group_desc.replicas@.len() > 0 && group_desc.replicas@.len() < usize::MAX,
        ensures
            final(self).wf(),
            final(self).epoch >= old(self).epoch,
            !epoch_not_match_retryable(group_desc, opt.request, opt.accurate_epoch)
                ==> final(self)@ == old(self)@ && (r matches Err(Error::EpochNotMatch(d)) && d
                == group_desc),
            epoch_not_match_retryable(group_desc, opt.request, opt.accurate_epoch) ==> r is Ok
                && final(self)@ == epoch_not_match_step(
                old(self)@,
                group_desc.epoch,
                group_desc.replicas@,
            ),
    {
        if opt.accurate_epoch {
            return Err(Error::EpochNotMatch(group_desc));
        }
        if let Some(request) = &opt.request {
            if !is_executable(&group_desc, request) {
                return Err(Error::EpochNotMatch(group_desc));
            }
        }
        let ghost desc_replicas = group_desc.replicas@;
        self.epoch = group_desc.epoch;
        self.replicas = group_desc.replicas;
        self.next_access_index = 1;
        let node_id = match self.access_node_id {
            Some(n) => n,
            None => 0,
        };
        move_node_to_first_element(&mut self.replicas, node_id);
        proof {
            lemma_move_node_first_props(desc_replicas, node_id);
            assert(final(self)@ =~= epoch_not_match_step(
                old(self)@,
                group_desc.epoch,
                desc_replicas,
            ));
        }
        Ok(())
    }

    /// Classifies a failed attempt and updates the client's state.
    ///
    /// `Ok` means the condition was recovered locally and the call should
    /// try again; an error is surfaced to the caller. Control-plane
    /// conditions recover: an unknown group or a connection fault clears
    /// the sticky node, a leadership report updates the hint, a newer
    /// descriptor is adopted. A mid-call transport fault recovers only
    /// for read-only requests or when the caller opted in. Everything
    /// else, business errors included, is surfaced with the state
    /// untouched.
    pub fn apply_status(&mut self, err: Error, opt: &InvokeOpt) -> (r: Result<(), Error>)
        requires
            old(self).wf(),
            old(self).replicas@.len() + 1 < usize::MAX,
            err matches Error::EpochNotMatch(desc) ==> (!opt.accurate_epoch ==> desc.epoch > old(
                self,
            ).epoch && desc.replicas@.len() > 0 && desc.replicas@.len() < usize::MAX),
        ensures
            final(self).wf(),
            final(self).epoch >= old(self).epoch,
            match err {
                Error::GroupNotFound(_) => r is Ok && final(self)@ == (ClientView {
                    access_node_id: None,
                    ..old(self)@
                }),
                Error::NotLeader(_, term, leader) => r is Ok && final(self)@ == not_leader_step(
                    old(self)@,
                    term,
                    leader,
                ),
                Error::Connect(_) => r is Ok && final(self)@ == (ClientView {
                    access_node_id: None,
                    ..old(self)@
                }),
                Error::Transport(msg) => if transport_retryable(*opt) {
                    r is Ok && final(self)@ == (ClientView { access_node_id: None, ..old(self)@ })
                } else {
                    r == Result::<(), Error>::Err(Error::Transport(msg)) && final(self)@ == old(self)@
                },
                Error::EpochNotMatch(desc) => if epoch_not_match_retryable(
                    desc,
                    opt.request,
                    opt.accurate_epoch,
                ) {
                    r is Ok && final(self)@ == epoch_not_match_step(
                        old(self)@,
                        desc.epoch,
                        desc.replicas@,
                    )
                } else {
                    final(self)@ == old(self)@ && (r matches Err(Error::EpochNotMatch(d)) && d
                        == desc)
                },
                _ => r == Result::<(), Error>::Err(err) && final(self)@ == old(self)@,
            },
            crate::error::is_expected_business_error(err) ==> r == Result::<(), Error>::Err(err)
                && final(self)@ == old(self)@,
    {
        match err {
            Error::GroupNotFound(_) => {
                self.access_node_id = None;
                proof {
                    assert(final(self)@ =~= (ClientView { access_node_id: None, ..old(self)@ }));
                }
                Ok(())
            },
            Error::NotLeader(_, term, leader_desc) => {
                self.apply_not_leader_status(term, leader_desc);
                Ok(())
            },
            Error::Connect(_) => {
                self.access_node_id = None;
                proof {
                    assert(final(self)@ =~= (ClientView { access_node_id: None, ..old(self)@ }));
                }
                Ok(())
            },
            Error::Transport(status) => {
                let retryable = opt.ignore_transport_error || match &opt.request {
                    Some(request) => is_read_only_request(request),
                    None => false,
                };
                if retryable {
                    self.access_node_id = None;
                    proof {
                        assert(final(self)@ =~= (ClientView {
                            access_node_id: None,
                            ..old(self)@
                        }));
                    }
                    Ok(())
                } else {
                    Err(Error::Transport(status))
                }
            },
            Error::EpochNotMatch(group_desc) => self.apply_epoch_not_match_status(group_desc, opt),
            other => Err(other),
        }
    }
}

impl InvokeOpt {
    /// Options for a user request: the request travels along for
    /// executability checks, with no special retry policy.
    pub fn with_request(request: Request) -> (r: InvokeOpt)
        ensures
            r.request == Some(request),
            !r.accurate_epoch,
            !r.ignore_transport_error,
    {
        InvokeOpt { request: Some(request), accurate_epoch: false, ignore_transport_error: false }
    }

    /// Options for operations with no pending request and no special
    /// policy: the stream subscription and the scheduling calls whose
    /// retries are safe by construction.
    pub fn plain() -> (r: InvokeOpt)
        ensures
            r.request is None,
            !r.accurate_epoch,
            !r.ignore_transport_error,
    {
        InvokeOpt { request: None, accurate_epoch: false, ignore_transport_error: false }
    }

    /// Options for administrative calls whose membership preconditions
    /// must hold exactly and which are idempotent: leadership transfer
    /// and the shard movement calls.
    pub fn accurate_idempotent() -> (r: InvokeOpt)
        ensures
            r.request is None,
            r.accurate_epoch,
            r.ignore_transport_error,
    {
        InvokeOpt { request: None, accurate_epoch: true, ignore_transport_error: true }
    }

    /// Options for idempotent calls that tolerate any epoch: moving a
    /// shard out of its old group.
    pub fn idempotent() -> (r: InvokeOpt)
        ensures
            r.request is None,
            !r.accurate_epoch,
            r.ignore_transport_error,
    {
        InvokeOpt { request: None, accurate_epoch: false, ignore_transport_error: true }
    }

    /// Options for forwarded writes: the epoch must match exactly, and a
    /// transport fault may have applied the write, so it is surfaced.
    pub fn accurate() -> (r: InvokeOpt)
        ensures
            r.request is None,
            r.accurate_epoch,
            !r.ignore_transport_error,
    {
        InvokeOpt { request: None, accurate_epoch: true, ignore_transport_error: false }
    }
}

// ------------------------------------------------------------------
// Laws of the state machine.
// ------------------------------------------------------------------

/// The rotation picks a client may still make before `GroupNotAccessible`
/// is owed: one per replica, plus one more for the preferred front
/// replica.
pub open spec fn remaining_picks(s: ClientView) -> int {
    s.replicas.len() + 1 - s.next_access_index
}

/// A freshly reset rotation has exactly `replicas.len() + 1` picks in its
/// budget; since every successful pick consumes one and an exhausted
/// budget yields none, a call attempts at most `replicas.len() + 1`
/// nodes between control-plane resets.
pub proof fn lemma_rotation_budget(s: ClientView)
    requires
        s.next_access_index == 0,
    ensures
        remaining_picks(s) == s.replicas.len() + 1,
{
}

/// The epoch never decreases across recovery transitions: a leadership
/// report leaves it alone, and a descriptor is only ever adopted at a
/// newer epoch. Together with the entry transition, which only loads
/// initial state into an empty client, every call leaves the epoch at
/// least where it found it.
pub proof fn lemma_recovery_epoch_monotonic(
    s: ClientView,
    term: u64,
    leader: Option<ReplicaDesc>,
    desc_epoch: u64,
    desc_replicas: Seq<ReplicaDesc>,
)
    requires
        desc_epoch >= s.epoch,
    ensures
        not_leader_step(s, term, leader).epoch == s.epoch,
        epoch_not_match_step(s, desc_epoch, desc_replicas).epoch >= s.epoch,
{
}

/// A `NotLeader` report whose term is no newer than the hint's changes no
/// client state except that the sticky node is released: the hint, the
/// replica order, the epoch and the rotation cursor all stay.
pub proof fn lemma_stale_not_leader_keeps_state(
    s: ClientView,
    term: u64,
    leader: Option<ReplicaDesc>,
)
    requires
        stale_term(s, term),
    ensures
        not_leader_step(s, term, leader).leader_state == s.leader_state,
        not_leader_step(s, term, leader).replicas == s.replicas,
        not_leader_step(s, term, leader).epoch == s.epoch,
        not_leader_step(s, term, leader).next_access_index == s.next_access_index,
        not_leader_step(s, term, leader).access_node_id is None,
{
}

/// Applying the same `NotLeader(term, leader)` report twice settles after
/// the first application: the second changes neither the hint, nor the
/// replica order, nor the epoch, nor the cursor (having installed the
/// hint, the client treats the repeat as stale and only releases the
/// sticky node).
pub proof fn lemma_not_leader_idempotent(s: ClientView, term: u64, leader: ReplicaDesc)
    ensures
        ({
            let once = not_leader_step(s, term, Some(leader));
            let twice = not_leader_step(once, term, Some(leader));
            &&& twice.leader_state == once.leader_state
            &&& twice.replicas == once.replicas
            &&& twice.epoch == once.epoch
            &&& twice.next_access_index == once.next_access_index
        }),
{
}

/// Adopting a descriptor lands the client exactly on the descriptor's
/// epoch and replica set, regardless of the epoch it started from: two
/// clients that share a sticky node and adopt the same descriptor agree
/// on everything the adoption touches.
pub proof fn lemma_epoch_adoption_absorbing(
    s1: ClientView,
    s2: ClientView,
    desc_epoch: u64,
    desc_replicas: Seq<ReplicaDesc>,
)
    requires
        s1.access_node_id == s2.access_node_id,
    ensures
        epoch_not_match_step(s1, desc_epoch, desc_replicas).epoch == desc_epoch,
        epoch_not_match_step(s1, desc_epoch, desc_replicas).next_access_index == 1,
        epoch_not_match_step(s1, desc_epoch, desc_replicas).replicas == epoch_not_match_step(
            s2,
            desc_epoch,
            desc_replicas,
        ).replicas,
{
}

/// A transport fault under a read-only request is retryable without any
/// caller opt-in.
pub proof fn lemma_read_only_transport_retryable(opt: InvokeOpt)
    requires
        opt.request matches Some(req) && spec_is_read_only_request(req),
    ensures
        transport_retryable(opt),
{
}

/// A transport fault under a write-class request is surfaced unless the
/// caller opted in: the write may have partially applied.
pub proof fn lemma_write_transport_surfaced(opt: InvokeOpt)
    requires
        !opt.ignore_transport_error,
        opt.request matches Some(req) ==> !spec_is_read_only_request(req),
    ensures
        !transport_retryable(opt),
{
}

/// Under `accurate_epoch`, an `EpochNotMatch` is never recovered locally,
/// whatever descriptor it carries and whatever request is pending.
pub proof fn lemma_accurate_epoch_surfaces(desc: GroupDesc, request: Option<Request>)
    ensures
        !epoch_not_match_retryable(desc, request, true),
{
}

} // verus!
