use sekas_client::data::{ReplicaDesc, ReplicaRole, RouterGroupState};
use sekas_client::error::Error;
use sekas_client::group_client::{GroupClient, InvokeOpt};
use sekas_client::request::{PutRequest, Request};
use sekas_client::shard::{RangePartition, ShardDesc};
use sekas_client::data::GroupDesc;

fn replica(id: u64, node_id: u64) -> ReplicaDesc {
    ReplicaDesc { id, node_id, role: ReplicaRole::Voter }
}

fn three_replica_state(epoch: u64, leader: Option<(u64, u64)>) -> RouterGroupState {
    RouterGroupState {
        id: 1,
        epoch,
        leader_state: leader,
        replicas: vec![replica(1, 1), replica(2, 2), replica(3, 3)],
    }
}

fn shard(id: u64, start: &[u8], end: &[u8]) -> ShardDesc {
    ShardDesc {
        id,
        table_id: 7,
        range: RangePartition { start: start.to_vec(), end: end.to_vec() },
    }
}

fn group_desc(epoch: u64, shards: Vec<ShardDesc>) -> GroupDesc {
    GroupDesc { id: 1, epoch, replicas: vec![replica(1, 1), replica(2, 2), replica(3, 3)], shards }
}

#[test]
fn happy_path_get_one_attempt() {
    let mut client = GroupClient::new(three_replica_state(5, Some((1, 6))));
    client.begin_invoke(None).unwrap();
    // One attempt, aimed at the leader's node.
    let node = client.candidate_node();
    assert_eq!(node, Some(1));
    // The attempt succeeds: the driver returns the value and stops.
    assert_eq!(client.epoch, 5);
}

#[test]
fn leader_failover_switches_to_new_leader() {
    let mut client = GroupClient::new(three_replica_state(5, Some((1, 6))));
    client.begin_invoke(None).unwrap();
    let first = client.candidate_node();
    assert_eq!(first, Some(1));
    client.note_connected(1);
    // The server reports a newer leader: replica 2 in term 7.
    let err = Error::NotLeader(1, 7, Some(replica(2, 2)));
    let opt = InvokeOpt::plain();
    assert!(client.apply_status(err, &opt).is_ok());
    assert_eq!(client.leader_state, Some((2, 7)));
    assert_eq!(client.replicas[0].node_id, 2);
    // The second attempt goes straight to the new leader's node.
    let second = client.candidate_node();
    assert_eq!(second, Some(2));
    assert_eq!(client.epoch, 5);
}

#[test]
fn stale_not_leader_is_ignored() {
    let mut client = GroupClient::new(three_replica_state(5, Some((1, 6))));
    client.begin_invoke(None).unwrap();
    let first = client.candidate_node();
    assert_eq!(first, Some(1));
    client.note_connected(1);
    let before_leader = client.leader_state;
    let before_order: Vec<u64> = client.replicas.iter().map(|r| r.node_id).collect();
    // A stale report: term 3 is older than the local term 6.
    let err = Error::NotLeader(1, 3, Some(replica(3, 3)));
    let opt = InvokeOpt::plain();
    assert!(client.apply_status(err, &opt).is_ok());
    assert_eq!(client.leader_state, before_leader);
    let after_order: Vec<u64> = client.replicas.iter().map(|r| r.node_id).collect();
    assert_eq!(after_order, before_order);
    assert_eq!(client.epoch, 5);
    // The sticky node was released; rotation moves to the next replica.
    assert_eq!(client.access_node_id, None);
    let next = client.candidate_node();
    assert_eq!(next, Some(2));
}

#[test]
fn epoch_not_match_still_executable_adopts_descriptor() {
    let mut client = GroupClient::new(three_replica_state(5, Some((1, 6))));
    client.begin_invoke(None).unwrap();
    let first = client.candidate_node();
    assert_eq!(first, Some(1));
    client.note_connected(1);
    // The server reports epoch 9; shard 10 still covers "m".
    let desc = group_desc(9, vec![shard(10, b"", b"z")]);
    let write = Request::Write {
        shard_id: 10,
        puts: vec![PutRequest { key: b"m".to_vec(), value: b"1".to_vec() }],
        deletes: vec![],
    };
    let opt = InvokeOpt::with_request(write);
    let err = Error::EpochNotMatch(desc);
    assert!(client.apply_status(err, &opt).is_ok());
    assert_eq!(client.epoch, 9);
    assert_eq!(client.next_access_index, 1);
    assert_eq!(client.replicas[0].node_id, 1);
    // The same node is retried with the new epoch.
    assert_eq!(client.candidate_node(), Some(1));
}

#[test]
fn epoch_not_match_shard_split_away_is_surfaced() {
    let mut client = GroupClient::new(three_replica_state(5, Some((1, 6))));
    client.begin_invoke(None).unwrap();
    client.note_connected(1);
    // Shard 10 no longer covers "m": it was split at "k".
    let desc = group_desc(9, vec![shard(10, b"", b"k"), shard(11, b"k", b"z")]);
    let write = Request::Write {
        shard_id: 10,
        puts: vec![PutRequest { key: b"m".to_vec(), value: b"1".to_vec() }],
        deletes: vec![],
    };
    let opt = InvokeOpt::with_request(write);
    let err = Error::EpochNotMatch(desc);
    match client.apply_status(err, &opt) {
        Err(Error::EpochNotMatch(d)) => assert_eq!(d.epoch, 9),
        other => panic!("expected EpochNotMatch to surface, got {other:?}"),
    }
    // The client did not adopt anything.
    assert_eq!(client.epoch, 5);
}

#[test]
fn deadline_elapses_between_attempts() {
    let mut client = GroupClient::new(three_replica_state(5, Some((1, 6))));
    client.set_timeout(10);
    client.begin_invoke(None).unwrap();
    // The deadline is armed for this call only.
    let deadline = client.take_timeout();
    assert_eq!(deadline, Some(10));
    let deadline_at = deadline.unwrap();
    let opt = InvokeOpt::plain();
    // First attempt fails to connect after 7 ms: recovered, not yet late.
    assert!(client.apply_status(Error::Connect("refused".to_owned()), &opt).is_ok());
    let elapsed: u64 = 7;
    assert!(elapsed <= deadline_at);
    // Second attempt fails after 15 ms: the post-attempt check trips.
    assert!(client.apply_status(Error::Connect("refused".to_owned()), &opt).is_ok());
    let elapsed: u64 = 15;
    assert!(elapsed > deadline_at);
    // The timeout was consumed: the next call has none.
    assert_eq!(client.take_timeout(), None);
}

#[test]
fn rotation_tries_each_replica_and_the_front_twice() {
    let mut client = GroupClient::new(three_replica_state(5, Some((1, 6))));
    client.begin_invoke(None).unwrap();
    let mut visited = Vec::new();
    loop {
        match client.candidate_node() {
            Some(node) => {
                visited.push(node);
                // No transport: rotation moves on.
                client.note_unreachable();
            }
            None => break,
        }
    }
    // Three replicas: four picks, the preferred front node twice.
    assert_eq!(visited, vec![1, 2, 3, 1]);
    let distinct: std::collections::BTreeSet<u64> = visited.iter().copied().collect();
    assert!(distinct.len() <= client.replicas.len() + 1);
}

#[test]
fn lazy_client_without_router_state_is_not_accessible() {
    let mut client = GroupClient::lazy(42);
    match client.begin_invoke(None) {
        Err(Error::GroupNotAccessible(g)) => assert_eq!(g, 42),
        other => panic!("expected GroupNotAccessible, got {other:?}"),
    }
}

#[test]
fn lazy_client_adopts_router_state_on_first_call() {
    let mut client = GroupClient::lazy(1);
    client.begin_invoke(Some(three_replica_state(5, Some((2, 4))))).unwrap();
    assert_eq!(client.epoch, 5);
    assert_eq!(client.replicas[0].node_id, 2);
    assert_eq!(client.leader_state, Some((2, 4)));
}

#[test]
fn transport_error_on_write_is_surfaced() {
    let mut client = GroupClient::new(three_replica_state(5, Some((1, 6))));
    client.begin_invoke(None).unwrap();
    let opt = InvokeOpt::with_request(Request::Write {
        shard_id: 10,
        puts: vec![],
        deletes: vec![],
    });
    match client.apply_status(Error::Transport("reset".to_owned()), &opt) {
        Err(Error::Transport(_)) => {}
        other => panic!("expected the transport fault to surface, got {other:?}"),
    }
    assert_eq!(client.epoch, 5);
}

#[test]
fn transport_error_on_read_is_retried() {
    let mut client = GroupClient::new(three_replica_state(5, Some((1, 6))));
    client.begin_invoke(None).unwrap();
    client.note_connected(1);
    let opt = InvokeOpt::with_request(Request::Get { shard_id: 10, user_key: b"a".to_vec() });
    assert!(client.apply_status(Error::Transport("reset".to_owned()), &opt).is_ok());
    assert_eq!(client.access_node_id, None);
}

#[test]
fn transport_error_with_opt_in_is_retried_for_writes() {
    let mut client = GroupClient::new(three_replica_state(5, Some((1, 6))));
    client.begin_invoke(None).unwrap();
    let mut opt = InvokeOpt::with_request(Request::Write {
        shard_id: 10,
        puts: vec![],
        deletes: vec![],
    });
    opt.ignore_transport_error = true;
    assert!(client.apply_status(Error::Transport("reset".to_owned()), &opt).is_ok());
}

#[test]
fn accurate_epoch_surfaces_epoch_not_match() {
    let mut client = GroupClient::new(three_replica_state(5, Some((1, 6))));
    client.begin_invoke(None).unwrap();
    let desc = group_desc(9, vec![shard(10, b"", b"z")]);
    let opt = InvokeOpt::accurate_idempotent();
    match client.apply_status(Error::EpochNotMatch(desc), &opt) {
        Err(Error::EpochNotMatch(d)) => assert_eq!(d.epoch, 9),
        other => panic!("expected EpochNotMatch to surface, got {other:?}"),
    }
    assert_eq!(client.epoch, 5);
}

#[test]
fn business_errors_are_surfaced_unchanged() {
    let mut client = GroupClient::new(three_replica_state(5, Some((1, 6))));
    client.begin_invoke(None).unwrap();
    let opt = InvokeOpt::plain();
    assert!(matches!(
        client.apply_status(Error::TxnConflict, &opt),
        Err(Error::TxnConflict)
    ));
    assert!(matches!(
        client.apply_status(Error::CasFailed(0, 1, None), &opt),
        Err(Error::CasFailed(0, 1, None))
    ));
    assert!(matches!(
        client.apply_status(Error::InvalidArgument("bad".to_owned()), &opt),
        Err(Error::InvalidArgument(_))
    ));
    assert_eq!(client.epoch, 5);
}

#[test]
fn group_not_found_clears_sticky_node_and_recovers() {
    let mut client = GroupClient::new(three_replica_state(5, Some((1, 6))));
    client.begin_invoke(None).unwrap();
    client.note_connected(1);
    let opt = InvokeOpt::plain();
    assert!(client.apply_status(Error::GroupNotFound(1), &opt).is_ok());
    assert_eq!(client.access_node_id, None);
}

#[test]
fn not_leader_with_unknown_replica_appends_it() {
    // The reported leader lives on a node absent from the cached replicas.
    let mut client = GroupClient::new(three_replica_state(5, Some((1, 6))));
    client.begin_invoke(None).unwrap();
    let opt = InvokeOpt::plain();
    let fresh = replica(9, 9);
    assert!(client.apply_status(Error::NotLeader(1, 8, Some(fresh)), &opt).is_ok());
    assert_eq!(client.replicas.len(), 4);
    assert_eq!(client.replicas[0].node_id, 9);
    assert_eq!(client.leader_state, Some((9, 8)));
    assert_eq!(client.access_node_id, Some(9));
}

#[test]
fn repeated_not_leader_settles() {
    let mut client = GroupClient::new(three_replica_state(5, Some((1, 6))));
    client.begin_invoke(None).unwrap();
    let opt = InvokeOpt::plain();
    assert!(client.apply_status(Error::NotLeader(1, 7, Some(replica(2, 2))), &opt).is_ok());
    let leader_after_once = client.leader_state;
    let order_after_once: Vec<u64> = client.replicas.iter().map(|r| r.node_id).collect();
    assert!(client.apply_status(Error::NotLeader(1, 7, Some(replica(2, 2))), &opt).is_ok());
    assert_eq!(client.leader_state, leader_after_once);
    let order_after_twice: Vec<u64> = client.replicas.iter().map(|r| r.node_id).collect();
    assert_eq!(order_after_twice, order_after_once);
    assert_eq!(client.epoch, 5);
}

#[test]
fn epoch_adoption_is_insensitive_to_repetition() {
    // Adopting the same descriptor from any older epoch lands on its epoch.
    for start_epoch in [1, 4, 8] {
        let mut client = GroupClient::new(three_replica_state(start_epoch, Some((1, 6))));
        client.begin_invoke(None).unwrap();
        client.note_connected(1);
        let desc = group_desc(9, vec![shard(10, b"", b"z")]);
        let opt = InvokeOpt::with_request(Request::Get { shard_id: 10, user_key: b"a".to_vec() });
        assert!(client.apply_status(Error::EpochNotMatch(desc), &opt).is_ok());
        assert_eq!(client.epoch, 9);
        assert_eq!(client.next_access_index, 1);
    }
}
