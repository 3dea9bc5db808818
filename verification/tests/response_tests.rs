use sekas_client::data::ScheduleState;
use sekas_client::error::Error;
use sekas_client::migrate::{setup_migration_surfaces, RetryState, INITIAL_RETRY_BACKOFF_MS,
    MAX_RETRY_BACKOFF_MS};
use sekas_client::report::{batch_has_room, next_report_interval, GroupUpdate};
use sekas_client::response::{
    expect_create_shard, expect_transfer, expect_watch_key, extract_move_replicas, group_response,
    GroupResponse, GroupResponseUnion, Response, ResponseFault,
};
use sekas_client::snapshot::snapshot_file_meta;
use sekas_client::data::{GroupDesc, RaftRole, ReplicaState};

fn envelope(inner: Option<Response>, error: Option<Vec<u8>>) -> GroupResponse {
    GroupResponse { response: Some(GroupResponseUnion { response: inner }), error }
}

#[test]
fn envelope_with_response_unwraps() {
    let resp = envelope(Some(Response::Transfer { payload: vec![] }), None);
    assert!(matches!(group_response(resp), Ok(Response::Transfer { .. })));
}

#[test]
fn envelope_with_error_bytes_repackages_them() {
    let resp = envelope(None, Some(vec![1, 2, 3]));
    match group_response(resp) {
        Err(ResponseFault::ErrorBytes(bytes)) => assert_eq!(bytes, vec![1, 2, 3]),
        other => panic!("expected the error bytes, got {other:?}"),
    }
}

#[test]
fn empty_envelope_is_corrupted() {
    let resp = GroupResponse { response: None, error: None };
    assert!(matches!(group_response(resp), Err(ResponseFault::Corrupted)));
    let resp = envelope(None, None);
    assert!(matches!(group_response(resp), Err(ResponseFault::Corrupted)));
}

#[test]
fn variant_checks_accept_only_their_kind() {
    assert!(expect_create_shard(Response::CreateShard { payload: vec![] }).is_ok());
    assert!(matches!(
        expect_create_shard(Response::Transfer { payload: vec![] }),
        Err(Error::Internal(_))
    ));
    assert!(expect_transfer(Response::Transfer { payload: vec![] }).is_ok());
    assert!(matches!(
        expect_transfer(Response::MergeShard { payload: vec![] }),
        Err(Error::Internal(_))
    ));
    assert_eq!(expect_watch_key(Response::WatchKey { payload: vec![9] }).unwrap(), vec![9]);
    assert!(matches!(
        expect_watch_key(Response::Get { payload: vec![] }),
        Err(Error::Internal(_))
    ));
}

#[test]
fn move_replicas_needs_its_schedule_state() {
    let state = ScheduleState { payload: vec![7] };
    let ok = Response::MoveReplicas { schedule_state: Some(state) };
    assert_eq!(extract_move_replicas(ok).unwrap().payload, vec![7]);
    let missing = Response::MoveReplicas { schedule_state: None };
    assert!(matches!(extract_move_replicas(missing), Err(Error::Internal(_))));
    let wrong = Response::Write { payload: vec![] };
    assert!(matches!(extract_move_replicas(wrong), Err(Error::Internal(_))));
}

#[test]
fn setup_migration_surfaces_only_epoch_not_match() {
    let desc = GroupDesc { id: 1, epoch: 2, replicas: vec![], shards: vec![] };
    assert!(setup_migration_surfaces(&Error::EpochNotMatch(desc)));
    assert!(!setup_migration_surfaces(&Error::TxnConflict));
    assert!(!setup_migration_surfaces(&Error::Transport("reset".to_owned())));
    assert!(!setup_migration_surfaces(&Error::GroupNotAccessible(1)));
}

#[test]
fn retry_backoff_doubles_and_caps() {
    let mut retry = RetryState::new(None);
    assert_eq!(retry.timeout_ms, None);
    let mut backoffs = Vec::new();
    for _ in 0..10 {
        backoffs.push(retry.next_backoff());
    }
    assert_eq!(backoffs[0], INITIAL_RETRY_BACKOFF_MS);
    assert_eq!(backoffs[1], 2 * INITIAL_RETRY_BACKOFF_MS);
    assert!(backoffs.iter().all(|b| *b <= MAX_RETRY_BACKOFF_MS));
    assert_eq!(*backoffs.last().unwrap(), MAX_RETRY_BACKOFF_MS);
}

#[test]
fn report_updates_set_one_facet() {
    let state = ReplicaState { replica_id: 1, group_id: 2, term: 3, voted_for: 1, role: RaftRole::Leader };
    let update = GroupUpdate::for_replica_state(2, state);
    assert_eq!(update.group_id, 2);
    assert!(update.replica_state.is_some());
    assert!(update.group_desc.is_none());
    assert!(update.schedule_state.is_none());
    let desc = GroupDesc { id: 2, epoch: 1, replicas: vec![], shards: vec![] };
    let update = GroupUpdate::for_group_descriptor(2, desc);
    assert!(update.group_desc.is_some());
    let update = GroupUpdate::for_schedule_state(2, ScheduleState { payload: vec![] });
    assert!(update.schedule_state.is_some());
}

#[test]
fn report_batching_and_backoff() {
    assert!(batch_has_room(0));
    assert!(batch_has_room(32767));
    assert!(!batch_has_room(32768));
    assert_eq!(next_report_interval(1), 2);
    assert_eq!(next_report_interval(32), 64);
    assert_eq!(next_report_interval(64), 120);
    assert_eq!(next_report_interval(120), 120);
}

#[test]
fn snapshot_meta_records_name_size_and_checksum() {
    let data = b"123456789".to_vec();
    let meta = snapshot_file_meta("DATA", &data);
    assert_eq!(meta.name, "DATA");
    assert_eq!(meta.size, 9);
    // The well-known CRC-32 check value of "123456789".
    assert_eq!(meta.crc32, 0xcbf4_3926);
    let nested = snapshot_file_meta("000042.sst", &data);
    assert_eq!(nested.name, "DATA/000042.sst");
    let empty = snapshot_file_meta("DATA", &Vec::new());
    assert_eq!(empty.size, 0);
    assert_eq!(empty.crc32, crc32fast::hash(b""));
}
