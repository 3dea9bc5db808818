use sekas_client::data::GroupDesc;
use sekas_client::group_client::{is_executable, is_target_shard_exists};
use sekas_client::request::{DeleteRequest, IntentWrite, PutRequest, Request, is_read_only_request};
use sekas_client::shard::{
    belong_to, bytes_eq, bytes_le, bytes_lt, choose_split_key, RangePartition, ShardDesc,
    SplitKeyFault,
};

fn shard(id: u64, start: &[u8], end: &[u8]) -> ShardDesc {
    ShardDesc {
        id,
        table_id: 3,
        range: RangePartition { start: start.to_vec(), end: end.to_vec() },
    }
}

fn desc(shards: Vec<ShardDesc>) -> GroupDesc {
    GroupDesc { id: 1, epoch: 8, replicas: vec![], shards }
}

#[test]
fn byte_order_is_lexicographic() {
    assert!(bytes_lt(b"a", b"b"));
    assert!(bytes_lt(b"a", b"ab"));
    assert!(!bytes_lt(b"ab", b"a"));
    assert!(!bytes_lt(b"a", b"a"));
    assert!(bytes_lt(b"", b"a"));
    assert!(bytes_le(b"a", b"a"));
    assert!(bytes_le(b"", b""));
    assert!(!bytes_le(b"b", b"a"));
    assert!(bytes_eq(b"abc", b"abc"));
    assert!(!bytes_eq(b"abc", b"abd"));
    assert!(!bytes_eq(b"ab", b"abc"));
}

#[test]
fn range_is_half_open() {
    let s = shard(10, b"a", b"k");
    // The start key belongs to the shard, the end key does not.
    assert!(belong_to(&s, b"a"));
    assert!(belong_to(&s, b"j"));
    assert!(!belong_to(&s, b"k"));
    assert!(!belong_to(&s, b"z"));
    // An empty end is unbounded on the right.
    let open = shard(10, b"a", b"");
    assert!(belong_to(&open, b"zzzz"));
    assert!(!belong_to(&open, b"Z")); // "Z" < "a"
    // An empty start is unbounded on the left.
    let full = shard(10, b"", b"");
    assert!(belong_to(&full, b""));
    assert!(belong_to(&full, b"anything"));
}

#[test]
fn read_only_classification() {
    assert!(is_read_only_request(&Request::Get { shard_id: 1, user_key: vec![] }));
    assert!(is_read_only_request(&Request::Scan { shard_id: 1, prefix: vec![] }));
    assert!(!is_read_only_request(&Request::Write {
        shard_id: 1,
        puts: vec![],
        deletes: vec![],
    }));
    assert!(!is_read_only_request(&Request::CommitIntent { shard_id: 1, user_key: vec![] }));
}

#[test]
fn target_shard_lookup_checks_id_and_range() {
    let d = desc(vec![shard(10, b"", b"k"), shard(11, b"k", b"z")]);
    assert!(is_target_shard_exists(&d, 10, b"a"));
    assert!(!is_target_shard_exists(&d, 10, b"m"));
    assert!(is_target_shard_exists(&d, 11, b"m"));
    assert!(!is_target_shard_exists(&d, 12, b"a"));
}

#[test]
fn get_is_executable_iff_its_key_is_covered() {
    let d = desc(vec![shard(10, b"", b"z")]);
    assert!(is_executable(&d, &Request::Get { shard_id: 10, user_key: b"m".to_vec() }));
    assert!(!is_executable(&d, &Request::Get { shard_id: 10, user_key: b"z".to_vec() }));
    assert!(!is_executable(&d, &Request::Get { shard_id: 11, user_key: b"m".to_vec() }));
}

#[test]
fn batch_write_needs_every_key_covered() {
    let d = desc(vec![shard(10, b"a", b"k")]);
    let ok = Request::Write {
        shard_id: 10,
        puts: vec![PutRequest { key: b"b".to_vec(), value: vec![] }],
        deletes: vec![DeleteRequest { key: b"c".to_vec() }],
    };
    assert!(is_executable(&d, &ok));
    let partly_out = Request::Write {
        shard_id: 10,
        puts: vec![PutRequest { key: b"b".to_vec(), value: vec![] }],
        deletes: vec![DeleteRequest { key: b"k".to_vec() }],
    };
    assert!(!is_executable(&d, &partly_out));
    let empty = Request::Write { shard_id: 10, puts: vec![], deletes: vec![] };
    assert!(is_executable(&d, &empty));
}

#[test]
fn write_intent_follows_its_single_write() {
    let d = desc(vec![shard(10, b"a", b"k")]);
    let put = Request::WriteIntent {
        shard_id: 10,
        write: Some(IntentWrite::Put(PutRequest { key: b"b".to_vec(), value: vec![] })),
    };
    assert!(is_executable(&d, &put));
    let delete = Request::WriteIntent {
        shard_id: 10,
        write: Some(IntentWrite::Delete(DeleteRequest { key: b"z".to_vec() })),
    };
    assert!(!is_executable(&d, &delete));
    let none = Request::WriteIntent { shard_id: 10, write: None };
    assert!(!is_executable(&d, &none));
}

#[test]
fn intent_maintenance_uses_their_key() {
    let d = desc(vec![shard(10, b"a", b"k")]);
    assert!(is_executable(&d, &Request::CommitIntent { shard_id: 10, user_key: b"b".to_vec() }));
    assert!(!is_executable(&d, &Request::ClearIntent { shard_id: 10, user_key: b"k".to_vec() }));
}

#[test]
fn keyless_requests_are_never_re_routable() {
    let d = desc(vec![shard(10, b"", b"")]);
    assert!(!is_executable(&d, &Request::Scan { shard_id: 10, prefix: vec![] }));
    assert!(!is_executable(&d, &Request::Transfer { dest_replica: 2 }));
    assert!(!is_executable(&d, &Request::MergeShard { left_shard_id: 1, right_shard_id: 2 }));
}

#[test]
fn split_key_choice_validates_and_falls_back() {
    let s = shard(10, b"a", b"k");
    assert_eq!(choose_split_key(&s, Some(b"c".to_vec()), None), Ok(b"c".to_vec()));
    assert_eq!(
        choose_split_key(&s, Some(b"z".to_vec()), Some(b"c".to_vec())),
        Err(SplitKeyFault::OutOfRange)
    );
    assert_eq!(choose_split_key(&s, None, Some(b"e".to_vec())), Ok(b"e".to_vec()));
    assert_eq!(choose_split_key(&s, None, None), Err(SplitKeyFault::NoEstimate));
}

#[test]
fn first_matching_shard_decides() {
    // Two shards with the same id: the first one is consulted.
    let d = desc(vec![shard(10, b"a", b"b"), shard(10, b"", b"")]);
    assert!(!is_target_shard_exists(&d, 10, b"z"));
    assert!(is_target_shard_exists(&d, 10, b"a"));
}
