use sekas_client::data::{
    DatabaseDesc, GroupDesc, NodeDesc, RaftRole, ReplicaDesc, ReplicaRole, ReplicaState, TableDesc,
};
use sekas_client::stmt::{config_result, join_comma, show_tables_result, statement_handled_by_root};
use sekas_client::ast::{ConfigStatement, ShowStatement, Statement};
use sekas_client::text::sort_strings;
use sekas_client::schema::{
    collection_key, data_key, decode_meta_id, distinct_node_ids, group_states_of, replica_key,
    PutBatchBuilder, ReplicaNodes, SYSTEM_GROUP_COLLECTION_ID,
};
use sekas_client::shard::{RangePartition, ShardDesc};
use sekas_client::stmt::{
    classify_show_property, config_epoch, group_replicas_result, group_shards_result,
    missing_database_result, shard_epoch, show_databases_result, show_groups_result,
    show_replicas_target, show_shards_target, unknown_property_result, ShowProperty,
};
use sekas_client::ast::{CellValue, ExecuteResult};

#[test]
fn data_key_prefixes_the_collection_id() {
    let key = data_key(0x0102, b"k");
    let mut expected = 0x0102u64.to_le_bytes().to_vec();
    expected.push(b'k');
    assert_eq!(key, expected);
}

#[test]
fn collection_key_is_database_id_then_name() {
    let key = collection_key(7, "orders");
    let mut expected = 7u64.to_le_bytes().to_vec();
    expected.extend_from_slice(b"orders");
    assert_eq!(key, expected);
}

#[test]
fn replica_key_is_group_then_replica() {
    let key = replica_key(3, 9);
    let mut expected = 3u64.to_le_bytes().to_vec();
    expected.extend_from_slice(&9u64.to_le_bytes());
    assert_eq!(key, expected);
}

#[test]
fn meta_ids_decode_only_from_eight_bytes() {
    assert_eq!(decode_meta_id(&42u64.to_le_bytes().to_vec()), Some(42));
    assert_eq!(decode_meta_id(&vec![1, 2, 3]), None);
    assert_eq!(decode_meta_id(&vec![]), None);
}

#[test]
fn batch_builder_places_entries_under_their_collections() {
    let mut batch = PutBatchBuilder::new();
    assert!(batch.is_empty());
    batch.put_group(5, b"G".to_vec());
    batch.put_meta(b"cluster_id".to_vec(), b"C".to_vec());
    assert!(!batch.is_empty());
    let puts = batch.build();
    assert_eq!(puts.len(), 2);
    let mut group_key = SYSTEM_GROUP_COLLECTION_ID.to_le_bytes().to_vec();
    group_key.extend_from_slice(&5u64.to_le_bytes());
    assert_eq!(puts[0].key, group_key);
    assert_eq!(puts[0].value, b"G".to_vec());
    assert_eq!(puts[1].value, b"C".to_vec());
}

fn state(group_id: u64, replica_id: u64, role: RaftRole) -> ReplicaState {
    ReplicaState { replica_id, group_id, term: 1, voted_for: replica_id, role }
}

#[test]
fn group_states_fold_tracks_leaders_and_replicas() {
    let reports = vec![
        state(1, 10, RaftRole::Follower),
        state(1, 11, RaftRole::Leader),
        state(2, 20, RaftRole::Leader),
        // The old leader of group 1 steps down.
        state(1, 11, RaftRole::Follower),
    ];
    let groups = group_states_of(&reports);
    assert_eq!(groups.len(), 2);
    let g1 = &groups[0];
    assert_eq!(g1.group_id, 1);
    assert_eq!(g1.leader_id, None);
    assert_eq!(g1.replicas.len(), 2);
    // The replacement keeps one state per replica, the newest last.
    assert_eq!(g1.replicas[1].replica_id, 11);
    assert_eq!(g1.replicas[1].role, RaftRole::Follower);
    let g2 = &groups[1];
    assert_eq!(g2.group_id, 2);
    assert_eq!(g2.leader_id, Some(20));
}

#[test]
fn group_states_fold_replaces_stale_reports() {
    let reports = vec![
        state(1, 10, RaftRole::Candidate),
        state(1, 10, RaftRole::Leader),
    ];
    let groups = group_states_of(&reports);
    assert_eq!(groups.len(), 1);
    assert_eq!(groups[0].replicas.len(), 1);
    assert_eq!(groups[0].leader_id, Some(10));
    assert_eq!(groups[0].replicas[0].role, RaftRole::Leader);
}

fn replica(id: u64, node_id: u64) -> ReplicaDesc {
    ReplicaDesc { id, node_id, role: ReplicaRole::Voter }
}

#[test]
fn distinct_node_ids_keeps_first_appearance_order() {
    let replicas = vec![replica(1, 5), replica(2, 3), replica(3, 5), replica(4, 1)];
    assert_eq!(distinct_node_ids(&replicas), vec![5, 3, 1]);
}

#[test]
fn replica_nodes_move_first_swaps() {
    let mut nodes = ReplicaNodes(vec![
        NodeDesc { id: 1, addr: "a".to_owned() },
        NodeDesc { id: 2, addr: "b".to_owned() },
        NodeDesc { id: 3, addr: "c".to_owned() },
    ]);
    nodes.move_first(3);
    assert_eq!(nodes.0[0].id, 3);
    assert_eq!(nodes.0[1].id, 2);
    assert_eq!(nodes.0[2].id, 1);
    // A missing id changes nothing.
    nodes.move_first(9);
    assert_eq!(nodes.0[0].id, 3);
}

#[test]
fn epoch_halves_split_at_bit_thirty_two() {
    let epoch = (7u64 << 32) | 13;
    assert_eq!(shard_epoch(epoch), 7);
    assert_eq!(config_epoch(epoch), 13);
    assert_eq!(shard_epoch(13), 0);
    assert_eq!(config_epoch(u64::MAX), 0xffff_ffff);
}

#[test]
fn show_property_dispatch() {
    assert_eq!(classify_show_property("databases"), ShowProperty::Databases);
    assert_eq!(classify_show_property("tables"), ShowProperty::Tables);
    assert_eq!(classify_show_property("groups"), ShowProperty::Groups);
    assert_eq!(classify_show_property("replicas"), ShowProperty::Replicas);
    assert_eq!(classify_show_property("shards"), ShowProperty::Shards);
    assert_eq!(classify_show_property("nodes"), ShowProperty::Other);
    match unknown_property_result("nodes") {
        ExecuteResult::Msg(m) => assert_eq!(m, "unknown property: nodes"),
        other => panic!("expected a message, got {other:?}"),
    }
}

#[test]
fn show_databases_renders_rows() {
    let dbs = vec![
        DatabaseDesc { id: 1, name: "a".to_owned() },
        DatabaseDesc { id: 2, name: "b".to_owned() },
    ];
    match show_databases_result(&None, &dbs) {
        ExecuteResult::Data(c) => {
            assert_eq!(c.columns, vec!["id".to_owned(), "name".to_owned()]);
            assert_eq!(c.rows.len(), 2);
            assert!(matches!(c.rows[0].values[0], CellValue::U64(1)));
            match &c.rows[1].values[1] {
                CellValue::Text(name) => assert_eq!(name, "b"),
                other => panic!("expected a name, got {other:?}"),
            }
        }
        other => panic!("expected data, got {other:?}"),
    }
    match show_databases_result(&Some("x".to_owned()), &dbs) {
        ExecuteResult::Msg(m) => {
            assert_eq!(m, "FROM clause is not required by 'databases' property")
        }
        other => panic!("expected a message, got {other:?}"),
    }
}

#[test]
fn show_groups_renders_split_epochs() {
    let groups = vec![GroupDesc {
        id: 4,
        epoch: (9u64 << 32) | 2,
        replicas: vec![replica(1, 1)],
        shards: vec![],
    }];
    match show_groups_result(&None, &groups) {
        ExecuteResult::Data(c) => {
            assert_eq!(c.columns.len(), 5);
            let row = &c.rows[0];
            assert!(matches!(row.values[0], CellValue::U64(4)));
            assert!(matches!(row.values[1], CellValue::U64(9)));
            assert!(matches!(row.values[2], CellValue::U64(2)));
            assert!(matches!(row.values[3], CellValue::U64(1)));
            assert!(matches!(row.values[4], CellValue::U64(0)));
        }
        other => panic!("expected data, got {other:?}"),
    }
}

#[test]
fn show_replicas_and_shards_need_a_numeric_from() {
    assert!(matches!(show_replicas_target(&None), Err(ExecuteResult::Msg(_))));
    assert!(matches!(show_shards_target(&None), Err(ExecuteResult::Msg(_))));
    match show_replicas_target(&Some("x".to_owned())) {
        Err(ExecuteResult::Msg(m)) => {
            assert_eq!(m, "The value of FROM clause is not a valid u64 numeric")
        }
        other => panic!("expected a message, got {other:?}"),
    }
    assert_eq!(show_replicas_target(&Some("12".to_owned())).unwrap(), 12);
    assert_eq!(show_shards_target(&Some("3".to_owned())).unwrap(), 3);
}

#[test]
fn per_group_listings_render_rows() {
    let group = GroupDesc {
        id: 4,
        epoch: 1,
        replicas: vec![replica(7, 2)],
        shards: vec![ShardDesc {
            id: 10,
            table_id: 6,
            range: RangePartition { start: b"a".to_vec(), end: b"k".to_vec() },
        }],
    };
    match group_replicas_result(&group) {
        ExecuteResult::Data(c) => {
            assert_eq!(c.columns, vec!["id".to_owned(), "node_id".to_owned(), "role".to_owned()]);
            let row = &c.rows[0];
            assert!(matches!(row.values[0], CellValue::U64(7)));
            assert!(matches!(row.values[1], CellValue::U64(2)));
            assert!(matches!(row.values[2], CellValue::U64(0)));
        }
        other => panic!("expected data, got {other:?}"),
    }
    match group_shards_result(&group) {
        ExecuteResult::Data(c) => {
            let row = &c.rows[0];
            assert!(matches!(row.values[0], CellValue::U64(10)));
            assert!(matches!(row.values[1], CellValue::U64(6)));
            match (&row.values[2], &row.values[3]) {
                (CellValue::Bytes(start), CellValue::Bytes(end)) => {
                    assert_eq!(start, b"a");
                    assert_eq!(end, b"k");
                }
                other => panic!("expected range bytes, got {other:?}"),
            }
        }
        other => panic!("expected data, got {other:?}"),
    }
}

#[test]
fn root_executes_only_cluster_statements() {
    let show = Statement::Show(ShowStatement { property: "groups".to_owned(), from: None });
    assert!(statement_handled_by_root(&show));
    let config = Statement::Config(ConfigStatement {
        key: b"k".to_vec().into_boxed_slice(),
        value: b"v".to_vec().into_boxed_slice(),
    });
    assert!(statement_handled_by_root(&config));
    let help = Statement::Help(sekas_client::ast::HelpStatement { topic: None });
    assert!(!statement_handled_by_root(&help));
    match config_result() {
        ExecuteResult::Msg(m) => assert_eq!(m, "the CONFIG statement is not supported yet"),
        other => panic!("expected a message, got {other:?}"),
    }
}

#[test]
fn sort_strings_orders_bytewise() {
    let mut v: Vec<String> = ["pear", "apple", "Pear", "apple", "fig"]
        .into_iter()
        .map(str::to_owned)
        .collect();
    sort_strings(&mut v);
    assert_eq!(v, vec!["Pear", "apple", "apple", "fig", "pear"]);
    let mut empty: Vec<String> = Vec::new();
    sort_strings(&mut empty);
    assert!(empty.is_empty());
}

#[test]
fn join_comma_separates_items() {
    assert_eq!(join_comma(&Vec::new()), "");
    assert_eq!(join_comma(&vec!["a".to_owned()]), "a");
    assert_eq!(join_comma(&vec!["a".to_owned(), "b".to_owned(), "c".to_owned()]), "a, b, c");
}

#[test]
fn show_tables_folds_and_sorts_properties() {
    let tables = vec![TableDesc {
        id: 11,
        name: "orders".to_owned(),
        properties: vec![
            ("zeta".to_owned(), "2".to_owned()),
            ("replication".to_owned(), "majority".to_owned()),
            ("alpha".to_owned(), "1".to_owned()),
            ("table_type".to_owned(), "user".to_owned()),
            ("replicas_per_group".to_owned(), "3".to_owned()),
        ],
    }];
    match show_tables_result(&tables) {
        ExecuteResult::Data(c) => {
            assert_eq!(c.columns.len(), 6);
            assert_eq!(c.columns[2], "type");
            let row = &c.rows[0];
            assert!(matches!(row.values[0], CellValue::U64(11)));
            match (&row.values[2], &row.values[3], &row.values[4], &row.values[5]) {
                (
                    CellValue::Text(kind),
                    CellValue::Text(replication),
                    CellValue::Text(per_group),
                    CellValue::Text(props),
                ) => {
                    assert_eq!(kind, "user");
                    assert_eq!(replication, "majority");
                    assert_eq!(per_group, "3");
                    assert_eq!(props, "alpha:1, zeta:2");
                }
                other => panic!("expected text cells, got {other:?}"),
            }
        }
        other => panic!("expected data, got {other:?}"),
    }
}

#[test]
fn missing_database_message_names_it() {
    match missing_database_result("shop") {
        ExecuteResult::Msg(m) => assert_eq!(m, "database 'shop' is not exists"),
        other => panic!("expected a message, got {other:?}"),
    }
}
