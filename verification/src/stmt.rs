//! Execution of `SHOW` statements against the catalog.
//!
//! The driver parses the statement, fetches the catalog records it names,
//! and renders them here into tabular results: databases, groups with
//! their split epochs, replicas and shards. Fetching is outside; every
//! rendering and dispatch decision is made here.

use vstd::prelude::*;
use crate::ast::{CellValue, ColumnResult, ExecuteResult, Row};
use crate::data::{DatabaseDesc, GroupDesc, TableDesc};
use crate::text::{
    parse_u64, sort_strings, sorted_strings, spec_parse_u64, str_eq, views_of_strings,
};
use vstd::string::StringSliceAdditionalSpecFns;

verus! {

/// Which catalog listing a `SHOW` statement asks for.
#[derive(Clone, Copy, Debug, PartialEq, Eq, Structural)]
pub enum ShowProperty {
    Databases,
    Tables,
    Groups,
    Replicas,
    Shards,
    Other,
}

/// Dispatches a `SHOW` statement's property name.
pub fn classify_show_property(property: &str) -> (r: ShowProperty)
    ensures
        r == ShowProperty::Databases <==> property@ == "databases"@,
        r == ShowProperty::Tables <==> property@ == "tables"@,
        r == ShowProperty::Groups <==> property@ == "groups"@,
        r == ShowProperty::Replicas <==> property@ == "replicas"@,
        r == ShowProperty::Shards <==> property@ == "shards"@,
    {
    proof {
        reveal_strlit("databases");
        reveal_strlit("tables");
        reveal_strlit("groups");
        reveal_strlit("replicas");
        reveal_strlit("shards");
        assert("tables"@[0] == 't' && "groups"@[0] == 'g' && "shards"@[0] == 's');
        assert("databases"@.len() == 9 && "tables"@.len() == 6 && "groups"@.len() == 6
            && "replicas"@.len() == 8 && "shards"@.len() == 6);
        assert("tables"@ != "groups"@ && "tables"@ != "shards"@ && "groups"@ != "shards"@);
    }
    if str_eq(property, "databases") {
        ShowProperty::Databases
    } else if str_eq(property, "tables") {
        ShowProperty::Tables
    } else if str_eq(property, "groups") {
        ShowProperty::Groups
    } else if str_eq(property, "replicas") {
        ShowProperty::Replicas
    } else if str_eq(property, "shards") {
        ShowProperty::Shards
    } else {
        ShowProperty::Other
    }
}

/// The answer for a property the catalog does not know.
pub fn unknown_property_result(property: &str) -> (r: ExecuteResult)
    ensures
        r matches ExecuteResult::Msg(m) && m@ == "unknown property: "@ + property@,
{
    let mut msg = String::from_str("unknown property: ");
    msg.append(property);
    ExecuteResult::Msg(msg)
}

/// The root service executes only cluster statements; everything else
/// runs locally in the shell and is rejected when it reaches the root.
pub fn statement_handled_by_root(stmt: &crate::ast::Statement) -> (r: bool)
    ensures
        r == (stmt is Config || stmt is Show),
{
    matches!(stmt, crate::ast::Statement::Config(_) | crate::ast::Statement::Show(_))
}

/// The answer for a `CONFIG` statement, which the root does not support
/// yet.
pub fn config_result() -> (r: ExecuteResult)
    ensures
        r matches ExecuteResult::Msg(m) && m@ == "the CONFIG statement is not supported yet"@,
{
    ExecuteResult::Msg("the CONFIG statement is not supported yet".to_owned())
}

/// The shard half of a group's epoch: it advances when the shard set
/// changes.
pub fn shard_epoch(epoch: u64) -> (r: u64)
    ensures
        r == epoch >> 32,
{
    epoch >> 32
}

/// The configuration half of a group's epoch: it advances when the
/// replica set changes.
pub fn config_epoch(epoch: u64) -> (r: u64)
    ensures
        r == epoch & 0xffff_ffff,
{
    epoch & 0xffff_ffff
}

/// One row of the databases listing: the id and the name.
pub open spec fn spec_database_row(row: Row, db: DatabaseDesc) -> bool {
    &&& row.values@.len() == 2
    &&& row.values@[0] == CellValue::U64(db.id)
    &&& row.values@[1] matches CellValue::Text(name) && name@ == db.name@
}

/// Lists the databases: their ids and names. A `FROM` clause does not
/// apply and is answered with a message.
pub fn show_databases_result(from: &Option<String>, databases: &Vec<DatabaseDesc>) -> (r:
    ExecuteResult)
    ensures
        from is Some ==> (r matches ExecuteResult::Msg(m) && m@
            == "FROM clause is not required by 'databases' property"@),
        from is None ==> (r matches ExecuteResult::Data(c) && {
            &&& c.columns@.len() == 2
            &&& c.columns@[0]@ == "id"@
            &&& c.columns@[1]@ == "name"@
            &&& c.rows@.len() == databases@.len()
            &&& forall|i: int|
                0 <= i < databases@.len() ==> spec_database_row(c.rows@[i], databases@[i])
        }),
{
    if from.is_some() {
        return ExecuteResult::Msg(
            "FROM clause is not required by 'databases' property".to_owned(),
        );
    }
    let mut columns: Vec<String> = Vec::new();
    columns.push("id".to_owned());
    columns.push("name".to_owned());
    let mut rows: Vec<Row> = Vec::new();
    let mut i: usize = 0;
    while i < databases.len()
        invariant
            i <= databases@.len(),
            rows@.len() == i,
            forall|j: int| 0 <= j < i ==> spec_database_row(rows@[j], databases@[j]),
        decreases databases@.len() - i,
    {
        let mut values: Vec<CellValue> = Vec::new();
        values.push(CellValue::U64(databases[i].id));
        values.push(CellValue::Text(databases[i].name.clone()));
        rows.push(Row { values });
        i = i + 1;
    }
    ExecuteResult::Data(ColumnResult { columns, rows })
}

/// One row of the groups listing: the id, the two epoch halves, and the
/// sizes of the replica and shard sets.
pub open spec fn spec_group_row(row: Row, group: GroupDesc) -> bool {
    &&& row.values@.len() == 5
    &&& row.values@[0] == CellValue::U64(group.id)
    &&& row.values@[1] == CellValue::U64(group.epoch >> 32)
    &&& row.values@[2] == CellValue::U64(group.epoch & 0xffff_ffff)
    &&& row.values@[3] == CellValue::U64(group.replicas@.len() as u64)
    &&& row.values@[4] == CellValue::U64(group.shards@.len() as u64)
}

/// Lists the groups: each with its shard epoch, its configuration epoch,
/// and how many replicas and shards it has. A `FROM` clause does not
/// apply.
pub fn show_groups_result(from: &Option<String>, groups: &Vec<GroupDesc>) -> (r: ExecuteResult)
    ensures
        from is Some ==> (r matches ExecuteResult::Msg(m) && m@
            == "FROM clause is not required by 'groups' property"@),
        from is None ==> (r matches ExecuteResult::Data(c) && {
            &&& c.columns@.len() == 5
            &&& c.columns@[0]@ == "id"@
            &&& c.columns@[1]@ == "shard_epoch"@
            &&& c.columns@[2]@ == "config_epoch"@
            &&& c.columns@[3]@ == "num_replicas"@
            &&& c.columns@[4]@ == "num_shards"@
            &&& c.rows@.len() == groups@.len()
            &&& forall|i: int| 0 <= i < groups@.len() ==> spec_group_row(c.rows@[i], groups@[i])
        }),
{
    if from.is_some() {
        return ExecuteResult::Msg("FROM clause is not required by 'groups' property".to_owned());
    }
    let mut columns: Vec<String> = Vec::new();
    columns.push("id".to_owned());
    columns.push("shard_epoch".to_owned());
    columns.push("config_epoch".to_owned());
    columns.push("num_replicas".to_owned());
    columns.push("num_shards".to_owned());
    let mut rows: Vec<Row> = Vec::new();
    let mut i: usize = 0;
    while i < groups.len()
        invariant
            i <= groups@.len(),
            rows@.len() == i,
            forall|j: int| 0 <= j < i ==> spec_group_row(rows@[j], groups@[j]),
        decreases groups@.len() - i,
    {
        let group = &groups[i];
        let mut values: Vec<CellValue> = Vec::new();
        values.push(CellValue::U64(group.id));
        values.push(CellValue::U64(shard_epoch(group.epoch)));
        values.push(CellValue::U64(config_epoch(group.epoch)));
        values.push(CellValue::U64(group.replicas.len() as u64));
        values.push(CellValue::U64(group.shards.len() as u64));
        rows.push(Row { values });
        i = i + 1;
    }
    ExecuteResult::Data(ColumnResult { columns, rows })
}

/// Reads the group id a `SHOW` of per-group records targets: the `FROM`
/// clause is required and must spell an unsigned number; either failure
/// is answered with a message instead.
fn show_target_group(from: &Option<String>, required_msg: &str) -> (r: Result<u64, ExecuteResult>)
    ensures
        from is None ==> (r matches Err(ExecuteResult::Msg(m)) && m@ == required_msg@),
        from matches Some(f) ==> match spec_parse_u64(vstd::utf8::encode_utf8(f@)) {
            Some(id) => r == Result::<u64, ExecuteResult>::Ok(id),
            None => (r matches Err(ExecuteResult::Msg(m)) && m@
                == "The value of FROM clause is not a valid u64 numeric"@),
        },
{
    match from {
        None => Err(ExecuteResult::Msg(required_msg.to_owned())),
        Some(f) => match parse_u64(f.as_str()) {
            Some(id) => Ok(id),
            None => Err(
                ExecuteResult::Msg("The value of FROM clause is not a valid u64 numeric".to_owned()),
            ),
        },
    }
}

/// Reads the target group of `SHOW replicas`.
pub fn show_replicas_target(from: &Option<String>) -> (r: Result<u64, ExecuteResult>)
    ensures
        from is None ==> (r matches Err(ExecuteResult::Msg(m)) && m@
            == "FROM clause is required by 'replicas' property"@),
        from matches Some(f) ==> match spec_parse_u64(vstd::utf8::encode_utf8(f@)) {
            Some(id) => r == Result::<u64, ExecuteResult>::Ok(id),
            None => (r matches Err(ExecuteResult::Msg(m)) && m@
                == "The value of FROM clause is not a valid u64 numeric"@),
        },
{
    show_target_group(from, "FROM clause is required by 'replicas' property")
}

/// Reads the target group of `SHOW shards`.
pub fn show_shards_target(from: &Option<String>) -> (r: Result<u64, ExecuteResult>)
    ensures
        from is None ==> (r matches Err(ExecuteResult::Msg(m)) && m@
            == "FROM clause is required by 'shards' property"@),
        from matches Some(f) ==> match spec_parse_u64(vstd::utf8::encode_utf8(f@)) {
            Some(id) => r == Result::<u64, ExecuteResult>::Ok(id),
            None => (r matches Err(ExecuteResult::Msg(m)) && m@
                == "The value of FROM clause is not a valid u64 numeric"@),
        },
{
    show_target_group(from, "FROM clause is required by 'shards' property")
}

/// One row of the replicas listing: the replica id, its node, and its
/// role code.
pub open spec fn spec_replica_row(row: Row, replica: crate::data::ReplicaDesc) -> bool {
    &&& row.values@.len() == 3
    &&& row.values@[0] == CellValue::U64(replica.id)
    &&& row.values@[1] == CellValue::U64(replica.node_id)
    &&& row.values@[2] == CellValue::U64(replica.role.spec_code())
}

/// Lists one group's replicas.
pub fn group_replicas_result(group: &GroupDesc) -> (r: ExecuteResult)
    ensures
        r matches ExecuteResult::Data(c) && {
            &&& c.columns@.len() == 3
            &&& c.columns@[0]@ == "id"@
            &&& c.columns@[1]@ == "node_id"@
            &&& c.columns@[2]@ == "role"@
            &&& c.rows@.len() == group.replicas@.len()
            &&& forall|i: int|
                0 <= i < group.replicas@.len() ==> spec_replica_row(c.rows@[i], group.replicas@[i])
        },
{
    let mut columns: Vec<String> = Vec::new();
    columns.push("id".to_owned());
    columns.push("node_id".to_owned());
    columns.push("role".to_owned());
    let mut rows: Vec<Row> = Vec::new();
    let mut i: usize = 0;
    while i < group.replicas.len()
        invariant
            i <= group.replicas@.len(),
            rows@.len() == i,
            forall|j: int| 0 <= j < i ==> spec_replica_row(rows@[j], group.replicas@[j]),
        decreases group.replicas@.len() - i,
    {
        let replica = &group.replicas[i];
        let mut values: Vec<CellValue> = Vec::new();
        values.push(CellValue::U64(replica.id));
        values.push(CellValue::U64(replica.node_id));
        values.push(CellValue::U64(replica.role.code()));
        rows.push(Row { values });
        i = i + 1;
    }
    ExecuteResult::Data(ColumnResult { columns, rows })
}

/// One row of the shards listing: the shard id, its table, and its
/// range bounds.
pub open spec fn spec_shard_row(row: Row, shard: crate::shard::ShardDesc) -> bool {
    &&& row.values@.len() == 4
    &&& row.values@[0] == CellValue::U64(shard.id)
    &&& row.values@[1] == CellValue::U64(shard.table_id)
    &&& row.values@[2] matches CellValue::Bytes(start) && start@ == shard.range.start@
    &&& row.values@[3] matches CellValue::Bytes(end) && end@ == shard.range.end@
}

/// Lists one group's shards with their key ranges.
pub fn group_shards_result(group: &GroupDesc) -> (r: ExecuteResult)
    ensures
        r matches ExecuteResult::Data(c) && {
            &&& c.columns@.len() == 4
            &&& c.columns@[0]@ == "id"@
            &&& c.columns@[1]@ == "table_id"@
            &&& c.columns@[2]@ == "start"@
            &&& c.columns@[3]@ == "end"@
            &&& c.rows@.len() == group.shards@.len()
            &&& forall|i: int|
                0 <= i < group.shards@.len() ==> spec_shard_row(c.rows@[i], group.shards@[i])
        },
{
    let mut columns: Vec<String> = Vec::new();
    columns.push("id".to_owned());
    columns.push("table_id".to_owned());
    columns.push("start".to_owned());
    columns.push("end".to_owned());
    let mut rows: Vec<Row> = Vec::new();
    let mut i: usize = 0;
    while i < group.shards.len()
        invariant
            i <= group.shards@.len(),
            rows@.len() == i,
            forall|j: int| 0 <= j < i ==> spec_shard_row(rows@[j], group.shards@[j]),
        decreases group.shards@.len() - i,
    {
        let shard = &group.shards[i];
        let mut values: Vec<CellValue> = Vec::new();
        values.push(CellValue::U64(shard.id));
        values.push(CellValue::U64(shard.table_id));
        values.push(CellValue::Bytes(copy_bytes(&shard.range.start)));
        values.push(CellValue::Bytes(copy_bytes(&shard.range.end)));
        rows.push(Row { values });
        i = i + 1;
    }
    ExecuteResult::Data(ColumnResult { columns, rows })
}

/// The joined rendering of a list of strings, separated by a comma and
/// a space.
pub open spec fn spec_join_comma(items: Seq<String>) -> Seq<char>
    decreases items.len(),
{
    if items.len() == 0 {
        Seq::<char>::empty()
    } else if items.len() == 1 {
        items[0]@
    } else {
        spec_join_comma(items.drop_last()) + ", "@ + items.last()@
    }
}

/// Joins strings with `", "` between them.
pub fn join_comma(items: &Vec<String>) -> (r: String)
    ensures
        r@ == spec_join_comma(items@),
{
    let mut out = String::new();
    let mut i: usize = 0;
    proof {
        assert(out@ =~= spec_join_comma(items@.take(0)));
    }
    while i < items.len()
        invariant
            i <= items@.len(),
            out@ == spec_join_comma(items@.take(i as int)),
        decreases items@.len() - i,
    {
        if i > 0 {
            out.append(", ");
        }
        out.append(items[i].as_str());
        proof {
            assert(items@.take(i + 1).drop_last() =~= items@.take(i as int));
            assert(items@.take(i + 1).last() == items@[i as int]);
            if i == 0 {
                assert(out@ =~= spec_join_comma(items@.take(1)));
            }
        }
        i = i + 1;
    }
    proof {
        assert(items@.take(i as int) =~= items@);
    }
    out
}

/// The property keys the table listing folds into dedicated columns.
pub open spec fn reserved_property_key(key: Seq<char>) -> bool {
    key == "replication"@ || key == "replicas_per_group"@ || key == "table_type"@
}

/// The rendering of one free-form property.
pub open spec fn spec_property_cell(key: Seq<char>, value: Seq<char>) -> Seq<char> {
    key + ":"@ + value
}

/// The renderings of a table's free-form properties, the dedicated
/// columns left out, in catalog order.
pub open spec fn spec_extra_properties(ps: Seq<(String, String)>) -> Seq<Seq<char>>
    decreases ps.len(),
{
    if ps.len() == 0 {
        Seq::<Seq<char>>::empty()
    } else {
        let rest = spec_extra_properties(ps.drop_last());
        if reserved_property_key(ps.last().0@) {
            rest
        } else {
            rest.push(spec_property_cell(ps.last().0@, ps.last().1@))
        }
    }
}

/// Renders the free-form properties of a table, one `key:value` string
/// each, keeping the catalog's order.
fn extra_properties(ps: &Vec<(String, String)>) -> (r: Vec<String>)
    ensures
        views_of_strings(r@) == spec_extra_properties(ps@),
{
    let mut out: Vec<String> = Vec::new();
    let mut i: usize = 0;
    proof {
        assert(views_of_strings(out@) =~= spec_extra_properties(ps@.take(0)));
    }
    while i < ps.len()
        invariant
            i <= ps@.len(),
            views_of_strings(out@) == spec_extra_properties(ps@.take(i as int)),
        decreases ps@.len() - i,
    {
        let ghost out_before = out@;
        proof {
            reveal_strlit("replication");
            reveal_strlit("replicas_per_group");
            reveal_strlit("table_type");
            assert(ps@.take(i + 1).drop_last() =~= ps@.take(i as int));
            assert(ps@.take(i + 1).last() == ps@[i as int]);
        }
        let (key, value) = &ps[i];
        let reserved = str_eq(key.as_str(), "replication") || str_eq(
            key.as_str(),
            "replicas_per_group",
        ) || str_eq(key.as_str(), "table_type");
        if !reserved {
            let mut cell = key.clone();
            cell.append(":");
            cell.append(value.as_str());
            out.push(cell);
            proof {
                crate::text::lemma_views_push(out_before, out@.last());
                assert(views_of_strings(out@) =~= spec_extra_properties(ps@.take(i + 1)));
            }
        }
        i = i + 1;
    }
    proof {
        assert(ps@.take(i as int) =~= ps@);
    }
    out
}

/// The value stored under `key`, or the empty string when the table has
/// no such property.
pub open spec fn spec_property_value(ps: Seq<(String, String)>, key: Seq<char>) -> Seq<char>
    decreases ps.len(),
{
    if ps.len() == 0 {
        Seq::<char>::empty()
    } else if ps[0].0@ == key {
        ps[0].1@
    } else {
        spec_property_value(ps.skip(1), key)
    }
}

/// Looks a property up by key, yielding the empty string when absent.
fn property_value(ps: &Vec<(String, String)>, key: &str) -> (r: String)
    ensures
        r@ == spec_property_value(ps@, key@),
{
    let mut i: usize = 0;
    proof {
        assert(ps@.skip(0) =~= ps@);
    }
    while i < ps.len()
        invariant
            i <= ps@.len(),
            spec_property_value(ps@, key@) == spec_property_value(ps@.skip(i as int), key@),
        decreases ps@.len() - i,
    {
        if str_eq(ps[i].0.as_str(), key) {
            return ps[i].1.clone();
        }
        proof {
            assert(ps@.skip(i as int).skip(1) =~= ps@.skip(i + 1));
        }
        i = i + 1;
    }
    proof {
        assert(ps@.skip(i as int) =~= Seq::<(String, String)>::empty());
    }
    String::new()
}

/// One row of the tables listing: the id, the name, the three dedicated
/// property columns, and the remaining properties rendered `key:value`,
/// sorted and joined.
pub open spec fn spec_table_row(row: Row, table: TableDesc) -> bool {
    &&& row.values@.len() == 6
    &&& row.values@[0] == CellValue::U64(table.id)
    &&& row.values@[1] matches CellValue::Text(n) && n@ == table.name@
    &&& row.values@[2] matches CellValue::Text(t) && t@ == spec_property_value(
        table.properties@,
        "table_type"@,
    )
    &&& row.values@[3] matches CellValue::Text(t) && t@ == spec_property_value(
        table.properties@,
        "replication"@,
    )
    &&& row.values@[4] matches CellValue::Text(t) && t@ == spec_property_value(
        table.properties@,
        "replicas_per_group"@,
    )
    &&& row.values@[5] matches CellValue::Text(t) && (exists|sorted: Seq<String>|
        {
            &&& views_of_strings(sorted).to_multiset() == spec_extra_properties(
                table.properties@,
            ).to_multiset()
            &&& sorted_strings(sorted)
            &&& t@ == spec_join_comma(sorted)
        })
}

/// Lists the tables of one database: their ids, names, the dedicated
/// property columns, and their remaining properties sorted into one
/// cell.
pub fn show_tables_result(tables: &Vec<TableDesc>) -> (r: ExecuteResult)
    ensures
        r matches ExecuteResult::Data(c) && {
            &&& c.columns@.len() == 6
            &&& c.columns@[0]@ == "id"@
            &&& c.columns@[1]@ == "name"@
            &&& c.columns@[2]@ == "type"@
            &&& c.columns@[3]@ == "replication"@
            &&& c.columns@[4]@ == "replicas_per_group"@
            &&& c.columns@[5]@ == "properties"@
            &&& c.rows@.len() == tables@.len()
            &&& forall|i: int| 0 <= i < tables@.len() ==> spec_table_row(c.rows@[i], tables@[i])
        },
{
    let mut columns: Vec<String> = Vec::new();
    columns.push("id".to_owned());
    columns.push("name".to_owned());
    columns.push("type".to_owned());
    columns.push("replication".to_owned());
    columns.push("replicas_per_group".to_owned());
    columns.push("properties".to_owned());
    let mut rows: Vec<Row> = Vec::new();
    let mut i: usize = 0;
    while i < tables.len()
        invariant
            i <= tables@.len(),
            rows@.len() == i,
            forall|j: int| 0 <= j < i ==> spec_table_row(rows@[j], tables@[j]),
        decreases tables@.len() - i,
    {
        let table = &tables[i];
        let mut extras = extra_properties(&table.properties);
        sort_strings(&mut extras);
        let joined = join_comma(&extras);
        let mut values: Vec<CellValue> = Vec::new();
        values.push(CellValue::U64(table.id));
        values.push(CellValue::Text(table.name.clone()));
        values.push(CellValue::Text(property_value(&table.properties, "table_type")));
        values.push(CellValue::Text(property_value(&table.properties, "replication")));
        values.push(CellValue::Text(property_value(&table.properties, "replicas_per_group")));
        values.push(CellValue::Text(joined));
        rows.push(Row { values });
        i = i + 1;
    }
    ExecuteResult::Data(ColumnResult { columns, rows })
}

/// Copies a byte string.
fn copy_bytes(v: &Vec<u8>) -> (r: Vec<u8>)
    ensures
        r@ == v@,
{
    let mut out: Vec<u8> = Vec::new();
    let mut i: usize = 0;
    while i < v.len()
        invariant
            i <= v@.len(),
            out@ == v@.take(i as int),
        decreases v@.len() - i,
    {
        out.push(v[i]);
        proof {
            assert(v@.take(i as int).push(v@[i as int]) =~= v@.take(i + 1));
        }
        i = i + 1;
    }
    proof {
        assert(v@.take(i as int) =~= v@);
    }
    out
}

/// Asks for the database a `SHOW tables` targets; without a `FROM`
/// clause the statement is answered with a message.
pub fn show_tables_target(from: &Option<String>) -> (r: Result<String, ExecuteResult>)
    ensures
        from is None ==> (r matches Err(ExecuteResult::Msg(m)) && m@
            == "the database is not specified, add it via the FROM clause"@),
        from matches Some(db) ==> (r matches Ok(name) && name@ == db@),
{
    match from {
        None => Err(
            ExecuteResult::Msg("the database is not specified, add it via the FROM clause".to_owned()),
        ),
        Some(db) => Ok(db.clone()),
    }
}

/// The answer for a `SHOW tables` against a database the catalog does
/// not have.
pub fn missing_database_result(db: &str) -> (r: ExecuteResult)
    ensures
        r matches ExecuteResult::Msg(m) && m@ == "database '"@ + db@ + "' is not exists"@,
{
    let mut msg = String::from_str("database '");
    msg.append(db);
    msg.append("' is not exists");
    ExecuteResult::Msg(msg)
}

} // verus!
