//! The statement syntax tree of the SQL-like shell, and the statements
//! that execute locally: debug echoes of a parsed statement and the help
//! texts.

use vstd::prelude::*;
use crate::text::str_eq;

verus! {

/// One cell of a tabular result.
#[derive(Debug)]
pub enum CellValue {
    U64(u64),
    Text(String),
    Bytes(Vec<u8>),
}

/// One row of a tabular result.
#[derive(Debug)]
pub struct Row {
    pub values: Vec<CellValue>,
}

/// A tabular result: column names and rows of cells.
#[derive(Debug)]
pub struct ColumnResult {
    pub columns: Vec<String>,
    pub rows: Vec<Row>,
}

/// What executing a statement produced: nothing, a message, or a table.
#[derive(Debug)]
pub enum ExecuteResult {
    Empty,
    Msg(String),
    Data(ColumnResult),
}

/// A parsed statement.
#[derive(Debug)]
pub enum Statement {
    CreateDb(CreateDbStatement),
    CreateTable(CreateTableStatement),
    Config(ConfigStatement),
    Debug(DebugStatement),
    Echo(EchoStatement),
    Help(HelpStatement),
    Show(ShowStatement),
    Put(PutStatement),
    Delete(DeleteStatement),
    Get(GetStatement),
}

#[derive(Debug)]
pub struct EchoStatement {
    pub message: String,
}

#[derive(Debug)]
pub struct CreateDbStatement {
    pub db_name: String,
    pub create_if_not_exists: bool,
}

#[derive(Debug)]
pub struct CreateTableStatement {
    pub db_name: String,
    pub table_name: String,
    pub create_if_not_exists: bool,
}

#[derive(Debug)]
pub struct ConfigStatement {
    pub key: Box<[u8]>,
    pub value: Box<[u8]>,
}

#[derive(Debug)]
pub struct DebugStatement {
    pub stmt: Box<Statement>,
}

#[derive(Debug)]
pub struct HelpStatement {
    pub topic: Option<String>,
}

#[derive(Debug)]
pub struct ShowStatement {
    pub property: String,
    pub from: Option<String>,
}

#[derive(Debug)]
pub struct PutStatement {
    pub key: Vec<u8>,
    pub value: Vec<u8>,
    pub db_name: String,
    pub table_name: String,
}

#[derive(Debug)]
pub struct DeleteStatement {
    pub key: Vec<u8>,
    pub db_name: String,
    pub table_name: String,
}

#[derive(Debug)]
pub struct GetStatement {
    pub key: Vec<u8>,
    pub db_name: String,
    pub table_name: String,
}

/// Relies on the `Debug` formatter that `derive` wrote for `Statement`;
/// nothing is claimed of the rendered text.
#[verifier::external_body]
fn format_statement(stmt: &Statement) -> String {
    format!("{:?}", stmt)
}

impl DebugStatement {
    /// Renders the wrapped statement for inspection.
    pub fn execute(&self) -> (r: ExecuteResult)
        ensures
            r is Msg,
    {
        ExecuteResult::Msg(format_statement(&self.stmt))
    }
}

/// The help text for the creation statements.
pub open spec fn create_topic_text() -> Seq<char> {
    "\nCREATE DATABASE [IF NOT EXISTS] <name:ident>\n    Create a new database.\n\nCREATE TABLE [IF NOT EXISTS] [<db:ident>.]<name:ident>\n    Create a new table.\n\nNote:\n    The ident accepts characters [a-zA-Z0-9_-].\n"@
}

/// The help text for the show statement.
pub open spec fn show_topic_text() -> Seq<char> {
    "\nSHOW <property:ident> [FROM <name:ident>]\n    Show properties. supported properties:\n    - databases\n    - tables FROM <database>\n    - groups\n    - replicas FROM <group-id>\n    - shards FROM <group-id>\n    - nodes\n\nNote:\n    The ident accepts characters [a-zA-Z0-9_-].\n"@
}

/// The help text for the put statement.
pub open spec fn put_topic_text() -> Seq<char> {
    "\nPUT <key:literal> <value:literal> INTO <db_name:ident>.<table_name:ident>\n    Put key value into a table.\n\nNote:\n    The ident accepts characters [a-zA-Z0-9_-].\n"@
}

/// The help text for the get statement.
pub open spec fn get_topic_text() -> Seq<char> {
    "\nGET <key:literal> FROM <db_name:ident>.<table_name:ident>\n    Get value from a table\n\nNote:\n    The ident accepts characters [a-zA-Z0-9_-].\n"@
}

/// The help text for the delete statement.
pub open spec fn delete_topic_text() -> Seq<char> {
    "\nDELETE <key:literal> FROM <db_name:ident>.<table_name:ident>\n    Delete value from a table\n\nNote:\n    The ident accepts characters [a-zA-Z0-9_-].\n"@
}

/// The general help text listing every command.
pub open spec fn general_help_text() -> Seq<char> {
    "\nList of commands:\n\ncreate      create database, table ...\nshow        show properties, such as databases, tables ...\nput         put value into a table\ndelete      delete key from a table\nget         get the value of the key from a table\nhelp        get help about a topic or command\n\nFor information on a specific command, type `help <command>'.\n"@
}

/// The help text chosen for a topic: per-command help for the five known
/// commands (in either case), and a pointer back to `help` otherwise.
pub open spec fn topic_text(topic: Seq<char>) -> Seq<char> {
    if topic == "create"@ || topic == "CREATE"@ {
        create_topic_text()
    } else if topic == "show"@ || topic == "SHOW"@ {
        show_topic_text()
    } else if topic == "put"@ || topic == "PUT"@ {
        put_topic_text()
    } else if topic == "delete"@ || topic == "DELETE"@ {
        delete_topic_text()
    } else if topic == "get"@ || topic == "GET"@ {
        get_topic_text()
    } else {
        "unknown command `"@ + topic + "`. Try `help`?"@
    }
}

impl HelpStatement {
    /// Renders help: for the requested topic when one was named, the
    /// general command list otherwise.
    pub fn execute(&self) -> (r: ExecuteResult)
        ensures
            self.topic matches Some(t) ==> (r matches ExecuteResult::Msg(m) && m@ == topic_text(
                t@,
            )),
            self.topic is None ==> (r matches ExecuteResult::Msg(m) && m@ == general_help_text()),
    {
        let msg = if let Some(topic) = self.topic.as_ref() {
            Self::display_topic(topic.as_str())
        } else {
            Self::display()
        };
        ExecuteResult::Msg(msg)
    }

    fn display_topic(topic: &str) -> (r: String)
        ensures
            r@ == topic_text(topic@),
    {
        if str_eq(topic, "create") || str_eq(topic, "CREATE") {
            Self::display_create_topic()
        } else if str_eq(topic, "show") || str_eq(topic, "SHOW") {
            Self::display_show_topic()
        } else if str_eq(topic, "put") || str_eq(topic, "PUT") {
            Self::display_put_topic()
        } else if str_eq(topic, "delete") || str_eq(topic, "DELETE") {
            Self::display_delete_topic()
        } else if str_eq(topic, "get") || str_eq(topic, "GET") {
            Self::display_get_topic()
        } else {
            let mut msg = String::from_str("unknown command `");
            msg.append(topic);
            msg.append("`. Try `help`?");
            msg
        }
    }

    fn display_create_topic() -> (r: String)
        ensures
            r@ == create_topic_text(),
    {
        "\nCREATE DATABASE [IF NOT EXISTS] <name:ident>\n    Create a new database.\n\nCREATE TABLE [IF NOT EXISTS] [<db:ident>.]<name:ident>\n    Create a new table.\n\nNote:\n    The ident accepts characters [a-zA-Z0-9_-].\n".to_owned()
    }

    fn display_show_topic() -> (r: String)
        ensures
            r@ == show_topic_text(),
    {
        "\nSHOW <property:ident> [FROM <name:ident>]\n    Show properties. supported properties:\n    - databases\n    - tables FROM <database>\n    - groups\n    - replicas FROM <group-id>\n    - shards FROM <group-id>\n    - nodes\n\nNote:\n    The ident accepts characters [a-zA-Z0-9_-].\n".to_owned()
    }

    fn display_put_topic() -> (r: String)
        ensures
            r@ == put_topic_text(),
    {
        "\nPUT <key:literal> <value:literal> INTO <db_name:ident>.<table_name:ident>\n    Put key value into a table.\n\nNote:\n    The ident accepts characters [a-zA-Z0-9_-].\n".to_owned()
    }

    fn display_get_topic() -> (r: String)
        ensures
            r@ == get_topic_text(),
    {
        "\nGET <key:literal> FROM <db_name:ident>.<table_name:ident>\n    Get value from a table\n\nNote:\n    The ident accepts characters [a-zA-Z0-9_-].\n".to_owned()
    }

    fn display_delete_topic() -> (r: String)
        ensures
            r@ == delete_topic_text(),
    {
        "\nDELETE <key:literal> FROM <db_name:ident>.<table_name:ident>\n    Delete value from a table\n\nNote:\n    The ident accepts characters [a-zA-Z0-9_-].\n".to_owned()
    }

    fn display() -> (r: String)
        ensures
            r@ == general_help_text(),
    {
        "\nList of commands:\n\ncreate      create database, table ...\nshow        show properties, such as databases, tables ...\nput         put value into a table\ndelete      delete key from a table\nget         get the value of the key from a table\nhelp        get help about a topic or command\n\nFor information on a specific command, type `help <command>'.\n".to_owned()
    }
}

} // verus!
