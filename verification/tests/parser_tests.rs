use sekas_client::ascii::escape_bytes;
use sekas_client::ast::{DebugStatement, ExecuteResult, HelpStatement, Statement, EchoStatement};
use sekas_client::text::{parse_u64, str_eq};

#[test]
fn escape_keeps_printable_ascii() {
    assert_eq!(escape_bytes(b"hello, world 0123"), "hello, world 0123");
}

#[test]
fn escape_rewrites_control_and_quote_bytes() {
    assert_eq!(escape_bytes(b"\t\r\n"), "\\t\\r\\n");
    assert_eq!(escape_bytes(b"\\"), "\\\\");
    assert_eq!(escape_bytes(b"'\""), "\\'\\\"");
}

#[test]
fn escape_renders_other_bytes_as_lowercase_hex() {
    assert_eq!(escape_bytes(&[0x00, 0x1f, 0x7f, 0x80, 0xff]), "\\x00\\x1f\\x7f\\x80\\xff");
    assert_eq!(escape_bytes(&[0x9d]), "\\x9d");
}

#[test]
fn escape_of_empty_is_empty() {
    assert_eq!(escape_bytes(b""), "");
}

#[test]
fn help_without_topic_lists_commands() {
    let help = HelpStatement { topic: None };
    match help.execute() {
        ExecuteResult::Msg(msg) => {
            assert!(msg.contains("List of commands:"));
            assert!(msg.contains("create"));
            assert!(msg.contains("help        get help about a topic or command"));
        }
        other => panic!("expected a message, got {other:?}"),
    }
}

#[test]
fn help_topics_cover_both_cases() {
    for topic in ["create", "CREATE"] {
        let help = HelpStatement { topic: Some(topic.to_owned()) };
        match help.execute() {
            ExecuteResult::Msg(msg) => assert!(msg.contains("CREATE DATABASE [IF NOT EXISTS]")),
            other => panic!("expected a message, got {other:?}"),
        }
    }
    let help = HelpStatement { topic: Some("show".to_owned()) };
    match help.execute() {
        ExecuteResult::Msg(msg) => assert!(msg.contains("SHOW <property:ident>")),
        other => panic!("expected a message, got {other:?}"),
    }
}

#[test]
fn help_for_unknown_topic_points_back() {
    let help = HelpStatement { topic: Some("frobnicate".to_owned()) };
    match help.execute() {
        ExecuteResult::Msg(msg) => {
            assert_eq!(msg, "unknown command `frobnicate`. Try `help`?");
        }
        other => panic!("expected a message, got {other:?}"),
    }
}

#[test]
fn debug_statement_renders_a_message() {
    let stmt = DebugStatement {
        stmt: Box::new(Statement::Echo(EchoStatement { message: "hi".to_owned() })),
    };
    match stmt.execute() {
        ExecuteResult::Msg(msg) => assert!(msg.contains("Echo")),
        other => panic!("expected a message, got {other:?}"),
    }
}

#[test]
fn str_eq_compares_contents() {
    assert!(str_eq("abc", "abc"));
    assert!(!str_eq("abc", "abd"));
    assert!(!str_eq("abc", "ab"));
    assert!(str_eq("", ""));
}

#[test]
fn parse_u64_accepts_plain_decimals() {
    assert_eq!(parse_u64("0"), Some(0));
    assert_eq!(parse_u64("42"), Some(42));
    assert_eq!(parse_u64("+42"), Some(42));
    assert_eq!(parse_u64("18446744073709551615"), Some(u64::MAX));
}

#[test]
fn parse_u64_rejects_everything_else() {
    assert_eq!(parse_u64(""), None);
    assert_eq!(parse_u64("+"), None);
    assert_eq!(parse_u64("-1"), None);
    assert_eq!(parse_u64("1x"), None);
    assert_eq!(parse_u64("x1"), None);
    assert_eq!(parse_u64(" 1"), None);
    assert_eq!(parse_u64("18446744073709551616"), None);
    assert_eq!(parse_u64("99999999999999999999"), None);
}

#[test]
fn parse_u64_agrees_with_std() {
    for s in ["0", "7", "+7", "007", "4294967296", "18446744073709551615",
              "18446744073709551616", "", "+", "a", "1 ", "-3"] {
        assert_eq!(parse_u64(s), s.parse::<u64>().ok(), "input {s:?}");
    }
}
