use easytodo::commands::parser::{parse, tokenize};
use easytodo::commands::Command;

#[test]
fn test_tokenize_simple() {
    let tokens = tokenize(r#"new "Buy milk" "groceries" "2026-05-10""#).unwrap();
    assert_eq!(tokens, vec!["new", "Buy milk", "groceries", "2026-05-10"]);
}

#[test]
fn test_tokenize_single_quotes() {
    let tokens = tokenize(r#"open 'abc123'"#).unwrap();
    assert_eq!(tokens, vec!["open", "abc123"]);
}

#[test]
fn test_tokenize_empty_string() {
    let tokens = tokenize(r#"new "title" "" "2026-05-10""#).unwrap();
    assert_eq!(tokens, vec!["new", "title", "", "2026-05-10"]);
}

#[test]
fn test_tokenize_no_quotes() {
    let tokens = tokenize("list").unwrap();
    assert_eq!(tokens, vec!["list"]);
}

#[test]
fn test_tokenize_unterminated() {
    assert!(tokenize(r#"new "title"#).is_err());
}

#[test]
fn test_parse_new_title_only() {
    let cmd = parse(r#"new "My Task""#).unwrap();
    assert_eq!(
        cmd,
        Command::New {
            title: "My Task".into(),
            description: String::new(),
            due: None
        }
    );
}

#[test]
fn test_parse_new_full() {
    let cmd = parse(r#"new "Task" "Desc" "2026-05-10""#).unwrap();
    assert_eq!(
        cmd,
        Command::New {
            title: "Task".into(),
            description: "Desc".into(),
            due: Some("2026-05-10".into())
        }
    );
}

#[test]
fn test_parse_new_no_args() {
    assert!(parse("new").is_err());
}

#[test]
fn test_parse_done() {
    let cmd = parse(r#"done "abc123""#).unwrap();
    assert_eq!(cmd, Command::Done("abc123".into()));
}

#[test]
fn test_parse_list() {
    let cmd = parse("list").unwrap();
    assert_eq!(cmd, Command::List(None));

    let cmd = parse(r#"list "done""#).unwrap();
    assert_eq!(cmd, Command::List(Some("done".into())));
}

#[test]
fn test_parse_edit_single_field() {
    let cmd = parse("edit abc title:\"New Title\"").unwrap();
    assert_eq!(
        cmd,
        Command::Edit {
            id: "abc".into(),
            fields: vec![("title".into(), "New Title".into())]
        }
    );
}

#[test]
fn test_parse_edit_multi_field() {
    let cmd = parse("edit abc title:\"New Title\" due_date:2026-05-10").unwrap();
    assert_eq!(
        cmd,
        Command::Edit {
            id: "abc".into(),
            fields: vec![
                ("title".into(), "New Title".into()),
                ("due_date".into(), "2026-05-10".into())
            ]
        }
    );
}

#[test]
fn test_parse_edit_no_fields() {
    let cmd = parse("edit abc123").unwrap();
    assert_eq!(
        cmd,
        Command::Edit {
            id: "abc123".into(),
            fields: vec![]
        }
    );
}

#[test]
fn test_tokenize_inline_quote() {
    let tokens = tokenize("edit abc title:\"new title\" desc:\"hello world\"").unwrap();
    assert_eq!(tokens, vec!["edit", "abc", "title:new title", "desc:hello world"]);
}

#[test]
fn test_tokenize_single_quote_inline() {
    let tokens = tokenize("edit abc title:'my title'").unwrap();
    assert_eq!(tokens, vec!["edit", "abc", "title:my title"]);
}

#[test]
fn test_parse_reload() {
    let cmd = parse("reload").unwrap();
    assert_eq!(cmd, Command::Reload);
    let cmd = parse("refresh").unwrap();
    assert_eq!(cmd, Command::Reload);
}

#[test]
fn test_edit_done_shortcut_still_works() {
    let cmd = parse(r#"done "abc123""#).unwrap();
    assert_eq!(cmd, Command::Done("abc123".into()));
}

#[test]
fn test_parse_shortcuts() {
    assert_eq!(parse("q").unwrap(), Command::Quit);
    assert_eq!(parse("ls").unwrap(), Command::List(None));
    assert_eq!(parse(r#"rm "abc""#).unwrap(), Command::Delete("abc".into()));
}

#[test]
fn test_parse_unknown() {
    assert!(parse("bogus").is_err());
}

#[test]
fn test_parse_empty() {
    assert!(parse("").is_err());
}

#[test]
fn test_parse_config_get() {
    let cmd = parse(r#"config "editor""#).unwrap();
    assert_eq!(
        cmd,
        Command::Config {
            key: Some("editor".into()),
            value: None
        }
    );
}

#[test]
fn test_parse_config_set() {
    let cmd = parse(r#"config "editor" "nvim""#).unwrap();
    assert_eq!(
        cmd,
        Command::Config {
            key: Some("editor".into()),
            value: Some("nvim".into())
        }
    );
}
