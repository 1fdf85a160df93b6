use easytodo::commands::parser::{parse, tokenize};
use easytodo::commands::Command;
use easytodo::errors::AppError;

fn new(title: &str, description: &str, due: Option<&str>) -> Command {
    Command::New { title: title.to_string(), description: description.to_string(), due: due.map(String::from) }
}

fn command_error(input: &str) -> String {
    match parse(input) {
        Err(AppError::CommandError(m)) => m,
        other => panic!("unexpected {:?}", other),
    }
}

#[test]
fn due_date_written_with_its_name() {
    assert_eq!(parse(r#"new "Buy milk" due:2026-06-01"#).unwrap(), new("Buy milk", "", Some("2026-06-01")));
    assert_eq!(
        parse(r#"new "Buy milk" "Get from store" due:2026-06-01"#).unwrap(),
        new("Buy milk", "Get from store", Some("2026-06-01"))
    );
    assert_eq!(parse(r#"new "Buy milk" "Grocery store""#).unwrap(), new("Buy milk", "Grocery store", None));
}

#[test]
fn edit_of_the_selected_task() {
    assert_eq!(
        parse(r#"edit . due:2026-07-01"#).unwrap(),
        Command::Edit { id: ".".to_string(), fields: vec![("due".to_string(), "2026-07-01".to_string())] }
    );
    assert_eq!(
        parse(r#"edit . desc:"Updated description""#).unwrap(),
        Command::Edit { id: ".".to_string(), fields: vec![("desc".to_string(), "Updated description".to_string())] }
    );
}

#[test]
fn one_argument_commands_and_aliases() {
    assert_eq!(parse("open .").unwrap(), Command::Open(".".to_string()));
    assert_eq!(parse("DELETE x").unwrap(), Command::Delete("x".to_string()));
    assert_eq!(parse("cp x").unwrap(), Command::Clone("x".to_string()));
    assert_eq!(parse("undone x").unwrap(), Command::Undone("x".to_string()));
    assert_eq!(parse("migrate ~/Documents").unwrap(), Command::Migrate("~/Documents".to_string()));
    assert_eq!(parse("mv /tmp").unwrap(), Command::Migrate("/tmp".to_string()));
    assert_eq!(parse("ls todo").unwrap(), Command::List(Some("todo".to_string())));
    assert_eq!(parse("exit").unwrap(), Command::Quit);
    assert_eq!(parse("help").unwrap(), Command::Help);
    assert_eq!(parse("config").unwrap(), Command::Config { key: None, value: None });
}

#[test]
fn usage_errors() {
    assert_eq!(command_error("new"), r#"Usage: new "<title>" ["<description>"] ["<due-date>"]"#);
    assert_eq!(command_error("open"), r#"Usage: open "<id>""#);
    assert_eq!(command_error("rm"), r#"Usage: delete "<id>""#);
    assert_eq!(command_error("edit"), r#"Usage: edit <id> title:"new title" description:"desc""#);
    assert_eq!(command_error("Frob"), "Unknown command: 'frob'");
    assert_eq!(command_error("  "), "No command entered");
}

#[test]
fn unterminated_quotes_name_the_quote() {
    match tokenize(r#"new "title"#) {
        Err(AppError::ParseError(m)) => assert_eq!(m, "Unterminated \" quote"),
        other => panic!("unexpected {:?}", other),
    }
    match tokenize("edit a title:'x") {
        Err(AppError::ParseError(m)) => assert_eq!(m, "Unterminated ' quote"),
        other => panic!("unexpected {:?}", other),
    }
}

#[test]
fn quoted_tokens_read_back() {
    let tokens = vec!["new", "two words", "", "a:b"];
    let line = tokens.iter().map(|t| format!("\"{}\"", t)).collect::<Vec<_>>().join(" ");
    assert_eq!(tokenize(&line).unwrap(), tokens);
}

#[test]
fn plain_text_splits_at_white_space() {
    assert_eq!(tokenize("  list \t done  ").unwrap(), vec!["list", "done"]);
    assert_eq!(tokenize(" \n ").unwrap(), Vec::<String>::new());
    assert_eq!(tokenize("edit a title:x").unwrap(), vec!["edit", "a", "title:x"]);
}
