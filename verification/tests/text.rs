use easytodo::errors::AppError;
use easytodo::text::{byte_len, char_width, chars_of, decimal, is_whitespace, str_eq, trim_string};

#[test]
fn decimal_numbers() {
    assert_eq!(decimal(0), "0");
    assert_eq!(decimal(7), "7");
    assert_eq!(decimal(1234567890), "1234567890");
    assert_eq!(decimal(usize::MAX), usize::MAX.to_string());
}

#[test]
fn trimming_white_space() {
    assert_eq!(trim_string("  a b \n\t"), "a b");
    assert_eq!(trim_string(""), "");
    assert_eq!(trim_string(" \r\n "), "");
    assert_eq!(trim_string("x"), "x");
}

#[test]
fn byte_lengths() {
    assert_eq!(byte_len("abc"), 3);
    assert_eq!(byte_len("\u{e9}"), 2);
    assert_eq!(byte_len("\u{2026}"), 3);
    assert_eq!(byte_len("\u{1f600}"), 4);
    assert_eq!(char_width('a'), 1);
    assert_eq!(char_width('\u{e9}'), 2);
    assert_eq!(char_width('\u{2026}'), 3);
    assert_eq!(char_width('\u{1f600}'), 4);
}

#[test]
fn characters_and_equality() {
    assert_eq!(chars_of("h\u{e9}"), vec!['h', '\u{e9}']);
    assert!(str_eq("abc", "abc"));
    assert!(!str_eq("abc", "abd"));
    assert!(!str_eq("abc", "ab"));
    assert!(is_whitespace(' '));
    assert!(is_whitespace('\t'));
    assert!(!is_whitespace('x'));
}

#[test]
fn error_texts() {
    assert_eq!(AppError::TaskNotFound("abc".to_string()).to_string(), "Task not found: abc");
    assert_eq!(AppError::ParseError("x".to_string()).to_string(), "Parse error: x");
    assert_eq!(AppError::CommandError("x".to_string()).to_string(), "Command error: x");
    assert_eq!(AppError::Config("x".to_string()).to_string(), "Config error: x");
    assert_eq!(AppError::Toml("x".to_string()).to_string(), "TOML error: x");
    assert_eq!(AppError::Terminal("x".to_string()).to_string(), "Terminal error: x");
    assert_eq!(AppError::Editor("x".to_string()).to_string(), "Editor error: x");
    assert_eq!(AppError::HomeDir.to_string(), "Could not find home directory");
}

#[test]
fn io_and_yaml_errors_carry_their_own_text() {
    let e = std::io::Error::new(std::io::ErrorKind::Other, "disk on fire");
    assert_eq!(AppError::Io(e).to_string(), "IO error: disk on fire");
    let y = serde_yaml::from_str::<serde_yaml::Value>("a: [1, 2").unwrap_err();
    let shown = y.to_string();
    assert_eq!(AppError::Yaml(y).to_string(), format!("YAML error: {}", shown));
}
