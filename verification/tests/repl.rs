use c2_proto::json::JsonValue;
use c2_proto::repl::{command_of, parse_line, Input};

fn asked(line: &str) -> Option<(String, JsonValue)> {
    match parse_line(line) {
        Input::Command { cmd, args } => Some((cmd, args)),
        _ => None,
    }
}

fn echo_of(text: &str) -> JsonValue {
    JsonValue::Object(vec![("text".to_string(), JsonValue::Str(text.to_string()))])
}

#[test]
fn blank_lines_ask_for_nothing() {
    assert!(matches!(parse_line(""), Input::Blank));
    assert!(matches!(parse_line("  \t \n"), Input::Blank));
    assert!(matches!(parse_line("\n"), Input::Blank));
}

#[test]
fn quit_and_exit_leave() {
    assert!(matches!(parse_line("quit\n"), Input::Quit));
    assert!(matches!(parse_line("  exit  "), Input::Quit));
    // only in lower case and alone on the line
    assert_eq!(asked("QUIT"), Some(("QUIT".to_string(), JsonValue::Object(vec![]))));
    assert_eq!(asked("quit now"), Some(("QUIT".to_string(), JsonValue::Object(vec![]))));
}

#[test]
fn the_first_word_is_the_command_in_upper_case() {
    assert_eq!(asked("ping\n"), Some(("PING".to_string(), JsonValue::Object(vec![]))));
    assert_eq!(asked("Status"), Some(("STATUS".to_string(), JsonValue::Object(vec![]))));
    assert_eq!(asked("time and more"), Some(("TIME".to_string(), JsonValue::Object(vec![]))));
    assert_eq!(asked("stra\u{df}e"), Some(("STRASSE".to_string(), JsonValue::Object(vec![]))));
}

#[test]
fn echo_takes_the_rest_of_the_line() {
    assert_eq!(asked("echo hello world\n"), Some(("ECHO".to_string(), echo_of("hello world"))));
    assert_eq!(asked("ECHO  two spaces"), Some(("ECHO".to_string(), echo_of(" two spaces"))));
    assert_eq!(asked("  echo x  "), Some(("ECHO".to_string(), echo_of("x"))));
    assert!(matches!(parse_line("echo"), Input::MissingText));
    assert!(matches!(parse_line("echo   \n"), Input::MissingText));
    assert!(matches!(command_of("ECHO".to_string(), ""), Input::MissingText));
    assert!(matches!(command_of("echo".to_string(), ""), Input::Command { .. }));
}

#[test]
fn values_print_with_indentation() {
    let v = JsonValue::Object(vec![("echo".to_string(), JsonValue::Str("hi".to_string()))]);
    assert_eq!(v.print_pretty().unwrap(), "{\n  \"echo\": \"hi\"\n}");
    assert_eq!(JsonValue::Null.print_pretty().unwrap(), "null");
    assert_eq!(v.clone(), v);
}
