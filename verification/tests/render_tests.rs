use bdk_cli::render::json_escape;
use bdk_cli::render::render_error;
use bdk_cli::render::CoreError;
use bdk_cli::resolver::ParseError;
use bdk_cli::resolver::ParseErrorKind;
use bdk_cli::session::HandlerFamily;

#[test]
fn json_escape_exact() {
    assert_eq!(json_escape("plain text 123"), "plain text 123".to_string());
    assert_eq!(json_escape("a\"b\\c"), "a\\\"b\\\\c".to_string());
    assert_eq!(json_escape("line1\nline2\t"), "line1\\nline2\\t".to_string());
    assert_eq!(json_escape("\r"), "\\r".to_string());
    assert_eq!(json_escape("\u{1}"), "\\u0001".to_string());
    assert_eq!(json_escape("\u{1f}"), "\\u001f".to_string());
    assert_eq!(json_escape(""), "".to_string());
}

#[test]
fn render_error_exact_shape() {
    let s = render_error("key", "boom");
    assert_eq!(s, "{\n  \"error\": \"boom\",\n  \"operation\": \"key\"\n}".to_string());
}

#[test]
fn render_error_is_valid_json() {
    let s = render_error("wallet", "bad \"descriptor\"\non line 2");
    let v: serde_json::Value = serde_json::from_str(&s).unwrap();
    assert_eq!(v["error"], "bad \"descriptor\"\non line 2");
    assert_eq!(v["operation"], "wallet");
}

#[test]
fn render_error_escapes_control_characters() {
    let s = render_error("online_wallet", "ctrl \u{2} here");
    let v: serde_json::Value = serde_json::from_str(&s).unwrap();
    assert_eq!(v["error"], "ctrl \u{2} here");
}

#[test]
fn core_error_fatality() {
    let parse = CoreError::Parse(ParseError {
        kind: ParseErrorKind::UnknownCommand,
        detail: "x".to_string(),
    });
    assert!(!parse.is_fatal());
    assert!(CoreError::Config("bad backend".to_string()).is_fatal());
    assert!(CoreError::Io("stream closed".to_string()).is_fatal());
    let collab = CoreError::Collaborator {
        family: HandlerFamily::KeyManagement,
        message: "bad phrase".to_string(),
    };
    assert!(!collab.is_fatal());
}
