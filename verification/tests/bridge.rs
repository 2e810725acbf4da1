use preprocessor_bridge::bridge::BridgeError;
use preprocessor_bridge::bridge::Preprocessor;
use preprocessor_bridge::host::HostValue;

fn empty_options() -> HostValue {
    HostValue::Object(Vec::new())
}

fn options_with(fields: Vec<(&str, HostValue)>) -> HostValue {
    HostValue::Object(fields.into_iter().map(|(k, v)| (k.to_string(), v)).collect())
}

fn expect_parse_artifact(r: Result<String, BridgeError>) -> (String, String, String) {
    match r {
        Err(BridgeError::Parse(a)) => (a.message, a.source_code, a.source_code_color),
        Err(BridgeError::Options { message }) => panic!("unexpected options error: {message}"),
        Err(BridgeError::Internal { message }) => panic!("unexpected internal error: {message}"),
        Ok(out) => panic!("unexpected success: {out}"),
    }
}

fn strip_style_markers(s: &str) -> String {
    let mut out = String::new();
    let mut chars = s.chars().peekable();
    while let Some(c) = chars.next() {
        if c == '\u{1b}' {
            // Skip an ANSI escape sequence: ESC [ ... letter
            if chars.peek() == Some(&'[') {
                chars.next();
                while let Some(&n) = chars.peek() {
                    chars.next();
                    if n.is_ascii_alphabetic() {
                        break;
                    }
                }
            }
        } else {
            out.push(c);
        }
    }
    out
}

#[test]
fn process_returns_source_for_valid_input() {
    let p = Preprocessor::new();
    let r = p.process("const x = 1;".to_string(), &empty_options());
    assert_eq!(r.ok(), Some("const x = 1;".to_string()));
}

#[test]
fn process_accepts_empty_source() {
    let p = Preprocessor::new();
    let r = p.process(String::new(), &empty_options());
    assert_eq!(r.ok(), Some(String::new()));
}

#[test]
fn parse_returns_module_tree() {
    let p = Preprocessor::new();
    let r = p.parse("const x = 1;".to_string(), &empty_options());
    let json = match r {
        Ok(json) => json,
        Err(_) => panic!("expected a tree"),
    };
    let tree: serde_json::Value = serde_json::from_str(&json).expect("tree is JSON");
    assert_eq!(tree["type"], serde_json::Value::String("Module".to_string()));
    let body = tree["body"].as_array().expect("module body");
    assert_eq!(body.len(), 1);
}

#[test]
fn process_reports_parse_error_with_position() {
    let p = Preprocessor::new();
    let (message, source_code, _color) =
        expect_parse_artifact(p.process("const = 1;".to_string(), &empty_options()));
    assert!(message.starts_with("Parse Error at "), "message: {message}");
    assert!(message.contains("1:7"), "message: {message}");
    assert!(source_code.contains("const = 1;"), "report: {source_code}");
    // The report is a rendered multi-line excerpt, not the source echoed back.
    assert!(source_code.contains('\n'), "report: {source_code}");
    assert_ne!(source_code, "const = 1;");
}

#[test]
fn parse_succeeds_regardless_of_filename() {
    let p = Preprocessor::new();
    let opts = options_with(vec![("filename", HostValue::Text("foo.js".to_string()))]);
    let r = p.parse("const x = 1;".to_string(), &opts);
    assert!(r.is_ok());
}

#[test]
fn parse_and_process_agree_on_error_artifacts() {
    let p = Preprocessor::new();
    let opts = empty_options();
    let (m1, s1, c1) = expect_parse_artifact(p.process("const = 1;".to_string(), &opts));
    let (m2, s2, c2) = expect_parse_artifact(p.parse("const = 1;".to_string(), &opts));
    assert_eq!(m1, m2);
    assert_eq!(s1, s2);
    assert_eq!(c1, c2);
}

#[test]
fn rendering_is_deterministic() {
    let p = Preprocessor::new();
    let opts = empty_options();
    let first = expect_parse_artifact(p.process("let 1 = x;".to_string(), &opts));
    let second = expect_parse_artifact(p.process("let 1 = x;".to_string(), &opts));
    assert_eq!(first, second);
}

#[test]
fn styled_report_matches_plain_after_stripping_styles() {
    let p = Preprocessor::new();
    let (_, plain, colored) =
        expect_parse_artifact(p.process("const = 1;".to_string(), &empty_options()));
    assert_eq!(strip_style_markers(&colored), plain);
}

#[test]
fn filename_appears_in_message() {
    let p = Preprocessor::new();
    let opts = options_with(vec![("filename", HostValue::Text("foo.js".to_string()))]);
    let (message, source_code, _) =
        expect_parse_artifact(p.process("const = 1;".to_string(), &opts));
    assert!(message.contains("foo.js"), "message: {message}");
    assert!(source_code.contains("foo.js"), "report: {source_code}");
}

#[test]
fn malformed_inline_source_map_is_an_options_error() {
    let p = Preprocessor::new();
    let opts = options_with(vec![("inline_source_map", HostValue::Text("yes".to_string()))]);
    // Even a perfectly valid source never reaches the engine.
    let r = p.process("const x = 1;".to_string(), &opts);
    match r {
        Err(BridgeError::Options { message }) => {
            assert_eq!(
                message,
                "Options parsing error: invalid type for field `inline_source_map`: expected a boolean"
            );
        }
        _ => panic!("expected an options error"),
    }
}

#[test]
fn malformed_options_win_over_invalid_source() {
    let p = Preprocessor::new();
    let opts = options_with(vec![("filename", HostValue::Bool(true))]);
    let r = p.parse("const = 1;".to_string(), &opts);
    match r {
        Err(BridgeError::Options { message }) => {
            assert_eq!(
                message,
                "Options parsing error: invalid type for field `filename`: expected a string"
            );
        }
        _ => panic!("expected an options error"),
    }
}

#[test]
fn non_object_options_are_rejected() {
    let p = Preprocessor::new();
    let r = p.process("const x = 1;".to_string(), &HostValue::Number);
    match r {
        Err(BridgeError::Options { message }) => {
            assert_eq!(
                message,
                "Options parsing error: invalid type: expected an options object"
            );
        }
        _ => panic!("expected an options error"),
    }
}

#[test]
fn duplicate_fields_are_rejected() {
    let p = Preprocessor::new();
    let opts = options_with(vec![
        ("inline_source_map", HostValue::Bool(true)),
        ("inline_source_map", HostValue::Bool(false)),
    ]);
    let r = p.process("const x = 1;".to_string(), &opts);
    match r {
        Err(BridgeError::Options { message }) => {
            assert_eq!(
                message,
                "Options parsing error: duplicate field `inline_source_map`"
            );
        }
        _ => panic!("expected an options error"),
    }
}

#[test]
fn null_filename_counts_as_absent() {
    let p = Preprocessor::new();
    let opts = options_with(vec![
        ("filename", HostValue::Null),
        ("inline_source_map", HostValue::Bool(false)),
    ]);
    let r = p.process("const x = 1;".to_string(), &opts);
    assert_eq!(r.ok(), Some("const x = 1;".to_string()));
}

#[test]
fn unknown_fields_are_ignored() {
    let p = Preprocessor::new();
    let opts = options_with(vec![("banner", HostValue::Text("hi".to_string()))]);
    let r = p.process("const x = 1;".to_string(), &opts);
    assert_eq!(r.ok(), Some("const x = 1;".to_string()));
}
