use preprocessor_bridge::buffer::ReportBuffer;
use preprocessor_bridge::host::HostValue;
use preprocessor_bridge::host::decode_options;
use preprocessor_bridge::text::str_eq;

#[test]
fn buffer_accumulates_fragments_in_order() {
    let mut buf = ReportBuffer::new();
    buf.append("error:");
    buf.append(" ");
    buf.append("unexpected token");
    assert_eq!(buf.into_string(), "error: unexpected token");
}

#[test]
fn empty_buffer_reads_back_empty() {
    let buf = ReportBuffer::new();
    assert_eq!(buf.into_string(), "");
}

#[test]
fn str_eq_compares_contents() {
    assert!(str_eq("filename", "filename"));
    assert!(!str_eq("filename", "filenamE"));
    assert!(!str_eq("filename", "file"));
    assert!(str_eq("", ""));
}

#[test]
fn decode_defaults_and_values() {
    let opts = HostValue::Object(vec![
        ("filename".to_string(), HostValue::Text("a.js".to_string())),
        ("inline_source_map".to_string(), HostValue::Bool(true)),
    ]);
    let decoded = decode_options(&opts).expect("well-formed options");
    assert_eq!(decoded.filename.as_deref(), Some("a.js"));
    assert!(decoded.inline_source_map);

    let empty = HostValue::Object(Vec::new());
    let decoded = decode_options(&empty).expect("empty object is fine");
    assert_eq!(decoded.filename, None);
    assert!(!decoded.inline_source_map);
}
