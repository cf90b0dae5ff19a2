use ink_dap::breakpoints::BreakpointTable;
use ink_dap::json::JsonValue;
use ink_dap::launch::extract_port_from_args;
use ink_dap::number::{decimal_string, parse_u16};
use ink_dap::protocol::{Checksum, ChecksumAlgorithm, LaunchRequestArguments, PresentationHint, Source};
use ink_dap::text::same_text;

#[test]
fn parse_u16_follows_from_str() {
    for text in ["0", "80", "+80", "0080", "65535", "9229", "", "+", "-1", "-0", "65536", "8a", " 80", "80 ", "++1", "１"] {
        assert_eq!(parse_u16(text), text.parse::<u16>().ok(), "{:?}", text);
    }
}

#[test]
fn decimal_string_writes_numbers() {
    for n in [0u64, 7, 10, 300, 9229, 65535, 4294967295, u64::MAX] {
        assert_eq!(decimal_string(n), n.to_string());
    }
}

#[test]
fn decimal_round_trips_through_parse() {
    for p in [0u16, 1, 9, 10, 99, 1000, 9229, 65535] {
        assert_eq!(parse_u16(&decimal_string(p as u64)), Some(p));
    }
}

#[test]
fn same_text_compares_characters() {
    assert!(same_text("--port", "--port"));
    assert!(!same_text("--port", "--por"));
    assert!(!same_text("--port", "--Port"));
    assert!(same_text("", ""));
    assert!(same_text("päth", "päth"));
}

#[test]
fn json_get_finds_members() {
    let v = JsonValue::Object(vec![
        ("a".to_string(), JsonValue::Null),
        ("args".to_string(), JsonValue::Bool(true)),
        ("b".to_string(), JsonValue::Number("1.5".to_string())),
    ]);
    assert!(matches!(v.get("args"), Some(JsonValue::Bool(true))));
    assert!(v.get("c").is_none());
    assert!(JsonValue::Array(vec![]).get("args").is_none());
    assert!(JsonValue::Str("x".to_string()).as_str() == Some("x"));
    assert!(JsonValue::Null.as_str().is_none());
    assert!(JsonValue::Array(vec![JsonValue::Null]).as_array().unwrap().len() == 1);
    assert!(JsonValue::Null.as_array().is_none());
}

#[test]
fn extract_port_reads_args_member() {
    let args = |items: Vec<JsonValue>| LaunchRequestArguments {
        additional_data: Some(JsonValue::Object(vec![("args".to_string(), JsonValue::Array(items))])),
    };
    let s = |t: &str| JsonValue::Str(t.to_string());
    assert_eq!(extract_port_from_args(&args(vec![s("--port"), s("9300")])), Some(9300));
    assert_eq!(extract_port_from_args(&args(vec![s("--port"), s("9300"), s("x")])), Some(9300));
    assert_eq!(extract_port_from_args(&args(vec![s("x"), s("--port"), s("9300")])), None);
    assert_eq!(extract_port_from_args(&args(vec![s("--port"), JsonValue::Number("9300".to_string())])), None);
    assert_eq!(extract_port_from_args(&args(vec![s("--port")])), None);
    assert_eq!(extract_port_from_args(&LaunchRequestArguments { additional_data: None }), None);
    assert_eq!(
        extract_port_from_args(&LaunchRequestArguments { additional_data: Some(JsonValue::Array(vec![s("--port"), s("1")])) }),
        None
    );
}

#[test]
fn breakpoint_table_insert_and_get() {
    let mut t = BreakpointTable::new();
    assert!(t.get("/a").is_none());
    t.insert("/a".to_string(), vec![1, 2]);
    t.insert("/b".to_string(), vec![3]);
    t.insert("/a".to_string(), vec![4]);
    assert_eq!(t.get("/a").unwrap(), &vec![4]);
    assert_eq!(t.get("/b").unwrap(), &vec![3]);
    assert!(t.get("/c").is_none());
}

#[test]
fn source_duplicate_keeps_every_field() {
    let s = Source {
        name: Some("n".to_string()),
        path: Some("/p".to_string()),
        source_reference: Some(5),
        presentation_hint: Some(PresentationHint::DeEmphasize),
        origin: Some("o".to_string()),
        sources_json: Some("[]".to_string()),
        adapter_data_json: Some("null".to_string()),
        checksums: Some(vec![Checksum { algorithm: ChecksumAlgorithm::SHA256, checksum: "ab".to_string() }]),
    };
    let d = s.duplicate();
    assert_eq!(format!("{:?}", d), format!("{:?}", s));
    let u = Source::unknown();
    assert_eq!(u.name.as_deref(), Some("unknown"));
    assert!(u.path.is_none() && u.checksums.is_none());
}
