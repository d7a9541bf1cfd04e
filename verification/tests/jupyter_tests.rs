use zedlib::jupyter::{MessageKind, MimeBundle, MimeType};

#[test]
fn from_string() {
    let mime_type: MimeType = "text/plain".to_string().into();
    assert_eq!(mime_type, MimeType::Plain);
}

#[test]
fn mime_names_read_back() {
    let all = [
        MimeType::Plain,
        MimeType::Html,
        MimeType::Png,
        MimeType::DataTable,
        MimeType::VegaLiteV5,
        MimeType::Vdom,
        MimeType::Other,
    ];
    for m in all {
        let name = m.name().to_string();
        assert_eq!(MimeType::from_name(&name), m);
    }
    assert_eq!(MimeType::Html.name(), "text/html");
    assert_eq!(MimeType::DataTable.name(), "application/vnd.dataresource+json");
}

#[test]
fn unknown_mime_name_is_other() {
    let m: MimeType = "application/fancy".to_string().into();
    assert_eq!(m, MimeType::Other);
    assert_eq!(MimeType::Other.name(), "application/vnd.runtimelib.unknown");
}

#[test]
fn message_kinds_read_back() {
    assert_eq!(MessageKind::from_type("execute_request"), Some(MessageKind::ExecuteRequest));
    assert_eq!(MessageKind::from_type("error"), Some(MessageKind::ErrorReply));
    assert_eq!(MessageKind::from_type("stream"), Some(MessageKind::StreamContent));
    assert_eq!(MessageKind::Status.message_type(), "status");
    assert_eq!(MessageKind::IsCompleteReply.message_type(), "is_complete_reply");
    for k in [
        MessageKind::KernelInfoReply,
        MessageKind::UpdateDisplayData,
        MessageKind::CommClose,
        MessageKind::HistoryReply,
    ] {
        assert_eq!(MessageKind::from_type(k.message_type()), Some(k));
    }
}

#[test]
fn unsupported_message_type() {
    assert_eq!(MessageKind::from_type("kernel_restart"), None);
    assert_eq!(MessageKind::from_type(""), None);
}

const RAW: &str = r#"{
    "text/plain": "Hello, world!",
    "text/html": "<h1>Hello, world!</h1>",
    "application/json": {
        "name": "John Doe",
        "age": 30
    },
    "application/vnd.dataresource+json": {
        "data": [
            {"name": "Alice", "age": 25},
            {"name": "Bob", "age": 35}
        ],
        "schema": {
            "fields": [
                {"name": "name", "type": "string"},
                {"name": "age", "type": "integer"}
            ]
        }
    },
    "application/octet-stream": "Binary data"
}"#;

// A bundle read from a JSON object, each value under its key.
fn bundle_from_json(raw: &str) -> MimeBundle<serde_json::Value> {
    let map: serde_json::Map<String, serde_json::Value> = serde_json::from_str(raw).unwrap();
    let mut bundle = MimeBundle::new();
    for (name, value) in map {
        bundle.insert_named(name, value);
    }
    bundle
}

#[test]
fn richest_middle() {
    let bundle = bundle_from_json(RAW);
    let richest = bundle.richest(&[MimeType::Html]);
    let (mime_type, content) = richest.unwrap();
    assert_eq!(mime_type, MimeType::Html);
    assert_eq!(content, "<h1>Hello, world!</h1>");
}

#[test]
fn find_table() {
    let bundle = bundle_from_json(RAW);
    let richest = bundle.richest(&[MimeType::DataTable, MimeType::Json, MimeType::Html]);
    let (mime_type, content) = richest.unwrap();
    assert_eq!(mime_type, MimeType::DataTable);
    let expected: serde_json::Value = serde_json::from_str(
        r#"{
            "data": [
                {"name": "Alice", "age": 25},
                {"name": "Bob", "age": 35}
            ],
            "schema": {
                "fields": [
                    {"name": "name", "type": "string"},
                    {"name": "age", "type": "integer"}
                ]
            }
        }"#,
    )
    .unwrap();
    assert_eq!(content, expected);
}

#[test]
fn find_nothing_and_be_happy() {
    let bundle = bundle_from_json(
        r#"{
            "application/fancy": "Too ✨ Fancy ✨ for you!"
        }"#,
    );
    let richest = bundle.richest(&[
        MimeType::DataTable,
        MimeType::Json,
        MimeType::Html,
        MimeType::Svg,
        MimeType::Plain,
    ]);
    let binary_data = bundle.get_unknown("application/fancy");
    assert_eq!(
        binary_data,
        Some(&serde_json::Value::String("Too ✨ Fancy ✨ for you!".to_string()))
    );
    assert_eq!(richest, None);
}

#[test]
fn edge_case() {
    let bundle = bundle_from_json(RAW);
    let richest = bundle.richest(&[]);
    assert_eq!(richest, None);
}

#[test]
fn direct_access() {
    let raw = RAW.replace("\"text/plain\": \"Hello, world!\"", "\"text/plain\": \"🦀 Hello from Rust! 🦀\"");
    let bundle = bundle_from_json(&raw);
    assert_eq!(
        bundle.get(MimeType::Html).unwrap(),
        &serde_json::Value::String("<h1>Hello, world!</h1>".to_string())
    );
    assert_eq!(
        bundle.get(MimeType::from("text/plain".to_string())).unwrap(),
        "🦀 Hello from Rust! 🦀"
    );
    assert_eq!(bundle.get_unknown("application/octet-stream").unwrap(), "Binary data");
}
