use zedlib::agents::{
    CodeContextRetriever, FunctionCall, FunctionCallingChoice, FunctionCallingMessage,
    OpenAIFunctionCallingResponse, Role as AiRole, Usage,
};
use zedlib::assistant::{
    build_sample_messages, sample_messages, ListItem, ListSplice, MessageList, ResponseRole, Role,
};
use zedlib::channels::{channels_from_reply, Channel, ChannelInfo, Channels};
use zedlib::composite_buffer::CompositeSelectionSet;
use zedlib::find::{Event, FindPanel};
use zedlib::layout::{align_offset, Axis, Orientation, Scrollable, Visibility, WhiteSpace};
use zedlib::notebook::{source_text, text_lines, SourceValue, StreamName, TextFormatError};
use zedlib::perf::{measure_lifetime, record_event, PerfGuard, SpanIds};
use zedlib::plugin_cache::{check_new_plugin, Error as CacheError, PluginCache};
use zedlib::settings::{LanguageOverride, Settings, SoftWrap};
use zedlib::themes::{OnePalette, OneThemes};

#[test]
fn language_overrides_win_where_they_give_a_value() {
    let mut settings = Settings::new(4, SoftWrap::NoWrap, 80);
    settings.set_language_override(
        "Rust".to_string(),
        LanguageOverride { tab_size: Some(2), soft_wrap: None, preferred_line_length: Some(100) },
    );
    assert_eq!(settings.tab_size(Some("Rust")), 2);
    assert_eq!(settings.tab_size(Some("Go")), 4);
    assert_eq!(settings.tab_size(None), 4);
    assert_eq!(settings.soft_wrap(Some("Rust")), SoftWrap::NoWrap);
    assert_eq!(settings.preferred_line_length(Some("Rust")), 100);
    assert_eq!(settings.preferred_line_length(Some("Go")), 80);
    assert_eq!(SoftWrap::default(), SoftWrap::NoWrap);
    let o = LanguageOverride::default();
    assert_eq!(o.tab_size, None);
}

#[test]
fn channels_roots_and_requests() {
    let mut channels = Channels::new();
    let request = channels.add_root_channel(7);
    assert_eq!(request.channel_roots, vec![7]);
    channels.add_root_channel(3);
    assert_eq!(channels.roots(), &[7, 3]);
    assert_eq!(channels.get_channels().channel_roots, vec![7, 3]);
    let found = channels_from_reply(vec![
        ChannelInfo { id: 1, name: "zed".to_string() },
        ChannelInfo { id: 2, name: "gpui".to_string() },
    ]);
    assert_eq!(found.len(), 2);
    assert_eq!(found[1].id(), 2);
    assert_eq!(found[1].name(), "gpui");
    assert!(found[0].members().is_empty());
    let parent = Channel::new(9, "all", found);
    assert_eq!(parent.members().len(), 2);
}

#[test]
fn notebook_text_fields() {
    let lines = SourceValue::Lines(vec![Some("a".to_string()), None, Some("c".to_string())]);
    assert_eq!(source_text(lines), Ok("a\n\nc".to_string()));
    assert_eq!(source_text(SourceValue::Text("x\ny".to_string())), Ok("x\ny".to_string()));
    assert_eq!(source_text(SourceValue::Lines(vec![])), Ok(String::new()));
    assert_eq!(source_text(SourceValue::Other), Err(TextFormatError::InvalidSourceFormat));
    let lines = SourceValue::Lines(vec![Some("a".to_string()), None, Some("c".to_string())]);
    assert_eq!(text_lines(lines), Ok(vec!["a".to_string(), "c".to_string()]));
    assert_eq!(text_lines(SourceValue::Text("t".to_string())), Ok(vec!["t".to_string()]));
    assert_eq!(text_lines(SourceValue::Other), Err(TextFormatError::ExpectedStringOrList));
    assert_ne!(StreamName::Stdout, StreamName::Stderr);
}

#[test]
fn conversation_updates() {
    let mut list = MessageList::new();
    let (splice, request) = list.send("hello".to_string());
    assert_eq!(splice, ListSplice { start: 0, end: 0, count: 2 });
    assert_eq!(request.content, "hello");
    assert_eq!(request.role, 1);
    assert!(matches!(list.items[0], ListItem::Header(Role::User)));
    let splice = list.start_reply(Some(ResponseRole::Assistant));
    assert_eq!(splice, ListSplice { start: 2, end: 2, count: 2 });
    assert_eq!(list.append_reply("Hi"), Some(ListSplice { start: 3, end: 4, count: 1 }));
    assert_eq!(list.append_reply(" there"), Some(ListSplice { start: 3, end: 4, count: 1 }));
    match &list.items[3] {
        ListItem::Message { role, content } => {
            assert_eq!(*role, Role::Assistant);
            assert_eq!(content, "Hi there");
        }
        _ => panic!("expected a message"),
    }
    let splice = list.start_reply(Some(ResponseRole::System));
    assert_eq!(splice, ListSplice { start: 4, end: 4, count: 0 });
    assert_eq!(list.items.len(), 4);
    assert_eq!(Role::from_proto(ResponseRole::User), Some(Role::User));
    let mut empty = MessageList::new();
    assert_eq!(empty.append_reply("x"), None);
    let mut headed = MessageList::new();
    headed.start_reply(Some(ResponseRole::User));
    headed.items.push(ListItem::Header(Role::User));
    assert_eq!(headed.append_reply("x"), None);
}

#[test]
fn sample_conversation() {
    let items = sample_messages();
    assert_eq!(items.len(), 8);
    match &items[1] {
        ListItem::Message { content, role } => {
            assert_eq!(*role, Role::User);
            assert_eq!(content, "How can I add another message to this list in Rust?\n");
        }
        _ => panic!("expected a message"),
    }
    match &items[2] {
        ListItem::CodeMessage { language, .. } => assert_eq!(language.as_deref(), Some("rust")),
        _ => panic!("expected code"),
    }
    build_sample_messages();
}

#[test]
fn function_calling_replies() {
    let choice = |content: Option<&str>, name: &str| FunctionCallingChoice {
        index: 0,
        message: FunctionCallingMessage {
            role: Some(AiRole::Assistant),
            content: content.map(|c| c.to_string()),
            function_call: FunctionCall { name: name.to_string(), arguments: "{}".to_string() },
        },
        finish_reason: None,
    };
    let response = OpenAIFunctionCallingResponse {
        id: None,
        object: "chat.completion".to_string(),
        created: 0,
        model: "m".to_string(),
        choices: vec![choice(Some("one"), "f"), choice(None, "g"), choice(Some("three"), "h")],
        usage: Usage { prompt_tokens: 1, completion_tokens: 2, total_tokens: 3 },
    };
    assert_eq!(response.get_message_content(), vec!["one".to_string(), "three".to_string()]);
    let calls = response.get_function_details();
    let names: Vec<String> = calls.iter().map(|c| c.name.clone()).collect();
    assert_eq!(names, vec!["f", "g", "h"]);
    let retriever = CodeContextRetriever {};
    assert_eq!(retriever.name(), "retrieve_code_context_from_repository");
    assert!(retriever.description().starts_with("Retrieve relevant code"));
}

#[test]
fn layout_values() {
    assert_eq!(Orientation::default(), Orientation::Axial(Axis::Vertical));
    assert_eq!(Visibility::default(), Visibility::Visible);
    assert_eq!(WhiteSpace::default(), WhiteSpace::Normal);
    let s = Scrollable::new("child", 3u32).horizontal(true);
    assert!(s.horizontal && !s.vertical);
    let s = s.vertical(true).horizontal(false);
    assert!(!s.horizontal && s.vertical);
    assert_eq!((s.child, s.state), ("child", 3));
    let mut offset = 0;
    align_offset(&mut offset);
    assert_eq!(offset, 0);
    let mut offset = 1;
    align_offset(&mut offset);
    assert_eq!(offset, 256);
    let mut offset = 512;
    align_offset(&mut offset);
    assert_eq!(offset, 512);
    let mut offset = 513;
    align_offset(&mut offset);
    assert_eq!(offset, 768);
}

#[test]
fn one_palette() {
    let p = OnePalette::default();
    assert_eq!(p.base, 0x191724);
    assert_eq!(p.highlight_high, 0x524f67);
    assert_eq!(OnePalette::dark(), p);
    let themes = OneThemes::new();
    assert_eq!(themes.dark, themes.default);
}

#[test]
fn perf_events() {
    let mut ids = SpanIds::new();
    let (mut guard, start) = PerfGuard::new("load", Some(1), Some("m".to_string()), &mut ids, 10);
    assert_eq!(start.span_id, Some(i64::MIN));
    assert_eq!(start.metadata, Some("m".to_string()));
    let end = guard.finish(20);
    assert_eq!(end.span_id, Some(i64::MIN));
    assert_eq!(end.nanoseconds, 20);
    assert_eq!(end.metadata, Some("m".to_string()));
    let again = guard.finish(30);
    assert_eq!(again.metadata, None);
    let (_, next) = measure_lifetime("draw", None, None, &mut ids, 40);
    assert_eq!(next.span_id, Some(i64::MIN + 1));
    let e = record_event("tick", Some(2), None, 50);
    assert_eq!((e.name, e.span_id, e.window_id, e.nanoseconds), ("tick", None, Some(2), 50));
}

#[test]
fn plugin_cache_paths() {
    let cache = PluginCache::new("/plugins".to_string());
    assert_eq!(cache.root(), "/plugins");
    let dir = cache.plugin_dir("hello");
    assert_eq!(dir, "/plugins/hello");
    assert_eq!(cache.versions_file(&dir), "/plugins/hello/versions.txt");
    assert_eq!(check_new_plugin(true), Err(CacheError::PluginExists));
    assert_eq!(check_new_plugin(false), Ok(()));
}

#[test]
fn find_panel_cancel() {
    let mut panel = FindPanel::new();
    assert_eq!(panel.cancel(), Event::Cancel);
    let set = CompositeSelectionSet { active: true };
    assert!(set.active);
}
