use goose::chat::bus::ChatBus;
use goose::chat::client::{agent_name, name_for_hash, ChatClient, SessionContext};
use goose::chat::tools::{extension_name, instructions, names_chat_tool, transcript_file};
use goose::json::{JsonObject, JsonValue};
use goose::time::Timestamp;
use std::hash::{Hash, Hasher};

fn now() -> Timestamp {
    Timestamp::new(1_772_798_400, 0).unwrap()
}

fn args(members: Vec<(&str, JsonValue)>) -> JsonObject {
    JsonObject { members: members.into_iter().map(|(k, v)| (k.to_string(), v)).collect() }
}

fn text(t: &str) -> JsonValue {
    JsonValue::Text(t.to_string())
}

#[test]
fn test_agent_name_format() {
    let name = agent_name("20260306_42");
    assert!(name.starts_with("agent-"));
    // "agent-" (6) + 6 hex chars = 12
    assert_eq!(name.len(), 12);
}

#[test]
fn test_agent_name_deterministic() {
    let name1 = agent_name("session-123");
    let name2 = agent_name("session-123");
    assert_eq!(name1, name2);
}

#[test]
fn test_agent_name_unique() {
    let name1 = agent_name("session-1");
    let name2 = agent_name("session-2");
    assert_ne!(name1, name2);
}

#[test]
fn the_name_is_a_digest_of_the_session() {
    let mut hasher = std::collections::hash_map::DefaultHasher::new();
    "session-123".hash(&mut hasher);
    let expected = format!("agent-{:06x}", hasher.finish() & 0xFFFFFF);
    assert_eq!(agent_name("session-123"), expected);
    assert_eq!(name_for_hash(0xabcd_0012_a3f2_c1), "agent-a3f2c1");
    assert_eq!(name_for_hash(7), "agent-000007");
}

#[test]
fn test_get_tools_count() {
    let tools = ChatClient::get_tools();
    assert_eq!(tools.len(), 5); // send, read, claim, release, list
}

#[test]
fn test_get_tools_names() {
    let tools = ChatClient::get_tools();
    let names: Vec<&str> = tools.iter().map(|t| t.name.as_ref()).collect();
    assert!(names.contains(&"chat_send"));
    assert!(names.contains(&"chat_read"));
    assert!(names.contains(&"chat_claim"));
    assert!(names.contains(&"chat_release"));
    assert!(names.contains(&"chat_list"));
}

#[test]
fn the_tools_are_known_by_their_names() {
    for tool in ChatClient::get_tools() {
        assert!(names_chat_tool(tool.name));
    }
    assert!(!names_chat_tool("shell"));
    assert_eq!(extension_name(), "chat");
    assert_eq!(transcript_file(), "chat_transcript.md");
    assert!(instructions().starts_with("You are a subagent running concurrently"));
}

#[test]
fn a_message_is_read_once() {
    let mut bus = ChatBus::new();
    let mut one = ChatClient::new(None);
    let mut two = ChatClient::new(None);
    let sent = one.call_tool(&mut bus, "s1", "chat_send", Some(&args(vec![("message", text("hi"))])), now());
    assert!(!sent.is_error);

    let me = agent_name("s2");
    let from = agent_name("s1");
    let read = two.call_tool(&mut bus, "s2", "chat_read", None, now());
    assert!(!read.is_error);
    assert_eq!(read.text, format!("(your identity: {})\n[{}] hi", me, from));

    let again = two.call_tool(&mut bus, "s2", "chat_read", None, now());
    assert!(!again.text.contains("hi\n") && !again.text.ends_with("] hi"));

    let all = args(vec![("all", JsonValue::Bool(true))]);
    let whole = two.call_tool(&mut bus, "s2", "chat_read", Some(&all), now());
    assert_eq!(whole.text, format!("(your identity: {})\n[{}] hi", me, from));
}

#[test]
fn the_first_claim_wins() {
    let mut bus = ChatBus::new();
    let mut one = ChatClient::new(None);
    let mut two = ChatClient::new(None);
    let three = args(vec![("resource", text("3"))]);
    assert!(!one.call_tool(&mut bus, "s1", "chat_claim", Some(&three), now()).is_error);
    let denied = two.call_tool(&mut bus, "s2", "chat_claim", Some(&three), now());
    assert!(denied.is_error);
    assert!(denied.text.starts_with("Error: "));
    assert!(denied.text.contains(&agent_name("s1")));
    let refused = two.call_tool(&mut bus, "s2", "chat_release", Some(&three), now());
    assert!(!refused.is_error);
    assert_eq!(
        refused.text,
        format!("Error: '3' is claimed by '{}', not you", agent_name("s1"))
    );
    assert!(!one.call_tool(&mut bus, "s1", "chat_release", Some(&three), now()).is_error);
    assert!(!two.call_tool(&mut bus, "s2", "chat_claim", Some(&three), now()).is_error);
}

#[test]
fn bad_calls_are_answered_with_errors() {
    let mut bus = ChatBus::new();
    let mut c = ChatClient::new(None);
    assert_eq!(c.call_tool(&mut bus, "s", "chat_sing", None, now()).text, "Error: Unknown tool: chat_sing");
    assert_eq!(c.call_tool(&mut bus, "s", "chat_send", None, now()).text, "Error: Missing arguments");
    let none = args(vec![]);
    assert_eq!(
        c.call_tool(&mut bus, "s", "chat_send", Some(&none), now()).text,
        "Error: Missing required parameter: message"
    );
    let empty = args(vec![("message", text(""))]);
    assert_eq!(
        c.call_tool(&mut bus, "s", "chat_send", Some(&empty), now()).text,
        "Error: Message cannot be empty"
    );
    assert_eq!(
        c.call_tool(&mut bus, "s", "chat_claim", Some(&none), now()).text,
        "Error: Missing required parameter: resource"
    );
    assert_eq!(
        c.call_tool(&mut bus, "s", "chat_release", Some(&none), now()).text,
        "Error: Missing required parameter: resource"
    );
}

#[test]
fn whoever_calls_is_registered() {
    let mut bus = ChatBus::new();
    let mut c = ChatClient::new(Some(SessionContext {
        name: "tidy up".into(),
        transcript_path: "/work/chat_transcript.md".into(),
    }));
    let listed = c.call_tool(&mut bus, "s", "chat_list", None, now());
    assert!(!listed.is_error);
    assert!(listed.text.contains(&format!("- {} (you): tidy up", agent_name("s"))));
    assert_eq!(bus.transcript_path.as_deref(), Some("/work/chat_transcript.md"));
}
