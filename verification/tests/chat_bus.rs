use goose::chat::bus::{ChatBus, TranscriptWrite};
use goose::time::Timestamp;

fn make_bus() -> ChatBus {
    ChatBus::new()
}

fn noon() -> Timestamp {
    Timestamp::new(1_772_798_400, 0).unwrap()
}

#[test]
fn test_send_and_read_messages() {
    let mut bus = make_bus();
    bus.register_agent("alice".into(), "desc".into());
    bus.register_agent("bob".into(), "desc".into());

    let (msg, _) = bus.send_message("alice".into(), "all".into(), "hello".into(), noon());
    assert_eq!(msg.id, 1);
    assert_eq!(msg.from, "alice");

    // bob reads broadcast
    let msgs = bus.read_messages("bob", 0);
    assert_eq!(msgs.len(), 1);
    assert_eq!(msgs[0].content, "hello");

    // reading again with same cursor returns same messages
    let msgs = bus.read_messages("bob", 0);
    assert_eq!(msgs.len(), 1);

    // reading with updated cursor returns nothing
    let msgs = bus.read_messages("bob", 1);
    assert!(msgs.is_empty());
}

#[test]
fn test_read_filters_by_recipient() {
    let mut bus = make_bus();
    bus.send_message("alice".into(), "bob".into(), "for bob".into(), noon());
    bus.send_message("alice".into(), "all".into(), "broadcast".into(), noon());

    // bob sees both (addressed + broadcast)
    let msgs = bus.read_messages("bob", 0);
    assert_eq!(msgs.len(), 2);

    // charlie only sees broadcast
    let msgs = bus.read_messages("charlie", 0);
    assert_eq!(msgs.len(), 1);
    assert_eq!(msgs[0].content, "broadcast");
}

#[test]
fn test_message_ids_increment() {
    let mut bus = make_bus();
    let (m1, _) = bus.send_message("a".into(), "all".into(), "1".into(), noon());
    let (m2, _) = bus.send_message("a".into(), "all".into(), "2".into(), noon());
    let (m3, _) = bus.send_message("a".into(), "all".into(), "3".into(), noon());
    assert_eq!(m1.id, 1);
    assert_eq!(m2.id, 2);
    assert_eq!(m3.id, 3);
}

#[test]
fn test_read_since_id() {
    let mut bus = make_bus();
    bus.send_message("a".into(), "all".into(), "old".into(), noon());
    bus.send_message("a".into(), "all".into(), "new".into(), noon());

    let msgs = bus.read_messages("b", 1);
    assert_eq!(msgs.len(), 1);
    assert_eq!(msgs[0].content, "new");
}

#[test]
fn test_claim_success() {
    let mut bus = make_bus();
    let result = bus.claim("file.rs".into(), "alice".into());
    assert!(result.is_ok());
}

#[test]
fn test_claim_denied() {
    let mut bus = make_bus();
    bus.claim("file.rs".into(), "alice".into()).unwrap();
    let result = bus.claim("file.rs".into(), "bob".into());
    assert_eq!(result.unwrap_err(), "alice");
}

#[test]
fn test_claim_idempotent_same_owner() {
    let mut bus = make_bus();
    bus.claim("file.rs".into(), "alice".into()).unwrap();
    // Same owner trying again gets denied (not idempotent — it's claimed)
    let result = bus.claim("file.rs".into(), "alice".into());
    assert_eq!(result.unwrap_err(), "alice");
}

#[test]
fn test_different_resources_independent() {
    let mut bus = make_bus();
    bus.claim("file1.rs".into(), "alice".into()).unwrap();
    let result = bus.claim("file2.rs".into(), "bob".into());
    assert!(result.is_ok());
}

#[test]
fn test_release_success() {
    let mut bus = make_bus();
    bus.claim("file.rs".into(), "alice".into()).unwrap();
    let result = bus.release("file.rs", "alice");
    assert!(result.is_ok());

    // Now bob can claim it
    let result = bus.claim("file.rs".into(), "bob".into());
    assert!(result.is_ok());
}

#[test]
fn test_release_wrong_owner() {
    let mut bus = make_bus();
    bus.claim("file.rs".into(), "alice".into()).unwrap();
    let result = bus.release("file.rs", "bob");
    assert!(result.is_err());
    assert!(result.unwrap_err().contains("alice"));
}

#[test]
fn test_release_unclaimed() {
    let mut bus = make_bus();
    let result = bus.release("file.rs", "alice");
    assert!(result.is_err());
    assert!(result.unwrap_err().contains("not claimed"));
}

#[test]
fn test_register_and_list_agents() {
    let mut bus = make_bus();
    bus.register_agent("alice".into(), "architect".into());
    bus.register_agent("bob".into(), "developer".into());

    let agents = bus.list_agents();
    assert_eq!(agents.len(), 2);
}

#[test]
fn test_register_idempotent() {
    let mut bus = make_bus();
    bus.register_agent("alice".into(), "first".into());
    bus.register_agent("alice".into(), "second".into());

    let agents = bus.list_agents();
    assert_eq!(agents.len(), 1);
    // Keeps the first description
    assert_eq!(agents[0].1, "first");
}

#[test]
fn refusals_name_the_owner() {
    let mut bus = make_bus();
    bus.claim("3".into(), "alice".into()).unwrap();
    assert_eq!(bus.release("3", "bob").unwrap_err(), "'3' is claimed by 'alice', not you");
    assert_eq!(bus.release("7", "bob").unwrap_err(), "'7' is not claimed");
}

#[test]
fn the_transcript_begins_with_the_first_message() {
    let mut bus = make_bus();
    let (_, writes) = bus.send_message("a".into(), "all".into(), "unheard".into(), noon());
    assert!(writes.is_empty());

    bus.set_transcript_path("/work/chat_transcript.md".into());
    bus.set_transcript_path("/elsewhere/chat_transcript.md".into());
    assert_eq!(bus.transcript_path.as_deref(), Some("/work/chat_transcript.md"));

    let (_, writes) = bus.send_message("a".into(), "all".into(), "one".into(), noon());
    assert_eq!(writes.len(), 2);
    match &writes[0] {
        TranscriptWrite::Create(t) => {
            assert_eq!(t, "# Chat Transcript\n\n_Started: 2026-03-06 12:00:00 UTC_\n\n")
        }
        TranscriptWrite::Append(_) => panic!("the file has to be created"),
    }
    match &writes[1] {
        TranscriptWrite::Append(t) => assert_eq!(t, "**[a]** _12:00:00_\none\n\n"),
        TranscriptWrite::Create(_) => panic!("the file has its heading"),
    }

    let (_, writes) = bus.send_message("a".into(), "all".into(), "two".into(), noon());
    assert_eq!(writes.len(), 1);
    assert!(matches!(&writes[0], TranscriptWrite::Append(t) if t.ends_with("two\n\n")));
}
