use goose::json::{JsonObject, JsonValue};
use goose::session::notify::{
    display_log_notification, format_logging_notification, handle_mcp_notification,
    response_to_shorten, Display, FormattedLog, LogKinds, LogOutput, LogRenderings, Notification, RESPONSE_LIMIT,
    NotificationAction, Screen,
};

fn text(t: &str) -> JsonValue {
    JsonValue::Text(t.to_string())
}

fn object(members: Vec<(&str, JsonValue)>) -> JsonValue {
    JsonValue::Object(JsonObject {
        members: members.into_iter().map(|(k, v)| (k.to_string(), v)).collect(),
    })
}

fn others(terse: bool) -> LogRenderings {
    LogRenderings { json: "JSON".into(), task: None, shortened: "SHORT".into(), terse }
}

fn kinds() -> LogKinds {
    LogKinds { subagent_request: "subagent_call".into(), task_execution: "task".into() }
}

fn display(stream: bool, json: bool, interactive: bool) -> Display {
    Display { stream, json, interactive, debug: false }
}

fn quiet() -> Screen {
    Screen { verbose: false, thinking: false }
}

fn shown(data: &JsonValue, debug: bool, terse: bool) -> String {
    format_logging_notification(data, debug, &others(terse)).text
}

#[test]
fn logs_are_formatted_by_their_kind() {
    let of = |kind: &str| object(vec![("message", text("m")), ("type", text(kind))]);
    assert_eq!(shown(&text("plain"), false, false), "plain");
    assert_eq!(shown(&of("subagent_created"), false, false), "🤖 m");
    assert_eq!(shown(&of("completed"), false, false), "🤖 m");
    assert_eq!(shown(&of("terminated"), false, false), "🤖 m");
    assert_eq!(shown(&of("tool_usage"), false, false), "🔧 m");
    assert_eq!(shown(&of("tool_completed"), false, false), "🔧 m");
    assert_eq!(shown(&of("tool_error"), false, false), "🔧 m");
    assert_eq!(shown(&of("message_processing"), false, false), "💭 m");
    assert_eq!(shown(&of("turn_progress"), false, false), "💭 m");
    assert_eq!(shown(&of("anything"), false, false), "m");
    assert_eq!(shown(&object(vec![("message", text("m"))]), false, false), "m");
    assert_eq!(shown(&object(vec![("output", text("o"))]), false, false), "o");
    assert_eq!(shown(&object(vec![("message", JsonValue::Null)]), false, false), "JSON");
    assert_eq!(shown(&JsonValue::Number("3".into()), false, false), "JSON");
    let log = format_logging_notification(
        &object(vec![("message", text("m")), ("subagent_id", text("s")), ("type", text("k"))]),
        false,
        &others(false),
    );
    assert_eq!(log.subagent_id.as_deref(), Some("s"));
    assert_eq!(log.kind.as_deref(), Some("k"));
}

#[test]
fn responses_are_shortened_where_that_is_wanted() {
    let data = object(vec![
        ("message", text("Responded: a long answer")),
        ("type", text("response_generated")),
    ]);
    let long = response_to_shorten(&data).unwrap();
    assert_eq!((long.text.as_str(), long.limit), ("a long answer", 100));
    assert_eq!(RESPONSE_LIMIT, 100);
    assert_eq!(shown(&data, false, true), "🤖 Responded: SHORT");
    assert_eq!(shown(&data, true, true), "🤖 Responded: a long answer");
    assert_eq!(shown(&data, false, false), "🤖 Responded: a long answer");
    let other = object(vec![("message", text("Done")), ("type", text("response_generated"))]);
    assert_eq!(shown(&other, false, true), "🤖 Done");
    assert!(response_to_shorten(&other).is_none());
    assert!(response_to_shorten(&text("x")).is_none());
}

#[test]
fn the_progress_of_a_task_is_formatted_elsewhere() {
    let task = FormattedLog { text: "TASK".into(), subagent_id: None, kind: Some("task".into()) };
    let with = LogRenderings { json: "JSON".into(), task: Some(task), shortened: "".into(), terse: false };
    let log = format_logging_notification(&object(vec![]), false, &with);
    assert_eq!(log.text, "TASK");
    assert_eq!(log.kind.as_deref(), Some("task"));
}

#[test]
fn logs_go_where_they_belong() {
    let log = |id: Option<&str>, kind: Option<&str>| FormattedLog {
        text: "t".into(),
        subagent_id: id.map(|s| s.to_string()),
        kind: kind.map(|s| s.to_string()),
    };
    let at = |l: &FormattedLog, d: Display, s: Screen| {
        let r = display_log_notification(l, "task", d, s);
        (r.hide_progress, r.output)
    };
    let sub = log(Some("s"), None);
    assert_eq!(at(&sub, display(false, false, true), quiet()), (true, LogOutput::StyledLine));
    assert_eq!(at(&sub, display(false, false, false), quiet()), (false, LogOutput::ProgressLine));
    assert_eq!(at(&sub, display(false, true, true), quiet()), (true, LogOutput::Nowhere));
    assert_eq!(at(&sub, display(false, true, false), quiet()), (false, LogOutput::Nowhere));
    let task = log(None, Some("task"));
    assert_eq!(at(&task, display(false, false, true), quiet()), (true, LogOutput::Raw));
    let shell = log(None, Some("shell_output"));
    assert_eq!(at(&shell, display(false, false, true), quiet()), (false, LogOutput::Nowhere));
    let verbose = Screen { verbose: true, thinking: false };
    assert_eq!(at(&shell, display(false, false, true), verbose), (true, LogOutput::Line));
    let other = log(None, Some("other"));
    assert_eq!(at(&other, display(false, false, true), verbose), (false, LogOutput::Nowhere));
    let plain = log(None, None);
    assert_eq!(at(&plain, display(false, false, true), quiet()), (false, LogOutput::ProgressLine));
    let thinking = Screen { verbose: false, thinking: true };
    assert_eq!(at(&plain, display(false, false, true), thinking), (false, LogOutput::Thinking));
}

fn call(tool: Option<&str>) -> Notification {
    let mut members = vec![("arguments", object(vec![("a", JsonValue::Bool(true))]))];
    if let Some(name) = tool {
        members.push(("name", text(name)));
    }
    Notification::Log(object(vec![
        ("type", text("subagent_call")),
        ("subagent_id", text("s1")),
        ("tool_call", object(members)),
    ]))
}

#[test]
fn calls_of_the_chat_tools_are_not_shown() {
    for tool in ["chat_send", "chat_read", "chat_claim", "chat_release", "chat_list"] {
        let n = call(Some(tool));
        let r = handle_mcp_notification(&n, &kinds(), display(true, false, true), quiet(), &others(false));
        assert!(matches!(r, NotificationAction::Nothing));
    }
}

#[test]
fn calls_of_subagents_are_shown_as_calls() {
    let n = call(Some("shell"));
    match handle_mcp_notification(&n, &kinds(), display(true, false, true), quiet(), &others(false)) {
        NotificationAction::EmitCall { call, hide_progress } => {
            assert_eq!(call.subagent_id, "s1");
            assert_eq!(call.tool_name, "shell");
            assert!(hide_progress);
        }
        _ => panic!("a call is an event"),
    }
    let n = call(None);
    match handle_mcp_notification(&n, &kinds(), display(false, false, false), quiet(), &others(false)) {
        NotificationAction::RenderCall { call, hide_progress } => {
            assert_eq!(call.tool_name, "unknown");
            assert!(call.arguments.is_some());
            assert!(!hide_progress);
        }
        _ => panic!("a call is shown"),
    }
    match handle_mcp_notification(&n, &kinds(), display(false, true, true), quiet(), &others(false)) {
        NotificationAction::ShowLog { message, hide_progress, .. } => {
            assert_eq!(message, "JSON");
            assert!(hide_progress);
        }
        _ => panic!("in one JSON object a call is a log"),
    }
}

#[test]
fn other_notifications_are_logs_or_progress() {
    let n = Notification::Log(text("hello"));
    let r = handle_mcp_notification(&n, &kinds(), display(true, false, true), quiet(), &others(false));
    assert!(matches!(&r, NotificationAction::EmitLog { message } if message == "hello"));
    let r = handle_mcp_notification(&n, &kinds(), display(false, false, true), quiet(), &others(false));
    assert!(matches!(&r, NotificationAction::ShowLog { message, hide_progress: false, display }
        if message == "hello" && display.output == LogOutput::ProgressLine));
    let p = Notification::Progress;
    let r = handle_mcp_notification(&p, &kinds(), display(true, false, true), quiet(), &others(false));
    assert!(matches!(r, NotificationAction::EmitProgress));
    let r = handle_mcp_notification(&p, &kinds(), display(false, false, true), quiet(), &others(false));
    assert!(matches!(r, NotificationAction::UpdateProgress));
    let o = Notification::Other;
    let r = handle_mcp_notification(&o, &kinds(), display(false, false, true), quiet(), &others(false));
    assert!(matches!(r, NotificationAction::Nothing));
}
