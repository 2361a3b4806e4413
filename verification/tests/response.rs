use goose::session::dialog::Permission;
use goose::session::message::{
    ActionRequired, ErrorCode, Message, MessageContent, Role, ToolRequest, ToolResponse,
};
use goose::session::prompts::HintStatus;
use goose::session::response::{
    finish_response, handle_agent_error, Finish, MessageOutput, Turn, TurnAction, TurnEvent, Waiting,
};
use goose::session::state::CliSession;
use goose::session::tools::{find_elicitation_request, find_tool_confirmation, log_tool_metrics, ToolMetric};
use goose::time::Elapsed;

fn session(format: &str, debug: bool) -> CliSession {
    let mut s = CliSession::new(
        None,
        "sid".to_string(),
        debug,
        Some("job".to_string()),
        Some(3),
        None,
        Some("{\"max_retries\":2}".to_string()),
        format.to_string(),
        Elapsed::from_secs(0),
    );
    s.push_message(Message::with_text(Role::User, "question"));
    s
}

fn begin(s: &CliSession, interactive: bool) -> Turn {
    s.begin_response(interactive).ok().unwrap().0
}

fn parts(role: Role, content: Vec<MessageContent>) -> Message {
    Message { role, content, text: String::new(), user_visible: true, agent_visible: true }
}

fn asks_permission(id: &str, prompt: Option<&str>) -> Message {
    parts(
        Role::Assistant,
        vec![
            MessageContent::Text("may I?".into()),
            MessageContent::ActionRequired(ActionRequired::ToolConfirmation {
                id: id.into(),
                prompt: prompt.map(|p| p.to_string()),
            }),
        ],
    )
}

fn asks_information(id: &str) -> Message {
    parts(
        Role::Assistant,
        vec![MessageContent::ActionRequired(ActionRequired::Elicitation {
            id: id.into(),
            message: "your name?".into(),
            requested_schema: "{}".into(),
        })],
    )
}

#[test]
fn a_response_needs_a_message() {
    let s = CliSession::new(
        None,
        "sid".into(),
        false,
        None,
        None,
        None,
        None,
        "text".into(),
        Elapsed::from_secs(0),
    );
    assert_eq!(s.begin_response(true).err().unwrap(), "No user message");
    let s = session("stream-json", true);
    let (turn, config, message) = s.begin_response(true).ok().unwrap();
    assert!(turn.display.stream && !turn.display.json && turn.display.interactive && turn.display.debug);
    assert_eq!(config.id, "sid");
    assert_eq!(config.schedule_id.as_deref(), Some("job"));
    assert_eq!(config.max_turns, Some(3));
    assert_eq!(config.retry_config.as_deref(), Some("{\"max_retries\":2}"));
    assert_eq!(message.text, "question");
    assert!(begin(&session("json", false), false).display.json);
}

#[test]
fn a_message_is_kept_and_shown() {
    let mut s = session("text", false);
    let mut turn = begin(&s, true);
    let m = Message::with_text(Role::Assistant, "answer");
    match s.process_agent_response(&mut turn, TurnEvent::Message(m)) {
        TurnAction::ShowMessage { metrics, hide_thinking, output } => {
            assert!(metrics.is_empty());
            assert!(hide_thinking);
            assert_eq!(output, MessageOutput::Render);
        }
        _ => panic!("a message is shown"),
    }
    assert_eq!(s.messages.len(), 2);
    assert!(matches!(turn.waiting, Waiting::Stream));

    let mut s = session("stream-json", false);
    let mut turn = begin(&s, false);
    let m = Message::with_text(Role::Assistant, "answer");
    assert!(matches!(
        s.process_agent_response(&mut turn, TurnEvent::Message(m)),
        TurnAction::ShowMessage { hide_thinking: false, output: MessageOutput::Emit, .. }
    ));

    let mut s = session("json", false);
    let mut turn = begin(&s, false);
    let m = Message::with_text(Role::Assistant, "answer");
    assert!(matches!(
        s.process_agent_response(&mut turn, TurnEvent::Message(m)),
        TurnAction::ShowMessage { output: MessageOutput::Nothing, .. }
    ));
}

#[test]
fn a_tool_call_waits_for_the_user() {
    let mut s = session("text", false);
    let mut turn = begin(&s, true);
    let asked = s.process_agent_response(&mut turn, TurnEvent::Message(asks_permission("c1", Some("risky"))));
    assert!(matches!(&asked, TurnAction::AskPermission { prompt: Some(p) } if p == "risky"));
    assert_eq!(s.messages.len(), 1);
    let told = s.process_agent_response(&mut turn, TurnEvent::PermissionGiven(Permission::AllowOnce));
    assert!(matches!(&told, TurnAction::Confirm { id, permission: Permission::AllowOnce } if id == "c1"));
    assert!(matches!(turn.waiting, Waiting::Stream));
    assert_eq!(s.messages.len(), 1);
}

#[test]
fn a_cancelled_tool_call_is_denied_and_answered() {
    let mut s = session("text", false);
    let mut turn = begin(&s, true);
    s.process_agent_response(&mut turn, TurnEvent::Message(asks_permission("c1", None)));
    match s.process_agent_response(&mut turn, TurnEvent::PermissionGiven(Permission::Cancel)) {
        TurnAction::CancelCall { id, permission, notice } => {
            assert_eq!(id, "c1");
            assert_eq!(permission, Permission::DenyOnce);
            assert_eq!(notice, "Tool call cancelled. Returning to chat...");
        }
        _ => panic!("the call is cancelled"),
    }
    assert!(matches!(turn.waiting, Waiting::Finish));
    assert_eq!(s.messages.len(), 2);
    match &s.messages[1].content[0] {
        MessageContent::ToolResponse(r) => {
            assert_eq!(r.id, "c1");
            let e = r.tool_result.as_ref().err().unwrap();
            assert_eq!(e.code, ErrorCode::InvalidRequest);
            assert_eq!(e.message, "Tool call cancelled by user");
        }
        _ => panic!("the call is answered"),
    }
}

#[test]
fn a_question_that_cannot_be_asked_ends_the_response() {
    let mut s = session("text", false);
    let mut turn = begin(&s, true);
    s.process_agent_response(&mut turn, TurnEvent::Message(asks_permission("c1", None)));
    let end = s.process_agent_response(&mut turn, TurnEvent::Broken("no terminal".into()));
    assert!(matches!(&end, TurnAction::GiveUp { error } if error == "no terminal"));
    assert!(matches!(turn.waiting, Waiting::Failed));
}

#[test]
fn information_is_asked_for_and_handed_on() {
    let mut s = session("text", false);
    let mut turn = begin(&s, true);
    let asked = s.process_agent_response(&mut turn, TurnEvent::Message(asks_information("e1")));
    assert!(matches!(&asked, TurnAction::AskInformation { message, schema }
        if message == "your name?" && schema == "{}"));
    let reply = s.process_agent_response(&mut turn, TurnEvent::InformationGiven("{\"n\":1}".into()));
    assert!(matches!(reply, TurnAction::Reply));
    let given = s.messages.last().unwrap();
    assert!(!given.user_visible && given.agent_visible);
    assert!(matches!(&given.content[0],
        MessageContent::ActionRequired(ActionRequired::ElicitationResponse { id, user_data })
        if id == "e1" && user_data == "{\"n\":1}"));
    assert!(matches!(
        s.process_agent_response(&mut turn, TurnEvent::Accepted),
        TurnAction::Nothing
    ));
    assert!(matches!(turn.waiting, Waiting::Stream));
}

#[test]
fn information_can_be_refused_or_fail() {
    let mut s = session("text", false);
    let mut turn = begin(&s, true);
    s.process_agent_response(&mut turn, TurnEvent::Message(asks_information("e1")));
    assert!(matches!(
        s.process_agent_response(&mut turn, TurnEvent::InformationRefused),
        TurnAction::CancelWithNotice { notice: "Information request cancelled." }
    ));
    assert!(matches!(turn.waiting, Waiting::Finish));

    let mut turn = begin(&s, true);
    s.process_agent_response(&mut turn, TurnEvent::Message(asks_information("e1")));
    let failed = s.process_agent_response(&mut turn, TurnEvent::InformationFailed("bad schema".into()));
    assert!(matches!(&failed, TurnAction::CancelWithError { error }
        if error == "Failed to collect input: bad schema"));
    assert_eq!(s.messages.len(), 1);
}

#[test]
fn an_error_of_the_stream_is_reported() {
    let mut s = session("text", false);
    let mut turn = begin(&s, true);
    let event = TurnEvent::StreamError { error: "boom".into(), context_exceeded: true };
    match s.process_agent_response(&mut turn, event) {
        TurnAction::Report { report, asked, explanation } => {
            assert_eq!(report.line.as_deref(), Some("Error: boom"));
            assert!(report.event.is_none());
            assert!(report.compaction_notice && report.compaction_warning);
            assert!(asked);
            assert!(explanation.unwrap().starts_with("The error above was an exception"));
        }
        _ => panic!("the error is reported"),
    }
    // The question is taken back.
    assert_eq!(s.messages.len(), 1);
    assert!(s.messages[0].role == Role::Assistant);

    let r = handle_agent_error("boom", false, true);
    assert_eq!(r.event.as_deref(), Some("boom"));
    assert!(r.line.is_none() && !r.compaction_notice && !r.compaction_warning);
}

#[test]
fn a_cancelled_response_stops() {
    let mut s = session("text", false);
    let mut turn = begin(&s, true);
    assert!(matches!(
        s.process_agent_response(&mut turn, TurnEvent::Cancelled),
        TurnAction::Stop { asked: true }
    ));
    assert!(matches!(turn.waiting, Waiting::Finish));
    assert_eq!(s.completion_cache.hint_status, HintStatus::Interrupted);
}

#[test]
fn other_events_are_taken_as_they_are() {
    let mut s = session("text", true);
    let mut turn = begin(&s, true);
    s.process_agent_response(&mut turn, TurnEvent::HistoryReplaced(vec![]));
    assert!(s.messages.is_empty());
    let change = TurnEvent::ModelChange { model: "m".into(), mode: "lead".into() };
    let told = s.process_agent_response(&mut turn, change);
    assert!(matches!(&told, TurnAction::PrintError { line } if line == "Model changed to m in lead mode"));
    assert!(matches!(
        s.process_agent_response(&mut turn, TurnEvent::StreamEnd),
        TurnAction::Nothing
    ));
    assert!(matches!(turn.waiting, Waiting::Finish));

    let mut s = session("stream-json", true);
    let mut turn = begin(&s, true);
    let change = TurnEvent::ModelChange { model: "m".into(), mode: "lead".into() };
    assert!(matches!(
        s.process_agent_response(&mut turn, change),
        TurnAction::EmitModelChange { .. }
    ));
    let mut s = session("text", false);
    let mut turn = begin(&s, true);
    let change = TurnEvent::ModelChange { model: "m".into(), mode: "lead".into() };
    assert!(matches!(s.process_agent_response(&mut turn, change), TurnAction::Nothing));
}

#[test]
fn the_end_depends_on_the_format() {
    let finish = |format: &str| finish_response(&begin(&session(format, false), false), Some(9));
    assert!(matches!(finish("json"), Finish::PrintJson { total_tokens: Some(9), status: "completed" }));
    assert!(matches!(finish("stream-json"), Finish::EmitComplete { total_tokens: Some(9) }));
    assert!(matches!(finish("text"), Finish::FlushText));
}

#[test]
fn tool_calls_are_counted() {
    let request = |id: &str, tool: &str| {
        MessageContent::ToolRequest(ToolRequest { id: id.into(), tool_call: Ok(tool.into()) })
    };
    let response = |id: &str| {
        MessageContent::ToolResponse(ToolResponse { id: id.into(), tool_result: Ok("{}".into()) })
    };
    let history = vec![
        parts(Role::Assistant, vec![request("a", "old")]),
        parts(Role::Assistant, vec![request("a", "new"), request("b", "edit")]),
    ];
    let m = parts(Role::User, vec![response("a"), response("z"), request("c", "shell")]);
    let counted = log_tool_metrics(&m, &history);
    assert_eq!(counted.len(), 3);
    assert!(matches!(&counted[0], ToolMetric::Completed { tool_name, success: true } if tool_name == "new"));
    assert!(matches!(&counted[1], ToolMetric::Completed { tool_name, .. } if tool_name == "unknown"));
    assert!(matches!(&counted[2], ToolMetric::Started { tool_name } if tool_name == "shell"));
}

#[test]
fn questions_are_found_in_messages() {
    let m = asks_permission("c1", Some("risky"));
    assert_eq!(find_tool_confirmation(&m), Some(("c1".to_string(), Some("risky".to_string()))));
    assert_eq!(find_elicitation_request(&m), None);
    let m = asks_information("e1");
    assert_eq!(find_tool_confirmation(&m), None);
    assert_eq!(
        find_elicitation_request(&m),
        Some(("e1".to_string(), "your name?".to_string(), "{}".to_string()))
    );
}
