//! The assistant's response to a message: a stream of events, each of which
//! leads to one action, until the stream ends, is cancelled or fails.
use crate::session::dialog::{Permission, TopUpOffers};
use crate::session::message;
use crate::session::message::{ActionRequired, ErrorCode, Message, MessageContent, Role};
use crate::session::notify::Display;
use crate::session::state;
use crate::session::state::CliSession;
use crate::session::tools;
use crate::session::tools::ToolMetric;
use crate::text;
use vstd::prelude::*;

verus! {

/// What the agent is told about the session.
pub struct SessionConfig {
    pub id: String,
    pub schedule_id: Option<String>,
    pub max_turns: Option<u32>,
    /// How the agent tries again, as JSON text.
    pub retry_config: Option<String>,
}

/// What a response waits for.
pub enum Waiting {
    /// The next event of the stream.
    Stream,
    /// The user's word on the tool call with an identifier.
    Permission { id: String },
    /// The information for the request with an identifier.
    Elicitation { id: String },
    /// The agent's acceptance of the information.
    Acceptance,
    /// Nothing any more; what has been shown is still to be finished.
    Finish,
    /// Nothing at all: the response ended in an error.
    Failed,
}

/// A response under way. Notifications of extensions neither change it nor the
/// conversation; see [`crate::session::notify::handle_mcp_notification`].
pub struct Turn {
    pub display: Display,
    pub waiting: Waiting,
    pub offers: TopUpOffers,
}

/// What happens during a response.
pub enum TurnEvent {
    /// The stream brings a message.
    Message(Message),
    /// The stream brings another conversation.
    HistoryReplaced(Vec<Message>),
    /// The stream tells that another model answers.
    ModelChange { model: String, mode: String },
    /// The stream fails. `context_exceeded` tells that the provider found the
    /// conversation too long.
    StreamError { error: String, context_exceeded: bool },
    /// The stream ends.
    StreamEnd,
    /// The user cancels.
    Cancelled,
    /// The user decided on a tool call.
    PermissionGiven(Permission),
    /// The user gave information, as JSON text.
    InformationGiven(String),
    /// The user gives no information.
    InformationRefused,
    /// The information cannot be asked for.
    InformationFailed(String),
    /// The agent has taken the information.
    Accepted,
    /// The user cannot be asked for a permission, or the agent does not take the
    /// information.
    Broken(String),
}

/// How a message is shown.
#[derive(Debug, Clone, Copy, PartialEq, Eq, Structural)]
pub enum MessageOutput {
    /// As an event.
    Emit,
    /// On the screen, with the offer to buy credits if it asks for them.
    Render,
    /// Not at all.
    Nothing,
}

/// How an error of the agent is reported.
pub struct ErrorReport {
    /// The error as an event.
    pub event: Option<String>,
    /// A notice on the screen that the conversation should have been compacted.
    pub compaction_notice: bool,
    /// The same notice in the log.
    pub compaction_warning: bool,
    /// A line on the error output.
    pub line: Option<String>,
}

/// What the program has to do after an event.
pub enum TurnAction {
    /// Go on.
    Nothing,
    /// Ask whether a tool may be called.
    AskPermission { prompt: Option<String> },
    /// Tell the agent what the user decided on a tool call.
    Confirm { id: String, permission: Permission },
    /// Tell the user that the call is cancelled and the agent that it is denied,
    /// then cancel the response.
    CancelCall { id: String, permission: Permission, notice: &'static str },
    /// Hide the signs of activity and ask for information.
    AskInformation { message: String, schema: String },
    /// Hand the last message to the agent.
    Reply,
    /// Show a notice and cancel the response.
    CancelWithNotice { notice: &'static str },
    /// Show an error and cancel the response.
    CancelWithError { error: String },
    /// Count, hide the progress bars and, if told to, the sign that the assistant
    /// thinks, and show the last message.
    ShowMessage { metrics: Vec<ToolMetric>, hide_thinking: bool, output: MessageOutput },
    /// Emit a change of the model as an event.
    EmitModelChange { model: String, mode: String },
    /// Print a line on the error output.
    PrintError { line: String },
    /// Report an error and cancel the response; where the assistant asks how to go
    /// on, show its question; then, where there is an explanation, show that.
    Report { report: ErrorReport, asked: bool, explanation: Option<&'static str> },
    /// Stop the response, and show the assistant's question if it asks how to go
    /// on.
    Stop { asked: bool },
    /// Give the error up.
    GiveUp { error: String },
}

// Errors of the agent.

/// The report of an error: an event in a stream of events, else a line, with a
/// notice where the conversation was too long.
pub open spec fn reports(r: ErrorReport, error: Seq<char>, exceeded: bool, stream: bool) -> bool {
    &&& text::option_text(r.event) == if stream {
        Some(error)
    } else {
        None
    }
    &&& r.compaction_notice == (exceeded && !stream)
    &&& r.compaction_warning == exceeded
    &&& text::option_text(r.line) == if stream {
        None
    } else {
        Some("Error: "@ + error)
    }
}

/// The report of an error of the agent.
pub fn handle_agent_error(error: &str, context_exceeded: bool, stream: bool) -> (r: ErrorReport)
    ensures
        reports(r, error@, context_exceeded, stream),
{
    ErrorReport {
        event: if stream {
            Some(error.to_owned())
        } else {
            None
        },
        compaction_notice: context_exceeded && !stream,
        compaction_warning: context_exceeded,
        line: if stream {
            None
        } else {
            Some(text::concat("Error: ", error))
        },
    }
}

/// The explanation that follows an error on the screen.
pub open spec fn explanation_text() -> Seq<char> {
    "The error above was an exception we were not able to handle.\nThese errors are often related to connection or authentication\nWe've removed the conversation up to the most recent user message\n- depending on the error you may be able to continue"@
}

// Steps.

/// The event can come while the response waits as it does.
pub open spec fn expects(waiting: Waiting, event: TurnEvent) -> bool {
    match waiting {
        Waiting::Stream => match event {
            TurnEvent::Message(_) => true,
            TurnEvent::HistoryReplaced(_) => true,
            TurnEvent::ModelChange { .. } => true,
            TurnEvent::StreamError { .. } => true,
            TurnEvent::StreamEnd => true,
            TurnEvent::Cancelled => true,
            _ => false,
        },
        Waiting::Permission { .. } => event is PermissionGiven || event is Broken,
        Waiting::Elicitation { .. } => event is InformationGiven || event is InformationRefused
            || event is InformationFailed,
        Waiting::Acceptance => event is Accepted || event is Broken,
        Waiting::Finish => false,
        Waiting::Failed => false,
    }
}

/// The message that gives the agent the information it asked for. Only the agent
/// sees it.
pub open spec fn information_message(m: Message, id: String, data: String) -> bool {
    &&& m.role == Role::User
    &&& m.content@ == seq![
        MessageContent::ActionRequired(
            ActionRequired::ElicitationResponse { id, user_data: data },
        ),
    ]
    &&& m.text@.len() == 0
    &&& !m.user_visible
    &&& m.agent_visible
}

/// The session and the response after a message has come.
pub open spec fn message_step(
    before: CliSession,
    m: Message,
    after: CliSession,
    waiting: Waiting,
    d: Display,
    action: TurnAction,
) -> bool {
    if let Some((id, prompt)) = tools::confirmation(m.content@) {
        &&& after == before
        &&& waiting == Waiting::Permission { id }
        &&& action == TurnAction::AskPermission { prompt }
    } else if let Some((id, text, schema)) = tools::elicitation(m.content@) {
        &&& after == before
        &&& waiting == Waiting::Elicitation { id }
        &&& action == TurnAction::AskInformation { message: text, schema }
    } else {
        &&& state::only_messages(before, after)
        &&& after.messages@ == before.messages@.push(m)
        &&& waiting is Stream
        &&& action matches TurnAction::ShowMessage { metrics, hide_thinking, output }
        &&& tools::metric_views(metrics@) == tools::message_metrics(
            m.content@,
            before.messages@,
        )
        &&& hide_thinking == d.interactive
        &&& output == if d.stream {
            MessageOutput::Emit
        } else if d.json {
            MessageOutput::Nothing
        } else {
            MessageOutput::Render
        }
    }
}

/// The session and the response after the user decided on a tool call.
pub open spec fn permission_step(
    before: CliSession,
    id: String,
    permission: Permission,
    after: CliSession,
    waiting: Waiting,
    action: TurnAction,
) -> bool {
    if permission == Permission::Cancel {
        &&& state::only_messages(before, after)
        &&& after.messages@.len() == before.messages@.len() + 1
        &&& after.messages@.drop_last() == before.messages@
        &&& message::failure_message(
            after.messages@.last(),
            seq![id@],
            ErrorCode::InvalidRequest,
            "Tool call cancelled by user"@,
        )
        &&& waiting is Finish
        &&& action matches TurnAction::CancelCall { id: denied, permission: told, notice }
        &&& denied == id
        &&& told == Permission::DenyOnce
        &&& notice@ == "Tool call cancelled. Returning to chat..."@
    } else {
        &&& after == before
        &&& waiting is Stream
        &&& action == TurnAction::Confirm { id, permission }
    }
}

/// The session and the response after an event.
pub open spec fn turn_step(
    before: CliSession,
    turn: Turn,
    event: TurnEvent,
    after: CliSession,
    waiting: Waiting,
    action: TurnAction,
) -> bool {
    let d = turn.display;
    match event {
        TurnEvent::Message(m) => message_step(before, m, after, waiting, d, action),
        TurnEvent::HistoryReplaced(ms) => {
            &&& state::only_messages(before, after)
            &&& after.messages == ms
            &&& waiting is Stream
            &&& action is Nothing
        },
        TurnEvent::ModelChange { model, mode } => {
            &&& after == before
            &&& waiting is Stream
            &&& if d.stream {
                action == (TurnAction::EmitModelChange { model, mode })
            } else if d.debug {
                action matches TurnAction::PrintError { line } && line@ == "Model changed to "@
                    + model@ + " in "@ + mode@ + " mode"@
            } else {
                action is Nothing
            }
        },
        TurnEvent::StreamError { error, context_exceeded } => {
            &&& waiting is Finish
            &&& action matches TurnAction::Report { report, asked, explanation }
            &&& state::interrupted_session(before, false, after, asked)
            &&& reports(report, error@, context_exceeded, d.stream)
            &&& match explanation {
                Some(e) => !d.stream && e@ == explanation_text(),
                None => d.stream,
            }
        },
        TurnEvent::StreamEnd => {
            &&& after == before
            &&& waiting is Finish
            &&& action is Nothing
        },
        TurnEvent::Cancelled => {
            &&& waiting is Finish
            &&& action matches TurnAction::Stop { asked }
            &&& state::interrupted_session(before, true, after, asked)
        },
        TurnEvent::PermissionGiven(permission) => permission_step(
            before,
            turn.waiting->Permission_id,
            permission,
            after,
            waiting,
            action,
        ),
        TurnEvent::InformationGiven(data) => {
            &&& state::only_messages(before, after)
            &&& after.messages@.len() == before.messages@.len() + 1
            &&& after.messages@.drop_last() == before.messages@
            &&& information_message(after.messages@.last(), turn.waiting->Elicitation_id, data)
            &&& waiting is Acceptance
            &&& action is Reply
        },
        TurnEvent::InformationRefused => {
            &&& after == before
            &&& waiting is Finish
            &&& action matches TurnAction::CancelWithNotice { notice }
            &&& notice@ == "Information request cancelled."@
        },
        TurnEvent::InformationFailed(why) => {
            &&& after == before
            &&& waiting is Finish
            &&& action matches TurnAction::CancelWithError { error }
            &&& error@ == "Failed to collect input: "@ + why@
        },
        TurnEvent::Accepted => {
            &&& after == before
            &&& waiting is Stream
            &&& action is Nothing
        },
        TurnEvent::Broken(error) => {
            &&& after == before
            &&& waiting is Failed
            &&& action == TurnAction::GiveUp { error }
        },
    }
}

/// How the end of a response is shown.
pub enum Finish {
    /// Print the conversation as one JSON object with the number of tokens used
    /// and a status.
    PrintJson { total_tokens: Option<i32>, status: &'static str },
    /// Emit the end as an event.
    EmitComplete { total_tokens: Option<i32> },
    /// Print what is left of the text, and an empty line.
    FlushText,
}

/// How a session with an output format shows things.
pub open spec fn display_of(s: CliSession, interactive: bool) -> Display {
    Display {
        stream: s.output_format@ == "stream-json"@,
        json: s.output_format@ == "json"@,
        interactive,
        debug: s.debug,
    }
}

impl CliSession {
    /// Begins the response to the last message of the conversation: how it will go
    /// on, and what is handed to the agent. It is an error if there is no message.
    pub fn begin_response(&self, interactive: bool) -> (r: Result<
        (Turn, SessionConfig, Message),
        String,
    >)
        ensures
            match r {
                Ok((turn, config, message)) => {
                    &&& self.messages@.len() > 0
                    &&& turn.display == display_of(*self, interactive)
                    &&& turn.waiting is Stream
                    &&& turn.offers.asked@.len() == 0
                    &&& config.id == self.session_id
                    &&& config.schedule_id == self.scheduled_job_id
                    &&& config.max_turns == self.max_turns
                    &&& config.retry_config == self.retry_config
                    &&& message::same_message(message, self.messages@.last())
                },
                Err(why) => self.messages@.len() == 0 && why@ == "No user message"@,
            },
    {
        if self.messages.len() == 0 {
            return Err("No user message".to_owned());
        }
        let display = Display {
            stream: text::same(self.output_format.as_str(), "stream-json"),
            json: text::same(self.output_format.as_str(), "json"),
            interactive,
            debug: self.debug,
        };
        let turn = Turn { display, waiting: Waiting::Stream, offers: TopUpOffers::new() };
        let config = SessionConfig {
            id: self.session_id.clone(),
            schedule_id: text::copy_option(&self.scheduled_job_id),
            max_turns: self.max_turns,
            retry_config: text::copy_option(&self.retry_config),
        };
        Ok((turn, config, self.messages[self.messages.len() - 1].copy()))
    }

    /// Takes an event of a response.
    pub fn process_agent_response(&mut self, turn: &mut Turn, event: TurnEvent) -> (action:
        TurnAction)
        requires
            expects(old(turn).waiting, event),
        ensures
            turn_step(*old(self), *old(turn), event, *final(self), final(turn).waiting, action),
            final(turn).display == old(turn).display,
            final(turn).offers == old(turn).offers,
    {
        let d = turn.display;
        match event {
            TurnEvent::Message(m) => self.take_message(turn, m),
            TurnEvent::HistoryReplaced(ms) => {
                self.messages = ms;
                TurnAction::Nothing
            },
            TurnEvent::ModelChange { model, mode } => {
                if d.stream {
                    TurnAction::EmitModelChange { model, mode }
                } else if d.debug {
                    let mut line = text::concat("Model changed to ", model.as_str());
                    line.append(" in ");
                    line.append(mode.as_str());
                    line.append(" mode");
                    TurnAction::PrintError { line }
                } else {
                    TurnAction::Nothing
                }
            },
            TurnEvent::StreamError { error, context_exceeded } => {
                let report = handle_agent_error(error.as_str(), context_exceeded, d.stream);
                let asked = self.handle_interrupted_messages(false);
                turn.waiting = Waiting::Finish;
                let explanation = if d.stream {
                    None
                } else {
                    Some(
                        "The error above was an exception we were not able to handle.\nThese errors are often related to connection or authentication\nWe've removed the conversation up to the most recent user message\n- depending on the error you may be able to continue",
                    )
                };
                TurnAction::Report { report, asked, explanation }
            },
            TurnEvent::StreamEnd => {
                turn.waiting = Waiting::Finish;
                TurnAction::Nothing
            },
            TurnEvent::Cancelled => {
                let asked = self.handle_interrupted_messages(true);
                turn.waiting = Waiting::Finish;
                TurnAction::Stop { asked }
            },
            TurnEvent::PermissionGiven(permission) => self.take_permission(turn, permission),
            TurnEvent::InformationGiven(data) => {
                let id = match &turn.waiting {
                    Waiting::Elicitation { id } => id.clone(),
                    _ => String::new(),
                };
                let content = vec![
                    MessageContent::ActionRequired(
                        ActionRequired::ElicitationResponse { id, user_data: data },
                    ),
                ];
                let m = Message {
                    role: Role::User,
                    content,
                    text: String::new(),
                    user_visible: false,
                    agent_visible: true,
                };
                assert(information_message(m, old(turn).waiting->Elicitation_id, data)) by {
                    assert(m.content@ =~= seq![
                        MessageContent::ActionRequired(
                            ActionRequired::ElicitationResponse {
                                id: old(turn).waiting->Elicitation_id,
                                user_data: data,
                            },
                        ),
                    ]);
                }
                self.messages.push(m);
                assert(self.messages@.drop_last() == old(self).messages@);
                turn.waiting = Waiting::Acceptance;
                TurnAction::Reply
            },
            TurnEvent::InformationRefused => {
                turn.waiting = Waiting::Finish;
                TurnAction::CancelWithNotice { notice: "Information request cancelled." }
            },
            TurnEvent::InformationFailed(why) => {
                turn.waiting = Waiting::Finish;
                TurnAction::CancelWithError {
                    error: text::concat("Failed to collect input: ", why.as_str()),
                }
            },
            TurnEvent::Accepted => {
                turn.waiting = Waiting::Stream;
                TurnAction::Nothing
            },
            TurnEvent::Broken(error) => {
                turn.waiting = Waiting::Failed;
                TurnAction::GiveUp { error }
            },
        }
    }

    fn take_message(&mut self, turn: &mut Turn, m: Message) -> (action: TurnAction)
        requires
            old(turn).waiting is Stream,
        ensures
            message_step(
                *old(self),
                m,
                *final(self),
                final(turn).waiting,
                old(turn).display,
                action,
            ),
            final(turn).display == old(turn).display,
            final(turn).offers == old(turn).offers,
    {
        if let Some((id, prompt)) = tools::find_tool_confirmation(&m) {
            turn.waiting = Waiting::Permission { id };
            TurnAction::AskPermission { prompt }
        } else if let Some((id, text, schema)) = tools::find_elicitation_request(&m) {
            turn.waiting = Waiting::Elicitation { id };
            TurnAction::AskInformation { message: text, schema }
        } else {
            let metrics = tools::log_tool_metrics(&m, &self.messages);
            self.messages.push(m);
            let d = turn.display;
            let output = if d.stream {
                MessageOutput::Emit
            } else if d.json {
                MessageOutput::Nothing
            } else {
                MessageOutput::Render
            };
            TurnAction::ShowMessage { metrics, hide_thinking: d.interactive, output }
        }
    }

    fn take_permission(&mut self, turn: &mut Turn, permission: Permission) -> (action: TurnAction)
        requires
            old(turn).waiting is Permission,
        ensures
            permission_step(
                *old(self),
                old(turn).waiting->Permission_id,
                permission,
                *final(self),
                final(turn).waiting,
                action,
            ),
            final(turn).display == old(turn).display,
            final(turn).offers == old(turn).offers,
    {
        let id = match &turn.waiting {
            Waiting::Permission { id } => id.clone(),
            _ => String::new(),
        };
        if permission == Permission::Cancel {
            let ids = vec![id.clone()];
            let m = Message::failing(&ids, ErrorCode::InvalidRequest, "Tool call cancelled by user");
            assert(text::texts(ids@) =~= seq![id@]);
            self.messages.push(m);
            assert(self.messages@.drop_last() == old(self).messages@);
            turn.waiting = Waiting::Finish;
            TurnAction::CancelCall {
                id,
                permission: Permission::DenyOnce,
                notice: "Tool call cancelled. Returning to chat...",
            }
        } else {
            turn.waiting = Waiting::Stream;
            TurnAction::Confirm { id, permission }
        }
    }
}

/// How the end of a response is shown, given the number of tokens that the
/// session has used as far as it is known.
pub fn finish_response(turn: &Turn, total_tokens: Option<i32>) -> (r: Finish)
    ensures
        if turn.display.json {
            r matches Finish::PrintJson { total_tokens: n, status } && n == total_tokens && status@
                == "completed"@
        } else if turn.display.stream {
            r == (Finish::EmitComplete { total_tokens })
        } else {
            r is FlushText
        },
{
    if turn.display.json {
        Finish::PrintJson { total_tokens, status: "completed" }
    } else if turn.display.stream {
        Finish::EmitComplete { total_tokens }
    } else {
        Finish::FlushText
    }
}

} // verus!
