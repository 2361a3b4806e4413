//! What becomes of the notifications that extensions send while they work.
use crate::chat::tools;
use crate::json::{JsonObject, JsonValue};
use crate::text;
use vstd::prelude::*;

verus! {

/// How the session shows things.
#[derive(Debug, Clone, Copy, PartialEq, Eq, Structural)]
pub struct Display {
    /// One JSON object per event.
    pub stream: bool,
    /// One JSON object at the end.
    pub json: bool,
    /// A person is at the terminal.
    pub interactive: bool,
    pub debug: bool,
}

/// The kinds of log notifications that the agent gives a name to: a subagent's
/// call of a tool, and the progress of a task.
pub struct LogKinds {
    pub subagent_request: String,
    pub task_execution: String,
}

/// A log notification ready to be shown: its text, the subagent it is about and
/// its kind.
pub struct FormattedLog {
    pub text: String,
    pub subagent_id: Option<String>,
    pub kind: Option<String>,
}

/// The length that a reported response is shortened to.
pub const RESPONSE_LIMIT: usize = 100;

/// What others make of a log notification: its JSON text, its text as the
/// progress of a task if it is that, and the shortened form of the response it
/// reports. `terse` tells that responses are shown shortened.
pub struct LogRenderings {
    pub json: String,
    pub task: Option<FormattedLog>,
    /// What [`response_to_shorten`] gives, shortened to [`RESPONSE_LIMIT`].
    pub shortened: String,
    pub terse: bool,
}

/// A response that has to be shortened before it is shown, and the length that it is
/// shortened to.
pub struct LongResponse {
    pub text: String,
    pub limit: usize,
}

/// A formatted notification as contracts speak of it.
pub struct LogView {
    pub text: Seq<char>,
    pub subagent_id: Option<Seq<char>>,
    pub kind: Option<Seq<char>>,
}

impl View for FormattedLog {
    type V = LogView;

    open spec fn view(&self) -> LogView {
        LogView {
            text: self.text@,
            subagent_id: text::option_text(self.subagent_id),
            kind: text::option_text(self.kind),
        }
    }
}

/// A log that is only a text.
pub open spec fn plain_log(t: Seq<char>) -> LogView {
    LogView { text: t, subagent_id: None, kind: None }
}

// The text of a log notification.

/// The response that a message reports.
pub open spec fn reported_response(msg: Seq<char>) -> Option<Seq<char>> {
    if "Responded: "@.is_prefix_of(msg) {
        Some(msg.skip("Responded: "@.len() as int))
    } else {
        None
    }
}

/// The sign that stands before messages of a kind.
pub open spec fn sign(kind: Option<Seq<char>>) -> Seq<char> {
    match kind {
        Some(k) => if k == "subagent_created"@ || k == "completed"@ || k == "terminated"@ || k
            == "response_generated"@ {
            "🤖 "@
        } else if k == "tool_usage"@ || k == "tool_completed"@ || k == "tool_error"@ {
            "🔧 "@
        } else if k == "message_processing"@ || k == "turn_progress"@ {
            "💭 "@
        } else {
            seq![]
        },
        None => seq![],
    }
}

/// A message of a kind. A generated response is shown shortened if `short` is
/// given.
pub open spec fn signed(kind: Option<Seq<char>>, msg: Seq<char>, short: Option<Seq<char>>) -> Seq<
    char,
> {
    if kind == Some("response_generated"@) && short is Some && reported_response(msg) is Some {
        "🤖 Responded: "@ + short->0
    } else {
        sign(kind) + msg
    }
}

/// What a log notification is shown as.
pub open spec fn log_format(data: JsonValue, debug: bool, others: LogRenderings) -> LogView {
    match data {
        JsonValue::Text(s) => plain_log(s@),
        JsonValue::Object(o) => match o.string("message"@) {
            Some(msg) => LogView {
                text: signed(
                    o.string("type"@),
                    msg,
                    if others.terse && !debug {
                        Some(others.shortened@)
                    } else {
                        None
                    },
                ),
                subagent_id: o.string("subagent_id"@),
                kind: o.string("type"@),
            },
            None => match o.string("output"@) {
                Some(out) => LogView { text: out, subagent_id: None, kind: o.string("type"@) },
                None => match others.task {
                    Some(task) => task@,
                    None => plain_log(others.json@),
                },
            },
        },
        _ => plain_log(others.json@),
    }
}

fn sign_of(kind: Option<&str>) -> (r: &'static str)
    ensures
        r@ == sign(
            match kind {
                Some(k) => Some(k@),
                None => None,
            },
        ),
{
    proof {
        reveal_strlit("");
        assert(""@ =~= seq![]);
    }
    match kind {
        Some(k) => {
            if text::same(k, "subagent_created") || text::same(k, "completed") || text::same(
                k,
                "terminated",
            ) || text::same(k, "response_generated") {
                "🤖 "
            } else if text::same(k, "tool_usage") || text::same(k, "tool_completed") || text::same(
                k,
                "tool_error",
            ) {
                "🔧 "
            } else if text::same(k, "message_processing") || text::same(k, "turn_progress") {
                "💭 "
            } else {
                ""
            }
        },
        None => "",
    }
}

/// The response that a log notification reports.
pub open spec fn response_in(data: JsonValue) -> Option<Seq<char>> {
    match data {
        JsonValue::Object(o) => match o.string("message"@) {
            Some(msg) => if o.string("type"@) == Some("response_generated"@) {
                reported_response(msg)
            } else {
                None
            },
            None => None,
        },
        _ => None,
    }
}

/// The response that a log notification reports, which may have to be shortened to
/// [`RESPONSE_LIMIT`] before it is shown.
pub fn response_to_shorten(data: &JsonValue) -> (r: Option<LongResponse>)
    ensures
        match r {
            Some(long) => response_in(*data) == Some(long.text@) && long.limit == RESPONSE_LIMIT,
            None => response_in(*data) is None,
        },
{
    if let JsonValue::Object(o) = data {
        if let Some(msg) = o.get_str("message") {
            if let Some(kind) = o.get_str("type") {
                if text::same(kind, "response_generated") {
                    return match text::after_prefix(msg, "Responded: ") {
                        Some(text) => Some(LongResponse { text, limit: RESPONSE_LIMIT }),
                        None => None,
                    };
                }
            }
        }
    }
    None
}

fn signed_text(kind: Option<&str>, msg: &str, short: Option<&str>) -> (r: String)
    ensures
        r@ == signed(
            match kind {
                Some(k) => Some(k@),
                None => None,
            },
            msg@,
            match short {
                Some(t) => Some(t@),
                None => None,
            },
        ),
{
    if let Some(k) = kind {
        if let Some(t) = short {
            if text::same(k, "response_generated") && text::begins_with(msg, "Responded: ") {
                return text::concat("🤖 Responded: ", t);
            }
        }
    }
    text::concat(sign_of(kind), msg)
}

fn copy_log(log: &FormattedLog) -> (r: FormattedLog)
    ensures
        r@ == log@,
{
    FormattedLog {
        text: log.text.clone(),
        subagent_id: text::copy_option(&log.subagent_id),
        kind: text::copy_option(&log.kind),
    }
}

fn plain(t: &str) -> (r: FormattedLog)
    ensures
        r@ == plain_log(t@),
{
    FormattedLog { text: t.to_owned(), subagent_id: None, kind: None }
}

/// Formats a log notification.
pub fn format_logging_notification(data: &JsonValue, debug: bool, others: &LogRenderings) -> (r:
    FormattedLog)
    ensures
        r@ == log_format(*data, debug, *others),
{
    match data {
        JsonValue::Text(s) => plain(s.as_str()),
        JsonValue::Object(o) => {
            let kind = o.get_str("type");
            if let Some(msg) = o.get_str("message") {
                let short = if others.terse && !debug {
                    Some(others.shortened.as_str())
                } else {
                    None
                };
                FormattedLog {
                    text: signed_text(kind, msg, short),
                    subagent_id: text::own_option(o.get_str("subagent_id")),
                    kind: text::own_option(kind),
                }
            } else if let Some(out) = o.get_str("output") {
                FormattedLog {
                    text: out.to_owned(),
                    subagent_id: None,
                    kind: text::own_option(kind),
                }
            } else {
                match &others.task {
                    Some(task) => copy_log(task),
                    None => plain(others.json.as_str()),
                }
            }
        },
        _ => plain(others.json.as_str()),
    }
}

// Where a log notification is shown.

/// Where a formatted log goes.
#[derive(Debug, Clone, Copy, PartialEq, Eq, Structural)]
pub enum LogOutput {
    /// A dimmed line.
    StyledLine,
    /// A line beside the progress bars.
    ProgressLine,
    /// The text as it is.
    Raw,
    /// A line.
    Line,
    /// The message beside the sign that the assistant thinks.
    Thinking,
    /// Nowhere.
    Nowhere,
}

/// Where a formatted log goes, and whether the progress bars are hidden before.
#[derive(Debug, Clone, Copy, PartialEq, Eq, Structural)]
pub struct LogDisplay {
    pub hide_progress: bool,
    pub output: LogOutput,
}

/// What the screen shows at present.
#[derive(Debug, Clone, Copy, PartialEq, Eq, Structural)]
pub struct Screen {
    /// Messages of the lowest priority are wanted.
    pub verbose: bool,
    /// The sign that the assistant thinks is on.
    pub thinking: bool,
}

/// Where a log goes.
pub open spec fn log_display(log: LogView, task_kind: Seq<char>, d: Display, s: Screen) -> LogDisplay {
    let shown = |output: LogOutput|
        LogDisplay {
            hide_progress: d.interactive,
            output: if d.json {
                LogOutput::Nowhere
            } else {
                output
            },
        };
    if log.subagent_id is Some {
        shown(
            if d.interactive {
                LogOutput::StyledLine
            } else {
                LogOutput::ProgressLine
            },
        )
    } else {
        match log.kind {
            Some(kind) => if kind == task_kind {
                shown(LogOutput::Raw)
            } else if kind == "shell_output"@ && s.verbose {
                shown(LogOutput::Line)
            } else {
                LogDisplay { hide_progress: false, output: LogOutput::Nowhere }
            },
            None => LogDisplay {
                hide_progress: false,
                output: if s.thinking {
                    LogOutput::Thinking
                } else {
                    LogOutput::ProgressLine
                },
            },
        }
    }
}

/// Decides where a log goes.
pub fn display_log_notification(log: &FormattedLog, task_kind: &str, d: Display, s: Screen) -> (r:
    LogDisplay)
    ensures
        r == log_display(log@, task_kind@, d, s),
{
    if log.subagent_id.is_some() {
        let output = if d.json {
            LogOutput::Nowhere
        } else if d.interactive {
            LogOutput::StyledLine
        } else {
            LogOutput::ProgressLine
        };
        return LogDisplay { hide_progress: d.interactive, output };
    }
    match &log.kind {
        Some(kind) => {
            if text::same(kind.as_str(), task_kind) {
                let output = if d.json {
                    LogOutput::Nowhere
                } else {
                    LogOutput::Raw
                };
                LogDisplay { hide_progress: d.interactive, output }
            } else if s.verbose && text::same(kind.as_str(), "shell_output") {
                let output = if d.json {
                    LogOutput::Nowhere
                } else {
                    LogOutput::Line
                };
                LogDisplay { hide_progress: d.interactive, output }
            } else {
                LogDisplay { hide_progress: false, output: LogOutput::Nowhere }
            }
        },
        None => {
            let output = if s.thinking {
                LogOutput::Thinking
            } else {
                LogOutput::ProgressLine
            };
            LogDisplay { hide_progress: false, output }
        },
    }
}

// Notifications.

/// A notification of an extension. What a progress notification holds is passed
/// on unread.
pub enum Notification {
    Log(JsonValue),
    Progress,
    Other,
}

/// A call of a tool by a subagent, as a log notification reports it.
pub struct SubagentCall<'a> {
    pub subagent_id: &'a str,
    pub tool_name: &'a str,
    pub arguments: Option<&'a JsonObject>,
}

/// What a notification leads to.
pub enum NotificationAction<'a> {
    Nothing,
    /// Emits a subagent's call as an event, after hiding the progress bars if
    /// told to.
    EmitCall { call: SubagentCall<'a>, hide_progress: bool },
    /// Shows a subagent's call, after hiding the progress bars if told to.
    RenderCall { call: SubagentCall<'a>, hide_progress: bool },
    /// Emits a log as an event.
    EmitLog { message: String },
    /// Shows a log, after hiding the progress bars if told to.
    ShowLog { message: String, hide_progress: bool, display: LogDisplay },
    /// Emits a progress notification as an event.
    EmitProgress,
    /// Moves a progress bar.
    UpdateProgress,
}

/// The object under a key.
pub open spec fn object_member(o: JsonObject, key: Seq<char>) -> Option<JsonObject> {
    match o.value(key) {
        Some(JsonValue::Object(m)) => Some(m),
        _ => None,
    }
}

/// A subagent's call as contracts speak of it.
pub struct CallView {
    pub subagent_id: Seq<char>,
    pub tool_name: Seq<char>,
    pub arguments: Option<JsonObject>,
}

/// The call of a tool by a subagent that a log notification reports.
pub open spec fn subagent_call(data: JsonValue, request_kind: Seq<char>) -> Option<CallView> {
    match data {
        JsonValue::Object(o) => match (
            o.string("type"@) == Some(request_kind),
            o.string("subagent_id"@),
            object_member(o, "tool_call"@),
        ) {
            (true, Some(id), Some(call)) => Some(
                CallView {
                    subagent_id: id,
                    tool_name: match call.string("name"@) {
                        Some(name) => name,
                        None => "unknown"@,
                    },
                    arguments: object_member(call, "arguments"@),
                },
            ),
            _ => None,
        },
        _ => None,
    }
}

/// The call is the one given.
pub open spec fn is_call(c: SubagentCall, view: CallView) -> bool {
    &&& c.subagent_id@ == view.subagent_id
    &&& c.tool_name@ == view.tool_name
    &&& match c.arguments {
        Some(a) => view.arguments == Some(*a),
        None => view.arguments is None,
    }
}

/// What a log notification leads to. Calls of the chat tools are passed over in
/// silence; other calls by subagents are shown as calls unless the output is one
/// JSON object; everything else is shown as a log.
pub open spec fn log_leads_to(
    data: JsonValue,
    kinds: LogKinds,
    d: Display,
    s: Screen,
    others: LogRenderings,
    action: NotificationAction,
) -> bool {
    let call = subagent_call(data, kinds.subagent_request@);
    if call is Some && tools::is_chat_tool(call->0.tool_name) {
        action is Nothing
    } else if call is Some && d.stream {
        action matches NotificationAction::EmitCall { call: c, hide_progress } && is_call(
            c,
            call->0,
        ) && hide_progress == d.interactive
    } else if call is Some && !d.json {
        action matches NotificationAction::RenderCall { call: c, hide_progress } && is_call(
            c,
            call->0,
        ) && hide_progress == d.interactive
    } else {
        let log = log_format(data, d.debug, others);
        if d.stream {
            action matches NotificationAction::EmitLog { message } && message@ == log.text
        } else {
            action matches NotificationAction::ShowLog { message, hide_progress, display }
                && message@ == log.text && hide_progress == (call is Some && d.interactive)
                && display == log_display(log, kinds.task_execution@, d, s)
        }
    }
}

/// What a notification leads to.
pub open spec fn leads_to(
    n: Notification,
    kinds: LogKinds,
    d: Display,
    s: Screen,
    others: LogRenderings,
    action: NotificationAction,
) -> bool {
    match n {
        Notification::Log(data) => log_leads_to(data, kinds, d, s, others, action),
        Notification::Progress => if d.stream {
            action is EmitProgress
        } else {
            action is UpdateProgress
        },
        Notification::Other => action is Nothing,
    }
}

fn find_object<'a>(o: &'a JsonObject, key: &str) -> (r: Option<&'a JsonObject>)
    ensures
        match r {
            Some(m) => object_member(*o, key@) == Some(*m),
            None => object_member(*o, key@) is None,
        },
{
    match o.get(key) {
        Some(JsonValue::Object(m)) => Some(m),
        _ => None,
    }
}

fn find_call<'a>(data: &'a JsonValue, request_kind: &str) -> (r: Option<SubagentCall<'a>>)
    ensures
        match r {
            Some(c) => subagent_call(*data, request_kind@) is Some && is_call(
                c,
                subagent_call(*data, request_kind@)->0,
            ),
            None => subagent_call(*data, request_kind@) is None,
        },
{
    if let JsonValue::Object(o) = data {
        if let Some(kind) = o.get_str("type") {
            if text::same(kind, request_kind) {
                if let Some(subagent_id) = o.get_str("subagent_id") {
                    if let Some(call) = find_object(o, "tool_call") {
                        let tool_name = match call.get_str("name") {
                            Some(name) => name,
                            None => "unknown",
                        };
                        let arguments = find_object(call, "arguments");
                        return Some(SubagentCall { subagent_id, tool_name, arguments });
                    }
                }
            }
        }
    }
    None
}

/// Decides what a notification leads to.
pub fn handle_mcp_notification<'a>(
    n: &'a Notification,
    kinds: &LogKinds,
    d: Display,
    s: Screen,
    others: &LogRenderings,
) -> (r: NotificationAction<'a>)
    ensures
        leads_to(*n, *kinds, d, s, *others, r),
{
    match n {
        Notification::Log(data) => {
            let mut hide_progress = false;
            if let Some(call) = find_call(data, kinds.subagent_request.as_str()) {
                if tools::names_chat_tool(call.tool_name) {
                    return NotificationAction::Nothing;
                }
                if d.stream {
                    return NotificationAction::EmitCall { call, hide_progress: d.interactive };
                }
                if !d.json {
                    return NotificationAction::RenderCall { call, hide_progress: d.interactive };
                }
                hide_progress = d.interactive;
            }
            let log = format_logging_notification(data, d.debug, others);
            if d.stream {
                NotificationAction::EmitLog { message: log.text }
            } else {
                let display = display_log_notification(&log, kinds.task_execution.as_str(), d, s);
                NotificationAction::ShowLog { message: log.text, hide_progress, display }
            }
        },
        Notification::Progress => {
            if d.stream {
                NotificationAction::EmitProgress
            } else {
                NotificationAction::UpdateProgress
            }
        },
        Notification::Other => NotificationAction::Nothing,
    }
}

/// With one JSON object as the only output, a notification about a subagent or
/// of a kind prints nothing.
pub proof fn law_json_mode_is_silent(log: LogView, task_kind: Seq<char>, d: Display, s: Screen)
    requires
        d.json,
        log.subagent_id is Some || log.kind is Some,
    ensures
        log_display(log, task_kind, d, s).output == LogOutput::Nowhere,
{
}

/// The subagents' use of the chat tools is never shown.
pub proof fn law_chat_calls_are_silent(
    data: JsonValue,
    kinds: LogKinds,
    d: Display,
    s: Screen,
    others: LogRenderings,
    action: NotificationAction,
)
    requires
        subagent_call(data, kinds.subagent_request@) is Some,
        tools::is_chat_tool(subagent_call(data, kinds.subagent_request@)->0.tool_name),
        leads_to(Notification::Log(data), kinds, d, s, others, action),
    ensures
        action is Nothing,
{
}

/// As a stream of events, every notification that is shown is an event.
pub proof fn law_stream_shows_only_events(
    n: Notification,
    kinds: LogKinds,
    d: Display,
    s: Screen,
    others: LogRenderings,
    action: NotificationAction,
)
    requires
        d.stream,
        leads_to(n, kinds, d, s, others, action),
    ensures
        action is Nothing || action is EmitCall || action is EmitLog || action is EmitProgress,
{
}

} // verus!
