//! What a notification of an extension comes to.
use crate::json::{JsonObject, JsonValue};
use crate::session::notify;
use crate::session::notify::{
    Display, FormattedLog, LogKinds, LogOutput, LogRenderings, LogView, Notification,
    NotificationAction, Screen,
};
use vstd::prelude::*;

verus! {

// The text of a log notification.

/// A formatted notification is seen as it is.
pub proof fn law_logs_are_seen_as_they_are(log: FormattedLog)
    ensures
        log@.text == log.text@,
        log.subagent_id is Some <==> log@.subagent_id is Some,
        log.subagent_id matches Some(id) ==> log@.subagent_id == Some(id@),
        log.kind is Some <==> log@.kind is Some,
        log.kind matches Some(kind) ==> log@.kind == Some(kind@),
{
}

/// A text is shown as it is.
pub proof fn law_text_is_shown(s: String, debug: bool, others: LogRenderings)
    ensures
        notify::log_format(JsonValue::Text(s), debug, others).text == s@,
        notify::log_format(JsonValue::Text(s), debug, others).subagent_id is None,
        notify::log_format(JsonValue::Text(s), debug, others).kind is None,
{
}

/// A subagent's own doings are announced by a robot.
pub open spec fn is_of_a_robot(kind: Seq<char>) -> bool {
    kind == "subagent_created"@ || kind == "completed"@ || kind == "terminated"@ || kind
        == "response_generated"@
}

/// A tool's doings are announced by a wrench.
pub open spec fn is_of_a_tool(kind: Seq<char>) -> bool {
    kind == "tool_usage"@ || kind == "tool_completed"@ || kind == "tool_error"@
}

/// Thoughts are announced by a bubble.
pub open spec fn is_of_a_thought(kind: Seq<char>) -> bool {
    kind == "message_processing"@ || kind == "turn_progress"@
}

/// The three groups of kinds have nothing in common.
pub proof fn law_groups_of_kinds(kind: Seq<char>)
    ensures
        !(is_of_a_robot(kind) && is_of_a_tool(kind)),
        !(is_of_a_robot(kind) && is_of_a_thought(kind)),
        !(is_of_a_tool(kind) && is_of_a_thought(kind)),
{
    reveal_strlit("subagent_created");
    reveal_strlit("completed");
    reveal_strlit("terminated");
    reveal_strlit("response_generated");
    reveal_strlit("tool_usage");
    reveal_strlit("tool_completed");
    reveal_strlit("tool_error");
    reveal_strlit("message_processing");
    reveal_strlit("turn_progress");
    assert("subagent_created"@.len() == 16 && "completed"@.len() == 9 && "terminated"@.len() == 10
        && "response_generated"@.len() == 18 && "tool_usage"@.len() == 10
        && "tool_completed"@.len() == 14 && "tool_error"@.len() == 10
        && "message_processing"@.len() == 18 && "turn_progress"@.len() == 13);
    assert("terminated"@[1] == 'e' && "tool_usage"@[1] == 'o' && "tool_error"@[1] == 'o');
    assert("response_generated"@[0] == 'r' && "message_processing"@[0] == 'm');
}

/// The message begins with `Responded: `.
pub open spec fn tells_a_response(msg: Seq<char>) -> bool {
    "Responded: "@.is_prefix_of(msg)
}

/// A message is shown behind the sign of its kind, with the subagent that it is about.
/// Only a generated response is shown shortened, where that is wanted and nobody looks
/// for errors.
pub proof fn law_message_is_shown(
    o: JsonObject,
    msg: Seq<char>,
    debug: bool,
    others: LogRenderings,
)
    requires
        o.string("message"@) == Some(msg),
    ensures
        ({
            let log = notify::log_format(JsonValue::Object(o), debug, others);
            let kind = o.string("type"@);
            let shortened = kind == Some("response_generated"@) && others.terse && !debug
                && tells_a_response(msg);
            &&& log.subagent_id == o.string("subagent_id"@)
            &&& log.kind == kind
            &&& shortened ==> log.text == "🤖 Responded: "@ + others.shortened@
            &&& !shortened && kind is Some && is_of_a_robot(kind->0) ==> log.text == "🤖 "@ + msg
            &&& kind is Some && is_of_a_tool(kind->0) ==> log.text == "🔧 "@ + msg
            &&& kind is Some && is_of_a_thought(kind->0) ==> log.text == "💭 "@ + msg
            &&& kind is None || (!is_of_a_robot(kind->0) && !is_of_a_tool(kind->0)
                && !is_of_a_thought(kind->0)) ==> log.text == msg
        }),
{
    let kind = o.string("type"@);
    if kind is Some {
        law_groups_of_kinds(kind->0);
    }
    let none: Seq<char> = seq![];
    assert(none + msg =~= msg);
}

/// Without a message an output is shown as it is; without that, what is made of it as
/// the progress of a task; and else its JSON text.
pub proof fn law_other_objects_are_shown(o: JsonObject, debug: bool, others: LogRenderings)
    requires
        o.string("message"@) is None,
    ensures
        ({
            let log = notify::log_format(JsonValue::Object(o), debug, others);
            &&& o.string("output"@) matches Some(out) ==> log.text == out && log.subagent_id is None
                && log.kind == o.string("type"@)
            &&& o.string("output"@) is None ==> {
                &&& others.task matches Some(task) ==> log == task@
                &&& others.task is None ==> log.text == others.json@ && log.subagent_id is None
                    && log.kind is None
            }
        }),
{
}

/// Everything else is shown as its JSON text.
pub proof fn law_other_values_are_shown(data: JsonValue, debug: bool, others: LogRenderings)
    requires
        !(data is Text),
        !(data is Object),
    ensures
        notify::log_format(data, debug, others).text == others.json@,
        notify::log_format(data, debug, others).subagent_id is None,
        notify::log_format(data, debug, others).kind is None,
{
}

/// What may have to be shortened is the response that a notification of that kind
/// reports: what follows `Responded: ` in its message.
pub proof fn law_reported_responses(data: JsonValue, response: Seq<char>)
    ensures
        notify::response_in(data) == Some(response) <==> {
            &&& data is Object
            &&& data->Object_0.string("type"@) == Some("response_generated"@)
            &&& data->Object_0.string("message"@) == Some("Responded: "@ + response)
        },
{
    let head = "Responded: "@;
    let whole = head + response;
    assert(whole.subrange(0, head.len() as int) =~= head);
    assert(whole.skip(head.len() as int) =~= response);
    if let JsonValue::Object(o) = data {
        if let Some(msg) = o.string("message"@) {
            if head.is_prefix_of(msg) {
                assert(msg =~= head + msg.skip(head.len() as int));
            }
        }
    }
}

// Where a log is shown.

/// What is about a subagent goes to a line: a dimmed one if a person is at the terminal,
/// which first hides the progress bars, and one beside the progress bars otherwise. With
/// one JSON object as the output it goes nowhere.
pub proof fn law_display_about_a_subagent(log: LogView, task_kind: Seq<char>, d: Display, s: Screen)
    requires
        log.subagent_id is Some,
    ensures
        ({
            let r = notify::log_display(log, task_kind, d, s);
            &&& r.hide_progress == d.interactive
            &&& d.json ==> r.output == LogOutput::Nowhere
            &&& !d.json && d.interactive ==> r.output == LogOutput::StyledLine
            &&& !d.json && !d.interactive ==> r.output == LogOutput::ProgressLine
        }),
{
}

/// The progress of a task is shown as it is, and the output of a shell on a line if much
/// is wanted; nothing else of a kind is shown. With one JSON object as the output all of
/// it goes nowhere.
pub proof fn law_display_of_a_kind(log: LogView, task_kind: Seq<char>, d: Display, s: Screen)
    requires
        log.subagent_id is None,
        log.kind is Some,
    ensures
        ({
            let r = notify::log_display(log, task_kind, d, s);
            let task = log.kind->0 == task_kind;
            let shell = log.kind->0 == "shell_output"@ && s.verbose;
            &&& r.hide_progress == (d.interactive && (task || shell))
            &&& task && !d.json ==> r.output == LogOutput::Raw
            &&& !task && shell && !d.json ==> r.output == LogOutput::Line
            &&& d.json || (!task && !shell) ==> r.output == LogOutput::Nowhere
        }),
{
}

/// What is of no kind stands beside the sign that the assistant thinks, or else beside
/// the progress bars, whatever the output is.
pub proof fn law_display_of_no_kind(log: LogView, task_kind: Seq<char>, d: Display, s: Screen)
    requires
        log.subagent_id is None,
        log.kind is None,
    ensures
        ({
            let r = notify::log_display(log, task_kind, d, s);
            &&& !r.hide_progress
            &&& s.thinking ==> r.output == LogOutput::Thinking
            &&& !s.thinking ==> r.output == LogOutput::ProgressLine
        }),
{
}

// Calls of tools by subagents.

/// What stands under a key counts as an object only if it is one.
pub proof fn law_objects_under_keys(o: JsonObject, key: Seq<char>)
    ensures
        notify::object_member(o, key) is Some <==> o.value(key) is Some && o.value(key)->0 is Object,
        notify::object_member(o, key) matches Some(m) ==> o.value(key) == Some(
            JsonValue::Object(m),
        ),
{
}

/// The notification reports a call of a tool by a subagent: it is of the kind for that,
/// names the subagent and holds the call.
pub open spec fn reports_a_call(data: JsonValue, request_kind: Seq<char>) -> bool {
    &&& data is Object
    &&& data->Object_0.string("type"@) == Some(request_kind)
    &&& data->Object_0.string("subagent_id"@) is Some
    &&& data->Object_0.value("tool_call"@) is Some
    &&& data->Object_0.value("tool_call"@)->0 is Object
}

/// A reported call is that of the subagent, with the name and the arguments that the
/// call gives; a call without a name is one of an unknown tool.
pub proof fn law_reported_calls(data: JsonValue, request_kind: Seq<char>)
    ensures
        notify::subagent_call(data, request_kind) is Some <==> reports_a_call(data, request_kind),
        notify::subagent_call(data, request_kind) matches Some(c) ==> {
            let o = data->Object_0;
            let call = o.value("tool_call"@)->0->Object_0;
            &&& o.string("subagent_id"@) == Some(c.subagent_id)
            &&& call.string("name"@) matches Some(name) ==> c.tool_name == name
            &&& call.string("name"@) is None ==> c.tool_name == "unknown"@
            &&& c.arguments matches Some(a) ==> call.value("arguments"@) == Some(
                JsonValue::Object(a),
            )
            &&& c.arguments is None ==> call.value("arguments"@) is None || !(call.value(
                "arguments"@,
            )->0 is Object)
        },
{
    law_objects_under_keys(data->Object_0, "tool_call"@);
}

/// The name is that of a chat tool.
pub open spec fn is_of_the_chat(name: Seq<char>) -> bool {
    name == "chat_send"@ || name == "chat_read"@ || name == "chat_claim"@ || name
        == "chat_release"@ || name == "chat_list"@
}

/// A reported call of a tool, but for the chat tools, is passed on with its subagent, its
/// tool and its arguments: as an event in a stream of events, on the screen where no
/// JSON object is the output. The progress bars are hidden if a person is at the
/// terminal. A call of a chat tool leads to nothing.
pub proof fn law_calls_are_shown(
    data: JsonValue,
    kinds: LogKinds,
    d: Display,
    s: Screen,
    others: LogRenderings,
    action: NotificationAction,
)
    requires
        reports_a_call(data, kinds.subagent_request@),
        notify::leads_to(Notification::Log(data), kinds, d, s, others, action),
    ensures
        ({
            let call = notify::subagent_call(data, kinds.subagent_request@)->0;
            let chat = is_of_the_chat(call.tool_name);
            &&& chat ==> action is Nothing
            &&& !chat && d.stream ==> {
                &&& action is EmitCall
                &&& action->EmitCall_call.subagent_id@ == call.subagent_id
                &&& action->EmitCall_call.tool_name@ == call.tool_name
                &&& action->EmitCall_call.arguments is Some <==> call.arguments is Some
                &&& action->EmitCall_call.arguments matches Some(a) ==> call.arguments == Some(*a)
                &&& action->EmitCall_hide_progress == d.interactive
            }
            &&& !chat && !d.stream && !d.json ==> {
                &&& action is RenderCall
                &&& action->RenderCall_call.subagent_id@ == call.subagent_id
                &&& action->RenderCall_call.tool_name@ == call.tool_name
                &&& action->RenderCall_call.arguments is Some <==> call.arguments is Some
                &&& action->RenderCall_call.arguments matches Some(a) ==> call.arguments == Some(
                    *a,
                )
                &&& action->RenderCall_hide_progress == d.interactive
            }
            &&& !chat && !d.stream && d.json ==> {
                &&& action is ShowLog
                &&& action->ShowLog_message@ == notify::log_format(data, d.debug, others).text
                &&& action->ShowLog_hide_progress == d.interactive
                &&& action->ShowLog_display == notify::log_display(
                    notify::log_format(data, d.debug, others),
                    kinds.task_execution@,
                    d,
                    s,
                )
            }
        }),
{
    law_reported_calls(data, kinds.subagent_request@);
}

/// Any other log notification is passed on with its text: as an event in a stream of
/// events, else to the place where it is shown.
pub proof fn law_logs_are_shown(
    data: JsonValue,
    kinds: LogKinds,
    d: Display,
    s: Screen,
    others: LogRenderings,
    action: NotificationAction,
)
    requires
        !reports_a_call(data, kinds.subagent_request@),
        notify::leads_to(Notification::Log(data), kinds, d, s, others, action),
    ensures
        ({
            let log = notify::log_format(data, d.debug, others);
            &&& d.stream ==> action is EmitLog && action->EmitLog_message@ == log.text
            &&& !d.stream ==> {
                &&& action is ShowLog
                &&& action->ShowLog_message@ == log.text
                &&& !action->ShowLog_hide_progress
                &&& action->ShowLog_display == notify::log_display(
                    log,
                    kinds.task_execution@,
                    d,
                    s,
                )
            }
        }),
{
    law_reported_calls(data, kinds.subagent_request@);
}

/// Progress is passed on, as an event or to a bar; any other notification leads to
/// nothing.
pub proof fn law_progress_is_shown(
    kinds: LogKinds,
    d: Display,
    s: Screen,
    others: LogRenderings,
    action: NotificationAction,
)
    ensures
        notify::leads_to(Notification::Progress, kinds, d, s, others, action) ==> {
            &&& action is EmitProgress <==> d.stream
            &&& action is UpdateProgress <==> !d.stream
        },
        notify::leads_to(Notification::Other, kinds, d, s, others, action) ==> action is Nothing,
{
}

/// A response is shortened to a hundred characters.
pub proof fn law_responses_are_shortened_to_a_hundred()
    ensures
        notify::RESPONSE_LIMIT == 100,
{
}

} // verus!
