//! What a response does to a conversation, event by event.
use crate::session::dialog::Permission;
use crate::session::interrupt;
use crate::session::message;
use crate::session::message::{ErrorCode, Message, MessageContent, Role};
use crate::session::prompts::HintStatus;
use crate::session::response;
use crate::session::response::{ErrorReport, MessageOutput, Turn, TurnAction, TurnEvent, Waiting};
use crate::session::state;
use crate::session::state::CliSession;
use crate::session::tools;
use crate::session::tools::ToolMetric;
use vstd::prelude::*;

verus! {

// Messages.

/// A message that consists of a text says it, as its only part, to everyone.
pub proof fn law_text_messages(m: Message, role: Role, t: Seq<char>)
    requires
        message::text_message(m, role, t),
    ensures
        m.role == role,
        m.content@.len() == 1,
        m.content@[0] is Text,
        m.content@[0]->Text_0@ == t,
        m.text@ == t,
        m.user_visible && m.agent_visible,
{
}

/// A message that answers tool calls with an error answers each of them, in order, and
/// nothing else.
pub proof fn law_failure_messages(
    m: Message,
    ids: Seq<Seq<char>>,
    code: ErrorCode,
    why: Seq<char>,
    i: int,
)
    requires
        message::failure_message(m, ids, code, why),
        0 <= i < ids.len(),
    ensures
        m.role == Role::User,
        m.content@.len() == ids.len(),
        is_error_answer(m.content@[i], ids[i], code, why),
        m.text@.len() == 0,
        m.user_visible && m.agent_visible,
{
}

/// The part answers the tool call with an identifier by an error.
pub open spec fn is_error_answer(c: MessageContent, id: Seq<char>, code: ErrorCode, why: Seq<char>) -> bool {
    &&& c is ToolResponse
    &&& c->ToolResponse_0.id@ == id
    &&& c->ToolResponse_0.tool_result is Err
    &&& c->ToolResponse_0.tool_result->Err_0.code == code
    &&& c->ToolResponse_0.tool_result->Err_0.message@ == why
}

/// A message that is the same as another agrees with it in everything.
pub proof fn law_same_messages_agree(a: Message, b: Message)
    requires
        message::same_message(a, b),
    ensures
        a.role == b.role,
        a.content@ == b.content@,
        a.text@ == b.text@,
        a.user_visible == b.user_visible,
        a.agent_visible == b.agent_visible,
{
}

/// A conversation that is the same as another has the same messages in the same order.
pub proof fn law_same_conversations_agree(a: Seq<Message>, b: Seq<Message>, i: int)
    requires
        message::same_messages(a, b),
        0 <= i < b.len(),
    ensures
        a.len() == b.len(),
        a[i].role == b[i].role,
        a[i].content@ == b[i].content@,
        a[i].text@ == b[i].text@,
        a[i].user_visible == b[i].user_visible,
        a[i].agent_visible == b[i].agent_visible,
{
    assert(message::same_message(a[i], b[i]));
}

// Open tool calls.

/// The tool calls of two lists of parts, one behind the other, are those of the one
/// and then those of the other.
pub proof fn law_requests_of_parts_together(a: Seq<MessageContent>, b: Seq<MessageContent>)
    ensures
        interrupt::request_ids(a + b) == interrupt::request_ids(a) + interrupt::request_ids(b),
    decreases b.len(),
{
    if b.len() == 0 {
        assert(a + b =~= a);
        assert(interrupt::request_ids(a) + interrupt::request_ids(b) =~= interrupt::request_ids(a));
    } else {
        law_requests_of_parts_together(a, b.drop_last());
        assert((a + b).drop_last() =~= a + b.drop_last());
        assert((a + b).last() == b.last());
        assert(interrupt::request_ids(a + b) =~= interrupt::request_ids(a)
            + interrupt::request_ids(b));
    }
}

/// A part that is a tool call counts with its identifier, and no other part counts.
pub proof fn law_request_of_one_part(c: MessageContent)
    ensures
        c is ToolRequest ==> interrupt::request_ids(seq![c]) == seq![c->ToolRequest_0.id@],
        !(c is ToolRequest) ==> interrupt::request_ids(seq![c]).len() == 0,
{
    assert(seq![c].drop_last() =~= seq![]);
    assert(interrupt::request_ids(seq![]) =~= seq![]);
    assert(interrupt::request_ids(seq![c]) == match c {
        MessageContent::ToolRequest(r) => interrupt::request_ids(seq![]).push(r.id@),
        _ => interrupt::request_ids(seq![]),
    });
    if c is ToolRequest {
        assert(interrupt::request_ids(seq![c]) =~= seq![c->ToolRequest_0.id@]);
    }
}

/// One of the parts is the tool call with an identifier.
pub open spec fn is_requested(parts: Seq<MessageContent>, id: Seq<char>) -> bool {
    exists|i: int|
        0 <= i < parts.len() && #[trigger] parts[i] is ToolRequest && parts[i]->ToolRequest_0.id@
            == id
}

/// Every tool call among the parts is found, wherever it stands, and nothing else is.
pub proof fn law_every_request_is_found(parts: Seq<MessageContent>)
    ensures
        forall|i: int|
            0 <= i < parts.len() && #[trigger] parts[i] is ToolRequest
                ==> interrupt::request_ids(parts).contains(parts[i]->ToolRequest_0.id@),
        forall|k: int|
            0 <= k < interrupt::request_ids(parts).len() ==> is_requested(
                parts,
                #[trigger] interrupt::request_ids(parts)[k],
            ),
    decreases parts.len(),
{
    if parts.len() > 0 {
        let t = parts.drop_last();
        law_every_request_is_found(t);
        let r = interrupt::request_ids(parts);
        let q = interrupt::request_ids(t);
        assert forall|i: int| 0 <= i < parts.len() && #[trigger] parts[i] is ToolRequest implies
            r.contains(parts[i]->ToolRequest_0.id@) by {
            if i < t.len() {
                assert(t[i] is ToolRequest);
                let k = choose|k: int| 0 <= k < q.len() && q[k] == t[i]->ToolRequest_0.id@;
                assert(r[k] == q[k]);
            } else {
                assert(r[r.len() - 1] == parts[i]->ToolRequest_0.id@);
            }
        }
        assert forall|k: int| 0 <= k < r.len() implies is_requested(parts, #[trigger] r[k]) by {
            if k < q.len() {
                assert(r[k] == q[k]);
                let i = choose|i: int|
                    0 <= i < t.len() && #[trigger] t[i] is ToolRequest
                        && t[i]->ToolRequest_0.id@ == q[k];
                assert(parts[i] is ToolRequest);
            } else {
                assert(parts[parts.len() - 1] is ToolRequest);
            }
        }
    }
}

/// Tool calls are open only in a last message of the assistant, and all of those in it
/// are.
pub proof fn law_open_requests(ms: Seq<Message>)
    ensures
        ms.len() > 0 && ms.last().role == Role::Assistant ==> interrupt::open_requests(ms)
            == interrupt::request_ids(ms.last().content@),
        ms.len() == 0 || ms.last().role == Role::User ==> interrupt::open_requests(ms).len() == 0,
{
}

/// The message with which the assistant asks how to go on.
pub open spec fn asks_how_to_go_on(m: Message) -> bool {
    &&& m.role == Role::Assistant
    &&& m.content@.len() == 1
    &&& m.content@[0] is Text
    &&& m.content@[0]->Text_0@ == "Yes — what would you like me to do?"@
    &&& m.text@ == "Yes — what would you like me to do?"@
    &&& m.user_visible && m.agent_visible
}

/// The word that open tool calls are answered with.
pub open spec fn word_on_interruption(interrupt: bool) -> Seq<char> {
    if interrupt {
        "Interrupted by the user to make a correction"@
    } else {
        "An uncaught error happened during tool use"@
    }
}

/// An interruption answers every tool call of the assistant's last message with an
/// error, in a message of the user, and then the assistant asks how to go on. What was
/// said before stays.
pub proof fn law_interrupted_tool_calls(
    before: Seq<Message>,
    interrupt: bool,
    after: Seq<Message>,
    asked: bool,
    i: int,
)
    requires
        interrupt::interrupted(before, interrupt, after, asked),
        before.len() > 0,
        before.last().role == Role::Assistant,
        0 <= i < before.last().content@.len(),
        before.last().content@[i] is ToolRequest,
    ensures
        asked,
        after.len() == before.len() + 2,
        after.take(before.len() as int) == before,
        after[before.len() as int].role == Role::User,
        after[before.len() as int].text@.len() == 0,
        after[before.len() as int].user_visible && after[before.len() as int].agent_visible,
        exists|k: int|
            0 <= k < after[before.len() as int].content@.len() && is_error_answer(
                #[trigger] after[before.len() as int].content@[k],
                before.last().content@[i]->ToolRequest_0.id@,
                ErrorCode::InternalError,
                word_on_interruption(interrupt),
            ),
        forall|k: int|
            0 <= k < after[before.len() as int].content@.len() ==> {
                &&& #[trigger] after[before.len() as int].content@[k] is ToolResponse
                &&& interrupt::request_ids(before.last().content@)[k]
                    == after[before.len() as int].content@[k]->ToolResponse_0.id@
            },
        after[before.len() as int].content@.len() == interrupt::request_ids(
            before.last().content@,
        ).len(),
        asks_how_to_go_on(after.last()),
{
    let parts = before.last().content@;
    law_every_request_is_found(parts);
    let ids = interrupt::request_ids(parts);
    let k = choose|k: int| 0 <= k < ids.len() && ids[k] == parts[i]->ToolRequest_0.id@;
    let m = after[before.len() as int];
    assert(message::failed_part(
        m.content@[k],
        ids[k],
        ErrorCode::InternalError,
        word_on_interruption(interrupt),
    ));
    assert forall|k: int| 0 <= k < m.content@.len() implies {
        &&& #[trigger] m.content@[k] is ToolResponse
        &&& ids[k] == m.content@[k]->ToolResponse_0.id@
    } by {
        assert(message::failed_part(
            m.content@[k],
            ids[k],
            ErrorCode::InternalError,
            word_on_interruption(interrupt),
        ));
    }
}

/// An interruption takes back a message of the user that is no answer to a tool call;
/// an answer to a tool call stays. Either way the assistant then asks how to go on.
pub proof fn law_interrupted_user(
    before: Seq<Message>,
    interrupt: bool,
    after: Seq<Message>,
    asked: bool,
)
    requires
        interrupt::interrupted(before, interrupt, after, asked),
        before.len() > 0,
        before.last().role == Role::User,
        before.last().content@.len() > 0,
    ensures
        asked,
        before.last().content@[0] is ToolResponse ==> after.drop_last() == before && after.len()
            == before.len() + 1,
        !(before.last().content@[0] is ToolResponse) ==> after.drop_last() == before.drop_last()
            && after.len() == before.len(),
        asks_how_to_go_on(after.last()),
{
}

/// Otherwise an interruption leaves the conversation as it is: an empty one, one that
/// ends in an empty message of the user, and one that ends in a message of the assistant
/// without tool calls.
pub proof fn law_nothing_to_interrupt(
    before: Seq<Message>,
    interrupt: bool,
    after: Seq<Message>,
    asked: bool,
)
    requires
        interrupt::interrupted(before, interrupt, after, asked),
        before.len() > 0 && before.last().role == Role::User ==> before.last().content@.len() == 0,
        before.len() > 0 && before.last().role == Role::Assistant ==> forall|i: int|
            0 <= i < before.last().content@.len() ==> !(
            #[trigger] before.last().content@[i] is ToolRequest),
    ensures
        !asked,
        after == before,
{
    if before.len() > 0 && before.last().role == Role::Assistant {
        let parts = before.last().content@;
        law_every_request_is_found(parts);
        if interrupt::request_ids(parts).len() > 0 {
            let id = interrupt::request_ids(parts)[0];
            assert(is_requested(parts, id));
            let i = choose|i: int|
                0 <= i < parts.len() && #[trigger] parts[i] is ToolRequest
                    && parts[i]->ToolRequest_0.id@ == id;
            assert(parts[i] is ToolRequest);
        }
    }
}

// Sessions.

/// The sessions agree in what nobody changes while they run.
pub open spec fn agree_in_settings(a: CliSession, b: CliSession) -> bool {
    &&& a.session_id == b.session_id
    &&& a.debug == b.debug
    &&& a.scheduled_job_id == b.scheduled_job_id
    &&& a.max_turns == b.max_turns
    &&& a.edit_mode == b.edit_mode
    &&& a.retry_config == b.retry_config
    &&& a.output_format == b.output_format
}

/// The settings of a session are all of its settings.
pub proof fn law_settings_are_all_settings(a: CliSession, b: CliSession)
    requires
        state::same_settings(a, b),
    ensures
        agree_in_settings(a, b),
{
}

/// Where only the messages change, everything else stays.
pub proof fn law_only_messages_change(a: CliSession, b: CliSession)
    requires
        state::only_messages(a, b),
    ensures
        agree_in_settings(a, b),
        a.run_mode == b.run_mode,
        a.completion_cache == b.completion_cache,
{
}

/// An interruption of a session is one of its conversation; the user's own is also
/// hinted at. Everything else stays.
pub proof fn law_interrupted_sessions(
    before: CliSession,
    interrupt: bool,
    after: CliSession,
    asked: bool,
)
    requires
        state::interrupted_session(before, interrupt, after, asked),
    ensures
        agree_in_settings(before, after),
        before.run_mode == after.run_mode,
        before.completion_cache.prompts == after.completion_cache.prompts,
        before.completion_cache.prompt_info == after.completion_cache.prompt_info,
        before.completion_cache.last_updated == after.completion_cache.last_updated,
        interrupt ==> after.completion_cache.hint_status == HintStatus::Interrupted,
        !interrupt ==> after.completion_cache.hint_status == before.completion_cache.hint_status,
        interrupt::interrupted(before.messages@, interrupt, after.messages@, asked),
{
}

/// A message of a conversation is shown under the name of its role.
pub proof fn law_conversation_text(m: Message)
    ensures
        m.role == Role::User ==> state::conversation_text(m) == "## "@ + "User"@ + ": "@ + m.text@,
        m.role == Role::Assistant ==> state::conversation_text(m) == "## "@ + "Assistant"@ + ": "@
            + m.text@,
{
}

// Questions to the user.

/// The part asks whether a tool may be called.
pub open spec fn asks_for_permission(c: MessageContent) -> bool {
    c is ActionRequired && c->ActionRequired_0 is ToolConfirmation
}

/// The part asks for information.
pub open spec fn asks_for_information(c: MessageContent) -> bool {
    c is ActionRequired && c->ActionRequired_0 is Elicitation
}

proof fn lemma_confirmation(parts: Seq<MessageContent>, i: int)
    requires
        0 <= i <= parts.len(),
        forall|k: int| 0 <= k < i ==> !asks_for_permission(#[trigger] parts[k]),
    ensures
        tools::confirmation(parts) == tools::confirmation(parts.skip(i)),
    decreases i,
{
    if i == 0 {
        assert(parts.skip(0) =~= parts);
    } else {
        let rest = parts.drop_first();
        assert(!asks_for_permission(parts[0]));
        assert forall|k: int| 0 <= k < i - 1 implies !asks_for_permission(#[trigger] rest[k]) by {
            assert(rest[k] == parts[k + 1]);
        }
        lemma_confirmation(rest, i - 1);
        assert(rest.skip(i - 1) =~= parts.skip(i));
    }
}

/// The first part that asks for a permission is the question that counts; without such
/// a part there is none.
pub proof fn law_first_question_for_a_permission(parts: Seq<MessageContent>, i: int)
    requires
        0 <= i <= parts.len(),
        forall|k: int| 0 <= k < i ==> !asks_for_permission(#[trigger] parts[k]),
        i < parts.len() ==> asks_for_permission(parts[i]),
    ensures
        i == parts.len() ==> tools::confirmation(parts) is None,
        i < parts.len() ==> tools::confirmation(parts) == Some(
            (
                parts[i]->ActionRequired_0->ToolConfirmation_id,
                parts[i]->ActionRequired_0->prompt,
            ),
        ),
{
    lemma_confirmation(parts, i);
}

proof fn lemma_elicitation(parts: Seq<MessageContent>, i: int)
    requires
        0 <= i <= parts.len(),
        forall|k: int| 0 <= k < i ==> !asks_for_information(#[trigger] parts[k]),
    ensures
        tools::elicitation(parts) == tools::elicitation(parts.skip(i)),
    decreases i,
{
    if i == 0 {
        assert(parts.skip(0) =~= parts);
    } else {
        let rest = parts.drop_first();
        assert(!asks_for_information(parts[0]));
        assert forall|k: int| 0 <= k < i - 1 implies !asks_for_information(#[trigger] rest[k]) by {
            assert(rest[k] == parts[k + 1]);
        }
        lemma_elicitation(rest, i - 1);
        assert(rest.skip(i - 1) =~= parts.skip(i));
    }
}

/// The first part that asks for information is the question that counts; without such a
/// part there is none.
pub proof fn law_first_question_for_information(parts: Seq<MessageContent>, i: int)
    requires
        0 <= i <= parts.len(),
        forall|k: int| 0 <= k < i ==> !asks_for_information(#[trigger] parts[k]),
        i < parts.len() ==> asks_for_information(parts[i]),
    ensures
        i == parts.len() ==> tools::elicitation(parts) is None,
        i < parts.len() ==> tools::elicitation(parts) == Some(
            (
                parts[i]->ActionRequired_0->Elicitation_id,
                parts[i]->ActionRequired_0->message,
                parts[i]->ActionRequired_0->requested_schema,
            ),
        ),
{
    lemma_elicitation(parts, i);
}

/// A message that asks for a permission has the user asked about the first call that it
/// names, with the warning that goes with it, and changes nothing. It does not matter
/// what else the message holds.
pub proof fn law_permission_is_asked_for(
    before: CliSession,
    turn: Turn,
    m: Message,
    after: CliSession,
    waiting: Waiting,
    action: TurnAction,
    i: int,
)
    requires
        response::turn_step(before, turn, TurnEvent::Message(m), after, waiting, action),
        0 <= i < m.content@.len(),
        asks_for_permission(m.content@[i]),
        forall|k: int| 0 <= k < i ==> !asks_for_permission(#[trigger] m.content@[k]),
    ensures
        after == before,
        waiting is Permission,
        waiting->Permission_id == m.content@[i]->ActionRequired_0->ToolConfirmation_id,
        action is AskPermission,
        action->AskPermission_prompt == m.content@[i]->ActionRequired_0->prompt,
{
    law_first_question_for_a_permission(m.content@, i);
}

/// A message that asks for no permission and for information has the user asked for it,
/// with the text and the schema that it gives, and changes nothing.
pub proof fn law_information_is_asked_for(
    before: CliSession,
    turn: Turn,
    m: Message,
    after: CliSession,
    waiting: Waiting,
    action: TurnAction,
    i: int,
)
    requires
        response::turn_step(before, turn, TurnEvent::Message(m), after, waiting, action),
        forall|k: int|
            0 <= k < m.content@.len() ==> !asks_for_permission(#[trigger] m.content@[k]),
        0 <= i < m.content@.len(),
        asks_for_information(m.content@[i]),
        forall|k: int| 0 <= k < i ==> !asks_for_information(#[trigger] m.content@[k]),
    ensures
        after == before,
        waiting is Elicitation,
        waiting->Elicitation_id == m.content@[i]->ActionRequired_0->Elicitation_id,
        action is AskInformation,
        action->AskInformation_message == m.content@[i]->ActionRequired_0->message,
        action->schema == m.content@[i]->ActionRequired_0->requested_schema,
{
    law_first_question_for_a_permission(m.content@, m.content@.len() as int);
    law_first_question_for_information(m.content@, i);
}

/// Any other message is put at the end of the conversation and shown: as an event in a
/// stream of events, not at all where one JSON object is the output, else on the screen.
/// Everything else stays.
pub proof fn law_other_messages_are_kept_and_shown(
    before: CliSession,
    turn: Turn,
    m: Message,
    after: CliSession,
    waiting: Waiting,
    action: TurnAction,
)
    requires
        response::turn_step(before, turn, TurnEvent::Message(m), after, waiting, action),
        forall|k: int|
            0 <= k < m.content@.len() ==> !asks_for_permission(#[trigger] m.content@[k])
                && !asks_for_information(m.content@[k]),
    ensures
        after.messages@ == before.messages@.push(m),
        agree_in_settings(before, after),
        after.run_mode == before.run_mode,
        after.completion_cache == before.completion_cache,
        waiting is Stream,
        action is ShowMessage,
        action->hide_thinking == turn.display.interactive,
        action->output == MessageOutput::Emit <==> turn.display.stream,
        action->output == MessageOutput::Nothing <==> turn.display.json && !turn.display.stream,
        action->output == MessageOutput::Render <==> !turn.display.json && !turn.display.stream,
        tools::metric_views(action->metrics@) == tools::message_metrics(
            m.content@,
            before.messages@,
        ),
{
    law_first_question_for_a_permission(m.content@, m.content@.len() as int);
    law_first_question_for_information(m.content@, m.content@.len() as int);
}

// Permissions.

/// What the user decided on a tool call is what the agent is told, of that call: only
/// the word to cancel is not passed on.
pub proof fn law_decision_is_passed_on(
    before: CliSession,
    turn: Turn,
    permission: Permission,
    after: CliSession,
    waiting: Waiting,
    action: TurnAction,
)
    requires
        response::expects(turn.waiting, TurnEvent::PermissionGiven(permission)),
        response::turn_step(
            before,
            turn,
            TurnEvent::PermissionGiven(permission),
            after,
            waiting,
            action,
        ),
        permission != Permission::Cancel,
    ensures
        turn.waiting is Permission,
        action is Confirm,
        action->Confirm_id == turn.waiting->Permission_id,
        action->Confirm_permission == permission,
        waiting is Stream,
        after == before,
{
}

/// A step on a permission does the same whoever asks for it.
pub proof fn law_permission_steps_pass_the_decision_on(
    before: CliSession,
    id: String,
    permission: Permission,
    after: CliSession,
    waiting: Waiting,
    action: TurnAction,
)
    requires
        response::permission_step(before, id, permission, after, waiting, action),
        permission != Permission::Cancel,
    ensures
        action is Confirm,
        action->Confirm_id == id,
        action->Confirm_permission == permission,
        waiting is Stream,
        after == before,
{
}

/// If the user cancels, the call is denied once and answered with an error, and the
/// response ends. Everything else stays.
pub proof fn law_cancelled_call(
    before: CliSession,
    turn: Turn,
    after: CliSession,
    waiting: Waiting,
    action: TurnAction,
)
    requires
        response::expects(turn.waiting, TurnEvent::PermissionGiven(Permission::Cancel)),
        response::turn_step(
            before,
            turn,
            TurnEvent::PermissionGiven(Permission::Cancel),
            after,
            waiting,
            action,
        ),
    ensures
        turn.waiting is Permission,
        action is CancelCall,
        action->CancelCall_id == turn.waiting->Permission_id,
        action->CancelCall_permission == Permission::DenyOnce,
        action->CancelCall_notice@ == "Tool call cancelled. Returning to chat..."@,
        waiting is Finish,
        agree_in_settings(before, after),
        after.run_mode == before.run_mode,
        after.completion_cache == before.completion_cache,
        after.messages@.len() == before.messages@.len() + 1,
        after.messages@.drop_last() == before.messages@,
        after.messages@.last().role == Role::User,
        after.messages@.last().text@.len() == 0,
        after.messages@.last().user_visible && after.messages@.last().agent_visible,
        after.messages@.last().content@.len() == 1,
        is_error_answer(
            after.messages@.last().content@[0],
            turn.waiting->Permission_id@,
            ErrorCode::InvalidRequest,
            "Tool call cancelled by user"@,
        ),
{
    let ids = seq![turn.waiting->Permission_id@];
    assert(message::failed_part(
        after.messages@.last().content@[0],
        ids[0],
        ErrorCode::InvalidRequest,
        "Tool call cancelled by user"@,
    ));
}

// Information.

/// Information that the user gives goes to the agent, and to nobody else, as the answer
/// to the request it was asked for. Without it the response ends, and says why.
pub proof fn law_information_goes_to_the_agent(
    before: CliSession,
    turn: Turn,
    event: TurnEvent,
    after: CliSession,
    waiting: Waiting,
    action: TurnAction,
)
    requires
        turn.waiting is Elicitation,
        response::expects(turn.waiting, event),
        response::turn_step(before, turn, event, after, waiting, action),
    ensures
        event matches TurnEvent::InformationGiven(data) ==> {
            let m = after.messages@.last();
            &&& after.messages@.len() == before.messages@.len() + 1
            &&& after.messages@.drop_last() == before.messages@
            &&& m.role == Role::User
            &&& m.content@.len() == 1
            &&& m.content@[0] is ActionRequired
            &&& m.content@[0]->ActionRequired_0 is ElicitationResponse
            &&& m.content@[0]->ActionRequired_0->ElicitationResponse_id
                == turn.waiting->Elicitation_id
            &&& m.content@[0]->ActionRequired_0->user_data == data
            &&& m.text@.len() == 0
            &&& m.agent_visible && !m.user_visible
            &&& agree_in_settings(before, after)
            &&& after.run_mode == before.run_mode
            &&& after.completion_cache == before.completion_cache
            &&& waiting is Acceptance
            &&& action is Reply
        },
        event is InformationRefused ==> {
            &&& after == before
            &&& waiting is Finish
            &&& action is CancelWithNotice
            &&& action->CancelWithNotice_notice@ == "Information request cancelled."@
        },
        event matches TurnEvent::InformationFailed(why) ==> {
            &&& after == before
            &&& waiting is Finish
            &&& action is CancelWithError
            &&& action->CancelWithError_error@ == "Failed to collect input: "@ + why@
        },
        event is InformationGiven || event is InformationRefused || event is InformationFailed,
{
}

// The stream.

/// A conversation that the stream brings takes the place of the one before; nothing
/// else changes, and the stream goes on.
pub proof fn law_conversation_is_replaced(
    before: CliSession,
    turn: Turn,
    ms: Vec<Message>,
    after: CliSession,
    waiting: Waiting,
    action: TurnAction,
)
    requires
        response::turn_step(before, turn, TurnEvent::HistoryReplaced(ms), after, waiting, action),
    ensures
        after.messages@ == ms@,
        agree_in_settings(before, after),
        after.run_mode == before.run_mode,
        after.completion_cache == before.completion_cache,
        waiting is Stream,
        action is Nothing,
{
}

/// A change of the model is told as an event in a stream of events, else as a line if
/// someone looks for errors, else not at all. It changes nothing.
pub proof fn law_model_change_is_told(
    before: CliSession,
    turn: Turn,
    model: String,
    mode: String,
    after: CliSession,
    waiting: Waiting,
    action: TurnAction,
)
    requires
        response::turn_step(
            before,
            turn,
            TurnEvent::ModelChange { model, mode },
            after,
            waiting,
            action,
        ),
    ensures
        after == before,
        waiting is Stream,
        turn.display.stream ==> action is EmitModelChange && action->model == model && action->mode
            == mode,
        !turn.display.stream && turn.display.debug ==> action is PrintError
            && action->PrintError_line@ == "Model changed to "@ + model@ + " in "@ + mode@ + " mode"@,
        !turn.display.stream && !turn.display.debug ==> action is Nothing,
{
}

/// An error of the stream is reported and ends the response; the conversation is
/// interrupted by the error, not by the user. On the screen an explanation follows.
pub proof fn law_stream_errors(
    before: CliSession,
    turn: Turn,
    error: String,
    context_exceeded: bool,
    after: CliSession,
    waiting: Waiting,
    action: TurnAction,
)
    requires
        response::turn_step(
            before,
            turn,
            TurnEvent::StreamError { error, context_exceeded },
            after,
            waiting,
            action,
        ),
    ensures
        waiting is Finish,
        action is Report,
        interrupt::interrupted(before.messages@, false, after.messages@, action->Report_asked),
        agree_in_settings(before, after),
        after.completion_cache.hint_status == before.completion_cache.hint_status,
        response::reports(action->report, error@, context_exceeded, turn.display.stream),
        action->explanation is Some <==> !turn.display.stream,
        action->explanation matches Some(e) ==> e@
            == "The error above was an exception we were not able to handle.\nThese errors are often related to connection or authentication\nWe've removed the conversation up to the most recent user message\n- depending on the error you may be able to continue"@,
{
}

/// An error is an event in a stream of events and a line otherwise, never both. A
/// conversation that was too long is noted in the log, and on the screen where there is
/// no stream of events.
pub proof fn law_error_reports(r: ErrorReport, error: Seq<char>, exceeded: bool, stream: bool)
    requires
        response::reports(r, error, exceeded, stream),
    ensures
        r.event is Some <==> stream,
        r.event matches Some(e) ==> e@ == error,
        r.line is Some <==> !stream,
        r.line matches Some(l) ==> l@ == "Error: "@ + error,
        r.compaction_warning <==> exceeded,
        r.compaction_notice <==> exceeded && !stream,
{
}

/// The end of the stream ends the response and changes nothing.
pub proof fn law_stream_ends(
    before: CliSession,
    turn: Turn,
    after: CliSession,
    waiting: Waiting,
    action: TurnAction,
)
    requires
        response::turn_step(before, turn, TurnEvent::StreamEnd, after, waiting, action),
    ensures
        after == before,
        waiting is Finish,
        action is Nothing,
{
}

/// A response that the user cancels ends, and the conversation is interrupted by the
/// user.
pub proof fn law_cancelled_response(
    before: CliSession,
    turn: Turn,
    after: CliSession,
    waiting: Waiting,
    action: TurnAction,
)
    requires
        response::turn_step(before, turn, TurnEvent::Cancelled, after, waiting, action),
    ensures
        waiting is Finish,
        action is Stop,
        interrupt::interrupted(before.messages@, true, after.messages@, action->Stop_asked),
        agree_in_settings(before, after),
        after.completion_cache.hint_status == HintStatus::Interrupted,
{
}

/// Once the agent has taken the information the stream goes on; if it does not take it,
/// or if the user cannot be asked for a permission, the error is given up.
pub proof fn law_acceptance(
    before: CliSession,
    turn: Turn,
    event: TurnEvent,
    after: CliSession,
    waiting: Waiting,
    action: TurnAction,
)
    requires
        response::turn_step(before, turn, event, after, waiting, action),
    ensures
        event is Accepted ==> after == before && waiting is Stream && action is Nothing,
        event matches TurnEvent::Broken(error) ==> after == before && waiting is Failed && action
            is GiveUp && action->GiveUp_error == error,
{
}

/// What a response waits for tells which events can come.
pub proof fn law_expected_events(waiting: Waiting, event: TurnEvent)
    requires
        response::expects(waiting, event),
    ensures
        event is Message || event is HistoryReplaced || event is ModelChange || event is StreamError
            || event is StreamEnd || event is Cancelled <==> waiting is Stream,
        event is PermissionGiven ==> waiting is Permission,
        event is InformationGiven || event is InformationRefused || event is InformationFailed
            <==> waiting is Elicitation,
        event is Accepted ==> waiting is Acceptance,
        event is Broken ==> waiting is Permission || waiting is Acceptance,
{
}

/// Every event that belongs to what a response waits for is taken.
pub proof fn law_events_are_taken(waiting: Waiting, event: TurnEvent)
    ensures
        waiting is Stream && (event is Message || event is HistoryReplaced || event is ModelChange
            || event is StreamError || event is StreamEnd || event is Cancelled)
            ==> response::expects(waiting, event),
        waiting is Permission && (event is PermissionGiven || event is Broken)
            ==> response::expects(waiting, event),
        waiting is Elicitation && (event is InformationGiven || event is InformationRefused
            || event is InformationFailed) ==> response::expects(waiting, event),
        waiting is Acceptance && (event is Accepted || event is Broken) ==> response::expects(
            waiting,
            event,
        ),
{
}

/// How a session shows things follows from its output format, from whether it looks for
/// errors, and from whether someone is at the terminal.
pub proof fn law_display_of_a_session(s: CliSession, interactive: bool)
    ensures
        response::display_of(s, interactive).stream <==> s.output_format@ == "stream-json"@,
        response::display_of(s, interactive).json <==> s.output_format@ == "json"@,
        response::display_of(s, interactive).interactive <==> interactive,
        response::display_of(s, interactive).debug <==> s.debug,
{
}

// Counting.

/// The counts of two lists of parts, one behind the other, are those of the one and then
/// those of the other.
pub proof fn law_counts_of_parts_together(
    a: Seq<MessageContent>,
    b: Seq<MessageContent>,
    history: Seq<Message>,
)
    ensures
        tools::message_metrics(a + b, history) == tools::message_metrics(a, history)
            + tools::message_metrics(b, history),
    decreases b.len(),
{
    if b.len() == 0 {
        assert(a + b =~= a);
        assert(tools::message_metrics(a, history) + tools::message_metrics(b, history)
            =~= tools::message_metrics(a, history));
    } else {
        law_counts_of_parts_together(a, b.drop_last(), history);
        assert((a + b).drop_last() =~= a + b.drop_last());
        assert((a + b).last() == b.last());
        assert(tools::message_metrics(a + b, history) =~= tools::message_metrics(a, history)
            + tools::message_metrics(b, history));
    }
}

/// A readable tool call counts as started, under its tool's name; an answer counts as
/// completed, under the name of the tool that was last asked for with its identifier,
/// and as a success if and only if it brings a result. Nothing else counts.
pub proof fn law_count_of_one_part(c: MessageContent, history: Seq<Message>)
    ensures
        ({
            let counts = tools::message_metrics(seq![c], history);
            &&& c is ToolRequest && c->ToolRequest_0.tool_call is Ok ==> counts.len() == 1
                && counts[0].0 == c->ToolRequest_0.tool_call->Ok_0@ && counts[0].1 is None
            &&& c is ToolRequest && c->ToolRequest_0.tool_call is Err ==> counts.len() == 0
            &&& c is ToolResponse ==> {
                let tool = tools::latest_requested_tool(history, c->ToolResponse_0.id@);
                &&& counts.len() == 1
                &&& tool matches Some(name) ==> counts[0].0 == name
                &&& tool is None ==> counts[0].0 == "unknown"@
                &&& counts[0].1 == Some(c->ToolResponse_0.tool_result is Ok)
            }
            &&& !(c is ToolRequest) && !(c is ToolResponse) ==> counts.len() == 0
        }),
{
    assert(seq![c].drop_last() =~= seq![]);
    assert(tools::message_metrics(seq![], history) =~= seq![]);
    assert(seq![c].last() == c);
    assert(tools::message_metrics(seq![c], history) =~= tools::part_metrics(c, history));
}

/// A count is seen as it is.
pub proof fn law_counts_are_seen_as_they_are(v: Seq<ToolMetric>, i: int)
    requires
        0 <= i < v.len(),
    ensures
        tools::metric_views(v).len() == v.len(),
        match v[i] {
            ToolMetric::Started { tool_name } => tools::metric_views(v)[i] == (
                tool_name@,
                None::<bool>,
            ),
            ToolMetric::Completed { tool_name, success } => tools::metric_views(v)[i] == (
                tool_name@,
                Some(success),
            ),
        },
{
}

/// The part asks, readably, for the call with an identifier.
pub open spec fn requests(c: MessageContent, id: Seq<char>) -> bool {
    c is ToolRequest && c->ToolRequest_0.id@ == id && c->ToolRequest_0.tool_call is Ok
}

/// The tool of a call is that of the first part that readably asks for it; without such a
/// part there is none.
pub proof fn law_requested_tool(parts: Seq<MessageContent>, id: Seq<char>, i: int)
    requires
        0 <= i <= parts.len(),
        forall|k: int| 0 <= k < i ==> !requests(#[trigger] parts[k], id),
        i < parts.len() ==> requests(parts[i], id),
    ensures
        i == parts.len() ==> tools::requested_tool(parts, id) is None,
        i < parts.len() ==> tools::requested_tool(parts, id) == Some(
            parts[i]->ToolRequest_0.tool_call->Ok_0@,
        ),
    decreases parts.len(),
{
    if i > 0 {
        let rest = parts.drop_first();
        assert(!requests(parts[0], id));
        assert forall|k: int| 0 <= k < i - 1 implies !requests(#[trigger] rest[k], id) by {
            assert(rest[k] == parts[k + 1]);
        }
        law_requested_tool(rest, id, i - 1);
    }
}

/// The message asks, readably, for the call with an identifier.
pub open spec fn message_requests(m: Message, id: Seq<char>) -> bool {
    exists|k: int| 0 <= k < m.content@.len() && requests(#[trigger] m.content@[k], id)
}

proof fn lemma_requesting_message(parts: Seq<MessageContent>, id: Seq<char>)
    ensures
        tools::requested_tool(parts, id) is Some <==> exists|k: int|
            0 <= k < parts.len() && requests(#[trigger] parts[k], id),
    decreases parts.len(),
{
    if parts.len() > 0 {
        let rest = parts.drop_first();
        lemma_requesting_message(rest, id);
        if requests(parts[0], id) {
        } else {
            if exists|k: int| 0 <= k < parts.len() && requests(#[trigger] parts[k], id) {
                let k = choose|k: int| 0 <= k < parts.len() && requests(#[trigger] parts[k], id);
                assert(requests(rest[k - 1], id));
            }
            if exists|k: int| 0 <= k < rest.len() && requests(#[trigger] rest[k], id) {
                let k = choose|k: int| 0 <= k < rest.len() && requests(#[trigger] rest[k], id);
                assert(requests(parts[k + 1], id));
            }
        }
    }
}

/// The tool of a call is that of the latest message that readably asks for it; without
/// such a message there is none.
pub proof fn law_latest_requested_tool(history: Seq<Message>, id: Seq<char>, i: int)
    requires
        -1 <= i < history.len(),
        forall|k: int| i < k < history.len() ==> !message_requests(#[trigger] history[k], id),
        i >= 0 ==> message_requests(history[i], id),
    ensures
        i < 0 ==> tools::latest_requested_tool(history, id) is None,
        i >= 0 ==> tools::latest_requested_tool(history, id) is Some
            && tools::latest_requested_tool(history, id) == tools::requested_tool(
            history[i].content@,
            id,
        ),
    decreases history.len(),
{
    if history.len() > 0 {
        let t = history.drop_last();
        let m = history[history.len() - 1];
        lemma_requesting_message(m.content@, id);
        assert(message_requests(m, id) <==> tools::requested_tool(m.content@, id) is Some);
        if i < history.len() - 1 {
            assert(!message_requests(m, id));
            assert forall|k: int| i < k < t.len() implies !message_requests(#[trigger] t[k], id) by {
                assert(t[k] == history[k]);
            }
            law_latest_requested_tool(t, id, i);
        }
    }
}

} // verus!
