//! Laws of a session.
use crate::session::commands;
use crate::session::commands::{InputResult, InputTask, PlanCommandOptions};
use crate::session::dialog::Permission;
use crate::session::interrupt;
use crate::session::message;
use crate::session::message::{ErrorCode, Message};
use crate::session::response;
use crate::session::response::{MessageOutput, Turn, TurnAction, TurnEvent, Waiting};
use crate::session::state;
use crate::session::state::{CliSession, RunMode};
use vstd::prelude::*;

verus! {

/// The output is a stream of events or one JSON object, never both.
pub proof fn law_output_formats_exclude_each_other(s: CliSession, interactive: bool)
    ensures
        !(response::display_of(s, interactive).stream && response::display_of(
            s,
            interactive,
        ).json),
{
    reveal_strlit("stream-json");
    reveal_strlit("json");
    assert("stream-json"@.len() != "json"@.len());
}

/// Nothing happens any more in a response that is over.
pub proof fn law_end_of_a_response(event: TurnEvent)
    ensures
        !response::expects(Waiting::Finish, event),
        !response::expects(Waiting::Failed, event),
{
}

/// Unless it is replaced or interrupted, the conversation only grows during a
/// response, by at most one message for each event.
pub proof fn law_conversation_grows(
    before: CliSession,
    turn: Turn,
    event: TurnEvent,
    after: CliSession,
    waiting: Waiting,
    action: TurnAction,
)
    requires
        response::expects(turn.waiting, event),
        response::turn_step(before, turn, event, after, waiting, action),
        !(event is HistoryReplaced),
        !(event is StreamError),
        !(event is Cancelled),
    ensures
        before.messages@.is_prefix_of(after.messages@),
        after.messages@.len() <= before.messages@.len() + 1,
{
    if after.messages@.len() > before.messages@.len() {
        assert(after.messages@.drop_last() =~= before.messages@);
        assert(after.messages@.subrange(0, before.messages@.len() as int) =~= before.messages@);
    } else {
        assert(after.messages@ =~= before.messages@);
        assert(after.messages@.subrange(0, before.messages@.len() as int) =~= before.messages@);
    }
}

/// A response that fails or is cancelled leaves no tool call open.
pub proof fn law_stopped_response_leaves_no_open_request(
    before: CliSession,
    turn: Turn,
    event: TurnEvent,
    after: CliSession,
    waiting: Waiting,
    action: TurnAction,
)
    requires
        event is StreamError || event is Cancelled,
        response::turn_step(before, turn, event, after, waiting, action),
    ensures
        interrupt::open_requests(after.messages@).len() == 0,
        waiting is Finish,
{
    if event is StreamError {
        interrupt::law_no_request_stays_open(
            before.messages@,
            false,
            after.messages@,
            action->Report_asked,
        );
    } else {
        interrupt::law_no_request_stays_open(
            before.messages@,
            true,
            after.messages@,
            action->Stop_asked,
        );
    }
}

/// The agent is never told to cancel: it is told to deny, and the tool call that
/// the user cancelled is answered with an error.
pub proof fn law_cancelled_call_is_denied_and_answered(
    before: CliSession,
    id: String,
    permission: Permission,
    after: CliSession,
    waiting: Waiting,
    action: TurnAction,
)
    requires
        response::permission_step(before, id, permission, after, waiting, action),
    ensures
        action matches TurnAction::Confirm { permission: told, .. } ==> told != Permission::Cancel,
        action matches TurnAction::CancelCall { permission: told, .. } ==> told
            == Permission::DenyOnce,
        permission == Permission::Cancel ==> message::failed_part(
            after.messages@.last().content@[0],
            id@,
            ErrorCode::InvalidRequest,
            "Tool call cancelled by user"@,
        ),
{
    if permission == Permission::Cancel {
        let ids = seq![id@];
        assert(message::failed_part(
            after.messages@.last().content@[0],
            ids[0],
            ErrorCode::InvalidRequest,
            "Tool call cancelled by user"@,
        ));
    }
}

/// With one JSON object as the only output, no message is shown before the end.
pub proof fn law_json_mode_shows_no_message(
    before: CliSession,
    m: Message,
    after: CliSession,
    waiting: Waiting,
    turn: Turn,
    action: TurnAction,
)
    requires
        turn.display.json,
        !turn.display.stream,
        response::message_step(before, m, after, waiting, turn.display, action),
    ensures
        action matches TurnAction::ShowMessage { output, .. } ==> output == MessageOutput::Nothing,
{
}

/// To begin planning and to end it again leaves the session as it was, in the
/// normal mode.
pub proof fn law_plan_mode_can_be_left(
    before: CliSession,
    options: PlanCommandOptions,
    planning: CliSession,
    begun: InputTask,
    after: CliSession,
    ended: InputTask,
)
    requires
        before.run_mode == RunMode::Normal,
        commands::input_step(before, InputResult::Plan(options), planning, begun),
        commands::input_step(planning, InputResult::EndPlan, after, ended),
    ensures
        planning.run_mode == RunMode::Plan,
        after == before,
{
}

/// While planning, what the user says does not enter the conversation.
pub proof fn law_planning_keeps_the_conversation(
    before: CliSession,
    content: String,
    after: CliSession,
    task: InputTask,
)
    requires
        before.run_mode == RunMode::Plan,
        commands::input_step(before, InputResult::Message(content), after, task),
    ensures
        after == before,
        task is PlanWith,
{
}

/// No input changes the settings of a session.
pub proof fn law_settings_stay(
    before: CliSession,
    input: InputResult,
    after: CliSession,
    task: InputTask,
)
    requires
        commands::input_step(before, input, after, task),
    ensures
        state::same_settings(before, after),
{
}

} // verus!
