//! What the functions of a session answer, whatever they are asked.
use crate::session::commands;
use crate::session::commands::{Theme, ThemeChange, TokenCounts, Usage};
use crate::session::dialog;
use crate::session::dialog::{Answer, Permission, PermissionQuestion, TopUpOffers};
use crate::session::history::{AfterSave, BaseDir, BaseFile, HistoryManager};
use crate::session::input_laws;
use crate::session::message::{Message, Role};
use crate::session::plan;
use crate::session::plan::{GooseMode, PlanStep, PlannerResponseType, PlannerSetting};
use crate::session::prompt_command;
use crate::session::prompt_command::{PromptCommandOptions, PromptOutcome, PromptTask};
use crate::session::prompts::PromptInfo;
use crate::session::response;
use crate::session::response::{Finish, SessionConfig, Turn, TurnAction, TurnEvent};
use crate::session::state::{CliSession, EditMode, RunMode};
use crate::session::turn_laws;
use vstd::prelude::*;

verus! {

// Questions.

/// An answer that is given counts, an interruption stands for something else, and an
/// error stays one.
pub proof fn law_answers_count<T>(answer: Answer<T>, otherwise: T, r: Result<T, String>)
    requires
        call_ensures(dialog::settle::<T>, (answer, otherwise), r),
    ensures
        answer is Given ==> r is Ok && r->Ok_0 == answer->Given_0,
        answer is Interrupted ==> r is Ok && r->Ok_0 == otherwise,
        answer is Failed ==> r is Err && r->Err_0 == answer->Failed_0,
{
}

/// The user's word on a tool call is the one given; an interrupted question cancels.
pub proof fn law_word_on_a_call(answer: Answer<Permission>, r: Result<Permission, String>)
    requires
        call_ensures(dialog::given_permission, (answer,), r),
    ensures
        answer is Given ==> r is Ok && r->Ok_0 == answer->Given_0,
        answer is Interrupted ==> r is Ok && r->Ok_0 == Permission::Cancel,
        answer is Failed ==> r is Err && r->Err_0 == answer->Failed_0,
{
}

/// Without a warning a call may be allowed for good, and under a warning it may not; every
/// other word can be given either way. The warning is shown.
pub proof fn law_words_that_can_be_given(warning: Option<String>, r: PermissionQuestion, p: Permission)
    requires
        call_ensures(dialog::permission_question, (warning,), r),
    ensures
        r.warning == warning,
        (exists|i: int| 0 <= i < r.items@.len() && (#[trigger] r.items@[i]).permission == p) <==> (p
            != Permission::AlwaysAllow || warning is None),
        warning is Some ==> r.question@ == "Do you allow this tool call?"@,
        warning is None ==> r.question@ == "Goose would like to call the above tool, do you allow?"@,
{
    let v = dialog::item_views(r.items@);
    let w = dialog::permission_items(warning is Some);
    assert(v.len() == r.items@.len());
    assert forall|i: int| 0 <= i < r.items@.len() implies (#[trigger] r.items@[i]).permission
        == w[i].0 by {
        assert(v[i].0 == r.items@[i].permission);
    }
    assert(w[0].0 == Permission::AllowOnce);
    assert(r.items@[0].permission == w[0].0);
    assert(r.items@[1].permission == w[1].0);
    assert(r.items@[2].permission == w[2].0);
    if warning is None {
        assert(r.items@[3].permission == w[3].0);
    }
}

// The history.

/// The history is kept with the state of the program, and moves there from its
/// configuration, under the same name.
pub proof fn law_files_of_the_history(h: HistoryManager)
    requires
        call_ensures(HistoryManager::new, (), h),
    ensures
        h.history_file.dir == BaseDir::State,
        h.old_history_file.dir == BaseDir::Config,
        h.history_file.name@ == "history.txt"@,
        h.old_history_file.name@ == "history.txt"@,
{
}

/// The history is read from its own file wherever that is there, else from the old one.
pub proof fn law_history_is_read<'a>(
    h: &'a HistoryManager,
    new_exists: bool,
    old_exists: bool,
    r: Option<&'a BaseFile>,
)
    requires
        call_ensures(HistoryManager::load, (h, new_exists, old_exists), r),
    ensures
        r is None <==> !new_exists && !old_exists,
        new_exists ==> *r->0 == h.history_file,
        !new_exists && old_exists ==> *r->0 == h.old_history_file,
{
}

/// The old file goes only once the history is saved; otherwise there is a warning.
pub proof fn law_history_is_saved(
    h: &HistoryManager,
    saved: Result<(), String>,
    old_exists: bool,
    r: AfterSave,
)
    requires
        call_ensures(HistoryManager::save, (h, saved, old_exists), r),
    ensures
        r.remove_old <==> saved is Ok && old_exists,
        r.warning is Some <==> saved is Err,
        saved is Err ==> r.warning->0@ == "Warning: Failed to save command history: "@
            + saved->Err_0@,
{
}

// Themes, usage, output.

/// Switching the theme announces the one that is switched to, and three switches lead
/// back.
pub proof fn law_switching_themes(
    t: Theme,
    first: ThemeChange,
    second: ThemeChange,
    third: ThemeChange,
)
    requires
        call_ensures(commands::handle_toggle_theme, (t,), first),
        call_ensures(commands::handle_toggle_theme, (first.theme,), second),
        call_ensures(commands::handle_toggle_theme, (second.theme,), third),
    ensures
        third.theme == t,
        first.theme != t,
        second.theme != t,
        first.line is Some,
        t == Theme::Light ==> first.theme == Theme::Dark && first.line->0@
            == "Switching to Dark theme"@,
        t == Theme::Dark ==> first.theme == Theme::Ansi && first.line->0@
            == "Switching to Ansi theme"@,
        t == Theme::Ansi ==> first.theme == Theme::Light && first.line->0@
            == "Switching to Light theme"@,
{
}

/// What the tokens cost is shown only if that is wanted and the session can be read.
pub proof fn law_usage(session: Option<TokenCounts>, show_cost: bool, r: Usage)
    requires
        call_ensures(commands::display_context_usage, (session, show_cost), r),
    ensures
        r.cost is Some <==> show_cost && session is Some,
        session is None ==> r.total == 0,
        session matches Some(s) ==> {
            &&& s.total_tokens is None ==> r.total == 0
            &&& s.total_tokens matches Some(n) ==> n >= 0 ==> r.total == n
            &&& r.cost matches Some((input, output)) ==> {
                &&& s.input_tokens is None ==> input == 0
                &&& s.input_tokens matches Some(n) ==> n >= 0 ==> input == n
                &&& s.output_tokens is None ==> output == 0
                &&& s.output_tokens matches Some(n) ==> n >= 0 ==> output == n
            }
        },
{
}

/// The word on the full output of tools says whether it is on.
pub proof fn law_word_on_full_output(enabled: bool, r: &'static str)
    requires
        call_ensures(commands::handle_toggle_full_tool_output, (enabled,), r),
    ensures
        enabled ==> r@
            == "✓ Full tool output enabled - tool parameters will no longer be truncated"@,
        !enabled ==> r@
            == "✓ Full tool output disabled - tool parameters will be truncated to fit terminal width"@,
{
}

// Prompts.

/// A prompt is described or fetched under the name given, with the arguments given;
/// without a name it is neither.
pub proof fn law_prompt_tasks(opts: PromptCommandOptions, r: PromptTask)
    requires
        call_ensures(prompt_command::prompt_task, (opts,), r),
    ensures
        r is Reject <==> opts.name@.len() == 0,
        r is Describe <==> opts.name@.len() > 0 && opts.info,
        r is Fetch <==> opts.name@.len() > 0 && !opts.info,
        r is Reject ==> r->error@ == "Prompt name argument is required"@,
        r is Describe ==> r->Describe_name == opts.name,
        r is Fetch ==> r->Fetch_name == opts.name && r->arguments == opts.arguments,
{
}

/// A prompt that is found is described as it is; one that is not found is an error that
/// names it.
pub proof fn law_described_prompts(
    name: &str,
    info: Option<PromptInfo>,
    r: Result<PromptInfo, String>,
)
    requires
        call_ensures(prompt_command::described_prompt, (name, info), r),
    ensures
        r is Ok <==> info is Some,
        info is Some ==> r->Ok_0 == info->0,
        info is None ==> r->Err_0@ == "Prompt '"@ + name@ + "' not found"@,
{
}

// Planners.

/// A planner of its own is used without a word, and the usual one with a warning.
pub proof fn law_planner_settings(
    own: Option<String>,
    usual: Option<String>,
    provider: PlannerSetting,
    model: PlannerSetting,
)
    requires
        call_ensures(plan::planner_provider, (own, usual), provider),
        call_ensures(plan::planner_model, (own, usual), model),
    ensures
        provider.value == model.value,
        own is Some ==> provider.value == own->0 && provider.warning is None && model.warning
            is None,
        own is None ==> {
            &&& usual is Some && provider.value == usual->0
            &&& provider.warning is Some && model.warning is Some
            &&& provider.warning->0@
                == "WARNING: GOOSE_PLANNER_PROVIDER not found. Using default provider..."@
            &&& model.warning->0@
                == "WARNING: GOOSE_PLANNER_MODEL not found. Using default model..."@
        },
{
}

// Responses.

/// A response begins if and only if there is a message to answer: the last one. It waits
/// for the stream, has asked about nothing yet, and the agent is told what the session
/// knows.
pub proof fn law_response_begins(
    s: &CliSession,
    interactive: bool,
    r: Result<(Turn, SessionConfig, Message), String>,
)
    requires
        call_ensures(CliSession::begin_response, (s, interactive), r),
    ensures
        r is Ok <==> s.messages@.len() > 0,
        r is Err ==> r->Err_0@ == "No user message"@,
        r matches Ok((turn, config, message)) ==> {
            let last = s.messages@.last();
            &&& turn.waiting is Stream
            &&& turn.offers.asked@.len() == 0
            &&& turn.display.stream <==> s.output_format@ == "stream-json"@
            &&& turn.display.json <==> s.output_format@ == "json"@
            &&& turn.display.interactive == interactive
            &&& turn.display.debug == s.debug
            &&& config.id == s.session_id
            &&& config.schedule_id == s.scheduled_job_id
            &&& config.max_turns == s.max_turns
            &&& config.retry_config == s.retry_config
            &&& message.role == last.role
            &&& message.content@ == last.content@
            &&& message.text == last.text
            &&& message.user_visible == last.user_visible
            &&& message.agent_visible == last.agent_visible
        },
{
}

/// The end of a response is one JSON object, an event, or the rest of the text, as the
/// output is; the tokens used go with it.
pub proof fn law_response_ends(turn: &Turn, total_tokens: Option<i32>, r: Finish)
    requires
        call_ensures(response::finish_response, (turn, total_tokens), r),
    ensures
        r is PrintJson <==> turn.display.json,
        r is EmitComplete <==> turn.display.stream && !turn.display.json,
        r is FlushText <==> !turn.display.stream && !turn.display.json,
        r is PrintJson ==> r->PrintJson_total_tokens == total_tokens && r->status@
            == "completed"@,
        r is EmitComplete ==> r->EmitComplete_total_tokens == total_tokens,
{
}

// Sessions.

/// The conversation of a session is shown message by message.
pub proof fn law_conversation_is_shown(s: &CliSession, r: Vec<String>, i: int)
    requires
        call_ensures(CliSession::conversation_strings, (s,), r),
        0 <= i < s.messages@.len(),
    ensures
        r@.len() == s.messages@.len(),
        crate::session::state::conversation_text(s.messages@[i]) == r@[i]@,
{
}

/// The line on a restored conversation counts its messages; an empty one has no line.
pub proof fn law_restored_line(s: &CliSession, r: Option<String>)
    requires
        call_ensures(CliSession::restored_line, (s,), r),
    ensures
        r is Some <==> s.messages@.len() > 0,
        r is Some ==> r->0@ == crate::text::decimal(s.messages@.len()) + " messages restored"@,
{
}

/// The key bindings are those of Emacs unless others are set.
pub proof fn law_key_bindings(s: &CliSession, r: EditMode)
    requires
        call_ensures(CliSession::editing, (s,), r),
    ensures
        r == EditMode::Vi <==> s.edit_mode == Some(EditMode::Vi),
{
}

/// The messages of a prompt come to the end of the conversation, all of them or none:
/// they come if and only if the user begins and the two take turns. Nothing else
/// changes.
pub proof fn law_prompt_is_added(s: &mut CliSession, messages: Vec<Message>, r: PromptOutcome)
    requires
        call_ensures(CliSession::handle_prompt_command, (s, messages), r),
    ensures
        r is Accepted <==> forall|k: int|
            0 <= k < messages@.len() ==> ((#[trigger] messages@[k]).role == Role::User <==> k % 2
                == 0),
        r is Accepted ==> final(s).messages@ == old(s).messages@ + messages@,
        r is Accepted && messages@.len() > 0 ==> r->stored == messages@.len() - 1,
        r is Rejected ==> {
            &&& final(s).messages@ == old(s).messages@
            &&& r->position < messages@.len()
            &&& messages@[r->position as int].role == Role::User <==> r->position % 2 == 1
            &&& r->messages == messages
        },
        turn_laws::agree_in_settings(*old(s), *final(s)),
        final(s).run_mode == old(s).run_mode,
        final(s).completion_cache == old(s).completion_cache,
{
    input_laws::law_turns_of_a_prompt(messages@, messages@.len() as int);
    if r is Rejected {
        let p = r->position as int;
        assert(messages@[p].role == Role::User <==> p % 2 == 1);
    }
}

/// A plan that the user wants carried out takes the place of the conversation, and is
/// carried out in automatic mode, which is left again for the mode before. Every other
/// answer of a planner is added to the conversation.
pub proof fn law_plan_is_carried_out(
    s: &mut CliSession,
    answer: Message,
    kind: PlannerResponseType,
    should_act: bool,
    mode: GooseMode,
    r: PlanStep,
)
    requires
        call_ensures(CliSession::plan_with_reasoner_model, (s, answer, kind, should_act, mode), r),
    ensures
        ({
            let acts = kind == PlannerResponseType::Plan && should_act;
            &&& r is Act <==> acts
            &&& r is Carry <==> !acts
            &&& acts ==> {
                &&& final(s).run_mode == RunMode::Normal
                &&& final(s).messages@.len() == 1
                &&& input_laws::user_says(final(s).messages@[0], answer.text@)
                &&& r->set_auto <==> mode != GooseMode::Auto
                &&& r->restore is Some <==> mode != GooseMode::Auto
                &&& r->restore is Some ==> r->restore->0 == mode
            }
            &&& !acts ==> {
                &&& final(s).run_mode == old(s).run_mode
                &&& final(s).messages@ == old(s).messages@.push(answer)
            }
        }),
        turn_laws::agree_in_settings(*old(s), *final(s)),
        final(s).completion_cache == old(s).completion_cache,
{
}

/// A conversation is cleared only if all that belongs to that was done; otherwise it
/// stays, and the error says what was not done.
pub proof fn law_clearing(
    s: &mut CliSession,
    replaced: Result<(), String>,
    reset: Result<(), String>,
    r: Result<Message, String>,
)
    requires
        call_ensures(CliSession::handle_clear, (s, replaced, reset), r),
    ensures
        r is Ok <==> replaced is Ok && reset is Ok,
        r is Ok ==> final(s).messages@.len() == 0,
        r is Ok ==> r->Ok_0.role == Role::Assistant && r->Ok_0.text@
            == "Chat context cleared.\n"@,
        r is Err ==> final(s).messages@ == old(s).messages@,
        replaced is Err ==> r->Err_0@ == "Failed to clear session: "@ + replaced->Err_0@,
        replaced is Ok && reset is Err ==> r->Err_0@ == "Failed to reset token counts: "@
            + reset->Err_0@,
        turn_laws::agree_in_settings(*old(s), *final(s)),
        final(s).run_mode == old(s).run_mode,
        final(s).completion_cache == old(s).completion_cache,
{
}

/// A conversation is compacted only if the user says so, with the message that triggers
/// it at the end; otherwise it stays.
pub proof fn law_compacting(
    s: &mut CliSession,
    answer: Answer<bool>,
    trigger: &str,
    r: Result<bool, String>,
)
    requires
        call_ensures(CliSession::handle_compact, (s, answer, trigger), r),
    ensures
        r == Ok::<bool, String>(true) <==> answer == Answer::Given(true),
        r is Err <==> answer is Failed,
        r is Err ==> r->Err_0 == answer->Failed_0,
        answer == Answer::Given(true) ==> {
            &&& final(s).messages@.len() == old(s).messages@.len() + 1
            &&& final(s).messages@.drop_last() == old(s).messages@
            &&& input_laws::user_says(final(s).messages@.last(), trigger@)
        },
        answer != Answer::Given(true) ==> final(s).messages@ == old(s).messages@,
        turn_laws::agree_in_settings(*old(s), *final(s)),
        final(s).run_mode == old(s).run_mode,
        final(s).completion_cache == old(s).completion_cache,
{
}

/// A prompt without anyone at the terminal is put at the end of the conversation.
pub proof fn law_headless(s: &mut CliSession, prompt: &str, r: ())
    requires
        call_ensures(CliSession::headless, (s, prompt), r),
    ensures
        final(s).messages@.len() == old(s).messages@.len() + 1,
        final(s).messages@.drop_last() == old(s).messages@,
        input_laws::user_says(final(s).messages@.last(), prompt@),
        turn_laws::agree_in_settings(*old(s), *final(s)),
        final(s).run_mode == old(s).run_mode,
        final(s).completion_cache == old(s).completion_cache,
{
}

/// Someone at a terminal is asked about an address if it was not asked about before, and
/// then it was.
pub proof fn law_offers(
    offers: &mut TopUpOffers,
    interactive: bool,
    terminal: bool,
    url: Option<String>,
    ask: bool,
)
    requires
        call_ensures(
            TopUpOffers::maybe_open_credits_top_up_url,
            (offers, interactive, terminal, url),
            ask,
        ),
    ensures
        ask <==> interactive && terminal && url is Some && forall|i: int|
            0 <= i < old(offers).asked@.len() ==> (#[trigger] old(offers).asked@[i])@ != url->0@,
        ask ==> final(offers).asked@ == old(offers).asked@.push(url->0),
        !ask ==> final(offers).asked@ == old(offers).asked@,
{
    let texts = crate::text::texts(old(offers).asked@);
    assert(texts.len() == old(offers).asked@.len());
    if url is Some {
        if texts.contains(url->0@) {
            let i = choose|i: int| 0 <= i < texts.len() && texts[i] == url->0@;
            assert(old(offers).asked@[i]@ == url->0@);
        } else {
            assert forall|i: int| 0 <= i < old(offers).asked@.len() implies (
            #[trigger] old(offers).asked@[i])@ != url->0@ by {
                assert(texts[i] == old(offers).asked@[i]@);
                assert(texts.contains(texts[i]));
            }
        }
    }
}

/// A step of a response leaves the way things are shown and the offers that were made.
pub proof fn law_steps_keep_the_display(
    s: &mut CliSession,
    turn: &mut Turn,
    event: TurnEvent,
    action: TurnAction,
)
    requires
        call_ensures(CliSession::process_agent_response, (s, turn, event), action),
    ensures
        final(turn).display == old(turn).display,
        final(turn).offers == old(turn).offers,
        response::turn_step(*old(s), *old(turn), event, *final(s), final(turn).waiting, action),
{
}

} // verus!
