//! What the user's input does to a session, and what is asked and told on the way.
use crate::session::commands;
use crate::session::commands::{
    InputResult, InputTask, ModeChange, PlanCommandOptions, RecipeOutcome, StartStep, StartView,
    Theme,
};
use crate::session::dialog;
use crate::session::dialog::{Permission, PermissionItem};
use crate::session::message::{Message, Role};
use crate::session::plan;
use crate::session::plan::{GooseMode, PlannerResponseType};
use crate::session::prompt_command;
use crate::session::state::{CliSession, RunMode};
use crate::session::turn_laws;
use crate::text;
use vstd::prelude::*;

verus! {

/// The message says the text, and nothing else, on behalf of the user.
pub open spec fn user_says(m: Message, t: Seq<char>) -> bool {
    &&& m.role == Role::User
    &&& m.content@.len() == 1
    &&& m.content@[0] is Text
    &&& m.content@[0]->Text_0@ == t
    &&& m.text@ == t
    &&& m.user_visible && m.agent_visible
}

// Messages and planning.

/// A message of the user is put at the end of the conversation and answered, unless it
/// is planned with. Nothing else changes.
pub proof fn law_message_is_added(
    before: CliSession,
    content: String,
    after: CliSession,
    task: InputTask,
)
    requires
        before.run_mode == RunMode::Normal,
        commands::input_step(before, InputResult::Message(content), after, task),
    ensures
        task is Respond,
        after.messages@.len() == before.messages@.len() + 1,
        after.messages@.drop_last() == before.messages@,
        user_says(after.messages@.last(), content@),
        after.run_mode == before.run_mode,
        after.completion_cache == before.completion_cache,
        turn_laws::agree_in_settings(before, after),
{
}

/// The planner gets the whole conversation and, behind it, what the user says.
pub open spec fn is_for_the_planner(given: Seq<Message>, messages: Seq<Message>, t: Seq<char>) -> bool {
    &&& given.len() == messages.len() + 1
    &&& forall|i: int|
        0 <= i < messages.len() ==> {
            &&& (#[trigger] given[i]).role == messages[i].role
            &&& given[i].content@ == messages[i].content@
            &&& given[i].text@ == messages[i].text@
            &&& given[i].user_visible == messages[i].user_visible
            &&& given[i].agent_visible == messages[i].agent_visible
        }
    &&& user_says(given[messages.len() as int], t)
}

/// What is planned with is the conversation of the session and the message of the user.
pub proof fn law_planner_gets_the_conversation(
    given: Seq<Message>,
    messages: Seq<Message>,
    t: Seq<char>,
)
    requires
        plan::planned_with(given, messages, t),
    ensures
        is_for_the_planner(given, messages, t),
{
    assert forall|i: int| 0 <= i < messages.len() implies {
        &&& (#[trigger] given[i]).role == messages[i].role
        &&& given[i].content@ == messages[i].content@
        &&& given[i].text@ == messages[i].text@
        &&& given[i].user_visible == messages[i].user_visible
        &&& given[i].agent_visible == messages[i].agent_visible
    } by {
        assert(given.drop_last()[i] == given[i]);
        turn_laws::law_same_conversations_agree(given.drop_last(), messages, i);
    }
}

/// While planning, a message of the user goes to the planner, and the session stays as
/// it is.
pub proof fn law_message_is_planned_with(
    before: CliSession,
    content: String,
    after: CliSession,
    task: InputTask,
)
    requires
        before.run_mode == RunMode::Plan,
        commands::input_step(before, InputResult::Message(content), after, task),
    ensures
        after == before,
        task is PlanWith,
        is_for_the_planner(task->PlanWith_messages@, before.messages@, content@),
{
    law_planner_gets_the_conversation(task->PlanWith_messages@, before.messages@, content@);
}

/// The command to plan switches to planning, and has the planner answer if it comes with
/// a message. Nothing else changes.
pub proof fn law_planning_begins(
    before: CliSession,
    options: PlanCommandOptions,
    after: CliSession,
    task: InputTask,
)
    requires
        commands::input_step(before, InputResult::Plan(options), after, task),
    ensures
        after.run_mode == RunMode::Plan,
        after.messages == before.messages,
        after.completion_cache == before.completion_cache,
        turn_laws::agree_in_settings(before, after),
        task is EnterPlan,
        task->opening is Some <==> options.message_text@.len() > 0,
        task->opening matches Some(ms) ==> is_for_the_planner(
            ms@,
            before.messages@,
            options.message_text@,
        ),
{
    if let Some(ms) = task->opening {
        law_planner_gets_the_conversation(ms@, before.messages@, options.message_text@);
    }
}

/// The command to end planning switches back, and changes nothing else.
pub proof fn law_planning_ends(before: CliSession, after: CliSession, task: InputTask)
    requires
        commands::input_step(before, InputResult::EndPlan, after, task),
    ensures
        after.run_mode == RunMode::Normal,
        after.messages == before.messages,
        after.completion_cache == before.completion_cache,
        turn_laws::agree_in_settings(before, after),
        task is LeavePlan,
{
}

// Other inputs.

/// No other input changes the session. Each leads to its own task, with what the user
/// gave.
pub proof fn law_other_inputs(
    before: CliSession,
    input: InputResult,
    after: CliSession,
    task: InputTask,
)
    requires
        commands::input_step(before, input, after, task),
        !(input is Message),
        !(input is Plan),
        !(input is EndPlan),
    ensures
        after == before,
        input matches InputResult::AddExtension(command) ==> task is AddExtension
            && task->AddExtension_command == command,
        input matches InputResult::AddBuiltin(names) ==> task is AddBuiltin
            && task->AddBuiltin_names == names,
        input is ToggleTheme <==> task is ToggleTheme,
        input is ToggleFullToolOutput <==> task is ToggleFullToolOutput,
        input is SelectTheme <==> task is SelectTheme,
        input matches InputResult::ListPrompts(extension) ==> task is ListPrompts
            && task->extension == extension,
        input is GooseMode <==> task is ChangeMode,
        input is Clear <==> task is Clear,
        input matches InputResult::PromptCommand(options) ==> task is Prompt && task->options
            == options,
        input is Recipe <==> task is Recipe,
        input matches InputResult::Recipe(Some(path)) ==> task->Recipe_path@ == path@,
        input matches InputResult::Recipe(None) ==> task->Recipe_path@ == "recipe.yaml"@,
        input is Compact <==> task is Compact,
        input is Retry ==> task is Nothing,
{
}

/// What the user typed is saved with every input but these: a message to plan with, the
/// commands to plan and to end planning, and a repeated prompt.
pub proof fn law_what_is_saved(mode: RunMode, input: InputResult)
    ensures
        !commands::saves_history(mode, input) <==> {
            ||| input is Message && mode == RunMode::Plan
            ||| input is Plan
            ||| input is EndPlan
            ||| input is Retry
        },
{
}

// Themes.

/// From one theme to the next the light one is followed by the dark one, and the dark
/// one by that of the terminal.
pub proof fn law_order_of_themes()
    ensures
        commands::next_theme(Theme::Light) == Theme::Dark,
        commands::next_theme(Theme::Dark) == Theme::Ansi,
        commands::next_theme(Theme::Ansi) == Theme::Light,
{
}

/// A theme goes by its name and is announced by it.
pub proof fn law_names_of_themes(name: Seq<char>)
    ensures
        commands::named_theme(name) == Some(Theme::Light) <==> name == "light"@,
        commands::named_theme(name) == Some(Theme::Dark) <==> name == "dark"@,
        commands::named_theme(name) == Some(Theme::Ansi) <==> name == "ansi"@,
        commands::theme_line(Theme::Light) == "Switching to Light theme"@,
        commands::theme_line(Theme::Dark) == "Switching to Dark theme"@,
        commands::theme_line(Theme::Ansi) == "Switching to Ansi theme"@,
{
    reveal_strlit("light");
    reveal_strlit("dark");
    reveal_strlit("ansi");
    assert("light"@.len() == 5 && "dark"@[0] == 'd' && "ansi"@[0] == 'a');
    assert("dark"@.len() == 4 && "ansi"@.len() == 4);
}

/// A theme that the user names is switched to and announced; under any other name the
/// dark theme is switched to without a word.
pub proof fn law_selected_theme(
    before: CliSession,
    name: String,
    after: CliSession,
    task: InputTask,
)
    requires
        commands::input_step(before, InputResult::SelectTheme(name), after, task),
    ensures
        task is SelectTheme,
        name@ == "light"@ ==> task->theme.theme == Theme::Light && task->theme.line is Some
            && task->theme.line->0@ == "Switching to Light theme"@,
        name@ == "dark"@ ==> task->theme.theme == Theme::Dark && task->theme.line is Some
            && task->theme.line->0@ == "Switching to Dark theme"@,
        name@ == "ansi"@ ==> task->theme.theme == Theme::Ansi && task->theme.line is Some
            && task->theme.line->0@ == "Switching to Ansi theme"@,
        name@ != "light"@ && name@ != "dark"@ && name@ != "ansi"@ ==> task->theme.theme
            == Theme::Dark && task->theme.line is None,
{
    law_names_of_themes(name@);
}

// Modes.

/// A mode goes by its name.
pub proof fn law_names_of_modes(name: Seq<char>)
    ensures
        commands::named_mode(name) == Some(GooseMode::Auto) <==> name == "auto"@,
        commands::named_mode(name) == Some(GooseMode::Approve) <==> name == "approve"@,
        commands::named_mode(name) == Some(GooseMode::Chat) <==> name == "chat"@,
        commands::named_mode(name) == Some(GooseMode::SmartApprove) <==> name == "smart_approve"@,
{
    reveal_strlit("auto");
    reveal_strlit("approve");
    reveal_strlit("chat");
    reveal_strlit("smart_approve");
    assert("auto"@.len() == 4 && "approve"@.len() == 7 && "chat"@.len() == 4
        && "smart_approve"@.len() == 13);
    assert("auto"@[0] == 'a' && "chat"@[0] == 'c');
}

/// The mode that a name stands for is set and announced; any other name is an error that
/// repeats it.
pub proof fn law_mode_changes(r: ModeChange, name: Seq<char>, lowered: Seq<char>)
    requires
        commands::is_mode_change(r, name, lowered),
    ensures
        lowered == "auto"@ ==> r is Ok && r->Ok_0.0 == GooseMode::Auto && r->Ok_0.1@
            == "Goose mode set to '"@ + "Auto"@ + "'"@,
        lowered == "approve"@ ==> r is Ok && r->Ok_0.0 == GooseMode::Approve && r->Ok_0.1@
            == "Goose mode set to '"@ + "Approve"@ + "'"@,
        lowered == "chat"@ ==> r is Ok && r->Ok_0.0 == GooseMode::Chat && r->Ok_0.1@
            == "Goose mode set to '"@ + "Chat"@ + "'"@,
        lowered == "smart_approve"@ ==> r is Ok && r->Ok_0.0 == GooseMode::SmartApprove
            && r->Ok_0.1@ == "Goose mode set to '"@ + "SmartApprove"@ + "'"@,
        lowered != "auto"@ && lowered != "approve"@ && lowered != "chat"@ && lowered
            != "smart_approve"@ ==> r is Err && r->Err_0@ == "Invalid mode '"@ + name
            + "'. Mode must be one of: auto, approve, chat, smart_approve"@,
{
    law_names_of_modes(lowered);
}

/// The user's change of mode does not depend on the case of the letters.
pub proof fn law_mode_of_an_input(
    before: CliSession,
    name: String,
    after: CliSession,
    task: InputTask,
)
    requires
        commands::input_step(before, InputResult::GooseMode(name), after, task),
    ensures
        task is ChangeMode,
        commands::is_mode_change(task->change, name@, text::lowercase(name@)),
{
}

// Starting extensions.

/// A step in the start of extensions is seen as it is.
pub proof fn law_start_steps_are_seen_as_they_are(s: StartStep)
    ensures
        s matches StartStep::Start { config } ==> commands::start_view(s) == StartView::Start(config),
        s matches StartStep::Over { outcome } ==> {
            &&& outcome is Ok ==> commands::start_view(s) is Done
            &&& outcome is Err ==> commands::start_view(s) == StartView::Failed(outcome->Err_0@)
        },
{
}

// Recipes and usage.

/// What came of writing a recipe is told with the file, the directory or the error that
/// it is about.
pub proof fn law_recipe_lines(outcome: RecipeOutcome)
    ensures
        match outcome {
            RecipeOutcome::Saved { path } => commands::recipe_line(outcome) == "Saved recipe to "@
                + path@,
            RecipeOutcome::NoCurrentDirectory => commands::recipe_line(outcome)
                == "Failed to get current directory"@,
            RecipeOutcome::NoDirectory { path } => commands::recipe_line(outcome)
                == "Directory '"@ + path@ + "' does not exist"@,
            RecipeOutcome::NoFile { path } => commands::recipe_line(outcome)
                == "Failed to create file '"@ + path@ + "'"@,
            RecipeOutcome::NotWritten => commands::recipe_line(outcome) == "Failed to save recipe"@,
            RecipeOutcome::NotGenerated { error } => commands::recipe_line(outcome)
                == "Failed to generate recipe: "@ + error@,
        },
{
}

/// A count of tokens is shown as it is; one that is not known is shown as zero. A
/// negative number wraps around.
pub proof fn law_shown_counts(n: i32)
    ensures
        n >= 0 ==> commands::shown_count(Some(n)) == n,
        n < 0 ==> commands::shown_count(Some(n)) == usize::MAX + 1 + n,
        commands::shown_count(None) == 0,
{
    if n < 0 {
        let k = n as usize;
        assert(usize::BITS == 64 ==> k == 0x1_0000_0000_0000_0000 + n) by (bit_vector)
            requires
                n < 0,
                k == n as usize,
        ;
        assert(usize::BITS == 32 ==> k == 0x1_0000_0000 + n) by (bit_vector)
            requires
                n < 0,
                k == n as usize,
        ;
    }
}

// Planners.

/// A planner's answer is a plan if and only if its label speaks of one.
pub proof fn law_labels(lowered: Seq<char>)
    ensures
        plan::label_meaning(lowered) == PlannerResponseType::Plan <==> exists|i: int|
            0 <= i <= lowered.len() - 4 && #[trigger] lowered.subrange(i, i + 4) == "plan"@,
{
    reveal_strlit("plan");
    assert("plan"@.len() == 4);
    if text::holds_text(lowered, "plan"@) {
        let i = choose|i: int| text::stands_at(lowered, "plan"@, i);
        assert(lowered.subrange(i, i + 4) == "plan"@);
    }
    if exists|i: int|
        0 <= i <= lowered.len() - 4 && #[trigger] lowered.subrange(i, i + 4) == "plan"@ {
        let i = choose|i: int|
            0 <= i <= lowered.len() - 4 && #[trigger] lowered.subrange(i, i + 4) == "plan"@;
        assert(text::stands_at(lowered, "plan"@, i));
    }
}

/// The question that has an answer classified ends in that answer, behind a rule.
pub proof fn law_classification_text(answer: Seq<char>)
    ensures
        plan::classification_text(answer)
            == "The text below is the output from an AI model which can either provide a plan or list of clarifying questions. Based on the text below, decide if the output is a \"plan\" or \"clarifying questions\".\n---\n"@
            + answer,
{
}

// Prompts.

/// The user begins a prompt, and then the two take turns.
pub proof fn law_turns_of_a_prompt(ms: Seq<Message>, n: int)
    requires
        0 <= n <= ms.len(),
    ensures
        prompt_command::alternates(ms, n) <==> forall|k: int|
            0 <= k < n ==> ((#[trigger] ms[k]).role == Role::User <==> k % 2 == 0),
        prompt_command::expected_role(0) == Role::User,
        prompt_command::expected_role(n + 1) != prompt_command::expected_role(n),
{
    if forall|k: int| 0 <= k < n ==> ((#[trigger] ms[k]).role == Role::User <==> k % 2 == 0) {
        assert forall|k: int| 0 <= k < n implies (#[trigger] ms[k]).role
            == prompt_command::expected_role(k) by {
            assert(ms[k].role == Role::User <==> k % 2 == 0);
        }
    }
    if prompt_command::alternates(ms, n) {
        assert forall|k: int| 0 <= k < n implies ((#[trigger] ms[k]).role == Role::User <==> k % 2
            == 0) by {
            assert(ms[k].role == prompt_command::expected_role(k));
        }
    }
}

/// A message out of turn is told with the role that was due, its place and the role it
/// has.
pub proof fn law_error_of_a_prompt(i: nat)
    ensures
        i % 2 == 0 ==> prompt_command::role_error(i, Role::Assistant) == "Expected "@ + "User"@
            + " message at position "@ + text::decimal(i) + ", but found "@ + "Assistant"@,
        i % 2 == 1 ==> prompt_command::role_error(i, Role::User) == "Expected "@ + "Assistant"@
            + " message at position "@ + text::decimal(i) + ", but found "@ + "User"@,
{
}

// Permissions.

/// Whether a tool may be called is asked with four choices, of which the second, to
/// allow all later calls, is left out under a warning. Each choice stands for the
/// permission that it names.
pub proof fn law_choices_of_permissions()
    ensures
        dialog::permission_items(false).len() == 4,
        dialog::permission_items(true) == dialog::permission_items(false).remove(1),
        dialog::permission_items(false)[0] == (
            Permission::AllowOnce,
            "Allow"@,
            "Allow the tool call once"@,
        ),
        dialog::permission_items(false)[1] == (
            Permission::AlwaysAllow,
            "Always Allow"@,
            "Always allow the tool call"@,
        ),
        dialog::permission_items(false)[2] == (
            Permission::DenyOnce,
            "Deny"@,
            "Deny the tool call"@,
        ),
        dialog::permission_items(false)[3] == (
            Permission::Cancel,
            "Cancel"@,
            "Cancel the AI response and tool call"@,
        ),
{
    assert(dialog::permission_items(true) =~= dialog::permission_items(false).remove(1));
}

/// A choice is seen as it is.
pub proof fn law_choices_are_seen_as_they_are(items: Seq<PermissionItem>, i: int)
    requires
        0 <= i < items.len(),
    ensures
        dialog::item_views(items).len() == items.len(),
        dialog::item_views(items)[i].0 == items[i].permission,
        dialog::item_views(items)[i].1 == items[i].label@,
        dialog::item_views(items)[i].2 == items[i].hint@,
{
}

} // verus!
