//! What the user's input leads to.
use crate::session::dialog;
use crate::session::dialog::Answer;
use crate::session::extension::ExtensionConfig;
use crate::session::message;
use crate::session::message::{Message, Role};
use crate::session::plan;
use crate::session::plan::GooseMode;
use crate::session::prompt_command::PromptCommandOptions;
use crate::session::prompts::PromptInfo;
use crate::session::state;
use crate::session::state::{CliSession, RunMode};
use crate::text;
use crate::time::Elapsed;
use vstd::prelude::*;

verus! {

/// A line of input, read as a command or a message.
pub enum InputResult {
    Message(String),
    Exit,
    AddExtension(String),
    AddBuiltin(String),
    ToggleTheme,
    ToggleFullToolOutput,
    SelectTheme(String),
    Retry,
    ListPrompts(Option<String>),
    GooseMode(String),
    Plan(PlanCommandOptions),
    EndPlan,
    Clear,
    PromptCommand(PromptCommandOptions),
    Recipe(Option<String>),
    Compact,
}

/// The command to plan, with the message to begin with.
pub struct PlanCommandOptions {
    pub message_text: String,
}

// Themes.

/// The colours of the screen.
#[derive(Debug, Clone, Copy, PartialEq, Eq, Structural)]
pub enum Theme {
    Light,
    Dark,
    Ansi,
}

/// The theme after another.
pub open spec fn next_theme(t: Theme) -> Theme {
    match t {
        Theme::Ansi => Theme::Light,
        Theme::Light => Theme::Dark,
        Theme::Dark => Theme::Ansi,
    }
}

/// The line that announces a theme.
pub open spec fn theme_line(t: Theme) -> Seq<char> {
    match t {
        Theme::Light => "Switching to Light theme"@,
        Theme::Dark => "Switching to Dark theme"@,
        Theme::Ansi => "Switching to Ansi theme"@,
    }
}

/// The theme of a name.
pub open spec fn named_theme(name: Seq<char>) -> Option<Theme> {
    if name == "light"@ {
        Some(Theme::Light)
    } else if name == "dark"@ {
        Some(Theme::Dark)
    } else if name == "ansi"@ {
        Some(Theme::Ansi)
    } else {
        None
    }
}

/// A theme to switch to, and the line that announces it.
pub struct ThemeChange {
    pub theme: Theme,
    pub line: Option<&'static str>,
}

fn announced(theme: Theme) -> (r: ThemeChange)
    ensures
        r.theme == theme,
        r.line matches Some(l) && l@ == theme_line(theme),
{
    let line = match theme {
        Theme::Light => "Switching to Light theme",
        Theme::Dark => "Switching to Dark theme",
        Theme::Ansi => "Switching to Ansi theme",
    };
    ThemeChange { theme, line: Some(line) }
}

/// Switches to the next theme.
pub fn handle_toggle_theme(current: Theme) -> (r: ThemeChange)
    ensures
        r.theme == next_theme(current),
        r.line matches Some(l) && l@ == theme_line(r.theme),
{
    match current {
        Theme::Ansi => announced(Theme::Light),
        Theme::Light => announced(Theme::Dark),
        Theme::Dark => announced(Theme::Ansi),
    }
}

/// Switches to a theme by its name. An unknown name stands for the dark theme,
/// which is then not announced.
pub fn handle_select_theme(theme_name: &str) -> (r: ThemeChange)
    ensures
        match named_theme(theme_name@) {
            Some(t) => r.theme == t && (r.line matches Some(l) && l@ == theme_line(t)),
            None => r.theme == Theme::Dark && r.line is None,
        },
{
    if text::same(theme_name, "light") {
        announced(Theme::Light)
    } else if text::same(theme_name, "dark") {
        announced(Theme::Dark)
    } else if text::same(theme_name, "ansi") {
        announced(Theme::Ansi)
    } else {
        ThemeChange { theme: Theme::Dark, line: None }
    }
}

/// Three switches lead back, and one or two do not.
pub proof fn law_themes_cycle(t: Theme)
    ensures
        next_theme(next_theme(next_theme(t))) == t,
        next_theme(t) != t,
        next_theme(next_theme(t)) != t,
{
}

/// The line that tells whether tool calls are shown in full.
pub fn handle_toggle_full_tool_output(enabled: bool) -> (r: &'static str)
    ensures
        r@ == if enabled {
            "✓ Full tool output enabled - tool parameters will no longer be truncated"@
        } else {
            "✓ Full tool output disabled - tool parameters will be truncated to fit terminal width"@
        },
{
    if enabled {
        "✓ Full tool output enabled - tool parameters will no longer be truncated"
    } else {
        "✓ Full tool output disabled - tool parameters will be truncated to fit terminal width"
    }
}

// Modes.

/// The mode of a name in lower case.
pub open spec fn named_mode(lowered: Seq<char>) -> Option<GooseMode> {
    if lowered == "auto"@ {
        Some(GooseMode::Auto)
    } else if lowered == "approve"@ {
        Some(GooseMode::Approve)
    } else if lowered == "chat"@ {
        Some(GooseMode::Chat)
    } else if lowered == "smart_approve"@ {
        Some(GooseMode::SmartApprove)
    } else {
        None
    }
}

/// The name under which a mode is announced.
pub open spec fn mode_title(m: GooseMode) -> Seq<char> {
    match m {
        GooseMode::Auto => "Auto"@,
        GooseMode::Approve => "Approve"@,
        GooseMode::SmartApprove => "SmartApprove"@,
        GooseMode::Chat => "Chat"@,
    }
}

/// A mode to set with the line that announces it, or the error that there is no
/// such mode.
pub type ModeChange = Result<(GooseMode, String), String>;

/// The change of mode that a name leads to; `lowered` is the name in lower case.
pub open spec fn is_mode_change(r: ModeChange, name: Seq<char>, lowered: Seq<char>) -> bool {
    match (named_mode(lowered), r) {
        (Some(m), Ok((mode, line))) => mode == m && line@ == "Goose mode set to '"@ + mode_title(
            m,
        ) + "'"@,
        (None, Err(why)) => why@ == "Invalid mode '"@ + name
            + "'. Mode must be one of: auto, approve, chat, smart_approve"@,
        _ => false,
    }
}

/// The change of mode that a name leads to; `lowered` is the name in lower case.
pub fn change_mode(name: &str, lowered: &str) -> (r: ModeChange)
    ensures
        is_mode_change(r, name@, lowered@),
{
    let (mode, title) = if text::same(lowered, "auto") {
        (GooseMode::Auto, "Auto")
    } else if text::same(lowered, "approve") {
        (GooseMode::Approve, "Approve")
    } else if text::same(lowered, "chat") {
        (GooseMode::Chat, "Chat")
    } else if text::same(lowered, "smart_approve") {
        (GooseMode::SmartApprove, "SmartApprove")
    } else {
        return Err(
            text::concat_three(
                "Invalid mode '",
                name,
                "'. Mode must be one of: auto, approve, chat, smart_approve",
            ),
        );
    };
    Ok((mode, text::concat_three("Goose mode set to '", title, "'")))
}

/// The change of mode that a name leads to, whatever the case of its letters.
pub fn handle_goose_mode(mode: &str) -> (r: ModeChange)
    ensures
        is_mode_change(r, mode@, text::lowercase(mode@)),
{
    change_mode(mode, mode.to_lowercase().as_str())
}

// The input.

/// What the program has to do for an input.
pub enum InputTask {
    Nothing,
    /// Note the message for the project and have it answered.
    Respond,
    /// Have a planner answer.
    PlanWith { messages: Vec<Message> },
    AddExtension { command: String },
    AddBuiltin { names: String },
    ToggleTheme,
    ToggleFullToolOutput,
    SelectTheme { theme: ThemeChange },
    ListPrompts { extension: Option<String> },
    ChangeMode { change: ModeChange },
    /// Announce the planning, and have a planner answer if there is a message.
    EnterPlan { opening: Option<Vec<Message>> },
    LeavePlan,
    Clear,
    Prompt { options: PromptCommandOptions },
    /// Write a recipe to a file.
    Recipe { path: String },
    Compact,
}

/// The lines that the user typed are saved on an input. A message to plan with,
/// the commands about planning and a repeated prompt are not saved.
pub open spec fn saves_history(mode: RunMode, input: InputResult) -> bool {
    match input {
        InputResult::Message(_) => mode == RunMode::Normal,
        InputResult::Retry => false,
        InputResult::Plan(_) => false,
        InputResult::EndPlan => false,
        _ => true,
    }
}

/// The file that a recipe is written to.
pub open spec fn recipe_file(path: Option<String>) -> Seq<char> {
    match path {
        Some(p) => p@,
        None => "recipe.yaml"@,
    }
}

/// What an input leads to.
pub open spec fn input_step(
    before: CliSession,
    input: InputResult,
    after: CliSession,
    task: InputTask,
) -> bool {
    match input {
        InputResult::Message(content) => if before.run_mode == RunMode::Normal {
            &&& state::only_messages(before, after)
            &&& after.messages@.len() == before.messages@.len() + 1
            &&& after.messages@.drop_last() == before.messages@
            &&& message::text_message(after.messages@.last(), Role::User, content@)
            &&& task is Respond
        } else {
            &&& after == before
            &&& task matches InputTask::PlanWith { messages }
            &&& plan::planned_with(messages@, before.messages@, content@)
        },
        InputResult::Plan(options) => {
            &&& state::same_settings(before, after)
            &&& after.completion_cache == before.completion_cache
            &&& after.messages == before.messages
            &&& after.run_mode == RunMode::Plan
            &&& task matches InputTask::EnterPlan { opening }
            &&& match opening {
                Some(ms) => options.message_text@.len() > 0 && plan::planned_with(
                    ms@,
                    before.messages@,
                    options.message_text@,
                ),
                None => options.message_text@.len() == 0,
            }
        },
        InputResult::EndPlan => {
            &&& state::same_settings(before, after)
            &&& after.completion_cache == before.completion_cache
            &&& after.messages == before.messages
            &&& after.run_mode == RunMode::Normal
            &&& task is LeavePlan
        },
        _ => after == before && plain_task(input, task),
    }
}

/// The task of an input that leaves the session as it is.
pub open spec fn plain_task(input: InputResult, task: InputTask) -> bool {
    match input {
        InputResult::AddExtension(command) => task == (InputTask::AddExtension { command }),
        InputResult::AddBuiltin(names) => task == (InputTask::AddBuiltin { names }),
        InputResult::ToggleTheme => task is ToggleTheme,
        InputResult::ToggleFullToolOutput => task is ToggleFullToolOutput,
        InputResult::SelectTheme(name) => {
            &&& task matches InputTask::SelectTheme { theme: change }
            &&& change.theme == (match named_theme(name@) {
                Some(t) => t,
                None => Theme::Dark,
            })
            &&& (match change.line {
                Some(l) => named_theme(name@) is Some && l@ == theme_line(change.theme),
                None => named_theme(name@) is None,
            })
        },
        InputResult::ListPrompts(extension) => task == (InputTask::ListPrompts { extension }),
        InputResult::GooseMode(mode) => {
            &&& task matches InputTask::ChangeMode { change }
            &&& is_mode_change(change, mode@, text::lowercase(mode@))
        },
        InputResult::Clear => task is Clear,
        InputResult::PromptCommand(options) => task == (InputTask::Prompt { options }),
        InputResult::Recipe(path) => {
            &&& task matches InputTask::Recipe { path: p }
            &&& p@ == recipe_file(path)
        },
        InputResult::Compact => task is Compact,
        _ => task is Nothing,
    }
}

impl CliSession {
    /// Takes an input: tells whether the typed lines are saved first, and what is to
    /// be done. The end of the session is no input to handle.
    pub fn handle_input(&mut self, input: InputResult) -> (r: (bool, InputTask))
        requires
            !(input is Exit),
        ensures
            r.0 == saves_history(old(self).run_mode, input),
            input_step(*old(self), input, *final(self), r.1),
    {
        match input {
            InputResult::Message(content) => {
                let save = self.run_mode == RunMode::Normal;
                let task = self.handle_message_input(content.as_str());
                (save, task)
            },
            InputResult::Exit => (false, InputTask::Nothing),
            InputResult::AddExtension(command) => (true, InputTask::AddExtension { command }),
            InputResult::AddBuiltin(names) => (true, InputTask::AddBuiltin { names }),
            InputResult::ToggleTheme => (true, InputTask::ToggleTheme),
            InputResult::ToggleFullToolOutput => (true, InputTask::ToggleFullToolOutput),
            InputResult::SelectTheme(name) => {
                (true, InputTask::SelectTheme { theme: handle_select_theme(name.as_str()) })
            },
            InputResult::Retry => (false, InputTask::Nothing),
            InputResult::ListPrompts(extension) => (true, InputTask::ListPrompts { extension }),
            InputResult::GooseMode(mode) => {
                (true, InputTask::ChangeMode { change: handle_goose_mode(mode.as_str()) })
            },
            InputResult::Plan(options) => (false, self.handle_plan_mode(&options)),
            InputResult::EndPlan => {
                self.run_mode = RunMode::Normal;
                (false, InputTask::LeavePlan)
            },
            InputResult::Clear => (true, InputTask::Clear),
            InputResult::PromptCommand(options) => (true, InputTask::Prompt { options }),
            InputResult::Recipe(path) => {
                let path = match path {
                    Some(p) => p,
                    None => "recipe.yaml".to_owned(),
                };
                (true, InputTask::Recipe { path })
            },
            InputResult::Compact => (true, InputTask::Compact),
        }
    }

    fn handle_message_input(&mut self, content: &str) -> (task: InputTask)
        ensures
            if old(self).run_mode == RunMode::Normal {
                &&& state::only_messages(*old(self), *final(self))
                &&& final(self).messages@.len() == old(self).messages@.len() + 1
                &&& final(self).messages@.drop_last() == old(self).messages@
                &&& message::text_message(final(self).messages@.last(), Role::User, content@)
                &&& task is Respond
            } else {
                &&& *final(self) == *old(self)
                &&& task matches InputTask::PlanWith { messages }
                &&& plan::planned_with(messages@, old(self).messages@, content@)
            },
    {
        match self.run_mode {
            RunMode::Normal => {
                self.push_message(Message::with_text(Role::User, content));
                InputTask::Respond
            },
            RunMode::Plan => InputTask::PlanWith { messages: self.plan_messages(content) },
        }
    }

    fn handle_plan_mode(&mut self, options: &PlanCommandOptions) -> (task: InputTask)
        ensures
            state::same_settings(*old(self), *final(self)),
            final(self).completion_cache == old(self).completion_cache,
            final(self).messages == old(self).messages,
            final(self).run_mode == RunMode::Plan,
            task matches InputTask::EnterPlan { opening } && match opening {
                Some(ms) => options.message_text@.len() > 0 && plan::planned_with(
                    ms@,
                    old(self).messages@,
                    options.message_text@,
                ),
                None => options.message_text@.len() == 0,
            },
    {
        self.run_mode = RunMode::Plan;
        let length: usize = text::chars_of(options.message_text.as_str()).len();
        if length == 0 {
            InputTask::EnterPlan { opening: None }
        } else {
            let messages = self.plan_messages(options.message_text.as_str());
            InputTask::EnterPlan { opening: Some(messages) }
        }
    }

    /// Puts a message of the user at the end of the conversation, to be answered
    /// without anyone at the terminal.
    pub fn headless(&mut self, prompt: &str)
        ensures
            state::only_messages(*old(self), *final(self)),
            final(self).messages@.len() == old(self).messages@.len() + 1,
            final(self).messages@.drop_last() == old(self).messages@,
            message::text_message(final(self).messages@.last(), Role::User, prompt@),
    {
        self.push_message(Message::with_text(Role::User, prompt));
    }

    /// Goes on with the start of extensions, given the outcome of the last attempt if
    /// there was one: they are started in order, up to the first that fails. If all
    /// have started, the prompts are no longer known.
    pub fn add_and_persist_extensions(
        &mut self,
        starts: &mut ExtensionStarts,
        last: Option<Result<(), String>>,
        now: Elapsed,
    ) -> (r: StartStep)
        ensures
            state::same_settings(*old(self), *final(self)),
            final(self).messages == old(self).messages,
            final(self).run_mode == old(self).run_mode,
            start_view(r) == next_start(old(starts).left@, last).0,
            final(starts).left@ == next_start(old(starts).left@, last).1,
            match next_start(old(starts).left@, last).0 {
                StartView::Start(_) => final(self).completion_cache
                    == old(self).completion_cache,
                StartView::Failed(_) => final(self).completion_cache
                    == old(self).completion_cache,
                StartView::Done => {
                    &&& final(self).completion_cache.wf()
                    &&& final(self).completion_cache.prompts@ == Map::<
                        Seq<char>,
                        Vec<String>,
                    >::empty()
                    &&& final(self).completion_cache.prompt_info@ == Map::<
                        Seq<char>,
                        PromptInfo,
                    >::empty()
                    &&& final(self).completion_cache.last_updated == now
                    &&& final(self).completion_cache.hint_status
                        == old(self).completion_cache.hint_status
                },
            },
    {
        if let Some(Err(why)) = last {
            let error = text::concat("Failed to start extension: ", why.as_str());
            return StartStep::Over { outcome: Err(error) };
        }
        if starts.left.len() > 0 {
            let config = starts.left.remove(0);
            assert(starts.left@ =~= old(starts).left@.drop_first());
            StartStep::Start { config }
        } else {
            self.invalidate_completion_cache(now);
            StartStep::Over { outcome: Ok(()) }
        }
    }

    /// Takes the outcome of clearing the stored conversation and, if that was done,
    /// of resetting the counts of tokens. Returns the message to show, or the error.
    pub fn handle_clear(&mut self, replaced: Result<(), String>, reset: Result<(), String>) -> (r:
        Result<Message, String>)
        ensures
            state::only_messages(*old(self), *final(self)),
            match (replaced, reset) {
                (Err(why), _) => {
                    &&& r matches Err(e)
                    &&& e@ == "Failed to clear session: "@ + why@
                    &&& final(self).messages == old(self).messages
                },
                (Ok(_), Err(why)) => {
                    &&& r matches Err(e)
                    &&& e@ == "Failed to reset token counts: "@ + why@
                    &&& final(self).messages == old(self).messages
                },
                (Ok(_), Ok(_)) => {
                    &&& r matches Ok(m)
                    &&& message::text_message(m, Role::Assistant, "Chat context cleared.\n"@)
                    &&& final(self).messages@.len() == 0
                },
            },
    {
        if let Err(why) = replaced {
            return Err(text::concat("Failed to clear session: ", why.as_str()));
        }
        if let Err(why) = reset {
            return Err(text::concat("Failed to reset token counts: ", why.as_str()));
        }
        self.messages = Vec::new();
        Ok(Message::with_text(Role::Assistant, "Chat context cleared.\n"))
    }

    /// Takes the user's word on compacting the conversation; an interruption is a
    /// refusal. If wanted, the message that triggers it is put at the end, to be
    /// answered.
    pub fn handle_compact(&mut self, answer: Answer<bool>, trigger: &str) -> (r: Result<bool, String>)
        ensures
            state::only_messages(*old(self), *final(self)),
            match answer {
                Answer::Given(true) => {
                    &&& r == Ok::<bool, String>(true)
                    &&& final(self).messages@.len() == old(self).messages@.len() + 1
                    &&& final(self).messages@.drop_last() == old(self).messages@
                    &&& message::text_message(final(self).messages@.last(), Role::User, trigger@)
                },
                Answer::Failed(why) => r == Err::<bool, String>(why) && final(self).messages
                    == old(self).messages,
                _ => r == Ok::<bool, String>(false) && final(self).messages == old(self).messages,
            },
    {
        match dialog::settle(answer, false) {
            Ok(wanted) => {
                if wanted {
                    self.push_message(Message::with_text(Role::User, trigger));
                }
                Ok(wanted)
            },
            Err(why) => Err(why),
        }
    }
}

// Starting extensions.

/// The extensions that are still to be started, in order.
pub struct ExtensionStarts {
    pub left: Vec<ExtensionConfig>,
}

impl ExtensionStarts {
    /// The start of extensions, in order.
    pub fn new(configs: Vec<ExtensionConfig>) -> (r: ExtensionStarts)
        ensures
            r.left == configs,
    {
        ExtensionStarts { left: configs }
    }
}

/// How the start of extensions goes on.
pub enum StartStep {
    /// Start this one.
    Start { config: ExtensionConfig },
    /// Start no more.
    Over { outcome: Result<(), String> },
}

/// How the start of extensions goes on, as contracts speak of it.
pub enum StartView {
    Start(ExtensionConfig),
    Failed(Seq<char>),
    Done,
}

/// A step as contracts speak of it.
pub open spec fn start_view(s: StartStep) -> StartView {
    match s {
        StartStep::Start { config } => StartView::Start(config),
        StartStep::Over { outcome } => match outcome {
            Ok(_) => StartView::Done,
            Err(why) => StartView::Failed(why@),
        },
    }
}

/// What follows an attempt to start an extension, or the beginning, and what is left
/// to be started then.
pub open spec fn next_start(left: Seq<ExtensionConfig>, last: Option<Result<(), String>>) -> (
    StartView,
    Seq<ExtensionConfig>,
) {
    if last is Some && last->0 is Err {
        (StartView::Failed("Failed to start extension: "@ + last->0->Err_0@), left)
    } else if left.len() > 0 {
        (StartView::Start(left[0]), left.drop_first())
    } else {
        (StartView::Done, left)
    }
}

/// How the start of extensions goes on after the outcomes of attempts, and what is
/// left to be started.
pub open spec fn start_run(configs: Seq<ExtensionConfig>, outcomes: Seq<Result<(), String>>) -> (
    StartView,
    Seq<ExtensionConfig>,
)
    decreases outcomes.len(),
{
    if outcomes.len() == 0 {
        next_start(configs, None)
    } else {
        next_start(start_run(configs, outcomes.drop_last()).1, Some(outcomes.last()))
    }
}

/// Each of the outcomes is that of an attempt which was asked for.
pub open spec fn attempts_asked_for(
    configs: Seq<ExtensionConfig>,
    outcomes: Seq<Result<(), String>>,
) -> bool
    decreases outcomes.len(),
{
    outcomes.len() > 0 ==> {
        &&& attempts_asked_for(configs, outcomes.drop_last())
        &&& start_run(configs, outcomes.drop_last()).0 is Start
    }
}

/// Extensions are started in order, each once, up to the first that fails: after it
/// no other is started, and its failure is what is reported. It is a success only
/// once all of them have started.
pub proof fn law_extensions_start_up_to_the_first_failure(
    configs: Seq<ExtensionConfig>,
    outcomes: Seq<Result<(), String>>,
)
    requires
        attempts_asked_for(configs, outcomes),
    ensures
        outcomes.len() <= configs.len(),
        forall|i: int| 0 <= i < outcomes.len() - 1 ==> (#[trigger] outcomes[i]) is Ok,
        start_run(configs, outcomes).0 == (if outcomes.len() > 0 && outcomes.last() is Err {
            StartView::Failed("Failed to start extension: "@ + outcomes.last()->Err_0@)
        } else if outcomes.len() < configs.len() {
            StartView::Start(configs[outcomes.len() as int])
        } else {
            StartView::Done
        }),
        start_run(configs, outcomes).0 is Start ==> start_run(configs, outcomes).1
            == configs.skip(outcomes.len() as int + 1),
        start_run(configs, outcomes).0 is Done ==> start_run(configs, outcomes).1.len() == 0,
    decreases outcomes.len(),
{
    if outcomes.len() == 0 {
        assert(configs.drop_first() =~= configs.skip(1));
    } else {
        let before = outcomes.drop_last();
        law_extensions_start_up_to_the_first_failure(configs, before);
        let left = start_run(configs, before).1;
        assert(left =~= configs.skip(outcomes.len() as int));
        assert forall|i: int| 0 <= i < outcomes.len() - 1 implies (#[trigger] outcomes[i]) is Ok by {
            assert(outcomes[i] == before[i]);
            if i == before.len() - 1 {
                assert(before.last() == outcomes[i]);
            }
        }
        if left.len() > 0 {
            assert(left.drop_first() =~= configs.skip(outcomes.len() as int + 1));
        }
    }
}

// Recipes.

/// What came of writing a recipe.
pub enum RecipeOutcome {
    /// It stands in a file.
    Saved { path: String },
    /// The directory that a relative path starts from is not known.
    NoCurrentDirectory,
    /// The directory of the file does not exist.
    NoDirectory { path: String },
    /// The file cannot be created.
    NoFile { path: String },
    /// The recipe cannot be written.
    NotWritten,
    /// There is no recipe.
    NotGenerated { error: String },
}

/// The line that tells what came of writing a recipe.
pub open spec fn recipe_line(outcome: RecipeOutcome) -> Seq<char> {
    match outcome {
        RecipeOutcome::Saved { path } => "Saved recipe to "@ + path@,
        RecipeOutcome::NoCurrentDirectory => "Failed to get current directory"@,
        RecipeOutcome::NoDirectory { path } => "Directory '"@ + path@ + "' does not exist"@,
        RecipeOutcome::NoFile { path } => "Failed to create file '"@ + path@ + "'"@,
        RecipeOutcome::NotWritten => "Failed to save recipe"@,
        RecipeOutcome::NotGenerated { error } => "Failed to generate recipe: "@ + error@,
    }
}

/// The line that tells what came of writing a recipe.
pub fn handle_recipe(outcome: &RecipeOutcome) -> (r: String)
    ensures
        r@ == recipe_line(*outcome),
{
    match outcome {
        RecipeOutcome::Saved { path } => text::concat("Saved recipe to ", path.as_str()),
        RecipeOutcome::NoCurrentDirectory => "Failed to get current directory".to_owned(),
        RecipeOutcome::NoDirectory { path } => text::concat_three(
            "Directory '",
            path.as_str(),
            "' does not exist",
        ),
        RecipeOutcome::NoFile { path } => text::concat_three(
            "Failed to create file '",
            path.as_str(),
            "'",
        ),
        RecipeOutcome::NotWritten => "Failed to save recipe".to_owned(),
        RecipeOutcome::NotGenerated { error } => text::concat(
            "Failed to generate recipe: ",
            error.as_str(),
        ),
    }
}

// Usage.

/// The numbers of tokens that a session has used, as far as they are known.
pub struct TokenCounts {
    pub total_tokens: Option<i32>,
    pub input_tokens: Option<i32>,
    pub output_tokens: Option<i32>,
}

/// The numbers to show: of the whole context and, if wanted, of what costs.
pub struct Usage {
    pub total: usize,
    pub cost: Option<(usize, usize)>,
}

/// A count as it is shown: zero where it is not known.
pub open spec fn shown_count(n: Option<i32>) -> usize {
    match n {
        Some(k) => k as usize,
        None => 0,
    }
}

fn show_count(n: Option<i32>) -> (r: usize)
    ensures
        r == shown_count(n),
{
    match n {
        Some(k) => k as usize,
        None => 0,
    }
}

/// The numbers to show of a session, or of one that cannot be read.
pub fn display_context_usage(session: Option<TokenCounts>, show_cost: bool) -> (r: Usage)
    ensures
        match session {
            Some(s) => {
                &&& r.total == shown_count(s.total_tokens)
                &&& r.cost == if show_cost {
                    Some((shown_count(s.input_tokens), shown_count(s.output_tokens)))
                } else {
                    None
                }
            },
            None => r.total == 0 && r.cost is None,
        },
{
    match session {
        Some(s) => Usage {
            total: show_count(s.total_tokens),
            cost: if show_cost {
                Some((show_count(s.input_tokens), show_count(s.output_tokens)))
            } else {
                None
            },
        },
        None => Usage { total: 0, cost: None },
    }
}

} // verus!
