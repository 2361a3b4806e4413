use goose::session::commands::{
    display_context_usage, handle_goose_mode, handle_recipe, handle_select_theme, ExtensionStarts, StartStep,
    handle_toggle_full_tool_output, handle_toggle_theme, change_mode, InputResult, InputTask,
    PlanCommandOptions, RecipeOutcome, Theme, TokenCounts,
};
use goose::session::dialog::{given_permission, permission_question, settle, Answer, Permission, TopUpOffers};
use goose::session::extension::ExtensionConfig;
use goose::session::history::{BaseDir, HistoryManager};
use goose::session::message::{ErrorCode, ErrorData, Message, MessageContent, Role, ToolRequest, ToolResponse};
use goose::session::plan::{
    classification_prompt, classify_planner_response, meaning_of_label, planner_model,
    planner_provider, GooseMode, PlanStep, PlannerResponseType,
};
use goose::session::prompt_command::{
    described_prompt, prompt_task, PromptCommandOptions, PromptOutcome, PromptTask,
};
use goose::session::prompts::{HintStatus, Prompt, PromptArgument};
use goose::session::state::{CliSession, EditMode, RunMode};
use goose::string_map::StringMap;
use goose::time::Elapsed;

fn session() -> CliSession {
    CliSession::new(
        None,
        "20260306_42".to_string(),
        false,
        None,
        Some(5),
        None,
        None,
        "text".to_string(),
        Elapsed::from_secs(0),
    )
}

fn user(t: &str) -> Message {
    Message::with_text(Role::User, t)
}

fn assistant(t: &str) -> Message {
    Message::with_text(Role::Assistant, t)
}

fn with_parts(role: Role, content: Vec<MessageContent>) -> Message {
    Message { role, content, text: String::new(), user_visible: true, agent_visible: true }
}

fn request(id: &str, tool: &str) -> MessageContent {
    MessageContent::ToolRequest(ToolRequest { id: id.into(), tool_call: Ok(tool.into()) })
}

fn response(id: &str) -> MessageContent {
    MessageContent::ToolResponse(ToolResponse { id: id.into(), tool_result: Ok("{}".into()) })
}

fn prompt(name: &str) -> Prompt {
    Prompt {
        name: name.into(),
        description: Some(format!("about {}", name)),
        arguments: Some(vec![PromptArgument {
            name: "x".into(),
            description: None,
            required: Some(true),
        }]),
    }
}

fn prompts() -> StringMap<Vec<Prompt>> {
    let mut m: StringMap<Vec<Prompt>> = StringMap::new();
    m.insert("alpha".into(), vec![prompt("one"), prompt("two")]);
    m.insert("beta".into(), vec![prompt("two"), prompt("three")]);
    m
}

#[test]
fn a_new_session_is_empty() {
    let s = session();
    assert_eq!(s.session_id(), "20260306_42");
    assert!(s.messages.is_empty());
    assert!(s.restored_line().is_none());
    assert_eq!(s.run_mode, RunMode::Normal);
    assert_eq!(s.editing(), EditMode::Emacs);
    assert_eq!(s.completion_cache.hint_status, HintStatus::Default);
    assert_eq!(s.closing_line(), "session closed · 20260306_42");
}

#[test]
fn a_stored_conversation_is_restored() {
    let s = CliSession::new(
        Some(vec![user("hi"), assistant("hello")]),
        "x".into(),
        false,
        None,
        None,
        Some(EditMode::Vi),
        Some("{}".into()),
        "text".into(),
        Elapsed::from_secs(0),
    );
    assert_eq!(s.restored_line().unwrap(), "2 messages restored");
    assert_eq!(s.conversation_strings(), vec!["## User: hi", "## Assistant: hello"]);
    assert_eq!(s.editing(), EditMode::Vi);
    assert_eq!(s.retry_config.as_deref(), Some("{}"));
    let copy = s.message_history();
    assert_eq!(copy.len(), 2);
    assert_eq!(copy[1].text, "hello");
}

#[test]
fn open_tool_calls_are_answered_on_interruption() {
    let mut s = session();
    s.push_message(user("do it"));
    s.push_message(with_parts(Role::Assistant, vec![request("a", "shell"), request("b", "edit")]));
    assert!(s.handle_interrupted_messages(true));
    assert_eq!(s.messages.len(), 4);
    assert_eq!(s.completion_cache.hint_status, HintStatus::Interrupted);
    let answer = &s.messages[2];
    assert!(answer.role == Role::User);
    assert_eq!(answer.content.len(), 2);
    match &answer.content[1] {
        MessageContent::ToolResponse(r) => {
            assert_eq!(r.id, "b");
            let e = r.tool_result.as_ref().err().unwrap();
            assert_eq!(e.message, "Interrupted by the user to make a correction");
            assert_eq!(e.code, ErrorCode::InternalError);
        }
        _ => panic!("a tool call is answered by a tool response"),
    }
    assert_eq!(s.messages[3].text, "Yes — what would you like me to do?");

    // A second interruption finds nothing to do.
    assert!(!s.handle_interrupted_messages(true));
    assert_eq!(s.messages.len(), 4);
}

#[test]
fn an_error_is_told_apart_from_an_interruption() {
    let mut s = session();
    s.push_message(with_parts(Role::Assistant, vec![request("a", "shell")]));
    assert!(s.handle_interrupted_messages(false));
    assert_eq!(s.completion_cache.hint_status, HintStatus::Default);
    match &s.messages[1].content[0] {
        MessageContent::ToolResponse(r) => assert_eq!(
            r.tool_result.as_ref().err().unwrap().message,
            "An uncaught error happened during tool use"
        ),
        _ => panic!("a tool call is answered by a tool response"),
    }
}

#[test]
fn an_unanswered_message_is_taken_back_on_interruption() {
    let mut s = session();
    s.push_message(user("first"));
    assert!(s.handle_interrupted_messages(true));
    assert_eq!(s.messages.len(), 1);
    assert!(s.messages[0].role == Role::Assistant);

    let mut s = session();
    s.push_message(with_parts(Role::User, vec![response("a")]));
    assert!(s.handle_interrupted_messages(true));
    assert_eq!(s.messages.len(), 2);

    let mut s = session();
    s.push_message(with_parts(Role::User, vec![]));
    assert!(!s.handle_interrupted_messages(true));
    assert_eq!(s.messages.len(), 1);

    let mut s = session();
    assert!(!s.handle_interrupted_messages(false));
    s.push_message(assistant("done"));
    assert!(!s.handle_interrupted_messages(false));
    assert_eq!(s.messages.len(), 1);
}

#[test]
fn messages_are_acted_on_in_the_normal_mode() {
    let mut s = session();
    let (save, task) = s.handle_input(InputResult::Message("hello".into()));
    assert!(save);
    assert!(matches!(task, InputTask::Respond));
    assert_eq!(s.messages.len(), 1);
    assert_eq!(s.messages[0].text, "hello");
    assert!(s.messages[0].role == Role::User);
}

#[test]
fn planning_can_be_entered_and_left() {
    let mut s = session();
    s.push_message(user("context"));
    let (save, task) =
        s.handle_input(InputResult::Plan(PlanCommandOptions { message_text: "a plan".into() }));
    assert!(!save);
    assert_eq!(s.run_mode, RunMode::Plan);
    assert_eq!(s.messages.len(), 1);
    match task {
        InputTask::EnterPlan { opening } => {
            let ms = opening.unwrap();
            assert_eq!(ms.len(), 2);
            assert_eq!(ms[0].text, "context");
            assert_eq!(ms[1].text, "a plan");
        }
        _ => panic!("planning begins"),
    }
    let (save, task) = s.handle_input(InputResult::Message("more".into()));
    assert!(!save);
    assert!(matches!(&task, InputTask::PlanWith { messages } if messages.len() == 2));
    assert_eq!(s.messages.len(), 1);
    let (save, task) = s.handle_input(InputResult::EndPlan);
    assert!(!save);
    assert!(matches!(task, InputTask::LeavePlan));
    assert_eq!(s.run_mode, RunMode::Normal);

    let (_, task) =
        s.handle_input(InputResult::Plan(PlanCommandOptions { message_text: String::new() }));
    assert!(matches!(task, InputTask::EnterPlan { opening: None }));
}

#[test]
fn commands_lead_to_their_tasks() {
    let mut s = session();
    let (save, task) = s.handle_input(InputResult::AddExtension("npx x".into()));
    assert!(save);
    assert!(matches!(&task, InputTask::AddExtension { command } if command == "npx x"));
    let (save, task) = s.handle_input(InputResult::AddBuiltin("chat".into()));
    assert!(save);
    assert!(matches!(&task, InputTask::AddBuiltin { names } if names == "chat"));
    assert!(matches!(s.handle_input(InputResult::ToggleTheme), (true, InputTask::ToggleTheme)));
    assert!(matches!(
        s.handle_input(InputResult::ToggleFullToolOutput),
        (true, InputTask::ToggleFullToolOutput)
    ));
    assert!(matches!(s.handle_input(InputResult::Retry), (false, InputTask::Nothing)));
    assert!(matches!(s.handle_input(InputResult::Clear), (true, InputTask::Clear)));
    assert!(matches!(s.handle_input(InputResult::Compact), (true, InputTask::Compact)));
    assert!(matches!(
        s.handle_input(InputResult::ListPrompts(None)),
        (true, InputTask::ListPrompts { extension: None })
    ));
    let (_, task) = s.handle_input(InputResult::Recipe(None));
    assert!(matches!(&task, InputTask::Recipe { path } if path == "recipe.yaml"));
    let (_, task) = s.handle_input(InputResult::Recipe(Some("r.yml".into())));
    assert!(matches!(&task, InputTask::Recipe { path } if path == "r.yml"));
    let (_, task) = s.handle_input(InputResult::SelectTheme("ansi".into()));
    assert!(matches!(&task, InputTask::SelectTheme { theme } if theme.theme == Theme::Ansi));
    let (_, task) = s.handle_input(InputResult::GooseMode("Chat".into()));
    assert!(matches!(&task, InputTask::ChangeMode { change: Ok((GooseMode::Chat, _)) }));
    assert!(s.messages.is_empty());
}

#[test]
fn themes_follow_each_other() {
    let light = handle_toggle_theme(Theme::Ansi);
    assert_eq!(light.theme, Theme::Light);
    assert_eq!(light.line, Some("Switching to Light theme"));
    let dark = handle_toggle_theme(light.theme);
    assert_eq!(dark.theme, Theme::Dark);
    assert_eq!(dark.line, Some("Switching to Dark theme"));
    let ansi = handle_toggle_theme(dark.theme);
    assert_eq!(ansi.theme, Theme::Ansi);
    assert_eq!(ansi.line, Some("Switching to Ansi theme"));
    assert_eq!(handle_select_theme("light").theme, Theme::Light);
    assert_eq!(handle_select_theme("dark").line, Some("Switching to Dark theme"));
    let unknown = handle_select_theme("Light");
    assert_eq!(unknown.theme, Theme::Dark);
    assert_eq!(unknown.line, None);
    assert!(handle_toggle_full_tool_output(true).contains("enabled"));
    assert!(handle_toggle_full_tool_output(false).contains("disabled"));
}

#[test]
fn modes_are_set_by_name() {
    let (mode, line) = handle_goose_mode("Smart_Approve").unwrap();
    assert_eq!(mode, GooseMode::SmartApprove);
    assert_eq!(line, "Goose mode set to 'SmartApprove'");
    assert_eq!(handle_goose_mode("AUTO").unwrap().0, GooseMode::Auto);
    assert_eq!(handle_goose_mode("approve").unwrap().0, GooseMode::Approve);
    assert_eq!(
        handle_goose_mode("Turbo").unwrap_err(),
        "Invalid mode 'Turbo'. Mode must be one of: auto, approve, chat, smart_approve"
    );
    assert!(change_mode("x", "chat").is_ok());
    assert!(change_mode("Chat", "Chat").is_err());
}

#[test]
fn answers_to_the_planner_are_classified() {
    assert_eq!(classify_planner_response("PLAN"), PlannerResponseType::Plan);
    assert_eq!(classify_planner_response("It is a plan."), PlannerResponseType::Plan);
    assert_eq!(
        classify_planner_response("clarifying questions"),
        PlannerResponseType::ClarifyingQuestions
    );
    assert_eq!(meaning_of_label("plan"), PlannerResponseType::Plan);
    assert_eq!(meaning_of_label("PLAN"), PlannerResponseType::ClarifyingQuestions);
    let m = classification_prompt("1. do it");
    assert!(m.role == Role::User);
    assert!(m.text.starts_with("The text below is the output from an AI model"));
    assert!(m.text.ends_with("\n---\n1. do it"));
}

#[test]
fn a_plan_takes_the_place_of_the_conversation() {
    let mut s = session();
    s.run_mode = RunMode::Plan;
    s.push_message(user("context"));
    let step = s.plan_with_reasoner_model(
        assistant("1. do it"),
        PlannerResponseType::Plan,
        true,
        GooseMode::Approve,
    );
    assert_eq!(step, PlanStep::Act { set_auto: true, restore: Some(GooseMode::Approve) });
    assert_eq!(s.run_mode, RunMode::Normal);
    assert_eq!(s.messages.len(), 1);
    assert!(s.messages[0].role == Role::User);
    assert_eq!(s.messages[0].text, "1. do it");
    let step = s.plan_with_reasoner_model(
        assistant("again"),
        PlannerResponseType::Plan,
        true,
        GooseMode::Auto,
    );
    assert_eq!(step, PlanStep::Act { set_auto: false, restore: None });
}

#[test]
fn other_answers_of_the_planner_are_kept() {
    let mut s = session();
    s.run_mode = RunMode::Plan;
    let step = s.plan_with_reasoner_model(
        assistant("which file?"),
        PlannerResponseType::ClarifyingQuestions,
        true,
        GooseMode::Chat,
    );
    assert_eq!(step, PlanStep::Carry);
    assert_eq!(s.run_mode, RunMode::Plan);
    let step = s.plan_with_reasoner_model(
        assistant("a plan"),
        PlannerResponseType::Plan,
        false,
        GooseMode::Chat,
    );
    assert_eq!(step, PlanStep::Carry);
    assert_eq!(s.messages.len(), 2);
    assert!(s.messages[1].role == Role::Assistant);
}

#[test]
fn the_planner_falls_back_with_a_warning() {
    let own = planner_provider(Some("a".into()), Some("b".into()));
    assert_eq!(own.value, "a");
    assert!(own.warning.is_none());
    let usual = planner_provider(None, Some("b".into()));
    assert_eq!(usual.value, "b");
    assert_eq!(
        usual.warning,
        Some("WARNING: GOOSE_PLANNER_PROVIDER not found. Using default provider...")
    );
    let model = planner_model(None, Some("m".into()));
    assert_eq!(
        model.warning,
        Some("WARNING: GOOSE_PLANNER_MODEL not found. Using default model...")
    );
}

#[test]
fn prompts_are_accepted_as_a_whole() {
    let mut s = session();
    s.push_message(user("before"));
    let good = vec![user("q"), assistant("a"), user("q2")];
    assert!(matches!(s.handle_prompt_command(good), PromptOutcome::Accepted { stored: 2 }));
    assert_eq!(s.messages.len(), 4);
    let bad = vec![user("q"), user("q2")];
    match s.handle_prompt_command(bad) {
        PromptOutcome::Rejected { position, error, messages } => {
            assert_eq!(position, 1);
            assert_eq!(error, "Expected Assistant message at position 1, but found User");
            assert_eq!(messages.len(), 2);
        }
        PromptOutcome::Accepted { .. } => panic!("the roles have to alternate"),
    }
    assert_eq!(s.messages.len(), 4);
    match s.handle_prompt_command(vec![assistant("a")]) {
        PromptOutcome::Rejected { error, .. } => {
            assert_eq!(error, "Expected User message at position 0, but found Assistant")
        }
        PromptOutcome::Accepted { .. } => panic!("the user begins"),
    }
    assert!(matches!(s.handle_prompt_command(vec![]), PromptOutcome::Accepted { stored: 0 }));
    assert!(matches!(s.handle_prompt_command(vec![user("q")]), PromptOutcome::Accepted { stored: 0 }));
}

#[test]
fn the_prompt_command_needs_a_name() {
    let opts = |name: &str, info: bool| PromptCommandOptions {
        name: name.into(),
        info,
        arguments: StringMap::new(),
    };
    assert!(matches!(
        prompt_task(opts("", true)),
        PromptTask::Reject { error: "Prompt name argument is required" }
    ));
    assert!(matches!(prompt_task(opts("p", true)), PromptTask::Describe { .. }));
    assert!(matches!(prompt_task(opts("p", false)), PromptTask::Fetch { .. }));
    assert_eq!(described_prompt("p", None).err().unwrap(), "Prompt 'p' not found");
}

#[test]
fn prompts_are_listed_and_described() {
    let all = CliSession::list_prompts(&prompts(), None).ok().unwrap();
    assert_eq!(all.entries.len(), 2);
    assert_eq!(all.get("alpha").unwrap(), &vec!["one".to_string(), "two".to_string()]);
    let beta = CliSession::list_prompts(&prompts(), Some("beta")).ok().unwrap();
    assert_eq!(beta.entries.len(), 1);
    assert_eq!(beta.get("beta").unwrap(), &vec!["two".to_string(), "three".to_string()]);
    let why = CliSession::list_prompts(&prompts(), Some("gamma")).err().unwrap();
    assert_eq!(why, "Extension 'gamma' not found");

    let two = CliSession::get_prompt_info(&prompts(), "two").unwrap();
    assert_eq!(two.extension.as_deref(), Some("alpha"));
    assert_eq!(two.description.as_deref(), Some("about two"));
    assert_eq!(two.arguments.unwrap()[0].name, "x");
    let three = CliSession::get_prompt_info(&prompts(), "three").unwrap();
    assert_eq!(three.extension.as_deref(), Some("beta"));
    assert!(CliSession::get_prompt_info(&prompts(), "four").is_none());
}

#[test]
fn the_completion_cache_is_filled_and_emptied() {
    let mut s = session();
    s.update_completion_cache(&prompts(), Elapsed::from_secs(3));
    assert_eq!(s.completion_cache.prompts.entries.len(), 2);
    assert_eq!(s.completion_cache.prompt_info.entries.len(), 3);
    // Of two prompts of one name the last one counts.
    let two = s.completion_cache.prompt_info.get("two").unwrap();
    assert_eq!(two.extension.as_deref(), Some("beta"));
    assert_eq!(s.completion_cache.last_updated.secs, 3);

    let configs = |names: &str| CliSession::parse_builtin_extensions(names, &Vec::new());
    let is_start = |step: &StartStep, wanted: &str| match step {
        StartStep::Start { config: ExtensionConfig::Builtin { name, .. } } => name == wanted,
        _ => false,
    };
    // Nothing is started after a failure.
    let mut starts = ExtensionStarts::new(configs("a,b,c"));
    let step = s.add_and_persist_extensions(&mut starts, None, Elapsed::from_secs(4));
    assert!(is_start(&step, "a"));
    let step = s.add_and_persist_extensions(&mut starts, Some(Ok(())), Elapsed::from_secs(4));
    assert!(is_start(&step, "b"));
    let failed = Some(Err("no such file".to_string()));
    match s.add_and_persist_extensions(&mut starts, failed, Elapsed::from_secs(4)) {
        StartStep::Over { outcome } => {
            assert_eq!(outcome.unwrap_err(), "Failed to start extension: no such file")
        }
        _ => panic!("a failure ends the start"),
    }
    assert_eq!(starts.left.len(), 1);
    assert_eq!(s.completion_cache.prompts.entries.len(), 2);
    // All of them have started.
    let mut starts = ExtensionStarts::new(configs("a"));
    let step = s.add_and_persist_extensions(&mut starts, None, Elapsed::from_secs(5));
    assert!(is_start(&step, "a"));
    assert!(matches!(
        s.add_and_persist_extensions(&mut starts, Some(Ok(())), Elapsed::from_secs(5)),
        StartStep::Over { outcome: Ok(()) }
    ));
    assert!(s.completion_cache.prompts.entries.is_empty());
    assert!(s.completion_cache.prompt_info.entries.is_empty());
    assert_eq!(s.completion_cache.last_updated.secs, 5);
}

#[test]
fn clearing_takes_both_steps() {
    let mut s = session();
    s.push_message(user("hi"));
    assert_eq!(
        s.handle_clear(Err("locked".into()), Ok(())).err().unwrap(),
        "Failed to clear session: locked"
    );
    assert_eq!(
        s.handle_clear(Ok(()), Err("locked".into())).err().unwrap(),
        "Failed to reset token counts: locked"
    );
    assert_eq!(s.messages.len(), 1);
    let shown = s.handle_clear(Ok(()), Ok(())).ok().unwrap();
    assert_eq!(shown.text, "Chat context cleared.\n");
    assert!(shown.role == Role::Assistant);
    assert!(s.messages.is_empty());
}

#[test]
fn compaction_is_asked_for() {
    let mut s = session();
    assert_eq!(s.handle_compact(Answer::Given(false), "/compact"), Ok(false));
    assert_eq!(s.handle_compact(Answer::Interrupted, "/compact"), Ok(false));
    assert_eq!(s.handle_compact(Answer::Failed("tty".into()), "/compact"), Err("tty".into()));
    assert!(s.messages.is_empty());
    assert_eq!(s.handle_compact(Answer::Given(true), "/compact"), Ok(true));
    assert_eq!(s.messages[0].text, "/compact");
}

#[test]
fn a_prompt_without_a_terminal_is_a_message_of_the_user() {
    let mut s = session();
    s.headless("go");
    assert_eq!(s.messages.len(), 1);
    assert_eq!(s.messages[0].text, "go");
}

#[test]
fn permissions_are_asked_for() {
    let plain = permission_question(None);
    assert_eq!(plain.question, "Goose would like to call the above tool, do you allow?");
    assert_eq!(plain.items.len(), 4);
    assert_eq!(plain.items[1].label, "Always Allow");
    let warned = permission_question(Some("careful".into()));
    assert_eq!(warned.question, "Do you allow this tool call?");
    assert_eq!(warned.warning.as_deref(), Some("careful"));
    assert_eq!(warned.items.len(), 3);
    assert!(warned.items.iter().all(|i| i.permission != Permission::AlwaysAllow));
    assert_eq!(given_permission(Answer::Interrupted), Ok(Permission::Cancel));
    assert_eq!(given_permission(Answer::Given(Permission::AllowOnce)), Ok(Permission::AllowOnce));
    assert_eq!(given_permission(Answer::Failed("x".into())), Err("x".into()));
    assert_eq!(settle(Answer::Interrupted, 7u8), Ok(7));
}

#[test]
fn an_address_is_offered_once() {
    let mut offers = TopUpOffers::new();
    let url = Some("https://pay".to_string());
    assert!(!offers.maybe_open_credits_top_up_url(false, true, url.clone()));
    assert!(!offers.maybe_open_credits_top_up_url(true, false, url.clone()));
    assert!(!offers.maybe_open_credits_top_up_url(true, true, None));
    assert!(offers.maybe_open_credits_top_up_url(true, true, url.clone()));
    assert!(!offers.maybe_open_credits_top_up_url(true, true, url));
    assert!(offers.maybe_open_credits_top_up_url(true, true, Some("https://other".into())));
}

#[test]
fn the_history_moves_to_its_new_file() {
    let h = HistoryManager::new();
    assert_eq!(h.history_file.dir, BaseDir::State);
    assert_eq!(h.history_file.name, "history.txt");
    assert_eq!(h.old_history_file.dir, BaseDir::Config);
    assert_eq!(h.load(true, true).unwrap().dir, BaseDir::State);
    assert_eq!(h.load(false, true).unwrap().dir, BaseDir::Config);
    assert!(h.load(false, false).is_none());
    let saved = h.save(Ok(()), true);
    assert!(saved.remove_old && saved.warning.is_none());
    let failed = h.save(Err("disk full".into()), true);
    assert!(!failed.remove_old);
    assert_eq!(
        failed.warning.unwrap(),
        "Warning: Failed to save command history: disk full"
    );
}

#[test]
fn recipes_are_reported() {
    assert_eq!(
        handle_recipe(&RecipeOutcome::Saved { path: "/a/recipe.yaml".into() }),
        "Saved recipe to /a/recipe.yaml"
    );
    assert_eq!(
        handle_recipe(&RecipeOutcome::NoCurrentDirectory),
        "Failed to get current directory"
    );
    assert_eq!(
        handle_recipe(&RecipeOutcome::NoDirectory { path: "/a".into() }),
        "Directory '/a' does not exist"
    );
    assert_eq!(
        handle_recipe(&RecipeOutcome::NoFile { path: "/a/b".into() }),
        "Failed to create file '/a/b'"
    );
    assert_eq!(handle_recipe(&RecipeOutcome::NotWritten), "Failed to save recipe");
    assert_eq!(
        handle_recipe(&RecipeOutcome::NotGenerated { error: "no model".into() }),
        "Failed to generate recipe: no model"
    );
}

#[test]
fn usage_is_counted() {
    let counts = || TokenCounts { total_tokens: Some(30), input_tokens: Some(20), output_tokens: None };
    let u = display_context_usage(Some(counts()), true);
    assert_eq!(u.total, 30);
    assert_eq!(u.cost, Some((20, 0)));
    assert_eq!(display_context_usage(Some(counts()), false).cost, None);
    let none = display_context_usage(None, true);
    assert_eq!(none.total, 0);
    assert_eq!(none.cost, None);
}

#[test]
fn a_message_is_copied_whole() {
    let m = Message {
        role: Role::User,
        content: vec![
            MessageContent::Text("t".into()),
            MessageContent::ToolResponse(ToolResponse {
                id: "i".into(),
                tool_result: Err(ErrorData { code: ErrorCode::Other(-7), message: "m".into() }),
            }),
            MessageContent::Other("{}".into()),
        ],
        text: "t".into(),
        user_visible: false,
        agent_visible: true,
    };
    let c = m.copy();
    assert_eq!(c.content.len(), 3);
    assert!(matches!(&c.content[1], MessageContent::ToolResponse(r)
        if r.tool_result.as_ref().err().unwrap().code == ErrorCode::Other(-7)));
    assert!(!c.user_visible && c.agent_visible);
}
