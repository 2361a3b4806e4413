//! Planning: a second model answers, and the user may have its plan carried out.
use crate::session::message;
use crate::session::message::{Message, Role};
use crate::session::state;
use crate::session::state::{CliSession, RunMode};
use crate::text;
use vstd::prelude::*;

verus! {

/// How much the assistant may do without asking.
#[derive(Debug, Clone, Copy, PartialEq, Eq, Structural)]
pub enum GooseMode {
    Auto,
    Approve,
    SmartApprove,
    Chat,
}

/// What a planner answers with.
#[derive(Debug, Clone, Copy, PartialEq, Eq, Structural)]
pub enum PlannerResponseType {
    Plan,
    ClarifyingQuestions,
}

/// The question that has a planner's answer classified.
pub open spec fn classification_text(answer: Seq<char>) -> Seq<char> {
    "The text below is the output from an AI model which can either provide a plan or list of clarifying questions. Based on the text below, decide if the output is a \"plan\" or \"clarifying questions\".\n---\n"@
        + answer
}

/// The question that has a planner's answer classified.
pub fn classification_prompt(answer: &str) -> (r: Message)
    ensures
        message::text_message(r, Role::User, classification_text(answer@)),
{
    let prompt = text::concat(
        "The text below is the output from an AI model which can either provide a plan or list of clarifying questions. Based on the text below, decide if the output is a \"plan\" or \"clarifying questions\".\n---\n",
        answer,
    );
    Message::with_text(Role::User, prompt.as_str())
}

/// How the answer to that question is to be given.
pub fn classification_system_prompt() -> (r: &'static str)
    ensures
        r@ == "Reply only with the classification label: \"plan\" or \"clarifying questions\""@,
{
    "Reply only with the classification label: \"plan\" or \"clarifying questions\""
}

/// A label in lower case that speaks of a plan stands for one; every other stands
/// for questions.
pub open spec fn label_meaning(lowered: Seq<char>) -> PlannerResponseType {
    if text::holds_text(lowered, "plan"@) {
        PlannerResponseType::Plan
    } else {
        PlannerResponseType::ClarifyingQuestions
    }
}

/// The meaning of a label in lower case.
pub fn meaning_of_label(lowered: &str) -> (r: PlannerResponseType)
    ensures
        r == label_meaning(lowered@),
{
    if text::contains_text(lowered, "plan") {
        PlannerResponseType::Plan
    } else {
        PlannerResponseType::ClarifyingQuestions
    }
}

/// Decides by the predicted label whether a planner's answer is a plan or
/// questions.
pub fn classify_planner_response(predicted: &str) -> (r: PlannerResponseType)
    ensures
        r == label_meaning(text::lowercase(predicted@)),
{
    meaning_of_label(predicted.to_lowercase().as_str())
}

/// What follows a planner's answer.
#[derive(Debug, Clone, Copy, PartialEq, Eq, Structural)]
pub enum PlanStep {
    /// The plan is carried out: in automatic mode, which is set before if it is
    /// not on, and left again after.
    Act { set_auto: bool, restore: Option<GooseMode> },
    /// The conversation goes on.
    Carry,
}

/// A setting, and a warning if it is not the planner's own.
pub struct PlannerSetting {
    pub value: String,
    pub warning: Option<&'static str>,
}

fn choose_setting(own: Option<String>, other: Option<String>, warning: &'static str) -> (r:
    PlannerSetting)
    requires
        own is Some || other is Some,
    ensures
        match own {
            Some(v) => r.value == v && r.warning is None,
            None => Some(r.value) == other && r.warning == Some(warning),
        },
{
    match own {
        Some(value) => PlannerSetting { value, warning: None },
        None => match other {
            Some(value) => PlannerSetting { value, warning: Some(warning) },
            None => PlannerSetting { value: String::new(), warning: None },
        },
    }
}

/// The provider that plans: one of its own, else the usual one with a warning.
/// One of the two has to be configured.
pub fn planner_provider(own: Option<String>, usual: Option<String>) -> (r: PlannerSetting)
    requires
        own is Some || usual is Some,
    ensures
        match own {
            Some(v) => r.value == v && r.warning is None,
            None => {
                &&& Some(r.value) == usual
                &&& r.warning matches Some(w)
                &&& w@
                    == "WARNING: GOOSE_PLANNER_PROVIDER not found. Using default provider..."@
            },
        },
{
    choose_setting(
        own,
        usual,
        "WARNING: GOOSE_PLANNER_PROVIDER not found. Using default provider...",
    )
}

/// The model that plans: one of its own, else the usual one with a warning. One of
/// the two has to be configured.
pub fn planner_model(own: Option<String>, usual: Option<String>) -> (r: PlannerSetting)
    requires
        own is Some || usual is Some,
    ensures
        match own {
            Some(v) => r.value == v && r.warning is None,
            None => {
                &&& Some(r.value) == usual
                &&& r.warning matches Some(w)
                &&& w@ == "WARNING: GOOSE_PLANNER_MODEL not found. Using default model..."@
            },
        },
{
    choose_setting(own, usual, "WARNING: GOOSE_PLANNER_MODEL not found. Using default model...")
}

/// The conversation that a planner gets: that of the session and a message of the
/// user.
pub open spec fn planned_with(given: Seq<Message>, messages: Seq<Message>, t: Seq<char>) -> bool {
    &&& given.len() == messages.len() + 1
    &&& message::same_messages(given.drop_last(), messages)
    &&& message::text_message(given.last(), Role::User, t)
}

impl CliSession {
    /// The conversation that a planner gets.
    pub fn plan_messages(&self, content: &str) -> (r: Vec<Message>)
        ensures
            planned_with(r@, self.messages@, content@),
    {
        let mut out = message::copy_messages(&self.messages);
        let ghost before = out@;
        out.push(Message::with_text(Role::User, content));
        assert(out@.drop_last() == before);
        out
    }

    /// Takes the answer of a planner. A plan that the user wants carried out takes
    /// the place of the conversation, as a message of the user; every other answer
    /// is added to it.
    pub fn plan_with_reasoner_model(
        &mut self,
        plan_response: Message,
        kind: PlannerResponseType,
        should_act: bool,
        mode: GooseMode,
    ) -> (r: PlanStep)
        ensures
            state::same_settings(*old(self), *final(self)),
            final(self).completion_cache == old(self).completion_cache,
            if kind == PlannerResponseType::Plan && should_act {
                &&& final(self).run_mode == RunMode::Normal
                &&& final(self).messages@.len() == 1
                &&& message::text_message(
                    final(self).messages@[0],
                    Role::User,
                    plan_response.text@,
                )
                &&& r == (PlanStep::Act {
                    set_auto: mode != GooseMode::Auto,
                    restore: if mode != GooseMode::Auto {
                        Some(mode)
                    } else {
                        None
                    },
                })
            } else {
                &&& final(self).run_mode == old(self).run_mode
                &&& final(self).messages@ == old(self).messages@.push(plan_response)
                &&& r == PlanStep::Carry
            },
    {
        if kind == PlannerResponseType::Plan && should_act {
            self.run_mode = RunMode::Normal;
            self.messages = vec![Message::with_text(Role::User, plan_response.text.as_str())];
            if mode != GooseMode::Auto {
                PlanStep::Act { set_auto: true, restore: Some(mode) }
            } else {
                PlanStep::Act { set_auto: false, restore: None }
            }
        } else {
            self.messages.push(plan_response);
            PlanStep::Carry
        }
    }
}

} // verus!
