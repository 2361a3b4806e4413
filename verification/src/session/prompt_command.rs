//! The command that puts a prompt of an extension into the conversation.
use crate::session::message;
use crate::session::message::{Message, Role};
use crate::session::prompts::PromptInfo;
use crate::session::state;
use crate::session::state::CliSession;
use crate::string_map::StringMap;
use crate::text;
use vstd::prelude::*;

verus! {

/// The command as it was typed.
pub struct PromptCommandOptions {
    pub name: String,
    pub info: bool,
    pub arguments: StringMap<String>,
}

/// What the command asks for.
pub enum PromptTask {
    /// Nothing that can be done.
    Reject { error: &'static str },
    /// The description of a prompt.
    Describe { name: String },
    /// The messages of a prompt.
    Fetch { name: String, arguments: StringMap<String> },
}

/// Reads the command.
pub fn prompt_task(opts: PromptCommandOptions) -> (r: PromptTask)
    ensures
        if opts.name@.len() == 0 {
            r matches PromptTask::Reject { error } && error@
                == "Prompt name argument is required"@
        } else if opts.info {
            r == (PromptTask::Describe { name: opts.name })
        } else {
            r == (PromptTask::Fetch { name: opts.name, arguments: opts.arguments })
        },
{
    let length: usize = text::chars_of(opts.name.as_str()).len();
    if length == 0 {
        PromptTask::Reject { error: "Prompt name argument is required" }
    } else if opts.info {
        PromptTask::Describe { name: opts.name }
    } else {
        PromptTask::Fetch { name: opts.name, arguments: opts.arguments }
    }
}

/// The description of a prompt, or the error that there is none of the name.
pub fn described_prompt(name: &str, info: Option<PromptInfo>) -> (r: Result<PromptInfo, String>)
    ensures
        match (info, r) {
            (Some(i), Ok(shown)) => shown == i,
            (None, Err(why)) => why@ == "Prompt '"@ + name@ + "' not found"@,
            _ => false,
        },
{
    match info {
        Some(i) => Ok(i),
        None => Err(text::concat_three("Prompt '", name, "' not found")),
    }
}

/// The role that the message at a position of a prompt has to have: the user
/// begins, and the assistant answers.
pub open spec fn expected_role(i: int) -> Role {
    if i % 2 == 0 {
        Role::User
    } else {
        Role::Assistant
    }
}

/// The first `n` messages have the roles expected.
pub open spec fn alternates(ms: Seq<Message>, n: int) -> bool {
    forall|k: int| 0 <= k < n ==> (#[trigger] ms[k]).role == expected_role(k)
}

/// What came of the messages of a prompt.
pub enum PromptOutcome {
    /// They are at the end of the conversation; all but the last are to be stored,
    /// and the last is to be answered.
    Accepted { stored: usize },
    /// The message at a position has the wrong role. The messages before it were
    /// fine.
    Rejected { position: usize, error: String, messages: Vec<Message> },
}

/// The error for a message with the wrong role.
pub open spec fn role_error(i: nat, found: Role) -> Seq<char> {
    "Expected "@ + message::role_name(expected_role(i as int)) + " message at position "@
        + text::decimal(i) + ", but found "@ + message::role_name(found)
}

impl CliSession {
    /// Puts the messages of a prompt at the end of the conversation, all of them or
    /// none: user and assistant have to take turns.
    pub fn handle_prompt_command(&mut self, messages: Vec<Message>) -> (r: PromptOutcome)
        ensures
            state::only_messages(*old(self), *final(self)),
            match r {
                PromptOutcome::Accepted { stored } => {
                    &&& alternates(messages@, messages@.len() as int)
                    &&& final(self).messages@ == old(self).messages@ + messages@
                    &&& stored == if messages@.len() == 0 {
                        0
                    } else {
                        messages@.len() - 1
                    }
                },
                PromptOutcome::Rejected { position, error, messages: given } => {
                    &&& position < messages@.len()
                    &&& alternates(messages@, position as int)
                    &&& messages@[position as int].role != expected_role(position as int)
                    &&& error@ == role_error(position as nat, messages@[position as int].role)
                    &&& given == messages
                    &&& final(self).messages@ == old(self).messages@
                },
            },
    {
        let mut i: usize = 0;
        while i < messages.len()
            invariant
                i <= messages@.len(),
                alternates(messages@, i as int),
                *self == *old(self),
            decreases messages@.len() - i,
        {
            let expected = if i % 2 == 0 {
                Role::User
            } else {
                Role::Assistant
            };
            if messages[i].role != expected {
                let mut error = text::concat("Expected ", message::name_of_role(expected));
                error.append(" message at position ");
                error.append(text::decimal_text(i as u64).as_str());
                error.append(", but found ");
                error.append(message::name_of_role(messages[i].role));
                return PromptOutcome::Rejected { position: i, error, messages };
            }
            i += 1;
        }
        let stored: usize = if messages.len() > 1 {
            messages.len() - 1
        } else {
            0
        };
        let mut messages = messages;
        self.messages.append(&mut messages);
        PromptOutcome::Accepted { stored }
    }
}

} // verus!
