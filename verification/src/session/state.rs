//! The state of a session.
use crate::session::interrupt;
use crate::session::message;
use crate::session::message::{Message, Role};
use crate::session::prompts::{CompletionCache, HintStatus, Prompt, PromptInfo};
use crate::string_map::StringMap;
use crate::text;
use crate::time::Elapsed;
use vstd::prelude::*;

verus! {

/// Whether the user's messages are acted on or planned with.
#[derive(Debug, Clone, Copy, PartialEq, Eq, Structural)]
pub enum RunMode {
    Normal,
    Plan,
}

/// The key bindings of the line editor.
#[derive(Debug, Clone, Copy, PartialEq, Eq, Structural)]
pub enum EditMode {
    Emacs,
    Vi,
}

/// A session with the assistant.
pub struct CliSession {
    pub messages: Vec<Message>,
    pub session_id: String,
    pub completion_cache: CompletionCache,
    pub debug: bool,
    pub run_mode: RunMode,
    pub scheduled_job_id: Option<String>,
    pub max_turns: Option<u32>,
    pub edit_mode: Option<EditMode>,
    /// How the agent tries again, as JSON text; the session only hands it on.
    pub retry_config: Option<String>,
    pub output_format: String,
}

/// What no step of a session changes.
pub open spec fn same_settings(a: CliSession, b: CliSession) -> bool {
    &&& a.session_id == b.session_id
    &&& a.debug == b.debug
    &&& a.scheduled_job_id == b.scheduled_job_id
    &&& a.max_turns == b.max_turns
    &&& a.edit_mode == b.edit_mode
    &&& a.retry_config == b.retry_config
    &&& a.output_format == b.output_format
}

/// Two caches differ at most in their hint.
pub open spec fn same_prompts(a: CompletionCache, b: CompletionCache) -> bool {
    &&& a.prompts == b.prompts
    &&& a.prompt_info == b.prompt_info
    &&& a.last_updated == b.last_updated
}

/// The session after a step that changed nothing but the messages.
pub open spec fn only_messages(before: CliSession, after: CliSession) -> bool {
    &&& same_settings(before, after)
    &&& before.run_mode == after.run_mode
    &&& before.completion_cache == after.completion_cache
}

/// The session after an interruption: see [`interrupt::interrupted`]. An
/// interruption by the user also changes the hint of the line editor.
pub open spec fn interrupted_session(
    before: CliSession,
    interrupt: bool,
    after: CliSession,
    asked: bool,
) -> bool {
    &&& same_settings(before, after)
    &&& before.run_mode == after.run_mode
    &&& same_prompts(before.completion_cache, after.completion_cache)
    &&& after.completion_cache.hint_status == if interrupt {
        HintStatus::Interrupted
    } else {
        before.completion_cache.hint_status
    }
    &&& interrupt::interrupted(before.messages@, interrupt, after.messages@, asked)
}

/// The heading of a message in the text that an editor shows of the conversation.
pub open spec fn conversation_text(m: Message) -> Seq<char> {
    "## "@ + message::role_name(m.role) + ": "@ + m.text@
}

impl CliSession {
    /// A session on what is stored of a conversation.
    pub fn new(
        conversation: Option<Vec<Message>>,
        session_id: String,
        debug: bool,
        scheduled_job_id: Option<String>,
        max_turns: Option<u32>,
        edit_mode: Option<EditMode>,
        retry_config: Option<String>,
        output_format: String,
        now: Elapsed,
    ) -> (r: CliSession)
        ensures
            r.messages@ == (match conversation {
                Some(ms) => ms@,
                None => seq![],
            }),
            r.session_id == session_id,
            r.completion_cache.wf(),
            r.completion_cache.prompts@ == Map::<Seq<char>, Vec<String>>::empty(),
            r.completion_cache.prompt_info@ == Map::<Seq<char>, PromptInfo>::empty(),
            r.completion_cache.last_updated == now,
            r.completion_cache.hint_status == HintStatus::Default,
            r.debug == debug,
            r.run_mode == RunMode::Normal,
            r.scheduled_job_id == scheduled_job_id,
            r.max_turns == max_turns,
            r.edit_mode == edit_mode,
            r.retry_config == retry_config,
            r.output_format == output_format,
    {
        let messages = match conversation {
            Some(ms) => ms,
            None => Vec::new(),
        };
        CliSession {
            messages,
            session_id,
            completion_cache: CompletionCache::new(now),
            debug,
            run_mode: RunMode::Normal,
            scheduled_job_id,
            max_turns,
            edit_mode,
            retry_config,
            output_format,
        }
    }

    /// The session's identifier.
    pub fn session_id(&self) -> (r: &String)
        ensures
            *r == self.session_id,
    {
        &self.session_id
    }

    /// Puts a message at the end of the conversation.
    pub fn push_message(&mut self, message: Message)
        ensures
            only_messages(*old(self), *final(self)),
            final(self).messages@ == old(self).messages@.push(message),
    {
        self.messages.push(message);
    }

    /// A copy of the conversation.
    pub fn message_history(&self) -> (r: Vec<Message>)
        ensures
            message::same_messages(r@, self.messages@),
    {
        message::copy_messages(&self.messages)
    }

    /// The key bindings in use.
    pub fn editing(&self) -> (r: EditMode)
        ensures
            r == (match self.edit_mode {
                Some(mode) => mode,
                None => EditMode::Emacs,
            }),
    {
        match self.edit_mode {
            Some(mode) => mode,
            None => EditMode::Emacs,
        }
    }

    /// The conversation as an editor shows it.
    pub fn conversation_strings(&self) -> (r: Vec<String>)
        ensures
            r@.len() == self.messages@.len(),
            forall|i: int|
                0 <= i < r@.len() ==> #[trigger] r@[i]@ == conversation_text(self.messages@[i]),
    {
        let mut out: Vec<String> = Vec::new();
        let mut i: usize = 0;
        while i < self.messages.len()
            invariant
                i <= self.messages@.len(),
                out@.len() == i,
                forall|k: int|
                    0 <= k < i ==> #[trigger] out@[k]@ == conversation_text(self.messages@[k]),
            decreases self.messages@.len() - i,
        {
            let m = &self.messages[i];
            let mut t = text::concat("## ", message::name_of_role(m.role));
            t.append(": ");
            t.append(m.text.as_str());
            out.push(t);
            i += 1;
        }
        out
    }

    /// The line that says how much of an earlier conversation is there, if any.
    pub fn restored_line(&self) -> (r: Option<String>)
        ensures
            text::option_text(r) == if self.messages@.len() == 0 {
                None
            } else {
                Some(text::decimal(self.messages@.len()) + " messages restored"@)
            },
    {
        let count: usize = self.messages.len();
        if count == 0 {
            None
        } else {
            Some(
                text::concat(
                    text::decimal_text(count as u64).as_str(),
                    " messages restored",
                ),
            )
        }
    }

    /// The line at the end of the session.
    pub fn closing_line(&self) -> (r: String)
        ensures
            r@ == "session closed · "@ + self.session_id@,
    {
        text::concat("session closed · ", self.session_id.as_str())
    }

    /// Interrupts the conversation, by the user or by an error, and tells whether
    /// the assistant asks how to go on.
    pub fn handle_interrupted_messages(&mut self, interrupt: bool) -> (asked: bool)
        ensures
            interrupted_session(*old(self), interrupt, *final(self), asked),
    {
        if interrupt {
            self.completion_cache.hint_status = HintStatus::Interrupted;
        }
        interrupt::interrupt_conversation(&mut self.messages, interrupt)
    }

    /// Renews what completion knows of the prompts.
    pub fn update_completion_cache(&mut self, prompts: &StringMap<Vec<Prompt>>, now: Elapsed)
        requires
            prompts.wf(),
        ensures
            same_settings(*old(self), *final(self)),
            final(self).messages == old(self).messages,
            final(self).run_mode == old(self).run_mode,
            final(self).completion_cache.wf(),
            crate::session::prompts::names_by_extension(
                final(self).completion_cache.prompts@,
                prompts@,
            ),
            crate::session::prompts::info_by_name(
                final(self).completion_cache.prompt_info@,
                crate::session::prompts::listing(prompts.entries@),
            ),
            final(self).completion_cache.last_updated == now,
            final(self).completion_cache.hint_status == old(self).completion_cache.hint_status,
    {
        self.completion_cache.update(prompts, now);
    }

    /// Forgets what completion knows of the prompts.
    pub fn invalidate_completion_cache(&mut self, now: Elapsed)
        ensures
            same_settings(*old(self), *final(self)),
            final(self).messages == old(self).messages,
            final(self).run_mode == old(self).run_mode,
            final(self).completion_cache.wf(),
            final(self).completion_cache.prompts@ == Map::<Seq<char>, Vec<String>>::empty(),
            final(self).completion_cache.prompt_info@ == Map::<Seq<char>, PromptInfo>::empty(),
            final(self).completion_cache.last_updated == now,
            final(self).completion_cache.hint_status == old(self).completion_cache.hint_status,
    {
        self.completion_cache.invalidate(now);
    }
}

} // verus!
