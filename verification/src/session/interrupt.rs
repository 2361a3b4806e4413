//! What becomes of the conversation when a response is interrupted.
use crate::session::message;
use crate::session::message::{ErrorCode, Message, MessageContent, Role};
use crate::text;
use vstd::prelude::*;

verus! {

/// The identifiers of the tool calls among the parts of a message.
pub open spec fn request_ids(parts: Seq<MessageContent>) -> Seq<Seq<char>>
    decreases parts.len(),
{
    if parts.len() == 0 {
        seq![]
    } else {
        let before = request_ids(parts.drop_last());
        match parts.last() {
            MessageContent::ToolRequest(r) => before.push(r.id@),
            _ => before,
        }
    }
}

/// The tool calls that the conversation ends with: those of its last message,
/// if the assistant sent it.
pub open spec fn open_requests(ms: Seq<Message>) -> Seq<Seq<char>> {
    if ms.len() > 0 && ms.last().role == Role::Assistant {
        request_ids(ms.last().content@)
    } else {
        seq![]
    }
}

/// What the assistant says after an interruption.
pub open spec fn interrupt_prompt() -> Seq<char> {
    "Yes — what would you like me to do?"@
}

/// What open tool calls are answered.
pub open spec fn interrupt_notice(interrupt: bool) -> Seq<char> {
    if interrupt {
        "Interrupted by the user to make a correction"@
    } else {
        "An uncaught error happened during tool use"@
    }
}

/// The message with which the assistant asks how to go on.
pub open spec fn is_prompt(m: Message) -> bool {
    message::text_message(m, Role::Assistant, interrupt_prompt())
}

/// The conversation `after` is what an interruption makes of `before`, and
/// `asked` tells whether the assistant asks how to go on.
///
/// Open tool calls are answered with an error. An answer to a tool call stays at
/// the end. Another message of the user is taken back. In each of these cases
/// the assistant then asks how to go on. Nothing changes in the others: an empty
/// message of the user, a message of the assistant without tool calls, and no
/// message at all.
pub open spec fn interrupted(
    before: Seq<Message>,
    interrupt: bool,
    after: Seq<Message>,
    asked: bool,
) -> bool {
    let ids = open_requests(before);
    if ids.len() > 0 {
        &&& asked
        &&& after.len() == before.len() + 2
        &&& after.take(before.len() as int) == before
        &&& message::failure_message(
            after[before.len() as int],
            ids,
            ErrorCode::InternalError,
            interrupt_notice(interrupt),
        )
        &&& is_prompt(after.last())
    } else if before.len() > 0 && before.last().role == Role::User
        && before.last().content@.len() > 0 {
        &&& asked
        &&& is_prompt(after.last())
        &&& if before.last().content@[0] is ToolResponse {
            after.len() == before.len() + 1 && after.drop_last() == before
        } else {
            after.len() == before.len() && after.drop_last() == before.drop_last()
        }
    } else {
        !asked && after == before
    }
}

fn collect_request_ids(parts: &Vec<MessageContent>) -> (r: Vec<String>)
    ensures
        text::texts(r@) == request_ids(parts@),
{
    let mut out: Vec<String> = Vec::new();
    let mut i: usize = 0;
    assert(parts@.take(0) == Seq::<MessageContent>::empty());
    assert(text::texts(out@) =~= request_ids(parts@.take(0)));
    while i < parts.len()
        invariant
            i <= parts@.len(),
            text::texts(out@) == request_ids(parts@.take(i as int)),
        decreases parts@.len() - i,
    {
        let ghost before = text::texts(out@);
        assert(parts@.take(i as int + 1).drop_last() == parts@.take(i as int));
        assert(parts@.take(i as int + 1).last() == parts@[i as int]);
        if let MessageContent::ToolRequest(req) = &parts[i] {
            out.push(req.id.clone());
            assert(text::texts(out@) =~= before.push(req.id@));
        }
        i += 1;
    }
    assert(parts@.take(parts@.len() as int) == parts@);
    out
}

/// The last message of a conversation, as far as an interruption reads it: the
/// open tool calls, and whether it is a message of the user and what it begins
/// with.
enum Ending {
    Open(Vec<String>),
    Answer,
    UserMessage,
    Other,
}

fn ending(ms: &Vec<Message>) -> (r: Ending)
    ensures
        match r {
            Ending::Open(ids) => text::texts(ids@) == open_requests(ms@) && ids@.len() > 0,
            Ending::Answer => {
                &&& open_requests(ms@).len() == 0
                &&& ms@.len() > 0 && ms@.last().role == Role::User
                &&& ms@.last().content@.len() > 0 && ms@.last().content@[0] is ToolResponse
            },
            Ending::UserMessage => {
                &&& open_requests(ms@).len() == 0
                &&& ms@.len() > 0 && ms@.last().role == Role::User
                &&& ms@.last().content@.len() > 0 && !(ms@.last().content@[0] is ToolResponse)
            },
            Ending::Other => {
                &&& open_requests(ms@).len() == 0
                &&& !(ms@.len() > 0 && ms@.last().role == Role::User
                    && ms@.last().content@.len() > 0)
            },
        },
{
    if ms.len() == 0 {
        return Ending::Other;
    }
    let last = &ms[ms.len() - 1];
    if last.role == Role::Assistant {
        let ids = collect_request_ids(&last.content);
        assert(text::texts(ids@).len() == ids@.len());
        if ids.len() > 0 {
            Ending::Open(ids)
        } else {
            Ending::Other
        }
    } else if last.content.len() == 0 {
        Ending::Other
    } else if let MessageContent::ToolResponse(_) = &last.content[0] {
        Ending::Answer
    } else {
        Ending::UserMessage
    }
}

/// Interrupts a conversation, by the user or by an error, and tells whether the
/// assistant asks how to go on.
pub fn interrupt_conversation(ms: &mut Vec<Message>, interrupt: bool) -> (asked: bool)
    ensures
        interrupted(old(ms)@, interrupt, final(ms)@, asked),
{
    let prompt = "Yes — what would you like me to do?";
    match ending(ms) {
        Ending::Open(ids) => {
            let notice = if interrupt {
                "Interrupted by the user to make a correction"
            } else {
                "An uncaught error happened during tool use"
            };
            ms.push(Message::failing(&ids, ErrorCode::InternalError, notice));
            ms.push(Message::with_text(Role::Assistant, prompt));
            assert(ms@.take(old(ms)@.len() as int) == old(ms)@);
            true
        },
        Ending::Answer => {
            ms.push(Message::with_text(Role::Assistant, prompt));
            assert(ms@.drop_last() == old(ms)@);
            true
        },
        Ending::UserMessage => {
            let _ = ms.pop();
            ms.push(Message::with_text(Role::Assistant, prompt));
            assert(ms@.drop_last() == old(ms)@.drop_last());
            true
        },
        Ending::Other => false,
    }
}

/// After an interruption no tool call is left open.
pub proof fn law_no_request_stays_open(
    before: Seq<Message>,
    interrupt: bool,
    after: Seq<Message>,
    asked: bool,
)
    requires
        interrupted(before, interrupt, after, asked),
    ensures
        open_requests(after).len() == 0,
{
    if asked {
        let m = after.last();
        reveal_with_fuel(request_ids, 2);
        assert(m.content@.drop_last().len() == 0);
    }
}

/// Interrupting a second time changes nothing.
pub proof fn law_interrupting_twice(
    before: Seq<Message>,
    first: bool,
    once: Seq<Message>,
    asked: bool,
    second: bool,
    twice: Seq<Message>,
    asked_again: bool,
)
    requires
        interrupted(before, first, once, asked),
        interrupted(once, second, twice, asked_again),
    ensures
        twice == once,
        !asked_again,
{
    law_no_request_stays_open(before, first, once, asked);
}

/// Every open tool call is answered with an error.
pub proof fn law_open_requests_are_answered(
    before: Seq<Message>,
    interrupt: bool,
    after: Seq<Message>,
    asked: bool,
    i: int,
)
    requires
        interrupted(before, interrupt, after, asked),
        0 <= i < open_requests(before).len(),
    ensures
        after.len() == before.len() + 2,
        message::failed_part(
            after[before.len() as int].content@[i],
            open_requests(before)[i],
            ErrorCode::InternalError,
            interrupt_notice(interrupt),
        ),
{
}

} // verus!
