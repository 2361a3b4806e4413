//! Tool calls in messages: what the user is asked, and what is counted.
use crate::session::message::{ActionRequired, Message, MessageContent};
use crate::text;
use vstd::prelude::*;

verus! {

// Questions to the user.

/// The first tool call in a list of parts that waits for the user's consent:
/// its identifier and the warning that goes with it.
pub open spec fn confirmation(parts: Seq<MessageContent>) -> Option<(String, Option<String>)>
    decreases parts.len(),
{
    if parts.len() == 0 {
        None
    } else {
        match parts[0] {
            MessageContent::ActionRequired(ActionRequired::ToolConfirmation { id, prompt }) => Some(
                (id, prompt),
            ),
            _ => confirmation(parts.drop_first()),
        }
    }
}

/// Finds the tool call that waits for the user's consent.
pub fn find_tool_confirmation(message: &Message) -> (r: Option<(String, Option<String>)>)
    ensures
        r == confirmation(message.content@),
{
    let parts = &message.content;
    let mut i: usize = 0;
    assert(parts@.skip(0) == parts@);
    while i < parts.len()
        invariant
            i <= parts@.len(),
            parts == &message.content,
            confirmation(message.content@) == confirmation(parts@.skip(i as int)),
        decreases parts@.len() - i,
    {
        assert(parts@.skip(i as int).drop_first() == parts@.skip(i as int + 1));
        if let MessageContent::ActionRequired(ActionRequired::ToolConfirmation { id, prompt }) =
            &parts[i] {
            return Some((id.clone(), text::copy_option(prompt)));
        }
        i += 1;
    }
    None
}

/// The first request for information in a list of parts: its identifier, its
/// message and the schema of the answer.
pub open spec fn elicitation(parts: Seq<MessageContent>) -> Option<(String, String, String)>
    decreases parts.len(),
{
    if parts.len() == 0 {
        None
    } else {
        match parts[0] {
            MessageContent::ActionRequired(
                ActionRequired::Elicitation { id, message, requested_schema },
            ) => Some((id, message, requested_schema)),
            _ => elicitation(parts.drop_first()),
        }
    }
}

/// Finds the request for information.
pub fn find_elicitation_request(message: &Message) -> (r: Option<(String, String, String)>)
    ensures
        r == elicitation(message.content@),
{
    let parts = &message.content;
    let mut i: usize = 0;
    assert(parts@.skip(0) == parts@);
    while i < parts.len()
        invariant
            i <= parts@.len(),
            parts == &message.content,
            elicitation(message.content@) == elicitation(parts@.skip(i as int)),
        decreases parts@.len() - i,
    {
        assert(parts@.skip(i as int).drop_first() == parts@.skip(i as int + 1));
        if let MessageContent::ActionRequired(
            ActionRequired::Elicitation { id, message: m, requested_schema },
        ) = &parts[i] {
            return Some((id.clone(), m.clone(), requested_schema.clone()));
        }
        i += 1;
    }
    None
}

// Counting.

/// What is counted: a tool call that starts, and one that is answered.
pub enum ToolMetric {
    Started { tool_name: String },
    Completed { tool_name: String, success: bool },
}

/// A count as contracts speak of it: the tool, and the outcome of an answer.
pub open spec fn metric_view(m: ToolMetric) -> (Seq<char>, Option<bool>) {
    match m {
        ToolMetric::Started { tool_name } => (tool_name@, None),
        ToolMetric::Completed { tool_name, success } => (tool_name@, Some(success)),
    }
}

/// The counts of a list.
pub open spec fn metric_views(v: Seq<ToolMetric>) -> Seq<(Seq<char>, Option<bool>)> {
    v.map_values(|m: ToolMetric| metric_view(m))
}

/// The tool of the first readable request with an identifier among the parts.
pub open spec fn requested_tool(parts: Seq<MessageContent>, id: Seq<char>) -> Option<Seq<char>>
    decreases parts.len(),
{
    if parts.len() == 0 {
        None
    } else {
        match parts[0] {
            MessageContent::ToolRequest(r) => if r.id@ == id && r.tool_call is Ok {
                Some(r.tool_call->Ok_0@)
            } else {
                requested_tool(parts.drop_first(), id)
            },
            _ => requested_tool(parts.drop_first(), id),
        }
    }
}

/// The tool of the latest message that requests a call with an identifier.
pub open spec fn latest_requested_tool(history: Seq<Message>, id: Seq<char>) -> Option<Seq<char>>
    decreases history.len(),
{
    if history.len() == 0 {
        None
    } else {
        match requested_tool(history.last().content@, id) {
            Some(name) => Some(name),
            None => latest_requested_tool(history.drop_last(), id),
        }
    }
}

/// What one part adds to the counts.
pub open spec fn part_metrics(part: MessageContent, history: Seq<Message>) -> Seq<
    (Seq<char>, Option<bool>),
> {
    match part {
        MessageContent::ToolRequest(r) => match r.tool_call {
            Ok(name) => seq![(name@, None)],
            Err(_) => seq![],
        },
        MessageContent::ToolResponse(r) => seq![
            (
                match latest_requested_tool(history, r.id@) {
                    Some(name) => name,
                    None => "unknown"@,
                },
                Some(r.tool_result is Ok),
            ),
        ],
        _ => seq![],
    }
}

/// The counts of a message that follows a history.
pub open spec fn message_metrics(parts: Seq<MessageContent>, history: Seq<Message>) -> Seq<
    (Seq<char>, Option<bool>),
>
    decreases parts.len(),
{
    if parts.len() == 0 {
        seq![]
    } else {
        message_metrics(parts.drop_last(), history) + part_metrics(parts.last(), history)
    }
}

fn find_requested_tool(parts: &Vec<MessageContent>, id: &str) -> (r: Option<String>)
    ensures
        match r {
            Some(name) => requested_tool(parts@, id@) == Some(name@),
            None => requested_tool(parts@, id@) is None,
        },
{
    let mut i: usize = 0;
    assert(parts@.skip(0) == parts@);
    while i < parts.len()
        invariant
            i <= parts@.len(),
            requested_tool(parts@, id@) == requested_tool(parts@.skip(i as int), id@),
        decreases parts@.len() - i,
    {
        assert(parts@.skip(i as int).drop_first() == parts@.skip(i as int + 1));
        if let MessageContent::ToolRequest(req) = &parts[i] {
            if text::same(req.id.as_str(), id) {
                if let Ok(name) = &req.tool_call {
                    return Some(name.clone());
                }
            }
        }
        i += 1;
    }
    None
}

fn find_latest_tool(history: &Vec<Message>, id: &str) -> (r: Option<String>)
    ensures
        match r {
            Some(name) => latest_requested_tool(history@, id@) == Some(name@),
            None => latest_requested_tool(history@, id@) is None,
        },
{
    let mut n: usize = history.len();
    assert(history@.take(n as int) == history@);
    while n > 0
        invariant
            n <= history@.len(),
            latest_requested_tool(history@, id@) == latest_requested_tool(
                history@.take(n as int),
                id@,
            ),
        decreases n,
    {
        assert(history@.take(n as int).drop_last() == history@.take(n as int - 1));
        if let Some(name) = find_requested_tool(&history[n - 1].content, id) {
            return Some(name);
        }
        n -= 1;
    }
    None
}

/// What is counted for a message that follows a history.
pub fn log_tool_metrics(message: &Message, messages: &Vec<Message>) -> (r: Vec<ToolMetric>)
    ensures
        metric_views(r@) == message_metrics(message.content@, messages@),
{
    let mut out: Vec<ToolMetric> = Vec::new();
    let parts = &message.content;
    let mut i: usize = 0;
    assert(parts@.take(0) == Seq::<MessageContent>::empty());
    assert(metric_views(out@) =~= message_metrics(parts@.take(0), messages@));
    while i < parts.len()
        invariant
            i <= parts@.len(),
            parts == &message.content,
            metric_views(out@) == message_metrics(parts@.take(i as int), messages@),
        decreases parts@.len() - i,
    {
        let ghost before = metric_views(out@);
        assert(parts@.take(i as int + 1).drop_last() == parts@.take(i as int));
        assert(parts@.take(i as int + 1).last() == parts@[i as int]);
        match &parts[i] {
            MessageContent::ToolRequest(req) => {
                if let Ok(name) = &req.tool_call {
                    out.push(ToolMetric::Started { tool_name: name.clone() });
                }
            },
            MessageContent::ToolResponse(resp) => {
                let tool_name = match find_latest_tool(messages, resp.id.as_str()) {
                    Some(name) => name,
                    None => "unknown".to_owned(),
                };
                out.push(ToolMetric::Completed { tool_name, success: resp.tool_result.is_ok() });
            },
            _ => {},
        }
        assert(metric_views(out@) =~= before + part_metrics(parts@[i as int], messages@));
        i += 1;
    }
    assert(parts@.take(parts@.len() as int) == parts@);
    out
}

} // verus!
