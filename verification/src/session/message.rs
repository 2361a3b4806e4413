//! Messages and conversations as the session reads and writes them.
use vstd::prelude::*;

verus! {

/// Who a message comes from.
#[derive(Debug, Clone, Copy, PartialEq, Eq, Structural)]
pub enum Role {
    User,
    Assistant,
}

/// What kind of error a tool call ended with.
#[derive(Debug, Clone, Copy, PartialEq, Eq, Structural)]
pub enum ErrorCode {
    InvalidRequest,
    InternalError,
    Other(i32),
}

/// An error of a tool call.
pub struct ErrorData {
    pub code: ErrorCode,
    pub message: String,
}

/// A tool call the assistant asks for: its identifier, and the tool's name or
/// why the call cannot be read.
pub struct ToolRequest {
    pub id: String,
    pub tool_call: Result<String, ErrorData>,
}

/// The answer to a tool call: what the tool returned, as JSON text, or an error.
pub struct ToolResponse {
    pub id: String,
    pub tool_result: Result<String, ErrorData>,
}

/// Something the user is asked to decide or to tell. A schema and the user's
/// data are kept as JSON text.
pub enum ActionRequired {
    ToolConfirmation { id: String, prompt: Option<String> },
    Elicitation { id: String, message: String, requested_schema: String },
    ElicitationResponse { id: String, user_data: String },
}

/// A part of a message. Parts that the session only passes on are kept as JSON
/// text.
pub enum MessageContent {
    Text(String),
    ToolRequest(ToolRequest),
    ToolResponse(ToolResponse),
    ActionRequired(ActionRequired),
    Other(String),
}

/// A message: its parts, the text of its text parts taken together, and who
/// gets to see it.
pub struct Message {
    pub role: Role,
    pub content: Vec<MessageContent>,
    pub text: String,
    pub user_visible: bool,
    pub agent_visible: bool,
}

/// A part that is a text.
pub open spec fn text_part(c: MessageContent, t: Seq<char>) -> bool {
    c matches MessageContent::Text(s) && s@ == t
}

/// A part that answers a tool call with an error.
pub open spec fn failed_part(
    c: MessageContent,
    id: Seq<char>,
    code: ErrorCode,
    why: Seq<char>,
) -> bool {
    &&& c matches MessageContent::ToolResponse(r)
    &&& r.id@ == id
    &&& r.tool_result matches Err(e)
    &&& e.code == code
    &&& e.message@ == why
}

/// A message from `role` that is the text `t` and seen by everyone.
pub open spec fn text_message(m: Message, role: Role, t: Seq<char>) -> bool {
    &&& m.role == role
    &&& m.content@.len() == 1
    &&& text_part(m.content@[0], t)
    &&& m.text@ == t
    &&& m.user_visible
    &&& m.agent_visible
}

/// A message of the user that answers the tool calls `ids` with one error.
pub open spec fn failure_message(
    m: Message,
    ids: Seq<Seq<char>>,
    code: ErrorCode,
    why: Seq<char>,
) -> bool {
    &&& m.role == Role::User
    &&& m.content@.len() == ids.len()
    &&& forall|i: int|
        0 <= i < ids.len() ==> failed_part(#[trigger] m.content@[i], ids[i], code, why)
    &&& m.text@.len() == 0
    &&& m.user_visible
    &&& m.agent_visible
}

impl Message {
    /// A message that consists of a text.
    pub fn with_text(role: Role, text: &str) -> (r: Message)
        ensures
            text_message(r, role, text@),
    {
        Message {
            role,
            content: vec![MessageContent::Text(text.to_owned())],
            text: text.to_owned(),
            user_visible: true,
            agent_visible: true,
        }
    }

    /// A message of the user that answers tool calls with one error.
    pub fn failing(ids: &Vec<String>, code: ErrorCode, why: &str) -> (r: Message)
        ensures
            failure_message(r, crate::text::texts(ids@), code, why@),
    {
        let mut content: Vec<MessageContent> = Vec::new();
        let mut i: usize = 0;
        while i < ids.len()
            invariant
                i <= ids@.len(),
                content@.len() == i,
                forall|k: int|
                    0 <= k < i ==> failed_part(#[trigger] content@[k], ids@[k]@, code, why@),
            decreases ids@.len() - i,
        {
            content.push(
                MessageContent::ToolResponse(
                    ToolResponse {
                        id: ids[i].clone(),
                        tool_result: Err(ErrorData { code, message: why.to_owned() }),
                    },
                ),
            );
            i += 1;
        }
        Message {
            role: Role::User,
            content,
            text: String::new(),
            user_visible: true,
            agent_visible: true,
        }
    }
}

/// Two messages are the same.
pub open spec fn same_message(a: Message, b: Message) -> bool {
    &&& a.role == b.role
    &&& a.content@ == b.content@
    &&& a.text == b.text
    &&& a.user_visible == b.user_visible
    &&& a.agent_visible == b.agent_visible
}

/// Two conversations are the same.
pub open spec fn same_messages(a: Seq<Message>, b: Seq<Message>) -> bool {
    &&& a.len() == b.len()
    &&& forall|i: int| 0 <= i < a.len() ==> same_message(#[trigger] a[i], b[i])
}

fn copy_error(e: &ErrorData) -> (r: ErrorData)
    ensures
        r == *e,
{
    ErrorData { code: e.code, message: e.message.clone() }
}

fn copy_outcome(o: &Result<String, ErrorData>) -> (r: Result<String, ErrorData>)
    ensures
        r == *o,
{
    match o {
        Ok(t) => Ok(t.clone()),
        Err(e) => Err(copy_error(e)),
    }
}

fn copy_action(a: &ActionRequired) -> (r: ActionRequired)
    ensures
        r == *a,
{
    match a {
        ActionRequired::ToolConfirmation { id, prompt } => ActionRequired::ToolConfirmation {
            id: id.clone(),
            prompt: crate::text::copy_option(prompt),
        },
        ActionRequired::Elicitation { id, message, requested_schema } => {
            ActionRequired::Elicitation {
                id: id.clone(),
                message: message.clone(),
                requested_schema: requested_schema.clone(),
            }
        },
        ActionRequired::ElicitationResponse { id, user_data } => {
            ActionRequired::ElicitationResponse { id: id.clone(), user_data: user_data.clone() }
        },
    }
}

fn copy_part(c: &MessageContent) -> (r: MessageContent)
    ensures
        r == *c,
{
    match c {
        MessageContent::Text(t) => MessageContent::Text(t.clone()),
        MessageContent::ToolRequest(q) => MessageContent::ToolRequest(
            ToolRequest { id: q.id.clone(), tool_call: copy_outcome(&q.tool_call) },
        ),
        MessageContent::ToolResponse(q) => MessageContent::ToolResponse(
            ToolResponse { id: q.id.clone(), tool_result: copy_outcome(&q.tool_result) },
        ),
        MessageContent::ActionRequired(a) => MessageContent::ActionRequired(copy_action(a)),
        MessageContent::Other(t) => MessageContent::Other(t.clone()),
    }
}

impl Message {
    /// A copy of a message.
    pub fn copy(&self) -> (r: Message)
        ensures
            same_message(r, *self),
    {
        let mut content: Vec<MessageContent> = Vec::new();
        let mut i: usize = 0;
        while i < self.content.len()
            invariant
                i <= self.content@.len(),
                content@ == self.content@.take(i as int),
            decreases self.content@.len() - i,
        {
            content.push(copy_part(&self.content[i]));
            i += 1;
            assert(content@ =~= self.content@.take(i as int));
        }
        assert(content@ =~= self.content@);
        Message {
            role: self.role,
            content,
            text: self.text.clone(),
            user_visible: self.user_visible,
            agent_visible: self.agent_visible,
        }
    }
}

/// A copy of a conversation.
pub fn copy_messages(ms: &Vec<Message>) -> (r: Vec<Message>)
    ensures
        same_messages(r@, ms@),
{
    let mut out: Vec<Message> = Vec::new();
    let mut i: usize = 0;
    while i < ms.len()
        invariant
            i <= ms@.len(),
            out@.len() == i,
            forall|k: int| 0 <= k < i ==> same_message(#[trigger] out@[k], ms@[k]),
        decreases ms@.len() - i,
    {
        out.push(ms[i].copy());
        i += 1;
    }
    out
}

/// The name of a role.
pub open spec fn role_name(r: Role) -> Seq<char> {
    match r {
        Role::User => "User"@,
        Role::Assistant => "Assistant"@,
    }
}

/// The name of a role.
pub fn name_of_role(r: Role) -> (s: &'static str)
    ensures
        s@ == role_name(r),
{
    match r {
        Role::User => "User",
        Role::Assistant => "Assistant",
    }
}

} // verus!
