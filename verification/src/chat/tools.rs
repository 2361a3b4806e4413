//! The chat tools as they are offered.
use crate::chat::client::ChatClient;
use crate::text;
use vstd::prelude::*;

verus! {

/// What a tool tells of its effects.
#[derive(Debug, Clone, Copy, PartialEq, Eq, Structural)]
pub struct ToolHints {
    pub read_only: bool,
    pub destructive: bool,
    pub idempotent: bool,
    pub open_world: bool,
}

/// A tool: its name, its title, what it is for, and what it tells of its effects.
pub struct ChatTool {
    pub name: &'static str,
    pub title: &'static str,
    pub description: &'static str,
    pub hints: ToolHints,
}

/// What all chat tools tell of their effects: none only reads, destroys, can be
/// repeated without effect, or reaches beyond the process.
pub open spec fn chat_hints() -> ToolHints {
    ToolHints { read_only: false, destructive: false, idempotent: false, open_world: false }
}

/// The tools, in the order offered.
pub open spec fn chat_tools() -> Seq<ChatTool> {
    seq![
        ChatTool {
            name: "chat_send",
            title: "Send chat message",
            description: "Broadcast a message to all other subagents. Use this to declare what files you intend to modify or what actions you're taking, so others can avoid conflicts.",
            hints: chat_hints(),
        },
        ChatTool {
            name: "chat_read",
            title: "Read chat messages",
            description: "Read messages from other subagents. By default returns only new messages since your last read. Pass all=true to get the full transcript.",
            hints: chat_hints(),
        },
        ChatTool {
            name: "chat_claim",
            title: "Claim resource",
            description: "Atomically claim a resource (file, number, task). Returns success if you got it, or ERRORS if someone else already claimed it — you MUST pick a different resource. Use a simple canonical name (e.g. '3' not 'number 3', 'auth.py' not 'the auth module').",
            hints: chat_hints(),
        },
        ChatTool {
            name: "chat_release",
            title: "Release claim",
            description: "Release a previously claimed resource so other subagents can claim it.",
            hints: chat_hints(),
        },
        ChatTool {
            name: "chat_list",
            title: "List chat agents",
            description: "List all active subagents in the current session.",
            hints: chat_hints(),
        },
    ]
}

impl ChatClient {
    /// The tools, in the order offered.
    pub fn get_tools() -> (r: Vec<ChatTool>)
        ensures
            r@ == chat_tools(),
    {
        let hints = ToolHints {
            read_only: false,
            destructive: false,
            idempotent: false,
            open_world: false,
        };
        vec![
            ChatTool {
                name: "chat_send",
                title: "Send chat message",
                description: "Broadcast a message to all other subagents. Use this to declare what files you intend to modify or what actions you're taking, so others can avoid conflicts.",
                hints,
            },
            ChatTool {
                name: "chat_read",
                title: "Read chat messages",
                description: "Read messages from other subagents. By default returns only new messages since your last read. Pass all=true to get the full transcript.",
                hints,
            },
            ChatTool {
                name: "chat_claim",
                title: "Claim resource",
                description: "Atomically claim a resource (file, number, task). Returns success if you got it, or ERRORS if someone else already claimed it — you MUST pick a different resource. Use a simple canonical name (e.g. '3' not 'number 3', 'auth.py' not 'the auth module').",
                hints,
            },
            ChatTool {
                name: "chat_release",
                title: "Release claim",
                description: "Release a previously claimed resource so other subagents can claim it.",
                hints,
            },
            ChatTool {
                name: "chat_list",
                title: "List chat agents",
                description: "List all active subagents in the current session.",
                hints,
            },
        ]
    }
}

/// The name belongs to a chat tool.
pub open spec fn is_chat_tool(name: Seq<char>) -> bool {
    ||| name == "chat_send"@
    ||| name == "chat_read"@
    ||| name == "chat_claim"@
    ||| name == "chat_release"@
    ||| name == "chat_list"@
}

/// Tells whether a name belongs to a chat tool.
pub fn names_chat_tool(name: &str) -> (r: bool)
    ensures
        r == is_chat_tool(name@),
{
    text::same(name, "chat_send") || text::same(name, "chat_read") || text::same(
        name,
        "chat_claim",
    ) || text::same(name, "chat_release") || text::same(name, "chat_list")
}

/// The tools offered are those whose notifications are kept off the screen.
pub proof fn law_offered_tools_are_chat_tools(name: Seq<char>)
    ensures
        is_chat_tool(name) <==> exists|i: int|
            0 <= i < chat_tools().len() && (#[trigger] chat_tools()[i]).name@ == name,
{
    assert(chat_tools()[0].name@ == "chat_send"@);
    assert(chat_tools()[1].name@ == "chat_read"@);
    assert(chat_tools()[2].name@ == "chat_claim"@);
    assert(chat_tools()[3].name@ == "chat_release"@);
    assert(chat_tools()[4].name@ == "chat_list"@);
}

/// What a subagent is told about the tools.
pub open spec fn chat_instructions() -> Seq<char> {
    "You are a subagent running concurrently with other subagents.\nUse the chat tools to coordinate and avoid conflicts:\n- chat_claim: Atomically claim a resource (file, number, task) — prevents duplicates\n- chat_send: Broadcast a message to all other subagents\n- chat_read: Check for messages from other subagents\n- chat_list: See which other subagents are active\n\nIMPORTANT: Use chat_claim before modifying any file or taking any\nunique resource. If the claim is denied, pick a different resource.\nUse chat_send/chat_read for general coordination.\n"@
}

/// What a subagent is told about the tools.
pub fn instructions() -> (r: &'static str)
    ensures
        r@ == chat_instructions(),
{
    "You are a subagent running concurrently with other subagents.\nUse the chat tools to coordinate and avoid conflicts:\n- chat_claim: Atomically claim a resource (file, number, task) — prevents duplicates\n- chat_send: Broadcast a message to all other subagents\n- chat_read: Check for messages from other subagents\n- chat_list: See which other subagents are active\n\nIMPORTANT: Use chat_claim before modifying any file or taking any\nunique resource. If the claim is denied, pick a different resource.\nUse chat_send/chat_read for general coordination.\n"
}

/// The name of the extension.
pub fn extension_name() -> (r: &'static str)
    ensures
        r@ == "chat"@,
{
    "chat"
}

/// The name of the transcript's file in a session's working directory.
pub fn transcript_file() -> (r: &'static str)
    ensures
        r@ == "chat_transcript.md"@,
{
    "chat_transcript.md"
}

} // verus!
