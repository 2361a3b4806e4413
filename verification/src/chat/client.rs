//! The chat tools as one subagent uses them.
use crate::chat::bus;
use crate::chat::bus::{BusView, ChatBus, ChatMessage, MessageView, TranscriptWrite};
use crate::json::JsonObject;
use crate::text;
use crate::time::Timestamp;
use std::collections::hash_map::DefaultHasher;
use std::hash::Hasher;
use vstd::prelude::*;

verus! {

// Identity.

/// What hashing a text feeds into a hasher.
pub uninterp spec fn hash_input(s: Seq<char>) -> Seq<Seq<u8>>;

/// `Hash::hash` of a `str` on a `DefaultHasher`: feeds the text into the hasher.
#[verifier::external_body]
fn feed_text(s: &str, state: &mut DefaultHasher)
    ensures
        final(state)@ == old(state)@ + hash_input(s@),
{
    std::hash::Hash::hash(s, state)
}

/// The name that belongs to a hash: its last six hexadecimal digits.
pub open spec fn name_of_hash(hash: u64) -> Seq<char> {
    "agent-"@ + text::hex_digits(hash as nat, 6)
}

/// The name of the agent that runs a session.
pub open spec fn agent_name_of(session_id: Seq<char>) -> Seq<char> {
    name_of_hash(
        <DefaultHasher as vstd::std_specs::hash::DefaultHasherAdditionalSpecFns>::spec_finish(
            hash_input(session_id),
        ),
    )
}

/// The name that belongs to a hash.
pub fn name_for_hash(hash: u64) -> (r: String)
    ensures
        r@ == name_of_hash(hash),
{
    let mut s = "agent-".to_owned();
    s.append(text::hex_text(hash, 6).as_str());
    s
}

/// The name of the agent that runs a session: a short, stable digest of the
/// session's identifier.
pub fn agent_name(session_id: &str) -> (r: String)
    ensures
        r@ == agent_name_of(session_id@),
{
    let mut hasher = DefaultHasher::new();
    feed_text(session_id, &mut hasher);
    assert(hasher@ == hash_input(session_id@));
    name_for_hash(hasher.finish())
}

// The client.

/// The session a client belongs to: its name, and where the transcript of its
/// working directory stands.
pub struct SessionContext {
    pub name: String,
    pub transcript_path: String,
}

/// One subagent's access to the bus.
pub struct ChatClient {
    pub context: Option<SessionContext>,
    pub last_read_id: u64,
}

/// What a tool call does: the bus afterwards, the number of the last message
/// read, the reply, and the writes to the transcript.
#[verifier::ext_equal]
pub struct Outcome {
    pub bus: BusView,
    pub last_read_id: u64,
    pub reply: Result<Seq<char>, Seq<char>>,
    pub writes: Seq<(bool, Seq<char>)>,
}

/// The texts of a reply.
pub open spec fn reply_view(r: Result<String, String>) -> Result<Seq<char>, Seq<char>> {
    match r {
        Ok(t) => Ok(t@),
        Err(t) => Err(t@),
    }
}

/// The bus once the caller is registered and the transcript has its path.
pub open spec fn entered(b: BusView, client: ChatClient, session_id: Seq<char>) -> BusView {
    let name = agent_name_of(session_id);
    match client.context {
        Some(c) => bus::after_path(bus::after_register(b, name, c.name@), c.transcript_path@),
        None => bus::after_register(b, name, ""@),
    }
}

/// A required text argument.
pub open spec fn required_text(
    arguments: Option<JsonObject>,
    key: Seq<char>,
    missing: Seq<char>,
) -> Result<Seq<char>, Seq<char>> {
    match arguments {
        None => Err("Missing arguments"@),
        Some(a) => match a.string(key) {
            None => Err(missing),
            Some(t) => Ok(t),
        },
    }
}

/// A call that only entered the bus and replied.
pub open spec fn quiet(
    b: BusView,
    client: ChatClient,
    reply: Result<Seq<char>, Seq<char>>,
) -> Outcome {
    Outcome { bus: b, last_read_id: client.last_read_id, reply, writes: seq![] }
}

/// A call that sent a message to all and replied.
pub open spec fn broadcasting(
    b: BusView,
    client: ChatClient,
    m: MessageView,
    reply: Seq<char>,
) -> Outcome {
    Outcome {
        bus: bus::after_send(b, m),
        last_read_id: client.last_read_id,
        reply: Ok(reply),
        writes: bus::transcript_writes(b, m),
    }
}

/// `chat_send`: broadcasts a message.
pub open spec fn send_outcome(
    b: BusView,
    client: ChatClient,
    session_id: Seq<char>,
    arguments: Option<JsonObject>,
    now: Timestamp,
) -> Outcome {
    let e = entered(b, client, session_id);
    match required_text(arguments, "message"@, "Missing required parameter: message"@) {
        Err(why) => quiet(e, client, Err(why)),
        Ok(t) => if t.len() == 0 {
            quiet(e, client, Err("Message cannot be empty"@))
        } else {
            let m = bus::next_message(e, agent_name_of(session_id), "all"@, t, now);
            broadcasting(
                e,
                client,
                m,
                "Message sent (id: "@ + text::decimal(m.id as nat) + ")"@,
            )
        },
    }
}

/// The heading of what is read.
pub open spec fn identity_line(name: Seq<char>) -> Seq<char> {
    "(your identity: "@ + name + ")"@
}

/// A message as it is read.
pub open spec fn read_line(m: MessageView) -> Seq<char> {
    "["@ + m.from + "] "@ + m.content
}

/// The messages as they are read.
pub open spec fn read_lines(ms: Seq<MessageView>) -> Seq<Seq<char>> {
    ms.map_values(|m: MessageView| read_line(m))
}

/// `chat_read`: the messages since the last read, or all of them.
pub open spec fn read_outcome(
    b: BusView,
    client: ChatClient,
    session_id: Seq<char>,
    arguments: Option<JsonObject>,
) -> Outcome {
    let e = entered(b, client, session_id);
    let name = agent_name_of(session_id);
    let all = match arguments {
        Some(a) => a.boolean("all"@) == Some(true),
        None => false,
    };
    let since = if all {
        0
    } else {
        client.last_read_id
    };
    let ms = bus::readable(e.messages, name, since);
    if ms.len() == 0 {
        quiet(e, client, Ok(identity_line(name) + "\n"@ + "No new messages."@))
    } else {
        Outcome {
            bus: e,
            last_read_id: ms.last().id,
            reply: Ok(identity_line(name) + "\n"@ + text::joined(read_lines(ms), "\n"@)),
            writes: seq![],
        }
    }
}

/// `chat_claim`: claims a resource and tells the others.
pub open spec fn claim_outcome(
    b: BusView,
    client: ChatClient,
    session_id: Seq<char>,
    arguments: Option<JsonObject>,
    now: Timestamp,
) -> Outcome {
    let e = entered(b, client, session_id);
    let name = agent_name_of(session_id);
    match required_text(arguments, "resource"@, "Missing required parameter: resource"@) {
        Err(why) => quiet(e, client, Err(why)),
        Ok(resource) => if e.claims.dom().contains(resource) {
            quiet(
                e,
                client,
                Err(
                    "DENIED: '"@ + resource + "' is already claimed by '"@ + e.claims[resource]
                        + "'. You must pick a different resource."@,
                ),
            )
        } else {
            let c = bus::after_claim(e, resource, name);
            let m = bus::next_message(c, name, "all"@, "CLAIMED: "@ + resource, now);
            broadcasting(c, client, m, "Successfully claimed '"@ + resource + "'"@)
        },
    }
}

/// `chat_release`: releases a resource and tells the others. A refusal is told
/// in an ordinary reply.
pub open spec fn release_outcome(
    b: BusView,
    client: ChatClient,
    session_id: Seq<char>,
    arguments: Option<JsonObject>,
    now: Timestamp,
) -> Outcome {
    let e = entered(b, client, session_id);
    let name = agent_name_of(session_id);
    match required_text(arguments, "resource"@, "Missing required parameter: resource"@) {
        Err(why) => quiet(e, client, Err(why)),
        Ok(resource) => if bus::owns(e, name, resource) {
            let c = bus::after_release(e, resource, name);
            let m = bus::next_message(c, name, "all"@, "RELEASED: "@ + resource, now);
            broadcasting(c, client, m, "Released '"@ + resource + "'"@)
        } else {
            quiet(e, client, Ok("Error: "@ + bus::release_refusal(e, resource)))
        },
    }
}

/// An agent in the list.
pub open spec fn agent_line(b: BusView, me: Seq<char>, name: Seq<char>) -> Seq<char> {
    "- "@ + name + (if name == me {
        " (you)"@
    } else {
        ""@
    }) + ": "@ + b.agents[name]
}

/// The text lists every registered agent once, each on a line of its own.
pub open spec fn lists_agents(shown: Seq<char>, b: BusView, me: Seq<char>) -> bool {
    exists|names: Seq<Seq<char>>|
        #![trigger names.no_duplicates()]
        names.no_duplicates() && names.to_set() == b.agents.dom() && shown == text::joined(
            names.map_values(|n: Seq<char>| agent_line(b, me, n)),
            "\n"@,
        )
}

/// A result of a handler: the reply and the writes to the transcript.
pub type Handled = (Result<String, String>, Vec<TranscriptWrite>);

/// The handler did what the outcome says.
pub open spec fn handled_as(
    o: Outcome,
    after: ChatBus,
    client: ChatClient,
    r: (Result<String, String>, Vec<TranscriptWrite>),
) -> bool {
    &&& after.wf()
    &&& after@ == o.bus
    &&& client.last_read_id == o.last_read_id
    &&& reply_view(r.0) == o.reply
    &&& bus::write_views(r.1@) == o.writes
}

fn text_argument(arguments: Option<&JsonObject>, key: &str, missing: &str) -> (r: Result<
    String,
    String,
>)
    ensures
        reply_view(r) == required_text(
            match arguments {
                Some(a) => Some(*a),
                None => None,
            },
            key@,
            missing@,
        ),
{
    match arguments {
        None => Err("Missing arguments".to_owned()),
        Some(a) => match a.get_str(key) {
            None => Err(missing.to_owned()),
            Some(t) => Ok(t.to_owned()),
        },
    }
}

/// The object behind an optional reference.
pub open spec fn given(arguments: Option<&JsonObject>) -> Option<JsonObject> {
    match arguments {
        Some(a) => Some(*a),
        None => None,
    }
}

fn no_writes() -> (r: Vec<TranscriptWrite>)
    ensures
        bus::write_views(r@) == Seq::<(bool, Seq<char>)>::empty(),
{
    let v: Vec<TranscriptWrite> = Vec::new();
    assert(bus::write_views(v@) =~= Seq::<(bool, Seq<char>)>::empty());
    v
}

impl ChatClient {
    /// A client that has read nothing yet.
    pub fn new(context: Option<SessionContext>) -> (r: ChatClient)
        ensures
            r.context == context,
            r.last_read_id == 0,
    {
        ChatClient { context, last_read_id: 0 }
    }

    /// Registers the caller and sets the transcript's path.
    fn ensure_registered(&self, b: &mut ChatBus, session_id: &str)
        requires
            old(b).wf(),
        ensures
            final(b).wf(),
            final(b)@ == entered(old(b)@, *self, session_id@),
    {
        let name = agent_name(session_id);
        match &self.context {
            Some(c) => {
                b.register_agent(name, c.name.clone());
                b.set_transcript_path(c.transcript_path.clone());
            },
            None => {
                b.register_agent(name, "".to_owned());
            },
        }
    }

    /// `chat_send`.
    pub fn handle_send(
        &self,
        b: &mut ChatBus,
        session_id: &str,
        arguments: Option<&JsonObject>,
        now: Timestamp,
    ) -> (r: Handled)
        requires
            old(b).wf(),
        ensures
            handled_as(
                send_outcome(old(b)@, *self, session_id@, given(arguments), now),
                *final(b),
                *self,
                r,
            ),
    {
        self.ensure_registered(b, session_id);
        let message = match text_argument(
            arguments,
            "message",
            "Missing required parameter: message",
        ) {
            Ok(t) => t,
            Err(why) => {
                return (Err(why), no_writes());
            },
        };
        if message.as_str().is_empty() {
            return (Err("Message cannot be empty".to_owned()), no_writes());
        }
        let from = agent_name(session_id);
        let (msg, writes) = b.send_message(from, "all".to_owned(), message, now);
        let mut reply = "Message sent (id: ".to_owned();
        reply.append(text::decimal_text(msg.id).as_str());
        reply.append(")");
        (Ok(reply), writes)
    }

    /// `chat_read`.
    pub fn handle_read(
        &mut self,
        b: &mut ChatBus,
        session_id: &str,
        arguments: Option<&JsonObject>,
    ) -> (r: Handled)
        requires
            old(b).wf(),
        ensures
            handled_as(
                read_outcome(old(b)@, *old(self), session_id@, given(arguments)),
                *final(b),
                *final(self),
                r,
            ),
            final(self).context == old(self).context,
    {
        self.ensure_registered(b, session_id);
        let all: bool = match arguments {
            Some(a) => match a.get_bool("all") {
                Some(v) => v,
                None => false,
            },
            None => false,
        };
        let name = agent_name(session_id);
        let since: u64 = if all {
            0
        } else {
            self.last_read_id
        };
        let messages = b.read_messages(name.as_str(), since);
        let mut shown = "(your identity: ".to_owned();
        shown.append(name.as_str());
        shown.append(")");
        shown.append("\n");
        let ghost ms = bus::message_views(messages@);
        if messages.len() == 0 {
            shown.append("No new messages.");
            return (Ok(shown), no_writes());
        }
        let last = &messages[messages.len() - 1];
        assert(ms.last() == last@);
        self.last_read_id = last.id;
        let lines = lines_of(&messages);
        shown.append(text::join_texts(&lines, "\n").as_str());
        (Ok(shown), no_writes())
    }

    /// `chat_claim`.
    pub fn handle_claim(
        &self,
        b: &mut ChatBus,
        session_id: &str,
        arguments: Option<&JsonObject>,
        now: Timestamp,
    ) -> (r: Handled)
        requires
            old(b).wf(),
        ensures
            handled_as(
                claim_outcome(old(b)@, *self, session_id@, given(arguments), now),
                *final(b),
                *self,
                r,
            ),
    {
        self.ensure_registered(b, session_id);
        let resource = match text_argument(
            arguments,
            "resource",
            "Missing required parameter: resource",
        ) {
            Ok(t) => t,
            Err(why) => {
                return (Err(why), no_writes());
            },
        };
        let agent = agent_name(session_id);
        match b.claim(resource.clone(), agent.clone()) {
            Ok(()) => {
                let mut content = "CLAIMED: ".to_owned();
                content.append(resource.as_str());
                let (_, writes) = b.send_message(agent, "all".to_owned(), content, now);
                let mut reply = "Successfully claimed '".to_owned();
                reply.append(resource.as_str());
                reply.append("'");
                (Ok(reply), writes)
            },
            Err(owner) => {
                let mut why = "DENIED: '".to_owned();
                why.append(resource.as_str());
                why.append("' is already claimed by '");
                why.append(owner.as_str());
                why.append("'. You must pick a different resource.");
                (Err(why), no_writes())
            },
        }
    }

    /// `chat_release`.
    pub fn handle_release(
        &self,
        b: &mut ChatBus,
        session_id: &str,
        arguments: Option<&JsonObject>,
        now: Timestamp,
    ) -> (r: Handled)
        requires
            old(b).wf(),
        ensures
            handled_as(
                release_outcome(old(b)@, *self, session_id@, given(arguments), now),
                *final(b),
                *self,
                r,
            ),
    {
        self.ensure_registered(b, session_id);
        let resource = match text_argument(
            arguments,
            "resource",
            "Missing required parameter: resource",
        ) {
            Ok(t) => t,
            Err(why) => {
                return (Err(why), no_writes());
            },
        };
        let agent = agent_name(session_id);
        match b.release(resource.as_str(), agent.as_str()) {
            Ok(()) => {
                let mut content = "RELEASED: ".to_owned();
                content.append(resource.as_str());
                let (_, writes) = b.send_message(agent, "all".to_owned(), content, now);
                let mut reply = "Released '".to_owned();
                reply.append(resource.as_str());
                reply.append("'");
                (Ok(reply), writes)
            },
            Err(why) => {
                let mut reply = "Error: ".to_owned();
                reply.append(why.as_str());
                (Ok(reply), no_writes())
            },
        }
    }

    /// `chat_list`.
    pub fn handle_list(&self, b: &mut ChatBus, session_id: &str) -> (r: String)
        requires
            old(b).wf(),
        ensures
            final(b).wf(),
            final(b)@ == entered(old(b)@, *self, session_id@),
            lists_agents(r@, final(b)@, agent_name_of(session_id@)),
    {
        self.ensure_registered(b, session_id);
        let agents = b.list_agents();
        let me = agent_name(session_id);
        let ghost names = Seq::new(agents@.len(), |i: int| agents@[i].0@);
        let ghost wanted = names.map_values(|n: Seq<char>| agent_line(b@, me@, n));
        let mut lines: Vec<String> = Vec::new();
        let mut i: usize = 0;
        while i < agents.len()
            invariant
                i <= agents@.len(),
                lines@.len() == i,
                names == Seq::new(agents@.len(), |i: int| agents@[i].0@),
                wanted == names.map_values(|n: Seq<char>| agent_line(b@, me@, n)),
                forall|k: int|
                    0 <= k < agents@.len() ==> b@.agents[(#[trigger] agents@[k]).0@]
                        == agents@[k].1@,
                forall|k: int| 0 <= k < i ==> (#[trigger] lines@[k])@ == wanted[k],
            decreases agents@.len() - i,
        {
            let (name, description) = &agents[i];
            let mut line = "- ".to_owned();
            line.append(name.as_str());
            if text::same(name.as_str(), me.as_str()) {
                line.append(" (you)");
            } else {
                line.append("");
            }
            line.append(": ");
            line.append(description.as_str());
            assert(b@.agents[agents@[i as int].0@] == agents@[i as int].1@);
            assert(line@ == agent_line(b@, me@, name@));
            lines.push(line);
            i += 1;
        }
        assert(text::texts(lines@) =~= wanted);
        proof {
            assert(names.no_duplicates());
            assert(names.to_set() =~= b@.agents.dom()) by {
                assert forall|n: Seq<char>| names.to_set().contains(n) == b@.agents.dom().contains(
                    n,
                ) by {
                    if b@.agents.dom().contains(n) {
                        let k = choose|k: int| 0 <= k < agents@.len() && (#[trigger] agents@[k]).0@ == n;
                        assert(names[k] == n);
                    }
                    if names.contains(n) {
                        let k = choose|k: int| 0 <= k < names.len() && names[k] == n;
                        assert(agents@[k].0@ == n);
                    }
                }
            }
        }
        text::join_texts(&lines, "\n")
    }
}

fn lines_of(messages: &Vec<ChatMessage>) -> (r: Vec<String>)
    ensures
        text::texts(r@) == read_lines(bus::message_views(messages@)),
{
    let mut lines: Vec<String> = Vec::new();
    let mut i: usize = 0;
    while i < messages.len()
        invariant
            i <= messages@.len(),
            lines@.len() == i,
            forall|k: int| 0 <= k < i ==> (#[trigger] lines@[k])@ == read_line(messages@[k]@),
        decreases messages@.len() - i,
    {
        let mut line = "[".to_owned();
        line.append(messages[i].from.as_str());
        line.append("] ");
        line.append(messages[i].content.as_str());
        lines.push(line);
        i += 1;
    }
    assert(text::texts(lines@) =~= read_lines(bus::message_views(messages@)));
    lines
}

/// The answer to a tool call.
pub struct CallResult {
    pub is_error: bool,
    pub text: String,
    pub writes: Vec<TranscriptWrite>,
}

/// The answer that a reply leads to: an error is marked and announced as such.
pub open spec fn answers(r: CallResult, reply: Result<Seq<char>, Seq<char>>) -> bool {
    match reply {
        Ok(t) => !r.is_error && r.text@ == t,
        Err(why) => r.is_error && r.text@ == "Error: "@ + why,
    }
}

/// The outcome of a call of one of the tools other than `chat_list`.
pub open spec fn call_outcome(
    b: BusView,
    client: ChatClient,
    session_id: Seq<char>,
    name: Seq<char>,
    arguments: Option<JsonObject>,
    now: Timestamp,
) -> Outcome {
    if name == "chat_send"@ {
        send_outcome(b, client, session_id, arguments, now)
    } else if name == "chat_read"@ {
        read_outcome(b, client, session_id, arguments)
    } else if name == "chat_claim"@ {
        claim_outcome(b, client, session_id, arguments, now)
    } else if name == "chat_release"@ {
        release_outcome(b, client, session_id, arguments, now)
    } else {
        quiet(b, client, Err("Unknown tool: "@ + name))
    }
}

impl ChatClient {
    /// Calls a tool by its name.
    pub fn call_tool(
        &mut self,
        b: &mut ChatBus,
        session_id: &str,
        name: &str,
        arguments: Option<&JsonObject>,
        now: Timestamp,
    ) -> (r: CallResult)
        requires
            old(b).wf(),
        ensures
            final(b).wf(),
            final(self).context == old(self).context,
            name@ == "chat_list"@ ==> {
                &&& final(b)@ == entered(old(b)@, *old(self), session_id@)
                &&& final(self).last_read_id == old(self).last_read_id
                &&& !r.is_error
                &&& lists_agents(r.text@, final(b)@, agent_name_of(session_id@))
                &&& r.writes@.len() == 0
            },
            name@ != "chat_list"@ ==> ({
                let o = call_outcome(
                    old(b)@,
                    *old(self),
                    session_id@,
                    name@,
                    given(arguments),
                    now,
                );
                &&& final(b)@ == o.bus
                &&& final(self).last_read_id == o.last_read_id
                &&& answers(r, o.reply)
                &&& bus::write_views(r.writes@) == o.writes
            }),
    {
        proof {
            reveal_strlit("chat_send");
            reveal_strlit("chat_read");
            reveal_strlit("chat_claim");
            reveal_strlit("chat_release");
            reveal_strlit("chat_list");
        }
        let (reply, writes) = if text::same(name, "chat_send") {
            self.handle_send(b, session_id, arguments, now)
        } else if text::same(name, "chat_read") {
            self.handle_read(b, session_id, arguments)
        } else if text::same(name, "chat_claim") {
            self.handle_claim(b, session_id, arguments, now)
        } else if text::same(name, "chat_release") {
            self.handle_release(b, session_id, arguments, now)
        } else if text::same(name, "chat_list") {
            (Ok(self.handle_list(b, session_id)), Vec::new())
        } else {
            let mut why = "Unknown tool: ".to_owned();
            why.append(name);
            (Err(why), no_writes())
        };
        assert(name@ == "chat_list"@ ==> name@[5] == 'l');
        assert("chat_send"@[5] == 's' && "chat_read"@[7] == 'a' && "chat_claim"@.len() == 10
            && "chat_release"@.len() == 12 && "chat_list"@[7] == 's');
        match reply {
            Ok(text) => CallResult { is_error: false, text, writes },
            Err(why) => {
                let mut text = "Error: ".to_owned();
                text.append(why.as_str());
                CallResult { is_error: true, text, writes }
            },
        }
    }
}

} // verus!
