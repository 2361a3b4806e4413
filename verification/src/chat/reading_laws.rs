//! What the chat tools tell a subagent, and what they leave on the bus.
use crate::chat::bus;
use crate::chat::bus::{BusView, ChatBus, ChatMessage, MessageView, TranscriptWrite};
use crate::chat::client;
use crate::chat::client::{CallResult, ChatClient};
use crate::chat::laws;
use crate::chat::tools;
use crate::json::JsonObject;
use crate::text;
use crate::text_laws;
use crate::time;
use crate::time::Timestamp;
use vstd::prelude::*;

verus! {

// Views.

/// A message keeps its number, its two parties, its content and its time.
pub proof fn law_messages_are_seen_as_they_are(ms: Seq<ChatMessage>, i: int)
    requires
        0 <= i < ms.len(),
    ensures
        bus::message_views(ms).len() == ms.len(),
        bus::message_views(ms)[i].id == ms[i].id,
        bus::message_views(ms)[i].from == ms[i].from@,
        bus::message_views(ms)[i].to == ms[i].to@,
        bus::message_views(ms)[i].content == ms[i].content@,
        bus::message_views(ms)[i].timestamp == ms[i].timestamp,
{
}

/// The bus is seen as it is: its messages, each agent with its description, each claimed
/// resource with its owner.
pub proof fn law_bus_is_seen_as_it_is(b: ChatBus, key: Seq<char>)
    ensures
        b@.messages == bus::message_views(b.messages@),
        b@.agents.dom().contains(key) <==> b.agents@.dom().contains(key),
        b.agents@.dom().contains(key) ==> b@.agents[key] == b.agents@[key]@,
        b@.claims.dom().contains(key) <==> b.claims@.dom().contains(key),
        b.claims@.dom().contains(key) ==> b@.claims[key] == b.claims@[key]@,
        b@.transcript_path == text::option_text(b.transcript_path),
        b@.transcript_started == b.transcript_started,
{
}

/// A write is seen as it is: whether the file starts anew, and the text.
pub proof fn law_writes_are_seen_as_they_are(v: Seq<TranscriptWrite>, i: int)
    requires
        0 <= i < v.len(),
    ensures
        bus::write_views(v).len() == v.len(),
        match v[i] {
            TranscriptWrite::Create(t) => bus::write_views(v)[i] == (true, t@),
            TranscriptWrite::Append(t) => bus::write_views(v)[i] == (false, t@),
        },
{
}

// What can be read.

/// The agent has the message still to read.
pub open spec fn is_unread(m: MessageView, agent: Seq<char>, since: u64) -> bool {
    m.id > since && (m.to == agent || m.to == "all"@)
}

/// An agent reads the messages that are new to it and meant for it: all of them, no
/// others, and in the order sent.
pub proof fn law_readable_messages(ms: Seq<MessageView>, agent: Seq<char>, since: u64)
    requires
        laws::numbered(ms),
    ensures
        ({
            let r = bus::readable(ms, agent, since);
            &&& forall|i: int|
                0 <= i < ms.len() && is_unread(#[trigger] ms[i], agent, since) ==> r.contains(ms[i])
            &&& forall|k: int|
                0 <= k < r.len() ==> is_unread(#[trigger] r[k], agent, since) && ms.contains(r[k])
            &&& forall|j: int, k: int|
                0 <= j < k < r.len() ==> (#[trigger] r[j]).id < (#[trigger] r[k]).id
        }),
    decreases ms.len(),
{
    reveal(Seq::filter);
    let r = bus::readable(ms, agent, since);
    if ms.len() > 0 {
        let t = ms.drop_last();
        let x = ms.last();
        assert forall|i: int| 0 <= i < t.len() implies (#[trigger] t[i]).id == i + 1 by {
            assert(t[i] == ms[i]);
        }
        law_readable_messages(t, agent, since);
        let q = bus::readable(t, agent, since);
        assert(ms[ms.len() - 1].id == ms.len());
        assert forall|i: int| 0 <= i < ms.len() && is_unread(#[trigger] ms[i], agent, since) implies
            r.contains(ms[i]) by {
            if i < t.len() {
                assert(is_unread(t[i], agent, since));
                let k = choose|k: int| 0 <= k < q.len() && q[k] == t[i];
                assert(r[k] == ms[i]);
            } else {
                assert(r[r.len() - 1] == ms[i]);
            }
        }
        assert forall|k: int| 0 <= k < r.len() implies is_unread(#[trigger] r[k], agent, since)
            && ms.contains(r[k]) by {
            if k < q.len() {
                assert(r[k] == q[k]);
                let i = choose|i: int| 0 <= i < t.len() && t[i] == q[k];
                assert(ms[i] == r[k]);
            } else {
                assert(ms[ms.len() - 1] == r[k]);
            }
        }
        assert forall|j: int, k: int| 0 <= j < k < r.len() implies (#[trigger] r[j]).id < (
        #[trigger] r[k]).id by {
            assert(r[j] == q[j]);
            if k < q.len() {
                assert(r[k] == q[k]);
            } else {
                let i = choose|i: int| 0 <= i < t.len() && t[i] == q[j];
                assert(t[i].id == i + 1);
            }
        }
    }
}

/// What is read has one line for each message, in order, with its sender and its
/// content.
pub proof fn law_one_line_for_each_message(ms: Seq<MessageView>, i: int)
    requires
        0 <= i < ms.len(),
    ensures
        client::read_lines(ms).len() == ms.len(),
        client::read_lines(ms)[i] == "["@ + ms[i].from + "] "@ + ms[i].content,
{
}

/// The numbers above which a subagent reads: from the beginning if it asks for
/// everything, else from where it left off.
pub open spec fn read_from(caller: ChatClient, arguments: Option<JsonObject>) -> u64 {
    if arguments is Some && arguments->0.boolean("all"@) == Some(true) {
        0
    } else {
        caller.last_read_id
    }
}

/// `chat_read` shows the caller who it is, and then every message that it has still to
/// read, each on a line; the next read goes on behind the last of them. Nothing is
/// skipped.
pub proof fn law_every_unread_message_is_shown(
    b: BusView,
    caller: ChatClient,
    session_id: Seq<char>,
    arguments: Option<JsonObject>,
    i: int,
)
    requires
        laws::numbered(b.messages),
        0 <= i < b.messages.len(),
        is_unread(
            b.messages[i],
            client::agent_name_of(session_id),
            read_from(caller, arguments),
        ),
    ensures
        ({
            let o = client::read_outcome(b, caller, session_id, arguments);
            &&& o.reply is Ok
            &&& ("(your identity: "@ + client::agent_name_of(session_id) + ")\n"@).is_prefix_of(
                o.reply->Ok_0,
            )
            &&& text::holds_text(
                o.reply->Ok_0,
                "["@ + b.messages[i].from + "] "@ + b.messages[i].content,
            )
            &&& o.last_read_id >= b.messages[i].id
            &&& o.bus.messages == b.messages
            &&& o.bus.claims == b.claims
            &&& o.bus.agents == client::entered(b, caller, session_id).agents
            &&& o.bus.transcript_started == b.transcript_started
            &&& o.writes.len() == 0
        }),
{
    let name = client::agent_name_of(session_id);
    let since = read_from(caller, arguments);
    let ms = bus::readable(b.messages, name, since);
    law_readable_messages(b.messages, name, since);
    let o = client::read_outcome(b, caller, session_id, arguments);
    assert(client::entered(b, caller, session_id).messages == b.messages);
    let k = choose|k: int| 0 <= k < ms.len() && ms[k] == b.messages[i];
    if k < ms.len() - 1 {
        assert(ms[k].id < ms[ms.len() - 1].id);
    }
    let lines = client::read_lines(ms);
    text_laws::law_joined_text_holds_each(lines, "\n"@, k);
    let head = "(your identity: "@ + name + ")\n"@;
    let body = text::joined(lines, "\n"@);
    reveal_strlit(")\n");
    reveal_strlit(")");
    reveal_strlit("\n");
    assert(o.reply->Ok_0 =~= head + body);
    let p = choose|p: int| text::stands_at(body, lines[k], p);
    assert((head + body).subrange(head.len() + p, head.len() + p + lines[k].len())
        =~= body.subrange(p, p + lines[k].len()));
    assert(text::stands_at(head + body, lines[k], head.len() + p));
    assert((head + body).subrange(0, head.len() as int) =~= head);
}

/// What `chat_read` shows is made of the lines of the messages that are still to be
/// read, or of the words that there are none.
pub proof fn law_reply_to_a_read(
    b: BusView,
    caller: ChatClient,
    session_id: Seq<char>,
    arguments: Option<JsonObject>,
)
    ensures
        ({
            let name = client::agent_name_of(session_id);
            let ms = bus::readable(b.messages, name, read_from(caller, arguments));
            let o = client::read_outcome(b, caller, session_id, arguments);
            &&& o.reply == Ok::<Seq<char>, Seq<char>>(
                "(your identity: "@ + name + ")"@ + "\n"@ + (if ms.len() == 0 {
                    "No new messages."@
                } else {
                    text::joined(client::read_lines(ms), "\n"@)
                }),
            )
            &&& o.last_read_id == if ms.len() == 0 {
                caller.last_read_id
            } else {
                ms.last().id
            }
            &&& o.bus == client::entered(b, caller, session_id)
            &&& o.writes.len() == 0
        }),
{
    assert(client::entered(b, caller, session_id).messages == b.messages);
}

// Calls.

/// The arguments of a call are the ones given, if any are.
pub proof fn law_given_arguments(arguments: JsonObject)
    ensures
        client::given(Some(&arguments)) == Some(arguments),
        client::given(None) is None,
{
}

/// A message that is sent, to one agent or to all, stands behind all others, as it was
/// given and under the next number. Nothing else on the bus changes but that the
/// transcript has its heading.
pub proof fn law_sending(
    b: BusView,
    from: Seq<char>,
    to: Seq<char>,
    content: Seq<char>,
    now: Timestamp,
)
    ensures
        ({
            let m = bus::next_message(b, from, to, content, now);
            let after = bus::after_send(b, m);
            &&& m.from == from
            &&& m.to == to
            &&& m.content == content
            &&& m.timestamp == now
            &&& b.messages.len() < u64::MAX ==> m.id == b.messages.len() + 1
            &&& after.messages == b.messages + seq![m]
            &&& after.agents == b.agents
            &&& after.claims == b.claims
            &&& after.transcript_path == b.transcript_path
            &&& after.transcript_started <==> b.transcript_started || b.transcript_path is Some
        }),
{
    let m = bus::next_message(b, from, to, content, now);
    assert(bus::after_send(b, m).messages =~= b.messages + seq![m]);
}

/// A message is written to the transcript if and only if that has a path: behind the
/// heading where it has none yet, which starts the file anew.
pub proof fn law_transcript(b: BusView, m: MessageView)
    ensures
        ({
            let w = bus::transcript_writes(b, m);
            let entry = "**["@ + m.from + "]** _"@ + time::utc_format(
                m.timestamp.unix_secs(),
                m.timestamp.subsec_nanos(),
                "%H:%M:%S"@,
            ) + "_\n"@ + m.content + "\n\n"@;
            let heading = "# Chat Transcript\n\n_Started: "@ + time::utc_format(
                m.timestamp.unix_secs(),
                m.timestamp.subsec_nanos(),
                "%Y-%m-%d %H:%M:%S UTC"@,
            ) + "_\n\n"@;
            &&& b.transcript_path is None ==> w.len() == 0
            &&& b.transcript_path is Some && b.transcript_started ==> w.len() == 1 && w[0] == (
                false,
                entry,
            )
            &&& b.transcript_path is Some && !b.transcript_started ==> w.len() == 2 && w[0] == (
                true,
                heading,
            ) && w[1] == (false, entry)
        }),
{
}

/// Each tool does what belongs to its name; another name is an error that changes
/// nothing.
pub proof fn law_calls_go_by_the_name(
    b: BusView,
    caller: ChatClient,
    session_id: Seq<char>,
    name: Seq<char>,
    arguments: Option<JsonObject>,
    now: Timestamp,
)
    ensures
        ({
            let o = client::call_outcome(b, caller, session_id, name, arguments, now);
            &&& name == "chat_send"@ ==> o == client::send_outcome(
                b,
                caller,
                session_id,
                arguments,
                now,
            )
            &&& name == "chat_read"@ ==> o == client::read_outcome(b, caller, session_id, arguments)
            &&& name == "chat_claim"@ ==> o == client::claim_outcome(
                b,
                caller,
                session_id,
                arguments,
                now,
            )
            &&& name == "chat_release"@ ==> o == client::release_outcome(
                b,
                caller,
                session_id,
                arguments,
                now,
            )
            &&& name != "chat_send"@ && name != "chat_read"@ && name != "chat_claim"@ && name
                != "chat_release"@ ==> {
                &&& o.bus == b
                &&& o.last_read_id == caller.last_read_id
                &&& o.writes.len() == 0
                &&& o.reply == Err::<Seq<char>, Seq<char>>("Unknown tool: "@ + name)
            }
        }),
{
    reveal_strlit("chat_send");
    reveal_strlit("chat_read");
    reveal_strlit("chat_claim");
    reveal_strlit("chat_release");
    assert("chat_send"@.len() == 9 && "chat_read"@.len() == 9 && "chat_claim"@.len() == 10
        && "chat_release"@.len() == 12);
    assert("chat_send"@[5] == 's' && "chat_read"@[5] == 'r');
}

/// An answer is marked as an error if and only if the call failed, and tells why.
pub proof fn law_errors_are_marked(r: CallResult, reply: Result<Seq<char>, Seq<char>>)
    requires
        client::answers(r, reply),
    ensures
        r.is_error <==> reply is Err,
        reply is Ok ==> r.text@ == reply->Ok_0,
        reply is Err ==> r.text@ == "Error: "@ + reply->Err_0,
{
}

/// What a handler has done is what the bus, the client, the reply and the writes show.
pub proof fn law_handlers_do_what_their_outcome_says(
    o: client::Outcome,
    after: ChatBus,
    caller: ChatClient,
    r: (Result<String, String>, Vec<TranscriptWrite>),
)
    requires
        client::handled_as(o, after, caller, r),
    ensures
        after.wf(),
        after@ == o.bus,
        caller.last_read_id == o.last_read_id,
        r.0 is Ok <==> o.reply is Ok,
        r.0 matches Ok(t) ==> o.reply == Ok::<Seq<char>, Seq<char>>(t@),
        r.0 matches Err(t) ==> o.reply == Err::<Seq<char>, Seq<char>>(t@),
        bus::write_views(r.1@) == o.writes,
{
}

/// A text that a tool needs is the one given under its key; without one there is an
/// error.
pub proof fn law_required_texts(arguments: JsonObject, key: Seq<char>, missing: Seq<char>)
    ensures
        client::required_text(None, key, missing) == Err::<Seq<char>, Seq<char>>(
            "Missing arguments"@,
        ),
        client::required_text(Some(arguments), key, missing) == (match arguments.string(key) {
            Some(t) => Ok::<Seq<char>, Seq<char>>(t),
            None => Err(missing),
        }),
{
}

/// Whoever uses a tool is registered once, under the name of its session, keeps the
/// description of its first use, and changes no other agent. The first path for the
/// transcript stays.
pub proof fn law_first_use_registers(
    b: BusView,
    caller: ChatClient,
    session_id: Seq<char>,
    other: Seq<char>,
)
    ensures
        ({
            let e = client::entered(b, caller, session_id);
            let name = client::agent_name_of(session_id);
            &&& e.agents.dom().contains(name)
            &&& e.agents[name] == if b.agents.dom().contains(name) {
                b.agents[name]
            } else {
                match caller.context {
                    Some(c) => c.name@,
                    None => ""@,
                }
            }
            &&& other != name ==> e.agents.dom().contains(other) == b.agents.dom().contains(other)
            &&& other != name && b.agents.dom().contains(other) ==> e.agents[other]
                == b.agents[other]
            &&& e.transcript_path == (match (b.transcript_path, caller.context) {
                (Some(p), _) => Some(p),
                (None, Some(c)) => Some(c.transcript_path@),
                (None, None) => None,
            })
            &&& e.messages == b.messages
            &&& e.claims == b.claims
            &&& e.transcript_started == b.transcript_started
        }),
{
}

/// The message behind all others: numbered, from the caller to all, and put into the
/// transcript if there is one.
pub open spec fn is_told_to_all(
    b: BusView,
    after: BusView,
    writes: Seq<(bool, Seq<char>)>,
    name: Seq<char>,
    content: Seq<char>,
    now: Timestamp,
) -> bool {
    &&& after.messages.len() == b.messages.len() + 1
    &&& after.messages.drop_last() == b.messages
    &&& after.messages.last().from == name
    &&& after.messages.last().to == "all"@
    &&& after.messages.last().content == content
    &&& after.messages.last().timestamp == now
    &&& b.messages.len() < u64::MAX ==> after.messages.last().id == b.messages.len() + 1
    &&& writes.len() == (if after.transcript_path is None {
        0nat
    } else if b.transcript_started {
        1nat
    } else {
        2nat
    })
    &&& after.transcript_started <==> b.transcript_started || after.transcript_path is Some
    &&& after.transcript_path is Some ==> writes.last() == (
        false,
        "**["@ + name + "]** _"@ + time::utc_format(
            now.unix_secs(),
            now.subsec_nanos(),
            "%H:%M:%S"@,
        ) + "_\n"@ + content + "\n\n"@,
    )
    &&& writes.len() == 2 ==> writes.first() == (
        true,
        "# Chat Transcript\n\n_Started: "@ + time::utc_format(
            now.unix_secs(),
            now.subsec_nanos(),
            "%Y-%m-%d %H:%M:%S UTC"@,
        ) + "_\n\n"@,
    )
}

/// `chat_send` tells all what it is given, and nothing else changes; an empty message is
/// refused.
pub proof fn law_message_is_told_to_all(
    b: BusView,
    caller: ChatClient,
    session_id: Seq<char>,
    arguments: JsonObject,
    t: Seq<char>,
    now: Timestamp,
)
    requires
        arguments.string("message"@) == Some(t),
    ensures
        ({
            let o = client::send_outcome(b, caller, session_id, Some(arguments), now);
            let name = client::agent_name_of(session_id);
            let e = client::entered(b, caller, session_id);
            &&& o.bus.claims == b.claims
            &&& o.bus.agents == e.agents
            &&& o.bus.transcript_path == e.transcript_path
            &&& o.last_read_id == caller.last_read_id
            &&& t.len() > 0 ==> is_told_to_all(b, o.bus, o.writes, name, t, now)
            &&& t.len() > 0 ==> o.reply == Ok::<Seq<char>, Seq<char>>(
                "Message sent (id: "@ + text::decimal(o.bus.messages.last().id as nat) + ")"@,
            )
            &&& t.len() == 0 ==> o.bus.messages == b.messages && o.writes.len() == 0 && o.reply
                == Err::<Seq<char>, Seq<char>>("Message cannot be empty"@)
        }),
{
    let e = client::entered(b, caller, session_id);
    assert(e.messages == b.messages);
    let o = client::send_outcome(b, caller, session_id, Some(arguments), now);
    if t.len() > 0 {
        assert(o.bus.messages.drop_last() =~= b.messages);
    }
}

/// `chat_claim` of a free resource makes the caller its owner, leaves the other claims,
/// and tells all; of a claimed one it names the owner in an error and leaves everything.
pub proof fn law_claim_tool(
    b: BusView,
    caller: ChatClient,
    session_id: Seq<char>,
    arguments: JsonObject,
    resource: Seq<char>,
    now: Timestamp,
    other: Seq<char>,
)
    requires
        arguments.string("resource"@) == Some(resource),
    ensures
        ({
            let o = client::claim_outcome(b, caller, session_id, Some(arguments), now);
            let name = client::agent_name_of(session_id);
            let e = client::entered(b, caller, session_id);
            &&& o.bus.agents == e.agents
            &&& o.bus.transcript_path == e.transcript_path
            &&& o.last_read_id == caller.last_read_id
            &&& other != resource ==> o.bus.claims.dom().contains(other)
                == b.claims.dom().contains(other)
            &&& other != resource && b.claims.dom().contains(other) ==> o.bus.claims[other]
                == b.claims[other]
            &&& !b.claims.dom().contains(resource) ==> {
                &&& o.bus.claims.dom().contains(resource)
                &&& o.bus.claims[resource] == name
                &&& is_told_to_all(b, o.bus, o.writes, name, "CLAIMED: "@ + resource, now)
                &&& o.reply == Ok::<Seq<char>, Seq<char>>(
                    "Successfully claimed '"@ + resource + "'"@,
                )
            }
            &&& b.claims.dom().contains(resource) ==> {
                &&& o.bus.claims == b.claims
                &&& o.bus.messages == b.messages
                &&& o.writes.len() == 0
                &&& o.reply == Err::<Seq<char>, Seq<char>>(
                    "DENIED: '"@ + resource + "' is already claimed by '"@ + b.claims[resource]
                        + "'. You must pick a different resource."@,
                )
            }
        }),
{
    let e = client::entered(b, caller, session_id);
    assert(e.messages == b.messages);
    let o = client::claim_outcome(b, caller, session_id, Some(arguments), now);
    if !b.claims.dom().contains(resource) {
        assert(o.bus.messages.drop_last() =~= b.messages);
    }
}

/// `chat_release` by the owner frees the resource, leaves the other claims, and tells
/// all; by anyone else, or of a free resource, it leaves everything and says why.
pub proof fn law_release_tool(
    b: BusView,
    caller: ChatClient,
    session_id: Seq<char>,
    arguments: JsonObject,
    resource: Seq<char>,
    now: Timestamp,
    other: Seq<char>,
)
    requires
        arguments.string("resource"@) == Some(resource),
    ensures
        ({
            let o = client::release_outcome(b, caller, session_id, Some(arguments), now);
            let name = client::agent_name_of(session_id);
            let claimed = b.claims.dom().contains(resource);
            let own = claimed && b.claims[resource] == name;
            let e = client::entered(b, caller, session_id);
            &&& o.bus.agents == e.agents
            &&& o.bus.transcript_path == e.transcript_path
            &&& o.last_read_id == caller.last_read_id
            &&& other != resource ==> o.bus.claims.dom().contains(other)
                == b.claims.dom().contains(other)
            &&& other != resource && b.claims.dom().contains(other) ==> o.bus.claims[other]
                == b.claims[other]
            &&& own ==> {
                &&& !o.bus.claims.dom().contains(resource)
                &&& is_told_to_all(b, o.bus, o.writes, name, "RELEASED: "@ + resource, now)
                &&& o.reply == Ok::<Seq<char>, Seq<char>>("Released '"@ + resource + "'"@)
            }
            &&& !own ==> {
                &&& o.bus.claims == b.claims
                &&& o.bus.messages == b.messages
                &&& o.writes.len() == 0
                &&& o.reply == Ok::<Seq<char>, Seq<char>>(
                    "Error: "@ + if claimed {
                        "'"@ + resource + "' is claimed by '"@ + b.claims[resource] + "', not you"@
                    } else {
                        "'"@ + resource + "' is not claimed"@
                    },
                )
            }
        }),
{
    let e = client::entered(b, caller, session_id);
    assert(e.messages == b.messages);
    let o = client::release_outcome(b, caller, session_id, Some(arguments), now);
    if b.claims.dom().contains(resource) && b.claims[resource]
        == client::agent_name_of(session_id) {
        assert(o.bus.messages.drop_last() =~= b.messages);
    }
}

/// A call that lacks what it needs says so and leaves messages and claims.
pub proof fn law_incomplete_calls_change_nothing(
    b: BusView,
    caller: ChatClient,
    session_id: Seq<char>,
    arguments: Option<JsonObject>,
    now: Timestamp,
)
    requires
        arguments is None || arguments->0.string("message"@) is None,
        arguments is None || arguments->0.string("resource"@) is None,
    ensures
        ({
            let s = client::send_outcome(b, caller, session_id, arguments, now);
            let c = client::claim_outcome(b, caller, session_id, arguments, now);
            let r = client::release_outcome(b, caller, session_id, arguments, now);
            &&& s.reply is Err && c.reply is Err && r.reply is Err
            &&& s.bus.messages == b.messages && s.bus.claims == b.claims && s.writes.len() == 0
            &&& c.bus.messages == b.messages && c.bus.claims == b.claims && c.writes.len() == 0
            &&& r.bus.messages == b.messages && r.bus.claims == b.claims && r.writes.len() == 0
        }),
{
}

/// `chat_list` shows every registered agent with its description, and marks the caller
/// alone.
pub proof fn law_every_agent_is_listed(shown: Seq<char>, b: BusView, me: Seq<char>, name: Seq<char>)
    requires
        client::lists_agents(shown, b, me),
        b.agents.dom().contains(name),
    ensures
        text::holds_text(
            shown,
            "- "@ + name + (if name == me {
                " (you)"@
            } else {
                ""@
            }) + ": "@ + b.agents[name],
        ),
{
    let names = choose|names: Seq<Seq<char>>|
        #![trigger names.no_duplicates()]
        names.no_duplicates() && names.to_set() == b.agents.dom() && shown == text::joined(
            names.map_values(|n: Seq<char>| client::agent_line(b, me, n)),
            "\n"@,
        );
    assert(names.to_set().contains(name));
    let k = choose|k: int| 0 <= k < names.len() && names[k] == name;
    let lines = names.map_values(|n: Seq<char>| client::agent_line(b, me, n));
    text_laws::law_joined_text_holds_each(lines, "\n"@, k);
}

/// `chat_list` shows no agent twice and none that is not registered: there is a line for
/// each, and no other line.
pub proof fn law_no_other_agent_is_listed(shown: Seq<char>, b: BusView, me: Seq<char>)
    requires
        client::lists_agents(shown, b, me),
    ensures
        exists|names: Seq<Seq<char>>|
            #![trigger names.no_duplicates()]
            {
                &&& names.no_duplicates()
                &&& forall|i: int| 0 <= i < names.len() ==> b.agents.dom().contains(#[trigger] names[i])
                &&& shown == text::joined(
                    Seq::new(
                        names.len(),
                        |i: int|
                            "- "@ + names[i] + (if names[i] == me {
                                " (you)"@
                            } else {
                                ""@
                            }) + ": "@ + b.agents[names[i]],
                    ),
                    "\n"@,
                )
            },
{
    let names = choose|names: Seq<Seq<char>>|
        #![trigger names.no_duplicates()]
        names.no_duplicates() && names.to_set() == b.agents.dom() && shown == text::joined(
            names.map_values(|n: Seq<char>| client::agent_line(b, me, n)),
            "\n"@,
        );
    assert forall|i: int| 0 <= i < names.len() implies b.agents.dom().contains(#[trigger] names[i]) by {
        assert(names.to_set().contains(names[i]));
    }
    assert(names.map_values(|n: Seq<char>| client::agent_line(b, me, n)) =~= Seq::new(
        names.len(),
        |i: int|
            "- "@ + names[i] + (if names[i] == me {
                " (you)"@
            } else {
                ""@
            }) + ": "@ + b.agents[names[i]],
    ));
}

/// The name of an agent shows the last twenty-four bits of the hash.
pub proof fn law_name_shows_the_hash(hash: u64)
    ensures
        client::name_of_hash(hash).len() == 12,
        client::name_of_hash(hash).take(6) == "agent-"@,
        text_laws::hex_number_of(client::name_of_hash(hash).skip(6)) == hash as int % 0x100_0000,
{
    reveal_strlit("agent-");
    text_laws::law_hexadecimal_form_reads_as_the_number(hash as nat);
    let n = client::name_of_hash(hash);
    assert(n.take(6) =~= "agent-"@);
    assert(n.skip(6) =~= text::hex_digits(hash as nat, 6));
}

// The bus as it is used.

/// A claim is granted if and only if nobody has the resource, and then the agent has it;
/// otherwise the owner is named. No other claim changes.
pub proof fn law_claims(
    b: &mut ChatBus,
    resource: String,
    agent: String,
    r: Result<(), String>,
    other: Seq<char>,
)
    requires
        call_ensures(ChatBus::claim, (b, resource, agent), r),
    ensures
        final(b).wf(),
        r is Ok <==> !old(b)@.claims.dom().contains(resource@),
        r is Ok ==> final(b)@.claims.dom().contains(resource@) && final(b)@.claims[resource@]
            == agent@,
        r is Err ==> final(b)@.claims == old(b)@.claims && r->Err_0@ == old(b)@.claims[resource@],
        other != resource@ ==> final(b)@.claims.dom().contains(other)
            == old(b)@.claims.dom().contains(other),
        other != resource@ && old(b)@.claims.dom().contains(other) ==> final(b)@.claims[other]
            == old(b)@.claims[other],
        final(b)@.messages == old(b)@.messages,
        final(b)@.agents == old(b)@.agents,
{
}

/// A release is granted if and only if the agent has the resource, and then nobody has
/// it; otherwise the reason is told. No other claim changes.
pub proof fn law_releases(
    b: &mut ChatBus,
    resource: &str,
    agent: &str,
    r: Result<(), String>,
    other: Seq<char>,
)
    requires
        call_ensures(ChatBus::release, (b, resource, agent), r),
    ensures
        final(b).wf(),
        r is Ok <==> old(b)@.claims.dom().contains(resource@) && old(b)@.claims[resource@] == agent@,
        r is Ok ==> !final(b)@.claims.dom().contains(resource@),
        r is Err ==> final(b)@.claims == old(b)@.claims,
        r is Err && old(b)@.claims.dom().contains(resource@) ==> r->Err_0@ == "'"@ + resource@
            + "' is claimed by '"@ + old(b)@.claims[resource@] + "', not you"@,
        r is Err && !old(b)@.claims.dom().contains(resource@) ==> r->Err_0@ == "'"@ + resource@
            + "' is not claimed"@,
        other != resource@ ==> final(b)@.claims.dom().contains(other)
            == old(b)@.claims.dom().contains(other),
        other != resource@ && old(b)@.claims.dom().contains(other) ==> final(b)@.claims[other]
            == old(b)@.claims[other],
        final(b)@.messages == old(b)@.messages,
        final(b)@.agents == old(b)@.agents,
{
}

/// What is sent to an agent, or to all, can be read by that agent from anywhere before.
pub proof fn law_sent_messages_can_be_read(
    b: &mut ChatBus,
    from: String,
    to: String,
    content: String,
    now: Timestamp,
    r: (ChatMessage, Vec<TranscriptWrite>),
    agent: &str,
    since: u64,
    read: Vec<ChatMessage>,
)
    requires
        call_ensures(ChatBus::send_message, (b, from, to, content, now), r),
        call_ensures(ChatBus::read_messages, (&*final(b), agent, since), read),
        to@ == agent@ || to@ == "all"@,
        since < r.0.id,
    ensures
        read@.len() > 0,
        read@.last().from@ == from@,
        read@.last().to@ == to@,
        read@.last().content@ == content@,
        read@.last().timestamp == now,
{
    let ms = old(b)@.messages;
    let m = r.0@;
    reveal(Seq::filter);
    assert(ms.push(m).drop_last() =~= ms);
    let views = bus::message_views(read@);
    assert(views == bus::readable(ms.push(m), agent@, since));
    assert(views.last() == m);
    assert(views.last() == read@.last()@);
}

/// The agents are listed in the order in which they came, each once, with what it is
/// called.
pub proof fn law_agents_are_listed(b: &ChatBus, r: Vec<(String, String)>, i: int)
    requires
        call_ensures(ChatBus::list_agents, (b,), r),
        0 <= i < b.agents.entries@.len(),
    ensures
        r@.len() == b.agents.entries@.len(),
        r@[i].0@ == b.agents.entries@[i].0@,
        r@[i].1@ == b.agents.entries@[i].1@,
{
}

// The tools as they are offered.

/// The tools are offered in this order, each with its title and its purpose, and none
/// claims to be free of effects.
pub proof fn law_offered_tools(i: int)
    requires
        0 <= i < tools::chat_tools().len(),
    ensures
        tools::chat_tools().len() == 5,
        ({
            let t = tools::chat_tools()[i];
            let h = t.hints;
            &&& !h.read_only && !h.destructive && !h.idempotent && !h.open_world
            &&& i == 0 ==> t.name@ == "chat_send"@ && t.title@ == "Send chat message"@
                && t.description@
                == "Broadcast a message to all other subagents. Use this to declare what files you intend to modify or what actions you're taking, so others can avoid conflicts."@
            &&& i == 1 ==> t.name@ == "chat_read"@ && t.title@ == "Read chat messages"@
                && t.description@
                == "Read messages from other subagents. By default returns only new messages since your last read. Pass all=true to get the full transcript."@
            &&& i == 2 ==> t.name@ == "chat_claim"@ && t.title@ == "Claim resource"@
                && t.description@
                == "Atomically claim a resource (file, number, task). Returns success if you got it, or ERRORS if someone else already claimed it — you MUST pick a different resource. Use a simple canonical name (e.g. '3' not 'number 3', 'auth.py' not 'the auth module')."@
            &&& i == 3 ==> t.name@ == "chat_release"@ && t.title@ == "Release claim"@
                && t.description@
                == "Release a previously claimed resource so other subagents can claim it."@
            &&& i == 4 ==> t.name@ == "chat_list"@ && t.title@ == "List chat agents"@
                && t.description@ == "List all active subagents in the current session."@
        }),
{
}

} // verus!
