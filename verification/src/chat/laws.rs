//! What holds of the bus and the tools across several calls.
use crate::chat::bus;
use crate::chat::bus::{BusView, MessageView};
use crate::chat::client;
use crate::chat::client::ChatClient;
use crate::json::JsonObject;
use crate::text;
use crate::time::Timestamp;
use vstd::prelude::*;

verus! {

/// The messages are numbered from one, in the order sent.
pub open spec fn numbered(ms: Seq<MessageView>) -> bool {
    forall|i: int| 0 <= i < ms.len() ==> (#[trigger] ms[i]).id == i + 1
}

/// The messages of every bus are numbered from one.
pub proof fn law_messages_are_numbered(b: bus::ChatBus)
    requires
        b.wf(),
    ensures
        numbered(b@.messages),
{
}

proof fn lemma_filter_push<T>(s: Seq<T>, x: T, f: spec_fn(T) -> bool)
    ensures
        s.push(x).filter(f) == if f(x) {
            s.filter(f).push(x)
        } else {
            s.filter(f)
        },
{
    reveal(Seq::filter);
    assert(s.push(x).drop_last() == s);
}

proof fn lemma_readable_none(ms: Seq<MessageView>, agent: Seq<char>, since: u64)
    requires
        forall|i: int|
            0 <= i < ms.len() ==> !((#[trigger] ms[i]).id > since && bus::addressed_to(
                ms[i],
                agent,
            )),
    ensures
        bus::readable(ms, agent, since) == Seq::<MessageView>::empty(),
    decreases ms.len(),
{
    reveal(Seq::filter);
    if ms.len() > 0 {
        let t = ms.drop_last();
        assert forall|i: int| 0 <= i < t.len() implies !((#[trigger] t[i]).id > since
            && bus::addressed_to(t[i], agent)) by {
            assert(t[i] == ms[i]);
        }
        lemma_readable_none(t, agent, since);
        assert(!(ms[ms.len() - 1].id > since && bus::addressed_to(ms[ms.len() - 1], agent)));
    }
}

/// Reading on from a cursor misses nothing and repeats nothing: what was
/// readable among the first `cursor` messages, followed by what is readable
/// above the cursor, is everything that is readable.
pub proof fn law_reading_on(ms: Seq<MessageView>, agent: Seq<char>, cursor: u64)
    requires
        numbered(ms),
        cursor <= ms.len(),
    ensures
        bus::readable(ms, agent, 0) == bus::readable(ms.take(cursor as int), agent, 0)
            + bus::readable(ms, agent, cursor),
    decreases ms.len(),
{
    reveal(Seq::filter);
    let all = |m: MessageView| m.id > 0 && bus::addressed_to(m, agent);
    let new = |m: MessageView| m.id > cursor && bus::addressed_to(m, agent);
    if ms.len() == cursor {
        assert(ms.take(cursor as int) == ms);
        lemma_readable_none(ms, agent, cursor);
        assert(bus::readable(ms, agent, 0) + Seq::<MessageView>::empty() == bus::readable(
            ms,
            agent,
            0,
        ));
    } else {
        let t = ms.drop_last();
        let x = ms.last();
        assert(numbered(t)) by {
            assert forall|i: int| 0 <= i < t.len() implies (#[trigger] t[i]).id == i + 1 by {
                assert(t[i] == ms[i]);
            }
        }
        assert(ms[ms.len() - 1].id == ms.len());
        law_reading_on(t, agent, cursor);
        assert(t.take(cursor as int) == ms.take(cursor as int));
        assert(t.push(x) == ms);
        lemma_filter_push(t, x, all);
        lemma_filter_push(t, x, new);
        let a = bus::readable(ms.take(cursor as int), agent, 0);
        let b = bus::readable(t, agent, cursor);
        assert((a + b).push(x) == a + b.push(x));
    }
}

/// A message that is sent is read by every agent it is addressed to, after the
/// messages sent before it, and by no other agent.
pub proof fn law_sent_is_read(b: BusView, m: MessageView, agent: Seq<char>, since: u64)
    ensures
        bus::readable(bus::after_send(b, m).messages, agent, since) == if m.id > since
            && bus::addressed_to(m, agent) {
            bus::readable(b.messages, agent, since).push(m)
        } else {
            bus::readable(b.messages, agent, since)
        },
{
    lemma_filter_push(
        b.messages,
        m,
        |m: MessageView| m.id > since && bus::addressed_to(m, agent),
    );
}

/// The number of the last message read leaves nothing to read.
pub proof fn law_read_to_the_end(ms: Seq<MessageView>, agent: Seq<char>, since: u64)
    requires
        numbered(ms),
        bus::readable(ms, agent, since).len() > 0,
    ensures
        bus::readable(ms, agent, bus::readable(ms, agent, since).last().id).len() == 0,
    decreases ms.len(),
{
    reveal(Seq::filter);
    let wanted = |m: MessageView| m.id > since && bus::addressed_to(m, agent);
    let last = bus::readable(ms, agent, since).last().id;
    let t = ms.drop_last();
    let x = ms.last();
    assert(t.push(x) == ms);
    lemma_filter_push(t, x, wanted);
    lemma_filter_push(t, x, |m: MessageView| m.id > last && bus::addressed_to(m, agent));
    assert(ms[ms.len() - 1].id == ms.len());
    if wanted(x) {
        assert forall|i: int| 0 <= i < ms.len() implies !((#[trigger] ms[i]).id > last
            && bus::addressed_to(ms[i], agent)) by {}
        lemma_readable_none(ms, agent, last);
    } else {
        assert forall|i: int| 0 <= i < t.len() implies (#[trigger] t[i]).id == i + 1 by {
            assert(t[i] == ms[i]);
        }
        law_read_to_the_end(t, agent, since);
        if bus::addressed_to(x, agent) {
            assert(x.id <= since);
            assert forall|i: int| 0 <= i < ms.len() implies !((#[trigger] ms[i]).id > since
                && bus::addressed_to(ms[i], agent)) by {}
            lemma_readable_none(ms, agent, since);
        }
    }
}

/// The first claim of a resource wins, and every later claim of it, also by the
/// owner, changes nothing.
pub proof fn law_first_claim_wins(
    b: BusView,
    resource: Seq<char>,
    first: Seq<char>,
    later: Seq<char>,
)
    requires
        !b.claims.dom().contains(resource),
    ensures
        bus::owns(bus::after_claim(b, resource, first), first, resource),
        bus::after_claim(bus::after_claim(b, resource, first), resource, later)
            == bus::after_claim(b, resource, first),
{
}

/// Claims of different resources do not touch each other.
pub proof fn law_claims_are_independent(
    b: BusView,
    resource: Seq<char>,
    other: Seq<char>,
    agent: Seq<char>,
)
    requires
        resource != other,
    ensures
        bus::after_claim(b, resource, agent).claims.dom().contains(other)
            == b.claims.dom().contains(other),
        b.claims.dom().contains(other) ==> bus::after_claim(b, resource, agent).claims[other]
            == b.claims[other],
        bus::after_release(b, resource, agent).claims.dom().contains(other)
            == b.claims.dom().contains(other),
        b.claims.dom().contains(other) ==> bus::after_release(b, resource, agent).claims[other]
            == b.claims[other],
{
}

/// The owner's release undoes the claim, so that anyone can claim the resource.
pub proof fn law_release_undoes_claim(
    b: BusView,
    resource: Seq<char>,
    agent: Seq<char>,
    next: Seq<char>,
)
    requires
        !b.claims.dom().contains(resource),
    ensures
        bus::after_release(bus::after_claim(b, resource, agent), resource, agent) == b,
        bus::owns(
            bus::after_claim(
                bus::after_release(bus::after_claim(b, resource, agent), resource, agent),
                resource,
                next,
            ),
            next,
            resource,
        ),
{
    assert(b.claims.insert(resource, agent).remove(resource) =~= b.claims);
}

/// Nobody but the owner releases a resource.
pub proof fn law_only_the_owner_releases(
    b: BusView,
    resource: Seq<char>,
    owner: Seq<char>,
    other: Seq<char>,
)
    requires
        bus::owns(b, owner, resource),
        other != owner,
    ensures
        bus::after_release(b, resource, other) == b,
{
}

/// A second registration changes nothing: the first description stays.
pub proof fn law_registration_is_idempotent(
    b: BusView,
    name: Seq<char>,
    first: Seq<char>,
    second: Seq<char>,
)
    ensures
        bus::after_register(bus::after_register(b, name, first), name, second)
            == bus::after_register(b, name, first),
        !b.agents.dom().contains(name) ==> bus::after_register(b, name, first).agents[name]
            == first,
{
}

/// Once the transcript has a path, the first message writes its heading, and no
/// later message does.
pub proof fn law_one_heading(b: BusView, m: MessageView, later: MessageView)
    requires
        b.transcript_path is Some,
    ensures
        bus::transcript_writes(bus::after_send(b, m), later) == seq![
            (false, bus::transcript_entry(later)),
        ],
        bus::transcript_writes(b, m).last() == (false, bus::transcript_entry(m)),
        !b.transcript_started ==> bus::transcript_writes(b, m).first() == (
            true,
            bus::transcript_heading(m.timestamp),
        ),
{
}

/// An agent's name is `agent-` and six hexadecimal digits, twelve characters in
/// all, and it depends on the session alone.
pub proof fn law_agent_name_shape(session_id: Seq<char>)
    ensures
        client::agent_name_of(session_id).len() == 12,
        "agent-"@.is_prefix_of(client::agent_name_of(session_id)),
        forall|i: int|
            6 <= i < 12 ==> {
                let c = #[trigger] client::agent_name_of(session_id)[i];
                '0' <= c <= '9' || 'a' <= c <= 'f'
            },
{
    reveal_strlit("agent-");
    let hash =
        <std::collections::hash_map::DefaultHasher as vstd::std_specs::hash::DefaultHasherAdditionalSpecFns>::spec_finish(
        client::hash_input(session_id),
    );
    lemma_hex(hash as nat, 6);
    let name = client::agent_name_of(session_id);
    assert(name == "agent-"@ + text::hex_digits(hash as nat, 6));
    assert(name.subrange(0, 6) == "agent-"@);
}

proof fn lemma_hex(n: nat, width: nat)
    ensures
        text::hex_digits(n, width).len() == width,
        forall|i: int|
            0 <= i < width ==> {
                let c = #[trigger] text::hex_digits(n, width)[i];
                '0' <= c <= '9' || 'a' <= c <= 'f'
            },
    decreases width,
{
    if width > 0 {
        lemma_hex(n / 16, (width - 1) as nat);
    }
}

/// A claim that comes too late is answered with an error that names the owner,
/// claims nothing, and is not told to the others.
pub proof fn law_denied_claim(
    b: BusView,
    caller: ChatClient,
    session_id: Seq<char>,
    arguments: JsonObject,
    resource: Seq<char>,
    now: Timestamp,
)
    requires
        arguments.string("resource"@) == Some(resource),
        b.claims.dom().contains(resource),
    ensures
        ({
            let o = client::claim_outcome(b, caller, session_id, Some(arguments), now);
            &&& o.reply == Err::<Seq<char>, Seq<char>>(
                "DENIED: '"@ + resource + "' is already claimed by '"@ + b.claims[resource]
                    + "'. You must pick a different resource."@,
            )
            &&& o.bus.claims == b.claims
            &&& o.bus.messages == b.messages
            &&& o.writes.len() == 0
        }),
{
}

/// A claim of a free resource makes the caller its owner and tells everyone.
pub proof fn law_granted_claim(
    b: BusView,
    caller: ChatClient,
    session_id: Seq<char>,
    arguments: JsonObject,
    resource: Seq<char>,
    now: Timestamp,
)
    requires
        arguments.string("resource"@) == Some(resource),
        !b.claims.dom().contains(resource),
    ensures
        ({
            let o = client::claim_outcome(b, caller, session_id, Some(arguments), now);
            &&& o.reply is Ok
            &&& bus::owns(o.bus, client::agent_name_of(session_id), resource)
            &&& o.bus.messages.len() == b.messages.len() + 1
            &&& o.bus.messages.last().to == "all"@
            &&& o.bus.messages.last().content == "CLAIMED: "@ + resource
        }),
{
}

/// Whoever uses a tool is registered afterwards.
pub proof fn law_users_are_registered(
    b: BusView,
    caller: ChatClient,
    session_id: Seq<char>,
)
    ensures
        client::entered(b, caller, session_id).agents.dom().contains(
            client::agent_name_of(session_id),
        ),
        client::entered(b, caller, session_id).messages == b.messages,
        client::entered(b, caller, session_id).claims == b.claims,
{
}

/// After a read that is not asked for everything, a second read brings nothing
/// new, unless a message was sent in between.
pub proof fn law_second_read_is_empty(
    b: BusView,
    caller: ChatClient,
    session_id: Seq<char>,
    arguments: Option<JsonObject>,
    after: ChatClient,
)
    requires
        numbered(b.messages),
        arguments matches Some(a) ==> a.boolean("all"@) != Some(true),
        after.context == caller.context,
        after.last_read_id == client::read_outcome(
            b,
            caller,
            session_id,
            arguments,
        ).last_read_id,
    ensures
        ({
            let o = client::read_outcome(b, caller, session_id, arguments);
            client::read_outcome(o.bus, after, session_id, arguments).reply == Ok::<
                Seq<char>,
                Seq<char>,
            >(
                client::identity_line(client::agent_name_of(session_id)) + "\n"@
                    + "No new messages."@,
            )
        }),
{
    let e = client::entered(b, caller, session_id);
    let name = client::agent_name_of(session_id);
    let ms = bus::readable(e.messages, name, caller.last_read_id);
    if ms.len() > 0 {
        law_read_to_the_end(e.messages, name, caller.last_read_id);
    }
    assert(client::entered(e, after, session_id).messages == e.messages);
}

/// A message that one subagent sends with `chat_send` is read by every subagent
/// with `chat_read`, behind what there was to read before.
pub proof fn law_sent_message_is_read(
    b: BusView,
    sender: ChatClient,
    sender_session: Seq<char>,
    message: JsonObject,
    t: Seq<char>,
    now: Timestamp,
    reader: ChatClient,
    reader_session: Seq<char>,
    arguments: Option<JsonObject>,
)
    requires
        b.messages.len() < u64::MAX,
        reader.last_read_id <= b.messages.len(),
        message.string("message"@) == Some(t),
        t.len() > 0,
    ensures
        ({
            let me = client::agent_name_of(reader_session);
            let m = bus::next_message(b, client::agent_name_of(sender_session), "all"@, t, now);
            let since = if arguments is Some && arguments->0.boolean("all"@) == Some(true) {
                0
            } else {
                reader.last_read_id
            };
            let sent = client::send_outcome(b, sender, sender_session, Some(message), now);
            let read = client::read_outcome(sent.bus, reader, reader_session, arguments);
            &&& sent.reply is Ok
            &&& read.reply == Ok::<Seq<char>, Seq<char>>(
                client::identity_line(me) + "\n"@ + text::joined(
                    client::read_lines(bus::readable(b.messages, me, since).push(m)),
                    "\n"@,
                ),
            )
            &&& read.last_read_id == m.id
        }),
{
    let me = client::agent_name_of(reader_session);
    let m = bus::next_message(b, client::agent_name_of(sender_session), "all"@, t, now);
    let since = if arguments is Some && arguments->0.boolean("all"@) == Some(true) {
        0
    } else {
        reader.last_read_id
    };
    let e = client::entered(b, sender, sender_session);
    assert(e.messages == b.messages);
    let s = bus::after_send(e, m);
    let sent = client::send_outcome(b, sender, sender_session, Some(message), now);
    assert(sent.bus == s);
    let r = client::entered(s, reader, reader_session);
    assert(r.messages == s.messages);
    law_sent_is_read(e, m, me, since);
}

/// `chat_read` of everything shows all messages for the subagent from the
/// beginning, whatever it has read before.
pub proof fn law_everything_can_be_read_again(
    b: BusView,
    caller: ChatClient,
    session_id: Seq<char>,
    arguments: JsonObject,
)
    requires
        arguments.boolean("all"@) == Some(true),
        bus::readable(b.messages, client::agent_name_of(session_id), 0).len() > 0,
    ensures
        client::read_outcome(b, caller, session_id, Some(arguments)).reply == Ok::<
            Seq<char>,
            Seq<char>,
        >(
            client::identity_line(client::agent_name_of(session_id)) + "\n"@ + text::joined(
                client::read_lines(
                    bus::readable(b.messages, client::agent_name_of(session_id), 0),
                ),
                "\n"@,
            ),
        ),
{
    assert(client::entered(b, caller, session_id).messages == b.messages);
}

/// A resource that its owner releases with `chat_release` can be claimed by another
/// subagent with `chat_claim`.
pub proof fn law_released_resource_can_be_claimed(
    b: BusView,
    owner: ChatClient,
    owner_session: Seq<char>,
    other: ChatClient,
    other_session: Seq<char>,
    arguments: JsonObject,
    resource: Seq<char>,
    now: Timestamp,
)
    requires
        arguments.string("resource"@) == Some(resource),
        bus::owns(b, client::agent_name_of(owner_session), resource),
    ensures
        ({
            let released = client::release_outcome(
                b,
                owner,
                owner_session,
                Some(arguments),
                now,
            );
            let claimed = client::claim_outcome(
                released.bus,
                other,
                other_session,
                Some(arguments),
                now,
            );
            &&& released.reply is Ok
            &&& !released.bus.claims.dom().contains(resource)
            &&& claimed.reply is Ok
            &&& bus::owns(claimed.bus, client::agent_name_of(other_session), resource)
        }),
{
}

/// `chat_release` by anyone else leaves the claims as they are.
pub proof fn law_claims_are_safe_from_others(
    b: BusView,
    other: ChatClient,
    other_session: Seq<char>,
    arguments: JsonObject,
    resource: Seq<char>,
    owner: Seq<char>,
    now: Timestamp,
)
    requires
        arguments.string("resource"@) == Some(resource),
        bus::owns(b, owner, resource),
        owner != client::agent_name_of(other_session),
    ensures
        ({
            let o = client::release_outcome(b, other, other_session, Some(arguments), now);
            &&& o.bus.claims == b.claims
            &&& o.reply == Ok::<Seq<char>, Seq<char>>(
                "Error: "@ + ("'"@ + resource + "' is claimed by '"@ + owner + "', not you"@),
            )
        }),
{
}

} // verus!
