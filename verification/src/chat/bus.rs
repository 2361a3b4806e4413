//! The message bus: messages, registered agents and claimed resources.
use crate::string_map::StringMap;
use crate::text;
use crate::time;
use crate::time::Timestamp;
use vstd::prelude::*;

verus! {

/// A message on the bus.
pub struct ChatMessage {
    pub id: u64,
    pub from: String,
    pub to: String,
    pub content: String,
    pub timestamp: Timestamp,
}

/// A message as contracts speak of it.
#[verifier::ext_equal]
pub struct MessageView {
    pub id: u64,
    pub from: Seq<char>,
    pub to: Seq<char>,
    pub content: Seq<char>,
    pub timestamp: Timestamp,
}

impl View for ChatMessage {
    type V = MessageView;

    open spec fn view(&self) -> MessageView {
        MessageView {
            id: self.id,
            from: self.from@,
            to: self.to@,
            content: self.content@,
            timestamp: self.timestamp,
        }
    }
}

impl ChatMessage {
    /// A copy of the message.
    pub fn copy(&self) -> (r: ChatMessage)
        ensures
            r@ == self@,
    {
        ChatMessage {
            id: self.id,
            from: self.from.clone(),
            to: self.to.clone(),
            content: self.content.clone(),
            timestamp: self.timestamp,
        }
    }
}

/// The messages of a list, as contracts speak of them.
pub open spec fn message_views(v: Seq<ChatMessage>) -> Seq<MessageView> {
    v.map_values(|m: ChatMessage| m@)
}

/// The texts of a map's values.
pub open spec fn text_map(m: Map<Seq<char>, String>) -> Map<Seq<char>, Seq<char>> {
    m.map_values(|s: String| s@)
}

/// The bus shared by all subagents.
pub struct ChatBus {
    pub messages: Vec<ChatMessage>,
    pub agents: StringMap<String>,
    pub claims: StringMap<String>,
    pub next_id: u64,
    pub transcript_path: Option<String>,
    pub transcript_started: bool,
}

/// The bus as contracts speak of it: the messages in the order sent, the
/// description of each agent, the owner of each claimed resource, the
/// transcript's path, and whether the transcript has its heading.
#[verifier::ext_equal]
pub struct BusView {
    pub messages: Seq<MessageView>,
    pub agents: Map<Seq<char>, Seq<char>>,
    pub claims: Map<Seq<char>, Seq<char>>,
    pub transcript_path: Option<Seq<char>>,
    pub transcript_started: bool,
}

impl View for ChatBus {
    type V = BusView;

    open spec fn view(&self) -> BusView {
        BusView {
            messages: message_views(self.messages@),
            agents: text_map(self.agents@),
            claims: text_map(self.claims@),
            transcript_path: match self.transcript_path {
                Some(p) => Some(p@),
                None => None,
            },
            transcript_started: self.transcript_started,
        }
    }
}

/// A message can be read by an agent: it is addressed to the agent or to all.
pub open spec fn addressed_to(m: MessageView, agent: Seq<char>) -> bool {
    m.to == agent || m.to == "all"@
}

/// The messages for an agent with numbers above `since`, in the order sent.
pub open spec fn readable(messages: Seq<MessageView>, agent: Seq<char>, since: u64) -> Seq<
    MessageView,
> {
    messages.filter(|m: MessageView| m.id > since && addressed_to(m, agent))
}

/// What is written to the transcript file.
pub enum TranscriptWrite {
    /// Create the file, or empty it, and write the text.
    Create(String),
    /// Append the text.
    Append(String),
}

/// A write as contracts speak of it: whether the file starts anew, and the text.
pub open spec fn write_view(w: TranscriptWrite) -> (bool, Seq<char>) {
    match w {
        TranscriptWrite::Create(t) => (true, t@),
        TranscriptWrite::Append(t) => (false, t@),
    }
}

/// The writes of a list.
pub open spec fn write_views(v: Seq<TranscriptWrite>) -> Seq<(bool, Seq<char>)> {
    v.map_values(|w: TranscriptWrite| write_view(w))
}

/// The heading of a transcript that starts at a point in time.
pub open spec fn transcript_heading(now: Timestamp) -> Seq<char> {
    "# Chat Transcript\n\n_Started: "@ + time::utc_format(
        now.unix_secs(),
        now.subsec_nanos(),
        time::stamp_pattern(),
    ) + "_\n\n"@
}

/// The transcript's entry for a message.
pub open spec fn transcript_entry(m: MessageView) -> Seq<char> {
    "**["@ + m.from + "]** _"@ + time::utc_format(
        m.timestamp.unix_secs(),
        m.timestamp.subsec_nanos(),
        time::clock_pattern(),
    ) + "_\n"@ + m.content + "\n\n"@
}

/// The writes a message causes: none without a path, else its entry, after the
/// heading where the transcript has none yet.
pub open spec fn transcript_writes(bus: BusView, m: MessageView) -> Seq<(bool, Seq<char>)> {
    if bus.transcript_path is None {
        seq![]
    } else if bus.transcript_started {
        seq![(false, transcript_entry(m))]
    } else {
        seq![(true, transcript_heading(m.timestamp)), (false, transcript_entry(m))]
    }
}

/// The bus after a message was sent.
pub open spec fn after_send(bus: BusView, m: MessageView) -> BusView {
    BusView {
        messages: bus.messages.push(m),
        transcript_started: bus.transcript_started || bus.transcript_path is Some,
        ..bus
    }
}

/// The message that is sent next.
pub open spec fn next_message(
    bus: BusView,
    from: Seq<char>,
    to: Seq<char>,
    content: Seq<char>,
    now: Timestamp,
) -> MessageView {
    MessageView { id: (bus.messages.len() + 1) as u64, from, to, content, timestamp: now }
}

/// The bus after an agent registered; a registered agent keeps its description.
pub open spec fn after_register(bus: BusView, name: Seq<char>, description: Seq<char>) -> BusView {
    if bus.agents.dom().contains(name) {
        bus
    } else {
        BusView { agents: bus.agents.insert(name, description), ..bus }
    }
}

/// The bus after a claim was asked for; a claimed resource keeps its owner.
pub open spec fn after_claim(bus: BusView, resource: Seq<char>, agent: Seq<char>) -> BusView {
    if bus.claims.dom().contains(resource) {
        bus
    } else {
        BusView { claims: bus.claims.insert(resource, agent), ..bus }
    }
}

/// The agent owns the resource.
pub open spec fn owns(bus: BusView, agent: Seq<char>, resource: Seq<char>) -> bool {
    bus.claims.dom().contains(resource) && bus.claims[resource] == agent
}

/// The bus after a release was asked for; only the owner releases a resource.
pub open spec fn after_release(bus: BusView, resource: Seq<char>, agent: Seq<char>) -> BusView {
    if owns(bus, agent, resource) {
        BusView { claims: bus.claims.remove(resource), ..bus }
    } else {
        bus
    }
}

/// Why a release is refused.
pub open spec fn release_refusal(bus: BusView, resource: Seq<char>) -> Seq<char> {
    if bus.claims.dom().contains(resource) {
        "'"@ + resource + "' is claimed by '"@ + bus.claims[resource] + "', not you"@
    } else {
        "'"@ + resource + "' is not claimed"@
    }
}

/// The bus after a path for the transcript was offered; the first one stays.
pub open spec fn after_path(bus: BusView, path: Seq<char>) -> BusView {
    if bus.transcript_path is None {
        BusView { transcript_path: Some(path), ..bus }
    } else {
        bus
    }
}

/// The text of a heading.
fn heading_text(now: Timestamp) -> (r: String)
    ensures
        r@ == transcript_heading(now),
{
    let mut s = "# Chat Transcript\n\n_Started: ".to_owned();
    s.append(now.stamp_text().as_str());
    s.append("_\n\n");
    s
}

/// The text of an entry.
fn entry_text(m: &ChatMessage) -> (r: String)
    ensures
        r@ == transcript_entry(m@),
{
    let mut s = "**[".to_owned();
    s.append(m.from.as_str());
    s.append("]** _");
    s.append(m.timestamp.clock_text().as_str());
    s.append("_\n");
    s.append(m.content.as_str());
    s.append("\n\n");
    s
}

impl ChatBus {
    /// The messages are numbered from one in the order sent, and the maps bind
    /// every key once.
    pub open spec fn wf(&self) -> bool {
        &&& self.agents.wf()
        &&& self.claims.wf()
        &&& self.next_id as int == (self.messages@.len() + 1) % 0x1_0000_0000_0000_0000
        &&& forall|i: int| 0 <= i < self.messages@.len() ==> (#[trigger] self.messages@[i]).id == i + 1
    }

    /// The empty bus.
    pub fn new() -> (r: ChatBus)
        ensures
            r.wf(),
            r@ == (BusView {
                messages: seq![],
                agents: Map::empty(),
                claims: Map::empty(),
                transcript_path: None,
                transcript_started: false,
            }),
    {
        let r = ChatBus {
            messages: Vec::new(),
            agents: StringMap::new(),
            claims: StringMap::new(),
            next_id: 1,
            transcript_path: None,
            transcript_started: false,
        };
        assert(text_map(r.agents@) =~= Map::<Seq<char>, Seq<char>>::empty());
        assert(text_map(r.claims@) =~= Map::<Seq<char>, Seq<char>>::empty());
        assert(message_views(r.messages@) =~= Seq::<MessageView>::empty());
        r
    }

    /// Sets the transcript's path unless it is set.
    pub fn set_transcript_path(&mut self, path: String)
        requires
            old(self).wf(),
        ensures
            final(self).wf(),
            final(self)@ == after_path(old(self)@, path@),
    {
        if self.transcript_path.is_none() {
            self.transcript_path = Some(path);
        }
    }

    /// Registers an agent; a second registration changes nothing.
    pub fn register_agent(&mut self, name: String, description: String)
        requires
            old(self).wf(),
        ensures
            final(self).wf(),
            final(self)@ == after_register(old(self)@, name@, description@),
    {
        self.agents.insert_absent(name, description);
        assert(self@.agents =~= after_register(old(self)@, name@, description@).agents);
    }

    /// Sends a message at the given time. The message comes back with what is
    /// to be written to the transcript.
    pub fn send_message(
        &mut self,
        from: String,
        to: String,
        content: String,
        now: Timestamp,
    ) -> (r: (ChatMessage, Vec<TranscriptWrite>))
        requires
            old(self).wf(),
        ensures
            final(self).wf(),
            r.0@ == next_message(old(self)@, from@, to@, content@, now),
            final(self)@ == after_send(old(self)@, r.0@),
            write_views(r.1@) == transcript_writes(old(self)@, r.0@),
    {
        let ghost before = *self;
        let msg = ChatMessage { id: self.next_id, from, to, content, timestamp: now };
        let copy = msg.copy();
        self.next_id = self.next_id.wrapping_add(1);
        self.messages.push(msg);
        let count: usize = self.messages.len();
        proof {
            assert(count == before.messages@.len() + 1);
            assert(before.next_id == count);
            assert forall|i: int| 0 <= i < self.messages@.len() implies (
            #[trigger] self.messages@[i]).id == i + 1 by {
                if i < before.messages@.len() {
                    assert(self.messages@[i] == before.messages@[i]);
                }
            }
            assert(message_views(self.messages@) =~= message_views(before.messages@).push(copy@));
        }
        let mut writes: Vec<TranscriptWrite> = Vec::new();
        if self.transcript_path.is_some() {
            if !self.transcript_started {
                self.transcript_started = true;
                writes.push(TranscriptWrite::Create(heading_text(now)));
            }
            writes.push(TranscriptWrite::Append(entry_text(&copy)));
        }
        assert(write_views(writes@) =~= transcript_writes(before@, copy@));
        (copy, writes)
    }

    /// The messages for an agent with numbers above `since_id`.
    pub fn read_messages(&self, for_agent: &str, since_id: u64) -> (r: Vec<ChatMessage>)
        ensures
            message_views(r@) == readable(self@.messages, for_agent@, since_id),
    {
        let mut out: Vec<ChatMessage> = Vec::new();
        let ghost wanted = |m: MessageView| m.id > since_id && addressed_to(m, for_agent@);
        let ghost all = self@.messages;
        let mut i: usize = 0;
        assert(all.take(0).filter(wanted) =~= Seq::<MessageView>::empty()) by {
            reveal(Seq::filter);
        }
        assert(message_views(out@) =~= Seq::<MessageView>::empty());
        while i < self.messages.len()
            invariant
                i <= self.messages@.len(),
                all == self@.messages,
                wanted == (|m: MessageView| m.id > since_id && addressed_to(m, for_agent@)),
                message_views(out@) == all.take(i as int).filter(wanted),
            decreases self.messages@.len() - i,
        {
            let m = &self.messages[i];
            let ghost before = message_views(out@);
            proof {
                reveal(Seq::filter);
                assert(all.take(i as int + 1).drop_last() == all.take(i as int));
                assert(all.take(i as int + 1).last() == m@);
            }
            if m.id > since_id && (text::same(m.to.as_str(), for_agent) || text::same(
                m.to.as_str(),
                "all",
            )) {
                let c = m.copy();
                out.push(c);
                assert(message_views(out@) =~= before.push(m@));
            }
            i += 1;
        }
        assert(all.take(all.len() as int) == all);
        out
    }

    /// Claims a resource for an agent. The first claim wins; a later one gets
    /// the owner's name.
    pub fn claim(&mut self, resource: String, agent: String) -> (r: Result<(), String>)
        requires
            old(self).wf(),
        ensures
            final(self).wf(),
            final(self)@ == after_claim(old(self)@, resource@, agent@),
            r is Ok <==> !old(self)@.claims.dom().contains(resource@),
            r matches Err(owner) ==> owner@ == old(self)@.claims[resource@],
    {
        if let Some(owner) = self.claims.get(resource.as_str()) {
            return Err(owner.clone());
        }
        self.claims.insert(resource, agent);
        assert(self@.claims =~= old(self)@.claims.insert(resource@, agent@));
        Ok(())
    }

    /// Releases a resource. Only its owner can.
    pub fn release(&mut self, resource: &str, agent: &str) -> (r: Result<(), String>)
        requires
            old(self).wf(),
        ensures
            final(self).wf(),
            final(self)@ == after_release(old(self)@, resource@, agent@),
            r is Ok <==> owns(old(self)@, agent@, resource@),
            r matches Err(why) ==> why@ == release_refusal(old(self)@, resource@),
    {
        if let Some(owner) = self.claims.get(resource) {
            if !text::same(owner.as_str(), agent) {
                let mut why = "'".to_owned();
                why.append(resource);
                why.append("' is claimed by '");
                why.append(owner.as_str());
                why.append("', not you");
                return Err(why);
            }
        } else {
            let mut why = "'".to_owned();
            why.append(resource);
            why.append("' is not claimed");
            return Err(why);
        }
        self.claims.remove(resource);
        assert(self@.claims =~= old(self)@.claims.remove(resource@));
        Ok(())
    }

    /// The registered agents with their descriptions: each agent once, in the
    /// order of registration.
    pub fn list_agents(&self) -> (r: Vec<(String, String)>)
        requires
            self.wf(),
        ensures
            forall|i: int|
                0 <= i < r@.len() ==> self@.agents.dom().contains((#[trigger] r@[i]).0@)
                    && self@.agents[r@[i].0@] == r@[i].1@,
            forall|name: Seq<char>|
                #[trigger] self@.agents.dom().contains(name) ==> exists|i: int|
                    0 <= i < r@.len() && (#[trigger] r@[i]).0@ == name,
            forall|i: int, j: int|
                0 <= i < j < r@.len() ==> (#[trigger] r@[i]).0@ != (#[trigger] r@[j]).0@,
            r@.len() == self.agents.entries@.len(),
            forall|i: int|
                0 <= i < r@.len() ==> (#[trigger] r@[i]).0@ == self.agents.entries@[i].0@
                    && r@[i].1@ == self.agents.entries@[i].1@,
    {
        let mut out: Vec<(String, String)> = Vec::new();
        let mut i: usize = 0;
        while i < self.agents.entries.len()
            invariant
                i <= self.agents.entries@.len(),
                out@.len() == i,
                forall|k: int|
                    0 <= k < i ==> (#[trigger] out@[k]).0@ == self.agents.entries@[k].0@
                        && out@[k].1@ == self.agents.entries@[k].1@,
            decreases self.agents.entries@.len() - i,
        {
            out.push((self.agents.entries[i].0.clone(), self.agents.entries[i].1.clone()));
            i += 1;
        }
        proof {
            assert forall|k: int| 0 <= k < out@.len() implies self@.agents.dom().contains(
                (#[trigger] out@[k]).0@,
            ) && self@.agents[out@[k].0@] == out@[k].1@ by {
                self.agents.lemma_entry(k);
            }
            assert forall|name: Seq<char>| #[trigger]
                self@.agents.dom().contains(name) implies exists|k: int|
                0 <= k < out@.len() && (#[trigger] out@[k]).0@ == name by {
                let k = self.agents.lemma_key(name);
                assert(out@[k].0@ == name);
            }
        }
        out
    }
}

} // verus!
