//! The prompts that extensions offer, and the cache that completion reads.
use crate::session::state::CliSession;
use crate::string_map::StringMap;
use crate::text;
use crate::time::Elapsed;
use vstd::prelude::*;

verus! {

/// An argument of a prompt.
pub struct PromptArgument {
    pub name: String,
    pub description: Option<String>,
    pub required: Option<bool>,
}

/// A prompt, as an extension describes it.
pub struct Prompt {
    pub name: String,
    pub description: Option<String>,
    pub arguments: Option<Vec<PromptArgument>>,
}

/// A prompt together with the extension that offers it.
pub struct PromptInfo {
    pub name: String,
    pub description: Option<String>,
    pub arguments: Option<Vec<PromptArgument>>,
    pub extension: Option<String>,
}

/// What the line editor hints at.
#[derive(Debug, Clone, Copy, PartialEq, Eq, Structural)]
pub enum HintStatus {
    Default,
    Interrupted,
    MaybeExit,
}

/// What completion knows of the prompts. The time of the last update counts from
/// the start of the program.
pub struct CompletionCache {
    pub prompts: StringMap<Vec<String>>,
    pub prompt_info: StringMap<PromptInfo>,
    pub last_updated: Elapsed,
    pub hint_status: HintStatus,
}

// Models.

/// Two lists of arguments are the same.
pub open spec fn same_arguments(
    a: Option<Vec<PromptArgument>>,
    b: Option<Vec<PromptArgument>>,
) -> bool {
    match (a, b) {
        (Some(x), Some(y)) => x@ == y@,
        (None, None) => true,
        _ => false,
    }
}

/// The description is that of a prompt of an extension.
pub open spec fn describes(info: PromptInfo, extension: Seq<char>, prompt: Prompt) -> bool {
    &&& info.name == prompt.name
    &&& info.description == prompt.description
    &&& same_arguments(info.arguments, prompt.arguments)
    &&& info.extension matches Some(e)
    &&& e@ == extension
}

/// The names of prompts, in order.
pub open spec fn prompt_names(prompts: Seq<Prompt>) -> Seq<Seq<char>> {
    prompts.map_values(|p: Prompt| p.name@)
}

/// The prompts of one extension, each with the extension's name.
pub open spec fn tagged(extension: Seq<char>, prompts: Seq<Prompt>) -> Seq<(Seq<char>, Prompt)> {
    prompts.map_values(|p: Prompt| (extension, p))
}

/// All prompts in the order in which the extensions are walked.
pub open spec fn listing(entries: Seq<(String, Vec<Prompt>)>) -> Seq<(Seq<char>, Prompt)>
    decreases entries.len(),
{
    if entries.len() == 0 {
        seq![]
    } else {
        listing(entries.drop_last()) + tagged(entries.last().0@, entries.last().1@)
    }
}

/// The last prompt of a name.
pub open spec fn last_named(list: Seq<(Seq<char>, Prompt)>, name: Seq<char>) -> Option<
    (Seq<char>, Prompt),
>
    decreases list.len(),
{
    if list.len() == 0 {
        None
    } else if list.last().1.name@ == name {
        Some(list.last())
    } else {
        last_named(list.drop_last(), name)
    }
}

/// The first prompt of a name.
pub open spec fn first_named(list: Seq<(Seq<char>, Prompt)>, name: Seq<char>) -> Option<
    (Seq<char>, Prompt),
>
    decreases list.len(),
{
    if list.len() == 0 {
        None
    } else if list[0].1.name@ == name {
        Some(list[0])
    } else {
        first_named(list.drop_first(), name)
    }
}

/// The map holds, for each extension, the names of its prompts.
pub open spec fn names_by_extension(
    names: Map<Seq<char>, Vec<String>>,
    prompts: Map<Seq<char>, Vec<Prompt>>,
) -> bool {
    &&& names.dom() =~= prompts.dom()
    &&& forall|e: Seq<char>| #[trigger]
        prompts.dom().contains(e) ==> text::texts(names[e]@) == prompt_names(prompts[e]@)
}

/// The map holds, for a name in a list, the last prompt of that name.
pub open spec fn info_of_name(
    info: Map<Seq<char>, PromptInfo>,
    list: Seq<(Seq<char>, Prompt)>,
    name: Seq<char>,
) -> bool {
    match last_named(list, name) {
        Some((extension, prompt)) => info.dom().contains(name) && describes(
            info[name],
            extension,
            prompt,
        ),
        None => !info.dom().contains(name),
    }
}

/// The map holds, for each name in a list, the last prompt of that name.
pub open spec fn info_by_name(
    info: Map<Seq<char>, PromptInfo>,
    list: Seq<(Seq<char>, Prompt)>,
) -> bool {
    forall|n: Seq<char>| #[trigger] info_of_name(info, list, n)
}

// Copies.

fn copy_argument(a: &PromptArgument) -> (r: PromptArgument)
    ensures
        r == *a,
{
    PromptArgument {
        name: a.name.clone(),
        description: text::copy_option(&a.description),
        required: a.required,
    }
}

fn copy_arguments(a: &Option<Vec<PromptArgument>>) -> (r: Option<Vec<PromptArgument>>)
    ensures
        same_arguments(r, *a),
{
    match a {
        None => None,
        Some(list) => {
            let mut out: Vec<PromptArgument> = Vec::new();
            let mut i: usize = 0;
            while i < list.len()
                invariant
                    i <= list@.len(),
                    out@ == list@.take(i as int),
                decreases list@.len() - i,
            {
                out.push(copy_argument(&list[i]));
                i += 1;
                assert(out@ =~= list@.take(i as int));
            }
            assert(out@ =~= list@);
            Some(out)
        },
    }
}

fn describe(extension: &str, prompt: &Prompt) -> (r: PromptInfo)
    ensures
        describes(r, extension@, *prompt),
{
    PromptInfo {
        name: prompt.name.clone(),
        description: text::copy_option(&prompt.description),
        arguments: copy_arguments(&prompt.arguments),
        extension: Some(extension.to_owned()),
    }
}

fn names_of(prompts: &Vec<Prompt>) -> (r: Vec<String>)
    ensures
        text::texts(r@) == prompt_names(prompts@),
{
    let mut out: Vec<String> = Vec::new();
    let mut i: usize = 0;
    while i < prompts.len()
        invariant
            i <= prompts@.len(),
            text::texts(out@) == prompt_names(prompts@.take(i as int)),
        decreases prompts@.len() - i,
    {
        let ghost before = out@;
        out.push(prompts[i].name.clone());
        assert(text::texts(out@) =~= text::texts(before).push(prompts@[i as int].name@));
        assert(prompt_names(prompts@.take(i as int + 1)) =~= prompt_names(
            prompts@.take(i as int),
        ).push(prompts@[i as int].name@));
        i += 1;
    }
    assert(prompts@.take(i as int) =~= prompts@);
    out
}

// Queries.

/// The prompts by extension, of one extension only if a filter asks for it.
pub open spec fn listed_prompts(
    prompts: Map<Seq<char>, Vec<Prompt>>,
    filter: Option<Seq<char>>,
) -> Map<Seq<char>, Vec<Prompt>> {
    match filter {
        Some(f) => prompts.restrict(set![f]),
        None => prompts,
    }
}

impl CliSession {
    /// The names of the prompts by extension. A filter names the only extension of
    /// interest; it is an error if that extension offers nothing.
    pub fn list_prompts(prompts: &StringMap<Vec<Prompt>>, extension: Option<&str>) -> (r: Result<
        StringMap<Vec<String>>,
        String,
    >)
        requires
            prompts.wf(),
        ensures
            match r {
                Ok(names) => {
                    &&& extension is Some ==> prompts@.dom().contains(extension->0@)
                    &&& names.wf()
                    &&& names_by_extension(
                        names@,
                        listed_prompts(
                            prompts@,
                            match extension {
                                Some(f) => Some(f@),
                                None => None,
                            },
                        ),
                    )
                },
                Err(why) => {
                    &&& extension is Some
                    &&& !prompts@.dom().contains(extension->0@)
                    &&& why@ == "Extension '"@ + extension->0@ + "' not found"@
                },
            },
    {
        match extension {
            Some(f) => {
                match prompts.get(f) {
                    Some(list) => {
                        let mut out: StringMap<Vec<String>> = StringMap::new();
                        out.insert(f.to_owned(), names_of(list));
                        Ok(out)
                    },
                    None => {
                        let mut why = String::from_str("Extension '");
                        why.append(f);
                        why.append("' not found");
                        Err(why)
                    },
                }
            },
            None => Ok(all_names(prompts)),
        }
    }
}

fn all_names(prompts: &StringMap<Vec<Prompt>>) -> (out: StringMap<Vec<String>>)
    requires
        prompts.wf(),
    ensures
        out.wf(),
        names_by_extension(out@, prompts@),
{
    let mut out: StringMap<Vec<String>> = StringMap::new();
    let entries = &prompts.entries;
    let mut i: usize = 0;
    while i < entries.len()
        invariant
            entries == &prompts.entries,
            prompts.wf(),
            i <= entries@.len(),
            out.wf(),
            forall|e: Seq<char>| #[trigger]
                out@.dom().contains(e) ==> prompts@.dom().contains(e) && text::texts(out@[e]@)
                    == prompt_names(prompts@[e]@),
            forall|k: int|
                0 <= k < i ==> out@.dom().contains(#[trigger] entries@[k].0@),
        decreases entries@.len() - i,
    {
        proof {
            prompts.lemma_entry(i as int);
        }
        out.insert(entries[i].0.clone(), names_of(&entries[i].1));
        i += 1;
    }
    assert forall|e: Seq<char>| #[trigger] prompts@.dom().contains(e) implies out@.dom().contains(
        e,
    ) by {
        let k = prompts.lemma_key(e);
        assert(entries@[k].0@ == e);
    }
    out
}

proof fn lemma_first_in_parts(a: Seq<(Seq<char>, Prompt)>, b: Seq<(Seq<char>, Prompt)>, n: Seq<char>)
    ensures
        first_named(a + b, n) == match first_named(a, n) {
            Some(p) => Some(p),
            None => first_named(b, n),
        },
    decreases a.len(),
{
    if a.len() == 0 {
        assert(a + b =~= b);
    } else {
        assert((a + b).drop_first() =~= a.drop_first() + b);
        lemma_first_in_parts(a.drop_first(), b, n);
    }
}

proof fn lemma_first_of_list(extension: Seq<char>, prompts: Seq<Prompt>, i: int, n: Seq<char>)
    requires
        0 <= i <= prompts.len(),
        forall|k: int| 0 <= k < i ==> #[trigger] prompts[k].name@ != n,
        i < prompts.len() ==> prompts[i].name@ == n,
    ensures
        first_named(tagged(extension, prompts), n) == if i < prompts.len() {
            Some((extension, prompts[i]))
        } else {
            None
        },
    decreases prompts.len(),
{
    let list = tagged(extension, prompts);
    if prompts.len() > 0 && i > 0 {
        assert(prompts[0].name@ != n);
        assert(list.drop_first() =~= tagged(extension, prompts.drop_first()));
        assert forall|k: int| 0 <= k < i - 1 implies #[trigger] prompts.drop_first()[k].name@
            != n by {
            assert(prompts[k + 1].name@ != n);
        }
        lemma_first_of_list(extension, prompts.drop_first(), i - 1, n);
    }
}

fn position_of(prompts: &Vec<Prompt>, name: &str) -> (i: usize)
    ensures
        i <= prompts@.len(),
        forall|k: int| 0 <= k < i ==> #[trigger] prompts@[k].name@ != name@,
        i < prompts@.len() ==> prompts@[i as int].name@ == name@,
{
    let mut i: usize = 0;
    while i < prompts.len()
        invariant
            i <= prompts@.len(),
            forall|k: int| 0 <= k < i ==> #[trigger] prompts@[k].name@ != name@,
        decreases prompts@.len() - i,
    {
        if text::same(prompts[i].name.as_str(), name) {
            return i;
        }
        i += 1;
    }
    i
}

impl CliSession {
    /// The description of the first prompt of a name, in the order in which the
    /// extensions are walked.
    pub fn get_prompt_info(prompts: &StringMap<Vec<Prompt>>, name: &str) -> (r: Option<PromptInfo>)
        ensures
            match first_named(listing(prompts.entries@), name@) {
                Some((extension, prompt)) => r is Some && describes(r->0, extension, prompt),
                None => r is None,
            },
    {
        let entries = &prompts.entries;
        let mut i: usize = 0;
        while i < entries.len()
            invariant
                entries == &prompts.entries,
                i <= entries@.len(),
                first_named(listing(entries@.take(i as int)), name@) is None,
            decreases entries@.len() - i,
        {
            let list = &entries[i].1;
            let k: usize = position_of(list, name);
            proof {
                let now = entries@.take(i as int + 1);
                assert(now.drop_last() =~= entries@.take(i as int));
                lemma_first_in_parts(
                    listing(entries@.take(i as int)),
                    tagged(entries@[i as int].0@, list@),
                    name@,
                );
                lemma_first_of_list(entries@[i as int].0@, list@, k as int, name@);
                lemma_rest(entries@, i as int + 1, name@);
            }
            if k < list.len() {
                return Some(describe(entries[i].0.as_str(), &list[k]));
            }
            i += 1;
        }
        assert(entries@.take(i as int) =~= entries@);
        None
    }
}

proof fn lemma_rest(entries: Seq<(String, Vec<Prompt>)>, i: int, n: Seq<char>)
    requires
        0 <= i <= entries.len(),
    ensures
        first_named(listing(entries.take(i)), n) is Some ==> first_named(listing(entries), n)
            == first_named(listing(entries.take(i)), n),
    decreases entries.len() - i,
{
    if i == entries.len() {
        assert(entries.take(i) =~= entries);
    } else {
        lemma_rest(entries, i + 1, n);
        assert(entries.take(i + 1).drop_last() =~= entries.take(i));
        lemma_first_in_parts(
            listing(entries.take(i)),
            tagged(entries[i].0@, entries[i].1@),
            n,
        );
    }
}

impl CompletionCache {
    /// The maps of the cache have no key twice.
    pub open spec fn wf(&self) -> bool {
        self.prompts.wf() && self.prompt_info.wf()
    }

    /// An empty cache.
    pub fn new(now: Elapsed) -> (r: CompletionCache)
        ensures
            r.wf(),
            r.prompts@ == Map::<Seq<char>, Vec<String>>::empty(),
            r.prompt_info@ == Map::<Seq<char>, PromptInfo>::empty(),
            r.last_updated == now,
            r.hint_status == HintStatus::Default,
    {
        CompletionCache {
            prompts: StringMap::new(),
            prompt_info: StringMap::new(),
            last_updated: now,
            hint_status: HintStatus::Default,
        }
    }

    /// Fills the cache with what the extensions offer. Of two prompts of one name
    /// the one walked last is kept.
    pub fn update(&mut self, prompts: &StringMap<Vec<Prompt>>, now: Elapsed)
        requires
            prompts.wf(),
        ensures
            final(self).wf(),
            names_by_extension(final(self).prompts@, prompts@),
            info_by_name(final(self).prompt_info@, listing(prompts.entries@)),
            final(self).last_updated == now,
            final(self).hint_status == old(self).hint_status,
    {
        let info = gather(prompts);
        self.prompts = all_names(prompts);
        self.prompt_info = info;
        self.last_updated = now;
    }

    /// Forgets all prompts.
    pub fn invalidate(&mut self, now: Elapsed)
        ensures
            final(self).wf(),
            final(self).prompts@ == Map::<Seq<char>, Vec<String>>::empty(),
            final(self).prompt_info@ == Map::<Seq<char>, PromptInfo>::empty(),
            final(self).last_updated == now,
            final(self).hint_status == old(self).hint_status,
    {
        self.prompts = StringMap::new();
        self.prompt_info = StringMap::new();
        self.last_updated = now;
    }
}

fn gather(prompts: &StringMap<Vec<Prompt>>) -> (out: StringMap<PromptInfo>)
    ensures
        out.wf(),
        info_by_name(out@, listing(prompts.entries@)),
{
    let mut out: StringMap<PromptInfo> = StringMap::new();
    let entries = &prompts.entries;
    let mut i: usize = 0;
    assert(listing(entries@.take(0)) =~= seq![]);
    while i < entries.len()
        invariant
            entries == &prompts.entries,
            i <= entries@.len(),
            out.wf(),
            info_by_name(out@, listing(entries@.take(i as int))),
        decreases entries@.len() - i,
    {
        let list = &entries[i].1;
        let ghost done = listing(entries@.take(i as int));
        let ghost tag = entries@[i as int].0@;
        let mut k: usize = 0;
        assert(done + tagged(tag, list@.take(0)) =~= done);
        while k < list.len()
            invariant
                i < entries@.len(),
                list == &entries@[i as int].1,
                tag == entries@[i as int].0@,
                k <= list@.len(),
                out.wf(),
                info_by_name(out@, done + tagged(tag, list@.take(k as int))),
            decreases list@.len() - k,
        {
            let ghost before = done + tagged(tag, list@.take(k as int));
            let ghost after = done + tagged(tag, list@.take(k as int + 1));
            assert(after =~= before.push((tag, list@[k as int])));
            assert(after.drop_last() =~= before);
            let ghost had = out@;
            out.insert(list[k].name.clone(), describe(entries[i].0.as_str(), &list[k]));
            assert forall|n: Seq<char>| #[trigger] info_of_name(out@, after, n) by {
                assert(info_of_name(had, before, n));
            }
            k += 1;
        }
        assert(list@.take(k as int) =~= list@);
        assert(entries@.take(i as int + 1).drop_last() =~= entries@.take(i as int));
        i += 1;
    }
    assert(entries@.take(i as int) =~= entries@);
    out
}

/// Every name that completion knows under an extension has a description, and
/// every description belongs to such a name.
pub proof fn law_cached_names_are_described(
    names: Map<Seq<char>, Vec<String>>,
    info: Map<Seq<char>, PromptInfo>,
    prompts: StringMap<Vec<Prompt>>,
    extension: Seq<char>,
    i: int,
)
    requires
        prompts.wf(),
        names_by_extension(names, prompts@),
        info_by_name(info, listing(prompts.entries@)),
        names.dom().contains(extension),
        0 <= i < names[extension]@.len(),
    ensures
        info.dom().contains(names[extension]@[i]@),
        info[names[extension]@[i]@].name@ == names[extension]@[i]@,
{
    let k = prompts.lemma_key(extension);
    let list = prompts@[extension]@;
    let n = names[extension]@[i]@;
    assert(text::texts(names[extension]@).len() == names[extension]@.len());
    assert(text::texts(names[extension]@)[i] == prompt_names(list)[i]);
    assert(list[i].name@ == n);
    lemma_listed(prompts.entries@, k, i);
    let all = listing(prompts.entries@);
    let j = choose|j: int| 0 <= j < all.len() && #[trigger] all[j].1.name@ == n;
    lemma_found(all, j);
    lemma_named(all, n);
    assert(info_of_name(info, all, n));
    let found = last_named(all, n)->0;
    assert(describes(info[n], found.0, found.1));
}

proof fn lemma_listed(entries: Seq<(String, Vec<Prompt>)>, k: int, i: int)
    requires
        0 <= k < entries.len(),
        0 <= i < entries[k].1@.len(),
    ensures
        exists|j: int|
            0 <= j < listing(entries).len() && #[trigger] listing(entries)[j].1.name@
                == entries[k].1@[i].name@,
    decreases entries.len(),
{
    let n = entries[k].1@[i].name@;
    let head = listing(entries.drop_last());
    let tail = tagged(entries.last().0@, entries.last().1@);
    if k == entries.len() - 1 {
        assert(tail[i].1.name@ == n);
        assert(listing(entries)[head.len() + i].1.name@ == n);
    } else {
        lemma_listed(entries.drop_last(), k, i);
        let j = choose|j: int| 0 <= j < head.len() && #[trigger] head[j].1.name@ == n;
        assert(listing(entries)[j].1.name@ == n);
    }
}

proof fn lemma_found(list: Seq<(Seq<char>, Prompt)>, j: int)
    requires
        0 <= j < list.len(),
    ensures
        last_named(list, list[j].1.name@) is Some,
    decreases list.len(),
{
    if list.last().1.name@ != list[j].1.name@ {
        lemma_found(list.drop_last(), j);
    }
}

proof fn lemma_named(list: Seq<(Seq<char>, Prompt)>, n: Seq<char>)
    ensures
        last_named(list, n) matches Some(found) ==> found.1.name@ == n,
    decreases list.len(),
{
    if list.len() > 0 && list.last().1.name@ != n {
        lemma_named(list.drop_last(), n);
    }
}

} // verus!
