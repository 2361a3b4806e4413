//! Which prompts are found, and under which names.
use crate::session::prompts;
use crate::session::prompts::{Prompt, PromptArgument, PromptInfo};
use crate::text;
use vstd::prelude::*;

verus! {

/// The names of prompts are theirs, in order.
pub proof fn law_names_of_prompts(list: Seq<Prompt>, i: int)
    requires
        0 <= i < list.len(),
    ensures
        prompts::prompt_names(list).len() == list.len(),
        prompts::prompt_names(list)[i] == list[i].name@,
{
}

/// What is walked of two lists of extensions, one behind the other, is what is walked of
/// the one and then of the other.
pub proof fn law_walk_of_extensions_together(
    a: Seq<(String, Vec<Prompt>)>,
    b: Seq<(String, Vec<Prompt>)>,
)
    ensures
        prompts::listing(a + b) == prompts::listing(a) + prompts::listing(b),
    decreases b.len(),
{
    if b.len() == 0 {
        assert(a + b =~= a);
        assert(prompts::listing(a) + prompts::listing(b) =~= prompts::listing(a));
    } else {
        law_walk_of_extensions_together(a, b.drop_last());
        assert((a + b).drop_last() =~= a + b.drop_last());
        assert((a + b).last() == b.last());
        assert(prompts::listing(a + b) =~= prompts::listing(a) + prompts::listing(b));
    }
}

/// Of one extension every prompt is walked, in order, each with the extension's name.
pub proof fn law_walk_of_one_extension(e: (String, Vec<Prompt>), i: int)
    requires
        0 <= i < e.1@.len(),
    ensures
        prompts::listing(seq![e]).len() == e.1@.len(),
        prompts::listing(seq![e])[i].0 == e.0@,
        prompts::listing(seq![e])[i].1 == e.1@[i],
{
    assert(seq![e].drop_last() =~= seq![]);
    assert(prompts::listing(seq![]) =~= seq![]);
    assert(seq![e].last() == e);
    assert(prompts::listing(seq![e]) =~= prompts::tagged(e.0@, e.1@));
}

/// An extension without prompts adds nothing to the walk.
pub proof fn law_walk_of_an_empty_extension(e: (String, Vec<Prompt>))
    requires
        e.1@.len() == 0,
    ensures
        prompts::listing(seq![e]).len() == 0,
{
    assert(seq![e].drop_last() =~= seq![]);
    assert(prompts::listing(seq![]) =~= seq![]);
    assert(seq![e].last() == e);
}

/// The first prompt of a name is the one at the first place with that name; without such
/// a place there is none.
pub proof fn law_first_of_a_name(list: Seq<(Seq<char>, Prompt)>, name: Seq<char>, i: int)
    requires
        0 <= i <= list.len(),
        forall|k: int| 0 <= k < i ==> #[trigger] list[k].1.name@ != name,
        i < list.len() ==> list[i].1.name@ == name,
    ensures
        i == list.len() ==> prompts::first_named(list, name) is None,
        i < list.len() ==> prompts::first_named(list, name) == Some(list[i]),
    decreases list.len(),
{
    if i > 0 {
        let rest = list.drop_first();
        assert(list[0].1.name@ != name);
        assert forall|k: int| 0 <= k < i - 1 implies #[trigger] rest[k].1.name@ != name by {
            assert(rest[k] == list[k + 1]);
        }
        law_first_of_a_name(rest, name, i - 1);
    }
}

/// The last prompt of a name is the one at the last place with that name; without such a
/// place there is none.
pub proof fn law_last_of_a_name(list: Seq<(Seq<char>, Prompt)>, name: Seq<char>, i: int)
    requires
        -1 <= i < list.len(),
        forall|k: int| i < k < list.len() ==> #[trigger] list[k].1.name@ != name,
        i >= 0 ==> list[i].1.name@ == name,
    ensures
        i < 0 ==> prompts::last_named(list, name) is None,
        i >= 0 ==> prompts::last_named(list, name) == Some(list[i]),
    decreases list.len(),
{
    if list.len() > 0 && i < list.len() - 1 {
        let rest = list.drop_last();
        assert(list[list.len() - 1].1.name@ != name);
        assert forall|k: int| i < k < rest.len() implies #[trigger] rest[k].1.name@ != name by {
            assert(rest[k] == list[k]);
        }
        law_last_of_a_name(rest, name, i);
    }
}

/// A description gives the prompt's name, its description, its arguments and the
/// extension that offers it.
pub proof fn law_descriptions(info: PromptInfo, extension: Seq<char>, prompt: Prompt)
    requires
        prompts::describes(info, extension, prompt),
    ensures
        info.name@ == prompt.name@,
        info.description == prompt.description,
        info.arguments is Some <==> prompt.arguments is Some,
        info.arguments is Some ==> info.arguments->0@ == prompt.arguments->0@,
        info.extension is Some,
        info.extension->0@ == extension,
{
}

/// Two lists of arguments are the same if both hold the same arguments in order, or if
/// both are missing.
pub proof fn law_same_arguments(a: Option<Vec<PromptArgument>>, b: Option<Vec<PromptArgument>>)
    ensures
        prompts::same_arguments(a, b) <==> (a is Some <==> b is Some) && (a is Some ==> a->0@
            == b->0@),
{
}

/// A filter leaves the extension that it names, with its prompts, and no other; without a
/// filter all extensions are listed.
pub proof fn law_filtered_prompts(
    all: Map<Seq<char>, Vec<Prompt>>,
    filter: Option<Seq<char>>,
    extension: Seq<char>,
)
    ensures
        ({
            let listed = prompts::listed_prompts(all, filter);
            &&& listed.dom().contains(extension) <==> all.dom().contains(extension) && (filter
                is None || filter->0 == extension)
            &&& listed.dom().contains(extension) ==> listed[extension] == all[extension]
        }),
{
}

/// Under each extension stand the names of its prompts, in order, and under nothing else.
pub proof fn law_names_under_extensions(
    names: Map<Seq<char>, Vec<String>>,
    all: Map<Seq<char>, Vec<Prompt>>,
    extension: Seq<char>,
)
    requires
        prompts::names_by_extension(names, all),
    ensures
        names.dom().contains(extension) <==> all.dom().contains(extension),
        all.dom().contains(extension) ==> {
            &&& names[extension]@.len() == all[extension]@.len()
            &&& forall|i: int|
                0 <= i < all[extension]@.len() ==> (#[trigger] names[extension]@[i])@
                    == all[extension]@[i].name@
        },
{
    if all.dom().contains(extension) {
        let texts = text::texts(names[extension]@);
        assert(texts == prompts::prompt_names(all[extension]@));
        assert(texts.len() == names[extension]@.len());
        assert forall|i: int| 0 <= i < all[extension]@.len() implies (
        #[trigger] names[extension]@[i])@ == all[extension]@[i].name@ by {
            assert(texts[i] == names[extension]@[i]@);
        }
    }
}

/// Completion knows, of two prompts of one name, the one that is walked last, and of the
/// others each; it knows no name that no prompt has.
pub proof fn law_descriptions_under_names(
    info: Map<Seq<char>, PromptInfo>,
    list: Seq<(Seq<char>, Prompt)>,
    name: Seq<char>,
    i: int,
)
    requires
        prompts::info_by_name(info, list),
        -1 <= i < list.len(),
        forall|k: int| i < k < list.len() ==> #[trigger] list[k].1.name@ != name,
        i >= 0 ==> list[i].1.name@ == name,
    ensures
        info.dom().contains(name) <==> i >= 0,
        i >= 0 ==> {
            &&& info[name].name@ == name
            &&& info[name].description == list[i].1.description
            &&& prompts::same_arguments(info[name].arguments, list[i].1.arguments)
            &&& info[name].extension is Some
            &&& info[name].extension->0@ == list[i].0
        },
{
    law_last_of_a_name(list, name, i);
    assert(prompts::info_of_name(info, list, name));
}

} // verus!
