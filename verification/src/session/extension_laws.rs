//! What the words of a command line make of an extension.
use crate::session::extension;
use crate::session::extension::{Command, ExtensionConfig, ExtensionDefaults, UrlParts};
use crate::text;
use crate::text_laws;
use vstd::prelude::*;

verus! {

// Settings of the environment.

/// Of two lists of settings, one behind the other, those of the second replace those of
/// the first, and the others stay.
pub proof fn law_settings_together(a: Seq<Seq<char>>, b: Seq<Seq<char>>, key: Seq<char>)
    ensures
        extension::settings(a + b).dom().contains(key) <==> extension::settings(a).dom().contains(
            key,
        ) || extension::settings(b).dom().contains(key),
        extension::settings(b).dom().contains(key) ==> extension::settings(a + b)[key]
            == extension::settings(b)[key],
        extension::settings(a).dom().contains(key) && !extension::settings(b).dom().contains(key)
            ==> extension::settings(a + b)[key] == extension::settings(a)[key],
    decreases b.len(),
{
    if b.len() == 0 {
        assert(a + b =~= a);
    } else {
        law_settings_together(a, b.drop_last(), key);
        assert((a + b).drop_last() =~= a + b.drop_last());
        assert((a + b).last() == b.last());
    }
}

/// One setting binds what stands before its first `=` to what stands behind it.
pub proof fn law_one_setting(key: Seq<char>, value: Seq<char>, other: Seq<char>)
    requires
        !key.contains('='),
    ensures
        ({
            let bound = extension::settings(seq![key + seq!['='] + value]);
            &&& bound.dom().contains(other) <==> other == key
            &&& bound[key] == value
        }),
{
    let w = key + seq!['='] + value;
    assert(w[key.len() as int] == '=');
    text_laws::law_first_char(w, '=');
    let k = text::first_char(w, '=');
    assert(k == key.len()) by {
        if k > key.len() {
            assert(w[key.len() as int] != '=');
        }
        if k < key.len() {
            assert(w[k] == key[k]);
            assert(key.contains(key[k]));
        }
    }
    assert(w.take(k) =~= key);
    assert(w.skip(k + 1) =~= value);
    assert(seq![w].drop_last() =~= seq![]);
    assert(seq![w].last() == w);
    assert(extension::settings(seq![]) =~= Map::<Seq<char>, Seq<char>>::empty());
    assert(extension::settings(seq![w]) =~= Map::<Seq<char>, Seq<char>>::empty().insert(key, value));
}

/// The texts of a map stand under the same keys.
pub proof fn law_texts_of_a_map(m: Map<Seq<char>, String>, key: Seq<char>)
    ensures
        extension::map_texts(m).dom().contains(key) <==> m.dom().contains(key),
        m.dom().contains(key) ==> extension::map_texts(m)[key] == m[key]@,
{
}

// Commands.

/// The word sets something.
pub open spec fn sets(w: Seq<char>) -> bool {
    w.contains('=')
}

/// A command is the first word that sets nothing; the words behind it are its arguments,
/// in order, and the words before it are its settings.
pub proof fn law_commands(c: Command, words: Seq<Seq<char>>, n: int)
    requires
        extension::is_command(c, words),
        0 <= n < words.len(),
        forall|k: int| 0 <= k < n ==> sets(#[trigger] words[k]),
        !sets(words[n]),
    ensures
        c.cmd@ == words[n],
        c.args@.len() == words.len() - n - 1,
        forall|i: int| 0 <= i < c.args@.len() ==> (#[trigger] c.args@[i])@ == words[n + 1 + i],
        c.envs.wf(),
        extension::map_texts(c.envs@) == extension::settings(words.take(n)),
{
    extension::law_command_is_the_first_word_that_sets_nothing(words);
    lemma_count(words, n);
    let texts = text::texts(c.args@);
    assert(texts.len() == c.args@.len());
    assert forall|i: int| 0 <= i < c.args@.len() implies (#[trigger] c.args@[i])@
        == words[n + 1 + i] by {
        assert(texts[i] == c.args@[i]@);
    }
}

proof fn lemma_count(words: Seq<Seq<char>>, n: int)
    requires
        0 <= n < words.len(),
        forall|k: int| 0 <= k < n ==> sets(#[trigger] words[k]),
        !sets(words[n]),
    ensures
        extension::setting_count(words) == n,
{
    extension::law_command_is_the_first_word_that_sets_nothing(words);
    let m = extension::setting_count(words);
    if m < n {
        assert(sets(words[m]));
    } else if n < m {
        assert(words[n].contains('='));
    }
}

/// An extension that is started by a command has the command, its arguments and its
/// settings, the name of the command's file or none, and else only what it gets where
/// the user gives nothing.
pub proof fn law_extensions_of_a_command(
    c: ExtensionConfig,
    words: Seq<Seq<char>>,
    base: Option<Seq<char>>,
    defaults: ExtensionDefaults,
    n: int,
)
    requires
        extension::is_stdio(c, words, base, defaults),
        0 <= n < words.len(),
        forall|k: int| 0 <= k < n ==> sets(#[trigger] words[k]),
        !sets(words[n]),
    ensures
        c is Stdio,
        base is Some ==> c->Stdio_name@ == base->0,
        base is None ==> c->Stdio_name@ == "unnamed"@,
        c->cmd@ == words[n],
        c->args@.len() == words.len() - n - 1,
        forall|i: int| 0 <= i < c->args@.len() ==> (#[trigger] c->args@[i])@ == words[n + 1 + i],
        c->Stdio_envs.wf(),
        extension::map_texts(c->Stdio_envs@) == extension::settings(words.take(n)),
        c->Stdio_env_keys@.len() == 0,
        c->Stdio_description == defaults.description,
        c->Stdio_timeout == Some(defaults.timeout),
        c->Stdio_bundled is None,
        c->Stdio_available_tools@.len() == 0,
{
    lemma_count(words, n);
    let texts = text::texts(c->args@);
    assert(texts.len() == c->args@.len());
    assert forall|i: int| 0 <= i < c->args@.len() implies (#[trigger] c->args@[i])@
        == words[n + 1 + i] by {
        assert(texts[i] == c->args@[i]@);
    }
}

/// The part of a path says nothing of a name.
pub open spec fn passed_over(part: Seq<char>) -> bool {
    part.len() == 0 || part == "."@
}

/// The last of the parts of a path that says something is its name, unless it leads up.
pub proof fn law_last_name(parts: Seq<Seq<char>>, i: int)
    requires
        -1 <= i < parts.len(),
        forall|k: int| i < k < parts.len() ==> passed_over(#[trigger] parts[k]),
        i >= 0 ==> !passed_over(parts[i]),
    ensures
        i < 0 || parts[i] == ".."@ ==> extension::last_name(parts) is None,
        i >= 0 && parts[i] != ".."@ ==> extension::last_name(parts) == Some(parts[i]),
    decreases parts.len(),
{
    reveal_strlit(".");
    reveal_strlit("..");
    assert("."@.len() == 1 && ".."@.len() == 2);
    if parts.len() > 0 && i < parts.len() - 1 {
        let rest = parts.drop_last();
        assert(passed_over(parts[parts.len() - 1]));
        assert forall|k: int| i < k < rest.len() implies passed_over(#[trigger] rest[k]) by {
            assert(rest[k] == parts[k]);
        }
        law_last_name(rest, i);
    }
}

// URLs.

/// The parts of a URL are seen as they are.
pub proof fn law_parts_are_seen_as_they_are(p: UrlParts)
    ensures
        extension::parts_view(Some(p)) is Some,
        extension::parts_view(None) is None,
        ({
            let (host, port, path) = extension::parts_view(Some(p))->0;
            &&& host is Some <==> p.host is Some
            &&& p.host is Some ==> host->0 == p.host->0@
            &&& port == p.port
            &&& path == p.path@
        }),
{
}

/// The name of an extension is made of the host, of the port behind an underscore, and of
/// the path without the slashes at its ends behind another. What is missing adds
/// nothing.
pub proof fn law_name_of_a_url(host: Option<Seq<char>>, port: Option<u16>, path: Seq<char>)
    ensures
        ({
            let core = text::unslashed(path);
            let name = extension::joined_parts(host, port, path);
            let h = host->0;
            let p = seq!['_'] + text::decimal(port->0 as nat);
            let c = seq!['_'] + core;
            &&& host is Some && port is Some && core.len() > 0 ==> name == h + p + c
            &&& host is Some && port is Some && core.len() == 0 ==> name == h + p
            &&& host is Some && port is None && core.len() > 0 ==> name == h + c
            &&& host is Some && port is None && core.len() == 0 ==> name == h
            &&& host is None && port is Some && core.len() > 0 ==> name == p + c
            &&& host is None && port is Some && core.len() == 0 ==> name == p
            &&& host is None && port is None && core.len() > 0 ==> name == c
            &&& host is None && port is None && core.len() == 0 ==> name.len() == 0
            &&& name.len() > 0 ==> extension::url_name(Some((host, port, path))) == name
            &&& name.len() == 0 ==> extension::url_name(Some((host, port, path))) == "unnamed"@
            &&& extension::url_name(None) == "unnamed"@
        }),
{
    let core = text::unslashed(path);
    let name = extension::joined_parts(host, port, path);
    let none: Seq<char> = seq![];
    let h = if host is Some { host->0 } else { none };
    let p = if port is Some { seq!['_'] + text::decimal(port->0 as nat) } else { none };
    let c = if core.len() > 0 { seq!['_'] + core } else { none };
    assert(name =~= h + p + c);
    assert(none + p + c =~= p + c);
    assert(h + none + c =~= h + c);
    assert(h + p + none =~= h + p);
    assert(h + none + none =~= h);
    assert(none + p + none =~= p);
    assert(none + none + c =~= c);
    assert((none + none + none).len() == 0);
}

/// An extension that is reached by a URL has the URL, its name and the time to wait, no
/// settings and no headers, and else only what it gets where the user gives nothing.
pub proof fn law_extensions_of_a_url(
    c: ExtensionConfig,
    url: Seq<char>,
    named: Seq<char>,
    seconds: u64,
    defaults: ExtensionDefaults,
)
    requires
        extension::is_http(c, url, named, seconds, defaults),
    ensures
        c is StreamableHttp,
        c->StreamableHttp_name@ == named,
        c->uri@ == url,
        c->StreamableHttp_envs.wf() && c->headers.wf(),
        c->StreamableHttp_envs@.dom().len() == 0,
        c->StreamableHttp_env_keys@.len() == 0,
        c->headers@.dom().len() == 0,
        c->StreamableHttp_description == defaults.description,
        c->StreamableHttp_timeout == Some(seconds),
        c->StreamableHttp_bundled is None,
        c->StreamableHttp_available_tools@.len() == 0,
{
}

// Extensions that come with the program.

/// An extension that comes with the program belongs to the platform if and only if the
/// platform knows its name. It is called and described by its name, and has nothing
/// else.
pub proof fn law_bundled_extensions(c: ExtensionConfig, named: Seq<char>, platform: Seq<Seq<char>>)
    requires
        extension::is_bundled(c, named, platform),
    ensures
        c is Platform <==> platform.contains(named),
        c is Builtin <==> !platform.contains(named),
        c is Platform ==> {
            &&& c->Platform_name@ == named
            &&& c->Platform_description@ == named
            &&& c->Platform_display_name is None
            &&& c->Platform_bundled is None
            &&& c->Platform_available_tools@.len() == 0
        },
        c is Builtin ==> {
            &&& c->Builtin_name@ == named
            &&& c->Builtin_description@ == named
            &&& c->Builtin_display_name is None
            &&& c->Builtin_timeout is None
            &&& c->Builtin_bundled is None
            &&& c->Builtin_available_tools@.len() == 0
        },
{
}

} // verus!
