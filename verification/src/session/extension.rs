//! Extensions as the user writes them on the command line.
use crate::session::state::CliSession;
use crate::string_map::StringMap;
use crate::text;
use vstd::prelude::*;

verus! {

/// How to reach an extension. The settings of the environment are as written;
/// whoever starts the extension decides which of them it honours.
pub enum ExtensionConfig {
    Stdio {
        name: String,
        cmd: String,
        args: Vec<String>,
        envs: StringMap<String>,
        env_keys: Vec<String>,
        description: String,
        timeout: Option<u64>,
        bundled: Option<bool>,
        available_tools: Vec<String>,
    },
    StreamableHttp {
        name: String,
        uri: String,
        envs: StringMap<String>,
        env_keys: Vec<String>,
        headers: StringMap<String>,
        description: String,
        timeout: Option<u64>,
        bundled: Option<bool>,
        available_tools: Vec<String>,
    },
    Platform {
        name: String,
        description: String,
        display_name: Option<String>,
        bundled: Option<bool>,
        available_tools: Vec<String>,
    },
    Builtin {
        name: String,
        display_name: Option<String>,
        timeout: Option<u64>,
        bundled: Option<bool>,
        description: String,
        available_tools: Vec<String>,
    },
}

/// What an extension gets where the user gives nothing.
pub struct ExtensionDefaults {
    pub description: String,
    pub timeout: u64,
}

// Extensions that are started by a command.

/// The number of words at the front that set the environment.
pub open spec fn setting_count(words: Seq<Seq<char>>) -> int
    decreases words.len(),
{
    if words.len() == 0 || !words[0].contains('=') {
        0
    } else {
        1 + setting_count(words.drop_first())
    }
}

/// What settings bind: the part before the first `=` to the part behind it. A
/// later setting of a name replaces an earlier one.
pub open spec fn settings(words: Seq<Seq<char>>) -> Map<Seq<char>, Seq<char>>
    decreases words.len(),
{
    if words.len() == 0 {
        Map::empty()
    } else {
        let w = words.last();
        let k = text::first_char(w, '=');
        settings(words.drop_last()).insert(w.take(k), w.skip(k + 1))
    }
}

/// The texts that a map of strings holds.
pub open spec fn map_texts(m: Map<Seq<char>, String>) -> Map<Seq<char>, Seq<char>> {
    m.map_values(|s: String| s@)
}

/// The last of the names in a path, empty names and `.` passed over; none if that
/// is `..`.
pub open spec fn last_name(parts: Seq<Seq<char>>) -> Option<Seq<char>>
    decreases parts.len(),
{
    if parts.len() == 0 || parts.last() == ".."@ {
        None
    } else if parts.last().len() == 0 || parts.last() == "."@ {
        last_name(parts.drop_last())
    } else {
        Some(parts.last())
    }
}

/// A path that all platforms take apart in the same way: it holds no `\`, has no
/// `:` behind its first character, as a path with a drive has, and does not begin
/// with two slashes.
pub open spec fn portable_path(path: Seq<char>) -> bool {
    &&& !path.contains('\\')
    &&& !(path.len() >= 2 && path[1] == ':')
    &&& !(path.len() >= 2 && path[0] == '/' && path[1] == '/')
}

/// A character that separates the parts of a path on some platform.
pub open spec fn separates(c: char) -> bool {
    c == '/' || c == '\\'
}

/// The name stands in the path at `i` as its last part: it begins the path or comes
/// behind a separator or a drive, and nothing but separators and dots follows it.
pub open spec fn stands_last(path: Seq<char>, name: Seq<char>, i: int) -> bool {
    let end = i + name.len();
    &&& text::stands_at(path, name, i)
    &&& i > 0 ==> separates(path[i - 1]) || path[i - 1] == ':'
    &&& end < path.len() ==> separates(path[end])
    &&& forall|k: int| end <= k < path.len() ==> separates(#[trigger] path[k]) || path[k] == '.'
}

/// The path begins with `\\?\`, behind which `/` separates nothing.
pub open spec fn is_verbatim(path: Seq<char>) -> bool {
    path.len() >= 4 && path.take(4) == seq!['\\', '\\', '?', '\\']
}

/// The name is the last part of the path, whatever the platform makes of the rest.
pub open spec fn is_last_part(path: Seq<char>, name: Seq<char>) -> bool {
    &&& name.len() > 0
    &&& name != "."@
    &&& name != ".."@
    &&& exists|i: int| #[trigger] stands_last(path, name, i)
    &&& !is_verbatim(path) ==> !name.contains('/')
}

/// The path ends in a name on every platform: its last character belongs to one, and
/// it does not begin with two separators, as the path of a share does.
pub open spec fn surely_named(path: Seq<char>) -> bool {
    &&& path.len() > 0
    &&& !separates(path.last())
    &&& path.last() != ':'
    &&& path.last() != '.'
    &&& !(path.len() >= 2 && separates(path[0]) && separates(path[1]))
}

/// What the file name of a path can be. Of a path that all platforms take apart in
/// the same way it is the last of the names; of every other path a name, if there is
/// one, is its last part.
pub open spec fn is_file_name(path: Seq<char>, name: Option<Seq<char>>) -> bool {
    &&& portable_path(path) ==> name == last_name(text::pieces(path, '/'))
    &&& surely_named(path) ==> name is Some
    &&& name matches Some(n) ==> is_last_part(path, n)
}

/// `std::path::Path::file_name`: the last component of a path, or nothing if the
/// path ends in `..` or has no component but a root or a prefix. Repeated
/// separators, separators at the end and components `.` do not count. Whether `\`
/// separates and a drive or two leading slashes are a prefix depends on the
/// platform: how much of such a path the last component is, is left unsaid.
#[verifier::external_body]
fn file_name(path: &str) -> (r: Option<String>)
    ensures
        is_file_name(path@, text::option_text(r)),
{
    std::path::Path::new(path).file_name().and_then(|f| f.to_str()).map(|s| s.to_owned())
}

/// The configuration of a command, given the name of its file.
pub open spec fn is_stdio(
    c: ExtensionConfig,
    words: Seq<Seq<char>>,
    base: Option<Seq<char>>,
    defaults: ExtensionDefaults,
) -> bool {
    let n = setting_count(words);
    &&& c matches ExtensionConfig::Stdio {
        name,
        cmd,
        args,
        envs,
        env_keys,
        description,
        timeout,
        bundled,
        available_tools,
    }
    &&& name@ == (match base {
        Some(b) => b,
        None => "unnamed"@,
    })
    &&& cmd@ == words[n]
    &&& text::texts(args@) == words.skip(n + 1)
    &&& envs.wf()
    &&& map_texts(envs@) == settings(words.take(n))
    &&& env_keys@.len() == 0
    &&& description == defaults.description
    &&& timeout == Some(defaults.timeout)
    &&& bundled is None
    &&& available_tools@.len() == 0
}

/// A command taken apart.
pub struct Command {
    pub cmd: String,
    pub args: Vec<String>,
    pub envs: StringMap<String>,
}

/// The command is what the words say.
pub open spec fn is_command(c: Command, words: Seq<Seq<char>>) -> bool {
    let n = setting_count(words);
    &&& c.cmd@ == words[n]
    &&& text::texts(c.args@) == words.skip(n + 1)
    &&& c.envs.wf()
    &&& map_texts(c.envs@) == settings(words.take(n))
}

proof fn lemma_setting_count(words: Seq<Seq<char>>, i: int)
    requires
        0 <= i <= words.len(),
        forall|k: int| 0 <= k < i ==> (#[trigger] words[k]).contains('='),
        i < words.len() ==> !words[i].contains('='),
    ensures
        setting_count(words) == i,
    decreases words.len(),
{
    if i > 0 {
        assert(words[0].contains('='));
        let rest = words.drop_first();
        assert forall|k: int| 0 <= k < i - 1 implies (#[trigger] rest[k]).contains('=') by {
            assert(words[k + 1].contains('='));
        }
        lemma_setting_count(rest, i - 1);
    }
}

/// Takes a command apart: settings of the environment, the command, arguments.
/// There is none if all words are settings.
pub fn parse_command(extension_command: &str) -> (r: Option<Command>)
    ensures
        ({
            let words = text::words(extension_command@);
            match r {
                Some(c) => setting_count(words) < words.len() && is_command(c, words),
                None => setting_count(words) == words.len(),
            }
        }),
{
    let parts = text::split_words(extension_command);
    let ghost words = text::words(extension_command@);
    let mut envs: StringMap<String> = StringMap::new();
    let mut i: usize = 0;
    assert(text::texts(parts@).len() == parts@.len());
    assert(map_texts(envs@) =~= settings(words.take(0)));
    while i < parts.len()
        invariant
            words == text::texts(parts@),
            words.len() == parts@.len(),
            i <= parts@.len(),
            envs.wf(),
            map_texts(envs@) == settings(words.take(i as int)),
            forall|k: int| 0 <= k < i ==> (#[trigger] words[k]).contains('='),
        ensures
            i <= parts@.len(),
            i < parts@.len() ==> !words[i as int].contains('='),
            envs.wf(),
            map_texts(envs@) == settings(words.take(i as int)),
            forall|k: int| 0 <= k < i ==> (#[trigger] words[k]).contains('='),
        decreases parts@.len() - i,
    {
        assert(words[i as int] == parts@[i as int]@);
        match text::split_at_char(parts[i].as_str(), '=') {
            Some((key, value)) => {
                let ghost before = map_texts(envs@);
                let ghost k = key@;
                let ghost v = value@;
                envs.insert(key, value);
                assert(map_texts(envs@) =~= before.insert(k, v));
                assert(words.take(i as int + 1).drop_last() =~= words.take(i as int));
                assert(words.take(i as int + 1).last() == words[i as int]);
                i += 1;
            },
            None => {
                break;
            },
        }
    }
    proof {
        lemma_setting_count(words, i as int);
    }
    if i == parts.len() {
        return None;
    }
    let mut args: Vec<String> = Vec::new();
    let mut k: usize = i + 1;
    assert(text::texts(args@) =~= words.subrange(i as int + 1, k as int));
    while k < parts.len()
        invariant
            words == text::texts(parts@),
            words.len() == parts@.len(),
            i < k <= parts@.len(),
            text::texts(args@) == words.subrange(i as int + 1, k as int),
        decreases parts@.len() - k,
    {
        let ghost before = text::texts(args@);
        args.push(parts[k].clone());
        assert(text::texts(args@) =~= before.push(words[k as int]));
        k += 1;
        assert(text::texts(args@) =~= words.subrange(i as int + 1, k as int));
    }
    assert(words.subrange(i as int + 1, k as int) =~= words.skip(i as int + 1));
    assert(words[i as int] == parts@[i as int]@);
    Some(Command { cmd: parts[i].clone(), args, envs })
}

/// The configuration of a command, given the name of its file if it has one.
pub fn stdio_extension(c: Command, base: Option<String>, defaults: &ExtensionDefaults) -> (r:
    ExtensionConfig)
    ensures
        forall|words: Seq<Seq<char>>| #[trigger]
            is_command(c, words) ==> is_stdio(r, words, text::option_text(base), *defaults),
{
    let name = match base {
        Some(b) => b,
        None => "unnamed".to_owned(),
    };
    ExtensionConfig::Stdio {
        name,
        cmd: c.cmd,
        args: c.args,
        envs: c.envs,
        env_keys: Vec::new(),
        description: defaults.description.clone(),
        timeout: Some(defaults.timeout),
        bundled: None,
        available_tools: Vec::new(),
    }
}

impl CliSession {
    /// Reads a command of the form `ENV1=val1 ENV2=val2 command args...`. The
    /// extension is named after the command's file. It is an error if there is no
    /// command.
    pub fn parse_stdio_extension(extension_command: &str, defaults: &ExtensionDefaults) -> (r: Result<
        ExtensionConfig,
        String,
    >)
        ensures
            ({
                let words = text::words(extension_command@);
                let n = setting_count(words);
                match r {
                    Ok(c) => {
                        &&& n < words.len()
                        &&& exists|base: Option<Seq<char>>|
                            {
                                &&& #[trigger] is_stdio(c, words, base, *defaults)
                                &&& is_file_name(words[n], base)
                            }
                    },
                    Err(why) => {
                        &&& n == words.len()
                        &&& why@ == "No command provided in extension string"@
                    },
                }
            }),
    {
        match parse_command(extension_command) {
            Some(c) => {
                let base = file_name(c.cmd.as_str());
                let ghost words = text::words(extension_command@);
                let ghost named = text::option_text(base);
                let ghost parsed = c;
                assert(is_command(parsed, words));
                let r = stdio_extension(c, base, defaults);
                assert(is_stdio(r, words, named, *defaults));
                Ok(r)
            },
            None => Err("No command provided in extension string".to_owned()),
        }
    }
}

/// The last piece of a text is what follows its last separator.
proof fn lemma_last_piece(s: Seq<char>, sep: char)
    ensures
        ({
            let ps = text::pieces(s, sep);
            let p = ps.last();
            let i = s.len() - p.len();
            &&& ps.len() > 0
            &&& text::stands_at(s, p, i)
            &&& !p.contains(sep)
            &&& i > 0 ==> s[i - 1] == sep
        }),
    decreases s.len(),
{
    let p = text::pieces(s, sep).last();
    if s.len() == 0 {
        assert(s.subrange(0, 0) =~= p);
    } else {
        let t = s.drop_last();
        lemma_last_piece(t, sep);
        let q = text::pieces(t, sep).last();
        if s.last() == sep {
            assert(s.subrange(s.len() as int, s.len() as int) =~= p);
        } else {
            let i = t.len() - q.len();
            assert(s.subrange(i, s.len() as int) =~= t.subrange(i, t.len() as int).push(s.last()));
            assert forall|k: int| 0 <= k < p.len() implies p[k] != sep by {
                if k < q.len() {
                    assert(q.contains(q[k]));
                }
            }
        }
    }
}

/// What a path names is its last part, and a path that ends in a name names it.
pub proof fn law_last_name_is_the_last_part(path: Seq<char>)
    ensures
        last_name(text::pieces(path, '/')) matches Some(n) ==> {
            &&& is_last_part(path, n)
            &&& !n.contains('/')
        },
        surely_named(path) ==> last_name(text::pieces(path, '/')) is Some,
    decreases path.len(),
{
    reveal_strlit(".");
    reveal_strlit("..");
    let ps = text::pieces(path, '/');
    lemma_last_piece(path, '/');
    let q = ps.last();
    let at = path.len() - q.len();
    if path.len() == 0 {
        reveal_with_fuel(last_name, 2);
    } else {
        let t = path.drop_last();
        let pt = text::pieces(t, '/');
        lemma_last_piece(t, '/');
        law_last_name_is_the_last_part(t);
        if q == ".."@ {
        } else if q.len() == 0 || q == "."@ {
            if path.last() == '/' {
                assert(ps.drop_last() =~= pt);
            } else {
                assert(pt.last().len() == 0);
                assert(ps.drop_last() =~= pt.drop_last());
                assert(last_name(pt) == last_name(pt.drop_last()));
                assert(path.last() == '.') by {
                    assert(path.subrange(at, path.len() as int)[0] == path[at]);
                }
            }
            assert(last_name(ps) == last_name(pt));
            if let Some(n) = last_name(pt) {
                let i = choose|i: int| #[trigger] stands_last(t, n, i);
                let end = i + n.len();
                assert(t.subrange(i, end) =~= path.subrange(i, end));
                if end == t.len() && path.last() != '/' {
                    assert(t.subrange(i, end)[n.len() - 1] == t[end - 1]);
                    assert(n.contains(n[n.len() - 1]));
                }
                assert forall|k: int| end <= k < path.len() implies separates(#[trigger] path[k])
                    || path[k] == '.' by {
                    if k < t.len() {
                        assert(path[k] == t[k]);
                    }
                }
                assert(stands_last(path, n, i));
            }
        } else {
            assert(stands_last(path, q, at));
        }
        if surely_named(path) {
            assert(q.len() > 0) by {
                if q.len() == 0 {
                    assert(path[path.len() - 1] == '/');
                }
            }
            assert(path.subrange(at, path.len() as int)[q.len() - 1] == path.last());
        }
    }
}

/// The command is the first word without `=`: the words before it are settings,
/// and it is none.
pub proof fn law_command_is_the_first_word_that_sets_nothing(words: Seq<Seq<char>>)
    ensures
        0 <= setting_count(words) <= words.len(),
        forall|k: int| 0 <= k < setting_count(words) ==> (#[trigger] words[k]).contains('='),
        setting_count(words) < words.len() ==> !words[setting_count(words)].contains('='),
    decreases words.len(),
{
    if words.len() > 0 && words[0].contains('=') {
        let rest = words.drop_first();
        law_command_is_the_first_word_that_sets_nothing(rest);
        assert forall|k: int| 0 <= k < setting_count(words) implies (#[trigger] words[k]).contains(
            '=',
        ) by {
            if k > 0 {
                assert(rest[k - 1].contains('='));
            }
        }
    }
}

// Extensions that are reached over HTTP.

/// The host of a URL, its port where that is not the usual one of the scheme, and
/// its path; nothing if the text is no absolute URL.
pub uninterp spec fn url_parts(url: Seq<char>) -> Option<
    (Option<Seq<char>>, Option<u16>, Seq<char>),
>;

/// The parts of a URL that a name is made of.
pub struct UrlParts {
    pub host: Option<String>,
    pub port: Option<u16>,
    pub path: String,
}

/// The parts as contracts speak of them.
pub open spec fn parts_view(p: Option<UrlParts>) -> Option<
    (Option<Seq<char>>, Option<u16>, Seq<char>),
> {
    match p {
        Some(p) => Some((text::option_text(p.host), p.port, p.path@)),
        None => None,
    }
}

/// `url::Url::parse`, with `host_str`, `port` and `path` of what it returns.
/// Nothing is claimed of them but that they depend on the text alone.
#[verifier::external_body]
fn parse_url(url: &str) -> (r: Option<UrlParts>)
    ensures
        parts_view(r) == url_parts(url@),
{
    url::Url::parse(url).ok().map(
        |u| UrlParts {
            host: u.host_str().map(|h| h.to_owned()),
            port: u.port(),
            path: u.path().to_owned(),
        },
    )
}

/// The host, the port and the path without the slashes at its ends, joined by
/// underscores. What is missing or empty is passed over.
pub open spec fn joined_parts(host: Option<Seq<char>>, port: Option<u16>, path: Seq<char>) -> Seq<
    char,
> {
    (match host {
        Some(h) => h,
        None => seq![],
    }) + (match port {
        Some(p) => seq!['_'] + text::decimal(p as nat),
        None => seq![],
    }) + (if text::unslashed(path).len() > 0 {
        seq!['_'] + text::unslashed(path)
    } else {
        seq![]
    })
}

/// The name of an extension by the parts of its URL.
pub open spec fn url_name(parts: Option<(Option<Seq<char>>, Option<u16>, Seq<char>)>) -> Seq<char> {
    match parts {
        Some((host, port, path)) => {
            let name = joined_parts(host, port, path);
            if name.len() > 0 {
                name
            } else {
                "unnamed"@
            }
        },
        None => "unnamed"@,
    }
}

/// The name of an extension by the parts of its URL.
pub fn name_from_url(parts: Option<UrlParts>) -> (r: String)
    ensures
        r@ == url_name(parts_view(parts)),
{
    let parts = match parts {
        Some(p) => p,
        None => {
            return "unnamed".to_owned();
        },
    };
    let mut name = match &parts.host {
        Some(h) => h.clone(),
        None => String::new(),
    };
    let ghost part_one = name@;
    let ghost host = text::option_text(parts.host);
    assert(part_one =~= match host {
        Some(h) => h,
        None => seq![],
    });
    if let Some(port) = parts.port {
        name.push('_');
        name.append(text::decimal_text(port as u64).as_str());
    }
    let ghost part_two = name@;
    assert(part_two =~= part_one + match parts.port {
        Some(p) => seq!['_'] + text::decimal(p as nat),
        None => seq![],
    });
    let path = text::trim_slashes(parts.path.as_str());
    let length: usize = text::chars_of(path.as_str()).len();
    if length > 0 {
        name.push('_');
        name.append(path.as_str());
    }
    assert(name@ =~= joined_parts(host, parts.port, parts.path@));
    let length: usize = text::chars_of(name.as_str()).len();
    if length > 0 {
        name
    } else {
        "unnamed".to_owned()
    }
}

/// The configuration for a URL.
pub open spec fn is_http(
    c: ExtensionConfig,
    url: Seq<char>,
    named: Seq<char>,
    seconds: u64,
    defaults: ExtensionDefaults,
) -> bool {
    &&& c matches ExtensionConfig::StreamableHttp {
        name,
        uri,
        envs,
        env_keys,
        headers,
        description,
        timeout,
        bundled,
        available_tools,
    }
    &&& name@ == named
    &&& uri@ == url
    &&& envs.wf()
    &&& envs@ == Map::<Seq<char>, String>::empty()
    &&& env_keys@.len() == 0
    &&& headers.wf()
    &&& headers@ == Map::<Seq<char>, String>::empty()
    &&& description == defaults.description
    &&& timeout == Some(seconds)
    &&& bundled is None
    &&& available_tools@.len() == 0
}

impl CliSession {
    /// The configuration of an extension that is reached by a URL and named after
    /// it.
    pub fn parse_streamable_http_extension(
        extension_url: &str,
        timeout: u64,
        defaults: &ExtensionDefaults,
    ) -> (r: ExtensionConfig)
        ensures
            is_http(r, extension_url@, url_name(url_parts(extension_url@)), timeout, *defaults),
    {
        let name = name_from_url(parse_url(extension_url));
        ExtensionConfig::StreamableHttp {
            name,
            uri: extension_url.to_owned(),
            envs: StringMap::new(),
            env_keys: Vec::new(),
            headers: StringMap::new(),
            description: defaults.description.clone(),
            timeout: Some(timeout),
            bundled: None,
            available_tools: Vec::new(),
        }
    }
}

// Extensions that come with the program.

/// The configuration of an extension that comes with the program: one that is
/// part of the platform if its name is among `platform`.
pub open spec fn is_bundled(c: ExtensionConfig, named: Seq<char>, platform: Seq<Seq<char>>) -> bool {
    if platform.contains(named) {
        &&& c matches ExtensionConfig::Platform {
            name,
            description,
            display_name,
            bundled,
            available_tools,
        }
        &&& name@ == named
        &&& description@ == named
        &&& display_name is None
        &&& bundled is None
        &&& available_tools@.len() == 0
    } else {
        &&& c matches ExtensionConfig::Builtin {
            name,
            display_name,
            timeout,
            bundled,
            description,
            available_tools,
        }
        &&& name@ == named
        &&& display_name is None
        &&& timeout is None
        &&& bundled is None
        &&& description@ == named
        &&& available_tools@.len() == 0
    }
}

impl CliSession {
    /// The configurations of extensions that come with the program, given by their
    /// names with commas between. White space around a name does not count.
    pub fn parse_builtin_extensions(builtin_name: &str, platform: &Vec<String>) -> (r: Vec<
        ExtensionConfig,
    >)
        ensures
            ({
                let names = text::pieces(builtin_name@, ',');
                &&& r@.len() == names.len()
                &&& forall|i: int|
                    0 <= i < names.len() ==> is_bundled(
                        #[trigger] r@[i],
                        text::trimmed(names[i]),
                        text::texts(platform@),
                    )
            }),
    {
        let names = text::split_text(builtin_name, ',');
        let ghost pieces = text::pieces(builtin_name@, ',');
        let mut out: Vec<ExtensionConfig> = Vec::new();
        let mut i: usize = 0;
        assert(text::texts(names@).len() == names@.len());
        while i < names.len()
            invariant
                pieces == text::texts(names@),
                pieces.len() == names@.len(),
                i <= names@.len(),
                out@.len() == i,
                forall|k: int|
                    0 <= k < i ==> is_bundled(
                        #[trigger] out@[k],
                        text::trimmed(pieces[k]),
                        text::texts(platform@),
                    ),
            decreases names@.len() - i,
        {
            let name = text::trim_text(names[i].as_str());
            assert(pieces[i as int] == names@[i as int]@);
            let config = if text::is_among(name.as_str(), platform) {
                ExtensionConfig::Platform {
                    description: name.clone(),
                    name,
                    display_name: None,
                    bundled: None,
                    available_tools: Vec::new(),
                }
            } else {
                ExtensionConfig::Builtin {
                    description: name.clone(),
                    name,
                    display_name: None,
                    timeout: None,
                    bundled: None,
                    available_tools: Vec::new(),
                }
            };
            out.push(config);
            i += 1;
        }
        out
    }
}

} // verus!
