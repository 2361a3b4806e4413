//! Spoken punctuation words become symbols.
use crate::text;
use vstd::prelude::*;

verus! {

/// The ASCII punctuation characters.
pub open spec fn ascii_punctuation(c: char) -> bool {
    ||| '!' <= c <= '/'
    ||| ':' <= c <= '@'
    ||| '[' <= c <= '`'
    ||| '{' <= c <= '~'
}

fn is_ascii_punctuation(c: char) -> (r: bool)
    ensures
        r == ascii_punctuation(c),
{
    ('!' <= c && c <= '/') || (':' <= c && c <= '@') || ('[' <= c && c <= '`') || ('{' <= c && c
        <= '~')
}

/// The character that a letter counts as in the search: its lower-case form
/// where that is one ASCII letter, else the character itself.
pub open spec fn fold(c: char) -> char {
    if c == '\u{212a}' {
        'k'
    } else {
        text::ascii_lower(c)
    }
}

/// The text as the search sees it.
pub open spec fn folded(s: Seq<char>) -> Seq<char> {
    s.map_values(|c: char| fold(c))
}

fn fold_char(c: char) -> (r: char)
    ensures
        r == fold(c),
{
    if c == '\u{212a}' {
        'k'
    } else if 'A' <= c && c <= 'Z' {
        (c as u8 + 32) as char
    } else {
        c
    }
}

fn fold_chars(v: &Vec<char>) -> (r: Vec<char>)
    ensures
        r@ == folded(v@),
{
    let mut out: Vec<char> = Vec::new();
    let mut i: usize = 0;
    while i < v.len()
        invariant
            i <= v@.len(),
            out@ == folded(v@).take(i as int),
        decreases v@.len() - i,
    {
        out.push(fold_char(v[i]));
        i += 1;
        assert(out@ == folded(v@).take(i as int));
    }
    out
}

/// The phrase found up to `end` stands alone: the character numbered `end` is
/// missing, white space or ASCII punctuation.
pub open spec fn ends_phrase(s: Seq<char>, end: int) -> bool {
    s.len() <= end || text::white_space(s[end]) || ascii_punctuation(s[end])
}

/// A space follows the symbol where white space follows the phrase.
pub open spec fn gap(s: Seq<char>, end: int) -> Seq<char> {
    if end < s.len() && text::white_space(s[end]) {
        seq![' ']
    } else {
        seq![]
    }
}

/// Where the text goes on after the phrase: one space is skipped.
pub open spec fn resume_at(s: Seq<char>, end: int) -> int {
    if end < s.len() && s[end] == ' ' {
        end + 1
    } else {
        end
    }
}

/// One search for a phrase, whatever the case of its letters. Where the first
/// phrase in the text stands alone, the symbol takes its place; `None` where
/// there is no phrase, or the first one goes on as a longer word.
pub open spec fn one_step(s: Seq<char>, spoken: Seq<char>, symbol: Seq<char>) -> Option<
    Seq<char>,
> {
    if exists|p: int| text::first_at(folded(s), spoken, p) {
        let pos = choose|p: int| text::first_at(folded(s), spoken, p);
        let end = pos + spoken.len();
        if ends_phrase(s, end) {
            Some(s.take(pos) + symbol + gap(s, end) + s.skip(resume_at(s, end)))
        } else {
            None
        }
    } else {
        None
    }
}

/// Every replacement of the phrase by the symbol makes the text shorter.
pub open spec fn shrinks(spoken: Seq<char>, symbol: Seq<char>) -> bool {
    symbol.len() + 2 <= spoken.len()
}

/// The text once the phrase is replaced as often as the search finds it.
pub open spec fn rewritten(s: Seq<char>, spoken: Seq<char>, symbol: Seq<char>) -> Seq<char>
    decreases s.len(),
    when shrinks(spoken, symbol)
{
    match one_step(s, spoken, symbol) {
        None => s,
        Some(t) => rewritten(t, spoken, symbol),
    }
}

/// The text once all phrases of the table are replaced, in the table's order.
pub open spec fn rewritten_by(s: Seq<char>, table: Seq<(&str, &str)>) -> Seq<char>
    decreases table.len(),
{
    if table.len() == 0 {
        s
    } else {
        rewritten_by(rewritten(s, table[0].0@, table[0].1@), table.drop_first())
    }
}

/// The spoken phrases and their symbols. A phrase that holds another one stands
/// before it.
pub open spec fn phrases() -> Seq<(&'static str, &'static str)> {
    seq![
        ("period.", "."),
        ("comma,", ","),
        ("question mark", "?"),
        ("exclamation point", "!"),
        ("exclamation mark", "!"),
        ("period", "."),
        ("full stop", "."),
        ("comma", ","),
        ("semicolon", ";"),
        ("semi colon", ";"),
        ("colon", ":"),
        ("open quote", "\""),
        ("close quote", "\""),
        ("quote", "\""),
        ("open paren", "("),
        ("close paren", ")"),
        ("open bracket", "["),
        ("close bracket", "]"),
        ("hyphen", "-"),
        ("dash", "-"),
        ("ellipsis", "..."),
        ("ampersand", "&"),
        ("at sign", "@"),
        ("hashtag", "#"),
        ("dollar sign", "$"),
        ("percent sign", "%"),
        ("percent", "%"),
    ]
}

/// The text with every run of spaces shortened to one space.
pub open spec fn single_spaced(s: Seq<char>) -> Seq<char>
    decreases s.len(),
{
    if s.len() < 2 {
        s
    } else {
        let rest = single_spaced(s.drop_last());
        if s.last() == ' ' && s[s.len() - 2] == ' ' {
            rest
        } else {
            rest.push(s.last())
        }
    }
}

/// The text without a space before a mark, as one pass from the left removes it.
pub open spec fn closed_up(s: Seq<char>, mark: char) -> Seq<char> {
    text::replaced(s, seq![' ', mark], seq![mark])
}

/// The text without a space before the marks `.`, `,`, `?`, `!`, `:` and `;`,
/// one mark after the other.
pub open spec fn marks_closed_up(s: Seq<char>) -> Seq<char> {
    let a = closed_up(s, '.');
    let b = closed_up(a, ',');
    let c = closed_up(b, '?');
    let d = closed_up(c, '!');
    let e = closed_up(d, ':');
    closed_up(e, ';')
}

/// The clean-up after the phrases are replaced: spaces before marks fall away,
/// runs of spaces become one space, and the ends are trimmed.
pub open spec fn tidied(s: Seq<char>) -> Seq<char> {
    text::trimmed(single_spaced(marks_closed_up(s)))
}

/// The text with spoken punctuation turned into symbols.
pub open spec fn processed(s: Seq<char>) -> Seq<char> {
    tidied(rewritten_by(s, phrases()))
}

/// One search in a text.
pub fn replace_once(s: &str, spoken: &str, symbol: &str) -> (r: Option<String>)
    ensures
        text::option_text(r) == one_step(s@, spoken@, symbol@),
{
    let chars = text::chars_of(s);
    let hay = fold_chars(&chars);
    let needle = text::chars_of(spoken);
    match text::find_chars(&hay, &needle) {
        None => {
            assert(forall|p: int| !text::first_at(hay@, needle@, p));
            None
        },
        Some(pos) => {
            proof {
                let q = choose|p: int| text::first_at(hay@, needle@, p);
                assert(text::first_at(hay@, needle@, q));
                assert(q == pos) by {
                    if q < pos {
                        assert(!text::stands_at(hay@, needle@, q));
                    } else if pos < q {
                        assert(!text::stands_at(hay@, needle@, pos as int));
                    }
                }
            }
            let len: usize = chars.len();
            assert(pos + needle@.len() <= len);
            let end: usize = pos + needle.len();
            let mut out = text::string_between(&chars, 0, pos);
            assert(out@ == s@.take(pos as int));
            out.append(symbol);
            let mut stop: usize = end;
            if end < len {
                let c: char = chars[end];
                if c.is_whitespace() {
                    out.push(' ');
                } else if !is_ascii_punctuation(c) {
                    return None;
                }
                if c == ' ' {
                    stop = end + 1;
                }
            }
            assert(out@ == s@.take(pos as int) + symbol@ + gap(s@, end as int));
            let tail = text::string_between(&chars, stop, len);
            assert(tail@ == s@.skip(resume_at(s@, end as int)));
            out.append(tail.as_str());
            Some(out)
        },
    }
}

/// A row of the table: the phrase is longer than its symbol, and neither begins
/// nor ends with a space; the symbol holds no letter in upper case.
spec fn is_row(row: (&str, &str)) -> bool {
    &&& shrinks(row.0@, row.1@)
    &&& row.0@.first() != ' '
    &&& row.0@.last() != ' '
    &&& folded(row.1@) == row.1@
}

proof fn lemma_phrases()
    ensures
        forall|i: int| 0 <= i < phrases().len() ==> is_row(#[trigger] phrases()[i]),
{
    assert forall|i: int| 0 <= i < phrases().len() implies is_row(#[trigger] phrases()[i]) by {
        reveal_strlit("period.");
        reveal_strlit("comma,");
        reveal_strlit("question mark");
        reveal_strlit("exclamation point");
        reveal_strlit("exclamation mark");
        reveal_strlit("period");
        reveal_strlit("full stop");
        reveal_strlit("comma");
        reveal_strlit("colon");
        reveal_strlit("semicolon");
        reveal_strlit("semi colon");
        reveal_strlit("open quote");
        reveal_strlit("close quote");
        reveal_strlit("quote");
        reveal_strlit("open paren");
        reveal_strlit("close paren");
        reveal_strlit("open bracket");
        reveal_strlit("close bracket");
        reveal_strlit("hyphen");
        reveal_strlit("dash");
        reveal_strlit("ellipsis");
        reveal_strlit("ampersand");
        reveal_strlit("at sign");
        reveal_strlit("hashtag");
        reveal_strlit("dollar sign");
        reveal_strlit("percent sign");
        reveal_strlit("percent");
        reveal_strlit(".");
        reveal_strlit(",");
        reveal_strlit("?");
        reveal_strlit("!");
        reveal_strlit(":");
        reveal_strlit(";");
        reveal_strlit("\"");
        reveal_strlit("(");
        reveal_strlit(")");
        reveal_strlit("[");
        reveal_strlit("]");
        reveal_strlit("-");
        reveal_strlit("...");
        reveal_strlit("&");
        reveal_strlit("@");
        reveal_strlit("#");
        reveal_strlit("$");
        reveal_strlit("%");
        assert(folded(phrases()[i].1@) =~= phrases()[i].1@);
    }
}

/// Every row of the table makes a text shorter.
pub proof fn lemma_phrases_shrink()
    ensures
        forall|i: int|
            0 <= i < phrases().len() ==> shrinks(#[trigger] phrases()[i].0@, phrases()[i].1@),
{
    lemma_phrases();
    assert forall|i: int| 0 <= i < phrases().len() implies shrinks(
        #[trigger] phrases()[i].0@,
        phrases()[i].1@,
    ) by {
        assert(is_row(phrases()[i]));
    }
}

/// Replaces one phrase as often as the search finds it.
fn rewrite(s: &str, spoken: &str, symbol: &str) -> (r: String)
    requires
        shrinks(spoken@, symbol@),
    ensures
        r@ == rewritten(s@, spoken@, symbol@),
{
    let mut cur = s.to_owned();
    loop
        invariant
            shrinks(spoken@, symbol@),
            rewritten(s@, spoken@, symbol@) == rewritten(cur@, spoken@, symbol@),
        decreases cur@.len(),
    {
        match replace_once(cur.as_str(), spoken, symbol) {
            None => {
                return cur;
            },
            Some(t) => {
                cur = t;
            },
        }
    }
}

/// The table of phrases.
fn replacements() -> (r: Vec<(&'static str, &'static str)>)
    ensures
        r@ == phrases(),
{
    vec![
        ("period.", "."),
        ("comma,", ","),
        ("question mark", "?"),
        ("exclamation point", "!"),
        ("exclamation mark", "!"),
        ("period", "."),
        ("full stop", "."),
        ("comma", ","),
        ("semicolon", ";"),
        ("semi colon", ";"),
        ("colon", ":"),
        ("open quote", "\""),
        ("close quote", "\""),
        ("quote", "\""),
        ("open paren", "("),
        ("close paren", ")"),
        ("open bracket", "["),
        ("close bracket", "]"),
        ("hyphen", "-"),
        ("dash", "-"),
        ("ellipsis", "..."),
        ("ampersand", "&"),
        ("at sign", "@"),
        ("hashtag", "#"),
        ("dollar sign", "$"),
        ("percent sign", "%"),
        ("percent", "%"),
    ]
}


// Spaces.

/// A text without two spaces in a row is single spaced.
proof fn lemma_no_double_space(s: Seq<char>)
    requires
        forall|i: int| !text::stands_at(s, seq![' ', ' '], i),
    ensures
        single_spaced(s) == s,
    decreases s.len(),
{
    if s.len() >= 2 {
        let t = s.drop_last();
        assert forall|i: int| !text::stands_at(t, seq![' ', ' '], i) by {
            if text::stands_at(t, seq![' ', ' '], i) {
                assert(s.subrange(i, i + 2) == t.subrange(i, i + 2));
                assert(text::stands_at(s, seq![' ', ' '], i));
            }
        }
        lemma_no_double_space(t);
        if s.last() == ' ' && s[s.len() - 2] == ' ' {
            assert(s.subrange(s.len() - 2, s.len() as int) == seq![' ', ' ']);
            assert(text::stands_at(s, seq![' ', ' '], s.len() - 2));
        }
        assert(t.push(s.last()) == s);
    }
}

/// `single_spaced` read from the left: the first character stays, and the rest
/// follows without the spaces that come right after a space.
spec fn spaced_after(prev: char, s: Seq<char>) -> Seq<char>
    decreases s.len(),
{
    if s.len() == 0 {
        seq![]
    } else if prev == ' ' && s.first() == ' ' {
        spaced_after(' ', s.drop_first())
    } else {
        seq![s.first()] + spaced_after(s.first(), s.drop_first())
    }
}

proof fn lemma_spaced_after_push(prev: char, s: Seq<char>, c: char)
    ensures
        spaced_after(prev, s.push(c)) == if (if s.len() == 0 { prev } else { s.last() }) == ' '
            && c == ' ' {
            spaced_after(prev, s)
        } else {
            spaced_after(prev, s).push(c)
        },
    decreases s.len(),
{
    if s.len() == 0 {
        assert(s.push(c).drop_first() == Seq::<char>::empty());
        assert(s.push(c).first() == c);
        reveal_with_fuel(spaced_after, 2);
        assert(spaced_after(prev, s) == Seq::<char>::empty());
        assert(seq![c] + Seq::<char>::empty() == Seq::<char>::empty().push(c));
    } else {
        assert(s.push(c).drop_first() == s.drop_first().push(c));
        assert(s.push(c).first() == s.first());
        lemma_spaced_after_push(s.first(), s.drop_first(), c);
        if s.len() > 1 {
            assert(s.drop_first().last() == s.last());
        }
        let rest = spaced_after(s.first(), s.drop_first());
        assert(seq![s.first()] + rest.push(c) == (seq![s.first()] + rest).push(c));
    }
}

proof fn lemma_single_spaced_left(s: Seq<char>)
    ensures
        s.len() > 0 ==> single_spaced(s) == seq![s.first()] + spaced_after(
            s.first(),
            s.drop_first(),
        ),
    decreases s.len(),
{
    if s.len() == 1 {
        assert(s.drop_first() == Seq::<char>::empty());
        assert(spaced_after(s.first(), s.drop_first()) == Seq::<char>::empty());
        assert(seq![s.first()] + Seq::<char>::empty() == s);
    } else if s.len() > 1 {
        let t = s.drop_last();
        lemma_single_spaced_left(t);
        assert(s.drop_first() == t.drop_first().push(s.last()));
        lemma_spaced_after_push(s.first(), t.drop_first(), s.last());
        if t.len() > 1 {
            assert(t.drop_first().last() == t.last());
        }
        assert(t.last() == s[s.len() - 2]);
        let rest = spaced_after(s.first(), t.drop_first());
        assert(seq![s.first()] + rest.push(s.last()) == (seq![s.first()] + rest).push(s.last()));
    }
}

/// Halving double spaces does not change what is left when spaces are singled.
proof fn lemma_halved_after(prev: char, s: Seq<char>)
    ensures
        spaced_after(prev, text::replaced(s, seq![' ', ' '], seq![' '])) == spaced_after(prev, s),
    decreases s.len(),
{
    let two = seq![' ', ' '];
    let one = seq![' '];
    let r = text::replaced(s, two, one);
    if s.len() == 0 {
    } else if text::stands_at(s, two, 0) {
        let rest = s.skip(2);
        let tail = text::replaced(rest, two, one);
        assert(s[0] == ' ' && s[1] == ' ') by {
            assert(s.subrange(0, 2)[0] == ' ');
            assert(s.subrange(0, 2)[1] == ' ');
        }
        assert(r == one + tail);
        assert(r.first() == ' ');
        assert(r.drop_first() == tail);
        assert(s.drop_first().drop_first() == rest);
        lemma_halved_after(' ', rest);
        reveal_with_fuel(spaced_after, 3);
    } else {
        let tail = text::replaced(s.drop_first(), two, one);
        assert(r == seq![s.first()] + tail);
        assert(r.drop_first() == tail);
        lemma_halved_after(s.first(), s.drop_first());
        lemma_halved_after(' ', s.drop_first());
    }
}

proof fn lemma_halved(s: Seq<char>)
    ensures
        single_spaced(text::replaced(s, seq![' ', ' '], seq![' '])) == single_spaced(s),
{
    let two = seq![' ', ' '];
    let one = seq![' '];
    let r = text::replaced(s, two, one);
    if s.len() > 0 {
        lemma_single_spaced_left(s);
        lemma_halved_after('x', s);
        assert(spaced_after('x', s) == seq![s.first()] + spaced_after(s.first(), s.drop_first()));
        assert(r.len() > 0) by {
            if text::stands_at(s, two, 0) {
                assert(r == one + text::replaced(s.skip(2), two, one));
            } else {
                assert(r == seq![s.first()] + text::replaced(s.drop_first(), two, one));
            }
        }
        lemma_single_spaced_left(r);
        assert(spaced_after('x', r) == seq![r.first()] + spaced_after(r.first(), r.drop_first()));
    }
}

/// Halving a text that holds a double space makes it shorter.
proof fn lemma_halved_len(s: Seq<char>)
    ensures
        text::replaced(s, seq![' ', ' '], seq![' ']).len() <= s.len(),
        text::holds_text(s, seq![' ', ' ']) ==> text::replaced(
            s,
            seq![' ', ' '],
            seq![' '],
        ).len() < s.len(),
    decreases s.len(),
{
    let two = seq![' ', ' '];
    if s.len() == 0 {
        if text::holds_text(s, two) {
            let i = choose|i: int| text::stands_at(s, two, i);
            assert(i + 2 <= 0);
        }
    } else if text::stands_at(s, two, 0) {
        lemma_halved_len(s.skip(2));
    } else {
        lemma_halved_len(s.drop_first());
        if text::holds_text(s, two) {
            let i = choose|i: int| text::stands_at(s, two, i);
            assert(i > 0);
            assert(s.drop_first().subrange(i - 1, i + 1) == s.subrange(i, i + 2));
            assert(text::stands_at(s.drop_first(), two, i - 1));
        }
    }
}

/// Shortens every run of spaces to one space.
fn single_space(s: String) -> (r: String)
    ensures
        r@ == single_spaced(s@),
{
    let ghost start = s@;
    let mut cur = s;
    proof {
        reveal_strlit("  ");
        reveal_strlit(" ");
        assert("  "@ == seq![' ', ' ']);
        assert(" "@ == seq![' ']);
    }
    while text::contains_text(cur.as_str(), "  ")
        invariant
            single_spaced(cur@) == single_spaced(start),
            "  "@ == seq![' ', ' '],
            " "@ == seq![' '],
        decreases cur@.len(),
    {
        proof {
            lemma_halved(cur@);
            lemma_halved_len(cur@);
        }
        cur = text::replace_text(cur.as_str(), "  ", " ");
    }
    proof {
        lemma_no_double_space(cur@);
    }
    cur
}

/// The clean-up after the phrases are replaced.
fn tidy(s: &str) -> (r: String)
    ensures
        r@ == tidied(s@),
{
    proof {
        reveal_strlit(" .");
        reveal_strlit(" ,");
        reveal_strlit(" ?");
        reveal_strlit(" !");
        reveal_strlit(" :");
        reveal_strlit(" ;");
        reveal_strlit(".");
        reveal_strlit(",");
        reveal_strlit("?");
        reveal_strlit("!");
        reveal_strlit(":");
        reveal_strlit(";");
        assert(" ."@ == seq![' ', '.'] && "."@ == seq!['.']);
        assert(" ,"@ == seq![' ', ','] && ","@ == seq![',']);
        assert(" ?"@ == seq![' ', '?'] && "?"@ == seq!['?']);
        assert(" !"@ == seq![' ', '!'] && "!"@ == seq!['!']);
        assert(" :"@ == seq![' ', ':'] && ":"@ == seq![':']);
        assert(" ;"@ == seq![' ', ';'] && ";"@ == seq![';']);
    }
    let a = text::replace_text(s, " .", ".");
    let b = text::replace_text(a.as_str(), " ,", ",");
    let c = text::replace_text(b.as_str(), " ?", "?");
    let d = text::replace_text(c.as_str(), " !", "!");
    let e = text::replace_text(d.as_str(), " :", ":");
    let f = text::replace_text(e.as_str(), " ;", ";");
    let g = single_space(f);
    text::trim_text(g.as_str())
}

/// Replaces the phrases of the table, one after the other.
fn rewrite_all(s: &str) -> (r: String)
    ensures
        r@ == rewritten_by(s@, phrases()),
{
    let table = replacements();
    proof {
        lemma_phrases();
    }
    let mut cur = s.to_owned();
    let mut i: usize = 0;
    assert(phrases().skip(0) == phrases());
    while i < table.len()
        invariant
            i <= table@.len(),
            table@ == phrases(),
            forall|k: int| 0 <= k < phrases().len() ==> is_row(#[trigger] phrases()[k]),
            rewritten_by(s@, phrases()) == rewritten_by(cur@, phrases().skip(i as int)),
        decreases table@.len() - i,
    {
        let (spoken, symbol) = table[i];
        assert(is_row(phrases()[i as int]));
        assert(phrases().skip(i as int)[0] == phrases()[i as int]);
        assert(phrases().skip(i as int).drop_first() == phrases().skip(i as int + 1));
        cur = rewrite(cur.as_str(), spoken, symbol);
        i += 1;
    }
    cur
}

/// Converts spoken punctuation to symbols.
pub fn process(s: &str) -> (r: String)
    ensures
        r@ == processed(s@),
{
    let t = rewrite_all(s);
    tidy(t.as_str())
}

// Laws.

proof fn lemma_front(s: Seq<char>, drop: spec_fn(char) -> bool) -> (k: int)
    ensures
        0 <= k <= s.len(),
        text::trim_front(s, drop) == s.skip(k),
        k < s.len() ==> !drop(s[k]),
    decreases s.len(),
{
    if s.len() == 0 || !drop(s[0]) {
        assert(s.skip(0) =~= s);
        0
    } else {
        let k = lemma_front(s.drop_first(), drop);
        assert(s.drop_first().skip(k) =~= s.skip(k + 1));
        k + 1
    }
}

proof fn lemma_back(s: Seq<char>, drop: spec_fn(char) -> bool) -> (k: int)
    ensures
        0 <= k <= s.len(),
        text::trim_back(s, drop) == s.take(k),
        k > 0 ==> !drop(s[k - 1]),
    decreases s.len(),
{
    if s.len() == 0 || !drop(s.last()) {
        assert(s.take(s.len() as int) =~= s);
        s.len() as int
    } else {
        let k = lemma_back(s.drop_last(), drop);
        assert(s.drop_last().take(k) =~= s.take(k));
        k
    }
}

proof fn lemma_single(s: Seq<char>, i: int)
    requires
        0 <= i < single_spaced(s).len() - 1,
    ensures
        !(single_spaced(s)[i] == ' ' && single_spaced(s)[i + 1] == ' '),
    decreases s.len(),
{
    lemma_single_end(s);
    if s.len() >= 2 {
        let rest = single_spaced(s.drop_last());
        lemma_single_end(s.drop_last());
        if i < rest.len() - 1 {
            lemma_single(s.drop_last(), i);
        }
    }
}

proof fn lemma_single_end(s: Seq<char>)
    ensures
        s.len() > 0 ==> single_spaced(s).len() > 0 && single_spaced(s).last() == s.last(),
        s.len() == 0 ==> single_spaced(s).len() == 0,
    decreases s.len(),
{
    if s.len() >= 2 {
        lemma_single_end(s.drop_last());
    }
}

/// The result has no white space at its ends.
pub proof fn law_result_is_trimmed(s: Seq<char>)
    ensures
        text::trimmed(processed(s)) == processed(s),
{
    let drop = |c: char| text::white_space(c);
    let t = processed(s);
    let f = single_spaced(marks_closed_up(rewritten_by(s, phrases())));
    let i = lemma_front(f, drop);
    let front = text::trim_front(f, drop);
    let k = lemma_back(front, drop);
    assert(t == front.take(k));
    let j = lemma_front(t, drop);
    let m = lemma_back(t, drop);
    if t.len() > 0 {
        assert(t[0] == f[i]);
        assert(!drop(t[0]));
        assert(t.last() == front[k - 1]);
        assert(!drop(t.last()));
    }
    assert(text::trim_front(t, drop) == t);
    assert(text::trim_back(t, drop) == t);
}

/// The result has no two spaces in a row.
pub proof fn law_result_is_single_spaced(s: Seq<char>, i: int)
    requires
        0 <= i < processed(s).len() - 1,
    ensures
        !(processed(s)[i] == ' ' && processed(s)[i + 1] == ' '),
{
    let drop = |c: char| text::white_space(c);
    let g = marks_closed_up(rewritten_by(s, phrases()));
    let f = single_spaced(g);
    let from = lemma_front(f, drop);
    let front = text::trim_front(f, drop);
    let k = lemma_back(front, drop);
    assert(processed(s) == front.take(k));
    assert(processed(s)[i] == f[from + i]);
    assert(processed(s)[i + 1] == f[from + i + 1]);
    lemma_single(g, from + i);
}

// Spaces at the ends.

/// The text with a space at each end.
pub open spec fn padded(s: Seq<char>) -> Seq<char> {
    seq![' '] + s + seq![' ']
}

/// A phrase stands in a padded text where it stands in the text itself.
proof fn lemma_stands_padded(hay: Seq<char>, spoken: Seq<char>, i: int)
    requires
        spoken.len() > 0,
        spoken.first() != ' ',
        spoken.last() != ' ',
    ensures
        text::stands_at(padded(hay), spoken, i) == text::stands_at(hay, spoken, i - 1),
{
    let p = padded(hay);
    let n = spoken.len() as int;
    if text::stands_at(p, spoken, i) {
        assert(p.subrange(i, i + n)[0] == p[i]);
        assert(p.subrange(i, i + n)[n - 1] == p[i + n - 1]);
        assert(i > 0);
        assert(i + n < p.len());
        assert(hay.subrange(i - 1, i - 1 + n) =~= p.subrange(i, i + n));
    }
    if text::stands_at(hay, spoken, i - 1) {
        assert(p.subrange(i, i + n) =~= hay.subrange(i - 1, i - 1 + n));
    }
}

/// A step on a padded text gives the padded result.
proof fn lemma_step_padded(s: Seq<char>, spoken: Seq<char>, symbol: Seq<char>)
    requires
        spoken.len() > 0,
        spoken.first() != ' ',
        spoken.last() != ' ',
    ensures
        one_step(padded(s), spoken, symbol) == match one_step(s, spoken, symbol) {
            Some(t) => Some(padded(t)),
            None => None,
        },
{
    let hay = folded(s);
    let long = folded(padded(s));
    assert(long =~= padded(hay));
    assert forall|i: int| #[trigger]
        text::stands_at(long, spoken, i) == text::stands_at(hay, spoken, i - 1) by {
        lemma_stands_padded(hay, spoken, i);
    }
    assert forall|i: int| #[trigger]
        text::stands_at(hay, spoken, i) == text::stands_at(long, spoken, i + 1) by {
        lemma_stands_padded(hay, spoken, i + 1);
    }
    if exists|p: int| text::first_at(hay, spoken, p) {
        let pos = choose|p: int| text::first_at(hay, spoken, p);
        assert(text::first_at(long, spoken, pos + 1)) by {
            assert forall|j: int| 0 <= j < pos + 1 implies !text::stands_at(long, spoken, j) by {
                assert(!text::stands_at(hay, spoken, j - 1));
            }
        }
        let q = choose|p: int| text::first_at(long, spoken, p);
        assert(q == pos + 1);
        let end = pos + spoken.len();
        if ends_phrase(s, end) {
            let t = s.take(pos) + symbol + gap(s, end) + s.skip(resume_at(s, end));
            let u = padded(s).take(q) + symbol + gap(padded(s), end + 1) + padded(s).skip(
                resume_at(padded(s), end + 1),
            );
            if end < s.len() {
                assert(padded(s)[end + 1] == s[end]);
            } else {
                assert(padded(s)[end + 1] == ' ');
            }
            assert(u =~= padded(t));
        } else {
            assert(padded(s)[end + 1] == s[end]);
        }
    } else if exists|p: int| text::first_at(long, spoken, p) {
        let q = choose|p: int| text::first_at(long, spoken, p);
        assert(text::first_at(hay, spoken, q - 1)) by {
            assert forall|j: int| 0 <= j < q - 1 implies !text::stands_at(hay, spoken, j) by {
                assert(!text::stands_at(long, spoken, j + 1));
            }
        }
    }
}

proof fn lemma_rewritten_padded(s: Seq<char>, spoken: Seq<char>, symbol: Seq<char>)
    requires
        shrinks(spoken, symbol),
        spoken.first() != ' ',
        spoken.last() != ' ',
    ensures
        rewritten(padded(s), spoken, symbol) == padded(rewritten(s, spoken, symbol)),
    decreases s.len(),
{
    lemma_step_padded(s, spoken, symbol);
    if let Some(t) = one_step(s, spoken, symbol) {
        lemma_rewritten_padded(t, spoken, symbol);
    }
}

proof fn lemma_rewritten_by_padded(s: Seq<char>, table: Seq<(&str, &str)>)
    requires
        forall|i: int| 0 <= i < table.len() ==> is_row(#[trigger] table[i]),
    ensures
        rewritten_by(padded(s), table) == padded(rewritten_by(s, table)),
    decreases table.len(),
{
    if table.len() > 0 {
        assert(is_row(table[0]));
        lemma_rewritten_padded(s, table[0].0@, table[0].1@);
        let rest = table.drop_first();
        assert forall|i: int| 0 <= i < rest.len() implies is_row(#[trigger] rest[i]) by {
            assert(rest[i] == table[i + 1]);
        }
        lemma_rewritten_by_padded(rewritten(s, table[0].0@, table[0].1@), rest);
    }
}

/// `a` is `b` with a space at its end, and perhaps one at its front.
spec fn spaced_out(a: Seq<char>, b: Seq<char>) -> bool {
    ||| a == b + seq![' ']
    ||| a == padded(b)
}

proof fn lemma_closed_up_back(s: Seq<char>, mark: char)
    requires
        mark != ' ',
    ensures
        closed_up(s + seq![' '], mark) == closed_up(s, mark) + seq![' '],
    decreases s.len(),
{
    let from = seq![' ', mark];
    let t = s + seq![' '];
    if s.len() == 0 {
        assert(t =~= seq![' ']);
        assert(t.drop_first() =~= Seq::<char>::empty());
        assert(closed_up(t.drop_first(), mark) =~= Seq::<char>::empty());
        assert(closed_up(t, mark) =~= seq![' ']);
        assert(closed_up(s, mark) + seq![' '] =~= seq![' ']);
    } else {
        assert(text::stands_at(t, from, 0) == text::stands_at(s, from, 0)) by {
            if s.len() >= 2 {
                assert(t.subrange(0, 2) =~= s.subrange(0, 2));
            } else {
                assert(t.subrange(0, 2)[1] == ' ');
            }
        }
        if text::stands_at(s, from, 0) {
            assert(t.skip(2) =~= s.skip(2) + seq![' ']);
            lemma_closed_up_back(s.skip(2), mark);
            assert(closed_up(t, mark) =~= closed_up(s, mark) + seq![' ']);
        } else {
            assert(t.drop_first() =~= s.drop_first() + seq![' ']);
            lemma_closed_up_back(s.drop_first(), mark);
            assert(closed_up(t, mark) =~= closed_up(s, mark) + seq![' ']);
        }
    }
}

proof fn lemma_closed_up_front(s: Seq<char>, mark: char)
    requires
        mark != ' ',
    ensures
        closed_up(seq![' '] + s, mark) == if s.len() > 0 && s.first() == mark {
            closed_up(s, mark)
        } else {
            seq![' '] + closed_up(s, mark)
        },
{
    let from = seq![' ', mark];
    let t = seq![' '] + s;
    assert(t.drop_first() =~= s);
    if s.len() > 0 && s.first() == mark {
        assert(t.subrange(0, 2) =~= from);
        assert(t.skip(2) =~= s.drop_first());
        assert(!text::stands_at(s, from, 0)) by {
            if s.len() >= 2 {
                assert(s.subrange(0, 2)[0] == mark);
            }
        }
    } else {
        assert(!text::stands_at(t, from, 0)) by {
            if t.len() >= 2 {
                assert(t.subrange(0, 2)[1] == s.first());
            }
        }
    }
}

proof fn lemma_closed_up_spaced_out(a: Seq<char>, b: Seq<char>, mark: char)
    requires
        mark != ' ',
        spaced_out(a, b),
    ensures
        spaced_out(closed_up(a, mark), closed_up(b, mark)),
{
    if a == b + seq![' '] {
        lemma_closed_up_back(b, mark);
    } else {
        lemma_closed_up_back(seq![' '] + b, mark);
        lemma_closed_up_front(b, mark);
    }
}

proof fn lemma_trim_front_back(s: Seq<char>, drop: spec_fn(char) -> bool)
    requires
        drop(' '),
    ensures
        text::trim_front(s, drop).len() == 0 ==> text::trim_front(s + seq![' '], drop).len() == 0,
        text::trim_front(s, drop).len() > 0 ==> text::trim_front(s + seq![' '], drop)
            == text::trim_front(s, drop) + seq![' '],
    decreases s.len(),
{
    let t = s + seq![' '];
    if s.len() == 0 {
        assert(t.drop_first() =~= Seq::<char>::empty());
        reveal_with_fuel(text::trim_front, 2);
    } else if drop(s.first()) {
        assert(t.drop_first() =~= s.drop_first() + seq![' ']);
        lemma_trim_front_back(s.drop_first(), drop);
    }
}

proof fn lemma_trimmed_back(s: Seq<char>)
    ensures
        text::trimmed(s + seq![' ']) == text::trimmed(s),
{
    let drop = |c: char| text::white_space(c);
    lemma_trim_front_back(s, drop);
    let front = text::trim_front(s, drop);
    if front.len() > 0 {
        assert((front + seq![' ']).drop_last() =~= front);
    } else {
        assert(text::trim_front(s + seq![' '], drop) =~= front);
    }
}

proof fn lemma_trimmed_front(s: Seq<char>)
    ensures
        text::trimmed(seq![' '] + s) == text::trimmed(s),
{
    assert((seq![' '] + s).drop_first() =~= s);
}

proof fn lemma_single_back(s: Seq<char>)
    ensures
        text::trimmed(single_spaced(s + seq![' '])) == text::trimmed(single_spaced(s)),
{
    let t = s + seq![' '];
    assert(t.drop_last() =~= s);
    if s.len() == 0 {
        assert(s =~= Seq::<char>::empty());
        assert(single_spaced(s) =~= Seq::<char>::empty());
        assert(single_spaced(t) =~= single_spaced(s) + seq![' ']);
        lemma_trimmed_back(single_spaced(s));
    } else if s.last() != ' ' {
        assert(single_spaced(t) =~= single_spaced(s) + seq![' ']);
        lemma_trimmed_back(single_spaced(s));
    }
}

proof fn lemma_single_front(s: Seq<char>)
    ensures
        text::trimmed(single_spaced(seq![' '] + s)) == text::trimmed(single_spaced(s)),
{
    let t = seq![' '] + s;
    assert(t.drop_first() =~= s);
    lemma_single_spaced_left(t);
    lemma_single_spaced_left(s);
    if s.len() == 0 {
        assert(single_spaced(s) =~= Seq::<char>::empty());
        assert(single_spaced(t) =~= seq![' '] + single_spaced(s));
    } else if s.first() != ' ' {
        assert(single_spaced(t) =~= seq![' '] + single_spaced(s));
    } else {
        assert(single_spaced(t) =~= single_spaced(s));
    }
    lemma_trimmed_front(single_spaced(s));
}

proof fn lemma_tidied_padded(s: Seq<char>)
    ensures
        tidied(padded(s)) == tidied(s),
{
    let p = padded(s);
    lemma_closed_up_spaced_out(p, s, '.');
    let (p, s) = (closed_up(p, '.'), closed_up(s, '.'));
    lemma_closed_up_spaced_out(p, s, ',');
    let (p, s) = (closed_up(p, ','), closed_up(s, ','));
    lemma_closed_up_spaced_out(p, s, '?');
    let (p, s) = (closed_up(p, '?'), closed_up(s, '?'));
    lemma_closed_up_spaced_out(p, s, '!');
    let (p, s) = (closed_up(p, '!'), closed_up(s, '!'));
    lemma_closed_up_spaced_out(p, s, ':');
    let (p, s) = (closed_up(p, ':'), closed_up(s, ':'));
    lemma_closed_up_spaced_out(p, s, ';');
    let (p, s) = (closed_up(p, ';'), closed_up(s, ';'));
    if p == s + seq![' '] {
        lemma_single_back(s);
    } else {
        lemma_single_back(seq![' '] + s);
        lemma_single_front(s);
    }
}

/// A space at each end of a text does not change what it is turned into.
pub proof fn law_outer_spaces_do_not_count(s: Seq<char>)
    ensures
        processed(seq![' '] + s + seq![' ']) == processed(s),
{
    lemma_phrases();
    lemma_rewritten_by_padded(s, phrases());
    lemma_tidied_padded(rewritten_by(s, phrases()));
}

// Letters in upper and lower case.

proof fn lemma_fold(c: char)
    ensures
        fold(fold(c)) == fold(c),
        text::white_space(fold(c)) == text::white_space(c),
        ascii_punctuation(fold(c)) == ascii_punctuation(c),
        fold(c) == ' ' <==> c == ' ',
{
}

proof fn lemma_step_folded(s: Seq<char>, spoken: Seq<char>, symbol: Seq<char>)
    requires
        folded(symbol) == symbol,
    ensures
        one_step(folded(s), spoken, symbol) == match one_step(s, spoken, symbol) {
            Some(t) => Some(folded(t)),
            None => None,
        },
{
    let f = folded(s);
    assert(folded(f) =~= f) by {
        assert forall|i: int| 0 <= i < s.len() implies folded(f)[i] == f[i] by {
            lemma_fold(s[i]);
        }
    }
    if exists|p: int| text::first_at(f, spoken, p) {
        let pos = choose|p: int| text::first_at(f, spoken, p);
        let end = pos + spoken.len();
        if end < s.len() {
            lemma_fold(s[end]);
        }
        let t = s.take(pos) + symbol + gap(s, end) + s.skip(resume_at(s, end));
        let u = f.take(pos) + symbol + gap(f, end) + f.skip(resume_at(f, end));
        lemma_fold(' ');
        assert(folded(t) =~= u) by {
            assert(folded(s.take(pos)) =~= f.take(pos));
            assert(folded(gap(s, end)) =~= gap(f, end));
            assert(folded(s.skip(resume_at(s, end))) =~= f.skip(resume_at(f, end)));
            assert(folded(t) =~= folded(s.take(pos)) + folded(symbol) + folded(gap(s, end))
                + folded(s.skip(resume_at(s, end))));
        }
    }
}

proof fn lemma_rewritten_folded(s: Seq<char>, spoken: Seq<char>, symbol: Seq<char>)
    requires
        shrinks(spoken, symbol),
        folded(symbol) == symbol,
    ensures
        rewritten(folded(s), spoken, symbol) == folded(rewritten(s, spoken, symbol)),
    decreases s.len(),
{
    lemma_step_folded(s, spoken, symbol);
    if let Some(t) = one_step(s, spoken, symbol) {
        lemma_rewritten_folded(t, spoken, symbol);
    }
}

proof fn lemma_rewritten_by_folded(s: Seq<char>, table: Seq<(&str, &str)>)
    requires
        forall|i: int| 0 <= i < table.len() ==> is_row(#[trigger] table[i]),
    ensures
        rewritten_by(folded(s), table) == folded(rewritten_by(s, table)),
    decreases table.len(),
{
    if table.len() > 0 {
        assert(is_row(table[0]));
        lemma_rewritten_folded(s, table[0].0@, table[0].1@);
        let rest = table.drop_first();
        assert forall|i: int| 0 <= i < rest.len() implies is_row(#[trigger] rest[i]) by {
            assert(rest[i] == table[i + 1]);
        }
        lemma_rewritten_by_folded(rewritten(s, table[0].0@, table[0].1@), rest);
    }
}

proof fn lemma_closed_up_folded(s: Seq<char>, mark: char)
    requires
        ascii_punctuation(mark),
    ensures
        closed_up(folded(s), mark) == folded(closed_up(s, mark)),
    decreases s.len(),
{
    let f = folded(s);
    let from = seq![' ', mark];
    if s.len() == 0 {
        assert(closed_up(f, mark) =~= folded(closed_up(s, mark)));
    } else {
        assert(text::stands_at(f, from, 0) == text::stands_at(s, from, 0)) by {
            if s.len() >= 2 {
                lemma_fold(s[0]);
                lemma_fold(s[1]);
                assert(f.subrange(0, 2)[0] == f[0]);
                assert(f.subrange(0, 2)[1] == f[1]);
                assert(s.subrange(0, 2)[0] == s[0]);
                assert(s.subrange(0, 2)[1] == s[1]);
                if text::stands_at(s, from, 0) {
                    assert(f.subrange(0, 2) =~= from);
                }
                if text::stands_at(f, from, 0) {
                    assert(s.subrange(0, 2) =~= from);
                }
            }
        }
        if text::stands_at(s, from, 0) {
            assert(f.skip(2) =~= folded(s.skip(2)));
            lemma_closed_up_folded(s.skip(2), mark);
            assert(folded(seq![mark] + closed_up(s.skip(2), mark)) =~= seq![mark] + folded(
                closed_up(s.skip(2), mark),
            ));
        } else {
            assert(f.drop_first() =~= folded(s.drop_first()));
            lemma_closed_up_folded(s.drop_first(), mark);
            assert(folded(seq![s.first()] + closed_up(s.drop_first(), mark)) =~= seq![f.first()]
                + folded(closed_up(s.drop_first(), mark)));
        }
    }
}

proof fn lemma_single_folded(s: Seq<char>)
    ensures
        single_spaced(folded(s)) == folded(single_spaced(s)),
    decreases s.len(),
{
    let f = folded(s);
    if s.len() >= 2 {
        assert(f.drop_last() =~= folded(s.drop_last()));
        lemma_single_folded(s.drop_last());
        lemma_fold(s.last());
        lemma_fold(s[s.len() - 2]);
        let rest = single_spaced(s.drop_last());
        assert(folded(rest.push(s.last())) =~= folded(rest).push(f.last()));
    }
}

proof fn lemma_trim_folded(s: Seq<char>, drop: spec_fn(char) -> bool)
    requires
        drop == (|c: char| text::white_space(c)),
    ensures
        text::trim_front(folded(s), drop) == folded(text::trim_front(s, drop)),
        text::trim_back(folded(s), drop) == folded(text::trim_back(s, drop)),
    decreases s.len(),
{
    let f = folded(s);
    if s.len() > 0 {
        lemma_fold(s.first());
        lemma_fold(s.last());
        assert(f.drop_first() =~= folded(s.drop_first()));
        assert(f.drop_last() =~= folded(s.drop_last()));
        lemma_trim_folded(s.drop_first(), drop);
        lemma_trim_folded(s.drop_last(), drop);
    }
}

/// The case of the letters does not count: a text in lower case is turned into
/// the lower-case form of what the text itself is turned into.
pub proof fn law_case_does_not_count(s: Seq<char>)
    ensures
        processed(folded(s)) == folded(processed(s)),
{
    lemma_phrases();
    lemma_rewritten_by_folded(s, phrases());
    let t = rewritten_by(s, phrases());
    lemma_closed_up_folded(t, '.');
    let t = closed_up(t, '.');
    lemma_closed_up_folded(t, ',');
    let t = closed_up(t, ',');
    lemma_closed_up_folded(t, '?');
    let t = closed_up(t, '?');
    lemma_closed_up_folded(t, '!');
    let t = closed_up(t, '!');
    lemma_closed_up_folded(t, ':');
    let t = closed_up(t, ':');
    lemma_closed_up_folded(t, ';');
    let t = closed_up(t, ';');
    lemma_single_folded(t);
    let drop = |c: char| text::white_space(c);
    lemma_trim_folded(single_spaced(t), drop);
    lemma_trim_folded(text::trim_front(single_spaced(t), drop), drop);
}

} // verus!
