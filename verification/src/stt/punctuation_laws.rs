//! What turning spoken punctuation into symbols is for.
use crate::stt::punctuation;
use crate::text;
use vstd::prelude::*;

verus! {

// Characters.

/// ASCII punctuation is every visible ASCII character that is neither a digit nor a
/// letter.
pub proof fn law_punctuation_is_what_is_no_letter_or_digit(c: char)
    ensures
        punctuation::ascii_punctuation(c) <==> {
            &&& 0x20 < c as int
            &&& (c as int) < 0x7f
            &&& !('0' <= c <= '9')
            &&& !('A' <= c <= 'Z')
            &&& !('a' <= c <= 'z')
        },
{
}

/// The search takes a letter in upper case for the one in lower case, the sign for
/// kelvin for a `k`, and every other character for itself.
pub proof fn law_search_ignores_case(c: char)
    ensures
        'A' <= c <= 'Z' ==> punctuation::fold(c) as int == c as int + 32,
        c == '\u{212a}' ==> punctuation::fold(c) == 'k',
        !('A' <= c <= 'Z') && c != '\u{212a}' ==> punctuation::fold(c) == c,
{
}

// One phrase.

/// The phrase stands in the text at `i`, whatever the case of its letters.
pub open spec fn spoken_at(s: Seq<char>, spoken: Seq<char>, i: int) -> bool {
    &&& 0 <= i
    &&& i + spoken.len() <= s.len()
    &&& forall|k: int| 0 <= k < spoken.len() ==> punctuation::fold(s[i + k]) == #[trigger] spoken[k]
}

/// A word may end before a character: white space or ASCII punctuation.
pub open spec fn parts_words(c: char) -> bool {
    text::white_space(c) || punctuation::ascii_punctuation(c)
}

proof fn lemma_spoken_at(s: Seq<char>, spoken: Seq<char>, i: int)
    ensures
        spoken_at(s, spoken, i) == text::stands_at(punctuation::folded(s), spoken, i),
{
    crate::text_laws::law_standing_means_equal_characters(punctuation::folded(s), spoken, i);
    if text::stands_at(punctuation::folded(s), spoken, i) {
        assert forall|k: int| 0 <= k < spoken.len() implies punctuation::fold(s[i + k])
            == #[trigger] spoken[k] by {
            assert(punctuation::folded(s)[i + k] == spoken[k]);
        }
    }
    if spoken_at(s, spoken, i) {
        assert forall|k: int| 0 <= k < spoken.len() implies punctuation::folded(s)[i + k]
            == #[trigger] spoken[k] by {
            assert(punctuation::fold(s[i + k]) == spoken[k]);
        }
    }
}

/// The first phrase is replaced where it stands alone: what comes before it stays, the
/// symbol takes its place, and the rest follows, behind a space of its own if it begins
/// with other white space.
pub proof fn law_first_phrase_is_replaced(s: Seq<char>, spoken: Seq<char>, symbol: Seq<char>, i: int)
    requires
        spoken_at(s, spoken, i),
        forall|j: int| 0 <= j < i ==> !spoken_at(s, spoken, j),
        i + spoken.len() < s.len() ==> parts_words(s[i + spoken.len()]),
    ensures
        ({
            let rest = s.skip(i + spoken.len());
            punctuation::one_step(s, spoken, symbol) == Some(
                s.take(i) + symbol + (if rest.len() > 0 && text::white_space(rest[0]) && rest[0]
                    != ' ' {
                    seq![' ']
                } else {
                    seq![]
                }) + rest,
            )
        }),
{
    let f = punctuation::folded(s);
    lemma_spoken_at(s, spoken, i);
    assert forall|j: int| 0 <= j < i implies !text::stands_at(f, spoken, j) by {
        lemma_spoken_at(s, spoken, j);
        assert(!spoken_at(s, spoken, j));
    }
    assert(text::first_at(f, spoken, i));
    let p = choose|p: int| text::first_at(f, spoken, p);
    assert(p == i) by {
        if p < i {
            assert(!text::stands_at(f, spoken, p));
        } else if i < p {
            assert(!text::stands_at(f, spoken, i));
        }
    }
    let end = i + spoken.len();
    let rest = s.skip(end);
    let got = s.take(i) + symbol + punctuation::gap(s, end) + s.skip(
        punctuation::resume_at(s, end),
    );
    if end < s.len() && s[end] == ' ' {
        assert(got =~= s.take(i) + symbol + Seq::<char>::empty() + rest);
    } else {
        assert(got =~= s.take(i) + symbol + (if rest.len() > 0 && text::white_space(rest[0])
            && rest[0] != ' ' {
            seq![' ']
        } else {
            seq![]
        }) + rest);
    }
}

/// Nothing is replaced where there is no phrase, or where the first one goes on as a
/// longer word.
pub proof fn law_longer_words_are_left_alone(s: Seq<char>, spoken: Seq<char>, symbol: Seq<char>, i: int)
    requires
        forall|j: int| 0 <= j < i ==> !spoken_at(s, spoken, j),
        0 <= i,
        i > s.len() || (spoken_at(s, spoken, i) && i + spoken.len() < s.len() && !parts_words(
            s[i + spoken.len()],
        )),
    ensures
        punctuation::one_step(s, spoken, symbol) is None,
{
    let f = punctuation::folded(s);
    if exists|p: int| text::first_at(f, spoken, p) {
        let p = choose|p: int| text::first_at(f, spoken, p);
        lemma_spoken_at(s, spoken, p);
        if i <= s.len() {
            lemma_spoken_at(s, spoken, i);
            assert(p == i) by {
                if p < i {
                    assert(!spoken_at(s, spoken, p));
                } else if i < p {
                    assert(!text::stands_at(f, spoken, i));
                }
            }
        } else {
            assert(!spoken_at(s, spoken, p));
        }
    }
}

/// Replacing goes on as long as there is something to replace: in the end the first
/// phrase, if there is one, goes on as a longer word.
pub proof fn law_no_phrase_is_left(s: Seq<char>, spoken: Seq<char>, symbol: Seq<char>)
    requires
        punctuation::shrinks(spoken, symbol),
    ensures
        ({
            let r = punctuation::rewritten(s, spoken, symbol);
            &&& punctuation::one_step(r, spoken, symbol) is None
            &&& forall|p: int|
                #![trigger spoken_at(r, spoken, p)]
                spoken_at(r, spoken, p) && (forall|j: int| 0 <= j < p ==> !spoken_at(r, spoken, j))
                    ==> p + spoken.len() < r.len() && !parts_words(r[p + spoken.len()])
        }),
    decreases s.len(),
{
    match punctuation::one_step(s, spoken, symbol) {
        Some(t) => {
            law_no_phrase_is_left(t, spoken, symbol);
        },
        None => {
            assert forall|p: int|
                #![trigger spoken_at(s, spoken, p)]
                spoken_at(s, spoken, p) && (forall|j: int|
                    0 <= j < p ==> !spoken_at(s, spoken, j)) implies p + spoken.len() < s.len()
                && !parts_words(s[p + spoken.len()]) by {
                if p + spoken.len() >= s.len() || parts_words(s[p + spoken.len()]) {
                    law_first_phrase_is_replaced(s, spoken, symbol, p);
                }
            }
        },
    }
}

/// A text and what one replacement makes of it come to the same in the end; a text with
/// nothing to replace stays.
pub proof fn law_replacing_goes_on(s: Seq<char>, spoken: Seq<char>, symbol: Seq<char>)
    requires
        punctuation::shrinks(spoken, symbol),
    ensures
        match punctuation::one_step(s, spoken, symbol) {
            Some(t) => punctuation::rewritten(s, spoken, symbol) == punctuation::rewritten(
                t,
                spoken,
                symbol,
            ),
            None => punctuation::rewritten(s, spoken, symbol) == s,
        },
{
}

// The table.

/// All rows count, in their order: two tables one after the other do what the first
/// does and then the second.
pub proof fn law_rows_are_applied_in_order(
    s: Seq<char>,
    first: Seq<(&str, &str)>,
    second: Seq<(&str, &str)>,
    row: (&str, &str),
)
    ensures
        punctuation::rewritten_by(s, first + second) == punctuation::rewritten_by(
            punctuation::rewritten_by(s, first),
            second,
        ),
        punctuation::rewritten_by(s, seq![row]) == punctuation::rewritten(s, row.0@, row.1@),
        punctuation::rewritten_by(s, seq![]) == s,
    decreases first.len(),
{
    reveal_with_fuel(punctuation::rewritten_by, 2);
    assert(seq![row].drop_first() =~= seq![]);
    if first.len() == 0 {
        assert(first + second =~= second);
    } else {
        let t = punctuation::rewritten(s, first[0].0@, first[0].1@);
        law_rows_are_applied_in_order(t, first.drop_first(), second, row);
        assert((first + second).drop_first() =~= first.drop_first() + second);
    }
}

/// A text is turned into what the rows of the table make of it, tidied.
pub proof fn law_phrases_are_replaced_before_tidying(s: Seq<char>)
    ensures
        punctuation::processed(s) == punctuation::tidied(
            punctuation::rewritten_by(s, punctuation::phrases()),
        ),
{
}

proof fn lemma_untouched(s: Seq<char>, table: Seq<(&str, &str)>)
    requires
        forall|i: int|
            0 <= i < table.len() ==> punctuation::shrinks(#[trigger] table[i].0@, table[i].1@),
        forall|i: int, p: int|
            0 <= i < table.len() ==> !(#[trigger] spoken_at(s, table[i].0@, p)),
    ensures
        punctuation::rewritten_by(s, table) == s,
    decreases table.len(),
{
    if table.len() > 0 {
        law_longer_words_are_left_alone(s, table[0].0@, table[0].1@, s.len() as int + 1);
        let rest = table.drop_first();
        assert forall|i: int| 0 <= i < rest.len() implies punctuation::shrinks(
            #[trigger] rest[i].0@,
            rest[i].1@,
        ) by {
            assert(rest[i] == table[i + 1]);
        }
        assert forall|i: int, p: int| 0 <= i < rest.len() implies !(#[trigger] spoken_at(
            s,
            rest[i].0@,
            p,
        )) by {
            assert(rest[i] == table[i + 1]);
        }
        lemma_untouched(s, rest);
    }
}

/// A text that holds none of the phrases is only tidied.
pub proof fn law_text_without_phrases_is_only_tidied(s: Seq<char>)
    requires
        forall|i: int, p: int|
            0 <= i < punctuation::phrases().len() ==> !(#[trigger] spoken_at(
                s,
                punctuation::phrases()[i].0@,
                p,
            )),
    ensures
        punctuation::processed(s) == punctuation::tidied(s),
{
    punctuation::lemma_phrases_shrink();
    lemma_untouched(s, punctuation::phrases());
}

// Tidying.

/// The characters of a text that are no white space, in order.
pub open spec fn visible(s: Seq<char>) -> Seq<char> {
    s.filter(|c: char| !text::white_space(c))
}

proof fn lemma_visible_add(a: Seq<char>, b: Seq<char>)
    ensures
        visible(a + b) == visible(a) + visible(b),
{
    Seq::filter_distributes_over_add(a, b, |c: char| !text::white_space(c));
}

proof fn lemma_visible_one(c: char)
    ensures
        visible(seq![c]) == (if text::white_space(c) {
            seq![]
        } else {
            seq![c]
        }),
{
    reveal(Seq::filter);
    let one = seq![c];
    assert(one.drop_last() =~= seq![]);
    assert(visible(seq![]) =~= seq![]);
    assert(visible(one) =~= if text::white_space(c) {
        seq![]
    } else {
        seq![c]
    });
}

proof fn lemma_visible_dropped(s: Seq<char>)
    requires
        forall|i: int| 0 <= i < s.len() ==> text::white_space(#[trigger] s[i]),
    ensures
        visible(s) == Seq::<char>::empty(),
    decreases s.len(),
{
    reveal(Seq::filter);
    if s.len() > 0 {
        let t = s.drop_last();
        assert forall|i: int| 0 <= i < t.len() implies text::white_space(#[trigger] t[i]) by {
            assert(t[i] == s[i]);
        }
        lemma_visible_dropped(t);
        assert(text::white_space(s[s.len() - 1]));
    }
}

proof fn lemma_closed_up_visible(s: Seq<char>, mark: char)
    requires
        mark != ' ',
    ensures
        visible(punctuation::closed_up(s, mark)) == visible(s),
    decreases s.len(),
{
    let from = seq![' ', mark];
    if s.len() > 0 {
        if text::stands_at(s, from, 0) {
            let rest = s.skip(2);
            lemma_closed_up_visible(rest, mark);
            assert(s.subrange(0, 2)[0] == s[0] && s.subrange(0, 2)[1] == s[1]);
            assert(s =~= seq![' '] + seq![mark] + rest);
            lemma_visible_add(seq![' '] + seq![mark], rest);
            lemma_visible_add(seq![' '], seq![mark]);
            lemma_visible_one(' ');
            lemma_visible_add(seq![mark], punctuation::closed_up(rest, mark));
            assert(visible(s) =~= visible(seq![mark]) + visible(rest));
        } else {
            let rest = s.drop_first();
            lemma_closed_up_visible(rest, mark);
            assert(s =~= seq![s.first()] + rest);
            lemma_visible_add(seq![s.first()], rest);
            lemma_visible_add(seq![s.first()], punctuation::closed_up(rest, mark));
        }
    }
}

proof fn lemma_single_visible(s: Seq<char>)
    ensures
        visible(punctuation::single_spaced(s)) == visible(s),
    decreases s.len(),
{
    if s.len() >= 2 {
        let t = s.drop_last();
        lemma_single_visible(t);
        assert(s =~= t + seq![s.last()]);
        lemma_visible_add(t, seq![s.last()]);
        lemma_visible_one(s.last());
        let rest = punctuation::single_spaced(t);
        assert(rest.push(s.last()) =~= rest + seq![s.last()]);
        lemma_visible_add(rest, seq![s.last()]);
        assert(visible(t) + Seq::<char>::empty() =~= visible(t));
    }
}

/// Tidying moves nothing and loses nothing but white space.
pub proof fn law_tidying_keeps_what_is_visible(s: Seq<char>)
    ensures
        visible(punctuation::tidied(s)) == visible(s),
{
    lemma_closed_up_visible(s, '.');
    let a = punctuation::closed_up(s, '.');
    lemma_closed_up_visible(a, ',');
    let b = punctuation::closed_up(a, ',');
    lemma_closed_up_visible(b, '?');
    let c = punctuation::closed_up(b, '?');
    lemma_closed_up_visible(c, '!');
    let d = punctuation::closed_up(c, '!');
    lemma_closed_up_visible(d, ':');
    let e = punctuation::closed_up(d, ':');
    lemma_closed_up_visible(e, ';');
    let f = punctuation::single_spaced(punctuation::closed_up(e, ';'));
    lemma_single_visible(punctuation::closed_up(e, ';'));
    crate::text_laws::law_trimming_takes_only_white_space(f);
    let (i, j) = choose|i: int, j: int| #[trigger]
        crate::text_laws::is_spaceless_core(f, text::trimmed(f), i, j);
    let head = f.take(i);
    let tail = f.skip(j);
    assert(f =~= head + text::trimmed(f) + tail);
    assert forall|k: int| 0 <= k < head.len() implies text::white_space(#[trigger] head[k]) by {
        assert(head[k] == f[k]);
    }
    assert forall|k: int| 0 <= k < tail.len() implies text::white_space(#[trigger] tail[k]) by {
        assert(tail[k] == f[j + k]);
    }
    lemma_visible_dropped(head);
    lemma_visible_dropped(tail);
    lemma_visible_add(head + text::trimmed(f), tail);
    lemma_visible_add(head, text::trimmed(f));
    assert(visible(f) =~= visible(text::trimmed(f)));
}

/// One of the marks before which a space falls away.
pub open spec fn closes_up(c: char) -> bool {
    c == '.' || c == ',' || c == '?' || c == '!' || c == ':' || c == ';'
}

/// A text is tidy: it neither begins nor ends with white space, no space stands before
/// another or before a mark that closes up.
pub open spec fn is_tidy(s: Seq<char>) -> bool {
    &&& s.len() > 0 ==> !text::white_space(s.first()) && !text::white_space(s.last())
    &&& forall|i: int|
        0 <= i < s.len() - 1 && #[trigger] s[i] == ' ' ==> s[i + 1] != ' ' && !closes_up(s[i + 1])
}

proof fn lemma_tidy_closed_up(s: Seq<char>, mark: char)
    requires
        is_tidy(s),
        closes_up(mark),
    ensures
        punctuation::closed_up(s, mark) == s,
{
    let from = seq![' ', mark];
    assert forall|i: int| !text::stands_at(s, from, i) by {
        if text::stands_at(s, from, i) {
            assert(s.subrange(i, i + 2)[0] == s[i]);
            assert(s.subrange(i, i + 2)[1] == s[i + 1]);
        }
    }
    crate::text_laws::law_nothing_to_replace(s, from, seq![mark]);
}

proof fn lemma_tidy_single(s: Seq<char>)
    requires
        forall|i: int| 0 <= i < s.len() - 1 && #[trigger] s[i] == ' ' ==> s[i + 1] != ' ',
    ensures
        punctuation::single_spaced(s) == s,
    decreases s.len(),
{
    if s.len() >= 2 {
        let t = s.drop_last();
        assert forall|i: int| 0 <= i < t.len() - 1 && #[trigger] t[i] == ' ' implies t[i + 1]
            != ' ' by {
            assert(s[i] == ' ');
        }
        lemma_tidy_single(t);
        assert(s[s.len() - 2] == t.last());
        assert(t.push(s.last()) =~= s);
    }
}

/// A tidy text is not changed by tidying.
pub proof fn law_tidy_text_stays(s: Seq<char>)
    requires
        is_tidy(s),
    ensures
        punctuation::tidied(s) == s,
{
    lemma_tidy_closed_up(s, '.');
    lemma_tidy_closed_up(s, ',');
    lemma_tidy_closed_up(s, '?');
    lemma_tidy_closed_up(s, '!');
    lemma_tidy_closed_up(s, ':');
    lemma_tidy_closed_up(s, ';');
    lemma_tidy_single(s);
    let drop = |c: char| text::white_space(c);
    assert(text::trim_front(s, drop) == s);
    assert(text::trim_back(s, drop) == s);
}

/// A text is closed up in two parts where no space before the mark is parted.
proof fn lemma_closed_up_parts(a: Seq<char>, b: Seq<char>, mark: char)
    requires
        !(a.len() > 0 && b.len() > 0 && a.last() == ' ' && b.first() == mark),
    ensures
        punctuation::closed_up(a + b, mark) == punctuation::closed_up(a, mark)
            + punctuation::closed_up(b, mark),
    decreases a.len(),
{
    let from = seq![' ', mark];
    let s = a + b;
    if a.len() == 0 {
        assert(s =~= b);
        assert(punctuation::closed_up(a, mark) + punctuation::closed_up(b, mark)
            =~= punctuation::closed_up(b, mark));
    } else {
        assert(text::stands_at(s, from, 0) == text::stands_at(a, from, 0)) by {
            if a.len() >= 2 {
                assert(s.subrange(0, 2) =~= a.subrange(0, 2));
            } else if s.len() >= 2 {
                assert(s.subrange(0, 2)[0] == a[0]);
                assert(s.subrange(0, 2)[1] == b[0]);
            }
        }
        if text::stands_at(a, from, 0) {
            let t = a.skip(2);
            assert(a.len() > 2 ==> t.last() == a.last());
            lemma_closed_up_parts(t, b, mark);
            assert(s.skip(2) =~= t + b);
            assert(punctuation::closed_up(s, mark) =~= punctuation::closed_up(a, mark)
                + punctuation::closed_up(b, mark));
        } else {
            let t = a.drop_first();
            assert(a.len() > 1 ==> t.last() == a.last());
            lemma_closed_up_parts(t, b, mark);
            assert(s.drop_first() =~= t + b);
            assert(punctuation::closed_up(s, mark) =~= punctuation::closed_up(a, mark)
                + punctuation::closed_up(b, mark));
        }
    }
}

proof fn lemma_closed_up_end(a: Seq<char>, mark: char)
    requires
        mark != ' ',
        a.len() > 0,
        a.last() != ' ',
    ensures
        punctuation::closed_up(a, mark).len() > 0,
        punctuation::closed_up(a, mark).last() != ' ',
    decreases a.len(),
{
    let from = seq![' ', mark];
    if text::stands_at(a, from, 0) {
        let t = a.skip(2);
        if t.len() > 0 {
            lemma_closed_up_end(t, mark);
        } else {
            assert(punctuation::closed_up(t, mark) =~= seq![]);
            assert(punctuation::closed_up(a, mark) =~= seq![mark]);
        }
    } else {
        let t = a.drop_first();
        if t.len() > 0 {
            lemma_closed_up_end(t, mark);
        } else {
            assert(punctuation::closed_up(t, mark) =~= seq![]);
            assert(punctuation::closed_up(a, mark) =~= seq![a.first()]);
        }
    }
}

proof fn lemma_closed_up_one(c: char, mark: char)
    ensures
        punctuation::closed_up(seq![c], mark) == seq![c],
{
    let one = seq![c];
    assert(!text::stands_at(one, seq![' ', mark], 0));
    assert(one.drop_first() =~= seq![]);
    assert(punctuation::closed_up(seq![], mark) =~= seq![]);
    assert(punctuation::closed_up(one, mark) =~= one);
}

/// The texts before a mark, with a space before it and without: closing up the space
/// before another mark leaves them so, and before this mark makes them one.
proof fn lemma_closing_one(
    a: Seq<char>,
    m: char,
    b: Seq<char>,
    mark: char,
) -> (r: (Seq<char>, Seq<char>))
    requires
        closes_up(m),
        closes_up(mark),
        a.len() > 0,
        a.last() != ' ',
    ensures
        r.0.len() > 0,
        r.0.last() != ' ',
        punctuation::closed_up(a + seq![m] + b, mark) == r.0 + seq![m] + r.1,
        punctuation::closed_up(a + seq![' '] + seq![m] + b, mark) == if m == mark {
            r.0 + seq![m] + r.1
        } else {
            r.0 + seq![' '] + seq![m] + r.1
        },
{
    let x = punctuation::closed_up(a, mark);
    let y = punctuation::closed_up(b, mark);
    lemma_closed_up_end(a, mark);
    lemma_closed_up_one(m, mark);
    lemma_closed_up_one(' ', mark);
    lemma_closed_up_parts(a, seq![m], mark);
    lemma_closed_up_parts(a + seq![m], b, mark);
    let space = seq![' '];
    lemma_closed_up_parts(a, space, mark);
    if m == mark {
        let pair = seq![' ', m];
        assert(space + seq![m] =~= pair);
        assert(pair.subrange(0, 2) =~= pair);
        assert(pair.skip(2) =~= seq![]);
        assert(punctuation::closed_up(seq![], mark) =~= seq![]);
        assert(punctuation::closed_up(pair, mark) =~= seq![m]);
        lemma_closed_up_parts(a, pair, mark);
        lemma_closed_up_parts(a + pair, b, mark);
        assert(a + space + seq![m] + b =~= a + pair + b);
    } else {
        lemma_closed_up_parts(a + space, seq![m], mark);
        lemma_closed_up_parts(a + space + seq![m], b, mark);
    }
    (x, y)
}

/// A space between a word and a mark falls away: with it and without it a text is
/// tidied to the same.
pub proof fn law_space_before_a_mark_falls_away(a: Seq<char>, m: char, b: Seq<char>)
    requires
        closes_up(m),
        a.len() > 0,
        a.last() != ' ',
    ensures
        punctuation::tidied(a + seq![' '] + seq![m] + b) == punctuation::tidied(a + seq![m] + b),
{
    let (a1, b1) = lemma_closing_one(a, m, b, '.');
    let (a2, b2) = lemma_closing_one(a1, m, b1, ',');
    let (a3, b3) = lemma_closing_one(a2, m, b2, '?');
    let (a4, b4) = lemma_closing_one(a3, m, b3, '!');
    let (a5, b5) = lemma_closing_one(a4, m, b4, ':');
    let (a6, b6) = lemma_closing_one(a5, m, b5, ';');
}

proof fn lemma_single_run(a: Seq<char>, b: Seq<char>)
    ensures
        punctuation::single_spaced(a + seq![' ', ' '] + b) == punctuation::single_spaced(
            a + seq![' '] + b,
        ),
    decreases b.len(),
{
    let two = a + seq![' ', ' '] + b;
    let one = a + seq![' '] + b;
    if b.len() == 0 {
        assert(two.drop_last() =~= one);
    } else {
        let t = b.drop_last();
        lemma_single_run(a, t);
        assert(two.drop_last() =~= a + seq![' ', ' '] + t);
        assert(one.drop_last() =~= a + seq![' '] + t);
        assert(two.last() == one.last());
        assert(two[two.len() - 2] == one[one.len() - 2]) by {
            if b.len() >= 2 {
                assert(two[two.len() - 2] == b[b.len() - 2]);
                assert(one[one.len() - 2] == b[b.len() - 2]);
            }
        }
    }
}

proof fn lemma_closed_up_begin(b: Seq<char>, mark: char)
    requires
        b.len() > 0,
        b.first() != ' ',
    ensures
        punctuation::closed_up(b, mark).len() > 0,
        punctuation::closed_up(b, mark).first() == b.first(),
{
    assert(!text::stands_at(b, seq![' ', mark], 0)) by {
        if b.len() >= 2 {
            assert(b.subrange(0, 2)[0] == b[0]);
        }
    }
}

proof fn lemma_closing_run(a: Seq<char>, b: Seq<char>, mark: char) -> (r: (Seq<char>, Seq<char>))
    requires
        closes_up(mark),
        b.len() > 0,
        b.first() != ' ',
        !closes_up(b.first()),
    ensures
        r.1.len() > 0,
        r.1.first() == b.first(),
        punctuation::closed_up(a + seq![' ', ' '] + b, mark) == r.0 + seq![' ', ' '] + r.1,
        punctuation::closed_up(a + seq![' '] + b, mark) == r.0 + seq![' '] + r.1,
{
    let two = seq![' ', ' '];
    let one = seq![' '];
    assert(two =~= one + one);
    lemma_closed_up_one(' ', mark);
    lemma_closed_up_parts(one, one, mark);
    lemma_closed_up_parts(a, two, mark);
    lemma_closed_up_parts(a + two, b, mark);
    lemma_closed_up_parts(a, one, mark);
    lemma_closed_up_parts(a + one, b, mark);
    lemma_closed_up_begin(b, mark);
    (punctuation::closed_up(a, mark), punctuation::closed_up(b, mark))
}

/// A run of spaces before a word counts as one space: with one space more or less a text
/// is tidied to the same.
pub proof fn law_runs_of_spaces_count_as_one(a: Seq<char>, b: Seq<char>)
    requires
        b.len() > 0,
        b.first() != ' ',
        !closes_up(b.first()),
    ensures
        punctuation::tidied(a + seq![' ', ' '] + b) == punctuation::tidied(a + seq![' '] + b),
{
    let (a1, b1) = lemma_closing_run(a, b, '.');
    let (a2, b2) = lemma_closing_run(a1, b1, ',');
    let (a3, b3) = lemma_closing_run(a2, b2, '?');
    let (a4, b4) = lemma_closing_run(a3, b3, '!');
    let (a5, b5) = lemma_closing_run(a4, b4, ':');
    let (a6, b6) = lemma_closing_run(a5, b5, ';');
    lemma_single_run(a6, b6);
}

proof fn lemma_single_parts(a: Seq<char>, b: Seq<char>)
    requires
        !(a.len() > 0 && b.len() > 0 && a.last() == ' ' && b.first() == ' '),
    ensures
        punctuation::single_spaced(a + b) == punctuation::single_spaced(a)
            + punctuation::single_spaced(b),
    decreases b.len(),
{
    let s = a + b;
    if b.len() == 0 {
        assert(s =~= a);
        assert(punctuation::single_spaced(a) + punctuation::single_spaced(b)
            =~= punctuation::single_spaced(a));
    } else if a.len() == 0 {
        assert(s =~= b);
        assert(punctuation::single_spaced(a) + punctuation::single_spaced(b)
            =~= punctuation::single_spaced(b));
    } else {
        let t = b.drop_last();
        lemma_single_parts(a, t);
        assert(s.drop_last() =~= a + t);
        assert(s.last() == b.last());
        if b.len() == 1 {
            assert(t =~= seq![]);
            assert(s[s.len() - 2] == a.last());
            assert(punctuation::single_spaced(t) =~= seq![]);
        } else {
            assert(s[s.len() - 2] == b[b.len() - 2]);
        }
        assert(punctuation::single_spaced(s) =~= punctuation::single_spaced(a)
            + punctuation::single_spaced(b));
    }
}

proof fn lemma_single_end(a: Seq<char>)
    requires
        a.len() > 0,
        a.last() != ' ',
    ensures
        punctuation::single_spaced(a).len() > 0,
        punctuation::single_spaced(a).last() == a.last(),
{
}

proof fn lemma_trimmed_around(a: Seq<char>, c: char, b: Seq<char>)
    requires
        a.len() > 0,
        !text::white_space(a.last()),
        !text::white_space(c),
    ensures
        text::trimmed(a + seq![c] + b) == text::trim_front(a, |x: char| text::white_space(x))
            + seq![c] + text::trim_back(b, |x: char| text::white_space(x)),
        text::trimmed(a + seq![' '] + seq![c] + b) == text::trim_front(
            a,
            |x: char| text::white_space(x),
        ) + seq![' '] + seq![c] + text::trim_back(b, |x: char| text::white_space(x)),
{
    let drop = |x: char| text::white_space(x);
    lemma_trim_front_part(a, seq![c] + b, drop);
    assert(a + (seq![c] + b) =~= a + seq![c] + b);
    lemma_trim_back_part(text::trim_front(a, drop), c, b, drop);
    assert(text::trim_front(a, drop) + (seq![c] + b) =~= text::trim_front(a, drop) + seq![c] + b);
    lemma_trim_front_part(a, seq![' '] + seq![c] + b, drop);
    assert(a + (seq![' '] + seq![c] + b) =~= a + seq![' '] + seq![c] + b);
    lemma_trim_back_part(text::trim_front(a, drop) + seq![' '], c, b, drop);
    assert(text::trim_front(a, drop) + (seq![' '] + seq![c] + b) =~= text::trim_front(a, drop)
        + seq![' '] + seq![c] + b);
}

proof fn lemma_trim_front_part(a: Seq<char>, b: Seq<char>, drop: spec_fn(char) -> bool)
    requires
        a.len() > 0,
        !drop(a.last()),
    ensures
        text::trim_front(a + b, drop) == text::trim_front(a, drop) + b,
    decreases a.len(),
{
    assert((a + b).first() == a.first());
    if drop(a.first()) {
        let t = a.drop_first();
        assert(t.last() == a.last());
        lemma_trim_front_part(t, b, drop);
        assert((a + b).drop_first() =~= t + b);
    }
}

proof fn lemma_trim_back_part(a: Seq<char>, c: char, b: Seq<char>, drop: spec_fn(char) -> bool)
    requires
        !drop(c),
    ensures
        text::trim_back(a + seq![c] + b, drop) == a + seq![c] + text::trim_back(b, drop),
    decreases b.len(),
{
    let s = a + seq![c] + b;
    if b.len() == 0 {
        assert(s.last() == c);
        assert(s =~= a + seq![c] + text::trim_back(b, drop));
    } else {
        assert(s.last() == b.last());
        if drop(b.last()) {
            let t = b.drop_last();
            lemma_trim_back_part(a, c, t, drop);
            assert(s.drop_last() =~= a + seq![c] + t);
        }
    }
}

proof fn lemma_closed_up_last(a: Seq<char>, mark: char)
    requires
        mark != ' ',
        a.len() > 0,
        a.last() != ' ',
    ensures
        punctuation::closed_up(a, mark).len() > 0,
        punctuation::closed_up(a, mark).last() == a.last(),
    decreases a.len(),
{
    let from = seq![' ', mark];
    if text::stands_at(a, from, 0) {
        let t = a.skip(2);
        assert(a.subrange(0, 2)[1] == a[1]);
        if t.len() > 0 {
            lemma_closed_up_last(t, mark);
        } else {
            assert(punctuation::closed_up(t, mark) =~= seq![]);
            assert(punctuation::closed_up(a, mark) =~= seq![mark]);
        }
    } else {
        let t = a.drop_first();
        if t.len() > 0 {
            lemma_closed_up_last(t, mark);
        } else {
            assert(punctuation::closed_up(t, mark) =~= seq![]);
            assert(punctuation::closed_up(a, mark) =~= seq![a.first()]);
        }
    }
}

/// The text before a mark, with no space before it, with one and with two: closing up the
/// space before another mark leaves them so, and before this mark takes one space away.
proof fn lemma_closing_two(
    a: Seq<char>,
    m: char,
    b: Seq<char>,
    mark: char,
) -> (r: (Seq<char>, Seq<char>))
    requires
        closes_up(m),
        closes_up(mark),
        a.len() > 0,
        a.last() != ' ',
    ensures
        r.0 == punctuation::closed_up(a, mark),
        r.0.len() > 0,
        r.0.last() == a.last(),
        punctuation::closed_up(a + seq![m] + b, mark) == r.0 + seq![m] + r.1,
        m != mark ==> punctuation::closed_up(a + seq![' '] + seq![m] + b, mark) == r.0 + seq![' ']
            + seq![m] + r.1,
        punctuation::closed_up(a + seq![' ', ' '] + seq![m] + b, mark) == if m == mark {
            r.0 + seq![' '] + seq![m] + r.1
        } else {
            r.0 + seq![' ', ' '] + seq![m] + r.1
        },
{
    let x = punctuation::closed_up(a, mark);
    let y = punctuation::closed_up(b, mark);
    let one = seq![' '];
    let two = seq![' ', ' '];
    lemma_closed_up_last(a, mark);
    lemma_closed_up_one(m, mark);
    lemma_closed_up_one(' ', mark);
    lemma_closed_up_parts(a, seq![m], mark);
    lemma_closed_up_parts(a + seq![m], b, mark);
    lemma_closed_up_parts(a, one, mark);
    assert(two =~= one + one);
    lemma_closed_up_parts(one, one, mark);
    lemma_closed_up_parts(a, two, mark);
    if m == mark {
        let pair = seq![' ', m];
        assert(one + seq![m] =~= pair);
        assert(pair.subrange(0, 2) =~= pair);
        assert(pair.skip(2) =~= seq![]);
        assert(punctuation::closed_up(seq![], mark) =~= seq![]);
        assert(punctuation::closed_up(pair, mark) =~= seq![m]);
        lemma_closed_up_parts(a + one, pair, mark);
        lemma_closed_up_parts(a + one + pair, b, mark);
        assert(a + two + seq![m] + b =~= a + one + pair + b);
    } else {
        lemma_closed_up_parts(a + one, seq![m], mark);
        lemma_closed_up_parts(a + one + seq![m], b, mark);
        lemma_closed_up_parts(a + two, seq![m], mark);
        lemma_closed_up_parts(a + two + seq![m], b, mark);
    }
    (x, y)
}

proof fn lemma_closing_all(a: Seq<char>, m: char, b: Seq<char>) -> (r: (Seq<char>, Seq<char>))
    requires
        closes_up(m),
        a.len() > 0,
        a.last() != ' ',
    ensures
        r.0.len() > 0,
        r.0.last() == a.last(),
        punctuation::marks_closed_up(a) == r.0,
        punctuation::marks_closed_up(a + seq![m] + b) == r.0 + seq![m] + r.1,
        punctuation::marks_closed_up(a + seq![' ', ' '] + seq![m] + b) == r.0 + seq![' '] + seq![m]
            + r.1,
{
    let (a1, b1) = lemma_closing_two(a, m, b, '.');
    let (a2, b2) = lemma_closing_two(a1, m, b1, ',');
    let (a3, b3) = lemma_closing_two(a2, m, b2, '?');
    let (a4, b4) = lemma_closing_two(a3, m, b3, '!');
    let (a5, b5) = lemma_closing_two(a4, m, b4, ':');
    let (a6, b6) = lemma_closing_two(a5, m, b5, ';');
    (a6, b6)
}

/// Of two spaces before a mark one stays: the texts are tidied to the same but for that
/// space, which stands behind what is left of the text before it.
pub proof fn law_one_of_two_spaces_before_a_mark_stays(a: Seq<char>, m: char, b: Seq<char>)
    requires
        closes_up(m),
        a.len() > 0,
        !text::white_space(a.last()),
    ensures
        exists|x: Seq<char>, y: Seq<char>|
            {
                &&& punctuation::tidied(a + seq![m] + b) == #[trigger] (x + seq![m] + y)
                &&& punctuation::tidied(a + seq![' ', ' '] + seq![m] + b) == x + seq![' ']
                    + seq![m] + y
                &&& visible(x) == visible(a)
            },
{
    let (p, q) = lemma_closing_all(a, m, b);
    let drop = |c: char| text::white_space(c);
    let u = punctuation::single_spaced(p);
    lemma_single_end(p);
    let one = seq![m];
    let space = seq![' '];
    lemma_single_parts(one, q);
    assert(punctuation::single_spaced(one) =~= one);
    let t = punctuation::single_spaced(q);
    lemma_single_parts(p, one + q);
    assert(p + (one + q) =~= p + one + q);
    assert(u + (one + t) =~= u + one + t);
    lemma_single_parts(p, space);
    assert(punctuation::single_spaced(space) =~= space);
    lemma_single_parts(p + space, one + q);
    assert(p + space + (one + q) =~= p + space + one + q);
    assert(u + space + (one + t) =~= u + space + one + t);
    lemma_trimmed_around(u, m, t);
    let x = text::trim_front(u, drop);
    let y = text::trim_back(t, drop);
    assert(punctuation::tidied(a + seq![m] + b) == x + seq![m] + y);
    assert(visible(x) == visible(a)) by {
        law_tidying_keeps_what_is_visible(a);
        assert(punctuation::tidied(a) == text::trimmed(u));
        let none: Seq<char> = seq![];
        lemma_trim_front_part(u, none, drop);
        assert(x.len() > 0 && x.last() == u.last()) by {
            lemma_front_keeps_the_end(u, drop);
        }
        assert(text::trim_back(x, drop) == x);
    }
}

proof fn lemma_front_keeps_the_end(a: Seq<char>, drop: spec_fn(char) -> bool)
    requires
        a.len() > 0,
        !drop(a.last()),
    ensures
        text::trim_front(a, drop).len() > 0,
        text::trim_front(a, drop).last() == a.last(),
    decreases a.len(),
{
    if drop(a.first()) {
        let t = a.drop_first();
        assert(t.last() == a.last());
        lemma_front_keeps_the_end(t, drop);
    }
}

proof fn lemma_closing_three(
    a: Seq<char>,
    m: char,
    b: Seq<char>,
    mark: char,
    wide: Seq<char>,
    narrow: Seq<char>,
) -> (r: (Seq<char>, Seq<char>))
    requires
        closes_up(m),
        closes_up(mark),
        wide == narrow + seq![' '],
        narrow == seq![' ', ' '] || (narrow == seq![' '] && m != mark),
    ensures
        r.0 == punctuation::closed_up(a, mark),
        punctuation::closed_up(a + wide + seq![m] + b, mark) == r.0 + (if m == mark {
            wide.drop_last()
        } else {
            wide
        }) + seq![m] + r.1,
        punctuation::closed_up(a + narrow + seq![m] + b, mark) == r.0 + (if m == mark {
            narrow.drop_last()
        } else {
            narrow
        }) + seq![m] + r.1,
{
    let one = seq![' '];
    let x = punctuation::closed_up(a, mark);
    let y = punctuation::closed_up(b, mark);
    lemma_closed_up_one(m, mark);
    lemma_closed_up_one(' ', mark);
    lemma_closed_up_parts(one, one, mark);
    let two = one + one;
    assert(two =~= seq![' ', ' ']);
    lemma_closed_up_parts(two, one, mark);
    let three = two + one;
    if m == mark {
        let pair = seq![' ', m];
        assert(one + seq![m] =~= pair);
        assert(pair.subrange(0, 2) =~= pair);
        assert(pair.skip(2) =~= seq![]);
        assert(punctuation::closed_up(seq![], mark) =~= seq![]);
        assert(punctuation::closed_up(pair, mark) =~= seq![m]);
        lemma_closed_up_parts(a, two, mark);
        lemma_closed_up_parts(a + two, pair, mark);
        lemma_closed_up_parts(a + two + pair, b, mark);
        assert(a + wide + seq![m] + b =~= a + two + pair + b);
        assert(wide.drop_last() =~= two);
        lemma_closed_up_parts(a, one, mark);
        lemma_closed_up_parts(a + one, pair, mark);
        lemma_closed_up_parts(a + one + pair, b, mark);
        assert(a + narrow + seq![m] + b =~= a + one + pair + b);
        assert(narrow.drop_last() =~= one);
    } else {
        lemma_closed_up_parts(a, narrow, mark);
        lemma_closed_up_parts(a + narrow, seq![m], mark);
        lemma_closed_up_parts(a + narrow + seq![m], b, mark);
        lemma_closed_up_parts(a, wide, mark);
        lemma_closed_up_parts(a + wide, seq![m], mark);
        lemma_closed_up_parts(a + wide + seq![m], b, mark);
        assert(wide =~= if narrow.len() == 1 { two } else { three });
    }
    (x, y)
}

proof fn lemma_closing_in_turn(
    a: Seq<char>,
    m: char,
    b: Seq<char>,
    mark: char,
    wide: Seq<char>,
    narrow: Seq<char>,
    done: bool,
) -> (r: (Seq<char>, Seq<char>, Seq<char>, Seq<char>))
    requires
        closes_up(m),
        closes_up(mark),
        wide == narrow + seq![' '],
        !done ==> narrow == seq![' ', ' '],
        done ==> narrow == seq![' '] && m != mark,
    ensures
        punctuation::closed_up(a + wide + seq![m] + b, mark) == r.0 + r.2 + seq![m] + r.1,
        punctuation::closed_up(a + narrow + seq![m] + b, mark) == r.0 + r.3 + seq![m] + r.1,
        r.2 == r.3 + seq![' '],
        done || m == mark ==> r.3 == seq![' '],
        !done && m != mark ==> r.3 == seq![' ', ' '],
{
    let (x, y) = lemma_closing_three(a, m, b, mark, wide, narrow);
    if m == mark {
        assert(narrow.drop_last() =~= seq![' ']);
        assert(wide.drop_last() =~= seq![' '] + seq![' ']);
        (x, y, wide.drop_last(), narrow.drop_last())
    } else {
        (x, y, wide, narrow)
    }
}

/// Of more than two spaces before a mark no more stay than of two: with a third one a
/// text is tidied to the same.
pub proof fn law_more_spaces_before_a_mark_count_as_two(a: Seq<char>, m: char, b: Seq<char>)
    requires
        closes_up(m),
    ensures
        punctuation::tidied(a + seq![' ', ' ', ' '] + seq![m] + b) == punctuation::tidied(
            a + seq![' ', ' '] + seq![m] + b,
        ),
{
    let narrow = seq![' ', ' '];
    let wide = seq![' ', ' ', ' '];
    assert(wide =~= narrow + seq![' ']);
    let (a1, b1, w1, n1) = lemma_closing_in_turn(a, m, b, '.', wide, narrow, false);
    let d1 = m == '.';
    let (a2, b2, w2, n2) = lemma_closing_in_turn(a1, m, b1, ',', w1, n1, d1);
    let d2 = d1 || m == ',';
    let (a3, b3, w3, n3) = lemma_closing_in_turn(a2, m, b2, '?', w2, n2, d2);
    let d3 = d2 || m == '?';
    let (a4, b4, w4, n4) = lemma_closing_in_turn(a3, m, b3, '!', w3, n3, d3);
    let d4 = d3 || m == '!';
    let (a5, b5, w5, n5) = lemma_closing_in_turn(a4, m, b4, ':', w4, n4, d4);
    let d5 = d4 || m == ':';
    let (a6, b6, w6, n6) = lemma_closing_in_turn(a5, m, b5, ';', w5, n5, d5);
    assert(n6 == seq![' ']);
    assert(w6 =~= seq![' ', ' ']);
    lemma_single_run(a6, seq![m] + b6);
    assert(a6 + seq![' ', ' '] + (seq![m] + b6) =~= a6 + w6 + seq![m] + b6);
    assert(a6 + seq![' '] + (seq![m] + b6) =~= a6 + n6 + seq![m] + b6);
}

} // verus!
