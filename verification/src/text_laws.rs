//! What the operations on texts are for, stated by how they relate to each other and
//! to their inputs.
use crate::text;
use vstd::prelude::*;

verus! {

/// A text stands at a position if its characters do.
pub proof fn law_standing_means_equal_characters<T>(hay: Seq<T>, needle: Seq<T>, i: int)
    ensures
        text::stands_at(hay, needle, i) <==> {
            &&& 0 <= i
            &&& i + needle.len() <= hay.len()
            &&& forall|k: int| 0 <= k < needle.len() ==> hay[i + k] == #[trigger] needle[k]
        },
{
    if text::stands_at(hay, needle, i) {
        assert forall|k: int| 0 <= k < needle.len() implies hay[i + k] == #[trigger] needle[k] by {
            assert(hay.subrange(i, i + needle.len())[k] == hay[i + k]);
        }
    }
    if 0 <= i && i + needle.len() <= hay.len() && (forall|k: int|
        0 <= k < needle.len() ==> hay[i + k] == #[trigger] needle[k]) {
        assert(hay.subrange(i, i + needle.len()) =~= needle);
    }
}

/// A text holds what is put between two others, and nothing that it has no place for.
pub proof fn law_holding(a: Seq<char>, needle: Seq<char>, b: Seq<char>)
    ensures
        text::holds_text(a + needle + b, needle),
        needle.len() > a.len() ==> !text::holds_text(a, needle),
{
    assert((a + needle + b).subrange(a.len() as int, (a.len() + needle.len()) as int) =~= needle);
    assert(text::stands_at(a + needle + b, needle, a.len() as int));
}

/// The first position of a text is one of its positions, and no earlier one is.
pub proof fn law_first_position(hay: Seq<char>, needle: Seq<char>, i: int, j: int)
    requires
        text::first_at(hay, needle, i),
    ensures
        text::stands_at(hay, needle, i),
        text::stands_at(hay, needle, j) ==> i <= j,
{
}

/// The texts of a list are those of its strings, one for one.
pub proof fn law_texts(v: Seq<String>, i: int)
    requires
        0 <= i < v.len(),
    ensures
        text::texts(v).len() == v.len(),
        text::texts(v)[i] == v[i]@,
        text::option_text(Some(v[i])) == Some(v[i]@),
        text::option_text(None) is None,
{
}

/// An optional text is that of the string, if there is one.
pub proof fn law_optional_texts(s: String)
    ensures
        text::option_text(Some(s)) == Some(s@),
        text::option_text(None) is None,
{
}

/// The letters `A` to `Z` become `a` to `z`, and no other character changes.
pub proof fn law_ascii_lower(c: char, k: int)
    ensures
        0 <= k < 26 && c as int == 'A' as int + k ==> text::ascii_lower(c) as int == 'a' as int + k,
        !('A' <= c <= 'Z') ==> text::ascii_lower(c) == c,
{
}

// Trimming.

proof fn lemma_trim_front(s: Seq<char>, drop: spec_fn(char) -> bool) -> (k: int)
    ensures
        0 <= k <= s.len(),
        text::trim_front(s, drop) == s.skip(k),
        k < s.len() ==> !drop(s[k]),
        forall|i: int| 0 <= i < k ==> drop(#[trigger] s[i]),
    decreases s.len(),
{
    if s.len() == 0 || !drop(s.first()) {
        assert(s.skip(0) =~= s);
        0
    } else {
        let t = s.drop_first();
        let k = lemma_trim_front(t, drop);
        assert(t.skip(k) =~= s.skip(k + 1));
        assert forall|i: int| 0 <= i < k + 1 implies drop(#[trigger] s[i]) by {
            if i > 0 {
                assert(drop(t[i - 1]));
            }
        }
        k + 1
    }
}

proof fn lemma_trim_back(s: Seq<char>, drop: spec_fn(char) -> bool) -> (k: int)
    ensures
        0 <= k <= s.len(),
        text::trim_back(s, drop) == s.take(k),
        k > 0 ==> !drop(s[k - 1]),
        forall|i: int| k <= i < s.len() ==> drop(#[trigger] s[i]),
    decreases s.len(),
{
    if s.len() == 0 || !drop(s.last()) {
        assert(s.take(s.len() as int) =~= s);
        s.len() as int
    } else {
        let t = s.drop_last();
        let k = lemma_trim_back(t, drop);
        assert(t.take(k) =~= s.take(k));
        assert forall|i: int| k <= i < s.len() implies drop(#[trigger] s[i]) by {
            if i < t.len() {
                assert(drop(t[i]));
            }
        }
        k
    }
}

/// The part of a text from `i` up to `j` is left when the characters around it that are
/// to be dropped are gone.
pub open spec fn is_core(s: Seq<char>, t: Seq<char>, drop: spec_fn(char) -> bool, i: int, j: int) -> bool {
    &&& 0 <= i <= j <= s.len()
    &&& t == s.subrange(i, j)
    &&& forall|k: int| 0 <= k < s.len() && !(i <= k < j) ==> drop(#[trigger] s[k])
    &&& i < j ==> !drop(s[i]) && !drop(s[j - 1])
}

proof fn lemma_core(s: Seq<char>, drop: spec_fn(char) -> bool) -> (r: (int, int))
    ensures
        is_core(s, text::trim_back(text::trim_front(s, drop), drop), drop, r.0, r.1),
{
    let i = lemma_trim_front(s, drop);
    let front = s.skip(i);
    let k = lemma_trim_back(front, drop);
    assert(front.take(k) =~= s.subrange(i, i + k));
    assert forall|n: int| 0 <= n < s.len() && !(i <= n < i + k) implies drop(#[trigger] s[n]) by {
        if n >= i {
            assert(drop(front[n - i]));
        }
    }
    if k > 0 {
        assert(front[k - 1] == s[i + k - 1]);
    }
    (i, i + k)
}

/// The part of a text from `i` up to `j` is left when the white space around it is gone.
pub open spec fn is_spaceless_core(s: Seq<char>, t: Seq<char>, i: int, j: int) -> bool {
    is_core(s, t, |c: char| text::white_space(c), i, j)
}

/// The part of a text from `i` up to `j` is left when the slashes around it are gone.
pub open spec fn is_slashless_core(s: Seq<char>, t: Seq<char>, i: int, j: int) -> bool {
    is_core(s, t, |c: char| c == '/', i, j)
}

/// Trimming takes away the white space at both ends and nothing else.
pub proof fn law_trimming_takes_only_white_space(s: Seq<char>)
    ensures
        exists|i: int, j: int| #[trigger] is_spaceless_core(s, text::trimmed(s), i, j),
{
    let (i, j) = lemma_core(s, |c: char| text::white_space(c));
    assert(is_spaceless_core(s, text::trimmed(s), i, j));
}

/// The slashes at both ends are taken away, and nothing else.
pub proof fn law_unslashing_takes_only_slashes(s: Seq<char>)
    ensures
        exists|i: int, j: int| #[trigger] is_slashless_core(s, text::unslashed(s), i, j),
{
    let (i, j) = lemma_core(s, |c: char| c == '/');
    assert(is_slashless_core(s, text::unslashed(s), i, j));
}

// Splitting.

/// The first place of a character is one of its places, and none comes before.
pub proof fn law_first_char(s: Seq<char>, c: char)
    ensures
        0 <= text::first_char(s, c) <= s.len(),
        text::first_char(s, c) < s.len() ==> s[text::first_char(s, c)] == c,
        forall|i: int| 0 <= i < text::first_char(s, c) ==> #[trigger] s[i] != c,
    decreases s.len(),
{
    if s.len() > 0 && s.first() != c {
        let t = s.drop_first();
        law_first_char(t, c);
        assert forall|i: int| 0 <= i < text::first_char(s, c) implies #[trigger] s[i] != c by {
            if i > 0 {
                assert(t[i - 1] != c);
            }
        }
    }
}

/// A separator parts the pieces before it from those behind it.
pub proof fn law_pieces_part_at_a_separator(a: Seq<char>, b: Seq<char>, sep: char)
    ensures
        text::pieces(a.push(sep) + b, sep) == text::pieces(a, sep) + text::pieces(b, sep),
    decreases b.len(),
{
    let s = a.push(sep) + b;
    lemma_some_piece(a, sep);
    lemma_some_piece(b, sep);
    if b.len() == 0 {
        assert(s =~= a.push(sep));
        assert(s.drop_last() =~= a);
        assert(text::pieces(s, sep) =~= text::pieces(a, sep) + text::pieces(b, sep));
    } else {
        let t = b.drop_last();
        law_pieces_part_at_a_separator(a, t, sep);
        lemma_some_piece(t, sep);
        assert(s.drop_last() =~= a.push(sep) + t);
        let pa = text::pieces(a, sep);
        let pt = text::pieces(t, sep);
        assert((pa + pt).last() == pt.last());
        assert((pa + pt).drop_last() =~= pa + pt.drop_last());
        assert(text::pieces(s, sep) =~= pa + text::pieces(b, sep));
    }
}

proof fn lemma_some_piece(s: Seq<char>, sep: char)
    ensures
        text::pieces(s, sep).len() > 0,
    decreases s.len(),
{
    if s.len() > 0 {
        lemma_some_piece(s.drop_last(), sep);
    }
}

/// A text without a separator is one piece.
pub proof fn law_one_piece(p: Seq<char>, sep: char)
    requires
        !p.contains(sep),
    ensures
        text::pieces(p, sep) == seq![p],
    decreases p.len(),
{
    if p.len() == 0 {
        assert(p =~= seq![]);
    } else {
        let t = p.drop_last();
        assert forall|i: int| 0 <= i < t.len() implies t[i] != sep by {
            assert(p[i] != sep);
        }
        law_one_piece(t, sep);
        assert(p[p.len() - 1] != sep);
        assert(t.push(p.last()) =~= p);
        assert(text::pieces(p, sep) =~= seq![p]);
    }
}

/// The finished runs of a text and the open one, in two parts.
proof fn lemma_runs(a: Seq<char>, c: char, b: Seq<char>)
    requires
        text::white_space(c),
    ensures
        text::runs(a.push(c) + b).0 == text::words(a) + text::runs(b).0,
        text::runs(a.push(c) + b).1 == text::runs(b).1,
    decreases b.len(),
{
    let s = a.push(c) + b;
    if b.len() == 0 {
        assert(s =~= a.push(c));
        assert(s.drop_last() =~= a);
        assert(text::words(a) + text::runs(b).0 =~= text::words(a));
    } else {
        lemma_runs(a, c, b.drop_last());
        assert(s.drop_last() =~= a.push(c) + b.drop_last());
        let (done, open) = text::runs(b.drop_last());
        assert(text::words(a) + done.push(open) =~= (text::words(a) + done).push(open));
    }
}

/// White space parts the words before it from those behind it.
pub proof fn law_words_part_at_white_space(a: Seq<char>, c: char, b: Seq<char>)
    requires
        text::white_space(c),
    ensures
        text::words(a.push(c) + b) == text::words(a) + text::words(b),
{
    lemma_runs(a, c, b);
    let (done, open) = text::runs(b);
    assert(text::words(a) + done.push(open) =~= (text::words(a) + done).push(open));
}

/// A text without white space is one word, or none if it is empty.
pub proof fn law_one_word(w: Seq<char>)
    requires
        forall|i: int| 0 <= i < w.len() ==> !text::white_space(#[trigger] w[i]),
    ensures
        text::words(w) == (if w.len() == 0 {
            seq![]
        } else {
            seq![w]
        }),
{
    lemma_one_run(w);
    assert(text::words(w) =~= if w.len() == 0 {
        seq![]
    } else {
        seq![w]
    });
}

proof fn lemma_one_run(w: Seq<char>)
    requires
        forall|i: int| 0 <= i < w.len() ==> !text::white_space(#[trigger] w[i]),
    ensures
        text::runs(w).0 == Seq::<Seq<char>>::empty(),
        text::runs(w).1 == w,
    decreases w.len(),
{
    if w.len() > 0 {
        let t = w.drop_last();
        assert forall|i: int| 0 <= i < t.len() implies !text::white_space(#[trigger] t[i]) by {
            assert(t[i] == w[i]);
        }
        lemma_one_run(t);
        assert(!text::white_space(w[w.len() - 1]));
        assert(t.push(w.last()) =~= w);
    } else {
        assert(w =~= seq![]);
    }
}

// Joining and replacing.

/// One text joined is itself, and lists are joined with the separator between them.
pub proof fn law_joining(a: Seq<Seq<char>>, b: Seq<Seq<char>>, p: Seq<char>, sep: Seq<char>)
    ensures
        text::joined(seq![], sep) == Seq::<char>::empty(),
        text::joined(seq![p], sep) == p,
        a.len() > 0 && b.len() > 0 ==> text::joined(a + b, sep) == text::joined(a, sep) + sep
            + text::joined(b, sep),
    decreases b.len(),
{
    if a.len() > 0 && b.len() == 1 {
        assert((a + b).drop_last() =~= a);
        assert((a + b).last() == b[0]);
    } else if a.len() > 0 && b.len() > 1 {
        law_joining(a, b.drop_last(), p, sep);
        assert((a + b).drop_last() =~= a + b.drop_last());
        assert((a + b).last() == b.last());
        assert(text::joined(a + b, sep) =~= text::joined(a, sep) + sep + text::joined(b, sep));
    }
}

/// Every text of a list is held by what they are joined to.
pub proof fn law_joined_text_holds_each(parts: Seq<Seq<char>>, sep: Seq<char>, i: int)
    requires
        0 <= i < parts.len(),
    ensures
        text::holds_text(text::joined(parts, sep), parts[i]),
{
    let a = parts.take(i);
    let b = parts.skip(i + 1);
    let one = seq![parts[i]];
    law_joining(a, one, parts[i], sep);
    law_joining(a + one, b, parts[i], sep);
    assert(parts =~= a + one + b);
    let front = if i > 0 {
        text::joined(a, sep) + sep
    } else {
        seq![]
    };
    let back = if b.len() > 0 {
        sep + text::joined(b, sep)
    } else {
        seq![]
    };
    if i == 0 {
        assert(a + one =~= one);
    }
    if b.len() == 0 {
        assert(a + one + b =~= a + one);
    }
    assert(text::joined(parts, sep) =~= front + parts[i] + back);
    law_holding(front, parts[i], back);
}

/// A text that does not hold the one to be replaced stays as it is.
pub proof fn law_nothing_to_replace(s: Seq<char>, from: Seq<char>, to: Seq<char>)
    requires
        !text::holds_text(s, from),
    ensures
        text::replaced(s, from, to) == s,
    decreases s.len(),
{
    if s.len() > 0 && from.len() > 0 {
        assert(!text::stands_at(s, from, 0));
        let t = s.drop_first();
        assert forall|i: int| !text::stands_at(t, from, i) by {
            if text::stands_at(t, from, i) {
                assert(s.subrange(i + 1, i + 1 + from.len()) =~= t.subrange(i, i + from.len()));
                assert(text::stands_at(s, from, i + 1));
            }
        }
        law_nothing_to_replace(t, from, to);
        assert(seq![s.first()] + t =~= s);
    }
}

/// The first text to be replaced is replaced, what comes before it stays, and the rest
/// is treated alike.
pub proof fn law_first_is_replaced(s: Seq<char>, from: Seq<char>, to: Seq<char>, i: int)
    requires
        from.len() > 0,
        text::first_at(s, from, i),
    ensures
        text::replaced(s, from, to) == s.take(i) + to + text::replaced(
            s.skip(i + from.len()),
            from,
            to,
        ),
    decreases i,
{
    if i == 0 {
        assert(s.take(0) + to =~= to);
        assert(text::replaced(s, from, to) =~= s.take(i) + to + text::replaced(
            s.skip(i + from.len()),
            from,
            to,
        ));
    } else {
        let t = s.drop_first();
        assert(t.subrange(i - 1, i - 1 + from.len()) =~= s.subrange(i, i + from.len()));
        assert forall|j: int| 0 <= j < i - 1 implies !text::stands_at(t, from, j) by {
            if text::stands_at(t, from, j) {
                assert(s.subrange(j + 1, j + 1 + from.len()) =~= t.subrange(j, j + from.len()));
                assert(text::stands_at(s, from, j + 1));
            }
        }
        law_first_is_replaced(t, from, to, i - 1);
        assert(!text::stands_at(s, from, 0));
        assert(t.skip(i - 1 + from.len()) =~= s.skip(i + from.len()));
        assert(seq![s.first()] + t.take(i - 1) =~= s.take(i));
        assert(text::replaced(s, from, to) =~= s.take(i) + to + text::replaced(
            s.skip(i + from.len()),
            from,
            to,
        ));
    }
}

// Numbers.

/// The number that decimal digits stand for.
pub open spec fn number_of(s: Seq<char>) -> int
    decreases s.len(),
{
    if s.len() == 0 {
        0
    } else {
        number_of(s.drop_last()) * 10 + (s.last() as int - '0' as int)
    }
}

/// The number that hexadecimal digits in lower case stand for.
pub open spec fn hex_number_of(s: Seq<char>) -> int
    decreases s.len(),
{
    if s.len() == 0 {
        0
    } else {
        let c = s.last();
        hex_number_of(s.drop_last()) * 16 + (if c <= '9' {
            c as int - '0' as int
        } else {
            c as int - 'a' as int + 10
        })
    }
}

/// The decimal form of a number reads as the number, consists of digits, and has no
/// zero in front.
pub proof fn law_decimal_form_reads_as_the_number(n: nat)
    ensures
        number_of(text::decimal(n)) == n,
        text::decimal(n).len() > 0,
        forall|i: int| 0 <= i < text::decimal(n).len() ==> '0' <= #[trigger] text::decimal(n)[i] <= '9',
        n > 0 ==> text::decimal(n)[0] != '0',
    decreases n,
{
    if n < 10 {
        reveal_with_fuel(number_of, 2);
        assert(text::decimal(n).drop_last() =~= seq![]);
    } else {
        law_decimal_form_reads_as_the_number(n / 10);
        let d = text::decimal(n);
        assert(d.drop_last() =~= text::decimal(n / 10));
        assert forall|i: int| 0 <= i < d.len() implies '0' <= #[trigger] d[i] <= '9' by {
            if i < d.len() - 1 {
                assert(d[i] == text::decimal(n / 10)[i]);
            }
        }
        assert(d[0] == text::decimal(n / 10)[0]);
    }
}

/// Two digits read as the number that they show.
pub proof fn law_two_digits_read_as_the_number(n: int)
    requires
        0 <= n < 100,
    ensures
        text::two_digits(n).len() == 2,
        number_of(text::two_digits(n)) == n,
{
    let d = text::two_digits(n);
    assert(d.drop_last() =~= seq![text::digit(n / 10)]);
    assert(d.drop_last().drop_last() =~= seq![]);
    reveal_with_fuel(number_of, 3);
}

/// Six hexadecimal digits read as the last twenty-four bits of the number.
pub proof fn law_hexadecimal_form_reads_as_the_number(n: nat)
    ensures
        text::hex_digits(n, 6).len() == 6,
        hex_number_of(text::hex_digits(n, 6)) == n % 0x100_0000,
{
    lemma_hex(n / 16 / 16 / 16 / 16 / 16, 1);
    lemma_hex(n / 16 / 16 / 16 / 16, 2);
    lemma_hex(n / 16 / 16 / 16, 3);
    lemma_hex(n / 16 / 16, 4);
    lemma_hex(n / 16, 5);
    lemma_hex(n, 6);
    reveal_with_fuel(text::hex_digits, 7);
}

proof fn lemma_hex(n: nat, width: nat)
    requires
        width > 0,
    ensures
        text::hex_digits(n, width).len() == width,
        hex_number_of(text::hex_digits(n, width)) == hex_number_of(
            text::hex_digits(n / 16, (width - 1) as nat),
        ) * 16 + n % 16,
    decreases width,
{
    let h = text::hex_digits(n, width);
    assert(h.drop_last() =~= text::hex_digits(n / 16, (width - 1) as nat));
    if width > 1 {
        lemma_hex(n / 16, (width - 1) as nat);
    }
}

} // verus!
