//! Characters and strings: the operations the rest of the crate builds its
//! texts with, each stated over sequences of characters.
use vstd::prelude::*;
use vstd::utf8::*;

verus! {

/// `String::push`: the character goes to the end of the string.
pub assume_specification[ String::push ](s: &mut String, c: char)
    ensures
        final(s)@ == old(s)@.push(c),
;

/// The characters with the Unicode property White_Space.
pub open spec fn white_space(c: char) -> bool {
    let n = c as u32;
    ||| 0x09 <= n <= 0x0d
    ||| n == 0x20
    ||| n == 0x85
    ||| n == 0xa0
    ||| n == 0x1680
    ||| 0x2000 <= n <= 0x200a
    ||| n == 0x2028
    ||| n == 0x2029
    ||| n == 0x202f
    ||| n == 0x205f
    ||| n == 0x3000
}

/// `char::is_whitespace`: tells whether the character has the property
/// White_Space of the Unicode Character Database.
pub assume_specification[ char::is_whitespace ](c: char) -> (r: bool)
    ensures
        r == white_space(c),
;

/// The lower-case form of a text by the Unicode rules.
pub uninterp spec fn lowercase(s: Seq<char>) -> Seq<char>;

/// The lower-case form of an ASCII letter; any other character is kept.
pub open spec fn ascii_lower(c: char) -> char {
    if 'A' <= c <= 'Z' {
        ((c as u8) + 32) as char
    } else {
        c
    }
}

/// `str::to_lowercase`: the Unicode lower-case form of the text. An ASCII text
/// keeps its length, and only its letters `A` to `Z` change.
pub assume_specification[ str::to_lowercase ](s: &str) -> (r: String)
    ensures
        r@ == lowercase(s@),
        is_ascii_chars(s@) ==> r@ == s@.map_values(|c: char| ascii_lower(c)),
;

/// The characters of a string, in order.
pub fn chars_of(s: &str) -> (r: Vec<char>)
    ensures
        r@ == s@,
{
    let mut out: Vec<char> = Vec::new();
    for c in it: s.chars()
        invariant
            it.seq() == s@,
            out@ == s@.take(it.index() as int),
    {
        out.push(c);
        assert(s@.take(it.index() as int + 1) == s@.take(it.index() as int).push(
            s@[it.index() as int],
        ));
    }
    assert(s@.take(s@.len() as int) == s@);
    out
}

/// The string of the characters from `from` up to `to`.
pub fn string_between(v: &Vec<char>, from: usize, to: usize) -> (r: String)
    requires
        from <= to <= v@.len(),
    ensures
        r@ == v@.subrange(from as int, to as int),
{
    let mut out = String::new();
    let mut i: usize = from;
    assert(v@.subrange(from as int, from as int) == Seq::<char>::empty());
    while i < to
        invariant
            from <= i <= to <= v@.len(),
            out@ == v@.subrange(from as int, i as int),
        decreases to - i,
    {
        out.push(v[i]);
        assert(v@.subrange(from as int, i as int + 1) == v@.subrange(from as int, i as int).push(
            v@[i as int],
        ));
        i += 1;
    }
    out
}

/// The string of all the characters.
pub fn string_of(v: &Vec<char>) -> (r: String)
    ensures
        r@ == v@,
{
    assert(v@.subrange(0, v@.len() as int) == v@);
    string_between(v, 0, v.len())
}

/// Equality of texts.
pub fn same(a: &str, b: &str) -> (r: bool)
    ensures
        r == (a@ == b@),
{
    let x = a.as_bytes();
    let y = b.as_bytes();
    proof {
        encode_utf8_decode_utf8(a@);
        encode_utf8_decode_utf8(b@);
    }
    if x.len() != y.len() {
        return false;
    }
    let mut i: usize = 0;
    while i < x.len()
        invariant
            i <= x@.len(),
            x@.len() == y@.len(),
            x@ == encode_utf8(a@),
            y@ == encode_utf8(b@),
            forall|j: int| 0 <= j < i ==> x@[j] == y@[j],
        decreases x@.len() - i,
    {
        if x[i] != y[i] {
            return false;
        }
        i += 1;
    }
    assert(x@ == y@);
    true
}

/// A copy of an optional text.
pub fn copy_option(s: &Option<String>) -> (r: Option<String>)
    ensures
        r == *s,
{
    match s {
        Some(t) => Some(t.clone()),
        None => None,
    }
}

/// One text after the other.
pub fn concat(a: &str, b: &str) -> (r: String)
    ensures
        r@ == a@ + b@,
{
    let mut out = a.to_owned();
    out.append(b);
    out
}

/// Three texts in a row.
pub fn concat_three(a: &str, b: &str, c: &str) -> (r: String)
    ensures
        r@ == a@ + b@ + c@,
{
    let mut out = concat(a, b);
    out.append(c);
    out
}

/// The text of an optional string.
pub open spec fn option_text(s: Option<String>) -> Option<Seq<char>> {
    match s {
        Some(t) => Some(t@),
        None => None,
    }
}

/// A string of its own for an optional text.
pub fn own_option(s: Option<&str>) -> (r: Option<String>)
    ensures
        option_text(r) == match s {
            Some(t) => Some(t@),
            None => None,
        },
{
    match s {
        Some(t) => Some(t.to_owned()),
        None => None,
    }
}

// Numbers.

/// The decimal digit of a value below ten.
pub open spec fn digit(d: int) -> char {
    (('0' as u8) + d) as char
}

/// A number in decimal, without leading zeros.
pub open spec fn decimal(n: nat) -> Seq<char>
    decreases n,
{
    if n < 10 {
        seq![digit(n as int)]
    } else {
        decimal(n / 10).push(digit((n % 10) as int))
    }
}

fn digit_char(d: u64) -> (c: char)
    requires
        d < 10,
    ensures
        c == digit(d as int),
{
    (48u8 + d as u8) as char
}

/// Writes a number in decimal.
pub fn decimal_text(n: u64) -> (r: String)
    ensures
        r@ == decimal(n as nat),
    decreases n,
{
    if n < 10 {
        let mut s = String::new();
        s.push(digit_char(n));
        assert(s@ == seq![digit(n as int)]);
        s
    } else {
        let mut s = decimal_text(n / 10);
        s.push(digit_char(n % 10));
        s
    }
}

/// A number below one hundred with both of its digits.
pub open spec fn two_digits(n: int) -> Seq<char> {
    seq![digit(n / 10), digit(n % 10)]
}

/// Writes a number below one hundred with both of its digits.
pub fn two_digit_text(n: u64) -> (r: String)
    requires
        n < 100,
    ensures
        r@ == two_digits(n as int),
{
    let mut s = String::new();
    s.push(digit_char(n / 10));
    s.push(digit_char(n % 10));
    assert(s@ == two_digits(n as int));
    s
}

/// The hexadecimal digit of a value below sixteen, in lower case.
pub open spec fn hex_digit(d: int) -> char {
    if d < 10 {
        digit(d)
    } else {
        (('a' as u8) + (d - 10)) as char
    }
}

/// The last `width` hexadecimal digits of a number.
pub open spec fn hex_digits(n: nat, width: nat) -> Seq<char>
    decreases width,
{
    if width == 0 {
        seq![]
    } else {
        hex_digits(n / 16, (width - 1) as nat).push(hex_digit((n % 16) as int))
    }
}

/// Writes the last `width` hexadecimal digits of a number.
pub fn hex_text(n: u64, width: usize) -> (r: String)
    ensures
        r@ == hex_digits(n as nat, width as nat),
    decreases width,
{
    if width == 0 {
        String::new()
    } else {
        let mut s = hex_text(n / 16, width - 1);
        let d: u64 = n % 16;
        if d < 10 {
            s.push(digit_char(d));
        } else {
            s.push((97u8 + (d as u8 - 10)) as char);
        }
        s
    }
}

// Searching.

/// `needle` stands in `hay` at position `i`.
pub open spec fn stands_at<T>(hay: Seq<T>, needle: Seq<T>, i: int) -> bool {
    &&& 0 <= i
    &&& i + needle.len() <= hay.len()
    &&& hay.subrange(i, i + needle.len()) == needle
}

/// `needle` stands somewhere in `hay`.
pub open spec fn holds_text(hay: Seq<char>, needle: Seq<char>) -> bool {
    exists|i: int| stands_at(hay, needle, i)
}

/// `i` is the first position at which `needle` stands in `hay`.
pub open spec fn first_at<T>(hay: Seq<T>, needle: Seq<T>, i: int) -> bool {
    &&& stands_at(hay, needle, i)
    &&& forall|j: int| 0 <= j < i ==> !stands_at(hay, needle, j)
}

/// Tells whether `needle` stands in `hay` at position `i`.
fn chars_match_at(hay: &Vec<char>, needle: &Vec<char>, i: usize) -> (r: bool)
    ensures
        r == stands_at(hay@, needle@, i as int),
{
    if i > hay.len() || hay.len() - i < needle.len() {
        return false;
    }
    let n: usize = needle.len();
    let mut k: usize = 0;
    while k < n
        invariant
            k <= n,
            n == needle@.len(),
            i + n <= hay@.len(),
            hay@.len() <= usize::MAX,
            forall|j: int| 0 <= j < k ==> hay@[i + j] == needle@[j],
        decreases n - k,
    {
        if hay[i + k] != needle[k] {
            assert(hay@.subrange(i as int, i + needle@.len())[k as int] == hay@[i + k]);
            return false;
        }
        k += 1;
    }
    assert(hay@.subrange(i as int, i + needle@.len()) == needle@);
    true
}

/// Finds the first position at which `needle` stands in `hay`.
pub fn find_chars(hay: &Vec<char>, needle: &Vec<char>) -> (r: Option<usize>)
    ensures
        match r {
            Some(i) => first_at(hay@, needle@, i as int),
            None => forall|i: int| !stands_at(hay@, needle@, i),
        },
{
    let mut i: usize = 0;
    while i < hay.len()
        invariant
            i <= hay@.len(),
            forall|j: int| 0 <= j < i ==> !stands_at(hay@, needle@, j),
        decreases hay@.len() - i,
    {
        if chars_match_at(hay, needle, i) {
            return Some(i);
        }
        i += 1;
    }
    if chars_match_at(hay, needle, i) {
        return Some(i);
    }
    None
}

/// Tells whether `needle` stands somewhere in `hay`.
pub fn contains_text(hay: &str, needle: &str) -> (r: bool)
    ensures
        r == holds_text(hay@, needle@),
{
    let h = chars_of(hay);
    let n = chars_of(needle);
    find_chars(&h, &n).is_some()
}

/// Tells whether `text` begins with `head`.
pub fn begins_with(text: &str, head: &str) -> (r: bool)
    ensures
        r == head@.is_prefix_of(text@),
{
    let t = chars_of(text);
    let h = chars_of(head);
    assert(stands_at(t@, h@, 0) <==> h@.is_prefix_of(t@)) by {
        if h@.is_prefix_of(t@) {
            assert(t@.subrange(0, h@.len() as int) == h@);
        }
    }
    chars_match_at(&t, &h, 0)
}

/// Tells whether `text` ends with `tail`.
pub fn finishes_with(text: &str, tail: &str) -> (r: bool)
    ensures
        r == tail@.is_suffix_of(text@),
{
    let t = chars_of(text);
    let e = chars_of(tail);
    if e.len() > t.len() {
        return false;
    }
    let at: usize = t.len() - e.len();
    assert(stands_at(t@, e@, at as int) <==> e@.is_suffix_of(t@)) by {
        if e@.is_suffix_of(t@) {
            assert(t@.subrange(at as int, at + e@.len()) == e@);
        }
    }
    chars_match_at(&t, &e, at)
}

/// What follows `head` in `text`, where `text` begins with it.
pub fn after_prefix(text: &str, head: &str) -> (r: Option<String>)
    ensures
        r is Some <==> head@.is_prefix_of(text@),
        r matches Some(rest) ==> rest@ == text@.skip(head@.len() as int),
{
    if begins_with(text, head) {
        let t = chars_of(text);
        let n: usize = chars_of(head).len();
        assert(text@.skip(n as int) == t@.subrange(n as int, t@.len() as int));
        Some(string_between(&t, n, t.len()))
    } else {
        None
    }
}

// Trimming.

/// The text from its first character that is not dropped.
pub open spec fn trim_front(s: Seq<char>, drop: spec_fn(char) -> bool) -> Seq<char>
    decreases s.len(),
{
    if s.len() > 0 && drop(s.first()) {
        trim_front(s.drop_first(), drop)
    } else {
        s
    }
}

/// The text up to its last character that is not dropped.
pub open spec fn trim_back(s: Seq<char>, drop: spec_fn(char) -> bool) -> Seq<char>
    decreases s.len(),
{
    if s.len() > 0 && drop(s.last()) {
        trim_back(s.drop_last(), drop)
    } else {
        s
    }
}

/// The text without white space at its ends.
pub open spec fn trimmed(s: Seq<char>) -> Seq<char> {
    trim_back(trim_front(s, |c: char| white_space(c)), |c: char| white_space(c))
}

/// The text without slashes at its ends.
pub open spec fn unslashed(s: Seq<char>) -> Seq<char> {
    trim_back(trim_front(s, |c: char| c == '/'), |c: char| c == '/')
}

/// Removes the white space at the ends of a text.
pub fn trim_text(s: &str) -> (r: String)
    ensures
        r@ == trimmed(s@),
{
    let v = chars_of(s);
    let ghost drop = |c: char| white_space(c);
    let mut from: usize = 0;
    assert(v@.subrange(0, v@.len() as int) == v@);
    while from < v.len() && v[from].is_whitespace()
        invariant
            from <= v@.len(),
            drop == (|c: char| white_space(c)),
            trim_front(v@, drop) == trim_front(v@.subrange(from as int, v@.len() as int), drop),
        decreases v@.len() - from,
    {
        assert(v@.subrange(from as int, v@.len() as int).drop_first() == v@.subrange(
            from as int + 1,
            v@.len() as int,
        ));
        from += 1;
    }
    let mut to: usize = v.len();
    let ghost rest = v@.subrange(from as int, v@.len() as int);
    assert(trim_front(v@, drop) == rest);
    while from < to && v[to - 1].is_whitespace()
        invariant
            from <= to <= v@.len(),
            drop == (|c: char| white_space(c)),
            trim_back(rest, drop) == trim_back(v@.subrange(from as int, to as int), drop),
        decreases to,
    {
        assert(v@.subrange(from as int, to as int).drop_last() == v@.subrange(
            from as int,
            to as int - 1,
        ));
        to -= 1;
    }
    string_between(&v, from, to)
}

/// Removes the slashes at the ends of a text.
pub fn trim_slashes(s: &str) -> (r: String)
    ensures
        r@ == unslashed(s@),
{
    let v = chars_of(s);
    let ghost drop = |c: char| c == '/';
    let mut from: usize = 0;
    assert(v@.subrange(0, v@.len() as int) == v@);
    while from < v.len() && v[from] == '/'
        invariant
            from <= v@.len(),
            drop == (|c: char| c == '/'),
            trim_front(v@, drop) == trim_front(v@.subrange(from as int, v@.len() as int), drop),
        decreases v@.len() - from,
    {
        assert(v@.subrange(from as int, v@.len() as int).drop_first() == v@.subrange(
            from as int + 1,
            v@.len() as int,
        ));
        from += 1;
    }
    let mut to: usize = v.len();
    let ghost rest = v@.subrange(from as int, v@.len() as int);
    assert(trim_front(v@, drop) == rest);
    while from < to && v[to - 1] == '/'
        invariant
            from <= to <= v@.len(),
            drop == (|c: char| c == '/'),
            trim_back(rest, drop) == trim_back(v@.subrange(from as int, to as int), drop),
        decreases to,
    {
        assert(v@.subrange(from as int, to as int).drop_last() == v@.subrange(
            from as int,
            to as int - 1,
        ));
        to -= 1;
    }
    string_between(&v, from, to)
}

// Splitting.

/// The position of the first `c` in a text, or its length.
pub open spec fn first_char(s: Seq<char>, c: char) -> int
    decreases s.len(),
{
    if s.len() == 0 || s.first() == c {
        0
    } else {
        1 + first_char(s.drop_first(), c)
    }
}

/// The pieces of a text between the separators.
pub open spec fn pieces(s: Seq<char>, sep: char) -> Seq<Seq<char>>
    decreases s.len(),
{
    if s.len() == 0 {
        seq![seq![]]
    } else {
        let before = pieces(s.drop_last(), sep);
        if s.last() == sep {
            before.push(seq![])
        } else {
            before.drop_last().push(before.last().push(s.last()))
        }
    }
}

/// The maximal runs of characters that are not white space, with the run that
/// is still open at the end.
pub open spec fn runs(s: Seq<char>) -> (Seq<Seq<char>>, Seq<char>)
    decreases s.len(),
{
    if s.len() == 0 {
        (seq![], seq![])
    } else {
        let (done, open) = runs(s.drop_last());
        if !white_space(s.last()) {
            (done, open.push(s.last()))
        } else if open.len() > 0 {
            (done.push(open), seq![])
        } else {
            (done, open)
        }
    }
}

/// The words of a text: its maximal runs of characters that are not white space.
pub open spec fn words(s: Seq<char>) -> Seq<Seq<char>> {
    let (done, open) = runs(s);
    if open.len() > 0 {
        done.push(open)
    } else {
        done
    }
}

/// The texts of a list of strings.
pub open spec fn texts(v: Seq<String>) -> Seq<Seq<char>> {
    v.map_values(|s: String| s@)
}

/// Tells whether a text is among the strings of a list.
pub fn is_among(name: &str, list: &Vec<String>) -> (r: bool)
    ensures
        r == texts(list@).contains(name@),
{
    let mut i: usize = 0;
    while i < list.len()
        invariant
            i <= list@.len(),
            forall|k: int| 0 <= k < i ==> #[trigger] list@[k]@ != name@,
        decreases list@.len() - i,
    {
        if same(list[i].as_str(), name) {
            assert(texts(list@)[i as int] == name@);
            return true;
        }
        i += 1;
    }
    assert forall|k: int| 0 <= k < texts(list@).len() implies #[trigger] texts(list@)[k]
        != name@ by {
        assert(list@[k]@ != name@);
    }
    false
}

/// Splits a text at every `sep`.
pub fn split_text(s: &str, sep: char) -> (r: Vec<String>)
    ensures
        texts(r@) == pieces(s@, sep),
{
    let v = chars_of(s);
    let mut out: Vec<String> = Vec::new();
    let mut open = String::new();
    let mut i: usize = 0;
    assert(v@.take(0) == Seq::<char>::empty());
    assert(texts(out@).push(open@) == pieces(v@.take(0), sep));
    while i < v.len()
        invariant
            i <= v@.len(),
            texts(out@).push(open@) == pieces(v@.take(i as int), sep),
        decreases v@.len() - i,
    {
        let c: char = v[i];
        let ghost before = texts(out@);
        assert(v@.take(i as int + 1).drop_last() == v@.take(i as int));
        assert(before.push(open@).drop_last() == before);
        if c == sep {
            let ghost piece = open@;
            out.push(open);
            open = String::new();
            assert(texts(out@) == before.push(piece));
        } else {
            open.push(c);
        }
        i += 1;
    }
    assert(v@.take(v@.len() as int) == v@);
    let ghost before = texts(out@);
    let ghost piece = open@;
    out.push(open);
    assert(texts(out@) == before.push(piece));
    out
}

/// The words of a text.
pub fn split_words(s: &str) -> (r: Vec<String>)
    ensures
        texts(r@) == words(s@),
{
    let v = chars_of(s);
    let mut out: Vec<String> = Vec::new();
    let mut open: Vec<char> = Vec::new();
    let mut i: usize = 0;
    assert(v@.take(0) == Seq::<char>::empty());
    assert(texts(out@) == Seq::<Seq<char>>::empty());
    while i < v.len()
        invariant
            i <= v@.len(),
            runs(v@.take(i as int)) == (texts(out@), open@),
        decreases v@.len() - i,
    {
        let c: char = v[i];
        assert(v@.take(i as int + 1).drop_last() == v@.take(i as int));
        let ghost before = texts(out@);
        if !c.is_whitespace() {
            open.push(c);
        } else if open.len() > 0 {
            let w = string_of(&open);
            let ghost piece = w@;
            out.push(w);
            assert(texts(out@) == before.push(piece));
            open = Vec::new();
        }
        i += 1;
    }
    assert(v@.take(v@.len() as int) == v@);
    if open.len() > 0 {
        let ghost before = texts(out@);
        let w = string_of(&open);
        let ghost piece = w@;
        out.push(w);
        assert(texts(out@) == before.push(piece));
    }
    out
}

/// Splits a text at its first `sep`, which falls away.
pub fn split_at_char(s: &str, sep: char) -> (r: Option<(String, String)>)
    ensures
        r is Some <==> s@.contains(sep),
        r matches Some((a, b)) ==> {
            let k = first_char(s@, sep);
            a@ == s@.take(k) && b@ == s@.skip(k + 1)
        },
{
    let v = chars_of(s);
    let mut i: usize = 0;
    assert(v@.skip(0) == v@);
    while i < v.len()
        invariant
            i <= v@.len(),
            v@ == s@,
            forall|j: int| 0 <= j < i ==> v@[j] != sep,
            first_char(v@, sep) == i + first_char(v@.skip(i as int), sep),
        decreases v@.len() - i,
    {
        assert(v@.skip(i as int).drop_first() == v@.skip(i as int + 1));
        if v[i] == sep {
            assert(s@.contains(sep)) by {
                assert(s@[i as int] == sep);
            }
            let a = string_between(&v, 0, i);
            let b = string_between(&v, i + 1, v.len());
            assert(s@.take(i as int) == v@.subrange(0, i as int));
            assert(s@.skip(i as int + 1) == v@.subrange(i as int + 1, v@.len() as int));
            return Some((a, b));
        }
        i += 1;
    }
    None
}

// Replacing and joining.

/// The text with every occurrence of `from` replaced by `to`, found from the
/// left and without overlap.
pub open spec fn replaced(s: Seq<char>, from: Seq<char>, to: Seq<char>) -> Seq<char>
    decreases s.len(),
{
    if s.len() == 0 || from.len() == 0 {
        s
    } else if stands_at(s, from, 0) {
        to + replaced(s.skip(from.len() as int), from, to)
    } else {
        seq![s.first()] + replaced(s.drop_first(), from, to)
    }
}

/// Replaces every occurrence of `from` by `to`.
pub fn replace_text(s: &str, from: &str, to: &str) -> (r: String)
    requires
        from@.len() > 0,
    ensures
        r@ == replaced(s@, from@, to@),
{
    let v = chars_of(s);
    let f = chars_of(from);
    let mut out = String::new();
    let mut i: usize = 0;
    assert(v@.skip(0) == v@);
    assert(Seq::<char>::empty() + replaced(v@, f@, to@) == replaced(v@, f@, to@));
    while i < v.len()
        invariant
            i <= v@.len(),
            v@ == s@,
            f@ == from@,
            f@.len() > 0,
            out@ + replaced(v@.skip(i as int), f@, to@) == replaced(s@, from@, to@),
        decreases v@.len() - i,
    {
        let ghost rest = v@.skip(i as int);
        let ghost before = out@;
        assert(stands_at(rest, f@, 0) <==> stands_at(v@, f@, i as int)) by {
            if i + f@.len() <= v@.len() {
                assert(rest.subrange(0, f@.len() as int) == v@.subrange(
                    i as int,
                    i + f@.len(),
                ));
            }
        }
        if chars_match_at(&v, &f, i) {
            out.append(to);
            assert(rest.skip(f@.len() as int) == v@.skip(i + f@.len()));
            assert(before + (to@ + replaced(rest.skip(f@.len() as int), f@, to@)) == (before + to@)
                + replaced(rest.skip(f@.len() as int), f@, to@));
            i += f.len();
        } else {
            out.push(v[i]);
            assert(rest.drop_first() == v@.skip(i as int + 1));
            assert(before + (seq![rest.first()] + replaced(rest.drop_first(), f@, to@))
                == before.push(v@[i as int]) + replaced(rest.drop_first(), f@, to@));
            i += 1;
        }
    }
    assert(v@.skip(i as int) == Seq::<char>::empty());
    assert(out@ + Seq::<char>::empty() == out@);
    out
}

/// The texts one after the other, with `sep` between each two.
pub open spec fn joined(parts: Seq<Seq<char>>, sep: Seq<char>) -> Seq<char>
    decreases parts.len(),
{
    if parts.len() == 0 {
        seq![]
    } else if parts.len() == 1 {
        parts[0]
    } else {
        joined(parts.drop_last(), sep) + sep + parts.last()
    }
}

/// Joins texts with `sep` between each two.
pub fn join_texts(parts: &Vec<String>, sep: &str) -> (r: String)
    ensures
        r@ == joined(texts(parts@), sep@),
{
    let mut out = String::new();
    let mut i: usize = 0;
    assert(texts(parts@).take(0) == Seq::<Seq<char>>::empty());
    while i < parts.len()
        invariant
            i <= parts@.len(),
            out@ == joined(texts(parts@).take(i as int), sep@),
        decreases parts@.len() - i,
    {
        let ghost next = texts(parts@).take(i as int + 1);
        assert(next.drop_last() == texts(parts@).take(i as int));
        if i > 0 {
            out.append(sep);
            out.append(parts[i].as_str());
        } else {
            out.append(parts[i].as_str());
            assert(Seq::<char>::empty() + parts@[0]@ == parts@[0]@);
        }
        i += 1;
    }
    assert(texts(parts@).take(parts@.len() as int) == texts(parts@));
    out
}

} // verus!
