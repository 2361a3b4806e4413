//! Bytes written as base64 text.
use base64::Engine;
use vstd::prelude::*;

verus! {

/// The character for six bits.
pub open spec fn symbol(n: int) -> char {
    if n < 26 {
        ('A' as int + n) as char
    } else if n < 52 {
        ('a' as int + n - 26) as char
    } else if n < 62 {
        ('0' as int + n - 52) as char
    } else if n == 62 {
        '+'
    } else {
        '/'
    }
}

/// Bytes in base64: four characters for every three bytes, with `=` in the place
/// of bytes that are missing at the end.
pub open spec fn base64_of(b: Seq<u8>) -> Seq<char>
    decreases b.len(),
{
    if b.len() == 0 {
        seq![]
    } else if b.len() == 1 {
        seq![symbol(b[0] as int / 4), symbol(b[0] as int % 4 * 16), '=', '=']
    } else if b.len() == 2 {
        seq![
            symbol(b[0] as int / 4),
            symbol(b[0] as int % 4 * 16 + b[1] as int / 16),
            symbol(b[1] as int % 16 * 4),
            '=',
        ]
    } else {
        seq![
            symbol(b[0] as int / 4),
            symbol(b[0] as int % 4 * 16 + b[1] as int / 16),
            symbol(b[1] as int % 16 * 4 + b[2] as int / 64),
            symbol(b[2] as int % 64),
        ] + base64_of(b.skip(3))
    }
}

/// The text is the base64 of some bytes.
pub open spec fn is_base64(text: Seq<char>) -> bool {
    exists|b: Seq<u8>| #[trigger] base64_of(b) == text
}

/// The bytes that a text stands for, or nothing if it is no base64.
pub open spec fn bytes_of(text: Seq<char>) -> Option<Seq<u8>> {
    if is_base64(text) {
        Some(choose|b: Seq<u8>| #[trigger] base64_of(b) == text)
    } else {
        None
    }
}

/// What the text stands for: its bytes, or nothing if it is no base64.
pub open spec fn decodes(text: Seq<char>, r: Option<Seq<u8>>) -> bool {
    match r {
        Some(b) => base64_of(b) == text,
        None => !is_base64(text),
    }
}

/// The bytes of an optional vector.
pub open spec fn option_bytes(v: Option<Vec<u8>>) -> Option<Seq<u8>> {
    match v {
        Some(b) => Some(b@),
        None => None,
    }
}

/// `base64::Engine::decode` of `base64::engine::general_purpose::STANDARD`: the
/// bytes whose base64 is the text, with the usual alphabet and padding, or nothing
/// if there are none. Missing padding and stray bits in the last character are
/// errors.
#[verifier::external_body]
pub(crate) fn decode(text: &str) -> (r: Option<Vec<u8>>)
    ensures
        decodes(text@, option_bytes(r)),
{
    base64::engine::general_purpose::STANDARD.decode(text).ok()
}

proof fn lemma_symbol(a: int, b: int)
    requires
        0 <= a < 64,
        0 <= b < 64,
    ensures
        symbol(a) == symbol(b) ==> a == b,
        symbol(a) != '=',
{
}

proof fn lemma_length(b: Seq<u8>)
    ensures
        base64_of(b).len() == (b.len() + 2) / 3 * 4,
    decreases b.len(),
{
    if b.len() > 2 {
        lemma_length(b.skip(3));
    }
}

/// Reading base64 undoes writing it.
pub proof fn law_reading_undoes_writing(b: Seq<u8>)
    ensures
        bytes_of(base64_of(b)) == Some(b),
{
    let text = base64_of(b);
    assert(is_base64(text));
    let found = choose|c: Seq<u8>| #[trigger] base64_of(c) == text;
    law_base64_is_unambiguous(found, b);
}

/// No text is the base64 of two different sequences of bytes.
pub proof fn law_base64_is_unambiguous(a: Seq<u8>, b: Seq<u8>)
    requires
        base64_of(a) == base64_of(b),
    ensures
        a == b,
    decreases a.len(),
{
    lemma_length(a);
    lemma_length(b);
    let t = base64_of(a);
    if a.len() > 0 && b.len() > 0 {
        assert(t[0] == symbol(a[0] as int / 4) && t[0] == symbol(b[0] as int / 4));
        lemma_symbol(a[0] as int / 4, b[0] as int / 4);
        let a1 = if a.len() > 1 { a[1] as int } else { 0 };
        let b1 = if b.len() > 1 { b[1] as int } else { 0 };
        let a2 = if a.len() > 2 { a[2] as int } else { 0 };
        let b2 = if b.len() > 2 { b[2] as int } else { 0 };
        assert(t[1] == symbol(a[0] as int % 4 * 16 + a1 / 16));
        assert(t[1] == symbol(b[0] as int % 4 * 16 + b1 / 16));
        lemma_symbol(a[0] as int % 4 * 16 + a1 / 16, b[0] as int % 4 * 16 + b1 / 16);
        lemma_symbol(a1 % 16 * 4 + a2 / 64, b1 % 16 * 4 + b2 / 64);
        lemma_symbol(a2 % 64, b2 % 64);
        assert(a.len() == 1 <==> t[2] == '=');
        assert(b.len() == 1 <==> t[2] == '=');
        assert(a.len() <= 2 <==> t[3] == '=');
        assert(b.len() <= 2 <==> t[3] == '=');
        if a.len() > 2 {
            assert(t.skip(4) =~= base64_of(a.skip(3)));
            assert(t.skip(4) =~= base64_of(b.skip(3)));
            law_base64_is_unambiguous(a.skip(3), b.skip(3));
            assert(a =~= a.take(3) + a.skip(3));
            assert(b =~= b.take(3) + b.skip(3));
            assert(a.take(3) =~= b.take(3));
        } else {
            assert(a =~= b);
        }
    }
}

} // verus!
