//! Standard base64 text of byte strings, with padding.
//!
//! Every three bytes become four symbols of six bits each; a last group of
//! one or two bytes is filled up with zero bits and padded with `=`. The
//! conversions themselves are done by the `base64` crate; the contracts of
//! the two wrappers at the end of this module are believed, not proved.

use base64::Engine;
use vstd::prelude::*;

verus! {

/// The 64 symbols in order of their value.
pub open spec fn base64_alphabet() -> Seq<char> {
    "ABCDEFGHIJKLMNOPQRSTUVWXYZabcdefghijklmnopqrstuvwxyz0123456789+/"@
}

/// The symbol that stands for six bits.
pub open spec fn base64_symbol(sextet: int) -> char {
    base64_alphabet()[sextet]
}

/// The base64 text of `bytes`.
pub open spec fn base64_text(bytes: Seq<u8>) -> Seq<char>
    decreases bytes.len(),
{
    let first = bytes[0] as int;
    let second = bytes[1] as int;
    let third = bytes[2] as int;
    if bytes.len() == 0 {
        Seq::empty()
    } else if bytes.len() == 1 {
        seq![base64_symbol(first / 4), base64_symbol(first % 4 * 16), '=', '=']
    } else if bytes.len() == 2 {
        seq![
            base64_symbol(first / 4),
            base64_symbol(first % 4 * 16 + second / 16),
            base64_symbol(second % 16 * 4),
            '=',
        ]
    } else {
        seq![
            base64_symbol(first / 4),
            base64_symbol(first % 4 * 16 + second / 16),
            base64_symbol(second % 16 * 4 + third / 64),
            base64_symbol(third % 64),
        ] + base64_text(bytes.skip(3))
    }
}

/// The bytes whose base64 text is `text`, if there are any.
pub open spec fn base64_bytes(text: Seq<char>) -> Option<Seq<u8>> {
    if exists|bytes: Seq<u8>| base64_text(bytes) == text {
        Some(choose|bytes: Seq<u8>| base64_text(bytes) == text)
    } else {
        None
    }
}

/// The six bits that a symbol stands for.
spec fn symbol_value(c: char) -> int {
    let code = c as u32 as int;
    if code == 43 {
        62
    } else if code == 47 {
        63
    } else if code < 58 {
        code + 4
    } else if code < 91 {
        code - 65
    } else {
        code - 71
    }
}

proof fn lemma_symbol(sextet: int)
    requires
        0 <= sextet < 64,
    ensures
        symbol_value(base64_symbol(sextet)) == sextet,
        base64_symbol(sextet) != '=',
{
    reveal_strlit("ABCDEFGHIJKLMNOPQRSTUVWXYZabcdefghijklmnopqrstuvwxyz0123456789+/");
}

/// The text has four characters for every three bytes begun.
pub proof fn lemma_base64_text_len(bytes: Seq<u8>)
    ensures
        base64_text(bytes).len() == 4 * ((bytes.len() + 2) / 3),
    decreases bytes.len(),
{
    if bytes.len() >= 3 {
        lemma_base64_text_len(bytes.skip(3));
    }
}

/// Each of the first four characters of a text is the padding or a symbol
/// that gives its six bits back.
proof fn lemma_group_symbols(bytes: Seq<u8>)
    requires
        bytes.len() > 0,
    ensures
        symbol_value(base64_text(bytes)[0]) == bytes[0] as int / 4,
        bytes.len() == 1 ==> symbol_value(base64_text(bytes)[1]) == bytes[0] as int % 4 * 16,
        bytes.len() == 1 <==> base64_text(bytes)[2] == '=',
        bytes.len() <= 2 <==> base64_text(bytes)[3] == '=',
        bytes.len() >= 2 ==> symbol_value(base64_text(bytes)[1]) == bytes[0] as int % 4 * 16
            + bytes[1] as int / 16,
        bytes.len() == 2 ==> symbol_value(base64_text(bytes)[2]) == bytes[1] as int % 16 * 4,
        bytes.len() >= 3 ==> symbol_value(base64_text(bytes)[2]) == bytes[1] as int % 16 * 4
            + bytes[2] as int / 64,
        bytes.len() >= 3 ==> symbol_value(base64_text(bytes)[3]) == bytes[2] as int % 64,
{
    let first = bytes[0] as int;
    let second = bytes[1] as int;
    let third = bytes[2] as int;
    lemma_symbol(first / 4);
    if bytes.len() == 1 {
        lemma_symbol(first % 4 * 16);
    } else {
        lemma_symbol(first % 4 * 16 + second / 16);
        if bytes.len() == 2 {
            lemma_symbol(second % 16 * 4);
        } else {
            lemma_symbol(second % 16 * 4 + third / 64);
            lemma_symbol(third % 64);
        }
    }
}

/// The first four characters of a text say how its bytes begin.
proof fn lemma_first_group(a: Seq<u8>, b: Seq<u8>)
    requires
        a.len() > 0,
        b.len() > 0,
        base64_text(a).len() >= 4,
        base64_text(b).len() >= 4,
        forall|i: int| 0 <= i < 4 ==> base64_text(a)[i] == base64_text(b)[i],
    ensures
        a.len() == 1 <==> b.len() == 1,
        a.len() == 2 <==> b.len() == 2,
        a[0] == b[0],
        a.len() >= 2 ==> a[1] == b[1],
        a.len() >= 3 ==> a[2] == b[2],
{
    let ta = base64_text(a);
    let tb = base64_text(b);
    assert(ta[0] == tb[0] && ta[1] == tb[1] && ta[2] == tb[2] && ta[3] == tb[3]);
    lemma_group_symbols(a);
    lemma_group_symbols(b);
}

/// Different bytes have different texts.
pub proof fn lemma_base64_text_injective(a: Seq<u8>, b: Seq<u8>)
    requires
        base64_text(a) == base64_text(b),
    ensures
        a == b,
    decreases a.len(),
{
    lemma_base64_text_len(a);
    lemma_base64_text_len(b);
    if a.len() == 0 || b.len() == 0 {
        assert(a =~= b);
    } else {
        lemma_first_group(a, b);
        if a.len() >= 3 {
            assert(base64_text(a).skip(4) =~= base64_text(a.skip(3)));
            assert(base64_text(b).skip(4) =~= base64_text(b.skip(3)));
            lemma_base64_text_injective(a.skip(3), b.skip(3));
            assert forall|i: int| 0 <= i < a.len() implies a[i] == b[i] by {
                if i >= 3 {
                    assert(a[i] == a.skip(3)[i - 3]);
                    assert(b[i] == b.skip(3)[i - 3]);
                }
            }
        }
        assert(a =~= b);
    }
}

/// Decoding the text of bytes gives the bytes back.
pub proof fn lemma_base64_round_trip(bytes: Seq<u8>)
    ensures
        base64_bytes(base64_text(bytes)) == Some(bytes),
{
    let decoded = choose|other: Seq<u8>| base64_text(other) == base64_text(bytes);
    lemma_base64_text_injective(decoded, bytes);
}

/// Decodes with the `base64` crate's `STANDARD` engine, which asks for
/// canonical padding and refuses trailing bits that are not zero.
///
/// Believed of `base64`: the bytes it gives are bytes whose text is the
/// input, and it fails only on a text that is the text of no bytes.
#[verifier::external_body]
fn standard_decode(text: &str) -> (bytes: Option<Vec<u8>>)
    ensures
        bytes matches Some(b) ==> base64_text(b@) == text@,
        bytes is None ==> base64_bytes(text@) is None,
{
    base64::engine::general_purpose::STANDARD.decode(text).ok()
}

/// Encodes with the `base64` crate's `STANDARD` engine.
///
/// Believed of `base64`: the result is the base64 text of the bytes.
#[verifier::external_body]
fn standard_encode(bytes: &[u8]) -> (text: String)
    ensures
        text@ == base64_text(bytes@),
{
    base64::engine::general_purpose::STANDARD.encode(bytes)
}

/// Decodes base64 text; `None` when it is the text of no bytes.
pub fn base64_decode(text: &str) -> (bytes: Option<Vec<u8>>)
    ensures
        bytes is Some <==> base64_bytes(text@) is Some,
        bytes matches Some(b) ==> base64_bytes(text@) == Some(b@),
{
    let bytes = standard_decode(text);
    proof {
        if bytes is Some {
            lemma_base64_round_trip(bytes->0@);
        }
    }
    bytes
}

/// Encodes bytes as base64 text, which decodes back to them.
pub fn base64_encode(bytes: &[u8]) -> (text: String)
    ensures
        text@ == base64_text(bytes@),
        text@.len() == 4 * ((bytes@.len() + 2) / 3),
        base64_bytes(text@) == Some(bytes@),
{
    let text = standard_encode(bytes);
    proof {
        lemma_base64_round_trip(bytes@);
        lemma_base64_text_len(bytes@);
    }
    text
}

} // verus!
