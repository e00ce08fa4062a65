//! Base58 text of byte strings, in the Bitcoin alphabet.
//!
//! The text of a byte string is one `1` for each leading zero byte, followed
//! by the digits in base 58 of the number that the bytes stand for. The
//! conversions themselves are done by the `bs58` crate; the contracts of the
//! two wrappers at the end of this module are believed, not proved.

use vstd::prelude::*;

verus! {

/// The 58 digits in order of their value: the decimal digits and the ASCII
/// letters without `0`, `O`, `I` and `l`.
pub open spec fn base58_alphabet() -> Seq<char> {
    "123456789ABCDEFGHJKLMNPQRSTUVWXYZabcdefghijkmnopqrstuvwxyz"@
}

/// Whether `c` belongs to the base58 alphabet.
pub open spec fn is_base58_char(c: char) -> bool {
    ||| '1' <= c <= '9'
    ||| 'A' <= c <= 'Z' && c != 'I' && c != 'O'
    ||| 'a' <= c <= 'z' && c != 'l'
}

/// Whether every character of `text` belongs to the base58 alphabet.
pub open spec fn is_base58_text(text: Seq<char>) -> bool {
    forall|i: int| 0 <= i < text.len() ==> is_base58_char(#[trigger] text[i])
}

/// The number that `bytes` stand for, most significant byte first.
pub open spec fn big_endian_value(bytes: Seq<u8>) -> nat
    decreases bytes.len(),
{
    if bytes.len() == 0 {
        0
    } else {
        big_endian_value(bytes.drop_last()) * 256 + bytes.last() as nat
    }
}

/// How many zero bytes `bytes` begins with.
pub open spec fn leading_zeros(bytes: Seq<u8>) -> nat
    decreases bytes.len(),
{
    if bytes.len() == 0 || bytes[0] != 0 {
        0
    } else {
        1 + leading_zeros(bytes.drop_first())
    }
}

/// The digits of `n` in base 58, most significant first; none for zero.
pub open spec fn base58_digits(n: nat) -> Seq<char>
    decreases n,
{
    if n == 0 {
        Seq::empty()
    } else {
        base58_digits(n / 58).push(base58_alphabet()[(n % 58) as int])
    }
}

/// The base58 text of `bytes`.
pub open spec fn base58_text(bytes: Seq<u8>) -> Seq<char> {
    Seq::new(leading_zeros(bytes), |i: int| '1') + base58_digits(big_endian_value(bytes))
}

/// The bytes whose base58 text is `text`, if there are any.
pub open spec fn base58_bytes(text: Seq<char>) -> Option<Seq<u8>> {
    if exists|bytes: Seq<u8>| base58_text(bytes) == text {
        Some(choose|bytes: Seq<u8>| base58_text(bytes) == text)
    } else {
        None
    }
}

/// The value of a base58 digit, by its place in the alphabet.
spec fn digit_value(c: char) -> int {
    let code = c as u32 as int;
    if code < 58 {
        code - 49
    } else if code < 73 {
        code - 56
    } else if code < 79 {
        code - 57
    } else if code < 91 {
        code - 58
    } else if code < 108 {
        code - 64
    } else {
        code - 65
    }
}

/// The number that base58 digits stand for, most significant first.
spec fn digits_value(digits: Seq<char>) -> int
    decreases digits.len(),
{
    if digits.len() == 0 {
        0
    } else {
        digits_value(digits.drop_last()) * 58 + digit_value(digits.last())
    }
}

proof fn lemma_alphabet(d: int)
    requires
        0 <= d < 58,
    ensures
        is_base58_char(base58_alphabet()[d]),
        digit_value(base58_alphabet()[d]) == d,
        d != 0 ==> base58_alphabet()[d] != '1',
{
    reveal_strlit("123456789ABCDEFGHJKLMNPQRSTUVWXYZabcdefghijkmnopqrstuvwxyz");
}

proof fn lemma_digits(n: nat)
    ensures
        digits_value(base58_digits(n)) == n,
        is_base58_text(base58_digits(n)),
        n > 0 ==> base58_digits(n).len() > 0 && base58_digits(n)[0] != '1',
    decreases n,
{
    if n > 0 {
        let rest = base58_digits(n / 58);
        let digit = base58_alphabet()[(n % 58) as int];
        lemma_digits(n / 58);
        lemma_alphabet((n % 58) as int);
        assert(rest.push(digit).drop_last() =~= rest);
    }
}

proof fn lemma_leading_zeros_bound(bytes: Seq<u8>)
    ensures
        leading_zeros(bytes) <= bytes.len(),
        forall|i: int| 0 <= i < leading_zeros(bytes) ==> bytes[i] == 0,
        leading_zeros(bytes) < bytes.len() ==> bytes[leading_zeros(bytes) as int] != 0,
    decreases bytes.len(),
{
    if bytes.len() != 0 && bytes[0] == 0 {
        let rest = bytes.drop_first();
        lemma_leading_zeros_bound(rest);
        assert forall|i: int| 0 <= i < leading_zeros(bytes) implies bytes[i] == 0 by {
            if i > 0 {
                assert(bytes[i] == rest[i - 1]);
            }
        }
        if leading_zeros(bytes) < bytes.len() {
            assert(bytes[leading_zeros(bytes) as int] == rest[leading_zeros(rest) as int]);
        }
    }
}

/// The count of leading zeros is the only place before which all bytes are
/// zero and at which the bytes end or a byte is not zero.
proof fn lemma_leading_zeros_is(bytes: Seq<u8>, count: int)
    requires
        0 <= count <= bytes.len(),
        forall|i: int| 0 <= i < count ==> bytes[i] == 0,
        count < bytes.len() ==> bytes[count] != 0,
    ensures
        leading_zeros(bytes) == count,
{
    lemma_leading_zeros_bound(bytes);
    let found = leading_zeros(bytes) as int;
    if found < count {
        assert(bytes[found] == 0);
    } else if count < found {
        assert(bytes[count] == 0);
    }
}

proof fn lemma_zero_value(bytes: Seq<u8>)
    ensures
        big_endian_value(bytes) == 0 <==> leading_zeros(bytes) == bytes.len(),
    decreases bytes.len(),
{
    lemma_leading_zeros_bound(bytes);
    if bytes.len() > 0 {
        let front = bytes.drop_last();
        lemma_zero_value(front);
        lemma_leading_zeros_bound(front);
        if big_endian_value(bytes) == 0 {
            assert(bytes.last() == 0 && big_endian_value(front) == 0);
            assert forall|i: int| 0 <= i < bytes.len() implies bytes[i] == 0 by {
                if i < front.len() {
                    assert(bytes[i] == front[i]);
                }
            }
            lemma_leading_zeros_is(bytes, bytes.len() as int);
        }
        if leading_zeros(bytes) == bytes.len() {
            assert forall|i: int| 0 <= i < front.len() implies front[i] == 0 by {
                assert(front[i] == bytes[i]);
            }
            lemma_leading_zeros_is(front, front.len() as int);
        }
    }
}

/// Appending a byte to bytes that stand for more than zero leaves the count
/// of leading zeros as it was.
proof fn lemma_leading_zeros_of_front(bytes: Seq<u8>)
    requires
        big_endian_value(bytes) > 0,
    ensures
        bytes.len() > 0,
        leading_zeros(bytes.drop_last()) == leading_zeros(bytes),
{
    let front = bytes.drop_last();
    lemma_zero_value(bytes);
    lemma_leading_zeros_bound(bytes);
    let count = leading_zeros(bytes) as int;
    assert forall|i: int| 0 <= i < count && i < front.len() implies front[i] == 0 by {
        assert(front[i] == bytes[i]);
    }
    if count < front.len() {
        assert(front[count] == bytes[count]);
    }
    lemma_leading_zeros_is(front, count);
}

/// Bytes are determined by their count of leading zeros and their value.
proof fn lemma_bytes_determined(a: Seq<u8>, b: Seq<u8>)
    requires
        leading_zeros(a) == leading_zeros(b),
        big_endian_value(a) == big_endian_value(b),
    ensures
        a == b,
    decreases a.len(),
{
    lemma_zero_value(a);
    lemma_zero_value(b);
    lemma_leading_zeros_bound(a);
    lemma_leading_zeros_bound(b);
    if big_endian_value(a) == 0 {
        assert(a =~= b);
    } else {
        lemma_leading_zeros_of_front(a);
        lemma_leading_zeros_of_front(b);
        lemma_bytes_determined(a.drop_last(), b.drop_last());
        assert(a.last() == b.last());
        assert(a =~= a.drop_last().push(a.last()));
        assert(b =~= b.drop_last().push(b.last()));
    }
}

/// The text of any bytes stays within the base58 alphabet.
pub proof fn lemma_base58_text_within_alphabet(bytes: Seq<u8>)
    ensures
        is_base58_text(base58_text(bytes)),
{
    lemma_digits(big_endian_value(bytes));
}

/// Different bytes have different texts.
pub proof fn lemma_base58_text_injective(a: Seq<u8>, b: Seq<u8>)
    requires
        base58_text(a) == base58_text(b),
    ensures
        a == b,
{
    let text = base58_text(a);
    let ones_a = leading_zeros(a) as int;
    let ones_b = leading_zeros(b) as int;
    let digits_a = base58_digits(big_endian_value(a));
    let digits_b = base58_digits(big_endian_value(b));
    lemma_digits(big_endian_value(a));
    lemma_digits(big_endian_value(b));
    assert(text.len() == ones_a + digits_a.len());
    assert(text.len() == ones_b + digits_b.len());
    if ones_a < ones_b {
        assert(base58_text(b)[ones_a] == '1');
        if digits_a.len() > 0 {
            assert(base58_text(a)[ones_a] == digits_a[0]);
        }
    } else if ones_b < ones_a {
        assert(base58_text(a)[ones_b] == '1');
        if digits_b.len() > 0 {
            assert(base58_text(b)[ones_b] == digits_b[0]);
        }
    }
    assert(ones_a == ones_b);
    assert(digits_a =~= text.skip(ones_a));
    assert(digits_b =~= text.skip(ones_b));
    lemma_bytes_determined(a, b);
}

/// Decoding the text of bytes gives the bytes back.
pub proof fn lemma_base58_round_trip(bytes: Seq<u8>)
    ensures
        base58_bytes(base58_text(bytes)) == Some(bytes),
{
    let decoded = choose|other: Seq<u8>| base58_text(other) == base58_text(bytes);
    lemma_base58_text_injective(decoded, bytes);
}

/// Text with a character outside the alphabet decodes to nothing.
pub proof fn lemma_base58_outside_alphabet(text: Seq<char>)
    requires
        !is_base58_text(text),
    ensures
        base58_bytes(text) is None,
{
    if base58_bytes(text) is Some {
        lemma_base58_text_within_alphabet(base58_bytes(text)->0);
    }
}

/// Text is decoded to the bytes that it is the text of, and to no others.
pub proof fn lemma_base58_bytes_of_text(bytes: Seq<u8>, text: Seq<char>)
    requires
        base58_text(bytes) == text,
    ensures
        base58_bytes(text) == Some(bytes),
{
    lemma_base58_round_trip(bytes);
}

/// How many `1` characters `text` begins with.
spec fn leading_ones(text: Seq<char>) -> nat
    decreases text.len(),
{
    if text.len() == 0 || text[0] != '1' {
        0
    } else {
        1 + leading_ones(text.drop_first())
    }
}

/// The bytes of `n`, most significant first; none for zero.
spec fn big_endian_bytes(n: nat) -> Seq<u8>
    decreases n,
{
    if n == 0 {
        Seq::empty()
    } else {
        big_endian_bytes(n / 256).push((n % 256) as u8)
    }
}

proof fn lemma_leading_ones_bound(text: Seq<char>)
    ensures
        leading_ones(text) <= text.len(),
        forall|i: int| 0 <= i < leading_ones(text) ==> text[i] == '1',
        leading_ones(text) < text.len() ==> text[leading_ones(text) as int] != '1',
    decreases text.len(),
{
    if text.len() != 0 && text[0] == '1' {
        let rest = text.drop_first();
        lemma_leading_ones_bound(rest);
        assert forall|i: int| 0 <= i < leading_ones(text) implies text[i] == '1' by {
            if i > 0 {
                assert(text[i] == rest[i - 1]);
            }
        }
        if leading_ones(text) < text.len() {
            assert(text[leading_ones(text) as int] == rest[leading_ones(rest) as int]);
        }
    }
}

proof fn lemma_char_in_alphabet(c: char)
    requires
        is_base58_char(c),
    ensures
        0 <= digit_value(c) < 58,
        base58_alphabet()[digit_value(c)] == c,
        c != '1' ==> digit_value(c) > 0,
{
    reveal_strlit("123456789ABCDEFGHJKLMNPQRSTUVWXYZabcdefghijkmnopqrstuvwxyz");
}

/// Digits stand for a number that is not negative, and for more than zero
/// when the first of them is not the zero digit.
proof fn lemma_digits_value_positive(digits: Seq<char>)
    requires
        is_base58_text(digits),
    ensures
        digits_value(digits) >= 0,
        digits.len() > 0 && digits[0] != '1' ==> digits_value(digits) > 0,
    decreases digits.len(),
{
    if digits.len() > 0 {
        let front = digits.drop_last();
        lemma_char_in_alphabet(digits.last());
        assert(is_base58_text(front)) by {
            assert forall|i: int| 0 <= i < front.len() implies is_base58_char(
                #[trigger] front[i],
            ) by {
                assert(front[i] == digits[i]);
            }
        }
        lemma_digits_value_positive(front);
        if front.len() > 0 {
            assert(front[0] == digits[0]);
        }
    }
}

/// Digits without a leading zero digit are the digits of their value.
proof fn lemma_digits_of_value(digits: Seq<char>)
    requires
        is_base58_text(digits),
        digits.len() > 0 ==> digits[0] != '1',
    ensures
        digits_value(digits) >= 0,
        base58_digits(digits_value(digits) as nat) == digits,
    decreases digits.len(),
{
    lemma_digits_value_positive(digits);
    if digits.len() > 0 {
        let front = digits.drop_last();
        let last = digits.last();
        lemma_char_in_alphabet(last);
        assert(is_base58_text(front)) by {
            assert forall|i: int| 0 <= i < front.len() implies is_base58_char(
                #[trigger] front[i],
            ) by {
                assert(front[i] == digits[i]);
            }
        }
        if front.len() > 0 {
            assert(front[0] == digits[0]);
        }
        lemma_digits_of_value(front);
        let value = digits_value(digits) as nat;
        assert(value / 58 == digits_value(front));
        assert(value % 58 == digit_value(last));
        assert(digits =~= front.push(last));
    } else {
        assert(digits =~= Seq::<char>::empty());
    }
}

proof fn lemma_big_endian_bytes(n: nat)
    ensures
        big_endian_value(big_endian_bytes(n)) == n,
        n > 0 ==> big_endian_bytes(n).len() > 0 && big_endian_bytes(n)[0] != 0,
    decreases n,
{
    if n > 0 {
        let front = big_endian_bytes(n / 256);
        let last = (n % 256) as u8;
        lemma_big_endian_bytes(n / 256);
        assert(front.push(last).drop_last() =~= front);
    }
}

/// So many zero bytes.
spec fn zero_bytes(count: nat) -> Seq<u8> {
    Seq::new(count, |i: int| 0u8)
}

/// Zero bytes in front change the count of leading zeros, not the value.
proof fn lemma_zeros_in_front(count: nat, body: Seq<u8>)
    requires
        body.len() > 0 ==> body[0] != 0,
    ensures
        leading_zeros(zero_bytes(count) + body) == count,
        big_endian_value(zero_bytes(count) + body) == big_endian_value(body),
    decreases body.len(),
{
    let zeros = zero_bytes(count);
    let bytes = zeros + body;
    lemma_leading_zeros_is(bytes, count as int);
    if body.len() == 0 {
        assert(bytes =~= zeros);
        lemma_zero_value(bytes);
    } else {
        let front = body.drop_last();
        assert(bytes.drop_last() =~= zeros + front);
        assert(bytes.last() == body.last());
        if front.len() > 0 {
            assert(front[0] == body[0]);
            lemma_zeros_in_front(count, front);
        } else {
            assert(zeros + front =~= zeros);
            lemma_leading_zeros_is(zeros, count as int);
            lemma_zero_value(zeros);
        }
        assert(big_endian_value(bytes.drop_last()) == big_endian_value(front));
    }
}

/// Every text within the alphabet is the text of some bytes.
pub proof fn lemma_base58_text_decodes(text: Seq<char>)
    requires
        is_base58_text(text),
    ensures
        base58_bytes(text) is Some,
{
    lemma_leading_ones_bound(text);
    let ones = leading_ones(text);
    let digits = text.skip(ones as int);
    assert(is_base58_text(digits)) by {
        assert forall|i: int| 0 <= i < digits.len() implies is_base58_char(
            #[trigger] digits[i],
        ) by {
            assert(digits[i] == text[ones + i]);
        }
    }
    lemma_digits_of_value(digits);
    let value = digits_value(digits) as nat;
    let body = big_endian_bytes(value);
    lemma_big_endian_bytes(value);
    lemma_zeros_in_front(ones, body);
    let bytes = zero_bytes(ones) + body;
    assert(base58_text(bytes) =~= text);
}

/// Text decodes to bytes exactly when it stays within the alphabet.
pub proof fn lemma_base58_decodes_iff(text: Seq<char>)
    ensures
        base58_bytes(text) is Some <==> is_base58_text(text),
{
    if is_base58_text(text) {
        lemma_base58_text_decodes(text);
    } else {
        lemma_base58_outside_alphabet(text);
    }
}

/// Decodes base58 text with `bs58::decode(..).into_vec()`.
///
/// Believed of `bs58`: decoding fails only on a character outside the
/// alphabet, and the bytes it gives are bytes whose text is the input.
#[verifier::external_body]
fn bs58_decode(text: &str) -> (bytes: Option<Vec<u8>>)
    ensures
        bytes matches Some(b) ==> base58_text(b@) == text@,
        bytes is None ==> !is_base58_text(text@),
{
    bs58::decode(text).into_vec().ok()
}

/// Encodes bytes with `bs58::encode(..).into_string()`.
///
/// Believed of `bs58`: the result is the base58 text of the bytes.
#[verifier::external_body]
fn bs58_encode(bytes: &[u8]) -> (text: String)
    ensures
        text@ == base58_text(bytes@),
{
    bs58::encode(bytes).into_string()
}

/// Decodes base58 text; `None` when a character is outside the alphabet.
pub fn base58_decode(text: &str) -> (bytes: Option<Vec<u8>>)
    ensures
        bytes is Some <==> is_base58_text(text@),
        bytes is Some <==> base58_bytes(text@) is Some,
        bytes matches Some(b) ==> base58_bytes(text@) == Some(b@),
{
    let bytes = bs58_decode(text);
    proof {
        if bytes is Some {
            lemma_base58_bytes_of_text(bytes->0@, text@);
            lemma_base58_text_within_alphabet(bytes->0@);
        } else {
            lemma_base58_outside_alphabet(text@);
        }
    }
    bytes
}

/// Encodes bytes as base58 text, which decodes back to them.
pub fn base58_encode(bytes: &[u8]) -> (text: String)
    ensures
        text@ == base58_text(bytes@),
        base58_bytes(text@) == Some(bytes@),
{
    let text = bs58_encode(bytes);
    proof {
        lemma_base58_round_trip(bytes@);
    }
    text
}

} // verus!
