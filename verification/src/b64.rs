//! Standard base64, the text form in which a message body travels.
//!
//! The encoding itself is done by the `base64` crate. What it yields is
//! stated here as a function on sequences, and that function is shown to lose
//! nothing: two byte strings with one text are the same byte string.

use vstd::prelude::*;

verus! {

/// The character for a six-bit value in the standard alphabet:
/// `A`-`Z`, `a`-`z`, `0`-`9`, `+`, `/`.
pub open spec fn symbol(six: int) -> char {
    if six < 26 {
        (six + 65) as char
    } else if six < 52 {
        (six + 71) as char
    } else if six < 62 {
        (six - 4) as char
    } else if six == 62 {
        '+'
    } else {
        '/'
    }
}

/// The four characters that stand for three bytes.
pub open spec fn full_group(a: int, b: int, c: int) -> Seq<char> {
    seq![symbol(a / 4), symbol(a % 4 * 16 + b / 16), symbol(b % 16 * 4 + c / 64), symbol(c % 64)]
}

/// The padded group that stands for the last two bytes.
pub open spec fn pair_group(a: int, b: int) -> Seq<char> {
    seq![symbol(a / 4), symbol(a % 4 * 16 + b / 16), symbol(b % 16 * 4), '=']
}

/// The padded group that stands for one last byte.
pub open spec fn single_group(a: int) -> Seq<char> {
    seq![symbol(a / 4), symbol(a % 4 * 16), '=', '=']
}

/// The standard base64 text of `bytes`, with padding.
pub open spec fn base64_text(bytes: Seq<u8>) -> Seq<char>
    decreases bytes.len(),
{
    if bytes.len() == 0 {
        Seq::empty()
    } else if bytes.len() == 1 {
        single_group(bytes[0] as int)
    } else if bytes.len() == 2 {
        pair_group(bytes[0] as int, bytes[1] as int)
    } else {
        full_group(bytes[0] as int, bytes[1] as int, bytes[2] as int) + base64_text(bytes.skip(3))
    }
}

/// The bytes that `text` stands for, if it is the base64 text of any.
pub open spec fn base64_bytes(text: Seq<char>) -> Option<Seq<u8>> {
    if exists|bytes: Seq<u8>| #[trigger] base64_text(bytes) == text {
        Some(choose|bytes: Seq<u8>| #[trigger] base64_text(bytes) == text)
    } else {
        None
    }
}

/// The length of the base64 text of `len` bytes.
pub open spec fn text_len(len: nat) -> nat {
    4 * ((len + 2) / 3)
}

/// Whether the text of `len` bytes still has a length that `usize` holds.
pub open spec fn encodable(len: nat) -> bool {
    text_len(len) <= usize::MAX
}

/// A symbol is never the padding character, and tells its six bits.
pub proof fn lemma_symbol(six: int, other: int)
    requires
        0 <= six < 64,
        0 <= other < 64,
    ensures
        symbol(six) != '=',
        symbol(six) == symbol(other) ==> six == other,
{
}

/// The text of `bytes` has four characters for every three bytes begun.
pub proof fn lemma_text_len(bytes: Seq<u8>)
    ensures
        base64_text(bytes).len() == text_len(bytes.len()),
    decreases bytes.len(),
{
    if bytes.len() >= 3 {
        lemma_text_len(bytes.skip(3));
    }
}

/// Base64 loses nothing: byte strings with the same text are equal.
pub proof fn lemma_text_tells_bytes(left: Seq<u8>, right: Seq<u8>)
    requires
        base64_text(left) == base64_text(right),
    ensures
        left == right,
    decreases left.len(),
{
    lemma_text_len(left);
    lemma_text_len(right);
    let text = base64_text(left);
    if left.len() == 0 {
        assert(right.len() == 0);
        assert(left =~= right);
    } else {
        assert(right.len() > 0);
        let l0 = left[0];
        let r0 = right[0];
        lemma_symbol(l0 as int / 4, r0 as int / 4);
        assert(text[0] == symbol(l0 as int / 4));
        assert(text[0] == symbol(r0 as int / 4));
        if left.len() == 1 {
            assert(text[2] == '=');
            if right.len() >= 2 {
                lemma_symbol(right[1] as int % 16 * 4, 0);
                if right.len() >= 3 {
                    lemma_symbol(right[1] as int % 16 * 4 + right[2] as int / 64, 0);
                }
            }
            assert(right.len() == 1);
            lemma_symbol(l0 as int % 4 * 16, r0 as int % 4 * 16);
            assert(text[1] == symbol(l0 as int % 4 * 16));
            assert(text[1] == symbol(r0 as int % 4 * 16));
            assert(left =~= right);
        } else if left.len() == 2 {
            let l1 = left[1];
            assert(text[2] == symbol(l1 as int % 16 * 4));
            assert(text[3] == '=');
            lemma_symbol(l1 as int % 16 * 4, 0);
            if right.len() >= 3 {
                lemma_symbol(right[2] as int % 64, 0);
            }
            assert(right.len() == 2);
            let r1 = right[1];
            lemma_symbol(l0 as int % 4 * 16 + l1 as int / 16, r0 as int % 4 * 16 + r1 as int / 16);
            lemma_symbol(l1 as int % 16 * 4, r1 as int % 16 * 4);
            assert(text[1] == symbol(l0 as int % 4 * 16 + l1 as int / 16));
            assert(text[1] == symbol(r0 as int % 4 * 16 + r1 as int / 16));
            assert(text[2] == symbol(r1 as int % 16 * 4));
            assert(left =~= right);
        } else {
            let l1 = left[1];
            let l2 = left[2];
            let l_group = full_group(l0 as int, l1 as int, l2 as int);
            let l_rest = base64_text(left.skip(3));
            assert(text == l_group + l_rest);
            assert(text[1] == l_group[1]);
            assert(text[2] == l_group[2]);
            assert(text[3] == l_group[3]);
            lemma_symbol(l1 as int % 16 * 4 + l2 as int / 64, 0);
            lemma_symbol(l2 as int % 64, 0);
            assert(right.len() >= 3);
            let r1 = right[1];
            let r2 = right[2];
            let r_group = full_group(r0 as int, r1 as int, r2 as int);
            let r_rest = base64_text(right.skip(3));
            assert(text == r_group + r_rest);
            assert(text[1] == r_group[1]);
            assert(text[2] == r_group[2]);
            assert(text[3] == r_group[3]);
            lemma_symbol(l0 as int % 4 * 16 + l1 as int / 16, r0 as int % 4 * 16 + r1 as int / 16);
            lemma_symbol(l1 as int % 16 * 4 + l2 as int / 64, r1 as int % 16 * 4 + r2 as int / 64);
            lemma_symbol(l2 as int % 64, r2 as int % 64);
            assert(l0 == r0 && l1 == r1 && l2 == r2);
            assert(l_rest =~= text.skip(4));
            assert(r_rest =~= text.skip(4));
            lemma_text_tells_bytes(left.skip(3), right.skip(3));
            assert(left =~= seq![l0, l1, l2] + left.skip(3));
            assert(right =~= seq![r0, r1, r2] + right.skip(3));
        }
    }
}

/// Decoding undoes encoding: the text of `bytes` stands for `bytes` and for
/// nothing else.
pub proof fn lemma_bytes_of_text(bytes: Seq<u8>)
    ensures
        base64_bytes(base64_text(bytes)) == Some(bytes),
{
    let text = base64_text(bytes);
    let found = choose|b: Seq<u8>| #[trigger] base64_text(b) == text;
    lemma_text_tells_bytes(found, bytes);
}

/// Base64 text of `bytes`, by the `base64` crate's `Engine::encode` on its
/// `STANDARD` engine: the standard alphabet, padded. The call gives up where
/// the length of the text would not fit in `usize`, so such input is left out.
#[verifier::external_body]
pub(crate) fn standard_encode(bytes: &[u8]) -> (text: String)
    requires
        encodable(bytes@.len()),
    ensures
        text@ == base64_text(bytes@),
{
    base64::Engine::encode(&base64::engine::general_purpose::STANDARD, bytes)
}

/// The bytes behind base64 text, by the `base64` crate's `Engine::decode` on
/// its `STANDARD` engine. That engine takes canonical text only (padding
/// required, no stray bits in the last symbol), so it succeeds exactly on
/// what `standard_encode` can write, and fails on all other text.
#[verifier::external_body]
pub(crate) fn standard_decode(text: &str) -> (outcome: Result<Vec<u8>, base64::DecodeError>)
    ensures
        match outcome {
            Ok(bytes) => base64_text(bytes@) == text@,
            Err(_) => forall|any: Seq<u8>| #[trigger] base64_text(any) != text@,
        },
{
    base64::Engine::decode(&base64::engine::general_purpose::STANDARD, text)
}

/// `base64::DecodeError`, why text is no base64.
#[verifier::external_type_specification]
#[verifier::external_body]
pub struct ExDecodeError(base64::DecodeError);

/// The bytes that `text` stands for, or `None` where it is no base64 text.
pub fn decode_text(text: &str) -> (bytes: Option<Vec<u8>>)
    ensures
        bytes.is_some() == base64_bytes(text@).is_some(),
        bytes matches Some(b) ==> base64_bytes(text@) == Some(b@),
{
    match standard_decode(text) {
        Ok(bytes) => {
            proof {
                lemma_bytes_of_text(bytes@);
            }
            Some(bytes)
        },
        Err(_) => None,
    }
}

} // verus!
