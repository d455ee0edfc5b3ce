//! The calls this library makes into the crates it builds on: random
//! choices, UUID parsing, Base64 encoding and case conversion.
use base64::Engine;
use convert_case::{Case, Casing};
use rand::Rng;
use vstd::prelude::*;

verus! {

/// rand's `Rng::gen_range(0..len)` on the thread-local generator: a number
/// drawn below `len`. `gen_range` panics on an empty range, so `len` must be
/// positive. Which number comes out is chance: nothing more is claimed.
#[verifier::external_body]
pub(crate) fn random_below(len: usize) -> (r: usize)
    requires
        len > 0,
    ensures
        r < len,
{
    rand::thread_rng().gen_range(0..len)
}

/// The 128-bit value of the UUID that uuid's `Uuid::parse_str` reads from a
/// text, or `None` where it reports an error (its grammar of hyphenated,
/// simple, braced and URN forms takes pages to state).
pub uninterp spec fn uuid_text_value(s: Seq<char>) -> Option<u128>;

/// uuid's `Uuid::parse_str`, with the UUID taken as its 128-bit value
/// (`Uuid::as_u128`): the result is the named value of the text.
#[verifier::external_body]
pub(crate) fn parse_uuid(s: &str) -> (r: Option<u128>)
    ensures
        r == uuid_text_value(s@),
{
    match uuid::Uuid::parse_str(s) {
        Ok(u) => Some(u.as_u128()),
        Err(_) => None,
    }
}

/// The character of the standard Base64 alphabet (`A`-`Z`, `a`-`z`,
/// `0`-`9`, `+`, `/`) for a six-bit value.
pub open spec fn base64_char(v: int) -> char {
    if v < 26 {
        ('A' as int + v) as char
    } else if v < 52 {
        ('a' as int + (v - 26)) as char
    } else if v < 62 {
        ('0' as int + (v - 52)) as char
    } else if v == 62 {
        '+'
    } else {
        '/'
    }
}

/// Standard Base64 with padding (RFC 4648): every three bytes give four
/// characters, six bits each, most significant first; a last group of one
/// or two bytes gives two or three characters, the missing bits zero, and
/// `=` up to four.
pub open spec fn base64_standard(data: Seq<u8>) -> Seq<char>
    decreases data.len(),
{
    if data.len() == 0 {
        Seq::empty()
    } else if data.len() == 1 {
        let b0 = data[0] as int;
        seq![base64_char(b0 / 4), base64_char((b0 % 4) * 16), '=', '=']
    } else if data.len() == 2 {
        let b0 = data[0] as int;
        let b1 = data[1] as int;
        seq![base64_char(b0 / 4), base64_char((b0 % 4) * 16 + b1 / 16), base64_char((b1 % 16) * 4), '=']
    } else {
        let b0 = data[0] as int;
        let b1 = data[1] as int;
        let b2 = data[2] as int;
        seq![
            base64_char(b0 / 4),
            base64_char((b0 % 4) * 16 + b1 / 16),
            base64_char((b1 % 16) * 4 + b2 / 64),
            base64_char(b2 % 64),
        ] + base64_standard(data.skip(3))
    }
}

/// base64's `Engine::encode` on the standard engine
/// (`general_purpose::STANDARD`: the standard alphabet, with padding): the
/// result is the padded standard Base64 text of the bytes.
#[verifier::external_body]
pub(crate) fn base64_encode(data: &[u8]) -> (r: String)
    ensures
        r@ == base64_standard(data@),
{
    base64::engine::general_purpose::STANDARD.encode(data)
}

/// The text that convert_case's `to_case(Case::Pascal)` writes for a text
/// (its word boundaries and capitalisation rules take pages to state).
pub uninterp spec fn pascal_case(s: Seq<char>) -> Seq<char>;

/// convert_case's `Casing::to_case` with `Case::Pascal`: the result is the
/// named Pascal-case form of the text.
#[verifier::external_body]
pub(crate) fn to_pascal_case(s: &str) -> (r: String)
    ensures
        r@ == pascal_case(s@),
{
    s.to_case(Case::Pascal)
}

} // verus!
