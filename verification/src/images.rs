//! Image data as chat bots and image services take it.
use crate::deps::{base64_char, base64_encode, base64_standard};
use vstd::prelude::*;

verus! {

/// The standard Base64 text of an image's bytes, as the image services
/// take an uploaded image.
pub fn encode_image_data(data: &Vec<u8>) -> (r: String)
    ensures
        r@ == base64_standard(data@),
{
    base64_encode(data.as_slice())
}

/// The six-bit value of a character of the standard Base64 alphabet.
pub open spec fn base64_value(c: char) -> int {
    if 'A' <= c <= 'Z' {
        c as int - 'A' as int
    } else if 'a' <= c <= 'z' {
        c as int - 'a' as int + 26
    } else if '0' <= c <= '9' {
        c as int - '0' as int + 52
    } else if c == '+' {
        62
    } else {
        63
    }
}

/// The bytes of one group of four Base64 characters: three, or fewer when
/// the group ends in `=` padding.
pub open spec fn base64_group_bytes(c0: char, c1: char, c2: char, c3: char) -> Seq<u8> {
    let v0 = base64_value(c0);
    let v1 = base64_value(c1);
    let v2 = base64_value(c2);
    let v3 = base64_value(c3);
    let b0 = (v0 * 4 + v1 / 16) as u8;
    let b1 = ((v1 % 16) * 16 + v2 / 4) as u8;
    let b2 = ((v2 % 4) * 64 + v3) as u8;
    if c2 == '=' {
        seq![b0]
    } else if c3 == '=' {
        seq![b0, b1]
    } else {
        seq![b0, b1, b2]
    }
}

/// Standard Base64 decoding: each group of four characters gives its bytes.
pub open spec fn base64_decode(t: Seq<char>) -> Seq<u8>
    decreases t.len(),
{
    if t.len() < 4 {
        Seq::empty()
    } else {
        base64_group_bytes(t[0], t[1], t[2], t[3]) + base64_decode(t.skip(4))
    }
}

/// Each six-bit value is read back from its Base64 character, and no such
/// character is the padding `=`.
proof fn lemma_base64_char_value(v: int)
    requires
        0 <= v < 64,
    ensures
        base64_value(base64_char(v)) == v,
        base64_char(v) != '=',
{
}

/// Decoding the standard Base64 text of an image's bytes gives the bytes
/// back.
pub proof fn image_data_decodes_back(data: Seq<u8>)
    ensures
        base64_decode(base64_standard(data)) == data,
    decreases data.len(),
{
    if data.len() == 0 {
        assert(base64_decode(base64_standard(data)) =~= data);
    } else {
        let b0 = data[0] as int;
        let v0 = b0 / 4;
        lemma_base64_char_value(v0);
        if data.len() == 1 {
            let v1 = (b0 % 4) * 16;
            lemma_base64_char_value(v1);
            let t = base64_standard(data);
            assert(t.skip(4).len() == 0);
            assert(base64_decode(t.skip(4)) =~= Seq::<u8>::empty());
            assert(base64_decode(t) =~= data);
        } else if data.len() == 2 {
            let b1 = data[1] as int;
            let v1 = (b0 % 4) * 16 + b1 / 16;
            let v2 = (b1 % 16) * 4;
            lemma_base64_char_value(v1);
            lemma_base64_char_value(v2);
            let t = base64_standard(data);
            assert(base64_decode(t.skip(4)) =~= Seq::<u8>::empty());
            assert(base64_decode(t) =~= data);
        } else {
            let b1 = data[1] as int;
            let b2 = data[2] as int;
            let v1 = (b0 % 4) * 16 + b1 / 16;
            let v2 = (b1 % 16) * 4 + b2 / 64;
            let v3 = b2 % 64;
            lemma_base64_char_value(v1);
            lemma_base64_char_value(v2);
            lemma_base64_char_value(v3);
            let rest = data.skip(3);
            image_data_decodes_back(rest);
            let t = base64_standard(data);
            let head = seq![base64_char(v0), base64_char(v1), base64_char(v2), base64_char(v3)];
            assert(t == head + base64_standard(rest));
            assert(t.skip(4) =~= base64_standard(rest));
            assert(base64_group_bytes(t[0], t[1], t[2], t[3]) =~= data.take(3));
            assert(data =~= data.take(3) + rest);
        }
    }
}

} // verus!
