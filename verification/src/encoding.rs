//! Byte-level encodings used on the wire: little-endian integers and the
//! standard Base64 alphabet of RFC 4648.
use vstd::prelude::*;
use base64::Engine;

verus! {

/// The character of a 6-bit value in the standard Base64 alphabet
/// (`A`–`Z`, `a`–`z`, `0`–`9`, `+`, `/`).
pub open spec fn base64_char(v: int) -> char {
    if v < 26 {
        (65 + v) as char
    } else if v < 52 {
        (97 + (v - 26)) as char
    } else if v < 62 {
        (48 + (v - 52)) as char
    } else if v == 62 {
        '+'
    } else {
        '/'
    }
}

/// Standard Base64 with `=` padding (RFC 4648, section 4): every three bytes
/// become four characters; a final group of one or two bytes is padded.
pub open spec fn base64_standard(b: Seq<u8>) -> Seq<char>
    decreases b.len(),
{
    let b0 = if b.len() > 0 { b[0] as int } else { 0 };
    let b1 = if b.len() > 1 { b[1] as int } else { 0 };
    let b2 = if b.len() > 2 { b[2] as int } else { 0 };
    if b.len() == 0 {
        Seq::empty()
    } else if b.len() == 1 {
        seq![base64_char(b0 / 4), base64_char((b0 % 4) * 16), '=', '=']
    } else if b.len() == 2 {
        seq![
            base64_char(b0 / 4),
            base64_char((b0 % 4) * 16 + b1 / 16),
            base64_char((b1 % 16) * 4),
            '=',
        ]
    } else {
        seq![
            base64_char(b0 / 4),
            base64_char((b0 % 4) * 16 + b1 / 16),
            base64_char((b1 % 16) * 4 + b2 / 64),
            base64_char(b2 % 64),
        ] + base64_standard(b.subrange(3, b.len() as int))
    }
}

/// Encodes bytes by `base64::engine::general_purpose::STANDARD.encode`, which
/// gives standard Base64 with padding. It panics when the length of the
/// output does not fit a `usize`, which `requires` rules out.
#[verifier::external_body]
fn encode_standard(bytes: &[u8]) -> (s: String)
    requires
        4 * ((bytes@.len() + 2) / 3) <= usize::MAX,
    ensures
        s@ == base64_standard(bytes@),
{
    base64::engine::general_purpose::STANDARD.encode(bytes)
}

/// The standard Base64 text (with padding) of `bytes`.
pub fn base64_encode(bytes: &Vec<u8>) -> (s: String)
    requires
        4 * ((bytes@.len() + 2) / 3) <= usize::MAX,
    ensures
        s@ == base64_standard(bytes@),
{
    encode_standard(bytes.as_slice())
}

/// The four bytes of `v`, least significant first, as `u32::to_le_bytes`.
pub open spec fn le_u32(v: u32) -> Seq<u8> {
    seq![(v % 256) as u8, ((v / 256) % 256) as u8, ((v / 65536) % 256) as u8, (v / 16777216) as u8]
}

/// The four bytes of `v` in two's complement, least significant first, as
/// `i32::to_le_bytes`.
pub open spec fn le_i32(v: i32) -> Seq<u8> {
    le_u32(v as u32)
}

/// Appends the little-endian bytes of `v`.
pub fn push_le_u32(out: &mut Vec<u8>, v: u32)
    ensures
        final(out)@ == old(out)@ + le_u32(v),
{
    out.push((v % 256) as u8);
    out.push(((v / 256) % 256) as u8);
    out.push(((v / 65536) % 256) as u8);
    out.push((v / 16777216) as u8);
    assert(final(out)@ =~= old(out)@ + le_u32(v));
}

/// Appends the little-endian two's complement bytes of `v`.
pub fn push_le_i32(out: &mut Vec<u8>, v: i32)
    ensures
        final(out)@ == old(out)@ + le_i32(v),
{
    let u: u32 = v as u32;
    push_le_u32(out, u);
}

/// Standard Base64 turns every started group of three bytes into four
/// characters.
pub proof fn law_base64_length(b: Seq<u8>)
    ensures
        base64_standard(b).len() == 4 * ((b.len() + 2) / 3),
    decreases b.len(),
{
    if b.len() > 2 {
        law_base64_length(b.subrange(3, b.len() as int));
    }
}

} // verus!
