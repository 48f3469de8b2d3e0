//! The canonical byte encoding of identities and of directional pairs.
//!
//! A string is written as the length of its UTF-8 form, in four bytes with
//! the least significant first, followed by the UTF-8 bytes. A pair is the
//! encoding of its initiator followed by the encoding of its responder.

use borsh::BorshSerialize;
use vstd::prelude::*;
use vstd::utf8::encode_utf8;

verus! {

/// The largest length that the four-byte prefix holds without loss.
pub const MAX_PREFIXED_LEN: usize = 0xffff_ffff;

/// The four bytes of `n`, least significant first. Only the low 32 bits of
/// `n` are kept.
pub open spec fn length_prefix(n: nat) -> Seq<u8> {
    seq![
        (n % 256) as u8,
        (n / 256 % 256) as u8,
        (n / 65536 % 256) as u8,
        (n / 16777216 % 256) as u8,
    ]
}

/// The encoding of one string: the prefix of its UTF-8 length, then its UTF-8
/// bytes.
pub open spec fn string_encoding(s: Seq<char>) -> Seq<u8> {
    length_prefix(encode_utf8(s).len()) + encode_utf8(s)
}

/// The encoding of the ordered pair `(from, to)`.
pub open spec fn pair_encoding(from: Seq<char>, to: Seq<char>) -> Seq<u8> {
    string_encoding(from) + string_encoding(to)
}

/// Whether the UTF-8 form of `s` is short enough for its length to fit the
/// prefix.
pub open spec fn fits_prefix(s: Seq<char>) -> bool {
    encode_utf8(s).len() <= MAX_PREFIXED_LEN
}

/// `borsh::BorshSerialize::try_to_vec` on a `String`. borsh writes the byte
/// length of the string cast to `u32` in little-endian order and then the
/// bytes of the string; writing into a vector does not fail.
#[verifier::external_body]
fn borsh_string(s: &String) -> (out: Option<Vec<u8>>)
    ensures
        out is Some,
        out.unwrap()@ == string_encoding(s@),
{
    s.try_to_vec().ok()
}

/// Encodes one string.
pub fn encode_string(s: &String) -> (out: Vec<u8>)
    ensures
        out@ == string_encoding(s@),
{
    borsh_string(s).unwrap()
}

/// Encodes the ordered pair `(from, to)`.
pub fn encode_pair(from: &String, to: &String) -> (out: Vec<u8>)
    ensures
        out@ == pair_encoding(from@, to@),
{
    let mut out = encode_string(from);
    let mut tail = encode_string(to);
    out.append(&mut tail);
    out
}

/// Lengths below 2^32 with the same prefix are the same length.
pub proof fn lemma_length_prefix_injective(n: nat, m: nat)
    requires
        n <= MAX_PREFIXED_LEN,
        m <= MAX_PREFIXED_LEN,
        length_prefix(n) == length_prefix(m),
    ensures
        n == m,
{
}

/// Two strings with the same UTF-8 form are the same string.
pub proof fn lemma_utf8_injective(a: Seq<char>, b: Seq<char>)
    requires
        encode_utf8(a) == encode_utf8(b),
    ensures
        a == b,
{
    vstd::utf8::encode_utf8_decode_utf8(a);
    vstd::utf8::encode_utf8_decode_utf8(b);
}

/// If the encoding of `a` followed by `x` equals the encoding of `b`
/// followed by `y`, and both strings fit the prefix, then `a` is `b` and `x`
/// is `y`: an encoded string can be read off the front of a byte sequence in
/// one way only.
pub proof fn lemma_string_encoding_prefix_free(
    a: Seq<char>,
    x: Seq<u8>,
    b: Seq<char>,
    y: Seq<u8>,
)
    requires
        fits_prefix(a),
        fits_prefix(b),
        string_encoding(a) + x == string_encoding(b) + y,
    ensures
        a == b,
        x == y,
{
    let ua = encode_utf8(a);
    let ub = encode_utf8(b);
    let left = string_encoding(a) + x;
    let right = string_encoding(b) + y;
    assert(length_prefix(ub.len()) =~= right.subrange(0, 4));
    lemma_length_prefix_injective(ua.len(), ub.len());
    let n = ua.len() as int;
    assert(ua =~= left.subrange(4, 4 + n));
    assert(ub =~= right.subrange(4, 4 + n));
    lemma_utf8_injective(a, b);
    assert(y =~= right.subrange(4 + n, right.len() as int));
}

/// Pairs of identities that fit the prefix and have the same encoding are
/// the same pair.
pub proof fn lemma_pair_encoding_injective(
    from1: Seq<char>,
    to1: Seq<char>,
    from2: Seq<char>,
    to2: Seq<char>,
)
    requires
        fits_prefix(from1),
        fits_prefix(to1),
        fits_prefix(from2),
        fits_prefix(to2),
        pair_encoding(from1, to1) == pair_encoding(from2, to2),
    ensures
        from1 == from2,
        to1 == to2,
{
    lemma_string_encoding_prefix_free(from1, string_encoding(to1), from2, string_encoding(to2));
    lemma_string_encoding_prefix_free(to1, Seq::<u8>::empty(), to2, Seq::<u8>::empty());
}

} // verus!
