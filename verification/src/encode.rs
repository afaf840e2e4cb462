//! The fingerprint of a server message: a 64-bit non-cryptographic hash of
//! its bytes, rendered as unpadded URL-safe base64 of the eight little-endian
//! bytes of the hash word.

use vstd::prelude::*;
use vstd::utf8::encode_utf8;
use std::collections::hash_map::DefaultHasher;
use std::hash::Hasher;
use vstd::std_specs::hash::DefaultHasherAdditionalSpecFns;
use base64::Engine;

verus! {

/// One character of the URL-safe base64 alphabet of RFC 4648:
/// `A`..`Z`, `a`..`z`, `0`..`9`, `-`, `_`, indexed by a 6-bit value.
pub open spec fn base64_url_char(v: u8) -> char
    recommends
        v < 64,
{
    if v < 26 {
        (('A' as u8) + v) as char
    } else if v < 52 {
        ((('a' as u8) + v - 26) as u8) as char
    } else if v < 62 {
        ((('0' as u8) + v - 52) as u8) as char
    } else if v == 62 {
        '-'
    } else {
        '_'
    }
}

/// Whether a character belongs to the URL-safe base64 alphabet.
pub open spec fn is_base64_url_char(c: char) -> bool {
    (('A' as u32) <= (c as u32) && (c as u32) <= ('Z' as u32)) || (('a' as u32) <= (c as u32)
        && (c as u32) <= ('z' as u32)) || (('0' as u32) <= (c as u32) && (c as u32) <= ('9'
        as u32)) || c == '-' || c == '_'
}

/// Unpadded URL-safe base64 of a byte sequence, as RFC 4648 lays groups of
/// three bytes out in four 6-bit digits, a trailing group of two in three,
/// and a trailing single byte in two.
pub open spec fn base64_url_encode(bytes: Seq<u8>) -> Seq<char>
    decreases bytes.len(),
{
    if bytes.len() >= 3 {
        seq![
            base64_url_char(bytes[0] >> 2),
            base64_url_char((bytes[0] << 4 | bytes[1] >> 4) & 63),
            base64_url_char((bytes[1] << 2 | bytes[2] >> 6) & 63),
            base64_url_char(bytes[2] & 63),
        ] + base64_url_encode(bytes.skip(3))
    } else if bytes.len() == 2 {
        seq![
            base64_url_char(bytes[0] >> 2),
            base64_url_char((bytes[0] << 4 | bytes[1] >> 4) & 63),
            base64_url_char((bytes[1] << 2) & 63),
        ]
    } else if bytes.len() == 1 {
        seq![base64_url_char(bytes[0] >> 2), base64_url_char((bytes[0] << 4) & 63)]
    } else {
        Seq::empty()
    }
}

/// The eight bytes of a 64-bit word, least significant first.
pub open spec fn u64_le_bytes(h: u64) -> Seq<u8> {
    Seq::new(8, |i: int| ((h >> (8 * i) as u64) & 0xff) as u8)
}

/// The 64-bit fingerprint of a text: what `DefaultHasher` returns after one
/// write of the text's UTF-8 bytes.
pub open spec fn fingerprint(s: Seq<char>) -> u64 {
    DefaultHasher::spec_finish(seq![encode_utf8(s)])
}

/// The rendered fingerprint of a text: eleven base64 characters over the
/// little-endian bytes of its 64-bit fingerprint.
pub open spec fn hash_text(s: Seq<char>) -> Seq<char> {
    base64_url_encode(u64_le_bytes(fingerprint(s)))
}

proof fn lemma_base64_url_char_in_alphabet(v: u8)
    requires
        v < 64,
    ensures
        is_base64_url_char(base64_url_char(v)),
        base64_url_char(v) != '=',
{
}

/// The rendered fingerprint of any text, the empty one included, is exactly
/// eleven characters of the URL-safe base64 alphabet, with no `=` padding.
pub proof fn lemma_hash_shape(s: Seq<char>)
    ensures
        hash_text(s).len() == 11,
        forall|i: int|
            0 <= i < hash_text(s).len() ==> is_base64_url_char(#[trigger] hash_text(s)[i])
                && hash_text(s)[i] != '=',
{
    reveal_with_fuel(base64_url_encode, 4);
    let b = u64_le_bytes(fingerprint(s));
    assert(b.len() == 8);
    assert(b.skip(3).len() == 5);
    assert(b.skip(3).skip(3).len() == 2);
    assert(base64_url_encode(b.skip(3).skip(3)).len() == 3);
    assert(base64_url_encode(b.skip(3)).len() == 7);
    assert(base64_url_encode(b).len() == 11);
    assert forall|v: u8| v < 64 implies is_base64_url_char(#[trigger] base64_url_char(v))
        && base64_url_char(v) != '=' by {
        lemma_base64_url_char_in_alphabet(v);
    }
    assert forall|x: u8, y: u8| true implies ((x | y) & 63) < 64 && (x >> 2) < 64 && (x & 63)
        < 64 by {
        assert(((x | y) & 63) < 64 && (x >> 2) < 64 && (x & 63) < 64) by (bit_vector);
    }
    assert forall|i: int| 0 <= i < hash_text(s).len() implies is_base64_url_char(
        #[trigger] hash_text(s)[i],
    ) && hash_text(s)[i] != '=' by {
        assert(hash_text(s) =~= base64_url_encode(b));
    }
}

/// Computes the 64-bit fingerprint of a text.
pub fn fingerprint64(s: &str) -> (h: u64)
    ensures
        h == fingerprint(s@),
{
    let mut hasher = DefaultHasher::new();
    hasher.write(s.as_bytes());
    proof {
        assert(hasher@ =~= seq![encode_utf8(s@)]);
    }
    hasher.finish()
}

/// Relies on base64's `BASE64_URL_SAFE_NO_PAD` engine: it encodes the eight
/// little-endian bytes of the word with the RFC 4648 URL-safe alphabet and
/// appends no padding.
#[verifier::external_body]
fn base64_url_of_u64_le(h: u64) -> (r: String)
    ensures
        r@ == base64_url_encode(u64_le_bytes(h)),
{
    base64::prelude::BASE64_URL_SAFE_NO_PAD.encode(h.to_le_bytes())
}

/// Renders the fingerprint of a text: hash, little-endian bytes, base64.
pub fn render_fingerprint(s: &str) -> (r: String)
    ensures
        r@ == hash_text(s@),
{
    let h = fingerprint64(s);
    base64_url_of_u64_le(h)
}

} // verus!
