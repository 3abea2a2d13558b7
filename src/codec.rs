//! The outside encoders the identifiers are built from: base-32 in the
//! Crockford and z-base-32 alphabets, BLAKE3, and the wall clock.
use vstd::prelude::*;

verus! {

/// The characters of the z-base-32 alphabet.
pub open spec fn is_z32_char(c: char) -> bool {
    c == 'y' || c == 'b' || c == 'n' || c == 'd' || c == 'r' || c == 'f' || c == 'g' || c == '8'
        || c == 'e' || c == 'j' || c == 'k' || c == 'm' || c == 'c' || c == 'p' || c == 'q' || c
        == 'x' || c == 'o' || c == 't' || c == '1' || c == 'u' || c == 'w' || c == 'i' || c == 's'
        || c == 'z' || c == 'a' || c == '3' || c == '4' || c == '5' || c == 'h' || c == '7' || c
        == '6' || c == '9'
}

/// Every character of `s` is in the z-base-32 alphabet.
pub open spec fn all_z32(s: Seq<char>) -> bool {
    forall|i: int| 0 <= i < s.len() ==> is_z32_char(#[trigger] s[i])
}

/// The characters that the Crockford decoder accepts, in either case
/// (`I`, `L` and `O` are read as digits; `U` is refused).
pub open spec fn is_crockford_char(c: char) -> bool {
    ('0' <= c && c <= '9') || ('A' <= c && c <= 'Z' && c != 'U') || ('a' <= c && c <= 'z' && c
        != 'u')
}

/// A name for what `base32::encode` returns with the Crockford alphabet.
pub uninterp spec fn crockford_encode_of(b: Seq<u8>) -> Seq<char>;

/// A name for what `base32::decode` returns with the Crockford alphabet.
pub uninterp spec fn crockford_decode_of(s: Seq<char>) -> Option<Seq<u8>>;

/// A name for the BLAKE3 digest of `b`.
pub uninterp spec fn blake3_of(b: Seq<u8>) -> Seq<u8>;

/// Relies on `base32::decode` with `Alphabet::Z`: it succeeds exactly when
/// every character is in the z-base-32 alphabet.
#[verifier::external_body]
pub(crate) fn z32_decodes(s: &str) -> (r: bool)
    ensures
        r == all_z32(s@),
{
    base32::decode(base32::Alphabet::Z, s).is_some()
}

/// Relies on `base32::encode` with `Alphabet::Crockford`: one unpadded
/// character for each five bits, which `base32::decode` reads back.
#[verifier::external_body]
pub(crate) fn crockford_encode(b: &[u8]) -> (r: String)
    ensures
        r@ == crockford_encode_of(b@),
        r@.len() == (8 * b@.len() + 4) / 5,
        crockford_decode_of(r@) == Some(b@),
{
    base32::encode(base32::Alphabet::Crockford, b)
}

/// Relies on `base32::decode` with `Alphabet::Crockford`: it fails exactly
/// on a character outside the alphabet, and otherwise gives five bits for
/// each character, rounded down to whole bytes.
#[verifier::external_body]
pub(crate) fn crockford_decode(s: &str) -> (r: Option<Vec<u8>>)
    ensures
        r is Some <==> (forall|i: int| 0 <= i < s@.len() ==> is_crockford_char(#[trigger] s@[i])),
        r is Some <==> crockford_decode_of(s@) is Some,
        r matches Some(v) ==> v@ == crockford_decode_of(s@)->0 && v@.len() == (5 * s@.len())
            / 8,
{
    base32::decode(base32::Alphabet::Crockford, s)
}

/// Relies on `blake3::hash`: a digest of 32 bytes that depends on the input alone.
#[verifier::external_body]
pub(crate) fn blake3_digest(b: &[u8]) -> (r: Vec<u8>)
    ensures
        r@ == blake3_of(b@),
        r@.len() == 32,
{
    blake3::hash(b).as_bytes().to_vec()
}

/// Relies on `SystemTime::now`: microseconds since the UNIX epoch, or 0 for
/// a clock set before it. Nothing is known of the value.
#[verifier::external_body]
fn clock_micros() -> (r: i64) {
    match std::time::SystemTime::now().duration_since(std::time::UNIX_EPOCH) {
        Ok(d) => d.as_micros() as i64,
        Err(_) => 0,
    }
}

/// The current time in microseconds since the UNIX epoch.
pub fn timestamp() -> (r: i64) {
    clock_micros()
}

/// The eight big-endian bytes of `u`.
pub open spec fn be_bytes(u: u64) -> Seq<u8> {
    seq![
        (u >> 56u64) as u8,
        (u >> 48u64) as u8,
        (u >> 40u64) as u8,
        (u >> 32u64) as u8,
        (u >> 24u64) as u8,
        (u >> 16u64) as u8,
        (u >> 8u64) as u8,
        u as u8,
    ]
}

/// The number that eight big-endian bytes stand for.
pub open spec fn be_value(b: Seq<u8>) -> u64
    recommends
        b.len() == 8,
{
    (b[0] as u64) << 56u64 | (b[1] as u64) << 48u64 | (b[2] as u64) << 40u64 | (b[3] as u64)
        << 32u64 | (b[4] as u64) << 24u64 | (b[5] as u64) << 16u64 | (b[6] as u64) << 8u64 | (
    b[7] as u64)
}

/// Reading back the bytes of a number gives the number.
pub proof fn lemma_be_round_trip(u: u64)
    ensures
        be_value(be_bytes(u)) == u,
{
    assert(((((u >> 56u64) as u8) as u64) << 56u64 | (((u >> 48u64) as u8) as u64) << 48u64 | (((u
        >> 40u64) as u8) as u64) << 40u64 | (((u >> 32u64) as u8) as u64) << 32u64 | (((u
        >> 24u64) as u8) as u64) << 24u64 | (((u >> 16u64) as u8) as u64) << 16u64 | (((u
        >> 8u64) as u8) as u64) << 8u64 | ((u as u8) as u64)) == u) by (bit_vector);
}

/// `u64::to_be_bytes`.
pub fn to_be_bytes(u: u64) -> (r: Vec<u8>)
    ensures
        r@ == be_bytes(u),
{
    let r = vec![
        (u >> 56u64) as u8,
        (u >> 48u64) as u8,
        (u >> 40u64) as u8,
        (u >> 32u64) as u8,
        (u >> 24u64) as u8,
        (u >> 16u64) as u8,
        (u >> 8u64) as u8,
        u as u8,
    ];
    assert(r@ =~= be_bytes(u));
    r
}

/// `u64::from_be_bytes`.
pub fn from_be_bytes(b: &[u8]) -> (r: u64)
    requires
        b@.len() == 8,
    ensures
        r == be_value(b@),
{
    (b[0] as u64) << 56u64 | (b[1] as u64) << 48u64 | (b[2] as u64) << 40u64 | (b[3] as u64)
        << 32u64 | (b[4] as u64) << 24u64 | (b[5] as u64) << 16u64 | (b[6] as u64) << 8u64 | (
    b[7] as u64)
}

} // verus!
