//! The two identifier schemes: one derived from the time of creation, one
//! from a hash of the object's content.
use crate::codec::{
    be_bytes, be_value, blake3_digest, blake3_of, crockford_decode, crockford_decode_of,
    crockford_encode, crockford_encode_of, from_be_bytes, lemma_be_round_trip, to_be_bytes,
};
use crate::text::char_count;
use vstd::prelude::*;

verus! {

/// 2024-10-01 00:00:00 UTC in microseconds: no time-derived identifier is older.
pub const ID_EPOCH_MICROS: i64 = 1727740800000000;

/// How far ahead of the clock a time-derived identifier may be: two hours.
pub const MAX_FUTURE_MICROS: i64 = 7200000000;

/// The identifier of the time `t` (microseconds since the UNIX epoch).
pub open spec fn timestamp_id_of(t: i64) -> Seq<char> {
    crockford_encode_of(be_bytes(t as u64))
}

/// The time that a decodable identifier stands for.
pub open spec fn id_time(id: Seq<char>) -> int {
    (be_value(crockford_decode_of(id)->0) as i64) as int
}

/// `id` is a time-derived identifier, valid when the clock reads `now`:
/// thirteen characters that decode to eight bytes, naming a time no earlier
/// than the protocol epoch and at most two hours after `now`.
pub open spec fn timestamp_id_valid(id: Seq<char>, now: int) -> bool {
    &&& id.len() == 13
    &&& crockford_decode_of(id) is Some
    &&& crockford_decode_of(id)->0.len() == 8
    &&& ID_EPOCH_MICROS <= id_time(id)
    &&& id_time(id) <= now + MAX_FUTURE_MICROS
}

/// The error that checking the time-derived identifier `id` against the
/// clock reading `now` reports: the first rule it breaks.
pub open spec fn timestamp_id_error(id: Seq<char>, now: int) -> Option<Seq<char>> {
    if id.len() != 13 {
        Some("Validation Error: Invalid ID length: must be 13 characters"@)
    } else if crockford_decode_of(id) is None {
        Some("Failed to decode Crockford Base32 ID"@)
    } else if crockford_decode_of(id)->0.len() != 8 {
        Some("Validation Error: Invalid ID length after decoding"@)
    } else if id_time(id) < ID_EPOCH_MICROS {
        Some("Validation Error: Invalid ID, timestamp must be after October 1st, 2024"@)
    } else if id_time(id) > now + MAX_FUTURE_MICROS {
        Some("Validation Error: Invalid ID, timestamp is too far in the future"@)
    } else {
        None
    }
}

/// The error that checking `id` against the content-hash identifier
/// `expected` reports.
pub open spec fn hash_id_error(expected: Seq<char>, id: Seq<char>) -> Option<Seq<char>> {
    if id == expected {
        None
    } else {
        Some("Invalid ID: expected "@ + expected + ", found "@ + id)
    }
}

/// The content-hash identifier of `data`: the first sixteen bytes of its
/// BLAKE3 digest, in Crockford base-32.
pub open spec fn hash_id_of(data: Seq<u8>) -> Seq<char> {
    crockford_encode_of(blake3_of(data).subrange(0, 16))
}

/// The identifier of the time `t`. It validates against a clock reading
/// `now` exactly when `t` lies between the protocol epoch and two hours
/// past `now`.
pub fn timestamp_id_at(t: i64) -> (r: String)
    ensures
        r@ == timestamp_id_of(t),
        r@.len() == 13,
        crockford_decode_of(r@) == Some(be_bytes(t as u64)),
        forall|now: int|
            #![trigger timestamp_id_valid(r@, now)]
            timestamp_id_valid(r@, now) <==> (ID_EPOCH_MICROS <= t && t <= now
                + MAX_FUTURE_MICROS),
{
    let bytes = to_be_bytes(t as u64);
    let r = crockford_encode(bytes.as_slice());
    proof {
        lemma_be_round_trip(t as u64);
        assert(((t as u64) as i64) == t) by (bit_vector);
        assert(id_time(r@) == t);
    }
    r
}

/// Checks a time-derived identifier against the clock reading `now`.
pub fn validate_timestamp_id_at(id: &str, now: i64) -> (r: Result<(), String>)
    ensures
        r is Ok <==> timestamp_id_valid(id@, now as int),
        match r {
            Ok(()) => timestamp_id_error(id@, now as int) is None,
            Err(e) => timestamp_id_error(id@, now as int) == Some(e@),
        },
{
    if char_count(id) != 13 {
        return Err("Validation Error: Invalid ID length: must be 13 characters".to_string());
    }
    let decoded = match crockford_decode(id) {
        Some(d) => d,
        None => {
            return Err("Failed to decode Crockford Base32 ID".to_string());
        },
    };
    if decoded.len() != 8 {
        return Err("Validation Error: Invalid ID length after decoding".to_string());
    }
    let t = from_be_bytes(decoded.as_slice()) as i64;
    if t < ID_EPOCH_MICROS {
        return Err(
            "Validation Error: Invalid ID, timestamp must be after October 1st, 2024".to_string(),
        );
    }
    if t as i128 > now as i128 + MAX_FUTURE_MICROS as i128 {
        return Err("Validation Error: Invalid ID, timestamp is too far in the future".to_string());
    }
    Ok(())
}

/// A time-derived identifier for the current time: the identifier of
/// some clock reading.
pub fn create_timestamp_id() -> (r: String)
    ensures
        r@.len() == 13,
        exists|t: i64| #[trigger] timestamp_id_of(t) == r@,
{
    timestamp_id_at(crate::codec::timestamp())
}

/// Checks a time-derived identifier against the current time.
pub fn validate_timestamp_id(id: &str) -> (r: Result<(), String>)
    ensures
        exists|now: i64| (r is Ok) == timestamp_id_valid(id@, now as int),
{
    let now = crate::codec::timestamp();
    validate_timestamp_id_at(id, now)
}

/// The content-hash identifier of `data`.
pub fn hash_id(data: &[u8]) -> (r: String)
    ensures
        r@ == hash_id_of(data@),
        r@.len() == 26,
{
    let digest = blake3_digest(data);
    let mut half: Vec<u8> = Vec::new();
    let mut i: usize = 0;
    while i < 16
        invariant
            0 <= i <= 16,
            digest@.len() == 32,
            half@ == digest@.subrange(0, i as int),
        decreases 16 - i,
    {
        half.push(digest[i]);
        i = i + 1;
        proof {
            assert(half@ =~= digest@.subrange(0, i as int));
        }
    }
    crockford_encode(half.as_slice())
}

/// Checks that `id` is the content-hash identifier of `data`.
pub fn validate_hash_id(data: &[u8], id: &str) -> (r: Result<(), String>)
    ensures
        r is Ok <==> id@ == hash_id_of(data@),
        match r {
            Ok(()) => hash_id_error(hash_id_of(data@), id@) is None,
            Err(e) => hash_id_error(hash_id_of(data@), id@) == Some(e@),
        },
{
    let expected = hash_id(data);
    if crate::text::str_eq(expected.as_str(), id) {
        Ok(())
    } else {
        let mut msg = "Invalid ID: expected ".to_string();
        msg.append(expected.as_str());
        msg.append(", found ");
        msg.append(id);
        Err(msg)
    }
}

} // verus!
