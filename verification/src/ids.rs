//! Message identifiers and the randomness that feeds them, drawn from the `uuid` crate.
//!
//! OCPP-J correlates a CALLRESULT/CALLERROR with its CALL by the message id the caller chose.
//! The client uses random version-4 UUIDs in their hyphenated text form, and the same random
//! source spreads reconnect attempts (see `ReconnectPolicy::jittered_delay_for`).

use vstd::prelude::*;

verus! {

/// What `uuid::Uuid::parse_str` makes of a text, as the UUID's 128-bit value; `None` when the
/// text is not a UUID.
pub uninterp spec fn uuid_of_text(text: Seq<char>) -> Option<u128>;

/// The hyphenated lower-case text `uuid::Uuid`'s `Display` writes for the UUID with this
/// 128-bit value.
pub uninterp spec fn uuid_text(id: u128) -> Seq<char>;

/// Whether a 128-bit UUID value is a random one: version 4 (the top four bits of its seventh
/// byte are `0100`) of the RFC 4122 variant (the top two bits of its ninth byte are `10`).
pub open spec fn is_v4_uuid(id: u128) -> bool {
    id & 0xF000_C000_0000_0000_0000u128 == 0x4000_8000_0000_0000_0000u128
}

/// Calls `uuid::Uuid::new_v4` and returns the UUID's 128-bit value (`Uuid::as_u128`). The
/// value is random; the contract claims only what `new_v4` sets on every value it makes: the
/// version-4 and RFC 4122 variant bits (it masks the random bits with
/// `0xFFFFFFFFFFFF4FFFBFFFFFFFFFFFFFFF` and sets `0x40008000000000000000`).
#[verifier::external_body]
pub(crate) fn fresh_uuid() -> (id: u128)
    ensures
        is_v4_uuid(id),
{
    uuid::Uuid::new_v4().as_u128()
}

/// Calls `uuid::Uuid::parse_str` on `text`, and returns the parsed UUID's 128-bit value. The
/// contract claims only that the result is a function of the text, named `uuid_of_text`.
#[verifier::external_body]
pub(crate) fn parse_uuid(text: &str) -> (r: Option<u128>)
    ensures
        r == uuid_of_text(text@),
{
    match uuid::Uuid::parse_str(text) {
        Ok(id) => Some(id.as_u128()),
        Err(_) => None,
    }
}

/// Builds `uuid::Uuid::from_u128(id)` and writes it with its `Display` impl (the hyphenated
/// form). The contract claims the text is `uuid_text(id)`, and that `Uuid::parse_str` reads
/// it back as the same UUID, which the `uuid` documentation states for the hyphenated form.
#[verifier::external_body]
pub(crate) fn uuid_to_text(id: u128) -> (text: String)
    ensures
        text@ == uuid_text(id),
        uuid_of_text(text@) == Some(id),
{
    uuid::Uuid::from_u128(id).to_string()
}

/// A fresh message id and its text form, as written into an outgoing CALL or SEND.
pub fn new_message_id() -> (r: (u128, String))
    ensures
        is_v4_uuid(r.0),
        r.1@ == uuid_text(r.0),
        uuid_of_text(r.1@) == Some(r.0),
{
    let id = fresh_uuid();
    let text = uuid_to_text(id);
    (id, text)
}

/// The `n`-th of a fixed enumeration of distinct version-4 UUID values, which a client can fall
/// back on when a drawn id is already taken: `n`'s low 62 bits fill the random low bits, its top
/// two bits go just above the variant bits.
pub open spec fn spec_v4_candidate(n: u64) -> u128 {
    0x4000_8000_0000_0000_0000u128 | ((n as u128) & 0x3FFF_FFFF_FFFF_FFFFu128) | (((n as u128)
        >> 62u128) << 64u128)
}

/// The `n`-th value of the fallback enumeration.
pub(crate) fn v4_candidate(n: u64) -> (id: u128)
    ensures
        id == spec_v4_candidate(n),
        is_v4_uuid(id),
{
    proof {
        lemma_v4_candidate(n, n);
    }
    0x4000_8000_0000_0000_0000u128 | ((n as u128) & 0x3FFF_FFFF_FFFF_FFFFu128) | (((n as u128)
        >> 62u128) << 64u128)
}

/// Every value of the fallback enumeration is a version-4 UUID, and different positions give
/// different values.
pub proof fn lemma_v4_candidate(a: u64, b: u64)
    ensures
        is_v4_uuid(spec_v4_candidate(a)),
        a != b ==> spec_v4_candidate(a) != spec_v4_candidate(b),
{
    assert(is_v4_uuid(spec_v4_candidate(a))) by (bit_vector);
    assert(a != b ==> spec_v4_candidate(a) != spec_v4_candidate(b)) by (bit_vector);
}

} // verus!
