//! Fresh identifiers and current timestamps. Both depend on the outside
//! world (randomness, the clock), so nothing is promised of the values.

use vstd::prelude::*;

verus! {

/// Relies on uuid::Uuid::new_v4: a freshly generated random version-4
/// identifier, returned as its 128-bit value. Random, so no two calls
/// are related and nothing is promised of the result.
#[verifier::external_body]
pub fn fresh_id() -> u128 {
    uuid::Uuid::new_v4().as_u128()
}

/// Relies on chrono::Utc::now: the current time, returned as
/// microseconds since the Unix epoch. Nothing is promised of the value.
#[verifier::external_body]
pub fn now_micros() -> i64 {
    chrono::Utc::now().timestamp_micros()
}

/// The canonical hyphenated text of a 128-bit identifier, as printed by
/// uuid::Uuid. A function of the identifier alone.
pub uninterp spec fn uuid_text(id: u128) -> Seq<char>;

/// Relies on uuid::Uuid's hyphenated formatting: the canonical textual
/// form of the identifier, a function of the identifier alone.
#[verifier::external_body]
pub fn uuid_string(id: u128) -> (r: String)
    ensures
        r@ == uuid_text(id),
{
    uuid::Uuid::from_u128(id).to_string()
}

} // verus!
