use vstd::prelude::*;

use crate::signal::EngineError;

verus! {

#[verifier::external_type_specification]
#[verifier::external_body]
pub struct ExUuidError(uuid::Error);

/// The 128-bit value of the UUID written in `text`, if `text` is one in any
/// of the accepted forms (simple, hyphenated, URN, braced).
pub uninterp spec fn uuid_text_value(text: Seq<char>) -> Option<u128>;

/// The version and variant bits of a random (version 4, RFC 4122) UUID.
pub open spec fn is_random_uuid(v: u128) -> bool {
    v & 0xF000_C000_0000_0000_0000u128 == 0x4000_8000_0000_0000_0000u128
}

/// Relies on `uuid::Uuid::parse_str`, read back as a number by
/// `uuid::Uuid::as_u128`: the outcome depends on the text alone.
#[verifier::external_body]
fn parse_uuid(text: &str) -> (r: Result<u128, uuid::Error>)
    ensures
        r is Ok <==> uuid_text_value(text@) is Some,
        r is Ok ==> uuid_text_value(text@) == Some(r->Ok_0),
{
    uuid::Uuid::parse_str(text).map(|u| u.as_u128())
}

/// Relies on `uuid::Uuid::new_v4`, read back as a number by
/// `uuid::Uuid::as_u128`: random bits under the version 4 and RFC 4122
/// variant bits.
#[verifier::external_body]
pub(crate) fn fresh_id() -> (r: u128)
    ensures
        is_random_uuid(r),
{
    uuid::Uuid::new_v4().as_u128()
}

/// Relies on `chrono::Utc::now` and `DateTime::timestamp`: the current time,
/// in whole seconds since the Unix epoch.
#[verifier::external_body]
pub(crate) fn now_seconds() -> (r: i64) {
    chrono::Utc::now().timestamp()
}

/// Reads a user id, refusing text that is not a UUID.
pub fn parse_user_id(text: &str) -> (r: Result<u128, EngineError>)
    ensures
        r == match uuid_text_value(text@) {
            Some(v) => Ok::<u128, EngineError>(v),
            None => Err(EngineError::InvalidUserId),
        },
{
    match parse_uuid(text) {
        Ok(v) => Ok(v),
        Err(_) => Err(EngineError::InvalidUserId),
    }
}

} // verus!
