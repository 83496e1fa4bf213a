use vstd::prelude::*;

verus! {

/// The 128-bit value of a universally unique identifier.
///
/// Identifiers are opaque to the schedule logic: it only ever compares them
/// for equality, so the value is held as a plain integer.
#[derive(Clone, Copy, Debug, PartialEq, Eq, Hash, Structural)]
pub struct Uid(pub u128);

/// The value denoted by a string when read as a UUID, if it is well-formed.
pub uninterp spec fn parsed_uuid(s: Seq<char>) -> Option<u128>;

/// Relies on `uuid::Uuid::parse_str` and `uuid::Uuid::as_u128`: whether a
/// string is a well-formed UUID, and which 128-bit value it denotes, depend
/// on the characters alone.
#[verifier::external_body]
pub(crate) fn parse_uuid(s: &str) -> (r: Option<Uid>)
    ensures
        r matches Some(u) ==> parsed_uuid(s@) == Some(u.0),
        r is Some <==> parsed_uuid(s@) is Some,
{
    match uuid::Uuid::parse_str(s) {
        Ok(u) => Some(Uid(u.as_u128())),
        Err(_) => None,
    }
}

} // verus!
