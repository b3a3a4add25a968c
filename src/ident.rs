use vstd::prelude::*;

verus! {

/// The identifier that the standard textual form `s` denotes, if `s` is one.
pub uninterp spec fn uuid_parse(s: Seq<char>) -> Option<u128>;

/// The hyphenated lower-case textual form of identifier `id`.
pub uninterp spec fn uuid_text(id: u128) -> Seq<char>;

/// Relies on `uuid::Uuid::parse_str`: it accepts a string exactly when the
/// string is a textual form of some identifier, and then yields that one, as
/// a function of the string alone.
#[verifier::external_body]
pub(crate) fn parse_uuid(s: &str) -> (r: Option<u128>)
    ensures
        r == uuid_parse(s@),
{
    match uuid::Uuid::parse_str(s) {
        Ok(u) => Some(u.as_u128()),
        Err(_) => None,
    }
}

/// Relies on `uuid::Uuid`'s `Display`: the hyphenated lower-case form, a
/// function of the identifier alone.
#[verifier::external_body]
pub(crate) fn format_uuid(id: u128) -> (r: String)
    ensures
        r@ == uuid_text(id),
{
    uuid::Uuid::from_u128(id).to_string()
}

/// Relies on `uuid::Uuid::new_v4`: a random version-4 identifier. Nothing is
/// promised of its value.
#[verifier::external_body]
pub(crate) fn random_uuid() -> (r: u128) {
    uuid::Uuid::new_v4().as_u128()
}

} // verus!
