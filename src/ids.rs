//! Random identifiers.

use vstd::prelude::*;

verus! {

#[verifier::external_type_specification]
#[verifier::external_body]
pub struct ExUuid(uuid::Uuid);

/// Relies on `uuid::Uuid::new_v4`: a random version 4 identifier.
#[verifier::external_body]
pub(crate) fn new_uuid() -> (u: uuid::Uuid) {
    uuid::Uuid::new_v4()
}

/// Relies on `uuid::Uuid`'s `Display`: the hyphenated lowercase form.
#[verifier::external_body]
pub(crate) fn uuid_text(u: &uuid::Uuid) -> (s: String) {
    u.to_string()
}

} // verus!
