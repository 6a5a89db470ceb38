//! Record ids: opaque strings minted by the service when a record is created.

use vstd::prelude::*;

verus! {

/// The shape of a minted id: 36 characters in five groups that hyphens part.
pub open spec fn is_uuid_text(id: Seq<char>) -> bool {
    &&& id.len() == 36
    &&& id[8] == '-'
    &&& id[13] == '-'
    &&& id[18] == '-'
    &&& id[23] == '-'
}

/// Mints an id with `uuid::Uuid::new_v4` and renders it with the `Display`
/// impl of `Uuid`. Trusted: `Display` writes the hyphenated form, 32
/// hexadecimal digits with hyphens at 8, 13, 18 and 23. The digits are random,
/// so nothing is said of them.
#[verifier::external_body]
pub(crate) fn mint_id() -> (id: String)
    ensures
        is_uuid_text(id@),
{
    uuid::Uuid::new_v4().to_string()
}

} // verus!
