//! Opaque unique identifiers for items and characters.  Identity is
//! display-only data here: it is assigned at creation and passed through
//! unchanged.

use vstd::prelude::*;

verus! {

/// Declares uuid's identifier type so a value of it can sit in a field.
#[verifier::external_type_specification]
#[verifier::external_body]
pub struct ExUuid(uuid::Uuid);

/// A fresh random identifier.  Relies on uuid's `Uuid::new_v4`; nothing is
/// claimed of the value.
#[verifier::external_body]
pub(crate) fn new_id() -> uuid::Uuid {
    uuid::Uuid::new_v4()
}

/// The canonical text of an identifier.  Relies on uuid's `Display`
/// implementation, which always renders the 36-character hyphenated form.
#[verifier::external_body]
pub(crate) fn id_text(id: &uuid::Uuid) -> (r: String)
    ensures
        r@.len() == 36,
{
    id.to_string()
}

} // verus!
