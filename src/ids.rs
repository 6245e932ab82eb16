//! Generation of unique identifiers.

use vstd::prelude::*;

verus! {

/// Length of an identifier made by `new_id`: 32 hexadecimal digits in five
/// groups joined by four hyphens.
pub const ID_LEN: usize = 36;

/// Relies on uuid's `Uuid::new_v4` and its `Display`: a random 128-bit
/// identifier, written in the hyphenated form of 36 characters.
#[verifier::external_body]
pub(crate) fn new_id() -> (r: String)
    ensures
        r@.len() == ID_LEN,
{
    uuid::Uuid::new_v4().to_string()
}

} // verus!
