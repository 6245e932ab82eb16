//! The structured values held in open attribute maps.

use std::collections::HashMap;
use vstd::prelude::*;

verus! {

/// serde_json's `Value`, carried through attribute maps without being read.
#[verifier::external_type_specification]
#[verifier::external_body]
pub struct ExValue(serde_json::Value);

/// An open, string-keyed map of arbitrary structured values.
pub type Attributes = HashMap<String, serde_json::Value>;

} // verus!
