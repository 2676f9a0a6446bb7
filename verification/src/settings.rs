//! The settings blob that a plugin stores with each action instance. The
//! library carries it from instances into outgoing messages and never reads
//! inside it.
use vstd::prelude::*;

verus! {

/// `serde_json::Value`, the JSON document a plugin stores as an instance's
/// settings.
#[verifier::external_type_specification]
#[verifier::external_body]
pub struct ExJsonValue(serde_json::Value);

/// `<serde_json::Value as Clone>::clone`, a derived `Clone`: the copy is the
/// same JSON value as the one it was taken from.
pub assume_specification[ <serde_json::Value as Clone>::clone ](value: &serde_json::Value) -> (r:
    serde_json::Value)
    ensures
        r == *value,
;

} // verus!
