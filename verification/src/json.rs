use vstd::prelude::*;

verus! {

/// Declares `serde_json::Value`, the opaque structured payload that a
/// workload's `load` and `cleanup` phases and the measurement drivers hand
/// back.  The library only carries such values through its records and never
/// looks inside them; serializing them is the caller's business.
#[verifier::external_type_specification]
#[verifier::external_body]
pub struct ExValue(serde_json::Value);

} // verus!
