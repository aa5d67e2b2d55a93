//! Declarations of the JSON value types that some payload fields carry.
//! The logic of this crate never looks inside such a value: it is decoded,
//! stored and handed back as-is.

use vstd::prelude::*;

verus! {

/// An arbitrary JSON value, carried opaquely.
#[verifier::external_type_specification]
#[verifier::external_body]
pub struct ExValue(serde_json::Value);

/// A JSON object (a string-keyed map of JSON values), carried opaquely.
#[verifier::external_type_specification]
#[verifier::external_body]
#[verifier::reject_recursive_types(K)]
#[verifier::reject_recursive_types(V)]
pub struct ExMap<K, V>(serde_json::Map<K, V>);

/// The text that `serde_json::Value`'s `Display` renders a value to; a
/// function of the value alone.
pub uninterp spec fn spec_value_text(v: serde_json::Value) -> Seq<char>;

/// Relies on `serde_json::Value`'s `Display`: the rendering depends on the
/// value alone.
#[verifier::external_body]
pub fn value_text(v: &serde_json::Value) -> (r: String)
    ensures
        r@ == spec_value_text(*v),
{
    format!("{v}")
}

/// Relies on `serde_json::Map`'s `Clone` (implemented on
/// `Map<String, Value>` exactly): the clone is the same JSON object.
pub assume_specification[ <serde_json::Map<String, serde_json::Value> as Clone>::clone ](
    m: &serde_json::Map<String, serde_json::Value>,
) -> (r: serde_json::Map<String, serde_json::Value>)
    ensures
        r == *m,
;

/// Relies on `serde_json::Value`'s `Clone`: the clone is the same JSON value.
pub assume_specification[ <serde_json::Value as Clone>::clone ](v: &serde_json::Value) -> (r:
    serde_json::Value)
    ensures
        r == *v,
;

} // verus!
