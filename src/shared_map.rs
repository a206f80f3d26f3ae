//! The concurrent map that holds the in-memory caches.
use vstd::prelude::*;

verus! {

/// Declares dashmap::DashMap to the verifier as an opaque type. What a map
/// holds is named per use, beside the wrappers of the methods called on it.
#[verifier::external_type_specification]
#[verifier::external_body]
#[verifier::reject_recursive_types(K)]
#[verifier::reject_recursive_types(V)]
#[verifier::reject_recursive_types(S)]
pub struct ExDashMap<K, V, S>(dashmap::DashMap<K, V, S>);

} // verus!
