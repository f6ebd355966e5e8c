//! The one way a value reaches a hasher: by its key.

use std::hash::{Hash, Hasher};
use vstd::prelude::*;

verus! {

/// Feeds `key` to `state` by `std::hash::Hash::hash`. Nothing is claimed of
/// the state afterwards: what a hasher makes of what it is fed is its own.
#[verifier::external_body]
pub(crate) fn feed<K: Hash, H: Hasher>(key: &K, state: &mut H) {
    key.hash(state)
}

} // verus!
