//! Entities are dense indices; each kind of component is held in a vector
//! with one optional slot per entity.
use vstd::prelude::*;

verus! {

/// The component of entity `i`, or `None` where the entity has none (or
/// lies beyond the store).
pub open spec fn slot<T>(s: Seq<Option<T>>, i: int) -> Option<T> {
    if 0 <= i < s.len() {
        s[i]
    } else {
        None
    }
}

} // verus!
