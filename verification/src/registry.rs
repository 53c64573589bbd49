//! Port registry, decision side: resolving a symbolic endpoint name to
//! its position in a fresh enumeration snapshot.
//!
//! Numeric endpoint handles are not stable across enumerations, so every
//! operation re-resolves its endpoint by name against the names the
//! transport enumerates at that moment, and never carries a handle from
//! one operation to the next.  A name that no longer appears means the
//! endpoint is gone — a failure the caller surfaces, not one it retries.

use vstd::prelude::*;

verus! {

/// Finds the position of the first enumerated endpoint bearing the
/// target name, or nothing when no enumerated endpoint bears it.
pub fn resolve_port(names: &Vec<String>, target: &String) -> (r: Option<usize>)
    ensures
        r matches Some(i) ==> {
            &&& i < names@.len()
            &&& names@[i as int]@ == target@
            &&& forall|j: int| 0 <= j < i ==> (#[trigger] names@[j])@ != target@
        },
        r is None <==> forall|j: int| 0 <= j < names@.len() ==> (#[trigger] names@[j])@ != target@,
{
    let mut i: usize = 0;
    while i < names.len()
        invariant
            i <= names@.len(),
            forall|j: int| 0 <= j < i ==> (#[trigger] names@[j])@ != target@,
        decreases names@.len() - i,
    {
        if names[i] == *target {
            return Some(i);
        }
        i = i + 1;
    }
    None
}

} // verus!
