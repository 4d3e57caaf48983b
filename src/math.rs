use vstd::prelude::*;

verus! {

/// Reactive `NOT`: the value a derived signal takes when its source reads `a`.
/// The host recomputes it from the source on every change.
pub fn use_not(a: bool) -> (r: bool)
    ensures
        r == !a,
{
    !a
}

} // verus!
