//! Integrator helpers shared by the stepping schemes.
pub mod bulirsch_stoer;

use vstd::prelude::*;

verus! {

/// The acceleration to store with a step: kept only when `save_acc` is set.
pub fn option_acc<A>(a: A, save_acc: bool) -> (o: Option<A>)
    ensures
        o == (if save_acc { Some(a) } else { None::<A> }),
{
    if save_acc {
        return Some(a);
    } else {
        return None;
    }
}

} // verus!
