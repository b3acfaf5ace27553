use vstd::prelude::*;

verus! {

/// The acceleration to record with a line: present only when accelerations
/// are being saved.
pub fn some_acc<A>(a: A, saved: bool) -> (o: Option<A>)
    ensures
        o == (if saved { Some(a) } else { None::<A> }),
{
    if saved { Some(a) } else { None }
}

} // verus!
