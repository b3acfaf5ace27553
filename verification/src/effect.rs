use vstd::prelude::*;

verus! {

/// A payload handed to an [`Effect`]: either shared (read-only) or exclusive
/// (writable).
pub enum PayloadRef<'a, T> {
    Ref(&'a T),
    Mut(&'a mut T),
}

impl<'a, T> PayloadRef<'a, T> {
    /// The value the payload refers to, whichever way it is held.
    pub open spec fn target(&self) -> T {
        match self {
            PayloadRef::Ref(r) => **r,
            PayloadRef::Mut(m) => **m,
        }
    }

    /// Reads the payload; available for both variants.
    pub fn as_ref(&self) -> (r: &T)
        ensures
            *r == self.target(),
    {
        match self {
            PayloadRef::Ref(r) => r,
            PayloadRef::Mut(m) => m,
        }
    }

    /// Writable access to the payload: `Some` exactly when it is held
    /// exclusively; writes through the result reach the payload.
    pub fn as_mut(&mut self) -> (r: Option<&mut T>)
        ensures
            *old(self) is Ref <==> r is None,
            *old(self) is Ref ==> *final(self) == *old(self),
            r matches Some(x) ==> {
                &&& *x == old(self).target()
                &&& *final(self) is Mut
                &&& final(self).target() == *final(x)
            },
    {
        match self {
            PayloadRef::Ref(_) => None,
            PayloadRef::Mut(m) => Some(m),
        }
    }
}

/// Something that reacts to the progress of a simulation: it receives a
/// counter (such as the current time) and a payload, and may fail.
pub trait Effect<E, Counter, Payload = ()> {
    fn update(&mut self, counter: Counter, payload: PayloadRef<Payload>) -> Result<(), E>;
}

} // verus!
