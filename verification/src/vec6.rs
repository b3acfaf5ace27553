use vstd::prelude::*;

verus! {

/// A phase-space point: a position `r` and a velocity `v`, each a 3-vector of
/// the caller's vector type `V`.
#[derive(Clone, Copy, Debug, PartialEq)]
pub struct Vec6<V> {
    pub r: V,
    pub v: V,
}

impl<V> Vec6<V> {
    /// Builds a phase-space point from a position and a velocity.
    pub fn new(r: V, v: V) -> (w: Self)
        ensures
            w.r == r,
            w.v == v,
    {
        Vec6 { r, v }
    }
}

/// `z` is the value that `V::default()` produces (the zero vector).
pub open spec fn is_zero_vector<V: Default>(z: V) -> bool {
    call_ensures(V::default, (), z)
}

/// A phase-space point with both components at the zero vector.
pub open spec fn is_zero_point<V: Default>(w: Vec6<V>) -> bool {
    &&& is_zero_vector(w.r)
    &&& w.v == w.r
}

impl<V: Default + Copy> Vec6<V> {
    /// The origin of phase space: position and velocity both zero.
    pub fn zero() -> (w: Self)
        ensures
            is_zero_point(w),
    {
        let z = V::default();
        Vec6 { r: z, v: z }
    }

    /// `n` copies of the phase-space origin.
    pub fn zeros(n: usize) -> (ws: Vec<Self>)
        ensures
            ws.len() == n,
            forall|i: int| 0 <= i < n ==> #[trigger] ws[i] == ws[0] && is_zero_point(ws[i]),
    {
        let z = Self::zero();
        let mut ws: Vec<Self> = Vec::new();
        for k in 0..n
            invariant
                is_zero_point(z),
                ws.len() == k,
                forall|i: int| 0 <= i < k ==> #[trigger] ws[i] == z,
        {
            ws.push(z);
        }
        ws
    }
}

impl<V: Default + Copy> Default for Vec6<V> {
    /// The default phase-space point is the origin.
    fn default() -> (w: Self)
        ensures
            is_zero_point(w),
    {
        Self::zero()
    }
}

} // verus!
