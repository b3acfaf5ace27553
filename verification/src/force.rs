use vstd::prelude::*;

verus! {

/// How forces between bodies are evaluated.
#[derive(Clone, Debug, PartialEq, Eq, Structural)]
pub enum ForceMethod {
    /// Every pair of bodies, directly.
    Direct,
    /// Through a spatial tree.
    Octree,
}

impl ForceMethod {
    /// The tree-based method.
    pub fn new_octree() -> (m: ForceMethod)
        ensures
            m == ForceMethod::Octree,
    {
        ForceMethod::Octree
    }
}

/// The force-evaluation methods a force model can be built with.
#[derive(Clone, Debug, PartialEq, Eq, Structural)]
pub enum Method {
    Direct,
    Octree,
}

/// The number of bodies that act as sources of gravity: the requested
/// count, capped at the number of bodies present.
pub fn clamp_active(n_active: usize, n_total: usize) -> (k: usize)
    ensures
        k == (if n_active > n_total { n_total } else { n_active }),
        k <= n_total,
{
    if n_active > n_total { n_total } else { n_active }
}

} // verus!
