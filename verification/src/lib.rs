//! Verified core of an N-body gravity simulation toolkit.
//!
//! The floating-point physics (vectors, forces, integrator steps, energies)
//! lives with the application; this crate holds the parts whose behaviour
//! does not depend on floating-point arithmetic, each with its contract.
pub mod effect;
pub mod energy;
pub mod force;
pub mod integrator;
pub mod record;
pub mod system;
pub mod update;
pub mod vec6;
