//! The shared body and parameter records.
//!
//! All components are fixed-point scalars (see `fixed`): a body participates
//! in the force sum only with a non-zero mass, and every stored component is
//! bounded by `CAP` so that each arithmetic step of the update is defined.
use crate::fixed::{CAP, SCALE};
use vstd::prelude::*;

verus! {

/// Largest supported body count; keeps the wide force accumulator in range.
pub const NMAX: usize = 1073741824;

/// Default time step, about 0.016 units.
pub const DEFAULT_DT: i64 = 16777;

/// Default softening floor: the smallest positive fixed-point quantum,
/// about 1e-6 units.
pub const DEFAULT_EPSILON: i64 = 1;

/// Default gravitational constant: exactly one unit.
pub const DEFAULT_G: i64 = SCALE;

/// A point mass: two-dimensional position and velocity plus a mass.
#[derive(Clone, Copy, Debug, PartialEq)]
pub struct Body {
    pub position: [i64; 2],
    pub velocity: [i64; 2],
    pub mass: i64,
}

/// The parameters every engine reads on each step.
#[derive(Clone, Copy, Debug, PartialEq)]
pub struct SimulationParams {
    pub dt: i64,
    pub epsilon: i64,
    pub g_constant: i64,
}

/// A scalar that the saturating arithmetic keeps in range.
pub open spec fn wf_scalar(v: int) -> bool {
    -CAP <= v <= CAP
}

/// A body whose components are in range and whose mass can divide a force.
pub open spec fn wf_body(b: Body) -> bool {
    &&& wf_scalar(b.position[0] as int)
    &&& wf_scalar(b.position[1] as int)
    &&& wf_scalar(b.velocity[0] as int)
    &&& wf_scalar(b.velocity[1] as int)
    &&& wf_scalar(b.mass as int)
    &&& b.mass != 0
}

/// Every body of a generation is well formed.
pub open spec fn wf_bodies(s: Seq<Body>) -> bool {
    forall|i: int| 0 <= i < s.len() ==> #[trigger] wf_body(s[i])
}

/// Parameters whose components are in range.
pub open spec fn wf_params(p: SimulationParams) -> bool {
    &&& wf_scalar(p.dt as int)
    &&& wf_scalar(p.epsilon as int)
    &&& wf_scalar(p.g_constant as int)
}

impl Body {
    /// Build a body; padding is implicit in the wire layout, not stored here.
    pub fn new(position: [i64; 2], velocity: [i64; 2], mass: i64) -> (b: Body)
        ensures
            b == (Body { position, velocity, mass }),
    {
        Body { position, velocity, mass }
    }
}

impl Default for SimulationParams {
    /// The documented default parameter set.
    fn default() -> (p: SimulationParams)
        ensures
            p.dt == DEFAULT_DT,
            p.epsilon == DEFAULT_EPSILON,
            p.g_constant == DEFAULT_G,
            wf_params(p),
    {
        SimulationParams { dt: DEFAULT_DT, epsilon: DEFAULT_EPSILON, g_constant: DEFAULT_G }
    }
}

} // verus!
