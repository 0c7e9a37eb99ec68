//! The benchmark-facing simulator interface and body-set producers.
use crate::cpu_core::advance_s;
use crate::fixed::{CAP, SCALE};
use crate::types::{wf_bodies, Body, SimulationParams, NMAX};
use vstd::prelude::*;

verus! {

/// The operation set benchmarks drive; engines implementing it can be
/// swapped without code change.
pub trait NBodySimulator: Send + Sized {
    /// The generation this engine currently holds.
    spec fn bodies_view(&self) -> Seq<Body>;

    /// The parameters this engine currently holds.
    spec fn params_view(&self) -> SimulationParams;

    /// The engine's internal well-formedness.
    spec fn inv(&self) -> bool;

    /// Advance the simulation by `steps` whole generations.
    fn step(&mut self, steps: usize)
        requires
            old(self).inv(),
        ensures
            final(self).inv(),
            final(self).params_view() == old(self).params_view(),
            final(self).bodies_view() == advance_s(
                old(self).bodies_view(),
                old(self).params_view(),
                steps as nat,
            ),
    ;

    /// Copy the current generation out, in index order.
    fn get_bodies(&self) -> (bodies: Vec<Body>)
        ensures
            bodies@ == self.bodies_view(),
    ;

    /// Read the current parameters.
    fn get_params(&self) -> (params: SimulationParams)
        ensures
            params == self.params_view(),
    ;

    /// Replace the body collection; the body count follows the input.
    fn set_bodies(&mut self, bodies: Vec<Body>)
        requires
            old(self).inv(),
            wf_bodies(bodies@),
            bodies@.len() <= NMAX,
        ensures
            final(self).inv(),
            final(self).bodies_view() == bodies@,
            final(self).params_view() == old(self).params_view(),
    ;
}

/// Relies on rand::random_range: a sample drawn from the thread-local
/// generator always lies within the given inclusive range.
#[verifier::external_body]
fn sample_coord(lo: i64, hi: i64) -> (r: i64)
    requires
        lo <= hi,
    ensures
        lo <= r <= hi,
{
    rand::random_range(lo..=hi)
}

/// `n` bodies of one fixed mass, at rest, placed uniformly at random in the
/// square one unit around the origin.
pub fn generate_random_bodies(n: usize, mass: i64) -> (bodies: Vec<Body>)
    requires
        n <= NMAX,
        mass != 0,
        -CAP <= mass <= CAP,
    ensures
        bodies@.len() == n,
        forall|i: int|
            0 <= i < n ==> {
                &&& (#[trigger] bodies@[i]).mass == mass
                &&& bodies@[i].velocity[0] == 0
                &&& bodies@[i].velocity[1] == 0
                &&& -SCALE <= bodies@[i].position[0] <= SCALE
                &&& -SCALE <= bodies@[i].position[1] <= SCALE
            },
        wf_bodies(bodies@),
{
    let mut bodies: Vec<Body> = Vec::new();
    let mut i: usize = 0;
    while i < n
        invariant
            i <= n,
            mass != 0,
            -CAP <= mass <= CAP,
            bodies@.len() == i,
            forall|k: int|
                0 <= k < i ==> {
                    &&& (#[trigger] bodies@[k]).mass == mass
                    &&& bodies@[k].velocity[0] == 0
                    &&& bodies@[k].velocity[1] == 0
                    &&& -SCALE <= bodies@[k].position[0] <= SCALE
                    &&& -SCALE <= bodies@[k].position[1] <= SCALE
                },
        decreases n - i,
    {
        let x = sample_coord(-SCALE, SCALE);
        let y = sample_coord(-SCALE, SCALE);
        bodies.push(Body::new([x, y], [0, 0], mass));
        i = i + 1;
    }
    proof {
        assert forall|k: int| 0 <= k < bodies@.len() implies crate::types::wf_body(
            #[trigger] bodies@[k],
        ) by {
            assert(bodies@[k].mass == mass);
        }
    }
    bodies
}

/// The fixed two-body test arrangement: equal masses one unit above and
/// below the origin, moving in opposite horizontal directions.
pub fn generate_two_body_system() -> (bodies: Vec<Body>)
    ensures
        bodies@.len() == 2,
        bodies@[0] == (Body {
            position: [0, 1048576],
            velocity: [524288, 0],
            mass: 104857600,
        }),
        bodies@[1] == (Body {
            position: [0, -1048576i64],
            velocity: [-524288i64, 0],
            mass: 104857600,
        }),
        wf_bodies(bodies@),
{
    let mut bodies: Vec<Body> = Vec::new();
    bodies.push(Body::new([0, SCALE], [SCALE / 2, 0], 100 * SCALE));
    bodies.push(Body::new([0, -SCALE], [-SCALE / 2, 0], 100 * SCALE));
    bodies
}

} // verus!
