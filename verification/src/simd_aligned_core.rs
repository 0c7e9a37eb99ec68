//! Lane-grouped engine over structure-of-arrays storage.
//!
//! Components are kept in five contiguous arrays so that a lane group reads
//! adjacent memory. A step gathers the arrays into one body snapshot, runs
//! the lane-grouped kernel per body, and scatters the new generation back,
//! so it provably advances the same generation function as every other
//! engine.
use crate::cpu_core::{advance1_s, advance_s, lemma_advance1_wf, step_body_s};
use crate::simd_core::compute_body_update;
use crate::simulation_trait::Simulation;
use crate::types::{wf_bodies, wf_params, Body, SimulationParams, NMAX};
use vstd::prelude::*;

verus! {

broadcast use vstd::array::group_array_axioms;

pub struct SimdAlignedNBodyCore {
    position_x: Vec<i64>,
    position_y: Vec<i64>,
    velocity_x: Vec<i64>,
    velocity_y: Vec<i64>,
    mass: Vec<i64>,
    params: SimulationParams,
}

impl SimdAlignedNBodyCore {
    /// The body at one index, assembled from the component arrays.
    spec fn body_at(&self, i: int) -> Body {
        Body {
            position: [self.position_x@[i], self.position_y@[i]],
            velocity: [self.velocity_x@[i], self.velocity_y@[i]],
            mass: self.mass@[i],
        }
    }

    /// All five component arrays run in step.
    spec fn lengths_match(&self) -> bool {
        &&& self.position_x@.len() == self.mass@.len()
        &&& self.position_y@.len() == self.mass@.len()
        &&& self.velocity_x@.len() == self.mass@.len()
        &&& self.velocity_y@.len() == self.mass@.len()
    }

    /// Create the engine over an initial generation, with default
    /// parameters.
    pub fn new(bodies: Vec<Body>) -> (sim: SimdAlignedNBodyCore)
        requires
            wf_bodies(bodies@),
            bodies@.len() <= NMAX,
        ensures
            sim.inv(),
            sim.bodies_view() == bodies@,
            sim.params_view().dt == crate::types::DEFAULT_DT,
            sim.params_view().epsilon == crate::types::DEFAULT_EPSILON,
            sim.params_view().g_constant == crate::types::DEFAULT_G,
    {
        let mut ret = SimdAlignedNBodyCore {
            position_x: Vec::new(),
            position_y: Vec::new(),
            velocity_x: Vec::new(),
            velocity_y: Vec::new(),
            mass: Vec::new(),
            params: SimulationParams::default(),
        };
        proof {
            assert(ret.bodies_view() =~= Seq::<Body>::empty());
        }
        ret.set_bodies(bodies);
        ret
    }

    /// Assemble the current generation out of the component arrays.
    fn gather(&self) -> (bodies: Vec<Body>)
        requires
            self.lengths_match(),
        ensures
            bodies@ == self.bodies_view(),
    {
        let len = self.mass.len();
        let mut bodies: Vec<Body> = Vec::new();
        let mut i: usize = 0;
        while i < len
            invariant
                i <= len,
                len == self.mass@.len(),
                self.lengths_match(),
                bodies@.len() == i,
                forall|k: int| 0 <= k < i ==> bodies@[k] == self.body_at(k),
            decreases len - i,
        {
            bodies.push(
                Body::new(
                    [self.position_x[i], self.position_y[i]],
                    [self.velocity_x[i], self.velocity_y[i]],
                    self.mass[i],
                ),
            );
            i = i + 1;
        }
        proof {
            assert(bodies@ =~= self.bodies_view());
        }
        bodies
    }

    /// Run the lane-grouped kernel over a snapshot of the arrays and
    /// scatter the new generation back into them.
    fn simd_step_once(&mut self)
        requires
            old(self).inv(),
        ensures
            final(self).inv(),
            final(self).params_view() == old(self).params_view(),
            final(self).bodies_view() == advance1_s(
                old(self).bodies_view(),
                old(self).params_view(),
            ),
    {
        let snapshot = self.gather();
        let params = self.params;
        let n = snapshot.len();
        let mut new_pos_x: Vec<i64> = Vec::new();
        let mut new_pos_y: Vec<i64> = Vec::new();
        let mut new_vel_x: Vec<i64> = Vec::new();
        let mut new_vel_y: Vec<i64> = Vec::new();
        let mut new_mass: Vec<i64> = Vec::new();
        let mut i: usize = 0;
        while i < n
            invariant
                i <= n,
                n == snapshot@.len(),
                n <= NMAX,
                wf_bodies(snapshot@),
                wf_params(params),
                new_pos_x@.len() == i,
                new_pos_y@.len() == i,
                new_vel_x@.len() == i,
                new_vel_y@.len() == i,
                new_mass@.len() == i,
                forall|k: int|
                    0 <= k < i ==> {
                        let b = #[trigger] step_body_s(k, snapshot@, params);
                        &&& new_pos_x@[k] == b.position[0]
                        &&& new_pos_y@[k] == b.position[1]
                        &&& new_vel_x@[k] == b.velocity[0]
                        &&& new_vel_y@[k] == b.velocity[1]
                        &&& new_mass@[k] == b.mass
                    },
            decreases n - i,
        {
            let b = compute_body_update(i, &snapshot, &params);
            new_pos_x.push(b.position[0]);
            new_pos_y.push(b.position[1]);
            new_vel_x.push(b.velocity[0]);
            new_vel_y.push(b.velocity[1]);
            new_mass.push(b.mass);
            i = i + 1;
        }
        proof {
            lemma_advance1_wf(snapshot@, params);
        }
        self.position_x = new_pos_x;
        self.position_y = new_pos_y;
        self.velocity_x = new_vel_x;
        self.velocity_y = new_vel_y;
        self.mass = new_mass;
        proof {
            assert(self.bodies_view() =~= advance1_s(snapshot@, params));
        }
    }
}

impl Simulation for SimdAlignedNBodyCore {
    closed spec fn bodies_view(&self) -> Seq<Body> {
        Seq::new(self.mass@.len(), |i: int| self.body_at(i))
    }

    closed spec fn params_view(&self) -> SimulationParams {
        self.params
    }

    closed spec fn inv(&self) -> bool {
        &&& self.lengths_match()
        &&& self.mass@.len() <= NMAX
        &&& wf_bodies(self.bodies_view())
        &&& wf_params(self.params)
    }

    fn step(&mut self, steps: usize) {
        let ghost orig_bodies = self.bodies_view();
        let ghost p = self.params;
        let mut s: usize = 0;
        while s < steps
            invariant
                s <= steps,
                self.inv(),
                self.params_view() == p,
                self.bodies_view() == advance_s(orig_bodies, p, s as nat),
            decreases steps - s,
        {
            self.simd_step_once();
            s = s + 1;
        }
    }

    fn get_bodies(&self) -> (bodies: Vec<Body>) {
        self.gather()
    }

    fn set_bodies(&mut self, bodies: Vec<Body>) {
        let len = bodies.len();
        let mut new_pos_x: Vec<i64> = Vec::new();
        let mut new_pos_y: Vec<i64> = Vec::new();
        let mut new_vel_x: Vec<i64> = Vec::new();
        let mut new_vel_y: Vec<i64> = Vec::new();
        let mut new_mass: Vec<i64> = Vec::new();
        let mut i: usize = 0;
        while i < len
            invariant
                i <= len,
                len == bodies@.len(),
                new_pos_x@.len() == i,
                new_pos_y@.len() == i,
                new_vel_x@.len() == i,
                new_vel_y@.len() == i,
                new_mass@.len() == i,
                forall|k: int|
                    0 <= k < i ==> {
                        &&& new_pos_x@[k] == bodies@[k].position[0]
                        &&& new_pos_y@[k] == bodies@[k].position[1]
                        &&& new_vel_x@[k] == bodies@[k].velocity[0]
                        &&& new_vel_y@[k] == bodies@[k].velocity[1]
                        &&& new_mass@[k] == bodies@[k].mass
                    },
            decreases len - i,
        {
            new_pos_x.push(bodies[i].position[0]);
            new_pos_y.push(bodies[i].position[1]);
            new_vel_x.push(bodies[i].velocity[0]);
            new_vel_y.push(bodies[i].velocity[1]);
            new_mass.push(bodies[i].mass);
            i = i + 1;
        }
        self.position_x = new_pos_x;
        self.position_y = new_pos_y;
        self.velocity_x = new_vel_x;
        self.velocity_y = new_vel_y;
        self.mass = new_mass;
        proof {
            assert forall|k: int| 0 <= k < bodies@.len() implies self.bodies_view()[k]
                == bodies@[k] by {
                assert(self.body_at(k).position =~= bodies@[k].position);
                assert(self.body_at(k).velocity =~= bodies@[k].velocity);
            }
            assert(self.bodies_view() =~= bodies@);
        }
    }

    fn get_params(&self) -> (params: &SimulationParams) {
        &self.params
    }

    fn set_params(&mut self, simulation_params: SimulationParams) {
        self.params = simulation_params;
        proof {
            assert(self.bodies_view() =~= old(self).bodies_view());
        }
    }
}

} // verus!
