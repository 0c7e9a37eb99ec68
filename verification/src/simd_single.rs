//! Lane-grouped single-threaded engine.
use crate::cpu_core::{advance1_s, advance_s, lemma_advance1_wf, step_body_s};
use crate::simd_core::compute_body_update;
use crate::simulator::NBodySimulator;
use crate::types::{wf_bodies, wf_params, Body, SimulationParams, NMAX};
use vstd::prelude::*;

verus! {

pub struct SimdSingleThreaded {
    bodies: Vec<Body>,
    params: SimulationParams,
}

impl SimdSingleThreaded {
    /// Create the engine over an initial generation and parameters.
    pub fn new(bodies: Vec<Body>, params: SimulationParams) -> (sim: SimdSingleThreaded)
        requires
            wf_bodies(bodies@),
            bodies@.len() <= NMAX,
            wf_params(params),
        ensures
            sim.inv(),
            sim.bodies_view() == bodies@,
            sim.params_view() == params,
    {
        SimdSingleThreaded { bodies, params }
    }

    /// Compute the next generation with the lane-grouped kernel and commit
    /// it whole.
    fn step_once(&mut self)
        requires
            old(self).inv(),
        ensures
            final(self).inv(),
            final(self).params_view() == old(self).params_view(),
            final(self).bodies_view() == advance1_s(
                old(self).bodies_view(),
                old(self).params_view(),
            ),
    {
        let n = self.bodies.len();
        let params = self.params;
        let mut new_bodies: Vec<Body> = Vec::new();
        let mut i: usize = 0;
        while i < n
            invariant
                i <= n,
                n == self.bodies@.len(),
                n <= NMAX,
                wf_bodies(self.bodies@),
                wf_params(self.params),
                params == self.params,
                new_bodies@.len() == i,
                forall|k: int|
                    0 <= k < i ==> new_bodies@[k] == step_body_s(k, self.bodies@, params),
            decreases n - i,
        {
            let b = compute_body_update(i, &self.bodies, &params);
            new_bodies.push(b);
            i = i + 1;
        }
        proof {
            assert(new_bodies@ =~= advance1_s(self.bodies@, params));
            lemma_advance1_wf(self.bodies@, params);
        }
        self.bodies = new_bodies;
    }
}

impl NBodySimulator for SimdSingleThreaded {
    closed spec fn bodies_view(&self) -> Seq<Body> {
        self.bodies@
    }

    closed spec fn params_view(&self) -> SimulationParams {
        self.params
    }

    closed spec fn inv(&self) -> bool {
        &&& wf_bodies(self.bodies@)
        &&& self.bodies@.len() <= NMAX
        &&& wf_params(self.params)
    }

    fn step(&mut self, steps: usize) {
        let ghost orig_bodies = self.bodies@;
        let ghost p = self.params;
        let mut s: usize = 0;
        while s < steps
            invariant
                s <= steps,
                self.inv(),
                self.params_view() == p,
                self.bodies_view() == advance_s(orig_bodies, p, s as nat),
            decreases steps - s,
        {
            self.step_once();
            s = s + 1;
        }
    }

    fn get_bodies(&self) -> (bodies: Vec<Body>) {
        let mut out: Vec<Body> = Vec::new();
        let mut i: usize = 0;
        while i < self.bodies.len()
            invariant
                i <= self.bodies@.len(),
                out@ =~= self.bodies@.subrange(0, i as int),
            decreases self.bodies@.len() - i,
        {
            out.push(self.bodies[i]);
            i = i + 1;
        }
        proof {
            assert(out@ =~= self.bodies@);
        }
        out
    }

    fn get_params(&self) -> (params: SimulationParams) {
        self.params
    }

    fn set_bodies(&mut self, bodies: Vec<Body>) {
        self.bodies = bodies;
    }
}

} // verus!
