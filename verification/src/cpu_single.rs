//! Scalar single-threaded engine.
use crate::cpu_core::{advance1_s, advance_s, compute_body_update, lemma_advance1_wf, step_body_s};
use crate::simulation_state::SimulationState;
use crate::simulation_trait::Simulation;
use crate::types::{wf_bodies, wf_params, Body, SimulationParams, NMAX};
use vstd::prelude::*;

verus! {

pub struct CpuSingleThreaded {
    state: SimulationState,
}

impl CpuSingleThreaded {
    /// Create the engine over an initial generation and parameters.
    pub fn new(bodies: Vec<Body>, params: SimulationParams) -> (sim: CpuSingleThreaded)
        requires
            wf_bodies(bodies@),
            bodies@.len() <= NMAX,
            wf_params(params),
        ensures
            sim.inv(),
            sim.bodies_view() == bodies@,
            sim.params_view() == params,
    {
        CpuSingleThreaded { state: SimulationState::new(bodies, params) }
    }

    /// Compute the next generation from the current one and commit it whole.
    fn step_once(&mut self)
        requires
            old(self).inv(),
        ensures
            final(self).inv(),
            final(self).params_view() == old(self).params_view(),
            final(self).bodies_view() == advance1_s(
                old(self).bodies_view(),
                old(self).params_view(),
            ),
    {
        let n = self.state.len();
        let params = self.state.get_params();
        let mut new_bodies: Vec<Body> = Vec::new();
        let mut i: usize = 0;
        while i < n
            invariant
                i <= n,
                n == self.state.bodies@.len(),
                self.state.wf(),
                params == self.state.params,
                new_bodies@.len() == i,
                forall|k: int|
                    0 <= k < i ==> new_bodies@[k] == step_body_s(k, self.state.bodies@, params),
            decreases n - i,
        {
            let b = compute_body_update(i, self.state.bodies(), &params);
            new_bodies.push(b);
            i = i + 1;
        }
        proof {
            assert(new_bodies@ =~= advance1_s(self.state.bodies@, params));
            lemma_advance1_wf(self.state.bodies@, params);
        }
        self.state.update_bodies(new_bodies);
    }
}

impl Simulation for CpuSingleThreaded {
    closed spec fn bodies_view(&self) -> Seq<Body> {
        self.state.bodies@
    }

    closed spec fn params_view(&self) -> SimulationParams {
        self.state.params
    }

    closed spec fn inv(&self) -> bool {
        self.state.wf()
    }

    fn step(&mut self, steps: usize) {
        let ghost orig_bodies = self.state.bodies@;
        let ghost p = self.state.params;
        let mut s: usize = 0;
        while s < steps
            invariant
                s <= steps,
                self.inv(),
                self.params_view() == p,
                self.bodies_view() == advance_s(orig_bodies, p, s as nat),
            decreases steps - s,
        {
            self.step_once();
            s = s + 1;
        }
    }

    fn get_bodies(&self) -> (bodies: Vec<Body>) {
        self.state.get_bodies()
    }

    fn set_bodies(&mut self, bodies: Vec<Body>) {
        self.state.set_bodies(bodies);
    }

    fn get_params(&self) -> (params: &SimulationParams) {
        &self.state.params
    }

    fn set_params(&mut self, simulation_params: SimulationParams) {
        self.state.params = simulation_params;
    }
}

} // verus!
