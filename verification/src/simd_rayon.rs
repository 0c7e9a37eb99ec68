//! Lane-grouped worker-pool engine.
//!
//! Same skeleton as the scalar worker-pool engine, but each body's next
//! state comes from the lane-grouped kernel.
use crate::cpu_core::{advance1_s, advance_s, lemma_advance1_wf, step_body_s};
use crate::cpu_rayon::pool_join;
use crate::simd_core::compute_body_update;
use crate::simulation_state::SimulationState;
use crate::simulation_trait::Simulation;
use crate::types::{wf_bodies, wf_params, Body, SimulationParams, NMAX};
use vstd::prelude::*;

verus! {

/// Next states for the index range `lo..hi` by the lane-grouped kernel,
/// all computed from the same previous generation.
fn compute_range(all_bodies: &Vec<Body>, params: &SimulationParams, lo: usize, hi: usize) -> (out:
    Vec<Body>)
    requires
        lo <= hi <= all_bodies@.len(),
        all_bodies@.len() <= NMAX,
        wf_bodies(all_bodies@),
        wf_params(*params),
    ensures
        out@.len() == hi - lo,
        forall|k: int|
            0 <= k < out@.len() ==> out@[k] == step_body_s(lo + k, all_bodies@, *params),
{
    let mut out: Vec<Body> = Vec::new();
    let mut j: usize = lo;
    while j < hi
        invariant
            lo <= j <= hi <= all_bodies@.len(),
            all_bodies@.len() <= NMAX,
            wf_bodies(all_bodies@),
            wf_params(*params),
            out@.len() == j - lo,
            forall|k: int|
                0 <= k < out@.len() ==> out@[k] == step_body_s(lo + k, all_bodies@, *params),
        decreases hi - j,
    {
        let b = compute_body_update(j, all_bodies, params);
        out.push(b);
        j = j + 1;
    }
    out
}

pub struct SimdMultiThreaded {
    state: SimulationState,
}

impl SimdMultiThreaded {
    /// Create the engine over an initial generation and parameters.
    pub fn new(bodies: Vec<Body>, params: SimulationParams) -> (sim: SimdMultiThreaded)
        requires
            wf_bodies(bodies@),
            bodies@.len() <= NMAX,
            wf_params(params),
        ensures
            sim.inv(),
            sim.bodies_view() == bodies@,
            sim.params_view() == params,
    {
        SimdMultiThreaded { state: SimulationState::new(bodies, params) }
    }

    /// Compute the halves of the next generation on the pool, then commit
    /// the whole generation at once.
    fn step_once(&mut self)
        requires
            old(self).inv(),
        ensures
            final(self).inv(),
            final(self).params_view() == old(self).params_view(),
            final(self).bodies_view() == advance1_s(
                old(self).bodies_view(),
                old(self).params_view(),
            ),
    {
        let n = self.state.len();
        let params = self.state.get_params();
        let mid = n / 2;
        let bodies_ref = self.state.bodies();
        let ghost snapshot = bodies_ref@;
        let left_task = (||
            -> (out: Vec<Body>)
            ensures
                out@.len() == mid,
                forall|k: int| 0 <= k < out@.len() ==> out@[k] == step_body_s(k, snapshot, params),
            { compute_range(bodies_ref, &params, 0, mid) });
        let right_task = (||
            -> (out: Vec<Body>)
            ensures
                out@.len() == n - mid,
                forall|k: int|
                    0 <= k < out@.len() ==> out@[k] == step_body_s(mid + k, snapshot, params),
            { compute_range(bodies_ref, &params, mid, n) });
        let halves = pool_join(left_task, right_task);
        let mut new_bodies = halves.0;
        let mut right_half = halves.1;
        new_bodies.append(&mut right_half);
        proof {
            assert(new_bodies@ =~= advance1_s(snapshot, params));
            lemma_advance1_wf(snapshot, params);
        }
        self.state.update_bodies(new_bodies);
    }
}

impl Simulation for SimdMultiThreaded {
    closed spec fn bodies_view(&self) -> Seq<Body> {
        self.state.bodies@
    }

    closed spec fn params_view(&self) -> SimulationParams {
        self.state.params
    }

    closed spec fn inv(&self) -> bool {
        self.state.wf()
    }

    fn step(&mut self, steps: usize) {
        let ghost orig_bodies = self.state.bodies@;
        let ghost p = self.state.params;
        let mut s: usize = 0;
        while s < steps
            invariant
                s <= steps,
                self.inv(),
                self.params_view() == p,
                self.bodies_view() == advance_s(orig_bodies, p, s as nat),
            decreases steps - s,
        {
            self.step_once();
            s = s + 1;
        }
    }

    fn get_bodies(&self) -> (bodies: Vec<Body>) {
        self.state.get_bodies()
    }

    fn set_bodies(&mut self, bodies: Vec<Body>) {
        self.state.set_bodies(bodies);
    }

    fn get_params(&self) -> (params: &SimulationParams) {
        &self.state.params
    }

    fn set_params(&mut self, simulation_params: SimulationParams) {
        self.state.params = simulation_params;
    }
}

} // verus!
