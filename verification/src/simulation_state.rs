//! Central simulation state shared by the CPU engines.
use crate::types::{wf_bodies, wf_params, Body, SimulationParams, NMAX};
use vstd::prelude::*;

verus! {

/// Owns the current generation and the parameters; backend-agnostic.
pub struct SimulationState {
    pub bodies: Vec<Body>,
    pub params: SimulationParams,
}

impl SimulationState {
    /// The state an engine may step: bounded count, well-formed records.
    pub open spec fn wf(&self) -> bool {
        &&& wf_bodies(self.bodies@)
        &&& self.bodies@.len() <= NMAX
        &&& wf_params(self.params)
    }

    /// Create a new simulation state.
    pub fn new(bodies: Vec<Body>, params: SimulationParams) -> (s: SimulationState)
        ensures
            s.bodies@ == bodies@,
            s.params == params,
    {
        SimulationState { bodies, params }
    }

    /// Number of bodies.
    pub fn len(&self) -> (n: usize)
        ensures
            n == self.bodies@.len(),
    {
        self.bodies.len()
    }

    /// Whether the simulation holds no bodies.
    pub fn is_empty(&self) -> (e: bool)
        ensures
            e == (self.bodies@.len() == 0),
    {
        self.bodies.len() == 0
    }

    /// Borrow the current generation.
    pub fn bodies(&self) -> (b: &Vec<Body>)
        ensures
            b@ == self.bodies@,
    {
        &self.bodies
    }

    /// Copy the current generation out.
    pub fn get_bodies(&self) -> (b: Vec<Body>)
        ensures
            b@ == self.bodies@,
    {
        let mut out: Vec<Body> = Vec::new();
        let mut i: usize = 0;
        while i < self.bodies.len()
            invariant
                i <= self.bodies@.len(),
                out@ =~= self.bodies@.subrange(0, i as int),
            decreases self.bodies@.len() - i,
        {
            out.push(self.bodies[i]);
            i = i + 1;
        }
        proof {
            assert(out@ =~= self.bodies@);
        }
        out
    }

    /// Read the current parameters.
    pub fn get_params(&self) -> (p: SimulationParams)
        ensures
            p == self.params,
    {
        self.params
    }

    /// Replace the body collection wholesale; the count follows the input.
    pub fn set_bodies(&mut self, bodies: Vec<Body>)
        ensures
            final(self).bodies@ == bodies@,
            final(self).params == old(self).params,
    {
        self.bodies = bodies;
    }

    /// Commit a freshly computed generation.
    pub fn update_bodies(&mut self, new_bodies: Vec<Body>)
        ensures
            final(self).bodies@ == new_bodies@,
            final(self).params == old(self).params,
    {
        self.bodies = new_bodies;
    }
}

} // verus!
