//! The capability interface every engine exposes.
//!
//! The contracts pin each implementation to the one shared generation
//! function `advance_s`, so any two engines started from equal states agree
//! exactly after any number of steps.
use crate::cpu_core::advance_s;
use crate::types::{wf_bodies, wf_params, Body, SimulationParams, NMAX};
use vstd::prelude::*;

verus! {

pub trait Simulation: Sized {
    /// The generation this engine currently holds.
    spec fn bodies_view(&self) -> Seq<Body>;

    /// The parameters this engine currently holds.
    spec fn params_view(&self) -> SimulationParams;

    /// The engine's internal well-formedness.
    spec fn inv(&self) -> bool;

    /// Advance the simulation by `steps` whole generations.
    fn step(&mut self, steps: usize)
        requires
            old(self).inv(),
        ensures
            final(self).inv(),
            final(self).params_view() == old(self).params_view(),
            final(self).bodies_view() == advance_s(
                old(self).bodies_view(),
                old(self).params_view(),
                steps as nat,
            ),
    ;

    /// Copy the current generation out, in index order.
    fn get_bodies(&self) -> (bodies: Vec<Body>)
        requires
            self.inv(),
        ensures
            bodies@ == self.bodies_view(),
    ;

    /// Replace the body collection; the body count follows the input.
    fn set_bodies(&mut self, bodies: Vec<Body>)
        requires
            old(self).inv(),
            wf_bodies(bodies@),
            bodies@.len() <= NMAX,
        ensures
            final(self).inv(),
            final(self).bodies_view() == bodies@,
            final(self).params_view() == old(self).params_view(),
    ;

    /// Read the current parameters.
    fn get_params(&self) -> (params: &SimulationParams)
        ensures
            *params == self.params_view(),
    ;

    /// Replace the parameters; they take effect on the next step.
    fn set_params(&mut self, simulation_params: SimulationParams)
        requires
            old(self).inv(),
            wf_params(simulation_params),
        ensures
            final(self).inv(),
            final(self).params_view() == simulation_params,
            final(self).bodies_view() == old(self).bodies_view(),
    ;
}

} // verus!
