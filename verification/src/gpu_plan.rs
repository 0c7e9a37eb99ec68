//! Verified planning core for the device compute backend.
//!
//! The device engine never lets one buffer be both the input and the output
//! binding of a dispatch: each step reads the active buffer and writes the
//! other, then the roles flip. This module decides those roles and the
//! dispatch size; the unverified device layer only executes the plan.
use vstd::prelude::*;

verus! {

/// Threads per device workgroup.
pub const WORKGROUP_SIZE: u32 = 256;

/// Number of workgroups that covers `n` invocations.
pub open spec fn groups_for(n: int) -> int {
    (n + 255) / 256
}

/// Buffer role after `k` flips from a starting role.
pub open spec fn role_after(start: bool, k: int) -> bool {
    if k % 2 == 0 {
        start
    } else {
        !start
    }
}

/// One enqueued compute pass: which buffer is bound as the read-only input
/// and which as the write-only output.
#[derive(Clone, Copy, Debug, PartialEq, Eq, Structural)]
pub struct PassPlan {
    pub input_is_a: bool,
    pub output_is_a: bool,
}

/// The ceiling dispatch size: enough workgroups to cover every body, and
/// not one group more.
pub fn workgroup_count(n: u32) -> (groups: u32)
    requires
        n <= 1073741824,
    ensures
        groups == groups_for(n as int),
        groups * 256 >= n,
        n > 0 ==> (groups - 1) * 256 < n,
        n == 0 ==> groups == 0,
{
    let groups = (n + WORKGROUP_SIZE - 1) / WORKGROUP_SIZE;
    proof {
        assert(groups * 256 >= n && (n > 0 ==> (groups - 1) * 256 < n)) by (nonlinear_arith)
            requires
                groups == ((n + 255) / 256) as int,
                n >= 0,
        ;
    }
    groups
}

/// The role flag selecting which of the two device body buffers is current.
pub struct DoubleBuffer {
    pub current_is_a: bool,
}

impl DoubleBuffer {
    /// Both buffers start initialized with the same generation; buffer A is
    /// the first input.
    pub fn new() -> (db: DoubleBuffer)
        ensures
            db.current_is_a,
    {
        DoubleBuffer { current_is_a: true }
    }

    /// Flip which buffer is current, after a pass was enqueued.
    pub fn swap(&mut self)
        ensures
            final(self).current_is_a == !old(self).current_is_a,
    {
        self.current_is_a = !self.current_is_a;
    }

    /// Plan `steps` passes: each pass reads the buffer the previous pass
    /// wrote, no pass reads and writes one buffer, and the flag ends on the
    /// parity of the step count.
    pub fn plan_steps(&mut self, steps: usize) -> (passes: Vec<PassPlan>)
        ensures
            passes@.len() == steps,
            forall|k: int|
                0 <= k < steps ==> {
                    &&& (#[trigger] passes@[k]).input_is_a == role_after(
                        old(self).current_is_a,
                        k,
                    )
                    &&& passes@[k].output_is_a == !passes@[k].input_is_a
                },
            final(self).current_is_a == role_after(old(self).current_is_a, steps as int),
    {
        let ghost start = self.current_is_a;
        let mut passes: Vec<PassPlan> = Vec::new();
        let mut s: usize = 0;
        while s < steps
            invariant
                s <= steps,
                passes@.len() == s,
                self.current_is_a == role_after(start, s as int),
                forall|k: int|
                    0 <= k < s ==> {
                        &&& (#[trigger] passes@[k]).input_is_a == role_after(start, k)
                        &&& passes@[k].output_is_a == !passes@[k].input_is_a
                    },
            decreases steps - s,
        {
            passes.push(PassPlan { input_is_a: self.current_is_a, output_is_a: !self.current_is_a });
            self.current_is_a = !self.current_is_a;
            s = s + 1;
        }
        passes
    }
}

/// Consecutive passes chain: the buffer one pass writes is the buffer the
/// next pass reads, so no generation is ever read and written in one pass.
pub proof fn lemma_roles_alternate(start: bool, k: int)
    requires
        k >= 0,
    ensures
        role_after(start, k + 1) == !role_after(start, k),
{
    assert((k + 1) % 2 == (if k % 2 == 0 { 1int } else { 0int }));
}

} // verus!
