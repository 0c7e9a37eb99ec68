//! The lane-grouped update kernel.
//!
//! Same mathematics as the scalar kernel, restructured to process a fixed
//! width of eight "other" bodies per iteration: each of eight named lanes
//! accumulates the contributions of one index residue, and a horizontal
//! reduction folds the lanes into the scalar force accumulator. The group
//! containing the current index, and any remainder short of a full width,
//! take the scalar path. Because the saturating per-pair forces are summed
//! exactly in a wide accumulator, the reordered reduction provably equals
//! the scalar one, so this kernel meets the very same postcondition.
use crate::cpu_core::{
    compute_force_scalar, force_x_upto_s, force_y_upto_s, lemma_force_upto_bounded,
    lemma_step_body_wf, pair_force_x_s, pair_force_y_s, step_body_s,
};
use crate::fixed::{fdiv_wide, fmul, mag_s, sat_sum, CAP};
use crate::types::{wf_bodies, wf_body, wf_params, Body, SimulationParams, NMAX};
use vstd::prelude::*;

verus! {

/// One definitional unfolding of the accumulated force.
proof fn lemma_force_unfold(i: int, bodies: Seq<Body>, p: SimulationParams, m: int)
    requires
        m >= 0,
    ensures
        force_x_upto_s(i, bodies, p, m + 1) == force_x_upto_s(i, bodies, p, m) + (if m == i {
            0
        } else {
            pair_force_x_s(bodies[i], bodies[m], p)
        }),
        force_y_upto_s(i, bodies, p, m + 1) == force_y_upto_s(i, bodies, p, m) + (if m == i {
            0
        } else {
            pair_force_y_s(bodies[i], bodies[m], p)
        }),
{
}

/// Next position and velocity for body `index` alone, by lane-grouped
/// force accumulation; agrees exactly with the scalar kernel.
#[verifier::rlimit(100)]
pub fn compute_body_update(index: usize, all_bodies: &Vec<Body>, params: &SimulationParams) -> (b:
    Body)
    requires
        index < all_bodies@.len(),
        all_bodies@.len() <= NMAX,
        wf_bodies(all_bodies@),
        wf_params(*params),
    ensures
        b == step_body_s(index as int, all_bodies@, *params),
        wf_body(b),
{
    let n = all_bodies.len();
    let current = all_bodies[index];
    let chunks = n / 8;
    let mut fx: i128 = 0;
    let mut fy: i128 = 0;
    let mut lx0: i128 = 0;
    let mut lx1: i128 = 0;
    let mut lx2: i128 = 0;
    let mut lx3: i128 = 0;
    let mut lx4: i128 = 0;
    let mut lx5: i128 = 0;
    let mut lx6: i128 = 0;
    let mut lx7: i128 = 0;
    let mut ly0: i128 = 0;
    let mut ly1: i128 = 0;
    let mut ly2: i128 = 0;
    let mut ly3: i128 = 0;
    let mut ly4: i128 = 0;
    let mut ly5: i128 = 0;
    let mut ly6: i128 = 0;
    let mut ly7: i128 = 0;
    assert(wf_body(all_bodies@[index as int]));
    let mut c: usize = 0;
    while c < chunks
        invariant
            c <= chunks,
            chunks == n / 8,
            8 * chunks <= n,
            index < n,
            n == all_bodies@.len(),
            n <= NMAX,
            wf_bodies(all_bodies@),
            wf_params(*params),
            current == all_bodies@[index as int],
            fx + lx0 + lx1 + lx2 + lx3 + lx4 + lx5 + lx6 + lx7 == force_x_upto_s(
                index as int,
                all_bodies@,
                *params,
                8 * c,
            ),
            fy + ly0 + ly1 + ly2 + ly3 + ly4 + ly5 + ly6 + ly7 == force_y_upto_s(
                index as int,
                all_bodies@,
                *params,
                8 * c,
            ),
            mag_s(fx as int) <= 8 * (c as int) * CAP,
            mag_s(fy as int) <= 8 * (c as int) * CAP,
            mag_s(lx0 as int) <= (c as int) * CAP,
            mag_s(lx1 as int) <= (c as int) * CAP,
            mag_s(lx2 as int) <= (c as int) * CAP,
            mag_s(lx3 as int) <= (c as int) * CAP,
            mag_s(lx4 as int) <= (c as int) * CAP,
            mag_s(lx5 as int) <= (c as int) * CAP,
            mag_s(lx6 as int) <= (c as int) * CAP,
            mag_s(lx7 as int) <= (c as int) * CAP,
            mag_s(ly0 as int) <= (c as int) * CAP,
            mag_s(ly1 as int) <= (c as int) * CAP,
            mag_s(ly2 as int) <= (c as int) * CAP,
            mag_s(ly3 as int) <= (c as int) * CAP,
            mag_s(ly4 as int) <= (c as int) * CAP,
            mag_s(ly5 as int) <= (c as int) * CAP,
            mag_s(ly6 as int) <= (c as int) * CAP,
            mag_s(ly7 as int) <= (c as int) * CAP,
        decreases chunks - c,
    {
        proof {
            assert(8 * (c + 1) <= 8 * chunks) by (nonlinear_arith)
                requires
                    c < chunks,
            ;
        }
        let base = c * 8;
        if base <= index && index < base + 8 {
            // the group holding the current body takes the scalar path
            let mut j = base;
            while j < base + 8
                invariant
                    base <= j <= base + 8,
                    base + 8 <= n,
                    base == c * 8,
                    index < n,
                    n == all_bodies@.len(),
                    n <= NMAX,
                    wf_bodies(all_bodies@),
                    wf_params(*params),
                    current == all_bodies@[index as int],
                    fx + lx0 + lx1 + lx2 + lx3 + lx4 + lx5 + lx6 + lx7 == force_x_upto_s(
                        index as int,
                        all_bodies@,
                        *params,
                        j as int,
                    ),
                    fy + ly0 + ly1 + ly2 + ly3 + ly4 + ly5 + ly6 + ly7 == force_y_upto_s(
                        index as int,
                        all_bodies@,
                        *params,
                        j as int,
                    ),
                    mag_s(fx as int) <= 8 * (c as int) * CAP + (j - base) * CAP,
                    mag_s(fy as int) <= 8 * (c as int) * CAP + (j - base) * CAP,
                decreases base + 8 - j,
            {
                if j != index {
                    assert(wf_body(all_bodies@[j as int]));
                    let other = all_bodies[j];
                    let f = compute_force_scalar(&current, &other, params);
                    fx = fx + (f.0 as i128);
                    fy = fy + (f.1 as i128);
                }
                j = j + 1;
            }
        } else {
            // a full group of eight lanes away from the current index
            let o0 = all_bodies[base];
            let o1 = all_bodies[base + 1];
            let o2 = all_bodies[base + 2];
            let o3 = all_bodies[base + 3];
            let o4 = all_bodies[base + 4];
            let o5 = all_bodies[base + 5];
            let o6 = all_bodies[base + 6];
            let o7 = all_bodies[base + 7];
            let f0 = compute_force_scalar(&current, &o0, params);
            let f1 = compute_force_scalar(&current, &o1, params);
            let f2 = compute_force_scalar(&current, &o2, params);
            let f3 = compute_force_scalar(&current, &o3, params);
            let f4 = compute_force_scalar(&current, &o4, params);
            let f5 = compute_force_scalar(&current, &o5, params);
            let f6 = compute_force_scalar(&current, &o6, params);
            let f7 = compute_force_scalar(&current, &o7, params);
            lx0 = lx0 + (f0.0 as i128);
            lx1 = lx1 + (f1.0 as i128);
            lx2 = lx2 + (f2.0 as i128);
            lx3 = lx3 + (f3.0 as i128);
            lx4 = lx4 + (f4.0 as i128);
            lx5 = lx5 + (f5.0 as i128);
            lx6 = lx6 + (f6.0 as i128);
            lx7 = lx7 + (f7.0 as i128);
            ly0 = ly0 + (f0.1 as i128);
            ly1 = ly1 + (f1.1 as i128);
            ly2 = ly2 + (f2.1 as i128);
            ly3 = ly3 + (f3.1 as i128);
            ly4 = ly4 + (f4.1 as i128);
            ly5 = ly5 + (f5.1 as i128);
            ly6 = ly6 + (f6.1 as i128);
            ly7 = ly7 + (f7.1 as i128);
            proof {
                let i = index as int;
                let bs = all_bodies@;
                let p = *params;
                let b = base as int;
                lemma_force_unfold(i, bs, p, b);
                lemma_force_unfold(i, bs, p, b + 1);
                lemma_force_unfold(i, bs, p, b + 2);
                lemma_force_unfold(i, bs, p, b + 3);
                lemma_force_unfold(i, bs, p, b + 4);
                lemma_force_unfold(i, bs, p, b + 5);
                lemma_force_unfold(i, bs, p, b + 6);
                lemma_force_unfold(i, bs, p, b + 7);
            }
        }
        c = c + 1;
    }
    // horizontal reduction of the eight lanes into the scalar accumulator
    fx = fx + lx0 + lx1 + lx2 + lx3 + lx4 + lx5 + lx6 + lx7;
    fy = fy + ly0 + ly1 + ly2 + ly3 + ly4 + ly5 + ly6 + ly7;
    // remainder short of a full group
    let mut j = chunks * 8;
    while j < n
        invariant
            8 * chunks <= j <= n,
            index < n,
            n == all_bodies@.len(),
            n <= NMAX,
            wf_bodies(all_bodies@),
            wf_params(*params),
            current == all_bodies@[index as int],
            fx == force_x_upto_s(index as int, all_bodies@, *params, j as int),
            fy == force_y_upto_s(index as int, all_bodies@, *params, j as int),
        decreases n - j,
    {
        proof {
            lemma_force_upto_bounded(index as int, all_bodies@, *params, j as int);
        }
        if j != index {
            assert(wf_body(all_bodies@[j as int]));
            let other = all_bodies[j];
            let f = compute_force_scalar(&current, &other, params);
            fx = fx + (f.0 as i128);
            fy = fy + (f.1 as i128);
        }
        j = j + 1;
    }
    proof {
        lemma_force_upto_bounded(index as int, all_bodies@, *params, n as int);
        lemma_step_body_wf(index as int, all_bodies@, *params);
    }
    let ax = fdiv_wide(fx, current.mass);
    let ay = fdiv_wide(fy, current.mass);
    let vx = sat_sum(current.velocity[0], fmul(ax, params.dt));
    let vy = sat_sum(current.velocity[1], fmul(ay, params.dt));
    let px = sat_sum(current.position[0], fmul(vx, params.dt));
    let py = sat_sum(current.position[1], fmul(vy, params.dt));
    Body::new([px, py], [vx, vy], current.mass)
}

} // verus!
