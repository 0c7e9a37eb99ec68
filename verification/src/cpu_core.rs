//! The shared update kernel.
//!
//! `step_body_s` is the one generation function that every engine must
//! realize: accumulate the pairwise inverse-square force on a body, divide by
//! its mass, advance the velocity, then advance the position with the new
//! velocity. The scalar executable kernel lives here; the lane-grouped kernel
//! proves the same postcondition by a different summation order.
use crate::fixed::{
    fdiv, fdiv_s, fdiv_wide, fmul, fmul_s, fsqrt, fsqrt_s, is_sqrt_floor, mag_s, sat_s, sat_sum,
    sat_sum_s, sqrt_floor_s, CAP, SCALE,
};
use crate::types::{wf_bodies, wf_body, wf_params, Body, SimulationParams, NMAX};
use vstd::prelude::*;

verus! {

/// Squared separation, clamped from below by the softening constant and by
/// one fixed-point quantum, so that the force of a pair is always defined.
pub open spec fn softened_r2_s(dx: int, dy: int, eps: int) -> int {
    let r2 = fmul_s(dx, dx) + fmul_s(dy, dy);
    let floor_v = if eps < 1 {
        1
    } else {
        eps
    };
    if r2 < floor_v {
        floor_v
    } else {
        r2
    }
}

/// Horizontal component of the force that `oth` exerts on `cur`.
pub open spec fn pair_force_x_s(cur: Body, oth: Body, p: SimulationParams) -> int {
    let dx = oth.position[0] - cur.position[0];
    let dy = oth.position[1] - cur.position[1];
    let r2 = softened_r2_s(dx, dy, p.epsilon as int);
    let r = fsqrt_s(r2);
    let fmag = fdiv_s(fmul_s(fmul_s(p.g_constant as int, cur.mass as int), oth.mass as int), r2);
    fmul_s(fmag, fdiv_s(dx, r))
}

/// Vertical component of the force that `oth` exerts on `cur`.
pub open spec fn pair_force_y_s(cur: Body, oth: Body, p: SimulationParams) -> int {
    let dx = oth.position[0] - cur.position[0];
    let dy = oth.position[1] - cur.position[1];
    let r2 = softened_r2_s(dx, dy, p.epsilon as int);
    let r = fsqrt_s(r2);
    let fmag = fdiv_s(fmul_s(fmul_s(p.g_constant as int, cur.mass as int), oth.mass as int), r2);
    fmul_s(fmag, fdiv_s(dy, r))
}

/// Horizontal force on body `i` accumulated over the first `k` bodies.
pub open spec fn force_x_upto_s(i: int, bodies: Seq<Body>, p: SimulationParams, k: int) -> int
    decreases k,
{
    if k <= 0 {
        0
    } else {
        force_x_upto_s(i, bodies, p, k - 1) + (if k - 1 == i {
            0
        } else {
            pair_force_x_s(bodies[i], bodies[k - 1], p)
        })
    }
}

/// Vertical force on body `i` accumulated over the first `k` bodies.
pub open spec fn force_y_upto_s(i: int, bodies: Seq<Body>, p: SimulationParams, k: int) -> int
    decreases k,
{
    if k <= 0 {
        0
    } else {
        force_y_upto_s(i, bodies, p, k - 1) + (if k - 1 == i {
            0
        } else {
            pair_force_y_s(bodies[i], bodies[k - 1], p)
        })
    }
}

/// Total horizontal force on body `i` from every other body.
pub open spec fn force_x_s(i: int, bodies: Seq<Body>, p: SimulationParams) -> int {
    force_x_upto_s(i, bodies, p, bodies.len() as int)
}

/// Total vertical force on body `i` from every other body.
pub open spec fn force_y_s(i: int, bodies: Seq<Body>, p: SimulationParams) -> int {
    force_y_upto_s(i, bodies, p, bodies.len() as int)
}

/// Next state of body `i`: velocity first, then position with the new
/// velocity, mass unchanged.
pub open spec fn step_body_s(i: int, bodies: Seq<Body>, p: SimulationParams) -> Body {
    let cur = bodies[i];
    let ax = fdiv_s(force_x_s(i, bodies, p), cur.mass as int);
    let ay = fdiv_s(force_y_s(i, bodies, p), cur.mass as int);
    let vx = sat_sum_s(cur.velocity[0] as int, fmul_s(ax, p.dt as int));
    let vy = sat_sum_s(cur.velocity[1] as int, fmul_s(ay, p.dt as int));
    let px = sat_sum_s(cur.position[0] as int, fmul_s(vx, p.dt as int));
    let py = sat_sum_s(cur.position[1] as int, fmul_s(vy, p.dt as int));
    Body {
        position: [px as i64, py as i64],
        velocity: [vx as i64, vy as i64],
        mass: cur.mass,
    }
}

/// One full generation: every body advanced from the same snapshot.
pub open spec fn advance1_s(bodies: Seq<Body>, p: SimulationParams) -> Seq<Body> {
    Seq::new(bodies.len(), |i: int| step_body_s(i, bodies, p))
}

/// `n` generations in sequence.
pub open spec fn advance_s(bodies: Seq<Body>, p: SimulationParams, n: nat) -> Seq<Body>
    decreases n,
{
    if n == 0 {
        bodies
    } else {
        advance1_s(advance_s(bodies, p, (n - 1) as nat), p)
    }
}

/// A floor square root exists for every non-negative integer, so the chosen
/// value really satisfies its defining property.
pub proof fn lemma_sqrt_floor_exists(x: int)
    requires
        x >= 0,
    ensures
        is_sqrt_floor(x, sqrt_floor_s(x)),
    decreases x,
{
    if x == 0 {
        assert(is_sqrt_floor(0, 0));
    } else {
        lemma_sqrt_floor_exists(x - 1);
        let r = sqrt_floor_s(x - 1);
        if (r + 1) * (r + 1) <= x {
            assert(x < (r + 2) * (r + 2)) by (nonlinear_arith)
                requires
                    x - 1 < (r + 1) * (r + 1),
                    r >= 0,
            ;
            assert(is_sqrt_floor(x, r + 1));
        } else {
            assert(is_sqrt_floor(x, r));
        }
    }
}

/// Both components of a pair force are bounded by the saturation cap.
pub proof fn lemma_pair_force_bounded(cur: Body, oth: Body, p: SimulationParams)
    ensures
        mag_s(pair_force_x_s(cur, oth, p)) <= CAP,
        mag_s(pair_force_y_s(cur, oth, p)) <= CAP,
{
}

/// The accumulated force over `k` bodies is bounded by `k` pair forces.
pub proof fn lemma_force_upto_bounded(i: int, bodies: Seq<Body>, p: SimulationParams, k: int)
    requires
        k >= 0,
    ensures
        mag_s(force_x_upto_s(i, bodies, p, k)) <= k * CAP,
        mag_s(force_y_upto_s(i, bodies, p, k)) <= k * CAP,
    decreases k,
{
    if k > 0 {
        lemma_force_upto_bounded(i, bodies, p, k - 1);
        lemma_pair_force_bounded(bodies[i], bodies[k - 1], p);
    }
}

/// Stepping a well-formed generation yields a well-formed body of the same
/// mass.
pub proof fn lemma_step_body_wf(i: int, bodies: Seq<Body>, p: SimulationParams)
    requires
        0 <= i < bodies.len(),
        wf_bodies(bodies),
        wf_params(p),
    ensures
        wf_body(step_body_s(i, bodies, p)),
        step_body_s(i, bodies, p).mass == bodies[i].mass,
{
    assert(wf_body(bodies[i]));
}

/// Advancing one generation keeps the generation well formed and its length.
pub proof fn lemma_advance1_wf(bodies: Seq<Body>, p: SimulationParams)
    requires
        wf_bodies(bodies),
        wf_params(p),
    ensures
        wf_bodies(advance1_s(bodies, p)),
        advance1_s(bodies, p).len() == bodies.len(),
{
    assert forall|i: int| 0 <= i < advance1_s(bodies, p).len() implies #[trigger] wf_body(
        advance1_s(bodies, p)[i],
    ) by {
        lemma_step_body_wf(i, bodies, p);
    }
}

/// Symmetry law: two equal-mass bodies at rest, placed mirror-image about
/// the origin on the horizontal axis, acquire after one step velocities
/// equal in magnitude and opposite in sign on the axis of separation, their
/// perpendicular velocity stays exactly zero, and their positions stay
/// mirror images.
pub proof fn lemma_two_body_symmetry(bodies: Seq<Body>, p: SimulationParams)
    requires
        bodies.len() == 2,
        bodies[0].position[0] as int == -(bodies[1].position[0] as int),
        bodies[0].position[1] == 0,
        bodies[1].position[1] == 0,
        bodies[0].velocity[0] == 0,
        bodies[0].velocity[1] == 0,
        bodies[1].velocity[0] == 0,
        bodies[1].velocity[1] == 0,
        bodies[0].mass == bodies[1].mass,
        wf_bodies(bodies),
        wf_params(p),
    ensures
        step_body_s(0, bodies, p).velocity[0] as int == -(step_body_s(
            1,
            bodies,
            p,
        ).velocity[0] as int),
        step_body_s(0, bodies, p).velocity[1] == 0,
        step_body_s(1, bodies, p).velocity[1] == 0,
        step_body_s(0, bodies, p).position[0] as int == -(step_body_s(
            1,
            bodies,
            p,
        ).position[0] as int),
        step_body_s(0, bodies, p).position[1] == 0,
        step_body_s(1, bodies, p).position[1] == 0,
{
    let b0 = bodies[0];
    let b1 = bodies[1];
    assert(wf_body(bodies[0]));
    assert(wf_body(bodies[1]));
    let dd = b1.position[0] as int;
    let eps = p.epsilon as int;
    let dt = p.dt as int;
    let m = b0.mass as int;
    let dx = 2 * dd;
    // both directions see the same softened squared separation
    crate::fixed::lemma_fmul_comm(dx, -dx);
    crate::fixed::lemma_fmul_neg_left(dx, dx);
    crate::fixed::lemma_fmul_neg_left(dx, -dx);
    assert(fmul_s(-dx, -dx) == fmul_s(dx, dx));
    let r2 = softened_r2_s(dx, 0, eps);
    assert(softened_r2_s(-dx, 0, eps) == r2);
    assert(r2 >= 1);
    // the shared separation length is positive
    let x = r2 * SCALE;
    assert(x >= SCALE) by (nonlinear_arith)
        requires
            x == r2 * SCALE,
            r2 >= 1,
    ;
    lemma_sqrt_floor_exists(x);
    let r = fsqrt_s(r2);
    assert(r >= 1) by (nonlinear_arith)
        requires
            is_sqrt_floor(x, r),
            x >= 1048576,
    ;
    // the force magnitudes agree; the directions are opposite
    let fmag = fdiv_s(fmul_s(fmul_s(p.g_constant as int, m), m), r2);
    crate::fixed::lemma_fdiv_neg_left(dx, r);
    crate::fixed::lemma_fdiv_zero(r);
    let q = fdiv_s(dx, r);
    crate::fixed::lemma_fmul_comm(fmag, q);
    crate::fixed::lemma_fmul_neg_left(q, fmag);
    crate::fixed::lemma_fmul_comm(-q, fmag);
    assert(fmul_s(fmag, -q) == -fmul_s(fmag, q));
    assert(pair_force_x_s(b1, b0, p) == -pair_force_x_s(b0, b1, p));
    assert(fmul_s(fmag, 0) == 0);
    assert(pair_force_y_s(b0, b1, p) == 0);
    assert(pair_force_y_s(b1, b0, p) == 0);
    // fold the two-element force sums
    let fx = pair_force_x_s(b0, b1, p);
    assert(force_x_upto_s(0, bodies, p, 0) == 0);
    assert(force_y_upto_s(0, bodies, p, 0) == 0);
    assert(force_x_upto_s(1, bodies, p, 0) == 0);
    assert(force_y_upto_s(1, bodies, p, 0) == 0);
    assert(force_x_upto_s(0, bodies, p, 1) == 0);
    assert(force_y_upto_s(0, bodies, p, 1) == 0);
    assert(force_y_upto_s(0, bodies, p, 2) == 0);
    assert(force_y_upto_s(1, bodies, p, 1) == pair_force_y_s(b1, b0, p));
    assert(force_y_upto_s(1, bodies, p, 2) == pair_force_y_s(b1, b0, p));
    assert(force_x_s(0, bodies, p) == fx);
    assert(force_x_upto_s(1, bodies, p, 1) == pair_force_x_s(b1, b0, p));
    assert(force_x_s(1, bodies, p) == -fx);
    assert(force_y_s(0, bodies, p) == 0);
    assert(force_y_s(1, bodies, p) == 0);
    // accelerations, velocities and positions mirror
    crate::fixed::lemma_fdiv_neg_left(fx, m);
    crate::fixed::lemma_fdiv_zero(m);
    let ax = fdiv_s(fx, m);
    crate::fixed::lemma_fmul_neg_left(ax, dt);
    let vx = sat_sum_s(0, fmul_s(ax, dt));
    crate::fixed::lemma_sat_neg(fmul_s(ax, dt));
    assert(sat_sum_s(0, fmul_s(-ax, dt)) == -vx);
    assert(fmul_s(0, dt) == 0);
    crate::fixed::lemma_fmul_neg_left(vx, dt);
    crate::fixed::lemma_sat_neg(-dd + fmul_s(vx, dt));
    assert(step_body_s(0, bodies, p).velocity[0] as int == vx);
    assert(step_body_s(1, bodies, p).velocity[0] as int == -vx);
    assert(step_body_s(0, bodies, p).position[0] as int == sat_s(-dd + fmul_s(vx, dt)));
    assert(step_body_s(1, bodies, p).position[0] as int == sat_s(dd + fmul_s(-vx, dt)));
}

/// Motion law, restricted to where fixed-point truncation cannot freeze it:
/// if the displacement a step computes for a body is non-zero and the new
/// position does not saturate, the body's position changes.
pub proof fn lemma_step_moves_body(i: int, bodies: Seq<Body>, p: SimulationParams)
    requires
        0 <= i < bodies.len(),
        wf_bodies(bodies),
        wf_params(p),
        fmul_s(step_body_s(i, bodies, p).velocity[0] as int, p.dt as int) != 0,
        -CAP <= bodies[i].position[0] + fmul_s(
            step_body_s(i, bodies, p).velocity[0] as int,
            p.dt as int,
        ) <= CAP,
    ensures
        step_body_s(i, bodies, p).position[0] != bodies[i].position[0],
{
    assert(wf_body(bodies[i]));
}

/// Force of one body on another, in components.
///
/// `F = g * m_i * m_j / max(r^2, epsilon)` along the normalized separation
/// vector, with the squared distance clamped before the reciprocal.
pub fn compute_force_scalar(current: &Body, other: &Body, params: &SimulationParams) -> (f: (
    i64,
    i64,
))
    requires
        wf_body(*current),
        wf_body(*other),
        wf_params(*params),
    ensures
        f.0 == pair_force_x_s(*current, *other, *params),
        f.1 == pair_force_y_s(*current, *other, *params),
        -CAP <= f.0 <= CAP,
        -CAP <= f.1 <= CAP,
{
    let dx = other.position[0] - current.position[0];
    let dy = other.position[1] - current.position[1];
    let dx2 = fmul(dx, dx);
    let dy2 = fmul(dy, dy);
    let r2_raw = dx2 + dy2;
    let floor_v = if params.epsilon < 1 {
        1
    } else {
        params.epsilon
    };
    let r2 = if r2_raw < floor_v {
        floor_v
    } else {
        r2_raw
    };
    let r = fsqrt(r2);
    let gm = fmul(params.g_constant, current.mass);
    let gmm = fmul(gm, other.mass);
    let fmag = fdiv(gmm, r2);
    let fx = fmul(fmag, fdiv(dx, r));
    let fy = fmul(fmag, fdiv(dy, r));
    (fx, fy)
}

/// Next position and velocity for body `index` alone, computed from the full
/// body array; pure, reads only the previous generation.
pub fn compute_body_update(index: usize, all_bodies: &Vec<Body>, params: &SimulationParams) -> (b:
    Body)
    requires
        index < all_bodies@.len(),
        all_bodies@.len() <= NMAX,
        wf_bodies(all_bodies@),
        wf_params(*params),
    ensures
        b == step_body_s(index as int, all_bodies@, *params),
        wf_body(b),
{
    let n = all_bodies.len();
    let current = all_bodies[index];
    let mut fx: i128 = 0;
    let mut fy: i128 = 0;
    let mut j: usize = 0;
    assert(wf_body(all_bodies@[index as int]));
    while j < n
        invariant
            j <= n,
            index < n,
            n == all_bodies@.len(),
            n <= NMAX,
            wf_bodies(all_bodies@),
            wf_params(*params),
            current == all_bodies@[index as int],
            fx == force_x_upto_s(index as int, all_bodies@, *params, j as int),
            fy == force_y_upto_s(index as int, all_bodies@, *params, j as int),
            mag_s(fx as int) <= j * CAP,
            mag_s(fy as int) <= j * CAP,
        decreases n - j,
    {
        if j != index {
            assert(wf_body(all_bodies@[j as int]));
            let other = all_bodies[j];
            let f = compute_force_scalar(&current, &other, params);
            fx = fx + (f.0 as i128);
            fy = fy + (f.1 as i128);
        }
        j = j + 1;
    }
    proof {
        lemma_step_body_wf(index as int, all_bodies@, *params);
    }
    let ax = fdiv_wide(fx, current.mass);
    let ay = fdiv_wide(fy, current.mass);
    let vx = sat_sum(current.velocity[0], fmul(ax, params.dt));
    let vy = sat_sum(current.velocity[1], fmul(ay, params.dt));
    let px = sat_sum(current.position[0], fmul(vx, params.dt));
    let py = sat_sum(current.position[1], fmul(vy, params.dt));
    Body::new([px, py], [vx, vy], current.mass)
}

} // verus!
