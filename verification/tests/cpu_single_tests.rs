// Reference implementation tests - the scalar single-threaded engine is the
// reference for correct calculations
use nbody::{generate_two_body_system, Body, CpuSingleThreaded, Simulation, SimulationParams};

fn fxp(v: f64) -> i64 {
    (v * 1048576.0).round() as i64
}

fn unfx(v: i64) -> f64 {
    v as f64 / 1048576.0
}

fn rel_eq(a: f64, b: f64, tolerance: f64) -> bool {
    let diff = (a - b).abs();
    diff <= tolerance || diff <= tolerance * a.abs().max(b.abs())
}

fn calculate_total_energy(bodies: &[Body]) -> f64 {
    let mut kinetic = 0.0;
    let mut potential = 0.0;

    for body in bodies {
        let v_squared = unfx(body.velocity[0]).powi(2) + unfx(body.velocity[1]).powi(2);
        kinetic += 0.5 * unfx(body.mass) * v_squared;
    }

    for i in 0..bodies.len() {
        for j in (i + 1)..bodies.len() {
            let dx = unfx(bodies[j].position[0]) - unfx(bodies[i].position[0]);
            let dy = unfx(bodies[j].position[1]) - unfx(bodies[i].position[1]);
            let r = (dx * dx + dy * dy).sqrt().max(1e-6);
            potential -= unfx(bodies[i].mass) * unfx(bodies[j].mass) / r;
        }
    }

    kinetic + potential
}

#[test]
fn cpu_single_tests_test_two_body_system_cpu_single() {
    let bodies = generate_two_body_system();
    let params = SimulationParams::default();

    let mut sim = CpuSingleThreaded::new(bodies.clone(), params);
    sim.step(10);

    let result = sim.get_bodies();

    // Check that bodies have moved
    assert_ne!(result[0].position, bodies[0].position);
    assert_ne!(result[1].position, bodies[1].position);
}

#[test]
fn cpu_single_tests_test_energy_conservation_approximation() {
    // Test if total energy is approximately conserved
    let bodies = generate_two_body_system();
    let params = SimulationParams::default();

    let mut sim = CpuSingleThreaded::new(bodies.clone(), params);

    let initial_energy = calculate_total_energy(&sim.get_bodies());
    sim.step(10);
    let final_energy = calculate_total_energy(&sim.get_bodies());

    // Euler integration doesn't conserve energy, but shouldn't explode
    let energy_diff = (final_energy - initial_energy).abs();
    assert!(
        energy_diff / initial_energy.abs() < 5.0,
        "Energy changed too much: {} -> {}",
        initial_energy,
        final_energy
    );
}

#[test]
fn cpu_single_tests_test_circular_system() {
    let bodies: Vec<Body> = (0..8)
        .map(|i| {
            let angle = 2.0 * std::f64::consts::PI * (i as f64) / 8.0;
            Body::new([fxp(angle.cos()), fxp(angle.sin())], [0, 0], fxp(100.0))
        })
        .collect();
    let params = SimulationParams::default();

    let mut sim = CpuSingleThreaded::new(bodies.clone(), params);
    sim.step(10);

    let result = sim.get_bodies();

    // All bodies should have moved
    for (original, updated) in bodies.iter().zip(result.iter()) {
        assert_ne!(original.position, updated.position);
    }
}

#[test]
fn test_exact_symmetry_cpu() {
    // Two identical bodies, symmetrically placed
    let bodies = vec![
        Body::new([fxp(-1.0), 0], [0, 0], fxp(1.0)),
        Body::new([fxp(1.0), 0], [0, 0], fxp(1.0)),
    ];

    let params = SimulationParams { dt: fxp(0.1), epsilon: 0, g_constant: fxp(1.0) };

    let mut sim = CpuSingleThreaded::new(bodies.clone(), params);
    sim.step(1);
    let result = sim.get_bodies();

    // Due to symmetry, both bodies should have exactly the same velocity
    // magnitude
    assert!(rel_eq(
        unfx(result[0].velocity[0]).abs(),
        unfx(result[1].velocity[0]).abs(),
        1e-4
    ));

    // Body 0 moves to the right, body 1 to the left
    assert!(unfx(result[0].velocity[0]) > 0.0);
    assert!(unfx(result[1].velocity[0]) < 0.0);

    // Y velocities should remain 0 (no force in the Y direction)
    assert!(rel_eq(unfx(result[0].velocity[1]), 0.0, 1e-6));
    assert!(rel_eq(unfx(result[1].velocity[1]), 0.0, 1e-6));
}

#[test]
fn test_deterministic_gravity_calculation() {
    // Setup: two bodies with exactly known positions
    // Body 0 at (0, 0), body 1 at (1, 0) - distance = 1
    let bodies = vec![
        Body::new([0, 0], [0, 0], fxp(1.0)),
        Body::new([fxp(1.0), 0], [0, 0], fxp(1.0)),
    ];

    let params = SimulationParams { dt: fxp(0.1), epsilon: 0, g_constant: fxp(1.0) };

    let mut sim = CpuSingleThreaded::new(bodies.clone(), params);

    // Expected force: F = G * m1 * m2 / r^2 = 1.0; acceleration a = 1.0;
    // after one step (dt = 0.1): v = a * dt = 0.1
    sim.step(1);
    let result = sim.get_bodies();

    // Body 0 should have moved to the right (towards body 1)
    assert!(unfx(result[0].velocity[0]) > 0.0, "Body 0 velocity should be positive (moving right)");
    assert!(unfx(result[0].position[0]) > 0.0, "Body 0 should have moved right");

    // Body 1 should have moved to the left (towards body 0)
    assert!(unfx(result[1].velocity[0]) < 0.0, "Body 1 velocity should be negative (moving left)");
    assert!(unfx(result[1].position[0]) < 1.0, "Body 1 should have moved left");
}

#[test]
fn test_inverse_square_law() {
    // Test that force decreases with 1/r^2
    let params = SimulationParams { dt: fxp(0.1), epsilon: 0, g_constant: fxp(1.0) };

    // Bodies with distance 1
    let mut sim1 = CpuSingleThreaded::new(
        vec![
            Body::new([0, 0], [0, 0], fxp(1.0)),
            Body::new([fxp(1.0), 0], [0, 0], fxp(1.0)),
        ],
        params,
    );
    sim1.step(1);
    let result1 = sim1.get_bodies();

    // Bodies with distance 2 (force should be 1/4)
    let mut sim2 = CpuSingleThreaded::new(
        vec![
            Body::new([0, 0], [0, 0], fxp(1.0)),
            Body::new([fxp(2.0), 0], [0, 0], fxp(1.0)),
        ],
        params,
    );
    sim2.step(1);
    let result2 = sim2.get_bodies();

    // Velocity at distance 2 should be 1/4 of velocity at distance 1
    let expected_ratio = 0.25;
    let actual_ratio = unfx(result2[0].velocity[0]) / unfx(result1[0].velocity[0]);

    assert!(rel_eq(actual_ratio, expected_ratio, 0.01));
    assert!(
        (actual_ratio - expected_ratio).abs() < 0.01,
        "Inverse square law not followed: expected ratio {}, got {}",
        expected_ratio,
        actual_ratio
    );
}
