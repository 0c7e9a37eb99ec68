// Integration tests - set_params and set_bodies behaviour
use nbody::{
    generate_random_bodies, generate_two_body_system, Body, CpuSingleThreaded, Simulation,
    SimulationParams,
};

fn fxp(v: f64) -> i64 {
    (v * 1048576.0).round() as i64
}

fn unfx(v: i64) -> f64 {
    v as f64 / 1048576.0
}

fn rel_eq(a: f64, b: f64, tolerance: f64) -> bool {
    let diff = (a - b).abs();
    diff <= tolerance || diff <= tolerance * a.abs().max(b.abs())
}

fn compare_bodies(bodies1: &[Body], bodies2: &[Body], tolerance: f64) {
    assert_eq!(bodies1.len(), bodies2.len(), "Number of bodies doesn't match");

    for (b1, b2) in bodies1.iter().zip(bodies2.iter()) {
        assert!(rel_eq(unfx(b1.position[0]), unfx(b2.position[0]), tolerance));
        assert!(rel_eq(unfx(b1.position[1]), unfx(b2.position[1]), tolerance));
        assert!(rel_eq(unfx(b1.velocity[0]), unfx(b2.velocity[0]), tolerance));
        assert!(rel_eq(unfx(b1.velocity[1]), unfx(b2.velocity[1]), tolerance));
        assert!(rel_eq(unfx(b1.mass), unfx(b2.mass), tolerance));
    }
}

#[test]
fn integration_tests_test_set_params_cpu_single() {
    let bodies = generate_random_bodies(10, fxp(100.0));
    let params = SimulationParams::default();

    let mut sim = CpuSingleThreaded::new(bodies.clone(), params);

    // One step with default params
    sim.step(1);
    let bodies_after_step1 = sim.get_bodies();

    // Set new parameters: double timestep, double gravity
    let new_params = SimulationParams { dt: fxp(0.032), epsilon: fxp(1e-5), g_constant: fxp(2.0) };
    sim.set_params(new_params);

    // Read parameters back and verify
    let read_params = sim.get_params();
    assert_eq!(read_params.dt, new_params.dt);
    assert_eq!(read_params.epsilon, new_params.epsilon);
    assert_eq!(read_params.g_constant, new_params.g_constant);

    // Another step with new params
    sim.step(1);
    let bodies_after_step2 = sim.get_bodies();

    // Bodies should have moved differently
    assert_ne!(bodies_after_step1[0].position, bodies_after_step2[0].position);
}

#[test]
fn integration_tests_test_set_bodies_cpu_single() {
    let bodies = generate_random_bodies(10, fxp(100.0));
    let params = SimulationParams::default();

    let mut sim = CpuSingleThreaded::new(bodies.clone(), params);

    // One step
    sim.step(1);

    // Set new bodies
    let new_bodies = generate_two_body_system();
    sim.set_bodies(new_bodies.clone());

    // Read bodies back and verify
    let read_bodies = sim.get_bodies();
    assert_eq!(read_bodies.len(), new_bodies.len());
    compare_bodies(&read_bodies, &new_bodies, 1e-6);

    // Another step with new bodies
    sim.step(1);
    let bodies_after_step = sim.get_bodies();

    // Bodies should have moved
    assert_ne!(bodies_after_step[0].position, new_bodies[0].position);
    assert_ne!(bodies_after_step[1].position, new_bodies[1].position);
}

#[test]
fn test_set_params_deterministic_cpu() {
    // Setup: two bodies with exactly known positions
    // Body 0 at (0, 0), body 1 at (1, 0) - distance = 1
    let bodies = vec![
        Body::new([0, 0], [0, 0], fxp(1.0)),
        Body::new([fxp(1.0), 0], [0, 0], fxp(1.0)),
    ];

    let params = SimulationParams { dt: fxp(0.1), epsilon: 0, g_constant: fxp(1.0) };

    let mut sim = CpuSingleThreaded::new(bodies.clone(), params);

    sim.step(1);
    let result = sim.get_bodies();

    // Body 0 should have moved to the right (towards body 1)
    assert!(unfx(result[0].velocity[0]) > 0.0, "Body 0 velocity should be positive (moving right)");
    assert!(unfx(result[0].position[0]) > 0.0, "Body 0 should have moved right");

    // Body 1 should have moved to the left (towards body 0)
    assert!(unfx(result[1].velocity[0]) < 0.0, "Body 1 velocity should be negative (moving left)");
    assert!(unfx(result[1].position[0]) < 1.0, "Body 1 should have moved left");

    // Now change parameters: double gravity
    let new_params = SimulationParams { dt: fxp(0.1), epsilon: 0, g_constant: fxp(2.0) };
    sim.set_params(new_params);

    // Reset bodies
    sim.set_bodies(bodies.clone());
    sim.step(1);
    let result_doubled = sim.get_bodies();

    // With doubled gravity, velocity should be significantly higher
    assert!(
        unfx(result_doubled[0].velocity[0]) > unfx(result[0].velocity[0]) * 1.5,
        "Doubled gravity should produce significantly higher velocity: {} vs {}",
        unfx(result_doubled[0].velocity[0]),
        unfx(result[0].velocity[0])
    );
}

#[test]
fn test_set_bodies_deterministic_cpu() {
    // Start with 3 bodies
    let initial_bodies = vec![
        Body::new([0, 0], [0, 0], fxp(1.0)),
        Body::new([fxp(1.0), 0], [0, 0], fxp(1.0)),
        Body::new([fxp(0.5), fxp(1.0)], [0, 0], fxp(1.0)),
    ];

    let params = SimulationParams { dt: fxp(0.1), epsilon: 0, g_constant: fxp(1.0) };

    let mut sim = CpuSingleThreaded::new(initial_bodies.clone(), params);
    sim.step(1);

    // Replace with only 2 bodies at greater distance
    let new_bodies = vec![
        Body::new([0, 0], [0, 0], fxp(1.0)),
        Body::new([fxp(2.0), 0], [0, 0], fxp(1.0)), // Distance = 2
    ];
    sim.set_bodies(new_bodies.clone());

    // Verify that only 2 bodies exist
    let read_bodies = sim.get_bodies();
    assert_eq!(read_bodies.len(), 2, "Should have exactly 2 bodies after set_bodies");

    sim.step(1);
    let result = sim.get_bodies();

    // For comparison: simulate with distance 1
    let mut sim_close = CpuSingleThreaded::new(
        vec![
            Body::new([0, 0], [0, 0], fxp(1.0)),
            Body::new([fxp(1.0), 0], [0, 0], fxp(1.0)),
        ],
        params,
    );
    sim_close.step(1);
    let result_close = sim_close.get_bodies();

    // Velocity at distance 2 should be significantly lower than at distance 1
    assert!(
        unfx(result[0].velocity[0]) < unfx(result_close[0].velocity[0]) * 0.5,
        "Bodies with distance 2 should have much lower velocity than distance 1: {} vs {}",
        unfx(result[0].velocity[0]),
        unfx(result_close[0].velocity[0])
    );
}
