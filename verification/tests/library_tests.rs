// Tests of the library's own guarantees: the shared kernel formulas, the
// cross-backend agreement, the state container, the body generators, the
// dispatch plan and the wire layout.
use nbody::cpu_core::compute_body_update;
use nbody::gpu_plan::{workgroup_count, DoubleBuffer};
use nbody::layout::{
    decode_bodies, encode_body, encode_bodies, encode_count, encode_params, ParamsRecord,
    BODY_STRIDE, PARAMS_BYTES,
};
use nbody::{
    generate_random_bodies, generate_two_body_system, Body, BodyRecord, CpuMultiThreaded,
    CpuSingleThreaded, NBodySimulator, SimdAlignedNBodyCore, SimdMultiThreaded, SimdSingleThreaded,
    Simulation, SimulationParams, SimulationState,
};

fn fxp(v: f64) -> i64 {
    (v * 1048576.0).round() as i64
}

#[test]
fn default_params_values() {
    let p = SimulationParams::default();
    assert_eq!(p.dt, 16777); // about 0.016 units
    assert_eq!(p.epsilon, 1); // one quantum, about 1e-6 units
    assert_eq!(p.g_constant, 1048576); // exactly 1.0
}

#[test]
fn kernel_exact_unit_pair() {
    // Unit masses one unit apart, g = 1, dt = 0.1: the force is exactly one
    // unit, the acceleration one unit, the induced velocity exactly dt and
    // the position advance exactly dt * dt (truncated).
    let bodies = vec![
        Body::new([0, 0], [0, 0], fxp(1.0)),
        Body::new([fxp(1.0), 0], [0, 0], fxp(1.0)),
    ];
    let params = SimulationParams { dt: fxp(0.1), epsilon: 0, g_constant: fxp(1.0) };

    let next = compute_body_update(0, &bodies, &params);
    assert_eq!(next.velocity, [104858, 0]);
    assert_eq!(next.position, [10485, 0]);
    assert_eq!(next.mass, fxp(1.0));
}

#[test]
fn kernel_inverse_square_exact_quarter() {
    // Doubling the separation divides the acceleration exactly by four on
    // these exactly representable inputs.
    let params = SimulationParams { dt: fxp(0.1), epsilon: 0, g_constant: fxp(1.0) };
    let near = vec![
        Body::new([0, 0], [0, 0], fxp(1.0)),
        Body::new([fxp(1.0), 0], [0, 0], fxp(1.0)),
    ];
    let far = vec![
        Body::new([0, 0], [0, 0], fxp(1.0)),
        Body::new([fxp(2.0), 0], [0, 0], fxp(1.0)),
    ];

    let v_near = compute_body_update(0, &near, &params).velocity[0];
    let v_far = compute_body_update(0, &far, &params).velocity[0];
    assert_eq!(v_near, 104858);
    assert_eq!(v_far, 26214); // dt / 4, truncated by one quantum
}

#[test]
fn two_body_symmetry_exact() {
    // Mirror-image equal masses with zero softening: velocities exactly
    // opposite on the axis of separation, perpendicular components exactly
    // zero, positions exactly mirrored.
    let bodies = vec![
        Body::new([fxp(-1.0), 0], [0, 0], fxp(1.0)),
        Body::new([fxp(1.0), 0], [0, 0], fxp(1.0)),
    ];
    let params = SimulationParams { dt: fxp(0.1), epsilon: 0, g_constant: fxp(1.0) };

    let mut sim = CpuSingleThreaded::new(bodies, params);
    sim.step(1);
    let result = sim.get_bodies();

    assert_eq!(result[0].velocity[0], -result[1].velocity[0]);
    assert!(result[0].velocity[0] > 0);
    assert_eq!(result[0].velocity[1], 0);
    assert_eq!(result[1].velocity[1], 0);
    assert_eq!(result[0].position[0], -result[1].position[0]);
    assert_eq!(result[0].position[1], 0);
    assert_eq!(result[1].position[1], 0);
}

#[test]
fn all_backends_agree_exactly() {
    let bodies = generate_random_bodies(24, fxp(100.0));
    let params = SimulationParams::default();

    let mut scalar = CpuSingleThreaded::new(bodies.clone(), params);
    let mut pooled = CpuMultiThreaded::new(bodies.clone(), params);
    let mut lanes = SimdSingleThreaded::new(bodies.clone(), params);
    let mut lanes_pooled = SimdMultiThreaded::new(bodies.clone(), params);
    let mut aligned = SimdAlignedNBodyCore::new(bodies.clone());
    aligned.set_params(params);

    scalar.step(4);
    pooled.step(4);
    lanes.step(4);
    lanes_pooled.step(4);
    aligned.step(4);

    let reference = scalar.get_bodies();
    assert_eq!(reference, pooled.get_bodies());
    assert_eq!(reference, lanes.get_bodies());
    assert_eq!(reference, lanes_pooled.get_bodies());
    assert_eq!(reference, aligned.get_bodies());
}

#[test]
fn every_body_moves_after_one_step() {
    let bodies = generate_two_body_system();
    let mut sim = CpuSingleThreaded::new(bodies.clone(), SimulationParams::default());
    sim.step(1);
    let result = sim.get_bodies();
    for (before, after) in bodies.iter().zip(result.iter()) {
        assert_ne!(before.position, after.position);
    }
}

#[test]
fn state_replacement_is_exact() {
    let mut state = SimulationState::new(
        generate_random_bodies(5, fxp(100.0)),
        SimulationParams::default(),
    );
    assert_eq!(state.len(), 5);
    assert!(!state.is_empty());

    let replacement = generate_two_body_system();
    state.set_bodies(replacement.clone());
    assert_eq!(state.len(), 2);
    assert_eq!(state.get_bodies(), replacement);

    let new_params = SimulationParams { dt: fxp(0.032), epsilon: fxp(1e-5), g_constant: fxp(2.0) };
    let mut sim = CpuSingleThreaded::new(replacement, SimulationParams::default());
    sim.set_params(new_params);
    assert_eq!(*sim.get_params(), new_params);
}

#[test]
fn two_body_generator_values() {
    let bodies = generate_two_body_system();
    assert_eq!(bodies.len(), 2);
    assert_eq!(bodies[0].position, [0, fxp(1.0)]);
    assert_eq!(bodies[0].velocity, [fxp(0.5), 0]);
    assert_eq!(bodies[0].mass, fxp(100.0));
    assert_eq!(bodies[1].position, [0, fxp(-1.0)]);
    assert_eq!(bodies[1].velocity, [fxp(-0.5), 0]);
    assert_eq!(bodies[1].mass, fxp(100.0));
}

#[test]
fn random_generator_respects_bounds() {
    let bodies = generate_random_bodies(40, fxp(100.0));
    assert_eq!(bodies.len(), 40);
    for b in &bodies {
        assert_eq!(b.mass, fxp(100.0));
        assert_eq!(b.velocity, [0, 0]);
        assert!(-fxp(1.0) <= b.position[0] && b.position[0] <= fxp(1.0));
        assert!(-fxp(1.0) <= b.position[1] && b.position[1] <= fxp(1.0));
    }
}

#[test]
fn aligned_core_round_trips_bodies() {
    let bodies = generate_two_body_system();
    let mut core = SimdAlignedNBodyCore::new(bodies.clone());
    assert_eq!(core.get_bodies(), bodies);

    let replacement = generate_random_bodies(7, fxp(100.0));
    core.set_bodies(replacement.clone());
    assert_eq!(core.get_bodies(), replacement);
}

#[test]
fn workgroup_count_covers_bodies() {
    assert_eq!(workgroup_count(0), 0);
    assert_eq!(workgroup_count(1), 1);
    assert_eq!(workgroup_count(256), 1);
    assert_eq!(workgroup_count(257), 2);
    assert_eq!(workgroup_count(1024), 4);
}

#[test]
fn double_buffer_plan_alternates() {
    let mut db = DoubleBuffer::new();
    assert!(db.current_is_a);

    let passes = db.plan_steps(5);
    assert_eq!(passes.len(), 5);
    for (k, pass) in passes.iter().enumerate() {
        // no pass reads and writes the same buffer
        assert_ne!(pass.input_is_a, pass.output_is_a);
        assert_eq!(pass.input_is_a, k % 2 == 0);
    }
    for k in 0..4 {
        // each pass reads what the previous one wrote
        assert_eq!(passes[k + 1].input_is_a, passes[k].output_is_a);
    }
    // five flips end with buffer B current
    assert!(!db.current_is_a);

    db.swap();
    assert!(db.current_is_a);
}

#[test]
fn body_record_wire_layout() {
    let rec = BodyRecord {
        position: [0x01020304, 0x05060708],
        velocity: [0x090a0b0c, 0x0d0e0f10],
        mass: 0x11121314,
    };
    let mut bytes: Vec<u8> = Vec::new();
    encode_body(&rec, &mut bytes);

    assert_eq!(bytes.len(), BODY_STRIDE);
    // position at offset 0, little endian
    assert_eq!(&bytes[0..8], &[0x04, 0x03, 0x02, 0x01, 0x08, 0x07, 0x06, 0x05]);
    // velocity at offset 8
    assert_eq!(&bytes[8..16], &[0x0c, 0x0b, 0x0a, 0x09, 0x10, 0x0f, 0x0e, 0x0d]);
    // mass at offset 16
    assert_eq!(&bytes[16..20], &[0x14, 0x13, 0x12, 0x11]);
    // 12 bytes of padding
    assert_eq!(&bytes[20..32], &[0u8; 12]);

    let decoded = decode_bodies(&bytes, 1);
    assert_eq!(decoded.len(), 1);
    assert_eq!(decoded[0], rec);
}

#[test]
fn generation_wire_layout_strides() {
    let recs = vec![
        BodyRecord { position: [1, 2], velocity: [3, 4], mass: 5 },
        BodyRecord { position: [6, 7], velocity: [8, 9], mass: 10 },
    ];
    let bytes = encode_bodies(&recs);
    assert_eq!(bytes.len(), 64);
    assert_eq!(bytes[0], 1);
    assert_eq!(bytes[32], 6); // second record starts at the 32-byte stride
    assert_eq!(decode_bodies(&bytes, 2), recs);
}

#[test]
fn params_record_wire_layout() {
    let rec = ParamsRecord { dt: 0x21222324, epsilon: 0x25262728, g_constant: 0x292a2b2c };
    let bytes = encode_params(&rec);
    assert_eq!(bytes.len(), PARAMS_BYTES);
    assert_eq!(&bytes[0..4], &[0x24, 0x23, 0x22, 0x21]);
    assert_eq!(&bytes[4..8], &[0x28, 0x27, 0x26, 0x25]);
    assert_eq!(&bytes[8..12], &[0x2c, 0x2b, 0x2a, 0x29]);
    assert_eq!(&bytes[12..16], &[0, 0, 0, 0]);
}

#[test]
fn count_uniform_wire_layout() {
    assert_eq!(encode_count(7), vec![7, 0, 0, 0]);
    assert_eq!(encode_count(0x00010000), vec![0, 0, 1, 0]);
}

#[test]
fn step_zero_is_a_no_op() {
    let bodies = generate_two_body_system();
    let mut sim = CpuSingleThreaded::new(bodies.clone(), SimulationParams::default());
    sim.step(0);
    assert_eq!(sim.get_bodies(), bodies);
}

#[test]
fn params_take_effect_on_next_step() {
    // The same start with doubled gravity diverges after one step.
    let bodies = generate_two_body_system();
    let mut plain = CpuSingleThreaded::new(bodies.clone(), SimulationParams::default());
    let mut doubled = CpuSingleThreaded::new(bodies, SimulationParams::default());
    let mut stronger = SimulationParams::default();
    stronger.g_constant = fxp(2.0);
    doubled.set_params(stronger);

    plain.step(1);
    doubled.step(1);
    assert_ne!(plain.get_bodies()[0].velocity, doubled.get_bodies()[0].velocity);
}
