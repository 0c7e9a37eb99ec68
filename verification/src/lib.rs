//! A two-dimensional n-body gravity simulator with interchangeable execution
//! engines: scalar single-threaded, worker-pool, lane-grouped single-threaded,
//! and lane-grouped worker-pool, all proved to advance the same generation
//! function, plus the verified planning core (buffer roles, dispatch sizes,
//! byte layout) for a device compute backend.
pub mod cpu_core;
pub mod cpu_rayon;
pub mod cpu_single;
pub mod fixed;
pub mod gpu_plan;
pub mod layout;
pub mod simd_aligned_core;
pub mod simd_core;
pub mod simd_rayon;
pub mod simd_single;
pub mod simulator;
pub mod simulation_state;
pub mod simulation_trait;
pub mod types;

pub use cpu_rayon::CpuMultiThreaded;
pub use cpu_single::CpuSingleThreaded;
pub use fixed::{CAP, SCALE};
pub use gpu_plan::{DoubleBuffer, PassPlan};
pub use layout::{BodyRecord, ParamsRecord};
pub use simd_aligned_core::SimdAlignedNBodyCore;
pub use simd_rayon::SimdMultiThreaded;
pub use simd_single::SimdSingleThreaded;
pub use simulator::{generate_random_bodies, generate_two_body_system, NBodySimulator};
pub use simulation_state::SimulationState;
pub use simulation_trait::Simulation;
pub use types::{Body, SimulationParams};
