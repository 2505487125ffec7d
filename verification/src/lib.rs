//! Simulation-and-staging engine for a Lorenz attractor.
//!
//! The engine keeps three things apart: the running integrator state, the
//! trajectory recorded so far, and a staged copy of the parameters that a
//! user may edit freely. Staged edits reach the running simulation only
//! through an explicit commit, which also restarts the trajectory.
//!
//! Real numbers cross this crate as IEEE-754 single-precision bit patterns
//! (see [`Scalar`]). The crate stores, copies and compares them; it never
//! does arithmetic on them, so every contract here is exact.

pub mod history;
pub mod integrator;
pub mod laws;
pub mod parameters;
pub mod scalar;
pub mod simulation;

pub use history::TrajectoryHistory;
pub use integrator::{IntegratorState, IntegratorView};
pub use parameters::{AttractorParameters, ParameterField, ParameterStage};
pub use scalar::{Scalar, Vec3};
pub use simulation::{Simulation, SimulationView};
