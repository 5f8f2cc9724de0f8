//! Particle simulation core: the strategies that advance a particle set, the
//! buffer lifecycle that keeps host and device copies consistent, and the
//! session decisions that drive them.
pub mod simulation;
pub mod params;
pub mod session;
pub mod lifecycle;
pub mod build_plan;
