//! Poincaré sections of a driven, damped pendulum: the step-count, sampling and
//! dispatch logic of the integration engine, with its contracts.
pub mod types;
pub mod integrator;
pub mod sampling;
pub mod simulate;
pub mod plot;
pub mod settings;
