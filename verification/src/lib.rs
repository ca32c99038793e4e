//! Multirate integration of ordinary differential equations whose state
//! splits into a slow and a fast partition, with the numerics that sit next
//! to it: interpolation on grids, matrix norms, an update rule for training,
//! the device layer of a sparse transform, and errors.
//!
//! The integrator is made of [`system`] (what is integrated), [`method`]
//! (the options), [`scheme`] (one macro step), [`driver`] (the state machine
//! of a run) and [`solver`] (a whole run). All numbers pass through the
//! traits of [`scalar`], which name the arithmetic without fixing a number
//! type.

pub mod adamw;
pub mod boundary;
pub mod driver;
pub mod error;
pub mod gpu;
pub mod grid;
pub mod interpolation;
pub mod method;
pub mod norms;
pub mod op;
pub mod scalar;
pub mod scheme;
pub mod solver;
pub mod system;
