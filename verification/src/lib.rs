//! Synthetic epidemic trajectories under a discrete-time stochastic
//! Susceptible-Infected-Recovered model.
//!
//! A trajectory starts from the configured compartment counts and advances one
//! time unit at a time. At every step one of three events is drawn with a
//! probability proportional to its weight: nothing happens, one susceptible
//! individual is infected, or one infected individual recovers. A batch run
//! keeps only the trajectories in which the susceptible count moved by at
//! least the configured threshold.
//!
//! Counts are integers and rates are exact ratios of integers, so every event
//! weight is an integer too and the arithmetic of a step is exact.

pub mod batch;
pub mod error;
pub mod generator;
pub mod model;
pub mod random;
pub mod render;
pub mod stepper;
pub mod trial;
pub mod weights;
