//! Bounded random number generation.
pub use crate::utils::rand_rng;
