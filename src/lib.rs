//! Decision logic of an adaptive numerical evaluation engine.
//!
//! The engine computes special functions and definite integrals in double
//! precision, stopping adaptively rather than after a fixed number of steps.
//! This crate holds the parts of it that decide: when a series has converged,
//! which method evaluates a Bessel function, how the quadrature rules refine
//! and when they stop, and how results are laid out and saved.
use vstd::prelude::*;

pub mod bessel;
pub mod convergence;
pub mod domain;
pub mod double_exponential;
pub mod layout;
pub mod npy;
pub mod saver;
pub mod trapezium;

verus! {

} // verus!
