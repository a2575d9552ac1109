//! Evaluation modes and search algorithms.

use vstd::prelude::*;

verus! {

/// Which limit gates the pass/fail verdict at a given current, and which
/// quantity drives the normalized progress metric.
#[derive(Debug, Clone, PartialEq, Eq, Structural)]
pub enum SimulationMode {
    /// First-to-fail: a point is safe iff no failure category applies.
    Ftf,
    /// Temperature limit only.
    Temp,
    /// Cooling budget only.
    Budget,
}

/// Which search strategy locates the maximum safe current.
#[derive(Debug, Clone, PartialEq, Eq, Structural)]
pub enum SimulationAlgorithm {
    /// Evenly sampled linear sweep that stops at the first unsafe sample.
    Iterative,
    /// Binary search on the safe/unsafe boundary.
    Binary,
}

} // verus!
