//! Derating engine for power semiconductors: device-family classification,
//! failure classification, safety verdicts, and the control logic of the
//! linear-sweep search strategy.
//!
//! The numeric loss model works on floating-point values and therefore lives
//! with the caller; this crate holds and verifies every decision the engine
//! makes: which device family a free-text label denotes, which failure
//! category a set of limit comparisons yields, whether a point is safe under
//! the selected evaluation mode, and how the linear sweep advances and stops.

pub mod classify;
pub mod device;
pub mod mode;
pub mod sweep;
