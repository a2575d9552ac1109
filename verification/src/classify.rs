//! Failure classification and the mode-dependent safety verdict.
//!
//! The loss model compares the achieved junction temperature, total power and
//! current against the configured limits; the caller hands the outcomes of
//! those comparisons in as plain booleans, and everything the engine decides
//! from them is verified here.
//!
//! The classification chain and the safety verdict are deliberately separate
//! computations: under the Temp and Budget modes the verdict looks at a single
//! limit while the classification message can cite another category (or none),
//! so the two can disagree. That divergence is intended behavior.

use vstd::prelude::*;
use crate::mode::SimulationMode;

verus! {

/// The failure categories cited by classification messages, in the priority
/// order in which they are checked.
#[derive(Debug, Clone, Copy, PartialEq, Eq, Structural)]
pub enum FailureKind {
    /// The junction temperature exceeds the maximum junction temperature.
    Thermal,
    /// Total power exceeds the component's configured dissipation limit.
    PowerDissipation,
    /// Total power exceeds the effective cooling budget.
    CoolingBudget,
    /// The evaluated current exceeds the maximum current rating.
    Current,
}

/// Outcomes of the limit comparisons for one evaluated current level.
///
/// Each flag holds the result of a strict `>` comparison made by the caller:
/// achieved value against the corresponding limit. `over_power_limit` is false
/// whenever no dissipation limit is configured.
#[derive(Debug, Clone, Copy, PartialEq, Eq, Structural)]
pub struct LimitFlags {
    /// Junction temperature exceeds the maximum junction temperature.
    pub over_temp: bool,
    /// A dissipation limit is configured and total power exceeds it.
    pub over_power_limit: bool,
    /// Total power exceeds the effective cooling budget.
    pub over_budget: bool,
    /// The evaluated current exceeds the maximum current rating.
    pub over_current: bool,
}

/// The tail of the classification chain: the categories checked once neither
/// the thermal limit nor the dissipation limit is exceeded. The cooling-budget
/// check is skipped under the temperature-only mode.
pub open spec fn spec_other_limits(mode: SimulationMode, flags: LimitFlags) -> Option<
    FailureKind,
> {
    if !(mode == SimulationMode::Temp) && flags.over_budget {
        Some(FailureKind::CoolingBudget)
    } else if flags.over_current {
        Some(FailureKind::Current)
    } else {
        None
    }
}

/// The full classification chain in its fixed priority order: thermal, then
/// dissipation limit, then cooling budget (outside temperature-only mode),
/// then current rating; otherwise no failure category.
pub open spec fn spec_failure(mode: SimulationMode, flags: LimitFlags) -> Option<FailureKind> {
    if flags.over_temp {
        Some(FailureKind::Thermal)
    } else if flags.over_power_limit {
        Some(FailureKind::PowerDissipation)
    } else {
        spec_other_limits(mode, flags)
    }
}

/// The safety verdict for one point. `temp_within` and `budget_within` are the
/// caller's `<=` comparisons of temperature and total power against their
/// limits; `failure` is the category the classification chain produced.
pub open spec fn spec_verdict(
    mode: SimulationMode,
    temp_within: bool,
    budget_within: bool,
    failure: Option<FailureKind>,
) -> bool {
    match mode {
        SimulationMode::Temp => temp_within,
        SimulationMode::Budget => budget_within,
        SimulationMode::Ftf => failure is None,
    }
}

/// The categories checked after the thermal and dissipation limits both pass.
pub fn check_other_limits(mode: SimulationMode, flags: LimitFlags) -> (r: Option<FailureKind>)
    ensures
        r == spec_other_limits(mode, flags),
{
    if mode != SimulationMode::Temp && flags.over_budget {
        Some(FailureKind::CoolingBudget)
    } else if flags.over_current {
        Some(FailureKind::Current)
    } else {
        None
    }
}

/// Classify one evaluated point: the first exceeded limit in the fixed
/// priority order gives the failure category, independent of the mode except
/// for the cooling-budget guard.
pub fn determine_failure(mode: SimulationMode, flags: LimitFlags) -> (r: Option<FailureKind>)
    ensures
        r == spec_failure(mode, flags),
{
    if flags.over_temp {
        Some(FailureKind::Thermal)
    } else if flags.over_power_limit {
        Some(FailureKind::PowerDissipation)
    } else {
        check_other_limits(mode, flags)
    }
}

/// The mode-dependent safety verdict for one point: temperature within limit
/// (Temp), total power within budget (Budget), or no failure category (Ftf).
pub fn verdict(
    mode: SimulationMode,
    temp_within: bool,
    budget_within: bool,
    failure: Option<FailureKind>,
) -> (r: bool)
    ensures
        r == spec_verdict(mode, temp_within, budget_within, failure),
{
    match mode {
        SimulationMode::Temp => temp_within,
        SimulationMode::Budget => budget_within,
        SimulationMode::Ftf => failure.is_none(),
    }
}

impl FailureKind {
    /// The label under which this category is reported.
    pub fn label(&self) -> (s: &'static str)
        ensures
            (*self == FailureKind::Thermal ==> s@ == "Thermal"@),
            (*self == FailureKind::PowerDissipation ==> s@ == "Power Dissipation"@),
            (*self == FailureKind::CoolingBudget ==> s@ == "Cooling Budget"@),
            (*self == FailureKind::Current ==> s@ == "Current"@),
    {
        match self {
            FailureKind::Thermal => "Thermal",
            FailureKind::PowerDissipation => "Power Dissipation",
            FailureKind::CoolingBudget => "Cooling Budget",
            FailureKind::Current => "Current",
        }
    }
}

/// Under the temperature-only mode the classification chain never yields a
/// cooling-budget failure, however far the power drawn exceeds the budget.
pub proof fn lemma_temp_mode_never_cites_budget(flags: LimitFlags)
    ensures
        spec_failure(SimulationMode::Temp, flags) != Some(FailureKind::CoolingBudget),
{
}

} // verus!
