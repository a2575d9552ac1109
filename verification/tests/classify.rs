use derating::classify::{check_other_limits, determine_failure, verdict, FailureKind, LimitFlags};
use derating::mode::SimulationMode;

fn flags(over_temp: bool, over_power_limit: bool, over_budget: bool, over_current: bool) -> LimitFlags {
    LimitFlags { over_temp, over_power_limit, over_budget, over_current }
}

#[test]
fn test_no_limit_exceeded_no_failure() {
    assert_eq!(determine_failure(SimulationMode::Ftf, flags(false, false, false, false)), None);
}

#[test]
fn test_thermal_failure() {
    let r = determine_failure(SimulationMode::Ftf, flags(true, false, false, false));
    assert_eq!(r, Some(FailureKind::Thermal));
}

#[test]
fn test_power_dissipation_failure() {
    let r = determine_failure(SimulationMode::Ftf, flags(false, true, false, false));
    assert_eq!(r, Some(FailureKind::PowerDissipation));
}

#[test]
fn test_cooling_budget_failure() {
    let r = determine_failure(SimulationMode::Ftf, flags(false, false, true, false));
    assert_eq!(r, Some(FailureKind::CoolingBudget));
}

#[test]
fn test_current_failure() {
    let r = determine_failure(SimulationMode::Ftf, flags(false, false, false, true));
    assert_eq!(r, Some(FailureKind::Current));
}

#[test]
fn test_thermal_takes_priority() {
    // Every limit exceeded at once: the thermal category is cited.
    let r = determine_failure(SimulationMode::Ftf, flags(true, true, true, true));
    assert_eq!(r, Some(FailureKind::Thermal));
}

#[test]
fn test_dissipation_beats_budget_and_current() {
    let r = determine_failure(SimulationMode::Ftf, flags(false, true, true, true));
    assert_eq!(r, Some(FailureKind::PowerDissipation));
}

#[test]
fn test_budget_beats_current() {
    let r = determine_failure(SimulationMode::Ftf, flags(false, false, true, true));
    assert_eq!(r, Some(FailureKind::CoolingBudget));
}

#[test]
fn test_temp_mode_never_cites_budget() {
    // Under the temperature-only mode a budget overshoot alone yields no category...
    assert_eq!(determine_failure(SimulationMode::Temp, flags(false, false, true, false)), None);
    // ...and with an overcurrent beside it, the current category is cited instead.
    let r = determine_failure(SimulationMode::Temp, flags(false, false, true, true));
    assert_eq!(r, Some(FailureKind::Current));
}

#[test]
fn test_budget_mode_cites_budget() {
    let r = determine_failure(SimulationMode::Budget, flags(false, false, true, false));
    assert_eq!(r, Some(FailureKind::CoolingBudget));
}

#[test]
fn test_check_other_limits_tail() {
    assert_eq!(
        check_other_limits(SimulationMode::Ftf, flags(false, false, true, false)),
        Some(FailureKind::CoolingBudget)
    );
    assert_eq!(check_other_limits(SimulationMode::Temp, flags(false, false, true, false)), None);
    assert_eq!(
        check_other_limits(SimulationMode::Budget, flags(false, false, false, true)),
        Some(FailureKind::Current)
    );
    assert_eq!(check_other_limits(SimulationMode::Ftf, flags(false, false, false, false)), None);
}

#[test]
fn test_verdict_temp_mode_tracks_temperature_alone() {
    // A failure category from another limit does not flip the verdict.
    assert!(verdict(SimulationMode::Temp, true, false, Some(FailureKind::Current)));
    assert!(!verdict(SimulationMode::Temp, false, true, None));
}

#[test]
fn test_verdict_budget_mode_tracks_budget_alone() {
    assert!(verdict(SimulationMode::Budget, false, true, Some(FailureKind::Thermal)));
    assert!(!verdict(SimulationMode::Budget, true, false, None));
}

#[test]
fn test_verdict_ftf_tracks_classification() {
    assert!(verdict(SimulationMode::Ftf, false, false, None));
    assert!(!verdict(SimulationMode::Ftf, true, true, Some(FailureKind::CoolingBudget)));
}

#[test]
fn test_failure_labels() {
    assert_eq!(FailureKind::Thermal.label(), "Thermal");
    assert_eq!(FailureKind::PowerDissipation.label(), "Power Dissipation");
    assert_eq!(FailureKind::CoolingBudget.label(), "Cooling Budget");
    assert_eq!(FailureKind::Current.label(), "Current");
}
