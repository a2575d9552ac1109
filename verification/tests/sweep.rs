use derating::sweep::LinearSweep;

#[test]
fn test_all_samples_safe() {
    let mut sweep = LinearSweep::new(3);
    let mut visited: Vec<u64> = Vec::new();
    while !sweep.finished() {
        visited.push(sweep.next_index());
        sweep.record(true);
    }
    assert_eq!(visited, vec![0, 1, 2, 3]);
    assert_eq!(sweep.recorded(), 4);
    assert_eq!(sweep.max_safe_index(), 3);
    assert!(!sweep.ended_unsafe());
}

#[test]
fn test_first_sample_unsafe() {
    let mut sweep = LinearSweep::new(5);
    assert!(!sweep.finished());
    assert_eq!(sweep.next_index(), 0);
    sweep.record(false);
    assert!(sweep.finished());
    assert!(sweep.ended_unsafe());
    assert_eq!(sweep.recorded(), 1);
    assert_eq!(sweep.max_safe_index(), 0);
}

#[test]
fn test_unsafe_sample_ends_sweep() {
    let mut sweep = LinearSweep::new(10);
    sweep.record(true);
    sweep.record(true);
    sweep.record(false);
    assert!(sweep.finished());
    assert!(sweep.ended_unsafe());
    // The unsafe sample is the last recorded one, and the maximum safe index
    // is the sample immediately before it.
    assert_eq!(sweep.recorded(), 3);
    assert_eq!(sweep.max_safe_index(), 1);
}

#[test]
fn test_single_interval_sweep() {
    let mut sweep = LinearSweep::new(1);
    sweep.record(true);
    assert!(!sweep.finished());
    sweep.record(true);
    assert!(sweep.finished());
    assert_eq!(sweep.max_safe_index(), 1);
    assert_eq!(sweep.recorded(), 2);
}

#[test]
fn test_zero_interval_sweep_evaluates_once() {
    let mut sweep = LinearSweep::new(0);
    assert!(!sweep.finished());
    sweep.record(true);
    assert!(sweep.finished());
    assert_eq!(sweep.recorded(), 1);
    assert_eq!(sweep.max_safe_index(), 0);
}
