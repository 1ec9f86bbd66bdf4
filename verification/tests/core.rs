use heat1d::enforce_boundary;
use heat1d::force_identity_boundary_rows;
use heat1d::identity_row;
use heat1d::iterate_to_max_time;
use heat1d::validate_config;
use heat1d::validate_resolution;
use heat1d::ConfigError;
use heat1d::HeatCore;
use heat1d::ProgressSink;
use heat1d::Scheme;
use heat1d::Update;

struct ToySim {
    steps: u64,
}

impl Update for ToySim {
    fn update(&mut self) {
        self.steps += 1;
    }

    fn get_time(&self) -> u64 {
        self.steps * 10
    }
}

struct CountingSink {
    reports: Vec<u64>,
}

impl ProgressSink for CountingSink {
    fn report(&mut self, time: u64) {
        self.reports.push(time);
    }
}

#[test]
fn scheme_parse_accepts_the_two_labels() {
    assert_eq!(validate_config(80, "Explicit"), Ok(Scheme::Explicit));
    assert_eq!(validate_config(80, "Implicit"), Ok(Scheme::Implicit));
}

#[test]
fn construction_fails_for_resolution_two() {
    assert_eq!(validate_config(2, "Explicit"), Err(ConfigError::ResolutionTooSmall));
    assert_eq!(validate_config(2, "Implicit"), Err(ConfigError::ResolutionTooSmall));
    assert_eq!(validate_resolution(2), Err(ConfigError::ResolutionTooSmall));
    assert!(HeatCore::new(2, 0).is_err());
}

#[test]
fn construction_fails_for_unknown_scheme() {
    assert_eq!(validate_config(80, "CrankNicolson"), Err(ConfigError::UnknownScheme));
    assert_eq!(validate_config(80, "explicit"), Err(ConfigError::UnknownScheme));
    assert_eq!(validate_config(80, ""), Err(ConfigError::UnknownScheme));
    // the label is checked before the resolution
    assert_eq!(validate_config(2, "CrankNicolson"), Err(ConfigError::UnknownScheme));
}

#[test]
fn safety_factor_per_scheme() {
    assert_eq!(Scheme::Explicit.safety_tenths(), 4);
    assert_eq!(Scheme::Implicit.safety_tenths(), 200);
}

#[test]
fn new_core_is_all_boundary_with_zero_steps() {
    let core = HeatCore::new(5, 0).unwrap();
    assert_eq!(core.step_count(), 0);
    assert_eq!(core.resolution(), 5);
    assert_eq!(core.boundary_code(), 0);
    assert_eq!(core.solution().clone(), vec![0u64; 5]);
}

#[test]
fn set_initial_installs_the_given_solution() {
    let mut core = HeatCore::new(5, 0).unwrap();
    core.set_initial(vec![1, 2, 3, 4, 5]);
    assert_eq!(core.step_count(), 0);
    assert_eq!(core.solution().clone(), vec![1, 2, 3, 4, 5]);
}

#[test]
fn apply_step_forces_boundary_and_counts() {
    let mut core = HeatCore::new(5, 0).unwrap();
    core.apply_step(vec![10, 11, 12, 13, 14]);
    assert_eq!(core.solution().clone(), vec![0, 11, 12, 13, 0]);
    assert_eq!(core.step_count(), 1);
    core.apply_step(vec![20, 21, 22, 23, 24]);
    assert_eq!(core.solution().clone(), vec![0, 21, 22, 23, 0]);
    assert_eq!(core.step_count(), 2);
}

#[test]
fn enforce_boundary_touches_only_endpoints() {
    let mut u: Vec<u64> = vec![5, 6, 7];
    enforce_boundary(&mut u, 9);
    assert_eq!(u, vec![9, 6, 9]);
}

#[test]
fn identity_row_has_one_at_its_index() {
    assert_eq!(identity_row(4, 0, 0, 1), vec![1, 0, 0, 0]);
    assert_eq!(identity_row(4, 2, 50, 60), vec![50, 50, 60, 50]);
}

#[test]
fn identity_rows_replace_first_and_last() {
    let mut a: Vec<Vec<u64>> = vec![vec![2, 2, 2], vec![3, 3, 3], vec![4, 4, 4]];
    force_identity_boundary_rows(&mut a, 0, 1);
    assert_eq!(a, vec![vec![1, 0, 0], vec![3, 3, 3], vec![0, 0, 1]]);
}

#[test]
fn loop_always_overshoots_once() {
    let mut sim = ToySim { steps: 0 };
    let mut sink = CountingSink { reports: Vec::new() };
    iterate_to_max_time(&mut sim, &mut sink, 35);
    assert_eq!(sim.steps, 4);
    assert_eq!(sink.reports, vec![10, 20, 30, 40]);
}

#[test]
fn run_until_again_steps_at_least_once() {
    let mut sim = ToySim { steps: 0 };
    let mut sink = CountingSink { reports: Vec::new() };
    iterate_to_max_time(&mut sim, &mut sink, 35);
    let after_first = sim.steps;
    // the bound is already exceeded; the loop still takes one more step
    iterate_to_max_time(&mut sim, &mut sink, 35);
    assert!(sim.steps >= after_first + 1);
    assert_eq!(sim.steps, after_first + 1);
}

#[test]
fn grid_check_accepts_only_increasing_codes() {
    assert!(heat1d::grid_is_strictly_increasing(&vec![1, 2, 5]));
    assert!(!heat1d::grid_is_strictly_increasing(&vec![1, 5, 5]));
    assert!(!heat1d::grid_is_strictly_increasing(&vec![3, 2, 1]));
    assert!(heat1d::grid_is_strictly_increasing(&Vec::new()));
}
