use numerics_engine::double_exponential::{
    halts, level_numerators, level_pairs, ErrorModel, LevelProgress, LEVELS, MAX_EVALUATIONS, WARM_UP_LEVELS,
};
use numerics_engine::trapezium::{TrapeziumGrid, TrapeziumStep, MAX_SUBDIVISIONS, MIN_SUBDIVISIONS};

#[test]
fn trapezium_first_refinements() {
    let mut grid = TrapeziumGrid::new();
    assert_eq!(grid.subdivisions, 2);
    assert_eq!(grid.evaluations, 2);
    assert_eq!(grid.refine(), vec![1]);
    assert_eq!(grid.subdivisions, 4);
    assert_eq!(grid.evaluations, 3);
    assert_eq!(grid.refine(), vec![1, 3]);
    assert_eq!(grid.subdivisions, 8);
    assert_eq!(grid.evaluations, 5);
    assert_eq!(grid.refine(), vec![1, 3, 5, 7]);
    assert_eq!(grid.evaluations, 9);
}

#[test]
fn trapezium_needs_minimum_subdivisions() {
    let mut grid = TrapeziumGrid::new();
    // The estimate after a refinement is formed with half the new count.
    while grid.subdivisions / 2 < MIN_SUBDIVISIONS {
        assert_eq!(grid.step(true, true), TrapeziumStep::Refine);
        grid.refine();
    }
    assert_eq!(grid.subdivisions, 32);
    assert_eq!(grid.step(true, false), TrapeziumStep::Converged);
    assert_eq!(grid.step(false, true), TrapeziumStep::Converged);
    assert_eq!(grid.step(false, false), TrapeziumStep::Refine);
}

#[test]
fn trapezium_rejects_eight_panel_estimate() {
    let mut grid = TrapeziumGrid::new();
    grid.refine();
    grid.refine();
    grid.refine();
    assert_eq!(grid.subdivisions, 16);
    assert_eq!(grid.step(true, true), TrapeziumStep::Refine);
}

#[test]
fn trapezium_stops_at_cap() {
    let mut grid = TrapeziumGrid::new();
    let mut refinements = 0;
    while grid.step(false, false) == TrapeziumStep::Refine {
        grid.refine();
        refinements += 1;
    }
    assert_eq!(refinements, 15);
    assert_eq!(grid.subdivisions, MAX_SUBDIVISIONS);
    assert_eq!(grid.step(false, false), TrapeziumStep::Exhausted);
    assert_eq!(grid.evaluations, 32769);
    assert_eq!(grid.step(true, false), TrapeziumStep::Converged);
}

#[test]
fn level_progress_counts_evaluations() {
    let mut progress = LevelProgress::new();
    assert_eq!(progress.evaluations, 1);
    progress.record_level();
    assert_eq!(progress.evaluations, 7);
    progress.record_level();
    assert_eq!(progress.evaluations, 13);
    progress.record_level();
    assert_eq!(progress.evaluations, 25);
    assert_eq!(progress.levels, 3);
    assert!(!progress.exhausted());
}

#[test]
fn table_caps_evaluations() {
    let mut progress = LevelProgress::new();
    while !progress.exhausted() {
        progress.record_level();
    }
    assert_eq!(progress.levels, LEVELS);
    assert_eq!(progress.evaluations, MAX_EVALUATIONS);
    assert_eq!(MAX_EVALUATIONS, 385);
}

#[test]
fn level_layout() {
    assert_eq!(level_numerators(0), vec![1, 2, 3]);
    assert_eq!(level_numerators(1), vec![1, 3, 5]);
    assert_eq!(level_numerators(2), vec![1, 3, 5, 7, 9, 11]);
    let sizes: Vec<u32> = (0..LEVELS).map(level_pairs).collect();
    assert_eq!(sizes, vec![3, 3, 6, 12, 24, 48, 96]);
    let last = level_numerators(6);
    assert_eq!(last.len(), 96);
    assert_eq!(*last.last().unwrap(), 191);
}

#[test]
fn warm_up_levels_never_judge() {
    let mut progress = LevelProgress::new();
    for _ in 0..WARM_UP_LEVELS {
        progress.record_level();
        assert_eq!(progress.classify(true, true), ErrorModel::WarmUp);
        assert_eq!(progress.classify(false, false), ErrorModel::WarmUp);
    }
    progress.record_level();
    assert_eq!(progress.classify(true, true), ErrorModel::Exact);
    assert_eq!(progress.classify(false, true), ErrorModel::Quadratic);
    assert_eq!(progress.classify(false, false), ErrorModel::Linear);
}

#[test]
fn halting_rules() {
    assert!(!halts(ErrorModel::WarmUp, true));
    assert!(halts(ErrorModel::Exact, false));
    assert!(halts(ErrorModel::Quadratic, true));
    assert!(!halts(ErrorModel::Quadratic, false));
    assert!(halts(ErrorModel::Linear, true));
    assert!(!halts(ErrorModel::Linear, false));
}
