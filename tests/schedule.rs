use green_languages::schedule::{schedule, MeasurementMode, Step};

fn records(steps: &[Step]) -> Vec<usize> {
    steps
        .iter()
        .filter_map(|s| match s {
            Step::Record(i) => Some(*i),
            _ => None,
        })
        .collect()
}

fn count(steps: &[Step], x: Step) -> usize {
    steps.iter().filter(|s| **s == x).count()
}

#[test]
fn records_match_iterations_in_every_mode() {
    for mode in [MeasurementMode::Process, MeasurementMode::External, MeasurementMode::Internal] {
        for n in [0usize, 1, 3, 255] {
            let steps = schedule(mode, n);
            let expected: Vec<usize> = (1..=n).collect();
            assert_eq!(records(&steps), expected);
            assert_eq!(count(&steps, Step::ResetEnable), n);
            assert_eq!(count(&steps, Step::Disable), n);
        }
    }
}

#[test]
fn internal_mode_runs_one_child_and_n_cycles() {
    let steps = schedule(MeasurementMode::Internal, 3);
    assert_eq!(count(&steps, Step::Spawn), 1);
    assert_eq!(count(&steps, Step::WaitForStart), 3);
    assert_eq!(count(&steps, Step::SignalProceed), 3);
    assert_eq!(count(&steps, Step::WaitForEnd), 3);
    assert_eq!(steps[0], Step::SetIterations(3));
    assert_eq!(records(&steps), vec![1, 2, 3]);
    assert_eq!(steps[steps.len() - 3..], [Step::Cleanup, Step::WaitExit, Step::CheckExit]);
}

#[test]
fn external_and_process_modes_run_one_child_per_iteration() {
    let ext = schedule(MeasurementMode::External, 255);
    assert_eq!(count(&ext, Step::Spawn), 255);
    assert_eq!(count(&ext, Step::SetIterations(1)), 255);
    assert_eq!(count(&ext, Step::WaitForStart), 255);
    let proc_steps = schedule(MeasurementMode::Process, 255);
    assert_eq!(count(&proc_steps, Step::Spawn), 255);
    assert_eq!(count(&proc_steps, Step::WaitForStart), 0);
    assert_eq!(count(&proc_steps, Step::SignalProceed), 0);
}

#[test]
fn zero_iterations_produce_no_records() {
    assert!(schedule(MeasurementMode::Process, 0).is_empty());
    assert!(schedule(MeasurementMode::External, 0).is_empty());
    let internal = schedule(MeasurementMode::Internal, 0);
    assert!(records(&internal).is_empty());
    assert_eq!(count(&internal, Step::Spawn), 1);
}

#[test]
fn external_cycle_orders_the_window() {
    let steps = schedule(MeasurementMode::External, 1);
    assert_eq!(
        steps,
        vec![
            Step::SetIterations(1),
            Step::Spawn,
            Step::Configure,
            Step::WaitForStart,
            Step::ResetEnable,
            Step::SignalProceed,
            Step::WaitForEnd,
            Step::Disable,
            Step::Cleanup,
            Step::WaitExit,
            Step::CheckExit,
            Step::Record(1),
        ]
    );
}

#[test]
fn process_cycle_waits_for_exit_before_disable() {
    let steps = schedule(MeasurementMode::Process, 1);
    assert_eq!(
        steps,
        vec![
            Step::Spawn,
            Step::Configure,
            Step::ResetEnable,
            Step::WaitExit,
            Step::Disable,
            Step::CheckExit,
            Step::Record(1),
        ]
    );
}

#[test]
fn verify_iterations_by_mode() {
    assert_eq!(MeasurementMode::Internal.verify_iterations(3), 3);
    assert_eq!(MeasurementMode::External.verify_iterations(3), 1);
    assert_eq!(MeasurementMode::Process.verify_iterations(3), 1);
    assert_eq!(MeasurementMode::Internal.name(), "internal");
}
