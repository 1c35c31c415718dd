use green_languages::config::MeasureArgs;
use green_languages::driver::{
    check_exit, context, exit_failure_message, expected_output, resolve_settings, stdin_source, StdinSource,
};
use green_languages::language::Language;
use green_languages::scenario::{Scenario, Test};
use green_languages::metric::Metric;
use green_languages::record::{affinity_text, Measurement};
use green_languages::schedule::MeasurementMode;
use green_languages::table::{cell, header, needs_header};
use green_languages::text::{i64_to_decimal, str_eq, u64_to_decimal};

#[test]
fn decimal_text() {
    assert_eq!(u64_to_decimal(0), "0");
    assert_eq!(u64_to_decimal(1234567890), "1234567890");
    assert_eq!(u64_to_decimal(u64::MAX), "18446744073709551615");
    assert_eq!(i64_to_decimal(-42), "-42");
    assert_eq!(i64_to_decimal(i64::MIN), "-9223372036854775808");
    assert!(str_eq("abc", "abc"));
    assert!(!str_eq("abc", "abd"));
}

#[test]
fn energy_cells_are_joules_with_three_decimals() {
    assert_eq!(cell(Metric::Pkg, Some(12345)), "12.345");
    assert_eq!(cell(Metric::Ram, Some(7)), "0.007");
    assert_eq!(cell(Metric::Cycles, Some(12345)), "12345");
    assert_eq!(cell(Metric::Time, None), "");
}

#[test]
fn record_row_matches_header() {
    let mut m = Measurement::new(
        "c",
        "fib",
        "2",
        MeasurementMode::Internal,
        3,
        &Some(vec![0, 2]),
        Some(-5),
        1_700_000_000_000_000,
    );
    m.set(Metric::Time, Some(50_123));
    m.set(Metric::Pkg, Some(2_500));
    let h = header();
    let row = m.row();
    assert_eq!(h.len(), 28);
    assert_eq!(row.len(), h.len());
    assert_eq!(h[0], "language");
    assert_eq!(h[27], "ended_us_epoch");
    assert_eq!(&row[..9], &["c", "fib", "2", "0,2", "-5", "internal", "3", "50123", "2.500"]);
    assert_eq!(row[9], "");
    assert_eq!(row[27], "1700000000000000");
}

#[test]
fn header_only_for_a_new_file() {
    assert!(needs_header(false));
    assert!(!needs_header(true));
}

#[test]
fn affinity_text_joins_with_commas() {
    assert_eq!(affinity_text(&vec![]), "");
    assert_eq!(affinity_text(&vec![3]), "3");
    assert_eq!(affinity_text(&vec![0, 1, 10]), "0,1,10");
}

#[test]
fn failed_child_gives_its_exit_code() {
    assert_eq!(check_exit(false, Some(7)), Err(7));
    assert_eq!(check_exit(false, None), Err(-1));
    assert_eq!(check_exit(true, Some(0)), Ok(()));
    assert_eq!(exit_failure_message(7), "Execution failed with exit code 7");
}

#[test]
fn log_context_tag() {
    assert_eq!(
        context("c", "fib", "1", MeasurementMode::External, Some(10), &Some(vec![0, 1])),
        "[c | fib | 1 | external | 10@0,1]"
    );
    assert_eq!(context("rust", "x", "t", MeasurementMode::Process, None, &None), "[rust | x | t | process | -@-]");
}

#[test]
fn test_expected_output_wins() {
    assert_eq!(expected_output(Some(vec![1]), Some(vec![2])), Some(vec![1]));
    assert_eq!(expected_output(None, Some(vec![2])), Some(vec![2]));
    assert_eq!(expected_output(None, None), None);
}

#[test]
fn stdin_prefers_the_test_file() {
    assert_eq!(stdin_source(true, true), StdinSource::Test);
    assert_eq!(stdin_source(false, true), StdinSource::Scenario);
    assert_eq!(stdin_source(false, false), StdinSource::Empty);
}

#[test]
fn settings_fall_back_to_the_command_line() {
    let scenario = Scenario {
        name: "s".to_string(),
        language: Language::C,
        description: None,
        code: None,
        framework: None,
        compile_options: None,
        runtime_options: None,
        arguments: None,
        dependencies: None,
        packages: None,
        stdin: None,
        expected_stdout: None,
        measurement_mode: Some(MeasurementMode::External),
        affinity: None,
        niceness: Some(3),
    };
    let args = MeasureArgs {
        iterations: 1,
        sleep: 0,
        scenarios: vec![],
        rapl: false,
        cycles: false,
        misses: false,
        cstates: false,
        time: true,
        affinity: Some(vec![0]),
        niceness: Some(9),
        output: None,
    };
    let s = resolve_settings(&scenario, &Test::new(), &args);
    assert_eq!(s.mode, MeasurementMode::External);
    assert_eq!(s.niceness, Some(3));
    assert_eq!(s.affinity, Some(vec![0]));
}

#[test]
fn stamped_records_carry_the_current_time() {
    let m = Measurement::stamped("c", "s", "1", MeasurementMode::Process, 1, &None, None);
    assert!(m.ended > 1_600_000_000_000_000);
    assert_eq!(m.iteration, 1);
    assert_eq!(m.time, None);
}
