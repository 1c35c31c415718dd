use green_languages::outcome::{verify_stdout, ScenarioResult, VerifyOutcome};

#[test]
fn absent_expected_output_is_success() {
    assert_eq!(verify_stdout(&None, &b"anything".to_vec(), 3), VerifyOutcome::Success);
}

#[test]
fn three_hellos_verify_in_internal_mode() {
    let expected = Some(b"hello\n".to_vec());
    let actual = b"hello\nhello\nhello\n".to_vec();
    assert_eq!(verify_stdout(&expected, &actual, 3), VerifyOutcome::Success);
    assert!(VerifyOutcome::Success.into_result("t").is_success());
}

#[test]
fn extra_output_is_reported() {
    let expected = Some(b"hello\n".to_vec());
    let actual = b"hello\nhello\n".to_vec();
    let outcome = verify_stdout(&expected, &actual, 1);
    assert_eq!(outcome, VerifyOutcome::MoreOutput);
    match outcome.into_result("t") {
        ScenarioResult::Failed { exit_code, out, err } => {
            assert_eq!(exit_code, 1);
            assert_eq!(out, "test has more output than expected");
            assert_eq!(err, "");
        }
        _ => panic!("expected a failure"),
    }
}

#[test]
fn short_output_names_the_iteration() {
    let expected = Some(b"hello\n".to_vec());
    let actual = b"hello\nhel".to_vec();
    let outcome = verify_stdout(&expected, &actual, 3);
    assert_eq!(outcome, VerifyOutcome::TooShort(2));
    match outcome.into_result("demo") {
        ScenarioResult::Failed { exit_code, err, .. } => {
            assert_eq!(exit_code, 1);
            assert_eq!(err, "test 'demo' got unexpected stdout for iteration 2: output too short");
        }
        _ => panic!("expected a failure"),
    }
}

#[test]
fn unequal_output_names_the_iteration() {
    let expected = Some(b"ab".to_vec());
    let actual = b"abaxab".to_vec();
    let outcome = verify_stdout(&expected, &actual, 3);
    assert_eq!(outcome, VerifyOutcome::Unequal(2));
    match outcome.into_result("7") {
        ScenarioResult::Failed { err, .. } => {
            assert_eq!(err, "test '7' got unexpected stdout for iteration 2: content unequal");
        }
        _ => panic!("expected a failure"),
    }
}

#[test]
fn empty_expected_output_accepts_only_empty_stdout() {
    let expected = Some(Vec::new());
    assert_eq!(verify_stdout(&expected, &Vec::new(), 5), VerifyOutcome::Success);
    assert_eq!(verify_stdout(&expected, &b"x".to_vec(), 5), VerifyOutcome::MoreOutput);
}

#[test]
fn zero_iterations_expect_no_output() {
    let expected = Some(b"hi".to_vec());
    assert_eq!(verify_stdout(&expected, &Vec::new(), 0), VerifyOutcome::Success);
}

#[test]
fn scenario_result_constructors() {
    match ScenarioResult::failed(3) {
        ScenarioResult::Failed { exit_code, out, err } => {
            assert_eq!(exit_code, 3);
            assert!(out.is_empty() && err.is_empty());
        }
        _ => panic!("expected a failure"),
    }
    match ScenarioResult::success_with("o".to_string(), "e".to_string()) {
        ScenarioResult::Success { out, err } => assert_eq!((out.as_str(), err.as_str()), ("o", "e")),
        _ => panic!("expected a success"),
    }
    match ScenarioResult::failed_with(2, "o".to_string(), "e".to_string()) {
        ScenarioResult::Failed { exit_code, out, err } => {
            assert_eq!((exit_code, out.as_str(), err.as_str()), (2, "o", "e"))
        }
        _ => panic!("expected a failure"),
    }
    assert!(ScenarioResult::success().is_success());
}
