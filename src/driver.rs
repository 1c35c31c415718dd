//! Decisions the harness takes around each measured test: the log context, the
//! child's exit status, and which expected output applies.
use vstd::prelude::*;
use crate::record::{affinity_text, cpu_list};
use crate::config::MeasureArgs;
use crate::scenario::{prefer, Scenario, Test};
use crate::schedule::MeasurementMode;
use crate::text::{i64_to_decimal, signed_decimal};

verus! {

/// The tag of a test's log lines:
/// `[language | scenario | test | mode | niceness@affinity]`, with `-` for an
/// unset niceness or affinity.
pub open spec fn spec_context(
    language: Seq<char>,
    scenario: Seq<char>,
    test: Seq<char>,
    mode: MeasurementMode,
    niceness: Option<i32>,
    affinity: Option<Seq<usize>>,
) -> Seq<char> {
    "["@ + language + " | "@ + scenario + " | "@ + test + " | "@ + mode.spec_name() + " | "@ + (
    match niceness {
        Some(n) => signed_decimal(n as int),
        None => "-"@,
    }) + "@"@ + (match affinity {
        Some(a) => cpu_list(a),
        None => "-"@,
    }) + "]"@
}

/// The tag of a test's log lines.
pub fn context(
    language: &str,
    scenario: &str,
    test: &str,
    mode: MeasurementMode,
    niceness: Option<i32>,
    affinity: &Option<Vec<usize>>,
) -> (r: String)
    ensures
        r@ == spec_context(
            language@,
            scenario@,
            test@,
            mode,
            niceness,
            match affinity {
                Some(a) => Some(a@),
                None => None,
            },
        ),
{
    let mut s = String::from_str("[");
    s.append(language);
    s.append(" | ");
    s.append(scenario);
    s.append(" | ");
    s.append(test);
    s.append(" | ");
    s.append(mode.name());
    s.append(" | ");
    match niceness {
        Some(n) => {
            let t = i64_to_decimal(n as i64);
            s.append(t.as_str());
        },
        None => s.append("-"),
    }
    s.append("@");
    match affinity {
        Some(a) => {
            let t = affinity_text(a);
            s.append(t.as_str());
        },
        None => s.append("-"),
    }
    s.append("]");
    s
}

/// Checks how the child exited: `Err` with its exit code (-1 when a signal ended
/// it) unless it succeeded.
pub fn check_exit(success: bool, code: Option<i32>) -> (r: Result<(), i32>)
    ensures
        success <==> r is Ok,
        !success ==> r == Err::<(), i32>(
            match code {
                Some(c) => c,
                None => -1i32,
            },
        ),
{
    if success {
        Ok(())
    } else {
        match code {
            Some(c) => Err(c),
            None => Err(-1),
        }
    }
}

/// The message of a child that exited with a failure.
pub fn exit_failure_message(code: i32) -> (r: String)
    ensures
        r@ == "Execution failed with exit code "@ + signed_decimal(code as int),
{
    let mut s = String::from_str("Execution failed with exit code ");
    let t = i64_to_decimal(code as i64);
    s.append(t.as_str());
    s
}

/// The expected stdout a test is checked against: the test's own when it has
/// one, else the scenario's, else none (nothing to check).
pub fn expected_output(test_expected: Option<Vec<u8>>, scenario_expected: Option<Vec<u8>>) -> (r:
    Option<Vec<u8>>)
    ensures
        r == (match test_expected {
            Some(t) => Some(t),
            None => scenario_expected,
        }),
{
    match test_expected {
        Some(t) => Some(t),
        None => scenario_expected,
    }
}

/// Where a child's stdin comes from.
#[derive(Clone, Copy, Debug, PartialEq, Eq, Structural)]
pub enum StdinSource {
    /// The test's own stdin file.
    Test,
    /// The scenario's stdin file.
    Scenario,
    /// Nothing: the child reads end of file.
    Empty,
}

/// The stdin of a child: the test's file when it exists, else the scenario's,
/// else nothing.
pub fn stdin_source(test_file_exists: bool, scenario_file_exists: bool) -> (r: StdinSource)
    ensures
        test_file_exists ==> r == StdinSource::Test,
        !test_file_exists && scenario_file_exists ==> r == StdinSource::Scenario,
        !test_file_exists && !scenario_file_exists ==> r == StdinSource::Empty,
{
    if test_file_exists {
        StdinSource::Test
    } else if scenario_file_exists {
        StdinSource::Scenario
    } else {
        StdinSource::Empty
    }
}

/// How one test is measured.
#[derive(Debug)]
pub struct Settings {
    pub mode: MeasurementMode,
    pub affinity: Option<Vec<usize>>,
    pub niceness: Option<i32>,
}

/// The view of an optional CPU set.
pub open spec fn cpus_view(a: Option<Vec<usize>>) -> Option<Seq<usize>> {
    match a {
        Some(v) => Some(v@),
        None => None,
    }
}

/// The settings of a test: each the test's own, else the scenario's, else (for
/// affinity and niceness) the command line's; the mode defaults to Process.
pub fn resolve_settings(scenario: &Scenario, test: &Test, args: &MeasureArgs) -> (r: Settings)
    ensures
        r.mode == scenario.spec_mode(test),
        r.niceness == prefer(prefer(test.niceness, scenario.niceness), args.niceness),
        cpus_view(r.affinity) == prefer(
            prefer(cpus_view(test.affinity), cpus_view(scenario.affinity)),
            cpus_view(args.affinity),
        ),
{
    let affinity = match scenario.affinity_for(test) {
        Some(a) => Some(a),
        None => match &args.affinity {
            Some(a) => Some(a.clone()),
            None => None,
        },
    };
    let niceness = match scenario.niceness_for(test) {
        Some(n) => Some(n),
        None => args.niceness,
    };
    Settings { mode: scenario.mode_for(test), affinity, niceness }
}

} // verus!
