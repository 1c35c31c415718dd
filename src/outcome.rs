//! The outcome of building, running or checking a test, and the comparison of a
//! child's stdout with the expected stdout.
use vstd::prelude::*;
use crate::text::{decimal, push_decimal};

verus! {

/// The outcome of a build, a run or a check, with what it printed.
#[derive(Debug)]
pub enum ScenarioResult {
    Success { out: String, err: String },
    Failed { exit_code: i32, out: String, err: String },
}

impl ScenarioResult {
    /// Success with no output.
    pub fn success() -> (r: ScenarioResult)
        ensures
            r matches ScenarioResult::Success { out, err } && out@.len() == 0 && err@.len() == 0,
    {
        ScenarioResult::Success { out: String::new(), err: String::new() }
    }

    /// Success with the given output.
    pub fn success_with(out: String, err: String) -> (r: ScenarioResult)
        ensures
            r matches ScenarioResult::Success { out: o, err: e } && o@ == out@ && e@ == err@,
    {
        ScenarioResult::Success { out, err }
    }

    /// Failure with an exit code and no output.
    pub fn failed(exit_code: i32) -> (r: ScenarioResult)
        ensures
            r matches ScenarioResult::Failed { exit_code: c, out, err } && c == exit_code
                && out@.len() == 0 && err@.len() == 0,
    {
        ScenarioResult::Failed { exit_code, out: String::new(), err: String::new() }
    }

    /// Failure with an exit code and the given output.
    pub fn failed_with(exit_code: i32, out: String, err: String) -> (r: ScenarioResult)
        ensures
            r matches ScenarioResult::Failed { exit_code: c, out: o, err: e } && c == exit_code
                && o@ == out@ && e@ == err@,
    {
        ScenarioResult::Failed { exit_code, out, err }
    }

    /// Whether this is a success.
    pub fn is_success(&self) -> (r: bool)
        ensures
            r == (self is Success),
    {
        match self {
            ScenarioResult::Success { .. } => true,
            ScenarioResult::Failed { .. } => false,
        }
    }
}

/// What the comparison of stdout with the expected stdout found.
#[derive(Clone, Copy, Debug, PartialEq, Eq, Structural)]
pub enum VerifyOutcome {
    /// Every iteration printed exactly the expected bytes, and nothing followed.
    Success,
    /// This (1-based) iteration printed other bytes than expected.
    Unequal(usize),
    /// The output ended inside this (1-based) iteration.
    TooShort(usize),
    /// Every iteration matched, but more bytes followed.
    MoreOutput,
}

/// The comparison from iteration `i` (0-based) on: each of the `n` iterations
/// must have printed `exp`, back to back, and nothing may follow.
pub open spec fn check_from(exp: Seq<u8>, act: Seq<u8>, i: nat, n: nat) -> VerifyOutcome
    decreases n - i,
{
    if i >= n {
        if act.len() > n * exp.len() {
            VerifyOutcome::MoreOutput
        } else {
            VerifyOutcome::Success
        }
    } else if act.len() < (i + 1) * exp.len() {
        VerifyOutcome::TooShort((i + 1) as usize)
    } else if act.subrange((i * exp.len()) as int, ((i + 1) * exp.len()) as int) != exp {
        VerifyOutcome::Unequal((i + 1) as usize)
    } else {
        check_from(exp, act, i + 1, n)
    }
}

/// The comparison of `act` with `n` copies of `exp`; no expected output means
/// nothing to check.
pub open spec fn spec_verify_stdout(exp: Option<Seq<u8>>, act: Seq<u8>, n: nat) -> VerifyOutcome {
    match exp {
        None => VerifyOutcome::Success,
        Some(e) => check_from(e, act, 0, n),
    }
}

/// The view of optional bytes.
pub open spec fn bytes_view(o: Option<Vec<u8>>) -> Option<Seq<u8>> {
    match o {
        Some(v) => Some(v@),
        None => None,
    }
}

/// Compares the stdout `actual` of the child with `iterations` back-to-back
/// copies of `expected`. Without an expected output the check succeeds.
pub fn verify_stdout(expected: &Option<Vec<u8>>, actual: &Vec<u8>, iterations: usize) -> (r:
    VerifyOutcome)
    ensures
        r == spec_verify_stdout(bytes_view(*expected), actual@, iterations as nat),
{
    let exp = match expected {
        None => return VerifyOutcome::Success,
        Some(e) => e,
    };
    assert(spec_verify_stdout(bytes_view(*expected), actual@, iterations as nat) == check_from(
        exp@,
        actual@,
        0,
        iterations as nat,
    ));
    let len = exp.len();
    let mut i: usize = 0;
    let mut pos: usize = 0;
    while i < iterations
        invariant
            i <= iterations,
            len == exp.len(),
            pos == i * len,
            pos <= actual.len(),
            check_from(exp@, actual@, 0, iterations as nat) == check_from(
                exp@,
                actual@,
                i as nat,
                iterations as nat,
            ),
            spec_verify_stdout(bytes_view(*expected), actual@, iterations as nat) == check_from(
                exp@,
                actual@,
                0,
                iterations as nat,
            ),
        decreases iterations - i,
    {
        proof {
            assert((i + 1) * len == i * len + len) by (nonlinear_arith);
        }
        if actual.len() - pos < len {
            assert(actual@.len() < (i + 1) * exp@.len());
            assert(check_from(exp@, actual@, i as nat, iterations as nat) == VerifyOutcome::TooShort(
                (i + 1) as usize,
            ));
            return VerifyOutcome::TooShort(i + 1);
        }
        let mut j: usize = 0;
        while j < len
            invariant
                i < iterations,
                pos == i * len,
                (i + 1) * len == pos + len,
                check_from(exp@, actual@, 0, iterations as nat) == check_from(
                    exp@,
                    actual@,
                    i as nat,
                    iterations as nat,
                ),
                spec_verify_stdout(bytes_view(*expected), actual@, iterations as nat)
                    == check_from(exp@, actual@, 0, iterations as nat),
                j <= len,
                len == exp.len(),
                pos + len <= actual.len(),
                forall|k: int| 0 <= k < j ==> actual@[pos + k] == exp@[k],
            decreases len - j,
        {
            if actual[pos + j] != exp[j] {
                assert(actual@.subrange(pos as int, pos + len)[j as int] != exp@[j as int]);
                assert(actual@.subrange(pos as int, pos + len) != exp@);
                assert(check_from(exp@, actual@, i as nat, iterations as nat) == VerifyOutcome::Unequal(
                    (i + 1) as usize,
                ));
                return VerifyOutcome::Unequal(i + 1);
            }
            j = j + 1;
        }
        assert(actual@.subrange(pos as int, pos + len) =~= exp@);
        pos = pos + len;
        i = i + 1;
    }
    if actual.len() > pos {
        VerifyOutcome::MoreOutput
    } else {
        VerifyOutcome::Success
    }
}

/// The diagnostic of a failed iteration.
pub open spec fn iteration_message(test: Seq<char>, i: nat, what: Seq<char>) -> Seq<char> {
    "test '"@ + test + "' got unexpected stdout for iteration "@ + decimal(i) + ": "@ + what
}

impl VerifyOutcome {
    /// The outcome as the result of checking the test named `test`: a failure
    /// with exit code 1 and a diagnostic unless every iteration matched.
    pub fn into_result(self, test: &str) -> (r: ScenarioResult)
        ensures
            self is Success ==> (r matches ScenarioResult::Success { out, err } && out@.len() == 0
                && err@.len() == 0),
            self is MoreOutput ==> (r matches ScenarioResult::Failed { exit_code, out, err }
                && exit_code == 1 && out@ == "test has more output than expected"@ && err@.len()
                == 0),
            self matches VerifyOutcome::TooShort(i) ==> (r matches ScenarioResult::Failed {
                exit_code,
                out,
                err,
            } && exit_code == 1 && out@.len() == 0 && err@ == iteration_message(
                test@,
                i as nat,
                "output too short"@,
            )),
            self matches VerifyOutcome::Unequal(i) ==> (r matches ScenarioResult::Failed {
                exit_code,
                out,
                err,
            } && exit_code == 1 && out@.len() == 0 && err@ == iteration_message(
                test@,
                i as nat,
                "content unequal"@,
            )),
    {
        match self {
            VerifyOutcome::Success => ScenarioResult::success(),
            VerifyOutcome::MoreOutput => ScenarioResult::failed_with(
                1,
                String::from_str("test has more output than expected"),
                String::new(),
            ),
            VerifyOutcome::TooShort(i) => ScenarioResult::failed_with(
                1,
                String::new(),
                iteration_failure(test, i, "output too short"),
            ),
            VerifyOutcome::Unequal(i) => ScenarioResult::failed_with(
                1,
                String::new(),
                iteration_failure(test, i, "content unequal"),
            ),
        }
    }
}

fn iteration_failure(test: &str, i: usize, what: &str) -> (r: String)
    ensures
        r@ == iteration_message(test@, i as nat, what@),
{
    let mut s = String::from_str("test '");
    s.append(test);
    s.append("' got unexpected stdout for iteration ");
    push_decimal(&mut s, i as u64);
    s.append(": ");
    s.append(what);
    s
}

} // verus!
