//! How a finished server run is classified: by its exit status, then by
//! marker phrases in its log, scanned in a fixed order.

use vstd::prelude::*;

use crate::artifacts::opt_str_view;
use crate::text::{contains_text, occurs_in};

verus! {

/// The log phrase of a run in which required tests failed.
pub const REQUIRED_FAILED_MARKER: &'static str = "required tests failed";

/// The log phrase of a test that could not be loaded.
pub const LOAD_FAILURE_MARKER: &'static str = "Failed to load test";

/// The log phrase of a run that found no tests.
pub const NO_TESTS_MARKER: &'static str = "All 0 required tests";

/// How a run ended.
#[derive(Clone, Copy, Debug, PartialEq, Eq, Structural)]
pub enum RunOutcome {
    Success,
    NonZeroExit,
    RequiredTestsFailed,
    TestLoadFailure,
    NoTestsFound,
}

/// The outcome that a log reads as: the first marker, in scan order, that
/// occurs in it, or success when none does.
pub open spec fn log_outcome(log: Seq<char>) -> RunOutcome {
    if occurs_in(log, REQUIRED_FAILED_MARKER@) {
        RunOutcome::RequiredTestsFailed
    } else if occurs_in(log, LOAD_FAILURE_MARKER@) {
        RunOutcome::TestLoadFailure
    } else if occurs_in(log, NO_TESTS_MARKER@) {
        RunOutcome::NoTestsFound
    } else {
        RunOutcome::Success
    }
}

/// The outcome of a run that exited (successfully or not) and left `log`.
pub open spec fn run_outcome(exit_success: bool, log: Seq<char>) -> RunOutcome {
    if !exit_success {
        RunOutcome::NonZeroExit
    } else {
        log_outcome(log)
    }
}

/// The marker rules in the order they are scanned.
pub fn marker_rules() -> (r: Vec<(&'static str, RunOutcome)>)
    ensures
        r@.len() == 3,
        r@[0].0@ == REQUIRED_FAILED_MARKER@ && r@[0].1 == RunOutcome::RequiredTestsFailed,
        r@[1].0@ == LOAD_FAILURE_MARKER@ && r@[1].1 == RunOutcome::TestLoadFailure,
        r@[2].0@ == NO_TESTS_MARKER@ && r@[2].1 == RunOutcome::NoTestsFound,
{
    let mut r: Vec<(&'static str, RunOutcome)> = Vec::new();
    r.push((REQUIRED_FAILED_MARKER, RunOutcome::RequiredTestsFailed));
    r.push((LOAD_FAILURE_MARKER, RunOutcome::TestLoadFailure));
    r.push((NO_TESTS_MARKER, RunOutcome::NoTestsFound));
    r
}

/// Classifies a log: the first rule whose marker occurs in it wins.
pub fn classify_log(log: &str) -> (r: RunOutcome)
    ensures
        r == log_outcome(log@),
{
    let rules = marker_rules();
    let mut i: usize = 0;
    while i < rules.len()
        invariant
            rules@.len() == 3,
            rules@[0].0@ == REQUIRED_FAILED_MARKER@ && rules@[0].1
                == RunOutcome::RequiredTestsFailed,
            rules@[1].0@ == LOAD_FAILURE_MARKER@ && rules@[1].1 == RunOutcome::TestLoadFailure,
            rules@[2].0@ == NO_TESTS_MARKER@ && rules@[2].1 == RunOutcome::NoTestsFound,
            i <= 3,
            forall|k: int| 0 <= k < i ==> !occurs_in(log@, (#[trigger] rules@[k]).0@),
        decreases 3 - i,
    {
        let (marker, outcome) = rules[i];
        if contains_text(log, marker) {
            assert(i == 0 || !occurs_in(log@, rules@[0].0@));
            assert(i <= 1 || !occurs_in(log@, rules@[1].0@));
            return outcome;
        }
        i = i + 1;
    }
    assert(!occurs_in(log@, rules@[0].0@));
    assert(!occurs_in(log@, rules@[1].0@));
    assert(!occurs_in(log@, rules@[2].0@));
    RunOutcome::Success
}

/// The outcome of a run that exited with the given status and left `log`: a
/// failed exit settles it without the log.
pub fn evaluate(exit_success: bool, log: &str) -> (r: RunOutcome)
    ensures
        r == run_outcome(exit_success, log@),
{
    if !exit_success {
        RunOutcome::NonZeroExit
    } else {
        classify_log(log)
    }
}

/// Why the evaluation could not be finished.
#[derive(Clone, Copy, Debug, PartialEq, Eq, Structural)]
pub enum EvalError {
    /// The exit status of the server could not be obtained.
    ProcessWaitFailed,
    /// The server exited successfully but its log could not be read.
    LogUnreadable,
}

/// The step after the server process ended. `status` is its exit status,
/// `Some(true)` for success, or `None` where it could not be obtained.
/// `Ok(None)` means that the log must be read next.
pub fn after_exit(status: Option<bool>) -> (r: Result<Option<RunOutcome>, EvalError>)
    ensures
        status is None <==> r == Err::<Option<RunOutcome>, EvalError>(EvalError::ProcessWaitFailed),
        status == Some(false) <==> r == Ok::<Option<RunOutcome>, EvalError>(
            Some(RunOutcome::NonZeroExit),
        ),
        status == Some(true) <==> r == Ok::<Option<RunOutcome>, EvalError>(None),
{
    match status {
        None => Err(EvalError::ProcessWaitFailed),
        Some(false) => Ok(Some(RunOutcome::NonZeroExit)),
        Some(true) => Ok(None),
    }
}

/// The outcome once the log was read; `None` where it could not be.
pub fn after_log(log: Option<&str>) -> (r: Result<RunOutcome, EvalError>)
    ensures
        match log {
            Some(t) => r == Ok::<RunOutcome, EvalError>(log_outcome(t@)),
            None => r == Err::<RunOutcome, EvalError>(EvalError::LogUnreadable),
        },
{
    match log {
        Some(t) => Ok(classify_log(t)),
        None => Err(EvalError::LogUnreadable),
    }
}

/// The message that explains each failed outcome.
pub open spec fn fail_reason_spec(o: RunOutcome) -> Option<Seq<char>> {
    match o {
        RunOutcome::Success => None,
        RunOutcome::NonZeroExit => Some("Exit code was non-zero"@),
        RunOutcome::RequiredTestsFailed => Some("Required tests failed"@),
        RunOutcome::TestLoadFailure => Some("A test failed to load"@),
        RunOutcome::NoTestsFound => Some("No tests were found"@),
    }
}

impl RunOutcome {
    /// Whether the run counts as failed.
    pub fn is_failure(&self) -> (r: bool)
        ensures
            r == (*self != RunOutcome::Success),
    {
        !matches!(self, RunOutcome::Success)
    }

    /// Why the tests failed; `None` for a successful run.
    pub fn fail_reason(&self) -> (r: Option<&'static str>)
        ensures
            opt_str_view(r) == fail_reason_spec(*self),
    {
        match self {
            RunOutcome::Success => None,
            RunOutcome::NonZeroExit => Some("Exit code was non-zero"),
            RunOutcome::RequiredTestsFailed => Some("Required tests failed"),
            RunOutcome::TestLoadFailure => Some("A test failed to load"),
            RunOutcome::NoTestsFound => Some("No tests were found"),
        }
    }

    /// The process exit code that reports this outcome.
    pub fn exit_code(&self) -> (r: u8)
        ensures
            r == 0 <==> *self == RunOutcome::Success,
            r == 0 || r == 1,
    {
        if self.is_failure() {
            1
        } else {
            0
        }
    }
}

/// A failed exit is `NonZeroExit`, whatever the log says.
pub proof fn lemma_failed_exit_ignores_log(log: Seq<char>)
    ensures
        run_outcome(false, log) == RunOutcome::NonZeroExit,
{
}

/// The markers are tried in a fixed order and the first that occurs decides,
/// wherever in the log each one stands: "required tests failed" before
/// "Failed to load test" before "All 0 required tests".
pub proof fn lemma_marker_precedence(log: Seq<char>)
    ensures
        occurs_in(log, REQUIRED_FAILED_MARKER@) ==> log_outcome(log)
            == RunOutcome::RequiredTestsFailed,
        !occurs_in(log, REQUIRED_FAILED_MARKER@) && occurs_in(log, LOAD_FAILURE_MARKER@)
            ==> log_outcome(log) == RunOutcome::TestLoadFailure,
        !occurs_in(log, REQUIRED_FAILED_MARKER@) && !occurs_in(log, LOAD_FAILURE_MARKER@)
            && occurs_in(log, NO_TESTS_MARKER@) ==> log_outcome(log) == RunOutcome::NoTestsFound,
        log_outcome(log) == RunOutcome::Success <==> !occurs_in(log, REQUIRED_FAILED_MARKER@)
            && !occurs_in(log, LOAD_FAILURE_MARKER@) && !occurs_in(log, NO_TESTS_MARKER@),
{
}

} // verus!
