//! Per-case outcomes, aggregate statistics, and the sequential execution
//! loop with its stop-on-failure policy.

use vstd::prelude::*;

use crate::test_execution_environment::{TestExecutionEnvironment, TestExecutionEnvironmentView};
use crate::test_suite::{
    spec_eval_case, spec_observation_fits, CaseObservation, DefaultsView, PathEntryKind,
    PathTargetType, TestCase, TestCaseView, TestsDefinition, TestsDefinitionView,
};

verus! {

/// One way in which an observed command or path differed from what the
/// case asked for. Carried by a failing outcome so reporting can show the
/// expected and actual values per dimension.
#[derive(Debug, PartialEq, Eq)]
pub enum Mismatch {
    WrongExitCode { expected: i32, actual: i32 },
    WrongStdout { expected: String, actual: String },
    WrongStderr { expected: String, actual: String },
    MissingPath { path: String },
    WrongPathType { path: String, expected: PathTargetType, actual: PathEntryKind },
}

/// Mathematical model of a [`Mismatch`].
#[verifier::ext_equal]
pub enum MismatchView {
    WrongExitCode { expected: int, actual: int },
    WrongStdout { expected: Seq<char>, actual: Seq<char> },
    WrongStderr { expected: Seq<char>, actual: Seq<char> },
    MissingPath { path: Seq<char> },
    WrongPathType { path: Seq<char>, expected: PathTargetType, actual: PathEntryKind },
}

impl View for Mismatch {
    type V = MismatchView;

    open spec fn view(&self) -> MismatchView {
        match self {
            Mismatch::WrongExitCode { expected, actual } => MismatchView::WrongExitCode {
                expected: *expected as int,
                actual: *actual as int,
            },
            Mismatch::WrongStdout { expected, actual } => MismatchView::WrongStdout {
                expected: expected@,
                actual: actual@,
            },
            Mismatch::WrongStderr { expected, actual } => MismatchView::WrongStderr {
                expected: expected@,
                actual: actual@,
            },
            Mismatch::MissingPath { path } => MismatchView::MissingPath { path: path@ },
            Mismatch::WrongPathType { path, expected, actual } => MismatchView::WrongPathType {
                path: path@,
                expected: *expected,
                actual: *actual,
            },
        }
    }
}

impl DeepView for Mismatch {
    type V = MismatchView;

    open spec fn deep_view(&self) -> MismatchView {
        self@
    }
}

/// The outcome of one case. A failure carries the recorded mismatches; an
/// execution error means the case's underlying action could not complete
/// (the command could not be spawned, or its exit status could not be
/// obtained), which is kept distinct from an expectation mismatch.
#[derive(Debug, PartialEq, Eq)]
pub enum TestResult {
    Success,
    Failure(Vec<Mismatch>),
    ExecutionError(String),
}

/// Mathematical model of a [`TestResult`].
#[verifier::ext_equal]
pub enum TestResultView {
    Success,
    Failure(Seq<MismatchView>),
    ExecutionError(Seq<char>),
}

impl View for TestResult {
    type V = TestResultView;

    open spec fn view(&self) -> TestResultView {
        match self {
            TestResult::Success => TestResultView::Success,
            TestResult::Failure(mismatches) => TestResultView::Failure(mismatches.deep_view()),
            TestResult::ExecutionError(cause) => TestResultView::ExecutionError(cause@),
        }
    }
}

impl DeepView for TestResult {
    type V = TestResultView;

    open spec fn deep_view(&self) -> TestResultView {
        self@
    }
}

/// Counters for one run: how many cases ran, how many passed, how many
/// failed. Owned and mutated exclusively by the execution loop.
#[derive(Debug, PartialEq, Eq, Structural, Clone, Copy)]
pub struct TestExecutionStats {
    pub total_tests: usize,
    pub total_success: usize,
    pub total_failures: usize,
}

impl TestExecutionStats {
    /// Fresh counters: nothing has run yet.
    pub fn new() -> (r: TestExecutionStats)
        ensures
            r.total_tests == 0,
            r.total_success == 0,
            r.total_failures == 0,
    {
        TestExecutionStats { total_tests: 0, total_success: 0, total_failures: 0 }
    }
}

/// How many outcomes in a history are successes.
pub open spec fn count_success(outcomes: Seq<TestResultView>) -> nat
    decreases outcomes.len(),
{
    if outcomes.len() == 0 {
        0
    } else {
        count_success(outcomes.drop_last()) + (if outcomes.last() is Success {
            1nat
        } else {
            0nat
        })
    }
}

/// No history holds more successes than outcomes.
pub proof fn lemma_count_success_le(outcomes: Seq<TestResultView>)
    ensures
        count_success(outcomes) <= outcomes.len(),
    decreases outcomes.len(),
{
    if outcomes.len() > 0 {
        lemma_count_success_le(outcomes.drop_last());
    }
}

/// A history with a non-success somewhere holds strictly fewer successes
/// than outcomes.
pub proof fn lemma_count_success_lt(outcomes: Seq<TestResultView>, k: int)
    requires
        0 <= k < outcomes.len(),
        !(outcomes[k] is Success),
    ensures
        count_success(outcomes) < outcomes.len(),
    decreases outcomes.len(),
{
    if k == outcomes.len() - 1 {
        lemma_count_success_le(outcomes.drop_last());
    } else {
        lemma_count_success_lt(outcomes.drop_last(), k);
    }
}

/// Recording one more outcome adds one success exactly when that outcome
/// is a success.
pub proof fn lemma_count_success_push(outcomes: Seq<TestResultView>, r: TestResultView)
    ensures
        count_success(outcomes.push(r)) == count_success(outcomes) + (if r is Success {
            1nat
        } else {
            0nat
        }),
{
    assert(outcomes.push(r).drop_last() =~= outcomes);
}

/// The execution loop. It owns the loaded suite, the execution
/// environment, and the statistics of the run, and walks the ordered case
/// sequence exactly once, strictly in declaration order, one case at a
/// time. The caller drives it: it asks for the current case, performs that
/// case's outside action, and hands the observation back; the executor
/// judges the case, records the outcome, and applies the stop policy.
/// After a failure it refuses to start any further case iff the run-level
/// stop flag or the suite-level one is set.
pub struct TestExecutor {
    test_suite: TestsDefinition,
    execution_environment: TestExecutionEnvironment,
    test_stats: TestExecutionStats,
    next_case: usize,
    stopped: bool,
    outcome_history: Ghost<Seq<TestResultView>>,
}

impl TestExecutor {
    /// The loaded suite.
    pub closed spec fn suite_spec(&self) -> TestsDefinitionView {
        self.test_suite@
    }

    /// The environment of the run.
    pub closed spec fn env_spec(&self) -> TestExecutionEnvironmentView {
        self.execution_environment@
    }

    /// The statistics so far.
    pub closed spec fn stats_spec(&self) -> TestExecutionStats {
        self.test_stats
    }

    /// The ordered case sequence of the suite; an absent sequence is the
    /// empty one.
    pub closed spec fn cases_spec(&self) -> Seq<TestCaseView> {
        match self.test_suite.test {
            Some(tests) => tests.deep_view(),
            None => Seq::<TestCaseView>::empty(),
        }
    }

    /// The suite defaults handed to every case.
    pub closed spec fn defaults_spec(&self) -> Option<DefaultsView> {
        self.test_suite.defaults.deep_view()
    }

    /// The outcomes recorded so far, in case order.
    pub closed spec fn outcomes_spec(&self) -> Seq<TestResultView> {
        self.outcome_history@
    }

    /// The position of the next case to run.
    pub closed spec fn next_case_spec(&self) -> int {
        self.next_case as int
    }

    /// Whether a failure has ended the run early.
    pub closed spec fn stopped_spec(&self) -> bool {
        self.stopped
    }

    /// The stop policy of the run: the run-level flag OR'd with the
    /// suite-level one.
    pub closed spec fn stop_policy_spec(&self) -> bool {
        self.execution_environment.stop_on_failure || self.test_suite.always_stop_after_failure
            == Some(true)
    }

    /// Whether the run is over: a failure ended it early, or every case
    /// has run. No further case starts once this holds.
    pub open spec fn finished_spec(&self) -> bool {
        self.stopped_spec() || self.next_case_spec() >= self.cases_spec().len()
    }

    /// The executor's invariant: the counters tally the recorded outcomes
    /// exactly, the next position is just past them, under a stop policy
    /// every outcome but the last is a success, and the run is marked
    /// stopped exactly when the policy is in force and the last outcome
    /// failed.
    pub closed spec fn wf(&self) -> bool {
        &&& self.test_stats.total_tests == self.outcome_history@.len()
        &&& self.test_stats.total_success == count_success(self.outcome_history@)
        &&& self.test_stats.total_failures + count_success(self.outcome_history@)
            == self.outcome_history@.len()
        &&& self.next_case == self.outcome_history@.len()
        &&& self.outcome_history@.len() <= self.cases_spec().len()
        &&& (self.stop_policy_spec() ==> forall|i: int|
            0 <= i < self.outcome_history@.len() - 1 ==> self.outcome_history@[i] is Success)
        &&& self.stopped == (self.stop_policy_spec() && self.outcome_history@.len() > 0 && !(
        self.outcome_history@.last() is Success))
    }

    /// Packs a fresh executor for one run of the suite: nothing has run,
    /// nothing is recorded, and a suite without cases is already finished.
    pub fn new(
        test_suite: TestsDefinition,
        execution_environment: TestExecutionEnvironment,
    ) -> (r: TestExecutor)
        ensures
            r.wf(),
            r.suite_spec() == test_suite@,
            r.env_spec() == execution_environment@,
            r.outcomes_spec() == Seq::<TestResultView>::empty(),
            r.next_case_spec() == 0,
            !r.stopped_spec(),
            r.stats_spec().total_tests == 0,
            r.stats_spec().total_success == 0,
            r.stats_spec().total_failures == 0,
            r.cases_spec().len() == 0 ==> r.finished_spec(),
    {
        TestExecutor {
            test_suite,
            execution_environment,
            test_stats: TestExecutionStats::new(),
            next_case: 0,
            stopped: false,
            outcome_history: Ghost(Seq::<TestResultView>::empty()),
        }
    }

    /// The statistics so far. Once the run is finished these are its final
    /// counts, reflecting exactly the prefix of cases that actually ran.
    pub fn stats(&self) -> (s: TestExecutionStats)
        ensures
            s == self.stats_spec(),
    {
        self.test_stats
    }

    /// The environment of the run, for the caller that performs the
    /// outside actions.
    pub fn environment(&self) -> (e: &TestExecutionEnvironment)
        ensures
            e@ == self.env_spec(),
    {
        &self.execution_environment
    }

    /// The next case to run, in declaration order, or nothing when the run
    /// is over.
    pub fn current_case(&self) -> (c: Option<&TestCase>)
        ensures
            match c {
                Some(tc) => !self.finished_spec() && 0 <= self.next_case_spec()
                    < self.cases_spec().len() && tc@ == self.cases_spec()[self.next_case_spec()],
                None => self.finished_spec(),
            },
    {
        if self.stopped {
            None
        } else {
            match &self.test_suite.test {
                None => None,
                Some(tests) => {
                    if self.next_case < tests.len() {
                        Some(&tests[self.next_case])
                    } else {
                        None
                    }
                },
            }
        }
    }

    /// The stop policy of the run.
    fn stop_policy(&self) -> (r: bool)
        ensures
            r == self.stop_policy_spec(),
    {
        self.execution_environment.stop_on_failure || match self.test_suite
            .always_stop_after_failure {
            Some(b) => b,
            None => false,
        }
    }

    /// Runs the current case against the caller's observation: judges it,
    /// records the outcome, counts it as a success or a failure, and, when
    /// the outcome is not a success and a stop policy is in force, ends
    /// the run so that no later case starts.
    pub fn run_case(&mut self, observation: &CaseObservation) -> (r: TestResult)
        requires
            old(self).wf(),
            !old(self).finished_spec(),
            spec_observation_fits(
                old(self).cases_spec()[old(self).next_case_spec()].test_data,
                observation@,
            ),
        ensures
            final(self).wf(),
            r@ == spec_eval_case(
                old(self).cases_spec()[old(self).next_case_spec()].test_data,
                old(self).defaults_spec(),
                observation@,
            ),
            final(self).outcomes_spec() == old(self).outcomes_spec().push(r@),
            final(self).next_case_spec() == old(self).next_case_spec() + 1,
            final(self).suite_spec() == old(self).suite_spec(),
            final(self).env_spec() == old(self).env_spec(),
            final(self).cases_spec() == old(self).cases_spec(),
            final(self).defaults_spec() == old(self).defaults_spec(),
            final(self).stop_policy_spec() == old(self).stop_policy_spec(),
            final(self).stats_spec().total_tests == old(self).stats_spec().total_tests + 1,
            final(self).stats_spec().total_success as int == old(
                self,
            ).stats_spec().total_success as int + (if r@ is Success {
                1int
            } else {
                0int
            }),
            final(self).stats_spec().total_failures as int == old(
                self,
            ).stats_spec().total_failures as int + (if r@ is Success {
                0int
            } else {
                1int
            }),
            final(self).stopped_spec() == (old(self).stop_policy_spec() && !(r@ is Success)),
    {
        proof {
            lemma_count_success_le(self.outcome_history@);
        }
        let r = match &self.test_suite.test {
            Some(tests) => {
                let case_count = tests.len();
                proof {
                    assert(self.outcome_history@.len() < case_count);
                }
                let case = &tests[self.next_case];
                case.execute_test_case(observation, self.test_suite.defaults.as_ref())
            },
            None => {
                proof {
                    assert(false);
                }
                TestResult::Success
            },
        };
        self.test_stats.total_tests += 1;
        if matches!(r, TestResult::Success) {
            self.test_stats.total_success += 1;
        } else {
            self.test_stats.total_failures += 1;
            if self.stop_policy() {
                self.stopped = true;
            }
        }
        self.next_case += 1;
        proof {
            lemma_count_success_push(self.outcome_history@, r@);
        }
        self.outcome_history = Ghost(self.outcome_history@.push(r@));
        r
    }
}

/// A suite with zero cases is a no-op: the run is already over, and every
/// counter — cases run, successes, failures — is zero.
pub proof fn lemma_empty_suite_is_noop(e: TestExecutor)
    requires
        e.wf(),
        e.cases_spec().len() == 0,
    ensures
        e.finished_spec(),
        e.outcomes_spec().len() == 0,
        e.stats_spec().total_tests == 0,
        e.stats_spec().total_success == 0,
        e.stats_spec().total_failures == 0,
{
}

/// With a stop policy in force, a run ends at its first non-success:
/// whenever a recorded outcome failed, it is the last one recorded, every
/// case before it succeeded, the counters tally exactly the cases that ran
/// — the failing one included — and the run is finished, so no later case
/// ever starts (and so none of its side effects can be observed).
pub proof fn lemma_stop_on_failure(e: TestExecutor, k: int)
    requires
        e.wf(),
        e.stop_policy_spec(),
        0 <= k < e.outcomes_spec().len(),
        !(e.outcomes_spec()[k] is Success),
    ensures
        k == e.outcomes_spec().len() - 1,
        forall|i: int| 0 <= i < k ==> e.outcomes_spec()[i] is Success,
        e.stats_spec().total_tests == k + 1,
        e.stats_spec().total_failures >= 1,
        e.finished_spec(),
{
    lemma_count_success_lt(e.outcomes_spec(), k);
}

/// Without a stop policy, a finished run has walked the whole sequence:
/// every case was run and counted, prior failures notwithstanding.
pub proof fn lemma_no_stop_policy_runs_all(e: TestExecutor)
    requires
        e.wf(),
        !e.stop_policy_spec(),
        e.finished_spec(),
    ensures
        e.outcomes_spec().len() == e.cases_spec().len(),
        e.stats_spec().total_tests == e.cases_spec().len(),
{
}

} // verus!
