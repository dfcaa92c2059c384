//! The ambient context a suite runs in: the target directory, the run-level
//! stop policy, and verbosity. It is read-only input shared by every case.

use vstd::prelude::*;

verus! {

/// The execution environment for a run: the directory commands run in and
/// paths are resolved against, whether to stop after the first failure, and
/// whether the caller asked for verbose diagnostics. The core never mutates
/// it.
pub struct TestExecutionEnvironment {
    pub directory: String,
    pub stop_on_failure: bool,
    pub verbose: bool,
}

/// Mathematical model of a [`TestExecutionEnvironment`].
#[verifier::ext_equal]
pub struct TestExecutionEnvironmentView {
    pub directory: Seq<char>,
    pub stop_on_failure: bool,
    pub verbose: bool,
}

impl View for TestExecutionEnvironment {
    type V = TestExecutionEnvironmentView;

    open spec fn view(&self) -> TestExecutionEnvironmentView {
        TestExecutionEnvironmentView {
            directory: self.directory@,
            stop_on_failure: self.stop_on_failure,
            verbose: self.verbose,
        }
    }
}

impl DeepView for TestExecutionEnvironment {
    type V = TestExecutionEnvironmentView;

    open spec fn deep_view(&self) -> TestExecutionEnvironmentView {
        self@
    }
}

} // verus!
