//! The suite data model and the per-case evaluation logic.
//!
//! A suite is an ordered sequence of named, kind-tagged test cases plus
//! optional suite-level defaults. A command case is judged against an
//! effective expectation obtained by merging the case's own expectation
//! with the suite default for commands, field by field. A path case is
//! judged against what the filesystem showed at the resolved path, with the
//! target type taken from the case, else the default, else inferred from
//! the entry itself. Evaluation is pure: the caller performs the command or
//! probes the filesystem and hands the outcome in as an observation.

use vstd::prelude::*;

use crate::test_executor::{Mismatch, MismatchView, TestResult, TestResultView};

verus! {

/// The optional per-field assertions a command case should satisfy.
/// An absent field means that dimension is never checked.
#[derive(Debug, PartialEq, Eq)]
pub struct CommandExpectation {
    pub exit_code: Option<i32>,
    pub stdout: Option<String>,
    pub stderr: Option<String>,
}

/// Mathematical model of a [`CommandExpectation`].
#[verifier::ext_equal]
pub struct CommandExpectationView {
    pub exit_code: Option<int>,
    pub stdout: Option<Seq<char>>,
    pub stderr: Option<Seq<char>>,
}

impl View for CommandExpectation {
    type V = CommandExpectationView;

    open spec fn view(&self) -> CommandExpectationView {
        CommandExpectationView {
            exit_code: match self.exit_code {
                Some(c) => Some(c as int),
                None => None,
            },
            stdout: self.stdout.deep_view(),
            stderr: self.stderr.deep_view(),
        }
    }
}

impl DeepView for CommandExpectation {
    type V = CommandExpectationView;

    open spec fn deep_view(&self) -> CommandExpectationView {
        self@
    }
}

/// The expectation with no field set: no dimension is checked.
pub open spec fn empty_expectation() -> CommandExpectationView {
    CommandExpectationView { exit_code: None, stdout: None, stderr: None }
}

/// Per-field merge of an expectation with a fallback: each field is the
/// first's where it is present, else the second's.
pub open spec fn merge_expectation(
    own: CommandExpectationView,
    fallback: CommandExpectationView,
) -> CommandExpectationView {
    CommandExpectationView {
        exit_code: if own.exit_code is Some {
            own.exit_code
        } else {
            fallback.exit_code
        },
        stdout: if own.stdout is Some {
            own.stdout
        } else {
            fallback.stdout
        },
        stderr: if own.stderr is Some {
            own.stderr
        } else {
            fallback.stderr
        },
    }
}

impl CommandExpectation {
    /// The expectation that checks nothing.
    pub fn default() -> (r: CommandExpectation)
        ensures
            r@ == empty_expectation(),
    {
        CommandExpectation { exit_code: None, stdout: None, stderr: None }
    }

    /// Fills each absent field from `other`, leaving present fields alone.
    /// The merge is per field, never whole-object fallback.
    pub fn fill_missing_with(&mut self, other: &CommandExpectation)
        ensures
            final(self)@ == merge_expectation(old(self)@, other@),
    {
        if self.exit_code.is_none() {
            self.exit_code = other.exit_code;
        }
        if self.stdout.is_none() {
            self.stdout = match &other.stdout {
                Some(s) => Some(s.clone()),
                None => None,
            };
        }
        if self.stderr.is_none() {
            self.stderr = match &other.stderr {
                Some(s) => Some(s.clone()),
                None => None,
            };
        }
    }
}

/// The type of filesystem entry a path case asserts: a regular file or a
/// directory.
#[derive(Debug, PartialEq, Eq, Structural, Clone, Copy)]
pub enum PathTargetType {
    File,
    Directory,
}

/// What kind of entry the filesystem actually showed at a resolved path
/// that exists. `Other` stands for an entry that is neither a regular file
/// nor a directory.
#[derive(Debug, PartialEq, Eq, Structural, Clone, Copy)]
pub enum PathEntryKind {
    File,
    Directory,
    Other,
}

/// A case that runs a shell command and checks its exit code and output.
#[derive(Debug, PartialEq, Eq)]
pub struct CommandTestCase {
    pub command: String,
    pub params: CommandParams,
}

/// The parameters of a command case: its optional expectation. Also the
/// shape of the suite-level defaults for command cases.
#[derive(Debug, PartialEq, Eq)]
pub struct CommandParams {
    pub expected: Option<CommandExpectation>,
}

/// A case that checks that a path exists, resolved against the target
/// directory.
#[derive(Debug, PartialEq, Eq)]
pub struct PathExistsTestCase {
    pub path: String,
    pub params: PathExistsParams,
}

/// The parameters of a path case: its optional target type. Also the shape
/// of the suite-level defaults for path cases.
#[derive(Debug, PartialEq, Eq)]
pub struct PathExistsParams {
    pub target_type: Option<PathTargetType>,
}

/// The closed set of case kinds, with the kind-specific data of each.
#[derive(Debug, PartialEq, Eq)]
pub enum TestCaseType {
    Dummy,
    Command(CommandTestCase),
    PathExists(PathExistsTestCase),
}

/// One named, typed unit of verification.
#[derive(Debug, PartialEq, Eq)]
pub struct TestCase {
    pub name: String,
    pub test_data: TestCaseType,
}

/// Suite-level fallback parameters, applied per field when a case omits
/// them, one optional set per case kind.
#[derive(Debug, PartialEq, Eq)]
pub struct Defaults {
    pub command: Option<CommandParams>,
    pub path_exists: Option<PathExistsParams>,
}

/// A loaded suite: an optional display name, the suite-level stop policy,
/// the optional defaults, and the ordered sequence of cases. An absent or
/// empty sequence is accepted (a warning for the caller, not an error).
#[derive(Debug, PartialEq, Eq)]
pub struct TestsDefinition {
    pub name: Option<String>,
    pub always_stop_after_failure: Option<bool>,
    pub defaults: Option<Defaults>,
    pub test: Option<Vec<TestCase>>,
}

/// Mathematical model of [`CommandParams`].
#[verifier::ext_equal]
pub struct CommandParamsView {
    pub expected: Option<CommandExpectationView>,
}

/// Mathematical model of a [`CommandTestCase`].
#[verifier::ext_equal]
pub struct CommandTestCaseView {
    pub command: Seq<char>,
    pub params: CommandParamsView,
}

/// Mathematical model of [`PathExistsParams`].
#[verifier::ext_equal]
pub struct PathExistsParamsView {
    pub target_type: Option<PathTargetType>,
}

/// Mathematical model of a [`PathExistsTestCase`].
#[verifier::ext_equal]
pub struct PathExistsTestCaseView {
    pub path: Seq<char>,
    pub params: PathExistsParamsView,
}

/// Mathematical model of a [`TestCaseType`].
#[verifier::ext_equal]
pub enum TestCaseTypeView {
    Dummy,
    Command(CommandTestCaseView),
    PathExists(PathExistsTestCaseView),
}

/// Mathematical model of a [`TestCase`].
#[verifier::ext_equal]
pub struct TestCaseView {
    pub name: Seq<char>,
    pub test_data: TestCaseTypeView,
}

/// Mathematical model of [`Defaults`].
#[verifier::ext_equal]
pub struct DefaultsView {
    pub command: Option<CommandParamsView>,
    pub path_exists: Option<PathExistsParamsView>,
}

/// Mathematical model of a [`TestsDefinition`].
#[verifier::ext_equal]
pub struct TestsDefinitionView {
    pub name: Option<Seq<char>>,
    pub always_stop_after_failure: Option<bool>,
    pub defaults: Option<DefaultsView>,
    pub test: Option<Seq<TestCaseView>>,
}

impl View for CommandParams {
    type V = CommandParamsView;

    open spec fn view(&self) -> CommandParamsView {
        CommandParamsView { expected: self.expected.deep_view() }
    }
}

impl DeepView for CommandParams {
    type V = CommandParamsView;

    open spec fn deep_view(&self) -> CommandParamsView {
        self@
    }
}

impl View for CommandTestCase {
    type V = CommandTestCaseView;

    open spec fn view(&self) -> CommandTestCaseView {
        CommandTestCaseView { command: self.command@, params: self.params@ }
    }
}

impl DeepView for CommandTestCase {
    type V = CommandTestCaseView;

    open spec fn deep_view(&self) -> CommandTestCaseView {
        self@
    }
}

impl View for PathExistsParams {
    type V = PathExistsParamsView;

    open spec fn view(&self) -> PathExistsParamsView {
        PathExistsParamsView { target_type: self.target_type }
    }
}

impl DeepView for PathExistsParams {
    type V = PathExistsParamsView;

    open spec fn deep_view(&self) -> PathExistsParamsView {
        self@
    }
}

impl View for PathExistsTestCase {
    type V = PathExistsTestCaseView;

    open spec fn view(&self) -> PathExistsTestCaseView {
        PathExistsTestCaseView { path: self.path@, params: self.params@ }
    }
}

impl DeepView for PathExistsTestCase {
    type V = PathExistsTestCaseView;

    open spec fn deep_view(&self) -> PathExistsTestCaseView {
        self@
    }
}

impl View for TestCaseType {
    type V = TestCaseTypeView;

    open spec fn view(&self) -> TestCaseTypeView {
        match self {
            TestCaseType::Dummy => TestCaseTypeView::Dummy,
            TestCaseType::Command(c) => TestCaseTypeView::Command(c@),
            TestCaseType::PathExists(p) => TestCaseTypeView::PathExists(p@),
        }
    }
}

impl DeepView for TestCaseType {
    type V = TestCaseTypeView;

    open spec fn deep_view(&self) -> TestCaseTypeView {
        self@
    }
}

impl View for TestCase {
    type V = TestCaseView;

    open spec fn view(&self) -> TestCaseView {
        TestCaseView { name: self.name@, test_data: self.test_data@ }
    }
}

impl DeepView for TestCase {
    type V = TestCaseView;

    open spec fn deep_view(&self) -> TestCaseView {
        self@
    }
}

impl View for Defaults {
    type V = DefaultsView;

    open spec fn view(&self) -> DefaultsView {
        DefaultsView {
            command: self.command.deep_view(),
            path_exists: self.path_exists.deep_view(),
        }
    }
}

impl DeepView for Defaults {
    type V = DefaultsView;

    open spec fn deep_view(&self) -> DefaultsView {
        self@
    }
}

impl View for TestsDefinition {
    type V = TestsDefinitionView;

    open spec fn view(&self) -> TestsDefinitionView {
        TestsDefinitionView {
            name: self.name.deep_view(),
            always_stop_after_failure: self.always_stop_after_failure,
            defaults: self.defaults.deep_view(),
            test: self.test.deep_view(),
        }
    }
}

impl DeepView for TestsDefinition {
    type V = TestsDefinitionView;

    open spec fn deep_view(&self) -> TestsDefinitionView {
        self@
    }
}

/// What the caller observed when it ran a command case's shell command:
/// either the command ran to completion with an exit code and its captured
/// output (decoded as text), or it could not be completed at all — it
/// could not be spawned, or no exit code could be obtained.
#[derive(Debug, PartialEq, Eq)]
pub enum CommandObservation {
    Completed { exit_code: i32, stdout: String, stderr: String },
    NotCompleted { cause: String },
}

/// Mathematical model of a [`CommandObservation`].
#[verifier::ext_equal]
pub enum CommandObservationView {
    Completed { exit_code: int, stdout: Seq<char>, stderr: Seq<char> },
    NotCompleted { cause: Seq<char> },
}

impl View for CommandObservation {
    type V = CommandObservationView;

    open spec fn view(&self) -> CommandObservationView {
        match self {
            CommandObservation::Completed { exit_code, stdout, stderr } => {
                CommandObservationView::Completed {
                    exit_code: *exit_code as int,
                    stdout: stdout@,
                    stderr: stderr@,
                }
            },
            CommandObservation::NotCompleted { cause } => CommandObservationView::NotCompleted {
                cause: cause@,
            },
        }
    }
}

impl DeepView for CommandObservation {
    type V = CommandObservationView;

    open spec fn deep_view(&self) -> CommandObservationView {
        self@
    }
}

/// What the caller observed at the path of a path case, resolved against
/// the target directory: nothing at all, or an entry of some kind.
#[derive(Debug, PartialEq, Eq, Structural, Clone, Copy)]
pub enum PathObservation {
    Missing,
    Found(PathEntryKind),
}

/// The observation a case needs, by case kind. A dummy case observes
/// nothing.
#[derive(Debug, PartialEq, Eq)]
pub enum CaseObservation {
    Dummy,
    Command(CommandObservation),
    PathExists(PathObservation),
}

/// Mathematical model of a [`CaseObservation`].
#[verifier::ext_equal]
pub enum CaseObservationView {
    Dummy,
    Command(CommandObservationView),
    PathExists(PathObservation),
}

impl View for CaseObservation {
    type V = CaseObservationView;

    open spec fn view(&self) -> CaseObservationView {
        match self {
            CaseObservation::Dummy => CaseObservationView::Dummy,
            CaseObservation::Command(o) => CaseObservationView::Command(o@),
            CaseObservation::PathExists(o) => CaseObservationView::PathExists(*o),
        }
    }
}

impl DeepView for CaseObservation {
    type V = CaseObservationView;

    open spec fn deep_view(&self) -> CaseObservationView {
        self@
    }
}

/// The defaults merge is per field: every field of the merged expectation
/// is the case's own value where the case sets it, and the default's value
/// where it does not. In particular a case that sets only `stdout` still
/// inherits `exit_code` and `stderr` from the defaults, and a case that
/// sets only `exit_code` still inherits `stdout` and `stderr`.
pub proof fn lemma_merge_is_per_field(own: CommandExpectationView, fallback: CommandExpectationView)
    ensures
        merge_expectation(own, fallback).exit_code == (if own.exit_code is Some {
            own.exit_code
        } else {
            fallback.exit_code
        }),
        merge_expectation(own, fallback).stdout == (if own.stdout is Some {
            own.stdout
        } else {
            fallback.stdout
        }),
        merge_expectation(own, fallback).stderr == (if own.stderr is Some {
            own.stderr
        } else {
            fallback.stderr
        }),
{
}

/// The expectation the suite defaults contribute to a command case, if
/// any.
pub open spec fn spec_command_default_expectation(
    defaults: Option<CommandParamsView>,
) -> Option<CommandExpectationView> {
    match defaults {
        Some(d) => d.expected,
        None => None,
    }
}

/// The effective expectation of a command case: its own expectation (or
/// the empty one when it has none) with every absent field filled from the
/// suite default for commands, when there is one.
pub open spec fn spec_effective_expectation(
    own: Option<CommandExpectationView>,
    defaults: Option<CommandParamsView>,
) -> CommandExpectationView {
    merge_expectation(
        match own {
            Some(e) => e,
            None => empty_expectation(),
        },
        match spec_command_default_expectation(defaults) {
            Some(e) => e,
            None => empty_expectation(),
        },
    )
}

/// The mismatch recorded for the exit-code dimension: none when the
/// dimension is unchecked or the observed code is the expected one.
pub open spec fn spec_exit_code_mismatches(
    eff: CommandExpectationView,
    exit_code: int,
) -> Seq<MismatchView> {
    match eff.exit_code {
        Some(expected) => if expected != exit_code {
            seq![MismatchView::WrongExitCode { expected, actual: exit_code }]
        } else {
            Seq::<MismatchView>::empty()
        },
        None => Seq::<MismatchView>::empty(),
    }
}

/// The mismatch recorded for the stdout dimension.
pub open spec fn spec_stdout_mismatches(
    eff: CommandExpectationView,
    stdout: Seq<char>,
) -> Seq<MismatchView> {
    match eff.stdout {
        Some(expected) => if expected != stdout {
            seq![MismatchView::WrongStdout { expected, actual: stdout }]
        } else {
            Seq::<MismatchView>::empty()
        },
        None => Seq::<MismatchView>::empty(),
    }
}

/// The mismatch recorded for the stderr dimension.
pub open spec fn spec_stderr_mismatches(
    eff: CommandExpectationView,
    stderr: Seq<char>,
) -> Seq<MismatchView> {
    match eff.stderr {
        Some(expected) => if expected != stderr {
            seq![MismatchView::WrongStderr { expected, actual: stderr }]
        } else {
            Seq::<MismatchView>::empty()
        },
        None => Seq::<MismatchView>::empty(),
    }
}

/// Every mismatch of a completed command against an effective expectation,
/// in the fixed dimension order: exit code, stdout, stderr. Absent
/// dimensions are skipped; each present one is compared exactly.
pub open spec fn spec_command_mismatches(
    eff: CommandExpectationView,
    exit_code: int,
    stdout: Seq<char>,
    stderr: Seq<char>,
) -> Seq<MismatchView> {
    spec_exit_code_mismatches(eff, exit_code) + spec_stdout_mismatches(eff, stdout)
        + spec_stderr_mismatches(eff, stderr)
}

/// The outcome of a command case: an execution error when the command
/// could not be completed (with its cause), else success exactly when
/// every checked dimension matched, else a failure carrying the recorded
/// mismatches.
pub open spec fn spec_eval_command(
    case: CommandTestCaseView,
    defaults: Option<CommandParamsView>,
    obs: CommandObservationView,
) -> TestResultView {
    match obs {
        CommandObservationView::Completed { exit_code, stdout, stderr } => {
            let mismatches = spec_command_mismatches(
                spec_effective_expectation(case.params.expected, defaults),
                exit_code,
                stdout,
                stderr,
            );
            if mismatches.len() == 0 {
                TestResultView::Success
            } else {
                TestResultView::Failure(mismatches)
            }
        },
        CommandObservationView::NotCompleted { cause } => TestResultView::ExecutionError(cause),
    }
}

/// The effective target type of a path case, by precedence: the case's own
/// explicit type, else the suite default, else the type inferred from the
/// entry that was found — a directory infers `Directory`, anything else
/// infers `File`.
pub open spec fn spec_effective_target_type(
    own: Option<PathTargetType>,
    defaults: Option<PathExistsParamsView>,
    found: PathEntryKind,
) -> PathTargetType {
    match own {
        Some(t) => t,
        None => match defaults {
            Some(d) => match d.target_type {
                Some(t) => t,
                None => spec_inferred_target_type(found),
            },
            None => spec_inferred_target_type(found),
        },
    }
}

/// The target type inferred from an entry when neither the case nor the
/// defaults name one.
pub open spec fn spec_inferred_target_type(found: PathEntryKind) -> PathTargetType {
    if found is Directory {
        PathTargetType::Directory
    } else {
        PathTargetType::File
    }
}

/// Whether an entry of the given kind satisfies a target type.
pub open spec fn spec_target_type_matches(target: PathTargetType, found: PathEntryKind) -> bool {
    match target {
        PathTargetType::File => found is File,
        PathTargetType::Directory => found is Directory,
    }
}

/// The outcome of a path case: a failure when nothing exists at the path,
/// a failure when the entry does not satisfy the effective target type,
/// else success. Each failure records the one mismatch that caused it.
pub open spec fn spec_eval_path(
    case: PathExistsTestCaseView,
    defaults: Option<PathExistsParamsView>,
    obs: PathObservation,
) -> TestResultView {
    match obs {
        PathObservation::Missing => TestResultView::Failure(
            seq![MismatchView::MissingPath { path: case.path }],
        ),
        PathObservation::Found(found) => {
            let target = spec_effective_target_type(case.params.target_type, defaults, found);
            if spec_target_type_matches(target, found) {
                TestResultView::Success
            } else {
                TestResultView::Failure(
                    seq![
                        MismatchView::WrongPathType {
                            path: case.path,
                            expected: target,
                            actual: found,
                        }
                    ],
                )
            }
        },
    }
}

/// Whether an observation is of the kind the case needs.
pub open spec fn spec_observation_fits(case: TestCaseTypeView, obs: CaseObservationView) -> bool {
    match case {
        TestCaseTypeView::Dummy => obs is Dummy,
        TestCaseTypeView::Command(_) => obs is Command,
        TestCaseTypeView::PathExists(_) => obs is PathExists,
    }
}

/// The command-case defaults within the suite defaults, if any.
pub open spec fn spec_defaults_command(defaults: Option<DefaultsView>) -> Option<
    CommandParamsView,
> {
    match defaults {
        Some(d) => d.command,
        None => None,
    }
}

/// The path-case defaults within the suite defaults, if any.
pub open spec fn spec_defaults_path_exists(defaults: Option<DefaultsView>) -> Option<
    PathExistsParamsView,
> {
    match defaults {
        Some(d) => d.path_exists,
        None => None,
    }
}

/// The outcome of one case of any kind, given the suite defaults and a
/// fitting observation. A dummy case always succeeds.
pub open spec fn spec_eval_case(
    case: TestCaseTypeView,
    defaults: Option<DefaultsView>,
    obs: CaseObservationView,
) -> TestResultView {
    match (case, obs) {
        (TestCaseTypeView::Dummy, _) => TestResultView::Success,
        (TestCaseTypeView::Command(c), CaseObservationView::Command(o)) => spec_eval_command(
            c,
            spec_defaults_command(defaults),
            o,
        ),
        (TestCaseTypeView::PathExists(p), CaseObservationView::PathExists(o)) => spec_eval_path(
            p,
            spec_defaults_path_exists(defaults),
            o,
        ),
        _ => arbitrary(),
    }
}

/// A command case with no expectation field set — neither of its own nor
/// one contributed by the suite defaults — succeeds for every completed
/// command, whatever exit code and output were observed.
pub proof fn lemma_command_without_expectations_succeeds(
    case: CommandTestCaseView,
    defaults: Option<CommandParamsView>,
    exit_code: int,
    stdout: Seq<char>,
    stderr: Seq<char>,
)
    requires
        match case.params.expected {
            None => true,
            Some(e) => e == empty_expectation(),
        },
        match spec_command_default_expectation(defaults) {
            None => true,
            Some(e) => e == empty_expectation(),
        },
    ensures
        spec_eval_command(
            case,
            defaults,
            CommandObservationView::Completed { exit_code, stdout, stderr },
        ) is Success,
{
    assert(spec_effective_expectation(case.params.expected, defaults) =~= empty_expectation());
    assert(spec_command_mismatches(empty_expectation(), exit_code, stdout, stderr)
        =~= Seq::<MismatchView>::empty());
}

/// Target-type inference for a path case: with no explicit and no default
/// target type, an existing directory satisfies the case, the type being
/// inferred from the entry itself — while the same case with an explicit
/// `File` target type fails against that same directory, recording the
/// one mismatch.
pub proof fn lemma_path_target_type_inference(
    case: PathExistsTestCaseView,
    defaults: Option<PathExistsParamsView>,
)
    requires
        case.params.target_type is None,
        match defaults {
            None => true,
            Some(d) => d.target_type is None,
        },
    ensures
        spec_eval_path(case, defaults, PathObservation::Found(PathEntryKind::Directory))
            is Success,
        (spec_eval_path(
            (PathExistsTestCaseView {
                params: PathExistsParamsView { target_type: Some(PathTargetType::File) },
                ..case
            }),
            defaults,
            PathObservation::Found(PathEntryKind::Directory),
        ) matches TestResultView::Failure(mismatches) && mismatches.len() == 1
            && mismatches[0] is WrongPathType),
{
}

impl CommandTestCase {
    /// Judges this case against what running its command produced,
    /// merging the case's own expectation with the suite default for
    /// commands field by field. A command that could not be completed is
    /// an execution error, kept distinct from an expectation mismatch.
    pub fn execute_test_case(
        &self,
        observation: &CommandObservation,
        defaults: Option<&CommandParams>,
    ) -> (r: TestResult)
        ensures
            r@ == spec_eval_command(self@, defaults.deep_view(), observation@),
    {
        match observation {
            CommandObservation::NotCompleted { cause } => TestResult::ExecutionError(
                cause.clone(),
            ),
            CommandObservation::Completed { exit_code, stdout, stderr } => {
                let mut expectations = CommandExpectation::default();
                if let Some(own) = &self.params.expected {
                    expectations.fill_missing_with(own);
                }
                if let Some(command_defaults) = defaults {
                    if let Some(default_expectation) = &command_defaults.expected {
                        expectations.fill_missing_with(default_expectation);
                    }
                }
                proof {
                    assert(expectations@ =~= spec_effective_expectation(
                        self@.params.expected,
                        defaults.deep_view(),
                    ));
                }
                let ghost eff = expectations@;
                let mut mismatches: Vec<Mismatch> = Vec::new();
                if let Some(expected) = expectations.exit_code {
                    if expected != *exit_code {
                        mismatches.push(
                            Mismatch::WrongExitCode { expected, actual: *exit_code },
                        );
                    }
                }
                proof {
                    assert(mismatches.deep_view() =~= spec_exit_code_mismatches(
                        eff,
                        *exit_code as int,
                    ));
                }
                if let Some(expected) = &expectations.stdout {
                    if !string_eq(expected, stdout) {
                        mismatches.push(
                            Mismatch::WrongStdout {
                                expected: expected.clone(),
                                actual: stdout.clone(),
                            },
                        );
                    }
                }
                proof {
                    assert(mismatches.deep_view() =~= spec_exit_code_mismatches(
                        eff,
                        *exit_code as int,
                    ) + spec_stdout_mismatches(eff, stdout@));
                }
                if let Some(expected) = &expectations.stderr {
                    if !string_eq(expected, stderr) {
                        mismatches.push(
                            Mismatch::WrongStderr {
                                expected: expected.clone(),
                                actual: stderr.clone(),
                            },
                        );
                    }
                }
                proof {
                    assert(mismatches.deep_view() =~= spec_command_mismatches(
                        eff,
                        *exit_code as int,
                        stdout@,
                        stderr@,
                    ));
                }
                if mismatches.len() == 0 {
                    TestResult::Success
                } else {
                    TestResult::Failure(mismatches)
                }
            },
        }
    }
}

/// Exact text equality of two strings.
fn string_eq(a: &String, b: &String) -> (r: bool)
    ensures
        r == (a@ == b@),
{
    *a == *b
}

impl PathExistsTestCase {
    /// Judges this case against what the filesystem showed at its resolved
    /// path. The target type is the case's own, else the suite default,
    /// else inferred from the entry that was found.
    pub fn execute_test_case(
        &self,
        observation: &PathObservation,
        defaults: Option<&PathExistsParams>,
    ) -> (r: TestResult)
        ensures
            r@ == spec_eval_path(self@, defaults.deep_view(), *observation),
    {
        match observation {
            PathObservation::Missing => {
                let mismatch = Mismatch::MissingPath { path: self.path.clone() };
                proof {
                    assert(seq![mismatch@] =~= spec_eval_path(
                        self@,
                        defaults.deep_view(),
                        *observation,
                    )->Failure_0);
                }
                TestResult::Failure(vec![mismatch])
            },
            PathObservation::Found(found) => {
                let target = match self.params.target_type {
                    Some(t) => t,
                    None => {
                        let default_type = match defaults {
                            Some(d) => d.target_type,
                            None => None,
                        };
                        match default_type {
                            Some(t) => t,
                            None => match found {
                                PathEntryKind::Directory => PathTargetType::Directory,
                                _ => PathTargetType::File,
                            },
                        }
                    },
                };
                let matches_target = match target {
                    PathTargetType::File => matches!(found, PathEntryKind::File),
                    PathTargetType::Directory => matches!(found, PathEntryKind::Directory),
                };
                if matches_target {
                    TestResult::Success
                } else {
                    let mismatch = Mismatch::WrongPathType {
                        path: self.path.clone(),
                        expected: target,
                        actual: *found,
                    };
                    proof {
                        assert(seq![mismatch@] =~= spec_eval_path(
                            self@,
                            defaults.deep_view(),
                            *observation,
                        )->Failure_0);
                    }
                    TestResult::Failure(vec![mismatch])
                }
            },
        }
    }
}

impl TestCase {
    /// Judges this case against a fitting observation, dispatching on its
    /// kind and handing each evaluator the suite defaults for that kind.
    pub fn execute_test_case(
        &self,
        observation: &CaseObservation,
        defaults: Option<&Defaults>,
    ) -> (r: TestResult)
        requires
            spec_observation_fits(self.test_data@, observation@),
        ensures
            r@ == spec_eval_case(self.test_data@, defaults.deep_view(), observation@),
    {
        match (&self.test_data, observation) {
            (TestCaseType::Dummy, _) => TestResult::Success,
            (TestCaseType::Command(command_test_case), CaseObservation::Command(o)) => {
                let command_defaults = match defaults {
                    Some(d) => d.command.as_ref(),
                    None => None,
                };
                command_test_case.execute_test_case(o, command_defaults)
            },
            (TestCaseType::PathExists(path_exists_test_case), CaseObservation::PathExists(o)) => {
                let path_defaults = match defaults {
                    Some(d) => d.path_exists.as_ref(),
                    None => None,
                };
                path_exists_test_case.execute_test_case(o, path_defaults)
            },
            _ => {
                proof {
                    assert(false);
                }
                TestResult::Success
            },
        }
    }
}

} // verus!
