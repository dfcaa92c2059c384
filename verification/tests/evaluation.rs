use ftest::test_executor::{Mismatch, TestResult};
use ftest::test_suite::{
    CaseObservation, CommandExpectation, CommandObservation, CommandParams, CommandTestCase,
    Defaults, PathEntryKind, PathExistsParams, PathExistsTestCase, PathObservation,
    PathTargetType, TestCase, TestCaseType,
};

fn command_case(command: &str, expected: Option<CommandExpectation>) -> CommandTestCase {
    CommandTestCase { command: command.to_string(), params: CommandParams { expected } }
}

fn completed(exit_code: i32, stdout: &str, stderr: &str) -> CommandObservation {
    CommandObservation::Completed {
        exit_code,
        stdout: stdout.to_string(),
        stderr: stderr.to_string(),
    }
}

#[test]
fn command_without_expectations_always_succeeds() {
    let case = command_case("anything at all", None);
    assert_eq!(case.execute_test_case(&completed(0, "", ""), None), TestResult::Success);
    assert_eq!(
        case.execute_test_case(&completed(137, "noise", "more noise"), None),
        TestResult::Success
    );
    assert_eq!(case.execute_test_case(&completed(-1, "", "boom"), None), TestResult::Success);
}

#[test]
fn command_with_matching_stdout_succeeds() {
    let case = command_case(
        "printf hi",
        Some(CommandExpectation { exit_code: None, stdout: Some("hi".to_string()), stderr: None }),
    );
    assert_eq!(case.execute_test_case(&completed(0, "hi", ""), None), TestResult::Success);
}

#[test]
fn command_with_wrong_exit_code_records_the_mismatch() {
    let case = command_case(
        "exit 7",
        Some(CommandExpectation { exit_code: Some(2), stdout: None, stderr: None }),
    );
    assert_eq!(
        case.execute_test_case(&completed(7, "", ""), None),
        TestResult::Failure(vec![Mismatch::WrongExitCode { expected: 2, actual: 7 }])
    );
}

#[test]
fn command_mismatches_come_in_dimension_order() {
    let case = command_case(
        "whatever",
        Some(CommandExpectation {
            exit_code: Some(0),
            stdout: Some("good out".to_string()),
            stderr: Some("".to_string()),
        }),
    );
    assert_eq!(
        case.execute_test_case(&completed(3, "bad out", "bad err"), None),
        TestResult::Failure(vec![
            Mismatch::WrongExitCode { expected: 0, actual: 3 },
            Mismatch::WrongStdout {
                expected: "good out".to_string(),
                actual: "bad out".to_string()
            },
            Mismatch::WrongStderr { expected: "".to_string(), actual: "bad err".to_string() },
        ])
    );
}

#[test]
fn command_that_could_not_run_is_an_execution_error() {
    let case = command_case("missing-binary", None);
    let observation = CommandObservation::NotCompleted { cause: "spawn failed".to_string() };
    assert_eq!(
        case.execute_test_case(&observation, None),
        TestResult::ExecutionError("spawn failed".to_string())
    );
}

#[test]
fn command_inherits_expectations_from_defaults_per_field() {
    // The case sets only stdout; exit code and stderr come from the
    // suite defaults and are still checked.
    let case = command_case(
        "whatever",
        Some(CommandExpectation {
            exit_code: None,
            stdout: Some("own out".to_string()),
            stderr: None,
        }),
    );
    let defaults = CommandParams {
        expected: Some(CommandExpectation {
            exit_code: Some(0),
            stdout: Some("default out".to_string()),
            stderr: Some("default err".to_string()),
        }),
    };
    assert_eq!(
        case.execute_test_case(&completed(0, "own out", "default err"), Some(&defaults)),
        TestResult::Success
    );
    assert_eq!(
        case.execute_test_case(&completed(1, "own out", "default err"), Some(&defaults)),
        TestResult::Failure(vec![Mismatch::WrongExitCode { expected: 0, actual: 1 }])
    );
    // The case's own stdout wins over the default one.
    assert_eq!(
        case.execute_test_case(&completed(0, "default out", "default err"), Some(&defaults)),
        TestResult::Failure(vec![Mismatch::WrongStdout {
            expected: "own out".to_string(),
            actual: "default out".to_string()
        }])
    );
}

fn path_case(path: &str, target_type: Option<PathTargetType>) -> PathExistsTestCase {
    PathExistsTestCase { path: path.to_string(), params: PathExistsParams { target_type } }
}

#[test]
fn missing_path_fails() {
    let case = path_case("no/such/entry", None);
    assert_eq!(
        case.execute_test_case(&PathObservation::Missing, None),
        TestResult::Failure(vec![Mismatch::MissingPath { path: "no/such/entry".to_string() }])
    );
}

#[test]
fn existing_directory_with_no_target_type_succeeds_by_inference() {
    let case = path_case("some/dir", None);
    assert_eq!(
        case.execute_test_case(&PathObservation::Found(PathEntryKind::Directory), None),
        TestResult::Success
    );
}

#[test]
fn existing_directory_with_explicit_file_target_fails() {
    let case = path_case("some/dir", Some(PathTargetType::File));
    assert_eq!(
        case.execute_test_case(&PathObservation::Found(PathEntryKind::Directory), None),
        TestResult::Failure(vec![Mismatch::WrongPathType {
            path: "some/dir".to_string(),
            expected: PathTargetType::File,
            actual: PathEntryKind::Directory,
        }])
    );
}

#[test]
fn existing_file_with_no_target_type_succeeds_by_inference() {
    let case = path_case("some/file", None);
    assert_eq!(
        case.execute_test_case(&PathObservation::Found(PathEntryKind::File), None),
        TestResult::Success
    );
}

#[test]
fn path_target_type_comes_from_defaults_before_inference() {
    let case = path_case("entry", None);
    let defaults = PathExistsParams { target_type: Some(PathTargetType::Directory) };
    assert_eq!(
        case.execute_test_case(&PathObservation::Found(PathEntryKind::File), Some(&defaults)),
        TestResult::Failure(vec![Mismatch::WrongPathType {
            path: "entry".to_string(),
            expected: PathTargetType::Directory,
            actual: PathEntryKind::File,
        }])
    );
}

#[test]
fn special_entry_with_no_target_type_infers_file_and_fails() {
    // An entry that is neither a regular file nor a directory infers the
    // File target type and then fails to satisfy it.
    let case = path_case("some/socket", None);
    assert_eq!(
        case.execute_test_case(&PathObservation::Found(PathEntryKind::Other), None),
        TestResult::Failure(vec![Mismatch::WrongPathType {
            path: "some/socket".to_string(),
            expected: PathTargetType::File,
            actual: PathEntryKind::Other,
        }])
    );
}

#[test]
fn dummy_case_always_succeeds() {
    let case = TestCase { name: "dummy".to_string(), test_data: TestCaseType::Dummy };
    assert_eq!(case.execute_test_case(&CaseObservation::Dummy, None), TestResult::Success);
}

#[test]
fn dispatch_hands_each_kind_its_own_defaults() {
    let defaults = Defaults {
        command: Some(CommandParams {
            expected: Some(CommandExpectation {
                exit_code: Some(0),
                stdout: None,
                stderr: None,
            }),
        }),
        path_exists: Some(PathExistsParams { target_type: Some(PathTargetType::File) }),
    };
    let command = TestCase {
        name: "c".to_string(),
        test_data: TestCaseType::Command(command_case("true", None)),
    };
    assert_eq!(
        command.execute_test_case(
            &CaseObservation::Command(completed(1, "", "")),
            Some(&defaults)
        ),
        TestResult::Failure(vec![Mismatch::WrongExitCode { expected: 0, actual: 1 }])
    );
    let path = TestCase {
        name: "p".to_string(),
        test_data: TestCaseType::PathExists(path_case("d", None)),
    };
    assert_eq!(
        path.execute_test_case(
            &CaseObservation::PathExists(PathObservation::Found(PathEntryKind::Directory)),
            Some(&defaults)
        ),
        TestResult::Failure(vec![Mismatch::WrongPathType {
            path: "d".to_string(),
            expected: PathTargetType::File,
            actual: PathEntryKind::Directory,
        }])
    );
}
