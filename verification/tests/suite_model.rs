use ftest::args_parser::ArgsParser;
use ftest::test_suite::CommandExpectation;

fn expectation(
    exit_code: Option<i32>,
    stdout: Option<&str>,
    stderr: Option<&str>,
) -> CommandExpectation {
    CommandExpectation {
        exit_code,
        stdout: stdout.map(|s| s.to_string()),
        stderr: stderr.map(|s| s.to_string()),
    }
}

#[test]
fn default_expectation_checks_nothing() {
    let d = CommandExpectation::default();
    assert_eq!(d.exit_code, None);
    assert_eq!(d.stdout, None);
    assert_eq!(d.stderr, None);
}

#[test]
fn fill_missing_keeps_present_fields() {
    let mut own = expectation(Some(1), Some("out"), Some("err"));
    let defaults = expectation(Some(2), Some("default out"), Some("default err"));
    own.fill_missing_with(&defaults);
    assert_eq!(own, expectation(Some(1), Some("out"), Some("err")));
}

#[test]
fn fill_missing_takes_absent_fields_from_defaults() {
    let mut own = expectation(None, None, None);
    let defaults = expectation(Some(2), Some("default out"), None);
    own.fill_missing_with(&defaults);
    assert_eq!(own, expectation(Some(2), Some("default out"), None));
}

#[test]
fn fill_missing_is_per_field_stdout_only() {
    // A case that defines only its stdout expectation still inherits the
    // exit-code and stderr expectations from the defaults.
    let mut own = expectation(None, Some("own out"), None);
    let defaults = expectation(Some(3), Some("default out"), Some("default err"));
    own.fill_missing_with(&defaults);
    assert_eq!(own, expectation(Some(3), Some("own out"), Some("default err")));
}

#[test]
fn fill_missing_is_per_field_exit_code_only() {
    // A case that defines only its exit-code expectation still inherits
    // stdout and stderr from the defaults.
    let mut own = expectation(Some(7), None, None);
    let defaults = expectation(Some(3), Some("default out"), Some("default err"));
    own.fill_missing_with(&defaults);
    assert_eq!(own, expectation(Some(7), Some("default out"), Some("default err")));
}

#[test]
fn file_path_defaults_to_dot_ftest_toml_in_directory() {
    let args = ArgsParser::new("/work/dir".to_string(), None, false, false);
    assert_eq!(args.get_file_path(), "/work/dir/.ftest.toml");
}

#[test]
fn file_path_uses_explicit_file_when_given() {
    let args = ArgsParser::new(
        "/work/dir".to_string(),
        Some("/elsewhere/suite.toml".to_string()),
        false,
        false,
    );
    assert_eq!(args.get_file_path(), "/elsewhere/suite.toml");
}

#[test]
fn relative_file_path_is_related_to_directory() {
    let mut args = ArgsParser::new(
        "/work/dir".to_string(),
        Some("suite.toml".to_string()),
        false,
        false,
    );
    args.relate_file_path_if_not_absolute();
    assert_eq!(args.get_file_path(), "/work/dir/suite.toml");
}

#[test]
fn absolute_file_path_is_kept() {
    let mut args = ArgsParser::new(
        "/work/dir".to_string(),
        Some("/abs/suite.toml".to_string()),
        true,
        true,
    );
    args.relate_file_path_if_not_absolute();
    assert_eq!(args.get_file_path(), "/abs/suite.toml");
}

#[test]
fn absent_file_path_stays_absent_when_related() {
    let mut args = ArgsParser::new("/work/dir".to_string(), None, false, false);
    args.relate_file_path_if_not_absolute();
    assert_eq!(args.get_file_path(), "/work/dir/.ftest.toml");
}
