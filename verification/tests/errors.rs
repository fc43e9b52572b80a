use inference_bridge::error::BridgeError;
use inference_bridge::error::EnvironmentError;
use inference_bridge::error::ErrorCategory;
use inference_bridge::extract::ParseError;
use inference_bridge::extract::ParseErrorKind;

fn parse_error(kind: ParseErrorKind) -> BridgeError {
    BridgeError::Parse(ParseError { kind, raw_output: String::from("raw") })
}

#[test]
fn each_error_has_its_category() {
    let environment = BridgeError::Environment(EnvironmentError::InterpreterMissing {
        message: String::from("not found"),
    });
    assert_eq!(environment.category(), ErrorCategory::Environment);
    let launch = BridgeError::Launch { message: String::from("denied") };
    assert_eq!(launch.category(), ErrorCategory::Launch);
    let execution = BridgeError::Execution { exit_status: Some(2), stderr: String::new() };
    assert_eq!(execution.category(), ErrorCategory::Execution);
    assert_eq!(parse_error(ParseErrorKind::NoResultLine).category(), ErrorCategory::Parse);
}

#[test]
fn environment_errors_are_described() {
    let missing = EnvironmentError::InterpreterMissing { message: String::from("No such file") };
    assert_eq!(missing.describe(), "the interpreter could not be started: No such file");
    let mismatch = EnvironmentError::VersionMismatch {
        required: String::from("3.10.13"),
        reported: String::from("Python 3.9.0\n"),
    };
    assert_eq!(mismatch.describe(), "Python 3.10.13 is not installed");
    let creation = EnvironmentError::CreationFailed { diagnostics: String::from("disk full") };
    assert_eq!(creation.describe(), "failed to create virtual environment: disk full");
    let installation =
        EnvironmentError::InstallationFailed { diagnostics: String::from("no network") };
    assert_eq!(installation.describe(), "failed to install dependencies: no network");
}

#[test]
fn bridge_errors_are_described_by_category() {
    let environment = BridgeError::Environment(EnvironmentError::VersionMismatch {
        required: String::from("3.10.13"),
        reported: String::from("Python 3.9.0"),
    });
    assert_eq!(environment.describe(), "environment not ready: Python 3.10.13 is not installed");
    let launch = BridgeError::Launch { message: String::from("permission denied") };
    assert_eq!(launch.describe(), "could not start inference: permission denied");
    let execution =
        BridgeError::Execution { exit_status: Some(1), stderr: String::from("Traceback") };
    assert_eq!(execution.describe(), "inference failed: Traceback");
}

#[test]
fn parse_errors_are_described_by_kind() {
    assert_eq!(
        parse_error(ParseErrorKind::NoResultLine).describe(),
        "could not read result: the output has no result line"
    );
    assert_eq!(
        parse_error(ParseErrorKind::MalformedQuoting).describe(),
        "could not read result: the result line holds no quoted token"
    );
    assert_eq!(
        parse_error(ParseErrorKind::EmptyPrediction).describe(),
        "could not read result: the quoted token is empty"
    );
    assert_eq!(
        parse_error(ParseErrorKind::InvalidEncoding).describe(),
        "could not read result: the output is not text"
    );
}
