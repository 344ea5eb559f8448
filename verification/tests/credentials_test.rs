use furiosa_client::config::load_config_file;
use furiosa_client::config::ConfigFileOutcome;
use furiosa_client::config::EnvRead;
use furiosa_client::ClientError;
use furiosa_client::EnvVarError;
use furiosa_client::FuriosaClient;
use furiosa_client::IoErrorKind;

fn no_file() -> ConfigFileOutcome {
    ConfigFileOutcome::IoFailure(IoErrorKind::NotFound, "config file not found".to_string())
}

#[test]
fn test_missing_credentials_fail_closed() {
    // Both variables unset and no config file present: construction must
    // fail with the missing-credentials error, never hold an empty pair.
    let r = FuriosaClient::new(no_file(), no_file(), None, None, EnvRead::Absent);
    assert!(matches!(r, Err(ClientError::NoApiKey)));
}

#[test]
fn test_partial_credentials_fail_closed() {
    let r = FuriosaClient::new(
        no_file(),
        no_file(),
        Some("AKID".to_string()),
        None,
        EnvRead::Absent,
    );
    assert!(matches!(r, Err(ClientError::NoApiKey)));

    let r = FuriosaClient::new(
        no_file(),
        no_file(),
        None,
        Some("SECRET-REDACTED".to_string()),
        EnvRead::Absent,
    );
    assert!(matches!(r, Err(ClientError::NoApiKey)));
}

#[test]
fn test_missing_config_file_is_not_an_error() {
    let r = load_config_file(no_file());
    assert!(r.is_ok());
}

#[test]
fn test_applied_config_file_is_ok() {
    let r = load_config_file(ConfigFileOutcome::Applied);
    assert!(r.is_ok());
}

#[test]
fn test_unreadable_config_file_propagates() {
    let outcome = ConfigFileOutcome::IoFailure(
        IoErrorKind::PermissionDenied,
        "permission denied".to_string(),
    );
    match load_config_file(outcome) {
        Err(ClientError::Io(kind, msg)) => {
            assert_eq!(kind, IoErrorKind::PermissionDenied);
            assert_eq!(msg, "permission denied");
        },
        other => panic!("expected an I/O error, got {:?}", other),
    }
}

#[test]
fn test_malformed_config_line_propagates() {
    let outcome = ConfigFileOutcome::ParseFailure("FURIOSA_ACCESS_KEY_ID".to_string(), 21);
    match load_config_file(outcome) {
        Err(ClientError::ConfigParse(line, idx)) => {
            assert_eq!(line, "FURIOSA_ACCESS_KEY_ID");
            assert_eq!(idx, 21);
        },
        other => panic!("expected a parse error, got {:?}", other),
    }
}

#[test]
fn test_config_error_stops_construction() {
    // A malformed config file is reported even when the credentials would
    // have resolved.
    let bad = ConfigFileOutcome::ParseFailure("%%%".to_string(), 0);
    let r = FuriosaClient::new(
        bad,
        no_file(),
        Some("AKID".to_string()),
        Some("SECRET-REDACTED".to_string()),
        EnvRead::Absent,
    );
    assert!(matches!(r, Err(ClientError::ConfigParse(_, 0))));
}

#[test]
fn test_io_error_constructor() {
    let e = ClientError::io_error(IoErrorKind::Other, "disk on fire");
    match &e {
        ClientError::Io(kind, msg) => {
            assert_eq!(*kind, IoErrorKind::Other);
            assert_eq!(msg, "disk on fire");
        },
        other => panic!("expected an I/O error, got {:?}", other),
    }
    assert_eq!(e.message(), "IO Error: disk on fire");
}

#[test]
fn test_error_messages() {
    assert_eq!(
        ClientError::ConfigParse("FOO=".to_string(), 37).message(),
        "Error parsing line: 'FOO=', error at line index: 37"
    );
    assert_eq!(
        ClientError::ConfigEnvVar(EnvVarError::NotPresent).message(),
        "environment variable not found"
    );
    assert_eq!(
        ClientError::NoApiKey.message(),
        "FURIOSA_ACCESS_KEY_ID, FURIOSA_SECRET_ACCESS_KEY must be set"
    );
    assert_eq!(ClientError::ApiError("boom".to_string()).message(), "ApiError: boom");
    assert_eq!(
        ClientError::CompilationFailed("log line".to_string()).message(),
        "Compilation failed:\nlog line"
    );
    assert_eq!(
        ClientError::ConfigParse("x".to_string(), 1205).message(),
        "Error parsing line: 'x', error at line index: 1205"
    );
    assert_eq!(
        ClientError::ConfigParse(String::new(), 0).message(),
        "Error parsing line: '', error at line index: 0"
    );
}
