use furiosa_client::config::normalize_endpoint;
use furiosa_client::config::ConfigFileOutcome;
use furiosa_client::config::EnvRead;
use furiosa_client::config::DEFAULT_FURIOSA_API_ENDPOINT;
use furiosa_client::get_endpoint_from_env;
use furiosa_client::ClientError;
use furiosa_client::EnvVarError;
use furiosa_client::FuriosaClient;
use furiosa_client::IoErrorKind;

fn no_file() -> ConfigFileOutcome {
    ConfigFileOutcome::IoFailure(IoErrorKind::NotFound, "credential file not found".to_string())
}

#[test]
fn test_get_endpoint_from_env() {
    let with_slashes = EnvRead::Present("https://test.api/api/v1/////".to_string());
    assert_eq!("https://test.api/api/v1", &get_endpoint_from_env(with_slashes).unwrap());

    let already_clean = EnvRead::Present("https://test.api/api/v1".to_string());
    assert_eq!("https://test.api/api/v1", &get_endpoint_from_env(already_clean).unwrap());
}

#[test]
fn test_normalize_endpoint_strips_all_trailing_slashes() {
    assert_eq!(normalize_endpoint("https://x/api/v1/////"), "https://x/api/v1");
    assert_eq!(normalize_endpoint("https://x/api/v1"), "https://x/api/v1");
    assert_eq!(normalize_endpoint("/"), "");
    assert_eq!(normalize_endpoint(""), "");
}

#[test]
fn test_normalize_endpoint_is_idempotent() {
    let once = normalize_endpoint("https://x/api/v1/////");
    let twice = normalize_endpoint(&once);
    assert_eq!(once, twice);
}

#[test]
fn test_endpoint_defaults_when_unset() {
    let endpoint = get_endpoint_from_env(EnvRead::Absent).unwrap();
    assert_eq!(endpoint, "https://api.furiosa.ai");
    assert_eq!(endpoint, DEFAULT_FURIOSA_API_ENDPOINT);
}

#[test]
fn test_endpoint_not_unicode_is_an_error() {
    let r = get_endpoint_from_env(EnvRead::NotUnicode);
    assert!(matches!(r, Err(ClientError::ConfigEnvVar(EnvVarError::NotUnicode))));
}

#[test]
fn test_client_new_resolves_endpoint_and_keys() {
    let client = FuriosaClient::new(
        no_file(),
        no_file(),
        Some("AKID".to_string()),
        Some("SECRET-REDACTED".to_string()),
        EnvRead::Present("https://test.api///".to_string()),
    )
    .unwrap();
    assert_eq!(client.endpoint(), "https://test.api");
    assert_eq!(client.credentials.access_key_id, "AKID");
    assert_eq!(client.credentials.secret_access_key, "SECRET-REDACTED");
}

#[test]
fn test_api_paths() {
    let client = FuriosaClient::new(
        no_file(),
        no_file(),
        Some("a".to_string()),
        Some("s".to_string()),
        EnvRead::Present("https://test.api".to_string()),
    )
    .unwrap();
    assert_eq!(client.api_root_path("version"), "https://test.api/version");
    assert_eq!(client.api_v1_path("dss/optimize"), "https://test.api/api/v1/dss/optimize");
    assert_eq!(
        client.api_v1alpha_path("compiler", "tasks"),
        "https://test.api/api/compiler/v1alpha1/tasks"
    );
}
