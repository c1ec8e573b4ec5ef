use stake_service::Credential;
use stake_service::PipelineError;
use stake_service::credential_of_field;
use stake_service::resolve_key;

#[test]
fn caller_supplied_key_wins_over_configured_key() {
    let cred = credential_of_field(&Some("caller-key".to_string()));
    let key = resolve_key(&cred, &Some("configured-key".to_string())).unwrap();
    assert_eq!(key, "caller-key");
}

#[test]
fn empty_key_field_falls_back_to_configured_key() {
    let cred = credential_of_field(&Some(String::new()));
    let key = resolve_key(&cred, &Some("configured-key".to_string())).unwrap();
    assert_eq!(key, "configured-key");
}

#[test]
fn absent_key_field_falls_back_to_configured_key() {
    let cred = credential_of_field(&None);
    let key = resolve_key(&cred, &Some("configured-key".to_string())).unwrap();
    assert_eq!(key, "configured-key");
}

#[test]
fn no_key_anywhere_is_a_config_error() {
    let cred = credential_of_field(&None);
    match resolve_key(&cred, &None) {
        Err(PipelineError::ConfigError(m)) => {
            assert_eq!(m, "no signing key is configured");
        }
        _ => panic!("a request without any key must fail with a config error"),
    }
}

#[test]
fn explicit_credential_keeps_its_key() {
    let cred = Credential::Explicit("abc".to_string());
    let key = resolve_key(&cred, &None).unwrap();
    assert_eq!(key, "abc");
}
