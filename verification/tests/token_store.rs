use better_ch::auth::token::{
    delete_outcome, read_outcome, storage_outcome, KeyringDelete, KeyringRead, SERVICE_NAME,
    TOKEN_KEY,
};
use better_ch::error::{AuthError, Error};

#[test]
fn test_token_store_constants() {
    assert_eq!(SERVICE_NAME, "better-ch");
    assert_eq!(TOKEN_KEY, "access_token");
}

fn storage_reason(e: Error) -> String {
    match e {
        Error::Auth(AuthError::TokenStorage(m)) => m,
        other => panic!("unexpected error: {:?}", other),
    }
}

#[test]
fn keyring_read_found_missing_and_failed() {
    let found = read_outcome(KeyringRead::Found("tok".to_string())).unwrap();
    assert_eq!(found, Some("tok".to_string()));
    let missing = read_outcome(KeyringRead::NoEntry).unwrap();
    assert_eq!(missing, None);
    let failed = read_outcome(KeyringRead::Failed("locked".to_string())).unwrap_err();
    assert_eq!(storage_reason(failed), "locked");
}

#[test]
fn keyring_delete_of_missing_entry_succeeds() {
    assert!(delete_outcome(KeyringDelete::Deleted).is_ok());
    assert!(delete_outcome(KeyringDelete::NoEntry).is_ok());
    let failed = delete_outcome(KeyringDelete::Failed("denied".to_string())).unwrap_err();
    assert_eq!(storage_reason(failed), "denied");
}

#[test]
fn keyring_store_failure_is_storage_error() {
    assert!(storage_outcome(Ok(())).is_ok());
    let failed = storage_outcome(Err("no backend".to_string())).unwrap_err();
    assert_eq!(failed.message(), "authentication error: failed to store token: no backend");
}
