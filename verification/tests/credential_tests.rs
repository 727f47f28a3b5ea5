use bitcoin_metaprotocols::CallerGuard;
use bitcoin_metaprotocols::CredentialStore;

const AUTH1: &str = "roqha-4aaaa-aaaap-qplnq-cai";
const AUTH2: &str = "e453p-eqaaa-aaaar-qanya-cai";
const STRANGER: &str = "aaaaa-aa";

#[test]
fn unauthorized_read_is_rejected_without_state_change() {
    let store = CredentialStore::new();
    let r = store.get_api_key(STRANGER);
    assert_eq!(r, Err("Unauthorized: Caller not in authorized list".to_string()));
}

#[test]
fn unauthorized_write_is_rejected_without_state_change() {
    let mut store = CredentialStore::new();
    store.set_api_key(AUTH1, "before".to_string()).unwrap();
    let r = store.set_api_key(STRANGER, "after".to_string());
    assert_eq!(r, Err("Unauthorized: Caller not in authorized list".to_string()));
    assert_eq!(store.get_api_key(AUTH1), Ok("before".to_string()));
    assert!(store.pending.is_empty());
}

#[test]
fn read_before_any_write_reports_not_set() {
    let store = CredentialStore::new();
    assert_eq!(store.get_api_key(AUTH1), Err("API key not set".to_string()));
}

#[test]
fn empty_secret_is_rejected() {
    let mut store = CredentialStore::new();
    let r = store.set_api_key(AUTH1, String::new());
    assert_eq!(r, Err("API key cannot be empty".to_string()));
    assert_eq!(store.get_api_key(AUTH1), Err("API key not set".to_string()));
}

#[test]
fn oversize_secret_is_rejected() {
    let mut store = CredentialStore::new();
    let long: String = std::iter::repeat('x').take(1001).collect();
    let r = store.set_api_key(AUTH1, long);
    assert_eq!(r, Err("API key too long (max 1000 characters)".to_string()));
    assert_eq!(store.get_api_key(AUTH1), Err("API key not set".to_string()));
}

#[test]
fn max_size_secret_is_accepted_and_visible() {
    let mut store = CredentialStore::new();
    let long: String = std::iter::repeat('x').take(1000).collect();
    assert_eq!(store.set_api_key(AUTH1, long.clone()), Ok(()));
    assert_eq!(store.get_api_key(AUTH2), Ok(long));
}

#[test]
fn one_char_secret_is_accepted_and_visible() {
    let mut store = CredentialStore::new();
    assert_eq!(store.set_api_key(AUTH1, "k".to_string()), Ok(()));
    assert_eq!(store.get_api_key(AUTH1), Ok("k".to_string()));
}

#[test]
fn same_caller_concurrent_write_is_reentrancy_rejected() {
    let mut store = CredentialStore::new();
    store.set_api_key(AUTH1, "before".to_string()).unwrap();
    let guard = CallerGuard::new(&mut store, AUTH1).unwrap();
    let r = store.set_api_key(AUTH1, "after".to_string());
    assert_eq!(
        r,
        Err(format!(
            "Reentrancy protection: Already processing a request for principal {}",
            AUTH1
        ))
    );
    assert_eq!(store.get_api_key(AUTH1), Ok("before".to_string()));
    guard.release(&mut store);
    assert_eq!(store.set_api_key(AUTH1, "after".to_string()), Ok(()));
    assert_eq!(store.get_api_key(AUTH1), Ok("after".to_string()));
}

#[test]
fn second_guard_for_same_principal_is_refused() {
    let mut store = CredentialStore::new();
    let guard = CallerGuard::new(&mut store, AUTH1).unwrap();
    assert!(CallerGuard::new(&mut store, AUTH1).is_err());
    guard.release(&mut store);
    let again = CallerGuard::new(&mut store, AUTH1);
    assert!(again.is_ok());
    again.unwrap().release(&mut store);
}

#[test]
fn distinct_callers_do_not_block_each_other() {
    let mut store = CredentialStore::new();
    let guard = CallerGuard::new(&mut store, AUTH1).unwrap();
    assert_eq!(store.set_api_key(AUTH2, "from-second".to_string()), Ok(()));
    assert_eq!(store.get_api_key(AUTH2), Ok("from-second".to_string()));
    guard.release(&mut store);
}

#[test]
fn last_writer_wins() {
    let mut store = CredentialStore::new();
    assert_eq!(store.set_api_key(AUTH1, "first".to_string()), Ok(()));
    assert_eq!(store.set_api_key(AUTH2, "second".to_string()), Ok(()));
    assert_eq!(store.get_api_key(AUTH1), Ok("second".to_string()));
}
