use ferris_file_sync::db::encryption::{decrypt_token, encrypt_token, CipherError};
use ferris_file_sync::db::models::IntegrationRecord;
use ferris_file_sync::db::onedrive::{
    deactivate_integration, get_access_token, get_integration, get_refresh_token,
    save_access_token, save_refresh_token, StoreError, StoreWrite, TokenStore,
};
use ferris_file_sync::time::Timestamp;

const KEY: &str = "store-test-key";

fn at(secs: i64) -> Timestamp {
    Timestamp { secs, nanos: 0 }
}

fn record(id: i32, owner_id: i64, refresh_blob: &str) -> IntegrationRecord {
    IntegrationRecord {
        id,
        owner_id,
        user_id: 1,
        encrypted_refresh_token: refresh_blob.to_string(),
        encrypted_access_token: None,
        access_token_expires_at: None,
        is_active: true,
        created_at: at(0),
        updated_at: at(0),
    }
}

#[test]
fn authorization_creates_one_active_record() {
    let mut store = TokenStore::new();
    let meta = save_refresh_token(&mut store, 123, 456, "RT1", KEY, at(1000)).unwrap();
    assert_eq!(store.len(), 1);
    assert_eq!(meta.id, 1);
    assert_eq!(meta.owner_id, 123);
    assert_eq!(meta.user_id, 456);
    assert_eq!(meta.access_token_expires_at, None);
    assert!(meta.is_active);
    assert_eq!(meta.created_at, at(1000));
    assert_eq!(meta.updated_at, at(1000));
    let row = store.record(123).unwrap();
    assert_ne!(row.encrypted_refresh_token, "RT1");
    assert_eq!(decrypt_token(&row.encrypted_refresh_token, KEY).unwrap(), "RT1");
    assert!(row.encrypted_access_token.is_none());
    assert_eq!(get_refresh_token(&store, 123, KEY).unwrap().unwrap().refresh_token, "RT1");
    assert_eq!(get_integration(&store, 123), Some(meta));
}

#[test]
fn second_save_supersedes_the_first() {
    let mut store = TokenStore::new();
    let first = save_refresh_token(&mut store, 123, 456, "RT1", KEY, at(1000)).unwrap();
    let second = save_refresh_token(&mut store, 123, 789, "RT2", KEY, at(2000)).unwrap();
    assert_eq!(store.len(), 1);
    assert_eq!(second.id, first.id);
    assert_eq!(second.user_id, 789);
    assert_eq!(second.created_at, at(1000));
    assert_eq!(second.updated_at, at(2000));
    assert_eq!(get_refresh_token(&store, 123, KEY).unwrap().unwrap().refresh_token, "RT2");
}

#[test]
fn same_token_twice_leaves_one_record() {
    let mut store = TokenStore::new();
    save_refresh_token(&mut store, 123, 456, "RT1", KEY, at(1000)).unwrap();
    let blob_once = store.record(123).unwrap().encrypted_refresh_token.clone();
    save_refresh_token(&mut store, 123, 456, "RT1", KEY, at(1000)).unwrap();
    let blob_twice = store.record(123).unwrap().encrypted_refresh_token.clone();
    assert_eq!(store.len(), 1);
    assert_ne!(blob_once, blob_twice);
    assert_eq!(get_refresh_token(&store, 123, KEY).unwrap().unwrap().refresh_token, "RT1");
}

#[test]
fn owners_do_not_touch_each_other() {
    let mut store = TokenStore::new();
    save_refresh_token(&mut store, 1, 10, "RT-one", KEY, at(1)).unwrap();
    let two = save_refresh_token(&mut store, 2, 20, "RT-two", KEY, at(2)).unwrap();
    assert_eq!(two.id, 2);
    let before = store.record(1).unwrap().clone();
    save_access_token(&mut store, 2, "AT-two", at(500), KEY, at(3)).unwrap();
    save_refresh_token(&mut store, 2, 21, "RT-two-b", KEY, at(4)).unwrap();
    assert!(deactivate_integration(&mut store, 2, at(5)));
    let after = store.record(1).unwrap();
    assert_eq!(after.encrypted_refresh_token, before.encrypted_refresh_token);
    assert_eq!(after.updated_at, before.updated_at);
    assert_eq!(after.user_id, 10);
    assert!(after.is_active);
    assert_eq!(store.len(), 2);
}

#[test]
fn access_token_needs_an_integration() {
    let mut store = TokenStore::new();
    assert_eq!(
        save_access_token(&mut store, 123, "AT", at(5000), KEY, at(1000)),
        Err(StoreError::IntegrationNotFound)
    );
    assert_eq!(store.len(), 0);
    save_refresh_token(&mut store, 123, 456, "RT1", KEY, at(1000)).unwrap();
    assert!(deactivate_integration(&mut store, 123, at(1500)));
    assert_eq!(
        save_access_token(&mut store, 123, "AT", at(5000), KEY, at(2000)),
        Err(StoreError::IntegrationNotFound)
    );
    assert!(store.record(123).unwrap().encrypted_access_token.is_none());
}

#[test]
fn access_token_is_stored_sealed_with_its_expiry() {
    let mut store = TokenStore::new();
    save_refresh_token(&mut store, 123, 456, "RT1", KEY, at(1000)).unwrap();
    let meta = save_access_token(&mut store, 123, "AT1", at(5000), KEY, at(2000)).unwrap();
    assert_eq!(meta.access_token_expires_at, Some(at(5000)));
    assert_eq!(meta.updated_at, at(2000));
    assert_eq!(meta.created_at, at(1000));
    let row = store.record(123).unwrap();
    let blob = row.encrypted_access_token.clone().unwrap();
    assert_ne!(blob, "AT1");
    assert_eq!(decrypt_token(&blob, KEY).unwrap(), "AT1");
    assert_eq!(row.access_token_expires_at, Some(at(5000)));
    assert_eq!(get_refresh_token(&store, 123, KEY).unwrap().unwrap().refresh_token, "RT1");
}

#[test]
fn cached_token_is_served_strictly_before_expiry() {
    let mut store = TokenStore::new();
    save_refresh_token(&mut store, 123, 456, "RT1", KEY, at(1000)).unwrap();
    assert!(get_access_token(&store, 123, KEY, at(1000)).unwrap().is_none());
    let expiry = Timestamp { secs: 5000, nanos: 10 };
    save_access_token(&mut store, 123, "AT1", expiry, KEY, at(2000)).unwrap();
    let found = get_access_token(&store, 123, KEY, at(4999)).unwrap().unwrap();
    assert_eq!(found.access_token, "AT1");
    assert_eq!(found.expires_at, expiry);
    let just_before = Timestamp { secs: 5000, nanos: 9 };
    assert!(get_access_token(&store, 123, KEY, just_before).unwrap().is_some());
    assert!(get_access_token(&store, 123, KEY, expiry).unwrap().is_none());
    assert!(get_access_token(&store, 123, KEY, at(5001)).unwrap().is_none());
    assert!(get_access_token(&store, 999, KEY, at(0)).unwrap().is_none());
}

#[test]
fn deactivation_is_idempotent_and_hides_the_integration() {
    let mut store = TokenStore::new();
    assert!(!deactivate_integration(&mut store, 123, at(1)));
    save_refresh_token(&mut store, 123, 456, "RT1", KEY, at(1000)).unwrap();
    save_access_token(&mut store, 123, "AT1", at(9000), KEY, at(1000)).unwrap();
    assert!(deactivate_integration(&mut store, 123, at(2000)));
    assert!(!deactivate_integration(&mut store, 123, at(3000)));
    assert_eq!(store.len(), 1);
    let row = store.record(123).unwrap();
    assert!(!row.is_active);
    assert_eq!(row.updated_at, at(2000));
    assert_eq!(get_integration(&store, 123), None);
    assert!(get_refresh_token(&store, 123, KEY).unwrap().is_none());
    assert!(get_access_token(&store, 123, KEY, at(2500)).unwrap().is_none());
}

#[test]
fn saving_a_refresh_token_reactivates() {
    let mut store = TokenStore::new();
    save_refresh_token(&mut store, 123, 456, "RT1", KEY, at(1000)).unwrap();
    deactivate_integration(&mut store, 123, at(2000));
    let meta = save_refresh_token(&mut store, 123, 456, "RT2", KEY, at(3000)).unwrap();
    assert!(meta.is_active);
    assert_eq!(meta.id, 1);
    assert_eq!(store.len(), 1);
    assert_eq!(get_integration(&store, 123), Some(meta));
}

#[test]
fn wrong_key_is_a_decryption_failure() {
    let mut store = TokenStore::new();
    save_refresh_token(&mut store, 123, 456, "RT1", KEY, at(1000)).unwrap();
    save_access_token(&mut store, 123, "AT1", at(9000), KEY, at(1000)).unwrap();
    assert_eq!(
        get_refresh_token(&store, 123, "other").unwrap_err(),
        StoreError::Cipher(CipherError::DecryptionFailed)
    );
    assert_eq!(
        get_access_token(&store, 123, "other", at(2000)).unwrap_err(),
        StoreError::Cipher(CipherError::DecryptionFailed)
    );
    assert!(get_access_token(&store, 123, "other", at(9000)).unwrap().is_none());
    assert!(get_integration(&store, 123).is_some());
}

#[test]
fn garbled_blob_is_a_malformed_token() {
    let store = TokenStore::from_records(vec![record(1, 7, "%%%")]).unwrap();
    assert_eq!(
        get_refresh_token(&store, 7, KEY).unwrap_err(),
        StoreError::Cipher(CipherError::MalformedToken)
    );
}

#[test]
fn table_is_restored_from_records() {
    let blob = encrypt_token("RT-restored", KEY).unwrap();
    let mut inactive = record(41, 8, &blob);
    inactive.is_active = false;
    let mut store =
        TokenStore::from_records(vec![record(7, 5, &blob), inactive, record(-3, 6, &blob)]).unwrap();
    assert_eq!(store.len(), 3);
    assert_eq!(get_refresh_token(&store, 5, KEY).unwrap().unwrap().refresh_token, "RT-restored");
    assert_eq!(get_integration(&store, 5).unwrap().id, 7);
    assert_eq!(get_integration(&store, 8), None);
    let fresh = save_refresh_token(&mut store, 9, 1, "RT9", KEY, at(10)).unwrap();
    assert_eq!(fresh.id, 42);
    assert!(TokenStore::from_records(Vec::new()).is_some());
}

#[test]
fn records_that_make_no_table_are_refused() {
    assert!(TokenStore::from_records(vec![record(1, 5, "a"), record(2, 5, "b")]).is_none());
    let mut token_without_expiry = record(1, 5, "a");
    token_without_expiry.encrypted_access_token = Some("x".to_string());
    assert!(TokenStore::from_records(vec![token_without_expiry]).is_none());
    let mut expiry_without_token = record(1, 5, "a");
    expiry_without_token.access_token_expires_at = Some(at(1));
    assert!(TokenStore::from_records(vec![expiry_without_token]).is_none());
}

#[test]
fn full_table_takes_no_new_owner() {
    let blob = encrypt_token("RT", KEY).unwrap();
    let mut store = TokenStore::from_records(vec![record(i32::MAX, 5, &blob)]).unwrap();
    assert_eq!(
        save_refresh_token(&mut store, 6, 1, "RT6", KEY, at(1)),
        Err(StoreError::StoreUnavailable)
    );
    assert_eq!(store.len(), 1);
    assert!(save_refresh_token(&mut store, 5, 1, "RT5", KEY, at(1)).is_ok());
}

#[test]
fn sealed_tokens_can_be_put_directly() {
    let mut store = TokenStore::new();
    let meta = store.put_refresh_token(3, 4, "blob-r".to_string(), at(1)).unwrap();
    assert_eq!(meta.id, 1);
    assert_eq!(store.record(3).unwrap().encrypted_refresh_token, "blob-r");
    store.put_access_token(3, "blob-a".to_string(), at(50), at(2)).unwrap();
    assert_eq!(store.record(3).unwrap().encrypted_access_token.as_deref(), Some("blob-a"));
    assert_eq!(
        store.put_access_token(4, "blob-a".to_string(), at(50), at(2)),
        Err(StoreError::IntegrationNotFound)
    );
    assert!(store.deactivate(3, at(3)));
    assert!(!store.deactivate(3, at(4)));
}

#[test]
fn journal_names_each_change_once_and_in_order() {
    let mut store = TokenStore::new();
    assert!(store.take_writes().is_empty());
    save_refresh_token(&mut store, 123, 456, "RT1", KEY, at(1000)).unwrap();
    save_access_token(&mut store, 123, "AT1", at(5000), KEY, at(2000)).unwrap();
    assert!(save_access_token(&mut store, 999, "AT", at(5000), KEY, at(2500)).is_err());
    assert!(deactivate_integration(&mut store, 123, at(3000)));
    assert!(!deactivate_integration(&mut store, 123, at(4000)));
    let writes = store.take_writes();
    assert_eq!(writes.len(), 3);
    match &writes[0] {
        StoreWrite::RefreshToken { owner_id, user_id, encrypted_refresh_token, at: when } => {
            assert_eq!((*owner_id, *user_id, *when), (123, 456, at(1000)));
            assert_eq!(decrypt_token(encrypted_refresh_token, KEY).unwrap(), "RT1");
            assert_eq!(encrypted_refresh_token, &store.record(123).unwrap().encrypted_refresh_token);
        }
        other => panic!("expected a refresh-token write, got {:?}", other),
    }
    match &writes[1] {
        StoreWrite::AccessToken { owner_id, encrypted_access_token, expires_at, at: when } => {
            assert_eq!((*owner_id, *expires_at, *when), (123, at(5000), at(2000)));
            assert_eq!(decrypt_token(encrypted_access_token, KEY).unwrap(), "AT1");
        }
        other => panic!("expected an access-token write, got {:?}", other),
    }
    assert!(matches!(
        &writes[2],
        StoreWrite::Deactivation { owner_id: 123, at: when } if *when == at(3000)
    ));
    assert!(store.take_writes().is_empty());
    assert_eq!(store.len(), 1);
    assert!(!store.record(123).unwrap().is_active);
}

#[test]
fn restored_table_starts_with_an_empty_journal() {
    let blob = encrypt_token("RT", KEY).unwrap();
    let mut store = TokenStore::from_records(vec![record(7, 5, &blob)]).unwrap();
    assert!(store.take_writes().is_empty());
    get_refresh_token(&store, 5, KEY).unwrap();
    get_integration(&store, 5);
    assert!(store.take_writes().is_empty());
}
