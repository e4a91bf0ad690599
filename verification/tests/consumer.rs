use ferris_file_sync::config::{Config, ConfigError};
use ferris_file_sync::consumer::{
    process_message, provider_unreachable, resume_message, Pending, ProcessError, Progress,
};
use ferris_file_sync::db::models::IntegrationRecord;
use ferris_file_sync::db::onedrive::{
    get_access_token, get_refresh_token, save_access_token, StoreError, TokenStore,
};
use ferris_file_sync::messages::MalformedEvent;
use ferris_file_sync::onedrive::{ProviderReply, TokenError};
use ferris_file_sync::queue::{QueueAction, QueueConsumer, QueueEvent, QueueMessage};
use ferris_file_sync::time::Timestamp;

fn at(secs: i64) -> Timestamp {
    Timestamp { secs, nanos: 0 }
}

fn config() -> Config {
    Config::from_env(
        Some("postgres://db".to_string()),
        Some("https://queue".to_string()),
        None,
        Some("bucket".to_string()),
        None,
        Some("consumer-test-key".to_string()),
        Some("cid".to_string()),
        Some("csecret".to_string()),
    )
    .unwrap()
}

fn reply(status: u16, body: &str) -> ProviderReply {
    ProviderReply { status, body: body.to_string() }
}

const AUTH: &str = r#"{"event_type":"onedrive_authorization","payload":{"refresh_token":"RT1","owner_id":123,"user_id":456,"timestamp":"2025-03-24T13:05:23Z"}}"#;
const SYNC: &str = r#"{"event_type":"file_sync","payload":{"bucket":"b","key":"k","destination":"/d/","owner_id":123,"user_id":null,"timestamp":"2025-03-24T13:10:23Z"}}"#;

fn message(id: &str, body: Option<&str>, receipt: Option<&str>) -> QueueMessage {
    QueueMessage {
        message_id: Some(id.to_string()),
        body: body.map(|b| b.to_string()),
        receipt_handle: receipt.map(|r| r.to_string()),
    }
}

#[test]
fn authorization_is_stored_and_tried_out() {
    let cfg = config();
    let mut store = TokenStore::new();
    match process_message(AUTH, &mut store, &cfg, at(1000)) {
        Progress::AwaitProvider { pending, request } => {
            assert_eq!(pending, Pending::Validation { owner_id: 123 });
            assert_eq!(request.params[0], ("client_id".to_string(), "cid".to_string()));
            assert_eq!(request.params[1], ("client_secret".to_string(), "csecret".to_string()));
            assert_eq!(request.params[2], ("refresh_token".to_string(), "RT1".to_string()));
        }
        other => panic!("expected a request to the provider, got {:?}", other),
    }
    assert_eq!(store.len(), 1);
    let row = store.record(123).unwrap();
    assert!(row.is_active);
    assert_eq!(row.user_id, 456);
    assert_ne!(row.encrypted_refresh_token, "RT1");
    assert_eq!(
        get_refresh_token(&store, 123, "consumer-test-key").unwrap().unwrap().refresh_token,
        "RT1"
    );
}

#[test]
fn same_authorization_twice_leaves_one_record() {
    let cfg = config();
    let mut store = TokenStore::new();
    let second = AUTH.replace("RT1", "RT2");
    assert!(matches!(
        process_message(AUTH, &mut store, &cfg, at(1000)),
        Progress::AwaitProvider { .. }
    ));
    assert!(matches!(
        process_message(AUTH, &mut store, &cfg, at(1001)),
        Progress::AwaitProvider { .. }
    ));
    assert_eq!(store.len(), 1);
    assert!(matches!(
        process_message(&second, &mut store, &cfg, at(1002)),
        Progress::AwaitProvider { .. }
    ));
    assert_eq!(store.len(), 1);
    assert!(store.record(123).unwrap().is_active);
    assert_eq!(
        get_refresh_token(&store, 123, "consumer-test-key").unwrap().unwrap().refresh_token,
        "RT2"
    );
}

#[test]
fn authorization_fails_where_the_provider_refuses_and_keeps_its_token() {
    let cfg = config();
    let mut store = TokenStore::new();
    let pending = match process_message(AUTH, &mut store, &cfg, at(1000)) {
        Progress::AwaitProvider { pending, .. } => pending,
        other => panic!("expected a request to the provider, got {:?}", other),
    };
    match resume_message(pending, &reply(400, "invalid_grant"), &mut store, &cfg, at(1001)) {
        Err(ProcessError::Token(TokenError::RefreshFailed { status, body })) => {
            assert_eq!(status, 400);
            assert_eq!(body, "invalid_grant");
        }
        other => panic!("expected a refresh failure, got {:?}", other),
    }
    assert!(store.record(123).unwrap().encrypted_access_token.is_none());
    assert_eq!(
        get_refresh_token(&store, 123, "consumer-test-key").unwrap().unwrap().refresh_token,
        "RT1"
    );
    assert!(matches!(
        resume_message(pending, &reply(200, "garbage"), &mut store, &cfg, at(1002)),
        Err(ProcessError::Token(TokenError::ResponseParseError))
    ));
    assert_eq!(
        get_refresh_token(&store, 123, "consumer-test-key").unwrap().unwrap().refresh_token,
        "RT1"
    );

    let mut consumer = QueueConsumer::new();
    consumer.step(QueueEvent::Received(vec![message("m1", Some(AUTH), Some("r1"))]));
    assert!(matches!(
        consumer.step(QueueEvent::Handled { success: false }),
        QueueAction::Receive { .. }
    ));

    let granted = reply(200, r#"{"access_token":"AT1","expires_in":3600}"#);
    assert!(resume_message(pending, &granted, &mut store, &cfg, at(1003)).is_ok());
    assert_eq!(
        get_access_token(&store, 123, "consumer-test-key", at(1004)).unwrap().unwrap().access_token,
        "AT1"
    );
    assert_eq!(store.record(123).unwrap().access_token_expires_at, Some(at(1003 + 3600 - 300)));
}

#[test]
fn unreachable_provider_fails_either_handler() {
    for pending in [Pending::Validation { owner_id: 1 }, Pending::Transfer { owner_id: 1 }] {
        assert!(matches!(
            provider_unreachable(pending),
            Err(ProcessError::Token(TokenError::ProviderUnreachable))
        ));
    }
}

#[test]
fn authorization_fails_on_a_cached_token_that_does_not_open() {
    let cfg = config();
    let blob = ferris_file_sync::db::encryption::encrypt_token("RT0", "consumer-test-key").unwrap();
    let row = IntegrationRecord {
        id: 4,
        owner_id: 123,
        user_id: 1,
        encrypted_refresh_token: blob,
        encrypted_access_token: Some("@@@".to_string()),
        access_token_expires_at: Some(at(9000)),
        is_active: true,
        created_at: at(0),
        updated_at: at(0),
    };
    let mut store = TokenStore::from_records(vec![row]).unwrap();
    assert!(matches!(
        process_message(AUTH, &mut store, &cfg, at(1000)),
        Progress::Finished(Err(ProcessError::Token(TokenError::Store(StoreError::Cipher(
            ferris_file_sync::db::encryption::CipherError::MalformedToken
        )))))
    ));
    assert_eq!(
        get_refresh_token(&store, 123, "consumer-test-key").unwrap().unwrap().refresh_token,
        "RT1"
    );
    assert_eq!(store.record(123).unwrap().user_id, 456);
}

#[test]
fn authorization_with_a_usable_cached_token_is_done_at_once() {
    let cfg = config();
    let mut store = TokenStore::new();
    assert!(matches!(
        process_message(AUTH, &mut store, &cfg, at(1000)),
        Progress::AwaitProvider { .. }
    ));
    save_access_token(&mut store, 123, "AT", at(5000), "consumer-test-key", at(1000)).unwrap();
    assert!(matches!(
        process_message(AUTH, &mut store, &cfg, at(1001)),
        Progress::Finished(Ok(()))
    ));
}

#[test]
fn sync_without_authorization_fails_and_is_not_deleted() {
    let cfg = config();
    let mut store = TokenStore::new();
    let progress = process_message(SYNC, &mut store, &cfg, at(1000));
    let result = match progress {
        Progress::Finished(result) => result,
        other => panic!("expected the handler to finish, got {:?}", other),
    };
    assert!(matches!(result, Err(ProcessError::Token(TokenError::NoIntegration))));
    assert_eq!(store.len(), 0);

    let mut consumer = QueueConsumer::new();
    let first = consumer.step(QueueEvent::Received(vec![message("m1", Some(SYNC), Some("r1"))]));
    assert!(matches!(first, QueueAction::Handle { ref body } if body == SYNC));
    let next = consumer.step(QueueEvent::Handled { success: result.is_ok() });
    assert!(matches!(
        next,
        QueueAction::Receive { wait_time_seconds: 20, max_number_of_messages: 10 }
    ));
}

#[test]
fn unknown_kind_fails_and_is_left_for_redelivery() {
    let cfg = config();
    let mut store = TokenStore::new();
    let body = r#"{"event_type": "unknown_kind", "payload": {"owner_id": 123}}"#;
    let result = match process_message(body, &mut store, &cfg, at(1000)) {
        Progress::Finished(result) => result,
        other => panic!("expected the handler to finish, got {:?}", other),
    };
    assert!(matches!(
        result,
        Err(ProcessError::Malformed(MalformedEvent::UnknownEventType))
    ));
    assert_eq!(store.len(), 0);

    let mut consumer = QueueConsumer::new();
    consumer.step(QueueEvent::Received(vec![
        message("m1", Some(body), Some("r1")),
        message("m2", Some(AUTH), Some("r2")),
    ]));
    let next = consumer.step(QueueEvent::Handled { success: false });
    assert!(matches!(next, QueueAction::Handle { ref body } if body == AUTH));
}

#[test]
fn sync_with_integration_asks_the_provider_and_fails_where_it_refuses() {
    let cfg = config();
    let mut store = TokenStore::new();
    process_message(AUTH, &mut store, &cfg, at(1000));
    let pending = match process_message(SYNC, &mut store, &cfg, at(1001)) {
        Progress::AwaitProvider { pending, request } => {
            assert_eq!(request.params[2].1, "RT1");
            pending
        }
        other => panic!("expected a request to the provider, got {:?}", other),
    };
    assert_eq!(pending, Pending::Transfer { owner_id: 123 });
    match resume_message(pending, &reply(503, "busy"), &mut store, &cfg, at(1002)) {
        Err(ProcessError::Token(TokenError::RefreshFailed { status, body })) => {
            assert_eq!(status, 503);
            assert_eq!(body, "busy");
        }
        other => panic!("expected a refresh failure, got {:?}", other),
    }
    assert!(matches!(
        resume_message(pending, &reply(200, "{}"), &mut store, &cfg, at(1002)),
        Err(ProcessError::Token(TokenError::ResponseParseError))
    ));
    let granted = reply(200, r#"{"access_token":"AT1","expires_in":3600,"refresh_token":"RT2"}"#);
    assert!(resume_message(pending, &granted, &mut store, &cfg, at(1003)).is_ok());
    assert!(matches!(
        process_message(SYNC, &mut store, &cfg, at(1004)),
        Progress::Finished(Ok(()))
    ));
    assert_eq!(
        get_refresh_token(&store, 123, "consumer-test-key").unwrap().unwrap().refresh_token,
        "RT2"
    );
}

#[test]
fn authorization_fails_where_the_table_is_full() {
    let cfg = config();
    let last = IntegrationRecord {
        id: i32::MAX,
        owner_id: 1,
        user_id: 1,
        encrypted_refresh_token: "blob".to_string(),
        encrypted_access_token: None,
        access_token_expires_at: None,
        is_active: true,
        created_at: at(0),
        updated_at: at(0),
    };
    let mut store = TokenStore::from_records(vec![last]).unwrap();
    assert!(matches!(
        process_message(AUTH, &mut store, &cfg, at(1000)),
        Progress::Finished(Err(ProcessError::Store(StoreError::StoreUnavailable)))
    ));
    assert_eq!(store.len(), 1);
    assert!(store.record(123).is_none());
}

#[test]
fn transfer_for_a_vanished_owner_fails() {
    let cfg = config();
    let mut store = TokenStore::new();
    let granted = reply(200, r#"{"access_token":"AT1","expires_in":3600}"#);
    assert!(matches!(
        resume_message(Pending::Transfer { owner_id: 9 }, &granted, &mut store, &cfg, at(1)),
        Err(ProcessError::Token(TokenError::Store(StoreError::IntegrationNotFound)))
    ));
    assert!(matches!(
        resume_message(Pending::Validation { owner_id: 9 }, &granted, &mut store, &cfg, at(1)),
        Err(ProcessError::Token(TokenError::Store(StoreError::IntegrationNotFound)))
    ));
}

#[test]
fn successful_message_is_deleted_after_its_handler() {
    let mut consumer = QueueConsumer::new();
    assert!(matches!(
        consumer.pending_action(),
        QueueAction::Receive { wait_time_seconds: 20, max_number_of_messages: 10 }
    ));
    let batch = vec![message("m1", Some("one"), Some("r1")), message("m2", Some("two"), Some("r2"))];
    assert!(matches!(
        consumer.step(QueueEvent::Received(batch)),
        QueueAction::Handle { ref body } if body == "one"
    ));
    assert!(matches!(
        consumer.step(QueueEvent::Handled { success: true }),
        QueueAction::Delete { ref receipt_handle } if receipt_handle == "r1"
    ));
    assert!(matches!(
        consumer.step(QueueEvent::Deleted),
        QueueAction::Handle { ref body } if body == "two"
    ));
    assert!(matches!(
        consumer.step(QueueEvent::Handled { success: false }),
        QueueAction::Receive { .. }
    ));
}

#[test]
fn empty_poll_backs_off_for_a_second() {
    let mut consumer = QueueConsumer::new();
    assert!(matches!(
        consumer.step(QueueEvent::Received(Vec::new())),
        QueueAction::Sleep { seconds: 1 }
    ));
    assert!(matches!(
        consumer.step(QueueEvent::Woke),
        QueueAction::Receive { wait_time_seconds: 20, max_number_of_messages: 10 }
    ));
}

#[test]
fn messages_without_body_or_receipt_are_dealt_with() {
    let mut consumer = QueueConsumer::new();
    let batch = vec![
        message("m0", None, None),
        message("m1", None, Some("r1")),
        message("m2", Some("two"), None),
        message("m3", None, None),
    ];
    assert!(matches!(
        consumer.step(QueueEvent::Received(batch)),
        QueueAction::Delete { ref receipt_handle } if receipt_handle == "r1"
    ));
    assert!(matches!(
        consumer.step(QueueEvent::Deleted),
        QueueAction::Handle { ref body } if body == "two"
    ));
    assert!(matches!(
        consumer.step(QueueEvent::Handled { success: true }),
        QueueAction::Receive { .. }
    ));
}

#[test]
fn report_that_answers_nothing_repeats_the_action() {
    let mut consumer = QueueConsumer::new();
    assert!(matches!(consumer.step(QueueEvent::Woke), QueueAction::Receive { .. }));
    assert!(matches!(consumer.step(QueueEvent::Deleted), QueueAction::Receive { .. }));
    consumer.step(QueueEvent::Received(vec![message("m1", Some("one"), Some("r1"))]));
    assert!(matches!(
        consumer.step(QueueEvent::Deleted),
        QueueAction::Handle { ref body } if body == "one"
    ));
    assert!(matches!(
        consumer.step(QueueEvent::Received(vec![message("mx", Some("x"), Some("rx"))])),
        QueueAction::Handle { ref body } if body == "one"
    ));
    assert!(matches!(
        consumer.step(QueueEvent::Handled { success: true }),
        QueueAction::Delete { ref receipt_handle } if receipt_handle == "r1"
    ));
    assert!(matches!(
        consumer.step(QueueEvent::Handled { success: true }),
        QueueAction::Delete { ref receipt_handle } if receipt_handle == "r1"
    ));
    consumer.step(QueueEvent::Deleted);
    consumer.step(QueueEvent::Received(Vec::new()));
    assert!(matches!(
        consumer.step(QueueEvent::Handled { success: true }),
        QueueAction::Sleep { seconds: 1 }
    ));
}

#[test]
fn configuration_takes_values_and_defaults() {
    let full = Config::from_env(
        Some("db".to_string()),
        Some("q".to_string()),
        Some("eu-west-1".to_string()),
        Some("bkt".to_string()),
        Some("http://localhost:4566".to_string()),
        Some("k".to_string()),
        Some("id".to_string()),
        Some("sec".to_string()),
    )
    .unwrap();
    assert_eq!(full.database_url, "db");
    assert_eq!(full.queue_url, "q");
    assert_eq!(full.aws_region, "eu-west-1");
    assert_eq!(full.s3_bucket, "bkt");
    assert_eq!(full.s3_endpoint.as_deref(), Some("http://localhost:4566"));
    assert_eq!(full.encryption_key, "k");
    assert_eq!(full.onedrive_client_id, "id");
    assert_eq!(full.onedrive_client_secret, "sec");

    let bare = Config::from_env(
        Some("db".to_string()),
        Some("q".to_string()),
        None,
        Some("bkt".to_string()),
        None,
        None,
        None,
        None,
    )
    .unwrap();
    assert_eq!(bare.aws_region, "us-east-1");
    assert_eq!(bare.s3_endpoint, None);
    assert_eq!(bare.encryption_key, "default-dev-key-please-change-in-production");
    assert_eq!(bare.onedrive_client_id, "your-client-id");
    assert_eq!(bare.onedrive_client_secret, "your-client-secret");
}

#[test]
fn configuration_names_the_first_missing_value() {
    let s = |v: &str| Some(v.to_string());
    assert_eq!(
        Config::from_env(None, None, None, None, None, None, None, None).unwrap_err(),
        ConfigError::MissingDatabaseUrl
    );
    assert_eq!(
        Config::from_env(s("db"), None, None, None, None, None, None, None).unwrap_err(),
        ConfigError::MissingQueueUrl
    );
    assert_eq!(
        Config::from_env(s("db"), s("q"), s("r"), None, s("e"), s("k"), s("i"), s("c")).unwrap_err(),
        ConfigError::MissingS3Bucket
    );
    assert_eq!(
        Config::from_env(None, s("q"), None, s("b"), None, None, None, None).unwrap_err(),
        ConfigError::MissingDatabaseUrl
    );
}
