//! Queue events: the two kinds of message that the worker understands, and
//! the decoder that turns a message body into one of them.

use crate::json::{json_of_text, parse_json, Json, JsonTree};
use crate::time::{parse_timestamp, timestamp_of_text, Timestamp};
use vstd::prelude::*;

verus! {

/// The envelope that every message travels in.
#[derive(Debug)]
pub struct Message<T> {
    pub event_type: String,
    pub payload: T,
}

/// An owner has authorised the worker: here is the refresh token.
#[derive(Debug)]
pub struct OneDriveAuthorizationPayload {
    pub refresh_token: String,
    pub owner_id: i64,
    pub user_id: i64,
    pub timestamp: Timestamp,
}

/// A file is to be copied from object storage to the owner's drive.
#[derive(Debug)]
pub struct FileSyncPayload {
    pub bucket: String,
    pub key: String,
    pub destination: String,
    pub owner_id: i64,
    pub user_id: Option<i64>,
    pub timestamp: Timestamp,
}

/// A decoded message.  The set of kinds is closed.
#[derive(Debug)]
#[allow(inconsistent_fields)]
pub enum MessageType {
    OneDriveAuthorization { payload: OneDriveAuthorizationPayload },
    FileSync { payload: FileSyncPayload },
}

/// Why a message body is no event.
#[derive(Clone, Copy, Debug, PartialEq, Eq, Structural)]
pub enum MalformedEvent {
    /// The body is not a JSON document.
    NotJson,
    /// The document is no object, or has no text under `event_type`.
    MissingEventType,
    /// The text under `event_type` names no kind of event.
    UnknownEventType,
    /// The payload is missing, lacks a field or holds one of the wrong type.
    InvalidPayload,
}

/// An authorization event as a mathematical value.
pub struct AuthorizationEvent {
    pub owner_id: i64,
    pub user_id: i64,
    pub refresh_token: Seq<char>,
    pub timestamp: Timestamp,
}

/// A sync-request event as a mathematical value.
pub struct SyncRequestEvent {
    pub owner_id: i64,
    pub user_id: Option<i64>,
    pub source_bucket: Seq<char>,
    pub source_key: Seq<char>,
    pub destination_path: Seq<char>,
    pub timestamp: Timestamp,
}

/// An event as a mathematical value.
pub enum Event {
    Authorization(AuthorizationEvent),
    SyncRequest(SyncRequestEvent),
}

impl Event {
    /// The owner that the event is about.
    pub open spec fn owner_id(self) -> i64 {
        match self {
            Event::Authorization(e) => e.owner_id,
            Event::SyncRequest(e) => e.owner_id,
        }
    }
}

impl View for OneDriveAuthorizationPayload {
    type V = AuthorizationEvent;

    open spec fn view(&self) -> AuthorizationEvent {
        AuthorizationEvent {
            owner_id: self.owner_id,
            user_id: self.user_id,
            refresh_token: self.refresh_token@,
            timestamp: self.timestamp,
        }
    }
}

impl View for FileSyncPayload {
    type V = SyncRequestEvent;

    open spec fn view(&self) -> SyncRequestEvent {
        SyncRequestEvent {
            owner_id: self.owner_id,
            user_id: self.user_id,
            source_bucket: self.bucket@,
            source_key: self.key@,
            destination_path: self.destination@,
            timestamp: self.timestamp,
        }
    }
}

impl View for MessageType {
    type V = Event;

    open spec fn view(&self) -> Event {
        match self {
            MessageType::OneDriveAuthorization { payload } => Event::Authorization(payload@),
            MessageType::FileSync { payload } => Event::SyncRequest(payload@),
        }
    }
}

/// The instant under `key`, where `tree` is an object with a date-and-time
/// text there.
pub open spec fn time_at(tree: JsonTree, key: Seq<char>) -> Option<Timestamp> {
    match tree.text_at(key) {
        Some(text) => timestamp_of_text(text),
        None => None,
    }
}

/// The authorization event that a payload holds, where it holds one.
pub open spec fn decoded_authorization(payload: JsonTree) -> Option<AuthorizationEvent> {
    match (
        payload.text_at("refresh_token"@),
        payload.int_at("owner_id"@),
        payload.int_at("user_id"@),
        time_at(payload, "timestamp"@),
    ) {
        (Some(refresh_token), Some(owner_id), Some(user_id), Some(timestamp)) => Some(
            AuthorizationEvent { owner_id, user_id, refresh_token, timestamp },
        ),
        _ => None,
    }
}

/// The sync request that a payload holds, where it holds one.  The user id
/// may be missing or `null`.
pub open spec fn decoded_sync_request(payload: JsonTree) -> Option<SyncRequestEvent> {
    match (
        payload.text_at("bucket"@),
        payload.text_at("key"@),
        payload.text_at("destination"@),
        payload.int_at("owner_id"@),
        payload.optional_int_at("user_id"@),
        time_at(payload, "timestamp"@),
    ) {
        (
            Some(source_bucket),
            Some(source_key),
            Some(destination_path),
            Some(owner_id),
            Some(user_id),
            Some(timestamp),
        ) => Some(
            SyncRequestEvent {
                owner_id,
                user_id,
                source_bucket,
                source_key,
                destination_path,
                timestamp,
            },
        ),
        _ => None,
    }
}

/// The event that a JSON document holds.  The text under `event_type`
/// alone selects the kind.
pub open spec fn decoded_document(doc: JsonTree) -> Result<Event, MalformedEvent> {
    match doc.text_at("event_type"@) {
        None => Err(MalformedEvent::MissingEventType),
        Some(kind) => if kind == "onedrive_authorization"@ {
            match doc.get("payload"@) {
                None => Err(MalformedEvent::InvalidPayload),
                Some(payload) => match decoded_authorization(payload) {
                    Some(event) => Ok(Event::Authorization(event)),
                    None => Err(MalformedEvent::InvalidPayload),
                },
            }
        } else if kind == "file_sync"@ {
            match doc.get("payload"@) {
                None => Err(MalformedEvent::InvalidPayload),
                Some(payload) => match decoded_sync_request(payload) {
                    Some(event) => Ok(Event::SyncRequest(event)),
                    None => Err(MalformedEvent::InvalidPayload),
                },
            }
        } else {
            Err(MalformedEvent::UnknownEventType)
        },
    }
}

/// The event that a message body holds.
pub open spec fn decoded_event(body: Seq<char>) -> Result<Event, MalformedEvent> {
    match json_of_text(body) {
        None => Err(MalformedEvent::NotJson),
        Some(doc) => decoded_document(doc),
    }
}

/// Whether `text` reads `literal`.
fn reads(text: &String, literal: &str) -> (r: bool)
    ensures
        r == (text@ == literal@),
{
    let wanted: String = literal.to_owned();
    *text == wanted
}

/// The instant under `key`.
fn timestamp_at(tree: &Json, key: &str) -> (r: Option<Timestamp>)
    ensures
        r == time_at(tree@, key@),
{
    match tree.text_at(key) {
        Some(text) => parse_timestamp(text.as_str()),
        None => None,
    }
}

/// Reads an authorization payload.
fn decode_authorization(payload: &Json) -> (r: Option<OneDriveAuthorizationPayload>)
    ensures
        match r {
            Some(p) => decoded_authorization(payload@) == Some(p@),
            None => decoded_authorization(payload@) is None,
        },
{
    let refresh_token = match payload.text_at("refresh_token") {
        Some(v) => v,
        None => { return None; },
    };
    let owner_id: i64 = match payload.int_at("owner_id") {
        Some(v) => v,
        None => { return None; },
    };
    let user_id: i64 = match payload.int_at("user_id") {
        Some(v) => v,
        None => { return None; },
    };
    let timestamp = match timestamp_at(payload, "timestamp") {
        Some(v) => v,
        None => { return None; },
    };
    Some(OneDriveAuthorizationPayload { refresh_token, owner_id, user_id, timestamp })
}

/// Reads a sync-request payload.
fn decode_sync_request(payload: &Json) -> (r: Option<FileSyncPayload>)
    ensures
        match r {
            Some(p) => decoded_sync_request(payload@) == Some(p@),
            None => decoded_sync_request(payload@) is None,
        },
{
    let bucket = match payload.text_at("bucket") {
        Some(v) => v,
        None => { return None; },
    };
    let key = match payload.text_at("key") {
        Some(v) => v,
        None => { return None; },
    };
    let destination = match payload.text_at("destination") {
        Some(v) => v,
        None => { return None; },
    };
    let owner_id: i64 = match payload.int_at("owner_id") {
        Some(v) => v,
        None => { return None; },
    };
    let user_id: Option<i64> = match payload.optional_int_at("user_id") {
        Some(v) => v,
        None => { return None; },
    };
    let timestamp = match timestamp_at(payload, "timestamp") {
        Some(v) => v,
        None => { return None; },
    };
    Some(FileSyncPayload { bucket, key, destination, owner_id, user_id, timestamp })
}

/// Reads the event that a JSON document holds.
///
/// An unknown kind is told apart from a document without a kind and from
/// one whose payload does not fit the kind it names.
pub fn decode_event(doc: &Json) -> (r: Result<MessageType, MalformedEvent>)
    ensures
        match r {
            Ok(message) => decoded_document(doc@) == Ok::<Event, MalformedEvent>(message@),
            Err(e) => decoded_document(doc@) == Err::<Event, MalformedEvent>(e),
        },
{
    let kind = match doc.text_at("event_type") {
        Some(kind) => kind,
        None => { return Err(MalformedEvent::MissingEventType); },
    };
    if reads(&kind, "onedrive_authorization") {
        match doc.get("payload") {
            None => Err(MalformedEvent::InvalidPayload),
            Some(payload) => match decode_authorization(payload) {
                Some(payload) => Ok(MessageType::OneDriveAuthorization { payload }),
                None => Err(MalformedEvent::InvalidPayload),
            },
        }
    } else if reads(&kind, "file_sync") {
        match doc.get("payload") {
            None => Err(MalformedEvent::InvalidPayload),
            Some(payload) => match decode_sync_request(payload) {
                Some(payload) => Ok(MessageType::FileSync { payload }),
                None => Err(MalformedEvent::InvalidPayload),
            },
        }
    } else {
        Err(MalformedEvent::UnknownEventType)
    }
}

/// Decodes a message body.
pub fn parse_message(message_str: &str) -> (r: Result<MessageType, MalformedEvent>)
    ensures
        match r {
            Ok(message) => decoded_event(message_str@) == Ok::<Event, MalformedEvent>(message@),
            Err(e) => decoded_event(message_str@) == Err::<Event, MalformedEvent>(e),
        },
{
    match parse_json(message_str) {
        Some(doc) => decode_event(&doc),
        None => Err(MalformedEvent::NotJson),
    }
}

} // verus!
