//! Queue consumption: what is done with one message, and which message
//! may be acknowledged.
//!
//! Delivery is at least once.  A message is deleted only after its handler
//! went through; a message whose handler failed stays in the queue and
//! comes back after its visibility timeout.  Handlers are therefore safe to
//! run again on the same event.

use crate::config::Config;
use crate::db::encryption::{sealable, CipherError};
use crate::db::models::Row;
use crate::db::onedrive::{
    active_row, has_owner, has_room, lemma_refresh_token_stored, lemma_rows_for, next_id_after,
    rows_for, save_refresh_token, stored_refresh_token, table_wf, with_refresh_token, StoreError,
    TokenStore,
};
use crate::messages::{decoded_event, parse_message, Event, MalformedEvent, MessageType};
use crate::onedrive::{
    planned, reply_followed, OneDriveClient, ProviderReply, TokenError, TokenFailure,
    TokenRequest, TokenStep,
};
use crate::time::Timestamp;
use vstd::prelude::*;

verus! {

/// Why a message was not handled.
#[derive(Debug)]
pub enum ProcessError {
    /// The body is no event.
    Malformed(MalformedEvent),
    /// The refresh token of an authorization could not be stored.
    Store(StoreError),
    /// No access token could be had for a sync request.
    Token(TokenError),
}

/// A [`ProcessError`] as a mathematical value.
pub enum ProcessFailure {
    Malformed(MalformedEvent),
    Store(StoreError),
    Token(TokenFailure),
}

impl View for ProcessError {
    type V = ProcessFailure;

    open spec fn view(&self) -> ProcessFailure {
        match self {
            ProcessError::Malformed(e) => ProcessFailure::Malformed(*e),
            ProcessError::Store(e) => ProcessFailure::Store(*e),
            ProcessError::Token(e) => ProcessFailure::Token(e@),
        }
    }
}

/// A handler that waits for the provider's reply.
#[derive(Clone, Copy, Debug, PartialEq, Eq, Structural)]
pub enum Pending {
    /// An authorization was stored; its refresh token is being tried out.
    Validation { owner_id: i64 },
    /// A sync request needs an access token.
    Transfer { owner_id: i64 },
}

impl Pending {
    /// The owner that the handler works for.
    pub open spec fn owner(self) -> i64 {
        match self {
            Pending::Validation { owner_id } => owner_id,
            Pending::Transfer { owner_id } => owner_id,
        }
    }
}

/// How far the handling of one message has come.
#[derive(Debug)]
pub enum Progress {
    /// The handler is done, with this outcome.
    Finished(Result<(), ProcessError>),
    /// The caller is to send `request` and to hand the reply, with
    /// `pending`, to [`resume_message`].
    AwaitProvider { pending: Pending, request: TokenRequest },
}

/// Whether `progress`, and the table after it, are what handling `body` at
/// `now` leads to under the given secret and credentials.
///
/// A body that is no event fails and changes nothing.  An authorization
/// stores its refresh token, which fails with a store error and changes
/// nothing where the token cannot be stored, and then tries the token
/// out as a sync request would; the token stays stored whatever comes of
/// that.  A sync request changes nothing: it succeeds on a cached access
/// token, asks for a request to the provider where a refresh token is
/// stored, and fails where no access token can be had.
pub open spec fn handled(
    body: Seq<char>,
    secret: Seq<char>,
    client_id: Seq<char>,
    client_secret: Seq<char>,
    before: Seq<Row>,
    next_id: int,
    after: Seq<Row>,
    next_id_then: int,
    now: Timestamp,
    progress: Progress,
) -> bool {
    match decoded_event(body) {
        Err(fault) => {
            &&& progress matches Progress::Finished(Err(e)) && e@ == ProcessFailure::Malformed(
                fault,
            )
            &&& after == before
            &&& next_id_then == next_id
        },
        Ok(Event::Authorization(event)) => match progress {
            Progress::Finished(Err(ProcessError::Store(fault))) => {
                &&& after == before
                &&& next_id_then == next_id
                &&& {
                    ||| fault == StoreError::Cipher(CipherError::NonceUnavailable)
                    ||| (fault == StoreError::Cipher(CipherError::EncryptionFailed) && !sealable(
                        event.refresh_token,
                    ))
                    ||| (fault == StoreError::StoreUnavailable && !has_room(
                        before,
                        next_id,
                        event.owner_id,
                    ))
                }
            },
            _ => {
                &&& sealable(event.refresh_token)
                &&& has_room(before, next_id, event.owner_id)
                &&& next_id_then == next_id_after(before, next_id, event.owner_id)
                &&& active_row(after, event.owner_id) matches Some(row) && after
                    == with_refresh_token(
                    before,
                    next_id,
                    event.owner_id,
                    event.user_id,
                    row.encrypted_refresh_token,
                    now,
                )
                &&& stored_refresh_token(after, event.owner_id, secret) == Ok::<
                    Option<Seq<char>>,
                    CipherError,
                >(Some(event.refresh_token))
                &&& match planned(secret, client_id, client_secret, after, event.owner_id, now) {
                    Err(failure) => progress matches Progress::Finished(Err(e)) && e@
                        == ProcessFailure::Token(failure),
                    Ok(Ok(_)) => progress matches Progress::Finished(Ok(_)),
                    Ok(Err(form)) => progress matches Progress::AwaitProvider { pending, request }
                        && pending == (Pending::Validation { owner_id: event.owner_id })
                        && request@ == form,
                }
            },
        },
        Ok(Event::SyncRequest(event)) => {
            &&& after == before
            &&& next_id_then == next_id
            &&& match planned(secret, client_id, client_secret, before, event.owner_id, now) {
                Err(failure) => progress matches Progress::Finished(Err(e)) && e@
                    == ProcessFailure::Token(failure),
                Ok(Ok(_)) => progress matches Progress::Finished(Ok(_)),
                Ok(Err(form)) => progress matches Progress::AwaitProvider { pending, request }
                    && pending == (Pending::Transfer { owner_id: event.owner_id }) && request@
                    == form,
            }
        },
    }
}

/// Whether `r`, and the table after it, are what the provider's reply,
/// received at `now`, leads to for the handler that waited for it.
///
/// The reply is taken as [`OneDriveClient::complete_refresh`] takes it,
/// and the handler fails where that fails, whichever kind it is: the
/// message is then left to the queue, and a provider that was out of
/// order is asked again on redelivery.  What an authorization stored
/// before stays stored.
pub open spec fn resumed(
    pending: Pending,
    secret: Seq<char>,
    before: Seq<Row>,
    next_id: int,
    after: Seq<Row>,
    status: u16,
    body: Seq<char>,
    now: Timestamp,
    r: Result<(), ProcessError>,
) -> bool {
    exists|inner: Result<String, TokenError>|
        {
            &&& #[trigger] reply_followed(
                secret,
                inner,
                before,
                next_id,
                after,
                pending.owner(),
                status,
                body,
                now,
            )
            &&& match inner {
                Ok(_) => r is Ok,
                Err(e) => r matches Err(failure) && failure@ == ProcessFailure::Token(e@),
            }
        }
}

/// Handles one message body at `now`, up to the point where the provider
/// has to be asked.  Only a handler that returns `Ok` has gone through;
/// every error leaves the message to the queue.
pub fn process_message(
    message_body: &str,
    store: &mut TokenStore,
    config: &Config,
    now: Timestamp,
) -> (progress: Progress)
    requires
        old(store).wf(),
    ensures
        final(store).wf(),
        final(store).base() == old(store).base(),
        old(store).journal().is_prefix_of(final(store).journal()),
        handled(
            message_body@,
            config.encryption_key@,
            config.onedrive_client_id@,
            config.onedrive_client_secret@,
            old(store)@,
            old(store).next_id(),
            final(store)@,
            final(store).next_id(),
            now,
            progress,
        ),
{
    let message = match parse_message(message_body) {
        Ok(message) => message,
        Err(e) => { return Progress::Finished(Err(ProcessError::Malformed(e))); },
    };
    let onedrive_client = OneDriveClient::new(
        config.encryption_key.clone(),
        config.onedrive_client_id.clone(),
        config.onedrive_client_secret.clone(),
    );
    match message {
        MessageType::OneDriveAuthorization { payload } => {
            match save_refresh_token(
                store,
                payload.owner_id,
                payload.user_id,
                payload.refresh_token.as_str(),
                config.encryption_key.as_str(),
                now,
            ) {
                Ok(_) => {},
                Err(e) => { return Progress::Finished(Err(ProcessError::Store(e))); },
            }
            // The token is stored.  Now it is tried out.
            match onedrive_client.get_access_token(store, payload.owner_id, now) {
                Ok(TokenStep::CallProvider(request)) => Progress::AwaitProvider {
                    pending: Pending::Validation { owner_id: payload.owner_id },
                    request,
                },
                Ok(TokenStep::Ready(_)) => Progress::Finished(Ok(())),
                Err(e) => Progress::Finished(Err(ProcessError::Token(e))),
            }
        },
        MessageType::FileSync { payload } => {
            match onedrive_client.get_access_token(store, payload.owner_id, now) {
                Ok(TokenStep::Ready(_)) => Progress::Finished(Ok(())),
                Ok(TokenStep::CallProvider(request)) => Progress::AwaitProvider {
                    pending: Pending::Transfer { owner_id: payload.owner_id },
                    request,
                },
                Err(e) => Progress::Finished(Err(ProcessError::Token(e))),
            }
        },
    }
}

/// Takes up a handler that waited for the provider, with the reply that
/// was received at `now`.
pub fn resume_message(
    pending: Pending,
    reply: &ProviderReply,
    store: &mut TokenStore,
    config: &Config,
    now: Timestamp,
) -> (r: Result<(), ProcessError>)
    requires
        old(store).wf(),
    ensures
        final(store).wf(),
        final(store).next_id() == old(store).next_id(),
        final(store).base() == old(store).base(),
        old(store).journal().is_prefix_of(final(store).journal()),
        resumed(
            pending,
            config.encryption_key@,
            old(store)@,
            old(store).next_id(),
            final(store)@,
            reply.status,
            reply.body@,
            now,
            r,
        ),
{
    let onedrive_client = OneDriveClient::new(
        config.encryption_key.clone(),
        config.onedrive_client_id.clone(),
        config.onedrive_client_secret.clone(),
    );
    let owner_id: i64 = match pending {
        Pending::Validation { owner_id } => owner_id,
        Pending::Transfer { owner_id } => owner_id,
    };
    let inner = onedrive_client.complete_refresh(store, owner_id, reply, now);
    assert(reply_followed(
        config.encryption_key@,
        inner,
        old(store)@,
        old(store).next_id(),
        store@,
        pending.owner(),
        reply.status,
        reply.body@,
        now,
    ));
    match inner {
        Ok(_) => Ok(()),
        Err(e) => Err(ProcessError::Token(e)),
    }
}

/// What comes of a handler whose request did not reach the provider, or
/// got no answer: the message fails, whichever handler waited, and is left
/// to the queue.  The table is not touched, so that what an authorization
/// stored stays stored.
pub fn provider_unreachable(pending: Pending) -> (r: Result<(), ProcessError>)
    ensures
        r matches Err(failure) && failure@ == ProcessFailure::Token(
            TokenFailure::ProviderUnreachable,
        ),
{
    Err(ProcessError::Token(TokenError::ProviderUnreachable))
}

/// Redelivery of an authorization is harmless: however often it was
/// handled before, once its handler has got past storing the token,
/// whatever came of trying the token out, the table has exactly one row
/// for the owner, that row is active, and its refresh token opens to the
/// one that this delivery brought.  An owner who had a row before has got
/// no second one.
pub proof fn lemma_authorization_leaves_one_row(
    body: Seq<char>,
    secret: Seq<char>,
    client_id: Seq<char>,
    client_secret: Seq<char>,
    before: Seq<Row>,
    next_id: int,
    after: Seq<Row>,
    next_id_then: int,
    now: Timestamp,
    progress: Progress,
)
    requires
        table_wf(before, next_id),
        handled(
            body,
            secret,
            client_id,
            client_secret,
            before,
            next_id,
            after,
            next_id_then,
            now,
            progress,
        ),
        decoded_event(body) matches Ok(Event::Authorization(_)),
        !(progress matches Progress::Finished(Err(ProcessError::Store(_)))),
    ensures
        table_wf(after, next_id_then),
        rows_for(after, decoded_event(body)->Ok_0.owner_id()) == 1,
        active_row(after, decoded_event(body)->Ok_0.owner_id()) is Some,
        stored_refresh_token(after, decoded_event(body)->Ok_0.owner_id(), secret) == Ok::<
            Option<Seq<char>>,
            CipherError,
        >(Some(decoded_event(body)->Ok_0->Authorization_0.refresh_token)),
        has_owner(before, decoded_event(body)->Ok_0.owner_id()) ==> after.len() == before.len(),
{
    let event = decoded_event(body)->Ok_0->Authorization_0;
    let row = active_row(after, event.owner_id)->0;
    lemma_refresh_token_stored(
        before,
        next_id,
        event.owner_id,
        event.user_id,
        row.encrypted_refresh_token,
        now,
    );
    lemma_rows_for(after, event.owner_id);
}

} // verus!
