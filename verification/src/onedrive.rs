//! Token lifecycle: a usable access token for an owner, from the cache
//! where it holds one and from the provider's token endpoint where not.
//!
//! The round trip to the provider is the caller's.  [`OneDriveClient::get_access_token`]
//! either hands out the cached token or says what to send;
//! [`OneDriveClient::complete_refresh`] takes the provider's reply and
//! stores what it grants.

use crate::db::encryption::{opened_blob, sealable, CipherError};
use crate::db::onedrive::{
    active_row, cached_access_token, get_access_token, get_integration, get_refresh_token,
    index_of, lemma_row_found, save_access_token, save_refresh_token, stored_refresh_token,
    with_access_token, with_refresh_token, StoreError, TokenStore,
};
use crate::db::models::Row;
use crate::json::{json_of_text, parse_json, Json, JsonTree};
use crate::time::Timestamp;
use vstd::prelude::*;

verus! {

/// What the provider grants on a refresh.
#[derive(Debug)]
pub struct TokenResponse {
    pub access_token: String,
    pub expires_in: i64,
    pub refresh_token: Option<String>,
}

/// A grant as a mathematical value.
pub struct TokenGrant {
    pub access_token: Seq<char>,
    pub expires_in: i64,
    pub refresh_token: Option<Seq<char>>,
}

impl View for TokenResponse {
    type V = TokenGrant;

    open spec fn view(&self) -> TokenGrant {
        TokenGrant {
            access_token: self.access_token@,
            expires_in: self.expires_in,
            refresh_token: match self.refresh_token {
                Some(token) => Some(token@),
                None => None,
            },
        }
    }
}

/// A form-encoded POST that the caller is to send.
#[derive(Debug)]
pub struct TokenRequest {
    pub url: String,
    pub params: Vec<(String, String)>,
}

/// A request as a mathematical value.
pub struct TokenRequestForm {
    pub url: Seq<char>,
    pub params: Seq<(Seq<char>, Seq<char>)>,
}

impl View for TokenRequest {
    type V = TokenRequestForm;

    open spec fn view(&self) -> TokenRequestForm {
        TokenRequestForm {
            url: self.url@,
            params: self.params@.map_values(|p: (String, String)| (p.0@, p.1@)),
        }
    }
}

/// What came back from the token endpoint.
#[derive(Debug)]
pub struct ProviderReply {
    pub status: u16,
    pub body: String,
}

/// What the caller of [`OneDriveClient::get_access_token`] is to do next.
#[derive(Debug)]
pub enum TokenStep {
    /// Nothing: here is a usable access token.
    Ready(String),
    /// Send this request, and hand the reply to
    /// [`OneDriveClient::complete_refresh`].
    CallProvider(TokenRequest),
}

/// Why no access token could be had.
#[derive(Debug)]
pub enum TokenError {
    /// The owner has no active integration: it never authorised, or was
    /// switched off.
    NoIntegration,
    /// The table or the cipher failed.
    Store(StoreError),
    /// The provider could not be reached, or gave no answer.
    ProviderUnreachable,
    /// The provider answered with a status outside 200 to 299.
    RefreshFailed { status: u16, body: String },
    /// The provider's answer is no grant.
    ResponseParseError,
    /// The granted lifetime leads to an expiry that cannot be represented.
    LifetimeOutOfRange,
}

/// A [`TokenError`] as a mathematical value.
pub enum TokenFailure {
    NoIntegration,
    Store(StoreError),
    ProviderUnreachable,
    RefreshFailed { status: u16, body: Seq<char> },
    ResponseParseError,
    LifetimeOutOfRange,
}

impl View for TokenError {
    type V = TokenFailure;

    open spec fn view(&self) -> TokenFailure {
        match self {
            TokenError::NoIntegration => TokenFailure::NoIntegration,
            TokenError::Store(e) => TokenFailure::Store(*e),
            TokenError::ProviderUnreachable => TokenFailure::ProviderUnreachable,
            TokenError::RefreshFailed { status, body } => TokenFailure::RefreshFailed {
                status: *status,
                body: body@,
            },
            TokenError::ResponseParseError => TokenFailure::ResponseParseError,
            TokenError::LifetimeOutOfRange => TokenFailure::LifetimeOutOfRange,
        }
    }
}

/// The form that asks the provider to exchange `refresh_token`.
pub open spec fn refresh_form(
    client_id: Seq<char>,
    client_secret: Seq<char>,
    refresh_token: Seq<char>,
) -> TokenRequestForm {
    TokenRequestForm {
        url: "https://login.microsoftonline.com/common/oauth2/v2.0/token"@,
        params: seq![
            ("client_id"@, client_id),
            ("client_secret"@, client_secret),
            ("refresh_token"@, refresh_token),
            ("grant_type"@, "refresh_token"@),
            ("scope"@, "Files.ReadWrite offline_access"@),
        ],
    }
}

/// Whether an HTTP status reports success.
pub open spec fn is_success(status: u16) -> bool {
    200 <= status < 300
}

/// The grant that a JSON document holds, where it holds one: a text under
/// `access_token`, an integer under `expires_in`, and a text, `null` or
/// nothing under `refresh_token`.
pub open spec fn decoded_grant(doc: JsonTree) -> Option<TokenGrant> {
    match (
        doc.text_at("access_token"@),
        doc.int_at("expires_in"@),
        doc.optional_text_at("refresh_token"@),
    ) {
        (Some(access_token), Some(expires_in), Some(refresh_token)) => Some(
            TokenGrant { access_token, expires_in, refresh_token },
        ),
        _ => None,
    }
}

/// What a reply with this status and body grants.
pub open spec fn granted(status: u16, body: Seq<char>) -> Result<TokenGrant, TokenFailure> {
    if !is_success(status) {
        Err(TokenFailure::RefreshFailed { status, body })
    } else {
        match json_of_text(body) {
            None => Err(TokenFailure::ResponseParseError),
            Some(doc) => match decoded_grant(doc) {
                Some(grant) => Ok(grant),
                None => Err(TokenFailure::ResponseParseError),
            },
        }
    }
}

/// Whether the expiry of a token obtained at `now` with this lifetime can
/// be represented.
pub open spec fn expiry_fits(now: Timestamp, lifetime: i64) -> bool {
    i64::MIN <= now.expiry_secs(lifetime) <= i64::MAX
}

/// When a token obtained at `now` with this lifetime stops being used:
/// `now + lifetime - 5 min`.
pub open spec fn expiry_of(now: Timestamp, lifetime: i64) -> Timestamp {
    Timestamp { secs: now.expiry_secs(lifetime) as i64, nanos: now.nanos }
}

/// What a reply received at `now` grants, with the expiry of the access
/// token.
pub open spec fn vetted(status: u16, body: Seq<char>, now: Timestamp) -> Result<
    (TokenGrant, Timestamp),
    TokenFailure,
> {
    match granted(status, body) {
        Err(failure) => Err(failure),
        Ok(grant) => if expiry_fits(now, grant.expires_in) {
            Ok((grant, expiry_of(now, grant.expires_in)))
        } else {
            Err(TokenFailure::LifetimeOutOfRange)
        },
    }
}

/// The table after a refresh: the owner's row holds the new access token
/// and its expiry and, where the provider rotated the refresh token, the
/// new refresh token under the user that the row had.
pub open spec fn refreshed_table(
    table: Seq<Row>,
    next_id: int,
    owner: i64,
    access_blob: Seq<char>,
    expires_at: Timestamp,
    refresh_blob: Option<Seq<char>>,
    now: Timestamp,
) -> Seq<Row> {
    let saved = with_access_token(table, owner, access_blob, expires_at, now);
    match refresh_blob {
        Some(blob) => with_refresh_token(
            saved,
            next_id,
            owner,
            table[index_of(table, owner)].user_id,
            blob,
            now,
        ),
        None => saved,
    }
}

/// How an owner gets an access token at `now`: the cached token where one
/// is usable (`Ok(Ok(..))`), else the request that exchanges the refresh
/// token (`Ok(Err(..))`), else the reason why neither can be had.
pub open spec fn planned(
    secret: Seq<char>,
    client_id: Seq<char>,
    client_secret: Seq<char>,
    table: Seq<Row>,
    owner: i64,
    now: Timestamp,
) -> Result<
    Result<Seq<char>, TokenRequestForm>,
    TokenFailure,
> {
    match cached_access_token(table, owner, secret, now) {
        Err(e) => Err(TokenFailure::Store(StoreError::Cipher(e))),
        Ok(Some((token, _))) => Ok(Ok(token)),
        Ok(None) => match stored_refresh_token(table, owner, secret) {
            Err(e) => Err(TokenFailure::Store(StoreError::Cipher(e))),
            Ok(None) => Err(TokenFailure::NoIntegration),
            Ok(Some(refresh_token)) => Ok(
                Err(refresh_form(client_id, client_secret, refresh_token)),
            ),
        },
    }
}

/// Whether `r` is what `plan` asks for.
pub open spec fn step_follows(
    r: Result<TokenStep, TokenError>,
    plan: Result<Result<Seq<char>, TokenRequestForm>, TokenFailure>,
) -> bool {
    match plan {
        Err(failure) => r matches Err(e) && e@ == failure,
        Ok(Ok(token)) => r matches Ok(TokenStep::Ready(t)) && t@ == token,
        Ok(Err(form)) => r matches Ok(TokenStep::CallProvider(request)) && request@ == form,
    }
}

/// Whether `r` and the table after it are what a reply received at `now`
/// leads to, with tokens sealed under `secret`.
pub open spec fn reply_followed(
    secret: Seq<char>,
    r: Result<String, TokenError>,
    before: Seq<Row>,
    next_id: int,
    after: Seq<Row>,
    owner: i64,
    status: u16,
    body: Seq<char>,
    now: Timestamp,
) -> bool {
    match vetted(status, body, now) {
        Err(failure) => r matches Err(e) && e@ == failure && after == before,
        Ok((grant, expires_at)) => match r {
            Ok(token) => {
                &&& token@ == grant.access_token
                &&& active_row(before, owner) is Some
                &&& active_row(after, owner) matches Some(row)
                    && row.encrypted_access_token matches Some(access_blob) && {
                    &&& after == refreshed_table(
                        before,
                        next_id,
                        owner,
                        access_blob,
                        expires_at,
                        match grant.refresh_token {
                            Some(_) => Some(row.encrypted_refresh_token),
                            None => None,
                        },
                        now,
                    )
                    &&& opened_blob(access_blob, secret) == Ok::<
                        Seq<char>,
                        CipherError,
                    >(grant.access_token)
                    &&& row.access_token_expires_at == Some(expires_at)
                    &&& grant.refresh_token matches Some(rotated) ==> opened_blob(
                        row.encrypted_refresh_token,
                        secret,
                    ) == Ok::<Seq<char>, CipherError>(rotated)
                }
            },
            Err(e) => e matches TokenError::Store(fault) && {
                ||| {
                    &&& after == before
                    &&& {
                        ||| fault == StoreError::IntegrationNotFound && active_row(
                            before,
                            owner,
                        ) is None
                        ||| fault == StoreError::Cipher(CipherError::NonceUnavailable)
                        ||| fault == StoreError::Cipher(CipherError::EncryptionFailed)
                            && !sealable(grant.access_token)
                    }
                }
                ||| {
                    &&& grant.refresh_token matches Some(rotated) && {
                        ||| fault == StoreError::Cipher(CipherError::NonceUnavailable)
                        ||| fault == StoreError::Cipher(CipherError::EncryptionFailed)
                            && !sealable(rotated)
                    }
                    &&& active_row(after, owner) matches Some(row)
                        && row.encrypted_access_token matches Some(access_blob) && {
                        &&& after == with_access_token(
                            before,
                            owner,
                            access_blob,
                            expires_at,
                            now,
                        )
                        &&& opened_blob(access_blob, secret) == Ok::<
                            Seq<char>,
                            CipherError,
                        >(grant.access_token)
                    }
                }
            },
        },
    }
}

/// Reads the grant out of a JSON document.
pub fn decode_token_response(doc: &Json) -> (r: Option<TokenResponse>)
    ensures
        match r {
            Some(response) => decoded_grant(doc@) == Some(response@),
            None => decoded_grant(doc@) is None,
        },
{
    let access_token = match doc.text_at("access_token") {
        Some(v) => v,
        None => { return None; },
    };
    let expires_in: i64 = match doc.int_at("expires_in") {
        Some(v) => v,
        None => { return None; },
    };
    let refresh_token = match doc.optional_text_at("refresh_token") {
        Some(v) => v,
        None => { return None; },
    };
    Some(TokenResponse { access_token, expires_in, refresh_token })
}

/// Reads the provider's reply: a status outside 200 to 299 is a failure
/// that carries status and body; a body that holds no grant is a parse
/// error.
pub fn parse_token_response(reply: &ProviderReply) -> (r: Result<TokenResponse, TokenError>)
    ensures
        match r {
            Ok(response) => granted(reply.status, reply.body@) == Ok::<TokenGrant, TokenFailure>(
                response@,
            ),
            Err(e) => granted(reply.status, reply.body@) == Err::<TokenGrant, TokenFailure>(e@),
        },
{
    if reply.status < 200 || reply.status >= 300 {
        return Err(TokenError::RefreshFailed { status: reply.status, body: reply.body.clone() });
    }
    match parse_json(reply.body.as_str()) {
        None => Err(TokenError::ResponseParseError),
        Some(doc) => match decode_token_response(&doc) {
            Some(response) => Ok(response),
            None => Err(TokenError::ResponseParseError),
        },
    }
}

/// The lifecycle manager of one deployment: the secret that tokens are
/// sealed under and the credentials that the provider knows the worker by.
pub struct OneDriveClient {
    encryption_key: String,
    client_id: String,
    client_secret: String,
}

impl OneDriveClient {
    /// The secret that tokens are sealed under.
    pub closed spec fn secret(&self) -> Seq<char> {
        self.encryption_key@
    }

    /// The worker's id at the provider.
    pub closed spec fn client_id(&self) -> Seq<char> {
        self.client_id@
    }

    /// The worker's secret at the provider.
    pub closed spec fn client_secret(&self) -> Seq<char> {
        self.client_secret@
    }

    /// What [`Self::get_access_token`] decides at `now`.
    pub open spec fn plan(&self, table: Seq<Row>, owner: i64, now: Timestamp) -> Result<
        Result<Seq<char>, TokenRequestForm>,
        TokenFailure,
    > {
        planned(self.secret(), self.client_id(), self.client_secret(), table, owner, now)
    }

    /// Whether `r` is what [`Self::plan`] asks for.
    pub open spec fn follows_plan(
        &self,
        r: Result<TokenStep, TokenError>,
        table: Seq<Row>,
        owner: i64,
        now: Timestamp,
    ) -> bool {
        step_follows(r, self.plan(table, owner, now))
    }

    /// Whether `r` and the table after it are what a reply received at
    /// `now` leads to.
    pub open spec fn follows_reply(
        &self,
        r: Result<String, TokenError>,
        before: Seq<Row>,
        next_id: int,
        after: Seq<Row>,
        owner: i64,
        status: u16,
        body: Seq<char>,
        now: Timestamp,
    ) -> bool {
        reply_followed(self.secret(), r, before, next_id, after, owner, status, body, now)
    }

    /// A manager for the given secret and credentials.
    pub fn new(encryption_key: String, client_id: String, client_secret: String) -> (client: Self)
        ensures
            client.secret() == encryption_key@,
            client.client_id() == client_id@,
            client.client_secret() == client_secret@,
    {
        OneDriveClient { encryption_key, client_id, client_secret }
    }

    /// The opened refresh token of `owner_id`.  An owner without an active
    /// integration is `NoIntegration`.
    pub fn get_refresh_token(&self, store: &TokenStore, owner_id: i64) -> (r: Result<
        String,
        TokenError,
    >)
        requires
            store.wf(),
        ensures
            match stored_refresh_token(store@, owner_id, self.secret()) {
                Ok(Some(token)) => r matches Ok(found) && found@ == token,
                Ok(None) => r matches Err(e) && e@ == TokenFailure::NoIntegration,
                Err(fault) => r matches Err(e) && e@ == TokenFailure::Store(
                    StoreError::Cipher(fault),
                ),
            },
    {
        match get_refresh_token(store, owner_id, self.encryption_key.as_str()) {
            Ok(Some(token)) => Ok(token.refresh_token),
            Ok(None) => Err(TokenError::NoIntegration),
            Err(e) => Err(TokenError::Store(e)),
        }
    }

    /// The request that exchanges `refresh_token` for a new access token.
    pub fn refresh_request(&self, refresh_token: &str) -> (request: TokenRequest)
        ensures
            request@ == refresh_form(self.client_id(), self.client_secret(), refresh_token@),
    {
        let mut params: Vec<(String, String)> = Vec::new();
        params.push(("client_id".to_owned(), self.client_id.clone()));
        params.push(("client_secret".to_owned(), self.client_secret.clone()));
        params.push(("refresh_token".to_owned(), refresh_token.to_owned()));
        params.push(("grant_type".to_owned(), "refresh_token".to_owned()));
        params.push(("scope".to_owned(), "Files.ReadWrite offline_access".to_owned()));
        let request = TokenRequest {
            url: "https://login.microsoftonline.com/common/oauth2/v2.0/token".to_owned(),
            params,
        };
        assert(request@.params =~= refresh_form(
            self.client_id(),
            self.client_secret(),
            refresh_token@,
        ).params);
        request
    }

    /// Decides, at `now`, how `owner_id` gets an access token.
    ///
    /// The cache is looked at first: a stored token that expires strictly
    /// after `now` is handed out and no request is made.  Otherwise the
    /// refresh token is opened and the request that exchanges it is
    /// returned; an owner without an active integration is
    /// `NoIntegration`, and again no request is made.  The table is only
    /// read.
    pub fn get_access_token(&self, store: &TokenStore, owner_id: i64, now: Timestamp) -> (r:
        Result<TokenStep, TokenError>)
        requires
            store.wf(),
        ensures
            self.follows_plan(r, store@, owner_id, now),
    {
        match get_access_token(store, owner_id, self.encryption_key.as_str(), now) {
            Ok(Some(token)) => { return Ok(TokenStep::Ready(token.access_token)); },
            Ok(None) => {},
            Err(e) => { return Err(TokenError::Store(e)); },
        }
        let refresh_token = match self.get_refresh_token(store, owner_id) {
            Ok(token) => token,
            Err(e) => { return Err(e); },
        };
        Ok(TokenStep::CallProvider(self.refresh_request(refresh_token.as_str())))
    }

    /// Takes the provider's reply, received at `now`, to the request that
    /// [`Self::get_access_token`] returned, and stores what it grants.
    ///
    /// A reply that grants nothing, or a lifetime that cannot be
    /// represented, is an error and changes nothing.  Otherwise the access
    /// token is sealed and stored with the expiry `now + lifetime - 5 min`,
    /// then a rotated refresh token, where the provider sent one, is sealed
    /// and stored under the user that the integration had, and the access
    /// token is returned.
    pub fn complete_refresh(
        &self,
        store: &mut TokenStore,
        owner_id: i64,
        reply: &ProviderReply,
        now: Timestamp,
    ) -> (r: Result<String, TokenError>)
        requires
            old(store).wf(),
        ensures
            final(store).wf(),
            final(store).next_id() == old(store).next_id(),
            final(store).base() == old(store).base(),
            old(store).journal().is_prefix_of(final(store).journal()),
            self.follows_reply(
                r,
                old(store)@,
                old(store).next_id(),
                final(store)@,
                owner_id,
                reply.status,
                reply.body@,
                now,
            ),
    {
        let token_response = match parse_token_response(reply) {
            Ok(response) => response,
            Err(e) => { return Err(e); },
        };
        let expires_at = match now.expiry_after(token_response.expires_in) {
            Some(t) => t,
            None => { return Err(TokenError::LifetimeOutOfRange); },
        };
        match save_access_token(
            store,
            owner_id,
            token_response.access_token.as_str(),
            expires_at,
            self.encryption_key.as_str(),
            now,
        ) {
            Ok(_) => {},
            Err(e) => { return Err(TokenError::Store(e)); },
        }
        let ghost saved = store@;
        proof {
            let i = index_of(old(store)@, owner_id);
            lemma_row_found(saved, owner_id, i);
        }
        if let Some(new_refresh_token) = token_response.refresh_token {
            // The table is ours alone while we work, so the integration is
            // still there after the access token was stored.
            if let Some(integration) = get_integration(store, owner_id) {
                match save_refresh_token(
                    store,
                    owner_id,
                    integration.user_id,
                    new_refresh_token.as_str(),
                    self.encryption_key.as_str(),
                    now,
                ) {
                    Ok(_) => {},
                    Err(e) => { return Err(TokenError::Store(e)); },
                }
                proof {
                    let i = index_of(old(store)@, owner_id);
                    lemma_row_found(store@, owner_id, i);
                }
            }
        }
        Ok(token_response.access_token)
    }
}

/// Cache first: where the owner's active integration holds an access token
/// that expires strictly after `now` and opens, that token is the answer
/// and no request to the provider is made.
pub proof fn lemma_cache_first(
    client: OneDriveClient,
    table: Seq<Row>,
    owner: i64,
    now: Timestamp,
    blob: Seq<char>,
    expires_at: Timestamp,
    token: Seq<char>,
)
    requires
        active_row(table, owner) matches Some(row) && row.encrypted_access_token == Some(blob)
            && row.access_token_expires_at == Some(expires_at),
        expires_at.is_after(now),
        opened_blob(blob, client.secret()) == Ok::<Seq<char>, CipherError>(token),
    ensures
        client.plan(table, owner, now) == Ok::<Result<Seq<char>, TokenRequestForm>, TokenFailure>(
            Ok(token),
        ),
{
}

/// Refresh on expiry: where the owner's active integration holds no access
/// token, or one that does not expire strictly after `now`, and its
/// refresh token opens, the answer is the one request that exchanges that
/// refresh token.
pub proof fn lemma_refresh_on_expiry(
    client: OneDriveClient,
    table: Seq<Row>,
    owner: i64,
    now: Timestamp,
    refresh_token: Seq<char>,
)
    requires
        active_row(table, owner) matches Some(row) && {
            &&& opened_blob(row.encrypted_refresh_token, client.secret()) == Ok::<
                Seq<char>,
                CipherError,
            >(refresh_token)
            &&& (row.encrypted_access_token is None || row.access_token_expires_at is None
                || !row.access_token_expires_at->0.is_after(now))
        },
    ensures
        client.plan(table, owner, now) == Ok::<Result<Seq<char>, TokenRequestForm>, TokenFailure>(
            Err(refresh_form(client.client_id(), client.client_secret(), refresh_token)),
        ),
{
}

/// Missing integration: for an owner without an active integration the
/// answer is `NoIntegration`, and no request to the provider is made.
pub proof fn lemma_missing_integration(
    client: OneDriveClient,
    table: Seq<Row>,
    owner: i64,
    now: Timestamp,
)
    requires
        active_row(table, owner) is None,
    ensures
        client.plan(table, owner, now) == Err::<
            Result<Seq<char>, TokenRequestForm>,
            TokenFailure,
        >(TokenFailure::NoIntegration),
{
}

/// After a refresh that went through, the new access token is served from
/// the cache at every instant strictly before its expiry, which is the
/// instant of the refresh plus the granted lifetime less five minutes.
pub proof fn lemma_refreshed_token_is_cached(
    client: OneDriveClient,
    r: Result<String, TokenError>,
    before: Seq<Row>,
    next_id: int,
    after: Seq<Row>,
    owner: i64,
    status: u16,
    body: Seq<char>,
    now: Timestamp,
    later: Timestamp,
)
    requires
        client.follows_reply(r, before, next_id, after, owner, status, body, now),
        r is Ok,
        vetted(status, body, now) is Ok,
        vetted(status, body, now)->Ok_0.1.is_after(later),
    ensures
        vetted(status, body, now)->Ok_0.1.secs == now.secs + vetted(
            status,
            body,
            now,
        )->Ok_0.0.expires_in - 300,
        client.plan(after, owner, later) == Ok::<Result<Seq<char>, TokenRequestForm>, TokenFailure>(
            Ok(vetted(status, body, now)->Ok_0.0.access_token),
        ),
{
}

} // verus!
