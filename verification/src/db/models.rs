//! What is stored about an integration, and what callers get to see of it.

use crate::time::Timestamp;
use vstd::prelude::*;

verus! {

/// What callers see of an integration: everything but the tokens.
#[derive(Clone, Copy, Debug, PartialEq, Eq, Structural)]
pub struct OneDriveIntegration {
    pub id: i32,
    pub owner_id: i64,
    pub user_id: i64,
    pub access_token_expires_at: Option<Timestamp>,
    pub is_active: bool,
    pub created_at: Timestamp,
    pub updated_at: Timestamp,
}

/// A refresh token in the clear.  It lives for one operation only.
#[derive(Debug)]
pub struct OneDriveRefreshToken {
    pub refresh_token: String,
}

/// An access token in the clear, with the instant at which it stops being
/// used.  It lives for one operation only.
#[derive(Debug)]
pub struct OneDriveAccessToken {
    pub access_token: String,
    pub expires_at: Timestamp,
}

/// One row of the integration table, tokens sealed.
#[derive(Clone, Debug)]
pub struct IntegrationRecord {
    pub id: i32,
    pub owner_id: i64,
    pub user_id: i64,
    pub encrypted_refresh_token: String,
    pub encrypted_access_token: Option<String>,
    pub access_token_expires_at: Option<Timestamp>,
    pub is_active: bool,
    pub created_at: Timestamp,
    pub updated_at: Timestamp,
}

/// A row as a mathematical value.
pub struct Row {
    pub id: i32,
    pub owner_id: i64,
    pub user_id: i64,
    pub encrypted_refresh_token: Seq<char>,
    pub encrypted_access_token: Option<Seq<char>>,
    pub access_token_expires_at: Option<Timestamp>,
    pub is_active: bool,
    pub created_at: Timestamp,
    pub updated_at: Timestamp,
}

impl View for IntegrationRecord {
    type V = Row;

    open spec fn view(&self) -> Row {
        Row {
            id: self.id,
            owner_id: self.owner_id,
            user_id: self.user_id,
            encrypted_refresh_token: self.encrypted_refresh_token@,
            encrypted_access_token: match self.encrypted_access_token {
                Some(blob) => Some(blob@),
                None => None,
            },
            access_token_expires_at: self.access_token_expires_at,
            is_active: self.is_active,
            created_at: self.created_at,
            updated_at: self.updated_at,
        }
    }
}

impl Row {
    /// A cached access token and its expiry come together or not at all.
    pub open spec fn well_formed(self) -> bool {
        self.encrypted_access_token is Some <==> self.access_token_expires_at is Some
    }

    /// The part of the row that callers get to see.
    pub open spec fn metadata(self) -> OneDriveIntegration {
        OneDriveIntegration {
            id: self.id,
            owner_id: self.owner_id,
            user_id: self.user_id,
            access_token_expires_at: self.access_token_expires_at,
            is_active: self.is_active,
            created_at: self.created_at,
            updated_at: self.updated_at,
        }
    }
}

impl IntegrationRecord {
    /// The part of the record that callers get to see.
    pub fn metadata(&self) -> (r: OneDriveIntegration)
        ensures
            r == self@.metadata(),
    {
        OneDriveIntegration {
            id: self.id,
            owner_id: self.owner_id,
            user_id: self.user_id,
            access_token_expires_at: self.access_token_expires_at,
            is_active: self.is_active,
            created_at: self.created_at,
            updated_at: self.updated_at,
        }
    }
}

} // verus!
