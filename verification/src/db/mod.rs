//! At-rest representation of integrations: the token cipher, the record
//! types and the owner-keyed table.

pub mod encryption;
pub mod models;
pub mod onedrive;
