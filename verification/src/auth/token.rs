//! Storage of the access token in the system keyring: the names of the entry,
//! and what each answer of the keyring means for the caller.
use vstd::prelude::*;

use crate::error::{AuthError, Error};

verus! {

/// The keyring service under which the token is stored.
pub const SERVICE_NAME: &'static str = "better-ch";

/// The keyring entry that holds the access token.
pub const TOKEN_KEY: &'static str = "access_token";

/// What the keyring answered to a read of the token entry.
pub enum KeyringRead {
    /// The entry holds this password.
    Found(String),
    /// The keyring holds no entry for the token.
    NoEntry,
    /// The keyring failed, for the reason described.
    Failed(String),
}

/// What the keyring answered to the removal of the token entry.
pub enum KeyringDelete {
    /// The entry was removed.
    Deleted,
    /// The keyring held no entry for the token.
    NoEntry,
    /// The keyring failed, for the reason described.
    Failed(String),
}

/// Whether `e` is the storage error for a keyring failure described by `reason`.
pub open spec fn is_storage_error(e: Error, reason: Seq<char>) -> bool {
    e matches Error::Auth(AuthError::TokenStorage(m)) && m@ == reason
}

/// The outcome of opening the entry or of storing the token: any failure,
/// described by its reason, becomes a storage error.
pub fn storage_outcome(answer: Result<(), String>) -> (r: Result<(), Error>)
    ensures
        match answer {
            Ok(_) => r is Ok,
            Err(reason) => r matches Err(e) && is_storage_error(e, reason@),
        },
{
    match answer {
        Ok(()) => Ok(()),
        Err(reason) => Err(Error::Auth(AuthError::TokenStorage(reason))),
    }
}

/// The outcome of reading the token: the token when there is one, nothing
/// when the keyring holds no entry, a storage error otherwise.
pub fn read_outcome(answer: KeyringRead) -> (r: Result<Option<String>, Error>)
    ensures
        match answer {
            KeyringRead::Found(token) => r matches Ok(t) && t == Some(token),
            KeyringRead::NoEntry => r matches Ok(t) && t is None,
            KeyringRead::Failed(reason) => r matches Err(e) && is_storage_error(e, reason@),
        },
{
    match answer {
        KeyringRead::Found(token) => Ok(Some(token)),
        KeyringRead::NoEntry => Ok(None),
        KeyringRead::Failed(reason) => Err(Error::Auth(AuthError::TokenStorage(reason))),
    }
}

/// The outcome of deleting the token: deleting a token that is not there succeeds.
pub fn delete_outcome(answer: KeyringDelete) -> (r: Result<(), Error>)
    ensures
        match answer {
            KeyringDelete::Failed(reason) => r matches Err(e) && is_storage_error(e, reason@),
            _ => r is Ok,
        },
{
    match answer {
        KeyringDelete::Deleted => Ok(()),
        KeyringDelete::NoEntry => Ok(()),
        KeyringDelete::Failed(reason) => Err(Error::Auth(AuthError::TokenStorage(reason))),
    }
}

} // verus!
