//! Token storage repository — encapsulates all persistent token storage
//! operations: the token record (`Token`), its metadata URI (`Metadata`) and
//! its royalty configuration (`Royalty`).  The metadata and royalty entries
//! are the same ones [`crate::token_metadata_storage`] and
//! [`crate::royalty_storage`] use.

use vstd::prelude::*;

use crate::errors::Error;
use crate::ledger::{Ledger, LedgerView};
use crate::royalty_storage::after_save_royalty;
use crate::table::Duplicate;
use crate::token_metadata_storage::after_save_metadata;
use crate::types::{Royalty, TokenData, TokenDataView, TokenId};

verus! {

/// The ledger after storing `data` as the token's record.
pub open spec fn after_set_token(s: LedgerView, token_id: TokenId, data: TokenDataView) -> LedgerView {
    LedgerView { tokens: s.tokens.insert(token_id, data), ..s }
}

/// The ledger after deleting every entry of the token.
pub open spec fn after_remove_token(s: LedgerView, token_id: TokenId) -> LedgerView {
    LedgerView {
        tokens: s.tokens.remove(token_id),
        metadata: s.metadata.remove(token_id),
        royalties: s.royalties.remove(token_id),
        ..s
    }
}

/// Load token data. Returns `Err(TokenNotFound)` if absent.
pub fn get_token(store: &Ledger, token_id: TokenId) -> (r: Result<TokenData, Error>)
    ensures
        match store@.tokens.get(token_id) {
            Some(v) => (r matches Ok(x) && x@ == v),
            None => r == Err::<TokenData, Error>(Error::TokenNotFound),
        },
{
    match store.tokens.get(&token_id) {
        Some(v) => Ok(v),
        None => Err(Error::TokenNotFound),
    }
}

/// Persist token data.
pub fn set_token(store: &mut Ledger, token_id: TokenId, data: &TokenData)
    ensures
        final(store)@ == after_set_token(old(store)@, token_id, data@),
{
    store.tokens.set(token_id, data.duplicate());
}

/// Remove all persistent entries for a token.
pub fn remove_token(store: &mut Ledger, token_id: TokenId)
    ensures
        final(store)@ == after_remove_token(old(store)@, token_id),
{
    store.tokens.remove(&token_id);
    store.metadata.remove(&token_id);
    store.royalties.remove(&token_id);
}

/// Returns true if the token exists.
pub fn token_exists(store: &Ledger, token_id: TokenId) -> (r: bool)
    ensures
        r == store@.tokens.contains_key(token_id),
{
    store.tokens.contains(&token_id)
}

/// Load metadata URI. Returns `Err(TokenNotFound)` if absent.
pub fn get_metadata(store: &Ledger, token_id: TokenId) -> (r: Result<String, Error>)
    ensures
        match store@.metadata.get(token_id) {
            Some(u) => (r matches Ok(x) && x@ == u),
            None => r == Err::<String, Error>(Error::TokenNotFound),
        },
{
    match store.metadata.get(&token_id) {
        Some(u) => Ok(u),
        None => Err(Error::TokenNotFound),
    }
}

/// Persist metadata URI.
pub fn set_metadata(store: &mut Ledger, token_id: TokenId, uri: &String)
    ensures
        final(store)@ == after_save_metadata(old(store)@, token_id, uri@),
{
    store.metadata.set(token_id, uri.clone());
}

/// Load royalty config. Returns `Err(TokenNotFound)` if absent.
pub fn get_royalty(store: &Ledger, token_id: TokenId) -> (r: Result<Royalty, Error>)
    ensures
        match store@.royalties.get(token_id) {
            Some(v) => (r matches Ok(x) && x@ == v),
            None => r == Err::<Royalty, Error>(Error::TokenNotFound),
        },
{
    match store.royalties.get(&token_id) {
        Some(v) => Ok(v),
        None => Err(Error::TokenNotFound),
    }
}

/// Persist royalty config.
pub fn set_royalty(store: &mut Ledger, token_id: TokenId, royalty: &Royalty)
    ensures
        final(store)@ == after_save_royalty(old(store)@, token_id, royalty@),
{
    store.royalties.set(token_id, royalty.duplicate());
}

/// A stored token record is read back and makes the token exist.
pub proof fn law_token_read_after_write(s: LedgerView, token_id: TokenId, data: TokenDataView)
    ensures
        after_set_token(s, token_id, data).tokens.get(token_id) == Some(data),
        after_set_token(s, token_id, data).tokens.contains_key(token_id),
{
}

/// Removing a token deletes its record, metadata and royalty, and only
/// those: every other token's entries are as they were.
pub proof fn law_remove_token_clears_all(s: LedgerView, token_id: TokenId, other: TokenId)
    ensures
        !after_remove_token(s, token_id).tokens.contains_key(token_id),
        !after_remove_token(s, token_id).metadata.contains_key(token_id),
        !after_remove_token(s, token_id).royalties.contains_key(token_id),
        other != token_id ==> after_remove_token(s, token_id).tokens.get(other) == s.tokens.get(
            other,
        ),
        other != token_id ==> after_remove_token(s, token_id).metadata.get(other)
            == s.metadata.get(other),
        other != token_id ==> after_remove_token(s, token_id).royalties.get(other)
            == s.royalties.get(other),
{
}

} // verus!
