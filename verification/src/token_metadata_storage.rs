//! Token metadata storage — save, retrieve, and update NFT metadata URIs
//! (`Metadata(token_id)`).

use vstd::prelude::*;

use crate::errors::Error;
use crate::ledger::{Ledger, LedgerView};
use crate::table::Duplicate;
use crate::types::TokenId;

verus! {

/// The ledger after storing `uri` as the token's metadata URI.
pub open spec fn after_save_metadata(s: LedgerView, token_id: TokenId, uri: Seq<char>) -> LedgerView {
    LedgerView { metadata: s.metadata.insert(token_id, uri), ..s }
}

/// Persist the metadata URI for `token_id`.
pub fn save_metadata(store: &mut Ledger, token_id: TokenId, uri: &String)
    ensures
        final(store)@ == after_save_metadata(old(store)@, token_id, uri@),
{
    store.metadata.set(token_id, uri.clone());
}

/// Load the metadata URI for `token_id`. Returns `Err(TokenNotFound)` if absent.
pub fn get_metadata(store: &Ledger, token_id: TokenId) -> (r: Result<String, Error>)
    ensures
        match store@.metadata.get(token_id) {
            Some(u) => (r matches Ok(x) && x@ == u),
            None => r == Err::<String, Error>(Error::TokenNotFound),
        },
{
    match store.metadata.get(&token_id) {
        Some(u) => Ok(u),
        None => Err(Error::TokenNotFound),
    }
}

/// Overwrite the metadata URI for `token_id`. Returns `Err(TokenNotFound)`,
/// leaving the ledger as it was, if no metadata has been saved for this token yet.
pub fn update_metadata(store: &mut Ledger, token_id: TokenId, uri: &String) -> (r: Result<(), Error>)
    ensures
        !old(store)@.metadata.contains_key(token_id) ==> r == Err::<(), Error>(Error::TokenNotFound)
            && final(store)@ == old(store)@,
        old(store)@.metadata.contains_key(token_id) ==> r == Ok::<(), Error>(()) && final(store)@
            == after_save_metadata(old(store)@, token_id, uri@),
{
    if !store.metadata.contains(&token_id) {
        return Err(Error::TokenNotFound);
    }
    store.metadata.set(token_id, uri.clone());
    Ok(())
}

/// Saved metadata is read back; an accepted update (the token already has
/// metadata) replaces it without creating any entry.
pub proof fn law_metadata_read_after_write(s: LedgerView, token_id: TokenId, uri: Seq<char>)
    ensures
        after_save_metadata(s, token_id, uri).metadata.get(token_id) == Some(uri),
        s.metadata.contains_key(token_id) ==> after_save_metadata(s, token_id, uri).metadata.dom()
            == s.metadata.dom(),
{
    if s.metadata.contains_key(token_id) {
        assert(s.metadata.dom().insert(token_id) =~= s.metadata.dom());
    }
}

} // verus!
