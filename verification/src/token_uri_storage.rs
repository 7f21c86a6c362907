//! Token URI storage — saves and retrieves validated metadata URIs for
//! every NFT (`TokenUri(token_id)`).

use vstd::prelude::*;

use crate::errors::Error;
use crate::ledger::{Ledger, LedgerView};
use crate::table::Duplicate;
use crate::types::TokenId;

verus! {

/// The ledger after storing `uri` as the token's URI.
pub open spec fn after_set_token_uri(s: LedgerView, token_id: TokenId, uri: Seq<char>) -> LedgerView {
    LedgerView { token_uris: s.token_uris.insert(token_id, uri), ..s }
}

/// Validate a metadata URI — rejects empty strings.
pub fn validate_uri(uri: &String) -> (r: Result<(), Error>)
    ensures
        uri@.len() == 0 ==> r == Err::<(), Error>(Error::InvalidURI),
        uri@.len() != 0 ==> r == Ok::<(), Error>(()),
{
    if uri.as_str().is_empty() {
        return Err(Error::InvalidURI);
    }
    Ok(())
}

/// Save a metadata URI for a token.
///
/// Validates the URI before persisting. Returns `Err(InvalidURI)`, leaving
/// the ledger as it was, for an empty string.
pub fn set_token_uri(store: &mut Ledger, token_id: TokenId, uri: &String) -> (r: Result<(), Error>)
    ensures
        uri@.len() == 0 ==> r == Err::<(), Error>(Error::InvalidURI) && final(store)@ == old(store)@,
        uri@.len() != 0 ==> r == Ok::<(), Error>(()) && final(store)@ == after_set_token_uri(
            old(store)@,
            token_id,
            uri@,
        ),
{
    validate_uri(uri)?;
    store.token_uris.set(token_id, uri.clone());
    Ok(())
}

/// Read the metadata URI for a token.
///
/// Returns `Err(TokenNotFound)` if no URI has been stored.
pub fn get_token_uri(store: &Ledger, token_id: TokenId) -> (r: Result<String, Error>)
    ensures
        match store@.token_uris.get(token_id) {
            Some(u) => (r matches Ok(x) && x@ == u),
            None => r == Err::<String, Error>(Error::TokenNotFound),
        },
{
    match store.token_uris.get(&token_id) {
        Some(u) => Ok(u),
        None => Err(Error::TokenNotFound),
    }
}

/// A stored URI is read back, and no stored URI is empty when every URI was
/// stored through [`set_token_uri`].
pub proof fn law_token_uri_read_after_write(s: LedgerView, token_id: TokenId, uri: Seq<char>)
    requires
        forall|t: TokenId| #[trigger] s.token_uris.contains_key(t) ==> s.token_uris[t].len() != 0,
        uri.len() != 0,
    ensures
        after_set_token_uri(s, token_id, uri).token_uris.get(token_id) == Some(uri),
        forall|t: TokenId| #[trigger] after_set_token_uri(s, token_id, uri).token_uris.contains_key(t)
            ==> after_set_token_uri(s, token_id, uri).token_uris[t].len() != 0,
{
}

} // verus!
