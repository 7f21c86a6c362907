//! Royalty recipient storage.
//!
//! Stores royalty recipient addresses separately from the full `Royalty`
//! struct, allowing lightweight recipient lookups and updates
//! (`RoyaltyRecipient(token_id)`).

use vstd::prelude::*;

use crate::errors::Error;
use crate::ledger::{Ledger, LedgerView};
use crate::types::{Address, TokenId};

verus! {

/// The ledger after recording `recipient` for `token_id`.
pub open spec fn after_set_recipient(s: LedgerView, token_id: TokenId, recipient: Seq<char>) -> LedgerView {
    LedgerView { royalty_recipients: s.royalty_recipients.insert(token_id, recipient), ..s }
}

/// Persist the royalty recipient for a given token.
///
/// Creates or overwrites the stored address, acting as both save and update.
///
/// # Errors
/// Returns [`Error::TokenNotFound`], leaving the ledger as it was, if the
/// token does not exist.
pub fn set_royalty_recipient(store: &mut Ledger, token_id: TokenId, recipient: Address) -> (r: Result<
    (),
    Error,
>)
    ensures
        !old(store)@.tokens.contains_key(token_id) ==> r == Err::<(), Error>(Error::TokenNotFound)
            && final(store)@ == old(store)@,
        old(store)@.tokens.contains_key(token_id) ==> r == Ok::<(), Error>(()) && final(store)@
            == after_set_recipient(old(store)@, token_id, recipient@),
{
    if !store.tokens.contains(&token_id) {
        return Err(Error::TokenNotFound);
    }
    store.royalty_recipients.set(token_id, recipient);
    Ok(())
}

/// Return the royalty recipient for a given token, or `None` if not set.
pub fn get_royalty_recipient(store: &Ledger, token_id: TokenId) -> (r: Option<Address>)
    ensures
        r.deep_view() == store@.royalty_recipients.get(token_id),
{
    store.royalty_recipients.get(&token_id)
}

/// For an existing token, the recipient set is the one read back.
pub proof fn law_recipient_read_after_write(s: LedgerView, token_id: TokenId, recipient: Seq<char>)
    ensures
        after_set_recipient(s, token_id, recipient).royalty_recipients.get(token_id) == Some(
            recipient,
        ),
{
}

} // verus!
