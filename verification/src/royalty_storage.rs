//! Royalty storage — save, retrieve, and update per-token royalty
//! configuration (`Royalty(token_id)`).

use vstd::prelude::*;

use crate::errors::Error;
use crate::ledger::{Ledger, LedgerView};
use crate::table::Duplicate;
use crate::types::{Royalty, RoyaltyView, TokenId};

verus! {

/// The ledger after storing `royalty` for the token.
pub open spec fn after_save_royalty(s: LedgerView, token_id: TokenId, royalty: RoyaltyView) -> LedgerView {
    LedgerView { royalties: s.royalties.insert(token_id, royalty), ..s }
}

/// Persist the royalty configuration for `token_id`.
pub fn save_royalty(store: &mut Ledger, token_id: TokenId, royalty: &Royalty)
    ensures
        final(store)@ == after_save_royalty(old(store)@, token_id, royalty@),
{
    store.royalties.set(token_id, royalty.duplicate());
}

/// Load the royalty configuration for `token_id`. Returns `Err(TokenNotFound)` if absent.
pub fn get_royalty(store: &Ledger, token_id: TokenId) -> (r: Result<Royalty, Error>)
    ensures
        match store@.royalties.get(token_id) {
            Some(v) => (r matches Ok(x) && x@ == v),
            None => r == Err::<Royalty, Error>(Error::TokenNotFound),
        },
{
    match store.royalties.get(&token_id) {
        Some(v) => Ok(v),
        None => Err(Error::TokenNotFound),
    }
}

/// Overwrite the royalty configuration for `token_id`. Returns
/// `Err(TokenNotFound)`, leaving the ledger as it was, if no royalty has been
/// saved for this token yet.
pub fn update_royalty(store: &mut Ledger, token_id: TokenId, royalty: &Royalty) -> (r: Result<(), Error>)
    ensures
        !old(store)@.royalties.contains_key(token_id) ==> r == Err::<(), Error>(Error::TokenNotFound)
            && final(store)@ == old(store)@,
        old(store)@.royalties.contains_key(token_id) ==> r == Ok::<(), Error>(()) && final(store)@
            == after_save_royalty(old(store)@, token_id, royalty@),
{
    if !store.royalties.contains(&token_id) {
        return Err(Error::TokenNotFound);
    }
    store.royalties.set(token_id, royalty.duplicate());
    Ok(())
}

/// A saved royalty is read back and other tokens keep theirs; an accepted
/// update (the token already has a royalty) creates no entry.
pub proof fn law_royalty_read_after_write(s: LedgerView, token_id: TokenId, royalty: RoyaltyView, other: TokenId)
    ensures
        after_save_royalty(s, token_id, royalty).royalties.get(token_id) == Some(royalty),
        other != token_id ==> after_save_royalty(s, token_id, royalty).royalties.get(other)
            == s.royalties.get(other),
        s.royalties.contains_key(token_id) ==> after_save_royalty(s, token_id, royalty).royalties.dom()
            == s.royalties.dom(),
{
    if s.royalties.contains_key(token_id) {
        assert(s.royalties.dom().insert(token_id) =~= s.royalties.dom());
    }
}

} // verus!
