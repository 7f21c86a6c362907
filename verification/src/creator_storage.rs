//! Creator storage — records the creator wallet for every NFT under
//! `Creator(token_id)`.

use vstd::prelude::*;

use crate::errors::Error;
use crate::ledger::{Ledger, LedgerView};
use crate::table::Duplicate;
use crate::types::{Address, TokenId};

verus! {

/// The ledger after recording `creator` for `token_id`.
pub open spec fn after_set_creator(s: LedgerView, token_id: TokenId, creator: Seq<char>) -> LedgerView {
    LedgerView { creators: s.creators.insert(token_id, creator), ..s }
}

/// Save the creator wallet for a token.
pub fn set_creator(store: &mut Ledger, token_id: TokenId, creator: &Address)
    ensures
        final(store)@ == after_set_creator(old(store)@, token_id, creator@),
{
    store.creators.set(token_id, creator.duplicate());
}

/// Read the creator wallet for a token.
///
/// Returns `Err(TokenNotFound)` if no creator has been recorded.
pub fn get_creator(store: &Ledger, token_id: TokenId) -> (r: Result<Address, Error>)
    ensures
        store@.creators.contains_key(token_id) ==> (r matches Ok(a) && a@ == store@.creators[token_id]),
        !store@.creators.contains_key(token_id) ==> r == Err::<Address, Error>(Error::TokenNotFound),
{
    match store.creators.get(&token_id) {
        Some(a) => Ok(a),
        None => Err(Error::TokenNotFound),
    }
}

/// The recorded creator is the one read back; other tokens keep theirs.
pub proof fn law_creator_read_after_write(s: LedgerView, token_id: TokenId, creator: Seq<char>, other: TokenId)
    ensures
        after_set_creator(s, token_id, creator).creators.contains_key(token_id),
        after_set_creator(s, token_id, creator).creators[token_id] == creator,
        other != token_id ==> after_set_creator(s, token_id, creator).creators.get(other)
            == s.creators.get(other),
{
}

} // verus!
