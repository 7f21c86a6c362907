//! Frozen token storage — tracks which NFTs are frozen under
//! `FrozenToken(token_id)`.

use vstd::prelude::*;

use crate::ledger::{flag_at, Ledger, LedgerView};
use crate::types::TokenId;

verus! {

/// Whether the ledger marks `token_id` as frozen.
pub open spec fn token_frozen(s: LedgerView, token_id: TokenId) -> bool {
    flag_at(s.frozen_tokens, token_id)
}

/// The ledger after freezing `token_id`.
pub open spec fn after_freeze(s: LedgerView, token_id: TokenId) -> LedgerView {
    LedgerView { frozen_tokens: s.frozen_tokens.insert(token_id, true), ..s }
}

/// The ledger after unfreezing `token_id`.
pub open spec fn after_unfreeze(s: LedgerView, token_id: TokenId) -> LedgerView {
    LedgerView { frozen_tokens: s.frozen_tokens.remove(token_id), ..s }
}

/// Mark a token as frozen.
pub fn freeze_token(store: &mut Ledger, token_id: TokenId)
    ensures
        final(store)@ == after_freeze(old(store)@, token_id),
{
    store.frozen_tokens.set(token_id, true);
}

/// Unfreeze a token.
pub fn unfreeze_token(store: &mut Ledger, token_id: TokenId)
    ensures
        final(store)@ == after_unfreeze(old(store)@, token_id),
{
    store.frozen_tokens.remove(&token_id);
}

/// Return `true` if the token is currently frozen.
pub fn is_frozen(store: &Ledger, token_id: TokenId) -> (r: bool)
    ensures
        r == token_frozen(store@, token_id),
{
    match store.frozen_tokens.get(&token_id) {
        Some(b) => b,
        None => false,
    }
}

/// Freezing makes a token frozen and unfreezing thaws it; other tokens are
/// untouched, and unfreezing after freezing restores the token's previous
/// absence of a freeze entry.
pub proof fn law_freeze_unfreeze(s: LedgerView, token_id: TokenId, other: TokenId)
    ensures
        token_frozen(after_freeze(s, token_id), token_id),
        !token_frozen(after_unfreeze(s, token_id), token_id),
        other != token_id ==> token_frozen(after_freeze(s, token_id), other) == token_frozen(s, other),
        other != token_id ==> token_frozen(after_unfreeze(s, token_id), other) == token_frozen(
            s,
            other,
        ),
        !s.frozen_tokens.contains_key(token_id) ==> after_unfreeze(after_freeze(s, token_id), token_id)
            == s,
{
    if !s.frozen_tokens.contains_key(token_id) {
        assert(s.frozen_tokens.insert(token_id, true).remove(token_id) =~= s.frozen_tokens);
    }
}

} // verus!
