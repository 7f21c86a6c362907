//! Wallet token index — maintains a token ownership index for every wallet
//! (`WalletTokens(wallet)`).

use vstd::prelude::*;

use crate::ledger::{Ledger, LedgerView};
use crate::lists::{lemma_without_absent, lemma_without_contents, lemma_without_push, without, without_item};
use crate::table::Duplicate;
use crate::types::{Address, TokenId};

verus! {

/// The token list a ledger reports for a wallet (empty when unset).
pub open spec fn wallet_tokens_of(s: LedgerView, wallet: Seq<char>) -> Seq<TokenId> {
    if s.wallet_tokens.contains_key(wallet) {
        s.wallet_tokens[wallet]
    } else {
        Seq::empty()
    }
}

/// The ledger after storing `tokens` as the wallet's list.
pub open spec fn ledger_with_wallet_tokens(s: LedgerView, wallet: Seq<char>, tokens: Seq<TokenId>) -> LedgerView {
    LedgerView { wallet_tokens: s.wallet_tokens.insert(wallet, tokens), ..s }
}

/// Add a token to a wallet's ownership index.
pub fn add_token_to_wallet(store: &mut Ledger, wallet: &Address, token_id: TokenId)
    ensures
        final(store)@ == ledger_with_wallet_tokens(
            old(store)@,
            wallet@,
            wallet_tokens_of(old(store)@, wallet@).push(token_id),
        ),
{
    let mut tokens = get_wallet_tokens(store, wallet);
    let ghost before = tokens@;
    tokens.push(token_id);
    proof {
        assert(tokens.deep_view() =~= before.push(token_id));
    }
    store.wallet_tokens.set(wallet.duplicate(), tokens);
}

/// Remove a token from a wallet's ownership index.
pub fn remove_token_from_wallet(store: &mut Ledger, wallet: &Address, token_id: TokenId)
    ensures
        final(store)@ == ledger_with_wallet_tokens(
            old(store)@,
            wallet@,
            without(wallet_tokens_of(old(store)@, wallet@), token_id),
        ),
{
    let tokens = get_wallet_tokens(store, wallet);
    let (updated, _) = without_item(&tokens, &token_id);
    proof {
        assert(updated.deep_view() =~= updated@);
        assert(tokens.deep_view() =~= tokens@);
    }
    store.wallet_tokens.set(wallet.duplicate(), updated);
}

/// Retrieve all token IDs owned by a wallet. Returns an empty vec if none recorded.
pub fn get_wallet_tokens(store: &Ledger, wallet: &Address) -> (r: Vec<TokenId>)
    ensures
        r@ == wallet_tokens_of(store@, wallet@),
{
    match store.wallet_tokens.get(wallet) {
        Some(t) => {
            assert(t.deep_view() =~= t@);
            t
        },
        None => {
            let empty: Vec<TokenId> = Vec::new();
            assert(empty@ =~= Seq::<TokenId>::empty());
            empty
        },
    }
}

/// An added token is listed for the wallet; a removed one is not, while the
/// wallet's other tokens stay; other wallets are untouched.
pub proof fn law_wallet_index_add_remove(s: LedgerView, wallet: Seq<char>, t: TokenId, u: TokenId, other: Seq<char>)
    ensures
        wallet_tokens_of(
            ledger_with_wallet_tokens(s, wallet, wallet_tokens_of(s, wallet).push(t)),
            wallet,
        ).contains(t),
        !wallet_tokens_of(
            ledger_with_wallet_tokens(s, wallet, without(wallet_tokens_of(s, wallet), t)),
            wallet,
        ).contains(t),
        u != t ==> (wallet_tokens_of(
            ledger_with_wallet_tokens(s, wallet, without(wallet_tokens_of(s, wallet), t)),
            wallet,
        ).contains(u) == wallet_tokens_of(s, wallet).contains(u)),
        other != wallet ==> wallet_tokens_of(
            ledger_with_wallet_tokens(s, wallet, without(wallet_tokens_of(s, wallet), t)),
            other,
        ) == wallet_tokens_of(s, other),
{
    let l = wallet_tokens_of(s, wallet);
    assert(l.push(t)[l.len() as int] == t);
    lemma_without_contents(l, t);
}

/// Adding a token the wallet did not list and removing it again restores
/// the wallet's list.
pub proof fn law_wallet_index_add_then_remove(s: LedgerView, wallet: Seq<char>, t: TokenId)
    requires
        !wallet_tokens_of(s, wallet).contains(t),
    ensures
        without(
            wallet_tokens_of(
                ledger_with_wallet_tokens(s, wallet, wallet_tokens_of(s, wallet).push(t)),
                wallet,
            ),
            t,
        ) == wallet_tokens_of(s, wallet),
{
    lemma_without_push(wallet_tokens_of(s, wallet), t);
    lemma_without_absent(wallet_tokens_of(s, wallet), t);
}

} // verus!
