//! Blacklisted wallet storage.
//!
//! Maintains a set of wallet addresses that are blocked from contract
//! interactions, one `Blacklisted(address)` entry per blocked wallet.

use vstd::prelude::*;

use crate::ledger::{flag_at, Ledger, LedgerView};
use crate::table::Duplicate;
use crate::types::Address;

verus! {

/// Whether the ledger blacklists `wallet`.
pub open spec fn wallet_blacklisted(s: LedgerView, wallet: Seq<char>) -> bool {
    flag_at(s.blacklisted, wallet)
}

/// The ledger after blacklisting `wallet`.
pub open spec fn after_add_wallet(s: LedgerView, wallet: Seq<char>) -> LedgerView {
    LedgerView { blacklisted: s.blacklisted.insert(wallet, true), ..s }
}

/// The ledger after clearing `wallet`'s blacklist entry.
pub open spec fn after_remove_wallet(s: LedgerView, wallet: Seq<char>) -> LedgerView {
    LedgerView { blacklisted: s.blacklisted.remove(wallet), ..s }
}

/// Add `wallet` to the blacklist.
pub fn add_wallet(store: &mut Ledger, wallet: &Address)
    ensures
        final(store)@ == after_add_wallet(old(store)@, wallet@),
{
    store.blacklisted.set(wallet.duplicate(), true);
}

/// Remove `wallet` from the blacklist.
pub fn remove_wallet(store: &mut Ledger, wallet: &Address)
    ensures
        final(store)@ == after_remove_wallet(old(store)@, wallet@),
{
    store.blacklisted.remove(wallet);
}

/// Return `true` if `wallet` is blacklisted.
pub fn is_blacklisted(store: &Ledger, wallet: &Address) -> (r: bool)
    ensures
        r == wallet_blacklisted(store@, wallet@),
{
    match store.blacklisted.get(wallet) {
        Some(b) => b,
        None => false,
    }
}

/// Adding a wallet blacklists it and removing it clears it, whatever was
/// stored before; neither touches any other wallet.
pub proof fn law_blacklist_add_remove(s: LedgerView, wallet: Seq<char>, other: Seq<char>)
    ensures
        wallet_blacklisted(after_add_wallet(s, wallet), wallet),
        !wallet_blacklisted(after_remove_wallet(s, wallet), wallet),
        other != wallet ==> wallet_blacklisted(after_add_wallet(s, wallet), other)
            == wallet_blacklisted(s, other),
        other != wallet ==> wallet_blacklisted(after_remove_wallet(s, wallet), other)
            == wallet_blacklisted(s, other),
{
}

} // verus!
