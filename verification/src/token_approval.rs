//! Token approval storage.
//!
//! Tracks which address is approved to transfer a specific token on behalf of
//! its owner (single-token approval, analogous to ERC-721 `approve`), under
//! `Approval(token_id)`.

use vstd::prelude::*;

use crate::ledger::{Ledger, LedgerView};
use crate::table::Duplicate;
use crate::types::Address;

verus! {

/// The ledger after approving `approved` for `token_id`.
pub open spec fn after_save_approval(s: LedgerView, token_id: u32, approved: Seq<char>) -> LedgerView {
    LedgerView { approvals: s.approvals.insert(token_id, approved), ..s }
}

/// The ledger after clearing the approval of `token_id`.
pub open spec fn after_remove_approval(s: LedgerView, token_id: u32) -> LedgerView {
    LedgerView { approvals: s.approvals.remove(token_id), ..s }
}

/// Persist an approval: `approved` may transfer `token_id`.
pub fn save_approval(store: &mut Ledger, token_id: u32, approved: &Address)
    ensures
        final(store)@ == after_save_approval(old(store)@, token_id, approved@),
{
    store.approvals.set(token_id, approved.duplicate());
}

/// Remove any existing approval for `token_id`.
pub fn remove_approval(store: &mut Ledger, token_id: u32)
    ensures
        final(store)@ == after_remove_approval(old(store)@, token_id),
{
    store.approvals.remove(&token_id);
}

/// Return the currently approved address for `token_id`, if any.
pub fn get_approval(store: &Ledger, token_id: u32) -> (r: Option<Address>)
    ensures
        r.deep_view() == store@.approvals.get(token_id),
{
    store.approvals.get(&token_id)
}

/// A saved approval is read back; a removed one is gone; other tokens keep
/// theirs.
pub proof fn law_approval_save_remove(s: LedgerView, token_id: u32, approved: Seq<char>, other: u32)
    ensures
        after_save_approval(s, token_id, approved).approvals.get(token_id) == Some(approved),
        after_remove_approval(s, token_id).approvals.get(token_id) == None::<Seq<char>>,
        other != token_id ==> after_save_approval(s, token_id, approved).approvals.get(other)
            == s.approvals.get(other),
        other != token_id ==> after_remove_approval(s, token_id).approvals.get(other)
            == s.approvals.get(other),
{
}

} // verus!
