//! Operator approval storage.
//!
//! Tracks whether an `operator` is approved to manage all tokens owned by
//! `owner` (analogous to ERC-721 `setApprovalForAll`), one
//! `OperatorApproval(owner, operator)` entry per approval.

use vstd::prelude::*;

use crate::ledger::{flag_at, Ledger, LedgerView};
use crate::table::Duplicate;
use crate::types::Address;

verus! {

/// Whether the ledger approves `operator` for all of `owner`'s tokens.
pub open spec fn operator_approved(s: LedgerView, owner: Seq<char>, operator: Seq<char>) -> bool {
    flag_at(s.operator_approvals, (owner, operator))
}

/// The ledger after approving `operator` for `owner`.
pub open spec fn after_save_operator(s: LedgerView, owner: Seq<char>, operator: Seq<char>) -> LedgerView {
    LedgerView { operator_approvals: s.operator_approvals.insert((owner, operator), true), ..s }
}

/// The ledger after revoking `operator` for `owner`.
pub open spec fn after_remove_operator(s: LedgerView, owner: Seq<char>, operator: Seq<char>) -> LedgerView {
    LedgerView { operator_approvals: s.operator_approvals.remove((owner, operator)), ..s }
}

/// Approve `operator` to manage all tokens belonging to `owner`.
pub fn save_operator(store: &mut Ledger, owner: &Address, operator: &Address)
    ensures
        final(store)@ == after_save_operator(old(store)@, owner@, operator@),
{
    store.operator_approvals.set((owner.duplicate(), operator.duplicate()), true);
}

/// Revoke `operator` approval for `owner`.
pub fn remove_operator(store: &mut Ledger, owner: &Address, operator: &Address)
    ensures
        final(store)@ == after_remove_operator(old(store)@, owner@, operator@),
{
    let key = (owner.duplicate(), operator.duplicate());
    store.operator_approvals.remove(&key);
}

/// Return `true` if `operator` is approved for all tokens of `owner`.
pub fn is_operator(store: &Ledger, owner: &Address, operator: &Address) -> (r: bool)
    ensures
        r == operator_approved(store@, owner@, operator@),
{
    let key = (owner.duplicate(), operator.duplicate());
    match store.operator_approvals.get(&key) {
        Some(b) => b,
        None => false,
    }
}

/// An approval holds once saved and not once removed; approvals of other
/// (owner, operator) pairs are untouched either way.
pub proof fn law_operator_save_remove(
    s: LedgerView,
    owner: Seq<char>,
    operator: Seq<char>,
    other_owner: Seq<char>,
    other_operator: Seq<char>,
)
    ensures
        operator_approved(after_save_operator(s, owner, operator), owner, operator),
        !operator_approved(after_remove_operator(s, owner, operator), owner, operator),
        (other_owner, other_operator) != (owner, operator) ==> operator_approved(
            after_save_operator(s, owner, operator),
            other_owner,
            other_operator,
        ) == operator_approved(s, other_owner, other_operator),
        (other_owner, other_operator) != (owner, operator) ==> operator_approved(
            after_remove_operator(s, owner, operator),
            other_owner,
            other_operator,
        ) == operator_approved(s, other_owner, other_operator),
{
}

} // verus!
