//! Royalty payment history storage.
//!
//! Tracks royalty payment records per token under `RoyaltyHistory(token_id)`.
//! Each entry captures the recipient, amount, and timestamp of a payment.

use vstd::prelude::*;

use crate::ledger::{Ledger, LedgerView};
use crate::table::Duplicate;
use crate::types::{Address, RoyaltyPayment, RoyaltyPaymentView, TokenId};

verus! {

/// The payment records a ledger reports for a token (empty when unset).
pub open spec fn history_of(s: LedgerView, token_id: TokenId) -> Seq<RoyaltyPaymentView> {
    if s.royalty_history.contains_key(token_id) {
        s.royalty_history[token_id]
    } else {
        Seq::empty()
    }
}

/// The ledger after appending `payment` to the token's history.
pub open spec fn after_record_payment(s: LedgerView, token_id: TokenId, payment: RoyaltyPaymentView) -> LedgerView {
    LedgerView {
        royalty_history: s.royalty_history.insert(token_id, history_of(s, token_id).push(payment)),
        ..s
    }
}

/// Append a royalty payment record for the given token.
pub fn record_royalty_payment(
    store: &mut Ledger,
    token_id: TokenId,
    recipient: Address,
    amount: i128,
    timestamp: u64,
)
    ensures
        final(store)@ == after_record_payment(
            old(store)@,
            token_id,
            RoyaltyPaymentView { token_id, recipient: recipient@, amount, timestamp },
        ),
{
    let mut history = get_royalty_history(store, token_id);
    let ghost before = history.deep_view();
    let payment = RoyaltyPayment { token_id, recipient, amount, timestamp };
    history.push(payment);
    proof {
        assert(history.deep_view() =~= before.push(
            RoyaltyPaymentView { token_id, recipient: recipient@, amount, timestamp },
        ));
    }
    store.royalty_history.set(token_id, history);
}

/// Return all royalty payment records for a token (empty if none recorded).
pub fn get_royalty_history(store: &Ledger, token_id: TokenId) -> (r: Vec<RoyaltyPayment>)
    ensures
        r.deep_view() == history_of(store@, token_id),
{
    match store.royalty_history.get(&token_id) {
        Some(h) => h,
        None => {
            let empty: Vec<RoyaltyPayment> = Vec::new();
            assert(empty.deep_view() =~= Seq::<RoyaltyPaymentView>::empty());
            empty
        },
    }
}

/// Recording a payment appends it after the earlier records of that token
/// and leaves other tokens' histories alone.
pub proof fn law_history_appends(
    s: LedgerView,
    token_id: TokenId,
    payment: RoyaltyPaymentView,
    other: TokenId,
)
    ensures
        history_of(after_record_payment(s, token_id, payment), token_id) == history_of(
            s,
            token_id,
        ).push(payment),
        history_of(after_record_payment(s, token_id, payment), token_id).len() == history_of(
            s,
            token_id,
        ).len() + 1,
        other != token_id ==> history_of(after_record_payment(s, token_id, payment), other)
            == history_of(s, other),
{
}

} // verus!
