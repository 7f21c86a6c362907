//! Platform revenue storage: cumulative revenue from fees (`PlatformRevenue`).

use vstd::prelude::*;

use crate::ledger::{Ledger, LedgerView};

verus! {

/// The revenue a ledger reports (`0` when unset).
pub open spec fn revenue_of(s: LedgerView) -> i128 {
    match s.platform_revenue {
        Some(r) => r,
        None => 0,
    }
}

/// The ledger after storing `amount` as the revenue.
pub open spec fn after_save_revenue(s: LedgerView, amount: i128) -> LedgerView {
    LedgerView { platform_revenue: Some(amount), ..s }
}

/// Overwrite the stored platform revenue with `amount`.
pub fn save_platform_revenue(store: &mut Ledger, amount: i128)
    ensures
        final(store)@ == after_save_revenue(old(store)@, amount),
{
    store.platform_revenue = Some(amount);
}

/// Add `delta` to the current platform revenue total.
///
/// The new total must fit in an `i128`.
pub fn update_platform_revenue(store: &mut Ledger, delta: i128)
    requires
        i128::MIN <= revenue_of(old(store)@) + delta <= i128::MAX,
    ensures
        final(store)@ == after_save_revenue(old(store)@, (revenue_of(old(store)@) + delta) as i128),
{
    let current = get_platform_revenue(store);
    store.platform_revenue = Some(current + delta);
}

/// Return the current cumulative platform revenue (defaults to `0`).
pub fn get_platform_revenue(store: &Ledger) -> (r: i128)
    ensures
        r == revenue_of(store@),
{
    match store.platform_revenue {
        Some(r) => r,
        None => 0,
    }
}

/// Saved revenue is read back; updates accumulate, so two updates add both
/// deltas.
pub proof fn law_revenue_accumulates(s: LedgerView, amount: i128, d1: i128, d2: i128)
    requires
        i128::MIN <= revenue_of(s) + d1 <= i128::MAX,
        i128::MIN <= revenue_of(s) + d1 + d2 <= i128::MAX,
    ensures
        revenue_of(after_save_revenue(s, amount)) == amount,
        revenue_of(
            after_save_revenue(
                after_save_revenue(s, (revenue_of(s) + d1) as i128),
                (revenue_of(after_save_revenue(s, (revenue_of(s) + d1) as i128)) + d2) as i128,
            ),
        ) == revenue_of(s) + d1 + d2,
{
}

} // verus!
