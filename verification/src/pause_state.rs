//! Pause state storage: whether the contract is paused (`Paused`).

use vstd::prelude::*;

use crate::ledger::{Ledger, LedgerView};

verus! {

/// The pause state a ledger reports (`false` when never set).
pub open spec fn paused_of(s: LedgerView) -> bool {
    match s.paused {
        Some(p) => p,
        None => false,
    }
}

/// The ledger after storing `paused`.
pub open spec fn after_save_pause_state(s: LedgerView, paused: bool) -> LedgerView {
    LedgerView { paused: Some(paused), ..s }
}

/// Persist the pause state.
pub fn save_pause_state(store: &mut Ledger, paused: bool)
    ensures
        final(store)@ == after_save_pause_state(old(store)@, paused),
{
    store.paused = Some(paused);
}

/// Return the current pause state (`false` if never set).
pub fn get_pause_state(store: &Ledger) -> (r: bool)
    ensures
        r == paused_of(store@),
{
    match store.paused {
        Some(p) => p,
        None => false,
    }
}

/// The saved pause state is the one read back; a new contract is not paused.
pub proof fn law_pause_read_after_write(s: LedgerView, paused: bool)
    ensures
        paused_of(after_save_pause_state(s, paused)) == paused,
        !paused_of(crate::ledger::empty_ledger()),
{
}

} // verus!
