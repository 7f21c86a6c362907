//! Collection supply storage.
//!
//! Tracks the number of NFTs minted per collection under
//! `CollectionSupply(collection_id)`.

use vstd::prelude::*;

use crate::ledger::{Ledger, LedgerView};

verus! {

/// The minted supply a ledger reports for a collection (`0` when unset).
pub open spec fn supply_of(s: LedgerView, collection_id: u32) -> u32 {
    if s.collection_supply.contains_key(collection_id) {
        s.collection_supply[collection_id]
    } else {
        0
    }
}

/// The ledger after one more mint in `collection_id`.
pub open spec fn after_increment_supply(s: LedgerView, collection_id: u32) -> LedgerView {
    LedgerView {
        collection_supply: s.collection_supply.insert(
            collection_id,
            (supply_of(s, collection_id) + 1) as u32,
        ),
        ..s
    }
}

/// Increment the minted supply counter for the given collection by one.
///
/// The counter must be below `u32::MAX`: the count cannot wrap.
pub fn increment_collection_supply(store: &mut Ledger, collection_id: u32)
    requires
        supply_of(old(store)@, collection_id) < u32::MAX,
    ensures
        final(store)@ == after_increment_supply(old(store)@, collection_id),
{
    let current = get_collection_supply(store, collection_id);
    store.collection_supply.set(collection_id, current + 1);
}

/// Return the current minted supply for a collection (defaults to `0`).
pub fn get_collection_supply(store: &Ledger, collection_id: u32) -> (r: u32)
    ensures
        r == supply_of(store@, collection_id),
{
    match store.collection_supply.get(&collection_id) {
        Some(n) => n,
        None => 0,
    }
}

/// Each increment raises the collection's count by exactly one and leaves
/// every other collection's count alone.
pub proof fn law_supply_increments_by_one(s: LedgerView, collection_id: u32, other: u32)
    requires
        supply_of(s, collection_id) < u32::MAX,
    ensures
        supply_of(after_increment_supply(s, collection_id), collection_id) == supply_of(
            s,
            collection_id,
        ) + 1,
        other != collection_id ==> supply_of(after_increment_supply(s, collection_id), other)
            == supply_of(s, other),
{
}

} // verus!
