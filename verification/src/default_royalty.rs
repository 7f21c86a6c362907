//! Default royalty configuration.
//!
//! Stores a contract-wide default royalty percentage (in basis points) that is
//! applied to newly minted NFTs when no per-token royalty is explicitly
//! provided.
//!
//! # Limits
//! `0` – `10_000` bps inclusive (0 % – 100 %).

use vstd::prelude::*;

use crate::errors::Error;
use crate::ledger::{Ledger, LedgerView};

verus! {

/// Absolute maximum royalty: 100 % = 10 000 basis points.
pub const MAX_ROYALTY_BPS: u32 = 10_000;

/// Factory default applied when no custom value has been set (5 % = 500 bps).
pub const DEFAULT_ROYALTY_BPS: u32 = 500;

/// The default royalty a ledger reports ([`DEFAULT_ROYALTY_BPS`] when none was stored).
pub open spec fn default_royalty_of(s: LedgerView) -> u32 {
    match s.default_royalty_bps {
        Some(b) => b,
        None => DEFAULT_ROYALTY_BPS,
    }
}

/// The ledger after storing `bps` as the default royalty.
pub open spec fn ledger_with_default_royalty(s: LedgerView, bps: u32) -> LedgerView {
    LedgerView { default_royalty_bps: Some(bps), ..s }
}

/// Persist the default royalty in basis points.
///
/// # Errors
/// Returns [`Error::InvalidBasisPoints`] when `bps > MAX_ROYALTY_BPS`,
/// leaving the ledger as it was.
pub fn set_default_royalty_bps(store: &mut Ledger, bps: u32) -> (r: Result<(), Error>)
    ensures
        bps > MAX_ROYALTY_BPS ==> r == Err::<(), Error>(Error::InvalidBasisPoints)
            && final(store)@ == old(store)@,
        bps <= MAX_ROYALTY_BPS ==> r == Ok::<(), Error>(())
            && final(store)@ == ledger_with_default_royalty(old(store)@, bps),
{
    if bps > MAX_ROYALTY_BPS {
        return Err(Error::InvalidBasisPoints);
    }
    store.default_royalty_bps = Some(bps);
    Ok(())
}

/// Return the stored default royalty in basis points.
///
/// Falls back to [`DEFAULT_ROYALTY_BPS`] (500) if never explicitly set.
pub fn get_default_royalty_bps(store: &Ledger) -> (r: u32)
    ensures
        r == default_royalty_of(store@),
{
    match store.default_royalty_bps {
        Some(b) => b,
        None => DEFAULT_ROYALTY_BPS,
    }
}

/// An accepted default royalty is the one read back; before any is stored
/// the factory default applies.
pub proof fn law_default_royalty_read_after_write(s: LedgerView, bps: u32)
    requires
        bps <= MAX_ROYALTY_BPS,
    ensures
        default_royalty_of(ledger_with_default_royalty(s, bps)) == bps,
        default_royalty_of(crate::ledger::empty_ledger()) == DEFAULT_ROYALTY_BPS,
{
}

} // verus!
