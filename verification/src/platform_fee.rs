//! Platform fee configuration.
//!
//! Stores the platform fee in basis points (bps) that applies to all
//! marketplace transactions. Maximum allowed fee is 1 000 bps (10 %).

use vstd::prelude::*;

use crate::errors::Error;
use crate::ledger::{Ledger, LedgerView};

verus! {

/// Maximum platform fee: 10 % = 1 000 basis points.
pub const MAX_PLATFORM_FEE_BPS: u32 = 1_000;

/// The platform fee a ledger reports (`0` when none was stored).
pub open spec fn platform_fee_of(s: LedgerView) -> u32 {
    match s.platform_fee {
        Some(f) => f,
        None => 0,
    }
}

/// The ledger after storing `fee_bps` as the platform fee.
pub open spec fn ledger_with_platform_fee(s: LedgerView, fee_bps: u32) -> LedgerView {
    LedgerView { platform_fee: Some(fee_bps), ..s }
}

/// Store the platform fee in basis points.
///
/// # Errors
/// Returns [`Error::InvalidBasisPoints`] if `fee_bps > MAX_PLATFORM_FEE_BPS`,
/// leaving the ledger as it was.
pub fn set_platform_fee(store: &mut Ledger, fee_bps: u32) -> (r: Result<(), Error>)
    ensures
        fee_bps > MAX_PLATFORM_FEE_BPS ==> r == Err::<(), Error>(Error::InvalidBasisPoints)
            && final(store)@ == old(store)@,
        fee_bps <= MAX_PLATFORM_FEE_BPS ==> r == Ok::<(), Error>(())
            && final(store)@ == ledger_with_platform_fee(old(store)@, fee_bps),
{
    if fee_bps > MAX_PLATFORM_FEE_BPS {
        return Err(Error::InvalidBasisPoints);
    }
    store.platform_fee = Some(fee_bps);
    Ok(())
}

/// Return the current platform fee in basis points (defaults to `0`).
pub fn get_platform_fee(store: &Ledger) -> (r: u32)
    ensures
        r == platform_fee_of(store@),
{
    match store.platform_fee {
        Some(f) => f,
        None => 0,
    }
}

/// A fee that was accepted is the fee read back; a new ledger reports no fee.
pub proof fn law_platform_fee_read_after_write(s: LedgerView, fee_bps: u32)
    requires
        fee_bps <= MAX_PLATFORM_FEE_BPS,
    ensures
        platform_fee_of(ledger_with_platform_fee(s, fee_bps)) == fee_bps,
        platform_fee_of(crate::ledger::empty_ledger()) == 0,
{
}

} // verus!
