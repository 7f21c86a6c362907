//! Configuration update guard.
//!
//! Restricts configuration updates to the contract administrator.  The
//! signature check of the caller (`require_auth`) is made by the host that
//! runs the contract, after this guard has accepted the caller.

use vstd::prelude::*;

use crate::errors::Error;
use crate::ledger::{Ledger, LedgerView};
use crate::table::LedgerKey;
use crate::types::Address;

verus! {

/// The outcome of the guard for `caller` on a ledger.
pub open spec fn config_admin_check(s: LedgerView, caller: Seq<char>) -> Result<(), Error> {
    match s.admin {
        None => Err(Error::NotInitialized),
        Some(admin) => if caller != admin {
            Err(Error::UnauthorizedConfigurationUpdate)
        } else {
            Ok(())
        },
    }
}

/// Validate that the caller is the contract owner/admin.
///
/// It checks:
/// 1. The contract has been initialized (admin exists).
/// 2. The caller matches the stored admin address.
///
/// # Errors
/// - [`Error::NotInitialized`] if the contract has not been initialized.
/// - [`Error::UnauthorizedConfigurationUpdate`] if the caller is not admin.
pub fn require_config_admin(store: &Ledger, caller: &Address) -> (r: Result<(), Error>)
    ensures
        r == config_admin_check(store@, caller@),
{
    match &store.admin {
        None => Err(Error::NotInitialized),
        Some(admin) => {
            if !caller.same_key(admin) {
                return Err(Error::UnauthorizedConfigurationUpdate);
            }
            Ok(())
        },
    }
}

/// Exactly the stored administrator passes the guard.
pub proof fn law_only_admin_passes(s: LedgerView, caller: Seq<char>)
    ensures
        config_admin_check(s, caller) is Ok <==> s.admin == Some(caller),
{
}

} // verus!
