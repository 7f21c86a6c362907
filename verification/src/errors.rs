use vstd::prelude::*;

verus! {

/// Every failure the contract's storage and configuration layer reports.
#[derive(Clone, Copy, Debug, PartialEq, Eq, Structural)]
pub enum Error {
    NotInitialized,
    AlreadyInitialized,
    Unauthorized,
    TokenNotFound,
    AlreadyMinted,
    InvalidBasisPoints,
    InvalidRecipient,
    Paused,
    NotPaused,
    MintCooldown,
    /// The clip ID is already registered in the minted-clip index.
    ClipAlreadyMinted,
    /// A batch or collection size limit is out of range.
    InvalidConfig,
    /// A platform fee is above the platform fee ceiling.
    InvalidFee,
    /// A required address is missing.
    InvalidAddress,
    /// A metadata URI is empty.
    InvalidURI,
    /// A collection limit or version number is out of range.
    InvalidLimit,
    /// The caller is not the configuration administrator.
    UnauthorizedConfigurationUpdate,
    /// The currency is already in the supported list.
    DuplicateCurrency,
    /// The currency is not in the supported list.
    CurrencyNotFound,
    /// The contract is paused.
    ContractPaused,
}

} // verus!

verus! {

/// The result of a check that fails with `violation` when there is one.
pub open spec fn check_outcome(violation: Option<Error>) -> Result<(), Error> {
    match violation {
        Some(e) => Err(e),
        None => Ok(()),
    }
}

} // verus!
