//! Configuration validator.
//!
//! Reusable validator for every configuration update.
//! Validates fees, addresses, URIs, collection limits, and royalty percentages.

use vstd::prelude::*;

use crate::config::{Config, ConfigView};
use crate::default_royalty::MAX_ROYALTY_BPS;
use crate::errors::{check_outcome, Error};
use crate::platform_fee::MAX_PLATFORM_FEE_BPS;
use crate::types::Address;

verus! {

/// Maximum collection size limit (prevents unbounded storage growth).
pub const MAX_COLLECTION_LIMIT: u32 = 100_000;

/// Validate a platform fee value in basis points.
///
/// Must be in range `[0, MAX_PLATFORM_FEE_BPS]` (0–10 %).
pub fn validate_fee(fee_bps: u32) -> (r: Result<(), Error>)
    ensures
        fee_bps > MAX_PLATFORM_FEE_BPS ==> r == Err::<(), Error>(Error::InvalidFee),
        fee_bps <= MAX_PLATFORM_FEE_BPS ==> r == Ok::<(), Error>(()),
{
    if fee_bps > MAX_PLATFORM_FEE_BPS {
        return Err(Error::InvalidFee);
    }
    Ok(())
}

/// Validate a royalty percentage in basis points.
///
/// Must be in range `[0, MAX_ROYALTY_BPS]` (0–100 %).
pub fn validate_royalty_bps(bps: u32) -> (r: Result<(), Error>)
    ensures
        bps > MAX_ROYALTY_BPS ==> r == Err::<(), Error>(Error::InvalidBasisPoints),
        bps <= MAX_ROYALTY_BPS ==> r == Ok::<(), Error>(()),
{
    if bps > MAX_ROYALTY_BPS {
        return Err(Error::InvalidBasisPoints);
    }
    Ok(())
}

/// Validate that an address is present.
pub fn validate_address_present(addr: &Option<Address>) -> (r: Result<(), Error>)
    ensures
        addr is None ==> r == Err::<(), Error>(Error::InvalidAddress),
        addr is Some ==> r == Ok::<(), Error>(()),
{
    if addr.is_none() {
        return Err(Error::InvalidAddress);
    }
    Ok(())
}

/// Validate a metadata URI string.
///
/// Rejects empty strings.
pub fn validate_uri(uri: &String) -> (r: Result<(), Error>)
    ensures
        uri@.len() == 0 ==> r == Err::<(), Error>(Error::InvalidURI),
        uri@.len() != 0 ==> r == Ok::<(), Error>(()),
{
    if uri.as_str().is_empty() {
        return Err(Error::InvalidURI);
    }
    Ok(())
}

/// Validate a collection limit.
///
/// Must be in range `[1, MAX_COLLECTION_LIMIT]`.
pub fn validate_collection_limit(limit: u32) -> (r: Result<(), Error>)
    ensures
        (limit == 0 || limit > MAX_COLLECTION_LIMIT) ==> r == Err::<(), Error>(Error::InvalidLimit),
        (1 <= limit <= MAX_COLLECTION_LIMIT) ==> r == Ok::<(), Error>(()),
{
    if limit == 0 || limit > MAX_COLLECTION_LIMIT {
        return Err(Error::InvalidLimit);
    }
    Ok(())
}

/// The first rule of [`validate_config`] a configuration breaks, if any:
/// the platform fee, then the default royalty, then a zero version.
pub open spec fn validator_violation(c: ConfigView) -> Option<Error> {
    if c.platform_fee_bps > MAX_PLATFORM_FEE_BPS {
        Some(Error::InvalidFee)
    } else if c.default_royalty_bps > MAX_ROYALTY_BPS {
        Some(Error::InvalidBasisPoints)
    } else if c.version == 0 {
        Some(Error::InvalidLimit)
    } else {
        None
    }
}

/// Validate a full Config struct before persisting.
///
/// Checks platform fee, default royalty, and that the version is above zero.
pub fn validate_config(config: &Config) -> (r: Result<(), Error>)
    ensures
        r == check_outcome(validator_violation(config@)),
{
    validate_fee(config.platform_fee_bps)?;
    validate_royalty_bps(config.default_royalty_bps)?;
    if config.version == 0 {
        return Err(Error::InvalidLimit);
    }
    Ok(())
}

/// The fee and royalty ranges the validator accepts are those the stored
/// configuration accepts: the validator only adds the version rule.
pub proof fn law_validator_agrees_with_config_limits(c: ConfigView)
    ensures
        validator_violation(c) is None ==> (c.platform_fee_bps <= MAX_PLATFORM_FEE_BPS
            && c.default_royalty_bps <= MAX_ROYALTY_BPS && c.version > 0),
        (c.platform_fee_bps <= MAX_PLATFORM_FEE_BPS && c.default_royalty_bps <= MAX_ROYALTY_BPS
            && c.version > 0) ==> validator_violation(c) is None,
{
}

} // verus!
