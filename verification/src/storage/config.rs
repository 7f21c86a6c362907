//! Administrative configuration storage: one [`Config`] value under the
//! storage module's `Config` key.

use vstd::prelude::*;

use crate::errors::{check_outcome, Error};
use crate::ledger::{Ledger, LedgerView};
use crate::table::Duplicate;
use crate::types::Address;

verus! {

/// Ceiling for both basis-point settings (100 %).
const MAX_BPS: u32 = 10_000;

/// Model of a [`Config`].
pub struct ConfigView {
    pub admin: Seq<char>,
    pub max_royalty_bps: u32,
    pub mint_cooldown_secs: u64,
    pub platform_fee_bps: u32,
}

/// Administrative settings: who may administer the contract and its limits.
#[derive(Clone, Debug, PartialEq, Eq)]
pub struct Config {
    /// Address authorised to call admin functions.
    pub admin: Address,
    /// Maximum royalty that can be set on any token (basis points).
    pub max_royalty_bps: u32,
    /// Minimum seconds between mints per address (`0` = no limit).
    pub mint_cooldown_secs: u64,
    /// Platform fee applied on secondary sales (basis points).
    pub platform_fee_bps: u32,
}

impl View for Config {
    type V = ConfigView;

    open spec fn view(&self) -> ConfigView {
        ConfigView {
            admin: self.admin@,
            max_royalty_bps: self.max_royalty_bps,
            mint_cooldown_secs: self.mint_cooldown_secs,
            platform_fee_bps: self.platform_fee_bps,
        }
    }
}

impl DeepView for Config {
    type V = ConfigView;

    open spec fn deep_view(&self) -> ConfigView {
        self.view()
    }
}

impl Duplicate for Config {
    fn duplicate(&self) -> (r: Self) {
        Config {
            admin: self.admin.duplicate(),
            max_royalty_bps: self.max_royalty_bps,
            mint_cooldown_secs: self.mint_cooldown_secs,
            platform_fee_bps: self.platform_fee_bps,
        }
    }
}

/// The first rule a configuration breaks, if any: both basis-point settings
/// are capped at 10 000 (100 %).
pub open spec fn admin_config_violation(c: ConfigView) -> Option<Error> {
    if c.max_royalty_bps > 10_000 {
        Some(Error::InvalidBasisPoints)
    } else if c.platform_fee_bps > 10_000 {
        Some(Error::InvalidBasisPoints)
    } else {
        None
    }
}

/// The ledger after storing `c` as the administrative configuration.
pub open spec fn ledger_with_admin_config(s: LedgerView, c: ConfigView) -> LedgerView {
    LedgerView { admin_config: Some(c), ..s }
}

/// Read the stored [`Config`]; the contract must have stored one.
pub fn get_config(store: &Ledger) -> (r: Config)
    requires
        store@.admin_config is Some,
    ensures
        Some(r@) == store@.admin_config,
{
    match &store.admin_config {
        Some(cfg) => cfg.duplicate(),
        None => {
            proof {
                assert(false);
            }
            Config {
                admin: Address::from_strkey(String::new()),
                max_royalty_bps: 0,
                mint_cooldown_secs: 0,
                platform_fee_bps: 0,
            }
        },
    }
}

/// Persist a [`Config`].
pub fn set_config(store: &mut Ledger, config: &Config)
    ensures
        final(store)@ == ledger_with_admin_config(old(store)@, config@),
{
    store.admin_config = Some(config.duplicate());
}

/// Validate config values. Returns `Err(InvalidBasisPoints)` on bad inputs.
pub fn validate_config(config: &Config) -> (r: Result<(), Error>)
    ensures
        r == check_outcome(admin_config_violation(config@)),
{
    if config.max_royalty_bps > MAX_BPS {
        return Err(Error::InvalidBasisPoints);
    }
    if config.platform_fee_bps > MAX_BPS {
        return Err(Error::InvalidBasisPoints);
    }
    Ok(())
}

/// What is stored is what is read back.
pub proof fn law_admin_config_read_after_write(s: LedgerView, c: ConfigView)
    ensures
        ledger_with_admin_config(s, c).admin_config == Some(c),
{
}

} // verus!
