//! Global contract configuration.
//!
//! [`Config`] consolidates all top-level settings into a single stored
//! value so callers can read or update the contract state in one round-trip.
//! Updating it reports, as [`ConfigUpdateEvent`]s, every numeric setting
//! whose value changed.

use vstd::prelude::*;

use crate::default_royalty::MAX_ROYALTY_BPS;
use crate::errors::{check_outcome, Error};
use crate::ledger::{Ledger, LedgerView};
use crate::platform_fee::MAX_PLATFORM_FEE_BPS;
use crate::table::Duplicate;
use crate::types::Address;

verus! {

/// Contract version constant — bump on breaking interface changes.
pub const CONTRACT_VERSION: u32 = 1;

/// Default batch mint size limit.
pub const MAX_BATCH_MINT_SIZE: u32 = 50;

/// Default collection size limit.
pub const MAX_COLLECTION_SIZE: u32 = 10_000;

/// Model of a [`Config`].
pub struct ConfigView {
    pub owner: Seq<char>,
    pub version: u32,
    pub platform_fee_bps: u32,
    pub default_royalty_bps: u32,
    pub paused: bool,
    pub max_batch_mint_size: u32,
    pub max_collection_size: u32,
}

/// Every global contract setting.
#[derive(Clone, Debug, PartialEq, Eq)]
pub struct Config {
    /// Contract owner / administrator address.
    pub owner: Address,
    /// Semantic version number (monotonically increasing integer).
    pub version: u32,
    /// Platform fee in basis points (0–1 000, i.e. 0 %–10 %).
    pub platform_fee_bps: u32,
    /// Default royalty in basis points applied to newly minted NFTs (0–10 000).
    pub default_royalty_bps: u32,
    /// When `true`, mint and transfer operations are blocked.
    pub paused: bool,
    /// Maximum number of NFTs mintable in a single batch call (1–100).
    pub max_batch_mint_size: u32,
    /// Maximum total NFTs in a collection (1–100 000).
    pub max_collection_size: u32,
}

impl View for Config {
    type V = ConfigView;

    open spec fn view(&self) -> ConfigView {
        ConfigView {
            owner: self.owner@,
            version: self.version,
            platform_fee_bps: self.platform_fee_bps,
            default_royalty_bps: self.default_royalty_bps,
            paused: self.paused,
            max_batch_mint_size: self.max_batch_mint_size,
            max_collection_size: self.max_collection_size,
        }
    }
}

impl DeepView for Config {
    type V = ConfigView;

    open spec fn deep_view(&self) -> ConfigView {
        self.view()
    }
}

impl Duplicate for Config {
    fn duplicate(&self) -> (r: Self) {
        Config {
            owner: self.owner.duplicate(),
            version: self.version,
            platform_fee_bps: self.platform_fee_bps,
            default_royalty_bps: self.default_royalty_bps,
            paused: self.paused,
            max_batch_mint_size: self.max_batch_mint_size,
            max_collection_size: self.max_collection_size,
        }
    }
}

/// Model of a [`ConfigUpdateEvent`].
pub struct ConfigUpdateEventView {
    pub key: Seq<char>,
    pub old_value: u32,
    pub new_value: u32,
    pub updater: Seq<char>,
}

/// Event emitted whenever a config value changes.
#[derive(Clone, Debug, PartialEq, Eq)]
pub struct ConfigUpdateEvent {
    pub key: String,
    pub old_value: u32,
    pub new_value: u32,
    pub updater: Address,
}

impl View for ConfigUpdateEvent {
    type V = ConfigUpdateEventView;

    open spec fn view(&self) -> ConfigUpdateEventView {
        ConfigUpdateEventView {
            key: self.key@,
            old_value: self.old_value,
            new_value: self.new_value,
            updater: self.updater@,
        }
    }
}

impl DeepView for ConfigUpdateEvent {
    type V = ConfigUpdateEventView;

    open spec fn deep_view(&self) -> ConfigUpdateEventView {
        self.view()
    }
}

/// The first limit a configuration breaks, if any: fee, then royalty,
/// then batch size, then collection size.
pub open spec fn config_violation(c: ConfigView) -> Option<Error> {
    if c.platform_fee_bps > MAX_PLATFORM_FEE_BPS {
        Some(Error::InvalidBasisPoints)
    } else if c.default_royalty_bps > MAX_ROYALTY_BPS {
        Some(Error::InvalidBasisPoints)
    } else if c.max_batch_mint_size < 1 || c.max_batch_mint_size > 100 {
        Some(Error::InvalidConfig)
    } else if c.max_collection_size < 1 || c.max_collection_size > 100_000 {
        Some(Error::InvalidConfig)
    } else {
        None
    }
}

/// The event for one setting: one event when its value changed, none otherwise.
pub open spec fn change_event(key: Seq<char>, old_value: u32, new_value: u32, updater: Seq<char>) -> Seq<
    ConfigUpdateEventView,
> {
    if old_value != new_value {
        seq![ConfigUpdateEventView { key, old_value, new_value, updater }]
    } else {
        seq![]
    }
}

/// The events an update from `previous` to `next` reports, in setting order.
/// A first configuration (nothing stored before) reports none.
pub open spec fn config_change_events(
    previous: Option<ConfigView>,
    next: ConfigView,
    updater: Seq<char>,
) -> Seq<ConfigUpdateEventView> {
    match previous {
        None => seq![],
        Some(p) => change_event(
            "platform_fee_bps"@,
            p.platform_fee_bps,
            next.platform_fee_bps,
            updater,
        ) + change_event("default_royalty_bps"@, p.default_royalty_bps, next.default_royalty_bps, updater)
            + change_event("max_batch_mint_size"@, p.max_batch_mint_size, next.max_batch_mint_size, updater)
            + change_event("max_collection_size"@, p.max_collection_size, next.max_collection_size, updater),
    }
}

/// The ledger after storing `c` as the global configuration.
pub open spec fn ledger_with_config(s: LedgerView, c: ConfigView) -> LedgerView {
    LedgerView { config: Some(c), ..s }
}

/// Persist a [`Config`] snapshot, returning an event for each changed setting.
///
/// # Errors
/// Returns [`Error::InvalidBasisPoints`] when fee or royalty limits are exceeded,
/// or [`Error::InvalidConfig`] when batch/collection size limits are violated;
/// the ledger is then left as it was.
pub fn set_config(store: &mut Ledger, config: Config, updater: Address) -> (r: Result<
    Vec<ConfigUpdateEvent>,
    Error,
>)
    ensures
        match config_violation(config@) {
            Some(e) => r matches Err(x) && x == e && final(store)@ == old(store)@,
            None => r matches Ok(events) && events.deep_view() == config_change_events(
                old(store)@.config,
                config@,
                updater@,
            ) && final(store)@ == ledger_with_config(old(store)@, config@),
        },
{
    if config.platform_fee_bps > MAX_PLATFORM_FEE_BPS {
        return Err(Error::InvalidBasisPoints);
    }
    if config.default_royalty_bps > MAX_ROYALTY_BPS {
        return Err(Error::InvalidBasisPoints);
    }
    if config.max_batch_mint_size < 1 || config.max_batch_mint_size > 100 {
        return Err(Error::InvalidConfig);
    }
    if config.max_collection_size < 1 || config.max_collection_size > 100_000 {
        return Err(Error::InvalidConfig);
    }

    let mut events: Vec<ConfigUpdateEvent> = Vec::new();
    proof {
        assert(events.deep_view() =~= Seq::<ConfigUpdateEventView>::empty());
    }
    match &store.config {
        Some(previous) => {
            emit_if_changed(
                &mut events,
                &updater,
                "platform_fee_bps",
                previous.platform_fee_bps,
                config.platform_fee_bps,
            );
            emit_if_changed(
                &mut events,
                &updater,
                "default_royalty_bps",
                previous.default_royalty_bps,
                config.default_royalty_bps,
            );
            emit_if_changed(
                &mut events,
                &updater,
                "max_batch_mint_size",
                previous.max_batch_mint_size,
                config.max_batch_mint_size,
            );
            emit_if_changed(
                &mut events,
                &updater,
                "max_collection_size",
                previous.max_collection_size,
                config.max_collection_size,
            );
            proof {
                let p = previous@;
                let u = updater@;
                assert(events.deep_view() =~= config_change_events(Some(p), config@, u));
            }
        },
        None => {},
    }
    store.config = Some(config);
    Ok(events)
}

/// Append the event for one setting to `events` when its value changed.
fn emit_if_changed(
    events: &mut Vec<ConfigUpdateEvent>,
    updater: &Address,
    key: &str,
    old_value: u32,
    new_value: u32,
)
    ensures
        final(events).deep_view() == old(events).deep_view() + change_event(
            key@,
            old_value,
            new_value,
            updater@,
        ),
{
    if old_value != new_value {
        let event = ConfigUpdateEvent {
            key: key.to_owned(),
            old_value,
            new_value,
            updater: updater.duplicate(),
        };
        events.push(event);
        proof {
            assert(final(events).deep_view() =~= old(events).deep_view() + change_event(
                key@,
                old_value,
                new_value,
                updater@,
            ));
        }
    } else {
        proof {
            assert(old(events).deep_view() + change_event(key@, old_value, new_value, updater@)
                =~= old(events).deep_view());
        }
    }
}

/// Return the stored [`Config`], or `None` if the contract is not yet initialized.
pub fn get_config(store: &Ledger) -> (r: Option<Config>)
    ensures
        r.deep_view() == store@.config,
{
    store.config.duplicate()
}

/// Reusable service for reading, validating and updating the configuration.
pub struct ConfigService;

impl ConfigService {
    /// The stored configuration, as [`get_config`].
    pub fn read_config(store: &Ledger) -> (r: Option<Config>)
        ensures
            r.deep_view() == store@.config,
    {
        get_config(store)
    }

    /// Check a configuration against the limits [`set_config`] enforces.
    pub fn validate_update(config: &Config) -> (r: Result<(), Error>)
        ensures
            r == check_outcome(config_violation(config@)),
    {
        if config.platform_fee_bps > MAX_PLATFORM_FEE_BPS {
            return Err(Error::InvalidBasisPoints);
        }
        if config.default_royalty_bps > MAX_ROYALTY_BPS {
            return Err(Error::InvalidBasisPoints);
        }
        if config.max_batch_mint_size < 1 || config.max_batch_mint_size > 100 {
            return Err(Error::InvalidConfig);
        }
        if config.max_collection_size < 1 || config.max_collection_size > 100_000 {
            return Err(Error::InvalidConfig);
        }
        Ok(())
    }

    /// Validate, then store, a configuration; the outcome is that of [`set_config`].
    pub fn update_config(store: &mut Ledger, config: Config, updater: Address) -> (r: Result<
        Vec<ConfigUpdateEvent>,
        Error,
    >)
        ensures
            match config_violation(config@) {
                Some(e) => r matches Err(x) && x == e && final(store)@ == old(store)@,
                None => r matches Ok(events) && events.deep_view() == config_change_events(
                    old(store)@.config,
                    config@,
                    updater@,
                ) && final(store)@ == ledger_with_config(old(store)@, config@),
            },
    {
        match Self::validate_update(&config) {
            Err(e) => Err(e),
            Ok(()) => set_config(store, config, updater),
        }
    }
}

/// Storing a configuration makes it the one read back.
pub proof fn law_config_read_after_write(s: LedgerView, c: ConfigView)
    ensures
        ledger_with_config(s, c).config == Some(c),
{
}

/// An update that changes no numeric setting reports no event, and neither
/// does the first configuration ever stored.
pub proof fn law_config_events_only_on_change(c: ConfigView, updater: Seq<char>)
    ensures
        config_change_events(Some(c), c, updater) == Seq::<ConfigUpdateEventView>::empty(),
        config_change_events(None, c, updater) == Seq::<ConfigUpdateEventView>::empty(),
{
    assert(config_change_events(Some(c), c, updater) =~= Seq::<ConfigUpdateEventView>::empty());
}

/// Every reported event names a setting whose old and new values differ.
pub proof fn law_config_events_report_changes(p: ConfigView, c: ConfigView, updater: Seq<char>, i: int)
    requires
        0 <= i < config_change_events(Some(p), c, updater).len(),
    ensures
        config_change_events(Some(p), c, updater)[i].old_value != config_change_events(
            Some(p),
            c,
            updater,
        )[i].new_value,
        config_change_events(Some(p), c, updater)[i].updater == updater,
{
}

} // verus!
