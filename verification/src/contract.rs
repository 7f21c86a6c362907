//! The contract's administrative and token entry points.
//!
//! Each entry point checks who may call it, then runs the storage helpers
//! of the other modules.  Events and the callers' signatures belong to the
//! host: configuration events are returned for the host to publish.

use vstd::prelude::*;

use crate::config::{
    change_event, config_change_events, config_violation, ledger_with_config, Config, ConfigUpdateEvent,
    ConfigView, MAX_BATCH_MINT_SIZE, MAX_COLLECTION_SIZE,
};
use crate::config_guard::{config_admin_check, require_config_admin};
use crate::config_validator::{validate_config, validator_violation};
use crate::default_royalty::{ledger_with_default_royalty, MAX_ROYALTY_BPS};
use crate::errors::Error;
use crate::ledger::{Ledger, LedgerView};
use crate::pause_state::paused_of;
use crate::payment_currency::{
    add_currency_result, currencies_of, ledger_with_currencies, remove_currency_result,
};
use crate::platform_fee::{ledger_with_platform_fee, MAX_PLATFORM_FEE_BPS};
use crate::lists::without;
use crate::table::{Duplicate, LedgerKey};
use crate::token_storage::{after_remove_token, after_set_token};
use crate::types::{Address, Royalty, TokenDataView, TokenId};

verus! {

/// The outcome of the administrator check of the entry points: the
/// contract must be initialized and the caller must be its administrator.
pub open spec fn admin_check(s: LedgerView, caller: Seq<char>) -> Result<(), Error> {
    match s.admin {
        None => Err(Error::NotInitialized),
        Some(admin) => if caller != admin {
            Err(Error::Unauthorized)
        } else {
            Ok(())
        },
    }
}

/// The ledger of a newly initialized contract administered by `admin`.
pub open spec fn after_init(s: LedgerView, admin: Seq<char>) -> LedgerView {
    LedgerView { admin: Some(admin), next_token_id: Some(0), paused: Some(false), ..s }
}

/// Why a full configuration update by `caller` is refused, if it is: the
/// guard, then the validator, then the stored limits.
pub open spec fn admin_set_config_violation(s: LedgerView, caller: Seq<char>, c: ConfigView) -> Option<
    Error,
> {
    match config_admin_check(s, caller) {
        Err(e) => Some(e),
        Ok(_) => match validator_violation(c) {
            Some(e) => Some(e),
            None => config_violation(c),
        },
    }
}

/// Why changing one size limit to `value` is refused, if it is: the
/// administrator check, then the range `[1, max]`, then a missing configuration.
pub open spec fn size_limit_violation(s: LedgerView, caller: Seq<char>, value: u32, max: u32) -> Option<
    Error,
> {
    match admin_check(s, caller) {
        Err(e) => Some(e),
        Ok(_) => if value < 1 || value > max {
            Some(Error::InvalidConfig)
        } else if s.config is None {
            Some(Error::NotInitialized)
        } else {
            None
        },
    }
}

/// The batch mint limit a ledger reports ([`MAX_BATCH_MINT_SIZE`] without a configuration).
pub open spec fn batch_limit_of(s: LedgerView) -> u32 {
    match s.config {
        Some(c) => c.max_batch_mint_size,
        None => MAX_BATCH_MINT_SIZE,
    }
}

/// The collection size limit a ledger reports ([`MAX_COLLECTION_SIZE`] without a configuration).
pub open spec fn collection_limit_of(s: LedgerView) -> u32 {
    match s.config {
        Some(c) => c.max_collection_size,
        None => MAX_COLLECTION_SIZE,
    }
}

/// The outcome of `from` transferring `token_id`: the contract must be
/// initialized and not paused, the token must exist and `from` must own it.
pub open spec fn transfer_check(s: LedgerView, from: Seq<char>, token_id: TokenId) -> Result<(), Error> {
    if s.admin is None {
        Err(Error::NotInitialized)
    } else if paused_of(s) {
        Err(Error::ContractPaused)
    } else if !s.tokens.contains_key(token_id) {
        Err(Error::TokenNotFound)
    } else if s.tokens[token_id].owner != from {
        Err(Error::Unauthorized)
    } else {
        Ok(())
    }
}

/// The ledger after `token_id` passes to `to`.
pub open spec fn after_transfer(s: LedgerView, to: Seq<char>, token_id: TokenId) -> LedgerView {
    after_set_token(s, token_id, TokenDataView { owner: to, ..s.tokens[token_id] })
}

/// The outcome of `owner` burning `token_id`: the contract must be
/// initialized, the token must exist and `owner` must own it.
pub open spec fn burn_check(s: LedgerView, owner: Seq<char>, token_id: TokenId) -> Result<(), Error> {
    if s.admin is None {
        Err(Error::NotInitialized)
    } else if !s.tokens.contains_key(token_id) {
        Err(Error::TokenNotFound)
    } else if s.tokens[token_id].owner != owner {
        Err(Error::Unauthorized)
    } else {
        Ok(())
    }
}

/// The token count a ledger reports (`0` when unset).
pub open spec fn total_supply_of(s: LedgerView) -> u32 {
    match s.next_token_id {
        Some(n) => n,
        None => 0,
    }
}

/// The clips NFT contract's entry points.
pub struct ClipCashNFT;

impl ClipCashNFT {
    /// Initialize the contract and set the admin.
    ///
    /// A contract is initialized once: the ledger must have no administrator yet.
    pub fn init(store: &mut Ledger, admin: &Address)
        requires
            old(store)@.admin is None,
        ensures
            final(store)@ == after_init(old(store)@, admin@),
    {
        store.admin = Some(admin.duplicate());
        store.next_token_id = Some(0);
        store.paused = Some(false);
    }

    /// Persist a full [`Config`] snapshot. Admin only; the configuration must
    /// pass the validator and the stored limits.  Returns the events for the
    /// changed settings.
    pub fn set_config(store: &mut Ledger, admin: &Address, cfg: Config) -> (r: Result<
        Vec<ConfigUpdateEvent>,
        Error,
    >)
        ensures
            match admin_set_config_violation(old(store)@, admin@, cfg@) {
                Some(e) => r matches Err(x) && x == e && final(store)@ == old(store)@,
                None => r matches Ok(events) && events.deep_view() == config_change_events(
                    old(store)@.config,
                    cfg@,
                    admin@,
                ) && final(store)@ == ledger_with_config(old(store)@, cfg@),
            },
    {
        require_config_admin(store, admin)?;
        validate_config(&cfg)?;
        crate::config::set_config(store, cfg, admin.duplicate())
    }

    /// Return the current [`Config`], or `None` before initialization.
    pub fn get_config(store: &Ledger) -> (r: Option<Config>)
        ensures
            r.deep_view() == store@.config,
    {
        crate::config::get_config(store)
    }

    /// Return max batch mint size (defaults to [`MAX_BATCH_MINT_SIZE`] if config not set).
    pub fn get_max_batch_mint_size(store: &Ledger) -> (r: u32)
        ensures
            r == batch_limit_of(store@),
    {
        match &store.config {
            Some(c) => c.max_batch_mint_size,
            None => MAX_BATCH_MINT_SIZE,
        }
    }

    /// Set max batch mint size (1–100). Admin only.  Returns the event for the
    /// change, if the value changed.
    pub fn set_max_batch_mint_size(store: &mut Ledger, admin: &Address, value: u32) -> (r: Result<
        Vec<ConfigUpdateEvent>,
        Error,
    >)
        ensures
            match size_limit_violation(old(store)@, admin@, value, 100) {
                Some(e) => r matches Err(x) && x == e && final(store)@ == old(store)@,
                None => r matches Ok(events) && events.deep_view() == change_event(
                    "max_batch_mint_size"@,
                    old(store)@.config->0.max_batch_mint_size,
                    value,
                    admin@,
                ) && final(store)@ == ledger_with_config(
                    old(store)@,
                    ConfigView { max_batch_mint_size: value, ..old(store)@.config->0 },
                ),
            },
    {
        Self::require_admin(store, admin)?;
        if value < 1 || value > 100 {
            return Err(Error::InvalidConfig);
        }
        let mut cfg = match crate::config::get_config(store) {
            Some(c) => c,
            None => {
                return Err(Error::NotInitialized);
            },
        };
        let old_value = cfg.max_batch_mint_size;
        cfg.max_batch_mint_size = value;
        let events = Self::size_change_events(admin, "max_batch_mint_size", old_value, value);
        store.config = Some(cfg);
        Ok(events)
    }

    /// Return max collection size (defaults to [`MAX_COLLECTION_SIZE`] if config not set).
    pub fn get_max_collection_size(store: &Ledger) -> (r: u32)
        ensures
            r == collection_limit_of(store@),
    {
        match &store.config {
            Some(c) => c.max_collection_size,
            None => MAX_COLLECTION_SIZE,
        }
    }

    /// Set max collection size (1–100 000). Admin only.  Returns the event for
    /// the change, if the value changed.
    pub fn set_max_collection_size(store: &mut Ledger, admin: &Address, value: u32) -> (r: Result<
        Vec<ConfigUpdateEvent>,
        Error,
    >)
        ensures
            match size_limit_violation(old(store)@, admin@, value, 100_000) {
                Some(e) => r matches Err(x) && x == e && final(store)@ == old(store)@,
                None => r matches Ok(events) && events.deep_view() == change_event(
                    "max_collection_size"@,
                    old(store)@.config->0.max_collection_size,
                    value,
                    admin@,
                ) && final(store)@ == ledger_with_config(
                    old(store)@,
                    ConfigView { max_collection_size: value, ..old(store)@.config->0 },
                ),
            },
    {
        Self::require_admin(store, admin)?;
        if value < 1 || value > 100_000 {
            return Err(Error::InvalidConfig);
        }
        let mut cfg = match crate::config::get_config(store) {
            Some(c) => c,
            None => {
                return Err(Error::NotInitialized);
            },
        };
        let old_value = cfg.max_collection_size;
        cfg.max_collection_size = value;
        let events = Self::size_change_events(admin, "max_collection_size", old_value, value);
        store.config = Some(cfg);
        Ok(events)
    }

    /// The event list for one size limit: one event when the value changed.
    fn size_change_events(admin: &Address, key: &str, old_value: u32, new_value: u32) -> (r: Vec<
        ConfigUpdateEvent,
    >)
        ensures
            r.deep_view() == change_event(key@, old_value, new_value, admin@),
    {
        let mut events: Vec<ConfigUpdateEvent> = Vec::new();
        if old_value != new_value {
            events.push(
                ConfigUpdateEvent {
                    key: key.to_owned(),
                    old_value,
                    new_value,
                    updater: admin.duplicate(),
                },
            );
        }
        assert(events.deep_view() =~= change_event(key@, old_value, new_value, admin@));
        events
    }

    /// Set the contract-wide default royalty in basis points (max 10 000 = 100 %).
    /// Admin only, through the configuration guard.
    pub fn set_default_royalty_bps(store: &mut Ledger, admin: &Address, bps: u32) -> (r: Result<
        (),
        Error,
    >)
        ensures
            config_admin_check(old(store)@, admin@) is Err ==> r == config_admin_check(
                old(store)@,
                admin@,
            ) && final(store)@ == old(store)@,
            config_admin_check(old(store)@, admin@) is Ok && bps > MAX_ROYALTY_BPS ==> r == Err::<
                (),
                Error,
            >(Error::InvalidBasisPoints) && final(store)@ == old(store)@,
            config_admin_check(old(store)@, admin@) is Ok && bps <= MAX_ROYALTY_BPS ==> r == Ok::<
                (),
                Error,
            >(()) && final(store)@ == ledger_with_default_royalty(old(store)@, bps),
    {
        require_config_admin(store, admin)?;
        crate::default_royalty::set_default_royalty_bps(store, bps)
    }

    /// Return the default royalty in basis points (defaults to 500 = 5 %).
    pub fn get_default_royalty_bps(store: &Ledger) -> (r: u32)
        ensures
            r == crate::default_royalty::default_royalty_of(store@),
    {
        crate::default_royalty::get_default_royalty_bps(store)
    }

    /// Set the platform fee in basis points (max 1 000 = 10 %). Admin only.
    pub fn set_platform_fee(store: &mut Ledger, admin: &Address, fee_bps: u32) -> (r: Result<(), Error>)
        ensures
            config_admin_check(old(store)@, admin@) is Err ==> r == config_admin_check(
                old(store)@,
                admin@,
            ) && final(store)@ == old(store)@,
            config_admin_check(old(store)@, admin@) is Ok && fee_bps > MAX_PLATFORM_FEE_BPS ==> r
                == Err::<(), Error>(Error::InvalidBasisPoints) && final(store)@ == old(store)@,
            config_admin_check(old(store)@, admin@) is Ok && fee_bps <= MAX_PLATFORM_FEE_BPS ==> r
                == Ok::<(), Error>(()) && final(store)@ == ledger_with_platform_fee(
                old(store)@,
                fee_bps,
            ),
    {
        require_config_admin(store, admin)?;
        crate::platform_fee::set_platform_fee(store, fee_bps)
    }

    /// Return the current platform fee in basis points.
    pub fn get_platform_fee(store: &Ledger) -> (r: u32)
        ensures
            r == crate::platform_fee::platform_fee_of(store@),
    {
        crate::platform_fee::get_platform_fee(store)
    }

    /// Add a supported payment currency. Admin only.
    pub fn add_currency(store: &mut Ledger, admin: &Address, currency: Address) -> (r: Result<(), Error>)
        ensures
            config_admin_check(old(store)@, admin@) is Err ==> r == config_admin_check(
                old(store)@,
                admin@,
            ) && final(store)@ == old(store)@,
            config_admin_check(old(store)@, admin@) is Ok ==> r == add_currency_result(
                old(store)@,
                currency@,
            ),
            config_admin_check(old(store)@, admin@) is Ok && r is Err ==> final(store)@ == old(
                store,
            )@,
            r is Ok ==> final(store)@ == ledger_with_currencies(
                old(store)@,
                currencies_of(old(store)@).push(currency@),
            ),
    {
        require_config_admin(store, admin)?;
        crate::payment_currency::add_currency(store, currency)
    }

    /// Remove a supported payment currency. Admin only.
    pub fn remove_currency(store: &mut Ledger, admin: &Address, currency: &Address) -> (r: Result<
        (),
        Error,
    >)
        ensures
            config_admin_check(old(store)@, admin@) is Err ==> r == config_admin_check(
                old(store)@,
                admin@,
            ) && final(store)@ == old(store)@,
            config_admin_check(old(store)@, admin@) is Ok ==> r == remove_currency_result(
                old(store)@,
                currency@,
            ),
            config_admin_check(old(store)@, admin@) is Ok && r is Err ==> final(store)@ == old(
                store,
            )@,
            r is Ok ==> final(store)@ == ledger_with_currencies(
                old(store)@,
                without(currencies_of(old(store)@), currency@),
            ),
    {
        require_config_admin(store, admin)?;
        crate::payment_currency::remove_currency(store, currency)
    }

    /// Get the list of supported payment currencies.
    pub fn get_currencies(store: &Ledger) -> (r: Vec<Address>)
        ensures
            r.deep_view() == currencies_of(store@),
    {
        crate::payment_currency::get_currencies(store)
    }

    /// Check if a currency is supported for payments.
    pub fn is_currency_supported(store: &Ledger, currency: &Address) -> (r: bool)
        ensures
            r == currencies_of(store@).contains(currency@),
    {
        crate::payment_currency::is_supported(store, currency)
    }

    /// Register or rotate the backend Ed25519 signer public key. Admin only.
    pub fn set_signer(store: &mut Ledger, admin: &Address, pubkey: [u8; 32]) -> (r: Result<(), Error>)
        ensures
            r == admin_check(old(store)@, admin@),
            r is Err ==> final(store)@ == old(store)@,
            r is Ok ==> final(store)@ == (LedgerView { signer: Some(pubkey.deep_view()), ..old(store)@ }),
    {
        Self::require_admin(store, admin)?;
        store.signer = Some(pubkey);
        Ok(())
    }

    /// Return the currently registered signer, if any.
    pub fn get_signer(store: &Ledger) -> (r: Option<[u8; 32]>)
        ensures
            r.deep_view() == store@.signer,
    {
        store.signer
    }

    /// Pause the contract — blocks transfer. Admin only.
    pub fn pause(store: &mut Ledger, admin: &Address) -> (r: Result<(), Error>)
        ensures
            r == admin_check(old(store)@, admin@),
            r is Err ==> final(store)@ == old(store)@,
            r is Ok ==> final(store)@ == (LedgerView { paused: Some(true), ..old(store)@ }),
    {
        Self::require_admin(store, admin)?;
        store.paused = Some(true);
        Ok(())
    }

    /// Unpause the contract. Admin only.
    pub fn unpause(store: &mut Ledger, admin: &Address) -> (r: Result<(), Error>)
        ensures
            r == admin_check(old(store)@, admin@),
            r is Err ==> final(store)@ == old(store)@,
            r is Ok ==> final(store)@ == (LedgerView { paused: Some(false), ..old(store)@ }),
    {
        Self::require_admin(store, admin)?;
        store.paused = Some(false);
        Ok(())
    }

    /// Returns `true` if the contract is paused.
    pub fn is_paused(store: &Ledger) -> (r: bool)
        ensures
            r == paused_of(store@),
    {
        crate::pause_state::get_pause_state(store)
    }

    /// Transfer NFT ownership from `from` to `to`.
    pub fn transfer(store: &mut Ledger, from: &Address, to: &Address, token_id: TokenId) -> (r: Result<
        (),
        Error,
    >)
        ensures
            r == transfer_check(old(store)@, from@, token_id),
            r is Err ==> final(store)@ == old(store)@,
            r is Ok ==> final(store)@ == after_transfer(old(store)@, to@, token_id),
    {
        Self::require_initialized(store)?;
        Self::require_not_paused(store)?;
        let mut data = crate::token_storage::get_token(store, token_id)?;
        if !data.owner.same_key(from) {
            return Err(Error::Unauthorized);
        }
        data.owner = to.duplicate();
        crate::token_storage::set_token(store, token_id, &data);
        Ok(())
    }

    /// Burn an NFT. Only the current owner may burn.
    pub fn burn(store: &mut Ledger, owner: &Address, token_id: TokenId) -> (r: Result<(), Error>)
        ensures
            r == burn_check(old(store)@, owner@, token_id),
            r is Err ==> final(store)@ == old(store)@,
            r is Ok ==> final(store)@ == after_remove_token(old(store)@, token_id),
    {
        Self::require_initialized(store)?;
        let data = crate::token_storage::get_token(store, token_id)?;
        if !data.owner.same_key(owner) {
            return Err(Error::Unauthorized);
        }
        crate::token_storage::remove_token(store, token_id);
        Ok(())
    }

    /// Returns the owner of a token.
    pub fn owner_of(store: &Ledger, token_id: TokenId) -> (r: Result<Address, Error>)
        ensures
            match store@.tokens.get(token_id) {
                Some(t) => (r matches Ok(a) && a@ == t.owner),
                None => r == Err::<Address, Error>(Error::TokenNotFound),
            },
    {
        let data = crate::token_storage::get_token(store, token_id)?;
        Ok(data.owner)
    }

    /// Returns the metadata URI of a token.
    pub fn token_uri(store: &Ledger, token_id: TokenId) -> (r: Result<String, Error>)
        ensures
            match store@.metadata.get(token_id) {
                Some(u) => (r matches Ok(x) && x@ == u),
                None => r == Err::<String, Error>(Error::TokenNotFound),
            },
    {
        crate::token_storage::get_metadata(store, token_id)
    }

    /// Alias for [`ClipCashNFT::token_uri`].
    pub fn get_metadata(store: &Ledger, token_id: TokenId) -> (r: Result<String, Error>)
        ensures
            match store@.metadata.get(token_id) {
                Some(u) => (r matches Ok(x) && x@ == u),
                None => r == Err::<String, Error>(Error::TokenNotFound),
            },
    {
        Self::token_uri(store, token_id)
    }

    /// Returns the royalty configuration of a token.
    pub fn get_royalty(store: &Ledger, token_id: TokenId) -> (r: Result<Royalty, Error>)
        ensures
            match store@.royalties.get(token_id) {
                Some(v) => (r matches Ok(x) && x@ == v),
                None => r == Err::<Royalty, Error>(Error::TokenNotFound),
            },
    {
        crate::token_storage::get_royalty(store, token_id)
    }

    /// Returns the number of tokens minted so far.
    pub fn total_supply(store: &Ledger) -> (r: u32)
        ensures
            r == total_supply_of(store@),
    {
        match store.next_token_id {
            Some(n) => n,
            None => 0,
        }
    }

    /// Returns true if the token exists.
    pub fn token_exists(store: &Ledger, token_id: TokenId) -> (r: bool)
        ensures
            r == store@.tokens.contains_key(token_id),
    {
        crate::token_storage::token_exists(store, token_id)
    }

    fn require_admin(store: &Ledger, caller: &Address) -> (r: Result<(), Error>)
        ensures
            r == admin_check(store@, caller@),
    {
        match &store.admin {
            None => Err(Error::NotInitialized),
            Some(admin) => {
                if !caller.same_key(admin) {
                    return Err(Error::Unauthorized);
                }
                Ok(())
            },
        }
    }

    fn require_initialized(store: &Ledger) -> (r: Result<(), Error>)
        ensures
            store@.admin is None ==> r == Err::<(), Error>(Error::NotInitialized),
            store@.admin is Some ==> r == Ok::<(), Error>(()),
    {
        if store.admin.is_none() {
            return Err(Error::NotInitialized);
        }
        Ok(())
    }

    fn require_not_paused(store: &Ledger) -> (r: Result<(), Error>)
        ensures
            paused_of(store@) ==> r == Err::<(), Error>(Error::ContractPaused),
            !paused_of(store@) ==> r == Ok::<(), Error>(()),
    {
        if crate::pause_state::get_pause_state(store) {
            return Err(Error::ContractPaused);
        }
        Ok(())
    }
}

/// Only the administrator of an initialized contract changes its
/// configuration, and a fresh contract's administrator passes every
/// administrator check.
pub proof fn law_only_admin_configures(s: LedgerView, caller: Seq<char>, c: ConfigView, value: u32, max: u32)
    ensures
        admin_set_config_violation(s, caller, c) is None ==> s.admin == Some(caller),
        size_limit_violation(s, caller, value, max) is None ==> s.admin == Some(caller),
        admin_check(after_init(s, caller), caller) is Ok,
        config_admin_check(after_init(s, caller), caller) is Ok,
{
}

/// A freshly initialized contract has minted nothing and is not paused.
pub proof fn law_init_state(s: LedgerView, admin: Seq<char>)
    ensures
        total_supply_of(after_init(s, admin)) == 0,
        !paused_of(after_init(s, admin)),
{
}

/// A size limit that was accepted is the limit read back.
pub proof fn law_size_limits_read_after_write(s: LedgerView, value: u32)
    requires
        s.config is Some,
    ensures
        batch_limit_of(
            ledger_with_config(s, ConfigView { max_batch_mint_size: value, ..s.config->0 }),
        ) == value,
        collection_limit_of(
            ledger_with_config(s, ConfigView { max_collection_size: value, ..s.config->0 }),
        ) == value,
{
}

/// A stored configuration within its limits stays within them when a size
/// limit is changed through its entry point.
pub proof fn law_config_stays_within_limits(s: LedgerView, caller: Seq<char>, value: u32)
    requires
        s.config is Some,
        config_violation(s.config->0) is None,
    ensures
        size_limit_violation(s, caller, value, 100) is None ==> config_violation(
            ConfigView { max_batch_mint_size: value, ..s.config->0 },
        ) is None,
        size_limit_violation(s, caller, value, 100_000) is None ==> config_violation(
            ConfigView { max_collection_size: value, ..s.config->0 },
        ) is None,
{
}

/// After a transfer the recipient owns the token and the sender can no
/// longer move it; no other token changes hands.
pub proof fn law_transfer_moves_ownership(
    s: LedgerView,
    from: Seq<char>,
    to: Seq<char>,
    token_id: TokenId,
    other: TokenId,
)
    requires
        transfer_check(s, from, token_id) is Ok,
    ensures
        after_transfer(s, to, token_id).tokens[token_id].owner == to,
        from != to ==> transfer_check(after_transfer(s, to, token_id), from, token_id) == Err::<
            (),
            Error,
        >(Error::Unauthorized),
        transfer_check(after_transfer(s, to, token_id), to, token_id) is Ok,
        other != token_id ==> after_transfer(s, to, token_id).tokens.get(other) == s.tokens.get(
            other,
        ),
{
}

/// A paused contract refuses every transfer; unpausing lifts that refusal.
pub proof fn law_pause_blocks_transfers(s: LedgerView, from: Seq<char>, token_id: TokenId)
    requires
        s.admin is Some,
    ensures
        transfer_check(LedgerView { paused: Some(true), ..s }, from, token_id) == Err::<(), Error>(
            Error::ContractPaused,
        ),
        transfer_check(LedgerView { paused: Some(false), ..s }, from, token_id) != Err::<(), Error>(
            Error::ContractPaused,
        ),
{
}

/// A burned token is gone: it no longer exists and burning it again is
/// refused.
pub proof fn law_burn_is_final(s: LedgerView, owner: Seq<char>, token_id: TokenId)
    requires
        burn_check(s, owner, token_id) is Ok,
    ensures
        !after_remove_token(s, token_id).tokens.contains_key(token_id),
        burn_check(after_remove_token(s, token_id), owner, token_id) == Err::<(), Error>(
            Error::TokenNotFound,
        ),
{
}

} // verus!
