//! The rules every check and every defaulting read follows, stated over the
//! raw ledger entries and the input values.
//!
//! Each law says, for all inputs, exactly when an operation is accepted and
//! what a read reports, so that the result of an entry point is tied to the
//! stored entries it depends on and to nothing else.

use vstd::prelude::*;

use crate::collection_supply::supply_of;
use crate::blacklist::wallet_blacklisted;
use crate::config::{change_event, config_change_events, config_violation, ConfigUpdateEventView, ConfigView};
use crate::frozen_token::token_frozen;
use crate::lists::without;
use crate::operator_approval::operator_approved;
use crate::config_guard::config_admin_check;
use crate::config_validator::validator_violation;
use crate::contract::{
    admin_check, admin_set_config_violation, after_transfer, batch_limit_of, burn_check,
    collection_limit_of, size_limit_violation, total_supply_of, transfer_check,
};
use crate::default_royalty::default_royalty_of;
use crate::errors::Error;
use crate::ledger::LedgerView;
use crate::minted_clip_index::add_clip_result;
use crate::pause_state::paused_of;
use crate::payment_currency::{add_currency_result, currencies_of, remove_currency_result};
use crate::platform_fee::platform_fee_of;
use crate::platform_revenue::revenue_of;
use crate::royalty_history::history_of;
use crate::storage::config::{admin_config_violation, ConfigView as AdminConfigView};
use crate::types::TokenId;
use crate::wallet_token_index::wallet_tokens_of;

verus! {

// ── transfers and burns ──────────────────────────────────────────────────────

/// A transfer is accepted exactly when the contract has an administrator,
/// is not paused, the token is stored and `from` owns it.  Nothing else
/// about the token (lock, soulbound flag, attributes, royalty) matters.
pub proof fn law_transfer_accepted_exactly(s: LedgerView, from: Seq<char>, token_id: TokenId)
    ensures
        transfer_check(s, from, token_id) is Ok <==> (s.admin is Some && s.paused != Some(true)
            && s.tokens.contains_key(token_id) && s.tokens[token_id].owner == from),
        s.admin is None ==> transfer_check(s, from, token_id) == Err::<(), Error>(
            Error::NotInitialized,
        ),
        s.admin is Some && s.paused == Some(true) ==> transfer_check(s, from, token_id) == Err::<
            (),
            Error,
        >(Error::ContractPaused),
        s.admin is Some && s.paused != Some(true) && !s.tokens.contains_key(token_id)
            ==> transfer_check(s, from, token_id) == Err::<(), Error>(Error::TokenNotFound),
        s.admin is Some && s.paused != Some(true) && s.tokens.contains_key(token_id)
            && s.tokens[token_id].owner != from ==> transfer_check(s, from, token_id) == Err::<
            (),
            Error,
        >(Error::Unauthorized),
{
}

/// A transfer changes only the owner of the token: every other field of its
/// record, and every other token, is kept.
pub proof fn law_transfer_changes_only_owner(s: LedgerView, to: Seq<char>, token_id: TokenId, other: TokenId)
    requires
        s.tokens.contains_key(token_id),
    ensures
        after_transfer(s, to, token_id).tokens.contains_key(token_id),
        after_transfer(s, to, token_id).tokens[token_id].owner == to,
        after_transfer(s, to, token_id).tokens[token_id].clip_id == s.tokens[token_id].clip_id,
        after_transfer(s, to, token_id).tokens[token_id].is_soulbound
            == s.tokens[token_id].is_soulbound,
        after_transfer(s, to, token_id).tokens[token_id].is_locked == s.tokens[token_id].is_locked,
        after_transfer(s, to, token_id).tokens[token_id].metadata_uri
            == s.tokens[token_id].metadata_uri,
        after_transfer(s, to, token_id).tokens[token_id].royalty == s.tokens[token_id].royalty,
        after_transfer(s, to, token_id).tokens[token_id].attributes
            == s.tokens[token_id].attributes,
        other != token_id ==> after_transfer(s, to, token_id).tokens.get(other) == s.tokens.get(
            other,
        ),
        after_transfer(s, to, token_id).metadata == s.metadata,
        after_transfer(s, to, token_id).royalties == s.royalties,
        after_transfer(s, to, token_id).admin == s.admin,
        after_transfer(s, to, token_id).paused == s.paused,
{
}

/// A burn is accepted exactly when the contract has an administrator, the
/// token is stored and `owner` owns it, whatever else the token holds; the
/// pause flag does not matter.
pub proof fn law_burn_accepted_exactly(s: LedgerView, owner: Seq<char>, token_id: TokenId)
    ensures
        burn_check(s, owner, token_id) is Ok <==> (s.admin is Some && s.tokens.contains_key(
            token_id,
        ) && s.tokens[token_id].owner == owner),
        s.admin is None ==> burn_check(s, owner, token_id) == Err::<(), Error>(
            Error::NotInitialized,
        ),
        s.admin is Some && !s.tokens.contains_key(token_id) ==> burn_check(s, owner, token_id)
            == Err::<(), Error>(Error::TokenNotFound),
        s.admin is Some && s.tokens.contains_key(token_id) && s.tokens[token_id].owner != owner
            ==> burn_check(s, owner, token_id) == Err::<(), Error>(Error::Unauthorized),
{
}

// ── configuration limits ─────────────────────────────────────────────────────

/// The stored configuration's limits are independent ranges: a fee of at
/// most 1 000, a royalty of at most 10 000, a batch size in 1..=100 and a
/// collection size in 1..=100 000.  A fee or royalty out of range is
/// `InvalidBasisPoints`, a size out of range is `InvalidConfig`.
pub proof fn law_config_limits_exactly(c: ConfigView)
    ensures
        config_violation(c) is None <==> (c.platform_fee_bps <= 1_000 && c.default_royalty_bps
            <= 10_000 && 1 <= c.max_batch_mint_size <= 100 && 1 <= c.max_collection_size
            <= 100_000),
        (c.platform_fee_bps > 1_000 || c.default_royalty_bps > 10_000) ==> config_violation(c)
            == Some(Error::InvalidBasisPoints),
        (c.platform_fee_bps <= 1_000 && c.default_royalty_bps <= 10_000 && !(1
            <= c.max_batch_mint_size <= 100 && 1 <= c.max_collection_size <= 100_000))
            ==> config_violation(c) == Some(Error::InvalidConfig),
{
}

/// The validator accepts exactly a fee of at most 1 000, a royalty of at most
/// 10 000 and a non-zero version, reporting `InvalidFee`, `InvalidBasisPoints`
/// and `InvalidLimit` in that order.
pub proof fn law_validator_limits_exactly(c: ConfigView)
    ensures
        validator_violation(c) is None <==> (c.platform_fee_bps <= 1_000 && c.default_royalty_bps
            <= 10_000 && c.version != 0),
        c.platform_fee_bps > 1_000 ==> validator_violation(c) == Some(Error::InvalidFee),
        c.platform_fee_bps <= 1_000 && c.default_royalty_bps > 10_000 ==> validator_violation(c)
            == Some(Error::InvalidBasisPoints),
        c.platform_fee_bps <= 1_000 && c.default_royalty_bps <= 10_000 && c.version == 0
            ==> validator_violation(c) == Some(Error::InvalidLimit),
{
}

/// The administrative configuration accepts exactly both basis-point
/// settings at most 10 000.
pub proof fn law_admin_config_limits_exactly(c: AdminConfigView)
    ensures
        admin_config_violation(c) is None <==> (c.max_royalty_bps <= 10_000 && c.platform_fee_bps
            <= 10_000),
        admin_config_violation(c) is Some ==> admin_config_violation(c) == Some(
            Error::InvalidBasisPoints,
        ),
{
}

/// The configuration guard passes exactly the stored administrator; with no
/// administrator it reports `NotInitialized`, otherwise a stranger gets
/// `UnauthorizedConfigurationUpdate`.
pub proof fn law_config_guard_exactly(s: LedgerView, caller: Seq<char>)
    ensures
        config_admin_check(s, caller) is Ok <==> s.admin == Some(caller),
        s.admin is None ==> config_admin_check(s, caller) == Err::<(), Error>(
            Error::NotInitialized,
        ),
        s.admin is Some && s.admin != Some(caller) ==> config_admin_check(s, caller) == Err::<
            (),
            Error,
        >(Error::UnauthorizedConfigurationUpdate),
        admin_check(s, caller) is Ok <==> s.admin == Some(caller),
        s.admin is None ==> admin_check(s, caller) == Err::<(), Error>(Error::NotInitialized),
        s.admin is Some && s.admin != Some(caller) ==> admin_check(s, caller) == Err::<(), Error>(
            Error::Unauthorized,
        ),
{
}

/// The administrator's full configuration update is accepted exactly when
/// the caller is the administrator and the configuration passes both the
/// validator and the stored limits.
pub proof fn law_admin_set_config_accepted_exactly(s: LedgerView, caller: Seq<char>, c: ConfigView)
    ensures
        admin_set_config_violation(s, caller, c) is None <==> (s.admin == Some(caller)
            && c.platform_fee_bps <= 1_000 && c.default_royalty_bps <= 10_000 && c.version != 0 && 1
            <= c.max_batch_mint_size <= 100 && 1 <= c.max_collection_size <= 100_000),
{
}

/// Changing one size limit is accepted exactly when the caller is the
/// administrator, the value lies in `1..=max` and a configuration is stored.
pub proof fn law_size_limit_accepted_exactly(s: LedgerView, caller: Seq<char>, value: u32, max: u32)
    ensures
        size_limit_violation(s, caller, value, max) is None <==> (s.admin == Some(caller) && 1
            <= value <= max && s.config is Some),
        s.admin == Some(caller) && !(1 <= value <= max) ==> size_limit_violation(
            s,
            caller,
            value,
            max,
        ) == Some(Error::InvalidConfig),
        s.admin == Some(caller) && 1 <= value <= max && s.config is None ==> size_limit_violation(
            s,
            caller,
            value,
            max,
        ) == Some(Error::NotInitialized),
{
}

// ── currencies and clips ─────────────────────────────────────────────────────

/// The currency list is the stored list, or empty when none is stored.
/// Adding succeeds exactly for a currency not in it (whatever its length)
/// and removing exactly for one in it.
pub proof fn law_currency_rules_exactly(s: LedgerView, c: Seq<char>)
    ensures
        s.supported_currencies is None ==> currencies_of(s) == Seq::<Seq<char>>::empty(),
        s.supported_currencies is Some ==> currencies_of(s) == s.supported_currencies->0,
        !currencies_of(s).contains(c) ==> add_currency_result(s, c) == Ok::<(), Error>(()),
        currencies_of(s).contains(c) ==> add_currency_result(s, c) == Err::<(), Error>(
            Error::DuplicateCurrency,
        ),
        currencies_of(s).contains(c) ==> remove_currency_result(s, c) == Ok::<(), Error>(()),
        !currencies_of(s).contains(c) ==> remove_currency_result(s, c) == Err::<(), Error>(
            Error::CurrencyNotFound,
        ),
{
}

/// Registering a clip succeeds exactly when it is not yet registered.
pub proof fn law_clip_rules_exactly(s: LedgerView, clip_id: u32)
    ensures
        add_clip_result(s, clip_id) is Ok <==> !s.minted_clips.contains_key(clip_id),
        s.minted_clips.contains_key(clip_id) ==> add_clip_result(s, clip_id) == Err::<(), Error>(
            Error::ClipAlreadyMinted,
        ),
{
}

// ── defaulting reads ─────────────────────────────────────────────────────────

/// Each read reports its own entry when stored, and its fixed default
/// otherwise, whatever any other entry (the global configuration included)
/// holds: default royalty 500, platform fee 0, not paused, revenue 0,
/// supply 0, token count 0, empty histories and wallet lists, and the
/// default batch and collection limits when no configuration is stored.
pub proof fn law_reads_use_their_own_entry(s: LedgerView, collection_id: u32, token_id: TokenId, wallet: Seq<char>)
    ensures
        s.default_royalty_bps is None ==> default_royalty_of(s) == 500,
        s.default_royalty_bps is Some ==> default_royalty_of(s) == s.default_royalty_bps->0,
        s.platform_fee is None ==> platform_fee_of(s) == 0,
        s.platform_fee is Some ==> platform_fee_of(s) == s.platform_fee->0,
        s.paused is None ==> !paused_of(s),
        s.paused is Some ==> paused_of(s) == s.paused->0,
        s.platform_revenue is None ==> revenue_of(s) == 0,
        s.platform_revenue is Some ==> revenue_of(s) == s.platform_revenue->0,
        !s.collection_supply.contains_key(collection_id) ==> supply_of(s, collection_id) == 0,
        s.collection_supply.contains_key(collection_id) ==> supply_of(s, collection_id)
            == s.collection_supply[collection_id],
        s.next_token_id is None ==> total_supply_of(s) == 0,
        s.next_token_id is Some ==> total_supply_of(s) == s.next_token_id->0,
        !s.royalty_history.contains_key(token_id) ==> history_of(s, token_id).len() == 0,
        s.royalty_history.contains_key(token_id) ==> history_of(s, token_id)
            == s.royalty_history[token_id],
        !s.wallet_tokens.contains_key(wallet) ==> wallet_tokens_of(s, wallet).len() == 0,
        s.wallet_tokens.contains_key(wallet) ==> wallet_tokens_of(s, wallet)
            == s.wallet_tokens[wallet],
        s.config is None ==> batch_limit_of(s) == 50 && collection_limit_of(s) == 10_000,
        s.config is Some ==> batch_limit_of(s) == s.config->0.max_batch_mint_size
            && collection_limit_of(s) == s.config->0.max_collection_size,
{
}

/// Storing a global configuration does not change the default royalty or
/// the platform fee that the dedicated entries report.
pub proof fn law_config_does_not_set_fee_entries(s: LedgerView, c: ConfigView)
    ensures
        default_royalty_of(crate::config::ledger_with_config(s, c)) == default_royalty_of(s),
        platform_fee_of(crate::config::ledger_with_config(s, c)) == platform_fee_of(s),
        paused_of(crate::config::ledger_with_config(s, c)) == paused_of(s),
{
}

/// A flag entry counts only when it is stored as `true`.
pub proof fn law_flags_read_stored_true(s: LedgerView, w: Seq<char>, token_id: TokenId, owner: Seq<char>, operator: Seq<char>)
    ensures
        wallet_blacklisted(s, w) <==> s.blacklisted.get(w) == Some(true),
        token_frozen(s, token_id) <==> s.frozen_tokens.get(token_id) == Some(true),
        operator_approved(s, owner, operator) <==> s.operator_approvals.get((owner, operator))
            == Some(true),
{
}

// ── configuration events ─────────────────────────────────────────────────────

/// One setting reports one event carrying its key, both values and the
/// updater when its value changed, and nothing when it did not.
pub proof fn law_change_event_exactly(key: Seq<char>, old_value: u32, new_value: u32, updater: Seq<char>)
    ensures
        old_value == new_value ==> change_event(key, old_value, new_value, updater).len() == 0,
        old_value != new_value ==> change_event(key, old_value, new_value, updater).len() == 1,
        old_value != new_value ==> change_event(key, old_value, new_value, updater)[0]
            == (ConfigUpdateEventView { key, old_value, new_value, updater }),
{
}

/// The number of events of an update over a stored configuration is the
/// number of the four numeric settings whose value changed; a changed
/// platform fee is reported first, under its key, with both values.
pub proof fn law_config_events_count_changes(p: ConfigView, c: ConfigView, u: Seq<char>)
    ensures
        config_change_events(Some(p), c, u).len() == (if p.platform_fee_bps != c.platform_fee_bps {
            1int
        } else {
            0int
        }) + (if p.default_royalty_bps != c.default_royalty_bps {
            1int
        } else {
            0int
        }) + (if p.max_batch_mint_size != c.max_batch_mint_size {
            1int
        } else {
            0int
        }) + (if p.max_collection_size != c.max_collection_size {
            1int
        } else {
            0int
        }),
        p.platform_fee_bps != c.platform_fee_bps ==> config_change_events(Some(p), c, u)[0] == (
        ConfigUpdateEventView {
            key: "platform_fee_bps"@,
            old_value: p.platform_fee_bps,
            new_value: c.platform_fee_bps,
            updater: u,
        }),
        p.max_collection_size != c.max_collection_size ==> config_change_events(Some(p), c, u).last()
            == (ConfigUpdateEventView {
            key: "max_collection_size"@,
            old_value: p.max_collection_size,
            new_value: c.max_collection_size,
            updater: u,
        }),
{
}

// ── stored lists ─────────────────────────────────────────────────────────────

/// Taking an item out of a list works item by item, keeping the order:
/// a single other item stays, a single copy of `x` goes, and a list split
/// in two is handled as each part in turn.
pub proof fn law_without_keeps_order<A>(a: Seq<A>, b: Seq<A>, x: A, y: A)
    ensures
        y != x ==> without(seq![y], x) == seq![y],
        without(seq![x], x) == Seq::<A>::empty(),
        without(a + b, x) == without(a, x) + without(b, x),
    decreases b.len(),
{
    assert(without(Seq::<A>::empty(), x) == Seq::<A>::empty());
    assert(seq![y].drop_last() =~= Seq::<A>::empty());
    assert(seq![x].drop_last() =~= Seq::<A>::empty());
    assert(seq![y].last() == y);
    assert(seq![x].last() == x);
    assert(Seq::<A>::empty().push(y) =~= seq![y]);
    if y != x {
        assert(without(seq![y], x) == without(Seq::<A>::empty(), x).push(y));
    }
    assert(without(seq![x], x) == without(Seq::<A>::empty(), x));
    if b.len() == 0 {
        assert(a + b =~= a);
        assert(without(a, x) + without(b, x) =~= without(a, x));
    } else {
        let b0 = b.drop_last();
        law_without_keeps_order(a, b0, x, y);
        assert((a + b).drop_last() =~= a + b0);
        assert((a + b).last() == b.last());
        if b.last() == x {
        } else {
            assert(without(a, x) + without(b0, x).push(b.last()) =~= (without(a, x) + without(b0, x)).push(
                b.last(),
            ));
        }
    }
}

} // verus!
