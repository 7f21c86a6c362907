//! The contract's ledger: every instance entry and every persistent entry
//! family the storage modules read and write.
//!
//! Instance entries hold one value each and may be unset; persistent
//! entries are keyed tables.  Entries that two modules share (token
//! metadata, token royalty) are one table here, as they are one key on
//! chain.

use vstd::prelude::*;

use crate::config::{Config, ConfigView};
use crate::storage::config::{Config as AdminConfig, ConfigView as AdminConfigView};
use crate::table::Table;
use crate::types::{Address, Royalty, RoyaltyPayment, RoyaltyPaymentView, RoyaltyView, TokenData, TokenDataView, TokenId};

verus! {

/// Model of a [`Ledger`].
pub struct LedgerView {
    // instance entries
    pub admin: Option<Seq<char>>,
    pub config: Option<ConfigView>,
    pub admin_config: Option<AdminConfigView>,
    pub default_royalty_bps: Option<u32>,
    pub paused: Option<bool>,
    pub supported_currencies: Option<Seq<Seq<char>>>,
    pub platform_fee: Option<u32>,
    pub platform_revenue: Option<i128>,
    pub next_token_id: Option<u32>,
    pub signer: Option<Seq<u8>>,
    // persistent entries
    pub blacklisted: Map<Seq<char>, bool>,
    pub collection_supply: Map<u32, u32>,
    pub creators: Map<TokenId, Seq<char>>,
    pub frozen_tokens: Map<TokenId, bool>,
    pub minted_clips: Map<u32, bool>,
    pub operator_approvals: Map<(Seq<char>, Seq<char>), bool>,
    pub royalty_history: Map<TokenId, Seq<RoyaltyPaymentView>>,
    pub royalty_recipients: Map<TokenId, Seq<char>>,
    pub tokens: Map<TokenId, TokenDataView>,
    pub royalties: Map<TokenId, RoyaltyView>,
    pub approvals: Map<TokenId, Seq<char>>,
    pub metadata: Map<TokenId, Seq<char>>,
    pub token_uris: Map<TokenId, Seq<char>>,
    pub wallet_tokens: Map<Seq<char>, Seq<TokenId>>,
}

/// The contract's stored state.
pub struct Ledger {
    /// Contract administrator (`Admin`).
    pub admin: Option<Address>,
    /// Global configuration (`Config`).
    pub config: Option<Config>,
    /// Administrative configuration kept under the storage module's `Config` key.
    pub admin_config: Option<AdminConfig>,
    /// Contract-wide default royalty (`DefaultRoyaltyBps`).
    pub default_royalty_bps: Option<u32>,
    /// Pause flag (`Paused`).
    pub paused: Option<bool>,
    /// Accepted payment currencies (`SupportedCurrencies`).
    pub supported_currencies: Option<Vec<Address>>,
    /// Platform fee (`PlatformFee`).
    pub platform_fee: Option<u32>,
    /// Cumulative platform revenue (`PlatformRevenue`).
    pub platform_revenue: Option<i128>,
    /// Identifier the next minted token receives (`NextTokenId`).
    pub next_token_id: Option<u32>,
    /// Backend Ed25519 signer public key (`Signer`).
    pub signer: Option<[u8; 32]>,
    /// `Blacklisted(wallet)`.
    pub blacklisted: Table<Address, bool>,
    /// `CollectionSupply(collection_id)`.
    pub collection_supply: Table<u32, u32>,
    /// `Creator(token_id)`.
    pub creators: Table<TokenId, Address>,
    /// `FrozenToken(token_id)`.
    pub frozen_tokens: Table<TokenId, bool>,
    /// `ClipMinted(clip_id)`.
    pub minted_clips: Table<u32, bool>,
    /// `OperatorApproval(owner, operator)`.
    pub operator_approvals: Table<(Address, Address), bool>,
    /// `RoyaltyHistory(token_id)`.
    pub royalty_history: Table<TokenId, Vec<RoyaltyPayment>>,
    /// `RoyaltyRecipient(token_id)`.
    pub royalty_recipients: Table<TokenId, Address>,
    /// `Token(token_id)`.
    pub tokens: Table<TokenId, TokenData>,
    /// `Royalty(token_id)`.
    pub royalties: Table<TokenId, Royalty>,
    /// `Approval(token_id)`.
    pub approvals: Table<TokenId, Address>,
    /// `Metadata(token_id)`.
    pub metadata: Table<TokenId, String>,
    /// `TokenUri(token_id)`.
    pub token_uris: Table<TokenId, String>,
    /// `WalletTokens(wallet)`.
    pub wallet_tokens: Table<Address, Vec<TokenId>>,
}

impl View for Ledger {
    type V = LedgerView;

    open spec fn view(&self) -> LedgerView {
        LedgerView {
            admin: self.admin.deep_view(),
            config: self.config.deep_view(),
            admin_config: self.admin_config.deep_view(),
            default_royalty_bps: self.default_royalty_bps,
            paused: self.paused,
            supported_currencies: self.supported_currencies.deep_view(),
            platform_fee: self.platform_fee,
            platform_revenue: self.platform_revenue,
            next_token_id: self.next_token_id,
            signer: self.signer.deep_view(),
            blacklisted: self.blacklisted.model(),
            collection_supply: self.collection_supply.model(),
            creators: self.creators.model(),
            frozen_tokens: self.frozen_tokens.model(),
            minted_clips: self.minted_clips.model(),
            operator_approvals: self.operator_approvals.model(),
            royalty_history: self.royalty_history.model(),
            royalty_recipients: self.royalty_recipients.model(),
            tokens: self.tokens.model(),
            royalties: self.royalties.model(),
            approvals: self.approvals.model(),
            metadata: self.metadata.model(),
            token_uris: self.token_uris.model(),
            wallet_tokens: self.wallet_tokens.model(),
        }
    }
}

/// The ledger of a freshly deployed contract: nothing is stored.
pub open spec fn empty_ledger() -> LedgerView {
    LedgerView {
        admin: None,
        config: None,
        admin_config: None,
        default_royalty_bps: None,
        paused: None,
        supported_currencies: None,
        platform_fee: None,
        platform_revenue: None,
        next_token_id: None,
        signer: None,
        blacklisted: Map::empty(),
        collection_supply: Map::empty(),
        creators: Map::empty(),
        frozen_tokens: Map::empty(),
        minted_clips: Map::empty(),
        operator_approvals: Map::empty(),
        royalty_history: Map::empty(),
        royalty_recipients: Map::empty(),
        tokens: Map::empty(),
        royalties: Map::empty(),
        approvals: Map::empty(),
        metadata: Map::empty(),
        token_uris: Map::empty(),
        wallet_tokens: Map::empty(),
    }
}

impl Ledger {
    /// An empty ledger.
    pub fn new() -> (l: Ledger)
        ensures
            l@ == empty_ledger(),
    {
        Ledger {
            admin: None,
            config: None,
            admin_config: None,
            default_royalty_bps: None,
            paused: None,
            supported_currencies: None,
            platform_fee: None,
            platform_revenue: None,
            next_token_id: None,
            signer: None,
            blacklisted: Table::new(),
            collection_supply: Table::new(),
            creators: Table::new(),
            frozen_tokens: Table::new(),
            minted_clips: Table::new(),
            operator_approvals: Table::new(),
            royalty_history: Table::new(),
            royalty_recipients: Table::new(),
            tokens: Table::new(),
            royalties: Table::new(),
            approvals: Table::new(),
            metadata: Table::new(),
            token_uris: Table::new(),
            wallet_tokens: Table::new(),
        }
    }
}

} // verus!

verus! {

/// A stored flag read with `false` for a missing entry.
pub open spec fn flag_at<K>(m: Map<K, bool>, k: K) -> bool {
    m.contains_key(k) && m[k]
}

} // verus!
