//! Values the contract keeps in its ledger entries, each with a model.

use vstd::prelude::*;

use crate::table::{Duplicate, LedgerKey};

verus! {

/// Token identifiers are sequential `u32`s.
pub type TokenId = u32;

/// A ledger account or contract address, held by its strkey text
/// (`G…` for accounts, `C…` for contracts).
#[derive(Clone, Debug, PartialEq, Eq)]
pub struct Address {
    strkey: String,
}

impl Address {
    /// The address whose strkey is `strkey`.
    pub fn from_strkey(strkey: String) -> (a: Address)
        ensures
            a@ == strkey@,
    {
        Address { strkey }
    }

    /// The strkey text of this address.
    pub fn strkey(&self) -> (s: &str)
        ensures
            s@ == self@,
    {
        self.strkey.as_str()
    }
}

impl View for Address {
    type V = Seq<char>;

    closed spec fn view(&self) -> Seq<char> {
        self.strkey@
    }
}

impl DeepView for Address {
    type V = Seq<char>;

    open spec fn deep_view(&self) -> Seq<char> {
        self.view()
    }
}

impl Duplicate for Address {
    fn duplicate(&self) -> (r: Self) {
        Address { strkey: self.strkey.clone() }
    }
}

impl LedgerKey for Address {
    fn same_key(&self, other: &Self) -> (r: bool) {
        self.strkey == other.strkey
    }
}

/// Model of an [`Attribute`].
pub struct AttributeView {
    pub trait_type: Seq<char>,
    pub value: Seq<char>,
}

/// One OpenSea-style trait of a token.
#[derive(Clone, Debug, PartialEq, Eq)]
pub struct Attribute {
    pub trait_type: String,
    pub value: String,
}

impl View for Attribute {
    type V = AttributeView;

    open spec fn view(&self) -> AttributeView {
        AttributeView { trait_type: self.trait_type@, value: self.value@ }
    }
}

impl DeepView for Attribute {
    type V = AttributeView;

    open spec fn deep_view(&self) -> AttributeView {
        self.view()
    }
}

impl Duplicate for Attribute {
    fn duplicate(&self) -> (r: Self) {
        Attribute { trait_type: self.trait_type.clone(), value: self.value.clone() }
    }
}

/// Model of a [`RoyaltyRecipient`].
pub struct RoyaltyRecipientView {
    pub recipient: Seq<char>,
    pub basis_points: u32,
}

/// One recipient of a royalty split and its share in basis points.
#[derive(Clone, Debug, PartialEq, Eq)]
pub struct RoyaltyRecipient {
    pub recipient: Address,
    pub basis_points: u32,
}

impl View for RoyaltyRecipient {
    type V = RoyaltyRecipientView;

    open spec fn view(&self) -> RoyaltyRecipientView {
        RoyaltyRecipientView { recipient: self.recipient@, basis_points: self.basis_points }
    }
}

impl DeepView for RoyaltyRecipient {
    type V = RoyaltyRecipientView;

    open spec fn deep_view(&self) -> RoyaltyRecipientView {
        self.view()
    }
}

impl Duplicate for RoyaltyRecipient {
    fn duplicate(&self) -> (r: Self) {
        RoyaltyRecipient { recipient: self.recipient.duplicate(), basis_points: self.basis_points }
    }
}

/// Model of a [`Royalty`].
pub struct RoyaltyView {
    pub recipients: Seq<RoyaltyRecipientView>,
    pub asset_address: Option<Seq<char>>,
}

/// The royalty configuration of a token: the split and the asset it is paid in
/// (`None` for the native asset).
#[derive(Clone, Debug, PartialEq, Eq)]
pub struct Royalty {
    pub recipients: Vec<RoyaltyRecipient>,
    pub asset_address: Option<Address>,
}

impl View for Royalty {
    type V = RoyaltyView;

    open spec fn view(&self) -> RoyaltyView {
        RoyaltyView {
            recipients: self.recipients.deep_view(),
            asset_address: self.asset_address.deep_view(),
        }
    }
}

impl DeepView for Royalty {
    type V = RoyaltyView;

    open spec fn deep_view(&self) -> RoyaltyView {
        self.view()
    }
}

impl Duplicate for Royalty {
    fn duplicate(&self) -> (r: Self) {
        Royalty {
            recipients: self.recipients.duplicate(),
            asset_address: self.asset_address.duplicate(),
        }
    }
}

/// Model of a [`TokenData`].
pub struct TokenDataView {
    pub owner: Seq<char>,
    pub clip_id: u32,
    pub is_soulbound: bool,
    pub metadata_uri: Seq<char>,
    pub image: Option<Seq<char>>,
    pub animation_url: Option<Seq<char>>,
    pub description: Option<Seq<char>>,
    pub external_url: Option<Seq<char>>,
    pub attributes: Seq<AttributeView>,
    pub royalty: RoyaltyView,
    pub is_locked: bool,
}

/// The full record of one minted token.
#[derive(Clone, Debug, PartialEq, Eq)]
pub struct TokenData {
    pub owner: Address,
    pub clip_id: u32,
    pub is_soulbound: bool,
    pub metadata_uri: String,
    pub image: Option<String>,
    pub animation_url: Option<String>,
    pub description: Option<String>,
    pub external_url: Option<String>,
    pub attributes: Vec<Attribute>,
    pub royalty: Royalty,
    pub is_locked: bool,
}

impl View for TokenData {
    type V = TokenDataView;

    open spec fn view(&self) -> TokenDataView {
        TokenDataView {
            owner: self.owner@,
            clip_id: self.clip_id,
            is_soulbound: self.is_soulbound,
            metadata_uri: self.metadata_uri@,
            image: self.image.deep_view(),
            animation_url: self.animation_url.deep_view(),
            description: self.description.deep_view(),
            external_url: self.external_url.deep_view(),
            attributes: self.attributes.deep_view(),
            royalty: self.royalty@,
            is_locked: self.is_locked,
        }
    }
}

impl DeepView for TokenData {
    type V = TokenDataView;

    open spec fn deep_view(&self) -> TokenDataView {
        self.view()
    }
}

impl Duplicate for TokenData {
    fn duplicate(&self) -> (r: Self) {
        TokenData {
            owner: self.owner.duplicate(),
            clip_id: self.clip_id,
            is_soulbound: self.is_soulbound,
            metadata_uri: self.metadata_uri.clone(),
            image: self.image.duplicate(),
            animation_url: self.animation_url.duplicate(),
            description: self.description.duplicate(),
            external_url: self.external_url.duplicate(),
            attributes: self.attributes.duplicate(),
            royalty: self.royalty.duplicate(),
            is_locked: self.is_locked,
        }
    }
}

/// Model of a [`RoyaltyPayment`].
pub struct RoyaltyPaymentView {
    pub token_id: TokenId,
    pub recipient: Seq<char>,
    pub amount: i128,
    pub timestamp: u64,
}

/// One royalty payment made for a token.
#[derive(Clone, Debug, PartialEq, Eq)]
pub struct RoyaltyPayment {
    pub token_id: TokenId,
    pub recipient: Address,
    pub amount: i128,
    pub timestamp: u64,
}

impl View for RoyaltyPayment {
    type V = RoyaltyPaymentView;

    open spec fn view(&self) -> RoyaltyPaymentView {
        RoyaltyPaymentView {
            token_id: self.token_id,
            recipient: self.recipient@,
            amount: self.amount,
            timestamp: self.timestamp,
        }
    }
}

impl DeepView for RoyaltyPayment {
    type V = RoyaltyPaymentView;

    open spec fn deep_view(&self) -> RoyaltyPaymentView {
        self.view()
    }
}

impl Duplicate for RoyaltyPayment {
    fn duplicate(&self) -> (r: Self) {
        RoyaltyPayment {
            token_id: self.token_id,
            recipient: self.recipient.duplicate(),
            amount: self.amount,
            timestamp: self.timestamp,
        }
    }
}

} // verus!
