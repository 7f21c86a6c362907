//! The storage and configuration layer of the ClipCash clips NFT contract.

pub mod blacklist;
pub mod collection_supply;
pub mod config;
pub mod config_guard;
pub mod config_validator;
pub mod contract;
pub mod creator_storage;
pub mod default_royalty;
pub mod errors;
pub mod frozen_token;
pub mod laws;
pub mod ledger;
pub mod lists;
pub mod minted_clip_index;
pub mod operator_approval;
pub mod pause_state;
pub mod payment_currency;
pub mod platform_fee;
pub mod platform_revenue;
pub mod royalty_history;
pub mod royalty_recipient;
pub mod royalty_storage;
pub mod storage;
pub mod table;
pub mod token_approval;
pub mod token_metadata_storage;
pub mod token_storage;
pub mod token_uri_storage;
pub mod types;
pub mod wallet_token_index;
