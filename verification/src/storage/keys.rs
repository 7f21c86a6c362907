use vstd::prelude::*;

verus! {

/// All persistent/instance storage keys for the contract.
///
/// Compact enum variants keep key sizes minimal on-chain.
#[derive(Clone, Copy, Debug, PartialEq, Eq, Structural)]
pub enum StorageKey {
    // ── instance ───────────────────────────────────────────
    /// Global [`crate::storage::config::Config`] (admin, fees, limits).
    Config,
    /// Auto-increment counter for the next token ID.
    NextTokenId,
    /// Pause state (`bool`).
    Paused,
    /// Backend Ed25519 public key.
    Signer,
    // ── persistent ─────────────────────────────────────────
    /// Owner + clip_id for a token.
    Token(u32),
    /// Metadata URI for a token.
    Metadata(u32),
    /// Royalty config for a token.
    Royalty(u32),
    /// Maps clip_id → token_id to prevent double-minting.
    ClipIdMinted(u32),
}

} // verus!
