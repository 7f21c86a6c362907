# clips_nft

The storage and configuration layer of the ClipCash clips NFT contract,
verified with Verus.

## Layout

- `src/` — the verified library.
  - `ledger.rs` — `Ledger`, the contract's stored state: the instance entries
    (administrator, configuration, fees, pause flag, currencies, …) and the
    persistent entry families (tokens, metadata, royalties, approvals,
    blacklist, …), with its model `LedgerView`.
  - `table.rs` — `Table`, one keyed entry family, modelled as a finite map;
    `lists.rs` — membership and removal in stored lists.
  - one module per storage concern (`blacklist`, `collection_supply`,
    `config`, `config_guard`, `config_validator`, `creator_storage`,
    `default_royalty`, `frozen_token`, `minted_clip_index`,
    `operator_approval`, `pause_state`, `payment_currency`, `platform_fee`,
    `platform_revenue`, `royalty_history`, `royalty_recipient`,
    `royalty_storage`, `storage::{config, keys}`, `token_approval`,
    `token_metadata_storage`, `token_storage`, `token_uri_storage`,
    `wallet_token_index`), each stating every operation as a transition of
    `LedgerView` and proving its laws (`law_*`).
  - `contract.rs` — the contract's administrative and token entry points.
- `tests/` — tests of the library on concrete values.
- `app/` — the Soroban side: it moves ledger entries between the contract's
  storage and a `Ledger`, runs the library, publishes events and checks
  signatures.
