use clips_nft::config::{Config, MAX_BATCH_MINT_SIZE, MAX_COLLECTION_SIZE};
use clips_nft::contract::ClipCashNFT;
use clips_nft::ledger::Ledger;
use clips_nft::types::Address;

// ─── Helpers ──────────────────────────────────────────────────────────────────

fn generate_address(n: u32) -> Address {
    Address::from_strkey(format!("GUSER{:051}", n))
}

/// An initialized contract and its administrator.
fn setup() -> (Ledger, Address) {
    let mut ledger = Ledger::new();
    let admin = generate_address(0);
    ClipCashNFT::init(&mut ledger, &admin);
    (ledger, admin)
}

fn config(owner: &Address, version: u32, platform_fee_bps: u32, default_royalty_bps: u32) -> Config {
    Config {
        owner: owner.clone(),
        version,
        platform_fee_bps,
        default_royalty_bps,
        paused: false,
        max_batch_mint_size: MAX_BATCH_MINT_SIZE,
        max_collection_size: MAX_COLLECTION_SIZE,
    }
}

// ═══════════════════════════════════════════════════════════════════════════════
// Configuration Error Types
// ═══════════════════════════════════════════════════════════════════════════════

#[test]
fn test_invalid_fee_error_on_high_platform_fee() {
    let (mut ledger, admin) = setup();
    let cfg = config(&admin, 1, 2_000, 500);
    let result = ClipCashNFT::set_config(&mut ledger, &admin, cfg);
    assert!(result.is_err());
}

#[test]
fn test_invalid_basis_points_error_on_high_royalty() {
    let (mut ledger, admin) = setup();
    let cfg = config(&admin, 1, 100, 15_000);
    let result = ClipCashNFT::set_config(&mut ledger, &admin, cfg);
    assert!(result.is_err());
}

#[test]
fn test_invalid_limit_error_on_zero_version() {
    let (mut ledger, admin) = setup();
    let cfg = config(&admin, 0, 100, 500);
    let result = ClipCashNFT::set_config(&mut ledger, &admin, cfg);
    assert!(result.is_err());
}

// ═══════════════════════════════════════════════════════════════════════════════
// Configuration Update Guard
// ═══════════════════════════════════════════════════════════════════════════════

#[test]
fn test_config_guard_allows_admin() {
    let (mut ledger, admin) = setup();
    let cfg = config(&admin, 1, 100, 500);
    ClipCashNFT::set_config(&mut ledger, &admin, cfg).unwrap();
    let stored = ClipCashNFT::get_config(&ledger);
    assert!(stored.is_some());
    assert_eq!(stored.unwrap().platform_fee_bps, 100);
}

#[test]
fn test_config_guard_rejects_non_admin() {
    let (mut ledger, admin) = setup();
    let non_admin = generate_address(7);
    let cfg = config(&admin, 1, 100, 500);
    let result = ClipCashNFT::set_config(&mut ledger, &non_admin, cfg);
    assert!(result.is_err());
}

#[test]
fn test_config_guard_on_set_default_royalty() {
    let (mut ledger, admin) = setup();
    ClipCashNFT::set_default_royalty_bps(&mut ledger, &admin, 500).unwrap();
    assert_eq!(ClipCashNFT::get_default_royalty_bps(&ledger), 500);

    let non_admin = generate_address(7);
    let result = ClipCashNFT::set_default_royalty_bps(&mut ledger, &non_admin, 500);
    assert!(result.is_err());
}

#[test]
fn test_config_guard_on_set_platform_fee() {
    let (mut ledger, admin) = setup();
    ClipCashNFT::set_platform_fee(&mut ledger, &admin, 200).unwrap();
    assert_eq!(ClipCashNFT::get_platform_fee(&ledger), 200);

    let non_admin = generate_address(7);
    let result = ClipCashNFT::set_platform_fee(&mut ledger, &non_admin, 200);
    assert!(result.is_err());
}

// ═══════════════════════════════════════════════════════════════════════════════
// Configuration Validator
// ═══════════════════════════════════════════════════════════════════════════════

#[test]
fn test_validator_accepts_valid_config() {
    let (mut ledger, admin) = setup();
    let cfg = config(&admin, 1, 500, 1_000);
    ClipCashNFT::set_config(&mut ledger, &admin, cfg).unwrap();
    let stored = ClipCashNFT::get_config(&ledger).unwrap();
    assert_eq!(stored.platform_fee_bps, 500);
    assert_eq!(stored.default_royalty_bps, 1_000);
}

#[test]
fn test_validator_rejects_platform_fee_above_max() {
    let (mut ledger, admin) = setup();
    let cfg = config(&admin, 1, 1_001, 500);
    let result = ClipCashNFT::set_config(&mut ledger, &admin, cfg);
    assert!(result.is_err());
}

#[test]
fn test_validator_rejects_royalty_above_max() {
    let (mut ledger, admin) = setup();
    let cfg = config(&admin, 1, 100, 10_001);
    let result = ClipCashNFT::set_config(&mut ledger, &admin, cfg);
    assert!(result.is_err());
}

#[test]
fn test_validator_boundary_values_accepted() {
    let (mut ledger, admin) = setup();
    let cfg = config(&admin, 1, 1_000, 10_000);
    ClipCashNFT::set_config(&mut ledger, &admin, cfg).unwrap();
    let stored = ClipCashNFT::get_config(&ledger).unwrap();
    assert_eq!(stored.platform_fee_bps, 1_000);
    assert_eq!(stored.default_royalty_bps, 10_000);
}

// ═══════════════════════════════════════════════════════════════════════════════
// Supported Payment Currency Configuration
// ═══════════════════════════════════════════════════════════════════════════════

#[test]
fn test_add_currency_success() {
    let (mut ledger, admin) = setup();
    let currency = generate_address(1);
    ClipCashNFT::add_currency(&mut ledger, &admin, currency.clone()).unwrap();

    let currencies = ClipCashNFT::get_currencies(&ledger);
    assert_eq!(currencies.len(), 1);
    assert!(ClipCashNFT::is_currency_supported(&ledger, &currency));
}

#[test]
fn test_add_multiple_currencies() {
    let (mut ledger, admin) = setup();
    let c1 = generate_address(1);
    let c2 = generate_address(2);
    let c3 = generate_address(3);

    ClipCashNFT::add_currency(&mut ledger, &admin, c1.clone()).unwrap();
    ClipCashNFT::add_currency(&mut ledger, &admin, c2.clone()).unwrap();
    ClipCashNFT::add_currency(&mut ledger, &admin, c3.clone()).unwrap();

    let currencies = ClipCashNFT::get_currencies(&ledger);
    assert_eq!(currencies.len(), 3);
    assert!(ClipCashNFT::is_currency_supported(&ledger, &c1));
    assert!(ClipCashNFT::is_currency_supported(&ledger, &c2));
    assert!(ClipCashNFT::is_currency_supported(&ledger, &c3));
}

#[test]
fn test_add_duplicate_currency_fails() {
    let (mut ledger, admin) = setup();
    let currency = generate_address(1);
    ClipCashNFT::add_currency(&mut ledger, &admin, currency.clone()).unwrap();

    let result = ClipCashNFT::add_currency(&mut ledger, &admin, currency.clone());
    assert!(result.is_err());
}

#[test]
fn test_remove_currency_success() {
    let (mut ledger, admin) = setup();
    let currency = generate_address(1);
    ClipCashNFT::add_currency(&mut ledger, &admin, currency.clone()).unwrap();
    assert!(ClipCashNFT::is_currency_supported(&ledger, &currency));

    ClipCashNFT::remove_currency(&mut ledger, &admin, &currency).unwrap();
    assert!(!ClipCashNFT::is_currency_supported(&ledger, &currency));
    assert_eq!(ClipCashNFT::get_currencies(&ledger).len(), 0);
}

#[test]
fn test_remove_nonexistent_currency_fails() {
    let (mut ledger, admin) = setup();
    let currency = generate_address(1);

    let result = ClipCashNFT::remove_currency(&mut ledger, &admin, &currency);
    assert!(result.is_err());
}

#[test]
fn test_currency_non_admin_cannot_add() {
    let (mut ledger, _admin) = setup();
    let non_admin = generate_address(7);
    let currency = generate_address(1);

    let result = ClipCashNFT::add_currency(&mut ledger, &non_admin, currency.clone());
    assert!(result.is_err());
}

#[test]
fn test_currency_non_admin_cannot_remove() {
    let (mut ledger, admin) = setup();
    let non_admin = generate_address(7);
    let currency = generate_address(1);

    ClipCashNFT::add_currency(&mut ledger, &admin, currency.clone()).unwrap();
    let result = ClipCashNFT::remove_currency(&mut ledger, &non_admin, &currency);
    assert!(result.is_err());
}

#[test]
fn test_get_currencies_empty_by_default() {
    let (ledger, _admin) = setup();
    let currencies = ClipCashNFT::get_currencies(&ledger);
    assert_eq!(currencies.len(), 0);
}

#[test]
fn test_is_currency_supported_false_for_unknown() {
    let (ledger, _admin) = setup();
    let currency = generate_address(1);
    assert!(!ClipCashNFT::is_currency_supported(&ledger, &currency));
}
