use clips_nft::ledger::Ledger;
use clips_nft::storage::config::{get_config, set_config, validate_config, Config};
use clips_nft::types::Address;

// ── helpers ──────────────────────────────────────────────────────────────────

fn generate_address(n: u32) -> Address {
    Address::from_strkey(format!("GADMIN{:050}", n))
}

fn default_config(admin: &Address) -> Config {
    Config {
        admin: admin.clone(),
        max_royalty_bps: 10_000,
        mint_cooldown_secs: 0,
        platform_fee_bps: 0,
    }
}

// ── validate_config ───────────────────────────────────────────────────────────

#[test]
fn validate_config_accepts_valid_values() {
    let admin = generate_address(1);
    assert!(validate_config(&default_config(&admin)).is_ok());
}

#[test]
fn validate_config_rejects_max_royalty_over_10000() {
    let admin = generate_address(1);
    let mut cfg = default_config(&admin);
    cfg.max_royalty_bps = 10_001;
    assert!(validate_config(&cfg).is_err());
}

#[test]
fn validate_config_rejects_platform_fee_over_10000() {
    let admin = generate_address(1);
    let mut cfg = default_config(&admin);
    cfg.platform_fee_bps = 10_001;
    assert!(validate_config(&cfg).is_err());
}

#[test]
fn validate_config_accepts_boundary_values() {
    let admin = generate_address(1);
    let cfg = Config {
        admin: admin.clone(),
        max_royalty_bps: 10_000,
        mint_cooldown_secs: u64::MAX,
        platform_fee_bps: 10_000,
    };
    assert!(validate_config(&cfg).is_ok());
}

// ── storage persistence (low-level) ──────────────────────────────────────────

#[test]
fn storage_get_set_roundtrip() {
    let admin = generate_address(1);
    let mut ledger = Ledger::new();
    let cfg = Config {
        admin: admin.clone(),
        max_royalty_bps: 300,
        mint_cooldown_secs: 120,
        platform_fee_bps: 50,
    };
    set_config(&mut ledger, &cfg);
    let loaded = get_config(&ledger);
    assert_eq!(loaded.max_royalty_bps, 300);
    assert_eq!(loaded.mint_cooldown_secs, 120);
    assert_eq!(loaded.platform_fee_bps, 50);
}
