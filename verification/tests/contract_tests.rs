use clips_nft::config::{Config, MAX_BATCH_MINT_SIZE, MAX_COLLECTION_SIZE};
use clips_nft::contract::ClipCashNFT;
use clips_nft::errors::Error;
use clips_nft::ledger::Ledger;
use clips_nft::token_storage;
use clips_nft::types::{Address, Royalty, RoyaltyRecipient, TokenData};

fn generate_address(n: u32) -> Address {
    Address::from_strkey(format!("GACCT{:051}", n))
}

struct Ctx {
    ledger: Ledger,
    admin: Address,
}

fn setup() -> Ctx {
    let mut ledger = Ledger::new();
    let admin = generate_address(0);
    ClipCashNFT::init(&mut ledger, &admin);
    Ctx { ledger, admin }
}

fn store_token(ledger: &mut Ledger, token_id: u32, owner: &Address) {
    let royalty = Royalty {
        recipients: vec![RoyaltyRecipient { recipient: owner.clone(), basis_points: 500 }],
        asset_address: None,
    };
    let data = TokenData {
        owner: owner.clone(),
        clip_id: token_id + 1000,
        is_soulbound: false,
        metadata_uri: format!("ipfs://QmClip{}", token_id + 1000),
        image: None,
        animation_url: None,
        description: None,
        external_url: None,
        attributes: vec![],
        royalty: royalty.clone(),
        is_locked: false,
    };
    token_storage::set_token(ledger, token_id, &data);
    token_storage::set_metadata(ledger, token_id, &data.metadata_uri);
    token_storage::set_royalty(ledger, token_id, &royalty);
}

// ── initialization guard ─────────────────────────────────────────────────────

#[test]
fn test_require_initialized_before_mint() {
    let mut ledger = Ledger::new();
    let user = generate_address(1);
    let result = ClipCashNFT::burn(&mut ledger, &user, 1u32);
    assert_eq!(result, Err(Error::NotInitialized));
}

#[test]
fn test_require_initialized_transfer() {
    let mut ledger = Ledger::new();
    let from = generate_address(1);
    let to = generate_address(2);
    let result = ClipCashNFT::transfer(&mut ledger, &from, &to, 1u32);
    assert_eq!(result, Err(Error::NotInitialized));
}

#[test]
fn test_no_error_after_init() {
    let ctx = setup();
    assert_eq!(ClipCashNFT::total_supply(&ctx.ledger), 0u32);
}

// ── administration ───────────────────────────────────────────────────────────

#[test]
fn init_sets_admin_and_defaults() {
    let ctx = setup();
    assert_eq!(ctx.ledger.admin, Some(ctx.admin.clone()));
    assert!(!ClipCashNFT::is_paused(&ctx.ledger));
    assert_eq!(ClipCashNFT::get_config(&ctx.ledger), None);
    assert_eq!(ClipCashNFT::get_max_batch_mint_size(&ctx.ledger), MAX_BATCH_MINT_SIZE);
    assert_eq!(ClipCashNFT::get_max_collection_size(&ctx.ledger), MAX_COLLECTION_SIZE);
    assert_eq!(ClipCashNFT::get_default_royalty_bps(&ctx.ledger), 500);
    assert_eq!(ClipCashNFT::get_platform_fee(&ctx.ledger), 0);
}

#[test]
fn pause_and_unpause_are_admin_only() {
    let mut ctx = setup();
    let other = generate_address(9);
    assert_eq!(ClipCashNFT::pause(&mut ctx.ledger, &other), Err(Error::Unauthorized));
    assert!(!ClipCashNFT::is_paused(&ctx.ledger));
    assert_eq!(ClipCashNFT::pause(&mut ctx.ledger, &ctx.admin.clone()), Ok(()));
    assert!(ClipCashNFT::is_paused(&ctx.ledger));
    assert_eq!(ClipCashNFT::unpause(&mut ctx.ledger, &other), Err(Error::Unauthorized));
    assert_eq!(ClipCashNFT::unpause(&mut ctx.ledger, &ctx.admin.clone()), Ok(()));
    assert!(!ClipCashNFT::is_paused(&ctx.ledger));
    let mut fresh = Ledger::new();
    assert_eq!(ClipCashNFT::pause(&mut fresh, &other), Err(Error::NotInitialized));
}

#[test]
fn signer_is_admin_only() {
    let mut ctx = setup();
    assert_eq!(ClipCashNFT::get_signer(&ctx.ledger), None);
    let key = [7u8; 32];
    assert_eq!(ClipCashNFT::set_signer(&mut ctx.ledger, &generate_address(3), key), Err(Error::Unauthorized));
    assert_eq!(ClipCashNFT::get_signer(&ctx.ledger), None);
    assert_eq!(ClipCashNFT::set_signer(&mut ctx.ledger, &ctx.admin.clone(), key), Ok(()));
    assert_eq!(ClipCashNFT::get_signer(&ctx.ledger), Some(key));
}

#[test]
fn size_limits_need_admin_range_and_config() {
    let mut ctx = setup();
    let admin = ctx.admin.clone();
    // no configuration stored yet
    assert_eq!(ClipCashNFT::set_max_batch_mint_size(&mut ctx.ledger, &admin, 10), Err(Error::NotInitialized));
    let cfg = Config {
        owner: admin.clone(),
        version: 1,
        platform_fee_bps: 100,
        default_royalty_bps: 500,
        paused: false,
        max_batch_mint_size: MAX_BATCH_MINT_SIZE,
        max_collection_size: MAX_COLLECTION_SIZE,
    };
    assert!(ClipCashNFT::set_config(&mut ctx.ledger, &admin, cfg).unwrap().is_empty());
    assert_eq!(ClipCashNFT::set_max_batch_mint_size(&mut ctx.ledger, &generate_address(4), 10), Err(Error::Unauthorized));
    assert_eq!(ClipCashNFT::set_max_batch_mint_size(&mut ctx.ledger, &admin, 0), Err(Error::InvalidConfig));
    assert_eq!(ClipCashNFT::set_max_batch_mint_size(&mut ctx.ledger, &admin, 101), Err(Error::InvalidConfig));
    let events = ClipCashNFT::set_max_batch_mint_size(&mut ctx.ledger, &admin, 10).unwrap();
    assert_eq!(events.len(), 1);
    assert_eq!(events[0].key, "max_batch_mint_size");
    assert_eq!(events[0].old_value, 50);
    assert_eq!(events[0].new_value, 10);
    assert_eq!(ClipCashNFT::get_max_batch_mint_size(&ctx.ledger), 10);
    assert!(ClipCashNFT::set_max_batch_mint_size(&mut ctx.ledger, &admin, 10).unwrap().is_empty());
    assert_eq!(ClipCashNFT::set_max_collection_size(&mut ctx.ledger, &admin, 100_001), Err(Error::InvalidConfig));
    let events = ClipCashNFT::set_max_collection_size(&mut ctx.ledger, &admin, 100_000).unwrap();
    assert_eq!(events[0].key, "max_collection_size");
    assert_eq!(events[0].old_value, 10_000);
    assert_eq!(ClipCashNFT::get_max_collection_size(&ctx.ledger), 100_000);
    // the stored configuration still passes the limits
    let stored = ClipCashNFT::get_config(&ctx.ledger).unwrap();
    assert_eq!(clips_nft::config::ConfigService::validate_update(&stored), Ok(()));
}

#[test]
fn set_config_checks_guard_then_validator() {
    let mut ctx = setup();
    let admin = ctx.admin.clone();
    let good = Config {
        owner: admin.clone(),
        version: 1,
        platform_fee_bps: 100,
        default_royalty_bps: 500,
        paused: false,
        max_batch_mint_size: 50,
        max_collection_size: 10_000,
    };
    let bad_fee = Config { platform_fee_bps: 2_000, ..good.clone() };
    assert_eq!(ClipCashNFT::set_config(&mut ctx.ledger, &generate_address(5), bad_fee.clone()), Err(Error::UnauthorizedConfigurationUpdate));
    assert_eq!(ClipCashNFT::set_config(&mut ctx.ledger, &admin, bad_fee), Err(Error::InvalidFee));
    let bad_batch = Config { max_batch_mint_size: 0, ..good.clone() };
    assert_eq!(ClipCashNFT::set_config(&mut ctx.ledger, &admin, bad_batch), Err(Error::InvalidConfig));
    let zero_version = Config { version: 0, ..good.clone() };
    assert_eq!(ClipCashNFT::set_config(&mut ctx.ledger, &admin, zero_version), Err(Error::InvalidLimit));
    assert_eq!(ClipCashNFT::get_config(&ctx.ledger), None);
    let mut fresh = Ledger::new();
    assert_eq!(ClipCashNFT::set_config(&mut fresh, &admin, good), Err(Error::NotInitialized));
}

// ── tokens ───────────────────────────────────────────────────────────────────

#[test]
fn transfer_moves_ownership() {
    let mut ctx = setup();
    let (alice, bob) = (generate_address(1), generate_address(2));
    store_token(&mut ctx.ledger, 0, &alice);
    assert_eq!(ClipCashNFT::transfer(&mut ctx.ledger, &bob, &alice, 0), Err(Error::Unauthorized));
    assert_eq!(ClipCashNFT::transfer(&mut ctx.ledger, &alice, &bob, 9), Err(Error::TokenNotFound));
    assert_eq!(ClipCashNFT::transfer(&mut ctx.ledger, &alice, &bob, 0), Ok(()));
    assert_eq!(ClipCashNFT::owner_of(&ctx.ledger, 0), Ok(bob.clone()));
    assert_eq!(ClipCashNFT::transfer(&mut ctx.ledger, &alice, &bob, 0), Err(Error::Unauthorized));
    // the rest of the token record is kept
    let data = token_storage::get_token(&ctx.ledger, 0).unwrap();
    assert_eq!(data.clip_id, 1000);
    assert_eq!(ClipCashNFT::token_uri(&ctx.ledger, 0), Ok("ipfs://QmClip1000".to_string()));
    assert_eq!(ClipCashNFT::get_metadata(&ctx.ledger, 0), ClipCashNFT::token_uri(&ctx.ledger, 0));
}

#[test]
fn paused_contract_refuses_transfers() {
    let mut ctx = setup();
    let (alice, bob) = (generate_address(1), generate_address(2));
    store_token(&mut ctx.ledger, 0, &alice);
    ClipCashNFT::pause(&mut ctx.ledger, &ctx.admin.clone()).unwrap();
    assert_eq!(ClipCashNFT::transfer(&mut ctx.ledger, &alice, &bob, 0), Err(Error::ContractPaused));
    assert_eq!(ClipCashNFT::owner_of(&ctx.ledger, 0), Ok(alice.clone()));
    ClipCashNFT::unpause(&mut ctx.ledger, &ctx.admin.clone()).unwrap();
    assert_eq!(ClipCashNFT::transfer(&mut ctx.ledger, &alice, &bob, 0), Ok(()));
}

#[test]
fn burn_removes_token_entries() {
    let mut ctx = setup();
    let (alice, bob) = (generate_address(1), generate_address(2));
    store_token(&mut ctx.ledger, 3, &alice);
    store_token(&mut ctx.ledger, 4, &alice);
    assert!(ClipCashNFT::token_exists(&ctx.ledger, 3));
    assert_eq!(ClipCashNFT::burn(&mut ctx.ledger, &bob, 3), Err(Error::Unauthorized));
    assert_eq!(ClipCashNFT::burn(&mut ctx.ledger, &alice, 3), Ok(()));
    assert!(!ClipCashNFT::token_exists(&ctx.ledger, 3));
    assert_eq!(ClipCashNFT::owner_of(&ctx.ledger, 3), Err(Error::TokenNotFound));
    assert_eq!(ClipCashNFT::token_uri(&ctx.ledger, 3), Err(Error::TokenNotFound));
    assert_eq!(ClipCashNFT::get_royalty(&ctx.ledger, 3), Err(Error::TokenNotFound));
    assert_eq!(ClipCashNFT::burn(&mut ctx.ledger, &alice, 3), Err(Error::TokenNotFound));
    assert!(ClipCashNFT::token_exists(&ctx.ledger, 4));
    assert_eq!(ClipCashNFT::get_royalty(&ctx.ledger, 4).unwrap().recipients[0].basis_points, 500);
}
