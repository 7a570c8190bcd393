use analos_nft_launcher::collection::create_collection;
use analos_nft_launcher::collection::Collection;
use analos_nft_launcher::collection::CollectionConfig;
use analos_nft_launcher::collection::UpdateCollectionArgs;
use analos_nft_launcher::errors::ErrorCode;
use analos_nft_launcher::mint::MintNftArgs;

const AUTHORITY: u64 = 1;
const FEE_RECIPIENT: u64 = 77;

fn base_config() -> CollectionConfig {
    CollectionConfig {
        name: "Series".to_string(),
        symbol: "SER".to_string(),
        description: "A launched series".to_string(),
        image_uri: "https://img.example/series.png".to_string(),
        external_url: "https://example.org".to_string(),
        seller_fee_basis_points: 250,
        max_supply: 10,
        mint_price: 0,
        fee_recipient: FEE_RECIPIENT,
        is_public: true,
        presale_start: None,
        presale_end: None,
        public_start: None,
    }
}

fn no_update() -> UpdateCollectionArgs {
    UpdateCollectionArgs {
        name: None,
        symbol: None,
        description: None,
        image_uri: None,
        external_url: None,
        seller_fee_basis_points: None,
        max_supply: None,
        mint_price: None,
        fee_recipient: None,
        is_public: None,
        presale_start: None,
        presale_end: None,
        public_start: None,
    }
}

fn new_collection() -> Collection {
    create_collection(AUTHORITY, base_config()).unwrap()
}

fn item_args() -> MintNftArgs {
    MintNftArgs {
        name: "Item".to_string(),
        symbol: "ITM".to_string(),
        uri: "https://meta.example/0.json".to_string(),
        seller_fee_basis_points: 250,
    }
}

#[test]
fn create_sets_fresh_counters() {
    let c = new_collection();
    assert_eq!(c.authority, AUTHORITY);
    assert_eq!(c.name, "Series");
    assert_eq!(c.symbol, "SER");
    assert_eq!(c.max_supply, 10);
    assert_eq!(c.mint_price, 0);
    assert_eq!(c.fee_recipient, FEE_RECIPIENT);
    assert!(c.is_public);
    assert_eq!(c.total_minted, 0);
    assert!(c.whitelist.is_empty());
}

#[test]
fn create_rejects_zero_supply() {
    let mut config = base_config();
    config.max_supply = 0;
    let r = create_collection(AUTHORITY, config);
    assert!(matches!(r, Err(ErrorCode::InvalidSupply)));
}

#[test]
fn create_rejects_oversized_name() {
    let mut config = base_config();
    config.name = "x".repeat(33);
    let r = create_collection(AUTHORITY, config);
    assert!(matches!(r, Err(ErrorCode::CapacityExceeded)));
}

#[test]
fn create_rejects_excessive_royalty() {
    let mut config = base_config();
    config.seller_fee_basis_points = 10001;
    let r = create_collection(AUTHORITY, config);
    assert!(matches!(r, Err(ErrorCode::InvalidMetadata)));
}

#[test]
fn update_requires_authority() {
    let mut c = new_collection();
    let mut args = no_update();
    args.mint_price = Some(5);
    let r = c.update_collection(AUTHORITY + 1, args);
    assert!(matches!(r, Err(ErrorCode::InvalidAuthority)));
    assert_eq!(c.mint_price, 0);
}

#[test]
fn update_name_only_leaves_other_fields_identical() {
    let mut c = new_collection();
    let mut args = no_update();
    args.name = Some("Renamed".to_string());
    c.update_collection(AUTHORITY, args).unwrap();
    assert_eq!(c.name, "Renamed");
    let fresh = new_collection();
    assert_eq!(c.authority, fresh.authority);
    assert_eq!(c.symbol, fresh.symbol);
    assert_eq!(c.description, fresh.description);
    assert_eq!(c.image_uri, fresh.image_uri);
    assert_eq!(c.external_url, fresh.external_url);
    assert_eq!(c.seller_fee_basis_points, fresh.seller_fee_basis_points);
    assert_eq!(c.max_supply, fresh.max_supply);
    assert_eq!(c.mint_price, fresh.mint_price);
    assert_eq!(c.fee_recipient, fresh.fee_recipient);
    assert_eq!(c.is_public, fresh.is_public);
    assert_eq!(c.presale_start, fresh.presale_start);
    assert_eq!(c.presale_end, fresh.presale_end);
    assert_eq!(c.public_start, fresh.public_start);
    assert_eq!(c.whitelist, fresh.whitelist);
    assert_eq!(c.total_minted, fresh.total_minted);
}

#[test]
fn update_sets_phase_windows() {
    let mut c = new_collection();
    let mut args = no_update();
    args.presale_start = Some(100);
    args.presale_end = Some(200);
    args.public_start = Some(200);
    c.update_collection(AUTHORITY, args).unwrap();
    assert_eq!(c.presale_start, Some(100));
    assert_eq!(c.presale_end, Some(200));
    assert_eq!(c.public_start, Some(200));
}

#[test]
fn update_rejects_supply_below_minted() {
    let mut c = new_collection();
    let r = c.mint_nft(42, 9, None, 0, 0, 1000, &item_args());
    assert!(r.is_ok());
    assert_eq!(c.total_minted, 1);
    let mut args = no_update();
    args.max_supply = Some(0);
    assert!(matches!(
        c.update_collection(AUTHORITY, args),
        Err(ErrorCode::InvalidSupply)
    ));
    let mut raise = no_update();
    raise.max_supply = Some(1);
    assert!(c.update_collection(AUTHORITY, raise).is_ok());
    assert_eq!(c.max_supply, 1);
}

#[test]
fn whitelist_add_skips_duplicates_and_remove_ignores_absent() {
    let mut c = new_collection();
    c.add_whitelist(AUTHORITY, &vec![5, 5, 6]).unwrap();
    assert_eq!(c.whitelist, vec![5, 6]);
    c.add_whitelist(AUTHORITY, &vec![5]).unwrap();
    assert_eq!(c.whitelist, vec![5, 6]);
    c.remove_whitelist(AUTHORITY, &vec![5]).unwrap();
    assert_eq!(c.whitelist, vec![6]);
    c.remove_whitelist(AUTHORITY, &vec![5]).unwrap();
    assert_eq!(c.whitelist, vec![6]);
}

#[test]
fn whitelist_requires_authority() {
    let mut c = new_collection();
    let r = c.add_whitelist(AUTHORITY + 1, &vec![5]);
    assert!(matches!(r, Err(ErrorCode::InvalidAuthority)));
    assert!(c.whitelist.is_empty());
    let r = c.remove_whitelist(AUTHORITY + 1, &vec![5]);
    assert!(matches!(r, Err(ErrorCode::InvalidAuthority)));
}

#[test]
fn whitelist_addition_is_atomic_at_capacity() {
    let mut c = new_collection();
    let first: Vec<u64> = (0..100).collect();
    c.add_whitelist(AUTHORITY, &first).unwrap();
    assert_eq!(c.whitelist.len(), 100);
    let r = c.add_whitelist(AUTHORITY, &vec![55, 1000]);
    assert!(matches!(r, Err(ErrorCode::CapacityExceeded)));
    assert_eq!(c.whitelist, first);
}
