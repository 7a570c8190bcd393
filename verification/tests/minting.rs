use analos_nft_launcher::access::Phase;
use analos_nft_launcher::collection::create_collection;
use analos_nft_launcher::collection::Collection;
use analos_nft_launcher::collection::CollectionConfig;
use analos_nft_launcher::errors::ErrorCode;
use analos_nft_launcher::mint::MintNftArgs;

const AUTHORITY: u64 = 1;
const BUYER: u64 = 9;
const FEE_RECIPIENT: u64 = 77;
const COLLECTION_ADDRESS: u64 = 42;

fn config(max_supply: u64, mint_price: u64, is_public: bool) -> CollectionConfig {
    CollectionConfig {
        name: "Series".to_string(),
        symbol: "SER".to_string(),
        description: "A launched series".to_string(),
        image_uri: "https://img.example/series.png".to_string(),
        external_url: "https://example.org".to_string(),
        seller_fee_basis_points: 250,
        max_supply,
        mint_price,
        fee_recipient: FEE_RECIPIENT,
        is_public,
        presale_start: None,
        presale_end: None,
        public_start: None,
    }
}

fn collection(max_supply: u64, mint_price: u64, is_public: bool) -> Collection {
    create_collection(AUTHORITY, config(max_supply, mint_price, is_public)).unwrap()
}

fn item_args() -> MintNftArgs {
    MintNftArgs {
        name: "Item".to_string(),
        symbol: "ITM".to_string(),
        uri: "https://meta.example/0.json".to_string(),
        seller_fee_basis_points: 250,
    }
}

#[test]
fn free_public_mint_then_sold_out() {
    let mut c = collection(1, 0, true);
    let (nft, payment) = c
        .mint_nft(COLLECTION_ADDRESS, BUYER, None, 0, 0, 500, &item_args())
        .unwrap();
    assert_eq!(nft.sequence_number, 0);
    assert_eq!(nft.owner, BUYER);
    assert_eq!(nft.collection, COLLECTION_ADDRESS);
    assert_eq!(nft.asset_reference, 500);
    assert!(payment.is_none());
    assert_eq!(c.total_minted, 1);
    let second = c.mint_nft(COLLECTION_ADDRESS, BUYER, None, 0, 0, 501, &item_args());
    assert!(matches!(second, Err(ErrorCode::CollectionSoldOut)));
    assert_eq!(c.total_minted, 1);
}

#[test]
fn successive_mints_get_distinct_sequence_numbers() {
    let mut c = collection(5, 0, true);
    let (first, _) = c
        .mint_nft(COLLECTION_ADDRESS, BUYER, None, 0, 0, 1, &item_args())
        .unwrap();
    let (second, _) = c
        .mint_nft(COLLECTION_ADDRESS, BUYER + 1, None, 0, 0, 2, &item_args())
        .unwrap();
    assert_eq!(first.sequence_number, 0);
    assert_eq!(second.sequence_number, 1);
    assert_ne!(first.sequence_number, second.sequence_number);
    assert_eq!(c.total_minted, 2);
    assert!(c.total_minted <= c.max_supply);
}

#[test]
fn reserve_advances_counter_or_leaves_it() {
    let mut c = collection(3, 0, true);
    assert_eq!(c.reserve(2).unwrap(), 0);
    assert_eq!(c.total_minted, 2);
    assert!(matches!(c.reserve(2), Err(ErrorCode::ExceedsMaxSupply)));
    assert_eq!(c.total_minted, 2);
    assert_eq!(c.reserve(1).unwrap(), 2);
    assert!(matches!(c.reserve(1), Err(ErrorCode::CollectionSoldOut)));
    assert_eq!(c.total_minted, 3);
}

#[test]
fn underfunded_mint_changes_nothing() {
    let mut c = collection(10, 500, true);
    let r = c.mint_nft(COLLECTION_ADDRESS, BUYER, None, 0, 400, 500, &item_args());
    assert!(matches!(r, Err(ErrorCode::InsufficientPayment)));
    assert_eq!(c.total_minted, 0);
}

#[test]
fn paid_mint_owes_exact_transfer() {
    let mut c = collection(10, 500, true);
    let (nft, payment) = c
        .mint_nft(COLLECTION_ADDRESS, BUYER, None, 0, 500, 7, &item_args())
        .unwrap();
    assert_eq!(nft.sequence_number, 0);
    let t = payment.unwrap();
    assert_eq!(t.from, BUYER);
    assert_eq!(t.to, FEE_RECIPIENT);
    assert_eq!(t.amount, 500);
}

#[test]
fn batch_mint_reserves_contiguous_range() {
    let mut c = collection(10, 200, true);
    let args = item_args();
    let auth = c.authorize_mint(BUYER, None, 3, 0, 600, &args).unwrap();
    assert_eq!(auth.first_sequence, 0);
    assert_eq!(auth.quantity, 3);
    assert_eq!(auth.payment.unwrap().amount, 600);
    let refs = vec![70, 71, 72];
    let items = c.commit_mint(auth, COLLECTION_ADDRESS, BUYER, &refs, &args);
    assert_eq!(items.len(), 3);
    for (i, it) in items.iter().enumerate() {
        assert_eq!(it.sequence_number, i as u64);
        assert_eq!(it.asset_reference, refs[i]);
        assert_eq!(it.owner, BUYER);
    }
    assert_eq!(c.total_minted, 3);
}

#[test]
fn batch_mint_beyond_supply_fails_whole() {
    let mut c = collection(2, 0, true);
    let r = c.authorize_mint(BUYER, None, 3, 0, 0, &item_args());
    assert!(matches!(r, Err(ErrorCode::ExceedsMaxSupply)));
    assert_eq!(c.total_minted, 0);
}

#[test]
fn presale_window_is_enforced() {
    let mut c = collection(10, 0, false);
    c.presale_start = Some(100);
    c.presale_end = Some(200);
    c.add_whitelist(AUTHORITY, &vec![BUYER]).unwrap();
    let phase = Some(Phase::Presale);
    let early = c.mint_nft(COLLECTION_ADDRESS, BUYER, phase, 99, 0, 1, &item_args());
    assert!(matches!(early, Err(ErrorCode::PresaleNotStarted)));
    let late = c.mint_nft(COLLECTION_ADDRESS, BUYER, phase, 200, 0, 1, &item_args());
    assert!(matches!(late, Err(ErrorCode::PresaleEnded)));
    assert_eq!(c.total_minted, 0);
    let open = c.mint_nft(COLLECTION_ADDRESS, BUYER, phase, 150, 0, 1, &item_args());
    assert!(open.is_ok());
    assert_eq!(c.total_minted, 1);
}

#[test]
fn presale_without_window_never_starts() {
    let mut c = collection(10, 0, false);
    c.add_whitelist(AUTHORITY, &vec![BUYER]).unwrap();
    let r = c.mint_nft(COLLECTION_ADDRESS, BUYER, Some(Phase::Presale), 0, 0, 1, &item_args());
    assert!(matches!(r, Err(ErrorCode::PresaleNotStarted)));
}

#[test]
fn presale_requires_whitelist_on_private_collection() {
    let mut c = collection(10, 0, false);
    c.presale_start = Some(100);
    c.presale_end = Some(200);
    let r = c.mint_nft(COLLECTION_ADDRESS, BUYER, Some(Phase::Presale), 150, 0, 1, &item_args());
    assert!(matches!(r, Err(ErrorCode::NotWhitelisted)));
    c.add_whitelist(AUTHORITY, &vec![BUYER]).unwrap();
    let r = c.mint_nft(COLLECTION_ADDRESS, BUYER, Some(Phase::Presale), 150, 0, 1, &item_args());
    assert!(r.is_ok());
}

#[test]
fn public_phase_waits_for_public_start() {
    let mut c = collection(10, 0, false);
    c.public_start = Some(300);
    let phase = Some(Phase::Public);
    let early = c.mint_nft(COLLECTION_ADDRESS, BUYER, phase, 299, 0, 1, &item_args());
    assert!(matches!(early, Err(ErrorCode::PublicMintNotStarted)));
    let open = c.mint_nft(COLLECTION_ADDRESS, BUYER, phase, 300, 0, 1, &item_args());
    assert!(open.is_ok());
}

#[test]
fn presale_mint_still_pays() {
    let mut c = collection(10, 500, false);
    c.presale_start = Some(100);
    c.presale_end = Some(200);
    c.add_whitelist(AUTHORITY, &vec![BUYER]).unwrap();
    let phase = Some(Phase::Presale);
    let broke = c.mint_nft(COLLECTION_ADDRESS, BUYER, phase, 150, 499, 1, &item_args());
    assert!(matches!(broke, Err(ErrorCode::InsufficientPayment)));
    let (_, payment) = c
        .mint_nft(COLLECTION_ADDRESS, BUYER, phase, 150, 500, 1, &item_args())
        .unwrap();
    assert_eq!(payment.unwrap().amount, 500);
}

#[test]
fn missing_phase_on_private_collection_is_invalid() {
    let mut c = collection(10, 0, false);
    let r = c.mint_nft(COLLECTION_ADDRESS, BUYER, None, 0, 0, 1, &item_args());
    assert!(matches!(r, Err(ErrorCode::InvalidPhase)));
}

#[test]
fn oversized_item_metadata_is_rejected_first() {
    let mut c = collection(10, 0, true);
    let mut args = item_args();
    args.name = "x".repeat(33);
    let r = c.mint_nft(COLLECTION_ADDRESS, BUYER, None, 0, 0, 1, &args);
    assert!(matches!(r, Err(ErrorCode::CapacityExceeded)));
    let mut args = item_args();
    args.seller_fee_basis_points = 10001;
    let r = c.mint_nft(COLLECTION_ADDRESS, BUYER, None, 0, 0, 1, &args);
    assert!(matches!(r, Err(ErrorCode::InvalidMetadata)));
    assert_eq!(c.total_minted, 0);
}
