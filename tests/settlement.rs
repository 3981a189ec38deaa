use marketplace_anchor::{
    buy_nft, create_listing, initialize_marketplace, register_game, split_price, Address, BuyAccounts,
    ErrorCode, FeeSplit, Listing, Marketplace, TokenHolding, Wallet,
};

fn key(n: u8) -> Address {
    Address { bytes: [n; 32] }
}

fn authority() -> Address {
    key(1)
}

fn seller() -> Address {
    key(2)
}

fn buyer() -> Address {
    key(3)
}

fn mint() -> Address {
    key(9)
}

fn ledger(fee_basis_points: u16) -> Marketplace {
    let mut slot = None;
    initialize_marketplace(&mut slot, authority(), fee_basis_points).unwrap();
    slot.unwrap()
}

fn active_listing(price: u64) -> Listing {
    let mut slot = None;
    create_listing(&mut slot, seller(), mint(), price, 1_700_000_000).unwrap();
    slot.unwrap()
}

fn accounts_for(buyer_key: Address, buyer_lamports: u64) -> BuyAccounts {
    BuyAccounts {
        buyer: Wallet { key: buyer_key, lamports: buyer_lamports },
        seller: Wallet { key: seller(), lamports: 500 },
        fee_recipient: Wallet { key: authority(), lamports: 100 },
        seller_tokens: TokenHolding { owner: seller(), mint: mint(), amount: 1 },
        buyer_tokens: TokenHolding { owner: buyer_key, mint: mint(), amount: 0 },
    }
}

#[test]
fn fee_split_at_250_basis_points() {
    assert_eq!(split_price(1000, 250), Ok(FeeSplit { fee: 25, seller_amount: 975 }));
}

#[test]
fn fee_split_rounds_down() {
    assert_eq!(split_price(100, 333), Ok(FeeSplit { fee: 3, seller_amount: 97 }));
}

#[test]
fn fee_split_adds_up_to_price() {
    for &(price, bps) in &[(1u64, 0u16), (1, 10000), (7, 9999), (u64::MAX, 10000), (u64::MAX, 1), (12345, 4321)] {
        let split = split_price(price, bps).unwrap();
        assert_eq!(split.fee + split.seller_amount, price);
    }
    assert_eq!(split_price(u64::MAX, 10000), Ok(FeeSplit { fee: u64::MAX, seller_amount: 0 }));
    assert_eq!(split_price(500, 0), Ok(FeeSplit { fee: 0, seller_amount: 500 }));
}

#[test]
fn fee_above_whole_price_is_refused() {
    assert_eq!(split_price(10, 20000), Err(ErrorCode::ArithmeticOverflow));
    assert_eq!(split_price(u64::MAX, 10001), Err(ErrorCode::ArithmeticOverflow));
    assert_eq!(split_price(1, 10001), Ok(FeeSplit { fee: 1, seller_amount: 0 }));
}

#[test]
fn initialize_sets_zeroed_counters() {
    let m = ledger(250);
    assert_eq!(m, Marketplace { authority: authority(), fee_basis_points: 250, total_volume: 0, total_sales: 0 });
}

#[test]
fn initialize_rejects_fee_above_whole() {
    let mut slot = None;
    assert_eq!(initialize_marketplace(&mut slot, authority(), 10001), Err(ErrorCode::InvalidFee));
    assert_eq!(slot, None);
    assert!(initialize_marketplace(&mut slot, authority(), 10000).is_ok());
}

#[test]
fn initialize_twice_is_refused() {
    let mut slot = None;
    initialize_marketplace(&mut slot, authority(), 250).unwrap();
    let first = slot;
    assert_eq!(initialize_marketplace(&mut slot, key(7), 100), Err(ErrorCode::AlreadyInitialized));
    assert_eq!(slot, first);
}

#[test]
fn create_with_zero_price_is_refused() {
    let mut slot = None;
    assert_eq!(create_listing(&mut slot, seller(), mint(), 0, 5), Err(ErrorCode::InvalidPrice));
    assert_eq!(slot, None);
}

#[test]
fn create_stores_active_listing() {
    let l = active_listing(1000);
    assert_eq!(
        l,
        Listing { seller: seller(), nft_mint: mint(), price: 1000, is_active: true, created_at: 1_700_000_000 }
    );
}

#[test]
fn create_over_active_listing_is_refused() {
    let mut slot = Some(active_listing(1000));
    let before = slot;
    assert_eq!(create_listing(&mut slot, key(4), mint(), 50, 6), Err(ErrorCode::ListingAlreadyActive));
    assert_eq!(slot, before);
}

#[test]
fn settled_listing_may_be_listed_again() {
    let mut l = active_listing(1000);
    let mut m = ledger(250);
    let mut a = accounts_for(buyer(), 5000);
    buy_nft(&mut l, &mut m, &mut a).unwrap();
    let mut slot = Some(l);
    assert!(create_listing(&mut slot, buyer(), mint(), 2000, 7).is_ok());
    assert_eq!(slot.unwrap().seller, buyer());
    assert!(slot.unwrap().is_active);
}

#[test]
fn buy_moves_value_and_asset() {
    let mut l = active_listing(1000);
    let mut m = ledger(250);
    let mut a = accounts_for(buyer(), 5000);
    assert_eq!(buy_nft(&mut l, &mut m, &mut a), Ok(FeeSplit { fee: 25, seller_amount: 975 }));
    assert!(!l.is_active);
    assert_eq!(a.buyer.lamports, 4000);
    assert_eq!(a.seller.lamports, 500 + 975);
    assert_eq!(a.fee_recipient.lamports, 100 + 25);
    assert_eq!(a.seller_tokens.amount, 0);
    assert_eq!(a.buyer_tokens.amount, 1);
    assert_eq!(m.total_volume, 1000);
    assert_eq!(m.total_sales, 1);
}

#[test]
fn buying_settled_listing_changes_nothing() {
    let mut l = active_listing(1000);
    let mut m = ledger(250);
    let mut a = accounts_for(buyer(), 5000);
    buy_nft(&mut l, &mut m, &mut a).unwrap();
    let (l0, m0, a0) = (l, m, a);
    assert_eq!(buy_nft(&mut l, &mut m, &mut a), Err(ErrorCode::ListingNotActive));
    assert_eq!((l, m, a), (l0, m0, a0));
}

#[test]
fn two_buyers_of_one_listing_only_one_succeeds() {
    let mut l = active_listing(1000);
    let mut m = ledger(250);
    let mut first = accounts_for(buyer(), 5000);
    let mut second = accounts_for(key(5), 5000);
    let second_before = second;
    let results = [buy_nft(&mut l, &mut m, &mut first), buy_nft(&mut l, &mut m, &mut second)];
    assert_eq!(results.iter().filter(|r| r.is_ok()).count(), 1);
    assert_eq!(results[1], Err(ErrorCode::ListingNotActive));
    assert_eq!(second, second_before);
    assert_eq!(m.total_sales, 1);
}

#[test]
fn totals_are_sum_of_sales() {
    let mut m = ledger(333);
    let prices = [1000u64, 1, 77, 123_456_789];
    for (i, &p) in prices.iter().enumerate() {
        let mint_key = key(100 + i as u8);
        let mut slot = None;
        create_listing(&mut slot, seller(), mint_key, p, 10).unwrap();
        let mut l = slot.unwrap();
        let mut a = accounts_for(buyer(), 1_000_000_000);
        a.seller_tokens.mint = mint_key;
        a.buyer_tokens.mint = mint_key;
        buy_nft(&mut l, &mut m, &mut a).unwrap();
    }
    assert_eq!(m.total_volume, prices.iter().sum::<u64>());
    assert_eq!(m.total_sales, prices.len() as u64);
}

#[test]
fn failed_asset_transfer_rolls_back_payments() {
    let mut l = active_listing(1000);
    let mut m = ledger(250);
    let mut a = accounts_for(buyer(), 5000);
    a.seller_tokens.amount = 0;
    let (l0, m0, a0) = (l, m, a);
    assert_eq!(buy_nft(&mut l, &mut m, &mut a), Err(ErrorCode::AssetOwnershipMismatch));
    assert_eq!((l, m, a), (l0, m0, a0));
    a.seller_tokens.amount = 1;
    a.seller_tokens.owner = key(8);
    let a1 = a;
    assert_eq!(buy_nft(&mut l, &mut m, &mut a), Err(ErrorCode::AssetOwnershipMismatch));
    assert_eq!((l, m, a), (l0, m0, a1));
}

#[test]
fn buyer_short_of_funds_is_refused() {
    let mut l = active_listing(1000);
    let mut m = ledger(250);
    let mut a = accounts_for(buyer(), 999);
    let a0 = a;
    assert_eq!(buy_nft(&mut l, &mut m, &mut a), Err(ErrorCode::InsufficientFunds));
    assert_eq!(a, a0);
    assert!(l.is_active);
}

#[test]
fn fee_cannot_be_diverted() {
    let mut l = active_listing(1000);
    let mut m = ledger(250);
    let mut a = accounts_for(buyer(), 5000);
    a.fee_recipient.key = key(6);
    let a0 = a;
    assert_eq!(buy_nft(&mut l, &mut m, &mut a), Err(ErrorCode::AccountMismatch));
    assert_eq!(a, a0);
}

#[test]
fn proceeds_go_only_to_listed_seller() {
    let mut l = active_listing(1000);
    let mut m = ledger(250);
    let mut a = accounts_for(buyer(), 5000);
    a.seller.key = key(6);
    assert_eq!(buy_nft(&mut l, &mut m, &mut a), Err(ErrorCode::AccountMismatch));
    let mut b = accounts_for(seller(), 5000);
    b.buyer_tokens.owner = seller();
    assert_eq!(buy_nft(&mut l, &mut m, &mut b), Err(ErrorCode::AccountMismatch));
    assert!(l.is_active);
}

#[test]
fn credit_overflow_is_refused() {
    let mut l = active_listing(1000);
    let mut m = ledger(250);
    let mut a = accounts_for(buyer(), 5000);
    a.seller.lamports = u64::MAX - 974;
    let a0 = a;
    assert_eq!(buy_nft(&mut l, &mut m, &mut a), Err(ErrorCode::ArithmeticOverflow));
    assert_eq!(a, a0);
    a.seller.lamports = u64::MAX - 975;
    assert!(buy_nft(&mut l, &mut m, &mut a).is_ok());
}

#[test]
fn volume_overflow_is_refused() {
    let mut l = active_listing(1000);
    let mut m = ledger(250);
    m.total_volume = u64::MAX - 999 + 1;
    let mut a = accounts_for(buyer(), 5000);
    let (l0, m0, a0) = (l, m, a);
    assert_eq!(buy_nft(&mut l, &mut m, &mut a), Err(ErrorCode::VolumeOverflow));
    assert_eq!((l, m, a), (l0, m0, a0));
}

#[test]
fn game_registers_once() {
    let mut slot = None;
    register_game(&mut slot, authority(), "Quest".to_string(), "QST".to_string(), "A game".to_string()).unwrap();
    let g = slot.as_ref().unwrap();
    assert_eq!(g.name, "Quest");
    assert_eq!(g.symbol, "QST");
    assert_eq!(g.description, "A game");
    assert_eq!(g.total_items, 0);
    assert!(!g.verified);
    assert_eq!(
        register_game(&mut slot, authority(), "Other".to_string(), "O".to_string(), String::new()),
        Err(ErrorCode::AlreadyInitialized)
    );
    assert_eq!(slot.unwrap().name, "Quest");
}

#[test]
fn sales_counted_in_any_order_agree() {
    let prices = [5u64, 900, 31, 7_000];
    let mut forward = ledger(250);
    let mut backward = ledger(250);
    for &p in prices.iter() {
        forward.record_sale(p).unwrap();
    }
    for &p in prices.iter().rev() {
        backward.record_sale(p).unwrap();
    }
    assert_eq!(forward, backward);
    assert_eq!(forward.total_volume, 7_936);
    assert_eq!(forward.total_sales, 4);
}

#[test]
fn record_sale_never_wraps() {
    let mut m = ledger(0);
    m.total_volume = u64::MAX - 1;
    let before = m;
    assert_eq!(m.record_sale(2), Err(ErrorCode::VolumeOverflow));
    assert_eq!(m, before);
    assert_eq!(m.record_sale(1), Ok(()));
    assert_eq!(m.total_volume, u64::MAX);
    m.total_sales = u64::MAX;
    let full = m;
    assert_eq!(m.record_sale(0), Err(ErrorCode::VolumeOverflow));
    assert_eq!(m, full);
}
