use marketplace_anchor::{game_address, listing_address, marketplace_address, Address};

fn program() -> Address {
    Address { bytes: [42; 32] }
}

#[test]
fn derived_addresses_are_stable() {
    let mint = Address { bytes: [9; 32] };
    assert_eq!(listing_address(&program(), &mint), listing_address(&program(), &mint));
    assert_eq!(marketplace_address(&program()), marketplace_address(&program()));
}

#[test]
fn derived_addresses_differ_by_namespace_and_key() {
    let k = Address { bytes: [9; 32] };
    let other = Address { bytes: [10; 32] };
    let (ledger, _) = marketplace_address(&program()).unwrap();
    let (game, _) = game_address(&program(), &k).unwrap();
    let (listing, _) = listing_address(&program(), &k).unwrap();
    let (other_listing, _) = listing_address(&program(), &other).unwrap();
    assert_ne!(ledger, game);
    assert_ne!(ledger, listing);
    assert_ne!(game, listing);
    assert_ne!(listing, other_listing);
    assert_ne!(listing, k);
    assert_ne!(ledger, program());
}

#[test]
fn derived_address_depends_on_program() {
    let k = Address { bytes: [9; 32] };
    let elsewhere = Address { bytes: [43; 32] };
    assert_ne!(
        listing_address(&program(), &k).unwrap().0,
        listing_address(&elsewhere, &k).unwrap().0
    );
}
