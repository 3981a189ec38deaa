use vstd::prelude::*;

use crate::address::Address;
use crate::error::ErrorCode;
use crate::fee::{split_of, split_price, FeeSplit};
use crate::listing::Listing;
use crate::marketplace::Marketplace;

verus! {

/// A lamport balance and the identity that holds it.
#[derive(Clone, Copy, Debug, PartialEq, Eq)]
pub struct Wallet {
    pub key: Address,
    pub lamports: u64,
}

/// A token account: how many units of `mint` its `owner` holds.
#[derive(Clone, Copy, Debug, PartialEq, Eq)]
pub struct TokenHolding {
    pub owner: Address,
    pub mint: Address,
    pub amount: u64,
}

/// The accounts that one purchase reads and writes besides the listing and
/// the ledger: the three wallets that take part in the value transfer and the
/// two token accounts between which the asset moves.
#[derive(Clone, Copy, Debug, PartialEq, Eq)]
pub struct BuyAccounts {
    pub buyer: Wallet,
    pub seller: Wallet,
    pub fee_recipient: Wallet,
    pub seller_tokens: TokenHolding,
    pub buyer_tokens: TokenHolding,
}

/// The wallets and token accounts are the ones that the listing and the
/// ledger name, and the three wallets are distinct, so that each balance is
/// counted once. The fee can only go to the ledger's authority.
pub open spec fn accounts_match(listing: Listing, marketplace: Marketplace, a: BuyAccounts) -> bool {
    &&& a.seller.key == listing.seller
    &&& a.fee_recipient.key == marketplace.authority
    &&& a.buyer.key != a.seller.key
    &&& a.buyer.key != a.fee_recipient.key
    &&& a.seller.key != a.fee_recipient.key
    &&& a.buyer_tokens.owner == a.buyer.key
    &&& a.buyer_tokens.mint == listing.nft_mint
}

/// The seller still holds the listed asset in the token account handed in.
pub open spec fn seller_holds_asset(listing: Listing, a: BuyAccounts) -> bool {
    &&& a.seller_tokens.owner == listing.seller
    &&& a.seller_tokens.mint == listing.nft_mint
    &&& a.seller_tokens.amount >= 1
}

/// The accounts after the buyer paid `split.fee + split.seller_amount`, the
/// seller and the platform were credited, and one unit of the asset moved.
pub open spec fn transferred(a: BuyAccounts, split: FeeSplit) -> BuyAccounts {
    BuyAccounts {
        buyer: Wallet { lamports: (a.buyer.lamports - split.fee - split.seller_amount) as u64, ..a.buyer },
        seller: Wallet { lamports: (a.seller.lamports + split.seller_amount) as u64, ..a.seller },
        fee_recipient: Wallet {
            lamports: (a.fee_recipient.lamports + split.fee) as u64,
            ..a.fee_recipient
        },
        seller_tokens: TokenHolding { amount: (a.seller_tokens.amount - 1) as u64, ..a.seller_tokens },
        buyer_tokens: TokenHolding { amount: (a.buyer_tokens.amount + 1) as u64, ..a.buyer_tokens },
    }
}

/// Settlement of a purchase as one indivisible step: the new listing, ledger
/// and accounts, or the first refusal, checked in the order
/// `ListingNotActive`, `AccountMismatch`, `InsufficientFunds`,
/// `AssetOwnershipMismatch`, then the arithmetic refusals
/// (`ArithmeticOverflow`, `VolumeOverflow`).
pub open spec fn settle(listing: Listing, marketplace: Marketplace, a: BuyAccounts) -> Result<
    (Listing, Marketplace, BuyAccounts),
    ErrorCode,
> {
    if !listing.is_active {
        Err(ErrorCode::ListingNotActive)
    } else if !accounts_match(listing, marketplace, a) {
        Err(ErrorCode::AccountMismatch)
    } else if a.buyer.lamports < listing.price {
        Err(ErrorCode::InsufficientFunds)
    } else if !seller_holds_asset(listing, a) {
        Err(ErrorCode::AssetOwnershipMismatch)
    } else {
        match split_of(listing.price, marketplace.fee_basis_points) {
            Err(e) => Err(e),
            Ok(split) => {
                if a.seller.lamports + split.seller_amount > u64::MAX || a.fee_recipient.lamports
                    + split.fee > u64::MAX || a.buyer_tokens.amount + 1 > u64::MAX {
                    Err(ErrorCode::ArithmeticOverflow)
                } else {
                    match marketplace.after_sale(listing.price) {
                        Err(e) => Err(e),
                        Ok(m) => Ok(
                            (Listing { is_active: false, ..listing }, m, transferred(a, split)),
                        ),
                    }
                }
            },
        }
    }
}

/// Settles the purchase of `listing`: the buyer pays the price, the seller
/// receives it less the platform fee, the ledger's authority receives the fee,
/// one unit of the asset moves from the seller to the buyer, the listing is
/// closed and the sale counted. Every check and every sum is made before the
/// first record is written, so either all of this happens or, with the error,
/// none of it. On success the fee split is returned.
pub fn buy_nft(listing: &mut Listing, marketplace: &mut Marketplace, accounts: &mut BuyAccounts) -> (r:
    Result<FeeSplit, ErrorCode>)
    ensures
        match settle(*old(listing), *old(marketplace), *old(accounts)) {
            Ok((l, m, a)) => {
                &&& r == Ok::<FeeSplit, ErrorCode>(
                    split_of(old(listing).price, old(marketplace).fee_basis_points)->Ok_0,
                )
                &&& *final(listing) == l
                &&& *final(marketplace) == m
                &&& *final(accounts) == a
            },
            Err(e) => {
                &&& r == Err::<FeeSplit, ErrorCode>(e)
                &&& *final(listing) == *old(listing)
                &&& *final(marketplace) == *old(marketplace)
                &&& *final(accounts) == *old(accounts)
            },
        },
        old(marketplace).wf() ==> final(marketplace).wf(),
{
    if !listing.is_active {
        return Err(ErrorCode::ListingNotActive);
    }
    let a = *accounts;
    if !(a.seller.key == listing.seller) || !(a.fee_recipient.key == marketplace.authority) || a.buyer.key
        == a.seller.key || a.buyer.key == a.fee_recipient.key || a.seller.key == a.fee_recipient.key
        || !(a.buyer_tokens.owner == a.buyer.key) || !(a.buyer_tokens.mint == listing.nft_mint) {
        return Err(ErrorCode::AccountMismatch);
    }
    let price = listing.price;
    if a.buyer.lamports < price {
        return Err(ErrorCode::InsufficientFunds);
    }
    if !(a.seller_tokens.owner == listing.seller) || !(a.seller_tokens.mint == listing.nft_mint)
        || a.seller_tokens.amount < 1 {
        return Err(ErrorCode::AssetOwnershipMismatch);
    }
    let split = match split_price(price, marketplace.fee_basis_points) {
        Ok(s) => s,
        Err(e) => return Err(e),
    };
    // Stage every new balance; nothing is written until all of them exist.
    let seller_lamports = match a.seller.lamports.checked_add(split.seller_amount) {
        Some(v) => v,
        None => return Err(ErrorCode::ArithmeticOverflow),
    };
    let recipient_lamports = match a.fee_recipient.lamports.checked_add(split.fee) {
        Some(v) => v,
        None => return Err(ErrorCode::ArithmeticOverflow),
    };
    let buyer_amount = match a.buyer_tokens.amount.checked_add(1) {
        Some(v) => v,
        None => return Err(ErrorCode::ArithmeticOverflow),
    };
    let mut ledger = *marketplace;
    match ledger.record_sale(price) {
        Ok(()) => {},
        Err(e) => return Err(e),
    }
    // Commit.
    accounts.buyer.lamports = a.buyer.lamports - price;
    accounts.seller.lamports = seller_lamports;
    accounts.fee_recipient.lamports = recipient_lamports;
    accounts.seller_tokens.amount = a.seller_tokens.amount - 1;
    accounts.buyer_tokens.amount = buyer_amount;
    listing.deactivate();
    *marketplace = ledger;
    Ok(split)
}

/// A settled listing cannot be settled again: the attempt is refused with
/// `ListingNotActive`, whatever accounts it brings, and so (by `buy_nft`)
/// leaves every balance and the ledger's counters as they were.
pub proof fn lemma_settled_listing_refused(listing: Listing, marketplace: Marketplace, a: BuyAccounts)
    requires
        !listing.is_active,
    ensures
        settle(listing, marketplace, a) == Err::<(Listing, Marketplace, BuyAccounts), ErrorCode>(
            ErrorCode::ListingNotActive,
        ),
{
}

/// Of two purchases of one listing, serialised on its record, at most one
/// succeeds. After the first success the listing is settled, the ledger
/// counts exactly one more sale and its volume grew by the price, and the
/// second purchase, by any buyer, is refused with `ListingNotActive`.
pub proof fn lemma_listing_sells_once(
    listing: Listing,
    marketplace: Marketplace,
    first: BuyAccounts,
    second: BuyAccounts,
)
    requires
        settle(listing, marketplace, first) is Ok,
    ensures
        ({
            let (l, m, a) = settle(listing, marketplace, first)->Ok_0;
            &&& !l.is_active
            &&& m.total_sales == marketplace.total_sales + 1
            &&& m.total_volume == marketplace.total_volume + listing.price
            &&& Ok::<Marketplace, ErrorCode>(m) == marketplace.after_sale(listing.price)
            &&& settle(l, m, second) == Err::<(Listing, Marketplace, BuyAccounts), ErrorCode>(
                ErrorCode::ListingNotActive,
            )
        }),
{
}

/// A purchase whose asset transfer cannot happen, because the seller no
/// longer holds the asset in the token account handed in, is refused; by
/// `buy_nft` no value transfer it had staged is applied, and every balance
/// ends as it began.
pub proof fn lemma_failed_asset_transfer_refused(listing: Listing, marketplace: Marketplace, a: BuyAccounts)
    requires
        !seller_holds_asset(listing, a),
    ensures
        settle(listing, marketplace, a) is Err,
        listing.is_active && accounts_match(listing, marketplace, a) && a.buyer.lamports >= listing.price
            ==> settle(listing, marketplace, a) == Err::<(Listing, Marketplace, BuyAccounts), ErrorCode>(
            ErrorCode::AssetOwnershipMismatch,
        ),
{
}

/// A successful settlement moves value and nothing else: what the buyer
/// pays is exactly what the seller and the platform receive, and the fee is
/// the one that the ledger's rate gives on the price.
pub proof fn lemma_settlement_conserves_value(listing: Listing, marketplace: Marketplace, a: BuyAccounts)
    requires
        settle(listing, marketplace, a) is Ok,
    ensures
        ({
            let (l, m, b) = settle(listing, marketplace, a)->Ok_0;
            let split = split_of(listing.price, marketplace.fee_basis_points)->Ok_0;
            &&& a.buyer.lamports - b.buyer.lamports == listing.price
            &&& b.seller.lamports - a.seller.lamports == split.seller_amount
            &&& b.fee_recipient.lamports - a.fee_recipient.lamports == split.fee
            &&& a.buyer.lamports + a.seller.lamports + a.fee_recipient.lamports
                == b.buyer.lamports + b.seller.lamports + b.fee_recipient.lamports
            &&& a.seller_tokens.amount - b.seller_tokens.amount == 1
            &&& b.buyer_tokens.amount - a.buyer_tokens.amount == 1
        }),
{
}

} // verus!
