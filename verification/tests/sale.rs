use konnect::addr::Addr;
use konnect::errors::MarketplaceError;
use konnect::listing::Listing;
use konnect::marketplace::Marketplace;
use konnect::sale::{buy_now, BuyNow};
use konnect::token::TokenAccount;

const MINT: Addr = Addr::Account(3);
const BUYER: Addr = Addr::Account(4);
const SELLER: Addr = Addr::Account(2);
const OPERATOR: Addr = Addr::Account(1);
const BEACON: Addr = Addr::Account(99);

fn goods_listing(price: u64, quantity: u32) -> Listing {
    Listing {
        marketplace: Addr::MarketplaceAddr { operator: 1 },
        seller: SELLER,
        mint: MINT,
        price,
        quantity,
        is_service: false,
        active: true,
        bump: 252,
    }
}

fn sale_ctx(listing: Listing, fee_bps: u16) -> BuyNow {
    BuyNow {
        listing,
        listing_key: Addr::ListingAddr { operator: 1, owner: 2, mint: 3 },
        marketplace: Marketplace { authority: OPERATOR, fee_bps, bump: 254 },
        marketplace_key: Addr::MarketplaceAddr { operator: 1 },
        buyer: BUYER,
        buyer_ata: TokenAccount { key: Addr::Account(40), owner: BUYER, mint: MINT },
        seller_ata: TokenAccount { key: Addr::Account(20), owner: SELLER, mint: MINT },
        treasury_ata: TokenAccount { key: Addr::Account(10), owner: OPERATOR, mint: MINT },
        mint: MINT,
        reference_account: Some(BEACON),
    }
}

#[test]
fn direct_sale_splits_fee_and_decrements_stock() {
    // Fee 250 bps on a 1000-unit price, quantity 3: total 3000, fee 75,
    // seller 2925; stock drops from 10 to 7 and the listing stays active.
    let mut ctx = sale_ctx(goods_listing(1000, 10), 250);
    assert!(ctx.validate());
    let outcome = buy_now(&mut ctx, 3, BEACON).unwrap();

    assert_eq!(outcome.seller_payment.amount, 2925);
    assert_eq!(outcome.seller_payment.from, Addr::Account(40));
    assert_eq!(outcome.seller_payment.to, Addr::Account(20));
    assert_eq!(outcome.seller_payment.authority, BUYER);

    let fee = outcome.fee_payment.unwrap();
    assert_eq!(fee.amount, 75);
    assert_eq!(fee.from, Addr::Account(40));
    assert_eq!(fee.to, Addr::Account(10));

    assert_eq!(outcome.seller_payment.amount + fee.amount, 3000);
    assert_eq!(outcome.event.total_amount, 3000);
    assert_eq!(outcome.event.quantity, 3);
    assert_eq!(outcome.event.buyer, BUYER);
    assert_eq!(outcome.event.seller, SELLER);
    assert_eq!(outcome.event.reference, BEACON);

    assert_eq!(ctx.listing.quantity, 7);
    assert!(ctx.listing.active);
}

#[test]
fn full_sell_out_deactivates_listing() {
    let mut ctx = sale_ctx(goods_listing(1000, 7), 250);
    let outcome = buy_now(&mut ctx, 7, BEACON).unwrap();
    assert_eq!(outcome.event.total_amount, 7000);
    assert_eq!(ctx.listing.quantity, 0);
    assert!(!ctx.listing.active);
}

#[test]
fn zero_fee_sale_pays_seller_everything() {
    let mut ctx = sale_ctx(goods_listing(1000, 10), 0);
    let outcome = buy_now(&mut ctx, 2, BEACON).unwrap();
    assert_eq!(outcome.seller_payment.amount, 2000);
    assert!(outcome.fee_payment.is_none());
}

#[test]
fn tiny_total_truncates_fee_to_zero() {
    // 3 units at price 1 with 250 bps: fee truncates to zero, the seller
    // keeps the whole total.
    let mut ctx = sale_ctx(goods_listing(1, 10), 250);
    let outcome = buy_now(&mut ctx, 3, BEACON).unwrap();
    assert_eq!(outcome.seller_payment.amount, 3);
    assert!(outcome.fee_payment.is_none());
}

#[test]
fn overflow_guard_rejects_and_leaves_state_untouched() {
    let listing = goods_listing(u64::MAX, 10);
    let mut ctx = sale_ctx(listing, 250);
    let r = buy_now(&mut ctx, 2, BEACON);
    assert_eq!(r.unwrap_err(), MarketplaceError::MathOverflow);
    assert_eq!(ctx.listing, listing);
    assert_eq!(ctx.listing.quantity, 10);
}

#[test]
fn fee_scaling_overflow_is_rejected() {
    // The total itself fits, but total * fee_bps does not.
    let listing = goods_listing(u64::MAX / 2, 2);
    let mut ctx = sale_ctx(listing, 250);
    let r = buy_now(&mut ctx, 2, BEACON);
    assert_eq!(r.unwrap_err(), MarketplaceError::MathOverflow);
    assert_eq!(ctx.listing, listing);
}

#[test]
fn inactive_listing_is_rejected() {
    let mut listing = goods_listing(1000, 10);
    listing.active = false;
    let mut ctx = sale_ctx(listing, 250);
    assert_eq!(buy_now(&mut ctx, 1, BEACON).unwrap_err(), MarketplaceError::ListingInactive);
    assert_eq!(ctx.listing, listing);
}

#[test]
fn service_listing_is_rejected_on_buy_now() {
    let mut listing = goods_listing(1000, 10);
    listing.is_service = true;
    let mut ctx = sale_ctx(listing, 250);
    assert_eq!(
        buy_now(&mut ctx, 1, BEACON).unwrap_err(),
        MarketplaceError::WrongFlowForService
    );
}

#[test]
fn zero_and_excess_quantity_are_rejected() {
    let mut ctx = sale_ctx(goods_listing(1000, 10), 250);
    assert_eq!(buy_now(&mut ctx, 0, BEACON).unwrap_err(), MarketplaceError::InvalidQuantity);
    assert_eq!(buy_now(&mut ctx, 11, BEACON).unwrap_err(), MarketplaceError::InvalidQuantity);
    assert_eq!(ctx.listing.quantity, 10);
}

#[test]
fn missing_reference_is_rejected() {
    let mut ctx = sale_ctx(goods_listing(1000, 10), 250);
    ctx.reference_account = None;
    assert_eq!(buy_now(&mut ctx, 1, BEACON).unwrap_err(), MarketplaceError::MissingReference);
}

#[test]
fn wrong_reference_is_rejected() {
    let mut ctx = sale_ctx(goods_listing(1000, 10), 250);
    ctx.reference_account = Some(Addr::Account(98));
    assert_eq!(buy_now(&mut ctx, 1, BEACON).unwrap_err(), MarketplaceError::WrongReference);
}

#[test]
fn foreign_seller_account_is_rejected() {
    let mut ctx = sale_ctx(goods_listing(1000, 10), 250);
    ctx.seller_ata = TokenAccount { key: Addr::Account(20), owner: Addr::Account(7), mint: MINT };
    assert_eq!(buy_now(&mut ctx, 1, BEACON).unwrap_err(), MarketplaceError::InvalidAccount);

    let mut ctx = sale_ctx(goods_listing(1000, 10), 250);
    ctx.seller_ata = TokenAccount { key: Addr::Account(20), owner: SELLER, mint: Addr::Account(8) };
    assert_eq!(buy_now(&mut ctx, 1, BEACON).unwrap_err(), MarketplaceError::InvalidAccount);
}

#[test]
fn buy_now_for_wrong_marketplace_is_rejected() {
    // Listing tied to a different marketplace than the one supplied: the
    // engine itself rejects, with no change to the listing.
    let listing = goods_listing(1000, 10);
    let mut ctx = sale_ctx(listing, 250);
    ctx.marketplace_key = Addr::MarketplaceAddr { operator: 9 };
    assert_eq!(buy_now(&mut ctx, 1, BEACON).unwrap_err(), MarketplaceError::WrongMarketplace);
    assert_eq!(ctx.listing, listing);
}

#[test]
fn buy_now_context_validation() {
    // Buyer's asset account owned by someone else.
    let mut ctx = sale_ctx(goods_listing(1000, 10), 250);
    ctx.buyer_ata = TokenAccount { key: Addr::Account(40), owner: SELLER, mint: MINT };
    assert!(!ctx.validate());

    // Treasury account not owned by the marketplace authority.
    let mut ctx = sale_ctx(goods_listing(1000, 10), 250);
    ctx.treasury_ata = TokenAccount { key: Addr::Account(10), owner: BUYER, mint: MINT };
    assert!(!ctx.validate());
}
