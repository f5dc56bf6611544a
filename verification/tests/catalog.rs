use konnect::addr::Addr;
use konnect::errors::MarketplaceError;
use konnect::listing::{create_listing, update_listing, CreateListing, Listing, UpdateListing};
use konnect::marketplace::Marketplace;
use konnect::merchant::{register_merchant, set_merchant_status, Merchant, RegisterMerchant, SetMerchantStatus};

fn merchant_ctx() -> RegisterMerchant {
    RegisterMerchant {
        marketplace_key: Addr::MarketplaceAddr { operator: 1 },
        merchant_key: Addr::MerchantAddr { operator: 1, owner: 2 },
        merchant_bump: 253,
        owner: Addr::Account(2),
    }
}

fn listing_ctx(merchant: Merchant) -> CreateListing {
    CreateListing {
        marketplace_key: Addr::MarketplaceAddr { operator: 1 },
        merchant,
        merchant_key: Addr::MerchantAddr { operator: 1, owner: 2 },
        owner: Addr::Account(2),
        listing_key: Addr::ListingAddr { operator: 1, owner: 2, mint: 3 },
        listing_bump: 252,
        mint: Addr::Account(3),
    }
}

#[test]
fn register_merchant_starts_unverified() {
    let ctx = merchant_ctx();
    assert!(ctx.validate());
    let m = register_merchant(&ctx);
    assert_eq!(m.marketplace, Addr::MarketplaceAddr { operator: 1 });
    assert_eq!(m.owner, Addr::Account(2));
    assert!(!m.verified);
    assert_eq!(m.bump, 253);
}

#[test]
fn register_merchant_context_requires_derived_key() {
    let mut ctx = merchant_ctx();
    ctx.merchant_key = Addr::MerchantAddr { operator: 1, owner: 7 };
    assert!(!ctx.validate());
}

#[test]
fn set_merchant_status_toggles_flag() {
    let m = register_merchant(&merchant_ctx());
    let mut ctx = SetMerchantStatus {
        merchant: m,
        marketplace: Marketplace { authority: Addr::Account(1), fee_bps: 250, bump: 254 },
        marketplace_key: Addr::MarketplaceAddr { operator: 1 },
        authority: Addr::Account(1),
    };
    assert!(ctx.validate());
    set_merchant_status(&mut ctx, true).unwrap();
    assert!(ctx.merchant.verified);
    set_merchant_status(&mut ctx, false).unwrap();
    assert!(!ctx.merchant.verified);
}

#[test]
fn set_merchant_status_is_operator_only() {
    let m = register_merchant(&merchant_ctx());
    let ctx = SetMerchantStatus {
        merchant: m,
        marketplace: Marketplace { authority: Addr::Account(1), fee_bps: 250, bump: 254 },
        marketplace_key: Addr::MarketplaceAddr { operator: 1 },
        authority: Addr::Account(2),
    };
    assert!(!ctx.validate());
}

#[test]
fn create_listing_copies_seller_and_starts_active() {
    let m = register_merchant(&merchant_ctx());
    let ctx = listing_ctx(m);
    assert!(ctx.validate());
    let l = create_listing(&ctx, 1000, 10, false).unwrap();
    assert_eq!(l.marketplace, Addr::MarketplaceAddr { operator: 1 });
    assert_eq!(l.seller, Addr::Account(2));
    assert_eq!(l.mint, Addr::Account(3));
    assert_eq!(l.price, 1000);
    assert_eq!(l.quantity, 10);
    assert!(!l.is_service);
    assert!(l.active);
    assert_eq!(l.bump, 252);
}

#[test]
fn create_listing_rejects_zero_price() {
    let m = register_merchant(&merchant_ctx());
    let ctx = listing_ctx(m);
    assert_eq!(create_listing(&ctx, 0, 10, false), Err(MarketplaceError::InvalidAmount));
}

#[test]
fn create_listing_does_not_require_verification() {
    // An unverified merchant may list; verification is not enforced at
    // listing time.
    let m = register_merchant(&merchant_ctx());
    assert!(!m.verified);
    let ctx = listing_ctx(m);
    assert!(ctx.validate());
    assert!(create_listing(&ctx, 5, 1, true).is_ok());
}

#[test]
fn update_listing_sets_present_fields_only() {
    let m = register_merchant(&merchant_ctx());
    let l = create_listing(&listing_ctx(m), 1000, 10, false).unwrap();
    let mut ctx = UpdateListing { listing: l, seller: Addr::Account(2) };
    assert!(ctx.validate());

    update_listing(&mut ctx, Some(2000), None, None).unwrap();
    assert_eq!(ctx.listing.price, 2000);
    assert_eq!(ctx.listing.quantity, 10);
    assert!(ctx.listing.active);

    update_listing(&mut ctx, None, Some(4), Some(false)).unwrap();
    assert_eq!(ctx.listing.price, 2000);
    assert_eq!(ctx.listing.quantity, 4);
    assert!(!ctx.listing.active);
}

#[test]
fn update_listing_rejects_zero_price_and_changes_nothing() {
    let m = register_merchant(&merchant_ctx());
    let l = create_listing(&listing_ctx(m), 1000, 10, false).unwrap();
    let mut ctx = UpdateListing { listing: l, seller: Addr::Account(2) };
    // Quantity and active flags are supplied too, but the zero price aborts
    // the whole update before any of them is applied.
    let r = update_listing(&mut ctx, Some(0), Some(1), Some(false));
    assert_eq!(r, Err(MarketplaceError::InvalidAmount));
    assert_eq!(ctx.listing, l);
}

#[test]
fn update_listing_is_seller_only() {
    let m = register_merchant(&merchant_ctx());
    let l = create_listing(&listing_ctx(m), 1000, 10, false).unwrap();
    let ctx = UpdateListing { listing: l, seller: Addr::Account(7) };
    assert!(!ctx.validate());
}

#[test]
fn get_fee_bps_checks_the_marketplace() {
    let m = register_merchant(&merchant_ctx());
    let l = create_listing(&listing_ctx(m), 1000, 10, false).unwrap();
    let mp = Marketplace { authority: Addr::Account(1), fee_bps: 250, bump: 254 };
    assert_eq!(l.get_fee_bps(&mp, Addr::MarketplaceAddr { operator: 1 }), Ok(250));
    assert_eq!(
        l.get_fee_bps(&mp, Addr::MarketplaceAddr { operator: 9 }),
        Err(MarketplaceError::WrongMarketplace)
    );
}
