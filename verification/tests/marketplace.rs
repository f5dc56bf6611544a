use konnect::addr::Addr;
use konnect::errors::MarketplaceError;
use konnect::marketplace::{init_marketplace, update_marketplace, InitMarketplace, Marketplace, UpdateMarketplace};

fn init_ctx(operator: u64) -> InitMarketplace {
    InitMarketplace {
        marketplace_key: Addr::MarketplaceAddr { operator },
        marketplace_bump: 254,
        authority: Addr::Account(operator),
    }
}

#[test]
fn init_marketplace_accepts_capped_fee() {
    let ctx = init_ctx(1);
    assert!(ctx.validate());
    let mp = init_marketplace(&ctx, 250).unwrap();
    assert_eq!(mp.authority, Addr::Account(1));
    assert_eq!(mp.fee_bps, 250);
    assert_eq!(mp.bump, 254);
}

#[test]
fn init_marketplace_accepts_zero_and_max_fee() {
    let ctx = init_ctx(1);
    assert_eq!(init_marketplace(&ctx, 0).unwrap().fee_bps, 0);
    assert_eq!(init_marketplace(&ctx, 1000).unwrap().fee_bps, 1000);
}

#[test]
fn init_marketplace_rejects_fee_above_cap() {
    let ctx = init_ctx(1);
    assert_eq!(init_marketplace(&ctx, 1001), Err(MarketplaceError::FeeTooHigh));
    assert_eq!(init_marketplace(&ctx, u16::MAX), Err(MarketplaceError::FeeTooHigh));
}

#[test]
fn init_marketplace_context_validation() {
    // Key derived from a different account than the signer.
    let ctx = InitMarketplace {
        marketplace_key: Addr::MarketplaceAddr { operator: 2 },
        marketplace_bump: 254,
        authority: Addr::Account(1),
    };
    assert!(!ctx.validate());
}

#[test]
fn update_marketplace_sets_present_fields_only() {
    let mut ctx = UpdateMarketplace {
        marketplace: Marketplace { authority: Addr::Account(1), fee_bps: 250, bump: 254 },
        authority: Addr::Account(1),
    };
    assert!(ctx.validate());
    update_marketplace(&mut ctx, Some(500), None).unwrap();
    assert_eq!(ctx.marketplace.fee_bps, 500);
    assert_eq!(ctx.marketplace.authority, Addr::Account(1));

    update_marketplace(&mut ctx, None, Some(Addr::Account(9))).unwrap();
    assert_eq!(ctx.marketplace.fee_bps, 500);
    assert_eq!(ctx.marketplace.authority, Addr::Account(9));

    // Both fields absent: the record is untouched.
    let before = ctx.marketplace;
    update_marketplace(&mut ctx, None, None).unwrap();
    assert_eq!(ctx.marketplace, before);
}

#[test]
fn update_marketplace_rejects_fee_above_cap_and_changes_nothing() {
    let mut ctx = UpdateMarketplace {
        marketplace: Marketplace { authority: Addr::Account(1), fee_bps: 250, bump: 254 },
        authority: Addr::Account(1),
    };
    let before = ctx.marketplace;
    // Even with a new authority supplied, a bad fee aborts the whole update.
    let r = update_marketplace(&mut ctx, Some(1001), Some(Addr::Account(9)));
    assert_eq!(r, Err(MarketplaceError::FeeTooHigh));
    assert_eq!(ctx.marketplace, before);
}

#[test]
fn update_marketplace_requires_current_authority() {
    let ctx = UpdateMarketplace {
        marketplace: Marketplace { authority: Addr::Account(1), fee_bps: 250, bump: 254 },
        authority: Addr::Account(2),
    };
    assert!(!ctx.validate());
}

#[test]
fn error_messages_match_taxonomy() {
    assert_eq!(MarketplaceError::FeeTooHigh.message(), "Fee too high (max 10%)");
    assert_eq!(MarketplaceError::MathOverflow.message(), "Math overflow");
    assert_eq!(MarketplaceError::AlreadyReleased.message(), "Already released");
}
