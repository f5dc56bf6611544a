//! Listing catalog: creating and updating listings, owned by a merchant.

use vstd::prelude::*;
use crate::addr::Addr;
use crate::addr::is_listing_key;
use crate::errors::MarketplaceError;
use crate::marketplace::Marketplace;
use crate::merchant::Merchant;

verus! {

/// A listing of goods or a service, owned by `seller` (the merchant's owner
/// at creation time, copied by value). For a service listing, `quantity`
/// serves only as an activation flag; for goods it is the remaining stock,
/// decremented by direct sales, and `active` auto-clears when it reaches 0.
#[derive(Clone, Copy, Debug, PartialEq, Eq, Structural)]
pub struct Listing {
    /// Back-reference to the marketplace the listing belongs to.
    pub marketplace: Addr,
    /// The selling merchant's identity; the only principal who may mutate
    /// this record.
    pub seller: Addr,
    /// The fungible asset the listing is priced in.
    pub mint: Addr,
    /// Unit price, always positive.
    pub price: u64,
    /// Remaining units.
    pub quantity: u32,
    /// Service listings go through the escrow flow, goods through buy-now.
    pub is_service: bool,
    /// Whether the listing currently accepts orders.
    pub active: bool,
    /// Storage bump of the record's derived address.
    pub bump: u8,
}

impl Listing {
    /// Record invariant: a listing accepted by the catalog has a positive
    /// price.
    pub open spec fn wf(self) -> bool {
        self.price > 0
    }

    /// Reads the fee rate that applies to this listing from the marketplace
    /// record at `marketplace_key`, rejecting a record from another
    /// marketplace with `WrongMarketplace`.
    pub fn get_fee_bps(&self, marketplace: &Marketplace, marketplace_key: Addr) -> (r: Result<
        u16,
        MarketplaceError,
    >)
        ensures
            r is Ok <==> self.marketplace == marketplace_key,
            r matches Ok(bps) ==> bps == marketplace.fee_bps,
            r is Err ==> r == Err::<u16, MarketplaceError>(MarketplaceError::WrongMarketplace),
    {
        if self.marketplace == marketplace_key {
            Ok(marketplace.fee_bps)
        } else {
            Err(MarketplaceError::WrongMarketplace)
        }
    }
}

/// Validated request context for `create_listing`: the marketplace, the
/// merchant record of the authenticated caller, the asset mint, and the
/// record address the runtime derived for the new listing.
#[derive(Clone, Copy, Debug, PartialEq, Eq, Structural)]
pub struct CreateListing {
    /// Address of the marketplace the listing is created under.
    pub marketplace_key: Addr,
    /// The caller's merchant record.
    pub merchant: Merchant,
    /// Address of that merchant record.
    pub merchant_key: Addr,
    /// The authenticated signer; must own the merchant record.
    pub owner: Addr,
    /// Derived address of the listing record being created.
    pub listing_key: Addr,
    /// Storage bump found for `listing_key`.
    pub listing_bump: u8,
    /// The fungible asset the listing is priced in.
    pub mint: Addr,
}

impl CreateListing {
    /// What the runtime guarantees before the handler runs: the merchant
    /// belongs to the marketplace, the signer owns the merchant record, and
    /// the listing address is derived from marketplace, merchant and mint.
    pub open spec fn wf(self) -> bool {
        &&& self.merchant.marketplace == self.marketplace_key
        &&& self.merchant.owner == self.owner
        &&& is_listing_key(self.listing_key, self.marketplace_key, self.merchant_key, self.mint)
    }

    /// Runtime-side check of `wf`, for callers outside the verified core.
    pub fn validate(&self) -> (r: bool)
        ensures
            r == self.wf(),
    {
        let derived = match (self.listing_key, self.marketplace_key, self.merchant_key, self.mint) {
            (
                Addr::ListingAddr { operator, owner, mint: m },
                Addr::MarketplaceAddr { operator: mp_op },
                Addr::MerchantAddr { operator: me_op, owner: me_owner },
                Addr::Account(a),
            ) => operator == mp_op && operator == me_op && owner == me_owner && m == a,
            _ => false,
        };
        self.merchant.marketplace == self.marketplace_key && self.merchant.owner == self.owner
            && derived
    }
}

/// Creates a listing: price must be positive (else `InvalidAmount`), the
/// seller is copied by value from the merchant record, and the listing
/// starts active.
pub fn create_listing(ctx: &CreateListing, price: u64, quantity: u32, is_service: bool) -> (r:
    Result<Listing, MarketplaceError>)
    requires
        ctx.wf(),
    ensures
        r is Ok <==> price > 0,
        r matches Ok(l) ==> l == (Listing {
            marketplace: ctx.marketplace_key,
            seller: ctx.merchant.owner,
            mint: ctx.mint,
            price,
            quantity,
            is_service,
            active: true,
            bump: ctx.listing_bump,
        }),
        r matches Ok(l) ==> l.wf(),
        r is Err ==> r == Err::<Listing, MarketplaceError>(MarketplaceError::InvalidAmount),
{
    if price == 0 {
        return Err(MarketplaceError::InvalidAmount);
    }
    Ok(
        Listing {
            marketplace: ctx.marketplace_key,
            seller: ctx.merchant.owner,
            mint: ctx.mint,
            price,
            quantity,
            is_service,
            active: true,
            bump: ctx.listing_bump,
        },
    )
}

/// Validated request context for `update_listing`: the listing record and
/// the authenticated signer, who must be its seller.
#[derive(Clone, Copy, Debug, PartialEq, Eq, Structural)]
pub struct UpdateListing {
    /// The listing record being mutated.
    pub listing: Listing,
    /// The authenticated signer.
    pub seller: Addr,
}

impl UpdateListing {
    /// What the runtime guarantees before the handler runs: the signer is
    /// the listing's seller.
    pub open spec fn wf(self) -> bool {
        self.listing.seller == self.seller
    }

    /// Runtime-side check of `wf`, for callers outside the verified core.
    pub fn validate(&self) -> (r: bool)
        ensures
            r == self.wf(),
    {
        self.listing.seller == self.seller
    }
}

/// Updates price, quantity and/or the active flag; each field is
/// independently optional and absent fields stay untouched. A present price
/// of zero is rejected with `InvalidAmount` and the record is left entirely
/// unchanged.
pub fn update_listing(
    ctx: &mut UpdateListing,
    new_price: Option<u64>,
    new_quantity: Option<u32>,
    active: Option<bool>,
) -> (r: Result<(), MarketplaceError>)
    requires
        old(ctx).wf(),
    ensures
        r is Ok <==> (new_price matches Some(p) ==> p > 0),
        r is Ok ==> final(ctx).listing == (Listing {
            price: match new_price {
                Some(p) => p,
                None => old(ctx).listing.price,
            },
            quantity: match new_quantity {
                Some(q) => q,
                None => old(ctx).listing.quantity,
            },
            active: match active {
                Some(a) => a,
                None => old(ctx).listing.active,
            },
            ..old(ctx).listing
        }),
        r is Ok && old(ctx).listing.wf() ==> final(ctx).listing.wf(),
        r is Err ==> *final(ctx) == *old(ctx),
        r is Err ==> r == Err::<(), MarketplaceError>(MarketplaceError::InvalidAmount),
        final(ctx).seller == old(ctx).seller,
{
    if let Some(p) = new_price {
        if p == 0 {
            return Err(MarketplaceError::InvalidAmount);
        }
        ctx.listing.price = p;
    }
    if let Some(q) = new_quantity {
        ctx.listing.quantity = q;
    }
    if let Some(a) = active {
        ctx.listing.active = a;
    }
    Ok(())
}

} // verus!
