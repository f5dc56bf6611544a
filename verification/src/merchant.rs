//! Merchant registry: registering merchants under a marketplace and
//! toggling their operator-controlled verification flag.

use vstd::prelude::*;
use crate::addr::Addr;
use crate::addr::is_merchant_key;
use crate::errors::MarketplaceError;
use crate::marketplace::Marketplace;

verus! {

/// A merchant registered under a marketplace. Keyed by (marketplace, owner):
/// created once by the merchant, mutated only by the marketplace authority.
#[derive(Clone, Copy, Debug, PartialEq, Eq, Structural)]
pub struct Merchant {
    /// Back-reference to the marketplace the merchant registered under.
    pub marketplace: Addr,
    /// The merchant identity.
    pub owner: Addr,
    /// Operator-controlled verification flag, initially false.
    pub verified: bool,
    /// Storage bump of the record's derived address.
    pub bump: u8,
}

/// Validated request context for `register_merchant`: the marketplace the
/// merchant registers under, the record address the runtime derived for the
/// new merchant, and the authenticated owner paying for it.
#[derive(Clone, Copy, Debug, PartialEq, Eq, Structural)]
pub struct RegisterMerchant {
    /// Address of the marketplace registered under.
    pub marketplace_key: Addr,
    /// Derived address of the merchant record being created.
    pub merchant_key: Addr,
    /// Storage bump found for `merchant_key`.
    pub merchant_bump: u8,
    /// The authenticated signer; becomes the merchant's owner.
    pub owner: Addr,
}

impl RegisterMerchant {
    /// What the runtime guarantees before the handler runs: the record
    /// address is derived from the marketplace and the signer's identity.
    pub open spec fn wf(self) -> bool {
        is_merchant_key(self.merchant_key, self.marketplace_key, self.owner)
    }

    /// Runtime-side check of `wf`, for callers outside the verified core.
    pub fn validate(&self) -> (r: bool)
        ensures
            r == self.wf(),
    {
        match (self.merchant_key, self.marketplace_key, self.owner) {
            (
                Addr::MerchantAddr { operator, owner: w },
                Addr::MarketplaceAddr { operator: mp_op },
                Addr::Account(a),
            ) => operator == mp_op && w == a,
            _ => false,
        }
    }
}

/// Registers the caller as a merchant under the marketplace: the new record
/// carries the back-reference and the owner, with `verified` initially
/// false. Uniqueness per (marketplace, owner) comes from the derived record
/// address: creating the record a second time fails at the store.
pub fn register_merchant(ctx: &RegisterMerchant) -> (r: Merchant)
    requires
        ctx.wf(),
    ensures
        r == (Merchant {
            marketplace: ctx.marketplace_key,
            owner: ctx.owner,
            verified: false,
            bump: ctx.merchant_bump,
        }),
{
    Merchant {
        marketplace: ctx.marketplace_key,
        owner: ctx.owner,
        verified: false,
        bump: ctx.merchant_bump,
    }
}

/// Validated request context for `set_merchant_status`: the merchant record,
/// its marketplace, and the authenticated signer, who must be the
/// marketplace authority.
#[derive(Clone, Copy, Debug, PartialEq, Eq, Structural)]
pub struct SetMerchantStatus {
    /// The merchant record being mutated.
    pub merchant: Merchant,
    /// The marketplace the merchant belongs to.
    pub marketplace: Marketplace,
    /// Address of that marketplace record.
    pub marketplace_key: Addr,
    /// The authenticated signer.
    pub authority: Addr,
}

impl SetMerchantStatus {
    /// What the runtime guarantees before the handler runs: the merchant
    /// belongs to the given marketplace and the signer is that marketplace's
    /// authority.
    pub open spec fn wf(self) -> bool {
        &&& self.merchant.marketplace == self.marketplace_key
        &&& self.authority == self.marketplace.authority
    }

    /// Runtime-side check of `wf`, for callers outside the verified core.
    pub fn validate(&self) -> (r: bool)
        ensures
            r == self.wf(),
    {
        self.merchant.marketplace == self.marketplace_key
            && self.authority == self.marketplace.authority
    }
}

/// Sets the merchant's verification flag; operator-only. No side effects on
/// existing listings.
pub fn set_merchant_status(ctx: &mut SetMerchantStatus, verified: bool) -> (r: Result<
    (),
    MarketplaceError,
>)
    requires
        old(ctx).wf(),
    ensures
        r is Ok,
        final(ctx).merchant == (Merchant { verified, ..old(ctx).merchant }),
        final(ctx).marketplace == old(ctx).marketplace,
        final(ctx).marketplace_key == old(ctx).marketplace_key,
        final(ctx).authority == old(ctx).authority,
{
    ctx.merchant.verified = verified;
    Ok(())
}

} // verus!
