//! Marketplace registry: creating a marketplace and updating its fee rate or
//! operator authority.

use vstd::prelude::*;
use crate::addr::Addr;
use crate::addr::is_marketplace_key;
use crate::errors::MarketplaceError;
use crate::fees::MAX_FEE_BPS;

verus! {

/// A marketplace: the operator's record holding the fee rate collected on
/// every completed transfer. One exists per operator-chosen seed; only
/// `authority` may change the fee rate or reassign the authority.
#[derive(Clone, Copy, Debug, PartialEq, Eq, Structural)]
pub struct Marketplace {
    /// The operator identity; the only principal who may mutate this record.
    pub authority: Addr,
    /// Fee rate in basis points, at most `MAX_FEE_BPS` (10%).
    pub fee_bps: u16,
    /// Storage bump of the record's derived address.
    pub bump: u8,
}

impl Marketplace {
    /// Record invariant: the fee rate never exceeds the 10% cap.
    pub open spec fn wf(self) -> bool {
        self.fee_bps <= MAX_FEE_BPS
    }
}

/// Validated request context for `init_marketplace`: the record address the
/// runtime derived for the new marketplace, and the authenticated operator
/// paying for it.
#[derive(Clone, Copy, Debug, PartialEq, Eq, Structural)]
pub struct InitMarketplace {
    /// Derived address of the marketplace record being created.
    pub marketplace_key: Addr,
    /// Storage bump found for `marketplace_key`.
    pub marketplace_bump: u8,
    /// The authenticated signer; becomes the marketplace authority.
    pub authority: Addr,
}

impl InitMarketplace {
    /// What the runtime guarantees before the handler runs: the record
    /// address is derived from the signer's identity.
    pub open spec fn wf(self) -> bool {
        is_marketplace_key(self.marketplace_key, self.authority)
    }

    /// Runtime-side check of `wf`, for callers outside the verified core.
    pub fn validate(&self) -> (r: bool)
        ensures
            r == self.wf(),
    {
        match (self.marketplace_key, self.authority) {
            (Addr::MarketplaceAddr { operator }, Addr::Account(a)) => operator == a,
            _ => false,
        }
    }
}

/// Creates a marketplace with the given fee rate; the caller becomes its
/// authority. Rejects any rate above the 10% cap with `FeeTooHigh` and
/// creates nothing.
pub fn init_marketplace(ctx: &InitMarketplace, fee_bps: u16) -> (r: Result<
    Marketplace,
    MarketplaceError,
>)
    requires
        ctx.wf(),
    ensures
        r is Ok <==> fee_bps <= MAX_FEE_BPS,
        r matches Ok(mp) ==> mp == (Marketplace {
            authority: ctx.authority,
            fee_bps,
            bump: ctx.marketplace_bump,
        }),
        r matches Ok(mp) ==> mp.wf(),
        r is Err ==> r == Err::<Marketplace, MarketplaceError>(MarketplaceError::FeeTooHigh),
{
    if fee_bps > MAX_FEE_BPS {
        return Err(MarketplaceError::FeeTooHigh);
    }
    Ok(Marketplace { authority: ctx.authority, fee_bps, bump: ctx.marketplace_bump })
}

/// Validated request context for `update_marketplace`: the marketplace
/// record and the authenticated signer, who must be its current authority.
#[derive(Clone, Copy, Debug, PartialEq, Eq, Structural)]
pub struct UpdateMarketplace {
    /// The marketplace record being mutated.
    pub marketplace: Marketplace,
    /// The authenticated signer.
    pub authority: Addr,
}

impl UpdateMarketplace {
    /// What the runtime guarantees before the handler runs: the signer is
    /// the marketplace's current authority.
    pub open spec fn wf(self) -> bool {
        self.marketplace.authority == self.authority
    }

    /// Runtime-side check of `wf`, for callers outside the verified core.
    pub fn validate(&self) -> (r: bool)
        ensures
            r == self.wf(),
    {
        self.marketplace.authority == self.authority
    }
}

/// Updates the fee rate and/or reassigns the authority; each field is
/// independently optional and absent fields stay untouched. A present fee
/// rate above the 10% cap is rejected with `FeeTooHigh` and the record is
/// left entirely unchanged.
pub fn update_marketplace(
    ctx: &mut UpdateMarketplace,
    new_fee_bps: Option<u16>,
    new_authority: Option<Addr>,
) -> (r: Result<(), MarketplaceError>)
    requires
        old(ctx).wf(),
    ensures
        r is Ok <==> (new_fee_bps matches Some(b) ==> b <= MAX_FEE_BPS),
        r is Ok ==> final(ctx).marketplace == (Marketplace {
            fee_bps: match new_fee_bps {
                Some(b) => b,
                None => old(ctx).marketplace.fee_bps,
            },
            authority: match new_authority {
                Some(a) => a,
                None => old(ctx).marketplace.authority,
            },
            bump: old(ctx).marketplace.bump,
        }),
        r is Ok && old(ctx).marketplace.wf() ==> final(ctx).marketplace.wf(),
        r is Err ==> *final(ctx) == *old(ctx),
        r is Err ==> r == Err::<(), MarketplaceError>(MarketplaceError::FeeTooHigh),
        final(ctx).authority == old(ctx).authority,
{
    if let Some(bps) = new_fee_bps {
        if bps > MAX_FEE_BPS {
            return Err(MarketplaceError::FeeTooHigh);
        }
        ctx.marketplace.fee_bps = bps;
    }
    if let Some(auth) = new_authority {
        ctx.marketplace.authority = auth;
    }
    Ok(())
}

} // verus!
