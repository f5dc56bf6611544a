//! Direct-sale engine: immediate goods purchases against a listing.
//!
//! A sale decrements inventory and instructs the transfer service to pay the
//! seller and, when the fee is positive, the marketplace treasury, both out
//! of the buyer's own asset account under the buyer's own signature. Every
//! check precedes every effect: a rejected request leaves the listing
//! untouched and instructs no transfer.

use vstd::prelude::*;
use crate::addr::Addr;
use crate::errors::MarketplaceError;
use crate::events::OrderCompleted;
use crate::fees::compute_split;
use crate::fees::fee_amount;
use crate::fees::lemma_fee_le_total;
use crate::fees::seller_amount;
use crate::listing::Listing;
use crate::marketplace::Marketplace;
use crate::token::TokenAccount;
use crate::token::TransferInstr;

verus! {

/// Validated request context for `buy_now`: the listing and its
/// marketplace, the authenticated buyer, the asset-holding accounts
/// involved, and the first extra account of the request, carried as the
/// correlation beacon.
#[derive(Clone, Copy, Debug, PartialEq, Eq, Structural)]
pub struct BuyNow {
    /// The listing being bought from; mutated on success.
    pub listing: Listing,
    /// Address of that listing record.
    pub listing_key: Addr,
    /// The marketplace the listing belongs to.
    pub marketplace: Marketplace,
    /// Address of that marketplace record.
    pub marketplace_key: Addr,
    /// The authenticated signer paying for the purchase.
    pub buyer: Addr,
    /// The buyer's asset-holding account, debited for the purchase.
    pub buyer_ata: TokenAccount,
    /// The seller's asset-holding account, credited with the seller share.
    pub seller_ata: TokenAccount,
    /// The operator's asset-holding account, credited with the fee.
    pub treasury_ata: TokenAccount,
    /// The fungible asset being paid.
    pub mint: Addr,
    /// The first extra account of the request, if any: the correlation
    /// beacon that must equal the declared reference.
    pub reference_account: Option<Addr>,
}

impl BuyNow {
    /// What the runtime guarantees before the handler runs: the listing is
    /// for the given asset, the buyer's account is the buyer's own and holds
    /// that asset, and the treasury account is the operator's and holds that
    /// asset. Whether the listing belongs to the given marketplace is the
    /// engine's own check, answered with `WrongMarketplace`.
    pub open spec fn wf(self) -> bool {
        &&& self.listing.mint == self.mint
        &&& self.buyer_ata.owner == self.buyer
        &&& self.buyer_ata.mint == self.mint
        &&& self.treasury_ata.owner == self.marketplace.authority
        &&& self.treasury_ata.mint == self.mint
    }

    /// Runtime-side check of `wf`, for callers outside the verified core.
    pub fn validate(&self) -> (r: bool)
        ensures
            r == self.wf(),
    {
        self.listing.mint == self.mint && self.buyer_ata.owner == self.buyer
            && self.buyer_ata.mint == self.mint && self.treasury_ata.owner
            == self.marketplace.authority && self.treasury_ata.mint == self.mint
    }
}

/// Everything a completed sale asks of the surrounding runtime: the debits
/// to execute and the event to append, committed atomically together with
/// the listing mutation.
#[derive(Clone, Copy, Debug, PartialEq, Eq, Structural)]
pub struct SaleOutcome {
    /// Pays the seller share from the buyer's account.
    pub seller_payment: TransferInstr,
    /// Pays the fee from the buyer's account to the treasury; absent when
    /// the fee truncates to zero.
    pub fee_payment: Option<TransferInstr>,
    /// The notification appended for off-chain consumers.
    pub event: OrderCompleted,
}

/// Why a `buy_now` request is rejected, if it is: the first failing check in
/// the engine's order, or `None` when every check passes.
pub open spec fn sale_rejection(ctx: BuyNow, quantity: u32, reference: Addr) -> Option<
    MarketplaceError,
> {
    if !ctx.listing.active {
        Some(MarketplaceError::ListingInactive)
    } else if ctx.listing.is_service {
        Some(MarketplaceError::WrongFlowForService)
    } else if !(quantity > 0 && quantity <= ctx.listing.quantity) {
        Some(MarketplaceError::InvalidQuantity)
    } else if ctx.reference_account is None {
        Some(MarketplaceError::MissingReference)
    } else if ctx.reference_account != Some(reference) {
        Some(MarketplaceError::WrongReference)
    } else if !(ctx.seller_ata.owner == ctx.listing.seller && ctx.seller_ata.mint
        == ctx.listing.mint) {
        Some(MarketplaceError::InvalidAccount)
    } else if (ctx.listing.price as int) * (quantity as int) > u64::MAX {
        Some(MarketplaceError::MathOverflow)
    } else if ctx.listing.marketplace != ctx.marketplace_key {
        Some(MarketplaceError::WrongMarketplace)
    } else if (ctx.listing.price as int) * (quantity as int) * (ctx.marketplace.fee_bps as int)
        > u64::MAX {
        Some(MarketplaceError::MathOverflow)
    } else {
        None
    }
}

/// Executes an immediate goods purchase: checks the listing state, the
/// correlation beacon, the seller's account and the listing's marketplace,
/// computes the overflow-checked
/// total and its fee split, decrements the inventory — auto-clearing
/// `active` when stock reaches zero — and returns the debits and the event.
/// On any rejection the context is left entirely unchanged and no transfer
/// is instructed.
pub fn buy_now(ctx: &mut BuyNow, quantity: u32, reference: Addr) -> (r: Result<
    SaleOutcome,
    MarketplaceError,
>)
    requires
        old(ctx).wf(),
        old(ctx).marketplace.wf(),
    ensures
        r is Err <==> sale_rejection(*old(ctx), quantity, reference) is Some,
        r matches Err(e) ==> Some(e) == sale_rejection(*old(ctx), quantity, reference),
        r is Err ==> *final(ctx) == *old(ctx),
        r matches Ok(outcome) ==> {
            let total = old(ctx).listing.price * quantity;
            let bps = old(ctx).marketplace.fee_bps;
            let fee = fee_amount(total as u64, bps);
            &&& total <= u64::MAX
            &&& outcome.seller_payment == (TransferInstr {
                from: old(ctx).buyer_ata.key,
                to: old(ctx).seller_ata.key,
                authority: old(ctx).buyer,
                amount: seller_amount(total as u64, bps) as u64,
            })
            &&& outcome.fee_payment == (if fee > 0 {
                Some(
                    TransferInstr {
                        from: old(ctx).buyer_ata.key,
                        to: old(ctx).treasury_ata.key,
                        authority: old(ctx).buyer,
                        amount: fee as u64,
                    },
                )
            } else {
                None::<TransferInstr>
            })
            &&& outcome.seller_payment.amount + fee == total
            &&& outcome.event == (OrderCompleted {
                marketplace: old(ctx).marketplace_key,
                listing: old(ctx).listing_key,
                buyer: old(ctx).buyer,
                seller: old(ctx).listing.seller,
                mint: old(ctx).mint,
                quantity,
                total_amount: total as u64,
                reference,
            })
        },
        r is Ok ==> *final(ctx) == (BuyNow {
            listing: Listing {
                quantity: (old(ctx).listing.quantity - quantity) as u32,
                active: old(ctx).listing.quantity > quantity,
                ..old(ctx).listing
            },
            ..*old(ctx)
        }),
{
    if !ctx.listing.active {
        return Err(MarketplaceError::ListingInactive);
    }
    if ctx.listing.is_service {
        return Err(MarketplaceError::WrongFlowForService);
    }
    if !(quantity > 0 && quantity <= ctx.listing.quantity) {
        return Err(MarketplaceError::InvalidQuantity);
    }
    let beacon = match ctx.reference_account {
        Some(b) => b,
        None => {
            return Err(MarketplaceError::MissingReference);
        },
    };
    if beacon != reference {
        return Err(MarketplaceError::WrongReference);
    }
    if !(ctx.seller_ata.owner == ctx.listing.seller && ctx.seller_ata.mint == ctx.listing.mint) {
        return Err(MarketplaceError::InvalidAccount);
    }
    let total_price = match ctx.listing.price.checked_mul(quantity as u64) {
        Some(t) => t,
        None => {
            return Err(MarketplaceError::MathOverflow);
        },
    };
    let fee_bps = match ctx.listing.get_fee_bps(&ctx.marketplace, ctx.marketplace_key) {
        Ok(b) => b,
        Err(e) => {
            return Err(e);
        },
    };
    proof {
        lemma_fee_le_total(total_price, fee_bps);
    }
    let (seller_share, fee) = match compute_split(total_price, fee_bps) {
        Ok(split) => split,
        Err(e) => {
            return Err(e);
        },
    };
    let seller_payment = TransferInstr {
        from: ctx.buyer_ata.key,
        to: ctx.seller_ata.key,
        authority: ctx.buyer,
        amount: seller_share,
    };
    let fee_payment = if fee > 0 {
        Some(
            TransferInstr {
                from: ctx.buyer_ata.key,
                to: ctx.treasury_ata.key,
                authority: ctx.buyer,
                amount: fee,
            },
        )
    } else {
        None
    };
    ctx.listing.quantity = ctx.listing.quantity - quantity;
    if ctx.listing.quantity == 0 {
        ctx.listing.active = false;
    }
    let event = OrderCompleted {
        marketplace: ctx.marketplace_key,
        listing: ctx.listing_key,
        buyer: ctx.buyer,
        seller: ctx.listing.seller,
        mint: ctx.mint,
        quantity,
        total_amount: total_price,
        reference,
    };
    Ok(SaleOutcome { seller_payment, fee_payment, event })
}

} // verus!
