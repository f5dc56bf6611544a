//! Escrow engine: the three-state service-order lifecycle.
//!
//! A service order locks the listing price into a vault — a holding account
//! exclusively controlled by the escrow record's derived address, so no
//! private key can ever debit it. The escrow then either releases, paying
//! seller and treasury out of the vault, or cancels, refunding the buyer in
//! full; both terminal steps close the vault and hand its storage cost back
//! to the buyer, and cancellation destroys the escrow record itself. No
//! transition leaves a terminal state: a settled escrow only ever answers
//! `AlreadyReleased`.

use vstd::prelude::*;
use crate::addr::Addr;
use crate::addr::is_escrow_key;
use crate::errors::MarketplaceError;
use crate::events::ServiceOrderCancelled;
use crate::events::ServiceOrderCreated;
use crate::events::ServiceOrderReleased;
use crate::fees::compute_split;
use crate::fees::fee_amount;
use crate::fees::lemma_fee_le_total;
use crate::fees::seller_amount;
use crate::listing::Listing;
use crate::marketplace::Marketplace;
use crate::token::TokenAccount;
use crate::token::TransferInstr;

verus! {

/// An escrowed service order. Keyed by (listing, buyer), so a buyer holds at
/// most one open escrow per listing at a time. `amount` is fixed at creation
/// and never changes; `released` moves false→true exactly once.
#[derive(Clone, Copy, Debug, PartialEq, Eq, Structural)]
pub struct Escrow {
    /// Back-reference to the marketplace of the listing ordered from.
    pub marketplace: Addr,
    /// The listing the order was placed against.
    pub listing: Addr,
    /// The merchant owed the payment on release.
    pub seller: Addr,
    /// The buyer whose funds sit in the vault.
    pub buyer: Addr,
    /// The fungible asset locked in the vault.
    pub mint: Addr,
    /// Amount locked at creation; immutable for the record's lifetime.
    pub amount: u64,
    /// Opaque correlation id supplied by the caller, echoed in events.
    pub reference: Addr,
    /// False while the order is open; true once settled.
    pub released: bool,
    /// Storage bump of the record's derived address.
    pub bump: u8,
}

/// An open escrow may still settle; a settled one never again.
pub open spec fn can_settle(e: Escrow) -> bool {
    !e.released
}

/// The one mutation a settlement applies to the record: the monotonic flag
/// flips, every other field — the amount above all — stays fixed.
pub open spec fn settle(e: Escrow) -> Escrow {
    Escrow { released: true, ..e }
}

/// Settlement is terminal: the flag moves false→true and can never move
/// back, so `released` flips at most once in an escrow's life, and a second
/// release or cancel finds `can_settle` false and fails with
/// `AlreadyReleased` by the handlers' contracts. The locked amount is
/// untouched by the transition.
pub proof fn lemma_settlement_is_terminal(e: Escrow)
    requires
        can_settle(e),
    ensures
        !can_settle(settle(e)),
        settle(settle(e)) == settle(e),
        settle(e).amount == e.amount,
{
}

impl Escrow {
    /// Reads the fee rate that applies to this escrow from the marketplace
    /// record at `marketplace_key`, rejecting a record from another
    /// marketplace with `WrongMarketplace`. The rate read is the
    /// marketplace's current one, not the rate at order creation.
    pub fn get_fee_bps(&self, marketplace: &Marketplace, marketplace_key: Addr) -> (r: Result<
        u16,
        MarketplaceError,
    >)
        ensures
            r is Ok <==> self.marketplace == marketplace_key,
            r matches Ok(bps) ==> bps == marketplace.fee_bps,
            r is Err ==> r == Err::<u16, MarketplaceError>(MarketplaceError::WrongMarketplace),
    {
        if self.marketplace == marketplace_key {
            Ok(marketplace.fee_bps)
        } else {
            Err(MarketplaceError::WrongMarketplace)
        }
    }
}

/// Validated request context for `create_service_order`: the service
/// listing and its marketplace, the authenticated buyer, the buyer's asset
/// account, the escrow record address the runtime derived, and the freshly
/// created vault that address controls.
#[derive(Clone, Copy, Debug, PartialEq, Eq, Structural)]
pub struct CreateServiceOrder {
    /// Address of the marketplace the listing belongs to.
    pub marketplace_key: Addr,
    /// The service listing being ordered from.
    pub listing: Listing,
    /// Address of that listing record.
    pub listing_key: Addr,
    /// The authenticated signer placing and paying for the order.
    pub buyer: Addr,
    /// The buyer's asset-holding account, debited into the vault.
    pub buyer_ata: TokenAccount,
    /// Derived address of the escrow record being created.
    pub escrow_key: Addr,
    /// Storage bump found for `escrow_key`.
    pub escrow_bump: u8,
    /// The holding account created alongside the escrow, exclusively
    /// controlled by `escrow_key`.
    pub vault: TokenAccount,
    /// The fungible asset being locked.
    pub mint: Addr,
    /// The first extra account of the request, if any: the correlation
    /// beacon that must equal the declared reference.
    pub reference_account: Option<Addr>,
}

impl CreateServiceOrder {
    /// What the runtime guarantees before the handler runs: the listing
    /// belongs to the marketplace, the buyer's account is the buyer's own
    /// and holds the paid asset, the escrow address is derived from listing
    /// and buyer, and the vault is that escrow's own account for the asset.
    pub open spec fn wf(self) -> bool {
        &&& self.listing.marketplace == self.marketplace_key
        &&& self.buyer_ata.owner == self.buyer
        &&& self.buyer_ata.mint == self.mint
        &&& is_escrow_key(self.escrow_key, self.listing_key, self.buyer)
        &&& self.vault.owner == self.escrow_key
        &&& self.vault.mint == self.mint
    }

    /// Runtime-side check of `wf`, for callers outside the verified core.
    pub fn validate(&self) -> (r: bool)
        ensures
            r == self.wf(),
    {
        let derived = match (self.escrow_key, self.listing_key, self.buyer) {
            (
                Addr::EscrowAddr { operator, owner, mint, buyer: b },
                Addr::ListingAddr { operator: l_op, owner: l_owner, mint: l_mint },
                Addr::Account(a),
            ) => operator == l_op && owner == l_owner && mint == l_mint && b == a,
            _ => false,
        };
        self.listing.marketplace == self.marketplace_key && self.buyer_ata.owner == self.buyer
            && self.buyer_ata.mint == self.mint && derived && self.vault.owner == self.escrow_key
            && self.vault.mint == self.mint
    }
}

/// Everything a placed service order asks of the surrounding runtime: the
/// escrow record to create, the debit locking the price into the vault, and
/// the event, committed atomically.
#[derive(Clone, Copy, Debug, PartialEq, Eq, Structural)]
pub struct ServiceOrderOutcome {
    /// The new escrow record, to be created at the derived address with
    /// init semantics: creation fails if a record already lives there.
    pub escrow: Escrow,
    /// Locks the full listing price from the buyer's account into the vault.
    pub payment: TransferInstr,
    /// The notification appended for off-chain consumers.
    pub event: ServiceOrderCreated,
}

/// Why a `create_service_order` request is rejected, if it is: the first
/// failing check in the engine's order, or `None` when every check passes.
pub open spec fn order_rejection(ctx: CreateServiceOrder, reference: Addr) -> Option<
    MarketplaceError,
> {
    if !ctx.listing.active {
        Some(MarketplaceError::ListingInactive)
    } else if !ctx.listing.is_service {
        Some(MarketplaceError::WrongFlowForGoods)
    } else if ctx.reference_account is None {
        Some(MarketplaceError::MissingReference)
    } else if ctx.reference_account != Some(reference) {
        Some(MarketplaceError::WrongReference)
    } else {
        None
    }
}

/// Places a service order: checks the listing state and the correlation
/// beacon, then locks the full listing price into the vault and initializes
/// the escrow record with `released` false and `amount` fixed to the price.
/// On any rejection nothing is created and no transfer is instructed.
pub fn create_service_order(ctx: &CreateServiceOrder, reference: Addr) -> (r: Result<
    ServiceOrderOutcome,
    MarketplaceError,
>)
    requires
        ctx.wf(),
    ensures
        r is Err <==> order_rejection(*ctx, reference) is Some,
        r matches Err(e) ==> Some(e) == order_rejection(*ctx, reference),
        r matches Ok(outcome) ==> {
            &&& outcome.escrow == (Escrow {
                marketplace: ctx.marketplace_key,
                listing: ctx.listing_key,
                seller: ctx.listing.seller,
                buyer: ctx.buyer,
                mint: ctx.mint,
                amount: ctx.listing.price,
                reference,
                released: false,
                bump: ctx.escrow_bump,
            })
            &&& can_settle(outcome.escrow)
            &&& outcome.payment == (TransferInstr {
                from: ctx.buyer_ata.key,
                to: ctx.vault.key,
                authority: ctx.buyer,
                amount: ctx.listing.price,
            })
            &&& outcome.event == (ServiceOrderCreated {
                marketplace: ctx.marketplace_key,
                listing: ctx.listing_key,
                buyer: ctx.buyer,
                seller: ctx.listing.seller,
                mint: ctx.mint,
                amount: ctx.listing.price,
                reference,
                escrow: ctx.escrow_key,
            })
        },
{
    if !ctx.listing.active {
        return Err(MarketplaceError::ListingInactive);
    }
    if !ctx.listing.is_service {
        return Err(MarketplaceError::WrongFlowForGoods);
    }
    let beacon = match ctx.reference_account {
        Some(b) => b,
        None => {
            return Err(MarketplaceError::MissingReference);
        },
    };
    if beacon != reference {
        return Err(MarketplaceError::WrongReference);
    }
    let total_price = ctx.listing.price;
    let escrow = Escrow {
        marketplace: ctx.marketplace_key,
        listing: ctx.listing_key,
        seller: ctx.listing.seller,
        buyer: ctx.buyer,
        mint: ctx.mint,
        amount: total_price,
        reference,
        released: false,
        bump: ctx.escrow_bump,
    };
    let payment = TransferInstr {
        from: ctx.buyer_ata.key,
        to: ctx.vault.key,
        authority: ctx.buyer,
        amount: total_price,
    };
    let event = ServiceOrderCreated {
        marketplace: ctx.marketplace_key,
        listing: ctx.listing_key,
        buyer: escrow.buyer,
        seller: escrow.seller,
        mint: escrow.mint,
        amount: escrow.amount,
        reference,
        escrow: ctx.escrow_key,
    };
    Ok(ServiceOrderOutcome { escrow, payment, event })
}

/// Validated request context for `release_service_order`: the escrow and
/// its marketplace, the authenticated payer — buyer or operator, so the
/// operator can mediate disputes — the buyer account owed the vault's
/// storage cost, and the asset accounts paid out of the vault.
#[derive(Clone, Copy, Debug, PartialEq, Eq, Structural)]
pub struct ReleaseServiceOrder {
    /// The escrow being released; mutated on success.
    pub escrow: Escrow,
    /// Address of that escrow record.
    pub escrow_key: Addr,
    /// The marketplace the escrow belongs to; its current fee rate applies.
    pub marketplace: Marketplace,
    /// Address of that marketplace record.
    pub marketplace_key: Addr,
    /// Address of the listing the order was placed against.
    pub listing_key: Addr,
    /// The authenticated signer triggering the release.
    pub payer: Addr,
    /// Destination of the vault's storage refund; the escrow's buyer.
    pub buyer: Addr,
    /// The seller's asset-holding account, credited with the seller share;
    /// the engine rejects one that is not the escrow's seller's own account
    /// for the escrowed asset.
    pub seller_ata: TokenAccount,
    /// The operator's asset-holding account, credited with the fee.
    pub treasury_ata: TokenAccount,
    /// The holding account debited and then closed.
    pub vault: TokenAccount,
}

impl ReleaseServiceOrder {
    /// What the runtime guarantees before the handler runs: the signer is
    /// the buyer or the marketplace authority, the refund destination is the
    /// buyer, the treasury account is the operator's for the escrowed asset,
    /// and the vault is controlled by the escrow's address. Whether the
    /// escrow belongs to the given marketplace, and whether the seller's
    /// account is the seller's own, are the engine's own checks.
    pub open spec fn wf(self) -> bool {
        &&& (self.payer == self.escrow.buyer || self.payer == self.marketplace.authority)
        &&& self.buyer == self.escrow.buyer
        &&& self.treasury_ata.owner == self.marketplace.authority
        &&& self.treasury_ata.mint == self.escrow.mint
        &&& self.vault.owner == self.escrow_key
    }

    /// Runtime-side check of `wf`, for callers outside the verified core.
    pub fn validate(&self) -> (r: bool)
        ensures
            r == self.wf(),
    {
        (self.payer == self.escrow.buyer || self.payer == self.marketplace.authority)
            && self.buyer == self.escrow.buyer && self.treasury_ata.owner
            == self.marketplace.authority && self.treasury_ata.mint == self.escrow.mint
            && self.vault.owner == self.escrow_key
    }
}

/// Everything a release asks of the surrounding runtime: the vault debits,
/// the vault closure refunding its storage cost, and the event, committed
/// atomically together with the flag mutation — if any transfer fails, the
/// flag mutation is discarded with everything else.
#[derive(Clone, Copy, Debug, PartialEq, Eq, Structural)]
pub struct ReleaseOutcome {
    /// Pays the seller share out of the vault, authorized by the escrow's
    /// derived address.
    pub seller_payment: TransferInstr,
    /// Pays the fee out of the vault to the treasury; absent when the fee
    /// truncates to zero.
    pub fee_payment: Option<TransferInstr>,
    /// The vault is closed and its storage cost refunded to this account:
    /// the buyer.
    pub vault_closed_to: Addr,
    /// The notification appended for off-chain consumers.
    pub event: ServiceOrderReleased,
}

/// Why a `release_service_order` request is rejected, if it is: the first
/// failing check in the engine's order, or `None` when every check passes.
pub open spec fn release_rejection(ctx: ReleaseServiceOrder) -> Option<MarketplaceError> {
    if ctx.escrow.released {
        Some(MarketplaceError::AlreadyReleased)
    } else if !(ctx.seller_ata.owner == ctx.escrow.seller && ctx.seller_ata.mint
        == ctx.escrow.mint) {
        Some(MarketplaceError::InvalidAccount)
    } else if ctx.escrow.marketplace != ctx.marketplace_key {
        Some(MarketplaceError::WrongMarketplace)
    } else if (ctx.escrow.amount as int) * (ctx.marketplace.fee_bps as int) > u64::MAX {
        Some(MarketplaceError::MathOverflow)
    } else {
        None
    }
}

/// Releases an open escrow: checks that the seller's account really is the
/// escrow's seller's own account for the escrowed asset (else
/// `InvalidAccount`) and that the marketplace is the escrow's (else
/// `WrongMarketplace`), splits the locked amount at the marketplace's
/// current fee rate, pays seller and treasury out of the vault, closes the
/// vault refunding its storage cost to the buyer, and sets `released`. An
/// already-settled escrow answers `AlreadyReleased`. On any rejection the
/// escrow is untouched and no transfer is instructed.
pub fn release_service_order(ctx: &mut ReleaseServiceOrder) -> (r: Result<
    ReleaseOutcome,
    MarketplaceError,
>)
    requires
        old(ctx).wf(),
        old(ctx).marketplace.wf(),
    ensures
        r is Err <==> release_rejection(*old(ctx)) is Some,
        r matches Err(e) ==> Some(e) == release_rejection(*old(ctx)),
        r is Err ==> *final(ctx) == *old(ctx),
        r is Ok ==> can_settle(old(ctx).escrow),
        r is Ok ==> *final(ctx) == (ReleaseServiceOrder {
            escrow: settle(old(ctx).escrow),
            ..*old(ctx)
        }),
        r matches Ok(outcome) ==> {
            let amount = old(ctx).escrow.amount;
            let bps = old(ctx).marketplace.fee_bps;
            let fee = fee_amount(amount, bps);
            &&& outcome.seller_payment == (TransferInstr {
                from: old(ctx).vault.key,
                to: old(ctx).seller_ata.key,
                authority: old(ctx).escrow_key,
                amount: seller_amount(amount, bps) as u64,
            })
            &&& outcome.fee_payment == (if fee > 0 {
                Some(
                    TransferInstr {
                        from: old(ctx).vault.key,
                        to: old(ctx).treasury_ata.key,
                        authority: old(ctx).escrow_key,
                        amount: fee as u64,
                    },
                )
            } else {
                None::<TransferInstr>
            })
            &&& outcome.seller_payment.amount + fee == amount
            &&& outcome.vault_closed_to == old(ctx).buyer
            &&& outcome.event == (ServiceOrderReleased {
                marketplace: old(ctx).marketplace_key,
                escrow: old(ctx).escrow_key,
                buyer: old(ctx).escrow.buyer,
                seller: old(ctx).escrow.seller,
                mint: old(ctx).escrow.mint,
                amount,
                reference: old(ctx).escrow.reference,
            })
        },
{
    if ctx.escrow.released {
        return Err(MarketplaceError::AlreadyReleased);
    }
    if !(ctx.seller_ata.owner == ctx.escrow.seller && ctx.seller_ata.mint == ctx.escrow.mint) {
        return Err(MarketplaceError::InvalidAccount);
    }
    let amount = ctx.escrow.amount;
    let fee_bps = match ctx.escrow.get_fee_bps(&ctx.marketplace, ctx.marketplace_key) {
        Ok(b) => b,
        Err(e) => {
            return Err(e);
        },
    };
    proof {
        lemma_fee_le_total(amount, fee_bps);
    }
    let (seller_share, fee) = match compute_split(amount, fee_bps) {
        Ok(split) => split,
        Err(e) => {
            return Err(e);
        },
    };
    let seller_payment = TransferInstr {
        from: ctx.vault.key,
        to: ctx.seller_ata.key,
        authority: ctx.escrow_key,
        amount: seller_share,
    };
    let fee_payment = if fee > 0 {
        Some(
            TransferInstr {
                from: ctx.vault.key,
                to: ctx.treasury_ata.key,
                authority: ctx.escrow_key,
                amount: fee,
            },
        )
    } else {
        None
    };
    ctx.escrow.released = true;
    let event = ServiceOrderReleased {
        marketplace: ctx.marketplace_key,
        escrow: ctx.escrow_key,
        buyer: ctx.escrow.buyer,
        seller: ctx.escrow.seller,
        mint: ctx.escrow.mint,
        amount,
        reference: ctx.escrow.reference,
    };
    Ok(ReleaseOutcome { seller_payment, fee_payment, vault_closed_to: ctx.buyer, event })
}

/// Validated request context for `cancel_service_order`: the escrow and its
/// marketplace, the authenticated payer — buyer or operator — and the
/// accounts refunded out of the vault.
#[derive(Clone, Copy, Debug, PartialEq, Eq, Structural)]
pub struct CancelServiceOrder {
    /// The escrow being cancelled; settled and then destroyed on success.
    pub escrow: Escrow,
    /// Address of that escrow record.
    pub escrow_key: Addr,
    /// The marketplace the escrow belongs to.
    pub marketplace: Marketplace,
    /// Address of that marketplace record.
    pub marketplace_key: Addr,
    /// The authenticated signer triggering the cancellation.
    pub payer: Addr,
    /// Destination of the storage refunds; the escrow's buyer.
    pub buyer: Addr,
    /// The buyer's asset-holding account, refunded in full.
    pub buyer_ata: TokenAccount,
    /// The holding account refunded and then closed.
    pub vault: TokenAccount,
}

impl CancelServiceOrder {
    /// What the runtime guarantees before the handler runs: the escrow
    /// belongs to the given marketplace, the signer is the buyer or the
    /// marketplace authority, the refund destinations are the buyer's, and
    /// the vault is controlled by the escrow's address.
    pub open spec fn wf(self) -> bool {
        &&& self.escrow.marketplace == self.marketplace_key
        &&& (self.payer == self.escrow.buyer || self.payer == self.marketplace.authority)
        &&& self.buyer == self.escrow.buyer
        &&& self.buyer_ata.owner == self.escrow.buyer
        &&& self.buyer_ata.mint == self.escrow.mint
        &&& self.vault.owner == self.escrow_key
    }

    /// Runtime-side check of `wf`, for callers outside the verified core.
    pub fn validate(&self) -> (r: bool)
        ensures
            r == self.wf(),
    {
        self.escrow.marketplace == self.marketplace_key && (self.payer == self.escrow.buyer
            || self.payer == self.marketplace.authority) && self.buyer == self.escrow.buyer
            && self.buyer_ata.owner == self.escrow.buyer && self.buyer_ata.mint
            == self.escrow.mint && self.vault.owner == self.escrow_key
    }
}

/// Everything a cancellation asks of the surrounding runtime: the full
/// refund, the closure of vault and escrow record with their storage costs
/// refunded to the buyer, and the event, committed atomically.
#[derive(Clone, Copy, Debug, PartialEq, Eq, Structural)]
pub struct CancelOutcome {
    /// Refunds the full locked amount from the vault to the buyer's asset
    /// account, authorized by the escrow's derived address; no fee is
    /// charged.
    pub refund: TransferInstr,
    /// The vault is closed and its storage cost refunded to this account:
    /// the buyer.
    pub vault_closed_to: Addr,
    /// The escrow record itself is destroyed and its storage cost refunded
    /// to this account: the buyer. Re-creating it requires init semantics at
    /// the same derived address, so a destroyed escrow cannot be
    /// resurrected with old state.
    pub escrow_closed_to: Addr,
    /// The notification appended for off-chain consumers.
    pub event: ServiceOrderCancelled,
}

/// Why a `cancel_service_order` request is rejected, if it is: only
/// terminal-state re-entry remains under a well-formed context.
pub open spec fn cancel_rejection(ctx: CancelServiceOrder) -> Option<MarketplaceError> {
    if ctx.escrow.released {
        Some(MarketplaceError::AlreadyReleased)
    } else {
        None
    }
}

/// Cancels an open escrow: refunds the full locked amount to the buyer with
/// no fee charged, closes the vault and destroys the escrow record, both
/// storage costs going back to the buyer. An already-settled escrow answers
/// `AlreadyReleased`, untouched and with no transfer instructed.
pub fn cancel_service_order(ctx: &mut CancelServiceOrder) -> (r: Result<
    CancelOutcome,
    MarketplaceError,
>)
    requires
        old(ctx).wf(),
    ensures
        r is Err <==> cancel_rejection(*old(ctx)) is Some,
        r matches Err(e) ==> Some(e) == cancel_rejection(*old(ctx)),
        r is Err ==> *final(ctx) == *old(ctx),
        r is Ok ==> can_settle(old(ctx).escrow),
        r is Ok ==> *final(ctx) == (CancelServiceOrder {
            escrow: settle(old(ctx).escrow),
            ..*old(ctx)
        }),
        r matches Ok(outcome) ==> {
            &&& outcome.refund == (TransferInstr {
                from: old(ctx).vault.key,
                to: old(ctx).buyer_ata.key,
                authority: old(ctx).escrow_key,
                amount: old(ctx).escrow.amount,
            })
            &&& outcome.vault_closed_to == old(ctx).buyer
            &&& outcome.escrow_closed_to == old(ctx).buyer
            &&& outcome.event == (ServiceOrderCancelled {
                marketplace: old(ctx).marketplace_key,
                escrow: old(ctx).escrow_key,
                buyer: old(ctx).escrow.buyer,
                amount: old(ctx).escrow.amount,
                reference: old(ctx).escrow.reference,
            })
        },
{
    if ctx.escrow.released {
        return Err(MarketplaceError::AlreadyReleased);
    }
    let amount = ctx.escrow.amount;
    let refund = TransferInstr {
        from: ctx.vault.key,
        to: ctx.buyer_ata.key,
        authority: ctx.escrow_key,
        amount,
    };
    ctx.escrow.released = true;
    let event = ServiceOrderCancelled {
        marketplace: ctx.marketplace_key,
        escrow: ctx.escrow_key,
        buyer: ctx.escrow.buyer,
        amount,
        reference: ctx.escrow.reference,
    };
    Ok(
        CancelOutcome {
            refund,
            vault_closed_to: ctx.buyer,
            escrow_closed_to: ctx.buyer,
            event,
        },
    )
}

} // verus!
