//! Error taxonomy.
//!
//! Every precondition check is local and fail-fast; a failure aborts the
//! whole request and the caller discards every effect, so no error is ever
//! recoverable in place. `MarketplaceError` is the protocol's own taxonomy;
//! `StorageError` is what the record store reports when a creation collides
//! with an existing record or a lookup misses.

use vstd::prelude::*;

verus! {

/// Protocol failure codes. Each operation's contract states exactly which
/// inputs produce which code.
#[derive(Clone, Copy, Debug, PartialEq, Eq, Structural)]
pub enum MarketplaceError {
    /// Fee rate above the 10% cap.
    FeeTooHigh,
    /// Zero price.
    InvalidAmount,
    /// Zero quantity, or more than the available stock.
    InvalidQuantity,
    /// The listing is inactive.
    ListingInactive,
    /// Cross-marketplace reference mismatch.
    WrongMarketplace,
    /// Checked arithmetic failed on a multiply or subtract.
    MathOverflow,
    /// Re-entry into a terminal escrow state.
    AlreadyReleased,
    /// A goods operation was attempted on a service listing's escrow flow.
    WrongFlowForGoods,
    /// A service operation was attempted on the goods buy-now flow.
    WrongFlowForService,
    /// Asset-holding account ownership or asset mismatch.
    InvalidAccount,
    /// The correlation beacon account is absent from the request.
    MissingReference,
    /// The correlation beacon account does not match the declared reference.
    WrongReference,
}

impl MarketplaceError {
    /// Human-readable message for the taxonomy code.
    pub fn message(&self) -> &'static str {
        match self {
            MarketplaceError::FeeTooHigh => "Fee too high (max 10%)",
            MarketplaceError::InvalidAmount => "Invalid amount",
            MarketplaceError::InvalidQuantity => "Invalid quantity",
            MarketplaceError::ListingInactive => "Listing is inactive",
            MarketplaceError::WrongMarketplace => "Wrong marketplace",
            MarketplaceError::MathOverflow => "Math overflow",
            MarketplaceError::AlreadyReleased => "Already released",
            MarketplaceError::WrongFlowForGoods => "Use service escrow flow",
            MarketplaceError::WrongFlowForService => "Use goods buy-now flow",
            MarketplaceError::InvalidAccount => "Invalid Account",
            MarketplaceError::MissingReference => "Missing reference account in request",
            MarketplaceError::WrongReference => "Provided reference does not match request entry",
        }
    }
}

/// Record-store failure codes, reported by the runtime model rather than the
/// protocol itself: record creation uses init semantics and fails if the
/// derived address is already occupied; mutation and destruction require the
/// record to exist.
#[derive(Clone, Copy, Debug, PartialEq, Eq, Structural)]
pub enum StorageError {
    /// A record already lives at the derived address.
    AlreadyExists,
    /// No record lives at the given address.
    NotFound,
}

} // verus!
