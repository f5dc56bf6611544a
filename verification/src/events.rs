//! Events: append-only notifications of state transitions for off-chain
//! consumers. Every completed operation emits exactly one event; each event
//! echoes the caller-supplied correlation reference so off-chain trackers
//! can bind a payment to a request.

use vstd::prelude::*;
use crate::addr::Addr;

verus! {

/// A direct goods purchase completed.
#[derive(Clone, Copy, Debug, PartialEq, Eq, Structural)]
pub struct OrderCompleted {
    pub marketplace: Addr,
    pub listing: Addr,
    pub buyer: Addr,
    pub seller: Addr,
    pub mint: Addr,
    pub quantity: u32,
    pub total_amount: u64,
    pub reference: Addr,
}

/// A service order was placed and its price locked into the vault.
#[derive(Clone, Copy, Debug, PartialEq, Eq, Structural)]
pub struct ServiceOrderCreated {
    pub marketplace: Addr,
    pub listing: Addr,
    pub buyer: Addr,
    pub seller: Addr,
    pub mint: Addr,
    pub amount: u64,
    pub reference: Addr,
    pub escrow: Addr,
}

/// An escrow was released: the vault paid out to seller and treasury.
#[derive(Clone, Copy, Debug, PartialEq, Eq, Structural)]
pub struct ServiceOrderReleased {
    pub marketplace: Addr,
    pub escrow: Addr,
    pub buyer: Addr,
    pub seller: Addr,
    pub mint: Addr,
    pub amount: u64,
    pub reference: Addr,
}

/// An escrow was cancelled: the vault refunded the buyer in full.
#[derive(Clone, Copy, Debug, PartialEq, Eq, Structural)]
pub struct ServiceOrderCancelled {
    pub marketplace: Addr,
    pub escrow: Addr,
    pub buyer: Addr,
    pub amount: u64,
    pub reference: Addr,
}

} // verus!
