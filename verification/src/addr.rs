//! Addresses and deterministic address derivation.
//!
//! Every persistent record lives at an address the runtime derives from a
//! seed label plus the identifying keys of the record, so any caller can
//! recompute an entity's address without a lookup table. The derivation is
//! modelled structurally: a derived address carries exactly its seed
//! components, which makes the derivation injective by construction and lets
//! the core compare addresses for equality, the only operation it needs.

use vstd::prelude::*;

verus! {

/// An address on the ledger. `Account` is an externally owned account (a
/// wallet, a fungible-asset mint, or a correlation beacon), identified by an
/// opaque id; the remaining variants are protocol-derived control addresses,
/// identified by their seed components. No private key exists for a derived
/// address: only the protocol, by recomputing the same seed path, may
/// authorize actions as it.
#[derive(Clone, Copy, Debug, PartialEq, Eq, Structural)]
pub enum Addr {
    /// Externally owned account, identified by an opaque id.
    Account(u64),
    /// A marketplace record, seeded by its operator's account.
    MarketplaceAddr { operator: u64 },
    /// A merchant record, seeded by its marketplace and the owner's account.
    MerchantAddr { operator: u64, owner: u64 },
    /// A listing record, seeded by marketplace, merchant and asset mint.
    ListingAddr { operator: u64, owner: u64, mint: u64 },
    /// An escrow record, seeded by its listing and the buyer's account.
    EscrowAddr { operator: u64, owner: u64, mint: u64, buyer: u64 },
    /// The holding account exclusively controlled by an escrow record,
    /// seeded by that escrow.
    VaultAddr { operator: u64, owner: u64, mint: u64, buyer: u64 },
}

/// `key` is the derived address of the marketplace operated by `authority`.
pub open spec fn is_marketplace_key(key: Addr, authority: Addr) -> bool {
    match (key, authority) {
        (Addr::MarketplaceAddr { operator }, Addr::Account(a)) => operator == a,
        _ => false,
    }
}

/// `key` is the derived address of the merchant registered under
/// `marketplace` by `owner`.
pub open spec fn is_merchant_key(key: Addr, marketplace: Addr, owner: Addr) -> bool {
    match (key, marketplace, owner) {
        (
            Addr::MerchantAddr { operator, owner: w },
            Addr::MarketplaceAddr { operator: mp_op },
            Addr::Account(a),
        ) => operator == mp_op && w == a,
        _ => false,
    }
}

/// `key` is the derived address of the listing created under `marketplace`
/// by `merchant` for the asset `mint`.
pub open spec fn is_listing_key(key: Addr, marketplace: Addr, merchant: Addr, mint: Addr) -> bool {
    match (key, marketplace, merchant, mint) {
        (
            Addr::ListingAddr { operator, owner, mint: m },
            Addr::MarketplaceAddr { operator: mp_op },
            Addr::MerchantAddr { operator: me_op, owner: me_owner },
            Addr::Account(a),
        ) => operator == mp_op && operator == me_op && owner == me_owner && m == a,
        _ => false,
    }
}

/// `key` is the derived address of the escrow opened against `listing` by
/// `buyer`. Keying the escrow by (listing, buyer) means a buyer holds at most
/// one open escrow per listing at a time.
pub open spec fn is_escrow_key(key: Addr, listing: Addr, buyer: Addr) -> bool {
    match (key, listing, buyer) {
        (
            Addr::EscrowAddr { operator, owner, mint, buyer: b },
            Addr::ListingAddr { operator: l_op, owner: l_owner, mint: l_mint },
            Addr::Account(a),
        ) => operator == l_op && owner == l_owner && mint == l_mint && b == a,
        _ => false,
    }
}

/// `key` is the derived address of the holding account controlled by the
/// escrow at `escrow`.
pub open spec fn is_vault_key(key: Addr, escrow: Addr) -> bool {
    match (key, escrow) {
        (
            Addr::VaultAddr { operator, owner, mint, buyer },
            Addr::EscrowAddr { operator: e_op, owner: e_owner, mint: e_mint, buyer: e_buyer },
        ) => operator == e_op && owner == e_owner && mint == e_mint && buyer == e_buyer,
        _ => false,
    }
}

/// Address derivation is deterministic: the same seed components always give
/// the same address, so an entity's address can be recomputed by anyone.
pub proof fn lemma_merchant_key_deterministic(k1: Addr, k2: Addr, marketplace: Addr, owner: Addr)
    requires
        is_merchant_key(k1, marketplace, owner),
        is_merchant_key(k2, marketplace, owner),
    ensures
        k1 == k2,
{
}

/// Escrow address derivation is deterministic as well: a buyer re-opening an
/// order against the same listing lands on the same address, so a live escrow
/// there blocks the creation.
pub proof fn lemma_escrow_key_deterministic(k1: Addr, k2: Addr, listing: Addr, buyer: Addr)
    requires
        is_escrow_key(k1, listing, buyer),
        is_escrow_key(k2, listing, buyer),
    ensures
        k1 == k2,
{
}

} // verus!
