//! The core's view of the external transfer service.
//!
//! Balances live with an external service; the core never moves value
//! itself. It reads the identifying fields of asset-holding accounts to
//! enforce ownership rules, and it emits `TransferInstr` values describing
//! the debits it wants performed. The surrounding runtime executes them in
//! the same atomic request as the record mutations: if any transfer fails,
//! every mutation of the request is discarded.

use vstd::prelude::*;
use crate::addr::Addr;

verus! {

/// Identifying fields of an asset-holding account, as the core reads them.
/// The balance itself stays with the transfer service.
#[derive(Clone, Copy, Debug, PartialEq, Eq, Structural)]
pub struct TokenAccount {
    /// The account's own address.
    pub key: Addr,
    /// The authority allowed to debit the account. For a vault this is the
    /// escrow's derived address, so only the protocol can authorize a debit.
    pub owner: Addr,
    /// The fungible asset the account holds.
    pub mint: Addr,
}

/// One debit the core instructs the transfer service to perform, moving
/// `amount` units from `from` to `to`, authorized by `authority` (the payer's
/// own account for direct sales, the escrow's derived address for vault
/// debits).
#[derive(Clone, Copy, Debug, PartialEq, Eq, Structural)]
pub struct TransferInstr {
    pub from: Addr,
    pub to: Addr,
    pub authority: Addr,
    pub amount: u64,
}

} // verus!
