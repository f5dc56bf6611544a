//! An on-ledger marketplace protocol: merchants list goods or services priced
//! in a fungible asset; buyers pay instantly for goods or into a conditional
//! escrow for services, which is later released to the seller or refunded to
//! the buyer. A marketplace operator collects a capped percentage fee on every
//! completed transfer.
//!
//! The crate is the transactional core: authorization rules, fee arithmetic,
//! and the escrow lifecycle. The surrounding runtime — account storage,
//! atomic all-or-nothing execution, signature verification — and the external
//! transfer service that actually moves balances are collaborators, not part
//! of this crate. Handlers therefore work on plain record values and return
//! the transfer instructions they want executed; the caller applies them
//! atomically together with the record mutations, or discards everything.

pub mod addr;
pub mod errors;
pub mod fees;
pub mod token;
pub mod events;
pub mod marketplace;
pub mod merchant;
pub mod listing;
pub mod sale;
pub mod escrow;
pub mod store;
