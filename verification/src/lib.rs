//! Custodial escrow ledger core: users deposit funds into a pooled vault and
//! an authorized backend later settles a user's position, splitting funds
//! between the vault, the backend, and the user according to a signed fee.
//!
//! The hosting execution environment (identity provisioning, custodial
//! accounts, transaction atomicity) is modeled by plain values: identities are
//! opaque labels and the three custodial balances that a settlement touches
//! are carried in a `Balances` value.

pub mod identity;
pub mod errors;
pub mod state;
pub mod transfer;
pub mod ledger;
pub mod settle;
