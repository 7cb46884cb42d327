//! Error taxonomy of the escrow core. Every failure aborts the enclosing
//! operation with no state change; the one intentional exception is the
//! best-effort settlement sub-mode, which converts an underfunded backend
//! subsidy into a reduced, successful payout instead of an error.

use vstd::prelude::*;

verus! {

#[derive(Clone, Copy, PartialEq, Eq, Structural, Debug)]
pub enum ErrorCode {
    /// The caller of a privileged settlement is not the registered backend wallet.
    Unauthorized,
    /// A zero/null identity was supplied at initialization.
    InvalidConfiguration,
    /// A checked addition in the ledger bookkeeping would overflow 64 bits.
    ArithmeticOverflow,
    /// A checked subtraction in the ledger bookkeeping would underflow.
    ArithmeticUnderflow,
    /// A vault-sourced amount exceeds the vault's actual custodial balance.
    InsufficientVaultBalance,
    /// A backend-sourced amount exceeds the backend's actual balance (strict modes).
    InsufficientBackendBalance,
    /// In signed-fee settlement, a non-negative fee is at least the payout.
    InsufficientPayout,
    /// The transfer primitive rejected a move (missing authority or funds).
    TransferFailed,
}

} // verus!
