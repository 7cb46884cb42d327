//! The settlement engine: the authorization gate and the signed-fee
//! fund-split algorithm, in two modes.
//!
//! Mode "collateral then refund": the payout amount denotes collateral seized
//! from the vault for the backend; a positive fee denotes an optional refund
//! sent from the backend to the user afterwards.
//!
//! Mode "signed fee": the payout amount denotes what is ultimately owed to
//! the user and the fee is a signed adjustment. A non-negative fee is borne
//! by the vault (fee to the backend, remainder to the user); a negative fee
//! is a backend subsidy paid together with the payout from the backend to the
//! user. The strict sub-mode fails when the backend cannot cover the
//! subsidized payout; the best-effort sub-mode instead pays out the backend's
//! whole balance, never failing for want of subsidy funds — the shortfall is
//! observable only through the receipt's paid-versus-requested delta.
//!
//! Every check precedes every fund movement and every ledger change, so each
//! failure leaves the vault state, the user account and the balances exactly
//! unchanged.

use vstd::prelude::*;
use vstd::pervasive::unreached;
use crate::identity::Identity;
use crate::errors::ErrorCode;
use crate::state::{UserAccount, VaultState};
use crate::transfer::{transfer, authorize_vault_transfer, AuthorityToken, Balances};
use crate::ledger::{
    assert_sufficient_vault_balance, debit_all, debited_account,
};

verus! {

/// The two settlement policies, with the signed-fee policy's two
/// failure-handling sub-modes spelled out as distinct, testable branches.
#[derive(Clone, Copy, PartialEq, Eq, Structural, Debug)]
pub enum SettlementMode {
    /// Seize the payout amount as collateral for the backend; a positive fee
    /// is a refund from the backend to the user.
    CollateralThenRefund,
    /// Signed-fee payout; an underfunded backend subsidy is an error.
    SignedFeeStrict,
    /// Signed-fee payout; an underfunded backend subsidy degrades to paying
    /// out whatever the backend holds.
    SignedFeeBestEffort,
}

/// What one settlement did: how much was asked for the user, how much was
/// actually paid out, under which fee and mode.
#[derive(Clone, Copy, PartialEq, Eq, Structural, Debug)]
pub struct SettlementReceipt {
    pub requested_payout: u64,
    pub actual_payout: u64,
    pub fee_applied: i64,
    pub mode: SettlementMode,
}

/// Absolute value of the signed fee.
pub open spec fn fee_magnitude(fee: i64) -> int {
    if fee >= 0 {
        fee as int
    } else {
        -(fee as int)
    }
}

/// The amount a successful settlement takes out of the vault (and off the
/// ledger's aggregate total).
pub open spec fn vault_outflow(payout_amount: u64, fee: i64, mode: SettlementMode) -> int {
    match mode {
        SettlementMode::CollateralThenRefund => payout_amount as int,
        SettlementMode::SignedFeeStrict | SettlementMode::SignedFeeBestEffort => if fee >= 0 {
            payout_amount as int
        } else {
            0
        },
    }
}

/// The amount the user receives from a successful settlement.
pub open spec fn user_payout(b: Balances, payout_amount: u64, fee: i64, mode: SettlementMode) -> int {
    match mode {
        SettlementMode::CollateralThenRefund => if fee > 0 {
            fee as int
        } else {
            0
        },
        SettlementMode::SignedFeeStrict => if fee >= 0 {
            payout_amount - fee
        } else {
            payout_amount + fee_magnitude(fee)
        },
        SettlementMode::SignedFeeBestEffort => if fee >= 0 {
            payout_amount - fee
        } else {
            if payout_amount + fee_magnitude(fee) > b.backend {
                b.backend as int
            } else {
                payout_amount + fee_magnitude(fee)
            }
        },
    }
}

/// The error a settlement fails with, if any, on the given pre-state. The
/// checks run in this order: authorization; then, per mode, the vault
/// solvency check, the backend balance check, and the ledger's checked
/// subtraction. `None` means the settlement succeeds.
pub open spec fn settle_error(
    vs: VaultState,
    b: Balances,
    caller: Identity,
    payout_amount: u64,
    fee: i64,
    mode: SettlementMode,
) -> Option<ErrorCode> {
    if caller != vs.backend_wallet {
        Some(ErrorCode::Unauthorized)
    } else {
        match mode {
            SettlementMode::CollateralThenRefund => {
                if payout_amount > b.vault {
                    Some(ErrorCode::InsufficientVaultBalance)
                } else if fee > 0 && fee as int > b.backend + payout_amount {
                    Some(ErrorCode::InsufficientBackendBalance)
                } else if payout_amount > vs.total_deposit {
                    Some(ErrorCode::ArithmeticUnderflow)
                } else {
                    None
                }
            },
            SettlementMode::SignedFeeStrict | SettlementMode::SignedFeeBestEffort => {
                if fee >= 0 {
                    if payout_amount as int <= fee as int {
                        Some(ErrorCode::InsufficientPayout)
                    } else if payout_amount > b.vault {
                        Some(ErrorCode::InsufficientVaultBalance)
                    } else if payout_amount > vs.total_deposit {
                        Some(ErrorCode::ArithmeticUnderflow)
                    } else {
                        None
                    }
                } else {
                    if mode == SettlementMode::SignedFeeStrict && payout_amount + fee_magnitude(fee)
                        > b.backend {
                        Some(ErrorCode::InsufficientBackendBalance)
                    } else {
                        None
                    }
                }
            },
        }
    }
}

/// The custodial balances after a successful settlement.
pub open spec fn settled_balances(
    b: Balances,
    payout_amount: u64,
    fee: i64,
    mode: SettlementMode,
) -> Balances {
    let paid = user_payout(b, payout_amount, fee, mode);
    match mode {
        SettlementMode::CollateralThenRefund => Balances {
            vault: (b.vault - payout_amount) as u64,
            backend: (b.backend + payout_amount - paid) as u64,
            user: (b.user + paid) as u64,
        },
        SettlementMode::SignedFeeStrict | SettlementMode::SignedFeeBestEffort => if fee >= 0 {
            Balances {
                vault: (b.vault - payout_amount) as u64,
                backend: (b.backend + fee) as u64,
                user: (b.user + payout_amount - fee) as u64,
            }
        } else {
            Balances { vault: b.vault, backend: (b.backend - paid) as u64, user: (b.user + paid) as u64 }
        },
    }
}

/// Nothing changed: the post-state equals the pre-state in all three places.
pub open spec fn untouched(
    vs0: VaultState,
    vs1: VaultState,
    ua0: UserAccount,
    ua1: UserAccount,
    b0: Balances,
    b1: Balances,
) -> bool {
    vs1 == vs0 && ua1 == ua0 && b1 == b0
}

/// Authorization gate: succeeds iff the caller is the registered backend
/// wallet. Side-effect-free; run before any funds move or ledger state
/// changes.
pub fn check_backend(vault_state: &VaultState, caller: Identity) -> (r: Result<(), ErrorCode>)
    ensures
        caller == vault_state.backend_wallet ==> r == Ok::<(), ErrorCode>(()),
        caller != vault_state.backend_wallet ==> r == Err::<(), ErrorCode>(ErrorCode::Unauthorized),
{
    if caller == vault_state.backend_wallet {
        Ok(())
    } else {
        Err(ErrorCode::Unauthorized)
    }
}

/// Settles (liquidates) one user's position: splits funds between the vault,
/// the backend and the user according to the signed fee and the mode, then
/// zeroes the user's recorded deposit and decrements the aggregate total by
/// the vault outflow.
///
/// The outcome is fully determined by the inputs: `settle_error` names the
/// error and the exact pre-states it is returned on; on success the receipt
/// and all three post-states are pinned down. Every failure leaves all state
/// unchanged, and the total funds across the three balances are preserved in
/// every case.
pub fn settle(
    vault_state: &mut VaultState,
    user_account: &mut UserAccount,
    balances: &mut Balances,
    caller: Identity,
    payout_amount: u64,
    fee: i64,
    mode: SettlementMode,
) -> (r: Result<SettlementReceipt, ErrorCode>)
    requires
        old(balances).wf(),
    ensures
        final(balances).wf(),
        final(balances).total() == old(balances).total(),
        ({
            let err = settle_error(*old(vault_state), *old(balances), caller, payout_amount, fee, mode);
            let paid = user_payout(*old(balances), payout_amount, fee, mode);
            match err {
                Some(e) => r == Err::<SettlementReceipt, ErrorCode>(e) && untouched(
                    *old(vault_state),
                    *final(vault_state),
                    *old(user_account),
                    *final(user_account),
                    *old(balances),
                    *final(balances),
                ),
                None => {
                    &&& r == Ok::<SettlementReceipt, ErrorCode>(
                        SettlementReceipt {
                            requested_payout: payout_amount,
                            actual_payout: paid as u64,
                            fee_applied: fee,
                            mode,
                        },
                    )
                    &&& *final(balances) == settled_balances(*old(balances), payout_amount, fee, mode)
                    &&& *final(user_account) == debited_account(*old(user_account))
                    &&& *final(vault_state) == (VaultState {
                        total_deposit: (old(vault_state).total_deposit - vault_outflow(
                            payout_amount,
                            fee,
                            mode,
                        )) as u64,
                        ..*old(vault_state)
                    })
                },
            }
        }),
        caller != old(vault_state).backend_wallet ==> r == Err::<SettlementReceipt, ErrorCode>(
            ErrorCode::Unauthorized,
        ) && untouched(
            *old(vault_state),
            *final(vault_state),
            *old(user_account),
            *final(user_account),
            *old(balances),
            *final(balances),
        ),
        (mode == SettlementMode::SignedFeeStrict || mode == SettlementMode::SignedFeeBestEffort)
            && caller == old(vault_state).backend_wallet && fee >= 0 && payout_amount as int
            <= fee as int ==> r == Err::<SettlementReceipt, ErrorCode>(ErrorCode::InsufficientPayout)
            && untouched(
            *old(vault_state),
            *final(vault_state),
            *old(user_account),
            *final(user_account),
            *old(balances),
            *final(balances),
        ),
        mode == SettlementMode::CollateralThenRefund && caller == old(vault_state).backend_wallet
            && payout_amount > old(balances).vault ==> r == Err::<SettlementReceipt, ErrorCode>(
            ErrorCode::InsufficientVaultBalance,
        ) && untouched(
            *old(vault_state),
            *final(vault_state),
            *old(user_account),
            *final(user_account),
            *old(balances),
            *final(balances),
        ),
        (mode == SettlementMode::SignedFeeStrict || mode == SettlementMode::SignedFeeBestEffort)
            && caller == old(vault_state).backend_wallet && fee >= 0 && payout_amount as int
            > fee as int && payout_amount > old(balances).vault ==> r == Err::<
            SettlementReceipt,
            ErrorCode,
        >(ErrorCode::InsufficientVaultBalance) && untouched(
            *old(vault_state),
            *final(vault_state),
            *old(user_account),
            *final(user_account),
            *old(balances),
            *final(balances),
        ),
        mode == SettlementMode::SignedFeeBestEffort && caller == old(vault_state).backend_wallet
            && fee < 0 ==> r is Ok,
        mode == SettlementMode::CollateralThenRefund && caller == old(vault_state).backend_wallet
            && payout_amount <= old(balances).vault
            && (fee <= 0 || fee as int <= old(balances).backend + payout_amount)
            && payout_amount > old(vault_state).total_deposit ==> r == Err::<
            SettlementReceipt,
            ErrorCode,
        >(ErrorCode::ArithmeticUnderflow) && untouched(
            *old(vault_state),
            *final(vault_state),
            *old(user_account),
            *final(user_account),
            *old(balances),
            *final(balances),
        ),
        r is Ok && old(vault_state).total_deposit <= old(balances).vault
            ==> final(vault_state).total_deposit <= final(balances).vault,
{
    let vs = *vault_state;
    let ua = *user_account;
    let b = *balances;
    match check_backend(&vs, caller) {
        Ok(()) => {},
        Err(e) => {
            return Err(e);
        },
    }
    match mode {
        SettlementMode::CollateralThenRefund => {
            let collateral = payout_amount;
            match assert_sufficient_vault_balance(b.vault, collateral) {
                Ok(()) => {},
                Err(e) => {
                    return Err(e);
                },
            }
            let vault_token = authorize_vault_transfer(vs.vault_address);
            let moved = match transfer(b.vault, b.backend, vs.vault_address, collateral, &vault_token) {
                Ok(p) => p,
                Err(_) => unreached(),
            };
            let refund: u64 = if fee > 0 {
                fee as u64
            } else {
                0
            };
            if refund > moved.1 {
                return Err(ErrorCode::InsufficientBackendBalance);
            }
            let backend_token = AuthorityToken::Signer { who: vs.backend_wallet };
            let refunded = match transfer(moved.1, b.user, vs.backend_wallet, refund, &backend_token) {
                Ok(p) => p,
                Err(_) => unreached(),
            };
            let mut vs2 = vs;
            let mut ua2 = ua;
            match debit_all(&mut ua2, &mut vs2, collateral) {
                Ok(()) => {},
                Err(e) => {
                    return Err(e);
                },
            }
            *vault_state = vs2;
            *user_account = ua2;
            *balances = Balances { vault: moved.0, backend: refunded.0, user: refunded.1 };
            Ok(
                SettlementReceipt {
                    requested_payout: payout_amount,
                    actual_payout: refund,
                    fee_applied: fee,
                    mode,
                },
            )
        },
        SettlementMode::SignedFeeStrict | SettlementMode::SignedFeeBestEffort => {
            if fee >= 0 {
                let fee_part = fee as u64;
                if payout_amount <= fee_part {
                    return Err(ErrorCode::InsufficientPayout);
                }
                match assert_sufficient_vault_balance(b.vault, payout_amount) {
                    Ok(()) => {},
                    Err(e) => {
                        return Err(e);
                    },
                }
                let vault_token = authorize_vault_transfer(vs.vault_address);
                let fee_moved = match transfer(b.vault, b.backend, vs.vault_address, fee_part, &vault_token) {
                    Ok(p) => p,
                    Err(_) => unreached(),
                };
                let paid_moved = match transfer(
                    fee_moved.0,
                    b.user,
                    vs.vault_address,
                    payout_amount - fee_part,
                    &vault_token,
                ) {
                    Ok(p) => p,
                    Err(_) => unreached(),
                };
                let mut vs2 = vs;
                let mut ua2 = ua;
                match debit_all(&mut ua2, &mut vs2, payout_amount) {
                    Ok(()) => {},
                    Err(e) => {
                        return Err(e);
                    },
                }
                *vault_state = vs2;
                *user_account = ua2;
                *balances = Balances { vault: paid_moved.0, backend: fee_moved.1, user: paid_moved.1 };
                Ok(
                    SettlementReceipt {
                        requested_payout: payout_amount,
                        actual_payout: payout_amount - fee_part,
                        fee_applied: fee,
                        mode,
                    },
                )
            } else {
                let fee_amount: u64 = if fee == i64::MIN {
                    9223372036854775808u64
                } else {
                    (-fee) as u64
                };
                let desired_fits = fee_amount <= u64::MAX - payout_amount;
                let covered = desired_fits && payout_amount + fee_amount <= b.backend;
                if mode == SettlementMode::SignedFeeStrict && !covered {
                    return Err(ErrorCode::InsufficientBackendBalance);
                }
                let paid: u64 = if covered {
                    payout_amount + fee_amount
                } else {
                    b.backend
                };
                let backend_token = AuthorityToken::Signer { who: vs.backend_wallet };
                let subsidized = match transfer(b.backend, b.user, vs.backend_wallet, paid, &backend_token) {
                    Ok(p) => p,
                    Err(_) => unreached(),
                };
                let mut vs2 = vs;
                let mut ua2 = ua;
                match debit_all(&mut ua2, &mut vs2, 0) {
                    Ok(()) => {},
                    Err(_) => unreached(),
                }
                *vault_state = vs2;
                *user_account = ua2;
                *balances = Balances { vault: b.vault, backend: subsidized.0, user: subsidized.1 };
                Ok(
                    SettlementReceipt {
                        requested_payout: payout_amount,
                        actual_payout: paid,
                        fee_applied: fee,
                        mode,
                    },
                )
            }
        },
    }
}

} // verus!
