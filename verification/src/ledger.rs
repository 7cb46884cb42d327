//! Vault ledger bookkeeping: checked credit on deposit, zero-and-decrement on
//! settlement, the solvency check against the actual custodial balance, the
//! full deposit operation, and a ledger holding all per-user records with its
//! conservation invariant.

use vstd::prelude::*;
use crate::identity::Identity;
use crate::errors::ErrorCode;
use crate::state::{UserAccount, VaultState, initialize, initialize_user_account};
use crate::transfer::{transfer, AuthorityToken, Balances};

verus! {

/// Both bookkeeping additions of a credit of `amount` stay within 64 bits.
pub open spec fn credit_fits(ua: UserAccount, vs: VaultState, amount: u64) -> bool {
    ua.deposit_amount + amount <= u64::MAX && vs.total_deposit + amount <= u64::MAX
}

/// The account after a credit of `amount`.
pub open spec fn credited_account(ua: UserAccount, amount: u64) -> UserAccount {
    UserAccount { deposit_amount: (ua.deposit_amount + amount) as u64, ..ua }
}

/// The vault state after a credit of `amount`.
pub open spec fn credited_vault(vs: VaultState, amount: u64) -> VaultState {
    VaultState { total_deposit: (vs.total_deposit + amount) as u64, ..vs }
}

/// A full debit of `collateral` stays within the recorded aggregate.
pub open spec fn debit_allowed(vs: VaultState, collateral: u64) -> bool {
    collateral <= vs.total_deposit
}

/// The account after a full debit: the recorded deposit is zeroed.
pub open spec fn debited_account(ua: UserAccount) -> UserAccount {
    UserAccount { deposit_amount: 0, ..ua }
}

/// The vault state after a full debit of `collateral`.
pub open spec fn debited_vault(vs: VaultState, collateral: u64) -> VaultState {
    VaultState { total_deposit: (vs.total_deposit - collateral) as u64, ..vs }
}

/// Increases the user's recorded deposit and the aggregate total by `amount`,
/// both with checked addition; if either add would overflow 64 bits, fails
/// with `ArithmeticOverflow` and changes nothing (all-or-nothing).
pub fn credit(user_account: &mut UserAccount, vault_state: &mut VaultState, amount: u64) -> (r:
    Result<(), ErrorCode>)
    ensures
        credit_fits(*old(user_account), *old(vault_state), amount) ==> ({
            &&& r == Ok::<(), ErrorCode>(())
            &&& *final(user_account) == credited_account(*old(user_account), amount)
            &&& *final(vault_state) == credited_vault(*old(vault_state), amount)
        }),
        !credit_fits(*old(user_account), *old(vault_state), amount) ==> ({
            &&& r == Err::<(), ErrorCode>(ErrorCode::ArithmeticOverflow)
            &&& *final(user_account) == *old(user_account)
            &&& *final(vault_state) == *old(vault_state)
        }),
{
    if amount <= u64::MAX - user_account.deposit_amount && amount <= u64::MAX
        - vault_state.total_deposit {
        user_account.deposit_amount = user_account.deposit_amount + amount;
        vault_state.total_deposit = vault_state.total_deposit + amount;
        Ok(())
    } else {
        Err(ErrorCode::ArithmeticOverflow)
    }
}

/// Zeroes the user's recorded deposit and decreases the aggregate total by
/// `collateral` with checked subtraction; if `collateral` exceeds the
/// aggregate, fails with `ArithmeticUnderflow` and changes nothing.
pub fn debit_all(user_account: &mut UserAccount, vault_state: &mut VaultState, collateral: u64) -> (r:
    Result<(), ErrorCode>)
    ensures
        debit_allowed(*old(vault_state), collateral) ==> ({
            &&& r == Ok::<(), ErrorCode>(())
            &&& *final(user_account) == debited_account(*old(user_account))
            &&& *final(vault_state) == debited_vault(*old(vault_state), collateral)
        }),
        !debit_allowed(*old(vault_state), collateral) ==> ({
            &&& r == Err::<(), ErrorCode>(ErrorCode::ArithmeticUnderflow)
            &&& *final(user_account) == *old(user_account)
            &&& *final(vault_state) == *old(vault_state)
        }),
{
    if collateral <= vault_state.total_deposit {
        user_account.deposit_amount = 0;
        vault_state.total_deposit = vault_state.total_deposit - collateral;
        Ok(())
    } else {
        Err(ErrorCode::ArithmeticUnderflow)
    }
}

/// Solvency check before any vault-sourced transfer: `requested` must not
/// exceed the vault's actual custodial balance as queried from the hosting
/// environment (not the ledger's own total, which may lag behind external
/// funding events). Rejects with `InsufficientVaultBalance` exactly when
/// `requested > vault_actual_balance`.
pub fn assert_sufficient_vault_balance(vault_actual_balance: u64, requested: u64) -> (r: Result<
    (),
    ErrorCode,
>)
    ensures
        requested <= vault_actual_balance ==> r == Ok::<(), ErrorCode>(()),
        requested > vault_actual_balance ==> r == Err::<(), ErrorCode>(
            ErrorCode::InsufficientVaultBalance,
        ),
{
    if requested <= vault_actual_balance {
        Ok(())
    } else {
        Err(ErrorCode::InsufficientVaultBalance)
    }
}

/// The account record as the deposit operation sees it after lazy
/// initialization: an unset record (null owner) starts from zero, and the
/// owner field is (re)stamped with the depositor.
pub open spec fn normalized_account(ua: UserAccount, user: Identity) -> UserAccount {
    if ua.user.is_zero() {
        UserAccount { user, deposit_amount: 0 }
    } else {
        UserAccount { user, ..ua }
    }
}

/// The depositor's wallet holds at least `amount`.
pub open spec fn deposit_funded(b: Balances, amount: u64) -> bool {
    amount <= b.user
}

/// The custodial balances after moving `amount` from the user to the vault.
pub open spec fn deposited_balances(b: Balances, amount: u64) -> Balances {
    Balances { vault: (b.vault + amount) as u64, user: (b.user - amount) as u64, ..b }
}

/// The deposit operation: lazily initializes the account record, moves
/// `amount` from the user's wallet into the pooled vault, and credits the
/// ledger. All checks precede the transfer, so every failure leaves the
/// record, the aggregate, and the balances exactly unchanged:
/// - a null depositor identity fails `InvalidConfiguration`;
/// - a bookkeeping overflow fails `ArithmeticOverflow`;
/// - an underfunded depositor fails `TransferFailed`.
pub fn deposit(
    vault_state: &mut VaultState,
    user_account: &mut UserAccount,
    balances: &mut Balances,
    user: Identity,
    amount: u64,
) -> (r: Result<(), ErrorCode>)
    requires
        old(balances).wf(),
    ensures
        final(balances).wf(),
        final(balances).total() == old(balances).total(),
        user.is_zero() ==> ({
            &&& r == Err::<(), ErrorCode>(ErrorCode::InvalidConfiguration)
            &&& *final(user_account) == *old(user_account)
            &&& *final(vault_state) == *old(vault_state)
            &&& *final(balances) == *old(balances)
        }),
        !user.is_zero() && !credit_fits(
            normalized_account(*old(user_account), user),
            *old(vault_state),
            amount,
        ) ==> ({
            &&& r == Err::<(), ErrorCode>(ErrorCode::ArithmeticOverflow)
            &&& *final(user_account) == *old(user_account)
            &&& *final(vault_state) == *old(vault_state)
            &&& *final(balances) == *old(balances)
        }),
        !user.is_zero() && credit_fits(
            normalized_account(*old(user_account), user),
            *old(vault_state),
            amount,
        ) && !deposit_funded(*old(balances), amount) ==> ({
            &&& r == Err::<(), ErrorCode>(ErrorCode::TransferFailed)
            &&& *final(user_account) == *old(user_account)
            &&& *final(vault_state) == *old(vault_state)
            &&& *final(balances) == *old(balances)
        }),
        !user.is_zero() && credit_fits(
            normalized_account(*old(user_account), user),
            *old(vault_state),
            amount,
        ) && deposit_funded(*old(balances), amount) ==> ({
            &&& r == Ok::<(), ErrorCode>(())
            &&& *final(user_account) == credited_account(
                normalized_account(*old(user_account), user),
                amount,
            )
            &&& *final(vault_state) == credited_vault(*old(vault_state), amount)
            &&& *final(balances) == deposited_balances(*old(balances), amount)
        }),
        !user.is_zero() && ((!old(user_account).user.is_zero()
            && old(user_account).deposit_amount + amount > u64::MAX)
            || old(vault_state).total_deposit + amount > u64::MAX) ==> ({
            &&& r == Err::<(), ErrorCode>(ErrorCode::ArithmeticOverflow)
            &&& *final(user_account) == *old(user_account)
            &&& *final(vault_state) == *old(vault_state)
            &&& *final(balances) == *old(balances)
        }),
        r == Ok::<(), ErrorCode>(()) && old(vault_state).total_deposit <= old(balances).vault
            ==> final(vault_state).total_deposit <= final(balances).vault,
{
    if user.is_null() {
        return Err(ErrorCode::InvalidConfiguration);
    }
    let base_deposit: u64 = if user_account.user.is_null() {
        0
    } else {
        user_account.deposit_amount
    };
    if !(amount <= u64::MAX - base_deposit && amount <= u64::MAX - vault_state.total_deposit) {
        return Err(ErrorCode::ArithmeticOverflow);
    }
    let token = AuthorityToken::Signer { who: user };
    match transfer(balances.user, balances.vault, user, amount, &token) {
        Ok(moved) => {
            balances.user = moved.0;
            balances.vault = moved.1;
            user_account.user = user;
            user_account.deposit_amount = base_deposit + amount;
            vault_state.total_deposit = vault_state.total_deposit + amount;
            Ok(())
        },
        Err(_) => Err(ErrorCode::TransferFailed),
    }
}

/// Sum of the recorded deposits over a sequence of user accounts.
pub open spec fn sum_deposits(s: Seq<UserAccount>) -> int
    decreases s.len(),
{
    if s.len() == 0 {
        0
    } else {
        sum_deposits(s.drop_last()) + s.last().deposit_amount
    }
}

/// Replacing one record changes the sum by the difference of its deposit.
pub proof fn lemma_sum_deposits_update(s: Seq<UserAccount>, i: int, ua: UserAccount)
    requires
        0 <= i < s.len(),
    ensures
        sum_deposits(s.update(i, ua)) == sum_deposits(s) - s[i].deposit_amount
            + ua.deposit_amount,
    decreases s.len(),
{
    let t = s.update(i, ua);
    if i == s.len() - 1 {
        assert(t.drop_last() =~= s.drop_last());
    } else {
        assert(t.drop_last() =~= s.drop_last().update(i, ua));
        lemma_sum_deposits_update(s.drop_last(), i, ua);
    }
}

/// The whole ledger of one deployment: the vault configuration with its
/// aggregate total, and every per-user deposit record.
pub struct VaultLedger {
    pub vault: VaultState,
    pub accounts: Vec<UserAccount>,
}

impl VaultLedger {
    /// Conservation: the aggregate equals the sum over all live records.
    pub open spec fn conserved(self) -> bool {
        self.vault.total_deposit == sum_deposits(self.accounts@)
    }

    /// A record whose owner is still the null identity is uninitialized and
    /// records no deposit.
    pub open spec fn accounts_wf(self) -> bool {
        forall|j: int|
            0 <= j < self.accounts@.len() && (#[trigger] self.accounts@[j]).user.is_zero()
                ==> self.accounts@[j].deposit_amount == 0
    }

    /// Well-formed ledger: conservation holds and unset records are zeroed.
    pub open spec fn wf(self) -> bool {
        self.conserved() && self.accounts_wf()
    }

    /// Creates a ledger with the given vault configuration and no records.
    /// Fails with `InvalidConfiguration` iff one of the identities is null.
    pub fn new(authority: Identity, backend_wallet: Identity, vault_address: Identity) -> (r:
        Result<VaultLedger, ErrorCode>)
        ensures
            authority.is_zero() || backend_wallet.is_zero() || vault_address.is_zero() ==> (
            r matches Err(e) && e == ErrorCode::InvalidConfiguration),
            !(authority.is_zero() || backend_wallet.is_zero() || vault_address.is_zero()) ==> ({
                &&& r matches Ok(l)
                &&& l.vault == (VaultState {
                    authority,
                    backend_wallet,
                    vault_address,
                    total_deposit: 0,
                })
                &&& l.accounts@.len() == 0
                &&& l.wf()
            }),
    {
        let vault = initialize(authority, backend_wallet, vault_address)?;
        Ok(VaultLedger { vault, accounts: Vec::new() })
    }

    /// Provisions a zero-initialized record for `user`, returning its index.
    /// Preserves well-formedness: a zeroed record adds nothing to the sum.
    pub fn add_account(&mut self, user: Identity) -> (i: usize)
        ensures
            i == old(self).accounts@.len(),
            final(self).vault == old(self).vault,
            final(self).accounts@ == old(self).accounts@.push(
                UserAccount { user, deposit_amount: 0 },
            ),
            old(self).wf() ==> final(self).wf(),
    {
        let i = self.accounts.len();
        self.accounts.push(initialize_user_account(user));
        proof {
            assert(self.accounts@.drop_last() =~= old(self).accounts@);
        }
        i
    }

    /// Deposits `amount` for `user` into the record at index `i`, moving the
    /// funds from the user's wallet into the pooled vault. Succeeds exactly
    /// when the depositor is non-null, both checked additions fit, and the
    /// user's wallet covers the amount; each failure names its error and
    /// changes nothing.
    ///
    /// Conservation law: after any sequence of deposits on a well-formed
    /// ledger the aggregate still equals the sum of all recorded deposits —
    /// each call preserves `wf`, whether it succeeds or fails.
    pub fn deposit_at(
        &mut self,
        balances: &mut Balances,
        i: usize,
        user: Identity,
        amount: u64,
    ) -> (r: Result<(), ErrorCode>)
        requires
            i < old(self).accounts@.len(),
            old(balances).wf(),
        ensures
            final(balances).wf(),
            final(balances).total() == old(balances).total(),
            final(self).vault.authority == old(self).vault.authority,
            final(self).vault.backend_wallet == old(self).vault.backend_wallet,
            final(self).vault.vault_address == old(self).vault.vault_address,
            final(self).accounts@.len() == old(self).accounts@.len(),
            old(self).wf() ==> final(self).wf(),
            user.is_zero() ==> r == Err::<(), ErrorCode>(ErrorCode::InvalidConfiguration),
            !user.is_zero() && !credit_fits(
                normalized_account(old(self).accounts@[i as int], user),
                old(self).vault,
                amount,
            ) ==> r == Err::<(), ErrorCode>(ErrorCode::ArithmeticOverflow),
            !user.is_zero() && credit_fits(
                normalized_account(old(self).accounts@[i as int], user),
                old(self).vault,
                amount,
            ) && !deposit_funded(*old(balances), amount) ==> r == Err::<(), ErrorCode>(
                ErrorCode::TransferFailed,
            ),
            r is Ok <==> !user.is_zero() && credit_fits(
                normalized_account(old(self).accounts@[i as int], user),
                old(self).vault,
                amount,
            ) && deposit_funded(*old(balances), amount),
            r is Ok ==> ({
                &&& final(self).accounts@ == old(self).accounts@.update(
                    i as int,
                    credited_account(normalized_account(old(self).accounts@[i as int], user), amount),
                )
                &&& final(self).vault == credited_vault(old(self).vault, amount)
                &&& *final(balances) == deposited_balances(*old(balances), amount)
            }),
            r is Err ==> ({
                &&& final(self).accounts@ == old(self).accounts@
                &&& final(self).vault == old(self).vault
                &&& *final(balances) == *old(balances)
            }),
    {
        let mut ua = self.accounts[i];
        match deposit(&mut self.vault, &mut ua, balances, user, amount) {
            Ok(()) => {
                self.accounts.set(i, ua);
                proof {
                    lemma_sum_deposits_update(old(self).accounts@, i as int, ua);
                }
                Ok(())
            },
            Err(e) => Err(e),
        }
    }
}

/// Idempotence of the settlement bookkeeping on an already-settled position:
/// a full debit with zero collateral of an account whose recorded deposit is
/// already zero changes neither the account nor the vault state, so a second
/// identical call is a no-op too; a positive collateral against a zeroed
/// aggregate is never allowed (it would underflow).
pub proof fn lemma_debit_all_idempotent(ua: UserAccount, vs: VaultState, collateral: u64)
    requires
        ua.deposit_amount == 0,
    ensures
        debit_allowed(vs, 0),
        debited_account(ua) == ua,
        debited_vault(vs, 0) == vs,
        debited_account(debited_account(ua)) == debited_account(ua),
        vs.total_deposit == 0 && collateral > 0 ==> !debit_allowed(vs, collateral),
{
}

} // verus!
