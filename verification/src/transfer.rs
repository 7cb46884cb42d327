//! The fund-moving primitive and the model of the custodial balances it acts
//! on. The hosting environment owns the real accounts; an operation is handed
//! the three balances it may touch (vault, backend, user) as plain values and
//! returns their new values.

use vstd::prelude::*;
use crate::identity::Identity;
use crate::errors::ErrorCode;

verus! {

/// Actual custodial balances of the three parties to one escrow operation,
/// in minor units, as queried from the hosting environment.
#[derive(Clone, Copy, PartialEq, Eq, Structural, Debug)]
pub struct Balances {
    /// Balance of the pooled vault account.
    pub vault: u64,
    /// Balance of the backend's wallet.
    pub backend: u64,
    /// Balance of the user's wallet.
    pub user: u64,
}

impl Balances {
    /// Total funds across the three accounts.
    pub open spec fn total(self) -> int {
        self.vault + self.backend + self.user
    }

    /// The money supply fits in 64 bits, so no transfer between these
    /// accounts can overflow the receiving balance.
    pub open spec fn wf(self) -> bool {
        self.total() <= u64::MAX
    }
}

/// Authority to move funds out of an account: either the holder's own
/// signature or the vault's delegated signing capability, which is derived
/// from the vault's identity and held by no human party.
#[derive(Clone, Copy, PartialEq, Eq, Structural, Debug)]
pub enum AuthorityToken {
    /// A caller-held signature of `who`.
    Signer { who: Identity },
    /// The delegated signing capability over the vault account `vault`.
    VaultAuthority { vault: Identity },
}

impl AuthorityToken {
    /// Whether this token permits moving funds out of `account`.
    pub open spec fn authorizes(self, account: Identity) -> bool {
        match self {
            AuthorityToken::Signer { who } => who == account,
            AuthorityToken::VaultAuthority { vault } => vault == account,
        }
    }
}

/// Obtains the delegated signing capability over the vault account `vault_id`.
pub fn authorize_vault_transfer(vault_id: Identity) -> (t: AuthorityToken)
    ensures
        t == (AuthorityToken::VaultAuthority { vault: vault_id }),
{
    AuthorityToken::VaultAuthority { vault: vault_id }
}

/// Moves `amount` out of the account identified by `from` (balance
/// `from_balance`) into the account with balance `to_balance`, returning the
/// two new balances.
///
/// Fails with `TransferFailed` iff `authority` does not cover `from` or
/// `from`'s balance is below `amount` — the authoritative check that the
/// ledger's own bookkeeping must never outrun.
pub fn transfer(
    from_balance: u64,
    to_balance: u64,
    from: Identity,
    amount: u64,
    authority: &AuthorityToken,
) -> (r: Result<(u64, u64), ErrorCode>)
    requires
        from_balance + to_balance <= u64::MAX,
    ensures
        authority.authorizes(from) && amount <= from_balance ==> r == Ok::<(u64, u64), ErrorCode>(
            ((from_balance - amount) as u64, (to_balance + amount) as u64),
        ),
        !(authority.authorizes(from) && amount <= from_balance) ==> r == Err::<
            (u64, u64),
            ErrorCode,
        >(ErrorCode::TransferFailed),
{
    let permitted = match authority {
        AuthorityToken::Signer { who } => who.id == from.id,
        AuthorityToken::VaultAuthority { vault } => vault.id == from.id,
    };
    if permitted && amount <= from_balance {
        Ok((from_balance - amount, to_balance + amount))
    } else {
        Err(ErrorCode::TransferFailed)
    }
}

} // verus!
