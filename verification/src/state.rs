//! Persistent escrow state: the per-deployment vault configuration and the
//! per-depositor account record.

use vstd::prelude::*;
use crate::identity::Identity;
use crate::errors::ErrorCode;

verus! {

/// Per-deployment vault configuration and aggregate deposit bookkeeping.
#[derive(Clone, Copy, PartialEq, Eq, Structural, Debug)]
pub struct VaultState {
    /// Identity permitted to (re)configure the vault; immutable after creation.
    pub authority: Identity,
    /// Identity authorized to invoke settlement; fee destination/source.
    pub backend_wallet: Identity,
    /// Identity of the pooled custodial account holding all deposits.
    pub vault_address: Identity,
    /// Sum of all live user deposit amounts, in minor units.
    pub total_deposit: u64,
}

/// Per-depositor record: how much this user has contributed and not yet settled.
#[derive(Clone, Copy, PartialEq, Eq, Structural, Debug)]
pub struct UserAccount {
    /// Owning identity.
    pub user: Identity,
    /// Funds contributed and not yet settled, in minor units.
    pub deposit_amount: u64,
}

/// Creates the vault configuration with an empty ledger total.
///
/// Succeeds with `total_deposit == 0` iff none of the three identities is the
/// null identity; otherwise fails with `InvalidConfiguration`.
pub fn initialize(authority: Identity, backend_wallet: Identity, vault_address: Identity) -> (r:
    Result<VaultState, ErrorCode>)
    ensures
        authority.is_zero() || backend_wallet.is_zero() || vault_address.is_zero() ==> r
            == Err::<VaultState, ErrorCode>(ErrorCode::InvalidConfiguration),
        !(authority.is_zero() || backend_wallet.is_zero() || vault_address.is_zero()) ==> r == Ok::<
            VaultState,
            ErrorCode,
        >(VaultState { authority, backend_wallet, vault_address, total_deposit: 0 }),
{
    if authority.is_null() || backend_wallet.is_null() || vault_address.is_null() {
        Err(ErrorCode::InvalidConfiguration)
    } else {
        Ok(VaultState { authority, backend_wallet, vault_address, total_deposit: 0 })
    }
}

/// Provisions a fresh, zero-initialized deposit record for `user`.
pub fn initialize_user_account(user: Identity) -> (ua: UserAccount)
    ensures
        ua == (UserAccount { user, deposit_amount: 0 }),
{
    UserAccount { user, deposit_amount: 0 }
}

} // verus!
