use trading_escrow::errors::ErrorCode;
use trading_escrow::identity::Identity;
use trading_escrow::ledger::{
    assert_sufficient_vault_balance, credit, debit_all, deposit, VaultLedger,
};
use trading_escrow::state::{initialize, initialize_user_account, UserAccount, VaultState};
use trading_escrow::transfer::Balances;

fn sample_vault() -> VaultState {
    initialize(
        Identity { id: 1 },
        Identity { id: 2 },
        Identity { id: 3 },
    )
    .unwrap()
}

#[test]
fn initialize_sets_empty_total() {
    let vs = sample_vault();
    assert_eq!(vs.authority, Identity { id: 1 });
    assert_eq!(vs.backend_wallet, Identity { id: 2 });
    assert_eq!(vs.vault_address, Identity { id: 3 });
    assert_eq!(vs.total_deposit, 0);
}

#[test]
fn initialize_rejects_null_identities() {
    let zero = Identity { id: 0 };
    let some = Identity { id: 9 };
    assert_eq!(
        initialize(zero, some, some),
        Err(ErrorCode::InvalidConfiguration)
    );
    assert_eq!(
        initialize(some, zero, some),
        Err(ErrorCode::InvalidConfiguration)
    );
    assert_eq!(
        initialize(some, some, zero),
        Err(ErrorCode::InvalidConfiguration)
    );
}

#[test]
fn initialize_user_account_is_zeroed() {
    let ua = initialize_user_account(Identity { id: 7 });
    assert_eq!(ua.user, Identity { id: 7 });
    assert_eq!(ua.deposit_amount, 0);
}

#[test]
fn credit_adds_to_both_records() {
    let mut vs = sample_vault();
    let mut ua = initialize_user_account(Identity { id: 7 });
    assert_eq!(credit(&mut ua, &mut vs, 40), Ok(()));
    assert_eq!(credit(&mut ua, &mut vs, 2), Ok(()));
    assert_eq!(ua.deposit_amount, 42);
    assert_eq!(vs.total_deposit, 42);
}

#[test]
fn credit_overflow_is_all_or_nothing() {
    let mut vs = sample_vault();
    let mut ua = initialize_user_account(Identity { id: 7 });
    assert_eq!(credit(&mut ua, &mut vs, u64::MAX), Ok(()));
    assert_eq!(credit(&mut ua, &mut vs, 1), Err(ErrorCode::ArithmeticOverflow));
    assert_eq!(ua.deposit_amount, u64::MAX);
    assert_eq!(vs.total_deposit, u64::MAX);
}

#[test]
fn debit_all_zeroes_account_and_decrements_total() {
    let mut vs = sample_vault();
    let mut ua = initialize_user_account(Identity { id: 7 });
    assert_eq!(credit(&mut ua, &mut vs, 100), Ok(()));
    assert_eq!(debit_all(&mut ua, &mut vs, 100), Ok(()));
    assert_eq!(ua.deposit_amount, 0);
    assert_eq!(vs.total_deposit, 0);
}

#[test]
fn debit_all_twice_on_zeroed_account_is_a_no_op() {
    let mut vs = sample_vault();
    let mut ua = initialize_user_account(Identity { id: 7 });
    assert_eq!(debit_all(&mut ua, &mut vs, 0), Ok(()));
    let snapshot_ua = ua;
    let snapshot_vs = vs;
    assert_eq!(debit_all(&mut ua, &mut vs, 0), Ok(()));
    assert_eq!(ua, snapshot_ua);
    assert_eq!(vs, snapshot_vs);
    assert_eq!(ua.deposit_amount, 0);
    assert_eq!(vs.total_deposit, 0);
}

#[test]
fn debit_all_with_collateral_on_zero_account_underflows() {
    let mut vs = sample_vault();
    let mut ua = initialize_user_account(Identity { id: 7 });
    assert_eq!(debit_all(&mut ua, &mut vs, 1), Err(ErrorCode::ArithmeticUnderflow));
    assert_eq!(ua.deposit_amount, 0);
    assert_eq!(vs.total_deposit, 0);
}

#[test]
fn vault_balance_check_is_exact() {
    assert_eq!(assert_sufficient_vault_balance(100, 100), Ok(()));
    assert_eq!(assert_sufficient_vault_balance(100, 0), Ok(()));
    assert_eq!(
        assert_sufficient_vault_balance(100, 101),
        Err(ErrorCode::InsufficientVaultBalance)
    );
    assert_eq!(
        assert_sufficient_vault_balance(0, 1),
        Err(ErrorCode::InsufficientVaultBalance)
    );
}

#[test]
fn deposit_moves_funds_and_credits_ledger() {
    let mut vs = sample_vault();
    let mut ua = initialize_user_account(Identity { id: 7 });
    let mut b = Balances { vault: 5, backend: 0, user: 100 };
    assert_eq!(deposit(&mut vs, &mut ua, &mut b, Identity { id: 7 }, 60), Ok(()));
    assert_eq!(ua.deposit_amount, 60);
    assert_eq!(vs.total_deposit, 60);
    assert_eq!(b, Balances { vault: 65, backend: 0, user: 40 });
}

#[test]
fn deposit_lazily_initializes_an_unset_record() {
    let mut vs = sample_vault();
    let mut ua = UserAccount { user: Identity { id: 0 }, deposit_amount: 0 };
    let mut b = Balances { vault: 0, backend: 0, user: 10 };
    assert_eq!(deposit(&mut vs, &mut ua, &mut b, Identity { id: 7 }, 10), Ok(()));
    assert_eq!(ua.user, Identity { id: 7 });
    assert_eq!(ua.deposit_amount, 10);
    assert_eq!(vs.total_deposit, 10);
}

#[test]
fn deposit_overflow_fails_and_changes_nothing() {
    let mut vs = sample_vault();
    let mut ua = initialize_user_account(Identity { id: 7 });
    let mut b = Balances { vault: 0, backend: 0, user: 100 };
    assert_eq!(deposit(&mut vs, &mut ua, &mut b, Identity { id: 7 }, 90), Ok(()));
    vs.total_deposit = u64::MAX;
    let r = deposit(&mut vs, &mut ua, &mut b, Identity { id: 7 }, 1);
    assert_eq!(r, Err(ErrorCode::ArithmeticOverflow));
    assert_eq!(ua.deposit_amount, 90);
    assert_eq!(vs.total_deposit, u64::MAX);
    assert_eq!(b, Balances { vault: 90, backend: 0, user: 10 });
}

#[test]
fn deposit_beyond_wallet_fails_transfer() {
    let mut vs = sample_vault();
    let mut ua = initialize_user_account(Identity { id: 7 });
    let mut b = Balances { vault: 0, backend: 0, user: 10 };
    let r = deposit(&mut vs, &mut ua, &mut b, Identity { id: 7 }, 11);
    assert_eq!(r, Err(ErrorCode::TransferFailed));
    assert_eq!(ua.deposit_amount, 0);
    assert_eq!(vs.total_deposit, 0);
    assert_eq!(b, Balances { vault: 0, backend: 0, user: 10 });
}

#[test]
fn deposit_rejects_null_depositor() {
    let mut vs = sample_vault();
    let mut ua = initialize_user_account(Identity { id: 7 });
    let mut b = Balances { vault: 0, backend: 0, user: 10 };
    let r = deposit(&mut vs, &mut ua, &mut b, Identity { id: 0 }, 1);
    assert_eq!(r, Err(ErrorCode::InvalidConfiguration));
    assert_eq!(b, Balances { vault: 0, backend: 0, user: 10 });
}

#[test]
fn ledger_total_matches_sum_over_any_deposit_sequence() {
    let mut ledger = VaultLedger::new(
        Identity { id: 1 },
        Identity { id: 2 },
        Identity { id: 3 },
    )
    .unwrap();
    let alice = Identity { id: 10 };
    let bob = Identity { id: 11 };
    let i = ledger.add_account(alice);
    let j = ledger.add_account(bob);
    let mut b_alice = Balances { vault: 0, backend: 0, user: 1000 };
    assert_eq!(ledger.deposit_at(&mut b_alice, i, alice, 300), Ok(()));
    let mut b_bob = Balances { vault: b_alice.vault, backend: 0, user: 500 };
    assert_eq!(ledger.deposit_at(&mut b_bob, j, bob, 120), Ok(()));
    let mut b_alice2 = Balances { vault: b_bob.vault, backend: 0, user: b_alice.user };
    assert_eq!(ledger.deposit_at(&mut b_alice2, i, alice, 80), Ok(()));
    let sum: u64 = ledger.accounts.iter().map(|a| a.deposit_amount).sum();
    assert_eq!(sum, 500);
    assert_eq!(ledger.vault.total_deposit, sum);
    assert_eq!(ledger.accounts[i].deposit_amount, 380);
    assert_eq!(ledger.accounts[j].deposit_amount, 120);
}

#[test]
fn ledger_rejects_null_configuration() {
    let r = VaultLedger::new(Identity { id: 0 }, Identity { id: 2 }, Identity { id: 3 });
    assert!(matches!(r, Err(ErrorCode::InvalidConfiguration)));
}

#[test]
fn ledger_deposit_rejects_null_depositor() {
    let mut ledger = VaultLedger::new(
        Identity { id: 1 },
        Identity { id: 2 },
        Identity { id: 3 },
    )
    .unwrap();
    let i = ledger.add_account(Identity { id: 10 });
    let mut b = Balances { vault: 0, backend: 0, user: 50 };
    let r = ledger.deposit_at(&mut b, i, Identity { id: 0 }, 10);
    assert_eq!(r, Err(ErrorCode::InvalidConfiguration));
    assert_eq!(ledger.vault.total_deposit, 0);
    assert_eq!(b, Balances { vault: 0, backend: 0, user: 50 });
}

#[test]
fn ledger_deposit_overflow_changes_nothing() {
    let mut ledger = VaultLedger::new(
        Identity { id: 1 },
        Identity { id: 2 },
        Identity { id: 3 },
    )
    .unwrap();
    let alice = Identity { id: 10 };
    let i = ledger.add_account(alice);
    let mut b = Balances { vault: 0, backend: 0, user: u64::MAX };
    assert_eq!(ledger.deposit_at(&mut b, i, alice, u64::MAX), Ok(()));
    let mut b2 = Balances { vault: 0, backend: 0, user: 1 };
    let r = ledger.deposit_at(&mut b2, i, alice, 1);
    assert_eq!(r, Err(ErrorCode::ArithmeticOverflow));
    assert_eq!(ledger.vault.total_deposit, u64::MAX);
    assert_eq!(ledger.accounts[i].deposit_amount, u64::MAX);
    assert_eq!(b2, Balances { vault: 0, backend: 0, user: 1 });
}

#[test]
fn ledger_failed_deposit_changes_nothing() {
    let mut ledger = VaultLedger::new(
        Identity { id: 1 },
        Identity { id: 2 },
        Identity { id: 3 },
    )
    .unwrap();
    let alice = Identity { id: 10 };
    let i = ledger.add_account(alice);
    let mut b = Balances { vault: 0, backend: 0, user: 5 };
    assert_eq!(ledger.deposit_at(&mut b, i, alice, 6), Err(ErrorCode::TransferFailed));
    assert_eq!(ledger.vault.total_deposit, 0);
    assert_eq!(ledger.accounts[i].deposit_amount, 0);
    assert_eq!(b, Balances { vault: 0, backend: 0, user: 5 });
}
