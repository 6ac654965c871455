use dca_vault::authority::{derive_authority, sign_as};
use dca_vault::schedule::{advance, is_eligible};
use dca_vault::shares::{payout_for_withdraw, shares_for_deposit, withdrawable_amount};
use dca_vault::vault::{
    deposit, execute_dca, initialize_vault, withdraw, Deposit, ExecuteDca, InitializeVault,
    Payout, Vault, VaultError, Withdraw,
};

fn vault_with(total_shares: u64, period_seconds: u64, next_exec_ts: u64) -> Vault {
    Vault {
        admin: [1; 32],
        usdc_mint: [2; 32],
        target_mint: [3; 32],
        shares_mint: [4; 32],
        period_seconds,
        next_exec_ts,
        fee_bps: 30,
        total_shares,
    }
}

fn withdraw_ctx(total: u64, user_shares: u64, vault_usdc: u64, vault_target: u64) -> Withdraw {
    Withdraw {
        vault: vault_with(total, 60, 0),
        user_shares_amount: user_shares,
        vault_usdc_amount: vault_usdc,
        user_usdc_amount: 0,
        vault_target_amount: vault_target,
        user_target_amount: 0,
    }
}

fn init_ctx() -> InitializeVault {
    InitializeVault {
        vault: None,
        admin: [9; 32],
        usdc_mint: [8; 32],
        target_mint: [7; 32],
        shares_mint: [6; 32],
    }
}

#[test]
fn initialize_sets_fresh_ledger() {
    let mut ctx = init_ctx();
    assert_eq!(initialize_vault(&mut ctx, 3600, 25, 1_700_000_000), Ok(()));
    let v = ctx.vault.unwrap();
    assert_eq!(v.admin, [9; 32]);
    assert_eq!(v.usdc_mint, [8; 32]);
    assert_eq!(v.target_mint, [7; 32]);
    assert_eq!(v.shares_mint, [6; 32]);
    assert_eq!(v.period_seconds, 3600);
    assert_eq!(v.next_exec_ts, 1_700_000_000);
    assert_eq!(v.fee_bps, 25);
    assert_eq!(v.total_shares, 0);
}

#[test]
fn initialize_twice_is_rejected() {
    let mut ctx = init_ctx();
    assert_eq!(initialize_vault(&mut ctx, 3600, 25, 100), Ok(()));
    assert_eq!(
        initialize_vault(&mut ctx, 10, 99, 500),
        Err(VaultError::AlreadyInitialized)
    );
    let v = ctx.vault.unwrap();
    assert_eq!(v.period_seconds, 3600);
    assert_eq!(v.next_exec_ts, 100);
    assert_eq!(v.fee_bps, 25);
}

#[test]
fn deposit_mints_one_share_per_unit() {
    let mut ctx = Deposit {
        vault: vault_with(40, 60, 0),
        user_usdc_amount: 500,
        user_shares_amount: 10,
        vault_usdc_amount: 40,
    };
    assert_eq!(deposit(&mut ctx, 123), Ok(123));
    assert_eq!(ctx.vault.total_shares, 163);
    assert_eq!(ctx.user_shares_amount, 133);
    assert_eq!(ctx.user_usdc_amount, 377);
    assert_eq!(ctx.vault_usdc_amount, 163);
}

#[test]
fn deposit_more_than_held_is_rejected() {
    let mut ctx = Deposit {
        vault: vault_with(0, 60, 0),
        user_usdc_amount: 5,
        user_shares_amount: 0,
        vault_usdc_amount: 0,
    };
    assert_eq!(deposit(&mut ctx, 6), Err(VaultError::InsufficientBalance));
    assert_eq!(ctx.user_usdc_amount, 5);
    assert_eq!(ctx.vault.total_shares, 0);
}

#[test]
fn deposit_overflowing_total_shares_is_rejected() {
    let mut ctx = Deposit {
        vault: vault_with(u64::MAX, 60, 0),
        user_usdc_amount: 5,
        user_shares_amount: 0,
        vault_usdc_amount: 0,
    };
    assert_eq!(deposit(&mut ctx, 1), Err(VaultError::Overflow));
    assert_eq!(ctx.vault.total_shares, u64::MAX);
    assert_eq!(ctx.user_usdc_amount, 5);
}

#[test]
fn withdraw_quarter_of_pool() {
    let mut ctx = withdraw_ctx(1000, 1000, 1000, 0);
    let p = withdraw(&mut ctx, 250).unwrap();
    assert_eq!(p, Payout { usdc: 250, target: 0 });
    assert!(!p.sends_target());
    assert_eq!(ctx.vault.total_shares, 750);
    assert_eq!(ctx.user_shares_amount, 750);
    assert_eq!(ctx.vault_usdc_amount, 750);
    assert_eq!(ctx.user_usdc_amount, 250);
}

#[test]
fn withdraw_rounds_in_favour_of_pool() {
    let mut ctx = withdraw_ctx(3, 1, 10, 0);
    let p = withdraw(&mut ctx, 1).unwrap();
    assert_eq!(p.usdc, 3);
    assert_eq!(ctx.vault_usdc_amount, 7);
    assert_eq!(ctx.vault.total_shares, 2);
}

#[test]
fn withdraw_pays_both_assets() {
    let mut ctx = withdraw_ctx(8, 3, 100, 50);
    let p = withdraw(&mut ctx, 3).unwrap();
    assert_eq!(p, Payout { usdc: 37, target: 18 });
    assert!(p.sends_target());
    assert_eq!(ctx.vault_target_amount, 32);
    assert_eq!(ctx.user_target_amount, 18);
    assert_eq!(ctx.vault.total_shares, 5);
}

#[test]
fn withdraw_with_no_shares_outstanding() {
    let mut ctx = withdraw_ctx(0, 0, 10, 10);
    assert_eq!(withdraw(&mut ctx, 1), Err(VaultError::NoSharesOutstanding));
    assert_eq!(withdraw(&mut ctx, 0), Err(VaultError::NoSharesOutstanding));
    assert_eq!(ctx.vault.total_shares, 0);
    assert_eq!(ctx.vault_usdc_amount, 10);
}

#[test]
fn withdraw_more_than_owned_is_rejected() {
    let mut ctx = withdraw_ctx(100, 10, 100, 0);
    assert_eq!(withdraw(&mut ctx, 11), Err(VaultError::InsufficientShares));
    assert_eq!(ctx.user_shares_amount, 10);
    assert_eq!(ctx.vault.total_shares, 100);
}

#[test]
fn withdraw_overflowing_holder_balance_is_rejected() {
    let mut ctx = withdraw_ctx(2, 2, 10, 0);
    ctx.user_usdc_amount = u64::MAX;
    assert_eq!(withdraw(&mut ctx, 1), Err(VaultError::Overflow));
    assert_eq!(ctx.vault.total_shares, 2);
    assert_eq!(ctx.vault_usdc_amount, 10);
}

#[test]
fn withdraw_large_amounts_use_wide_product() {
    let mut ctx = withdraw_ctx(u64::MAX, u64::MAX, u64::MAX, u64::MAX - 1);
    let p = withdraw(&mut ctx, u64::MAX / 2).unwrap();
    assert_eq!(p.usdc, u64::MAX / 2);
    assert_eq!(p.target, u64::MAX / 2 - 1);
    assert_eq!(ctx.vault.total_shares, u64::MAX - u64::MAX / 2);
}

#[test]
fn deposit_then_withdraw_all_returns_deposit() {
    let mut d = Deposit {
        vault: vault_with(0, 60, 0),
        user_usdc_amount: 1000,
        user_shares_amount: 0,
        vault_usdc_amount: 0,
    };
    let shares = deposit(&mut d, 400).unwrap();
    let mut w = Withdraw {
        vault: d.vault,
        user_shares_amount: d.user_shares_amount,
        vault_usdc_amount: d.vault_usdc_amount,
        user_usdc_amount: d.user_usdc_amount,
        vault_target_amount: 0,
        user_target_amount: 0,
    };
    let p = withdraw(&mut w, shares).unwrap();
    assert_eq!(p, Payout { usdc: 400, target: 0 });
    assert_eq!(w.user_usdc_amount, 1000);
    assert_eq!(w.vault.total_shares, 0);
}

#[test]
fn execute_dca_moves_timer_from_now() {
    let mut ctx = ExecuteDca { vault: vault_with(5, 3600, 10_000) };
    assert_eq!(execute_dca(&mut ctx, 2_000), Ok(()));
    assert_eq!(ctx.vault.next_exec_ts, 5_600);
    assert_eq!(execute_dca(&mut ctx, 50_000), Ok(()));
    assert_eq!(ctx.vault.next_exec_ts, 53_600);
}

#[test]
fn execute_dca_overflow_is_rejected() {
    let mut ctx = ExecuteDca { vault: vault_with(5, 3600, 7) };
    assert_eq!(execute_dca(&mut ctx, u64::MAX - 10), Err(VaultError::Overflow));
    assert_eq!(ctx.vault.next_exec_ts, 7);
}

#[test]
fn schedule_gate_and_advance() {
    assert!(is_eligible(100, 100));
    assert!(is_eligible(101, 100));
    assert!(!is_eligible(99, 100));
    assert_eq!(advance(100, 60), Some(160));
    assert_eq!(advance(u64::MAX, 1), None);
}

#[test]
fn share_arithmetic() {
    assert_eq!(shares_for_deposit(77), 77);
    assert_eq!(withdrawable_amount(1, 10, 3), 3);
    assert_eq!(withdrawable_amount(2, 10, 3), 6);
    assert_eq!(withdrawable_amount(0, 10, 3), 0);
}

#[test]
fn derived_authority_signs_with_its_bump() {
    let program_id = [42u8; 32];
    let vault = [17u8; 32];
    let (authority, bump) = derive_authority(b"vault", &vault, &program_id).unwrap();
    assert_ne!(authority, vault);
    assert_ne!(authority, program_id);
    assert_eq!(derive_authority(b"vault", &vault, &program_id), Ok((authority, bump)));
    let cap = sign_as(&authority, bump, b"vault", &vault, &program_id).unwrap();
    assert_eq!(cap.authority_key(), authority);
    let (label, key, b) = cap.into_seeds();
    assert_eq!(label, b"vault".to_vec());
    assert_eq!(key, vault);
    assert_eq!(b, bump);
}

#[test]
fn derived_authority_depends_on_vault() {
    let program_id = [42u8; 32];
    let (a, _) = derive_authority(b"vault", &[1u8; 32], &program_id).unwrap();
    let (b, _) = derive_authority(b"vault", &[2u8; 32], &program_id).unwrap();
    assert_ne!(a, b);
}

#[test]
fn sign_as_rejects_wrong_identity() {
    let program_id = [42u8; 32];
    let vault = [17u8; 32];
    let (authority, bump) = derive_authority(b"vault", &vault, &program_id).unwrap();
    let mut other = authority;
    other[0] ^= 1;
    assert_eq!(
        sign_as(&other, bump, b"vault", &vault, &program_id).err(),
        Some(VaultError::InvalidAuthority)
    );
}

#[test]
fn sign_as_rejects_overlong_label() {
    let program_id = [42u8; 32];
    let vault = [17u8; 32];
    let label = [0u8; 33];
    assert_eq!(
        sign_as(&[0u8; 32], 255, &label, &vault, &program_id).err(),
        Some(VaultError::InvalidAuthority)
    );
    assert_eq!(
        derive_authority(&label, &vault, &program_id),
        Err(VaultError::DerivationExhausted)
    );
}

#[test]
fn payout_for_withdraw_cases() {
    assert_eq!(payout_for_withdraw(250, 1000, 1000, 0), Ok(Payout { usdc: 250, target: 0 }));
    assert_eq!(payout_for_withdraw(1, 3, 10, 5), Ok(Payout { usdc: 3, target: 1 }));
    assert_eq!(payout_for_withdraw(1, 0, 10, 5), Err(VaultError::NoSharesOutstanding));
    assert_eq!(payout_for_withdraw(4, 3, 10, 5), Err(VaultError::InsufficientShares));
}
