//! The vault ledger and the ledger transitions of the four entry points.
//!
//! Each entry point works on a plain snapshot of the accounts it reads. It
//! either fails and leaves the snapshot untouched, or applies every effect of
//! the operation (asset movements, share mint or burn, ledger update) at once
//! and reports the amounts that the asset ledger has to move.
use vstd::prelude::*;

use crate::schedule::advance;
use crate::shares::{payout_for_withdraw, shares_for_deposit, withdrawable};

verus! {

/// Persistent record of one pool.
#[derive(Clone, Copy, Debug)]
pub struct Vault {
    pub admin: [u8; 32],
    pub usdc_mint: [u8; 32],
    pub target_mint: [u8; 32],
    pub shares_mint: [u8; 32],
    pub period_seconds: u64,
    pub next_exec_ts: u64,
    pub fee_bps: u16,
    pub total_shares: u64,
}

/// Why an operation was rejected. A rejected operation changes nothing.
#[derive(Clone, Copy, Debug, PartialEq, Eq, Structural)]
pub enum VaultError {
    /// A ledger already exists for this pool.
    AlreadyInitialized,
    /// An amount would leave the range of a 64-bit quantity.
    Overflow,
    /// The depositor holds less of the deposit asset than it offers.
    InsufficientBalance,
    /// The holder tries to redeem more shares than it owns or than exist.
    InsufficientShares,
    /// No shares are outstanding, so there is nothing to redeem against.
    NoSharesOutstanding,
    /// No disambiguation value yields a program-controlled identity.
    DerivationExhausted,
    /// The seeds presented do not derive the expected signing identity.
    InvalidAuthority,
}

/// Accounts read by `initialize_vault`: the pool's ledger slot, empty until
/// the pool is created, and the identities recorded in it.
#[derive(Clone, Copy, Debug)]
pub struct InitializeVault {
    pub vault: Option<Vault>,
    pub admin: [u8; 32],
    pub usdc_mint: [u8; 32],
    pub target_mint: [u8; 32],
    pub shares_mint: [u8; 32],
}

/// Accounts read and written by `deposit`, as balances.
#[derive(Clone, Copy, Debug)]
pub struct Deposit {
    pub vault: Vault,
    pub user_usdc_amount: u64,
    pub user_shares_amount: u64,
    pub vault_usdc_amount: u64,
}

/// Accounts read and written by `withdraw`, as balances.
#[derive(Clone, Copy, Debug)]
pub struct Withdraw {
    pub vault: Vault,
    pub user_shares_amount: u64,
    pub vault_usdc_amount: u64,
    pub user_usdc_amount: u64,
    pub vault_target_amount: u64,
    pub user_target_amount: u64,
}

/// Accounts written by `execute_dca`.
#[derive(Clone, Copy, Debug)]
pub struct ExecuteDca {
    pub vault: Vault,
}

/// Amounts paid out of the pool to a redeeming holder.
#[derive(Clone, Copy, Debug, PartialEq, Eq, Structural)]
pub struct Payout {
    pub usdc: u64,
    pub target: u64,
}

impl Payout {
    /// Whether the target-asset transfer is made: it is skipped when empty.
    pub fn sends_target(&self) -> (r: bool)
        ensures
            r == (self.target > 0),
    {
        self.target > 0
    }
}

/// The ledger of a freshly created pool.
pub open spec fn fresh_vault(ctx: InitializeVault, period_seconds: u64, fee_bps: u16, now: u64) -> Vault {
    Vault {
        admin: ctx.admin,
        usdc_mint: ctx.usdc_mint,
        target_mint: ctx.target_mint,
        shares_mint: ctx.shares_mint,
        period_seconds,
        next_exec_ts: now,
        fee_bps,
        total_shares: 0,
    }
}

/// Outcome of `initialize_vault`: the accounts afterwards, or the rejection.
pub open spec fn initialize_outcome(
    ctx: InitializeVault,
    period_seconds: u64,
    fee_bps: u16,
    now: u64,
) -> Result<InitializeVault, VaultError> {
    if ctx.vault is Some {
        Err(VaultError::AlreadyInitialized)
    } else {
        Ok(InitializeVault { vault: Some(fresh_vault(ctx, period_seconds, fee_bps, now)), ..ctx })
    }
}

/// Outcome of `deposit`: the accounts afterwards and the shares minted.
pub open spec fn deposit_outcome(ctx: Deposit, usdc_amount: u64) -> Result<(Deposit, u64), VaultError> {
    let shares = usdc_amount;
    if ctx.user_usdc_amount < usdc_amount {
        Err(VaultError::InsufficientBalance)
    } else if ctx.vault_usdc_amount + usdc_amount > u64::MAX || ctx.user_shares_amount + shares
        > u64::MAX || ctx.vault.total_shares + shares > u64::MAX {
        Err(VaultError::Overflow)
    } else {
        Ok(
            (
                Deposit {
                    vault: Vault {
                        total_shares: (ctx.vault.total_shares + shares) as u64,
                        ..ctx.vault
                    },
                    user_usdc_amount: (ctx.user_usdc_amount - usdc_amount) as u64,
                    user_shares_amount: (ctx.user_shares_amount + shares) as u64,
                    vault_usdc_amount: (ctx.vault_usdc_amount + usdc_amount) as u64,
                },
                shares,
            ),
        )
    }
}

/// Outcome of `withdraw`: the accounts afterwards and the payout, computed
/// against the pool balances as they stood before the redemption.
pub open spec fn withdraw_outcome(ctx: Withdraw, shares_amount: u64) -> Result<(Withdraw, Payout), VaultError> {
    let total = ctx.vault.total_shares;
    if total == 0 {
        Err(VaultError::NoSharesOutstanding)
    } else if shares_amount > total || shares_amount > ctx.user_shares_amount {
        Err(VaultError::InsufficientShares)
    } else {
        let usdc = withdrawable(shares_amount as nat, ctx.vault_usdc_amount as nat, total as nat);
        let target = withdrawable(
            shares_amount as nat,
            ctx.vault_target_amount as nat,
            total as nat,
        );
        if ctx.user_usdc_amount + usdc > u64::MAX || ctx.user_target_amount + target > u64::MAX {
            Err(VaultError::Overflow)
        } else {
            Ok(
                (
                    Withdraw {
                        vault: Vault { total_shares: (total - shares_amount) as u64, ..ctx.vault },
                        user_shares_amount: (ctx.user_shares_amount - shares_amount) as u64,
                        vault_usdc_amount: (ctx.vault_usdc_amount - usdc) as u64,
                        user_usdc_amount: (ctx.user_usdc_amount + usdc) as u64,
                        vault_target_amount: (ctx.vault_target_amount - target) as u64,
                        user_target_amount: (ctx.user_target_amount + target) as u64,
                    },
                    Payout { usdc: usdc as u64, target: target as u64 },
                ),
            )
        }
    }
}

/// Outcome of `execute_dca` at time `now`: the next rebalance is due one
/// period after `now`, whatever was scheduled before.
pub open spec fn execute_dca_outcome(ctx: ExecuteDca, now: u64) -> Result<ExecuteDca, VaultError> {
    if now + ctx.vault.period_seconds > u64::MAX {
        Err(VaultError::Overflow)
    } else {
        Ok(
            ExecuteDca {
                vault: Vault {
                    next_exec_ts: (now + ctx.vault.period_seconds) as u64,
                    ..ctx.vault
                },
            },
        )
    }
}

/// Creates the pool's ledger at time `now`; a pool is created only once.
pub fn initialize_vault(ctx: &mut InitializeVault, period_seconds: u64, fee_bps: u16, now: u64) -> (r:
    Result<(), VaultError>)
    ensures
        initialize_outcome(*old(ctx), period_seconds, fee_bps, now) == (match r {
            Ok(_) => Ok(*final(ctx)),
            Err(e) => Err(e),
        }),
        r is Err ==> *final(ctx) == *old(ctx),
{
    if ctx.vault.is_some() {
        return Err(VaultError::AlreadyInitialized);
    }
    ctx.vault = Some(
        Vault {
            admin: ctx.admin,
            usdc_mint: ctx.usdc_mint,
            target_mint: ctx.target_mint,
            shares_mint: ctx.shares_mint,
            period_seconds,
            next_exec_ts: now,
            fee_bps,
            total_shares: 0,
        },
    );
    Ok(())
}

/// Takes `usdc_amount` of the deposit asset into the pool and issues the
/// depositor one share per unit; returns the number of shares minted. A zero
/// deposit is accepted and moves nothing.
pub fn deposit(ctx: &mut Deposit, usdc_amount: u64) -> (r: Result<u64, VaultError>)
    ensures
        deposit_outcome(*old(ctx), usdc_amount) == (match r {
            Ok(shares) => Ok((*final(ctx), shares)),
            Err(e) => Err(e),
        }),
        r is Err ==> *final(ctx) == *old(ctx),
        r matches Ok(shares) ==> shares == usdc_amount && final(ctx).vault.total_shares
            == old(ctx).vault.total_shares + usdc_amount && final(ctx).user_shares_amount
            == old(ctx).user_shares_amount + usdc_amount,
{
    let shares_to_mint = shares_for_deposit(usdc_amount);
    if ctx.user_usdc_amount < usdc_amount {
        return Err(VaultError::InsufficientBalance);
    }
    let vault_usdc = match ctx.vault_usdc_amount.checked_add(usdc_amount) {
        Some(v) => v,
        None => return Err(VaultError::Overflow),
    };
    let user_shares = match ctx.user_shares_amount.checked_add(shares_to_mint) {
        Some(v) => v,
        None => return Err(VaultError::Overflow),
    };
    let total_shares = match ctx.vault.total_shares.checked_add(shares_to_mint) {
        Some(v) => v,
        None => return Err(VaultError::Overflow),
    };
    ctx.user_usdc_amount = ctx.user_usdc_amount - usdc_amount;
    ctx.vault_usdc_amount = vault_usdc;
    ctx.user_shares_amount = user_shares;
    ctx.vault.total_shares = total_shares;
    Ok(shares_to_mint)
}

/// Redeems `shares_amount` shares for a proportional slice of both pool
/// balances, rounded down in favour of the pool.
pub fn withdraw(ctx: &mut Withdraw, shares_amount: u64) -> (r: Result<Payout, VaultError>)
    ensures
        withdraw_outcome(*old(ctx), shares_amount) == (match r {
            Ok(p) => Ok((*final(ctx), p)),
            Err(e) => Err(e),
        }),
        r is Err ==> *final(ctx) == *old(ctx),
        old(ctx).vault.total_shares == 0 ==> r == Err::<Payout, VaultError>(
            VaultError::NoSharesOutstanding,
        ),
        r matches Ok(p) ==> final(ctx).vault.total_shares == old(ctx).vault.total_shares
            - shares_amount && p.usdc == withdrawable(
            shares_amount as nat,
            old(ctx).vault_usdc_amount as nat,
            old(ctx).vault.total_shares as nat,
        ) && p.target == withdrawable(
            shares_amount as nat,
            old(ctx).vault_target_amount as nat,
            old(ctx).vault.total_shares as nat,
        ),
{
    let total_shares = ctx.vault.total_shares;
    let payout = match payout_for_withdraw(
        shares_amount,
        total_shares,
        ctx.vault_usdc_amount,
        ctx.vault_target_amount,
    ) {
        Ok(p) => p,
        Err(e) => return Err(e),
    };
    if shares_amount > ctx.user_shares_amount {
        return Err(VaultError::InsufficientShares);
    }
    let usdc = payout.usdc;
    let target = payout.target;
    let user_usdc = match ctx.user_usdc_amount.checked_add(usdc) {
        Some(v) => v,
        None => return Err(VaultError::Overflow),
    };
    let user_target = match ctx.user_target_amount.checked_add(target) {
        Some(v) => v,
        None => return Err(VaultError::Overflow),
    };
    ctx.user_shares_amount = ctx.user_shares_amount - shares_amount;
    ctx.vault_usdc_amount = ctx.vault_usdc_amount - usdc;
    ctx.user_usdc_amount = user_usdc;
    ctx.vault_target_amount = ctx.vault_target_amount - target;
    ctx.user_target_amount = user_target;
    ctx.vault.total_shares = total_shares - shares_amount;
    Ok(Payout { usdc, target })
}

/// Advances the rebalance timer to one period after `now`. The call is not
/// gated on the timer having run out; `is_eligible` tells whether it has.
pub fn execute_dca(ctx: &mut ExecuteDca, now: u64) -> (r: Result<(), VaultError>)
    ensures
        execute_dca_outcome(*old(ctx), now) == (match r {
            Ok(_) => Ok(*final(ctx)),
            Err(e) => Err(e),
        }),
        r is Err ==> *final(ctx) == *old(ctx),
        r is Ok <==> now + old(ctx).vault.period_seconds <= u64::MAX,
        r is Ok ==> final(ctx).vault.next_exec_ts == now + old(ctx).vault.period_seconds,
{
    match advance(now, ctx.vault.period_seconds) {
        Some(next) => {
            ctx.vault.next_exec_ts = next;
            Ok(())
        },
        None => Err(VaultError::Overflow),
    }
}

} // verus!
