//! Properties that relate several operations on one pool.
use vstd::prelude::*;

use crate::shares::{lemma_withdrawable_bounded, withdrawable};
use crate::vault::{
    deposit_outcome, initialize_outcome, withdraw_outcome, Deposit, InitializeVault, Payout,
    VaultError, Withdraw,
};

verus! {

/// A pool is created at most once: after a successful `initialize_vault`, a
/// second call on the same pool is rejected as already initialized (and a
/// rejected call changes nothing).
pub proof fn lemma_initialize_only_once(
    ctx: InitializeVault,
    period_seconds: u64,
    fee_bps: u16,
    now: u64,
    period_seconds2: u64,
    fee_bps2: u16,
    now2: u64,
)
    requires
        initialize_outcome(ctx, period_seconds, fee_bps, now) is Ok,
    ensures
        initialize_outcome(
            initialize_outcome(ctx, period_seconds, fee_bps, now)->Ok_0,
            period_seconds2,
            fee_bps2,
            now2,
        ) == Err::<InitializeVault, VaultError>(VaultError::AlreadyInitialized),
{
}

/// The withdraw snapshot of the same holder right after a deposit, with the
/// pool's target-asset balance given.
pub open spec fn after_deposit(d: Deposit, vault_target_amount: u64, user_target_amount: u64) -> Withdraw {
    Withdraw {
        vault: d.vault,
        user_shares_amount: d.user_shares_amount,
        vault_usdc_amount: d.vault_usdc_amount,
        user_usdc_amount: d.user_usdc_amount,
        vault_target_amount,
        user_target_amount,
    }
}

/// In an empty pool, depositing `x` and at once redeeming every share that it
/// gave returns exactly `x` of the deposit asset and nothing of the target
/// asset, and leaves no shares outstanding.
pub proof fn lemma_deposit_withdraw_round_trip(ctx: Deposit, x: u64, user_target_amount: u64)
    requires
        ctx.vault.total_shares == 0,
        ctx.vault_usdc_amount == 0,
        0 < x,
        deposit_outcome(ctx, x) is Ok,
    ensures
        ({
            let (d, shares) = deposit_outcome(ctx, x)->Ok_0;
            let w = withdraw_outcome(after_deposit(d, 0, user_target_amount), shares);
            &&& w is Ok
            &&& w->Ok_0.1 == Payout { usdc: x, target: 0 }
            &&& w->Ok_0.0.vault.total_shares == 0
        }),
{
    let (d, shares) = deposit_outcome(ctx, x)->Ok_0;
    assert(shares == x);
    assert(d.vault.total_shares == x);
    assert(d.vault_usdc_amount == x);
    assert(withdrawable(x as nat, x as nat, x as nat) == x) by (nonlinear_arith)
        requires
            0 < x,
    ;
    assert(withdrawable(x as nat, 0, x as nat) == 0) by (nonlinear_arith)
        requires
            0 < x,
    ;
}

/// A redemption never dilutes the holders who stay: per remaining share, each
/// pool balance is at least what it was per share before.
pub proof fn lemma_withdraw_keeps_remaining_claims(ctx: Withdraw, shares_amount: u64)
    requires
        withdraw_outcome(ctx, shares_amount) is Ok,
    ensures
        ({
            let after = withdraw_outcome(ctx, shares_amount)->Ok_0.0;
            &&& after.vault_usdc_amount * ctx.vault.total_shares >= ctx.vault_usdc_amount
                * after.vault.total_shares
            &&& after.vault_target_amount * ctx.vault.total_shares >= ctx.vault_target_amount
                * after.vault.total_shares
        }),
{
    let total = ctx.vault.total_shares as nat;
    let s = shares_amount as nat;
    let after = withdraw_outcome(ctx, shares_amount)->Ok_0.0;
    lemma_withdrawable_bounded(s, ctx.vault_usdc_amount as nat, total);
    lemma_withdrawable_bounded(s, ctx.vault_target_amount as nat, total);
    lemma_remaining_claim(s, ctx.vault_usdc_amount as nat, total);
    lemma_remaining_claim(s, ctx.vault_target_amount as nat, total);
    assert(after.vault_usdc_amount == ctx.vault_usdc_amount - withdrawable(
        s,
        ctx.vault_usdc_amount as nat,
        total,
    ));
    assert(after.vault_target_amount == ctx.vault_target_amount - withdrawable(
        s,
        ctx.vault_target_amount as nat,
        total,
    ));
    assert(after.vault.total_shares == total - s);
}

proof fn lemma_remaining_claim(s: nat, balance: nat, total: nat)
    requires
        0 < total,
        s <= total,
    ensures
        (balance - withdrawable(s, balance, total)) * total >= balance * (total - s),
{
    let q = withdrawable(s, balance, total);
    assert(q * total <= s * balance) by (nonlinear_arith)
        requires
            q == (s * balance) / total,
            0 < total,
    ;
    assert((balance - q) * total >= balance * (total - s)) by (nonlinear_arith)
        requires
            q * total <= s * balance,
            s <= total,
    ;
}

} // verus!
