//! Share issuance and proportional redemption arithmetic.
use vstd::prelude::*;

use crate::vault::{Payout, VaultError};

verus! {

/// Proportional slice of a pool balance owed to `shares` out of `total`
/// outstanding shares, rounded down so that the pool keeps the remainder.
pub open spec fn withdrawable(shares: nat, balance: nat, total: nat) -> nat
    recommends
        total > 0,
{
    (shares * balance / total) as nat
}

/// Shares issued for a deposit: one share per unit of the deposit asset.
pub fn shares_for_deposit(deposit_amount: u64) -> (r: u64)
    ensures
        r == deposit_amount,
{
    deposit_amount
}

/// `floor(shares * balance / total)`, computed in a widened intermediate.
pub fn withdrawable_amount(shares: u64, balance: u64, total: u64) -> (r: u64)
    requires
        0 < total,
        shares <= total,
    ensures
        r == withdrawable(shares as nat, balance as nat, total as nat),
        r <= balance,
{
    proof {
        lemma_widened_product_fits(shares as nat, balance as nat);
    }
    let product: u128 = (shares as u128) * (balance as u128);
    let q: u128 = product / (total as u128);
    proof {
        lemma_withdrawable_bounded(shares as nat, balance as nat, total as nat);
    }
    q as u64
}

/// Payout of both pool assets for redeeming `share_amount` of
/// `total_shares` outstanding shares.
pub fn payout_for_withdraw(
    share_amount: u64,
    total_shares: u64,
    pool_deposit_balance: u64,
    pool_target_balance: u64,
) -> (r: Result<Payout, VaultError>)
    ensures
        total_shares == 0 ==> r == Err::<Payout, VaultError>(VaultError::NoSharesOutstanding),
        0 < total_shares < share_amount ==> r == Err::<Payout, VaultError>(
            VaultError::InsufficientShares,
        ),
        0 < total_shares && share_amount <= total_shares ==> r is Ok,
        r matches Ok(p) ==> p.usdc == withdrawable(
            share_amount as nat,
            pool_deposit_balance as nat,
            total_shares as nat,
        ) && p.target == withdrawable(
            share_amount as nat,
            pool_target_balance as nat,
            total_shares as nat,
        ),
        r matches Ok(p) ==> p.usdc <= pool_deposit_balance && p.target <= pool_target_balance,
{
    if total_shares == 0 {
        return Err(VaultError::NoSharesOutstanding);
    }
    if share_amount > total_shares {
        return Err(VaultError::InsufficientShares);
    }
    let usdc = withdrawable_amount(share_amount, pool_deposit_balance, total_shares);
    let target = withdrawable_amount(share_amount, pool_target_balance, total_shares);
    Ok(Payout { usdc, target })
}

/// The product of two 64-bit quantities fits in 128 bits.
proof fn lemma_widened_product_fits(a: nat, b: nat)
    requires
        a <= u64::MAX,
        b <= u64::MAX,
    ensures
        a * b <= u128::MAX,
{
    assert(a * b <= (u64::MAX as nat) * (u64::MAX as nat)) by (nonlinear_arith)
        requires
            a <= u64::MAX,
            b <= u64::MAX,
    ;
}

/// A redemption of at most all outstanding shares never pays out more than
/// the pool holds.
pub proof fn lemma_withdrawable_bounded(shares: nat, balance: nat, total: nat)
    requires
        0 < total,
        shares <= total,
    ensures
        withdrawable(shares, balance, total) <= balance,
{
    assert(shares * balance <= total * balance) by (nonlinear_arith)
        requires
            shares <= total,
    ;
    assert((shares * balance) / total <= (total * balance) / total) by (nonlinear_arith)
        requires
            shares * balance <= total * balance,
            0 < total,
    ;
    assert((total * balance) / total == balance) by (nonlinear_arith)
        requires
            0 < total,
    ;
}

} // verus!
