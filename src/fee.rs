//! The protocol fee: a rate in basis points taken from the gross amount.

use vstd::prelude::*;
use vstd::arithmetic::div_mod::lemma_fundamental_div_mod;
use crate::u256::U256;

verus! {

/// One whole in basis points; also the highest accepted fee rate.
pub const MAX_FEE_BPS: u32 = 10_000;

/// The fee on `amount` at `fee_bps` basis points, rounded down.
pub open spec fn fee_of(amount: nat, fee_bps: nat) -> nat {
    if fee_bps == 0 {
        0
    } else {
        amount * fee_bps / 10_000
    }
}

/// `amount` less `fee`, clamped at zero.
pub open spec fn clamped_sub(amount: nat, fee: nat) -> nat {
    if fee > amount {
        0
    } else {
        (amount - fee) as nat
    }
}

/// What is left of `amount` once the fee at `fee_bps` is taken.
pub open spec fn net_of(amount: nat, fee_bps: nat) -> nat {
    clamped_sub(amount, fee_of(amount, fee_bps))
}

/// The fee on `amount` at `fee_bps` basis points.
pub fn compute_fee(amount: &U256, fee_bps: u32) -> (fee: U256)
    requires
        fee_bps <= MAX_FEE_BPS,
    ensures
        fee.value() == fee_of(amount.value(), fee_bps as nat),
{
    if fee_bps == 0 {
        U256::zero()
    } else {
        amount.mul_div(fee_bps, MAX_FEE_BPS)
    }
}

/// `amount` less `fee`; zero where the fee is larger.
pub fn deduct_fee(amount: &U256, fee: &U256) -> (net: U256)
    ensures
        net.value() == clamped_sub(amount.value(), fee.value()),
{
    match amount.checked_sub(fee) {
        Some(net) => net,
        None => U256::zero(),
    }
}

/// The amount that is left once the fee at `fee_bps` is taken from `amount`.
pub fn net_amount(amount: &U256, fee_bps: u32) -> (net: U256)
    requires
        fee_bps <= MAX_FEE_BPS,
    ensures
        net.value() == net_of(amount.value(), fee_bps as nat),
{
    let fee = compute_fee(amount, fee_bps);
    deduct_fee(amount, &fee)
}

/// At any rate from 0 to 10000 basis points the fee never exceeds the amount,
/// and fee and net amount add up to the amount.
pub proof fn lemma_fee_split(amount: nat, fee_bps: nat)
    requires
        fee_bps <= 10_000,
    ensures
        fee_of(amount, fee_bps) <= amount,
        fee_of(amount, fee_bps) + net_of(amount, fee_bps) == amount,
{
    if fee_bps > 0 {
        let x = amount * fee_bps;
        lemma_fundamental_div_mod(x as int, 10_000);
        assert(x <= amount * 10_000) by (nonlinear_arith)
            requires
                fee_bps <= 10_000,
                x == amount * fee_bps;
    }
}

} // verus!
