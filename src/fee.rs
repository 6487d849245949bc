use vstd::prelude::*;

use crate::error::ContractError;

verus! {

/// Basis points in a whole: a rate of this many takes the full amount.
pub const BPS_DENOMINATOR: u128 = 10000;

/// The fee on `amount` at `rate_bps` basis points, rounded down.
pub open spec fn fee_of(amount: u128, rate_bps: u128) -> int {
    (amount as int) * (rate_bps as int) / 10000
}

/// A rate that the ledger may hold.
pub open spec fn valid_rate(rate_bps: u128) -> bool {
    rate_bps <= BPS_DENOMINATOR
}

/// Computes `floor(amount * rate_bps / 10000)` exactly, for any `u128` amount.
pub fn compute_fee(amount: u128, rate_bps: u128) -> (fee: u128)
    requires
        valid_rate(rate_bps),
    ensures
        fee as int == fee_of(amount, rate_bps),
        fee <= amount,
{
    let whole: u128 = amount / BPS_DENOMINATOR;
    let rest: u128 = amount % BPS_DENOMINATOR;
    proof {
        let a = amount as int;
        let r = rate_bps as int;
        let q = whole as int;
        let m = rest as int;
        assert(a == 10000 * q + m && 0 <= m < 10000);
        assert(q * r <= q * 10000) by (nonlinear_arith)
            requires 0 <= q, 0 <= r <= 10000;
        assert(m * r <= m * 10000) by (nonlinear_arith)
            requires 0 <= m, 0 <= r <= 10000;
        assert(a * r == 10000 * (q * r) + m * r) by (nonlinear_arith)
            requires a == 10000 * q + m;
        assert((10000 * (q * r) + m * r) / 10000 == q * r + (m * r) / 10000) by (nonlinear_arith)
            requires 0 <= q * r, 0 <= m * r;
        assert((m * r) / 10000 <= m) by (nonlinear_arith)
            requires m * r <= m * 10000, 0 <= m * r;
    }
    let fee: u128 = whole * rate_bps + rest * rate_bps / BPS_DENOMINATOR;
    fee
}

/// Accepts `new_rate` as the rate to store, or refuses it with `InvalidRate`
/// when it exceeds 10000 basis points.
pub fn check_fee_rate(new_rate: u128) -> (r: Result<u128, ContractError>)
    ensures
        valid_rate(new_rate) <==> r is Ok,
        valid_rate(new_rate) ==> r == Ok::<u128, ContractError>(new_rate),
        !valid_rate(new_rate) ==> r == Err::<u128, ContractError>(ContractError::InvalidRate),
{
    if new_rate > BPS_DENOMINATOR {
        Err(ContractError::InvalidRate)
    } else {
        Ok(new_rate)
    }
}

/// Lets `caller` through only when it is `admin`.
pub fn authorize(caller: &String, admin: &String) -> (r: Result<(), ContractError>)
    ensures
        r is Ok <==> caller@ == admin@,
        caller@ != admin@ ==> r == Err::<(), ContractError>(ContractError::Unauthorized),
{
    if caller.eq(admin) {
        Ok(())
    } else {
        Err(ContractError::Unauthorized)
    }
}

} // verus!
