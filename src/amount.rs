use vstd::prelude::*;
use vstd::arithmetic::div_mod::{lemma_div_is_ordered, lemma_basic_div};
use crate::error::BridgeError;

verus! {

/// Number of decimal places of an amount as it travels between chains.
pub const CANONICAL_DECIMALS: u8 = 8;

pub open spec fn pow10(n: nat) -> nat
    decreases n,
{
    if n == 0 {
        1
    } else {
        10 * pow10((n - 1) as nat)
    }
}

/// The value, in units of a token with `decimals` places, of a canonical amount.
/// Above eight places the amount is scaled up; at or below it, sub-unit digits
/// are floored away and cannot be recovered.
pub open spec fn local_value(canonical: nat, decimals: nat) -> nat {
    if decimals > 8 {
        canonical * pow10((decimals - 8) as nat)
    } else {
        canonical / pow10((8 - decimals) as nat)
    }
}

/// The canonical value of an amount held in units of a token with `decimals` places.
pub open spec fn canonical_value(local: nat, decimals: nat) -> nat {
    if decimals > 8 {
        local / pow10((decimals - 8) as nat)
    } else {
        local * pow10((8 - decimals) as nat)
    }
}

/// What a transfer of `amount` carrying `fee` pays out locally: the net part
/// for the recipient and the fee part for the fee collector.
pub open spec fn settlement(amount: nat, fee: nat, decimals: nat) -> Result<(nat, nat), BridgeError> {
    let a = local_value(amount, decimals);
    let f = local_value(fee, decimals);
    if a > u64::MAX {
        Err(BridgeError::ArithmeticOverflow)
    } else if f > u64::MAX {
        Err(BridgeError::ArithmeticOverflow)
    } else if f > a {
        Err(BridgeError::FeeExceedsAmount)
    } else {
        Ok(((a - f) as nat, f))
    }
}

pub proof fn lemma_pow10_positive(n: nat)
    ensures
        pow10(n) >= 1,
    decreases n,
{
    if n > 0 {
        lemma_pow10_positive((n - 1) as nat);
    }
}

pub proof fn lemma_pow10_monotonic(a: nat, b: nat)
    requires
        a <= b,
    ensures
        pow10(a) <= pow10(b),
    decreases b,
{
    if a < b {
        lemma_pow10_monotonic(a, (b - 1) as nat);
        lemma_pow10_positive((b - 1) as nat);
    }
}

proof fn lemma_pow10_at_most_eight(n: nat)
    requires
        n <= 8,
    ensures
        pow10(n) <= 100_000_000,
{
    reveal_with_fuel(pow10, 9);
    lemma_pow10_monotonic(n, 8);
}

/// `10^exp`, or `None` where it does not fit in 64 bits.
fn scale_factor(exp: u8) -> (r: Option<u64>)
    ensures
        r is Some <==> pow10(exp as nat) <= u64::MAX,
        r matches Some(s) ==> s == pow10(exp as nat),
{
    let mut s: u64 = 1;
    let mut i: u8 = 0;
    while i < exp
        invariant
            i <= exp,
            s == pow10(i as nat),
        decreases exp - i,
    {
        match s.checked_mul(10) {
            Some(t) => {
                s = t;
                i = i + 1;
            },
            None => {
                proof {
                    lemma_pow10_monotonic((i + 1) as nat, exp as nat);
                }
                return None;
            },
        }
    }
    Some(s)
}

/// Converts a canonical amount to the units of a token with `decimals` places.
/// Fails with `ArithmeticOverflow` exactly when the result does not fit in 64 bits.
pub fn to_local(canonical: u128, decimals: u8) -> (r: Result<u64, BridgeError>)
    ensures
        r matches Ok(v) ==> v == local_value(canonical as nat, decimals as nat),
        r is Err <==> local_value(canonical as nat, decimals as nat) > u64::MAX,
        r is Err ==> r == Err::<u64, BridgeError>(BridgeError::ArithmeticOverflow),
{
    if decimals > CANONICAL_DECIMALS {
        let exp = decimals - CANONICAL_DECIMALS;
        if canonical == 0 {
            return Ok(0);
        }
        match scale_factor(exp) {
            None => {
                proof {
                    let p = pow10(exp as nat);
                    assert(canonical * p >= p) by (nonlinear_arith)
                        requires canonical >= 1, p >= 0;
                }
                Err(BridgeError::ArithmeticOverflow)
            },
            Some(s) => {
                proof {
                    lemma_pow10_positive(exp as nat);
                }
                if canonical > u64::MAX as u128 {
                    proof {
                        assert(canonical * s >= canonical) by (nonlinear_arith)
                            requires s >= 1;
                    }
                    Err(BridgeError::ArithmeticOverflow)
                } else {
                    match (canonical as u64).checked_mul(s) {
                        Some(v) => Ok(v),
                        None => Err(BridgeError::ArithmeticOverflow),
                    }
                }
            },
        }
    } else {
        let exp = CANONICAL_DECIMALS - decimals;
        proof {
            lemma_pow10_at_most_eight(exp as nat);
            lemma_pow10_positive(exp as nat);
        }
        match scale_factor(exp) {
            None => Err(BridgeError::ArithmeticOverflow),
            Some(s) => {
                let q = canonical / (s as u128);
                if q > u64::MAX as u128 {
                    Err(BridgeError::ArithmeticOverflow)
                } else {
                    Ok(q as u64)
                }
            },
        }
    }
}

/// Converts an amount held in units of a token with `decimals` places to the
/// canonical precision. Above eight places the extra digits are floored away.
pub fn to_canonical(local: u64, decimals: u8) -> (r: u128)
    ensures
        r == canonical_value(local as nat, decimals as nat),
{
    if decimals > CANONICAL_DECIMALS {
        let exp = decimals - CANONICAL_DECIMALS;
        match scale_factor(exp) {
            None => {
                proof {
                    lemma_basic_div(local as int, pow10(exp as nat) as int);
                }
                0
            },
            Some(s) => {
                proof {
                    lemma_pow10_positive(exp as nat);
                }
                (local as u128) / (s as u128)
            },
        }
    } else {
        let exp = CANONICAL_DECIMALS - decimals;
        proof {
            lemma_pow10_at_most_eight(exp as nat);
        }
        match scale_factor(exp) {
            None => 0,
            Some(s) => {
                proof {
                    assert((local as nat) * (s as nat) <= u64::MAX * 100_000_000) by (nonlinear_arith)
                        requires local <= u64::MAX, s <= 100_000_000;
                }
                (local as u128) * (s as u128)
            },
        }
    }
}

/// Normalizes an amount and its fee to the local precision and splits the
/// amount into the net part for the recipient and the fee part.
pub fn settle_amounts(amount: u128, fee: u128, decimals: u8) -> (r: Result<(u64, u64), BridgeError>)
    ensures
        r matches Ok((n, f)) ==> settlement(amount as nat, fee as nat, decimals as nat)
            == Ok::<(nat, nat), BridgeError>((n as nat, f as nat)),
        r matches Err(e) ==> settlement(amount as nat, fee as nat, decimals as nat)
            == Err::<(nat, nat), BridgeError>(e),
{
    let a = match to_local(amount, decimals) {
        Ok(v) => v,
        Err(e) => {
            return Err(e);
        },
    };
    let f = match to_local(fee, decimals) {
        Ok(v) => v,
        Err(e) => {
            return Err(e);
        },
    };
    match a.checked_sub(f) {
        Some(n) => Ok((n, f)),
        None => Err(BridgeError::FeeExceedsAmount),
    }
}

/// Normalizing to eight places changes nothing; to eighteen places it
/// multiplies by exactly `10^10`.
pub proof fn lemma_truncation_determinism(canonical: nat)
    ensures
        local_value(canonical, 8) == canonical,
        local_value(canonical, 18) == canonical * 10_000_000_000,
{
    reveal_with_fuel(pow10, 11);
    assert(canonical / 1 == canonical) by (nonlinear_arith);
}

/// A fee no larger than its amount stays no larger after normalization, and
/// the net part and the fee part add up to the normalized amount: no value is
/// created or lost.
pub proof fn lemma_amount_conservation(amount: nat, fee: nat, decimals: nat)
    requires
        fee <= amount,
        local_value(amount, decimals) <= u64::MAX,
    ensures
        settlement(amount, fee, decimals) matches Ok((n, f)) && n + f == local_value(amount, decimals)
            && f == local_value(fee, decimals),
{
    if decimals > 8 {
        let p = pow10((decimals - 8) as nat);
        assert(fee * p <= amount * p) by (nonlinear_arith)
            requires fee <= amount;
    } else {
        let p = pow10((8 - decimals) as nat);
        lemma_pow10_positive((8 - decimals) as nat);
        lemma_div_is_ordered(fee as int, amount as int, p as int);
    }
}

} // verus!
