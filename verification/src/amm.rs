use vstd::prelude::*;
use crate::BridgeError;
use crate::amount::Amount;
use crate::amount::amount_bound;

verus! {

/// The constant-product quote with the venue's fixed 0.3% fee, truncating:
/// `(input * output_reserve * 997) / (input_reserve * 1000 + input * 997)`.
pub open spec fn amm_output(input_amount: nat, input_reserve: nat, output_reserve: nat) -> nat {
    (input_amount * output_reserve * 997) / (input_reserve * 1000 + input_amount * 997)
}

/// The slippage-protected lower bound on a quoted output: the quote less the
/// fixed 2.5% tolerance, as `expected * 39 / 40`, multiplying before dividing.
pub open spec fn min_acceptable_output_spec(expected: nat) -> nat {
    (expected * 39) / 40
}

/// Quotient comparison by cross multiplication: `n1/d1 <= n2/d2` whenever
/// `n1 * d2 <= n2 * d1`.
pub proof fn lemma_div_cross_le(n1: nat, d1: nat, n2: nat, d2: nat)
    requires
        d1 > 0,
        d2 > 0,
        n1 * d2 <= n2 * d1,
    ensures
        n1 / d1 <= n2 / d2,
{
    let q = (n1 / d1) as nat;
    vstd::arithmetic::div_mod::lemma_fundamental_div_mod(n1 as int, d1 as int);
    assert(q * d1 <= n1) by (nonlinear_arith)
        requires
            n1 as int == d1 as int * q + (n1 as int) % (d1 as int),
            (n1 as int) % (d1 as int) >= 0,
    ;
    assert((q * d2) * d1 <= n2 * d1) by (nonlinear_arith)
        requires
            q * d1 <= n1,
            n1 * d2 <= n2 * d1,
            d2 > 0,
    ;
    assert(q * d2 <= n2) by (nonlinear_arith)
        requires
            (q * d2) * d1 <= n2 * d1,
            d1 > 0,
    ;
    vstd::arithmetic::div_mod::lemma_div_by_multiple(q as int, d2 as int);
    vstd::arithmetic::div_mod::lemma_div_is_ordered((q * d2) as int, n2 as int, d2 as int);
}

/// Law: with a positive input reserve and fixed reserves, the quoted output
/// is monotonically non-decreasing in the input amount.
pub proof fn lemma_amm_output_monotonic(a1: nat, a2: nat, input_reserve: nat, output_reserve: nat)
    requires
        input_reserve > 0,
        a1 <= a2,
    ensures
        amm_output(a1, input_reserve, output_reserve) <= amm_output(
            a2,
            input_reserve,
            output_reserve,
        ),
{
    let n1 = a1 * output_reserve * 997;
    let d1 = input_reserve * 1000 + a1 * 997;
    let n2 = a2 * output_reserve * 997;
    let d2 = input_reserve * 1000 + a2 * 997;
    assert(d1 > 0 && d2 > 0) by (nonlinear_arith)
        requires
            input_reserve >= 1,
            d1 == input_reserve * 1000 + a1 * 997,
            d2 == input_reserve * 1000 + a2 * 997,
    ;
    assert(n1 * d2 <= n2 * d1) by (nonlinear_arith)
        requires
            a1 <= a2,
            n1 == a1 * output_reserve * 997,
            d1 == input_reserve * 1000 + a1 * 997,
            n2 == a2 * output_reserve * 997,
            d2 == input_reserve * 1000 + a2 * 997,
    ;
    lemma_div_cross_le(n1, d1, n2, d2);
}

/// The expected output of trading `input_amount` against a pool holding
/// `input_reserve` of the paid asset and `output_reserve` of the bought one.
///
/// Fails only when an intermediate product or sum leaves the 256-bit range.
pub fn quote_output(input_amount: &Amount, input_reserve: &Amount, output_reserve: &Amount) -> (r:
    Result<Amount, BridgeError>)
    requires
        input_reserve@ > 0,
    ensures
        r is Ok <==> {
            &&& input_amount@ * output_reserve@ * 997 < amount_bound()
            &&& input_reserve@ * 1000 + input_amount@ * 997 < amount_bound()
        },
        r is Ok ==> r->Ok_0@ == amm_output(input_amount@, input_reserve@, output_reserve@),
        r is Err ==> r->Err_0 == BridgeError::AmountOverflow,
{
    let c997 = Amount::from_u64(997);
    let c1000 = Amount::from_u64(1000);
    let num_partial = match input_amount.checked_mul(output_reserve) {
        Some(v) => v,
        None => {
            proof {
                assert(input_amount@ * output_reserve@ <= input_amount@ * output_reserve@ * 997)
                    by (nonlinear_arith);
            }
            return Err(BridgeError::AmountOverflow);
        },
    };
    let numerator = match num_partial.checked_mul(&c997) {
        Some(v) => v,
        None => {
            return Err(BridgeError::AmountOverflow);
        },
    };
    let den_reserve = match input_reserve.checked_mul(&c1000) {
        Some(v) => v,
        None => {
            return Err(BridgeError::AmountOverflow);
        },
    };
    let den_input = match input_amount.checked_mul(&c997) {
        Some(v) => v,
        None => {
            return Err(BridgeError::AmountOverflow);
        },
    };
    let denominator = match den_reserve.checked_add(&den_input) {
        Some(v) => v,
        None => {
            return Err(BridgeError::AmountOverflow);
        },
    };
    proof {
        assert(denominator@ > 0) by (nonlinear_arith)
            requires
                denominator@ == input_reserve@ * 1000 + input_amount@ * 997,
                input_reserve@ >= 1,
        ;
    }
    match numerator.checked_div(&denominator) {
        Some(v) => Ok(v),
        None => Err(BridgeError::AmountOverflow),
    }
}

/// The minimum output bound submitted with a swap: `expected * 39 / 40`,
/// multiplying before dividing so no precision is lost.
///
/// Fails only when `expected * 39` leaves the 256-bit range.
pub fn min_acceptable_output(expected: &Amount) -> (r: Result<Amount, BridgeError>)
    ensures
        r is Ok <==> expected@ * 39 < amount_bound(),
        r is Ok ==> r->Ok_0@ == min_acceptable_output_spec(expected@),
        r is Err ==> r->Err_0 == BridgeError::AmountOverflow,
{
    let c39 = Amount::from_u64(39);
    let c40 = Amount::from_u64(40);
    let scaled = match expected.checked_mul(&c39) {
        Some(v) => v,
        None => {
            return Err(BridgeError::AmountOverflow);
        },
    };
    match scaled.checked_div(&c40) {
        Some(v) => Ok(v),
        None => Err(BridgeError::AmountOverflow),
    }
}

} // verus!
