use vstd::prelude::*;

verus! {

use vstd::arithmetic::div_mod::lemma_fundamental_div_mod;
use vstd::arithmetic::div_mod::lemma_fundamental_div_mod_converse;

/// Gas units consumed by a plain native-currency transfer.
pub const STANDARD_TRANSFER_GAS: u128 = 21000;

/// The fee cap the protocol requires at submission time: base fee plus tip.
pub open spec fn spec_min_fee(base_fee: int, tip: int) -> int {
    base_fee + tip
}

/// The larger of the node's suggested cap and the protocol minimum.
pub open spec fn spec_fee_floor(base_fee: int, tip: int, suggested_max_fee: int) -> int {
    if suggested_max_fee >= base_fee + tip {
        suggested_max_fee
    } else {
        base_fee + tip
    }
}

/// The final fee cap: the floor with a 20% safety margin, rounded down.
pub open spec fn spec_final_max_fee(base_fee: int, tip: int, suggested_max_fee: int) -> int {
    (spec_fee_floor(base_fee, tip, suggested_max_fee) * 12) / 10
}

/// The gas limit: the estimate with a 20% safety margin, rounded up.
pub open spec fn spec_gas_limit(estimated_gas: int) -> int {
    (estimated_gas * 12 + 9) / 10
}

/// The worst-case cost of a transfer: its amount plus the whole gas budget
/// priced at the fee cap.
pub open spec fn spec_worst_case_total(amount: int, gas_limit: int, max_fee: int) -> int {
    amount + gas_limit * max_fee
}

/// A quotient is exact on multiples shifted by a remainder below the divisor.
proof fn lemma_div10_exact(a: int, r: int)
    requires
        0 <= r < 10,
        0 <= a,
    ensures
        (a * 10 + r) / 10 == a,
{
    lemma_fundamental_div_mod_converse(a * 10 + r, 10, a, r);
}

/// Adding a 20% margin rounded down is the same as adding a fifth.
proof fn lemma_margin_down(m: int)
    requires
        m >= 0,
    ensures
        (m * 12) / 10 == m + m / 5,
{
    let q = m / 5;
    let s = m % 5;
    lemma_fundamental_div_mod(m, 5);
    assert(m * 12 == (m + q) * 10 + 2 * s);
    lemma_div10_exact(m + q, 2 * s);
}

/// Adding a 20% margin rounded up is the same as adding a fifth rounded up.
proof fn lemma_margin_up(e: int)
    requires
        e >= 0,
    ensures
        (e * 12 + 9) / 10 == e + (if e % 5 == 0 { e / 5 } else { e / 5 + 1 }),
{
    let q = e / 5;
    let s = e % 5;
    lemma_fundamental_div_mod(e, 5);
    if s == 0 {
        assert(e * 12 + 9 == (e + q) * 10 + 9);
        lemma_div10_exact(e + q, 9);
    } else {
        assert(e * 12 + 9 == (e + q + 1) * 10 + (2 * s - 1));
        lemma_div10_exact(e + q + 1, 2 * s - 1);
    }
}

/// Computes the final fee cap `max(suggested_max_fee, base_fee + tip) * 12 / 10`.
/// Returns `None` exactly when that value does not fit the fee type.
pub fn final_max_fee(base_fee: u128, tip: u128, suggested_max_fee: u128) -> (r: Option<u128>)
    ensures
        r is Some <==> spec_final_max_fee(base_fee as int, tip as int, suggested_max_fee as int)
            <= u128::MAX,
        r matches Some(f) ==> f == spec_final_max_fee(
            base_fee as int,
            tip as int,
            suggested_max_fee as int,
        ),
        r matches Some(f) ==> f >= base_fee + tip,
{
    proof {
        lemma_margin_down(spec_fee_floor(base_fee as int, tip as int, suggested_max_fee as int));
        vstd::arithmetic::div_mod::lemma_div_pos_is_pos(
            spec_fee_floor(base_fee as int, tip as int, suggested_max_fee as int),
            5,
        );
    }
    // If the protocol minimum base_fee + tip overflows the fee type, it also
    // exceeds the suggestion, so the margined floor is out of range too.
    let floor: u128 = match base_fee.checked_add(tip) {
        Some(min_fee) => {
            if suggested_max_fee >= min_fee {
                suggested_max_fee
            } else {
                min_fee
            }
        },
        None => {
            return None;
        },
    };
    let fifth: u128 = floor / 5;
    floor.checked_add(fifth)
}

/// Computes the gas limit `ceil(estimated_gas * 12 / 10)`.  Returns `None`
/// exactly when that value does not fit the gas type.
pub fn gas_limit_with_margin(estimated_gas: u128) -> (r: Option<u128>)
    ensures
        r is Some <==> spec_gas_limit(estimated_gas as int) <= u128::MAX,
        r matches Some(g) ==> g == spec_gas_limit(estimated_gas as int),
        r matches Some(g) ==> (estimated_gas > 0 ==> g > estimated_gas),
{
    proof {
        lemma_margin_up(estimated_gas as int);
    }
    let fifth_up: u128 = if estimated_gas % 5 == 0 {
        estimated_gas / 5
    } else {
        estimated_gas / 5 + 1
    };
    estimated_gas.checked_add(fifth_up)
}

/// Computes the worst-case total `amount + gas_limit * max_fee`.  Returns
/// `None` exactly when that total does not fit the balance type; such a total
/// can never be covered by any representable balance.
pub fn worst_case_total(amount: u128, gas_limit: u128, max_fee: u128) -> (r: Option<u128>)
    ensures
        r is Some <==> spec_worst_case_total(amount as int, gas_limit as int, max_fee as int)
            <= u128::MAX,
        r matches Some(t) ==> t == spec_worst_case_total(
            amount as int,
            gas_limit as int,
            max_fee as int,
        ),
{
    match gas_limit.checked_mul(max_fee) {
        Some(gas_cost) => amount.checked_add(gas_cost),
        None => None,
    }
}

/// The fee of a standard transfer at a quoted gas price.  Returns `None`
/// exactly when the product does not fit.
pub fn standard_transfer_fee(gas_price: u128) -> (r: Option<u128>)
    ensures
        r is Some <==> gas_price * STANDARD_TRANSFER_GAS <= u128::MAX,
        r matches Some(f) ==> f == gas_price * STANDARD_TRANSFER_GAS,
{
    gas_price.checked_mul(STANDARD_TRANSFER_GAS)
}

/// The fee envelope of one transfer: the fee data observed on the chain and
/// the final cap computed from it.
#[derive(Clone, Copy, Debug)]
pub struct FeeEnvelope {
    pub base_fee: u128,
    pub suggested_tip: u128,
    pub suggested_max_fee: u128,
    pub final_max_fee: u128,
}

impl FeeEnvelope {
    /// Well-formedness: the final cap is the margined floor, and so never
    /// undershoots `base_fee + suggested_tip`.
    pub open spec fn wf(self) -> bool {
        &&& self.final_max_fee == spec_final_max_fee(
            self.base_fee as int,
            self.suggested_tip as int,
            self.suggested_max_fee as int,
        )
        &&& self.final_max_fee >= self.base_fee + self.suggested_tip
    }

    /// Builds the envelope from the observed fee data.  Returns `None`
    /// exactly when the final cap does not fit the fee type.
    pub fn compute(base_fee: u128, suggested_tip: u128, suggested_max_fee: u128) -> (r: Option<
        FeeEnvelope,
    >)
        ensures
            r is Some <==> spec_final_max_fee(
                base_fee as int,
                suggested_tip as int,
                suggested_max_fee as int,
            ) <= u128::MAX,
            r matches Some(env) ==> env.wf() && env.base_fee == base_fee && env.suggested_tip
                == suggested_tip && env.suggested_max_fee == suggested_max_fee,
    {
        match final_max_fee(base_fee, suggested_tip, suggested_max_fee) {
            Some(f) => Some(
                FeeEnvelope { base_fee, suggested_tip, suggested_max_fee, final_max_fee: f },
            ),
            None => None,
        }
    }
}

/// The gas budget of one transfer: the node's estimate and the limit
/// actually authorised.
#[derive(Clone, Copy, Debug)]
pub struct GasBudget {
    pub estimated_gas: u128,
    pub gas_limit: u128,
}

impl GasBudget {
    /// Well-formedness: the limit is the margined estimate, rounded up, and
    /// so strictly above any positive estimate.
    pub open spec fn wf(self) -> bool {
        &&& self.gas_limit == spec_gas_limit(self.estimated_gas as int)
        &&& (self.estimated_gas > 0 ==> self.gas_limit > self.estimated_gas)
    }

    /// Builds the budget from the node's estimate.  Returns `None` exactly
    /// when the margined limit does not fit the gas type.
    pub fn compute(estimated_gas: u128) -> (r: Option<GasBudget>)
        ensures
            r is Some <==> spec_gas_limit(estimated_gas as int) <= u128::MAX,
            r matches Some(b) ==> b.wf() && b.estimated_gas == estimated_gas,
    {
        match gas_limit_with_margin(estimated_gas) {
            Some(g) => Some(GasBudget { estimated_gas, gas_limit: g }),
            None => None,
        }
    }
}

/// When the node's suggested cap undershoots the protocol minimum, the final
/// cap is the margined protocol minimum, not the margined suggestion.
pub proof fn lemma_low_suggestion_uses_minimum(base_fee: int, tip: int, suggested_max_fee: int)
    requires
        0 <= base_fee,
        0 <= tip,
        0 <= suggested_max_fee,
        suggested_max_fee < base_fee + tip,
    ensures
        spec_final_max_fee(base_fee, tip, suggested_max_fee) == ((base_fee + tip) * 12) / 10,
{
}

/// When the node's suggested cap meets the protocol minimum, the final cap is
/// the margined suggestion.
pub proof fn lemma_high_suggestion_kept(base_fee: int, tip: int, suggested_max_fee: int)
    requires
        0 <= base_fee,
        0 <= tip,
        suggested_max_fee >= base_fee + tip,
    ensures
        spec_final_max_fee(base_fee, tip, suggested_max_fee) == (suggested_max_fee * 12) / 10,
{
}

/// The final fee cap never undershoots the protocol minimum `base_fee + tip`.
pub proof fn lemma_final_fee_covers_minimum(base_fee: int, tip: int, suggested_max_fee: int)
    requires
        0 <= base_fee,
        0 <= tip,
        0 <= suggested_max_fee,
    ensures
        spec_final_max_fee(base_fee, tip, suggested_max_fee) >= base_fee + tip,
{
    let floor = spec_fee_floor(base_fee, tip, suggested_max_fee);
    lemma_margin_down(floor);
}

/// The gas limit always strictly exceeds a positive estimate.
pub proof fn lemma_gas_limit_exceeds_estimate(estimated_gas: int)
    requires
        estimated_gas > 0,
    ensures
        spec_gas_limit(estimated_gas) > estimated_gas,
{
    lemma_margin_up(estimated_gas);
    lemma_fundamental_div_mod(estimated_gas, 5);
}

} // verus!
