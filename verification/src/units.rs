use vstd::prelude::*;

verus! {

/// Wei per whole ether: ten to the eighteenth.
pub const WEI_PER_ETHER: u128 = 1000000000000000000;

/// Wei per gwei: ten to the ninth.
pub const WEI_PER_GWEI: u128 = 1000000000;

/// Ten to the `n`th, for digit positions of decimal notation.
pub open spec fn pow10(n: nat) -> int
    decreases n,
{
    if n == 0 {
        1
    } else {
        10 * pow10((n - 1) as nat)
    }
}

/// Powers of ten are positive.
pub proof fn lemma_pow10_pos(n: nat)
    ensures
        pow10(n) >= 1,
    decreases n,
{
    if n > 0 {
        lemma_pow10_pos((n - 1) as nat);
    }
}

/// Powers of ten grow with the exponent.
pub proof fn lemma_pow10_mono(a: nat, b: nat)
    requires
        a <= b,
    ensures
        pow10(a) <= pow10(b),
    decreases b,
{
    if a < b {
        lemma_pow10_mono(a, (b - 1) as nat);
        lemma_pow10_pos((b - 1) as nat);
    }
}

/// Powers of ten turn sums of exponents into products.
pub proof fn lemma_pow10_add(a: nat, b: nat)
    ensures
        pow10(a + b) == pow10(a) * pow10(b),
    decreases a,
{
    if a == 0 {
    } else {
        lemma_pow10_add((a - 1) as nat, b);
        vstd::arithmetic::mul::lemma_mul_is_associative(10, pow10((a - 1) as nat), pow10(b));
    }
}

/// The named wei-per-unit constants are the matching powers of ten.
pub proof fn lemma_unit_powers()
    ensures
        WEI_PER_ETHER == pow10(18),
        WEI_PER_GWEI == pow10(9),
{
    reveal_with_fuel(pow10, 19);
}

/// Splits a wei quantity into whole units and a wei remainder, for display in
/// a larger denomination.
pub fn split_units(wei: u128, wei_per_unit: u128) -> (r: (u128, u128))
    requires
        wei_per_unit > 0,
    ensures
        r.0 == wei as int / wei_per_unit as int,
        r.1 == wei as int % wei_per_unit as int,
        wei == r.0 * wei_per_unit + r.1,
        r.1 < wei_per_unit,
{
    proof {
        vstd::arithmetic::div_mod::lemma_fundamental_div_mod(wei as int, wei_per_unit as int);
        vstd::arithmetic::mul::lemma_mul_is_commutative(
            wei_per_unit as int,
            wei as int / wei_per_unit as int,
        );
    }
    (wei / wei_per_unit, wei % wei_per_unit)
}

} // verus!
