use vstd::prelude::*;

verus! {

use crate::errors::TransferError;
use crate::units::WEI_PER_ETHER;
use crate::units::lemma_pow10_add;
use crate::units::lemma_pow10_mono;
use crate::units::lemma_pow10_pos;
use crate::units::lemma_unit_powers;
use crate::units::pow10;
use vstd::arithmetic::div_mod::lemma_fundamental_div_mod;
use vstd::arithmetic::mul::lemma_mul_inequality;
use vstd::arithmetic::mul::lemma_mul_is_commutative;
use vstd::arithmetic::mul::lemma_mul_nonnegative;
use vstd::arithmetic::mul::lemma_mul_strict_inequality;

/// Whether a byte is an ASCII decimal digit.
pub open spec fn is_ascii_digit(b: u8) -> bool {
    48 <= b && b <= 57
}

/// Whether every byte of the text is an ASCII decimal digit.
pub open spec fn all_digits(s: Seq<u8>) -> bool {
    forall|i: int| 0 <= i < s.len() ==> is_ascii_digit(#[trigger] s[i])
}

/// The number denoted by a text of decimal digits, most significant first.
pub open spec fn digits_value(s: Seq<u8>) -> int
    decreases s.len(),
{
    if s.len() == 0 {
        0
    } else {
        digits_value(s.drop_last()) * 10 + (s.last() - 48)
    }
}

/// The index of the first `.` in the text, or its length if there is none.
pub open spec fn first_dot(s: Seq<u8>) -> int
    decreases s.len(),
{
    if s.len() == 0 {
        0
    } else if s[0] == 46 {
        0
    } else {
        1 + first_dot(s.skip(1))
    }
}

/// Whether the text is a valid whole-unit decimal amount: a nonempty run of
/// digits, optionally followed by `.` and one to eighteen digits.
pub open spec fn valid_amount_text(s: Seq<u8>) -> bool {
    let d = first_dot(s);
    &&& d >= 1
    &&& all_digits(s.take(d))
    &&& (d < s.len() ==> {
        let frac = s.skip(d + 1);
        1 <= frac.len() <= 18 && all_digits(frac)
    })
}

/// The wei value denoted by a valid amount text: the integer part scaled to
/// eighteen decimals, plus the fractional digits scaled to their positions.
pub open spec fn amount_wei_value(s: Seq<u8>) -> int {
    let d = first_dot(s);
    if d >= s.len() {
        digits_value(s.take(d)) * pow10(18)
    } else {
        let frac = s.skip(d + 1);
        digits_value(s.take(d)) * pow10(18) + digits_value(frac) * pow10(
            (18 - frac.len()) as nat,
        )
    }
}

/// Locates the first dot from a scan that found none before `j`.
proof fn lemma_first_dot_at(s: Seq<u8>, j: int)
    requires
        0 <= j <= s.len(),
        forall|k: int| 0 <= k < j ==> s[k] != 46,
        j == s.len() || s[j] == 46,
    ensures
        first_dot(s) == j,
    decreases j,
{
    if s.len() == 0 {
    } else if s[0] == 46 {
        assert(j == 0);
    } else {
        assert(j >= 1);
        assert(forall|k: int| 0 <= k < j - 1 ==> s.skip(1)[k] == s[k + 1]);
        assert(j - 1 == s.skip(1).len() || s.skip(1)[j - 1] == s[j]);
        lemma_first_dot_at(s.skip(1), j - 1);
    }
}

/// A digit text denotes a value at least zero.
pub proof fn lemma_digits_value_nonneg(s: Seq<u8>)
    requires
        all_digits(s),
    ensures
        digits_value(s) >= 0,
    decreases s.len(),
{
    if s.len() > 0 {
        assert(all_digits(s.drop_last()));
        lemma_digits_value_nonneg(s.drop_last());
    }
}

/// Extending a digit text with further digits never lowers its value.
proof fn lemma_digits_prefix_le(s: Seq<u8>, j: int)
    requires
        all_digits(s),
        0 <= j <= s.len(),
    ensures
        digits_value(s.take(j)) <= digits_value(s),
    decreases s.len() - j,
{
    if j == s.len() {
        assert(s.take(j) =~= s);
    } else {
        assert(s.take(j + 1).drop_last() =~= s.take(j));
        assert(all_digits(s.take(j)));
        lemma_digits_value_nonneg(s.take(j));
        assert(s.take(j + 1).last() == s[j]);
        lemma_digits_prefix_le(s, j + 1);
    }
}

/// A value above the representable range stays above it after scaling to
/// eighteen decimals and adding a fractional contribution.
proof fn lemma_scaled_int_dominates(s: Seq<u8>)
    requires
        first_dot(s) >= 1,
        all_digits(s.take(first_dot(s))),
        first_dot(s) < s.len() ==> all_digits(s.skip(first_dot(s) + 1)),
    ensures
        amount_wei_value(s) >= digits_value(s.take(first_dot(s))),
{
    let d = first_dot(s);
    let iv = digits_value(s.take(d));
    lemma_digits_value_nonneg(s.take(d));
    lemma_pow10_pos(18);
    lemma_mul_inequality(1, pow10(18), iv);
    lemma_mul_is_commutative(iv, pow10(18));
    if d < s.len() {
        let frac = s.skip(d + 1);
        lemma_digits_value_nonneg(frac);
        lemma_pow10_pos((18 - frac.len()) as nat);
        lemma_mul_nonnegative(digits_value(frac), pow10((18 - frac.len()) as nat));
    }
}

/// Ten to the `n`th, computed for scaling fractional digits.
fn pow10_exec(n: usize) -> (r: u128)
    requires
        n <= 18,
    ensures
        r == pow10(n as nat),
{
    let mut r: u128 = 1;
    let mut i: usize = 0;
    while i < n
        invariant
            0 <= i <= n <= 18,
            r == pow10(i as nat),
        decreases n - i,
    {
        proof {
            lemma_pow10_mono((i + 1) as nat, 18);
            lemma_unit_powers();
        }
        r = r * 10;
        i = i + 1;
    }
    r
}

/// Parses a whole-unit decimal amount (such as a quantity of ether) into its
/// integer minor units (wei, at eighteen decimals).  Succeeds exactly on
/// well-formed text whose value fits the balance type; malformed or oversized
/// text is a configuration error.
pub fn parse_amount(text: &Vec<u8>) -> (r: Result<u128, TransferError>)
    ensures
        r is Ok <==> valid_amount_text(text@) && amount_wei_value(text@) <= u128::MAX,
        r matches Ok(v) ==> v == amount_wei_value(text@),
        r matches Err(e) ==> e == TransferError::ConfigError,
{
    let n = text.len();
    let mut j: usize = 0;
    while j < n && text[j] != 46
        invariant
            n == text@.len(),
            0 <= j <= n,
            forall|k: int| 0 <= k < j ==> text@[k] != 46,
        decreases n - j,
    {
        j = j + 1;
    }
    let dot = j;
    proof {
        lemma_first_dot_at(text@, dot as int);
    }
    if dot == 0 {
        return Err(TransferError::ConfigError);
    }
    // Integer part: accumulate, treating any value beyond the balance type as
    // out of range.
    let ghost int_part = text@.take(dot as int);
    let mut acc: u128 = 0;
    let mut k: usize = 0;
    while k < dot
        invariant
            n == text@.len(),
            0 < dot <= n,
            0 <= k <= dot,
            first_dot(text@) == dot,
            int_part == text@.take(dot as int),
            forall|i: int| 0 <= i < k ==> is_ascii_digit(#[trigger] text@[i]),
            acc == digits_value(text@.take(k as int)),
        decreases dot - k,
    {
        let b = text[k];
        if !(48 <= b && b <= 57) {
            proof {
                assert(int_part[k as int] == text@[k as int]);
            }
            return Err(TransferError::ConfigError);
        }
        let d = (b - 48) as u128;
        proof {
            assert(text@.take(k + 1).drop_last() =~= text@.take(k as int));
            assert(text@.take(k + 1).last() == text@[k as int]);
        }
        let next = match acc.checked_mul(10) {
            Some(t) => t.checked_add(d),
            None => None,
        };
        acc = match next {
            Some(v) => v,
            None => {
                // The integer part alone denotes more wei than any balance.
                proof {
                    assert(forall|i: int|
                        0 <= i < k + 1 ==> is_ascii_digit(#[trigger] text@[i]));
                    if valid_amount_text(text@) {
                        assert(forall|i: int|
                            0 <= i < int_part.len() ==> #[trigger] int_part[i] == text@[i]);
                        assert(all_digits(int_part));
                        assert(int_part.take(k + 1) =~= text@.take(k + 1));
                        lemma_digits_prefix_le(int_part, k + 1);
                        lemma_scaled_int_dominates(text@);
                    }
                }
                return Err(TransferError::ConfigError);
            },
        };
        k = k + 1;
    }
    proof {
        assert(forall|i: int| 0 <= i < int_part.len() ==> #[trigger] int_part[i] == text@[i]);
        assert(all_digits(int_part));
        lemma_fundamental_div_mod(u128::MAX as int, WEI_PER_ETHER as int);
    }
    let max_whole: u128 = u128::MAX / WEI_PER_ETHER;
    if dot == n {
        // No fractional part.
        if acc > max_whole {
            proof {
                lemma_mul_inequality(
                    (max_whole + 1) as int,
                    acc as int,
                    WEI_PER_ETHER as int,
                );
                lemma_unit_powers();
            }
            return Err(TransferError::ConfigError);
        }
        proof {
            lemma_mul_inequality(acc as int, max_whole as int, WEI_PER_ETHER as int);
            lemma_unit_powers();
        }
        return Ok(acc * WEI_PER_ETHER);
    }
    // Fractional part: one to eighteen digits after the dot.
    let flen = n - dot - 1;
    if flen == 0 || flen > 18 {
        return Err(TransferError::ConfigError);
    }
    let ghost frac = text@.skip(dot + 1);
    let mut facc: u128 = 0;
    let mut i: usize = 0;
    while i < flen
        invariant
            n == text@.len(),
            0 < dot,
            dot + 1 + flen == n,
            1 <= flen <= 18,
            0 <= i <= flen,
            first_dot(text@) == dot,
            frac == text@.skip(dot + 1),
            int_part == text@.take(dot as int),
            all_digits(int_part),
            acc == digits_value(int_part),
            forall|q: int| 0 <= q < i ==> is_ascii_digit(#[trigger] frac[q]),
            facc == digits_value(frac.take(i as int)),
            facc < pow10(i as nat),
        decreases flen - i,
    {
        let b = text[dot + 1 + i];
        proof {
            assert(frac[i as int] == text@[dot + 1 + i]);
        }
        if !(48 <= b && b <= 57) {
            return Err(TransferError::ConfigError);
        }
        let d = (b - 48) as u128;
        proof {
            assert(frac.take(i + 1).drop_last() =~= frac.take(i as int));
            assert(frac.take(i + 1).last() == frac[i as int]);
            lemma_pow10_mono((i + 1) as nat, 18);
            lemma_unit_powers();
        }
        facc = facc * 10 + d;
        i = i + 1;
    }
    proof {
        assert(frac.take(flen as int) =~= frac);
    }
    let scale = pow10_exec(18 - flen);
    proof {
        lemma_pow10_add(flen as nat, (18 - flen) as nat);
        lemma_pow10_pos((18 - flen) as nat);
        lemma_mul_strict_inequality(
            facc as int,
            pow10(flen as nat),
            pow10((18 - flen) as nat),
        );
        lemma_mul_is_commutative(facc as int, pow10((18 - flen) as nat));
        lemma_mul_is_commutative(pow10(flen as nat), pow10((18 - flen) as nat));
        lemma_unit_powers();
        lemma_digits_value_nonneg(frac);
        lemma_mul_nonnegative(digits_value(frac), pow10((18 - flen) as nat));
    }
    let frac_scaled = facc * scale;
    if acc > max_whole {
        proof {
            lemma_mul_inequality((max_whole + 1) as int, acc as int, WEI_PER_ETHER as int);
            lemma_unit_powers();
        }
        return Err(TransferError::ConfigError);
    }
    proof {
        lemma_mul_inequality(acc as int, max_whole as int, WEI_PER_ETHER as int);
        lemma_unit_powers();
    }
    let scaled = acc * WEI_PER_ETHER;
    match scaled.checked_add(frac_scaled) {
        Some(total) => Ok(total),
        None => Err(TransferError::ConfigError),
    }
}

} // verus!
