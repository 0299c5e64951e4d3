//! Fixed-width arithmetic stated over the integers.
use vstd::prelude::*;

verus! {

/// Basis points in one whole.
pub const BPS: u64 = 10_000;

/// Seconds in one day.
pub const SECONDS_PER_DAY: u64 = 86_400;

/// Seconds in a year of 365 days.
pub const SECONDS_IN_YEAR: u64 = 31_536_000;

/// One more than the largest `u64`.
pub open spec fn two_pow_64() -> int {
    0x1_0000_0000_0000_0000
}

/// One more than the largest `u32`.
pub open spec fn two_pow_32() -> int {
    0x1_0000_0000
}

/// The low 64 bits of a number.
pub open spec fn low64(value: int) -> u64 {
    (value % two_pow_64()) as u64
}

/// The low 32 bits of a number.
pub open spec fn low32(value: int) -> u32 {
    (value % two_pow_32()) as u32
}

/// The sum, or the largest `u64` if the sum is larger.
pub open spec fn saturating_sum(a: u64, b: u64) -> u64 {
    if a + b <= u64::MAX {
        (a + b) as u64
    } else {
        u64::MAX
    }
}

/// The sum, or the largest `u32` if the sum is larger.
pub open spec fn saturating_sum32(a: u32, b: u32) -> u32 {
    if a + b <= u32::MAX {
        (a + b) as u32
    } else {
        u32::MAX
    }
}

/// The difference, or zero if it is negative.
pub open spec fn saturating_difference(a: u64, b: u64) -> u64 {
    if a >= b {
        (a - b) as u64
    } else {
        0
    }
}

/// The smaller of two numbers.
pub open spec fn smaller(a: u64, b: u64) -> u64 {
    if a <= b {
        a
    } else {
        b
    }
}

/// A share of an amount, given in basis points and rounded down; the low 64
/// bits count.
pub open spec fn bps_share(amount: u64, bps: u32) -> u64 {
    low64((amount * bps) / 10_000)
}

/// The low 64 bits of a number.
pub fn take_low64(value: u128) -> (low: u64)
    ensures
        low == low64(value as int),
{
    proof {
        assert(value as u64 == value % 0x1_0000_0000_0000_0000) by (bit_vector);
    }
    #[verifier::truncate]
    let low: u64 = value as u64;
    low
}

/// The low 32 bits of a number.
pub fn take_low32(value: u128) -> (low: u32)
    ensures
        low == low32(value as int),
{
    proof {
        assert(value as u32 == value % 0x1_0000_0000) by (bit_vector);
    }
    #[verifier::truncate]
    let low: u32 = value as u32;
    low
}

/// A product of two `u64` fits into a `u128`.
pub proof fn lemma_product_fits(a: u64, b: u64)
    ensures
        0 <= a * b <= u128::MAX,
{
    assert(0 <= a * b <= 0xffff_ffff_ffff_ffff * 0xffff_ffff_ffff_ffff) by (nonlinear_arith)
        requires
            0 <= a <= 0xffff_ffff_ffff_ffff,
            0 <= b <= 0xffff_ffff_ffff_ffff,
    ;
}

/// The product of two numbers.
pub fn product(a: u64, b: u64) -> (c: u128)
    ensures
        c == a * b,
{
    proof {
        lemma_product_fits(a, b);
    }
    (a as u128) * (b as u128)
}

/// The product of two numbers over a third, rounded down.
pub fn mul_div(a: u64, b: u64, c: u64) -> (q: u128)
    requires
        c > 0,
    ensures
        q == (a * b) / (c as int),
{
    product(a, b) / (c as u128)
}

/// A share of an amount, given in basis points and rounded down; the low 64
/// bits count.
pub fn share_bps(amount: u64, bps: u32) -> (share: u64)
    ensures
        share == bps_share(amount, bps),
{
    take_low64(mul_div(amount, bps as u64, 10_000))
}

/// A share of at most the whole is at most the amount.
pub proof fn lemma_share_bounded(amount: u64, bps: u32)
    requires
        bps <= 10_000,
    ensures
        bps_share(amount, bps) == (amount * bps) / 10_000,
        bps_share(amount, bps) <= amount,
{
    assert(amount * bps <= amount * 10_000) by (nonlinear_arith)
        requires
            bps <= 10_000,
            0 <= amount,
    ;
    assert(0 <= amount * bps) by (nonlinear_arith)
        requires
            0 <= bps,
            0 <= amount,
    ;
    assert((amount * bps) / 10_000 <= amount);
}

/// The product of three numbers over a constant divisor, provided the product
/// fits into a `u128`.
pub fn product3(a: u64, b: u32, c: u64) -> (p: Option<u128>)
    ensures
        match p {
            Some(v) => v == a * b * c,
            None => a * b * c > u128::MAX,
        },
{
    product(a, b as u64).checked_mul(c as u128)
}

/// The smaller of two numbers.
pub fn min64(a: u64, b: u64) -> (m: u64)
    ensures
        m == smaller(a, b),
{
    if a <= b {
        a
    } else {
        b
    }
}

/// Writes a number in decimal digits.
pub open spec fn decimal(n: nat) -> Seq<u8>
    decreases n,
{
    if n < 10 {
        seq![(48 + n) as u8]
    } else {
        decimal(n / 10).push((48 + n % 10) as u8)
    }
}

/// Appends a number in decimal digits.
pub fn append_decimal(data: &mut Vec<u8>, n: u64)
    ensures
        final(data)@ == old(data)@ + decimal(n as nat),
    decreases n,
{
    if n < 10 {
        data.push(48 + n as u8);
        proof {
            assert(data@ =~= old(data)@ + decimal(n as nat));
        }
    } else {
        append_decimal(data, n / 10);
        data.push(48 + (n % 10) as u8);
        proof {
            assert(data@ =~= old(data)@ + decimal(n as nat));
        }
    }
}

/// A quotient that is rounded down: the divisor goes into the dividend that often, and
/// not once more.
pub proof fn lemma_floor(dividend: int, divisor: int)
    requires
        divisor > 0,
    ensures
        (dividend / divisor) * divisor <= dividend < (dividend / divisor + 1) * divisor,
        dividend >= 0 ==> dividend / divisor >= 0,
{
    let quotient = dividend / divisor;
    assert(quotient * divisor <= dividend < (quotient + 1) * divisor) by (nonlinear_arith)
        requires
            quotient == dividend / divisor,
            divisor > 0,
    ;
    if dividend >= 0 {
        assert(quotient >= 0) by (nonlinear_arith)
            requires
                quotient == dividend / divisor,
                divisor > 0,
                dividend >= 0,
        ;
    }
}

/// A share in basis points is the largest number of whole units of which ten thousand
/// times does not exceed the amount times the basis points.
pub proof fn law_share_is_rounded_down(amount: u64, bps: u32)
    requires
        amount * bps < 10_000 * 0x1_0000_0000_0000_0000,
    ensures
        bps_share(amount, bps) * 10_000 <= amount * bps < (bps_share(amount, bps) + 1) * 10_000,
        bps == 10_000 ==> bps_share(amount, bps) == amount,
        bps == 0 ==> bps_share(amount, bps) == 0,
{
    assert(0 <= amount * bps) by (nonlinear_arith)
        requires
            0 <= amount,
            0 <= bps,
    ;
    assert(amount * 0 == 0);
    lemma_floor(amount * bps, 10_000);
    assert(bps_share(amount, bps) == (amount * bps) / 10_000);
}

/// Sums and differences that stop at the ends of their range.
pub proof fn law_saturation(a: u64, b: u64)
    ensures
        saturating_sum(a, b) == (if a + b > 0xffff_ffff_ffff_ffff {
            0xffff_ffff_ffff_ffff
        } else {
            a + b
        }),
        saturating_difference(a, b) + smaller(a, b) == a,
        smaller(a, b) <= a && smaller(a, b) <= b && (smaller(a, b) == a || smaller(a, b) == b),
{
}

/// The number that decimal digits in ASCII stand for.
pub open spec fn number_of(digits: Seq<u8>) -> int
    decreases digits.len(),
{
    if digits.len() == 0 {
        0
    } else {
        10 * number_of(digits.drop_last()) + (digits.last() - 48)
    }
}

/// A number in decimal digits is read back as the number, has digits only, and no zero
/// in front unless it is zero.
pub proof fn law_decimal(n: nat)
    ensures
        number_of(decimal(n)) == n,
        decimal(n).len() > 0,
        forall|i: int| 0 <= i < decimal(n).len() ==> 48 <= #[trigger] decimal(n)[i] <= 57,
        n > 0 ==> decimal(n)[0] != 48,
    decreases n,
{
    if n < 10 {
        assert(decimal(n).drop_last() =~= Seq::<u8>::empty());
        assert(number_of(Seq::<u8>::empty()) == 0);
    } else {
        law_decimal(n / 10);
        assert(decimal(n).drop_last() =~= decimal(n / 10));
    }
}

/// Low bits are the remainder: what fits stays as it is, and the rest is a multiple of
/// one more than the largest number.
pub proof fn law_low_bits(value: int)
    requires
        value >= 0,
    ensures
        value <= 0xffff_ffff_ffff_ffff ==> low64(value) == value,
        (value - low64(value)) % 0x1_0000_0000_0000_0000 == 0,
        value <= 0xffff_ffff ==> low32(value) == value,
        (value - low32(value)) % 0x1_0000_0000 == 0,
{
}

/// A whole has 10,000 basis points, a year 365 days, and a day 24 hours.
pub proof fn law_limits()
    ensures
        BPS == 10_000,
        SECONDS_PER_DAY == 24 * 60 * 60,
        SECONDS_IN_YEAR == 365 * 24 * 60 * 60,
{
}

/// Sums of 32 bits that stop at the end of their range.
pub proof fn law_saturation32(a: u32, b: u32)
    ensures
        saturating_sum32(a, b) == (if a + b > 0xffff_ffff {
            0xffff_ffff
        } else {
            a + b
        }),
{
}

/// A share in basis points of any amount: the rounded share, of which the low 64 bits
/// count.
pub proof fn law_share_wraps(amount: u64, bps: u32)
    ensures
        ({
            let exact = amount * bps;
            let whole = exact / 10_000;
            &&& whole * 10_000 <= exact < (whole + 1) * 10_000
            &&& bps_share(amount, bps) == whole % 0x1_0000_0000_0000_0000
        }),
{
    assert(0 <= amount * bps) by (nonlinear_arith)
        requires
            0 <= amount,
            0 <= bps,
    ;
    lemma_floor(amount * bps, 10_000);
}

} // verus!
