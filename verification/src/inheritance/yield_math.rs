//! Arithmetic of yields: fees, cooldowns, simple and compound interest.
use vstd::prelude::*;

use crate::inheritance::state::MAX_PERFORMANCE_FEE_BP;
use crate::inheritance::types::InheritanceError;
use crate::math::{bps_share, lemma_floor, lemma_share_bounded, product, share_bps};

verus! {

/// Basis points in one whole.
pub const BPS_DENOMINATOR: u64 = 10_000;

/// Seconds in a year of 365 days.
pub const SECONDS_PER_YEAR: u64 = 31_536_000;

/// Seconds in one day.
pub const SECONDS_PER_DAY: u64 = 86_400;

/// Largest rate that is taken, per year or per period: 100%.
pub const MAX_RATE_BPS: u32 = 10_000;

/// Most periods over which interest is compounded: a hundred years of days.
pub const MAX_PERIODS: u64 = 36_500;

/// Growth factors are held in billionths.
pub const GROWTH_SCALE: u128 = 1_000_000_000;

/// The sum; refused if it does not fit.
pub fn safe_add(a: u64, b: u64) -> (sum: Result<u64, InheritanceError>)
    ensures
        match sum {
            Ok(s) => s == a + b,
            Err(e) => a + b > u64::MAX && e == InheritanceError::InvalidTotalAmount,
        },
{
    match a.checked_add(b) {
        Some(sum) => Ok(sum),
        None => Err(InheritanceError::InvalidTotalAmount),
    }
}

/// The product; refused if it does not fit.
pub fn safe_mul(a: u64, b: u64) -> (product: Result<u64, InheritanceError>)
    ensures
        match product {
            Ok(p) => p == a * b,
            Err(e) => a * b > u64::MAX && e == InheritanceError::InvalidTotalAmount,
        },
{
    match a.checked_mul(b) {
        Some(product) => Ok(product),
        None => Err(InheritanceError::InvalidTotalAmount),
    }
}

/// The product of two numbers over a third, rounded down; refused if there is no
/// such number, or it does not fit.
pub fn mul_div(a: u64, b: u64, c: u64) -> (quotient: Result<u64, InheritanceError>)
    ensures
        match quotient {
            Ok(q) => c > 0 && q == (a * b) / (c as int),
            Err(e) => (c == 0 || (a * b) / (c as int) > u64::MAX) && e
                == InheritanceError::InvalidTotalAmount,
        },
{
    if c == 0 {
        return Err(InheritanceError::InvalidTotalAmount);
    }
    let quotient: u128 = product(a, b) / (c as u128);
    if quotient > u64::MAX as u128 {
        return Err(InheritanceError::InvalidTotalAmount);
    }
    Ok(quotient as u64)
}

/// Refuses a fee above the largest one.
pub fn validate_performance_fee(fee_bp: u32) -> (result: Result<(), InheritanceError>)
    ensures
        match result {
            Ok(()) => fee_bp <= MAX_PERFORMANCE_FEE_BP,
            Err(e) => fee_bp > MAX_PERFORMANCE_FEE_BP && e == InheritanceError::InvalidAllocation,
        },
{
    if fee_bp > MAX_PERFORMANCE_FEE_BP {
        Err(InheritanceError::InvalidAllocation)
    } else {
        Ok(())
    }
}

/// When the next harvest is eligible.
pub open spec fn next_harvest(last_harvest_at: u64, harvest_interval: u64) -> u64 {
    crate::math::saturating_sum(last_harvest_at, harvest_interval)
}

/// When the next harvest is eligible.
pub fn next_harvest_at(last_harvest_at: u64, harvest_interval: u64) -> (at: u64)
    ensures
        at == next_harvest(last_harvest_at, harvest_interval),
{
    last_harvest_at.saturating_add(harvest_interval)
}

/// A harvest goes through: the cooldown has passed, and there is something above the
/// floor to harvest.
pub open spec fn harvest_due(
    now: u64,
    last_harvest_at: u64,
    harvest_interval: u64,
    pending: u64,
    min_harvest_amount: u64,
) -> bool {
    pending > 0 && pending >= min_harvest_amount && (harvest_interval == 0 || now >= next_harvest(
        last_harvest_at,
        harvest_interval,
    ))
}

/// Whether a harvest goes through.
pub fn is_harvest_due(
    now: u64,
    last_harvest_at: u64,
    harvest_interval: u64,
    pending: u64,
    min_harvest_amount: u64,
) -> (due: bool)
    ensures
        due == harvest_due(now, last_harvest_at, harvest_interval, pending, min_harvest_amount),
{
    pending > 0 && pending >= min_harvest_amount && (harvest_interval == 0 || now
        >= next_harvest_at(last_harvest_at, harvest_interval))
}

/// Splits a harvest into what the plan gets and what is withheld.
pub fn split_performance_fee(gross: u64, fee_bp: u32) -> (split: Result<
    (u64, u64),
    InheritanceError,
>)
    ensures
        match split {
            Ok((net, fee)) => fee_bp <= MAX_PERFORMANCE_FEE_BP && fee == bps_share(gross, fee_bp)
                && net == gross - fee,
            Err(e) => fee_bp > MAX_PERFORMANCE_FEE_BP && e == InheritanceError::InvalidAllocation,
        },
{
    match validate_performance_fee(fee_bp) {
        Ok(()) => {},
        Err(e) => {
            return Err(e);
        },
    }
    proof {
        lemma_share_bounded(gross, fee_bp);
    }
    let fee: u64 = share_bps(gross, fee_bp);
    Ok((gross - fee, fee))
}

/// A harvest is split without loss, and at most half of it is withheld.
pub proof fn law_harvest_split(gross: u64, fee_bp: u32)
    requires
        fee_bp <= MAX_PERFORMANCE_FEE_BP,
    ensures
        bps_share(gross, fee_bp) == (gross * fee_bp) / 10_000,
        2 * bps_share(gross, fee_bp) <= gross,
{
    lemma_share_bounded(gross, fee_bp);
    assert(gross * fee_bp <= gross * 5_000) by (nonlinear_arith)
        requires
            fee_bp <= 5_000,
            0 <= gross,
    ;
}

/// The rate per day that an annual rate implies, rounded down to basis points.
pub fn daily_rate_bps(annual_rate_bps: u32) -> (rate: Result<u32, InheritanceError>)
    ensures
        rate == (if annual_rate_bps > MAX_RATE_BPS {
            Err::<u32, InheritanceError>(InheritanceError::InvalidAllocation)
        } else {
            Ok((annual_rate_bps / 365) as u32)
        }),
{
    if annual_rate_bps > MAX_RATE_BPS {
        Err(InheritanceError::InvalidAllocation)
    } else {
        Ok(annual_rate_bps / 365)
    }
}

/// Interest on a principal over a time, without compounding, rounded down.
pub open spec fn simple_interest_of(principal: u64, annual_rate_bps: u32, elapsed_secs: u64)
    -> int {
    (principal * annual_rate_bps * elapsed_secs) / 315_360_000_000
}

/// Interest on a principal over a time, without compounding.
pub fn simple_interest(principal: u64, annual_rate_bps: u32, elapsed_secs: u64) -> (interest:
    Result<u64, InheritanceError>)
    ensures
        interest == (if annual_rate_bps > MAX_RATE_BPS {
            Err::<u64, InheritanceError>(InheritanceError::InvalidAllocation)
        } else if simple_interest_of(principal, annual_rate_bps, elapsed_secs) > u64::MAX {
            Err(InheritanceError::InvalidTotalAmount)
        } else {
            Ok(simple_interest_of(principal, annual_rate_bps, elapsed_secs) as u64)
        }),
{
    if annual_rate_bps > MAX_RATE_BPS {
        return Err(InheritanceError::InvalidAllocation);
    }
    let yearly: u128 = product(principal, annual_rate_bps as u64);
    proof {
        assert(0 <= yearly * elapsed_secs) by (nonlinear_arith)
            requires
                0 <= yearly,
                0 <= elapsed_secs,
        ;
    }
    match yearly.checked_mul(elapsed_secs as u128) {
        Some(total) => {
            let interest: u128 = total / 315_360_000_000;
            if interest > u64::MAX as u128 {
                Err(InheritanceError::InvalidTotalAmount)
            } else {
                Ok(interest as u64)
            }
        },
        None => Err(InheritanceError::InvalidTotalAmount),
    }
}

/// The average of two rates, weighted by their principals; zero without principal.
pub open spec fn blended_rate(
    principal_a: u64,
    rate_a_bps: u32,
    principal_b: u64,
    rate_b_bps: u32,
) -> int {
    if principal_a + principal_b == 0 {
        0
    } else {
        (principal_a * rate_a_bps + principal_b * rate_b_bps) / (principal_a + principal_b)
    }
}

/// A weighted average lies between the two rates.
pub proof fn law_blended_rate_between(
    principal_a: u64,
    rate_a_bps: u32,
    principal_b: u64,
    rate_b_bps: u32,
)
    requires
        principal_a + principal_b > 0,
        rate_a_bps <= rate_b_bps,
    ensures
        rate_a_bps <= blended_rate(principal_a, rate_a_bps, principal_b, rate_b_bps) <= rate_b_bps,
{
    let total = principal_a + principal_b;
    let weighted = principal_a * rate_a_bps + principal_b * rate_b_bps;
    assert(total * rate_a_bps <= weighted <= total * rate_b_bps) by (nonlinear_arith)
        requires
            total == principal_a + principal_b,
            weighted == principal_a * rate_a_bps + principal_b * rate_b_bps,
            rate_a_bps <= rate_b_bps,
            0 <= principal_a,
            0 <= principal_b,
    ;
    assert(rate_a_bps <= weighted / total <= rate_b_bps) by (nonlinear_arith)
        requires
            total > 0,
            total * rate_a_bps <= weighted <= total * rate_b_bps,
    ;
}

/// The average of two rates, weighted by their principals.
pub fn blended_rate_bps(principal_a: u64, rate_a_bps: u32, principal_b: u64, rate_b_bps: u32) -> (
rate: u32)
    ensures
        rate == blended_rate(principal_a, rate_a_bps, principal_b, rate_b_bps),
{
    let total: u128 = principal_a as u128 + principal_b as u128;
    if total == 0 {
        return 0;
    }
    proof {
        if rate_a_bps <= rate_b_bps {
            law_blended_rate_between(principal_a, rate_a_bps, principal_b, rate_b_bps);
        } else {
            law_blended_rate_between(principal_b, rate_b_bps, principal_a, rate_a_bps);
        }
        assert(principal_a * rate_a_bps <= 0xffff_ffff_ffff_ffff * 0xffff_ffff) by (nonlinear_arith)
            requires
                0 <= principal_a <= 0xffff_ffff_ffff_ffff,
                0 <= rate_a_bps <= 0xffff_ffff,
        ;
        assert(principal_b * rate_b_bps <= 0xffff_ffff_ffff_ffff * 0xffff_ffff) by (nonlinear_arith)
            requires
                0 <= principal_b <= 0xffff_ffff_ffff_ffff,
                0 <= rate_b_bps <= 0xffff_ffff,
        ;
    }
    let weighted: u128 = product(principal_a, rate_a_bps as u64) + product(
        principal_b,
        rate_b_bps as u64,
    );
    (weighted / total) as u32
}

/// The factor, in billionths, by which a balance grows over some periods. `step` is
/// the rate per period in billionths; each period rounds down.
pub open spec fn growth(step: nat, periods: nat) -> nat
    decreases periods,
{
    if periods == 0 {
        GROWTH_SCALE as nat
    } else {
        growth(step, (periods - 1) as nat) * (GROWTH_SCALE as nat + step) / (GROWTH_SCALE as nat)
    }
}

/// A balance after it grew by a factor, rounded down.
pub open spec fn grown(principal: u64, factor: nat) -> int {
    (principal * factor as int) / GROWTH_SCALE as int
}

proof fn lemma_growth_step(step: nat, periods: nat)
    ensures
        growth(step, periods) <= growth(step, periods + 1),
{
    let g = growth(step, periods);
    let s = GROWTH_SCALE as nat;
    assert(g * (s + step) >= g * s) by (nonlinear_arith)
        requires
            0 <= g,
            0 <= step,
            0 <= s,
    ;
    assert((g * (s + step)) / s >= g) by (nonlinear_arith)
        requires
            s > 0,
            g * (s + step) >= g * s,
    ;
}

/// A balance does not shrink as it is compounded for longer.
pub proof fn law_growth_is_monotone(step: nat, from: nat, to: nat)
    requires
        from <= to,
    ensures
        GROWTH_SCALE <= growth(step, from) <= growth(step, to),
    decreases to,
{
    if from < to {
        law_growth_is_monotone(step, from, (to - 1) as nat);
        lemma_growth_step(step, (to - 1) as nat);
    } else if from > 0 {
        law_growth_is_monotone(step, (from - 1) as nat, (from - 1) as nat);
        lemma_growth_step(step, (from - 1) as nat);
    }
}

/// One more than the largest factor under which a unit of balance still fits.
spec fn factor_limit() -> nat {
    18_446_744_073_709_551_616_000_000_000
}

proof fn lemma_grown(principal: u64, factor: nat)
    requires
        factor >= GROWTH_SCALE,
    ensures
        principal <= grown(principal, factor),
        principal > 0 && factor >= factor_limit() ==> grown(principal, factor) > u64::MAX,
{
    let s = GROWTH_SCALE as int;
    let f = factor as int;
    let p = principal as int;
    assert(p * s <= p * f) by (nonlinear_arith)
        requires
            0 <= p,
            s <= f,
    ;
    assert(p <= (p * f) / s) by (nonlinear_arith)
        requires
            s > 0,
            p * s <= p * f,
    ;
    if principal > 0 && factor >= factor_limit() {
        let l = factor_limit() as int;
        assert(p * f >= l) by (nonlinear_arith)
            requires
                p >= 1,
                f >= l,
                l >= 0,
        ;
        assert((p * f) / s >= 18_446_744_073_709_551_616) by (nonlinear_arith)
            requires
                p * f >= 18_446_744_073_709_551_616_000_000_000,
                s == 1_000_000_000,
        ;
    }
}

/// A balance after some periods of compounding.
pub open spec fn compounded(principal: u64, step: nat, periods: u64) -> int {
    grown(principal, growth(step, periods as nat))
}

/// A balance after some periods of compounding; refused if it does not fit.
fn compound(principal: u64, step: u128, periods: u64) -> (balance: Result<u64, InheritanceError>)
    requires
        step <= GROWTH_SCALE,
    ensures
        match balance {
            Ok(b) => b == compounded(principal, step as nat, periods),
            Err(e) => compounded(principal, step as nat, periods) > u64::MAX && e
                == InheritanceError::InvalidTotalAmount,
        },
{
    if principal == 0 {
        proof {
            let f = growth(step as nat, periods as nat) as int;
            assert((0 * f) / GROWTH_SCALE as int == 0) by (nonlinear_arith);
        }
        return Ok(0);
    }
    let mut factor: u128 = GROWTH_SCALE;
    let mut i: u64 = 0;
    while i < periods
        invariant
            i <= periods,
            principal > 0,
            step <= GROWTH_SCALE,
            factor == growth(step as nat, i as nat),
            factor < factor_limit(),
        decreases periods - i,
    {
        proof {
            assert(factor * (GROWTH_SCALE + step) <= 18_446_744_073_709_551_616_000_000_000
                * 2_000_000_000) by (nonlinear_arith)
                requires
                    0 <= factor <= 18_446_744_073_709_551_616_000_000_000,
                    0 <= GROWTH_SCALE + step <= 2_000_000_000,
            ;
            assert(0 <= factor * (GROWTH_SCALE + step)) by (nonlinear_arith)
                requires
                    0 <= factor,
                    0 <= GROWTH_SCALE + step,
            ;
        }
        factor = factor * (GROWTH_SCALE + step) / GROWTH_SCALE;
        i += 1;
        if factor >= 18_446_744_073_709_551_616_000_000_000 {
            proof {
                law_growth_is_monotone(step as nat, i as nat, periods as nat);
                lemma_grown(principal, growth(step as nat, periods as nat));
            }
            return Err(InheritanceError::InvalidTotalAmount);
        }
    }
    proof {
        assert(0 <= principal * factor) by (nonlinear_arith)
            requires
                0 <= principal,
                0 <= factor,
        ;
    }
    match (principal as u128).checked_mul(factor) {
        Some(total) => {
            let balance: u128 = total / GROWTH_SCALE;
            if balance > u64::MAX as u128 {
                Err(InheritanceError::InvalidTotalAmount)
            } else {
                Ok(balance as u64)
            }
        },
        None => Err(InheritanceError::InvalidTotalAmount),
    }
}

/// The rate per period in billionths.
pub open spec fn period_step(rate_bps: u32) -> nat {
    (rate_bps * 100_000) as nat
}

/// The rate per day in billionths that an annual rate implies.
pub open spec fn daily_step(annual_rate_bps: u32) -> nat {
    ((annual_rate_bps * 1_000_000_000) / 3_650_000) as nat
}

/// Why a rate or a horizon is refused.
pub open spec fn compounding_error(rate_bps: u32, periods: u64) -> Option<InheritanceError> {
    if rate_bps > MAX_RATE_BPS || periods > MAX_PERIODS {
        Some(InheritanceError::InvalidAllocation)
    } else {
        None
    }
}

/// The outcome of compounding: refused if the rate, the horizon or the balance is too
/// large.
pub open spec fn compounding_result(
    principal: u64,
    rate_bps: u32,
    step: nat,
    periods: u64,
) -> Result<u64, InheritanceError> {
    if compounding_error(rate_bps, periods) is Some {
        Err(InheritanceError::InvalidAllocation)
    } else if compounded(principal, step, periods) > u64::MAX {
        Err(InheritanceError::InvalidTotalAmount)
    } else {
        Ok(compounded(principal, step, periods) as u64)
    }
}

/// The interest alone of a compounded balance.
pub open spec fn interest_of(balance: Result<u64, InheritanceError>, principal: u64) -> Result<
    u64,
    InheritanceError,
> {
    match balance {
        Ok(b) => Ok((b - principal) as u64),
        Err(e) => Err(e),
    }
}

/// A principal after some periods at a rate per period.
pub fn compound_amount(principal: u64, rate_bps_per_period: u32, periods: u64) -> (balance: Result<
    u64,
    InheritanceError,
>)
    ensures
        balance == compounding_result(
            principal,
            rate_bps_per_period,
            period_step(rate_bps_per_period),
            periods,
        ),
        balance matches Ok(b) ==> b >= principal,
{
    if rate_bps_per_period > MAX_RATE_BPS || periods > MAX_PERIODS {
        return Err(InheritanceError::InvalidAllocation);
    }
    let step: u128 = rate_bps_per_period as u128 * 100_000;
    proof {
        law_growth_is_monotone(step as nat, 0, periods as nat);
        lemma_grown(principal, growth(step as nat, periods as nat));
    }
    compound(principal, step, periods)
}

/// The interest alone on a principal after some periods at a rate per period.
pub fn compound_interest(principal: u64, rate_bps_per_period: u32, periods: u64) -> (interest:
    Result<u64, InheritanceError>)
    ensures
        interest == interest_of(
            compounding_result(
                principal,
                rate_bps_per_period,
                period_step(rate_bps_per_period),
                periods,
            ),
            principal,
        ),
{
    match compound_amount(principal, rate_bps_per_period, periods) {
        Ok(balance) => Ok(balance - principal),
        Err(e) => Err(e),
    }
}

/// A principal after some days of daily compounding at an annual rate.
pub fn project_daily_compound(principal: u64, annual_rate_bps: u32, days: u64) -> (balance: Result<
    u64,
    InheritanceError,
>)
    ensures
        balance == compounding_result(
            principal,
            annual_rate_bps,
            daily_step(annual_rate_bps),
            days,
        ),
        balance matches Ok(b) ==> b >= principal,
{
    if annual_rate_bps > MAX_RATE_BPS || days > MAX_PERIODS {
        return Err(InheritanceError::InvalidAllocation);
    }
    let step: u128 = annual_rate_bps as u128 * 1_000_000_000 / 3_650_000;
    proof {
        law_growth_is_monotone(step as nat, 0, days as nat);
        lemma_grown(principal, growth(step as nat, days as nat));
    }
    compound(principal, step, days)
}

/// The interest alone on a principal after some days of daily compounding.
pub fn project_daily_interest(principal: u64, annual_rate_bps: u32, days: u64) -> (interest: Result<
    u64,
    InheritanceError,
>)
    ensures
        interest == interest_of(
            compounding_result(principal, annual_rate_bps, daily_step(annual_rate_bps), days),
            principal,
        ),
{
    match project_daily_compound(principal, annual_rate_bps, days) {
        Ok(balance) => Ok(balance - principal),
        Err(e) => Err(e),
    }
}

/// The rate, in basis points, at which a balance grows in a year of daily compounding.
pub open spec fn effective_rate(nominal_annual_rate_bps: u32) -> int {
    compounded(BPS_DENOMINATOR, daily_step(nominal_annual_rate_bps), 365) - 10_000
}

/// The effective annual rate of a nominal rate compounded daily, in basis points.
pub fn effective_apy_bps(nominal_annual_rate_bps: u32) -> (rate: Result<u32, InheritanceError>)
    ensures
        rate == (if nominal_annual_rate_bps > MAX_RATE_BPS {
            Err::<u32, InheritanceError>(InheritanceError::InvalidAllocation)
        } else if effective_rate(nominal_annual_rate_bps) > u32::MAX {
            Err(InheritanceError::InvalidTotalAmount)
        } else {
            Ok(effective_rate(nominal_annual_rate_bps) as u32)
        }),
{
    match project_daily_compound(BPS_DENOMINATOR, nominal_annual_rate_bps, 365) {
        Ok(balance) => {
            let rate: u64 = balance - BPS_DENOMINATOR;
            if rate > u32::MAX as u64 {
                Err(InheritanceError::InvalidTotalAmount)
            } else {
                Ok(rate as u32)
            }
        },
        Err(e) => Err(e),
    }
}

/// A harvest is due exactly if something is pending, not less than the floor, and the
/// interval since the last harvest has passed.
pub proof fn law_harvests_fall_due(
    now: u64,
    last_harvest_at: u64,
    harvest_interval: u64,
    pending: u64,
    min_harvest_amount: u64,
)
    requires
        last_harvest_at + harvest_interval <= 0xffff_ffff_ffff_ffff,
    ensures
        next_harvest(last_harvest_at, harvest_interval) == last_harvest_at + harvest_interval,
        harvest_due(now, last_harvest_at, harvest_interval, pending, min_harvest_amount) <==> {
            &&& pending > 0
            &&& pending >= min_harvest_amount
            &&& harvest_interval == 0 || now >= last_harvest_at + harvest_interval
        },
{
}

/// Simple interest is the principal times the annual rate times the seconds over a year
/// of 365 days, rounded down; it grows with each of the three.
pub proof fn law_simple_interest_is_annual(principal: u64, annual_rate_bps: u32, seconds: u64)
    ensures
        ({
            let interest = simple_interest_of(principal, annual_rate_bps, seconds);
            let year = 10_000 * 365 * 86_400;
            &&& interest * year <= principal * annual_rate_bps * seconds < (interest + 1) * year
            &&& seconds == 365 * 86_400 ==> interest == (principal * annual_rate_bps) / 10_000
        }),
{
    let product = principal * annual_rate_bps;
    lemma_floor(product * seconds, 315_360_000_000);
    if seconds == 31_536_000 {
        assert((product * 31_536_000) / 315_360_000_000 == product / 10_000);
    }
}

/// The blended rate times both principals is what both earn at their own rates, up to
/// the rounding down; without any principal it is zero.
pub proof fn law_blended_rate_earns_the_same(
    principal_a: u64,
    rate_a_bps: u32,
    principal_b: u64,
    rate_b_bps: u32,
)
    ensures
        ({
            let rate = blended_rate(principal_a, rate_a_bps, principal_b, rate_b_bps);
            let both = principal_a + principal_b;
            let earned = principal_a * rate_a_bps + principal_b * rate_b_bps;
            &&& both == 0 ==> rate == 0
            &&& both > 0 ==> rate * both <= earned < (rate + 1) * both
        }),
{
    let both = principal_a + principal_b;
    if both > 0 {
        lemma_floor(principal_a * rate_a_bps + principal_b * rate_b_bps, both);
    }
}

/// Growth starts at one whole, and every period multiplies it by one plus the rate,
/// rounded down to billionths. A rate in basis points per period is exact in
/// billionths; a daily rate is the 365th part of the annual one, rounded down.
pub proof fn law_growth_compounds(step: nat, periods: nat, rate_bps: u32)
    ensures
        growth(step, 0) == 1_000_000_000,
        growth(step, periods + 1) * 1_000_000_000 <= growth(step, periods) * (1_000_000_000 + step)
            < (growth(step, periods + 1) + 1) * 1_000_000_000,
        period_step(rate_bps) * 10_000 == rate_bps * 1_000_000_000,
        daily_step(rate_bps) * (365 * 10_000) <= rate_bps * 1_000_000_000 < (daily_step(rate_bps)
            + 1) * (365 * 10_000),
{
    lemma_floor((growth(step, periods) * (1_000_000_000 + step)) as int, 1_000_000_000);
    lemma_floor(rate_bps * 1_000_000_000, 3_650_000);
}

/// A principal that is compounded is multiplied by the growth of all periods, rounded
/// down once. Compounding is refused exactly if the rate is above 100%, for more than
/// 36,500 periods, or if the balance does not fit. The interest is what the balance has
/// more than the principal; the effective rate is what 10,000 earn in 365 days.
pub proof fn law_compounding(principal: u64, rate_bps: u32, step: nat, periods: u64)
    ensures
        ({
            let balance = compounded(principal, step, periods);
            let factor = growth(step, periods as nat);
            let result = compounding_result(principal, rate_bps, step, periods);
            &&& balance * 1_000_000_000 <= principal * factor < (balance + 1) * 1_000_000_000
            &&& balance >= principal
            &&& result is Err <==> rate_bps > 10_000 || periods > 36_500 || balance
                > 0xffff_ffff_ffff_ffff
            &&& result matches Ok(b) ==> b == balance
            &&& result matches Ok(b) ==> {
                &&& interest_of(result, principal) matches Ok(interest)
                &&& interest + principal == b
            }
            &&& result is Err ==> interest_of(result, principal) is Err
        }),
        effective_rate(rate_bps) + 10_000 == compounded(10_000, daily_step(rate_bps), 365),
{
    let factor = growth(step, periods as nat);
    law_growth_is_monotone(step, 0, periods as nat);
    lemma_grown(principal, factor);
    lemma_floor(principal * factor as int, 1_000_000_000);
}

/// A whole has 10,000 basis points, a year 365 days, a day 24 hours; rates go up to 100%,
/// and interest is compounded over at most a hundred years of days, in billionths.
pub proof fn law_limits()
    ensures
        BPS_DENOMINATOR == 10_000,
        SECONDS_PER_DAY == 24 * 60 * 60,
        SECONDS_PER_YEAR == 365 * 24 * 60 * 60,
        MAX_RATE_BPS == 10_000,
        MAX_PERIODS == 100 * 365,
        GROWTH_SCALE == 1_000_000_000,
{
}

/// Why a rate or a horizon is refused: every reason that is given holds.
pub proof fn law_reason_compounding(rate_bps: u32, periods: u64)
    ensures
        match compounding_error(rate_bps, periods) {
            None => true,
            Some(InheritanceError::InvalidAllocation) => rate_bps > MAX_RATE_BPS || periods
                > MAX_PERIODS,
            Some(_) => false,
        },
{
}

} // verus!
