//! Share prices, interest and rates.
use vstd::prelude::*;
#[allow(unused_imports)]
use vstd::string::StringSliceAdditionalSpecFns;

use crate::lending::state::{rate_model_valid, LendingContract, LendingView};
use crate::lending::types::{PoolState, RateModel};
use crate::list::append_text;
use crate::math::{
    append_decimal, decimal, low32, low64, mul_div, product3, saturating_difference,
    saturating_sum32, share_bps, take_low32, take_low64, bps_share, lemma_floor,
    lemma_share_bounded,
};

verus! {

/// Refinancing fee: 0.5% of the outstanding balance.
pub const REFINANCING_FEE_BPS: u32 = 50;

/// Basis points times seconds in a year: the divisor of annual rates.
pub const RATE_DENOMINATOR: u128 = 315_360_000_000;

/// Loan-to-value ratio in basis points; zero without collateral, and at most
/// the largest `u32`.
pub open spec fn ltv_bps(principal: u64, collateral_amount: u64) -> u32 {
    if collateral_amount == 0 {
        0
    } else if (principal * 10_000) / (collateral_amount as int) <= u32::MAX {
        ((principal * 10_000) / (collateral_amount as int)) as u32
    } else {
        u32::MAX
    }
}

/// Shares that an amount buys: one for one in an empty pool, else in proportion
/// to the shares outstanding, rounded down; the low 64 bits count.
pub open spec fn shares_bought(pool: PoolState, amount: u64) -> u64 {
    if pool.total_shares == 0 || pool.total_deposits == 0 {
        amount
    } else {
        low64((amount * pool.total_shares) / (pool.total_deposits as int))
    }
}

/// Tokens that shares stand for, rounded down; the low 64 bits count.
pub open spec fn share_value(pool: PoolState, shares: u64) -> u64 {
    if pool.total_shares == 0 {
        0
    } else {
        low64((shares * pool.total_deposits) / (pool.total_shares as int))
    }
}

/// Simple interest at an annual rate, rounded to the nearest token unit; zero
/// where the exact product does not fit into 128 bits, and the low 64 bits count.
pub open spec fn interest(principal: u64, rate_bps: u32, elapsed_seconds: u64) -> u64 {
    let exact = principal * rate_bps * elapsed_seconds;
    if exact + RATE_DENOMINATOR / 2 > u128::MAX {
        0
    } else {
        low64((exact + RATE_DENOMINATOR / 2) / (RATE_DENOMINATOR as int))
    }
}

/// Accrual at an annual rate, rounded down; zero where the exact product does
/// not fit into 128 bits, and at most the largest `u64`.
pub open spec fn accrual(principal: u64, rate_bps: u32, elapsed_seconds: u64) -> u64 {
    let exact = principal * rate_bps * elapsed_seconds;
    if exact > u128::MAX {
        0
    } else if exact / (RATE_DENOMINATOR as int) > u64::MAX {
        u64::MAX
    } else {
        (exact / (RATE_DENOMINATOR as int)) as u64
    }
}

/// Borrowed part of the deposits in basis points; the low 32 bits count.
pub open spec fn utilization(total_borrowed: u64, total_deposits: u64) -> u32 {
    if total_deposits == 0 {
        0
    } else {
        low32((total_borrowed * 10_000) / (total_deposits as int))
    }
}

/// The rate that grows with the utilization in one line.
pub open spec fn linear_rate(base_rate_bps: u32, multiplier_bps: u32, utilization_bps: u32) -> u32 {
    saturating_sum32(base_rate_bps, low32((utilization_bps * multiplier_bps) / 10_000))
}

/// The rate that grows gently up to the optimal utilization and steeply above it.
pub open spec fn kinked_rate(model: RateModel, utilization_bps: u32) -> u32 {
    let optimal = model.optimal_utilization_bps;
    if utilization_bps <= optimal {
        saturating_sum32(
            model.base_rate_bps,
            low32((utilization_bps * model.slope1_bps) / (optimal as int)),
        )
    } else {
        let steep = if optimal >= 10_000 {
            model.slope2_bps as int
        } else {
            ((utilization_bps - optimal) * model.slope2_bps) / (10_000 - optimal)
        };
        saturating_sum32(
            saturating_sum32(model.base_rate_bps, model.slope1_bps),
            low32(steep),
        )
    }
}

/// The rate paid to suppliers: the borrow rate on the borrowed part, less the
/// reserve; the low 32 bits count.
pub open spec fn supply_rate(borrow_rate: u32, utilization_bps: u32, reserve_factor: u32) -> u32 {
    let kept = if reserve_factor <= 10_000 {
        10_000 - reserve_factor
    } else {
        0
    };
    low32((borrow_rate * utilization_bps * kept) / 100_000_000)
}

/// The JSON text that describes a loan token.
pub open spec fn loan_nft_uri(
    loan_id: u64,
    principal: u64,
    collateral_amount: u64,
    ltv_ratio_bps: u32,
    due_date: u64,
) -> Seq<u8> {
    "{\"name\":\"InheritX Loan NFT #".spec_bytes() + decimal(loan_id as nat)
        + "\",\"loan_id\":".spec_bytes() + decimal(loan_id as nat)
        + ",\"principal\":".spec_bytes() + decimal(principal as nat)
        + ",\"collateral_amount\":".spec_bytes() + decimal(collateral_amount as nat)
        + ",\"ltv_ratio_bps\":".spec_bytes() + decimal(ltv_ratio_bps as nat)
        + ",\"plan_id\":0".spec_bytes() + ",\"due_date\":".spec_bytes() + decimal(due_date as nat)
        + "}".spec_bytes()
}

proof fn lemma_triple_product(a: u64, b: u32, c: u64)
    ensures
        0 <= a * b * c,
        0 <= a * b,
{
    assert(0 <= a * b) by (nonlinear_arith)
        requires
            0 <= a,
            0 <= b,
    ;
    assert(0 <= (a * b) * c) by (nonlinear_arith)
        requires
            0 <= a * b,
            0 <= c,
    ;
}

/// A split of the interest loses nothing: the two parts make up the whole.
pub proof fn law_interest_split(total_interest: u64, reserve_factor_bps: u32)
    requires
        reserve_factor_bps <= 10_000,
    ensures
        bps_share(total_interest, reserve_factor_bps) + saturating_difference(
            total_interest,
            bps_share(total_interest, reserve_factor_bps),
        ) == total_interest,
{
    lemma_share_bounded(total_interest, reserve_factor_bps);
}

/// Interest never shrinks as time passes, while the exact product fits.
pub proof fn law_interest_monotone(principal: u64, rate_bps: u32, earlier: u64, later: u64)
    requires
        earlier <= later,
        (principal * rate_bps * later + RATE_DENOMINATOR / 2) / (RATE_DENOMINATOR as int)
            <= u64::MAX,
        principal * rate_bps * later + RATE_DENOMINATOR / 2 <= u128::MAX,
    ensures
        interest(principal, rate_bps, earlier) <= interest(principal, rate_bps, later),
{
    lemma_triple_product(principal, rate_bps, earlier);
    assert((principal * rate_bps) * earlier <= (principal * rate_bps) * later) by (nonlinear_arith)
        requires
            0 <= principal * rate_bps,
            earlier <= later,
    ;
}

/// Rounding never favours the depositor: shares bought with an amount and sold
/// again at once are worth at most that amount.
pub proof fn law_round_trip_never_gains(pool: PoolState, amount: u64)
    requires
        pool.total_shares > 0,
        pool.total_deposits > 0,
        (amount * pool.total_shares) / (pool.total_deposits as int) <= u64::MAX,
        pool.total_shares + shares_bought(pool, amount) <= u64::MAX,
        pool.total_deposits + amount <= u64::MAX,
    ensures
        ({
            let minted = shares_bought(pool, amount);
            let after = PoolState {
                total_deposits: (pool.total_deposits + amount) as u64,
                total_shares: (pool.total_shares + minted) as u64,
                ..pool
            };
            share_value(after, minted) <= amount
        }),
{
    let minted = shares_bought(pool, amount) as int;
    let deposits = pool.total_deposits as int;
    let shares = pool.total_shares as int;
    let a = amount as int;
    assert(0 <= a * shares) by (nonlinear_arith)
        requires
            0 <= a,
            0 <= shares,
    ;
    let quotient = (a * shares) / deposits;
    assert(0 <= quotient && quotient * deposits <= a * shares) by (nonlinear_arith)
        requires
            quotient == (a * shares) / deposits,
            deposits > 0,
            0 <= a * shares,
    ;
    assert(minted == quotient);
    assert(minted * (deposits + a) <= a * (shares + minted)) by (nonlinear_arith)
        requires
            minted * deposits <= a * shares,
    ;
    assert(0 <= minted * (deposits + a)) by (nonlinear_arith)
        requires
            0 <= minted,
            0 <= deposits,
            0 <= a,
    ;
    let value = (minted * (deposits + a)) / (shares + minted);
    assert(0 <= value <= a) by (nonlinear_arith)
        requires
            value == (minted * (deposits + a)) / (shares + minted),
            0 <= minted * (deposits + a) <= a * (shares + minted),
            shares + minted > 0,
    ;
}

/// Shares are never worth more than the pool holds.
pub proof fn law_share_value_bounded(pool: PoolState, shares: u64)
    requires
        shares <= pool.total_shares,
    ensures
        share_value(pool, shares) <= pool.total_deposits,
{
    if pool.total_shares > 0 {
        let s = shares as int;
        let d = pool.total_deposits as int;
        let t = pool.total_shares as int;
        assert(0 <= s * d <= t * d) by (nonlinear_arith)
            requires
                0 <= s <= t,
                0 <= d,
        ;
        let value = (s * d) / t;
        assert(0 <= value <= d) by (nonlinear_arith)
            requires
                value == (s * d) / t,
                0 <= s * d <= t * d,
                t > 0,
        ;
    }
}

impl LendingView {
    /// The rate at which a pool lends at a given utilization.
    pub open spec fn borrow_rate_at(self, pool: PoolState, utilization_bps: u32) -> u32 {
        match self.rate_model {
            Some(model) => kinked_rate(model, utilization_bps),
            None => linear_rate(pool.base_rate_bps, pool.multiplier_bps, utilization_bps),
        }
    }

    /// The part of the interest that a pool keeps.
    pub open spec fn reserve_factor(self, pool: PoolState) -> u32 {
        match self.rate_model {
            Some(model) => model.reserve_factor_bps,
            None => pool.reserve_factor_bps,
        }
    }

    /// The rate that a pool pays to its suppliers.
    pub open spec fn pool_supply_rate(self, pool: PoolState) -> u32 {
        let utilization_bps = utilization(pool.total_borrowed, pool.total_deposits);
        supply_rate(
            self.borrow_rate_at(pool, utilization_bps),
            utilization_bps,
            self.reserve_factor(pool),
        )
    }

    /// The pool of the first asset.
    pub open spec fn first_pool(self) -> PoolState {
        self.pools[self.token->0]
    }
}

impl LendingContract {
    /// Loan-to-value ratio in basis points.
    pub fn calc_ltv_ratio_bps(principal: u64, collateral_amount: u64) -> (ltv: u32)
        ensures
            ltv == ltv_bps(principal, collateral_amount),
    {
        if collateral_amount == 0 {
            return 0;
        }
        let ltv: u128 = mul_div(principal, 10_000, collateral_amount);
        if ltv <= u32::MAX as u128 {
            ltv as u32
        } else {
            u32::MAX
        }
    }

    /// Appends a number in decimal digits.
    pub fn append_u64_to_bytes(data: &mut Vec<u8>, n: u64)
        ensures
            final(data)@ == old(data)@ + decimal(n as nat),
    {
        append_decimal(data, n);
    }

    /// The JSON text that describes a loan token.
    pub fn build_loan_nft_uri(
        loan_id: u64,
        principal: u64,
        collateral_amount: u64,
        ltv_ratio_bps: u32,
        due_date: u64,
    ) -> (uri: Vec<u8>)
        ensures
            uri@ == loan_nft_uri(loan_id, principal, collateral_amount, ltv_ratio_bps, due_date),
    {
        let mut data: Vec<u8> = Vec::new();
        append_text(&mut data, "{\"name\":\"InheritX Loan NFT #");
        proof {
            assert(data@ =~= "{\"name\":\"InheritX Loan NFT #".spec_bytes());
        }
        Self::append_u64_to_bytes(&mut data, loan_id);
        append_text(&mut data, "\",\"loan_id\":");
        Self::append_u64_to_bytes(&mut data, loan_id);
        append_text(&mut data, ",\"principal\":");
        Self::append_u64_to_bytes(&mut data, principal);
        append_text(&mut data, ",\"collateral_amount\":");
        Self::append_u64_to_bytes(&mut data, collateral_amount);
        append_text(&mut data, ",\"ltv_ratio_bps\":");
        Self::append_u64_to_bytes(&mut data, ltv_ratio_bps as u64);
        append_text(&mut data, ",\"plan_id\":0");
        append_text(&mut data, ",\"due_date\":");
        Self::append_u64_to_bytes(&mut data, due_date);
        append_text(&mut data, "}");
        data
    }

    /// Calculate how many shares to mint for a given deposit amount.
    /// On the first deposit (total_shares == 0), shares = amount (1:1).
    pub fn shares_for_deposit(pool: &PoolState, amount: u64) -> (shares: u64)
        ensures
            shares == shares_bought(*pool, amount),
    {
        if pool.total_shares == 0 || pool.total_deposits == 0 {
            amount
        } else {
            take_low64(mul_div(amount, pool.total_shares, pool.total_deposits))
        }
    }

    /// Calculate how many underlying tokens correspond to a given number of shares.
    pub fn assets_for_shares(pool: &PoolState, shares: u64) -> (amount: u64)
        ensures
            amount == share_value(*pool, shares),
    {
        if pool.total_shares == 0 {
            0
        } else {
            take_low64(mul_div(shares, pool.total_deposits, pool.total_shares))
        }
    }

    /// Calculate simple interest for a given principal, rate, and time elapsed.
    pub fn calculate_interest(principal: u64, rate_bps: u32, elapsed_seconds: u64) -> (amount: u64)
        ensures
            amount == interest(principal, rate_bps, elapsed_seconds),
    {
        proof {
            lemma_triple_product(principal, rate_bps, elapsed_seconds);
        }
        if elapsed_seconds == 0 || rate_bps == 0 {
            proof {
                assert(principal * rate_bps * elapsed_seconds == 0) by (nonlinear_arith)
                    requires
                        elapsed_seconds == 0 || rate_bps == 0,
                ;
            }
            return 0;
        }
        let numerator: u128 = match product3(principal, rate_bps, elapsed_seconds) {
            Some(v) => v,
            None => {
                return 0;
            },
        };
        match numerator.checked_add(RATE_DENOMINATOR / 2) {
            Some(v) => take_low64(v / RATE_DENOMINATOR),
            None => 0,
        }
    }

    /// Calculate the pool utilization ratio in basis points (0 to 10000)
    pub fn get_utilization_bps(total_borrowed: u64, total_deposits: u64) -> (bps: u32)
        ensures
            bps == utilization(total_borrowed, total_deposits),
    {
        if total_deposits == 0 {
            return 0;
        }
        take_low32(mul_div(total_borrowed, 10_000, total_deposits))
    }

    /// Calculate the dynamic interest rate based on utilization
    pub fn calculate_dynamic_rate(
        base_rate_bps: u32,
        multiplier_bps: u32,
        utilization_bps: u32,
    ) -> (rate: u32)
        ensures
            rate == linear_rate(base_rate_bps, multiplier_bps, utilization_bps),
    {
        let variable_rate: u128 = mul_div(utilization_bps as u64, multiplier_bps as u64, 10_000);
        base_rate_bps.saturating_add(take_low32(variable_rate))
    }

    /// Two-slope interest rate calculation.
    pub fn two_slope_rate(model: &RateModel, utilization_bps: u32) -> (rate: u32)
        requires
            utilization_bps <= model.optimal_utilization_bps ==> model.optimal_utilization_bps > 0,
        ensures
            rate == kinked_rate(*model, utilization_bps),
    {
        let optimal: u32 = model.optimal_utilization_bps;
        if utilization_bps <= optimal {
            let variable: u128 = mul_div(
                utilization_bps as u64,
                model.slope1_bps as u64,
                optimal as u64,
            );
            model.base_rate_bps.saturating_add(take_low32(variable))
        } else {
            let excess: u32 = utilization_bps - optimal;
            let max_excess: u32 = 10_000u32.saturating_sub(optimal);
            let steep: u128 = if max_excess == 0 {
                model.slope2_bps as u128
            } else {
                mul_div(excess as u64, model.slope2_bps as u64, max_excess as u64)
            };
            model.base_rate_bps.saturating_add(model.slope1_bps).saturating_add(take_low32(steep))
        }
    }

    /// Pure pro-rata accrual, exposed so callers run the same maths the pool
    /// does instead of reimplementing it.
    pub fn simulate_plan_yield(principal: u64, rate_bps: u32, elapsed_secs: u64) -> (amount: u64)
        ensures
            amount == accrual(principal, rate_bps, elapsed_secs),
    {
        proof {
            lemma_triple_product(principal, rate_bps, elapsed_secs);
        }
        match product3(principal, rate_bps, elapsed_secs) {
            Some(v) => {
                let accrued: u128 = v / RATE_DENOMINATOR;
                if accrued <= u64::MAX as u128 {
                    accrued as u64
                } else {
                    u64::MAX
                }
            },
            None => 0,
        }
    }

    /// Calculate interest split between depositors and protocol
    /// Returns (depositor_interest, protocol_interest)
    pub fn calculate_interest_split(total_interest: u64, reserve_factor_bps: u32) -> (split: (
        u64,
        u64,
    ))
        ensures
            split.1 == bps_share(total_interest, reserve_factor_bps),
            split.0 == saturating_difference(total_interest, split.1),
    {
        let protocol_share: u64 = share_bps(total_interest, reserve_factor_bps);
        let depositor_share: u64 = total_interest.saturating_sub(protocol_share);
        (depositor_share, protocol_share)
    }

    /// The rate at which a pool lends at a given utilization.
    pub fn borrow_rate_at(&self, pool: &PoolState, utilization_bps: u32) -> (rate: u32)
        requires
            rate_model_valid(self@.rate_model),
        ensures
            rate == self@.borrow_rate_at(*pool, utilization_bps),
    {
        match &self.rate_model {
            Some(model) => Self::two_slope_rate(model, utilization_bps),
            None => Self::calculate_dynamic_rate(
                pool.base_rate_bps,
                pool.multiplier_bps,
                utilization_bps,
            ),
        }
    }

    /// The rate that a pool pays to its suppliers.
    pub fn pool_supply_rate(&self, pool: &PoolState) -> (rate: u32)
        requires
            rate_model_valid(self@.rate_model),
        ensures
            rate == self@.pool_supply_rate(*pool),
    {
        let utilization_bps: u32 = Self::get_utilization_bps(
            pool.total_borrowed,
            pool.total_deposits,
        );
        let borrow_rate: u32 = self.borrow_rate_at(pool, utilization_bps);
        let reserve_factor: u32 = match &self.rate_model {
            Some(model) => model.reserve_factor_bps,
            None => pool.reserve_factor_bps,
        };
        let kept: u32 = 10_000u32.saturating_sub(reserve_factor);
        let product: u64 = {
            proof {
                assert(0 <= borrow_rate * utilization_bps <= 0xffff_ffff * 0xffff_ffff)
                    by (nonlinear_arith)
                    requires
                        0 <= borrow_rate <= 0xffff_ffff,
                        0 <= utilization_bps <= 0xffff_ffff,
                ;
            }
            (borrow_rate as u64) * (utilization_bps as u64)
        };
        proof {
            assert(0 <= (borrow_rate * utilization_bps) * kept <= (0xffff_ffff * 0xffff_ffff)
                * 0xffff_ffff) by (nonlinear_arith)
                requires
                    0 <= borrow_rate * utilization_bps <= 0xffff_ffff * 0xffff_ffff,
                    0 <= kept <= 0xffff_ffff,
            ;
        }
        take_low32((product as u128) * (kept as u128) / 100_000_000)
    }
}

/// The loan-to-value ratio: ten thousand times the principal over the collateral,
/// rounded down.
pub proof fn law_ltv(principal: u64, collateral_amount: u64)
    ensures
        collateral_amount == 0 ==> ltv_bps(principal, collateral_amount) == 0,
        collateral_amount > 0 ==> {
            ||| ltv_bps(principal, collateral_amount) * collateral_amount <= principal * 10_000 < (
            ltv_bps(principal, collateral_amount) + 1) * collateral_amount
            ||| ltv_bps(principal, collateral_amount) == 0xffff_ffff && principal * 10_000
                >= 0x1_0000_0000 * collateral_amount
        },
{
    if collateral_amount > 0 {
        let c = collateral_amount as int;
        lemma_floor(principal * 10_000, c);
        let quotient = (principal * 10_000) / c;
        if quotient > u32::MAX {
            assert(quotient * c >= 0x1_0000_0000 * c) by (nonlinear_arith)
                requires
                    quotient >= 0x1_0000_0000,
                    c > 0,
            ;
        }
    }
}

/// A deposit buys its part of the pool: the first one buys a share for each unit, and a
/// later one as many whole shares as keep the price of a share from falling.
pub proof fn law_shares_are_bought_in_proportion(pool: PoolState, amount: u64)
    requires
        amount * pool.total_shares < pool.total_deposits * 0x1_0000_0000_0000_0000,
    ensures
        pool.total_shares == 0 ==> shares_bought(pool, amount) == amount,
        pool.total_shares > 0 ==> shares_bought(pool, amount) * pool.total_deposits <= amount
            * pool.total_shares < (shares_bought(pool, amount) + 1) * pool.total_deposits,
{
    if pool.total_shares > 0 && pool.total_deposits > 0 {
        let d = pool.total_deposits as int;
        let n = amount * pool.total_shares;
        assert(0 <= n) by (nonlinear_arith)
            requires
                n == amount * pool.total_shares,
                0 <= amount,
                0 <= pool.total_shares,
        ;
        lemma_floor(n, d);
        let quotient = n / d;
        assert(quotient < 0x1_0000_0000_0000_0000) by (nonlinear_arith)
            requires
                quotient * d <= n,
                n < d * 0x1_0000_0000_0000_0000,
                d > 0,
        ;
        assert(shares_bought(pool, amount) == quotient);
    } else if pool.total_deposits == 0 {
        assert(amount * pool.total_shares >= 0) by (nonlinear_arith)
            requires
                0 <= amount,
                0 <= pool.total_shares,
        ;
        assert(0 * 0x1_0000_0000_0000_0000 == 0int);
    }
}

/// Shares are worth their part of the deposits, rounded down; all shares together are
/// worth all deposits.
pub proof fn law_shares_are_worth_their_part(pool: PoolState, shares: u64)
    requires
        shares <= pool.total_shares,
        pool.total_shares > 0,
    ensures
        share_value(pool, shares) * pool.total_shares <= shares * pool.total_deposits < (
        share_value(pool, shares) + 1) * pool.total_shares,
        shares == pool.total_shares ==> share_value(pool, shares) == pool.total_deposits,
{
    let t = pool.total_shares as int;
    let s = shares as int;
    let d = pool.total_deposits as int;
    let n = s * d;
    assert(0 <= n <= t * d) by (nonlinear_arith)
        requires
            n == s * d,
            0 <= s <= t,
            0 <= d,
    ;
    lemma_floor(n, t);
    let quotient = n / t;
    assert(quotient <= d) by (nonlinear_arith)
        requires
            quotient * t <= n,
            n <= t * d,
            t > 0,
    ;
    assert(share_value(pool, shares) == quotient);
    if shares == pool.total_shares {
        assert(quotient == d) by (nonlinear_arith)
            requires
                n == t * d,
                quotient * t <= n < (quotient + 1) * t,
                t > 0,
        ;
    }
}

/// Interest is the principal times the rate times the part of a year of 365 days that
/// has passed, to the nearest unit.
pub proof fn law_interest_is_simple_and_annual(principal: u64, rate_bps: u32, elapsed: u64)
    requires
        principal * rate_bps * elapsed < 315_360_000_000 * 0xffff_ffff_ffff_ffff,
    ensures
        ({
            let exact = principal * rate_bps * elapsed;
            let earned = interest(principal, rate_bps, elapsed) as int;
            &&& exact - 157_680_000_000 < earned * 315_360_000_000 <= exact + 157_680_000_000
        }),
        principal == 0 || rate_bps == 0 || elapsed == 0 ==> interest(principal, rate_bps, elapsed)
            == 0,
{
    lemma_triple_product(principal, rate_bps, elapsed);
    let exact = principal * rate_bps * elapsed;
    lemma_floor(exact + 157_680_000_000, 315_360_000_000);
    let quotient = (exact + 157_680_000_000) / 315_360_000_000;
    assert(exact + 157_680_000_000 <= u128::MAX);
    assert(quotient < 0x1_0000_0000_0000_0000);
    assert(interest(principal, rate_bps, elapsed) == quotient);
    if principal == 0 || rate_bps == 0 || elapsed == 0 {
        assert(exact == 0) by (nonlinear_arith)
            requires
                exact == principal * rate_bps * elapsed,
                principal == 0 || rate_bps == 0 || elapsed == 0,
        ;
    }
}

/// A position accrues its principal times its rate times the part of a year of 365 days
/// that has passed, rounded down.
pub proof fn law_accrual_is_simple_and_annual(principal: u64, rate_bps: u32, elapsed: u64)
    requires
        principal * rate_bps * elapsed < 315_360_000_000 * 0x1_0000_0000_0000_0000,
    ensures
        accrual(principal, rate_bps, elapsed) * 315_360_000_000 <= principal * rate_bps * elapsed
            < (accrual(principal, rate_bps, elapsed) + 1) * 315_360_000_000,
{
    lemma_triple_product(principal, rate_bps, elapsed);
    lemma_floor(principal * rate_bps * elapsed, 315_360_000_000);
}

/// Utilization is the borrowed part of the deposits in basis points, rounded down; a
/// pool without deposits is not used.
pub proof fn law_utilization(total_borrowed: u64, total_deposits: u64)
    requires
        total_borrowed * 10_000 < total_deposits * 0x1_0000_0000 || total_deposits == 0,
    ensures
        total_deposits == 0 ==> utilization(total_borrowed, total_deposits) == 0,
        total_deposits > 0 ==> utilization(total_borrowed, total_deposits) * total_deposits
            <= total_borrowed * 10_000 < (utilization(total_borrowed, total_deposits) + 1)
            * total_deposits,
        total_borrowed <= total_deposits ==> utilization(total_borrowed, total_deposits) <= 10_000,
{
    if total_deposits > 0 {
        let d = total_deposits as int;
        let n = total_borrowed * 10_000;
        lemma_floor(n, d);
        let quotient = n / d;
        assert(quotient < 0x1_0000_0000) by (nonlinear_arith)
            requires
                quotient * d <= n,
                n < d * 0x1_0000_0000,
                d > 0,
        ;
        assert(utilization(total_borrowed, total_deposits) == quotient);
        if total_borrowed <= total_deposits {
            assert(quotient <= 10_000) by (nonlinear_arith)
                requires
                    quotient * d <= n,
                    n <= d * 10_000,
                    d > 0,
            ;
        }
    }
}

/// A pool without a rate model lends at its base rate and, on top, at its multiplier
/// for the part of it that is used.
pub proof fn law_linear_rate(lending: LendingView, pool: PoolState, used: u32)
    requires
        lending.rate_model is None,
        pool.base_rate_bps + (used * pool.multiplier_bps) / 10_000 <= 0xffff_ffff,
    ensures
        ({
            let rate = lending.borrow_rate_at(pool, used);
            &&& (rate - pool.base_rate_bps) * 10_000 <= used * pool.multiplier_bps < (rate
                - pool.base_rate_bps + 1) * 10_000
            &&& used == 0 ==> rate == pool.base_rate_bps
            &&& used == 10_000 ==> rate == pool.base_rate_bps + pool.multiplier_bps
        }),
{
    let n = used * pool.multiplier_bps;
    assert(0 <= n) by (nonlinear_arith)
        requires
            n == used * pool.multiplier_bps,
            0 <= used,
            0 <= pool.multiplier_bps,
    ;
    lemma_floor(n, 10_000);
    assert(0 * pool.multiplier_bps == 0);
    assert(10_000 * pool.multiplier_bps == pool.multiplier_bps * 10_000);
}

/// A rate model starts at its base rate, has risen by its first slope at the optimal
/// utilization and by both slopes when everything is lent, and in between rises in
/// proportion. The pool's own rates do not count.
pub proof fn law_rate_model(lending: LendingView, pool: PoolState, used: u32)
    requires
        lending.rate_model is Some,
        rate_model_valid(lending.rate_model),
        used <= 10_000,
        lending.rate_model->0.base_rate_bps + lending.rate_model->0.slope1_bps
            + lending.rate_model->0.slope2_bps <= 0xffff_ffff,
    ensures
        ({
            let model = lending.rate_model->0;
            let optimal = model.optimal_utilization_bps;
            let rate = lending.borrow_rate_at(pool, used);
            let gentle = rate - model.base_rate_bps;
            let steep = rate - model.base_rate_bps - model.slope1_bps;
            &&& used <= optimal ==> gentle * optimal <= used * model.slope1_bps < (gentle + 1)
                * optimal
            &&& used > optimal ==> steep * (10_000 - optimal) <= (used - optimal)
                * model.slope2_bps < (steep + 1) * (10_000 - optimal)
            &&& used == 0 ==> rate == model.base_rate_bps
            &&& used == optimal ==> rate == model.base_rate_bps + model.slope1_bps
            &&& used == 10_000 ==> rate == model.base_rate_bps + model.slope1_bps
                + model.slope2_bps
        }),
{
    let model = lending.rate_model->0;
    let optimal = model.optimal_utilization_bps as int;
    let slope1 = model.slope1_bps as int;
    let slope2 = model.slope2_bps as int;
    let u = used as int;
    if u <= optimal {
        let n = u * slope1;
        assert(0 <= n <= optimal * slope1) by (nonlinear_arith)
            requires
                n == u * slope1,
                0 <= u <= optimal,
                0 <= slope1,
        ;
        lemma_floor(n, optimal);
        let quotient = n / optimal;
        assert(quotient <= slope1) by (nonlinear_arith)
            requires
                quotient * optimal <= n,
                n <= optimal * slope1,
                optimal > 0,
        ;
        assert(0 * slope1 == 0);
        if u == optimal {
            assert(quotient == slope1) by (nonlinear_arith)
                requires
                    n == optimal * slope1,
                    quotient * optimal <= n < (quotient + 1) * optimal,
                    optimal > 0,
            ;
        }
    } else {
        let d = 10_000 - optimal;
        let n = (u - optimal) * slope2;
        assert(0 <= n <= d * slope2) by (nonlinear_arith)
            requires
                n == (u - optimal) * slope2,
                0 <= u - optimal <= d,
                0 <= slope2,
        ;
        lemma_floor(n, d);
        let quotient = n / d;
        assert(quotient <= slope2) by (nonlinear_arith)
            requires
                quotient * d <= n,
                n <= d * slope2,
                d > 0,
        ;
        if u == 10_000 {
            assert(quotient == slope2) by (nonlinear_arith)
                requires
                    n == d * slope2,
                    quotient * d <= n < (quotient + 1) * d,
                    d > 0,
            ;
        }
    }
}

/// Suppliers are paid the borrow rate on the used part of the pool, less the reserve:
/// the reserve factor of the rate model where one is set, whatever the pool's own factor
/// is, and the pool's own factor otherwise.
pub proof fn law_supply_rate(lending: LendingView, pool: PoolState)
    requires
        rate_model_valid(lending.rate_model),
        lending.rate_model is None ==> pool.reserve_factor_bps <= 10_000,
        lending.borrow_rate_at(pool, utilization(pool.total_borrowed, pool.total_deposits))
            * utilization(pool.total_borrowed, pool.total_deposits) < 10_000 * 0x1_0000_0000,
    ensures
        ({
            let used = utilization(pool.total_borrowed, pool.total_deposits);
            let kept = match lending.rate_model {
                Some(model) => 10_000 - model.reserve_factor_bps,
                None => 10_000 - pool.reserve_factor_bps,
            };
            let exact = lending.borrow_rate_at(pool, used) * used * kept;
            let rate = lending.pool_supply_rate(pool);
            rate * 100_000_000 <= exact < (rate + 1) * 100_000_000
        }),
        forall|other: PoolState|
            lending.rate_model is Some && other.total_borrowed == pool.total_borrowed
                && other.total_deposits == pool.total_deposits ==> #[trigger] lending.pool_supply_rate(
            other) == lending.pool_supply_rate(pool),
{
    let used = utilization(pool.total_borrowed, pool.total_deposits);
    let rate = lending.borrow_rate_at(pool, used);
    let kept = match lending.rate_model {
        Some(model) => 10_000 - model.reserve_factor_bps,
        None => 10_000 - pool.reserve_factor_bps,
    };
    let base = rate * used;
    let exact = base * kept;
    assert(0 <= base) by (nonlinear_arith)
        requires
            base == rate * used,
            0 <= rate,
            0 <= used,
    ;
    assert(0 <= exact <= base * 10_000) by (nonlinear_arith)
        requires
            exact == base * kept,
            0 <= kept <= 10_000,
            0 <= base,
    ;
    lemma_floor(exact, 100_000_000);
    assert(exact == rate * used * kept);
    assert(exact / 100_000_000 < 0x1_0000_0000);
}

/// The text of a loan token names the loan, the principal, the collateral, the ratio, no
/// plan, and the date, in decimal digits.
pub proof fn law_loan_text(
    loan_id: u64,
    principal: u64,
    collateral_amount: u64,
    ltv_ratio_bps: u32,
    due_date: u64,
)
    ensures
        ({
            let text = loan_nft_uri(
                loan_id,
                principal,
                collateral_amount,
                ltv_ratio_bps,
                due_date,
            );
            text == "{\"name\":\"InheritX Loan NFT #".spec_bytes() + decimal(loan_id as nat)
                + "\",\"loan_id\":".spec_bytes() + decimal(loan_id as nat)
                + ",\"principal\":".spec_bytes() + decimal(principal as nat)
                + ",\"collateral_amount\":".spec_bytes() + decimal(collateral_amount as nat)
                + ",\"ltv_ratio_bps\":".spec_bytes() + decimal(ltv_ratio_bps as nat)
                + ",\"plan_id\":0".spec_bytes() + ",\"due_date\":".spec_bytes() + decimal(
                due_date as nat,
            ) + "}".spec_bytes()
        }),
{
}

/// The first pool is that of the token with which the contract was set up; without a
/// model the reserve is that of the pool, and with one that of the model.
pub proof fn law_first_pool(lending: LendingView, pool: PoolState)
    ensures
        lending.token matches Some(token) ==> lending.first_pool() == lending.pools[token],
        lending.rate_model is None ==> lending.reserve_factor(pool) == pool.reserve_factor_bps,
        lending.rate_model matches Some(model) ==> lending.reserve_factor(pool)
            == model.reserve_factor_bps,
{
}

} // verus!
