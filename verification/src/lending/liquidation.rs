//! Liquidating loans, and the reserve for bad debt.
use vstd::prelude::*;

use crate::host::{Address, Env};
use crate::lending::loans::{
    lemma_loan_update, lemma_primary_on_file, lemma_unfiled, loan_interest, outstanding,
};
use crate::lending::state::{lemma_pool_update, LendingContract, LendingView};
use crate::lending::types::{
    BadDebtLiquidationEvent, BadDebtReserveReplenishedEvent, LendingCallView, LendingError,
    LendingEvent, LendingEventView, LiquidationEvent, LoanRecord, PoolState,
};
use crate::math::{
    bps_share, lemma_floor, low32, mul_div, saturating_difference, saturating_sum, share_bps,
    take_low32,
};
use crate::access::Role;
use crate::list::without;

verus! {

/// Collateral over principal below which a loan can be liquidated: 150%.
pub const LIQUIDATION_THRESHOLD_BPS: u32 = 15_000;

/// Collateral that a liquidator gets for each unit of debt paid: 150%.
pub const LIQUIDATION_PAYOUT_BPS: u32 = 15_000;

/// Collateral over principal, in basis points; the low 32 bits count.
pub open spec fn health_factor(loan: LoanRecord) -> u32 {
    low32((loan.collateral_amount * 10_000) / (loan.principal as int))
}

/// Collateral that a liquidator gets for paying `amount`.
pub open spec fn seizure(amount: u64) -> u64 {
    bps_share(amount, LIQUIDATION_PAYOUT_BPS)
}

/// A loan after a liquidator paid `amount` of it.
pub open spec fn left_of(loan: LoanRecord, amount: u64) -> LoanRecord {
    LoanRecord {
        principal: (loan.principal - amount) as u64,
        collateral_amount: (loan.collateral_amount - seizure(amount)) as u64,
        ..loan
    }
}

/// What the first `n` of a series of liquidations paid.
pub open spec fn total_paid(amounts: Seq<u64>, n: int) -> int
    decreases n,
{
    if n <= 0 {
        0
    } else {
        total_paid(amounts, n - 1) + amounts[n - 1]
    }
}

/// What the first `n` of a series of liquidations seized.
pub open spec fn total_seized(amounts: Seq<u64>, n: int) -> int
    decreases n,
{
    if n <= 0 {
        0
    } else {
        total_seized(amounts, n - 1) + seizure(amounts[n - 1])
    }
}

impl LendingView {
    /// The contract with other terms of one borrower's open loan, in both records.
    pub open spec fn with_loan(self, loan: LoanRecord) -> LendingView {
        LendingView {
            loans: self.loans.insert(loan.borrower, loan),
            loans_by_id: self.loans_by_id.insert(loan.loan_id, loan),
            ..self
        }
    }

    /// The contract after the first `n` of a series of liquidations of one loan.
    pub open spec fn liquidated_in_turn(
        self,
        contract: Address,
        liquidators: Seq<Address>,
        borrower: Address,
        amounts: Seq<u64>,
        n: int,
    ) -> LendingView
        decreases n,
    {
        if n <= 0 {
            self
        } else {
            self.liquidated_in_turn(
                contract,
                liquidators,
                borrower,
                amounts,
                n - 1,
            ).liquidated(contract, liquidators[n - 1], borrower, amounts[n - 1])
        }
    }

    /// Why a liquidation is refused. The last two arguments are whether the
    /// payment arrived and whether the collateral could be handed over.
    pub open spec fn liquidate_error(
        self,
        now: u64,
        borrower: Address,
        amount: u64,
        payment_received: bool,
        collateral_paid: bool,
    ) -> Option<LendingError> {
        let loan = self.loans[borrower];
        if self.unpaused_entry_error() is Some {
            self.unpaused_entry_error()
        } else if !self.loans.contains_key(borrower) {
            Some(LendingError::NoOpenLoan)
        } else if amount == 0 || amount > loan.principal {
            Some(LendingError::InvalidAmount)
        } else if self.grace_error(loan) is Some {
            self.grace_error(loan)
        } else if now <= self.grace_end(loan) {
            Some(LendingError::InvalidAmount)
        } else if health_factor(loan) >= LIQUIDATION_THRESHOLD_BPS {
            Some(LendingError::InvalidAmount)
        } else if seizure(amount) > loan.collateral_amount {
            Some(LendingError::InvalidAmount)
        } else if !payment_received || !collateral_paid {
            Some(LendingError::TransferFailed)
        } else {
            None
        }
    }

    /// The contract after a liquidation: the loan is the smaller by what was paid,
    /// its collateral by what was seized.
    pub open spec fn liquidated(
        self,
        contract: Address,
        liquidator: Address,
        borrower: Address,
        amount: u64,
    ) -> LendingView {
        let loan = self.loans[borrower];
        let pool = self.pools[loan.asset];
        self.with_transfer(loan.asset, liquidator, contract, amount).with_transfer(
            loan.collateral_token,
            contract,
            liquidator,
            seizure(amount),
        ).with_pool(
            loan.asset,
            PoolState {
                total_borrowed: saturating_difference(pool.total_borrowed, amount),
                total_deposits: (pool.total_deposits + amount) as u64,
                ..pool
            },
        ).with_loan(left_of(loan, amount)).with_event(
            LendingEventView::Liquidation(
                LiquidationEvent {
                    loan_id: loan.loan_id,
                    borrower,
                    liquidator,
                    asset: loan.asset,
                    amount_repaid: amount,
                    collateral_seized: seizure(amount),
                    health_factor: health_factor(loan),
                },
            ),
        )
    }

    /// Why a call that is open to the stored admin alone is refused.
    pub open spec fn stored_admin_error(self, caller: Address) -> Option<LendingError> {
        if self.access.entered {
            Some(LendingError::ReentrantCall)
        } else if self.admin == Some(caller) {
            None
        } else {
            Some(LendingError::Unauthorized)
        }
    }

    /// Why an admin call on a contract that must not be paused is refused.
    pub open spec fn admin_entry_error(self, admin: Address) -> Option<LendingError> {
        if self.access.paused {
            Some(LendingError::ContractPaused)
        } else if self.admin is None {
            Some(LendingError::NotInitialized)
        } else {
            self.admin_error(admin)
        }
    }

    /// What the collateral of a loan does not cover.
    pub open spec fn shortfall(self, now: u64, loan: LoanRecord) -> u64 {
        saturating_difference(self.total_due(now, loan) as u64, loan.collateral_amount)
    }

    /// Why a write-off is refused.
    pub open spec fn bad_debt_error(self, now: u64, admin: Address, borrower: Address) -> Option<
        LendingError,
    > {
        let loan = self.loans[borrower];
        if self.admin_entry_error(admin) is Some {
            self.admin_entry_error(admin)
        } else if self.late_fee_error(borrower) is Some {
            self.late_fee_error(borrower)
        } else if now <= self.grace_end(loan) {
            Some(LendingError::InvalidAmount)
        } else if self.shortfall(now, loan) > self.pools[loan.asset].bad_debt_reserve {
            Some(LendingError::InsufficientLiquidity)
        } else {
            None
        }
    }

    /// The contract after a loan was written off.
    pub open spec fn written_off(self, now: u64, borrower: Address) -> LendingView {
        let loan = self.loans[borrower];
        let pool = self.pools[loan.asset];
        let shortfall = self.shortfall(now, loan);
        let cleared = self.with_pool(
            loan.asset,
            PoolState {
                bad_debt_reserve: (pool.bad_debt_reserve - shortfall) as u64,
                total_borrowed: saturating_difference(pool.total_borrowed, loan.principal),
                ..pool
            },
        ).unfiled(borrower, loan.loan_id);
        (LendingView {
            late_fees_accrued: cleared.late_fees_accrued.remove(loan.loan_id),
            ..cleared
        }).with_event(
            LendingEventView::BadDebtLiquidation(
                BadDebtLiquidationEvent {
                    loan_id: loan.loan_id,
                    borrower,
                    asset: loan.asset,
                    outstanding_balance: self.total_due(now, loan) as u64,
                    collateral_seized: loan.collateral_amount,
                    shortfall_covered: shortfall,
                },
            ),
        )
    }

    /// Why taking from the reserve is refused. `transferred` is whether the
    /// tokens could be paid out.
    pub open spec fn reserve_payout_error(
        self,
        admin: Address,
        asset: Address,
        amount: u64,
        transferred: bool,
    ) -> Option<LendingError> {
        if self.stored_admin_error(admin) is Some {
            self.stored_admin_error(admin)
        } else if !self.pools.contains_key(asset) {
            Some(LendingError::AssetNotSupported)
        } else if self.pools[asset].bad_debt_reserve < amount {
            Some(LendingError::InsufficientLiquidity)
        } else if !transferred {
            Some(LendingError::TransferFailed)
        } else {
            None
        }
    }

    /// The contract after tokens of the reserve were paid out.
    pub open spec fn reserve_paid(
        self,
        contract: Address,
        asset: Address,
        to: Address,
        amount: u64,
    ) -> LendingView {
        let pool = self.pools[asset];
        self.with_pool(
            asset,
            PoolState { bad_debt_reserve: (pool.bad_debt_reserve - amount) as u64, ..pool },
        ).with_transfer(asset, contract, to, amount)
    }

    /// Why adding to the reserve is refused. `transferred` is whether the tokens arrived.
    pub open spec fn replenish_error(
        self,
        admin: Address,
        asset: Address,
        amount: u64,
        transferred: bool,
    ) -> Option<LendingError> {
        if self.admin_entry_error(admin) is Some {
            self.admin_entry_error(admin)
        } else if amount == 0 {
            Some(LendingError::InvalidAmount)
        } else if !self.pools.contains_key(asset) {
            Some(LendingError::AssetNotSupported)
        } else if !transferred {
            Some(LendingError::TransferFailed)
        } else {
            None
        }
    }

    /// The contract after tokens were added to the reserve.
    pub open spec fn replenished(
        self,
        contract: Address,
        admin: Address,
        asset: Address,
        amount: u64,
    ) -> LendingView {
        let pool = self.pools[asset];
        let reserve = saturating_sum(pool.bad_debt_reserve, amount);
        self.with_transfer(asset, admin, contract, amount).with_pool(
            asset,
            PoolState { bad_debt_reserve: reserve, ..pool },
        ).with_event(
            LendingEventView::BadDebtReserveReplenished(
                BadDebtReserveReplenishedEvent { asset, amount, new_reserve_balance: reserve },
            ),
        )
    }

    /// Why booking the interest of a loan is refused.
    pub open spec fn accrue_error(self, loan_id: u64) -> Option<LendingError> {
        if self.access.entered {
            Some(LendingError::ReentrantCall)
        } else if !self.loans_by_id.contains_key(loan_id) {
            Some(LendingError::LoanNotFound)
        } else {
            self.pool_error(self.loans_by_id[loan_id].asset)
        }
    }

    /// The pool of a loan after its interest was booked: the reserve factor's
    /// share goes to the reserve and the revenue, the rest to the retained yield.
    pub open spec fn accrued_pool(self, now: u64, loan: LoanRecord) -> PoolState {
        let pool = self.pools[loan.asset];
        let earned = loan_interest(now, loan);
        let kept = bps_share(earned, pool.reserve_factor_bps);
        PoolState {
            retained_yield: saturating_sum(
                pool.retained_yield,
                saturating_difference(earned, kept),
            ),
            bad_debt_reserve: saturating_sum(pool.bad_debt_reserve, kept),
            total_protocol_revenue: saturating_sum(pool.total_protocol_revenue, kept),
            ..pool
        }
    }
}

/// No loan can be liquidated before its grace period is over, nor while its
/// collateral is worth one and a half times its principal.
pub proof fn law_healthy_loans_are_safe(
    lending: LendingView,
    now: u64,
    borrower: Address,
    amount: u64,
)
    requires
        lending.loans.contains_key(borrower),
        now <= lending.grace_end(lending.loans[borrower]) || health_factor(lending.loans[borrower])
            >= LIQUIDATION_THRESHOLD_BPS,
    ensures
        lending.liquidate_error(now, borrower, amount, true, true) is Some,
{
}

/// A liquidator never gets more collateral than the loan has: what is paid leaves the
/// debt and what is seized leaves the collateral, in both records of the loan.
pub proof fn law_seizure_is_bounded(
    lending: LendingView,
    contract: Address,
    now: u64,
    liquidator: Address,
    borrower: Address,
    amount: u64,
    payment_received: bool,
    collateral_paid: bool,
)
    requires
        lending.well_formed(),
        lending.liquidate_error(
            now,
            borrower,
            amount,
            payment_received,
            collateral_paid,
        ) is None,
    ensures
        ({
            let loan = lending.loans[borrower];
            let after = lending.liquidated(contract, liquidator, borrower, amount);
            &&& after.loans.contains_key(borrower)
            &&& after.loans[borrower].principal + amount == loan.principal
            &&& after.loans[borrower].collateral_amount + seizure(amount) == loan.collateral_amount
            &&& after.loans_by_id[loan.loan_id] == after.loans[borrower]
            &&& after.well_formed()
        }),
{
    lemma_liquidated(lending, contract, liquidator, borrower, amount);
}

/// However often a loan is liquidated, the liquidators together never get more
/// collateral than the loan had, nor pay more than it owed.
pub proof fn law_repeated_seizures_are_bounded(
    lending: LendingView,
    contract: Address,
    liquidators: Seq<Address>,
    borrower: Address,
    amounts: Seq<u64>,
    times: Seq<u64>,
    n: int,
)
    requires
        lending.well_formed(),
        lending.loans.contains_key(borrower),
        0 <= n <= amounts.len(),
        forall|i: int|
            0 <= i < n ==> (#[trigger] lending.liquidated_in_turn(
                contract,
                liquidators,
                borrower,
                amounts,
                i,
            )).liquidate_error(times[i], borrower, amounts[i], true, true) is None,
    ensures
        ({
            let loan = lending.loans[borrower];
            let after = lending.liquidated_in_turn(contract, liquidators, borrower, amounts, n);
            &&& after.loans.contains_key(borrower)
            &&& after.loans[borrower].principal + total_paid(amounts, n) == loan.principal
            &&& after.loans[borrower].collateral_amount + total_seized(amounts, n)
                == loan.collateral_amount
            &&& after.well_formed()
        }),
    decreases n,
{
    if n > 0 {
        law_repeated_seizures_are_bounded(
            lending,
            contract,
            liquidators,
            borrower,
            amounts,
            times,
            n - 1,
        );
        let before = lending.liquidated_in_turn(contract, liquidators, borrower, amounts, n - 1);
        law_seizure_is_bounded(
            before,
            contract,
            times[n - 1],
            liquidators[n - 1],
            borrower,
            amounts[n - 1],
            true,
            true,
        );
    }
}

/// A liquidation keeps the contract well formed.
proof fn lemma_liquidated(
    lending: LendingView,
    contract: Address,
    liquidator: Address,
    borrower: Address,
    amount: u64,
)
    requires
        lending.well_formed(),
        lending.loans.contains_key(borrower),
        lending.pools.contains_key(lending.loans[borrower].asset),
    ensures
        lending.liquidated(contract, liquidator, borrower, amount).well_formed(),
        lending.loans[borrower].borrower == borrower,
{
    let loan = lending.loans[borrower];
    let pool = lending.pools[loan.asset];
    let updated = PoolState {
        total_borrowed: saturating_difference(pool.total_borrowed, amount),
        total_deposits: (pool.total_deposits + amount) as u64,
        ..pool
    };
    lemma_primary_on_file(lending, borrower);
    lemma_pool_update(lending, loan.asset, updated);
    lemma_loan_update(lending.with_pool(loan.asset, updated), left_of(loan, amount));
}

impl LendingContract {
    /// Liquidate an underwater loan by paying part of the debt and seizing collateral
    /// Only callable if the loan's health factor is below a safe threshold AND grace period has
    /// expired
    pub fn liquidate(
        &mut self,
        env: &Env,
        liquidator: Address,
        borrower: Address,
        amount: u64,
        payment_received: bool,
        collateral_paid: bool,
    ) -> (result: Result<u64, LendingError>)
        requires
            old(self)@.well_formed(),
            env.authorized(liquidator),
            old(self)@.liquidate_error(
                env.timestamp,
                borrower,
                amount,
                payment_received,
                collateral_paid,
            ) is None ==> old(self)@.pools[old(self)@.loans[borrower].asset].total_deposits + amount
                <= u64::MAX,
        ensures
            ({
                let error = old(self)@.liquidate_error(
                    env.timestamp,
                    borrower,
                    amount,
                    payment_received,
                    collateral_paid,
                );
                match result {
                    Err(e) => error == Some(e) && final(self)@ == old(self)@,
                    Ok(seized) => error is None && seized == seizure(amount) && final(self)@
                        == old(self)@.liquidated(env.contract, liquidator, borrower, amount),
                }
            }),
            final(self)@.well_formed(),
    {
        match self.check_unpaused_entry() {
            Some(e) => {
                return Err(e);
            },
            None => {},
        }
        let loan = match self.open_loan(borrower) {
            Ok(loan) => loan,
            Err(e) => {
                return Err(e);
            },
        };
        if amount == 0 || amount > loan.principal {
            return Err(LendingError::InvalidAmount);
        }
        match self.is_after_grace_period(env, &loan) {
            Ok(over) => {
                if !over {
                    return Err(LendingError::InvalidAmount);
                }
            },
            Err(e) => {
                return Err(e);
            },
        }
        let health: u32 = take_low32(mul_div(loan.collateral_amount, 10_000, loan.principal));
        if health >= LIQUIDATION_THRESHOLD_BPS {
            return Err(LendingError::InvalidAmount);
        }
        let collateral_to_seize: u64 = share_bps(amount, LIQUIDATION_PAYOUT_BPS);
        if collateral_to_seize > loan.collateral_amount {
            return Err(LendingError::InvalidAmount);
        }
        if !payment_received || !collateral_paid {
            return Err(LendingError::TransferFailed);
        }
        let pool = match self.get_pool(loan.asset) {
            Ok(pool) => pool,
            Err(e) => {
                return Err(e);
            },
        };
        let _ = self.transfer(loan.asset, liquidator, env.contract, amount, payment_received);
        let _ = self.transfer(
            loan.collateral_token,
            env.contract,
            liquidator,
            collateral_to_seize,
            collateral_paid,
        );
        let updated = PoolState {
            total_borrowed: pool.total_borrowed.saturating_sub(amount),
            total_deposits: pool.total_deposits + amount,
            ..pool
        };
        let left = LoanRecord {
            principal: loan.principal - amount,
            collateral_amount: loan.collateral_amount - collateral_to_seize,
            ..loan
        };
        proof {
            lemma_liquidated(old(self)@, env.contract, liquidator, borrower, amount);
        }
        self.set_pool(loan.asset, updated);
        self.loans.set(borrower, left);
        self.loans_by_id.set(loan.loan_id, left);
        self.publish(
            LendingEvent::Liquidation(
                LiquidationEvent {
                    loan_id: loan.loan_id,
                    borrower,
                    liquidator,
                    asset: loan.asset,
                    amount_repaid: amount,
                    collateral_seized: collateral_to_seize,
                    health_factor: health,
                },
            ),
        );
        Ok(collateral_to_seize)
    }

    /// Refuses a caller who is not the stored admin.
    fn check_stored_admin(&self, caller: Address) -> (error: Option<LendingError>)
        ensures
            error == self@.stored_admin_error(caller),
    {
        if self.access.entered {
            return Some(LendingError::ReentrantCall);
        }
        match self.admin {
            Some(admin) => if admin == caller {
                None
            } else {
                Some(LendingError::Unauthorized)
            },
            None => Some(LendingError::Unauthorized),
        }
    }

    /// Refuses an admin call on a contract that is paused or has no admin, and a
    /// caller who is not an admin.
    pub fn check_admin_entry(&self, env: &Env, admin: Address) -> (error: Option<LendingError>)
        requires
            env.authorized(admin),
        ensures
            error == self@.admin_entry_error(admin),
    {
        if self.access.paused {
            return Some(LendingError::ContractPaused);
        }
        if self.admin.is_none() {
            return Some(LendingError::NotInitialized);
        }
        match self.require_admin(env, admin) {
            Ok(()) => None,
            Err(e) => Some(e),
        }
    }

    /// Set the part of the interest that goes to the reserve, in basis points.
    pub fn set_reserve_factor(
        &mut self,
        env: &Env,
        admin: Address,
        asset: Address,
        reserve_factor_bps: u32,
    ) -> (result: Result<(), LendingError>)
        requires
            old(self)@.well_formed(),
            env.authorized(admin),
        ensures
            match result {
                Err(e) => final(self)@ == old(self)@ && if old(self)@.stored_admin_error(
                    admin,
                ) is Some {
                    old(self)@.stored_admin_error(admin) == Some(e)
                } else if reserve_factor_bps > 10_000 {
                    e == LendingError::InvalidAmount
                } else {
                    old(self)@.pool_error(asset) == Some(e)
                },
                Ok(()) => old(self)@.stored_admin_error(admin) is None && reserve_factor_bps
                    <= 10_000 && old(self)@.pool_error(asset) is None && final(self)@
                    == old(self)@.with_pool(
                    asset,
                    PoolState { reserve_factor_bps, ..old(self)@.pools[asset] },
                ),
            },
            final(self)@.well_formed(),
    {
        match self.check_stored_admin(admin) {
            Some(e) => {
                return Err(e);
            },
            None => {},
        }
        if reserve_factor_bps > 10_000 {
            return Err(LendingError::InvalidAmount);
        }
        let pool = match self.get_pool(asset) {
            Ok(pool) => pool,
            Err(e) => {
                return Err(e);
            },
        };
        let updated = PoolState { reserve_factor_bps, ..pool };
        proof {
            lemma_pool_update(self@, asset, updated);
        }
        self.set_pool(asset, updated);
        Ok(())
    }

    /// Pays tokens of the reserve out.
    fn pay_from_reserve(
        &mut self,
        env: &Env,
        admin: Address,
        asset: Address,
        to: Address,
        amount: u64,
        transferred: bool,
    ) -> (result: Result<(), LendingError>)
        requires
            old(self)@.well_formed(),
        ensures
            ({
                let error = old(self)@.reserve_payout_error(admin, asset, amount, transferred);
                match result {
                    Err(e) => error == Some(e) && final(self)@ == old(self)@,
                    Ok(()) => error is None && final(self)@ == old(self)@.reserve_paid(
                        env.contract,
                        asset,
                        to,
                        amount,
                    ),
                }
            }),
            final(self)@.well_formed(),
    {
        match self.check_stored_admin(admin) {
            Some(e) => {
                return Err(e);
            },
            None => {},
        }
        let pool = match self.get_pool(asset) {
            Ok(pool) => pool,
            Err(e) => {
                return Err(e);
            },
        };
        if pool.bad_debt_reserve < amount {
            return Err(LendingError::InsufficientLiquidity);
        }
        if !transferred {
            return Err(LendingError::TransferFailed);
        }
        let updated = PoolState { bad_debt_reserve: pool.bad_debt_reserve - amount, ..pool };
        proof {
            lemma_pool_update(self@, asset, updated);
        }
        self.set_pool(asset, updated);
        let _ = self.transfer(asset, env.contract, to, amount, transferred);
        Ok(())
    }

    /// Pays tokens of the reserve to the admin.
    pub fn withdraw_reserves(
        &mut self,
        env: &Env,
        admin: Address,
        asset: Address,
        amount: u64,
        transferred: bool,
    ) -> (result: Result<(), LendingError>)
        requires
            old(self)@.well_formed(),
            env.authorized(admin),
        ensures
            ({
                let error = old(self)@.reserve_payout_error(admin, asset, amount, transferred);
                match result {
                    Err(e) => error == Some(e) && final(self)@ == old(self)@,
                    Ok(()) => error is None && final(self)@ == old(self)@.reserve_paid(
                        env.contract,
                        asset,
                        admin,
                        amount,
                    ),
                }
            }),
            final(self)@.well_formed(),
    {
        self.pay_from_reserve(env, admin, asset, admin, amount, transferred)
    }

    /// Pays tokens of the reserve to an insurance fund.
    pub fn allocate_reserves(
        &mut self,
        env: &Env,
        admin: Address,
        asset: Address,
        amount: u64,
        insurance_fund: Address,
        transferred: bool,
    ) -> (result: Result<(), LendingError>)
        requires
            old(self)@.well_formed(),
            env.authorized(admin),
        ensures
            ({
                let error = old(self)@.reserve_payout_error(admin, asset, amount, transferred);
                match result {
                    Err(e) => error == Some(e) && final(self)@ == old(self)@,
                    Ok(()) => error is None && final(self)@ == old(self)@.reserve_paid(
                        env.contract,
                        asset,
                        insurance_fund,
                        amount,
                    ),
                }
            }),
            final(self)@.well_formed(),
    {
        self.pay_from_reserve(env, admin, asset, insurance_fund, amount, transferred)
    }

    /// Adds tokens of the admin to the reserve; returns what the reserve holds then.
    pub fn replenish_bad_debt_reserve(
        &mut self,
        env: &Env,
        admin: Address,
        asset: Address,
        amount: u64,
        transferred: bool,
    ) -> (result: Result<u64, LendingError>)
        requires
            old(self)@.well_formed(),
            env.authorized(admin),
        ensures
            ({
                let error = old(self)@.replenish_error(admin, asset, amount, transferred);
                match result {
                    Err(e) => error == Some(e) && final(self)@ == old(self)@,
                    Ok(reserve) => error is None && reserve == saturating_sum(
                        old(self)@.pools[asset].bad_debt_reserve,
                        amount,
                    ) && final(self)@ == old(self)@.replenished(
                        env.contract,
                        admin,
                        asset,
                        amount,
                    ),
                }
            }),
            final(self)@.well_formed(),
    {
        match self.check_admin_entry(env, admin) {
            Some(e) => {
                return Err(e);
            },
            None => {},
        }
        if amount == 0 {
            return Err(LendingError::InvalidAmount);
        }
        let pool = match self.get_pool(asset) {
            Ok(pool) => pool,
            Err(e) => {
                return Err(e);
            },
        };
        if !transferred {
            return Err(LendingError::TransferFailed);
        }
        let _ = self.transfer(asset, admin, env.contract, amount, transferred);
        let updated = PoolState {
            bad_debt_reserve: pool.bad_debt_reserve.saturating_add(amount),
            ..pool
        };
        proof {
            lemma_pool_update(self@, asset, updated);
        }
        self.set_pool(asset, updated);
        self.publish(
            LendingEvent::BadDebtReserveReplenished(
                BadDebtReserveReplenishedEvent {
                    asset,
                    amount,
                    new_reserve_balance: updated.bad_debt_reserve,
                },
            ),
        );
        Ok(updated.bad_debt_reserve)
    }

    /// Writes off a loan whose grace period is over: the reserve covers what the
    /// collateral does not. Returns what the reserve covered.
    pub fn liquidate_bad_debt(&mut self, env: &Env, admin: Address, borrower: Address) -> (result:
        Result<u64, LendingError>)
        requires
            old(self)@.well_formed(),
            env.authorized(admin),
            old(self)@.admin_entry_error(admin) is None && old(self)@.late_fee_error(borrower)
                is None && env.timestamp > old(self)@.grace_end(old(self)@.loans[borrower])
                ==> old(self)@.total_due(env.timestamp, old(self)@.loans[borrower]) <= u64::MAX,
        ensures
            ({
                let error = old(self)@.bad_debt_error(env.timestamp, admin, borrower);
                match result {
                    Err(e) => error == Some(e) && final(self)@ == old(self)@,
                    Ok(covered) => error is None && covered == old(self)@.shortfall(
                        env.timestamp,
                        old(self)@.loans[borrower],
                    ) && final(self)@ == old(self)@.written_off(env.timestamp, borrower),
                }
            }),
            final(self)@.well_formed(),
    {
        match self.check_admin_entry(env, admin) {
            Some(e) => {
                return Err(e);
            },
            None => {},
        }
        let loan = match self.open_loan(borrower) {
            Ok(loan) => loan,
            Err(e) => {
                return Err(e);
            },
        };
        match self.is_in_grace_period(env, borrower) {
            Ok(is_in_grace) => {
                if is_in_grace {
                    return Err(LendingError::InvalidAmount);
                }
            },
            Err(e) => {
                return Err(e);
            },
        }
        let outstanding_balance: u64 = match self.get_repayment_amount(env, borrower) {
            Ok(amount) => amount,
            Err(e) => {
                return Err(e);
            },
        };
        let collateral_seized: u64 = loan.collateral_amount;
        let shortfall: u64 = outstanding_balance.saturating_sub(collateral_seized);
        let pool = match self.get_pool(loan.asset) {
            Ok(pool) => pool,
            Err(e) => {
                return Err(e);
            },
        };
        if pool.bad_debt_reserve < shortfall {
            return Err(LendingError::InsufficientLiquidity);
        }
        let updated = PoolState {
            bad_debt_reserve: pool.bad_debt_reserve - shortfall,
            total_borrowed: pool.total_borrowed.saturating_sub(loan.principal),
            ..pool
        };
        proof {
            lemma_pool_update(self@, loan.asset, updated);
            lemma_primary_on_file(self@, borrower);
        }
        self.set_pool(loan.asset, updated);
        proof {
            lemma_unfiled(self@, borrower, loan.loan_id);
        }
        self.unfile_loan(borrower, loan.loan_id);
        self.late_fees_accrued.remove(loan.loan_id);
        self.publish(
            LendingEvent::BadDebtLiquidation(
                BadDebtLiquidationEvent {
                    loan_id: loan.loan_id,
                    borrower,
                    asset: loan.asset,
                    outstanding_balance,
                    collateral_seized,
                    shortfall_covered: shortfall,
                },
            ),
        );
        Ok(shortfall)
    }

    /// Accrue interest and split between depositors and protocol
    pub fn accrue_interest_with_reserve(&mut self, env: &Env, loan_id: u64) -> (result: Result<
        (),
        LendingError,
    >)
        requires
            old(self)@.well_formed(),
        ensures
            match result {
                Err(e) => old(self)@.accrue_error(loan_id) == Some(e) && final(self)@ == old(self)@,
                Ok(()) => {
                    let loan = old(self)@.loans_by_id[loan_id];
                    &&& old(self)@.accrue_error(loan_id) is None
                    &&& final(self)@ == old(self)@.with_pool(
                        loan.asset,
                        old(self)@.accrued_pool(env.timestamp, loan),
                    )
                },
            },
            final(self)@.well_formed(),
    {
        match self.require_not_entered() {
            Err(e) => {
                return Err(e);
            },
            Ok(()) => {},
        }
        let loan = match self.loans_by_id.get(loan_id) {
            Some(loan) => *loan,
            None => {
                return Err(LendingError::LoanNotFound);
            },
        };
        let total_interest: u64 = Self::interest_on(env, &loan);
        let pool = match self.get_pool(loan.asset) {
            Ok(pool) => pool,
            Err(e) => {
                return Err(e);
            },
        };
        let (depositor_interest, protocol_interest) = Self::calculate_interest_split(
            total_interest,
            pool.reserve_factor_bps,
        );
        let updated = PoolState {
            retained_yield: pool.retained_yield.saturating_add(depositor_interest),
            bad_debt_reserve: pool.bad_debt_reserve.saturating_add(protocol_interest),
            total_protocol_revenue: pool.total_protocol_revenue.saturating_add(protocol_interest),
            ..pool
        };
        proof {
            lemma_pool_update(self@, loan.asset, updated);
        }
        self.set_pool(loan.asset, updated);
        Ok(())
    }
}

/// Who can be liquidated: a borrower whose grace period is over and whose collateral is
/// worth less than one and a half times the principal, by at most the principal and at
/// most as much as the collateral pays for.
pub proof fn law_liquidations_are_admitted(
    lending: LendingView,
    now: u64,
    borrower: Address,
    amount: u64,
)
    requires
        lending.loans.contains_key(borrower) ==> lending.loans[borrower].collateral_amount * 10_000
            < lending.loans[borrower].principal * 0x1_0000_0000,
        amount < 0x8000_0000_0000_0000,
    ensures
        lending.liquidate_error(now, borrower, amount, true, true) is None <==> {
            let loan = lending.loans[borrower];
            let end = loan.due_date + lending.pools[loan.asset].grace_period_seconds;
            &&& lending.admin is Some && !lending.access.entered
            &&& lending.loans.contains_key(borrower) && lending.pools.contains_key(loan.asset)
            &&& 0 < amount <= loan.principal
            &&& end < now && end <= 0xffff_ffff_ffff_ffff
            &&& loan.collateral_amount * 10_000 < loan.principal * 15_000
            &&& (amount * 15_000) / 10_000 <= loan.collateral_amount
        },
        forall|received: bool, paid: bool|
            !received || !paid ==> #[trigger] lending.liquidate_error(
                now,
                borrower,
                amount,
                received,
                paid,
            ) is Some,
{
    let loan = lending.loans[borrower];
    assert(seizure(amount) == (amount * 15_000) / 10_000);
    if lending.loans.contains_key(borrower) && 0 < amount <= loan.principal {
        let p = loan.principal as int;
        let c = loan.collateral_amount * 10_000;
        crate::math::lemma_floor(c, p);
        let q = c / p;
        assert(q < 0x1_0000_0000) by (nonlinear_arith)
            requires
                q * p <= c,
                c < p * 0x1_0000_0000,
                p > 0,
        ;
        assert(health_factor(loan) == q);
        assert(q < 15_000 <==> c < p * 15_000) by (nonlinear_arith)
            requires
                q * p <= c < (q + 1) * p,
                p > 0,
        ;
    }
}

/// A liquidation moves exactly two amounts: what is paid, of the loan's asset, from the
/// liquidator to the contract; and one and a half times as much, of the collateral token,
/// from the contract to the liquidator.
pub proof fn law_liquidating(
    lending: LendingView,
    contract: Address,
    now: u64,
    liquidator: Address,
    borrower: Address,
    amount: u64,
)
    requires
        lending.well_formed(),
        lending.liquidate_error(now, borrower, amount, true, true) is None,
        lending.pools[lending.loans[borrower].asset].total_deposits + amount
            <= 0xffff_ffff_ffff_ffff,
        amount < 0x8000_0000_0000_0000,
    ensures
        ({
            let loan = lending.loans[borrower];
            let before = lending.pools[loan.asset];
            let seized = ((amount * 15_000) / 10_000) as u64;
            let after = lending.liquidated(contract, liquidator, borrower, amount);
            let left = after.loans[borrower];
            let pool = after.pools[loan.asset];
            &&& seizure(amount) == seized
            &&& after.calls == lending.calls.push(
                LendingCallView::Transfer {
                    token: loan.asset,
                    from: liquidator,
                    to: contract,
                    amount,
                },
            ).push(
                LendingCallView::Transfer {
                    token: loan.collateral_token,
                    from: contract,
                    to: liquidator,
                    amount: seized,
                },
            )
            &&& left.principal == loan.principal - amount
            &&& left.collateral_amount == loan.collateral_amount - seized
            &&& left == (LoanRecord {
                principal: left.principal,
                collateral_amount: left.collateral_amount,
                ..loan
            })
            &&& after.loans == lending.loans.insert(borrower, left)
            &&& after.loans_by_id == lending.loans_by_id.insert(loan.loan_id, left)
            &&& pool.total_deposits == before.total_deposits + amount
            &&& pool.total_borrowed == (if before.total_borrowed >= amount {
                before.total_borrowed - amount
            } else {
                0
            })
            &&& after.pools == lending.pools.insert(
                loan.asset,
                PoolState {
                    total_deposits: pool.total_deposits,
                    total_borrowed: pool.total_borrowed,
                    ..before
                },
            )
            &&& after.events.len() == lending.events.len() + 1
            &&& after.events.last() matches LendingEventView::Liquidation(event)
            &&& event.loan_id == loan.loan_id && event.borrower == borrower
            &&& event.liquidator == liquidator && event.asset == loan.asset
            &&& event.amount_repaid == amount && event.collateral_seized == seized
            &&& event.health_factor == health_factor(loan)
            &&& after.events.drop_last() == lending.events
            &&& after == (LendingView {
                pools: after.pools,
                loans: after.loans,
                loans_by_id: after.loans_by_id,
                calls: after.calls,
                events: after.events,
                ..lending
            })
        }),
{
    lemma_primary_on_file(lending, borrower);
}

/// Bad debt is written off by an admin, after the grace period, as far as the reserve
/// covers what the collateral does not. The loan is gone, its principal is no longer out,
/// and no tokens move.
pub proof fn law_writing_off(lending: LendingView, now: u64, admin: Address, borrower: Address)
    requires
        lending.well_formed(),
        lending.bad_debt_error(now, admin, borrower) is None,
        lending.total_due(now, lending.loans[borrower]) <= 0xffff_ffff_ffff_ffff,
    ensures
        ({
            let loan = lending.loans[borrower];
            let before = lending.pools[loan.asset];
            let due = lending.total_due(now, loan);
            let missing = if due > loan.collateral_amount {
                due - loan.collateral_amount
            } else {
                0
            };
            let after = lending.written_off(now, borrower);
            let pool = after.pools[loan.asset];
            &&& lending.access.has(admin, Role::Admin) && !lending.access.paused
                && !lending.access.entered
            &&& lending.loans.contains_key(borrower)
            &&& now > loan.due_date + before.grace_period_seconds
            &&& missing <= before.bad_debt_reserve
            &&& before.bad_debt_reserve - pool.bad_debt_reserve == missing
            &&& pool.total_borrowed == (if before.total_borrowed >= loan.principal {
                before.total_borrowed - loan.principal
            } else {
                0
            })
            &&& after.pools == lending.pools.insert(
                loan.asset,
                PoolState {
                    bad_debt_reserve: pool.bad_debt_reserve,
                    total_borrowed: pool.total_borrowed,
                    ..before
                },
            )
            &&& after.loans == lending.loans.remove(borrower)
            &&& after.loans_by_id == lending.loans_by_id.remove(loan.loan_id)
            &&& after.late_fees_accrued == lending.late_fees_accrued.remove(loan.loan_id)
            &&& after.calls == lending.calls
            &&& after.events.last() matches LendingEventView::BadDebtLiquidation(event)
            &&& event.loan_id == loan.loan_id && event.borrower == borrower && event.asset
                == loan.asset
            &&& event.outstanding_balance == due && event.collateral_seized
                == loan.collateral_amount && event.shortfall_covered == missing
            &&& after.events.drop_last() == lending.events
            &&& after.loans_of(borrower) == without(lending.loans_of(borrower), loan.loan_id)
            &&& after == (LendingView {
                pools: after.pools,
                loans: after.loans,
                loans_by_id: after.loans_by_id,
                user_loans: after.user_loans,
                late_fees_accrued: after.late_fees_accrued,
                events: after.events,
                ..lending
            })
        }),
{
}

/// The reserve is paid out by the stored admin alone, to the address that is named and as
/// far as it goes; and it is filled up by admins, from their own tokens.
pub proof fn law_reserves(
    lending: LendingView,
    contract: Address,
    admin: Address,
    asset: Address,
    to: Address,
    amount: u64,
)
    requires
        lending.pools.contains_key(asset) ==> lending.pools[asset].bad_debt_reserve + amount
            <= 0xffff_ffff_ffff_ffff,
    ensures
        lending.stored_admin_error(admin) is None <==> lending.admin == Some(admin)
            && !lending.access.entered,
        lending.reserve_payout_error(admin, asset, amount, true) is None <==> lending.admin == Some(
            admin,
        ) && !lending.access.entered && lending.pools.contains_key(asset) && amount
            <= lending.pools[asset].bad_debt_reserve,
        lending.reserve_payout_error(admin, asset, amount, true) is None ==> {
            let after = lending.reserve_paid(contract, asset, to, amount);
            &&& after.calls == lending.calls.push(
                LendingCallView::Transfer { token: asset, from: contract, to, amount },
            )
            &&& after.pools[asset].bad_debt_reserve + amount
                == lending.pools[asset].bad_debt_reserve
            &&& after == (LendingView {
                pools: lending.pools.insert(
                    asset,
                    PoolState {
                        bad_debt_reserve: after.pools[asset].bad_debt_reserve,
                        ..lending.pools[asset]
                    },
                ),
                calls: after.calls,
                ..lending
            })
        },
        lending.replenish_error(admin, asset, amount, true) is None <==> {
            &&& lending.admin is Some && !lending.access.paused && !lending.access.entered
            &&& lending.access.has(admin, Role::Admin)
            &&& amount > 0 && lending.pools.contains_key(asset)
        },
        lending.replenish_error(admin, asset, amount, true) is None ==> {
            let after = lending.replenished(contract, admin, asset, amount);
            &&& after.calls == lending.calls.push(
                LendingCallView::Transfer { token: asset, from: admin, to: contract, amount },
            )
            &&& after.pools[asset].bad_debt_reserve == lending.pools[asset].bad_debt_reserve
                + amount
            &&& after == (LendingView {
                pools: lending.pools.insert(
                    asset,
                    PoolState {
                        bad_debt_reserve: after.pools[asset].bad_debt_reserve,
                        ..lending.pools[asset]
                    },
                ),
                calls: after.calls,
                events: after.events,
                ..lending
            })
            &&& after.events.last() == LendingEventView::BadDebtReserveReplenished(
                BadDebtReserveReplenishedEvent {
                    asset,
                    amount,
                    new_reserve_balance: after.pools[asset].bad_debt_reserve,
                },
            )
        },
        lending.reserve_payout_error(admin, asset, amount, false) is Some,
        lending.replenish_error(admin, asset, amount, false) is Some,
{
}

/// Interest that is booked is divided in full: the reserve factor's share goes to the
/// reserve and counts as revenue, all the rest is for the depositors.
pub proof fn law_booked_interest(lending: LendingView, now: u64, loan: LoanRecord)
    requires
        lending.pools[loan.asset].reserve_factor_bps <= 10_000,
        ({
            let pool = lending.pools[loan.asset];
            let earned = outstanding(now, loan) - loan.principal;
            &&& pool.retained_yield + earned <= 0xffff_ffff_ffff_ffff
            &&& pool.bad_debt_reserve + earned <= 0xffff_ffff_ffff_ffff
            &&& pool.total_protocol_revenue + earned <= 0xffff_ffff_ffff_ffff
        }),
    ensures
        ({
            let before = lending.pools[loan.asset];
            let earned = outstanding(now, loan) - loan.principal;
            let kept = bps_share(earned as u64, before.reserve_factor_bps);
            let after = lending.accrued_pool(now, loan);
            &&& after.bad_debt_reserve - before.bad_debt_reserve == kept
            &&& after.total_protocol_revenue - before.total_protocol_revenue == kept
            &&& after.retained_yield - before.retained_yield == earned - kept
            &&& after == (PoolState {
                bad_debt_reserve: after.bad_debt_reserve,
                total_protocol_revenue: after.total_protocol_revenue,
                retained_yield: after.retained_yield,
                ..before
            })
        }),
{
    crate::math::lemma_share_bounded(
        loan_interest(now, loan),
        lending.pools[loan.asset].reserve_factor_bps,
    );
}

/// A loan is liquidated below a collateral of 150%, and the liquidator gets 150% of the
/// debt that is paid.
pub proof fn law_limits()
    ensures
        LIQUIDATION_THRESHOLD_BPS == 15_000,
        LIQUIDATION_PAYOUT_BPS == 15_000,
{
}

/// Why a liquidation is refused: every reason that is given holds.
pub proof fn law_reason_liquidate(
    lending: LendingView,
    now: u64,
    borrower: Address,
    amount: u64,
    payment_received: bool,
    collateral_paid: bool,
)
    ensures
        ({
            let loan = lending.loans[borrower];
            match lending.liquidate_error(
                now,
                borrower,
                amount,
                payment_received,
                collateral_paid,
            ) {
                None => true,
                Some(LendingError::NoOpenLoan) => !lending.loans.contains_key(borrower),
                Some(LendingError::InvalidAmount) => (amount == 0 || amount > loan.principal) || now
                    <= lending.grace_end(loan) || health_factor(loan) >= LIQUIDATION_THRESHOLD_BPS
                    || seizure(amount) > loan.collateral_amount || lending.grace_error(loan)
                    == Some(LendingError::InvalidAmount),
                Some(LendingError::TransferFailed) => !payment_received || !collateral_paid,
                Some(error) => lending.unpaused_entry_error() == Some(error)
                    || lending.grace_error(loan) == Some(error),
            }
        }),
{
}

/// Why a call that is open to the stored admin alone is refused: every reason that is
/// given holds.
pub proof fn law_reason_stored_admin(lending: LendingView, caller: Address)
    ensures
        match lending.stored_admin_error(caller) {
            None => true,
            Some(LendingError::ReentrantCall) => lending.access.entered,
            Some(LendingError::Unauthorized) => lending.admin != Some(caller),
            Some(_) => false,
        },
{
}

/// Why an admin call on a contract that must not be paused is refused: every reason
/// that is given holds.
pub proof fn law_reason_admin_entry(lending: LendingView, admin: Address)
    ensures
        match lending.admin_entry_error(admin) {
            None => true,
            Some(LendingError::ContractPaused) => lending.access.paused,
            Some(LendingError::NotInitialized) => lending.admin is None,
            Some(error) => lending.admin_error(admin) == Some(error),
        },
{
}

/// Why a write-off is refused: every reason that is given holds.
pub proof fn law_reason_bad_debt(lending: LendingView, now: u64, admin: Address, borrower: Address)
    ensures
        ({
            let loan = lending.loans[borrower];
            match lending.bad_debt_error(now, admin, borrower) {
                None => true,
                Some(LendingError::InvalidAmount) => now <= lending.grace_end(loan)
                    || lending.late_fee_error(borrower) == Some(LendingError::InvalidAmount),
                Some(LendingError::InsufficientLiquidity) => lending.shortfall(now, loan)
                    > lending.pools[loan.asset].bad_debt_reserve,
                Some(error) => lending.admin_entry_error(admin) == Some(error)
                    || lending.late_fee_error(borrower) == Some(error),
            }
        }),
{
}

/// Why taking from the reserve is refused: every reason that is given holds.
pub proof fn law_reason_reserve_payout(
    lending: LendingView,
    admin: Address,
    asset: Address,
    amount: u64,
    transferred: bool,
)
    ensures
        match lending.reserve_payout_error(admin, asset, amount, transferred) {
            None => true,
            Some(LendingError::AssetNotSupported) => !lending.pools.contains_key(asset),
            Some(LendingError::InsufficientLiquidity) => lending.pools[asset].bad_debt_reserve
                < amount,
            Some(LendingError::TransferFailed) => !transferred,
            Some(error) => lending.stored_admin_error(admin) == Some(error),
        },
{
}

/// Why adding to the reserve is refused: every reason that is given holds.
pub proof fn law_reason_replenish(
    lending: LendingView,
    admin: Address,
    asset: Address,
    amount: u64,
    transferred: bool,
)
    ensures
        match lending.replenish_error(admin, asset, amount, transferred) {
            None => true,
            Some(LendingError::InvalidAmount) => amount == 0,
            Some(LendingError::AssetNotSupported) => !lending.pools.contains_key(asset),
            Some(LendingError::TransferFailed) => !transferred,
            Some(error) => lending.admin_entry_error(admin) == Some(error),
        },
{
}

/// Why booking the interest of a loan is refused: every reason that is given holds.
pub proof fn law_reason_accrue(lending: LendingView, loan_id: u64)
    ensures
        match lending.accrue_error(loan_id) {
            None => true,
            Some(LendingError::ReentrantCall) => lending.access.entered,
            Some(LendingError::LoanNotFound) => !lending.loans_by_id.contains_key(loan_id),
            Some(error) => lending.pool_error(lending.loans_by_id[loan_id].asset) == Some(error),
        },
{
}

/// A loan is written off exactly by an admin, once its grace period is over and the
/// reserve covers what its collateral does not. The health of a loan is its collateral
/// over its principal in basis points, rounded down.
pub proof fn law_write_offs_are_admitted(
    lending: LendingView,
    now: u64,
    admin: Address,
    borrower: Address,
)
    requires
        lending.total_due(now, lending.loans[borrower]) <= 0xffff_ffff_ffff_ffff,
    ensures
        lending.bad_debt_error(now, admin, borrower) is None <==> {
            let loan = lending.loans[borrower];
            let pool = lending.pools[loan.asset];
            let end = loan.due_date + pool.grace_period_seconds;
            &&& lending.admin is Some && !lending.access.paused && !lending.access.entered
            &&& lending.access.has(admin, Role::Admin)
            &&& lending.loans.contains_key(borrower) && lending.pools.contains_key(loan.asset)
            &&& end < now && end <= 0xffff_ffff_ffff_ffff
            &&& lending.total_due(now, loan) <= loan.collateral_amount + pool.bad_debt_reserve
        },
        ({
            let loan = lending.loans[borrower];
            let health = health_factor(loan);
            0 < loan.principal && loan.collateral_amount * 10_000 < loan.principal * 0x1_0000_0000
                ==> health * loan.principal <= loan.collateral_amount * 10_000 < (health + 1)
                * loan.principal
        }),
{
    let loan = lending.loans[borrower];
    if 0 < loan.principal && loan.collateral_amount * 10_000 < loan.principal * 0x1_0000_0000 {
        let exact = loan.collateral_amount * 10_000;
        let principal = loan.principal as int;
        lemma_floor(exact, principal);
        assert(exact / principal < 0x1_0000_0000) by (nonlinear_arith)
            requires
                0 < principal,
                exact < principal * 0x1_0000_0000,
        ;
    }
}

} // verus!
