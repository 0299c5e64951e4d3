//! Insurance of loans.
use vstd::prelude::*;

use crate::access::Role;
use crate::host::{Address, Env};
use crate::lending::pools::{empty_fund, DEFAULT_INSURANCE_PREMIUM_RATE_BPS};
use crate::lending::state::{LendingContract, LendingView};
use crate::lending::types::{
    InsuranceCancelledEvent, InsuranceClaimedEvent, InsuranceFund, InsurancePurchasedEvent,
    LendingCall, LendingCallView, LendingError, LendingEvent, LendingEventView, LoanInsurance,
};
use crate::math::{
    bps_share, low64, mul_div, saturating_difference, saturating_sum, share_bps, take_low64,
};

verus! {

/// Refund for insurance that is cancelled: the premium in proportion to the
/// time left; nothing once the insurance has expired.
pub open spec fn refund(insurance: LoanInsurance, now: u64) -> u64 {
    let duration = saturating_difference(insurance.expires_at, insurance.purchase_time);
    let remaining = saturating_difference(
        duration,
        saturating_difference(now, insurance.purchase_time),
    );
    if now < insurance.expires_at && duration > 0 {
        low64((insurance.premium_paid * remaining) / (duration as int))
    } else {
        0
    }
}

/// Whether insurance covers its loan now.
pub open spec fn in_force(insurance: LoanInsurance, now: u64) -> bool {
    !insurance.claimed && now < insurance.expires_at
}

impl LendingView {
    /// The contract with a fund and a premium rate, the defaults where it had none.
    pub open spec fn insurance_ready(self) -> LendingView {
        LendingView {
            insurance_fund: Some(self.fund()),
            insurance_premium_rate_bps: Some(self.premium_rate()),
            ..self
        }
    }

    /// The insurance fund.
    pub open spec fn fund(self) -> InsuranceFund {
        match self.insurance_fund {
            Some(fund) => fund,
            None => empty_fund(),
        }
    }

    /// The premium in basis points of the principal.
    pub open spec fn premium_rate(self) -> u32 {
        match self.insurance_premium_rate_bps {
            Some(rate) => rate,
            None => DEFAULT_INSURANCE_PREMIUM_RATE_BPS,
        }
    }

    /// Why a purchase is refused. `transferred` is whether the premium arrived.
    pub open spec fn purchase_error(self, borrower: Address, loan_id: u64, transferred: bool)
        -> Option<LendingError> {
        let loan = self.loans_by_id[loan_id];
        if self.access.entered {
            Some(LendingError::ReentrantCall)
        } else if !self.loans_by_id.contains_key(loan_id) {
            Some(LendingError::LoanNotFound)
        } else if loan.borrower != borrower {
            Some(LendingError::Unauthorized)
        } else if self.insurance.contains_key(loan_id) {
            Some(LendingError::InsuranceAlreadyPurchased)
        } else if bps_share(loan.principal, self.premium_rate()) == 0 {
            Some(LendingError::InvalidInsuranceAmount)
        } else if !transferred {
            Some(LendingError::TransferFailed)
        } else {
            self.grace_error(loan)
        }
    }

    /// The insurance of a loan that is bought now: it covers the principal until
    /// the grace period ends.
    pub open spec fn new_insurance(self, now: u64, loan_id: u64) -> LoanInsurance {
        let loan = self.loans_by_id[loan_id];
        LoanInsurance {
            loan_id,
            borrower: loan.borrower,
            coverage_amount: loan.principal,
            premium_paid: bps_share(loan.principal, self.premium_rate()),
            premium_rate_bps: self.premium_rate(),
            purchase_time: now,
            expires_at: self.grace_end(loan) as u64,
            claimed: false,
        }
    }

    /// The contract after insurance was bought.
    pub open spec fn insured(self, contract: Address, now: u64, loan_id: u64) -> LendingView {
        let insurance = self.new_insurance(now, loan_id);
        let paid = self.insurance_ready().with_transfer(
            self.token->0,
            insurance.borrower,
            contract,
            insurance.premium_paid,
        );
        (LendingView {
            insurance: paid.insurance.insert(loan_id, insurance),
            insurance_fund: Some(
                InsuranceFund {
                    total_premiums_collected: saturating_sum(
                        self.fund().total_premiums_collected,
                        insurance.premium_paid,
                    ),
                    available_balance: saturating_sum(
                        self.fund().available_balance,
                        insurance.premium_paid,
                    ),
                    ..self.fund()
                },
            ),
            ..paid
        }).with_event(
            LendingEventView::InsurancePurchased(
                InsurancePurchasedEvent {
                    loan_id,
                    borrower: insurance.borrower,
                    coverage_amount: insurance.coverage_amount,
                    premium_paid: insurance.premium_paid,
                    premium_rate_bps: insurance.premium_rate_bps,
                    expires_at: insurance.expires_at,
                    timestamp: now,
                },
            ),
        )
    }

    /// Why a claim is refused.
    pub open spec fn claim_insurance_error(self, now: u64, loan_id: u64) -> Option<LendingError> {
        let insurance = self.insurance[loan_id];
        let loan = self.loans_by_id[loan_id];
        if self.access.entered {
            Some(LendingError::ReentrantCall)
        } else if !self.insurance.contains_key(loan_id) {
            Some(LendingError::InsuranceNotFound)
        } else if insurance.claimed {
            Some(LendingError::InsuranceAlreadyClaimed)
        } else if !self.loans_by_id.contains_key(loan_id) {
            Some(LendingError::LoanNotFound)
        } else if self.grace_error(loan) is Some {
            self.grace_error(loan)
        } else if now <= self.grace_end(loan) {
            Some(LendingError::InvalidAmount)
        } else if self.insurance_fund is None {
            Some(LendingError::InsuranceNotFound)
        } else if self.fund().available_balance < insurance.coverage_amount {
            Some(LendingError::InsufficientInsuranceFund)
        } else {
            None
        }
    }

    /// The contract after insurance was claimed.
    pub open spec fn insurance_claimed(self, now: u64, loan_id: u64) -> LendingView {
        let insurance = self.insurance[loan_id];
        let amount = insurance.coverage_amount;
        (LendingView {
            insurance: self.insurance.insert(loan_id, LoanInsurance { claimed: true, ..insurance }),
            insurance_fund: Some(
                InsuranceFund {
                    total_claims_paid: saturating_sum(self.fund().total_claims_paid, amount),
                    available_balance: (self.fund().available_balance - amount) as u64,
                    ..self.fund()
                },
            ),
            ..self
        }).with_event(
            LendingEventView::InsuranceClaimed(
                InsuranceClaimedEvent {
                    loan_id,
                    borrower: insurance.borrower,
                    claim_amount: amount,
                    coverage_amount: amount,
                    timestamp: now,
                },
            ),
        )
    }

    /// Why a cancellation is refused.
    pub open spec fn cancel_insurance_error(self, borrower: Address, loan_id: u64) -> Option<
        LendingError,
    > {
        if self.access.entered {
            Some(LendingError::ReentrantCall)
        } else if !self.insurance.contains_key(loan_id) {
            Some(LendingError::InsuranceNotFound)
        } else if self.insurance[loan_id].borrower != borrower {
            Some(LendingError::Unauthorized)
        } else if self.insurance[loan_id].claimed {
            Some(LendingError::InsuranceAlreadyClaimed)
        } else {
            None
        }
    }

    /// The contract after insurance was cancelled.
    pub open spec fn insurance_cancelled(
        self,
        contract: Address,
        now: u64,
        borrower: Address,
        loan_id: u64,
    ) -> LendingView {
        let amount = refund(self.insurance[loan_id], now);
        let removed = LendingView { insurance: self.insurance.remove(loan_id), ..self };
        let refunded = if amount > 0 {
            (LendingView {
                insurance_fund: Some(
                    InsuranceFund {
                        available_balance: saturating_difference(
                            self.fund().available_balance,
                            amount,
                        ),
                        ..self.fund()
                    },
                ),
                ..removed
            }).with_transfer(self.token->0, contract, borrower, amount)
        } else {
            removed
        };
        refunded.with_event(
            LendingEventView::InsuranceCancelled(
                InsuranceCancelledEvent {
                    loan_id,
                    borrower,
                    refund_amount: amount,
                    timestamp: now,
                },
            ),
        )
    }

    /// Why a deposit into the fund is refused.
    pub open spec fn fund_deposit_error(self, admin: Address, amount: u64, transferred: bool)
        -> Option<LendingError> {
        if self.admin_error(admin) is Some {
            self.admin_error(admin)
        } else if amount == 0 {
            Some(LendingError::InvalidAmount)
        } else if !transferred {
            Some(LendingError::TransferFailed)
        } else {
            None
        }
    }

    /// Why a withdrawal from the fund is refused.
    pub open spec fn fund_withdraw_error(self, admin: Address, amount: u64) -> Option<
        LendingError,
    > {
        if self.admin_error(admin) is Some {
            self.admin_error(admin)
        } else if amount == 0 {
            Some(LendingError::InvalidAmount)
        } else if self.fund().available_balance < amount {
            Some(LendingError::InsufficientLiquidity)
        } else {
            None
        }
    }
}

/// A refund is never larger than the premium that was paid.
pub proof fn law_refund_is_bounded(insurance: LoanInsurance, now: u64)
    ensures
        refund(insurance, now) <= insurance.premium_paid,
{
    let d = saturating_difference(insurance.expires_at, insurance.purchase_time) as int;
    let r = saturating_difference(
        d as u64,
        saturating_difference(now, insurance.purchase_time),
    ) as int;
    let p = insurance.premium_paid as int;
    if now < insurance.expires_at && d > 0 {
        assert(0 <= p * r <= p * d) by (nonlinear_arith)
            requires
                0 <= r <= d,
                0 <= p,
        ;
        let q = (p * r) / d;
        assert(0 <= q <= p) by (nonlinear_arith)
            requires
                q == (p * r) / d,
                0 <= p * r <= p * d,
                d > 0,
        ;
    }
}

/// Insurance pays once: after a claim, every later claim and cancellation of
/// the same insurance is refused.
pub proof fn law_insurance_pays_once(
    lending: LendingView,
    now: u64,
    later: u64,
    loan_id: u64,
    borrower: Address,
)
    requires
        lending.claim_insurance_error(now, loan_id) is None,
    ensures
        ({
            let after = lending.insurance_claimed(now, loan_id);
            &&& after.claim_insurance_error(later, loan_id) == Some(
                LendingError::InsuranceAlreadyClaimed,
            )
            &&& after.cancel_insurance_error(borrower, loan_id) is Some
        }),
{
}

impl LendingContract {
    /// Initialize insurance fund (called during contract initialization or by admin)
    pub fn init_insurance_fund_if_needed(&mut self)
        ensures
            final(self)@ == old(self)@.insurance_ready(),
    {
        if self.insurance_fund.is_none() {
            self.insurance_fund = Some(InsuranceFund::empty());
        }
        if self.insurance_premium_rate_bps.is_none() {
            self.insurance_premium_rate_bps = Some(DEFAULT_INSURANCE_PREMIUM_RATE_BPS);
        }
    }

    /// The insurance fund.
    fn fund(&self) -> (fund: InsuranceFund)
        ensures
            fund == self@.fund(),
    {
        match self.insurance_fund {
            Some(fund) => fund,
            None => InsuranceFund::empty(),
        }
    }

    /// The premium in basis points of the principal.
    fn premium_rate(&self) -> (rate: u32)
        ensures
            rate == self@.premium_rate(),
    {
        match self.insurance_premium_rate_bps {
            Some(rate) => rate,
            None => DEFAULT_INSURANCE_PREMIUM_RATE_BPS,
        }
    }

    /// Get insurance premium for a given loan amount
    pub fn get_insurance_premium(&mut self, loan_amount: u64) -> (result: Result<u64, LendingError>)
        requires
            old(self)@.well_formed(),
        ensures
            match result {
                Err(e) => old(self)@.access.entered && e == LendingError::ReentrantCall
                    && final(self)@ == old(self)@,
                Ok(premium) => !old(self)@.access.entered && premium == bps_share(
                    loan_amount,
                    old(self)@.premium_rate(),
                ) && final(self)@ == old(self)@.insurance_ready(),
            },
            final(self)@.well_formed(),
    {
        match self.require_not_entered() {
            Err(e) => {
                return Err(e);
            },
            Ok(()) => {},
        }
        self.init_insurance_fund_if_needed();
        Ok(share_bps(loan_amount, self.premium_rate()))
    }

    /// Set insurance premium rate (admin only)
    pub fn set_insurance_premium_rate(
        &mut self,
        env: &Env,
        admin: Address,
        premium_rate_bps: u32,
    ) -> (result: Result<(), LendingError>)
        requires
            old(self)@.well_formed(),
            env.authorized(admin),
        ensures
            match result {
                Err(e) => final(self)@ == old(self)@ && if old(self)@.admin_error(admin) is Some {
                    old(self)@.admin_error(admin) == Some(e)
                } else {
                    premium_rate_bps > 10_000 && e == LendingError::InvalidAmount
                },
                Ok(()) => old(self)@.admin_error(admin) is None && premium_rate_bps <= 10_000
                    && final(self)@ == (LendingView {
                    insurance_premium_rate_bps: Some(premium_rate_bps),
                    ..old(self)@.insurance_ready()
                }),
            },
            final(self)@.well_formed(),
    {
        match self.require_admin(env, admin) {
            Err(e) => {
                return Err(e);
            },
            Ok(()) => {},
        }
        if premium_rate_bps > 10_000 {
            return Err(LendingError::InvalidAmount);
        }
        self.init_insurance_fund_if_needed();
        self.insurance_premium_rate_bps = Some(premium_rate_bps);
        Ok(())
    }

    /// Purchase insurance for a loan
    pub fn purchase_loan_insurance(
        &mut self,
        env: &Env,
        borrower: Address,
        loan_id: u64,
        transferred: bool,
    ) -> (result: Result<u64, LendingError>)
        requires
            old(self)@.well_formed(),
            env.authorized(borrower),
        ensures
            match result {
                Err(e) => old(self)@.purchase_error(borrower, loan_id, transferred) == Some(e)
                    && final(self)@ == old(self)@,
                Ok(premium) => old(self)@.purchase_error(borrower, loan_id, transferred) is None
                    && premium == bps_share(
                    old(self)@.loans_by_id[loan_id].principal,
                    old(self)@.premium_rate(),
                ) && final(self)@ == old(self)@.insured(env.contract, env.timestamp, loan_id),
            },
            final(self)@.well_formed(),
    {
        match self.require_not_entered() {
            Err(e) => {
                return Err(e);
            },
            Ok(()) => {},
        }
        let loan = match self.loans_by_id.get(loan_id) {
            Some(loan) => *loan,
            None => {
                return Err(LendingError::LoanNotFound);
            },
        };
        if loan.borrower != borrower {
            return Err(LendingError::Unauthorized);
        }
        if self.insurance.contains(loan_id) {
            return Err(LendingError::InsuranceAlreadyPurchased);
        }
        let premium_rate_bps: u32 = self.premium_rate();
        let premium: u64 = share_bps(loan.principal, premium_rate_bps);
        if premium == 0 {
            return Err(LendingError::InvalidInsuranceAmount);
        }
        if !transferred {
            return Err(LendingError::TransferFailed);
        }
        let expires_at: u64 = match self.grace_period_end(&loan) {
            Ok(end) => end,
            Err(e) => {
                return Err(e);
            },
        };
        proof {
            assert(self@.admin is Some);
        }
        let token = match self.token {
            Some(token) => token,
            None => {
                return Err(LendingError::NotInitialized);
            },
        };
        self.init_insurance_fund_if_needed();
        let _ = self.transfer(token, borrower, env.contract, premium, transferred);
        let insurance = LoanInsurance {
            loan_id,
            borrower,
            coverage_amount: loan.principal,
            premium_paid: premium,
            premium_rate_bps,
            purchase_time: env.timestamp,
            expires_at,
            claimed: false,
        };
        self.insurance.set(loan_id, insurance);
        let mut fund = self.fund();
        fund.total_premiums_collected = fund.total_premiums_collected.saturating_add(premium);
        fund.available_balance = fund.available_balance.saturating_add(premium);
        self.insurance_fund = Some(fund);
        self.publish(
            LendingEvent::InsurancePurchased(
                InsurancePurchasedEvent {
                    loan_id,
                    borrower,
                    coverage_amount: loan.principal,
                    premium_paid: premium,
                    premium_rate_bps,
                    expires_at,
                    timestamp: env.timestamp,
                },
            ),
        );
        Ok(premium)
    }

    /// Check if a loan has active insurance
    pub fn is_loan_insured(&self, env: &Env, loan_id: u64) -> (result: Result<bool, LendingError>)
        ensures
            result == Ok::<bool, LendingError>(
                self@.insurance.contains_key(loan_id) && in_force(
                    self@.insurance[loan_id],
                    env.timestamp,
                ),
            ),
    {
        match self.insurance.get(loan_id) {
            Some(insurance) => Ok(!insurance.claimed && env.timestamp < insurance.expires_at),
            None => Ok(false),
        }
    }

    /// Get insurance coverage amount for a loan
    pub fn get_insurance_coverage(&self, env: &Env, loan_id: u64) -> (result: Result<
        u64,
        LendingError,
    >)
        ensures
            result == Ok::<u64, LendingError>(
                if self@.insurance.contains_key(loan_id) && in_force(
                    self@.insurance[loan_id],
                    env.timestamp,
                ) {
                    self@.insurance[loan_id].coverage_amount
                } else {
                    0
                },
            ),
    {
        match self.insurance.get(loan_id) {
            Some(insurance) => if !insurance.claimed && env.timestamp < insurance.expires_at {
                Ok(insurance.coverage_amount)
            } else {
                Ok(0)
            },
            None => Ok(0),
        }
    }

    /// Get insurance details for a loan
    pub fn get_insurance_details(&self, loan_id: u64) -> (result: Result<
        Option<LoanInsurance>,
        LendingError,
    >)
        ensures
            result == Ok::<Option<LoanInsurance>, LendingError>(
                if self@.insurance.contains_key(loan_id) {
                    Some(self@.insurance[loan_id])
                } else {
                    None
                },
            ),
    {
        match self.insurance.get(loan_id) {
            Some(insurance) => Ok(Some(*insurance)),
            None => Ok(None),
        }
    }

    /// Claim insurance when loan defaults
    pub fn claim_insurance(&mut self, env: &Env, loan_id: u64) -> (result: Result<
        u64,
        LendingError,
    >)
        requires
            old(self)@.well_formed(),
        ensures
            ({
                let error = old(self)@.claim_insurance_error(env.timestamp, loan_id);
                match result {
                    Err(e) => error == Some(e) && final(self)@ == old(self)@,
                    Ok(amount) => error is None && amount
                        == old(self)@.insurance[loan_id].coverage_amount && final(self)@
                        == old(self)@.insurance_claimed(env.timestamp, loan_id),
                }
            }),
            final(self)@.well_formed(),
    {
        match self.require_not_entered() {
            Err(e) => {
                return Err(e);
            },
            Ok(()) => {},
        }
        let mut insurance = match self.insurance.get(loan_id) {
            Some(insurance) => *insurance,
            None => {
                return Err(LendingError::InsuranceNotFound);
            },
        };
        if insurance.claimed {
            return Err(LendingError::InsuranceAlreadyClaimed);
        }
        let loan = match self.loans_by_id.get(loan_id) {
            Some(loan) => *loan,
            None => {
                return Err(LendingError::LoanNotFound);
            },
        };
        match self.grace_period_end(&loan) {
            Ok(end) => {
                if env.timestamp <= end {
                    return Err(LendingError::InvalidAmount);
                }
            },
            Err(e) => {
                return Err(e);
            },
        }
        let mut fund = match self.insurance_fund {
            Some(fund) => fund,
            None => {
                return Err(LendingError::InsuranceNotFound);
            },
        };
        let claim_amount: u64 = insurance.coverage_amount;
        if fund.available_balance < claim_amount {
            return Err(LendingError::InsufficientInsuranceFund);
        }
        insurance.claimed = true;
        self.insurance.set(loan_id, insurance);
        fund.total_claims_paid = fund.total_claims_paid.saturating_add(claim_amount);
        fund.available_balance = fund.available_balance - claim_amount;
        self.insurance_fund = Some(fund);
        self.publish(
            LendingEvent::InsuranceClaimed(
                InsuranceClaimedEvent {
                    loan_id,
                    borrower: insurance.borrower,
                    claim_amount,
                    coverage_amount: insurance.coverage_amount,
                    timestamp: env.timestamp,
                },
            ),
        );
        Ok(claim_amount)
    }

    /// The refund for insurance that is cancelled now.
    pub fn refund_for(insurance: &LoanInsurance, now: u64) -> (amount: u64)
        ensures
            amount == refund(*insurance, now),
    {
        if now >= insurance.expires_at {
            return 0;
        }
        let total_duration: u64 = insurance.expires_at.saturating_sub(insurance.purchase_time);
        let elapsed: u64 = now.saturating_sub(insurance.purchase_time);
        let remaining: u64 = total_duration.saturating_sub(elapsed);
        if total_duration > 0 {
            take_low64(mul_div(insurance.premium_paid, remaining, total_duration))
        } else {
            0
        }
    }

    /// Cancel insurance and get partial refund (pro-rata based on time remaining)
    pub fn cancel_insurance(&mut self, env: &Env, borrower: Address, loan_id: u64) -> (result:
        Result<u64, LendingError>)
        requires
            old(self)@.well_formed(),
            env.authorized(borrower),
        ensures
            ({
                let error = old(self)@.cancel_insurance_error(borrower, loan_id);
                match result {
                    Err(e) => error == Some(e) && final(self)@ == old(self)@,
                    Ok(amount) => error is None && amount == refund(
                        old(self)@.insurance[loan_id],
                        env.timestamp,
                    ) && final(self)@ == old(self)@.insurance_cancelled(
                        env.contract,
                        env.timestamp,
                        borrower,
                        loan_id,
                    ),
                }
            }),
            final(self)@.well_formed(),
    {
        match self.require_not_entered() {
            Err(e) => {
                return Err(e);
            },
            Ok(()) => {},
        }
        let insurance = match self.insurance.get(loan_id) {
            Some(insurance) => *insurance,
            None => {
                return Err(LendingError::InsuranceNotFound);
            },
        };
        if insurance.borrower != borrower {
            return Err(LendingError::Unauthorized);
        }
        if insurance.claimed {
            return Err(LendingError::InsuranceAlreadyClaimed);
        }
        let refund_amount: u64 = Self::refund_for(&insurance, env.timestamp);
        proof {
            assert(self@.admin is Some);
        }
        self.insurance.remove(loan_id);
        if refund_amount > 0 {
            let mut fund = self.fund();
            fund.available_balance = fund.available_balance.saturating_sub(refund_amount);
            self.insurance_fund = Some(fund);
            if let Some(token) = self.token {
                self.call(
                    LendingCall::Transfer {
                        token,
                        from: env.contract,
                        to: borrower,
                        amount: refund_amount,
                    },
                );
            }
        }
        self.publish(
            LendingEvent::InsuranceCancelled(
                InsuranceCancelledEvent {
                    loan_id,
                    borrower,
                    refund_amount,
                    timestamp: env.timestamp,
                },
            ),
        );
        Ok(refund_amount)
    }

    /// Get insurance fund state
    pub fn get_insurance_fund_state(&mut self) -> (result: Result<InsuranceFund, LendingError>)
        requires
            old(self)@.well_formed(),
        ensures
            match result {
                Err(e) => old(self)@.access.entered && e == LendingError::ReentrantCall
                    && final(self)@ == old(self)@,
                Ok(fund) => !old(self)@.access.entered && fund == old(self)@.fund() && final(self)@
                    == old(self)@.insurance_ready(),
            },
            final(self)@.well_formed(),
    {
        match self.require_not_entered() {
            Err(e) => {
                return Err(e);
            },
            Ok(()) => {},
        }
        self.init_insurance_fund_if_needed();
        Ok(self.fund())
    }

    /// Deposit funds to insurance fund (admin function for funding)
    pub fn deposit_to_insurance_fund(
        &mut self,
        env: &Env,
        admin: Address,
        amount: u64,
        transferred: bool,
    ) -> (result: Result<(), LendingError>)
        requires
            old(self)@.well_formed(),
            env.authorized(admin),
        ensures
            ({
                let error = old(self)@.fund_deposit_error(admin, amount, transferred);
                let fund = old(self)@.fund();
                match result {
                    Err(e) => error == Some(e) && final(self)@ == old(self)@,
                    Ok(()) => error is None && final(self)@ == (LendingView {
                        insurance_fund: Some(
                            InsuranceFund {
                                available_balance: saturating_sum(fund.available_balance, amount),
                                ..fund
                            },
                        ),
                        ..old(self)@.insurance_ready().with_transfer(
                            old(self)@.token->0,
                            admin,
                            env.contract,
                            amount,
                        )
                    }),
                }
            }),
            final(self)@.well_formed(),
    {
        match self.require_admin(env, admin) {
            Err(e) => {
                return Err(e);
            },
            Ok(()) => {},
        }
        if amount == 0 {
            return Err(LendingError::InvalidAmount);
        }
        if !transferred {
            return Err(LendingError::TransferFailed);
        }
        proof {
            assert(self@.admin is Some) by {
                assert(!Seq::<Role>::empty().contains(Role::Admin));
            }
        }
        self.init_insurance_fund_if_needed();
        if let Some(token) = self.token {
            let _ = self.transfer(token, admin, env.contract, amount, transferred);
        }
        let mut fund = self.fund();
        fund.available_balance = fund.available_balance.saturating_add(amount);
        self.insurance_fund = Some(fund);
        Ok(())
    }

    /// Withdraw from insurance fund (admin function)
    pub fn withdraw_from_insurance_fund(&mut self, env: &Env, admin: Address, amount: u64) -> (
    result: Result<(), LendingError>)
        requires
            old(self)@.well_formed(),
            env.authorized(admin),
        ensures
            ({
                let error = old(self)@.fund_withdraw_error(admin, amount);
                let fund = old(self)@.fund();
                match result {
                    Err(e) => error == Some(e) && final(self)@ == old(self)@,
                    Ok(()) => error is None && final(self)@ == (LendingView {
                        insurance_fund: Some(
                            InsuranceFund {
                                available_balance: (fund.available_balance - amount) as u64,
                                ..fund
                            },
                        ),
                        ..old(self)@.insurance_ready()
                    }).with_transfer(old(self)@.token->0, env.contract, admin, amount),
                }
            }),
            final(self)@.well_formed(),
    {
        match self.require_admin(env, admin) {
            Err(e) => {
                return Err(e);
            },
            Ok(()) => {},
        }
        if amount == 0 {
            return Err(LendingError::InvalidAmount);
        }
        let mut fund = self.fund();
        if fund.available_balance < amount {
            return Err(LendingError::InsufficientLiquidity);
        }
        proof {
            assert(self@.admin is Some) by {
                assert(!Seq::<Role>::empty().contains(Role::Admin));
            }
        }
        self.init_insurance_fund_if_needed();
        fund.available_balance = fund.available_balance - amount;
        self.insurance_fund = Some(fund);
        if let Some(token) = self.token {
            self.call(
                LendingCall::Transfer { token, from: env.contract, to: admin, amount },
            );
        }
        Ok(())
    }
}

/// Who can insure: the borrower of a loan on file that is not insured yet.
pub proof fn law_insurance_is_admitted(
    lending: LendingView,
    now: u64,
    borrower: Address,
    loan_id: u64,
)
    ensures
        lending.purchase_error(borrower, loan_id, true) is None <==> {
            let loan = lending.loans_by_id[loan_id];
            let end = loan.due_date + lending.pools[loan.asset].grace_period_seconds;
            &&& !lending.access.entered
            &&& lending.loans_by_id.contains_key(loan_id) && loan.borrower == borrower
            &&& !lending.insurance.contains_key(loan_id)
            &&& bps_share(loan.principal, lending.premium_rate()) > 0
            &&& lending.pools.contains_key(loan.asset) && end <= 0xffff_ffff_ffff_ffff
        },
        lending.purchase_error(borrower, loan_id, false) is Some,
        lending.claim_insurance_error(now, loan_id) is None <==> {
            let loan = lending.loans_by_id[loan_id];
            let end = loan.due_date + lending.pools[loan.asset].grace_period_seconds;
            &&& !lending.access.entered
            &&& lending.insurance.contains_key(loan_id) && !lending.insurance[loan_id].claimed
            &&& lending.loans_by_id.contains_key(loan_id) && lending.pools.contains_key(loan.asset)
            &&& end < now && end <= 0xffff_ffff_ffff_ffff
            &&& lending.insurance_fund matches Some(fund)
            &&& lending.insurance[loan_id].coverage_amount <= fund.available_balance
        },
        lending.cancel_insurance_error(borrower, loan_id) is None <==> {
            &&& !lending.access.entered
            &&& lending.insurance.contains_key(loan_id)
            &&& lending.insurance[loan_id].borrower == borrower
            &&& !lending.insurance[loan_id].claimed
        },
        lending.insurance_premium_rate_bps is None ==> lending.premium_rate() == 200,
        lending.insurance_premium_rate_bps matches Some(rate) ==> lending.premium_rate() == rate,
{
}

/// Insurance costs the premium rate of the principal, which goes from the borrower to the
/// contract and into the fund, and covers the principal until the grace period ends.
pub proof fn law_insuring(
    lending: LendingView,
    contract: Address,
    now: u64,
    borrower: Address,
    loan_id: u64,
)
    requires
        lending.purchase_error(borrower, loan_id, true) is None,
        lending.fund().available_balance + lending.loans_by_id[loan_id].principal
            * lending.premium_rate() <= 0xffff_ffff_ffff_ffff,
        lending.fund().total_premiums_collected + lending.loans_by_id[loan_id].principal
            * lending.premium_rate() <= 0xffff_ffff_ffff_ffff,
    ensures
        ({
            let loan = lending.loans_by_id[loan_id];
            let premium = bps_share(loan.principal, lending.premium_rate());
            let after = lending.insured(contract, now, loan_id);
            let insurance = after.insurance[loan_id];
            &&& after.calls == lending.calls.push(
                LendingCallView::Transfer {
                    token: lending.token->0,
                    from: borrower,
                    to: contract,
                    amount: premium,
                },
            )
            &&& after.insurance == lending.insurance.insert(loan_id, insurance)
            &&& insurance.loan_id == loan_id && insurance.borrower == borrower
            &&& insurance.coverage_amount == loan.principal && insurance.premium_paid == premium
            &&& insurance.premium_rate_bps == lending.premium_rate()
            &&& insurance.purchase_time == now && !insurance.claimed
            &&& insurance.expires_at == loan.due_date
                + lending.pools[loan.asset].grace_period_seconds
            &&& after.fund().available_balance == lending.fund().available_balance + premium
            &&& after.fund().total_premiums_collected == lending.fund().total_premiums_collected
                + premium
            &&& after.fund().total_claims_paid == lending.fund().total_claims_paid
            &&& after.events == lending.events.push(
                LendingEventView::InsurancePurchased(
                    InsurancePurchasedEvent {
                        loan_id,
                        borrower,
                        coverage_amount: loan.principal,
                        premium_paid: premium,
                        premium_rate_bps: lending.premium_rate(),
                        expires_at: insurance.expires_at,
                        timestamp: now,
                    },
                ),
            )
            &&& after == (LendingView {
                insurance: after.insurance,
                insurance_fund: after.insurance_fund,
                insurance_premium_rate_bps: Some(lending.premium_rate()),
                calls: after.calls,
                events: after.events,
                ..lending
            })
        }),
{
    let loan = lending.loans_by_id[loan_id];
    let exact = loan.principal * lending.premium_rate();
    assert(0 <= exact) by (nonlinear_arith)
        requires
            exact == loan.principal * lending.premium_rate(),
            0 <= loan.principal,
            0 <= lending.premium_rate(),
    ;
    assert(bps_share(loan.principal, lending.premium_rate()) == exact / 10_000);
    assert(exact / 10_000 <= exact);
}

/// A claim takes the coverage out of the fund and marks the insurance as claimed; no
/// tokens move and nothing else changes.
pub proof fn law_claiming_insurance(lending: LendingView, now: u64, loan_id: u64)
    requires
        lending.claim_insurance_error(now, loan_id) is None,
        lending.fund().total_claims_paid + lending.insurance[loan_id].coverage_amount
            <= 0xffff_ffff_ffff_ffff,
    ensures
        ({
            let insurance = lending.insurance[loan_id];
            let amount = insurance.coverage_amount;
            let after = lending.insurance_claimed(now, loan_id);
            &&& after.insurance == lending.insurance.insert(
                loan_id,
                LoanInsurance { claimed: true, ..insurance },
            )
            &&& after.fund().available_balance + amount == lending.fund().available_balance
            &&& after.fund().total_claims_paid == lending.fund().total_claims_paid + amount
            &&& after.fund().total_premiums_collected == lending.fund().total_premiums_collected
            &&& after.events == lending.events.push(
                LendingEventView::InsuranceClaimed(
                    InsuranceClaimedEvent {
                        loan_id,
                        borrower: insurance.borrower,
                        claim_amount: amount,
                        coverage_amount: amount,
                        timestamp: now,
                    },
                ),
            )
            &&& after == (LendingView {
                insurance: after.insurance,
                insurance_fund: after.insurance_fund,
                events: after.events,
                ..lending
            })
        }),
{
}

/// The refund is the part of the premium for the time that is left, rounded down: all of
/// it right after the purchase, nothing from the expiry on.
pub proof fn law_refund_is_pro_rata(insurance: LoanInsurance, now: u64)
    requires
        insurance.purchase_time <= now,
    ensures
        now >= insurance.expires_at ==> refund(insurance, now) == 0,
        now < insurance.expires_at ==> {
            let whole = insurance.expires_at - insurance.purchase_time;
            let left = insurance.expires_at - now;
            &&& refund(insurance, now) * whole <= insurance.premium_paid * left < (refund(
                insurance,
                now,
            ) + 1) * whole
            &&& now == insurance.purchase_time ==> refund(insurance, now) == insurance.premium_paid
        },
{
    if now < insurance.expires_at {
        let whole = insurance.expires_at - insurance.purchase_time;
        let left = insurance.expires_at - now;
        let p = insurance.premium_paid as int;
        let n = p * left;
        assert(0 <= n <= p * whole) by (nonlinear_arith)
            requires
                n == p * left,
                0 <= left <= whole,
                0 <= p,
        ;
        crate::math::lemma_floor(n, whole);
        let q = n / whole;
        assert(0 <= q <= p) by (nonlinear_arith)
            requires
                q * whole <= n < (q + 1) * whole,
                0 <= n <= p * whole,
                whole > 0,
        ;
        assert(refund(insurance, now) == q);
        if now == insurance.purchase_time {
            assert(q == p) by (nonlinear_arith)
                requires
                    n == p * whole,
                    q * whole <= n < (q + 1) * whole,
                    whole > 0,
            ;
        }
    }
}

/// Cancelling ends the insurance and pays the refund, if there is one, out of the fund to
/// the borrower.
pub proof fn law_cancelling_insurance(
    lending: LendingView,
    contract: Address,
    now: u64,
    borrower: Address,
    loan_id: u64,
)
    requires
        lending.cancel_insurance_error(borrower, loan_id) is None,
    ensures
        ({
            let amount = refund(lending.insurance[loan_id], now);
            let after = lending.insurance_cancelled(contract, now, borrower, loan_id);
            &&& after.insurance == lending.insurance.remove(loan_id)
            &&& amount == 0 ==> after.calls == lending.calls && after.insurance_fund
                == lending.insurance_fund
            &&& amount > 0 ==> after.calls == lending.calls.push(
                LendingCallView::Transfer {
                    token: lending.token->0,
                    from: contract,
                    to: borrower,
                    amount,
                },
            )
            &&& amount <= lending.fund().available_balance ==> after.fund().available_balance
                + amount == lending.fund().available_balance
            &&& after.fund().total_claims_paid == lending.fund().total_claims_paid
            &&& after.fund().total_premiums_collected == lending.fund().total_premiums_collected
            &&& after.events == lending.events.push(
                LendingEventView::InsuranceCancelled(
                    InsuranceCancelledEvent {
                        loan_id,
                        borrower,
                        refund_amount: amount,
                        timestamp: now,
                    },
                ),
            )
            &&& after == (LendingView {
                insurance: after.insurance,
                insurance_fund: after.insurance_fund,
                calls: after.calls,
                events: after.events,
                ..lending
            })
        }),
{
}

/// The fund is filled and emptied by admins alone, and never emptied below zero.
pub proof fn law_fund_is_for_admins(lending: LendingView, admin: Address, amount: u64)
    ensures
        lending.fund_deposit_error(admin, amount, true) is None <==> !lending.access.entered
            && lending.access.has(admin, Role::Admin) && amount > 0,
        lending.fund_deposit_error(admin, amount, false) is Some,
        lending.fund_withdraw_error(admin, amount) is None <==> !lending.access.entered
            && lending.access.has(admin, Role::Admin) && 0 < amount
            <= lending.fund().available_balance,
        lending.insurance_fund matches Some(fund) ==> lending.fund() == fund,
{
}

/// Why a purchase is refused: every reason that is given holds.
pub proof fn law_reason_purchase(
    lending: LendingView,
    borrower: Address,
    loan_id: u64,
    transferred: bool,
)
    ensures
        ({
            let loan = lending.loans_by_id[loan_id];
            match lending.purchase_error(borrower, loan_id, transferred) {
                None => true,
                Some(LendingError::ReentrantCall) => lending.access.entered,
                Some(LendingError::LoanNotFound) => !lending.loans_by_id.contains_key(loan_id),
                Some(LendingError::Unauthorized) => loan.borrower != borrower,
                Some(LendingError::InsuranceAlreadyPurchased) =>
                    lending.insurance.contains_key(loan_id),
                Some(LendingError::InvalidInsuranceAmount) => bps_share(loan.principal,
                    lending.premium_rate()) == 0,
                Some(LendingError::TransferFailed) => !transferred,
                Some(error) => lending.grace_error(loan) == Some(error),
            }
        }),
{
}

/// Why a claim is refused: every reason that is given holds.
pub proof fn law_reason_claim_insurance(lending: LendingView, now: u64, loan_id: u64)
    ensures
        ({
            let insurance = lending.insurance[loan_id];
            let loan = lending.loans_by_id[loan_id];
            match lending.claim_insurance_error(now, loan_id) {
                None => true,
                Some(LendingError::ReentrantCall) => lending.access.entered,
                Some(LendingError::InsuranceNotFound) => !lending.insurance.contains_key(loan_id)
                    || lending.insurance_fund is None,
                Some(LendingError::InsuranceAlreadyClaimed) => insurance.claimed,
                Some(LendingError::LoanNotFound) => !lending.loans_by_id.contains_key(loan_id),
                Some(LendingError::InvalidAmount) => now <= lending.grace_end(loan)
                    || lending.grace_error(loan) == Some(LendingError::InvalidAmount),
                Some(LendingError::InsufficientInsuranceFund) => lending.fund().available_balance
                    < insurance.coverage_amount,
                Some(error) => lending.grace_error(loan) == Some(error),
            }
        }),
{
}

/// Why a cancellation is refused: every reason that is given holds.
pub proof fn law_reason_cancel_insurance(lending: LendingView, borrower: Address, loan_id: u64)
    ensures
        match lending.cancel_insurance_error(borrower, loan_id) {
            None => true,
            Some(LendingError::ReentrantCall) => lending.access.entered,
            Some(LendingError::InsuranceNotFound) => !lending.insurance.contains_key(loan_id),
            Some(LendingError::Unauthorized) => lending.insurance[loan_id].borrower != borrower,
            Some(LendingError::InsuranceAlreadyClaimed) => lending.insurance[loan_id].claimed,
            Some(_) => false,
        },
{
}

/// Why a deposit into the fund is refused: every reason that is given holds.
pub proof fn law_reason_fund_deposit(
    lending: LendingView,
    admin: Address,
    amount: u64,
    transferred: bool,
)
    ensures
        match lending.fund_deposit_error(admin, amount, transferred) {
            None => true,
            Some(LendingError::InvalidAmount) => amount == 0,
            Some(LendingError::TransferFailed) => !transferred,
            Some(error) => lending.admin_error(admin) == Some(error),
        },
{
}

/// Why a withdrawal from the fund is refused: every reason that is given holds.
pub proof fn law_reason_fund_withdraw(lending: LendingView, admin: Address, amount: u64)
    ensures
        match lending.fund_withdraw_error(admin, amount) {
            None => true,
            Some(LendingError::InvalidAmount) => amount == 0,
            Some(LendingError::InsufficientLiquidity) => lending.fund().available_balance < amount,
            Some(error) => lending.admin_error(admin) == Some(error),
        },
{
}

/// Insurance is in force until it expires, unless it was claimed. A contract without a
/// fund has an empty one, and gets it with the rate it charges.
pub proof fn law_insurance_in_force(lending: LendingView, insurance: LoanInsurance, now: u64)
    ensures
        in_force(insurance, now) <==> !insurance.claimed && now < insurance.expires_at,
        lending.insurance_fund is None ==> lending.fund() == (InsuranceFund {
            total_premiums_collected: 0,
            total_claims_paid: 0,
            available_balance: 0,
        }),
        lending.insurance_ready() == (LendingView {
            insurance_fund: Some(lending.fund()),
            insurance_premium_rate_bps: Some(lending.premium_rate()),
            ..lending
        }),
{
}

} // verus!
