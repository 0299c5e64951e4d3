//! Flash loans: tokens lent and returned within one call.
use vstd::prelude::*;

use crate::access::AccessView;
use crate::host::{Address, Env};
use crate::lending::pools::liquidity;
use crate::lending::rates::utilization;
use crate::lending::state::{lemma_pool_update, LendingContract, LendingView};
use crate::lending::types::{
    FlashLoanEvent, LendingCall, LendingCallView, LendingError, LendingEvent, LendingEventView,
    PoolState,
};
use crate::math::{bps_share, share_bps};

verus! {

/// A flash loan that is out: the receiver has the tokens and the control.
#[derive(Clone, Copy, Debug, PartialEq, Eq, Structural)]
pub struct PendingFlashLoan {
    pub receiver: Address,
    pub asset: Address,
    pub amount: u64,
    pub fee: u64,
    /// The pool when the loan was handed out.
    pub pool: PoolState,
}

impl LendingView {
    /// Whether a contract may receive flash loans.
    pub open spec fn accepts_receiver(self, receiver: Address) -> bool {
        self.whitelisted_flash_receivers.contains_key(receiver)
            && self.whitelisted_flash_receivers[receiver]
    }

    /// Why a flash loan is not handed out.
    pub open spec fn flash_loan_error(self, receiver: Address, asset: Address, amount: u64)
        -> Option<LendingError> {
        let pool = self.pools[asset];
        if self.access.paused {
            Some(LendingError::ContractPaused)
        } else if self.admin is None {
            Some(LendingError::NotInitialized)
        } else if !self.accepts_receiver(receiver) {
            Some(LendingError::Unauthorized)
        } else if self.access.entered {
            Some(LendingError::ReentrantCall)
        } else if amount == 0 {
            Some(LendingError::InvalidAmount)
        } else if !self.pools.contains_key(asset) {
            Some(LendingError::AssetNotSupported)
        } else if pool.is_paused {
            Some(LendingError::PoolPaused)
        } else if amount > liquidity(pool) {
            Some(LendingError::InsufficientLiquidity)
        } else if utilization((pool.total_borrowed + amount) as u64, pool.total_deposits)
            > pool.utilization_cap_bps {
            Some(LendingError::UtilizationCapExceeded)
        } else {
            None
        }
    }

    /// The flash loan that is handed out.
    pub open spec fn flash_loan(self, receiver: Address, asset: Address, amount: u64)
        -> PendingFlashLoan {
        PendingFlashLoan {
            receiver,
            asset,
            amount,
            fee: bps_share(amount, self.flash_loan_fee_bps),
            pool: self.pools[asset],
        }
    }

    /// The contract while a flash loan is out: the guard is up, the tokens are
    /// with the receiver, and the receiver has been called.
    pub open spec fn flash_loan_out(
        self,
        contract: Address,
        initiator: Address,
        loan: PendingFlashLoan,
    ) -> LendingView {
        LendingView {
            access: AccessView { entered: true, ..self.access },
            ..self
        }.with_transfer(loan.asset, contract, loan.receiver, loan.amount).with_call(
            LendingCallView::ExecuteOperation {
                receiver: loan.receiver,
                amount: loan.amount,
                fee: loan.fee,
                initiator,
            },
        )
    }

    /// The contract after a flash loan came back: the fee belongs to the pool,
    /// and the guard is down.
    pub open spec fn flash_loan_returned(self, loan: PendingFlashLoan) -> LendingView {
        LendingView {
            access: AccessView { entered: false, ..self.access },
            ..self
        }.with_pool(
            loan.asset,
            PoolState {
                total_deposits: (loan.pool.total_deposits + loan.fee) as u64,
                ..loan.pool
            },
        ).with_event(
            LendingEventView::FlashLoan(
                FlashLoanEvent {
                    receiver: loan.receiver,
                    asset: loan.asset,
                    amount: loan.amount,
                    fee: loan.fee,
                },
            ),
        )
    }
}

/// While a flash loan is out, nothing that would change the contract can slip in, be it
/// called by a user, a linked contract or an admin: loans and pool shares, staking,
/// insurance, plan yield, the reserves and the settings are all closed, and every call
/// is rejected as re-entrant. Once the loan is settled the guard is down again.
pub proof fn law_flash_loan_blocks_reentry(
    lending: LendingView,
    contract: Address,
    initiator: Address,
    receiver: Address,
    asset: Address,
    amount: u64,
    now: u64,
    user: Address,
    other: Address,
    number: u64,
    small: u32,
    numbers: Seq<u64>,
    arrived: bool,
)
    requires
        lending.flash_loan_error(receiver, asset, amount) is None,
    ensures
        ({
            let loan = lending.flash_loan(receiver, asset, amount);
            let out = lending.flash_loan_out(contract, initiator, loan);
            let refused = Some(LendingError::ReentrantCall);
            &&& out.deposit_error(other, number, arrived) == refused
            &&& out.withdraw_error(user, other, number, arrived) == refused
            &&& out.withdraw_priority_error(other, number, arrived) == refused
            &&& out.borrow_error(user, other, number, other, number, arrived, arrived) == refused
            &&& out.repay_error(user, arrived, arrived) == refused
            &&& out.liquidate_error(now, user, number, arrived, arrived) == refused
            &&& out.refinance_error(now, user, arrived) == refused
            &&& out.consolidate_error(now, user, numbers, arrived) == refused
            &&& out.split_error(now, user, numbers, arrived) == refused
            &&& out.flash_loan_error(receiver, other, number) == refused
            &&& out.emit_error(user) == refused
            &&& out.stake_error(user, other, number) == refused
            &&& out.unstake_error(user, other, number) == refused
            &&& out.claim_rewards_error(user, other, now) == refused
            &&& out.purchase_error(user, number, arrived) == refused
            &&& out.claim_insurance_error(now, number) == refused
            &&& out.cancel_insurance_error(user, number) == refused
            &&& out.fund_deposit_error(user, number, arrived) == refused
            &&& out.fund_withdraw_error(user, number) == refused
            &&& out.register_error(user, number, other) == refused
            &&& out.claim_yield_error(now, user, number) == refused
            &&& out.batch_claim_error(numbers) == refused
            &&& out.unregister_error(user, number) == refused
            &&& out.boost_error(user, number, small) == refused
            &&& out.fund_yield_error(user, other, number, arrived) == refused
            &&& out.stored_admin_error(user) == refused
            &&& out.reserve_payout_error(user, other, number, arrived) == refused
            &&& out.replenish_error(user, other, number, arrived) == refused
            &&& out.bad_debt_error(now, user, other) == refused
            &&& out.accrue_error(number) == refused
            &&& out.initialize_error() == refused
            &&& out.admin_error(user) == refused
            &&& out.pool_admin_error(user, other) == refused
            &&& out.rate_model_error(user, small, small) == refused
            &&& out.upgrade_error(user) == refused
            &&& !out.flash_loan_returned(loan).access.entered
        }),
{
}

impl LendingContract {
    /// Flash loan fee in basis points.
    pub fn get_flash_loan_fee(&self) -> (fee_bps: u32)
        ensures
            fee_bps == self@.flash_loan_fee_bps,
    {
        self.flash_loan_fee_bps
    }

    /// Check whether a receiver contract is whitelisted for flash loans.
    pub fn is_flash_receiver_whitelisted(&self, receiver: Address) -> (yes: bool)
        ensures
            yes == self@.accepts_receiver(receiver),
    {
        match self.whitelisted_flash_receivers.get(receiver) {
            Some(listed) => *listed,
            None => false,
        }
    }

    /// Why a flash loan is not handed out.
    pub fn check_flash_loan(&self, receiver_id: Address, asset: Address, amount: u64) -> (error:
        Option<LendingError>)
        ensures
            error == self@.flash_loan_error(receiver_id, asset, amount),
    {
        match self.require_not_paused() {
            Err(e) => {
                return Some(e);
            },
            Ok(()) => {},
        }
        match self.require_initialized() {
            Err(e) => {
                return Some(e);
            },
            Ok(()) => {},
        }
        if !self.is_flash_receiver_whitelisted(receiver_id) {
            return Some(LendingError::Unauthorized);
        }
        if self.access.entered {
            return Some(LendingError::ReentrantCall);
        }
        if amount == 0 {
            return Some(LendingError::InvalidAmount);
        }
        let pool = match self.get_pool(asset) {
            Ok(pool) => pool,
            Err(e) => {
                return Some(e);
            },
        };
        if pool.is_paused {
            return Some(LendingError::PoolPaused);
        }
        let available: u64 = pool.total_deposits.saturating_sub(pool.total_borrowed);
        if amount > available {
            return Some(LendingError::InsufficientLiquidity);
        }
        let new_borrowed: u64 = pool.total_borrowed + amount;
        if Self::get_utilization_bps(new_borrowed, pool.total_deposits)
            > pool.utilization_cap_bps {
            return Some(LendingError::UtilizationCapExceeded);
        }
        None
    }

    /// Hands a flash loan out.
    ///
    /// - The `initiator` must have authorised the call.
    /// - `receiver_id` must be a whitelisted contract address.
    /// - The guard is held until the loan is settled: any attempt by the receiver to
    ///   re-enter the contract is rejected with `ReentrantCall` before any state is
    ///   modified.
    pub fn start_flash_loan(
        &mut self,
        env: &Env,
        initiator: Address,
        receiver_id: Address,
        asset: Address,
        amount: u64,
    ) -> (result: Result<PendingFlashLoan, LendingError>)
        requires
            old(self)@.well_formed(),
            env.authorized(initiator),
        ensures
            match result {
                Err(e) => old(self)@.flash_loan_error(receiver_id, asset, amount) == Some(e)
                    && final(self)@ == old(self)@,
                Ok(loan) => old(self)@.flash_loan_error(receiver_id, asset, amount) is None && loan
                    == old(self)@.flash_loan(receiver_id, asset, amount) && final(self)@
                    == old(self)@.flash_loan_out(env.contract, initiator, loan),
            },
            final(self)@.well_formed(),
    {
        match self.check_flash_loan(receiver_id, asset, amount) {
            Some(e) => {
                return Err(e);
            },
            None => {},
        }
        let pool = match self.get_pool(asset) {
            Ok(pool) => pool,
            Err(e) => {
                return Err(e);
            },
        };
        let fee: u64 = share_bps(amount, self.get_flash_loan_fee());
        let _ = self.enter_reentrancy_guard();
        self.call(
            LendingCall::Transfer { token: asset, from: env.contract, to: receiver_id, amount },
        );
        self.call(
            LendingCall::ExecuteOperation { receiver: receiver_id, amount, fee, initiator },
        );
        Ok(PendingFlashLoan { receiver: receiver_id, asset, amount, fee, pool })
    }

    /// Settles a flash loan: the contract must hold the tokens it had before and
    /// the fee on top. A loan that is not repaid is an error, which undoes the
    /// whole call.
    pub fn settle_flash_loan(
        &mut self,
        loan: PendingFlashLoan,
        balance_before: i128,
        balance_after: i128,
    ) -> (result: Result<(), LendingError>)
        requires
            old(self)@.well_formed(),
            old(self)@.pools.contains_key(loan.asset),
            old(self)@.pools[loan.asset].total_shares == loan.pool.total_shares,
            balance_before + loan.fee <= i128::MAX,
            balance_after >= balance_before + loan.fee ==> loan.pool.total_deposits + loan.fee
                <= u64::MAX,
        ensures
            match result {
                Err(e) => e == LendingError::FlashLoanNotRepaid && balance_after < balance_before
                    + loan.fee && final(self)@ == old(self)@,
                Ok(()) => balance_after >= balance_before + loan.fee && final(self)@
                    == old(self)@.flash_loan_returned(loan),
            },
            final(self)@.well_formed(),
    {
        let required_balance: i128 = balance_before + (loan.fee as i128);
        if balance_after < required_balance {
            return Err(LendingError::FlashLoanNotRepaid);
        }
        let updated = PoolState {
            total_deposits: loan.pool.total_deposits + loan.fee,
            ..loan.pool
        };
        proof {
            lemma_pool_update(self@, loan.asset, updated);
        }
        self.set_pool(loan.asset, updated);
        self.publish(
            LendingEvent::FlashLoan(
                FlashLoanEvent {
                    receiver: loan.receiver,
                    asset: loan.asset,
                    amount: loan.amount,
                    fee: loan.fee,
                },
            ),
        );
        self.exit_reentrancy_guard();
        Ok(())
    }

    /// A whole flash loan whose receiver changes nothing in this contract:
    /// `balance_before` and `balance_after` are the tokens that the contract held
    /// before the tokens left and after the receiver returned.
    pub fn flash_loan(
        &mut self,
        env: &Env,
        initiator: Address,
        receiver_id: Address,
        asset: Address,
        amount: u64,
        balance_before: i128,
        balance_after: i128,
    ) -> (result: Result<(), LendingError>)
        requires
            old(self)@.well_formed(),
            env.authorized(initiator),
            old(self)@.flash_loan_error(receiver_id, asset, amount) is None ==> {
                let loan = old(self)@.flash_loan(receiver_id, asset, amount);
                &&& balance_before + loan.fee <= i128::MAX
                &&& balance_after >= balance_before + loan.fee ==> loan.pool.total_deposits
                    + loan.fee <= u64::MAX
            },
        ensures
            ({
                let error = old(self)@.flash_loan_error(receiver_id, asset, amount);
                let loan = old(self)@.flash_loan(receiver_id, asset, amount);
                match result {
                    Err(e) => final(self)@ == old(self)@ && if error is Some {
                        error == Some(e)
                    } else {
                        e == LendingError::FlashLoanNotRepaid && balance_after < balance_before
                            + loan.fee
                    },
                    Ok(()) => error is None && balance_after >= balance_before + loan.fee
                        && final(self)@ == old(self)@.flash_loan_out(
                        env.contract,
                        initiator,
                        loan,
                    ).flash_loan_returned(loan),
                }
            }),
            final(self)@.well_formed(),
    {
        let fee: u64 = share_bps(amount, self.get_flash_loan_fee());
        match self.check_flash_loan(receiver_id, asset, amount) {
            Some(e) => {
                return Err(e);
            },
            None => {},
        }
        if balance_after < balance_before + (fee as i128) {
            return Err(LendingError::FlashLoanNotRepaid);
        }
        match self.start_flash_loan(env, initiator, receiver_id, asset, amount) {
            Ok(loan) => self.settle_flash_loan(loan, balance_before, balance_after),
            Err(e) => Err(e),
        }
    }
}

/// Who can take a flash loan: a receiver on the list, as far as the pool's free tokens
/// and its utilization cap go.
pub proof fn law_flash_loans_are_admitted(
    lending: LendingView,
    receiver: Address,
    asset: Address,
    amount: u64,
)
    ensures
        lending.flash_loan_error(receiver, asset, amount) is None <==> {
            let pool = lending.pools[asset];
            &&& lending.admin is Some && !lending.access.paused && !lending.access.entered
            &&& lending.whitelisted_flash_receivers.contains_key(receiver)
                && lending.whitelisted_flash_receivers[receiver]
            &&& lending.pools.contains_key(asset) && !pool.is_paused
            &&& amount > 0 && pool.total_borrowed + amount <= pool.total_deposits
            &&& utilization((pool.total_borrowed + amount) as u64, pool.total_deposits)
                <= pool.utilization_cap_bps
        },
{
}

/// A flash loan hands the amount from the contract to the receiver and calls it with the
/// amount, the fee and the true initiator. Once it is back the pool has the fee on top,
/// and nothing else has changed.
pub proof fn law_flash_loan_round_trip(
    lending: LendingView,
    contract: Address,
    initiator: Address,
    receiver: Address,
    asset: Address,
    amount: u64,
)
    requires
        lending.flash_loan_error(receiver, asset, amount) is None,
        lending.pools[asset].total_deposits + bps_share(amount, lending.flash_loan_fee_bps)
            <= 0xffff_ffff_ffff_ffff,
    ensures
        ({
            let fee = bps_share(amount, lending.flash_loan_fee_bps);
            let loan = lending.flash_loan(receiver, asset, amount);
            let out = lending.flash_loan_out(contract, initiator, loan);
            let back = out.flash_loan_returned(loan);
            &&& loan.fee == fee && loan.amount == amount && loan.receiver == receiver && loan.asset
                == asset
            &&& out.access.entered && out.pools == lending.pools
            &&& out.calls == lending.calls.push(
                LendingCallView::Transfer { token: asset, from: contract, to: receiver, amount },
            ).push(LendingCallView::ExecuteOperation { receiver, amount, fee, initiator })
            &&& back.calls == out.calls && !back.access.entered
            &&& back.pools[asset].total_deposits == lending.pools[asset].total_deposits + fee
            &&& back == (LendingView {
                pools: lending.pools.insert(
                    asset,
                    PoolState {
                        total_deposits: back.pools[asset].total_deposits,
                        ..lending.pools[asset]
                    },
                ),
                calls: out.calls,
                events: lending.events.push(
                    LendingEventView::FlashLoan(FlashLoanEvent { receiver, asset, amount, fee }),
                ),
                ..lending
            })
        }),
{
}

/// Why a flash loan is not handed out: every reason that is given holds.
pub proof fn law_reason_flash_loan(
    lending: LendingView,
    receiver: Address,
    asset: Address,
    amount: u64,
)
    ensures
        ({
            let pool = lending.pools[asset];
            match lending.flash_loan_error(receiver, asset, amount) {
                None => true,
                Some(LendingError::ContractPaused) => lending.access.paused,
                Some(LendingError::NotInitialized) => lending.admin is None,
                Some(LendingError::Unauthorized) => !lending.accepts_receiver(receiver),
                Some(LendingError::ReentrantCall) => lending.access.entered,
                Some(LendingError::InvalidAmount) => amount == 0,
                Some(LendingError::AssetNotSupported) => !lending.pools.contains_key(asset),
                Some(LendingError::PoolPaused) => pool.is_paused,
                Some(LendingError::InsufficientLiquidity) => amount > liquidity(pool),
                Some(LendingError::UtilizationCapExceeded) => utilization((pool.total_borrowed
                    + amount) as u64, pool.total_deposits) > pool.utilization_cap_bps,
                Some(_) => false,
            }
        }),
{
}

} // verus!
