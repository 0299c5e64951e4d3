//! The records, errors, events and outgoing calls of the lending contract.
use vstd::prelude::*;

use crate::host::Address;

verus! {

/// The state of one asset's pool.
#[derive(Clone, Copy, Debug, PartialEq, Eq, Structural)]
pub struct PoolState {
    /// Total underlying tokens deposited (net, tracks repayments too)
    pub total_deposits: u64,
    /// Total pool shares outstanding
    pub total_shares: u64,
    /// Total principal currently on loan
    pub total_borrowed: u64,
    /// Base interest rate in basis points (1/10000)
    pub base_rate_bps: u32,
    /// Multiplier applied to utilization to get variable rate
    pub multiplier_bps: u32,
    /// Maximum utilization allowed in basis points (e.g., 8000 = 80%)
    pub utilization_cap_bps: u32,
    /// Yield reserved for protocol/priority payouts
    pub retained_yield: u64,
    /// Reserve bucket for bad debt coverage
    pub bad_debt_reserve: u64,
    /// Grace period duration in seconds (e.g., 3 days = 259200)
    pub grace_period_seconds: u64,
    /// Late fee rate in basis points per day (e.g., 500 = 5% per day)
    pub late_fee_rate_bps: u32,
    /// Reserve factor in basis points (e.g., 1000 = 10%)
    pub reserve_factor_bps: u32,
    /// Total protocol revenue accumulated
    pub total_protocol_revenue: u64,
    /// Per-asset pause functionality
    pub is_paused: bool,
}

impl View for PoolState {
    type V = PoolState;

    open spec fn view(&self) -> PoolState {
        *self
    }
}

/// Yield-bearing position held by an inheritance plan in this pool.
///
/// Registered by the linked inheritance contract when a plan opts into
/// yield earning. `principal` is the plan balance considered to be earning
/// the pool's supply rate; `last_harvest_at` is the accrual watermark, so
/// each harvest only pays for time elapsed since the previous one.
#[derive(Clone, Copy, Debug, PartialEq, Eq, Structural)]
pub struct PlanYieldPosition {
    pub plan_id: u64,
    pub asset: Address,
    pub principal: u64,
    pub last_harvest_at: u64,
    pub total_harvested: u64,
    pub last_harvest_amount: u64,
    pub harvest_count: u32,
    pub registered_at: u64,
    /// Extra rate, in basis points, granted on top of the pool supply rate.
    /// Lets the protocol incentivize long-horizon inheritance deposits without
    /// distorting the rate every other depositor sees.
    pub boost_bps: u32,
    /// Cleared by `unregister_plan_yield`. An inactive position stops accruing
    /// but keeps its lifetime totals for accounting.
    pub active: bool,
}

impl View for PlanYieldPosition {
    type V = PlanYieldPosition;

    open spec fn view(&self) -> PlanYieldPosition {
        *self
    }
}

/// Aggregate view of every plan position in one asset's pool.
#[derive(Clone, Copy, Debug, PartialEq, Eq, Structural)]
pub struct PlanYieldStats {
    pub asset: Address,
    pub position_count: u32,
    pub active_count: u32,
    pub total_principal: u64,
    pub total_harvested: u64,
    pub available_yield: u64,
}

/// An open loan.
#[derive(Clone, Copy, Debug, PartialEq, Eq, Structural)]
pub struct LoanRecord {
    pub loan_id: u64,
    pub borrower: Address,
    /// Asset being borrowed
    pub asset: Address,
    pub principal: u64,
    pub collateral_amount: u64,
    pub collateral_token: Address,
    pub borrow_time: u64,
    pub due_date: u64,
    pub interest_rate_bps: u32,
}

impl View for LoanRecord {
    type V = LoanRecord;

    open spec fn view(&self) -> LoanRecord {
        *self
    }
}

/// The terms on which a loan can be refinanced.
#[derive(Clone, Copy, Debug, PartialEq, Eq, Structural)]
pub struct RefinanceTerms {
    pub outstanding_balance: u64,
    pub new_principal: u64,
    pub refinancing_fee: u64,
    pub total_required: u64,
    pub new_interest_rate_bps: u32,
    pub new_duration_seconds: u64,
    pub new_due_date: u64,
}

/// Insurance bought for a loan.
#[derive(Clone, Copy, Debug, PartialEq, Eq, Structural)]
pub struct LoanInsurance {
    pub loan_id: u64,
    pub borrower: Address,
    /// Coverage limit (typically 100% of loan principal)
    pub coverage_amount: u64,
    /// Premium amount paid upfront
    pub premium_paid: u64,
    /// Premium rate in basis points (e.g., 200 = 2%)
    pub premium_rate_bps: u32,
    /// Timestamp when insurance was purchased
    pub purchase_time: u64,
    /// Expiration timestamp (typically loan grace-period end)
    pub expires_at: u64,
    /// Whether insurance has been claimed
    pub claimed: bool,
}

impl View for LoanInsurance {
    type V = LoanInsurance;

    open spec fn view(&self) -> LoanInsurance {
        *self
    }
}

/// The fund from which insurance claims are paid.
#[derive(Clone, Copy, Debug, PartialEq, Eq, Structural)]
pub struct InsuranceFund {
    /// Total premiums accumulated
    pub total_premiums_collected: u64,
    /// Total claims paid out
    pub total_claims_paid: u64,
    /// Current available balance for claims
    pub available_balance: u64,
}

impl View for InsuranceFund {
    type V = InsuranceFund;

    open spec fn view(&self) -> InsuranceFund {
        *self
    }
}

/// Published as [`LendingEvent`].
#[derive(Clone, Copy, Debug, PartialEq, Eq, Structural)]
pub struct DepositEvent {
    pub depositor: Address,
    pub asset: Address,
    pub amount: u64,
    pub shares_minted: u64,
}

/// Published as [`LendingEvent`].
#[derive(Clone, Copy, Debug, PartialEq, Eq, Structural)]
pub struct WithdrawEvent {
    pub depositor: Address,
    pub asset: Address,
    pub shares_burned: u64,
    pub amount: u64,
}

/// Published as [`LendingEvent`].
#[derive(Clone, Copy, Debug, PartialEq, Eq, Structural)]
pub struct PriorityWithdrawEvent {
    pub caller: Address,
    pub asset: Address,
    pub amount: u64,
}

/// Published as [`LendingEvent`].
#[derive(Clone, Copy, Debug, PartialEq, Eq, Structural)]
pub struct BorrowEvent {
    pub loan_id: u64,
    pub borrower: Address,
    pub asset: Address,
    pub amount: u64,
    pub collateral_amount: u64,
    pub due_date: u64,
}

/// Published as [`LendingEvent`].
#[derive(Clone, Copy, Debug, PartialEq, Eq, Structural)]
pub struct RepayEvent {
    pub loan_id: u64,
    pub borrower: Address,
    pub asset: Address,
    pub principal: u64,
    pub interest: u64,
    pub total_amount: u64,
    pub collateral_returned: u64,
}

/// Published as [`LendingEvent`].
#[derive(Clone, Copy, Debug, PartialEq, Eq, Structural)]
pub struct CollateralDepositEvent {
    pub loan_id: u64,
    pub borrower: Address,
    pub collateral_token: Address,
    pub amount: u64,
}

/// Published as [`LendingEvent`].
#[derive(Clone, Copy, Debug, PartialEq, Eq, Structural)]
pub struct LiquidationEvent {
    pub loan_id: u64,
    pub borrower: Address,
    pub liquidator: Address,
    pub asset: Address,
    pub amount_repaid: u64,
    pub collateral_seized: u64,
    pub health_factor: u32,
}

/// Published as [`LendingEvent`].
#[derive(Clone, Copy, Debug, PartialEq, Eq, Structural)]
pub struct InterestAccrualEvent {
    pub loan_id: u64,
    pub borrower: Address,
    pub asset: Address,
    pub principal: u64,
    pub interest_accrued: u64,
    pub interest_rate_bps: u32,
    pub elapsed_seconds: u64,
    pub timestamp: u64,
}

/// Published as [`LendingEvent`].
#[derive(Clone, Copy, Debug, PartialEq, Eq, Structural)]
pub struct LateFeeChargedEvent {
    pub loan_id: u64,
    pub borrower: Address,
    pub asset: Address,
    pub late_fee: u64,
    pub days_overdue: u64,
    pub total_with_late_fees: u64,
    pub timestamp: u64,
}

/// Published as [`LendingEvent`].
#[derive(Clone, Copy, Debug, PartialEq, Eq, Structural)]
pub struct BadDebtLiquidationEvent {
    pub loan_id: u64,
    pub borrower: Address,
    pub asset: Address,
    pub outstanding_balance: u64,
    pub collateral_seized: u64,
    pub shortfall_covered: u64,
}

/// Published as [`LendingEvent`].
#[derive(Clone, Copy, Debug, PartialEq, Eq, Structural)]
pub struct BadDebtReserveReplenishedEvent {
    pub asset: Address,
    pub amount: u64,
    pub new_reserve_balance: u64,
}

/// Published as [`LendingEvent`].
#[derive(Clone, Copy, Debug, PartialEq, Eq, Structural)]
pub struct FlashLoanEvent {
    pub receiver: Address,
    pub asset: Address,
    pub amount: u64,
    pub fee: u64,
}

/// Published as [`LendingEvent`].
#[derive(Clone, Copy, Debug, PartialEq, Eq, Structural)]
pub struct LoanRefinancedEvent {
    pub old_loan_id: u64,
    pub new_loan_id: u64,
    pub borrower: Address,
    pub asset: Address,
    pub old_principal: u64,
    pub new_principal: u64,
    pub refinancing_fee: u64,
    pub old_interest_rate_bps: u32,
    pub new_interest_rate_bps: u32,
    pub old_due_date: u64,
    pub new_due_date: u64,
    pub timestamp: u64,
}

/// The reward pool of one asset.
#[derive(Clone, Copy, Debug, PartialEq, Eq, Structural)]
pub struct RewardPool {
    pub total_staked: u64,
    /// Rewards per second per staked token
    pub reward_rate: u64,
    pub last_update_time: u64,
    pub reward_per_token_stored: u64,
    pub total_rewards_distributed: u64,
}

impl View for RewardPool {
    type V = RewardPool;

    open spec fn view(&self) -> RewardPool {
        *self
    }
}

/// The stake of one user in one asset.
#[derive(Clone, Copy, Debug, PartialEq, Eq, Structural)]
pub struct UserStake {
    pub amount: u64,
    pub reward_per_token_paid: u64,
    pub rewards: u64,
    pub stake_time: u64,
}

impl View for UserStake {
    type V = UserStake;

    open spec fn view(&self) -> UserStake {
        *self
    }
}

/// Published as [`LendingEvent`].
#[derive(Clone, Copy, Debug, PartialEq, Eq, Structural)]
pub struct StakedEvent {
    pub user: Address,
    pub asset: Address,
    pub amount: u64,
    pub timestamp: u64,
}

/// Published as [`LendingEvent`].
#[derive(Clone, Copy, Debug, PartialEq, Eq, Structural)]
pub struct UnstakedEvent {
    pub user: Address,
    pub asset: Address,
    pub amount: u64,
    pub rewards_claimed: u64,
    pub timestamp: u64,
}

/// Published as [`LendingEvent`].
#[derive(Clone, Copy, Debug, PartialEq, Eq, Structural)]
pub struct RewardsClaimedEvent {
    pub user: Address,
    pub asset: Address,
    pub rewards: u64,
    pub timestamp: u64,
}

/// Published as [`LendingEvent`].
#[derive(Clone, Copy, Debug, PartialEq, Eq, Structural)]
pub struct PlanYieldRegisteredEvent {
    pub plan_id: u64,
    pub asset: Address,
    pub principal: u64,
    pub timestamp: u64,
}

/// Published as [`LendingEvent`].
#[derive(Clone, Copy, Debug, PartialEq, Eq, Structural)]
pub struct PlanYieldUnregisteredEvent {
    pub plan_id: u64,
    pub asset: Address,
    pub total_harvested: u64,
    pub timestamp: u64,
}

/// Published as [`LendingEvent`].
#[derive(Clone, Copy, Debug, PartialEq, Eq, Structural)]
pub struct PlanYieldBoostSetEvent {
    pub plan_id: u64,
    pub old_boost_bps: u32,
    pub new_boost_bps: u32,
}

/// Published as [`LendingEvent`].
#[derive(Clone, Copy, Debug, PartialEq, Eq, Structural)]
pub struct RetainedYieldFundedEvent {
    pub asset: Address,
    pub funder: Address,
    pub amount: u64,
    pub new_balance: u64,
}

/// Published as [`LendingEvent`].
#[derive(Clone, Copy, Debug, PartialEq, Eq, Structural)]
pub struct PlanYieldClaimedEvent {
    pub plan_id: u64,
    pub asset: Address,
    pub yield_amount: u64,
    pub total_harvested: u64,
    pub timestamp: u64,
}

/// Published as [`LendingEvent`].
#[derive(Clone, Copy, Debug, PartialEq, Eq, Structural)]
pub struct RewardRateUpdatedEvent {
    pub asset: Address,
    pub old_rate: u64,
    pub new_rate: u64,
    pub timestamp: u64,
}

/// Published as [`LendingEvent`].
#[derive(Clone, Copy, Debug, PartialEq, Eq, Structural)]
pub struct InsurancePurchasedEvent {
    pub loan_id: u64,
    pub borrower: Address,
    pub coverage_amount: u64,
    pub premium_paid: u64,
    pub premium_rate_bps: u32,
    pub expires_at: u64,
    pub timestamp: u64,
}

/// Published as [`LendingEvent`].
#[derive(Clone, Copy, Debug, PartialEq, Eq, Structural)]
pub struct InsuranceClaimedEvent {
    pub loan_id: u64,
    pub borrower: Address,
    pub claim_amount: u64,
    pub coverage_amount: u64,
    pub timestamp: u64,
}

/// Two-slope interest rate model parameters.
/// Before optimal utilization: rate = base_rate + (utilization / optimal_utilization) * slope1
/// After optimal utilization:  rate = base_rate + slope1 + ((utilization - optimal) / (1 - optimal)) * slope2
#[derive(Clone, Copy, Debug, PartialEq, Eq, Structural)]
pub struct RateModel {
    pub base_rate_bps: u32,
    pub optimal_utilization_bps: u32,
    pub slope1_bps: u32,
    pub slope2_bps: u32,
    pub reserve_factor_bps: u32,
}

impl View for RateModel {
    type V = RateModel;

    open spec fn view(&self) -> RateModel {
        *self
    }
}

/// Published as [`LendingEvent`].
#[derive(Clone, Copy, Debug, PartialEq, Eq, Structural)]
pub struct InsuranceCancelledEvent {
    pub loan_id: u64,
    pub borrower: Address,
    pub refund_amount: u64,
    pub timestamp: u64,
}

/// Published as [`LendingEvent`].
#[derive(Clone, Copy, Debug, PartialEq, Eq, Structural)]
pub struct RateModelUpdatedEvent {
    pub base_rate_bps: u32,
    pub optimal_utilization_bps: u32,
    pub slope1_bps: u32,
    pub slope2_bps: u32,
    pub reserve_factor_bps: u32,
    pub updated_by: Address,
    pub timestamp: u64,
}

/// What the lending contract hands to the loan token when it mints a position.
#[derive(Clone, Debug, PartialEq, Eq)]
pub struct NftLoanMetadata {
    pub loan_id: u64,
    pub borrower: Address,
    pub principal: u64,
    pub collateral_amount: u64,
    pub collateral_token: Address,
    pub due_date: u64,
    /// LTV ratio in basis points (e.g. 5000 = 50% loan-to-value).
    pub ltv_ratio_bps: u32,
    /// Inheritance plan the loan NFT is bound to (0 = no plan).
    pub plan_id: u64,
    /// On-chain URI JSON bound to the token, returned by `get_token_uri`.
    pub uri: Vec<u8>,
}

/// The model of [`NftLoanMetadata`].
#[verifier::ext_equal]
pub struct NftLoanMetadataView {
    pub loan_id: u64,
    pub borrower: Address,
    pub principal: u64,
    pub collateral_amount: u64,
    pub collateral_token: Address,
    pub due_date: u64,
    pub ltv_ratio_bps: u32,
    pub plan_id: u64,
    pub uri: Seq<u8>,
}

impl View for NftLoanMetadata {
    type V = NftLoanMetadataView;

    open spec fn view(&self) -> NftLoanMetadataView {
        NftLoanMetadataView {
            loan_id: self.loan_id,
            borrower: self.borrower,
            principal: self.principal,
            collateral_amount: self.collateral_amount,
            collateral_token: self.collateral_token,
            due_date: self.due_date,
            ltv_ratio_bps: self.ltv_ratio_bps,
            plan_id: self.plan_id,
            uri: self.uri@,
        }
    }
}

/// Published as [`LendingEvent`].
#[derive(Clone, Debug, PartialEq, Eq)]
pub struct LoansConsolidatedEvent {
    pub old_loan_ids: Vec<u64>,
    pub new_loan_id: u64,
    pub borrower: Address,
    pub asset: Address,
    pub total_old_principal: u64,
    pub new_principal: u64,
    pub consolidation_fee: u64,
    pub new_due_date: u64,
    pub timestamp: u64,
}

/// The model of [`LoansConsolidatedEvent`].
#[verifier::ext_equal]
pub struct LoansConsolidatedView {
    pub old_loan_ids: Seq<u64>,
    pub new_loan_id: u64,
    pub borrower: Address,
    pub asset: Address,
    pub total_old_principal: u64,
    pub new_principal: u64,
    pub consolidation_fee: u64,
    pub new_due_date: u64,
    pub timestamp: u64,
}

impl View for LoansConsolidatedEvent {
    type V = LoansConsolidatedView;

    open spec fn view(&self) -> LoansConsolidatedView {
        LoansConsolidatedView {
            old_loan_ids: self.old_loan_ids@,
            new_loan_id: self.new_loan_id,
            borrower: self.borrower,
            asset: self.asset,
            total_old_principal: self.total_old_principal,
            new_principal: self.new_principal,
            consolidation_fee: self.consolidation_fee,
            new_due_date: self.new_due_date,
            timestamp: self.timestamp,
        }
    }
}

/// Published as [`LendingEvent`].
#[derive(Clone, Debug, PartialEq, Eq)]
pub struct LoanSplitEvent {
    pub old_loan_id: u64,
    pub new_loan_ids: Vec<u64>,
    pub borrower: Address,
    pub asset: Address,
    pub old_principal: u64,
    pub new_principals: Vec<u64>,
    pub split_fee: u64,
    pub timestamp: u64,
}

/// The model of [`LoanSplitEvent`].
#[verifier::ext_equal]
pub struct LoanSplitView {
    pub old_loan_id: u64,
    pub new_loan_ids: Seq<u64>,
    pub borrower: Address,
    pub asset: Address,
    pub old_principal: u64,
    pub new_principals: Seq<u64>,
    pub split_fee: u64,
    pub timestamp: u64,
}

impl View for LoanSplitEvent {
    type V = LoanSplitView;

    open spec fn view(&self) -> LoanSplitView {
        LoanSplitView {
            old_loan_id: self.old_loan_id,
            new_loan_ids: self.new_loan_ids@,
            borrower: self.borrower,
            asset: self.asset,
            old_principal: self.old_principal,
            new_principals: self.new_principals@,
            split_fee: self.split_fee,
            timestamp: self.timestamp,
        }
    }
}

/// The contracts that the lending contract can be linked to.
#[derive(Clone, Copy, Debug, PartialEq, Eq, Structural)]
pub enum LinkedContract {
    /// Published under the name `INHERIT`.
    Inheritance,
    /// Published under the name `GOV`.
    Governance,
}

/// Published as [`LendingEvent`].
#[derive(Clone, Copy, Debug, PartialEq, Eq, Structural)]
pub struct ContractLinkedEvent {
    pub contract_type: LinkedContract,
    pub address: Address,
}

/// Published as [`LendingEvent`].
#[derive(Clone, Copy, Debug, PartialEq, Eq)]
pub struct ContractUpgradedEvent {
    pub old_version: u32,
    pub new_version: u32,
    pub new_wasm_hash: [u8; 32],
    pub admin: Address,
    pub upgraded_at: u64,
}

/// Why the lending contract refuses a call. Each error has a code.
#[derive(Clone, Copy, Debug, PartialEq, Eq, Structural)]
pub enum LendingError {
    NotInitialized,
    AlreadyInitialized,
    NotAdmin,
    InsufficientLiquidity,
    InsufficientShares,
    NoOpenLoan,
    LoanAlreadyExists,
    InvalidAmount,
    TransferFailed,
    Unauthorized,
    InsufficientCollateral,
    CollateralNotWhitelisted,
    UtilizationCapExceeded,
    ReentrantCall,
    FlashLoanNotRepaid,
    CannotRefinance,
    InvalidRefinanceTerms,
    LoanNotFound,
    TooManyLoans,
    InvalidSplitAmounts,
    InsufficientStake,
    NoRewardsToClaim,
    InvalidRewardRate,
    PoolPaused,
    AssetNotSupported,
    InsuranceAlreadyPurchased,
    InsuranceNotFound,
    InsuranceExpired,
    InsuranceAlreadyClaimed,
    InsufficientInsuranceFund,
    InvalidInsuranceAmount,
    InvalidRateModel,
    ContractPaused,
    PlanYieldNotRegistered,
    NoYieldAccrued,
    PlanYieldInactive,
    InvalidYieldBoost,
    TooManyYieldPositions,
}

impl LendingError {
    /// The code of the error.
    pub open spec fn spec_code(self) -> u32 {
        match self {
            LendingError::NotInitialized => 1,
            LendingError::AlreadyInitialized => 2,
            LendingError::NotAdmin => 3,
            LendingError::InsufficientLiquidity => 4,
            LendingError::InsufficientShares => 5,
            LendingError::NoOpenLoan => 6,
            LendingError::LoanAlreadyExists => 7,
            LendingError::InvalidAmount => 8,
            LendingError::TransferFailed => 9,
            LendingError::Unauthorized => 10,
            LendingError::InsufficientCollateral => 11,
            LendingError::CollateralNotWhitelisted => 12,
            LendingError::UtilizationCapExceeded => 13,
            LendingError::ReentrantCall => 14,
            LendingError::FlashLoanNotRepaid => 15,
            LendingError::CannotRefinance => 16,
            LendingError::InvalidRefinanceTerms => 17,
            LendingError::LoanNotFound => 18,
            LendingError::TooManyLoans => 19,
            LendingError::InvalidSplitAmounts => 20,
            LendingError::InsufficientStake => 21,
            LendingError::NoRewardsToClaim => 22,
            LendingError::InvalidRewardRate => 23,
            LendingError::PoolPaused => 24,
            LendingError::AssetNotSupported => 25,
            LendingError::InsuranceAlreadyPurchased => 26,
            LendingError::InsuranceNotFound => 27,
            LendingError::InsuranceExpired => 28,
            LendingError::InsuranceAlreadyClaimed => 29,
            LendingError::InsufficientInsuranceFund => 30,
            LendingError::InvalidInsuranceAmount => 31,
            LendingError::InvalidRateModel => 32,
            LendingError::ContractPaused => 33,
            LendingError::PlanYieldNotRegistered => 34,
            LendingError::NoYieldAccrued => 35,
            LendingError::PlanYieldInactive => 36,
            LendingError::InvalidYieldBoost => 37,
            LendingError::TooManyYieldPositions => 38,
        }
    }

    /// The code of the error.
    pub fn code(self) -> (code: u32)
        ensures
            code == self.spec_code(),
    {
        match self {
            LendingError::NotInitialized => 1,
            LendingError::AlreadyInitialized => 2,
            LendingError::NotAdmin => 3,
            LendingError::InsufficientLiquidity => 4,
            LendingError::InsufficientShares => 5,
            LendingError::NoOpenLoan => 6,
            LendingError::LoanAlreadyExists => 7,
            LendingError::InvalidAmount => 8,
            LendingError::TransferFailed => 9,
            LendingError::Unauthorized => 10,
            LendingError::InsufficientCollateral => 11,
            LendingError::CollateralNotWhitelisted => 12,
            LendingError::UtilizationCapExceeded => 13,
            LendingError::ReentrantCall => 14,
            LendingError::FlashLoanNotRepaid => 15,
            LendingError::CannotRefinance => 16,
            LendingError::InvalidRefinanceTerms => 17,
            LendingError::LoanNotFound => 18,
            LendingError::TooManyLoans => 19,
            LendingError::InvalidSplitAmounts => 20,
            LendingError::InsufficientStake => 21,
            LendingError::NoRewardsToClaim => 22,
            LendingError::InvalidRewardRate => 23,
            LendingError::PoolPaused => 24,
            LendingError::AssetNotSupported => 25,
            LendingError::InsuranceAlreadyPurchased => 26,
            LendingError::InsuranceNotFound => 27,
            LendingError::InsuranceExpired => 28,
            LendingError::InsuranceAlreadyClaimed => 29,
            LendingError::InsufficientInsuranceFund => 30,
            LendingError::InvalidInsuranceAmount => 31,
            LendingError::InvalidRateModel => 32,
            LendingError::ContractPaused => 33,
            LendingError::PlanYieldNotRegistered => 34,
            LendingError::NoYieldAccrued => 35,
            LendingError::PlanYieldInactive => 36,
            LendingError::InvalidYieldBoost => 37,
            LendingError::TooManyYieldPositions => 38,
        }
    }

    /// The error with the given code; the code itself if it is no error's.
    pub fn try_from(code: u32) -> (error: Result<LendingError, u32>)
        ensures
            match error {
                Ok(e) => e.spec_code() == code,
                Err(c) => c == code && (code == 0 || code > 38),
            },
    {
        match code {
            1 => Ok(LendingError::NotInitialized),
            2 => Ok(LendingError::AlreadyInitialized),
            3 => Ok(LendingError::NotAdmin),
            4 => Ok(LendingError::InsufficientLiquidity),
            5 => Ok(LendingError::InsufficientShares),
            6 => Ok(LendingError::NoOpenLoan),
            7 => Ok(LendingError::LoanAlreadyExists),
            8 => Ok(LendingError::InvalidAmount),
            9 => Ok(LendingError::TransferFailed),
            10 => Ok(LendingError::Unauthorized),
            11 => Ok(LendingError::InsufficientCollateral),
            12 => Ok(LendingError::CollateralNotWhitelisted),
            13 => Ok(LendingError::UtilizationCapExceeded),
            14 => Ok(LendingError::ReentrantCall),
            15 => Ok(LendingError::FlashLoanNotRepaid),
            16 => Ok(LendingError::CannotRefinance),
            17 => Ok(LendingError::InvalidRefinanceTerms),
            18 => Ok(LendingError::LoanNotFound),
            19 => Ok(LendingError::TooManyLoans),
            20 => Ok(LendingError::InvalidSplitAmounts),
            21 => Ok(LendingError::InsufficientStake),
            22 => Ok(LendingError::NoRewardsToClaim),
            23 => Ok(LendingError::InvalidRewardRate),
            24 => Ok(LendingError::PoolPaused),
            25 => Ok(LendingError::AssetNotSupported),
            26 => Ok(LendingError::InsuranceAlreadyPurchased),
            27 => Ok(LendingError::InsuranceNotFound),
            28 => Ok(LendingError::InsuranceExpired),
            29 => Ok(LendingError::InsuranceAlreadyClaimed),
            30 => Ok(LendingError::InsufficientInsuranceFund),
            31 => Ok(LendingError::InvalidInsuranceAmount),
            32 => Ok(LendingError::InvalidRateModel),
            33 => Ok(LendingError::ContractPaused),
            34 => Ok(LendingError::PlanYieldNotRegistered),
            35 => Ok(LendingError::NoYieldAccrued),
            36 => Ok(LendingError::PlanYieldInactive),
            37 => Ok(LendingError::InvalidYieldBoost),
            38 => Ok(LendingError::TooManyYieldPositions),
            _ => Err(code),
        }
    }
}

/// No two errors share a code, and the codes are 1 to 38.
pub proof fn law_error_codes_distinct(a: LendingError, b: LendingError)
    ensures
        a.spec_code() == b.spec_code() ==> a == b,
        1 <= a.spec_code() <= 38,
{
}

/// An event of the lending contract.
#[derive(Clone, Debug, PartialEq, Eq)]
pub enum LendingEvent {
    Deposit(DepositEvent),
    Withdraw(WithdrawEvent),
    Borrow(BorrowEvent),
    CollateralDeposit(CollateralDepositEvent),
    LateFeeCharged(LateFeeChargedEvent),
    Repay(RepayEvent),
    InterestAccrual(InterestAccrualEvent),
    PriorityWithdraw(PriorityWithdrawEvent),
    FlashLoan(FlashLoanEvent),
    Staked(StakedEvent),
    Unstaked(UnstakedEvent),
    RewardsClaimed(RewardsClaimedEvent),
    RewardRateUpdated(RewardRateUpdatedEvent),
    Liquidation(LiquidationEvent),
    LoanRefinanced(LoanRefinancedEvent),
    LoansConsolidated(LoansConsolidatedEvent),
    LoanSplit(LoanSplitEvent),
    BadDebtReserveReplenished(BadDebtReserveReplenishedEvent),
    BadDebtLiquidation(BadDebtLiquidationEvent),
    InsurancePurchased(InsurancePurchasedEvent),
    InsuranceClaimed(InsuranceClaimedEvent),
    InsuranceCancelled(InsuranceCancelledEvent),
    ContractLinked(ContractLinkedEvent),
    PlanYieldRegistered(PlanYieldRegisteredEvent),
    PlanYieldClaimed(PlanYieldClaimedEvent),
    PlanYieldUnregistered(PlanYieldUnregisteredEvent),
    PlanYieldBoostSet(PlanYieldBoostSetEvent),
    RetainedYieldFunded(RetainedYieldFundedEvent),
    RateModelUpdated(RateModelUpdatedEvent),
    WrappedTokenAdded(Address),
    WrappedTokenRemoved(Address),
    ContractUpgraded(ContractUpgradedEvent),
}

/// The model of [`LendingEvent`].
#[verifier::ext_equal]
pub enum LendingEventView {
    Deposit(DepositEvent),
    Withdraw(WithdrawEvent),
    Borrow(BorrowEvent),
    CollateralDeposit(CollateralDepositEvent),
    LateFeeCharged(LateFeeChargedEvent),
    Repay(RepayEvent),
    InterestAccrual(InterestAccrualEvent),
    PriorityWithdraw(PriorityWithdrawEvent),
    FlashLoan(FlashLoanEvent),
    Staked(StakedEvent),
    Unstaked(UnstakedEvent),
    RewardsClaimed(RewardsClaimedEvent),
    RewardRateUpdated(RewardRateUpdatedEvent),
    Liquidation(LiquidationEvent),
    LoanRefinanced(LoanRefinancedEvent),
    LoansConsolidated(LoansConsolidatedView),
    LoanSplit(LoanSplitView),
    BadDebtReserveReplenished(BadDebtReserveReplenishedEvent),
    BadDebtLiquidation(BadDebtLiquidationEvent),
    InsurancePurchased(InsurancePurchasedEvent),
    InsuranceClaimed(InsuranceClaimedEvent),
    InsuranceCancelled(InsuranceCancelledEvent),
    ContractLinked(ContractLinkedEvent),
    PlanYieldRegistered(PlanYieldRegisteredEvent),
    PlanYieldClaimed(PlanYieldClaimedEvent),
    PlanYieldUnregistered(PlanYieldUnregisteredEvent),
    PlanYieldBoostSet(PlanYieldBoostSetEvent),
    RetainedYieldFunded(RetainedYieldFundedEvent),
    RateModelUpdated(RateModelUpdatedEvent),
    WrappedTokenAdded(Address),
    WrappedTokenRemoved(Address),
    ContractUpgraded(ContractUpgradedEvent),
}

impl View for LendingEvent {
    type V = LendingEventView;

    open spec fn view(&self) -> LendingEventView {
        match self {
            LendingEvent::Deposit(e) => LendingEventView::Deposit(*e),
            LendingEvent::Withdraw(e) => LendingEventView::Withdraw(*e),
            LendingEvent::Borrow(e) => LendingEventView::Borrow(*e),
            LendingEvent::CollateralDeposit(e) => LendingEventView::CollateralDeposit(*e),
            LendingEvent::LateFeeCharged(e) => LendingEventView::LateFeeCharged(*e),
            LendingEvent::Repay(e) => LendingEventView::Repay(*e),
            LendingEvent::InterestAccrual(e) => LendingEventView::InterestAccrual(*e),
            LendingEvent::PriorityWithdraw(e) => LendingEventView::PriorityWithdraw(*e),
            LendingEvent::FlashLoan(e) => LendingEventView::FlashLoan(*e),
            LendingEvent::Staked(e) => LendingEventView::Staked(*e),
            LendingEvent::Unstaked(e) => LendingEventView::Unstaked(*e),
            LendingEvent::RewardsClaimed(e) => LendingEventView::RewardsClaimed(*e),
            LendingEvent::RewardRateUpdated(e) => LendingEventView::RewardRateUpdated(*e),
            LendingEvent::Liquidation(e) => LendingEventView::Liquidation(*e),
            LendingEvent::LoanRefinanced(e) => LendingEventView::LoanRefinanced(*e),
            LendingEvent::LoansConsolidated(e) => LendingEventView::LoansConsolidated(e@),
            LendingEvent::LoanSplit(e) => LendingEventView::LoanSplit(e@),
            LendingEvent::BadDebtReserveReplenished(e) => LendingEventView::BadDebtReserveReplenished(*e),
            LendingEvent::BadDebtLiquidation(e) => LendingEventView::BadDebtLiquidation(*e),
            LendingEvent::InsurancePurchased(e) => LendingEventView::InsurancePurchased(*e),
            LendingEvent::InsuranceClaimed(e) => LendingEventView::InsuranceClaimed(*e),
            LendingEvent::InsuranceCancelled(e) => LendingEventView::InsuranceCancelled(*e),
            LendingEvent::ContractLinked(e) => LendingEventView::ContractLinked(*e),
            LendingEvent::PlanYieldRegistered(e) => LendingEventView::PlanYieldRegistered(*e),
            LendingEvent::PlanYieldClaimed(e) => LendingEventView::PlanYieldClaimed(*e),
            LendingEvent::PlanYieldUnregistered(e) => LendingEventView::PlanYieldUnregistered(*e),
            LendingEvent::PlanYieldBoostSet(e) => LendingEventView::PlanYieldBoostSet(*e),
            LendingEvent::RetainedYieldFunded(e) => LendingEventView::RetainedYieldFunded(*e),
            LendingEvent::RateModelUpdated(e) => LendingEventView::RateModelUpdated(*e),
            LendingEvent::WrappedTokenAdded(e) => LendingEventView::WrappedTokenAdded(*e),
            LendingEvent::WrappedTokenRemoved(e) => LendingEventView::WrappedTokenRemoved(*e),
            LendingEvent::ContractUpgraded(e) => LendingEventView::ContractUpgraded(*e),
        }
    }
}

impl LendingEventView {
    /// The two topics under which the event is published.
    pub open spec fn spec_topics(self) -> (Seq<char>, Seq<char>) {
        match self {
            LendingEventView::Deposit(_) => ("POOL"@, "DEPOSIT"@),
            LendingEventView::Withdraw(_) => ("POOL"@, "WITHDRAW"@),
            LendingEventView::Borrow(_) => ("POOL"@, "BORROW"@),
            LendingEventView::CollateralDeposit(_) => ("COLL"@, "DEPOSIT"@),
            LendingEventView::LateFeeCharged(_) => ("POOL"@, "LATEFEE"@),
            LendingEventView::Repay(_) => ("POOL"@, "REPAY"@),
            LendingEventView::InterestAccrual(_) => ("POOL"@, "INTEREST"@),
            LendingEventView::PriorityWithdraw(_) => ("POOL"@, "PRIORITY"@),
            LendingEventView::FlashLoan(_) => ("POOL"@, "FLASHL"@),
            LendingEventView::Staked(_) => ("STAKE"@, "LP"@),
            LendingEventView::Unstaked(_) => ("UNSTAKE"@, "LP"@),
            LendingEventView::RewardsClaimed(_) => ("CLAIM"@, "REWARDS"@),
            LendingEventView::RewardRateUpdated(_) => ("REWARD"@, "RATE_UPD"@),
            LendingEventView::Liquidation(_) => ("POOL"@, "LIQUIDATE"@),
            LendingEventView::LoanRefinanced(_) => ("POOL"@, "REFINANCE"@),
            LendingEventView::LoansConsolidated(_) => ("POOL"@, "CONSOLID"@),
            LendingEventView::LoanSplit(_) => ("POOL"@, "SPLIT"@),
            LendingEventView::BadDebtReserveReplenished(_) => ("POOL"@, "BADDEBR"@),
            LendingEventView::BadDebtLiquidation(_) => ("POOL"@, "BADDEBT"@),
            LendingEventView::InsurancePurchased(_) => ("INS"@, "BOUGHT"@),
            LendingEventView::InsuranceClaimed(_) => ("INS"@, "CLAIM"@),
            LendingEventView::InsuranceCancelled(_) => ("INS"@, "CANC"@),
            LendingEventView::ContractLinked(e) => match e.contract_type {
                LinkedContract::Inheritance => ("LINK"@, "INHERIT"@),
                LinkedContract::Governance => ("LINK"@, "GOV"@),
            },
            LendingEventView::PlanYieldRegistered(_) => ("PLANYLD"@, "REGISTER"@),
            LendingEventView::PlanYieldClaimed(_) => ("PLANYLD"@, "CLAIM"@),
            LendingEventView::PlanYieldUnregistered(_) => ("PLANYLD"@, "UNREG"@),
            LendingEventView::PlanYieldBoostSet(_) => ("PLANYLD"@, "BOOST"@),
            LendingEventView::RetainedYieldFunded(_) => ("PLANYLD"@, "FUND"@),
            LendingEventView::RateModelUpdated(_) => ("RATE"@, "MODEL"@),
            LendingEventView::WrappedTokenAdded(_) => ("wrapped"@, "add"@),
            LendingEventView::WrappedTokenRemoved(_) => ("wrapped"@, "remove"@),
            LendingEventView::ContractUpgraded(_) => ("CONTRACT"@, "UPGRADE"@),
        }
    }
}

impl LendingEvent {
    /// The two topics under which the event is published.
    pub fn topics(&self) -> (topics: (&'static str, &'static str))
        ensures
            topics.0@ == self@.spec_topics().0,
            topics.1@ == self@.spec_topics().1,
    {
        match self {
            LendingEvent::Deposit(_) => ("POOL", "DEPOSIT"),
            LendingEvent::Withdraw(_) => ("POOL", "WITHDRAW"),
            LendingEvent::Borrow(_) => ("POOL", "BORROW"),
            LendingEvent::CollateralDeposit(_) => ("COLL", "DEPOSIT"),
            LendingEvent::LateFeeCharged(_) => ("POOL", "LATEFEE"),
            LendingEvent::Repay(_) => ("POOL", "REPAY"),
            LendingEvent::InterestAccrual(_) => ("POOL", "INTEREST"),
            LendingEvent::PriorityWithdraw(_) => ("POOL", "PRIORITY"),
            LendingEvent::FlashLoan(_) => ("POOL", "FLASHL"),
            LendingEvent::Staked(_) => ("STAKE", "LP"),
            LendingEvent::Unstaked(_) => ("UNSTAKE", "LP"),
            LendingEvent::RewardsClaimed(_) => ("CLAIM", "REWARDS"),
            LendingEvent::RewardRateUpdated(_) => ("REWARD", "RATE_UPD"),
            LendingEvent::Liquidation(_) => ("POOL", "LIQUIDATE"),
            LendingEvent::LoanRefinanced(_) => ("POOL", "REFINANCE"),
            LendingEvent::LoansConsolidated(_) => ("POOL", "CONSOLID"),
            LendingEvent::LoanSplit(_) => ("POOL", "SPLIT"),
            LendingEvent::BadDebtReserveReplenished(_) => ("POOL", "BADDEBR"),
            LendingEvent::BadDebtLiquidation(_) => ("POOL", "BADDEBT"),
            LendingEvent::InsurancePurchased(_) => ("INS", "BOUGHT"),
            LendingEvent::InsuranceClaimed(_) => ("INS", "CLAIM"),
            LendingEvent::InsuranceCancelled(_) => ("INS", "CANC"),
            LendingEvent::ContractLinked(e) => match e.contract_type {
                LinkedContract::Inheritance => ("LINK", "INHERIT"),
                LinkedContract::Governance => ("LINK", "GOV"),
            },
            LendingEvent::PlanYieldRegistered(_) => ("PLANYLD", "REGISTER"),
            LendingEvent::PlanYieldClaimed(_) => ("PLANYLD", "CLAIM"),
            LendingEvent::PlanYieldUnregistered(_) => ("PLANYLD", "UNREG"),
            LendingEvent::PlanYieldBoostSet(_) => ("PLANYLD", "BOOST"),
            LendingEvent::RetainedYieldFunded(_) => ("PLANYLD", "FUND"),
            LendingEvent::RateModelUpdated(_) => ("RATE", "MODEL"),
            LendingEvent::WrappedTokenAdded(_) => ("wrapped", "add"),
            LendingEvent::WrappedTokenRemoved(_) => ("wrapped", "remove"),
            LendingEvent::ContractUpgraded(_) => ("CONTRACT", "UPGRADE"),
        }
    }
}

/// A call that the lending contract makes to another contract.
#[derive(Clone, Debug, PartialEq, Eq)]
pub enum LendingCall {
    /// Moves tokens.
    Transfer { token: Address, from: Address, to: Address, amount: u64 },
    /// Mints the token of a loan to its borrower.
    MintNft { nft: Address, to: Address, metadata: NftLoanMetadata },
    /// Burns the token of a loan.
    BurnNft { nft: Address, loan_id: u64 },
    /// Hands control to the receiver of a flash loan.
    ExecuteOperation { receiver: Address, amount: u64, fee: u64, initiator: Address },
    /// Replaces the code of the contract.
    UpdateWasm { new_wasm_hash: [u8; 32] },
}

/// The model of [`LendingCall`].
#[verifier::ext_equal]
pub enum LendingCallView {
    Transfer { token: Address, from: Address, to: Address, amount: u64 },
    MintNft { nft: Address, to: Address, metadata: NftLoanMetadataView },
    BurnNft { nft: Address, loan_id: u64 },
    ExecuteOperation { receiver: Address, amount: u64, fee: u64, initiator: Address },
    UpdateWasm { new_wasm_hash: [u8; 32] },
}

impl View for LendingCall {
    type V = LendingCallView;

    open spec fn view(&self) -> LendingCallView {
        match *self {
            LendingCall::Transfer { token, from, to, amount } => LendingCallView::Transfer {
                token,
                from,
                to,
                amount,
            },
            LendingCall::MintNft { nft, to, metadata } => LendingCallView::MintNft {
                nft,
                to,
                metadata: metadata@,
            },
            LendingCall::BurnNft { nft, loan_id } => LendingCallView::BurnNft { nft, loan_id },
            LendingCall::ExecuteOperation { receiver, amount, fee, initiator } =>
                LendingCallView::ExecuteOperation { receiver, amount, fee, initiator },
            LendingCall::UpdateWasm { new_wasm_hash } => LendingCallView::UpdateWasm {
                new_wasm_hash,
            },
        }
    }
}

/// The code of every error, by which callers tell them apart.
pub proof fn law_error_codes()
    ensures
        LendingError::NotInitialized.spec_code() == 1,
        LendingError::AlreadyInitialized.spec_code() == 2,
        LendingError::NotAdmin.spec_code() == 3,
        LendingError::InsufficientLiquidity.spec_code() == 4,
        LendingError::InsufficientShares.spec_code() == 5,
        LendingError::NoOpenLoan.spec_code() == 6,
        LendingError::LoanAlreadyExists.spec_code() == 7,
        LendingError::InvalidAmount.spec_code() == 8,
        LendingError::TransferFailed.spec_code() == 9,
        LendingError::Unauthorized.spec_code() == 10,
        LendingError::InsufficientCollateral.spec_code() == 11,
        LendingError::CollateralNotWhitelisted.spec_code() == 12,
        LendingError::UtilizationCapExceeded.spec_code() == 13,
        LendingError::ReentrantCall.spec_code() == 14,
        LendingError::FlashLoanNotRepaid.spec_code() == 15,
        LendingError::CannotRefinance.spec_code() == 16,
        LendingError::InvalidRefinanceTerms.spec_code() == 17,
        LendingError::LoanNotFound.spec_code() == 18,
        LendingError::TooManyLoans.spec_code() == 19,
        LendingError::InvalidSplitAmounts.spec_code() == 20,
        LendingError::InsufficientStake.spec_code() == 21,
        LendingError::NoRewardsToClaim.spec_code() == 22,
        LendingError::InvalidRewardRate.spec_code() == 23,
        LendingError::PoolPaused.spec_code() == 24,
        LendingError::AssetNotSupported.spec_code() == 25,
        LendingError::InsuranceAlreadyPurchased.spec_code() == 26,
        LendingError::InsuranceNotFound.spec_code() == 27,
        LendingError::InsuranceExpired.spec_code() == 28,
        LendingError::InsuranceAlreadyClaimed.spec_code() == 29,
        LendingError::InsufficientInsuranceFund.spec_code() == 30,
        LendingError::InvalidInsuranceAmount.spec_code() == 31,
        LendingError::InvalidRateModel.spec_code() == 32,
        LendingError::ContractPaused.spec_code() == 33,
        LendingError::PlanYieldNotRegistered.spec_code() == 34,
        LendingError::NoYieldAccrued.spec_code() == 35,
        LendingError::PlanYieldInactive.spec_code() == 36,
        LendingError::InvalidYieldBoost.spec_code() == 37,
        LendingError::TooManyYieldPositions.spec_code() == 38,
{
}

/// The topics under which each event is published.
pub proof fn law_topics(event: LendingEventView)
    ensures
        event.spec_topics() == (match event {
            LendingEventView::Deposit(_) => ("POOL"@, "DEPOSIT"@),
            LendingEventView::Withdraw(_) => ("POOL"@, "WITHDRAW"@),
            LendingEventView::Borrow(_) => ("POOL"@, "BORROW"@),
            LendingEventView::CollateralDeposit(_) => ("COLL"@, "DEPOSIT"@),
            LendingEventView::LateFeeCharged(_) => ("POOL"@, "LATEFEE"@),
            LendingEventView::Repay(_) => ("POOL"@, "REPAY"@),
            LendingEventView::InterestAccrual(_) => ("POOL"@, "INTEREST"@),
            LendingEventView::PriorityWithdraw(_) => ("POOL"@, "PRIORITY"@),
            LendingEventView::FlashLoan(_) => ("POOL"@, "FLASHL"@),
            LendingEventView::Staked(_) => ("STAKE"@, "LP"@),
            LendingEventView::Unstaked(_) => ("UNSTAKE"@, "LP"@),
            LendingEventView::RewardsClaimed(_) => ("CLAIM"@, "REWARDS"@),
            LendingEventView::RewardRateUpdated(_) => ("REWARD"@, "RATE_UPD"@),
            LendingEventView::Liquidation(_) => ("POOL"@, "LIQUIDATE"@),
            LendingEventView::LoanRefinanced(_) => ("POOL"@, "REFINANCE"@),
            LendingEventView::LoansConsolidated(_) => ("POOL"@, "CONSOLID"@),
            LendingEventView::LoanSplit(_) => ("POOL"@, "SPLIT"@),
            LendingEventView::BadDebtReserveReplenished(_) => ("POOL"@, "BADDEBR"@),
            LendingEventView::BadDebtLiquidation(_) => ("POOL"@, "BADDEBT"@),
            LendingEventView::InsurancePurchased(_) => ("INS"@, "BOUGHT"@),
            LendingEventView::InsuranceClaimed(_) => ("INS"@, "CLAIM"@),
            LendingEventView::InsuranceCancelled(_) => ("INS"@, "CANC"@),
            LendingEventView::ContractLinked(e) => match e.contract_type {
                LinkedContract::Inheritance => ("LINK"@, "INHERIT"@),
                LinkedContract::Governance => ("LINK"@, "GOV"@),
            },
            LendingEventView::PlanYieldRegistered(_) => ("PLANYLD"@, "REGISTER"@),
            LendingEventView::PlanYieldClaimed(_) => ("PLANYLD"@, "CLAIM"@),
            LendingEventView::PlanYieldUnregistered(_) => ("PLANYLD"@, "UNREG"@),
            LendingEventView::PlanYieldBoostSet(_) => ("PLANYLD"@, "BOOST"@),
            LendingEventView::RetainedYieldFunded(_) => ("PLANYLD"@, "FUND"@),
            LendingEventView::RateModelUpdated(_) => ("RATE"@, "MODEL"@),
            LendingEventView::WrappedTokenAdded(_) => ("wrapped"@, "add"@),
            LendingEventView::WrappedTokenRemoved(_) => ("wrapped"@, "remove"@),
            LendingEventView::ContractUpgraded(_) => ("CONTRACT"@, "UPGRADE"@),
        }),
{
}

} // verus!
