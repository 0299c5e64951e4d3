use inheritx::access::Role;
use inheritx::host::{Address, Env};
use inheritx::lending::state::LendingContract;
use inheritx::lending::types::{
    InsuranceFund, LendingCall, LendingError, LendingEvent, PoolState, RateModel,
};

const YEAR: u64 = 31_536_000;
const DAY: u64 = 86_400;
const START: u64 = 1_000;

const CONTRACT: Address = Address { id: 99 };
const ADMIN: Address = Address { id: 1 };
const DEPOSITOR: Address = Address { id: 2 };
const BORROWER: Address = Address { id: 3 };
const STRANGER: Address = Address { id: 4 };
const RECEIVER: Address = Address { id: 5 };
const NFT: Address = Address { id: 6 };
const INHERITANCE: Address = Address { id: 7 };
const ASSET: Address = Address { id: 10 };
const COLLATERAL: Address = Address { id: 11 };
const OTHER_ASSET: Address = Address { id: 12 };

/// An invocation at `timestamp` that everybody has authorised.
fn at(timestamp: u64) -> Env {
    Env::new(timestamp, CONTRACT, (0..20).map(|id| Address { id }).collect())
}

/// A contract with one pool of the given collateral ratio.
fn initialized(collateral_ratio_bps: u32) -> LendingContract {
    let mut lending = LendingContract::new();
    lending.initialize(&at(START), ADMIN, ASSET, 500, 2_000, collateral_ratio_bps, 8_000).unwrap();
    lending.whitelist_collateral(&at(START), ADMIN, COLLATERAL).unwrap();
    lending
}

/// A contract that holds 100,000 tokens of one depositor.
fn funded(collateral_ratio_bps: u32) -> LendingContract {
    let mut lending = initialized(collateral_ratio_bps);
    lending.deposit(&at(START), DEPOSITOR, ASSET, 100_000, true).unwrap();
    lending
}

/// A contract that has lent 10,000 tokens for a year.
fn lent(collateral_ratio_bps: u32, collateral: u64) -> LendingContract {
    let mut lending = funded(collateral_ratio_bps);
    lending
        .borrow(&at(START), BORROWER, ASSET, 10_000, COLLATERAL, collateral, YEAR, true, true)
        .unwrap();
    lending
}

fn pool_of(lending: &LendingContract) -> PoolState {
    lending.get_pool_for_asset(ASSET).unwrap()
}

fn last_event(lending: &LendingContract) -> &LendingEvent {
    lending.events.items.last().unwrap()
}

fn pool(total_deposits: u64, total_shares: u64) -> PoolState {
    PoolState { total_deposits, total_shares, ..PoolState::fresh(0, 0, 10_000) }
}

// --- Rates and prices ---

#[test]
fn ltv_is_in_basis_points() {
    assert_eq!(LendingContract::calc_ltv_ratio_bps(10_000, 15_000), 6_666);
    assert_eq!(LendingContract::calc_ltv_ratio_bps(10_000, 0), 0);
    assert_eq!(LendingContract::calc_ltv_ratio_bps(u64::MAX, 1), u32::MAX);
}

#[test]
fn loan_token_uri_lists_the_loan() {
    let uri = LendingContract::build_loan_nft_uri(7, 10_000, 15_000, 6_666, 0);
    assert_eq!(
        String::from_utf8(uri).unwrap(),
        "{\"name\":\"InheritX Loan NFT #7\",\"loan_id\":7,\"principal\":10000,\
         \"collateral_amount\":15000,\"ltv_ratio_bps\":6666,\"plan_id\":0,\"due_date\":0}"
    );
}

#[test]
fn numbers_are_written_in_decimal() {
    let mut data = b"n=".to_vec();
    LendingContract::append_u64_to_bytes(&mut data, u64::MAX);
    assert_eq!(data, b"n=18446744073709551615".to_vec());
    let mut zero = Vec::new();
    LendingContract::append_u64_to_bytes(&mut zero, 0);
    assert_eq!(zero, b"0".to_vec());
}

#[test]
fn shares_are_priced_by_the_pool() {
    assert_eq!(LendingContract::shares_for_deposit(&pool(0, 0), 500), 500);
    assert_eq!(LendingContract::shares_for_deposit(&pool(100_630, 100_000), 10_063), 10_000);
    assert_eq!(LendingContract::shares_for_deposit(&pool(100_630, 100_000), 1), 0);
    assert_eq!(LendingContract::assets_for_shares(&pool(0, 0), 500), 0);
    assert_eq!(LendingContract::assets_for_shares(&pool(100_630, 100_000), 99_000), 99_623);
}

#[test]
fn buying_and_selling_shares_never_gains() {
    let pool = pool(100_630, 100_000);
    for amount in [1, 2, 3, 99, 1_000, 12_345, 99_999] {
        let shares = LendingContract::shares_for_deposit(&pool, amount);
        assert!(LendingContract::assets_for_shares(&pool, shares) <= amount);
    }
}

#[test]
fn interest_is_rounded_to_the_nearest_unit() {
    assert_eq!(LendingContract::calculate_interest(10_000, 700, YEAR), 700);
    assert_eq!(LendingContract::calculate_interest(10_000, 700, YEAR + 8 * DAY), 715);
    assert_eq!(LendingContract::calculate_interest(1, 5_000, YEAR), 1);
    assert_eq!(LendingContract::calculate_interest(1, 4_999, YEAR), 0);
    assert_eq!(LendingContract::calculate_interest(10_000, 0, YEAR), 0);
    assert_eq!(LendingContract::calculate_interest(10_000, 700, 0), 0);
    assert_eq!(LendingContract::calculate_interest(u64::MAX, u32::MAX, u64::MAX), 0);
}

#[test]
fn interest_grows_with_time() {
    let mut before = 0;
    for day in 0..100 {
        let interest = LendingContract::calculate_interest(1_000_000, 1_234, day * DAY);
        assert!(interest >= before);
        before = interest;
    }
}

#[test]
fn rates_follow_utilization() {
    assert_eq!(LendingContract::get_utilization_bps(10_000, 100_000), 1_000);
    assert_eq!(LendingContract::get_utilization_bps(10_000, 0), 0);
    assert_eq!(LendingContract::calculate_dynamic_rate(500, 2_000, 1_000), 700);
    assert_eq!(LendingContract::calculate_dynamic_rate(u32::MAX, 2_000, 1_000), u32::MAX);
}

#[test]
fn two_slopes_meet_at_the_optimum() {
    let model = RateModel {
        base_rate_bps: 200,
        optimal_utilization_bps: 8_000,
        slope1_bps: 400,
        slope2_bps: 6_000,
        reserve_factor_bps: 1_000,
    };
    assert_eq!(LendingContract::two_slope_rate(&model, 0), 200);
    assert_eq!(LendingContract::two_slope_rate(&model, 4_000), 400);
    assert_eq!(LendingContract::two_slope_rate(&model, 8_000), 600);
    assert_eq!(LendingContract::two_slope_rate(&model, 9_000), 3_600);
    assert_eq!(LendingContract::two_slope_rate(&model, 10_000), 6_600);
}

#[test]
fn interest_split_adds_up() {
    assert_eq!(LendingContract::calculate_interest_split(715, 1_000), (644, 71));
    assert_eq!(LendingContract::calculate_interest_split(715, 0), (715, 0));
    assert_eq!(LendingContract::calculate_interest_split(715, 20_000), (0, 1_430));
    assert_eq!(LendingContract::simulate_plan_yield(10_000, 700, YEAR), 700);
    assert_eq!(LendingContract::simulate_plan_yield(1, 9_999, YEAR), 0);
}

// --- Pools ---

#[test]
fn calls_need_an_initialized_contract() {
    let mut lending = LendingContract::new();
    assert_eq!(
        lending.deposit(&at(0), DEPOSITOR, ASSET, 5_000, true),
        Err(LendingError::NotInitialized)
    );
    assert_eq!(lending.get_borrow_rate(), Err(LendingError::NotInitialized));
}

#[test]
fn a_contract_is_initialized_once() {
    let mut lending = initialized(15_000);
    assert_eq!(lending.get_admin(), Some(ADMIN));
    assert!(lending.has_role(ADMIN, Role::Admin));
    assert_eq!(lending.get_supported_assets(), vec![ASSET]);
    assert_eq!(
        lending.initialize(&at(START), STRANGER, ASSET, 1, 1, 1, 1),
        Err(LendingError::AlreadyInitialized)
    );
}

#[test]
fn first_deposit_locks_minimum_liquidity() {
    let mut lending = initialized(15_000);
    assert_eq!(lending.deposit(&at(START), DEPOSITOR, ASSET, 100_000, true), Ok(99_000));
    assert_eq!(lending.get_shares_of(ASSET, DEPOSITOR), 99_000);
    let pool = pool_of(&lending);
    assert_eq!((pool.total_deposits, pool.total_shares), (100_000, 100_000));
    assert_eq!(
        lending.calls.items,
        vec![LendingCall::Transfer {
            token: ASSET,
            from: DEPOSITOR,
            to: CONTRACT,
            amount: 100_000
        }]
    );
}

#[test]
fn deposits_are_refused() {
    let mut lending = initialized(15_000);
    let env = at(START);
    assert_eq!(lending.deposit(&env, DEPOSITOR, ASSET, 0, true), Err(LendingError::InvalidAmount));
    assert_eq!(
        lending.deposit(&env, DEPOSITOR, ASSET, 1_000, true),
        Err(LendingError::InvalidAmount)
    );
    assert_eq!(
        lending.deposit(&env, DEPOSITOR, OTHER_ASSET, 5_000, true),
        Err(LendingError::AssetNotSupported)
    );
    assert_eq!(
        lending.deposit(&env, DEPOSITOR, ASSET, 5_000, false),
        Err(LendingError::TransferFailed)
    );
    lending.pause_asset_pool(&env, ADMIN, ASSET, true).unwrap();
    assert_eq!(
        lending.deposit(&env, DEPOSITOR, ASSET, 5_000, true),
        Err(LendingError::PoolPaused)
    );
    lending.pause(&env, ADMIN).unwrap();
    assert_eq!(
        lending.deposit(&env, DEPOSITOR, ASSET, 5_000, true),
        Err(LendingError::ContractPaused)
    );
    assert_eq!(pool_of(&lending).total_deposits, 0);
    assert!(lending.calls.items.is_empty());
}

#[test]
fn withdrawing_a_deposit_gives_it_back() {
    let mut lending = funded(15_000);
    assert_eq!(lending.deposit(&at(START), STRANGER, ASSET, 5_000, true), Ok(5_000));
    assert_eq!(lending.withdraw(&at(START), STRANGER, ASSET, 5_000, true), Ok(5_000));
    assert_eq!(lending.get_shares_of(ASSET, STRANGER), 0);
    let pool = pool_of(&lending);
    assert_eq!((pool.total_deposits, pool.total_shares), (100_000, 100_000));
}

#[test]
fn withdrawals_are_refused() {
    let mut lending = lent(15_000, 15_000);
    let env = at(START);
    assert_eq!(lending.withdraw(&env, DEPOSITOR, ASSET, 0, true), Err(LendingError::InvalidAmount));
    assert_eq!(
        lending.withdraw(&env, DEPOSITOR, ASSET, 99_001, true),
        Err(LendingError::InsufficientShares)
    );
    assert_eq!(
        lending.withdraw(&env, DEPOSITOR, ASSET, 99_000, true),
        Err(LendingError::InsufficientLiquidity)
    );
    assert_eq!(
        lending.withdraw(&env, DEPOSITOR, ASSET, 90_000, false),
        Err(LendingError::TransferFailed)
    );
    assert_eq!(lending.withdraw(&env, DEPOSITOR, ASSET, 90_000, true), Ok(90_000));
}

#[test]
fn pools_are_added_for_other_assets() {
    let mut lending = initialized(15_000);
    let env = at(START);
    assert_eq!(
        lending.add_asset_pool(&env, STRANGER, OTHER_ASSET, 1, 2, 9_000),
        Err(LendingError::NotAdmin)
    );
    lending.add_asset_pool(&env, ADMIN, OTHER_ASSET, 1, 2, 9_000).unwrap();
    assert_eq!(lending.get_supported_assets(), vec![ASSET, OTHER_ASSET]);
    assert_eq!(lending.get_grace_period(OTHER_ASSET), Ok(259_200));
    assert_eq!(lending.get_late_fee_rate(OTHER_ASSET), Ok(500));
    assert_eq!(lending.get_reserve_factor(OTHER_ASSET), Ok(1_000));
}

// --- Loans ---

#[test]
fn a_loan_is_filed_and_paid_out() {
    let mut lending = funded(15_000);
    lending.set_nft_token(&at(START), ADMIN, NFT).unwrap();
    assert_eq!(
        lending.borrow(&at(START), BORROWER, ASSET, 10_000, COLLATERAL, 15_000, YEAR, true, true),
        Ok(1)
    );
    let loan = lending.get_loan(BORROWER).unwrap();
    assert_eq!(loan.interest_rate_bps, 700);
    assert_eq!(loan.due_date, START + YEAR);
    assert_eq!(lending.get_loan_by_id(1), Some(loan));
    assert_eq!(lending.get_user_loan_ids(BORROWER), vec![1]);
    assert_eq!(lending.get_next_loan_id(), 2);
    assert_eq!(pool_of(&lending).total_borrowed, 10_000);
    assert_eq!(lending.available_liquidity(ASSET), Ok(90_000));
    let calls = &lending.calls.items;
    assert_eq!(
        calls[1],
        LendingCall::Transfer {
            token: COLLATERAL,
            from: BORROWER,
            to: CONTRACT,
            amount: 15_000
        }
    );
    assert!(matches!(&calls[2], LendingCall::MintNft { nft, to, metadata }
        if *nft == NFT && *to == BORROWER && metadata.ltv_ratio_bps == 6_666));
    assert_eq!(
        calls[3],
        LendingCall::Transfer { token: ASSET, from: CONTRACT, to: BORROWER, amount: 10_000 }
    );
    assert_eq!(last_event(&lending).topics(), ("COLL", "DEPOSIT"));
}

#[test]
fn loans_are_refused() {
    let mut lending = funded(15_000);
    let env = at(START);
    let mut ask = |amount: u64, token: Address, collateral: u64, paid: bool| {
        lending.borrow(&env, BORROWER, ASSET, amount, token, collateral, YEAR, paid, paid)
    };
    assert_eq!(ask(0, COLLATERAL, 15_000, true), Err(LendingError::InvalidAmount));
    assert_eq!(ask(10_000, COLLATERAL, 0, true), Err(LendingError::InvalidAmount));
    assert_eq!(ask(10_000, ASSET, 15_000, true), Err(LendingError::CollateralNotWhitelisted));
    assert_eq!(ask(10_000, COLLATERAL, 14_999, true), Err(LendingError::InsufficientCollateral));
    assert_eq!(ask(100_001, COLLATERAL, 200_000, true), Err(LendingError::InsufficientLiquidity));
    assert_eq!(ask(80_011, COLLATERAL, 200_000, true), Err(LendingError::UtilizationCapExceeded));
    assert_eq!(ask(10_000, COLLATERAL, 15_000, false), Err(LendingError::TransferFailed));
    assert_eq!(ask(10_000, COLLATERAL, 15_000, true), Ok(1));
    assert_eq!(ask(10_000, COLLATERAL, 15_000, true), Err(LendingError::LoanAlreadyExists));
}

#[test]
fn repayment_divides_the_interest() {
    let mut lending = lent(15_000, 15_000);
    let env = at(START + YEAR);
    assert_eq!(lending.get_repayment_amount(&env, BORROWER), Ok(10_700));
    assert_eq!(lending.calculate_late_fee(&env, BORROWER), Ok(0));
    assert_eq!(
        lending.repay(&env, BORROWER, false, true),
        Err(LendingError::TransferFailed)
    );
    assert_eq!(lending.repay(&env, BORROWER, true, true), Ok(10_700));
    let pool = pool_of(&lending);
    assert_eq!(pool.total_borrowed, 0);
    assert_eq!(pool.total_deposits, 100_630);
    assert_eq!(pool.retained_yield, 35);
    assert_eq!(pool.bad_debt_reserve, 35);
    assert_eq!(lending.get_loan(BORROWER), None);
    assert_eq!(lending.get_user_loan_ids(BORROWER), Vec::<u64>::new());
    assert_eq!(lending.repay(&env, BORROWER, true, true), Err(LendingError::NoOpenLoan));
    assert_eq!(lending.withdraw(&env, DEPOSITOR, ASSET, 99_000, true), Ok(99_623));
}

#[test]
fn an_immediate_repayment_undoes_the_loan() {
    let mut lending = funded(15_000);
    let before = pool_of(&lending);
    lending
        .borrow(&at(START), BORROWER, ASSET, 10_000, COLLATERAL, 15_000, YEAR, true, true)
        .unwrap();
    assert_eq!(lending.repay(&at(START), BORROWER, true, true), Ok(10_000));
    assert_eq!(pool_of(&lending), before);
}

#[test]
fn late_loans_pay_by_the_day() {
    let mut lending = lent(15_000, 15_000);
    let due = START + YEAR;
    assert_eq!(lending.is_in_grace_period(&at(due + 1), BORROWER), Ok(true));
    assert_eq!(lending.calculate_late_fee(&at(due + 4 * DAY - 1), BORROWER), Ok(0));
    assert_eq!(lending.calculate_late_fee(&at(due + 4 * DAY), BORROWER), Ok(500));
    let env = at(due + 8 * DAY);
    assert_eq!(lending.is_in_grace_period(&env, BORROWER), Ok(false));
    assert_eq!(lending.calculate_late_fee(&env, BORROWER), Ok(2_500));
    assert_eq!(lending.get_total_due_with_late_fees(&env, BORROWER), Ok(13_215));
    assert_eq!(lending.repay(&env, BORROWER, true, true), Ok(13_215));
    let pool = pool_of(&lending);
    assert_eq!(pool.total_deposits, 100_000 + 715 - 71);
    assert_eq!(pool.bad_debt_reserve, 35);
    assert_eq!(pool.retained_yield, 36 + 2_500);
}

#[test]
fn interest_accrual_is_announced() {
    let mut lending = lent(15_000, 15_000);
    assert_eq!(lending.emit_interest_accrual(&at(START + YEAR), BORROWER), Ok(700));
    assert!(matches!(last_event(&lending), LendingEvent::InterestAccrual(e)
        if e.interest_accrued == 700 && e.elapsed_seconds == YEAR));
    assert_eq!(
        lending.emit_interest_accrual(&at(START), STRANGER),
        Err(LendingError::NoOpenLoan)
    );
}

#[test]
fn reserves_share_the_accrued_interest() {
    let mut lending = lent(15_000, 15_000);
    lending.set_reserve_factor(&at(START), ADMIN, ASSET, 2_000).unwrap();
    lending.accrue_interest_with_reserve(&at(START + YEAR), 1).unwrap();
    let pool = pool_of(&lending);
    assert_eq!((pool.retained_yield, pool.bad_debt_reserve), (560, 140));
    assert_eq!(lending.get_protocol_revenue(ASSET), Ok(140));
    assert_eq!(
        lending.accrue_interest_with_reserve(&at(START), 7),
        Err(LendingError::LoanNotFound)
    );
    assert_eq!(
        lending.withdraw_reserves(&at(START), ADMIN, ASSET, 141, true),
        Err(LendingError::InsufficientLiquidity)
    );
    assert_eq!(
        lending.withdraw_reserves(&at(START), STRANGER, ASSET, 1, true),
        Err(LendingError::Unauthorized)
    );
    lending.withdraw_reserves(&at(START), ADMIN, ASSET, 100, true).unwrap();
    assert_eq!(lending.get_reserve_balance(ASSET), Ok(40));
}

#[test]
fn retained_yield_is_withdrawn_first() {
    let mut lending = lent(15_000, 15_000);
    lending.repay(&at(START + YEAR), BORROWER, true, true).unwrap();
    let env = at(START + YEAR);
    assert_eq!(
        lending.withdraw_priority(&env, INHERITANCE, ASSET, 36, true),
        Err(LendingError::InsufficientLiquidity)
    );
    assert_eq!(lending.withdraw_priority(&env, INHERITANCE, ASSET, 35, true), Ok(35));
    assert_eq!(pool_of(&lending).retained_yield, 0);
}

// --- Liquidation ---

#[test]
fn healthy_loans_are_not_liquidated() {
    let mut lending = lent(15_000, 15_000);
    assert_eq!(
        lending.liquidate(&at(START + 2 * YEAR), STRANGER, BORROWER, 4_000, true, true),
        Err(LendingError::InvalidAmount)
    );
}

#[test]
fn a_liquidation_seizes_one_and_a_half_times() {
    let mut lending = lent(12_000, 12_000);
    assert_eq!(
        lending.liquidate(&at(START + YEAR), STRANGER, BORROWER, 4_000, true, true),
        Err(LendingError::InvalidAmount)
    );
    let env = at(START + YEAR + 4 * DAY);
    assert_eq!(
        lending.liquidate(&env, STRANGER, BORROWER, 9_000, true, true),
        Err(LendingError::InvalidAmount)
    );
    assert_eq!(
        lending.liquidate(&env, STRANGER, BORROWER, 4_000, false, true),
        Err(LendingError::TransferFailed)
    );
    assert_eq!(lending.liquidate(&env, STRANGER, BORROWER, 4_000, true, true), Ok(6_000));
    assert!(matches!(last_event(&lending), LendingEvent::Liquidation(e)
        if e.collateral_seized == 6_000 && e.health_factor == 12_000));
    let pool = pool_of(&lending);
    assert_eq!((pool.total_borrowed, pool.total_deposits), (6_000, 104_000));
}

#[test]
fn a_loan_is_liquidated_in_parts() {
    let mut lending = lent(12_000, 12_000);
    let env = at(START + YEAR + 4 * DAY);
    assert_eq!(lending.liquidate(&env, STRANGER, BORROWER, 4_000, true, true), Ok(6_000));
    let loan = lending.get_loan(BORROWER).unwrap();
    assert_eq!((loan.principal, loan.collateral_amount), (6_000, 6_000));
    assert_eq!(lending.get_loan_by_id(loan.loan_id), Some(loan));
    assert_eq!(
        lending.liquidate(&env, STRANGER, BORROWER, 4_001, true, true),
        Err(LendingError::InvalidAmount)
    );
    assert_eq!(lending.liquidate(&env, STRANGER, BORROWER, 4_000, true, true), Ok(6_000));
    let loan = lending.get_loan(BORROWER).unwrap();
    assert_eq!((loan.principal, loan.collateral_amount), (2_000, 0));
    assert_eq!(
        lending.liquidate(&env, STRANGER, BORROWER, 1, true, true),
        Err(LendingError::InvalidAmount)
    );
    let pool = pool_of(&lending);
    assert_eq!((pool.total_borrowed, pool.total_deposits), (2_000, 108_000));
}

#[test]
fn bad_debt_is_covered_by_the_reserve() {
    let mut lending = lent(12_000, 12_000);
    let env = at(START + YEAR + 8 * DAY);
    assert_eq!(
        lending.liquidate_bad_debt(&env, ADMIN, BORROWER),
        Err(LendingError::InsufficientLiquidity)
    );
    assert_eq!(lending.replenish_bad_debt_reserve(&env, ADMIN, ASSET, 2_000, true), Ok(2_000));
    assert_eq!(
        lending.liquidate_bad_debt(&env, STRANGER, BORROWER),
        Err(LendingError::NotAdmin)
    );
    assert_eq!(lending.liquidate_bad_debt(&env, ADMIN, BORROWER), Ok(1_215));
    let pool = pool_of(&lending);
    assert_eq!((pool.bad_debt_reserve, pool.total_borrowed), (785, 0));
    assert_eq!(lending.get_loan(BORROWER), None);
}

// --- New terms ---

#[test]
fn refinancing_rolls_the_balance_over() {
    let mut lending = lent(15_000, 15_000);
    let env = at(START + YEAR);
    let terms = lending.get_refinance_terms(&env, BORROWER, YEAR).unwrap();
    assert_eq!((terms.outstanding_balance, terms.refinancing_fee), (10_700, 53));
    assert_eq!((terms.new_principal, terms.new_due_date), (10_753, START + 2 * YEAR));
    assert_eq!(
        lending.refinance_loan(&env, BORROWER, YEAR, false),
        Err(LendingError::TransferFailed)
    );
    assert_eq!(lending.refinance_loan(&env, BORROWER, YEAR, true), Ok(2));
    let loan = lending.get_loan(BORROWER).unwrap();
    assert_eq!((loan.loan_id, loan.principal, loan.collateral_amount), (2, 10_753, 15_000));
    assert_eq!(lending.get_loan_by_id(1), None);
    let pool = pool_of(&lending);
    assert_eq!((pool.total_borrowed, pool.retained_yield), (10_753, 53));
    assert_eq!(
        lending.refinance_loan(&at(START + 3 * YEAR), BORROWER, YEAR, true),
        Err(LendingError::CannotRefinance)
    );
    assert_eq!(LendingContract::get_refinancing_fee_rate(), 50);
}

#[test]
fn a_split_loan_can_be_consolidated_again() {
    let mut lending = lent(15_000, 15_000);
    let env = at(START);
    assert_eq!(
        lending.split_loan(&env, BORROWER, vec![4_000, 6_001], YEAR, true),
        Err(LendingError::InvalidSplitAmounts)
    );
    assert_eq!(
        lending.split_loan(&env, BORROWER, Vec::new(), YEAR, true),
        Err(LendingError::InvalidAmount)
    );
    assert_eq!(lending.split_loan(&env, BORROWER, vec![4_000, 6_000], YEAR, true), Ok(vec![2, 3]));
    assert_eq!(lending.get_loan_by_id(2).unwrap().collateral_amount, 6_000);
    assert_eq!(lending.get_loan_by_id(3).unwrap().collateral_amount, 9_000);
    assert_eq!(lending.get_user_loan_ids(BORROWER), vec![2, 3]);
    assert_eq!(pool_of(&lending).retained_yield, 50);

    assert_eq!(
        lending.consolidate_loans(&env, BORROWER, vec![2, 9], YEAR, true),
        Err(LendingError::LoanNotFound)
    );
    assert_eq!(
        lending.consolidate_loans(&env, STRANGER, vec![2, 3], YEAR, true),
        Err(LendingError::Unauthorized)
    );
    assert_eq!(lending.consolidate_loans(&env, BORROWER, vec![2, 3], YEAR, true), Ok(4));
    let loan = lending.get_loan(BORROWER).unwrap();
    assert_eq!((loan.loan_id, loan.principal, loan.collateral_amount), (4, 10_050, 15_000));
    assert_eq!(lending.get_user_loan_ids(BORROWER), vec![4]);
    assert_eq!(pool_of(&lending).retained_yield, 100);
}

#[test]
fn split_collateral_is_rounded_down() {
    assert_eq!(LendingContract::collateral_for_part(10_000, 15_000, 3_333), 4_999);
    assert_eq!(LendingContract::collateral_for_part(3, 10, 1), 3);
}

// --- Staking ---

#[test]
fn stakes_earn_over_time() {
    let mut lending = funded(15_000);
    assert_eq!(
        lending.stake_lp_tokens(&at(START), DEPOSITOR, ASSET, 99_001),
        Err(LendingError::InsufficientShares)
    );
    lending.stake_lp_tokens(&at(START), DEPOSITOR, ASSET, 1_000).unwrap();
    assert_eq!(lending.get_pending_rewards(&at(START), DEPOSITOR, ASSET), 0);
    assert_eq!(
        lending.claim_rewards(&at(START), DEPOSITOR, ASSET),
        Err(LendingError::NoRewardsToClaim)
    );
    assert_eq!(lending.get_total_staked(&at(START), ASSET), 1_000);
    assert_eq!(lending.get_reward_rate(&at(START), ASSET), 1_000_000_000);
    assert_eq!(lending.claim_rewards(&at(START + 10), DEPOSITOR, ASSET), Ok(10_000));
    assert_eq!(last_event(&lending).topics(), ("CLAIM", "REWARDS"));
}

#[test]
fn a_claim_leaves_the_last_span_open() {
    let mut lending = funded(15_000);
    lending.stake_lp_tokens(&at(START), DEPOSITOR, ASSET, 1_000).unwrap();
    let env = at(START + 10);
    assert_eq!(lending.claim_rewards(&env, DEPOSITOR, ASSET), Ok(10_000));
    assert_eq!(lending.claim_rewards(&env, DEPOSITOR, ASSET), Ok(10_000));
    assert_eq!(
        lending.claim_rewards(&env, DEPOSITOR, ASSET),
        Err(LendingError::NoRewardsToClaim)
    );
    assert_eq!(lending.get_pending_rewards(&at(START + 12), DEPOSITOR, ASSET), 2_000);
    assert_eq!(lending.claim_rewards(&at(START + 12), DEPOSITOR, ASSET), Ok(2_000));
    assert_eq!(lending.get_pending_rewards(&at(START + 12), DEPOSITOR, ASSET), 0);
}

#[test]
fn a_partial_unstake_leaves_the_last_span_open() {
    let mut lending = funded(15_000);
    lending.stake_lp_tokens(&at(START), DEPOSITOR, ASSET, 1_000).unwrap();
    let env = at(START + 10);
    lending.unstake_lp_tokens(&env, DEPOSITOR, ASSET, 400).unwrap();
    assert!(matches!(last_event(&lending), LendingEvent::Unstaked(e)
        if e.rewards_claimed == 10_000));
    assert_eq!(lending.get_pending_rewards(&env, DEPOSITOR, ASSET), 6_000);
}

#[test]
fn unstaking_gives_the_stake_back() {
    let mut lending = funded(15_000);
    lending.stake_lp_tokens(&at(START), DEPOSITOR, ASSET, 1_000).unwrap();
    assert_eq!(
        lending.unstake_lp_tokens(&at(START), DEPOSITOR, ASSET, 1_001),
        Err(LendingError::InsufficientStake)
    );
    assert_eq!(
        lending.unstake_lp_tokens(&at(START), STRANGER, ASSET, 1),
        Err(LendingError::InsufficientStake)
    );
    lending.unstake_lp_tokens(&at(START + 5), DEPOSITOR, ASSET, 1_000).unwrap();
    assert_eq!(lending.get_staked_balance(DEPOSITOR, ASSET), 0);
    assert_eq!(lending.get_total_staked(&at(START + 5), ASSET), 0);
    assert!(matches!(last_event(&lending), LendingEvent::Unstaked(e)
        if e.rewards_claimed == 5_000));
    assert_eq!(lending.get_pending_rewards(&at(START + 50), DEPOSITOR, ASSET), 0);
    assert_eq!(
        lending.claim_rewards(&at(START + 50), DEPOSITOR, ASSET),
        Err(LendingError::NoRewardsToClaim)
    );
}

#[test]
fn the_reward_rate_belongs_to_the_admin() {
    let mut lending = funded(15_000);
    assert_eq!(
        lending.set_reward_rate(&at(START), STRANGER, ASSET, 7),
        Err(LendingError::NotAdmin)
    );
    lending.set_reward_rate(&at(START), ADMIN, ASSET, 2_000_000_000).unwrap();
    lending.stake_lp_tokens(&at(START), DEPOSITOR, ASSET, 1_000).unwrap();
    assert_eq!(lending.get_pending_rewards(&at(START + 10), DEPOSITOR, ASSET), 20_000);
}

// --- Insurance ---

#[test]
fn insurance_covers_the_principal() {
    let mut lending = lent(15_000, 15_000);
    let env = at(START);
    assert_eq!(lending.get_insurance_premium(10_000), Ok(200));
    assert_eq!(
        lending.purchase_loan_insurance(&env, BORROWER, 9, true),
        Err(LendingError::LoanNotFound)
    );
    assert_eq!(
        lending.purchase_loan_insurance(&env, STRANGER, 1, true),
        Err(LendingError::Unauthorized)
    );
    assert_eq!(
        lending.purchase_loan_insurance(&env, BORROWER, 1, false),
        Err(LendingError::TransferFailed)
    );
    assert_eq!(lending.purchase_loan_insurance(&env, BORROWER, 1, true), Ok(200));
    assert_eq!(
        lending.purchase_loan_insurance(&env, BORROWER, 1, true),
        Err(LendingError::InsuranceAlreadyPurchased)
    );
    assert_eq!(lending.is_loan_insured(&env, 1), Ok(true));
    assert_eq!(lending.get_insurance_coverage(&env, 1), Ok(10_000));
    let expires = START + YEAR + 3 * DAY;
    assert_eq!(lending.get_insurance_details(1).unwrap().unwrap().expires_at, expires);
    assert_eq!(lending.is_loan_insured(&at(expires), 1), Ok(false));
}

#[test]
fn insurance_is_paid_once() {
    let mut lending = lent(15_000, 15_000);
    let (env, late) = (at(START), at(START + YEAR + 4 * DAY));
    assert_eq!(lending.claim_insurance(&late, 1), Err(LendingError::InsuranceNotFound));
    lending.purchase_loan_insurance(&env, BORROWER, 1, true).unwrap();
    assert_eq!(lending.claim_insurance(&env, 1), Err(LendingError::InvalidAmount));
    assert_eq!(lending.claim_insurance(&late, 1), Err(LendingError::InsufficientInsuranceFund));
    lending.deposit_to_insurance_fund(&env, ADMIN, 10_000, true).unwrap();
    assert_eq!(lending.claim_insurance(&late, 1), Ok(10_000));
    assert_eq!(lending.claim_insurance(&late, 1), Err(LendingError::InsuranceAlreadyClaimed));
    let fund: InsuranceFund = lending.get_insurance_fund_state().unwrap();
    assert_eq!((fund.available_balance, fund.total_claims_paid), (200, 10_000));
    assert_eq!(
        lending.withdraw_from_insurance_fund(&env, ADMIN, 201),
        Err(LendingError::InsufficientLiquidity)
    );
    lending.withdraw_from_insurance_fund(&env, ADMIN, 200).unwrap();
}

#[test]
fn a_cancelled_insurance_is_refunded_pro_rata() {
    let mut lending = lent(15_000, 15_000);
    lending.purchase_loan_insurance(&at(START), BORROWER, 1, true).unwrap();
    let half = START + (YEAR + 3 * DAY) / 2;
    assert_eq!(
        lending.cancel_insurance(&at(half), STRANGER, 1),
        Err(LendingError::Unauthorized)
    );
    assert_eq!(lending.cancel_insurance(&at(half), BORROWER, 1), Ok(100));
    assert_eq!(
        lending.cancel_insurance(&at(half), BORROWER, 1),
        Err(LendingError::InsuranceNotFound)
    );
    assert_eq!(lending.get_insurance_fund_state().unwrap().available_balance, 100);
}

#[test]
fn tiny_loans_cannot_be_insured() {
    let mut lending = funded(15_000);
    lending
        .borrow(&at(START), BORROWER, ASSET, 49, COLLATERAL, 100, YEAR, true, true)
        .unwrap();
    assert_eq!(
        lending.purchase_loan_insurance(&at(START), BORROWER, 1, true),
        Err(LendingError::InvalidInsuranceAmount)
    );
}

// --- Flash loans ---

#[test]
fn a_flash_loan_pays_its_fee() {
    let mut lending = funded(15_000);
    let env = at(START);
    assert_eq!(
        lending.flash_loan(&env, STRANGER, RECEIVER, ASSET, 50_000, 100_000, 100_045),
        Err(LendingError::Unauthorized)
    );
    lending.whitelist_flash_loan_receiver(&env, ADMIN, RECEIVER).unwrap();
    assert_eq!(
        lending.flash_loan(&env, STRANGER, RECEIVER, ASSET, 50_000, 100_000, 100_044),
        Err(LendingError::FlashLoanNotRepaid)
    );
    assert_eq!(pool_of(&lending).total_deposits, 100_000);
    assert_eq!(lending.flash_loan(&env, STRANGER, RECEIVER, ASSET, 50_000, 100_000, 100_045), Ok(()));
    assert_eq!(pool_of(&lending).total_deposits, 100_045);
    assert_eq!(last_event(&lending).topics(), ("POOL", "FLASHL"));
}

#[test]
fn a_flash_loan_bars_reentry() {
    let mut lending = funded(15_000);
    let env = at(START);
    lending.whitelist_flash_loan_receiver(&env, ADMIN, RECEIVER).unwrap();
    let loan = lending.start_flash_loan(&env, STRANGER, RECEIVER, ASSET, 10_000).unwrap();
    assert_eq!(loan.fee, 9);
    assert_eq!(
        lending.deposit(&env, DEPOSITOR, ASSET, 5_000, true),
        Err(LendingError::ReentrantCall)
    );
    assert_eq!(
        lending.start_flash_loan(&env, STRANGER, RECEIVER, ASSET, 1),
        Err(LendingError::ReentrantCall)
    );
    lending.settle_flash_loan(loan, 100_000, 100_009).unwrap();
    assert_eq!(lending.deposit(&env, DEPOSITOR, ASSET, 5_000, true), Ok(4_999));
}

#[test]
fn a_flash_loan_closes_every_door() {
    let mut lending = yielding(1_000);
    let env = at(START + 5 * DAY);
    lending.stake_lp_tokens(&at(START), DEPOSITOR, ASSET, 1_000).unwrap();
    lending.register_plan_yield(&at(START), INHERITANCE, 1, ASSET, 20_000).unwrap();
    lending.whitelist_flash_loan_receiver(&env, ADMIN, RECEIVER).unwrap();
    let events = lending.events.items.len();
    let loan = lending.start_flash_loan(&env, STRANGER, RECEIVER, ASSET, 10_000).unwrap();
    let refused = Err(LendingError::ReentrantCall);
    assert_eq!(lending.stake_lp_tokens(&env, DEPOSITOR, ASSET, 1), refused);
    assert_eq!(lending.unstake_lp_tokens(&env, DEPOSITOR, ASSET, 1), refused);
    assert_eq!(lending.claim_rewards(&env, DEPOSITOR, ASSET), Err(LendingError::ReentrantCall));
    assert_eq!(
        lending.purchase_loan_insurance(&env, BORROWER, 1, true),
        Err(LendingError::ReentrantCall)
    );
    assert_eq!(lending.claim_insurance(&env, 1), Err(LendingError::ReentrantCall));
    assert_eq!(lending.cancel_insurance(&env, BORROWER, 1), Err(LendingError::ReentrantCall));
    assert_eq!(lending.get_insurance_premium(10_000), Err(LendingError::ReentrantCall));
    assert_eq!(lending.get_insurance_fund_state(), Err(LendingError::ReentrantCall));
    assert_eq!(lending.deposit_to_insurance_fund(&env, ADMIN, 5, true), refused);
    assert_eq!(lending.register_plan_yield(&env, INHERITANCE, 2, ASSET, 5), refused);
    assert_eq!(lending.claim_plan_yield(&env, INHERITANCE, 1), Err(LendingError::ReentrantCall));
    assert_eq!(
        lending.claim_plan_yield_batch(&env, INHERITANCE, vec![1]),
        Err(LendingError::ReentrantCall)
    );
    assert_eq!(lending.unregister_plan_yield(&env, INHERITANCE, 1), refused);
    assert_eq!(lending.set_reserve_factor(&env, ADMIN, ASSET, 100), refused);
    assert_eq!(lending.accrue_interest_with_reserve(&env, 1), refused);
    assert_eq!(lending.emit_interest_accrual(&env, BORROWER), Err(LendingError::ReentrantCall));
    assert_eq!(lending.pause(&env, ADMIN), refused);
    assert_eq!(lending.assign_role(&env, ADMIN, STRANGER, Role::Admin), refused);
    assert_eq!(
        lending.initialize(&env, ADMIN, ASSET, 500, 2_000, 15_000, 8_000),
        refused
    );
    assert_eq!(
        lending.get_pending_rewards(&env, DEPOSITOR, ASSET),
        5 * DAY * 1_000
    );
    assert_eq!(lending.events.items.len(), events);
    lending.settle_flash_loan(loan, 91_000, 91_009).unwrap();
    lending.unstake_lp_tokens(&env, DEPOSITOR, ASSET, 1).unwrap();
}

// --- Yield of plans ---

/// A pool whose depositors earn 63 basis points a year, with some yield to
/// give out.
fn yielding(retained: u64) -> LendingContract {
    let mut lending = lent(15_000, 15_000);
    lending.set_inheritance_contract(&at(START), ADMIN, INHERITANCE).unwrap();
    lending.fund_retained_yield(&at(START), INHERITANCE, ASSET, retained, true).unwrap();
    lending
}

#[test]
fn a_plan_earns_the_supply_rate() {
    let mut lending = yielding(1_000);
    assert_eq!(lending.get_supply_rate(), Ok(63));
    assert_eq!(
        lending.register_plan_yield(&at(START), STRANGER, 1, ASSET, 20_000),
        Err(LendingError::Unauthorized)
    );
    lending.register_plan_yield(&at(START), INHERITANCE, 1, ASSET, 20_000).unwrap();
    assert_eq!(lending.get_plan_yield_rate(1), Ok(63));
    assert_eq!(lending.get_accrued_plan_yield(&at(START + YEAR), 1), Ok(126));
    assert_eq!(lending.project_plan_yield(1, YEAR / 2), Ok(63));
    assert_eq!(lending.claim_plan_yield(&at(START + YEAR), INHERITANCE, 1), Ok(126));
    assert_eq!(
        lending.claim_plan_yield(&at(START + YEAR), INHERITANCE, 1),
        Err(LendingError::NoYieldAccrued)
    );
    let position = lending.get_plan_yield_position(1).unwrap();
    assert_eq!((position.total_harvested, position.harvest_count), (126, 1));
    assert_eq!(pool_of(&lending).retained_yield, 874);
}

#[test]
fn a_claim_is_bounded_by_the_retained_yield() {
    let mut lending = yielding(100);
    lending.register_plan_yield(&at(START), INHERITANCE, 1, ASSET, 20_000).unwrap();
    assert_eq!(lending.claim_plan_yield(&at(START + YEAR), INHERITANCE, 1), Ok(100));
    assert_eq!(pool_of(&lending).retained_yield, 0);
}

#[test]
fn boosts_are_bounded() {
    let mut lending = yielding(1_000);
    lending.register_plan_yield(&at(START), INHERITANCE, 1, ASSET, 20_000).unwrap();
    assert_eq!(
        lending.set_plan_yield_boost(&at(START), ADMIN, 1, 2_001),
        Err(LendingError::InvalidYieldBoost)
    );
    assert_eq!(
        lending.set_plan_yield_boost(&at(START), ADMIN, 2, 37),
        Err(LendingError::PlanYieldNotRegistered)
    );
    lending.set_plan_yield_boost(&at(START), ADMIN, 1, 37).unwrap();
    assert_eq!(lending.get_plan_yield_rate(1), Ok(100));
    assert_eq!(lending.get_accrued_plan_yield(&at(START + YEAR), 1), Ok(200));
}

#[test]
fn registering_again_keeps_the_totals() {
    let mut lending = yielding(1_000);
    lending.register_plan_yield(&at(START), INHERITANCE, 1, ASSET, 20_000).unwrap();
    lending.claim_plan_yield(&at(START + YEAR), INHERITANCE, 1).unwrap();
    lending.unregister_plan_yield(&at(START + YEAR), INHERITANCE, 1).unwrap();
    assert_eq!(lending.get_accrued_plan_yield(&at(START + 2 * YEAR), 1), Ok(0));
    assert_eq!(
        lending.claim_plan_yield(&at(START + 2 * YEAR), INHERITANCE, 1),
        Err(LendingError::PlanYieldInactive)
    );
    lending.register_plan_yield(&at(START + 2 * YEAR), INHERITANCE, 1, ASSET, 5_000).unwrap();
    let position = lending.get_plan_yield_position(1).unwrap();
    assert_eq!((position.total_harvested, position.registered_at), (126, START));
    assert_eq!(lending.get_registered_plan_ids(), vec![1]);
    assert_eq!(lending.get_plan_yield_count(), 1);
}

#[test]
fn a_batch_of_claims_skips_the_refused() {
    let mut lending = yielding(1_000);
    lending.register_plan_yield(&at(START), INHERITANCE, 1, ASSET, 20_000).unwrap();
    lending.register_plan_yield(&at(START), INHERITANCE, 3, ASSET, 10_000).unwrap();
    let env = at(START + YEAR);
    assert_eq!(
        lending.claim_plan_yield_batch(&env, INHERITANCE, vec![1, 2, 3, 1]),
        Ok(vec![126, 0, 63, 0])
    );
    assert_eq!(
        lending.claim_plan_yield_batch(&env, INHERITANCE, vec![1; 26]),
        Err(LendingError::TooManyYieldPositions)
    );
    let stats = lending.get_plan_yield_stats(ASSET).unwrap();
    assert_eq!((stats.position_count, stats.total_principal), (2, 30_000));
    assert_eq!((stats.total_harvested, stats.available_yield), (189, 811));
}

// --- Administration ---

#[test]
fn a_rate_model_replaces_the_pool_rates() {
    let mut lending = lent(15_000, 15_000);
    let env = at(START);
    assert_eq!(
        lending.set_rate_model(&env, ADMIN, 200, 10_000, 400, 6_000, 1_000),
        Err(LendingError::InvalidRateModel)
    );
    lending.set_rate_model(&env, ADMIN, 200, 8_000, 400, 6_000, 1_000).unwrap();
    assert_eq!(lending.get_base_rate(), Ok(200));
    assert_eq!(lending.get_optimal_utilization(), Ok(8_000));
    assert_eq!(lending.get_slope1(), Ok(400));
    assert_eq!(lending.get_slope2(), Ok(6_000));
    assert_eq!(lending.get_borrow_rate(), Ok(250));
    assert_eq!(lending.simulate_rate(9_000), Ok(3_600));
    assert_eq!(lending.get_supply_rate(), Ok(22));
}

#[test]
fn a_plan_is_owned_as_the_linked_contract_says() {
    let mut lending = initialized(15_000);
    assert_eq!(lending.plan_ownership_query(1, STRANGER), None);
    assert!(!lending.verify_plan_ownership(1, STRANGER, true));
    lending.set_inheritance_contract(&at(START), ADMIN, INHERITANCE).unwrap();
    assert_eq!(lending.plan_ownership_query(1, STRANGER), Some((INHERITANCE, 1, STRANGER)));
    assert!(lending.verify_plan_ownership(1, STRANGER, true));
    assert!(!lending.verify_plan_ownership(1, STRANGER, false));
}

#[test]
fn wrapped_tokens_are_listed() {
    let mut lending = initialized(15_000);
    let env = at(START);
    lending.add_supported_wrapped_token(&env, ADMIN, OTHER_ASSET).unwrap();
    assert_eq!(
        lending.add_supported_wrapped_token(&env, ADMIN, OTHER_ASSET),
        Err(LendingError::AssetNotSupported)
    );
    assert!(lending.is_wrapped_token_supported(OTHER_ASSET));
    assert_eq!(lending.get_wrapped_tokens(), vec![OTHER_ASSET]);
    lending.remove_wrapped_token(&env, ADMIN, OTHER_ASSET).unwrap();
    assert!(!lending.is_wrapped_token_supported(OTHER_ASSET));
}

#[test]
fn an_upgrade_moves_the_version_on() {
    let mut lending = funded(15_000);
    assert_eq!(lending.version(), 1);
    assert_eq!(lending.upgrade(&at(START), STRANGER, [7; 32]), Err(LendingError::NotAdmin));
    lending.upgrade(&at(START), ADMIN, [7; 32]).unwrap();
    assert_eq!(lending.version(), 2);
    assert_eq!(lending.get_shares_of(ASSET, DEPOSITOR), 99_000);
    assert_eq!(
        *lending.calls.items.last().unwrap(),
        LendingCall::UpdateWasm { new_wasm_hash: [7; 32] }
    );
}

#[test]
fn roles_are_given_and_taken() {
    let mut lending = initialized(15_000);
    let env = at(START);
    lending.assign_role(&env, ADMIN, STRANGER, Role::Admin).unwrap();
    assert_eq!(lending.get_roles(STRANGER), vec![Role::Admin]);
    lending.pause(&env, STRANGER).unwrap();
    assert!(lending.is_paused());
    lending.unpause(&env, STRANGER).unwrap();
    lending.revoke_role(&env, ADMIN, STRANGER, Role::Admin).unwrap();
    assert_eq!(lending.pause(&env, STRANGER), Err(LendingError::NotAdmin));
}

#[test]
fn lending_error_codes_round_trip() {
    for code in 1..=38 {
        assert_eq!(LendingError::try_from(code).unwrap().code(), code);
    }
    assert_eq!(LendingError::NotInitialized.code(), 1);
    assert_eq!(LendingError::try_from(0), Err(0));
    assert_eq!(LendingError::try_from(1_000), Err(1_000));
}
