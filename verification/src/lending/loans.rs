//! Taking out and repaying loans.
use vstd::prelude::*;

use crate::host::{Address, Env};
use crate::lending::pools::liquidity;
use crate::lending::rates::{interest, linear_rate, loan_nft_uri, ltv_bps, utilization};
use crate::lending::state::{
    ids_of, lemma_pool_update, loans_on_file, LendingContract, LendingView,
};
use crate::lending::types::{
    BorrowEvent, CollateralDepositEvent, InterestAccrualEvent, LateFeeChargedEvent, LendingCall,
    LendingCallView, LendingError, LendingEvent, LendingEventView, LoanRecord, NftLoanMetadata,
    NftLoanMetadataView, PoolState, RepayEvent,
};
use crate::list::{
    lemma_push_contains, lemma_without_contains, lemma_without_distinct, list_without, without,
};
use crate::math::{
    bps_share, low64, product, saturating_difference, share_bps, take_low64, SECONDS_PER_DAY,
};

verus! {

/// Part of the interest that the protocol retains: 10%.
pub const PROTOCOL_INTEREST_BPS: u32 = 1000;

/// Part of the protocol's interest that goes to the bad debt reserve: 50%.
pub const BAD_DEBT_RESERVE_BPS: u32 = 5000;

/// Interest on a loan up to now.
pub open spec fn loan_interest(now: u64, loan: LoanRecord) -> u64 {
    interest(loan.principal, loan.interest_rate_bps, saturating_difference(now, loan.borrow_time))
}

/// Principal and interest of a loan now.
pub open spec fn outstanding(now: u64, loan: LoanRecord) -> int {
    loan.principal + loan_interest(now, loan)
}

/// What the loan token records of a loan.
pub open spec fn nft_metadata(loan: LoanRecord) -> NftLoanMetadataView {
    let ltv_ratio_bps = ltv_bps(loan.principal, loan.collateral_amount);
    NftLoanMetadataView {
        loan_id: loan.loan_id,
        borrower: loan.borrower,
        principal: loan.principal,
        collateral_amount: loan.collateral_amount,
        collateral_token: loan.collateral_token,
        due_date: loan.due_date,
        ltv_ratio_bps,
        plan_id: 0,
        uri: loan_nft_uri(
            loan.loan_id,
            loan.principal,
            loan.collateral_amount,
            ltv_ratio_bps,
            loan.due_date,
        ),
    }
}

/// The protocol's part of the interest of a repaid loan.
pub open spec fn protocol_share(amount: u64) -> u64 {
    bps_share(amount, PROTOCOL_INTEREST_BPS)
}

/// The part of the protocol's interest that the bad debt reserve gets.
pub open spec fn reserve_share(amount: u64) -> u64 {
    bps_share(protocol_share(amount), BAD_DEBT_RESERVE_BPS)
}

impl LendingView {
    /// Whether a token is accepted as collateral.
    pub open spec fn accepts_collateral(self, token: Address) -> bool {
        self.whitelisted_collateral.contains_key(token) && self.whitelisted_collateral[token]
    }

    /// Collateral that a loan needs.
    pub open spec fn required_collateral(self, amount: u64) -> u64 {
        bps_share(amount, self.collateral_ratio_bps)
    }

    /// The rate at which a pool lends by its own line.
    pub open spec fn current_rate(self, asset: Address) -> u32 {
        let pool = self.pools[asset];
        linear_rate(
            pool.base_rate_bps,
            pool.multiplier_bps,
            utilization(pool.total_borrowed, pool.total_deposits),
        )
    }

    /// When the grace period of a loan ends.
    pub open spec fn grace_end(self, loan: LoanRecord) -> int {
        loan.due_date + self.pools[loan.asset].grace_period_seconds
    }

    /// Why the end of a loan's grace period cannot be told.
    pub open spec fn grace_error(self, loan: LoanRecord) -> Option<LendingError> {
        if !self.pools.contains_key(loan.asset) {
            Some(LendingError::AssetNotSupported)
        } else if self.grace_end(loan) > u64::MAX {
            Some(LendingError::InvalidAmount)
        } else {
            None
        }
    }

    /// Full days that a loan is past its grace period.
    pub open spec fn days_overdue(self, now: u64, loan: LoanRecord) -> int {
        if now <= self.grace_end(loan) {
            0
        } else {
            (now - self.grace_end(loan)) / 86_400
        }
    }

    /// Late fee of a loan: a daily share of the principal for each full day past
    /// the grace period, unless a fee was fixed for the loan.
    pub open spec fn late_fee(self, now: u64, loan: LoanRecord) -> u64 {
        let days = self.days_overdue(now, loan);
        let fixed = self.late_fees_accrued;
        if days == 0 {
            0
        } else if fixed.contains_key(loan.loan_id) && fixed[loan.loan_id] > 0 {
            fixed[loan.loan_id]
        } else {
            low64(bps_share(loan.principal, self.pools[loan.asset].late_fee_rate_bps) * days)
        }
    }

    /// Principal, interest and late fee of a loan.
    pub open spec fn total_due(self, now: u64, loan: LoanRecord) -> int {
        outstanding(now, loan) + self.late_fee(now, loan)
    }

    /// Why the late fee of a borrower cannot be told.
    pub open spec fn late_fee_error(self, borrower: Address) -> Option<LendingError> {
        if self.admin is None {
            Some(LendingError::NotInitialized)
        } else if !self.loans.contains_key(borrower) {
            Some(LendingError::NoOpenLoan)
        } else {
            self.grace_error(self.loans[borrower])
        }
    }

    /// The contract after a loan was put on file, as its borrower's primary loan.
    pub open spec fn filed(self, loan: LoanRecord) -> LendingView {
        LendingView {
            loans: self.loans.insert(loan.borrower, loan),
            loans_by_id: self.loans_by_id.insert(loan.loan_id, loan),
            user_loans: self.user_loans.insert(
                loan.borrower,
                self.loans_of(loan.borrower).push(loan.loan_id),
            ),
            next_loan_id: (self.next_loan_id + 1) as u64,
            ..self
        }
    }

    /// The contract after the token of a loan was minted, if there is a token contract.
    pub open spec fn with_minted(self, loan: LoanRecord) -> LendingView {
        match self.nft_token {
            Some(nft) => self.with_call(
                LendingCallView::MintNft { nft, to: loan.borrower, metadata: nft_metadata(loan) },
            ),
            None => self,
        }
    }

    /// The contract after the token of a loan was burnt, if there is a token contract.
    pub open spec fn with_burnt(self, loan_id: u64) -> LendingView {
        match self.nft_token {
            Some(nft) => self.with_call(LendingCallView::BurnNft { nft, loan_id }),
            None => self,
        }
    }

    /// The contract after a loan was taken off file. The borrower has no primary
    /// loan then.
    pub open spec fn unfiled(self, borrower: Address, loan_id: u64) -> LendingView {
        let rest = without(self.loans_of(borrower), loan_id);
        LendingView {
            loans: self.loans.remove(borrower),
            loans_by_id: self.loans_by_id.remove(loan_id),
            user_loans: if rest.len() == 0 {
                self.user_loans.remove(borrower)
            } else {
                self.user_loans.insert(borrower, rest)
            },
            ..self
        }
    }

    /// Why a loan is refused. The last two arguments are whether the collateral
    /// arrived and whether the tokens could be paid out.
    pub open spec fn borrow_error(
        self,
        borrower: Address,
        asset: Address,
        amount: u64,
        collateral_token: Address,
        collateral_amount: u64,
        collateral_received: bool,
        paid_out: bool,
    ) -> Option<LendingError> {
        let pool = self.pools[asset];
        if self.entry_error() is Some {
            self.entry_error()
        } else if amount == 0 || collateral_amount == 0 {
            Some(LendingError::InvalidAmount)
        } else if !self.pools.contains_key(asset) {
            Some(LendingError::AssetNotSupported)
        } else if pool.is_paused {
            Some(LendingError::PoolPaused)
        } else if !self.accepts_collateral(collateral_token) {
            Some(LendingError::CollateralNotWhitelisted)
        } else if self.loans_of(borrower).len() > 0 {
            Some(LendingError::LoanAlreadyExists)
        } else if collateral_amount < self.required_collateral(amount) {
            Some(LendingError::InsufficientCollateral)
        } else if amount > liquidity(pool) {
            Some(LendingError::InsufficientLiquidity)
        } else if utilization((pool.total_borrowed + amount) as u64, pool.total_deposits)
            > pool.utilization_cap_bps {
            Some(LendingError::UtilizationCapExceeded)
        } else if !collateral_received || !paid_out {
            Some(LendingError::TransferFailed)
        } else {
            None
        }
    }

    /// The record of a new loan.
    pub open spec fn new_loan(
        self,
        now: u64,
        borrower: Address,
        asset: Address,
        amount: u64,
        collateral_token: Address,
        collateral_amount: u64,
        duration_seconds: u64,
    ) -> LoanRecord {
        LoanRecord {
            loan_id: self.next_loan_id,
            borrower,
            asset,
            principal: amount,
            collateral_amount,
            collateral_token,
            borrow_time: now,
            due_date: (now + duration_seconds) as u64,
            interest_rate_bps: self.current_rate(asset),
        }
    }

    /// The contract after a loan was taken out.
    pub open spec fn borrowed(
        self,
        contract: Address,
        now: u64,
        borrower: Address,
        asset: Address,
        amount: u64,
        collateral_token: Address,
        collateral_amount: u64,
        duration_seconds: u64,
    ) -> LendingView {
        let pool = self.pools[asset];
        let lent = self.with_transfer(
            collateral_token,
            borrower,
            contract,
            collateral_amount,
        ).with_pool(
            asset,
            PoolState { total_borrowed: (pool.total_borrowed + amount) as u64, ..pool },
        );
        let loan = lent.new_loan(
            now,
            borrower,
            asset,
            amount,
            collateral_token,
            collateral_amount,
            duration_seconds,
        );
        lent.filed(loan).with_minted(loan).with_transfer(
            asset,
            contract,
            borrower,
            amount,
        ).with_event(
            LendingEventView::Borrow(
                BorrowEvent {
                    loan_id: loan.loan_id,
                    borrower,
                    asset,
                    amount,
                    collateral_amount,
                    due_date: loan.due_date,
                },
            ),
        ).with_event(
            LendingEventView::CollateralDeposit(
                CollateralDepositEvent {
                    loan_id: loan.loan_id,
                    borrower,
                    collateral_token,
                    amount: collateral_amount,
                },
            ),
        )
    }

    /// Why announcing the interest of a loan is refused.
    pub open spec fn emit_error(self, borrower: Address) -> Option<LendingError> {
        if self.access.entered {
            Some(LendingError::ReentrantCall)
        } else if self.admin is None {
            Some(LendingError::NotInitialized)
        } else if !self.loans.contains_key(borrower) {
            Some(LendingError::NoOpenLoan)
        } else {
            None
        }
    }

    /// Why a repayment is refused. The last two arguments are whether the
    /// repayment arrived and whether the collateral could be returned.
    pub open spec fn repay_error(
        self,
        borrower: Address,
        repayment_received: bool,
        collateral_returned: bool,
    ) -> Option<LendingError> {
        if self.entry_error() is Some {
            self.entry_error()
        } else if self.late_fee_error(borrower) is Some {
            self.late_fee_error(borrower)
        } else if !repayment_received || !collateral_returned {
            Some(LendingError::TransferFailed)
        } else {
            None
        }
    }

    /// Whether the pool of a repaid loan keeps its totals within 64 bits.
    pub open spec fn repay_fits(self, now: u64, loan: LoanRecord) -> bool {
        let pool = self.pools[loan.asset];
        let earned = loan_interest(now, loan);
        &&& loan.principal <= pool.total_borrowed
        &&& pool.total_deposits + earned - protocol_share(earned) <= u64::MAX
        &&& pool.retained_yield + (protocol_share(earned) - reserve_share(earned)) + self.late_fee(
            now,
            loan,
        ) <= u64::MAX
        &&& pool.bad_debt_reserve + reserve_share(earned) <= u64::MAX
    }

    /// The pool of a loan after its repayment: the principal is back, nine tenths
    /// of the interest belong to the depositors, and the rest and the late fee to
    /// the protocol.
    pub open spec fn repaid_pool(self, now: u64, loan: LoanRecord) -> PoolState {
        let pool = self.pools[loan.asset];
        let earned = loan_interest(now, loan);
        PoolState {
            total_borrowed: (pool.total_borrowed - loan.principal) as u64,
            total_deposits: (pool.total_deposits + (earned - protocol_share(earned))) as u64,
            retained_yield: (pool.retained_yield + ((protocol_share(earned) - reserve_share(earned))
                + self.late_fee(now, loan))) as u64,
            bad_debt_reserve: (pool.bad_debt_reserve + reserve_share(earned)) as u64,
            ..pool
        }
    }

    /// The contract after a loan was repaid.
    pub open spec fn repaid(self, contract: Address, now: u64, borrower: Address) -> LendingView {
        let loan = self.loans[borrower];
        let earned = loan_interest(now, loan);
        let fee = self.late_fee(now, loan);
        let total = self.total_due(now, loan) as u64;
        let cleared = self.with_transfer(loan.asset, borrower, contract, total).with_transfer(
            loan.collateral_token,
            contract,
            borrower,
            loan.collateral_amount,
        ).with_pool(loan.asset, self.repaid_pool(now, loan)).unfiled(borrower, loan.loan_id);
        let settled = (LendingView {
            late_fees_accrued: cleared.late_fees_accrued.remove(loan.loan_id),
            ..cleared
        }).with_burnt(loan.loan_id);
        let charged = if fee > 0 {
            settled.with_event(
                LendingEventView::LateFeeCharged(
                    LateFeeChargedEvent {
                        loan_id: loan.loan_id,
                        borrower,
                        asset: loan.asset,
                        late_fee: fee,
                        days_overdue: self.days_overdue(now, loan) as u64,
                        total_with_late_fees: total,
                        timestamp: now,
                    },
                ),
            )
        } else {
            settled
        };
        charged.with_event(
            LendingEventView::Repay(
                RepayEvent {
                    loan_id: loan.loan_id,
                    borrower,
                    asset: loan.asset,
                    principal: loan.principal,
                    interest: earned,
                    total_amount: total,
                    collateral_returned: loan.collateral_amount,
                },
            ),
        )
    }
}

/// A new loan under the next id keeps the loans on file.
pub proof fn lemma_filed(lending: LendingView, loan: LoanRecord)
    requires
        lending.well_formed(),
        lending.admin is Some,
        loan.loan_id == lending.next_loan_id,
        lending.next_loan_id < u64::MAX,
    ensures
        lending.filed(loan).well_formed(),
{
    reveal(loans_on_file);
    let after = lending.filed(loan);
    let id = loan.loan_id;
    assert(!lending.loans_by_id.contains_key(id));
    assert forall|b: Address, i: u64| #[trigger]
        ids_of(after.user_loans, b).contains(i) <==> after.loans_by_id.contains_key(i)
            && after.loans_by_id[i].borrower == b by {
        lemma_push_contains(lending.loans_of(b), id, i);
        assert(ids_of(lending.user_loans, b).contains(i) <==> lending.loans_by_id.contains_key(i)
            && lending.loans_by_id[i].borrower == b);
    }
    assert forall|b: Address| (#[trigger] ids_of(after.user_loans, b)).no_duplicates() by {
        assert(ids_of(lending.user_loans, b).no_duplicates());
        assert(!ids_of(lending.user_loans, b).contains(id));
    }
}

/// Taking a borrower's loan off file keeps the other loans on file.
pub proof fn lemma_unfiled(lending: LendingView, borrower: Address, loan_id: u64)
    requires
        lending.well_formed(),
        lending.loans_by_id.contains_key(loan_id) ==> lending.loans_by_id[loan_id].borrower
            == borrower,
    ensures
        lending.unfiled(borrower, loan_id).well_formed(),
        lending.unfiled(borrower, loan_id).loans_of(borrower) == without(
            lending.loans_of(borrower),
            loan_id,
        ),
{
    reveal(loans_on_file);
    let after = lending.unfiled(borrower, loan_id);
    let rest = without(lending.loans_of(borrower), loan_id);
    assert(after.loans_of(borrower) =~= rest);
    if lending.admin is None {
        assert(after.loans_by_id =~= lending.loans_by_id);
    }
    assert forall|b: Address, i: u64| #[trigger]
        ids_of(after.user_loans, b).contains(i) <==> after.loans_by_id.contains_key(i)
            && after.loans_by_id[i].borrower == b by {
        lemma_without_contains(lending.loans_of(b), loan_id, i);
        assert(ids_of(lending.user_loans, b).contains(i) <==> lending.loans_by_id.contains_key(i)
            && lending.loans_by_id[i].borrower == b);
        if b != borrower {
            assert(ids_of(after.user_loans, b) == ids_of(lending.user_loans, b));
        }
    }
    assert forall|b: Address| (#[trigger] ids_of(after.user_loans, b)).no_duplicates() by {
        assert(ids_of(lending.user_loans, b).no_duplicates());
        lemma_without_distinct(lending.loans_of(b), loan_id);
        if b != borrower {
            assert(ids_of(after.user_loans, b) == ids_of(lending.user_loans, b));
        }
    }
    assert forall|b: Address| #[trigger] after.loans.contains_key(b) implies after.loans[b].borrower
        == b && after.loans_by_id.contains_key(after.loans[b].loan_id)
        && after.loans_by_id[after.loans[b].loan_id] == after.loans[b] by {
        assert(lending.loans.contains_key(b));
    }
}

/// A borrower who has a primary loan has it on file.
pub proof fn lemma_primary_on_file(lending: LendingView, borrower: Address)
    requires
        lending.well_formed(),
        lending.loans.contains_key(borrower),
    ensures
        lending.loans[borrower].borrower == borrower,
        lending.loans_by_id.contains_key(lending.loans[borrower].loan_id),
        lending.loans_by_id[lending.loans[borrower].loan_id] == lending.loans[borrower],
        lending.loans[borrower].loan_id < lending.next_loan_id,
{
    reveal(loans_on_file);
}

/// The terms of a borrower's open loan can change.
pub proof fn lemma_loan_update(lending: LendingView, loan: LoanRecord)
    requires
        lending.well_formed(),
        lending.loans.contains_key(loan.borrower),
        lending.loans[loan.borrower].loan_id == loan.loan_id,
    ensures
        lending.with_loan(loan).well_formed(),
{
    reveal(loans_on_file);
    let after = lending.with_loan(loan);
    lemma_primary_on_file(lending, loan.borrower);
    assert forall|b: Address, i: u64| #[trigger]
        ids_of(after.user_loans, b).contains(i) <==> after.loans_by_id.contains_key(i)
            && after.loans_by_id[i].borrower == b by {
        assert(ids_of(lending.user_loans, b).contains(i) <==> lending.loans_by_id.contains_key(i)
            && lending.loans_by_id[i].borrower == b);
    }
}

/// A loan taken out is within the pool's liquidity and utilization cap, and is
/// backed by the required collateral.
pub proof fn law_borrow_is_covered(
    lending: LendingView,
    contract: Address,
    now: u64,
    borrower: Address,
    asset: Address,
    amount: u64,
    collateral_token: Address,
    collateral_amount: u64,
    duration_seconds: u64,
)
    requires
        lending.borrow_error(
            borrower,
            asset,
            amount,
            collateral_token,
            collateral_amount,
            true,
            true,
        ) is None,
    ensures
        ({
            let after = lending.borrowed(
                contract,
                now,
                borrower,
                asset,
                amount,
                collateral_token,
                collateral_amount,
                duration_seconds,
            );
            let pool = after.pools[asset];
            &&& pool.total_borrowed == lending.pools[asset].total_borrowed + amount
            &&& pool.total_borrowed <= pool.total_deposits
            &&& utilization(pool.total_borrowed, pool.total_deposits) <= pool.utilization_cap_bps
            &&& after.loans[borrower].collateral_amount >= lending.required_collateral(
                after.loans[borrower].principal,
            )
        }),
{
}

/// Repaying a loan at once gives the pool back what it lent: borrowing and
/// repaying in the same instant leaves every total of the pool as it was.
pub proof fn law_repay_undoes_borrow(
    lending: LendingView,
    contract: Address,
    now: u64,
    borrower: Address,
    asset: Address,
    amount: u64,
    collateral_token: Address,
    collateral_amount: u64,
    duration_seconds: u64,
)
    requires
        lending.well_formed(),
        lending.borrow_error(
            borrower,
            asset,
            amount,
            collateral_token,
            collateral_amount,
            true,
            true,
        ) is None,
        now + duration_seconds <= u64::MAX,
    ensures
        ({
            let after = lending.borrowed(
                contract,
                now,
                borrower,
                asset,
                amount,
                collateral_token,
                collateral_amount,
                duration_seconds,
            );
            &&& after.repaid(contract, now, borrower).pools == lending.pools
            &&& after.total_due(now, after.loans[borrower]) == amount
        }),
{
    let after = lending.borrowed(
        contract,
        now,
        borrower,
        asset,
        amount,
        collateral_token,
        collateral_amount,
        duration_seconds,
    );
    let loan = after.loans[borrower];
    assert(saturating_difference(now, loan.borrow_time) == 0);
    assert(loan.principal * loan.interest_rate_bps * 0 == 0) by (nonlinear_arith);
    assert(loan_interest(now, loan) == 0);
    assert(protocol_share(0) == 0);
    assert(reserve_share(0) == 0);
    assert(after.late_fee(now, loan) == 0);
    assert(after.repaid(contract, now, borrower).pools =~= lending.pools);
}

/// Every unit of a repayment is accounted for: the principal leaves the books
/// of the borrower, and interest and late fee are divided among depositors,
/// retained yield and reserve without remainder.
pub proof fn law_repayment_is_divided(lending: LendingView, now: u64, loan: LoanRecord)
    requires
        lending.repay_fits(now, loan),
    ensures
        ({
            let before = lending.pools[loan.asset];
            let after = lending.repaid_pool(now, loan);
            &&& before.total_borrowed - after.total_borrowed == loan.principal
            &&& (after.total_deposits - before.total_deposits) + (after.retained_yield
                - before.retained_yield) + (after.bad_debt_reserve - before.bad_debt_reserve)
                == loan_interest(now, loan) + lending.late_fee(now, loan)
        }),
{
    lemma_shares_of_interest(loan_interest(now, loan));
}

/// The parts of the interest are no larger than what they are part of.
pub proof fn lemma_shares_of_interest(amount: u64)
    ensures
        reserve_share(amount) <= protocol_share(amount) <= amount,
{
    crate::math::lemma_share_bounded(amount, PROTOCOL_INTEREST_BPS);
    crate::math::lemma_share_bounded(protocol_share(amount), BAD_DEBT_RESERVE_BPS);
}

impl LendingContract {
    /// Id that the next loan will get.
    pub fn get_next_loan_id(&self) -> (id: u64)
        ensures
            id == self@.next_loan_id,
    {
        self.next_loan_id
    }

    /// Uses up the next loan id.
    pub fn increment_loan_id(&mut self) -> (id: u64)
        requires
            old(self)@.next_loan_id < u64::MAX,
        ensures
            id == old(self)@.next_loan_id,
            final(self)@ == (LendingView {
                next_loan_id: (old(self)@.next_loan_id + 1) as u64,
                ..old(self)@
            }),
    {
        let current: u64 = self.get_next_loan_id();
        self.next_loan_id = current + 1;
        current
    }

    /// Collateral that loans need, in basis points of the amount.
    pub fn get_collateral_ratio(&self) -> (ratio: u32)
        ensures
            ratio == self@.collateral_ratio_bps,
    {
        self.collateral_ratio_bps
    }

    /// Whether a token is accepted as collateral.
    pub fn is_collateral_whitelisted(&self, token: Address) -> (yes: bool)
        ensures
            yes == self@.accepts_collateral(token),
    {
        match self.whitelisted_collateral.get(token) {
            Some(listed) => *listed,
            None => false,
        }
    }

    /// Ids of the open loans of a borrower, oldest first.
    pub fn get_user_loans(&self, user: Address) -> (ids: Vec<u64>)
        ensures
            ids@ == self@.loans_of(user),
    {
        match self.user_loans.get(user) {
            Some(ids) => ids.clone(),
            None => Vec::new(),
        }
    }

    /// Appends a loan to the list of its borrower.
    pub fn add_user_loan(&mut self, user: Address, loan_id: u64)
        ensures
            final(self)@ == (LendingView {
                user_loans: old(self)@.user_loans.insert(
                    user,
                    old(self)@.loans_of(user).push(loan_id),
                ),
                ..old(self)@
            }),
    {
        let mut loans = self.get_user_loans(user);
        loans.push(loan_id);
        self.user_loans.set(user, loans);
    }

    /// Takes a loan out of the list of its borrower; an empty list is dropped.
    pub fn remove_user_loan(&mut self, user: Address, loan_id: u64)
        ensures
            final(self)@ == (LendingView {
                user_loans: if without(old(self)@.loans_of(user), loan_id).len() == 0 {
                    old(self)@.user_loans.remove(user)
                } else {
                    old(self)@.user_loans.insert(
                        user,
                        without(old(self)@.loans_of(user), loan_id),
                    )
                },
                ..old(self)@
            }),
    {
        let loans = self.get_user_loans(user);
        let rest = list_without(&loans, &loan_id);
        if rest.len() == 0 {
            self.user_loans.remove(user);
        } else {
            self.user_loans.set(user, rest);
        }
    }

    /// Puts a loan on file under the next id.
    pub fn file_loan(&mut self, loan: LoanRecord)
        requires
            old(self)@.next_loan_id < u64::MAX,
        ensures
            final(self)@ == old(self)@.filed(loan),
    {
        let _ = self.increment_loan_id();
        self.loans.set(loan.borrower, loan);
        self.loans_by_id.set(loan.loan_id, loan);
        self.add_user_loan(loan.borrower, loan.loan_id);
    }

    /// Takes a loan off file.
    pub fn unfile_loan(&mut self, borrower: Address, loan_id: u64)
        ensures
            final(self)@ == old(self)@.unfiled(borrower, loan_id),
    {
        self.loans.remove(borrower);
        self.loans_by_id.remove(loan_id);
        self.remove_user_loan(borrower, loan_id);
    }

    /// The contract that issues loan tokens, if one is set.
    pub fn get_nft_token(&self) -> (nft: Option<Address>)
        ensures
            nft == self@.nft_token,
    {
        self.nft_token
    }

    /// Mints the token of a loan, if there is a token contract.
    pub fn mint_nft(&mut self, loan: &LoanRecord)
        ensures
            final(self)@ == old(self)@.with_minted(*loan),
    {
        if let Some(nft) = self.get_nft_token() {
            let ltv_ratio_bps: u32 = Self::calc_ltv_ratio_bps(
                loan.principal,
                loan.collateral_amount,
            );
            let uri = Self::build_loan_nft_uri(
                loan.loan_id,
                loan.principal,
                loan.collateral_amount,
                ltv_ratio_bps,
                loan.due_date,
            );
            let metadata = NftLoanMetadata {
                loan_id: loan.loan_id,
                borrower: loan.borrower,
                principal: loan.principal,
                collateral_amount: loan.collateral_amount,
                collateral_token: loan.collateral_token,
                due_date: loan.due_date,
                ltv_ratio_bps,
                plan_id: 0,
                uri,
            };
            proof {
                assert(metadata@ =~= nft_metadata(*loan));
            }
            self.call(LendingCall::MintNft { nft, to: loan.borrower, metadata });
        }
    }

    /// Burns the token of a loan, if there is a token contract.
    pub fn burn_nft(&mut self, loan_id: u64)
        ensures
            final(self)@ == old(self)@.with_burnt(loan_id),
    {
        if let Some(nft) = self.get_nft_token() {
            self.call(LendingCall::BurnNft { nft, loan_id });
        }
    }

    /// When the grace period of a loan ends.
    pub fn grace_period_end(&self, loan: &LoanRecord) -> (end: Result<u64, LendingError>)
        ensures
            match end {
                Ok(t) => self@.grace_error(*loan) is None && t == self@.grace_end(*loan),
                Err(e) => self@.grace_error(*loan) == Some(e),
            },
    {
        let pool = match self.get_pool(loan.asset) {
            Ok(pool) => pool,
            Err(e) => {
                return Err(e);
            },
        };
        match loan.due_date.checked_add(pool.grace_period_seconds) {
            Some(end) => Ok(end),
            None => Err(LendingError::InvalidAmount),
        }
    }

    /// Whether the grace period of a loan is over.
    pub fn is_after_grace_period(&self, env: &Env, loan: &LoanRecord) -> (over: Result<
        bool,
        LendingError,
    >)
        ensures
            match over {
                Ok(yes) => self@.grace_error(*loan) is None && yes == (env.timestamp
                    > self@.grace_end(*loan)),
                Err(e) => self@.grace_error(*loan) == Some(e),
            },
    {
        match self.grace_period_end(loan) {
            Ok(end) => Ok(env.timestamp > end),
            Err(e) => Err(e),
        }
    }

    /// The primary loan of a borrower.
    pub fn open_loan(&self, borrower: Address) -> (loan: Result<LoanRecord, LendingError>)
        ensures
            match loan {
                Ok(l) => self@.loans.contains_key(borrower) && l == self@.loans[borrower],
                Err(e) => !self@.loans.contains_key(borrower) && e == LendingError::NoOpenLoan,
            },
    {
        match self.loans.get(borrower) {
            Some(loan) => Ok(*loan),
            None => Err(LendingError::NoOpenLoan),
        }
    }

    /// Interest on a loan up to now.
    pub fn interest_on(env: &Env, loan: &LoanRecord) -> (amount: u64)
        ensures
            amount == loan_interest(env.timestamp, *loan),
    {
        let elapsed: u64 = env.timestamp.saturating_sub(loan.borrow_time);
        Self::calculate_interest(loan.principal, loan.interest_rate_bps, elapsed)
    }

    /// The rate at which a pool lends by its own line.
    pub fn rate_of(pool: &PoolState) -> (rate: u32)
        ensures
            rate == linear_rate(
                pool.base_rate_bps,
                pool.multiplier_bps,
                utilization(pool.total_borrowed, pool.total_deposits),
            ),
    {
        let utilization_bps: u32 = Self::get_utilization_bps(
            pool.total_borrowed,
            pool.total_deposits,
        );
        Self::calculate_dynamic_rate(pool.base_rate_bps, pool.multiplier_bps, utilization_bps)
    }

    /// Borrow `amount` of the specific asset from the pool with collateral.
    /// Requires overcollateralized borrowing based on collateral ratio.
    /// Returns the unique loan ID.
    pub fn borrow(
        &mut self,
        env: &Env,
        borrower: Address,
        asset: Address,
        amount: u64,
        collateral_token: Address,
        collateral_amount: u64,
        duration_seconds: u64,
        collateral_received: bool,
        paid_out: bool,
    ) -> (result: Result<u64, LendingError>)
        requires
            old(self)@.well_formed(),
            env.authorized(borrower),
            old(self)@.borrow_error(
                borrower,
                asset,
                amount,
                collateral_token,
                collateral_amount,
                collateral_received,
                true,
            ) is None ==> env.timestamp + duration_seconds <= u64::MAX && old(self)@.next_loan_id
                < u64::MAX,
        ensures
            ({
                let error = old(self)@.borrow_error(
                    borrower,
                    asset,
                    amount,
                    collateral_token,
                    collateral_amount,
                    collateral_received,
                    paid_out,
                );
                match result {
                    Err(e) => error == Some(e) && final(self)@ == old(self)@,
                    Ok(loan_id) => error is None && loan_id == old(self)@.next_loan_id
                        && final(self)@ == old(self)@.borrowed(
                        env.contract,
                        env.timestamp,
                        borrower,
                        asset,
                        amount,
                        collateral_token,
                        collateral_amount,
                        duration_seconds,
                    ),
                }
            }),
            final(self)@.well_formed(),
    {
        match self.check_entry() {
            Some(e) => {
                return Err(e);
            },
            None => {},
        }
        if amount == 0 || collateral_amount == 0 {
            return Err(LendingError::InvalidAmount);
        }
        let pool = match self.get_pool(asset) {
            Ok(pool) => pool,
            Err(e) => {
                return Err(e);
            },
        };
        if pool.is_paused {
            return Err(LendingError::PoolPaused);
        }
        if !self.is_collateral_whitelisted(collateral_token) {
            return Err(LendingError::CollateralNotWhitelisted);
        }
        let existing_loans = self.get_user_loans(borrower);
        if existing_loans.len() > 0 {
            return Err(LendingError::LoanAlreadyExists);
        }
        let required_collateral: u64 = share_bps(amount, self.get_collateral_ratio());
        if collateral_amount < required_collateral {
            return Err(LendingError::InsufficientCollateral);
        }
        let available: u64 = pool.total_deposits.saturating_sub(pool.total_borrowed);
        if amount > available {
            return Err(LendingError::InsufficientLiquidity);
        }
        let new_borrowed: u64 = pool.total_borrowed + amount;
        if Self::get_utilization_bps(new_borrowed, pool.total_deposits)
            > pool.utilization_cap_bps {
            return Err(LendingError::UtilizationCapExceeded);
        }
        if !collateral_received || !paid_out {
            return Err(LendingError::TransferFailed);
        }
        let _ = self.transfer(
            collateral_token,
            borrower,
            env.contract,
            collateral_amount,
            collateral_received,
        );
        let updated = PoolState { total_borrowed: new_borrowed, ..pool };
        proof {
            lemma_pool_update(self@, asset, updated);
        }
        self.set_pool(asset, updated);
        let loan_id: u64 = self.get_next_loan_id();
        let due_date: u64 = env.timestamp + duration_seconds;
        let loan = LoanRecord {
            loan_id,
            borrower,
            asset,
            principal: amount,
            collateral_amount,
            collateral_token,
            borrow_time: env.timestamp,
            due_date,
            interest_rate_bps: Self::rate_of(&updated),
        };
        proof {
            lemma_filed(self@, loan);
        }
        self.file_loan(loan);
        self.mint_nft(&loan);
        let _ = self.transfer(asset, env.contract, borrower, amount, paid_out);
        self.publish(
            LendingEvent::Borrow(
                BorrowEvent { loan_id, borrower, asset, amount, collateral_amount, due_date },
            ),
        );
        self.publish(
            LendingEvent::CollateralDeposit(
                CollateralDepositEvent {
                    loan_id,
                    borrower,
                    collateral_token,
                    amount: collateral_amount,
                },
            ),
        );
        Ok(loan_id)
    }

    /// Calculate late fees accumulated on a loan
    /// Daily late fee rate applied to days overdue after grace period
    pub fn calculate_late_fee(&self, env: &Env, borrower: Address) -> (fee: Result<
        u64,
        LendingError,
    >)
        ensures
            match fee {
                Ok(f) => self@.late_fee_error(borrower) is None && f == self@.late_fee(
                    env.timestamp,
                    self@.loans[borrower],
                ),
                Err(e) => self@.late_fee_error(borrower) == Some(e),
            },
    {
        match self.require_initialized() {
            Err(e) => {
                return Err(e);
            },
            Ok(()) => {},
        }
        let loan = match self.open_loan(borrower) {
            Ok(loan) => loan,
            Err(e) => {
                return Err(e);
            },
        };
        let pool = match self.get_pool(loan.asset) {
            Ok(pool) => pool,
            Err(e) => {
                return Err(e);
            },
        };
        let grace_period_end: u64 = match self.grace_period_end(&loan) {
            Ok(end) => end,
            Err(e) => {
                return Err(e);
            },
        };
        if env.timestamp <= grace_period_end {
            return Ok(0);
        }
        let days_overdue: u64 = (env.timestamp - grace_period_end) / SECONDS_PER_DAY;
        if days_overdue == 0 {
            return Ok(0);
        }
        let accrued_fees: u64 = match self.late_fees_accrued.get(loan.loan_id) {
            Some(fees) => *fees,
            None => 0,
        };
        if accrued_fees > 0 {
            return Ok(accrued_fees);
        }
        let daily_fee: u64 = share_bps(loan.principal, pool.late_fee_rate_bps);
        Ok(take_low64(product(daily_fee, days_overdue)))
    }

    /// Repay the full outstanding loan for the caller.
    /// Restores liquidity to the pool, returns collateral, and closes the loan record.
    /// Includes principal, interest, and any accumulated late fees in the repayment.
    /// Returns the total amount repaid (principal + interest + late fees).
    pub fn repay(
        &mut self,
        env: &Env,
        borrower: Address,
        repayment_received: bool,
        collateral_returned: bool,
    ) -> (result: Result<u64, LendingError>)
        requires
            old(self)@.well_formed(),
            env.authorized(borrower),
            old(self)@.repay_error(borrower, true, true) is None ==> old(self)@.total_due(
                env.timestamp,
                old(self)@.loans[borrower],
            ) <= u64::MAX,
            old(self)@.repay_error(borrower, repayment_received, collateral_returned) is None
                ==> old(self)@.repay_fits(env.timestamp, old(self)@.loans[borrower]),
        ensures
            ({
                let error = old(self)@.repay_error(
                    borrower,
                    repayment_received,
                    collateral_returned,
                );
                match result {
                    Err(e) => error == Some(e) && final(self)@ == old(self)@,
                    Ok(total) => error is None && total == old(self)@.total_due(
                        env.timestamp,
                        old(self)@.loans[borrower],
                    ) && final(self)@ == old(self)@.repaid(env.contract, env.timestamp, borrower),
                }
            }),
            final(self)@.well_formed(),
    {
        match self.check_entry() {
            Some(e) => {
                return Err(e);
            },
            None => {},
        }
        let loan = match self.open_loan(borrower) {
            Ok(loan) => loan,
            Err(e) => {
                return Err(e);
            },
        };
        let interest: u64 = Self::interest_on(env, &loan);
        let late_fee: u64 = match self.calculate_late_fee(env, borrower) {
            Ok(fee) => fee,
            Err(e) => {
                return Err(e);
            },
        };
        let total_repayment: u64 = loan.principal + interest + late_fee;
        let grace_period_end: u64 = match self.grace_period_end(&loan) {
            Ok(end) => end,
            Err(e) => {
                return Err(e);
            },
        };
        if !repayment_received || !collateral_returned {
            return Err(LendingError::TransferFailed);
        }
        let pool = match self.get_pool(loan.asset) {
            Ok(pool) => pool,
            Err(e) => {
                return Err(e);
            },
        };
        let _ = self.transfer(
            loan.asset,
            borrower,
            env.contract,
            total_repayment,
            repayment_received,
        );
        let _ = self.transfer(
            loan.collateral_token,
            env.contract,
            borrower,
            loan.collateral_amount,
            collateral_returned,
        );
        let protocol: u64 = share_bps(interest, PROTOCOL_INTEREST_BPS);
        let reserve: u64 = share_bps(protocol, BAD_DEBT_RESERVE_BPS);
        proof {
            lemma_shares_of_interest(interest);
        }
        let retained: u64 = protocol - reserve;
        let pool_share: u64 = interest - protocol;
        let updated = PoolState {
            total_borrowed: pool.total_borrowed - loan.principal,
            total_deposits: pool.total_deposits + pool_share,
            retained_yield: pool.retained_yield + (retained + late_fee),
            bad_debt_reserve: pool.bad_debt_reserve + reserve,
            ..pool
        };
        proof {
            lemma_pool_update(self@, loan.asset, updated);
            lemma_primary_on_file(old(self)@, borrower);
        }
        self.set_pool(loan.asset, updated);
        proof {
            lemma_unfiled(self@, borrower, loan.loan_id);
        }
        self.unfile_loan(borrower, loan.loan_id);
        self.late_fees_accrued.remove(loan.loan_id);
        self.burn_nft(loan.loan_id);
        if late_fee > 0 {
            let days_overdue: u64 = env.timestamp.saturating_sub(grace_period_end)
                / SECONDS_PER_DAY;
            self.publish(
                LendingEvent::LateFeeCharged(
                    LateFeeChargedEvent {
                        loan_id: loan.loan_id,
                        borrower,
                        asset: loan.asset,
                        late_fee,
                        days_overdue,
                        total_with_late_fees: total_repayment,
                        timestamp: env.timestamp,
                    },
                ),
            );
        }
        self.publish(
            LendingEvent::Repay(
                RepayEvent {
                    loan_id: loan.loan_id,
                    borrower,
                    asset: loan.asset,
                    principal: loan.principal,
                    interest,
                    total_amount: total_repayment,
                    collateral_returned: loan.collateral_amount,
                },
            ),
        );
        Ok(total_repayment)
    }

    /// Calculate the total amount (principal + interest + late fees) required to repay the loan.
    pub fn get_repayment_amount(&self, env: &Env, borrower: Address) -> (result: Result<
        u64,
        LendingError,
    >)
        requires
            self@.late_fee_error(borrower) is None ==> self@.total_due(
                env.timestamp,
                self@.loans[borrower],
            ) <= u64::MAX,
        ensures
            match result {
                Ok(total) => self@.late_fee_error(borrower) is None && total == self@.total_due(
                    env.timestamp,
                    self@.loans[borrower],
                ),
                Err(e) => if !self@.loans.contains_key(borrower) {
                    e == LendingError::NoOpenLoan
                } else {
                    self@.late_fee_error(borrower) == Some(e)
                },
            },
    {
        let loan = match self.open_loan(borrower) {
            Ok(loan) => loan,
            Err(e) => {
                return Err(e);
            },
        };
        let interest: u64 = Self::interest_on(env, &loan);
        match self.calculate_late_fee(env, borrower) {
            Ok(late_fee) => Ok(loan.principal + interest + late_fee),
            Err(e) => Err(e),
        }
    }

    /// Get total repayment amount including principal, interest, and late fees
    pub fn get_total_due_with_late_fees(&self, env: &Env, borrower: Address) -> (result: Result<
        u64,
        LendingError,
    >)
        requires
            self@.late_fee_error(borrower) is None ==> self@.total_due(
                env.timestamp,
                self@.loans[borrower],
            ) <= u64::MAX,
        ensures
            match result {
                Ok(total) => self@.late_fee_error(borrower) is None && total == self@.total_due(
                    env.timestamp,
                    self@.loans[borrower],
                ),
                Err(e) => self@.late_fee_error(borrower) == Some(e),
            },
    {
        match self.require_initialized() {
            Err(e) => {
                return Err(e);
            },
            Ok(()) => {},
        }
        self.get_repayment_amount(env, borrower)
    }

    /// Calculate and emit an interest accrual event for a specific loan
    pub fn emit_interest_accrual(&mut self, env: &Env, borrower: Address) -> (result: Result<
        u64,
        LendingError,
    >)
        requires
            old(self)@.well_formed(),
        ensures
            match result {
                Err(e) => old(self)@.emit_error(borrower) == Some(e) && final(self)@
                    == old(self)@,
                Ok(amount) => {
                    let loan = old(self)@.loans[borrower];
                    &&& old(self)@.emit_error(borrower) is None
                    &&& amount == loan_interest(env.timestamp, loan)
                    &&& final(self)@ == old(self)@.with_event(
                        LendingEventView::InterestAccrual(
                            InterestAccrualEvent {
                                loan_id: loan.loan_id,
                                borrower,
                                asset: loan.asset,
                                principal: loan.principal,
                                interest_accrued: amount,
                                interest_rate_bps: loan.interest_rate_bps,
                                elapsed_seconds: saturating_difference(
                                    env.timestamp,
                                    loan.borrow_time,
                                ),
                                timestamp: env.timestamp,
                            },
                        ),
                    )
                },
            },
            final(self)@.well_formed(),
    {
        match self.require_not_entered() {
            Err(e) => {
                return Err(e);
            },
            Ok(()) => {},
        }
        match self.require_initialized() {
            Err(e) => {
                return Err(e);
            },
            Ok(()) => {},
        }
        let loan = match self.open_loan(borrower) {
            Ok(loan) => loan,
            Err(e) => {
                return Err(e);
            },
        };
        let interest: u64 = Self::interest_on(env, &loan);
        self.publish(
            LendingEvent::InterestAccrual(
                InterestAccrualEvent {
                    loan_id: loan.loan_id,
                    borrower,
                    asset: loan.asset,
                    principal: loan.principal,
                    interest_accrued: interest,
                    interest_rate_bps: loan.interest_rate_bps,
                    elapsed_seconds: env.timestamp.saturating_sub(loan.borrow_time),
                    timestamp: env.timestamp,
                },
            ),
        );
        Ok(interest)
    }

    /// Check if a loan is currently in its grace period
    pub fn is_in_grace_period(&self, env: &Env, borrower: Address) -> (result: Result<
        bool,
        LendingError,
    >)
        ensures
            match result {
                Ok(yes) => self@.late_fee_error(borrower) is None && yes == (env.timestamp
                    <= self@.grace_end(self@.loans[borrower])),
                Err(e) => self@.late_fee_error(borrower) == Some(e),
            },
    {
        match self.require_initialized() {
            Err(e) => {
                return Err(e);
            },
            Ok(()) => {},
        }
        let loan = match self.open_loan(borrower) {
            Ok(loan) => loan,
            Err(e) => {
                return Err(e);
            },
        };
        match self.grace_period_end(&loan) {
            Ok(end) => Ok(env.timestamp <= end),
            Err(e) => Err(e),
        }
    }
}

/// A loan bears interest from the time it was taken out, on its principal and at its
/// own rate: at that time it owes its principal and nothing more.
pub proof fn law_interest_runs_from_the_borrow_time(now: u64, loan: LoanRecord)
    ensures
        now <= loan.borrow_time ==> outstanding(now, loan) == loan.principal,
        now >= loan.borrow_time ==> outstanding(now, loan) == loan.principal + interest(
            loan.principal,
            loan.interest_rate_bps,
            (now - loan.borrow_time) as u64,
        ),
{
    if now <= loan.borrow_time {
        assert(loan.principal * loan.interest_rate_bps * 0 == 0) by (nonlinear_arith);
    }
}

/// No late fee is due up to a full day after the grace period, which follows the due
/// date. From there on each full day costs the daily share of the principal, unless a
/// fee was fixed for the loan.
pub proof fn law_late_fees_are_by_the_day(lending: LendingView, now: u64, loan: LoanRecord)
    ensures
        ({
            let pool = lending.pools[loan.asset];
            let end = loan.due_date + pool.grace_period_seconds;
            let days = lending.days_overdue(now, loan);
            let daily = bps_share(loan.principal, pool.late_fee_rate_bps);
            let fixed = lending.late_fees_accrued.contains_key(loan.loan_id)
                && lending.late_fees_accrued[loan.loan_id] > 0;
            &&& now < end + 86_400 ==> days == 0 && lending.late_fee(now, loan) == 0
            &&& now >= end ==> end + days * 86_400 <= now < end + (days + 1) * 86_400
            &&& now >= end + 86_400 && !fixed && daily * days <= 0xffff_ffff_ffff_ffff
                ==> lending.late_fee(now, loan) == daily * days
            &&& now >= end + 86_400 && fixed ==> lending.late_fee(now, loan)
                == lending.late_fees_accrued[loan.loan_id]
            &&& lending.total_due(now, loan) == outstanding(now, loan) + lending.late_fee(now, loan)
        }),
{
    let pool = lending.pools[loan.asset];
    let end = loan.due_date + pool.grace_period_seconds;
    let days = lending.days_overdue(now, loan);
    let daily = bps_share(loan.principal, pool.late_fee_rate_bps);
    if now >= end {
        crate::math::lemma_floor(now - end, 86_400);
    }
    assert(0 <= daily * days) by (nonlinear_arith)
        requires
            0 <= daily,
            0 <= days,
    ;
}

/// Who gets a loan: a borrower without open loans, against enough of an accepted
/// collateral, as far as the pool's free tokens and its utilization cap go.
pub proof fn law_loans_are_admitted(
    lending: LendingView,
    borrower: Address,
    asset: Address,
    amount: u64,
    collateral_token: Address,
    collateral_amount: u64,
)
    ensures
        lending.borrow_error(
            borrower,
            asset,
            amount,
            collateral_token,
            collateral_amount,
            true,
            true,
        ) is None <==> {
            let pool = lending.pools[asset];
            &&& lending.admin is Some && !lending.access.paused && !lending.access.entered
            &&& lending.pools.contains_key(asset) && !pool.is_paused
            &&& lending.whitelisted_collateral.contains_key(collateral_token)
                && lending.whitelisted_collateral[collateral_token]
            &&& lending.loans_of(borrower).len() == 0
            &&& amount > 0 && collateral_amount > 0
            &&& collateral_amount >= bps_share(amount, lending.collateral_ratio_bps)
            &&& pool.total_borrowed + amount <= pool.total_deposits
            &&& utilization((pool.total_borrowed + amount) as u64, pool.total_deposits)
                <= pool.utilization_cap_bps
        },
        forall|received: bool, paid: bool|
            !received || !paid ==> #[trigger] lending.borrow_error(
                borrower,
                asset,
                amount,
                collateral_token,
                collateral_amount,
                received,
                paid,
            ) is Some,
{
}

/// A loan that is taken out brings the whole collateral from the borrower to the contract
/// and the whole amount from the pool to the borrower. It is filed under the next id,
/// starts now, is due after the duration, and bears the rate of the pool with the loan
/// in it.
pub proof fn law_borrowing(
    lending: LendingView,
    contract: Address,
    now: u64,
    borrower: Address,
    asset: Address,
    amount: u64,
    collateral_token: Address,
    collateral_amount: u64,
    duration_seconds: u64,
)
    requires
        lending.borrow_error(
            borrower,
            asset,
            amount,
            collateral_token,
            collateral_amount,
            true,
            true,
        ) is None,
        now + duration_seconds <= 0xffff_ffff_ffff_ffff,
        lending.next_loan_id < 0xffff_ffff_ffff_ffff,
    ensures
        ({
            let before = lending.pools[asset];
            let after = lending.borrowed(
                contract,
                now,
                borrower,
                asset,
                amount,
                collateral_token,
                collateral_amount,
                duration_seconds,
            );
            let loan = after.loans[borrower];
            let used = utilization((before.total_borrowed + amount) as u64, before.total_deposits);
            let n = lending.calls.len() as int;
            &&& after.calls.take(n) == lending.calls
            &&& after.calls[n] == LendingCallView::Transfer {
                token: collateral_token,
                from: borrower,
                to: contract,
                amount: collateral_amount,
            }
            &&& after.calls.last() == LendingCallView::Transfer {
                token: asset,
                from: contract,
                to: borrower,
                amount,
            }
            &&& lending.nft_token is None ==> after.calls.len() == n + 2
            &&& lending.nft_token matches Some(nft) ==> {
                &&& after.calls.len() == n + 3
                &&& after.calls[n + 1] matches LendingCallView::MintNft { nft: at, to, metadata }
                &&& at == nft && to == borrower
                &&& metadata.loan_id == loan.loan_id && metadata.borrower == borrower
                &&& metadata.principal == amount && metadata.due_date == loan.due_date
                &&& metadata.collateral_amount == collateral_amount && metadata.collateral_token
                    == collateral_token
                &&& metadata.ltv_ratio_bps == ltv_bps(amount, collateral_amount)
                &&& metadata.plan_id == 0
            }
            &&& loan.loan_id == lending.next_loan_id && after.next_loan_id == lending.next_loan_id
                + 1
            &&& loan.borrower == borrower && loan.asset == asset && loan.principal == amount
            &&& loan.collateral_amount == collateral_amount && loan.collateral_token
                == collateral_token
            &&& loan.borrow_time == now && loan.due_date == now + duration_seconds
            &&& loan.interest_rate_bps == linear_rate(
                before.base_rate_bps,
                before.multiplier_bps,
                used,
            )
            &&& after.loans == lending.loans.insert(borrower, loan)
            &&& after.loans_by_id == lending.loans_by_id.insert(loan.loan_id, loan)
            &&& after.loans_of(borrower) == lending.loans_of(borrower).push(loan.loan_id)
            &&& forall|other: Address|
                other != borrower ==> #[trigger] after.loans_of(other) == lending.loans_of(other)
            &&& after.pools[asset].total_borrowed == before.total_borrowed + amount
            &&& after.pools == lending.pools.insert(
                asset,
                PoolState { total_borrowed: after.pools[asset].total_borrowed, ..before },
            )
            &&& after.events.len() == lending.events.len() + 2
            &&& after.events[lending.events.len() as int] == LendingEventView::Borrow(
                BorrowEvent {
                    loan_id: loan.loan_id,
                    borrower,
                    asset,
                    amount,
                    collateral_amount,
                    due_date: loan.due_date,
                },
            )
            &&& after.events.last() == LendingEventView::CollateralDeposit(
                CollateralDepositEvent {
                    loan_id: loan.loan_id,
                    borrower,
                    collateral_token,
                    amount: collateral_amount,
                },
            )
            &&& after == (LendingView {
                pools: after.pools,
                loans: after.loans,
                loans_by_id: after.loans_by_id,
                user_loans: after.user_loans,
                next_loan_id: after.next_loan_id,
                calls: after.calls,
                events: after.events,
                ..lending
            })
        }),
{
    let after = lending.borrowed(
        contract,
        now,
        borrower,
        asset,
        amount,
        collateral_token,
        collateral_amount,
        duration_seconds,
    );
    assert(after.calls.take(lending.calls.len() as int) =~= lending.calls);
}

/// Who can repay: a borrower with an open loan, whether or not it is overdue.
pub proof fn law_repayments_are_admitted(lending: LendingView, borrower: Address)
    ensures
        lending.repay_error(borrower, true, true) is None <==> {
            let loan = lending.loans[borrower];
            &&& lending.admin is Some && !lending.access.paused && !lending.access.entered
            &&& lending.loans.contains_key(borrower) && lending.pools.contains_key(loan.asset)
            &&& loan.due_date + lending.pools[loan.asset].grace_period_seconds
                <= 0xffff_ffff_ffff_ffff
        },
        forall|received: bool, returned: bool|
            !received || !returned ==> #[trigger] lending.repay_error(borrower, received, returned)
                is Some,
{
}

/// A repayment brings all that is due from the borrower to the contract and the whole
/// collateral of the loan from the contract back to the borrower. The loan is off every
/// list; a tenth of the interest is the protocol's, half of that for the bad debt
/// reserve; the rest of the interest is the depositors', the late fee the protocol's.
pub proof fn law_repaying(lending: LendingView, contract: Address, now: u64, borrower: Address)
    requires
        lending.well_formed(),
        lending.repay_error(borrower, true, true) is None,
        lending.repay_fits(now, lending.loans[borrower]),
        lending.total_due(now, lending.loans[borrower]) <= 0xffff_ffff_ffff_ffff,
    ensures
        ({
            let loan = lending.loans[borrower];
            let before = lending.pools[loan.asset];
            let earned = outstanding(now, loan) - loan.principal;
            let fee = lending.late_fee(now, loan);
            let tenth = bps_share(earned as u64, 1_000);
            let half = bps_share(tenth, 5_000);
            let after = lending.repaid(contract, now, borrower);
            let pool = after.pools[loan.asset];
            let n = lending.calls.len() as int;
            &&& after.calls.take(n) == lending.calls
            &&& after.calls[n] == LendingCallView::Transfer {
                token: loan.asset,
                from: borrower,
                to: contract,
                amount: lending.total_due(now, loan) as u64,
            }
            &&& after.calls[n + 1] == LendingCallView::Transfer {
                token: loan.collateral_token,
                from: contract,
                to: borrower,
                amount: loan.collateral_amount,
            }
            &&& lending.nft_token is None ==> after.calls.len() == n + 2
            &&& lending.nft_token matches Some(nft) ==> after.calls.len() == n + 3 && after.calls[n
                + 2] == (LendingCallView::BurnNft { nft, loan_id: loan.loan_id })
            &&& after.loans == lending.loans.remove(borrower)
            &&& after.loans_by_id == lending.loans_by_id.remove(loan.loan_id)
            &&& after.late_fees_accrued == lending.late_fees_accrued.remove(loan.loan_id)
            &&& forall|other: Address, id: u64| #[trigger]
                after.loans_of(other).contains(id) <==> lending.loans_of(other).contains(id) && !(
                other == borrower && id == loan.loan_id)
            &&& before.total_borrowed - pool.total_borrowed == loan.principal
            &&& pool.total_deposits - before.total_deposits == earned - tenth
            &&& pool.retained_yield - before.retained_yield == tenth - half + fee
            &&& pool.bad_debt_reserve - before.bad_debt_reserve == half
            &&& after.pools == lending.pools.insert(
                loan.asset,
                PoolState {
                    total_borrowed: pool.total_borrowed,
                    total_deposits: pool.total_deposits,
                    retained_yield: pool.retained_yield,
                    bad_debt_reserve: pool.bad_debt_reserve,
                    ..before
                },
            )
            &&& after.events.last() == LendingEventView::Repay(
                RepayEvent {
                    loan_id: loan.loan_id,
                    borrower,
                    asset: loan.asset,
                    principal: loan.principal,
                    interest: earned as u64,
                    total_amount: lending.total_due(now, loan) as u64,
                    collateral_returned: loan.collateral_amount,
                },
            )
            &&& fee > 0 ==> after.events.len() == lending.events.len() + 2
                && after.events[lending.events.len() as int] == LendingEventView::LateFeeCharged(
                LateFeeChargedEvent {
                    loan_id: loan.loan_id,
                    borrower,
                    asset: loan.asset,
                    late_fee: fee,
                    days_overdue: lending.days_overdue(now, loan) as u64,
                    total_with_late_fees: lending.total_due(now, loan) as u64,
                    timestamp: now,
                },
            )
            &&& after == (LendingView {
                pools: after.pools,
                loans: after.loans,
                loans_by_id: after.loans_by_id,
                user_loans: after.user_loans,
                late_fees_accrued: after.late_fees_accrued,
                calls: after.calls,
                events: after.events,
                ..lending
            })
        }),
{
    let loan = lending.loans[borrower];
    let after = lending.repaid(contract, now, borrower);
    lemma_primary_on_file(lending, borrower);
    lemma_shares_of_interest(loan_interest(now, loan));
    assert(after.calls.take(lending.calls.len() as int) =~= lending.calls);
    lemma_unfiled(lending, borrower, loan.loan_id);
    assert forall|other: Address, id: u64| #[trigger]
        after.loans_of(other).contains(id) <==> lending.loans_of(other).contains(id) && !(other
            == borrower && id == loan.loan_id) by {
        lemma_without_contains(lending.loans_of(borrower), loan.loan_id, id);
        assert(after.user_loans == lending.unfiled(borrower, loan.loan_id).user_loans);
        assert(after.loans_of(borrower) == lending.unfiled(borrower, loan.loan_id).loans_of(
            borrower,
        ));
    }
}

/// A borrower who repays, at any time, gets back exactly the collateral that was handed
/// over for the loan.
pub proof fn law_collateral_comes_back(
    lending: LendingView,
    contract: Address,
    now: u64,
    later: u64,
    borrower: Address,
    asset: Address,
    amount: u64,
    collateral_token: Address,
    collateral_amount: u64,
    duration_seconds: u64,
)
    ensures
        ({
            let lent = lending.borrowed(
                contract,
                now,
                borrower,
                asset,
                amount,
                collateral_token,
                collateral_amount,
                duration_seconds,
            );
            let settled = lent.repaid(contract, later, borrower);
            &&& lent.calls[lending.calls.len() as int] == LendingCallView::Transfer {
                token: collateral_token,
                from: borrower,
                to: contract,
                amount: collateral_amount,
            }
            &&& settled.calls[lent.calls.len() as int + 1] == LendingCallView::Transfer {
                token: collateral_token,
                from: contract,
                to: borrower,
                amount: collateral_amount,
            }
            &&& !settled.loans.contains_key(borrower)
        }),
{
}

/// The interest of a loan is announced as it stands, and announcing it changes nothing.
pub proof fn law_announcements_are_admitted(lending: LendingView, borrower: Address)
    ensures
        lending.emit_error(borrower) is None <==> lending.admin is Some && !lending.access.entered
            && lending.loans.contains_key(borrower),
{
}

/// The protocol keeps a tenth of the interest, half of which covers bad debt.
pub proof fn law_limits()
    ensures
        PROTOCOL_INTEREST_BPS == 1_000,
        BAD_DEBT_RESERVE_BPS == 5_000,
{
}

/// Why the end of a loan's grace period cannot be told: every reason that is given
/// holds.
pub proof fn law_reason_grace(lending: LendingView, loan: LoanRecord)
    ensures
        match lending.grace_error(loan) {
            None => true,
            Some(LendingError::AssetNotSupported) => !lending.pools.contains_key(loan.asset),
            Some(LendingError::InvalidAmount) => lending.grace_end(loan) > u64::MAX,
            Some(_) => false,
        },
{
}

/// Why the late fee of a borrower cannot be told: every reason that is given holds.
pub proof fn law_reason_late_fee(lending: LendingView, borrower: Address)
    ensures
        match lending.late_fee_error(borrower) {
            None => true,
            Some(LendingError::NotInitialized) => lending.admin is None,
            Some(LendingError::NoOpenLoan) => !lending.loans.contains_key(borrower),
            Some(error) => lending.grace_error(lending.loans[borrower]) == Some(error),
        },
{
}

/// Why a loan is refused: every reason that is given holds.
pub proof fn law_reason_borrow(
    lending: LendingView,
    borrower: Address,
    asset: Address,
    amount: u64,
    collateral_token: Address,
    collateral_amount: u64,
    collateral_received: bool,
    paid_out: bool,
)
    ensures
        ({
            let pool = lending.pools[asset];
            match lending.borrow_error(
                borrower,
                asset,
                amount,
                collateral_token,
                collateral_amount,
                collateral_received,
                paid_out,
            ) {
                None => true,
                Some(LendingError::InvalidAmount) => amount == 0 || collateral_amount == 0,
                Some(LendingError::AssetNotSupported) => !lending.pools.contains_key(asset),
                Some(LendingError::PoolPaused) => pool.is_paused,
                Some(LendingError::CollateralNotWhitelisted) =>
                    !lending.accepts_collateral(collateral_token),
                Some(LendingError::LoanAlreadyExists) => lending.loans_of(borrower).len() > 0,
                Some(LendingError::InsufficientCollateral) => collateral_amount
                    < lending.required_collateral(amount),
                Some(LendingError::InsufficientLiquidity) => amount > liquidity(pool),
                Some(LendingError::UtilizationCapExceeded) => utilization((pool.total_borrowed
                    + amount) as u64, pool.total_deposits) > pool.utilization_cap_bps,
                Some(LendingError::TransferFailed) => !collateral_received || !paid_out,
                Some(error) => lending.entry_error() == Some(error),
            }
        }),
{
}

/// Why announcing the interest of a loan is refused: every reason that is given holds.
pub proof fn law_reason_emit(lending: LendingView, borrower: Address)
    ensures
        match lending.emit_error(borrower) {
            None => true,
            Some(LendingError::ReentrantCall) => lending.access.entered,
            Some(LendingError::NotInitialized) => lending.admin is None,
            Some(LendingError::NoOpenLoan) => !lending.loans.contains_key(borrower),
            Some(_) => false,
        },
{
}

/// Why a repayment is refused: every reason that is given holds.
pub proof fn law_reason_repay(
    lending: LendingView,
    borrower: Address,
    repayment_received: bool,
    collateral_returned: bool,
)
    ensures
        match lending.repay_error(borrower, repayment_received, collateral_returned) {
            None => true,
            Some(LendingError::TransferFailed) => !repayment_received || !collateral_returned,
            Some(error) => lending.entry_error() == Some(error) || lending.late_fee_error(borrower)
                == Some(error),
        },
{
}

/// The token of a loan records the loan as it is, bound to no plan, with the ratio of
/// principal to collateral and the text for it; it is minted to the borrower where there
/// is a token contract, and burnt under the loan's id.
pub proof fn law_loan_tokens(lending: LendingView, loan: LoanRecord)
    ensures
        ({
            let record = nft_metadata(loan);
            &&& record.loan_id == loan.loan_id
            &&& record.borrower == loan.borrower
            &&& record.principal == loan.principal
            &&& record.collateral_amount == loan.collateral_amount
            &&& record.collateral_token == loan.collateral_token
            &&& record.due_date == loan.due_date
            &&& record.ltv_ratio_bps == ltv_bps(loan.principal, loan.collateral_amount)
            &&& record.plan_id == 0
            &&& record.uri == loan_nft_uri(
                loan.loan_id,
                loan.principal,
                loan.collateral_amount,
                record.ltv_ratio_bps,
                loan.due_date,
            )
        }),
        lending.nft_token is None ==> lending.with_minted(loan) == lending && lending.with_burnt(
            loan.loan_id,
        ) == lending,
        lending.nft_token matches Some(nft) ==> {
            &&& lending.with_minted(loan) == (LendingView {
                calls: lending.calls.push(
                    LendingCallView::MintNft {
                        nft,
                        to: loan.borrower,
                        metadata: nft_metadata(loan),
                    },
                ),
                ..lending
            })
            &&& lending.with_burnt(loan.loan_id) == (LendingView {
                calls: lending.calls.push(LendingCallView::BurnNft { nft, loan_id: loan.loan_id }),
                ..lending
            })
        },
{
}

/// A loan goes on file under its id, for its borrower and at the end of the borrower's
/// list; it comes off all three, and the list goes with its last loan.
pub proof fn law_filing_loans(lending: LendingView, loan: LoanRecord, loan_id: u64)
    requires
        lending.next_loan_id < 0xffff_ffff_ffff_ffff,
    ensures
        ({
            let after = lending.filed(loan);
            &&& after.next_loan_id == lending.next_loan_id + 1
            &&& after == (LendingView {
                loans: lending.loans.insert(loan.borrower, loan),
                loans_by_id: lending.loans_by_id.insert(loan.loan_id, loan),
                user_loans: lending.user_loans.insert(
                    loan.borrower,
                    lending.loans_of(loan.borrower).push(loan.loan_id),
                ),
                next_loan_id: after.next_loan_id,
                ..lending
            })
        }),
        ({
            let after = lending.unfiled(loan.borrower, loan_id);
            &&& after.loans_of(loan.borrower) == without(lending.loans_of(loan.borrower), loan_id)
            &&& after.user_loans.contains_key(loan.borrower) ==> after.user_loans[loan.borrower].len()
                > 0
            &&& after == (LendingView {
                loans: lending.loans.remove(loan.borrower),
                loans_by_id: lending.loans_by_id.remove(loan_id),
                user_loans: after.user_loans,
                ..lending
            })
            &&& forall|who: Address|
                who != loan.borrower ==> #[trigger] after.loans_of(who) == lending.loans_of(who)
        }),
{
    let rest = without(lending.loans_of(loan.borrower), loan_id);
    if rest.len() == 0 {
        assert(rest =~= Seq::<u64>::empty());
    }
}

} // verus!
