//! Refinancing, consolidating and splitting loans.
use vstd::prelude::*;

use crate::host::{Address, Env};
use crate::lending::loans::{lemma_filed, lemma_primary_on_file, lemma_unfiled, outstanding};
use crate::lending::rates::{linear_rate, utilization, REFINANCING_FEE_BPS};
use crate::lending::state::{lemma_pool_update, LendingContract, LendingView};
use crate::lending::types::{
    LendingCallView, LendingError, LendingEvent, LendingEventView, LoanRecord, LoanRefinancedEvent,
    LoanSplitEvent, LoanSplitView, LoansConsolidatedEvent, LoansConsolidatedView, PoolState,
    RefinanceTerms,
};
use crate::math::{bps_share, low64, mul_div, share_bps, take_low64};

verus! {

/// Most loans that one consolidation takes.
pub const MAX_CONSOLIDATED_LOANS: usize = 10;

/// Most loans that one loan can be split into.
pub const MAX_SPLIT_LOANS: usize = 5;

/// The fee for new terms on a balance.
pub open spec fn new_terms_fee(balance: u64) -> u64 {
    bps_share(balance, REFINANCING_FEE_BPS)
}

/// A sum of amounts.
pub open spec fn total(amounts: Seq<u64>) -> int
    decreases amounts.len(),
{
    if amounts.len() == 0 {
        0
    } else {
        total(amounts.drop_last()) + amounts.last()
    }
}

/// The part of a balance that an amount makes up, in whole basis points.
pub open spec fn part_bps(balance: u64, amount: u64) -> int {
    if balance == 0 {
        0
    } else {
        (amount * 10_000) / (balance as int)
    }
}

/// Collateral of the part of a split loan that takes over `amount` of its balance.
pub open spec fn split_collateral(balance: u64, collateral: u64, amount: u64) -> u64 {
    low64((collateral * part_bps(balance, amount)) / 10_000)
}

impl LendingView {
    /// Why a borrower's loan cannot get new terms: there is none, or it is overdue.
    pub open spec fn standing_error(self, now: u64, borrower: Address) -> Option<LendingError> {
        if self.late_fee_error(borrower) is Some {
            self.late_fee_error(borrower)
        } else if now > self.grace_end(self.loans[borrower]) {
            Some(LendingError::CannotRefinance)
        } else {
            None
        }
    }

    /// Why there are no refinance terms for a borrower.
    pub open spec fn terms_error(self, now: u64, borrower: Address) -> Option<LendingError> {
        let balance = outstanding(now, self.loans[borrower]);
        if self.admin is None {
            Some(LendingError::NotInitialized)
        } else if !self.loans.contains_key(borrower) {
            Some(LendingError::NoOpenLoan)
        } else if balance + new_terms_fee(balance as u64) > u64::MAX {
            Some(LendingError::InvalidRefinanceTerms)
        } else if !self.pools.contains_key(self.loans[borrower].asset) {
            Some(LendingError::AssetNotSupported)
        } else {
            None
        }
    }

    /// The terms on which a borrower's loan can be refinanced: the balance and
    /// the fee become the principal, at the current rate.
    pub open spec fn terms(self, now: u64, borrower: Address, new_duration_seconds: u64)
        -> RefinanceTerms {
        let loan = self.loans[borrower];
        let balance = outstanding(now, loan) as u64;
        let fee = new_terms_fee(balance);
        RefinanceTerms {
            outstanding_balance: balance,
            new_principal: (balance + fee) as u64,
            refinancing_fee: fee,
            total_required: (balance + fee) as u64,
            new_interest_rate_bps: self.current_rate(loan.asset),
            new_duration_seconds,
            new_due_date: (now + new_duration_seconds) as u64,
        }
    }

    /// Why a refinancing is refused. `fee_received` is whether the fee arrived.
    pub open spec fn refinance_error(
        self,
        now: u64,
        borrower: Address,
        fee_received: bool,
    ) -> Option<LendingError> {
        let loan = self.loans[borrower];
        let pool = self.pools[loan.asset];
        let terms = self.terms(now, borrower, 0);
        let new_borrowed = pool.total_borrowed + (terms.new_principal - loan.principal);
        if self.unpaused_entry_error() is Some {
            self.unpaused_entry_error()
        } else if self.standing_error(now, borrower) is Some {
            self.standing_error(now, borrower)
        } else if self.terms_error(now, borrower) is Some {
            self.terms_error(now, borrower)
        } else if !fee_received {
            Some(LendingError::TransferFailed)
        } else if pool.retained_yield + terms.refinancing_fee > u64::MAX {
            Some(LendingError::InvalidRefinanceTerms)
        } else if terms.new_principal == loan.principal {
            None
        } else if new_borrowed > u64::MAX {
            Some(LendingError::InvalidRefinanceTerms)
        } else if utilization(new_borrowed as u64, pool.total_deposits)
            > pool.utilization_cap_bps {
            Some(LendingError::UtilizationCapExceeded)
        } else {
            None
        }
    }

    /// The contract after a loan was refinanced.
    pub open spec fn refinanced(
        self,
        contract: Address,
        now: u64,
        borrower: Address,
        new_duration_seconds: u64,
    ) -> LendingView {
        let old_loan = self.loans[borrower];
        let pool = self.pools[old_loan.asset];
        let terms = self.terms(now, borrower, new_duration_seconds);
        let new_loan = LoanRecord {
            loan_id: self.next_loan_id,
            borrower,
            principal: terms.new_principal,
            borrow_time: now,
            due_date: terms.new_due_date,
            interest_rate_bps: terms.new_interest_rate_bps,
            ..old_loan
        };
        self.with_transfer(
            old_loan.asset,
            borrower,
            contract,
            terms.refinancing_fee,
        ).unfiled(borrower, old_loan.loan_id).with_burnt(old_loan.loan_id).filed(
            new_loan,
        ).with_minted(new_loan).with_pool(
            old_loan.asset,
            PoolState {
                retained_yield: (pool.retained_yield + terms.refinancing_fee) as u64,
                total_borrowed: (pool.total_borrowed + (terms.new_principal
                    - old_loan.principal)) as u64,
                ..pool
            },
        ).with_event(
            LendingEventView::LoanRefinanced(
                LoanRefinancedEvent {
                    old_loan_id: old_loan.loan_id,
                    new_loan_id: new_loan.loan_id,
                    borrower,
                    asset: old_loan.asset,
                    old_principal: old_loan.principal,
                    new_principal: terms.new_principal,
                    refinancing_fee: terms.refinancing_fee,
                    old_interest_rate_bps: old_loan.interest_rate_bps,
                    new_interest_rate_bps: terms.new_interest_rate_bps,
                    old_due_date: old_loan.due_date,
                    new_due_date: terms.new_due_date,
                    timestamp: now,
                },
            ),
        )
    }

    /// Why one of the loans of a consolidation is not accepted: it is unknown, of
    /// another borrower, overdue, or differs from the first in collateral token
    /// or asset.
    pub open spec fn member_error(
        self,
        now: u64,
        borrower: Address,
        loan_ids: Seq<u64>,
        i: int,
    ) -> Option<LendingError> {
        let loan = self.loans_by_id[loan_ids[i]];
        let first = self.loans_by_id[loan_ids[0]];
        if !self.loans_by_id.contains_key(loan_ids[i]) {
            Some(LendingError::LoanNotFound)
        } else if loan.borrower != borrower {
            Some(LendingError::Unauthorized)
        } else if self.grace_error(loan) is Some {
            self.grace_error(loan)
        } else if now > self.grace_end(loan) {
            Some(LendingError::CannotRefinance)
        } else if loan.collateral_token != first.collateral_token || loan.asset != first.asset {
            Some(LendingError::InvalidRefinanceTerms)
        } else {
            None
        }
    }

    /// The first reason, in the order of the list, why the first `n` loans cannot
    /// be consolidated.
    pub open spec fn members_error(
        self,
        now: u64,
        borrower: Address,
        loan_ids: Seq<u64>,
        n: int,
    ) -> Option<LendingError>
        decreases n,
    {
        if n <= 0 {
            None
        } else if self.members_error(now, borrower, loan_ids, n - 1) is Some {
            self.members_error(now, borrower, loan_ids, n - 1)
        } else {
            self.member_error(now, borrower, loan_ids, n - 1)
        }
    }

    /// Balance of the first `n` loans of a list.
    pub open spec fn balance_of_loans(self, now: u64, loan_ids: Seq<u64>, n: int) -> int
        decreases n,
    {
        if n <= 0 {
            0
        } else {
            self.balance_of_loans(now, loan_ids, n - 1) + outstanding(
                now,
                self.loans_by_id[loan_ids[n - 1]],
            )
        }
    }

    /// Collateral of the first `n` loans of a list.
    pub open spec fn collateral_of_loans(self, loan_ids: Seq<u64>, n: int) -> int
        decreases n,
    {
        if n <= 0 {
            0
        } else {
            self.collateral_of_loans(loan_ids, n - 1) + self.loans_by_id[loan_ids[n
                - 1]].collateral_amount
        }
    }

    /// Why a consolidation is refused. `fee_received` is whether the fee arrived.
    pub open spec fn consolidate_error(
        self,
        now: u64,
        borrower: Address,
        loan_ids: Seq<u64>,
        fee_received: bool,
    ) -> Option<LendingError> {
        let members = self.members_error(now, borrower, loan_ids, loan_ids.len() as int);
        if self.unpaused_entry_error() is Some {
            self.unpaused_entry_error()
        } else if loan_ids.len() == 0 || loan_ids.len() > MAX_CONSOLIDATED_LOANS {
            Some(LendingError::InvalidAmount)
        } else if members is Some {
            members
        } else if !fee_received {
            Some(LendingError::TransferFailed)
        } else {
            None
        }
    }

    /// Whether the sums of a consolidation are within 64 bits.
    pub open spec fn consolidation_fits(self, now: u64, loan_ids: Seq<u64>) -> bool {
        let n = loan_ids.len() as int;
        let balance = self.balance_of_loans(now, loan_ids, n);
        &&& balance + new_terms_fee(balance as u64) <= u64::MAX
        &&& self.collateral_of_loans(loan_ids, n) <= u64::MAX
    }

    /// The contract after the first `n` loans of a list were taken off file and
    /// their tokens burnt.
    pub open spec fn all_unfiled(self, borrower: Address, loan_ids: Seq<u64>, n: int) -> LendingView
        decreases n,
    {
        if n <= 0 {
            self
        } else {
            self.all_unfiled(borrower, loan_ids, n - 1).unfiled(
                borrower,
                loan_ids[n - 1],
            ).with_burnt(loan_ids[n - 1])
        }
    }

    /// The loan that takes the place of consolidated loans.
    pub open spec fn consolidated_loan(
        self,
        now: u64,
        borrower: Address,
        loan_ids: Seq<u64>,
        new_duration_seconds: u64,
    ) -> LoanRecord {
        let n = loan_ids.len() as int;
        let first = self.loans_by_id[loan_ids[0]];
        let balance = self.balance_of_loans(now, loan_ids, n) as u64;
        LoanRecord {
            loan_id: self.next_loan_id,
            borrower,
            asset: first.asset,
            principal: (balance + new_terms_fee(balance)) as u64,
            collateral_amount: self.collateral_of_loans(loan_ids, n) as u64,
            collateral_token: first.collateral_token,
            borrow_time: now,
            due_date: (now + new_duration_seconds) as u64,
            interest_rate_bps: self.current_rate(first.asset),
        }
    }

    /// The contract after loans were consolidated.
    pub open spec fn consolidated(
        self,
        contract: Address,
        now: u64,
        borrower: Address,
        loan_ids: Seq<u64>,
        new_duration_seconds: u64,
    ) -> LendingView {
        let n = loan_ids.len() as int;
        let asset = self.loans_by_id[loan_ids[0]].asset;
        let balance = self.balance_of_loans(now, loan_ids, n) as u64;
        let fee = new_terms_fee(balance);
        let pool = self.pools[asset];
        let loan = self.consolidated_loan(now, borrower, loan_ids, new_duration_seconds);
        self.with_transfer(asset, borrower, contract, fee).all_unfiled(
            borrower,
            loan_ids,
            n,
        ).filed(loan).with_minted(loan).with_pool(
            asset,
            PoolState { retained_yield: (pool.retained_yield + fee) as u64, ..pool },
        ).with_event(
            LendingEventView::LoansConsolidated(
                LoansConsolidatedView {
                    old_loan_ids: loan_ids,
                    new_loan_id: loan.loan_id,
                    borrower,
                    asset,
                    total_old_principal: balance,
                    new_principal: loan.principal,
                    consolidation_fee: fee,
                    new_due_date: loan.due_date,
                    timestamp: now,
                },
            ),
        )
    }

    /// Why a split is refused. `fee_received` is whether the fee arrived.
    pub open spec fn split_error(
        self,
        now: u64,
        borrower: Address,
        split_amounts: Seq<u64>,
        fee_received: bool,
    ) -> Option<LendingError> {
        if self.unpaused_entry_error() is Some {
            self.unpaused_entry_error()
        } else if split_amounts.len() == 0 || split_amounts.len() > MAX_SPLIT_LOANS {
            Some(LendingError::InvalidAmount)
        } else if self.standing_error(now, borrower) is Some {
            self.standing_error(now, borrower)
        } else if total(split_amounts) != outstanding(now, self.loans[borrower]) {
            Some(LendingError::InvalidSplitAmounts)
        } else if !fee_received {
            Some(LendingError::TransferFailed)
        } else {
            None
        }
    }

    /// The `i`-th loan that a loan is split into.
    pub open spec fn split_part(
        self,
        now: u64,
        borrower: Address,
        split_amounts: Seq<u64>,
        new_duration_seconds: u64,
        i: int,
    ) -> LoanRecord {
        let old_loan = self.loans[borrower];
        LoanRecord {
            loan_id: (self.next_loan_id + i) as u64,
            borrower,
            asset: old_loan.asset,
            principal: split_amounts[i],
            collateral_amount: split_collateral(
                outstanding(now, old_loan) as u64,
                old_loan.collateral_amount,
                split_amounts[i],
            ),
            collateral_token: old_loan.collateral_token,
            borrow_time: now,
            due_date: (now + new_duration_seconds) as u64,
            interest_rate_bps: self.current_rate(old_loan.asset),
        }
    }

    /// `base` after the first `n` parts of a split loan of this contract were put
    /// on file and their tokens minted.
    pub open spec fn parts_filed(
        self,
        base: LendingView,
        now: u64,
        borrower: Address,
        split_amounts: Seq<u64>,
        new_duration_seconds: u64,
        n: int,
    ) -> LendingView
        decreases n,
    {
        if n <= 0 {
            base
        } else {
            let loan = self.split_part(now, borrower, split_amounts, new_duration_seconds, n - 1);
            self.parts_filed(
                base,
                now,
                borrower,
                split_amounts,
                new_duration_seconds,
                n - 1,
            ).filed(loan).with_minted(loan)
        }
    }

    /// Ids of the parts of a split loan.
    pub open spec fn part_ids(self, n: nat) -> Seq<u64> {
        Seq::new(n, |i: int| (self.next_loan_id + i) as u64)
    }

    /// The contract after a loan was split.
    pub open spec fn split(
        self,
        contract: Address,
        now: u64,
        borrower: Address,
        split_amounts: Seq<u64>,
        new_duration_seconds: u64,
    ) -> LendingView {
        let old_loan = self.loans[borrower];
        let fee = new_terms_fee(outstanding(now, old_loan) as u64);
        let pool = self.pools[old_loan.asset];
        let base = self.with_transfer(old_loan.asset, borrower, contract, fee).unfiled(
            borrower,
            old_loan.loan_id,
        ).with_burnt(old_loan.loan_id);
        self.parts_filed(
            base,
            now,
            borrower,
            split_amounts,
            new_duration_seconds,
            split_amounts.len() as int,
        ).with_pool(
            old_loan.asset,
            PoolState { retained_yield: (pool.retained_yield + fee) as u64, ..pool },
        ).with_event(
            LendingEventView::LoanSplit(
                LoanSplitView {
                    old_loan_id: old_loan.loan_id,
                    new_loan_ids: self.part_ids(split_amounts.len()),
                    borrower,
                    asset: old_loan.asset,
                    old_principal: old_loan.principal,
                    new_principals: split_amounts,
                    split_fee: fee,
                    timestamp: now,
                },
            ),
        )
    }
}

/// Collateral of the first `n` parts of a split loan.
pub open spec fn collateral_of_parts(
    balance: u64,
    collateral: u64,
    amounts: Seq<u64>,
    n: int,
) -> int
    decreases n,
{
    if n <= 0 {
        0
    } else {
        collateral_of_parts(balance, collateral, amounts, n - 1) + split_collateral(
            balance,
            collateral,
            amounts[n - 1],
        )
    }
}

/// Whole basis points of the first `n` parts of a balance.
spec fn parts_bps(balance: u64, amounts: Seq<u64>, n: int) -> int
    decreases n,
{
    if n <= 0 {
        0
    } else {
        parts_bps(balance, amounts, n - 1) + part_bps(balance, amounts[n - 1])
    }
}

proof fn lemma_part_bps(balance: u64, amount: u64)
    ensures
        0 <= part_bps(balance, amount),
        part_bps(balance, amount) * balance <= amount * 10_000,
        amount <= balance ==> part_bps(balance, amount) <= 10_000,
{
    if balance > 0 {
        let b = balance as int;
        let x = amount * 10_000;
        let q = x / b;
        assert(0 <= q && q * b <= x) by (nonlinear_arith)
            requires
                q == x / b,
                b > 0,
                x >= 0,
        ;
        if amount <= balance {
            assert(q <= 10_000) by (nonlinear_arith)
                requires
                    q * b <= x,
                    x <= b * 10_000,
                    b > 0,
            ;
        }
    } else {
        assert(0 * balance == 0);
    }
}

proof fn lemma_parts(balance: u64, collateral: u64, amounts: Seq<u64>, n: int)
    requires
        0 <= n <= amounts.len(),
        forall|i: int| 0 <= i < amounts.len() ==> amounts[i] <= balance,
    ensures
        0 <= parts_bps(balance, amounts, n),
        parts_bps(balance, amounts, n) * balance <= total(amounts.take(n)) * 10_000,
        0 <= collateral_of_parts(balance, collateral, amounts, n),
        collateral_of_parts(balance, collateral, amounts, n) * 10_000 <= collateral * parts_bps(
            balance,
            amounts,
            n,
        ),
    decreases n,
{
    if n == 0 {
        assert(0 * balance == 0);
        assert(collateral * 0 == 0);
        assert(amounts.take(0) =~= Seq::<u64>::empty());
    } else {
        let amount = amounts[n - 1];
        lemma_parts(balance, collateral, amounts, n - 1);
        lemma_part_bps(balance, amount);
        assert(amounts.take(n).drop_last() =~= amounts.take(n - 1));
        assert(amounts.take(n).last() == amount);
        let before = parts_bps(balance, amounts, n - 1);
        let part = part_bps(balance, amount);
        assert((before + part) * balance == before * balance + part * balance) by (nonlinear_arith);
        assert(collateral * (before + part) == collateral * before + collateral * part)
            by (nonlinear_arith);
        let c = collateral as int;
        assert(0 <= c * part <= c * 10_000) by (nonlinear_arith)
            requires
                0 <= part <= 10_000,
                0 <= c,
        ;
        assert((c * part) / 10_000 <= c);
        assert(split_collateral(balance, collateral, amount) == (c * part) / 10_000);
    }
}

proof fn lemma_total_bounds(amounts: Seq<u64>)
    ensures
        0 <= total(amounts),
        forall|i: int| 0 <= i < amounts.len() ==> amounts[i] <= total(amounts),
    decreases amounts.len(),
{
    if amounts.len() > 0 {
        lemma_total_bounds(amounts.drop_last());
        assert forall|i: int| 0 <= i < amounts.len() implies amounts[i] <= total(amounts) by {
            if i < amounts.len() - 1 {
                assert(amounts.drop_last()[i] <= total(amounts.drop_last()));
            }
        }
    }
}

/// A split creates no collateral: the parts together have at most the
/// collateral of the loan, and no part has more.
pub proof fn law_split_creates_no_collateral(balance: u64, collateral: u64, amounts: Seq<u64>)
    requires
        total(amounts) == balance,
    ensures
        0 <= collateral_of_parts(balance, collateral, amounts, amounts.len() as int) <= collateral,
{
    let n = amounts.len() as int;
    lemma_total_bounds(amounts);
    lemma_parts(balance, collateral, amounts, n);
    assert(amounts.take(n) =~= amounts);
    let sum = parts_bps(balance, amounts, n);
    let parts = collateral_of_parts(balance, collateral, amounts, n);
    if balance > 0 {
        assert(sum <= 10_000) by (nonlinear_arith)
            requires
                sum * balance <= balance * 10_000,
                balance > 0,
        ;
    } else {
        assert(sum == 0) by {
            lemma_parts_bps_of_nothing(amounts, n);
        }
    }
    assert(parts <= collateral) by (nonlinear_arith)
        requires
            parts * 10_000 <= collateral * sum,
            0 <= sum <= 10_000,
            0 <= collateral,
    ;
}

proof fn lemma_parts_bps_of_nothing(amounts: Seq<u64>, n: int)
    ensures
        parts_bps(0, amounts, n) == 0,
    decreases n,
{
    if n > 0 {
        lemma_parts_bps_of_nothing(amounts, n - 1);
    }
}

/// A member of an accepted consolidation is a loan of the borrower on file.
proof fn lemma_members(lending: LendingView, now: u64, borrower: Address, ids: Seq<u64>, n: int)
    requires
        lending.members_error(now, borrower, ids, n) is None,
        0 <= n <= ids.len(),
    ensures
        forall|i: int|
            0 <= i < n ==> #[trigger] lending.member_error(now, borrower, ids, i) is None,
    decreases n,
{
    if n > 0 {
        lemma_members(lending, now, borrower, ids, n - 1);
    }
}

/// A failed member fails every longer list.
proof fn lemma_members_fail(
    lending: LendingView,
    now: u64,
    borrower: Address,
    ids: Seq<u64>,
    i: int,
    n: int,
)
    requires
        0 < i <= n,
        lending.members_error(now, borrower, ids, i) is Some,
    ensures
        lending.members_error(now, borrower, ids, n) == lending.members_error(
            now,
            borrower,
            ids,
            i,
        ),
    decreases n,
{
    if i < n {
        lemma_members_fail(lending, now, borrower, ids, i, n - 1);
    }
}

/// What taking loans off file leaves alone.
proof fn lemma_all_unfiled(lending: LendingView, borrower: Address, ids: Seq<u64>, n: int)
    requires
        lending.well_formed(),
        0 <= n <= ids.len(),
        forall|i: int|
            0 <= i < ids.len() ==> lending.loans_by_id.contains_key(#[trigger] ids[i])
                && lending.loans_by_id[ids[i]].borrower == borrower,
    ensures
        ({
            let after = lending.all_unfiled(borrower, ids, n);
            &&& after.well_formed()
            &&& after.admin == lending.admin
            &&& after.next_loan_id == lending.next_loan_id
            &&& after.pools == lending.pools
            &&& after.nft_token == lending.nft_token
            &&& forall|id: u64| #[trigger]
                after.loans_by_id.contains_key(id) <==> lending.loans_by_id.contains_key(id)
                    && !ids.take(n).contains(id)
            &&& forall|id: u64| #[trigger]
                after.loans_by_id.contains_key(id) ==> after.loans_by_id[id]
                    == lending.loans_by_id[id]
        }),
    decreases n,
{
    if n > 0 {
        lemma_all_unfiled(lending, borrower, ids, n - 1);
        let before = lending.all_unfiled(borrower, ids, n - 1);
        lemma_unfiled(before, borrower, ids[n - 1]);
        assert forall|id: u64|
            ids.take(n).contains(id) <==> ids.take(n - 1).contains(id) || id == ids[n - 1] by {
            crate::list::lemma_push_contains(ids.take(n - 1), ids[n - 1], id);
            assert(ids.take(n) =~= ids.take(n - 1).push(ids[n - 1]));
        }
    } else {
        assert(ids.take(0) =~= Seq::<u64>::empty());
    }
}

/// A consolidation takes exactly its members off file, and puts one loan in
/// their place.
pub proof fn law_consolidation_replaces_members(
    lending: LendingView,
    contract: Address,
    now: u64,
    borrower: Address,
    loan_ids: Seq<u64>,
    new_duration_seconds: u64,
)
    requires
        lending.well_formed(),
        lending.next_loan_id < u64::MAX,
        lending.consolidate_error(now, borrower, loan_ids, true) is None,
    ensures
        ({
            let after = lending.consolidated(
                contract,
                now,
                borrower,
                loan_ids,
                new_duration_seconds,
            );
            &&& forall|id: u64| #[trigger]
                after.loans_by_id.contains_key(id) <==> id == lending.next_loan_id || (
                lending.loans_by_id.contains_key(id) && !loan_ids.contains(id))
            &&& after.loans[borrower] == lending.consolidated_loan(
                now,
                borrower,
                loan_ids,
                new_duration_seconds,
            )
        }),
{
    let n = loan_ids.len() as int;
    lemma_members(lending, now, borrower, loan_ids, n);
    let asset = lending.loans_by_id[loan_ids[0]].asset;
    let fee = new_terms_fee(lending.balance_of_loans(now, loan_ids, n) as u64);
    let paid = lending.with_transfer(asset, borrower, contract, fee);
    assert forall|i: int| 0 <= i < loan_ids.len() implies paid.loans_by_id.contains_key(
        #[trigger] loan_ids[i],
    ) && paid.loans_by_id[loan_ids[i]].borrower == borrower by {
        assert(lending.member_error(now, borrower, loan_ids, i) is None);
    }
    lemma_all_unfiled(paid, borrower, loan_ids, n);
    assert(loan_ids.take(n) =~= loan_ids);
}

/// What putting the parts of a split loan on file leaves alone.
proof fn lemma_parts_filed(
    lending: LendingView,
    base: LendingView,
    now: u64,
    borrower: Address,
    split_amounts: Seq<u64>,
    new_duration_seconds: u64,
    n: int,
)
    requires
        base.well_formed(),
        base.admin is Some,
        base.next_loan_id == lending.next_loan_id,
        0 <= n,
        lending.next_loan_id + n <= u64::MAX,
    ensures
        ({
            let after = lending.parts_filed(
                base,
                now,
                borrower,
                split_amounts,
                new_duration_seconds,
                n,
            );
            &&& after.well_formed()
            &&& after.admin is Some
            &&& after.next_loan_id == lending.next_loan_id + n
            &&& after.pools == base.pools
            &&& after.nft_token == base.nft_token
        }),
    decreases n,
{
    if n > 0 {
        lemma_parts_filed(
            lending,
            base,
            now,
            borrower,
            split_amounts,
            new_duration_seconds,
            n - 1,
        );
        let before = lending.parts_filed(
            base,
            now,
            borrower,
            split_amounts,
            new_duration_seconds,
            n - 1,
        );
        let loan = lending.split_part(now, borrower, split_amounts, new_duration_seconds, n - 1);
        lemma_filed(before, loan);
    }
}

/// A loan with new terms owes the old balance and the fee, and nothing else; its
/// collateral is what it was.
pub proof fn law_refinance_keeps_collateral(
    lending: LendingView,
    contract: Address,
    now: u64,
    borrower: Address,
    new_duration_seconds: u64,
)
    requires
        lending.loans.contains_key(borrower),
        lending.terms_error(now, borrower) is None,
    ensures
        ({
            let before = lending.loans[borrower];
            let after = lending.refinanced(
                contract,
                now,
                borrower,
                new_duration_seconds,
            ).loans[borrower];
            &&& after.collateral_amount == before.collateral_amount
            &&& after.collateral_token == before.collateral_token
            &&& after.asset == before.asset
            &&& after.principal == outstanding(now, before) + new_terms_fee(
                outstanding(now, before) as u64,
            )
        }),
{
}

impl LendingContract {
    /// Get the refinancing fee rate in basis points
    pub fn get_refinancing_fee_rate() -> (rate: u32)
        ensures
            rate == 50,
    {
        REFINANCING_FEE_BPS
    }

    /// Calculate outstanding balance for a loan (principal + accrued interest)
    pub fn calculate_outstanding_balance(env: &Env, loan: &LoanRecord) -> (balance: u64)
        requires
            outstanding(env.timestamp, *loan) <= u64::MAX,
        ensures
            balance == outstanding(env.timestamp, *loan),
    {
        loan.principal + Self::interest_on(env, loan)
    }

    /// Get refinancing terms for an existing loan
    pub fn get_refinance_terms(&self, env: &Env, borrower: Address, new_duration_seconds: u64) -> (
    result: Result<RefinanceTerms, LendingError>)
        requires
            self@.admin is Some && self@.loans.contains_key(borrower) ==> outstanding(
                env.timestamp,
                self@.loans[borrower],
            ) <= u64::MAX,
            self@.terms_error(env.timestamp, borrower) is None ==> env.timestamp
                + new_duration_seconds <= u64::MAX,
        ensures
            match result {
                Ok(terms) => self@.terms_error(env.timestamp, borrower) is None && terms
                    == self@.terms(env.timestamp, borrower, new_duration_seconds),
                Err(e) => self@.terms_error(env.timestamp, borrower) == Some(e),
            },
    {
        match self.require_initialized() {
            Err(e) => {
                return Err(e);
            },
            Ok(()) => {},
        }
        let loan = match self.open_loan(borrower) {
            Ok(loan) => loan,
            Err(e) => {
                return Err(e);
            },
        };
        let outstanding_balance: u64 = Self::calculate_outstanding_balance(env, &loan);
        let refinancing_fee: u64 = share_bps(outstanding_balance, REFINANCING_FEE_BPS);
        let new_principal: u64 = match outstanding_balance.checked_add(refinancing_fee) {
            Some(sum) => sum,
            None => {
                return Err(LendingError::InvalidRefinanceTerms);
            },
        };
        let pool = match self.get_pool(loan.asset) {
            Ok(pool) => pool,
            Err(e) => {
                return Err(e);
            },
        };
        Ok(
            RefinanceTerms {
                outstanding_balance,
                new_principal,
                refinancing_fee,
                total_required: new_principal,
                new_interest_rate_bps: Self::rate_of(&pool),
                new_duration_seconds,
                new_due_date: env.timestamp + new_duration_seconds,
            },
        )
    }

    /// Refinance an existing loan with new terms
    pub fn refinance_loan(
        &mut self,
        env: &Env,
        borrower: Address,
        new_duration_seconds: u64,
        fee_received: bool,
    ) -> (result: Result<u64, LendingError>)
        requires
            old(self)@.well_formed(),
            env.authorized(borrower),
            old(self)@.unpaused_entry_error() is None && old(self)@.standing_error(
                env.timestamp,
                borrower,
            ) is None ==> outstanding(env.timestamp, old(self)@.loans[borrower]) <= u64::MAX,
            old(self)@.unpaused_entry_error() is None && old(self)@.standing_error(
                env.timestamp,
                borrower,
            ) is None && old(self)@.terms_error(env.timestamp, borrower) is None ==> env.timestamp
                + new_duration_seconds <= u64::MAX,
            old(self)@.refinance_error(env.timestamp, borrower, fee_received) is None
                ==> old(self)@.next_loan_id < u64::MAX,
        ensures
            ({
                let error = old(self)@.refinance_error(env.timestamp, borrower, fee_received);
                match result {
                    Err(e) => error == Some(e) && final(self)@ == old(self)@,
                    Ok(id) => error is None && id == old(self)@.next_loan_id && final(self)@
                        == old(self)@.refinanced(
                        env.contract,
                        env.timestamp,
                        borrower,
                        new_duration_seconds,
                    ),
                }
            }),
            final(self)@.well_formed(),
    {
        match self.check_unpaused_entry() {
            Some(e) => {
                return Err(e);
            },
            None => {},
        }
        let old_loan = match self.open_loan(borrower) {
            Ok(loan) => loan,
            Err(e) => {
                return Err(e);
            },
        };
        match self.is_in_grace_period(env, borrower) {
            Ok(is_in_grace) => {
                if !is_in_grace {
                    return Err(LendingError::CannotRefinance);
                }
            },
            Err(e) => {
                return Err(e);
            },
        }
        let terms = match self.get_refinance_terms(env, borrower, new_duration_seconds) {
            Ok(terms) => terms,
            Err(e) => {
                return Err(e);
            },
        };
        if !fee_received {
            return Err(LendingError::TransferFailed);
        }
        let pool = match self.get_pool(old_loan.asset) {
            Ok(pool) => pool,
            Err(e) => {
                return Err(e);
            },
        };
        let retained_yield: u64 = match pool.retained_yield.checked_add(terms.refinancing_fee) {
            Some(sum) => sum,
            None => {
                return Err(LendingError::InvalidRefinanceTerms);
            },
        };
        let additional_principal: u64 = terms.new_principal - old_loan.principal;
        let mut total_borrowed: u64 = pool.total_borrowed;
        if additional_principal > 0 {
            total_borrowed = match pool.total_borrowed.checked_add(additional_principal) {
                Some(sum) => sum,
                None => {
                    return Err(LendingError::InvalidRefinanceTerms);
                },
            };
            if Self::get_utilization_bps(total_borrowed, pool.total_deposits)
                > pool.utilization_cap_bps {
                return Err(LendingError::UtilizationCapExceeded);
            }
        }
        proof {
            lemma_primary_on_file(self@, borrower);
        }
        let _ = self.transfer(
            old_loan.asset,
            borrower,
            env.contract,
            terms.refinancing_fee,
            fee_received,
        );
        proof {
            lemma_unfiled(self@, borrower, old_loan.loan_id);
        }
        self.unfile_loan(borrower, old_loan.loan_id);
        self.burn_nft(old_loan.loan_id);
        let new_loan_id: u64 = self.get_next_loan_id();
        let new_loan = LoanRecord {
            loan_id: new_loan_id,
            borrower,
            asset: old_loan.asset,
            principal: terms.new_principal,
            collateral_amount: old_loan.collateral_amount,
            collateral_token: old_loan.collateral_token,
            borrow_time: env.timestamp,
            due_date: terms.new_due_date,
            interest_rate_bps: terms.new_interest_rate_bps,
        };
        proof {
            lemma_filed(self@, new_loan);
        }
        self.file_loan(new_loan);
        self.mint_nft(&new_loan);
        let updated = PoolState { retained_yield, total_borrowed, ..pool };
        proof {
            lemma_pool_update(self@, old_loan.asset, updated);
        }
        self.set_pool(old_loan.asset, updated);
        self.publish(
            LendingEvent::LoanRefinanced(
                LoanRefinancedEvent {
                    old_loan_id: old_loan.loan_id,
                    new_loan_id,
                    borrower,
                    asset: old_loan.asset,
                    old_principal: old_loan.principal,
                    new_principal: terms.new_principal,
                    refinancing_fee: terms.refinancing_fee,
                    old_interest_rate_bps: old_loan.interest_rate_bps,
                    new_interest_rate_bps: terms.new_interest_rate_bps,
                    old_due_date: old_loan.due_date,
                    new_due_date: terms.new_due_date,
                    timestamp: env.timestamp,
                },
            ),
        );
        Ok(new_loan_id)
    }

    /// Checks one loan of a consolidation against the first.
    fn check_member(
        &self,
        env: &Env,
        borrower: Address,
        loan_ids: &Vec<u64>,
        i: usize,
        first: Option<LoanRecord>,
    ) -> (loan: Result<LoanRecord, LendingError>)
        requires
            i < loan_ids@.len(),
            i == 0 <==> first is None,
            first matches Some(f) ==> self@.loans_by_id[loan_ids@[0]] == f,
        ensures
            match loan {
                Ok(l) => self@.member_error(env.timestamp, borrower, loan_ids@, i as int) is None
                    && l == self@.loans_by_id[loan_ids@[i as int]],
                Err(e) => self@.member_error(env.timestamp, borrower, loan_ids@, i as int) == Some(
                    e,
                ),
            },
    {
        let loan = match self.loans_by_id.get(loan_ids[i]) {
            Some(loan) => *loan,
            None => {
                return Err(LendingError::LoanNotFound);
            },
        };
        if loan.borrower != borrower {
            return Err(LendingError::Unauthorized);
        }
        match self.grace_period_end(&loan) {
            Ok(end) => {
                if env.timestamp > end {
                    return Err(LendingError::CannotRefinance);
                }
            },
            Err(e) => {
                return Err(e);
            },
        }
        if let Some(f) = first {
            if loan.collateral_token != f.collateral_token || loan.asset != f.asset {
                return Err(LendingError::InvalidRefinanceTerms);
            }
        }
        Ok(loan)
    }

    /// Consolidate multiple loans into a single new loan
    pub fn consolidate_loans(
        &mut self,
        env: &Env,
        borrower: Address,
        loan_ids: Vec<u64>,
        new_duration_seconds: u64,
        fee_received: bool,
    ) -> (result: Result<u64, LendingError>)
        requires
            old(self)@.well_formed(),
            env.authorized(borrower),
            old(self)@.consolidate_error(env.timestamp, borrower, loan_ids@, true) is None
                ==> old(self)@.consolidation_fits(env.timestamp, loan_ids@),
            old(self)@.consolidate_error(env.timestamp, borrower, loan_ids@, fee_received) is None
                ==> env.timestamp + new_duration_seconds <= u64::MAX && old(self)@.next_loan_id
                < u64::MAX && old(self)@.pools[old(
                self,
            )@.loans_by_id[loan_ids@[0]].asset].retained_yield + new_terms_fee(
                old(self)@.balance_of_loans(
                    env.timestamp,
                    loan_ids@,
                    loan_ids@.len() as int,
                ) as u64,
            ) <= u64::MAX,
        ensures
            ({
                let error = old(self)@.consolidate_error(
                    env.timestamp,
                    borrower,
                    loan_ids@,
                    fee_received,
                );
                match result {
                    Err(e) => error == Some(e) && final(self)@ == old(self)@,
                    Ok(id) => error is None && id == old(self)@.next_loan_id && final(self)@
                        == old(self)@.consolidated(
                        env.contract,
                        env.timestamp,
                        borrower,
                        loan_ids@,
                        new_duration_seconds,
                    ),
                }
            }),
            final(self)@.well_formed(),
    {
        match self.check_unpaused_entry() {
            Some(e) => {
                return Err(e);
            },
            None => {},
        }
        if loan_ids.len() == 0 || loan_ids.len() > MAX_CONSOLIDATED_LOANS {
            return Err(LendingError::InvalidAmount);
        }
        let mut balance_sum: u128 = 0;
        let mut collateral_sum: u128 = 0;
        let mut first: Option<LoanRecord> = None;
        let mut i: usize = 0;
        while i < loan_ids.len()
            invariant
                i <= loan_ids@.len() <= 10,
                self@ == old(self)@,
                self@.well_formed(),
                i == 0 <==> first is None,
                first matches Some(f) ==> self@.loans_by_id[loan_ids@[0]] == f,
                self@.members_error(env.timestamp, borrower, loan_ids@, i as int) is None,
                balance_sum == self@.balance_of_loans(env.timestamp, loan_ids@, i as int),
                collateral_sum == self@.collateral_of_loans(loan_ids@, i as int),
                balance_sum <= i * 0x2_0000_0000_0000_0000,
                collateral_sum <= i * 0x1_0000_0000_0000_0000,
                self@.unpaused_entry_error() is None,
                loan_ids@.len() > 0,
            decreases loan_ids@.len() - i,
        {
            match self.check_member(env, borrower, &loan_ids, i, first) {
                Err(e) => {
                    proof {
                        lemma_members_fail(
                            self@,
                            env.timestamp,
                            borrower,
                            loan_ids@,
                            i + 1,
                            loan_ids@.len() as int,
                        );
                    }
                    return Err(e);
                },
                Ok(loan) => {
                    let interest: u64 = Self::interest_on(env, &loan);
                    balance_sum = balance_sum + (loan.principal as u128 + interest as u128);
                    collateral_sum = collateral_sum + loan.collateral_amount as u128;
                    if i == 0 {
                        first = Some(loan);
                    }
                },
            }
            i += 1;
        }
        let ghost n = loan_ids@.len() as int;
        let total_outstanding: u64 = balance_sum as u64;
        let total_collateral: u64 = collateral_sum as u64;
        let consolidation_fee: u64 = share_bps(total_outstanding, REFINANCING_FEE_BPS);
        let new_principal: u64 = total_outstanding + consolidation_fee;
        if !fee_received {
            return Err(LendingError::TransferFailed);
        }
        let (asset, collateral_token) = match first {
            Some(loan) => (loan.asset, loan.collateral_token),
            None => {
                return Err(LendingError::InvalidAmount);
            },
        };
        proof {
            lemma_members(self@, env.timestamp, borrower, loan_ids@, n);
            assert(self@.member_error(env.timestamp, borrower, loan_ids@, 0) is None);
        }
        let _ = self.transfer(asset, borrower, env.contract, consolidation_fee, fee_received);
        let ghost paid = self@;
        proof {
            assert forall|j: int| 0 <= j < loan_ids@.len() implies paid.loans_by_id.contains_key(
                #[trigger] loan_ids@[j],
            ) && paid.loans_by_id[loan_ids@[j]].borrower == borrower by {
                assert(old(self)@.member_error(env.timestamp, borrower, loan_ids@, j) is None);
            }
            lemma_all_unfiled(paid, borrower, loan_ids@, n);
        }
        let mut k: usize = 0;
        while k < loan_ids.len()
            invariant
                k <= loan_ids@.len(),
                self@ == paid.all_unfiled(borrower, loan_ids@, k as int),
            decreases loan_ids@.len() - k,
        {
            self.unfile_loan(borrower, loan_ids[k]);
            self.burn_nft(loan_ids[k]);
            k += 1;
        }
        let pool = match self.get_pool(asset) {
            Ok(pool) => pool,
            Err(e) => {
                return Err(e);
            },
        };
        let new_loan_id: u64 = self.get_next_loan_id();
        let new_due_date: u64 = env.timestamp + new_duration_seconds;
        let new_loan = LoanRecord {
            loan_id: new_loan_id,
            borrower,
            asset,
            principal: new_principal,
            collateral_amount: total_collateral,
            collateral_token,
            borrow_time: env.timestamp,
            due_date: new_due_date,
            interest_rate_bps: Self::rate_of(&pool),
        };
        proof {
            lemma_filed(self@, new_loan);
        }
        self.file_loan(new_loan);
        self.mint_nft(&new_loan);
        let updated = PoolState {
            retained_yield: pool.retained_yield + consolidation_fee,
            ..pool
        };
        proof {
            lemma_pool_update(self@, asset, updated);
        }
        self.set_pool(asset, updated);
        self.publish(
            LendingEvent::LoansConsolidated(
                LoansConsolidatedEvent {
                    old_loan_ids: loan_ids,
                    new_loan_id,
                    borrower,
                    asset,
                    total_old_principal: total_outstanding,
                    new_principal,
                    consolidation_fee,
                    new_due_date,
                    timestamp: env.timestamp,
                },
            ),
        );
        Ok(new_loan_id)
    }

    /// The sum of a few amounts.
    fn sum_amounts(amounts: &Vec<u64>) -> (sum: u128)
        requires
            amounts@.len() <= 5,
        ensures
            sum == total(amounts@),
    {
        let mut sum: u128 = 0;
        let mut i: usize = 0;
        while i < amounts.len()
            invariant
                i <= amounts@.len() <= 5,
                sum == total(amounts@.take(i as int)),
                sum <= i * 0x1_0000_0000_0000_0000,
            decreases amounts@.len() - i,
        {
            proof {
                assert(amounts@.take(i + 1).drop_last() =~= amounts@.take(i as int));
            }
            sum = sum + amounts[i] as u128;
            i += 1;
        }
        proof {
            assert(amounts@.take(i as int) =~= amounts@);
        }
        sum
    }

    /// Collateral of the part of a split loan that takes over `amount` of its balance.
    pub fn collateral_for_part(balance: u64, collateral: u64, amount: u64) -> (part: u64)
        requires
            amount <= balance,
        ensures
            part == split_collateral(balance, collateral, amount),
    {
        proof {
            lemma_part_bps(balance, amount);
        }
        let ratio: u64 = if balance == 0 {
            0
        } else {
            mul_div(amount, 10_000, balance) as u64
        };
        take_low64(mul_div(collateral, ratio, 10_000))
    }

    /// Split a loan into multiple smaller loans. The last one becomes the
    /// borrower's primary loan; all of them can be reached by their ids.
    pub fn split_loan(
        &mut self,
        env: &Env,
        borrower: Address,
        split_amounts: Vec<u64>,
        new_duration_seconds: u64,
        fee_received: bool,
    ) -> (result: Result<Vec<u64>, LendingError>)
        requires
            old(self)@.well_formed(),
            env.authorized(borrower),
            old(self)@.split_error(env.timestamp, borrower, split_amounts@, true) is None
                ==> outstanding(env.timestamp, old(self)@.loans[borrower]) <= u64::MAX,
            old(self)@.split_error(env.timestamp, borrower, split_amounts@, fee_received) is None
                ==> env.timestamp + new_duration_seconds <= u64::MAX && old(self)@.next_loan_id
                + split_amounts@.len() <= u64::MAX && old(self)@.pools[old(
                self,
            )@.loans[borrower].asset].retained_yield + new_terms_fee(
                outstanding(env.timestamp, old(self)@.loans[borrower]) as u64,
            ) <= u64::MAX,
        ensures
            ({
                let error = old(self)@.split_error(
                    env.timestamp,
                    borrower,
                    split_amounts@,
                    fee_received,
                );
                match result {
                    Err(e) => error == Some(e) && final(self)@ == old(self)@,
                    Ok(ids) => error is None && ids@ == old(self)@.part_ids(split_amounts@.len())
                        && final(self)@ == old(self)@.split(
                        env.contract,
                        env.timestamp,
                        borrower,
                        split_amounts@,
                        new_duration_seconds,
                    ),
                }
            }),
            final(self)@.well_formed(),
    {
        match self.check_unpaused_entry() {
            Some(e) => {
                return Err(e);
            },
            None => {},
        }
        if split_amounts.len() == 0 || split_amounts.len() > MAX_SPLIT_LOANS {
            return Err(LendingError::InvalidAmount);
        }
        let old_loan = match self.open_loan(borrower) {
            Ok(loan) => loan,
            Err(e) => {
                return Err(e);
            },
        };
        match self.is_in_grace_period(env, borrower) {
            Ok(is_in_grace) => {
                if !is_in_grace {
                    return Err(LendingError::CannotRefinance);
                }
            },
            Err(e) => {
                return Err(e);
            },
        }
        let interest: u64 = Self::interest_on(env, &old_loan);
        let balance: u128 = old_loan.principal as u128 + interest as u128;
        if Self::sum_amounts(&split_amounts) != balance {
            return Err(LendingError::InvalidSplitAmounts);
        }
        let outstanding_balance: u64 = balance as u64;
        let split_fee: u64 = share_bps(outstanding_balance, REFINANCING_FEE_BPS);
        if !fee_received {
            return Err(LendingError::TransferFailed);
        }
        let pool = match self.get_pool(old_loan.asset) {
            Ok(pool) => pool,
            Err(e) => {
                return Err(e);
            },
        };
        proof {
            lemma_primary_on_file(self@, borrower);
            lemma_total_bounds(split_amounts@);
        }
        let _ = self.transfer(old_loan.asset, borrower, env.contract, split_fee, fee_received);
        proof {
            lemma_unfiled(self@, borrower, old_loan.loan_id);
        }
        self.unfile_loan(borrower, old_loan.loan_id);
        self.burn_nft(old_loan.loan_id);
        let ghost base = self@;
        let new_due_date: u64 = env.timestamp + new_duration_seconds;
        let rate: u32 = Self::rate_of(&pool);
        let mut new_loan_ids: Vec<u64> = Vec::new();
        let mut i: usize = 0;
        while i < split_amounts.len()
            invariant
                i <= split_amounts@.len(),
                old_loan == old(self)@.loans[borrower],
                outstanding_balance == outstanding(env.timestamp, old_loan),
                new_due_date == env.timestamp + new_duration_seconds,
                rate == old(self)@.current_rate(old_loan.asset),
                base.well_formed(),
                base.admin is Some,
                base.next_loan_id == old(self)@.next_loan_id,
                old(self)@.next_loan_id + split_amounts@.len() <= u64::MAX,
                forall|j: int|
                    0 <= j < split_amounts@.len() ==> split_amounts@[j] <= outstanding_balance,
                new_loan_ids@ == old(self)@.part_ids(i as nat),
                self@ == old(self)@.parts_filed(
                    base,
                    env.timestamp,
                    borrower,
                    split_amounts@,
                    new_duration_seconds,
                    i as int,
                ),
            decreases split_amounts@.len() - i,
        {
            proof {
                lemma_parts_filed(
                    old(self)@,
                    base,
                    env.timestamp,
                    borrower,
                    split_amounts@,
                    new_duration_seconds,
                    i as int,
                );
            }
            let amount: u64 = split_amounts[i];
            let new_loan_id: u64 = self.get_next_loan_id();
            let new_loan = LoanRecord {
                loan_id: new_loan_id,
                borrower,
                asset: old_loan.asset,
                principal: amount,
                collateral_amount: Self::collateral_for_part(
                    outstanding_balance,
                    old_loan.collateral_amount,
                    amount,
                ),
                collateral_token: old_loan.collateral_token,
                borrow_time: env.timestamp,
                due_date: new_due_date,
                interest_rate_bps: rate,
            };
            self.file_loan(new_loan);
            self.mint_nft(&new_loan);
            new_loan_ids.push(new_loan_id);
            i += 1;
            proof {
                assert(new_loan_ids@ =~= old(self)@.part_ids(i as nat));
            }
        }
        proof {
            lemma_parts_filed(
                old(self)@,
                base,
                env.timestamp,
                borrower,
                split_amounts@,
                new_duration_seconds,
                split_amounts@.len() as int,
            );
        }
        let updated = PoolState { retained_yield: pool.retained_yield + split_fee, ..pool };
        proof {
            lemma_pool_update(self@, old_loan.asset, updated);
        }
        self.set_pool(old_loan.asset, updated);
        self.publish(
            LendingEvent::LoanSplit(
                LoanSplitEvent {
                    old_loan_id: old_loan.loan_id,
                    new_loan_ids: new_loan_ids.clone(),
                    borrower,
                    asset: old_loan.asset,
                    old_principal: old_loan.principal,
                    new_principals: split_amounts,
                    split_fee,
                    timestamp: env.timestamp,
                },
            ),
        );
        Ok(new_loan_ids)
    }
}

/// A loan that starts now owes its principal.
proof fn lemma_starts_now(now: u64, loan: LoanRecord)
    requires
        loan.borrow_time == now,
    ensures
        outstanding(now, loan) == loan.principal,
{
    crate::lending::loans::law_interest_runs_from_the_borrow_time(now, loan);
}

/// New terms are for a loan that is not past its grace period, and cost half a percent
/// of the balance, which joins the principal.
pub proof fn law_refinance_terms(lending: LendingView, now: u64, borrower: Address, duration: u64)
    requires
        lending.terms_error(now, borrower) is None,
        now + duration <= 0xffff_ffff_ffff_ffff,
    ensures
        ({
            let loan = lending.loans[borrower];
            let pool = lending.pools[loan.asset];
            let balance = outstanding(now, loan);
            let fee = bps_share(balance as u64, 50);
            let terms = lending.terms(now, borrower, duration);
            &&& lending.admin is Some && lending.loans.contains_key(borrower)
                && lending.pools.contains_key(loan.asset)
            &&& terms.outstanding_balance == balance
            &&& terms.refinancing_fee == fee
            &&& terms.new_principal == balance + fee && terms.total_required == balance + fee
            &&& terms.new_duration_seconds == duration && terms.new_due_date == now + duration
            &&& terms.new_interest_rate_bps == linear_rate(
                pool.base_rate_bps,
                pool.multiplier_bps,
                utilization(pool.total_borrowed, pool.total_deposits),
            )
        }),
        lending.standing_error(now, borrower) is None ==> now <= lending.loans[borrower].due_date
            + lending.pools[lending.loans[borrower].asset].grace_period_seconds,
{
}

/// Who can refinance: a borrower with an open loan that is not past its grace period, as
/// far as the larger loan keeps the pool under its utilization cap.
pub proof fn law_refinancing_is_admitted(lending: LendingView, now: u64, borrower: Address)
    requires
        lending.loans.contains_key(borrower) ==> outstanding(now, lending.loans[borrower]) + bps_share(
            outstanding(now, lending.loans[borrower]) as u64,
            50,
        ) <= 0xffff_ffff_ffff_ffff,
    ensures
        lending.refinance_error(now, borrower, true) is None <==> {
            let loan = lending.loans[borrower];
            let pool = lending.pools[loan.asset];
            let balance = outstanding(now, loan);
            let fee = bps_share(balance as u64, 50);
            let borrowed = pool.total_borrowed + balance + fee - loan.principal;
            &&& lending.admin is Some && !lending.access.entered
            &&& lending.loans.contains_key(borrower) && lending.pools.contains_key(loan.asset)
            &&& loan.due_date + pool.grace_period_seconds <= 0xffff_ffff_ffff_ffff
            &&& now <= loan.due_date + pool.grace_period_seconds
            &&& pool.retained_yield + fee <= 0xffff_ffff_ffff_ffff
            &&& balance + fee == loan.principal || borrowed <= 0xffff_ffff_ffff_ffff && utilization(
                borrowed as u64,
                pool.total_deposits,
            ) <= pool.utilization_cap_bps
        },
        lending.refinance_error(now, borrower, false) is Some,
{
}

/// Refinancing replaces a loan by one that starts now, is due after the new duration and
/// owes, at that same time, exactly the old balance and the fee of half a percent. The
/// fee is paid by the borrower to the contract, and goes to the retained yield; no other
/// token moves.
pub proof fn law_refinancing(
    lending: LendingView,
    contract: Address,
    now: u64,
    borrower: Address,
    duration: u64,
)
    requires
        lending.well_formed(),
        lending.refinance_error(now, borrower, true) is None,
        outstanding(now, lending.loans[borrower]) <= 0xffff_ffff_ffff_ffff,
        now + duration <= 0xffff_ffff_ffff_ffff,
        lending.next_loan_id < 0xffff_ffff_ffff_ffff,
    ensures
        ({
            let old_loan = lending.loans[borrower];
            let before = lending.pools[old_loan.asset];
            let balance = outstanding(now, old_loan);
            let fee = bps_share(balance as u64, 50);
            let after = lending.refinanced(contract, now, borrower, duration);
            let loan = after.loans[borrower];
            let pool = after.pools[old_loan.asset];
            let n = lending.calls.len() as int;
            &&& outstanding(now, loan) == balance + fee
            &&& loan.borrow_time == now && loan.due_date == now + duration
            &&& loan.loan_id == lending.next_loan_id && after.next_loan_id == lending.next_loan_id
                + 1
            &&& loan.borrower == borrower && loan.asset == old_loan.asset
            &&& loan.collateral_amount == old_loan.collateral_amount && loan.collateral_token
                == old_loan.collateral_token
            &&& loan.interest_rate_bps == linear_rate(
                before.base_rate_bps,
                before.multiplier_bps,
                utilization(before.total_borrowed, before.total_deposits),
            )
            &&& after.loans_by_id == lending.loans_by_id.remove(old_loan.loan_id).insert(
                loan.loan_id,
                loan,
            )
            &&& after.loans == lending.loans.insert(borrower, loan)
            &&& after.calls.take(n) == lending.calls
            &&& after.calls[n] == LendingCallView::Transfer {
                token: old_loan.asset,
                from: borrower,
                to: contract,
                amount: fee,
            }
            &&& forall|k: int|
                n < k < after.calls.len() ==> !(#[trigger] after.calls[k] is Transfer)
            &&& lending.nft_token is None ==> after.calls.len() == n + 1
            &&& lending.nft_token matches Some(nft) ==> after.calls.len() == n + 3 && after.calls[n
                + 1] == (LendingCallView::BurnNft { nft, loan_id: old_loan.loan_id })
                && after.calls[n + 2] is MintNft
            &&& pool.retained_yield == before.retained_yield + fee
            &&& pool.total_borrowed - before.total_borrowed == balance + fee - old_loan.principal
            &&& after.pools == lending.pools.insert(
                old_loan.asset,
                PoolState {
                    retained_yield: pool.retained_yield,
                    total_borrowed: pool.total_borrowed,
                    ..before
                },
            )
            &&& after.events.len() == lending.events.len() + 1
            &&& after.events.last() matches LendingEventView::LoanRefinanced(event)
            &&& event.old_loan_id == old_loan.loan_id && event.new_loan_id == loan.loan_id
            &&& event.borrower == borrower && event.asset == old_loan.asset
            &&& event.old_principal == old_loan.principal && event.new_principal == loan.principal
            &&& event.refinancing_fee == fee && event.timestamp == now
            &&& event.old_interest_rate_bps == old_loan.interest_rate_bps
                && event.new_interest_rate_bps == loan.interest_rate_bps
            &&& event.old_due_date == old_loan.due_date && event.new_due_date == loan.due_date
            &&& after == (LendingView {
                pools: after.pools,
                loans: after.loans,
                loans_by_id: after.loans_by_id,
                user_loans: after.user_loans,
                next_loan_id: after.next_loan_id,
                calls: after.calls,
                events: after.events,
                ..lending
            })
        }),
{
    let after = lending.refinanced(contract, now, borrower, duration);
    let old_loan = lending.loans[borrower];
    let balance = outstanding(now, old_loan);
    crate::math::lemma_share_bounded(balance as u64, 50);
    lemma_starts_now(now, after.loans[borrower]);
    lemma_primary_on_file(lending, borrower);
    assert(after.calls.take(lending.calls.len() as int) =~= lending.calls);
    assert(after.loans =~= lending.loans.insert(borrower, after.loans[borrower]));
}

/// Balances and collateral of loans that are consolidated add up, loan by loan: what each
/// owes now, interest included, and all that secures it.
pub proof fn law_balances_add_up(lending: LendingView, now: u64, loan_ids: Seq<u64>, n: int)
    requires
        0 <= n < loan_ids.len(),
    ensures
        lending.balance_of_loans(now, loan_ids, 0) == 0,
        lending.collateral_of_loans(loan_ids, 0) == 0,
        lending.balance_of_loans(now, loan_ids, n + 1) - lending.balance_of_loans(now, loan_ids, n)
            == outstanding(now, lending.loans_by_id[loan_ids[n]]),
        lending.collateral_of_loans(loan_ids, n + 1) - lending.collateral_of_loans(loan_ids, n)
            == lending.loans_by_id[loan_ids[n]].collateral_amount,
{
}

/// Who can consolidate: one to ten loans on file, all of the borrower, none past its
/// grace period, all in one asset and one collateral token.
pub proof fn law_consolidation_is_admitted(
    lending: LendingView,
    now: u64,
    borrower: Address,
    loan_ids: Seq<u64>,
)
    ensures
        lending.consolidate_error(now, borrower, loan_ids, true) is None <==> {
            &&& lending.admin is Some && !lending.access.entered
            &&& 1 <= loan_ids.len() <= 10
            &&& forall|i: int|
                0 <= i < loan_ids.len() ==> {
                    let loan = lending.loans_by_id[#[trigger] loan_ids[i]];
                    let first = lending.loans_by_id[loan_ids[0]];
                    let end = loan.due_date + lending.pools[loan.asset].grace_period_seconds;
                    &&& lending.loans_by_id.contains_key(loan_ids[i])
                    &&& loan.borrower == borrower
                    &&& lending.pools.contains_key(loan.asset)
                    &&& now <= end <= 0xffff_ffff_ffff_ffff
                    &&& loan.collateral_token == first.collateral_token && loan.asset
                        == first.asset
                }
        },
        lending.consolidate_error(now, borrower, loan_ids, false) is Some,
{
    let n = loan_ids.len() as int;
    if lending.members_error(now, borrower, loan_ids, n) is None {
        lemma_members(lending, now, borrower, loan_ids, n);
        assert forall|i: int| 0 <= i < n implies {
            let loan = lending.loans_by_id[#[trigger] loan_ids[i]];
            let first = lending.loans_by_id[loan_ids[0]];
            let end = loan.due_date + lending.pools[loan.asset].grace_period_seconds;
            &&& lending.loans_by_id.contains_key(loan_ids[i])
            &&& loan.borrower == borrower
            &&& lending.pools.contains_key(loan.asset)
            &&& now <= end <= 0xffff_ffff_ffff_ffff
            &&& loan.collateral_token == first.collateral_token && loan.asset == first.asset
        } by {
            assert(lending.member_error(now, borrower, loan_ids, i) is None);
        }
    } else {
        lemma_members_witness(lending, now, borrower, loan_ids, n);
    }
}

/// A list with an unacceptable loan has a first one.
proof fn lemma_members_witness(
    lending: LendingView,
    now: u64,
    borrower: Address,
    ids: Seq<u64>,
    n: int,
) -> (i: int)
    requires
        lending.members_error(now, borrower, ids, n) is Some,
        0 <= n <= ids.len(),
    ensures
        0 <= i < n,
        lending.member_error(now, borrower, ids, i) is Some,
    decreases n,
{
    if lending.members_error(now, borrower, ids, n - 1) is Some {
        lemma_members_witness(lending, now, borrower, ids, n - 1)
    } else {
        n - 1
    }
}

/// Taking loans off file moves no tokens and leaves all but the loans as it was.
proof fn lemma_all_unfiled_calls(lending: LendingView, borrower: Address, ids: Seq<u64>, n: int)
    requires
        0 <= n <= ids.len(),
    ensures
        ({
            let after = lending.all_unfiled(borrower, ids, n);
            &&& after.calls.len() >= lending.calls.len()
            &&& after.calls.take(lending.calls.len() as int) == lending.calls
            &&& forall|k: int|
                lending.calls.len() <= k < after.calls.len() ==> #[trigger] after.calls[k] is BurnNft
            &&& after == (LendingView {
                loans: after.loans,
                loans_by_id: after.loans_by_id,
                user_loans: after.user_loans,
                calls: after.calls,
                ..lending
            })
            &&& n > 0 ==> after.loans == lending.loans.remove(borrower)
        }),
    decreases n,
{
    if n > 0 {
        lemma_all_unfiled_calls(lending, borrower, ids, n - 1);
        let before = lending.all_unfiled(borrower, ids, n - 1);
        let after = lending.all_unfiled(borrower, ids, n);
        assert(after.calls.take(lending.calls.len() as int) =~= before.calls.take(
            lending.calls.len() as int,
        ));
        assert(after.loans =~= lending.loans.remove(borrower));
        assert forall|k: int| lending.calls.len() <= k < after.calls.len() implies #[trigger]
            after.calls[k] is BurnNft by {
            if k < before.calls.len() {
                assert(after.calls[k] == before.calls[k]);
            }
        }
    } else {
        assert(lending.calls.take(lending.calls.len() as int) =~= lending.calls);
    }
}

/// Consolidating replaces loans by one that starts now, is due after the new duration,
/// owes at that same time exactly their balances and the fee of half a percent, and is
/// secured by all their collateral. The fee is paid by the borrower to the contract and
/// goes to the retained yield; no other token moves.
pub proof fn law_consolidating(
    lending: LendingView,
    contract: Address,
    now: u64,
    borrower: Address,
    loan_ids: Seq<u64>,
    duration: u64,
)
    requires
        lending.well_formed(),
        lending.consolidate_error(now, borrower, loan_ids, true) is None,
        lending.consolidation_fits(now, loan_ids),
        now + duration <= 0xffff_ffff_ffff_ffff,
        lending.next_loan_id < 0xffff_ffff_ffff_ffff,
        lending.pools[lending.loans_by_id[loan_ids[0]].asset].retained_yield + bps_share(
            lending.balance_of_loans(now, loan_ids, loan_ids.len() as int) as u64,
            50,
        ) <= 0xffff_ffff_ffff_ffff,
    ensures
        ({
            let first = lending.loans_by_id[loan_ids[0]];
            let before = lending.pools[first.asset];
            let count = loan_ids.len() as int;
            let balance = lending.balance_of_loans(now, loan_ids, count);
            let fee = bps_share(balance as u64, 50);
            let after = lending.consolidated(contract, now, borrower, loan_ids, duration);
            let loan = after.loans[borrower];
            let n = lending.calls.len() as int;
            &&& outstanding(now, loan) == balance + fee
            &&& loan.borrow_time == now && loan.due_date == now + duration
            &&& loan.loan_id == lending.next_loan_id && after.next_loan_id == lending.next_loan_id
                + 1
            &&& loan.borrower == borrower && loan.asset == first.asset
            &&& loan.collateral_token == first.collateral_token
            &&& loan.collateral_amount == lending.collateral_of_loans(loan_ids, count)
            &&& loan.interest_rate_bps == linear_rate(
                before.base_rate_bps,
                before.multiplier_bps,
                utilization(before.total_borrowed, before.total_deposits),
            )
            &&& after.loans_by_id[loan.loan_id] == loan
            &&& after.loans == lending.loans.insert(borrower, loan)
            &&& after.calls.take(n) == lending.calls
            &&& after.calls[n] == LendingCallView::Transfer {
                token: first.asset,
                from: borrower,
                to: contract,
                amount: fee,
            }
            &&& forall|k: int|
                n < k < after.calls.len() ==> !(#[trigger] after.calls[k] is Transfer)
            &&& after.pools[first.asset].retained_yield == before.retained_yield + fee
            &&& after.pools == lending.pools.insert(
                first.asset,
                PoolState { retained_yield: after.pools[first.asset].retained_yield, ..before },
            )
            &&& after.events.last() matches LendingEventView::LoansConsolidated(event)
            &&& event.old_loan_ids == loan_ids && event.new_loan_id == loan.loan_id
            &&& event.borrower == borrower && event.asset == first.asset
            &&& event.total_old_principal == balance && event.new_principal == loan.principal
            &&& event.consolidation_fee == fee && event.new_due_date == loan.due_date
                && event.timestamp == now
            &&& after == (LendingView {
                pools: after.pools,
                loans: after.loans,
                loans_by_id: after.loans_by_id,
                user_loans: after.user_loans,
                next_loan_id: after.next_loan_id,
                calls: after.calls,
                events: after.events,
                ..lending
            })
        }),
{
    let count = loan_ids.len() as int;
    let balance = lending.balance_of_loans(now, loan_ids, count);
    let first = lending.loans_by_id[loan_ids[0]];
    let after = lending.consolidated(contract, now, borrower, loan_ids, duration);
    let fee = new_terms_fee(balance as u64);
    crate::math::lemma_share_bounded(balance as u64, 50);
    lemma_sums_not_negative(lending, now, loan_ids, count);
    lemma_starts_now(now, after.loans[borrower]);
    let paid = lending.with_transfer(first.asset, borrower, contract, fee);
    let cleared = paid.all_unfiled(borrower, loan_ids, count);
    lemma_all_unfiled_calls(paid, borrower, loan_ids, count);
    let n = lending.calls.len() as int;
    assert(cleared.calls[n] == cleared.calls.take(n + 1)[n]);
    assert(after.calls[n] == cleared.calls[n]);
    assert(after.calls.take(n) =~= lending.calls) by {
        assert forall|k: int| 0 <= k < n implies after.calls[k] == lending.calls[k] by {
            assert(cleared.calls[k] == cleared.calls.take(n + 1)[k]);
        }
    }
    assert forall|k: int| n < k < after.calls.len() implies !(#[trigger] after.calls[k] is Transfer)
        by {
        if k < cleared.calls.len() {
            assert(after.calls[k] == cleared.calls[k]);
        }
    }
    assert(after.loans =~= lending.loans.insert(borrower, after.loans[borrower]));
}

proof fn lemma_sums_not_negative(lending: LendingView, now: u64, ids: Seq<u64>, n: int)
    ensures
        lending.balance_of_loans(now, ids, n) >= 0,
        lending.collateral_of_loans(ids, n) >= 0,
    decreases n,
{
    if n > 0 {
        lemma_sums_not_negative(lending, now, ids, n - 1);
    }
}

/// Who can split: a borrower with an open loan that is not past its grace period, into
/// one to five parts that together are exactly what the loan owes now.
pub proof fn law_splitting_is_admitted(
    lending: LendingView,
    now: u64,
    borrower: Address,
    split_amounts: Seq<u64>,
)
    ensures
        lending.split_error(now, borrower, split_amounts, true) is None <==> {
            let loan = lending.loans[borrower];
            let end = loan.due_date + lending.pools[loan.asset].grace_period_seconds;
            &&& lending.admin is Some && !lending.access.entered
            &&& 1 <= split_amounts.len() <= 5
            &&& lending.loans.contains_key(borrower) && lending.pools.contains_key(loan.asset)
            &&& now <= end <= 0xffff_ffff_ffff_ffff
            &&& total(split_amounts) == outstanding(now, loan)
        },
        lending.split_error(now, borrower, split_amounts, false) is Some,
        total(Seq::empty()) == 0,
        split_amounts.len() > 0 ==> total(split_amounts) == total(split_amounts.drop_last())
            + split_amounts.last(),
{
}

/// What filing the parts of a loan does: each is on file under its id, none moves tokens.
proof fn lemma_parts_on_file(
    lending: LendingView,
    base: LendingView,
    now: u64,
    borrower: Address,
    split_amounts: Seq<u64>,
    duration: u64,
    n: int,
)
    requires
        0 <= n <= split_amounts.len(),
        lending.next_loan_id + split_amounts.len() <= u64::MAX,
        base.next_loan_id == lending.next_loan_id,
    ensures
        ({
            let after = lending.parts_filed(base, now, borrower, split_amounts, duration, n);
            &&& forall|i: int|
                0 <= i < n ==> after.loans_by_id.contains_key(
                    #[trigger] ((lending.next_loan_id + i) as u64),
                ) && after.loans_by_id[(lending.next_loan_id + i) as u64] == lending.split_part(
                    now,
                    borrower,
                    split_amounts,
                    duration,
                    i,
                )
            &&& after.next_loan_id == lending.next_loan_id + n
            &&& after.calls.len() >= base.calls.len()
            &&& after.calls.take(base.calls.len() as int) == base.calls
            &&& forall|k: int|
                base.calls.len() <= k < after.calls.len() ==> #[trigger] after.calls[k] is MintNft
            &&& after == (LendingView {
                loans: after.loans,
                loans_by_id: after.loans_by_id,
                user_loans: after.user_loans,
                next_loan_id: after.next_loan_id,
                calls: after.calls,
                ..base
            })
        }),
    decreases n,
{
    let len = base.calls.len() as int;
    if n > 0 {
        lemma_parts_on_file(lending, base, now, borrower, split_amounts, duration, n - 1);
        let before = lending.parts_filed(base, now, borrower, split_amounts, duration, n - 1);
        let after = lending.parts_filed(base, now, borrower, split_amounts, duration, n);
        assert(after.calls.take(len) =~= before.calls.take(len));
        assert forall|k: int| len <= k < after.calls.len() implies #[trigger] after.calls[k]
            is MintNft by {
            if k < before.calls.len() {
                assert(after.calls[k] == before.calls[k]);
            }
        }
    } else {
        assert(base.calls.take(len) =~= base.calls);
    }
}

/// Splitting replaces a loan by its parts. Each starts now, is due after the new duration
/// and owes at that same time exactly its amount, so that together the parts owe what the
/// loan owed; each has the collateral that its whole basis points of the balance make up.
/// The fee of half a percent is paid by the borrower to the contract and goes to the
/// retained yield; no other token moves.
pub proof fn law_splitting(
    lending: LendingView,
    contract: Address,
    now: u64,
    borrower: Address,
    split_amounts: Seq<u64>,
    duration: u64,
    i: int,
)
    requires
        lending.well_formed(),
        lending.split_error(now, borrower, split_amounts, true) is None,
        outstanding(now, lending.loans[borrower]) <= 0xffff_ffff_ffff_ffff,
        now + duration <= 0xffff_ffff_ffff_ffff,
        lending.next_loan_id + split_amounts.len() <= 0xffff_ffff_ffff_ffff,
        lending.pools[lending.loans[borrower].asset].retained_yield + bps_share(
            outstanding(now, lending.loans[borrower]) as u64,
            50,
        ) <= 0xffff_ffff_ffff_ffff,
        0 <= i < split_amounts.len(),
    ensures
        ({
            let old_loan = lending.loans[borrower];
            let before = lending.pools[old_loan.asset];
            let balance = outstanding(now, old_loan);
            let fee = bps_share(balance as u64, 50);
            let after = lending.split(contract, now, borrower, split_amounts, duration);
            let id = (lending.next_loan_id + i) as u64;
            let part = after.loans_by_id[id];
            let bps = (split_amounts[i] * 10_000) / balance;
            let n = lending.calls.len() as int;
            &&& total(split_amounts) == balance
            &&& after.loans_by_id.contains_key(id) && part.loan_id == id
            &&& outstanding(now, part) == split_amounts[i]
            &&& part.borrow_time == now && part.due_date == now + duration
            &&& part.borrower == borrower && part.asset == old_loan.asset
            &&& part.collateral_token == old_loan.collateral_token
            &&& balance > 0 ==> part.collateral_amount * 10_000 <= old_loan.collateral_amount * bps
                < (part.collateral_amount + 1) * 10_000
            &&& part.interest_rate_bps == linear_rate(
                before.base_rate_bps,
                before.multiplier_bps,
                utilization(before.total_borrowed, before.total_deposits),
            )
            &&& after.next_loan_id == lending.next_loan_id + split_amounts.len()
            &&& after.calls.take(n) == lending.calls
            &&& after.calls[n] == LendingCallView::Transfer {
                token: old_loan.asset,
                from: borrower,
                to: contract,
                amount: fee,
            }
            &&& forall|k: int|
                n < k < after.calls.len() ==> !(#[trigger] after.calls[k] is Transfer)
            &&& after.pools[old_loan.asset].retained_yield == before.retained_yield + fee
            &&& after.pools == lending.pools.insert(
                old_loan.asset,
                PoolState { retained_yield: after.pools[old_loan.asset].retained_yield, ..before },
            )
            &&& after.events.last() matches LendingEventView::LoanSplit(event)
            &&& event.old_loan_id == old_loan.loan_id && event.borrower == borrower
            &&& event.new_loan_ids.len() == split_amounts.len() && event.new_loan_ids[i] == id
            &&& event.new_principals == split_amounts && event.split_fee == fee
            &&& event.asset == old_loan.asset && event.old_principal == old_loan.principal
                && event.timestamp == now
            &&& after == (LendingView {
                pools: after.pools,
                loans: after.loans,
                loans_by_id: after.loans_by_id,
                user_loans: after.user_loans,
                next_loan_id: after.next_loan_id,
                calls: after.calls,
                events: after.events,
                ..lending
            })
        }),
{
    let old_loan = lending.loans[borrower];
    let balance = outstanding(now, old_loan);
    let fee = new_terms_fee(balance as u64);
    let after = lending.split(contract, now, borrower, split_amounts, duration);
    let id = (lending.next_loan_id + i) as u64;
    let n = lending.calls.len() as int;
    crate::math::lemma_share_bounded(balance as u64, 50);
    let base = lending.with_transfer(old_loan.asset, borrower, contract, fee).unfiled(
        borrower,
        old_loan.loan_id,
    ).with_burnt(old_loan.loan_id);
    let count = split_amounts.len() as int;
    lemma_parts_on_file(lending, base, now, borrower, split_amounts, duration, count);
    let filed = lending.parts_filed(base, now, borrower, split_amounts, duration, count);
    let len = base.calls.len() as int;
    assert(after.calls == filed.calls);
    assert forall|k: int| 0 <= k < len implies after.calls[k] == base.calls[k] by {
        assert(filed.calls[k] == filed.calls.take(len)[k]);
    }
    assert(after.calls.take(n) =~= lending.calls);
    assert(after.loans_by_id[(lending.next_loan_id + i) as u64] == lending.split_part(
        now,
        borrower,
        split_amounts,
        duration,
        i,
    ));
    lemma_starts_now(now, after.loans_by_id[id]);
    lemma_total_bounds(split_amounts);
    assert(split_amounts[i] <= balance);
    lemma_part_bps(balance as u64, split_amounts[i]);
    if balance > 0 {
        let bps = (split_amounts[i] * 10_000) / balance;
        let c = old_loan.collateral_amount as int;
        assert(0 <= c * bps <= c * 10_000) by (nonlinear_arith)
            requires
                0 <= bps <= 10_000,
                0 <= c,
        ;
        crate::math::lemma_floor(c * bps, 10_000);
        assert((c * bps) / 10_000 <= c);
    }
}

/// At most ten loans are consolidated, and a loan is split into at most five.
pub proof fn law_limits()
    ensures
        MAX_CONSOLIDATED_LOANS == 10,
        MAX_SPLIT_LOANS == 5,
{
}

/// Why a borrower's loan cannot get new terms: every reason that is given holds.
pub proof fn law_reason_standing(lending: LendingView, now: u64, borrower: Address)
    ensures
        match lending.standing_error(now, borrower) {
            None => true,
            Some(LendingError::CannotRefinance) => now > lending.grace_end(lending.loans[borrower]),
            Some(error) => lending.late_fee_error(borrower) == Some(error),
        },
{
}

/// Why there are no refinance terms for a borrower: every reason that is given holds.
pub proof fn law_reason_terms(lending: LendingView, now: u64, borrower: Address)
    ensures
        ({
            let balance = outstanding(now, lending.loans[borrower]);
            match lending.terms_error(now, borrower) {
                None => true,
                Some(LendingError::NotInitialized) => lending.admin is None,
                Some(LendingError::NoOpenLoan) => !lending.loans.contains_key(borrower),
                Some(LendingError::InvalidRefinanceTerms) => balance + new_terms_fee(balance as u64)
                    > u64::MAX,
                Some(LendingError::AssetNotSupported) =>
                    !lending.pools.contains_key(lending.loans[borrower].asset),
                Some(_) => false,
            }
        }),
{
}

/// Why a refinancing is refused: every reason that is given holds.
pub proof fn law_reason_refinance(
    lending: LendingView,
    now: u64,
    borrower: Address,
    fee_received: bool,
)
    ensures
        ({
            let loan = lending.loans[borrower];
            let pool = lending.pools[loan.asset];
            let terms = lending.terms(now, borrower, 0);
            let new_borrowed = pool.total_borrowed + (terms.new_principal - loan.principal);
            match lending.refinance_error(now, borrower, fee_received) {
                None => true,
                Some(LendingError::TransferFailed) => !fee_received,
                Some(LendingError::InvalidRefinanceTerms) => pool.retained_yield
                    + terms.refinancing_fee > u64::MAX || new_borrowed > u64::MAX
                    || lending.terms_error(now, borrower)
                    == Some(LendingError::InvalidRefinanceTerms),
                Some(LendingError::UtilizationCapExceeded) => utilization(new_borrowed as u64,
                    pool.total_deposits) > pool.utilization_cap_bps,
                Some(error) => lending.unpaused_entry_error() == Some(error)
                    || lending.standing_error(now, borrower) == Some(error)
                    || lending.terms_error(now, borrower) == Some(error),
            }
        }),
{
}

/// Why one of the loans of a consolidation is not accepted: every reason that is given
/// holds.
pub proof fn law_reason_member(
    lending: LendingView,
    now: u64,
    borrower: Address,
    loan_ids: Seq<u64>,
    i: int,
)
    ensures
        ({
            let loan = lending.loans_by_id[loan_ids[i]];
            let first = lending.loans_by_id[loan_ids[0]];
            match lending.member_error(now, borrower, loan_ids, i) {
                None => true,
                Some(LendingError::LoanNotFound) => !lending.loans_by_id.contains_key(loan_ids[i]),
                Some(LendingError::Unauthorized) => loan.borrower != borrower,
                Some(LendingError::CannotRefinance) => now > lending.grace_end(loan),
                Some(LendingError::InvalidRefinanceTerms) => loan.collateral_token
                    != first.collateral_token || loan.asset != first.asset,
                Some(error) => lending.grace_error(loan) == Some(error),
            }
        }),
{
}

/// Why a consolidation is refused: every reason that is given holds.
pub proof fn law_reason_consolidate(
    lending: LendingView,
    now: u64,
    borrower: Address,
    loan_ids: Seq<u64>,
    fee_received: bool,
)
    ensures
        ({
            let members = lending.members_error(now, borrower, loan_ids, loan_ids.len() as int);
            match lending.consolidate_error(now, borrower, loan_ids, fee_received) {
                None => true,
                Some(LendingError::InvalidAmount) => (loan_ids.len() == 0 || loan_ids.len()
                    > MAX_CONSOLIDATED_LOANS) || members == Some(LendingError::InvalidAmount),
                Some(LendingError::TransferFailed) => !fee_received || members
                    == Some(LendingError::TransferFailed),
                Some(error) => lending.unpaused_entry_error() == Some(error) || members
                    == Some(error),
            }
        }),
{
}

/// Why a split is refused: every reason that is given holds.
pub proof fn law_reason_split(
    lending: LendingView,
    now: u64,
    borrower: Address,
    split_amounts: Seq<u64>,
    fee_received: bool,
)
    ensures
        match lending.split_error(now, borrower, split_amounts, fee_received) {
            None => true,
            Some(LendingError::InvalidAmount) => (split_amounts.len() == 0 || split_amounts.len()
                > MAX_SPLIT_LOANS) || lending.standing_error(now, borrower)
                == Some(LendingError::InvalidAmount),
            Some(LendingError::InvalidSplitAmounts) => total(split_amounts) != outstanding(now,
                lending.loans[borrower]),
            Some(LendingError::TransferFailed) => !fee_received,
            Some(error) => lending.unpaused_entry_error() == Some(error)
                || lending.standing_error(now, borrower) == Some(error),
        },
{
}

} // verus!
