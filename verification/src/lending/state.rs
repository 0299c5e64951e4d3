//! What the lending contract stores, its model, and what holds of it between calls.
use vstd::prelude::*;

use crate::access::{AccessControl, AccessView, Role};
use crate::host::{Address, Env};
use crate::lending::types::{
    InsuranceFund, LendingCall, LendingCallView, LendingError, LendingEvent, LendingEventView,
    LoanInsurance, LoanRecord, PlanYieldPosition, PoolState, RateModel, RewardPool, UserStake,
};
use crate::list::List;
use crate::table::Table;

verus! {

/// Shares that the first deposit into a pool locks forever.
pub const MINIMUM_LIQUIDITY: u64 = 1000;

/// Grace period of a new pool: three days.
pub const DEFAULT_GRACE_PERIOD_SECONDS: u64 = 259_200;

/// Late fee of a new pool: 5% per day.
pub const DEFAULT_LATE_FEE_RATE_BPS: u32 = 500;

/// Reserve factor of a new pool: 10%.
pub const DEFAULT_RESERVE_FACTOR_BPS: u32 = 1000;

/// Collateral ratio of a contract that has not set one: 150%.
pub const DEFAULT_COLLATERAL_RATIO_BPS: u32 = 15_000;

/// Flash loan fee of a contract that has not set one: 0.09%.
pub const DEFAULT_FLASH_LOAN_FEE_BPS: u32 = 9;

/// Version of a contract that was never upgraded.
pub const CONTRACT_VERSION: u32 = 1;

/// Most positions that the plan yield index holds.
pub const MAX_PLAN_YIELD_POSITIONS: u32 = 200;

/// The lending contract and everything it stores.
pub struct LendingContract {
    pub access: AccessControl,
    pub admin: Option<Address>,
    /// The first pool's asset, in which insurance is paid.
    pub token: Option<Address>,
    pub supported_assets: Vec<Address>,
    pub pools: Table<Address, PoolState>,
    /// Owner and asset to pool shares.
    pub shares: Table<(Address, Address), u64>,
    /// Borrower to the borrower's primary loan.
    pub loans: Table<Address, LoanRecord>,
    pub loans_by_id: Table<u64, LoanRecord>,
    pub next_loan_id: u64,
    pub collateral_ratio_bps: u32,
    pub whitelisted_collateral: Table<Address, bool>,
    pub nft_token: Option<Address>,
    /// Loan id to late fees fixed for the loan.
    pub late_fees_accrued: Table<u64, u64>,
    pub flash_loan_fee_bps: u32,
    /// Borrower to the ids of the borrower's open loans.
    pub user_loans: Table<Address, Vec<u64>>,
    pub reward_pools: Table<Address, RewardPool>,
    /// User and asset to stake.
    pub user_stakes: Table<(Address, Address), UserStake>,
    pub insurance: Table<u64, LoanInsurance>,
    pub insurance_fund: Option<InsuranceFund>,
    pub insurance_premium_rate_bps: Option<u32>,
    pub inheritance_contract: Option<Address>,
    pub governance_contract: Option<Address>,
    pub rate_model: Option<RateModel>,
    pub whitelisted_flash_receivers: Table<Address, bool>,
    pub version: u32,
    pub plan_yield: Table<u64, PlanYieldPosition>,
    pub plan_yield_index: Vec<u64>,
    pub wrapped_tokens: Vec<Address>,
    /// Events published so far.
    pub events: List<LendingEvent>,
    /// Calls to other contracts made so far.
    pub calls: List<LendingCall>,
}

/// The model of [`LendingContract`].
#[verifier::ext_equal]
pub struct LendingView {
    pub access: AccessView,
    pub admin: Option<Address>,
    pub token: Option<Address>,
    pub supported_assets: Seq<Address>,
    pub pools: Map<Address, PoolState>,
    pub shares: Map<(Address, Address), u64>,
    pub loans: Map<Address, LoanRecord>,
    pub loans_by_id: Map<u64, LoanRecord>,
    pub next_loan_id: u64,
    pub collateral_ratio_bps: u32,
    pub whitelisted_collateral: Map<Address, bool>,
    pub nft_token: Option<Address>,
    pub late_fees_accrued: Map<u64, u64>,
    pub flash_loan_fee_bps: u32,
    pub user_loans: Map<Address, Seq<u64>>,
    pub reward_pools: Map<Address, RewardPool>,
    pub user_stakes: Map<(Address, Address), UserStake>,
    pub insurance: Map<u64, LoanInsurance>,
    pub insurance_fund: Option<InsuranceFund>,
    pub insurance_premium_rate_bps: Option<u32>,
    pub inheritance_contract: Option<Address>,
    pub governance_contract: Option<Address>,
    pub rate_model: Option<RateModel>,
    pub whitelisted_flash_receivers: Map<Address, bool>,
    pub version: u32,
    pub plan_yield: Map<u64, PlanYieldPosition>,
    pub plan_yield_index: Seq<u64>,
    pub wrapped_tokens: Seq<Address>,
    pub events: Seq<LendingEventView>,
    pub calls: Seq<LendingCallView>,
}

impl View for LendingContract {
    type V = LendingView;

    open spec fn view(&self) -> LendingView {
        LendingView {
            access: self.access@,
            admin: self.admin,
            token: self.token,
            supported_assets: self.supported_assets@,
            pools: self.pools@,
            shares: self.shares@,
            loans: self.loans@,
            loans_by_id: self.loans_by_id@,
            next_loan_id: self.next_loan_id,
            collateral_ratio_bps: self.collateral_ratio_bps,
            whitelisted_collateral: self.whitelisted_collateral@,
            nft_token: self.nft_token,
            late_fees_accrued: self.late_fees_accrued@,
            flash_loan_fee_bps: self.flash_loan_fee_bps,
            user_loans: self.user_loans@,
            reward_pools: self.reward_pools@,
            user_stakes: self.user_stakes@,
            insurance: self.insurance@,
            insurance_fund: self.insurance_fund,
            insurance_premium_rate_bps: self.insurance_premium_rate_bps,
            inheritance_contract: self.inheritance_contract,
            governance_contract: self.governance_contract,
            rate_model: self.rate_model,
            whitelisted_flash_receivers: self.whitelisted_flash_receivers@,
            version: self.version,
            plan_yield: self.plan_yield@,
            plan_yield_index: self.plan_yield_index@,
            wrapped_tokens: self.wrapped_tokens@,
            events: self.events@,
            calls: self.calls@,
        }
    }
}

/// The shares of one asset over all owners.
pub open spec fn shares_total(shares: Map<(Address, Address), u64>, asset: Address) -> nat
    decreases shares.dom().len(),
    when shares.dom().finite()
{
    if shares.dom().is_empty() {
        0
    } else {
        let key = shares.dom().choose();
        (if key.1 == asset {
            shares[key] as nat
        } else {
            0
        }) + shares_total(shares.remove(key), asset)
    }
}

proof fn lemma_total_remove(
    shares: Map<(Address, Address), u64>,
    asset: Address,
    key: (Address, Address),
)
    requires
        shares.dom().finite(),
        shares.contains_key(key),
    ensures
        shares_total(shares, asset) == shares_total(shares.remove(key), asset) + (if key.1
            == asset {
            shares[key] as nat
        } else {
            0
        }),
    decreases shares.dom().len(),
{
    let chosen = shares.dom().choose();
    assert(shares.dom().contains(key));
    assert(!shares.dom().is_empty());
    assert(shares.dom().contains(chosen));
    if chosen != key {
        let rest = shares.remove(chosen);
        lemma_total_remove(rest, asset, key);
        lemma_total_remove(shares.remove(key), asset, chosen);
        assert(rest.remove(key) =~= shares.remove(key).remove(chosen));
    }
}

/// Setting one holding changes the total of its asset by the difference, and
/// the total of no other asset.
pub proof fn lemma_total_insert(
    shares: Map<(Address, Address), u64>,
    key: (Address, Address),
    amount: u64,
    asset: Address,
)
    requires
        shares.dom().finite(),
    ensures
        shares_total(shares.insert(key, amount), asset) == shares_total(shares, asset) + (if key.1
            == asset {
            amount as int - (if shares.contains_key(key) {
                shares[key] as int
            } else {
                0
            })
        } else {
            0
        }),
        shares.contains_key(key) ==> shares[key] <= shares_total(shares, key.1),
{
    let after = shares.insert(key, amount);
    lemma_total_remove(after, asset, key);
    if shares.contains_key(key) {
        lemma_total_remove(shares, asset, key);
        lemma_total_remove(shares, key.1, key);
        assert(after.remove(key) =~= shares.remove(key));
    } else {
        assert(after.remove(key) =~= shares);
    }
}

/// Shares in circulation: the pool counts what its owners hold, and what the
/// first deposit locked. An asset without a pool has no shares.
#[verifier::opaque]
pub open spec fn shares_backed(
    pools: Map<Address, PoolState>,
    shares: Map<(Address, Address), u64>,
) -> bool {
    &&& shares.dom().finite()
    &&& forall|asset: Address| #[trigger]
        shares_total(shares, asset) == (if pools.contains_key(asset) {
            if pools[asset].total_shares == 0 {
                0
            } else {
                pools[asset].total_shares - MINIMUM_LIQUIDITY
            }
        } else {
            0
        })
}

/// Ids of the open loans of a borrower, oldest first.
pub open spec fn ids_of(user_loans: Map<Address, Seq<u64>>, borrower: Address) -> Seq<u64> {
    if user_loans.contains_key(borrower) {
        user_loans[borrower]
    } else {
        Seq::empty()
    }
}

/// Loans on file: the ids are below the next one and each record carries its
/// id; the primary loan of a borrower is one of the borrower's loans on file;
/// and the list of a borrower names exactly the borrower's loans, each once.
#[verifier::opaque]
pub open spec fn loans_on_file(
    loans: Map<Address, LoanRecord>,
    loans_by_id: Map<u64, LoanRecord>,
    user_loans: Map<Address, Seq<u64>>,
    next_loan_id: u64,
) -> bool {
    &&& forall|id: u64| #[trigger]
        loans_by_id.contains_key(id) ==> id < next_loan_id && loans_by_id[id].loan_id == id
    &&& forall|borrower: Address| #[trigger]
        loans.contains_key(borrower) ==> loans[borrower].borrower == borrower
            && loans_by_id.contains_key(loans[borrower].loan_id)
            && loans_by_id[loans[borrower].loan_id] == loans[borrower]
    &&& forall|borrower: Address, id: u64| #[trigger]
        ids_of(user_loans, borrower).contains(id) <==> loans_by_id.contains_key(id)
            && loans_by_id[id].borrower == borrower
    &&& forall|borrower: Address| (#[trigger] ids_of(user_loans, borrower)).no_duplicates()
}

/// The index of plan positions: every position is in it, once, and it is bounded.
#[verifier::opaque]
pub open spec fn positions_indexed(
    plan_yield: Map<u64, PlanYieldPosition>,
    index: Seq<u64>,
) -> bool {
    &&& index.no_duplicates()
    &&& index.len() <= MAX_PLAN_YIELD_POSITIONS
    &&& forall|plan_id: u64| #[trigger]
        index.contains(plan_id) <==> plan_yield.contains_key(plan_id)
}

/// Pools and assets: the supported assets are those with a pool, each named once.
#[verifier::opaque]
pub open spec fn assets_listed(pools: Map<Address, PoolState>, assets: Seq<Address>) -> bool {
    &&& assets.no_duplicates()
    &&& forall|asset: Address| #[trigger] assets.contains(asset) <==> pools.contains_key(asset)
}

/// A rate model has an optimal utilization strictly between nothing and the whole.
pub open spec fn rate_model_valid(model: Option<RateModel>) -> bool {
    model matches Some(m) ==> 0 < m.optimal_utilization_bps < 10_000 && m.reserve_factor_bps
        < 10_000
}

impl LendingView {
    /// What holds of the contract between calls: before it has an admin nothing
    /// is on its books; its first asset has a pool; and its pools, shares, loans
    /// and plan positions are in order.
    pub open spec fn well_formed(self) -> bool {
        &&& self.admin is Some <==> self.token is Some
        &&& self.token matches Some(token) ==> self.pools.contains_key(token)
        &&& self.token is None ==> self.pools == Map::<Address, PoolState>::empty()
        &&& self.admin is None ==> self.access.roles == Map::<Address, Seq<Role>>::empty()
        &&& self.admin is None ==> self.loans_by_id == Map::<u64, LoanRecord>::empty()
        &&& self.admin is None ==> self.insurance == Map::<u64, LoanInsurance>::empty()
        &&& rate_model_valid(self.rate_model)
        &&& assets_listed(self.pools, self.supported_assets)
        &&& shares_backed(self.pools, self.shares)
        &&& loans_on_file(self.loans, self.loans_by_id, self.user_loans, self.next_loan_id)
        &&& positions_indexed(self.plan_yield, self.plan_yield_index)
    }

    /// Why a guarded call is refused before it looks at its arguments.
    pub open spec fn entry_error(self) -> Option<LendingError> {
        if self.access.paused {
            Some(LendingError::ContractPaused)
        } else {
            self.unpaused_entry_error()
        }
    }

    /// Why a guarded call that works on a paused contract is refused before it
    /// looks at its arguments.
    pub open spec fn unpaused_entry_error(self) -> Option<LendingError> {
        if self.admin is None {
            Some(LendingError::NotInitialized)
        } else if self.access.entered {
            Some(LendingError::ReentrantCall)
        } else {
            None
        }
    }

    /// Why a call that is open to admins alone is refused.
    pub open spec fn admin_error(self, caller: Address) -> Option<LendingError> {
        if self.access.entered {
            Some(LendingError::ReentrantCall)
        } else if self.access.has(caller, Role::Admin) {
            None
        } else {
            Some(LendingError::NotAdmin)
        }
    }

    /// Why an asset cannot be used: it has no pool.
    pub open spec fn pool_error(self, asset: Address) -> Option<LendingError> {
        if self.pools.contains_key(asset) {
            None
        } else {
            Some(LendingError::AssetNotSupported)
        }
    }

    /// Pool shares of an owner.
    pub open spec fn shares_of(self, asset: Address, owner: Address) -> u64 {
        if self.shares.contains_key((owner, asset)) {
            self.shares[(owner, asset)]
        } else {
            0
        }
    }

    /// Open loans of a borrower, oldest first.
    pub open spec fn loans_of(self, borrower: Address) -> Seq<u64> {
        ids_of(self.user_loans, borrower)
    }

    /// The contract with another state of one pool.
    pub open spec fn with_pool(self, asset: Address, pool: PoolState) -> LendingView {
        LendingView { pools: self.pools.insert(asset, pool), ..self }
    }

    /// The contract after an event was published.
    pub open spec fn with_event(self, event: LendingEventView) -> LendingView {
        LendingView { events: self.events.push(event), ..self }
    }

    /// The contract after a call to another contract.
    pub open spec fn with_call(self, call: LendingCallView) -> LendingView {
        LendingView { calls: self.calls.push(call), ..self }
    }

    /// The contract after tokens were moved.
    pub open spec fn with_transfer(
        self,
        token: Address,
        from: Address,
        to: Address,
        amount: u64,
    ) -> LendingView {
        self.with_call(LendingCallView::Transfer { token, from, to, amount })
    }
}

/// A pool can change in every respect but its shares.
pub proof fn lemma_pool_update(lending: LendingView, asset: Address, pool: PoolState)
    requires
        lending.well_formed(),
        lending.pools.contains_key(asset),
        pool.total_shares == lending.pools[asset].total_shares,
    ensures
        lending.with_pool(asset, pool).well_formed(),
{
    reveal(shares_backed);
    reveal(assets_listed);
    let after = lending.with_pool(asset, pool);
    assert forall|a: Address| #[trigger]
        lending.supported_assets.contains(a) <==> after.pools.contains_key(a) by {
        assert(lending.supported_assets.contains(a) <==> lending.pools.contains_key(a));
    }
}

/// The state of a pool that was just opened.
pub open spec fn fresh_pool(
    base_rate_bps: u32,
    multiplier_bps: u32,
    utilization_cap_bps: u32,
) -> PoolState {
    PoolState {
        total_deposits: 0,
        total_shares: 0,
        total_borrowed: 0,
        base_rate_bps,
        multiplier_bps,
        utilization_cap_bps,
        retained_yield: 0,
        bad_debt_reserve: 0,
        grace_period_seconds: DEFAULT_GRACE_PERIOD_SECONDS,
        late_fee_rate_bps: DEFAULT_LATE_FEE_RATE_BPS,
        reserve_factor_bps: DEFAULT_RESERVE_FACTOR_BPS,
        total_protocol_revenue: 0,
        is_paused: false,
    }
}

impl PoolState {
    /// A pool that was just opened.
    pub fn fresh(base_rate_bps: u32, multiplier_bps: u32, utilization_cap_bps: u32) -> (pool:
        PoolState)
        ensures
            pool == fresh_pool(base_rate_bps, multiplier_bps, utilization_cap_bps),
    {
        PoolState {
            total_deposits: 0,
            total_shares: 0,
            total_borrowed: 0,
            base_rate_bps,
            multiplier_bps,
            utilization_cap_bps,
            retained_yield: 0,
            bad_debt_reserve: 0,
            grace_period_seconds: DEFAULT_GRACE_PERIOD_SECONDS,
            late_fee_rate_bps: DEFAULT_LATE_FEE_RATE_BPS,
            reserve_factor_bps: DEFAULT_RESERVE_FACTOR_BPS,
            total_protocol_revenue: 0,
            is_paused: false,
        }
    }
}

impl LendingContract {
    /// The contract as deployed: no admin, no pools.
    pub fn new() -> (lending: LendingContract)
        ensures
            lending@ == (LendingView {
                access: AccessView { roles: Map::empty(), paused: false, entered: false },
                admin: None,
                token: None,
                supported_assets: Seq::empty(),
                pools: Map::empty(),
                shares: Map::empty(),
                loans: Map::empty(),
                loans_by_id: Map::empty(),
                next_loan_id: 1,
                collateral_ratio_bps: DEFAULT_COLLATERAL_RATIO_BPS,
                whitelisted_collateral: Map::empty(),
                nft_token: None,
                late_fees_accrued: Map::empty(),
                flash_loan_fee_bps: DEFAULT_FLASH_LOAN_FEE_BPS,
                user_loans: Map::empty(),
                reward_pools: Map::empty(),
                user_stakes: Map::empty(),
                insurance: Map::empty(),
                insurance_fund: None,
                insurance_premium_rate_bps: None,
                inheritance_contract: None,
                governance_contract: None,
                rate_model: None,
                whitelisted_flash_receivers: Map::empty(),
                version: CONTRACT_VERSION,
                plan_yield: Map::empty(),
                plan_yield_index: Seq::empty(),
                wrapped_tokens: Seq::empty(),
                events: Seq::empty(),
                calls: Seq::empty(),
            }),
            lending@.well_formed(),
    {
        let lending = LendingContract {
            access: AccessControl::new(),
            admin: None,
            token: None,
            supported_assets: Vec::new(),
            pools: Table::new(),
            shares: Table::new(),
            loans: Table::new(),
            loans_by_id: Table::new(),
            next_loan_id: 1,
            collateral_ratio_bps: DEFAULT_COLLATERAL_RATIO_BPS,
            whitelisted_collateral: Table::new(),
            nft_token: None,
            late_fees_accrued: Table::new(),
            flash_loan_fee_bps: DEFAULT_FLASH_LOAN_FEE_BPS,
            user_loans: Table::new(),
            reward_pools: Table::new(),
            user_stakes: Table::new(),
            insurance: Table::new(),
            insurance_fund: None,
            insurance_premium_rate_bps: None,
            inheritance_contract: None,
            governance_contract: None,
            rate_model: None,
            whitelisted_flash_receivers: Table::new(),
            version: CONTRACT_VERSION,
            plan_yield: Table::new(),
            plan_yield_index: Vec::new(),
            wrapped_tokens: Vec::new(),
            events: List::new(),
            calls: List::new(),
        };
        proof {
            reveal(shares_backed);
            reveal(loans_on_file);
            reveal(positions_indexed);
            reveal(assets_listed);
            assert(Map::<(Address, Address), u64>::empty().dom().is_empty());
        }
        lending
    }

    /// Refuses a call on a paused contract.
    pub fn require_not_paused(&self) -> (result: Result<(), LendingError>)
        ensures
            result == (if self@.access.paused {
                Err::<(), LendingError>(LendingError::ContractPaused)
            } else {
                Ok(())
            }),
    {
        if self.access.paused {
            Err(LendingError::ContractPaused)
        } else {
            Ok(())
        }
    }

    /// Refuses a call on a contract without an admin.
    pub fn require_initialized(&self) -> (result: Result<(), LendingError>)
        ensures
            result == (if self@.admin is None {
                Err::<(), LendingError>(LendingError::NotInitialized)
            } else {
                Ok(())
            }),
    {
        if self.admin.is_none() {
            Err(LendingError::NotInitialized)
        } else {
            Ok(())
        }
    }

    /// Refuses a call while a guarded call is under way; else marks that one is.
    pub fn enter_reentrancy_guard(&mut self) -> (result: Result<(), LendingError>)
        ensures
            match result {
                Err(e) => old(self)@.access.entered && e == LendingError::ReentrantCall
                    && final(self)@ == old(self)@,
                Ok(()) => !old(self)@.access.entered && final(self)@ == (LendingView {
                    access: AccessView { entered: true, ..old(self)@.access },
                    ..old(self)@
                }),
            },
    {
        if self.access.entered {
            return Err(LendingError::ReentrantCall);
        }
        self.access.entered = true;
        Ok(())
    }

    /// Marks that the guarded call has ended.
    pub fn exit_reentrancy_guard(&mut self)
        ensures
            final(self)@ == (LendingView {
                access: AccessView { entered: false, ..old(self)@.access },
                ..old(self)@
            }),
    {
        self.access.entered = false;
    }

    /// Refuses a guarded call on a contract that is paused, has no admin, or has
    /// another guarded call under way. A guarded call that is let in leaves the
    /// guard as it found it.
    pub fn check_entry(&self) -> (error: Option<LendingError>)
        ensures
            error == self@.entry_error(),
    {
        if self.access.paused {
            return Some(LendingError::ContractPaused);
        }
        self.check_unpaused_entry()
    }

    /// Refuses a guarded call on a contract that has no admin, or has another
    /// guarded call under way.
    pub fn check_unpaused_entry(&self) -> (error: Option<LendingError>)
        ensures
            error == self@.unpaused_entry_error(),
    {
        if self.admin.is_none() {
            Some(LendingError::NotInitialized)
        } else if self.access.entered {
            Some(LendingError::ReentrantCall)
        } else {
            None
        }
    }

    /// Refuses a call while another one is under way.
    pub fn require_not_entered(&self) -> (result: Result<(), LendingError>)
        ensures
            match result {
                Ok(()) => !self@.access.entered,
                Err(e) => self@.access.entered && e == LendingError::ReentrantCall,
            },
    {
        if self.access.entered {
            Err(LendingError::ReentrantCall)
        } else {
            Ok(())
        }
    }

    /// Refuses a caller who is not an admin, and any caller while another call is
    /// under way.
    pub fn require_admin(&self, env: &Env, caller: Address) -> (result: Result<(), LendingError>)
        requires
            env.authorized(caller),
        ensures
            match result {
                Ok(()) => self@.admin_error(caller) is None,
                Err(e) => self@.admin_error(caller) == Some(e),
            },
    {
        if self.access.entered {
            Err(LendingError::ReentrantCall)
        } else if self.access.has_role(caller, Role::Admin) {
            Ok(())
        } else {
            Err(LendingError::NotAdmin)
        }
    }

    /// The state of an asset's pool.
    pub fn get_pool(&self, asset: Address) -> (pool: Result<PoolState, LendingError>)
        ensures
            match pool {
                Ok(p) => self@.pools.contains_key(asset) && p == self@.pools[asset],
                Err(e) => !self@.pools.contains_key(asset) && e == LendingError::AssetNotSupported,
            },
    {
        match self.pools.get(asset) {
            Some(pool) => Ok(*pool),
            None => Err(LendingError::AssetNotSupported),
        }
    }

    /// Replaces the state of an asset's pool.
    pub fn set_pool(&mut self, asset: Address, pool: PoolState)
        ensures
            final(self)@ == old(self)@.with_pool(asset, pool),
    {
        self.pools.set(asset, pool);
    }

    /// Pool shares of an owner.
    pub fn get_shares(&self, asset: Address, owner: Address) -> (shares: u64)
        ensures
            shares == self@.shares_of(asset, owner),
    {
        match self.shares.get((owner, asset)) {
            Some(shares) => *shares,
            None => 0,
        }
    }

    /// Replaces the pool shares of an owner.
    pub fn set_shares(&mut self, asset: Address, owner: Address, shares: u64)
        ensures
            final(self)@ == (LendingView {
                shares: old(self)@.shares.insert((owner, asset), shares),
                ..old(self)@
            }),
    {
        self.shares.set((owner, asset), shares);
    }

    /// Publishes an event.
    pub fn publish(&mut self, event: LendingEvent)
        ensures
            final(self)@ == old(self)@.with_event(event@),
    {
        self.events.push(event);
    }

    /// Records a call to another contract.
    pub fn call(&mut self, call: LendingCall)
        ensures
            final(self)@ == old(self)@.with_call(call@),
    {
        self.calls.push(call);
    }

    /// Moves tokens. Where they could not be moved, the call fails as a whole and
    /// leaves no trace.
    pub fn transfer(
        &mut self,
        token: Address,
        from: Address,
        to: Address,
        amount: u64,
        transferred: bool,
    ) -> (result: Result<(), LendingError>)
        ensures
            match result {
                Ok(()) => transferred && final(self)@ == old(self)@.with_transfer(
                    token,
                    from,
                    to,
                    amount,
                ),
                Err(e) => !transferred && e == LendingError::TransferFailed && final(self)@
                    == old(self)@,
            },
    {
        if !transferred {
            return Err(LendingError::TransferFailed);
        }
        self.call(LendingCall::Transfer { token, from, to, amount });
        Ok(())
    }
}

/// The terms of a new pool: the first deposit locks a thousand shares; three days of
/// grace, then a late fee of 5% per day; a tenth of the interest as reserve; collateral
/// of 150%; and a fee of 9 basis points for flash loans. At most 200 plans earn yield,
/// and the first version is one.
pub proof fn law_limits()
    ensures
        MINIMUM_LIQUIDITY == 1_000,
        DEFAULT_GRACE_PERIOD_SECONDS == 3 * 24 * 60 * 60,
        DEFAULT_LATE_FEE_RATE_BPS == 500,
        DEFAULT_RESERVE_FACTOR_BPS == 1_000,
        DEFAULT_COLLATERAL_RATIO_BPS == 15_000,
        DEFAULT_FLASH_LOAN_FEE_BPS == 9,
        CONTRACT_VERSION == 1,
        MAX_PLAN_YIELD_POSITIONS == 200,
{
}

/// Why a guarded call is refused before it looks at its arguments: every reason that is
/// given holds.
pub proof fn law_reason_entry(lending: LendingView)
    ensures
        match lending.entry_error() {
            None => true,
            Some(LendingError::ContractPaused) => lending.access.paused,
            Some(error) => lending.unpaused_entry_error() == Some(error),
        },
{
}

/// Why a guarded call that works on a paused contract is refused before it looks at its
/// arguments: every reason that is given holds.
pub proof fn law_reason_unpaused_entry(lending: LendingView)
    ensures
        match lending.unpaused_entry_error() {
            None => true,
            Some(LendingError::NotInitialized) => lending.admin is None,
            Some(LendingError::ReentrantCall) => lending.access.entered,
            Some(_) => false,
        },
{
}

/// Why a call that is open to admins alone is refused: every reason that is given
/// holds.
pub proof fn law_reason_admin(lending: LendingView, caller: Address)
    ensures
        match lending.admin_error(caller) {
            None => true,
            Some(LendingError::ReentrantCall) => lending.access.entered,
            Some(LendingError::NotAdmin) => !lending.access.has(caller, Role::Admin),
            Some(_) => false,
        },
{
}

/// Why an asset cannot be used: every reason that is given holds.
pub proof fn law_reason_pool(lending: LendingView, asset: Address)
    ensures
        match lending.pool_error(asset) {
            None => true,
            Some(error) => error == LendingError::AssetNotSupported && !lending.pools.contains_key(
                asset,
            ),
        },
{
}

/// What is looked up where nothing is on file: no shares and no loans.
pub proof fn law_lookups(lending: LendingView, asset: Address, owner: Address)
    ensures
        lending.shares.contains_key((owner, asset)) ==> lending.shares_of(asset, owner)
            == lending.shares[(owner, asset)],
        !lending.shares.contains_key((owner, asset)) ==> lending.shares_of(asset, owner) == 0,
        lending.user_loans.contains_key(owner) ==> lending.loans_of(owner)
            == lending.user_loans[owner],
        !lending.user_loans.contains_key(owner) ==> lending.loans_of(owner).len() == 0,
{
}

/// A transfer is one call, from whom it is taken to whom it is given; pools and events
/// change one at a time.
pub proof fn law_bookkeeping(
    lending: LendingView,
    token: Address,
    from: Address,
    to: Address,
    amount: u64,
    pool: PoolState,
    event: LendingEventView,
)
    ensures
        lending.with_transfer(token, from, to, amount) == (LendingView {
            calls: lending.calls.push(LendingCallView::Transfer { token, from, to, amount }),
            ..lending
        }),
        lending.with_pool(token, pool) == (LendingView {
            pools: lending.pools.insert(token, pool),
            ..lending
        }),
        lending.with_event(event) == (LendingView { events: lending.events.push(event), ..lending }),
        lending.entry_error() is None <==> lending.admin is Some && !lending.access.paused
            && !lending.access.entered,
        lending.unpaused_entry_error() is None <==> lending.admin is Some
            && !lending.access.entered,
{
}

} // verus!
