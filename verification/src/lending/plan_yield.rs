//! Yield that inheritance plans earn in the pools.
use vstd::prelude::*;

use crate::access::Role;
use crate::host::{Address, Env};
use crate::lending::rates::accrual;
use crate::lending::state::{
    lemma_pool_update, positions_indexed, LendingContract, LendingView, MAX_PLAN_YIELD_POSITIONS,
};
use crate::lending::types::{
    LendingCallView, LendingError, LendingEvent, LendingEventView, PlanYieldBoostSetEvent,
    PlanYieldClaimedEvent, PlanYieldPosition, PlanYieldRegisteredEvent, PlanYieldStats,
    PlanYieldUnregisteredEvent, PoolState, RetainedYieldFundedEvent,
};
use crate::list::{lemma_push_contains, list_contains};
use crate::math::{
    min64, saturating_difference, saturating_sum, saturating_sum32, smaller,
};

verus! {

/// Largest extra rate that a plan can be granted: 20%.
pub const MAX_YIELD_BOOST_BPS: u32 = 2_000;

/// Most plans in one batch of claims.
pub const MAX_YIELD_CLAIM_BATCH: usize = 25;

impl LendingView {
    /// Why a caller may not act for a plan: it is neither the linked inheritance
    /// contract nor an admin.
    pub open spec fn plan_caller_error(self, caller: Address) -> Option<LendingError> {
        if self.access.entered {
            Some(LendingError::ReentrantCall)
        } else if self.inheritance_contract == Some(caller) || self.access.has(caller, Role::Admin) {
            None
        } else {
            Some(LendingError::Unauthorized)
        }
    }

    /// The rate that a position earns: the pool's supply rate and its boost.
    pub open spec fn position_rate(self, position: PlanYieldPosition) -> u32 {
        saturating_sum32(
            self.pool_supply_rate(self.pools[position.asset]),
            position.boost_bps,
        )
    }

    /// Yield that a position has accrued since its last harvest, whether or not
    /// the pool can pay it.
    pub open spec fn accrued(self, now: u64, position: PlanYieldPosition) -> u64 {
        if position.active {
            accrual(
                position.principal,
                self.position_rate(position),
                saturating_difference(now, position.last_harvest_at),
            )
        } else {
            0
        }
    }

    /// Yield that a position can claim now: what it accrued, as far as the
    /// retained yield of the pool goes.
    pub open spec fn claimable(self, now: u64, position: PlanYieldPosition) -> u64 {
        smaller(self.accrued(now, position), self.pools[position.asset].retained_yield)
    }

    /// Why a registration is refused.
    pub open spec fn register_error(self, caller: Address, plan_id: u64, asset: Address) -> Option<
        LendingError,
    > {
        if self.admin is None {
            Some(LendingError::NotInitialized)
        } else if self.access.paused {
            Some(LendingError::ContractPaused)
        } else if self.plan_caller_error(caller) is Some {
            self.plan_caller_error(caller)
        } else if !self.pools.contains_key(asset) {
            Some(LendingError::AssetNotSupported)
        } else if !self.plan_yield.contains_key(plan_id) && self.plan_yield_index.len()
            >= MAX_PLAN_YIELD_POSITIONS {
            Some(LendingError::TooManyYieldPositions)
        } else {
            None
        }
    }

    /// The position of a plan after it was registered. Registering again keeps
    /// the totals and the boost; asset, principal and watermark move.
    pub open spec fn registered_position(
        self,
        now: u64,
        plan_id: u64,
        asset: Address,
        principal: u64,
    ) -> PlanYieldPosition {
        if self.plan_yield.contains_key(plan_id) {
            PlanYieldPosition {
                asset,
                principal,
                last_harvest_at: now,
                active: true,
                ..self.plan_yield[plan_id]
            }
        } else {
            PlanYieldPosition {
                plan_id,
                asset,
                principal,
                last_harvest_at: now,
                total_harvested: 0,
                last_harvest_amount: 0,
                harvest_count: 0,
                registered_at: now,
                boost_bps: 0,
                active: true,
            }
        }
    }

    /// The contract with another position of one plan.
    pub open spec fn with_position(self, plan_id: u64, position: PlanYieldPosition) -> LendingView {
        LendingView { plan_yield: self.plan_yield.insert(plan_id, position), ..self }
    }

    /// The contract after a plan was registered.
    pub open spec fn registered(self, now: u64, plan_id: u64, asset: Address, principal: u64)
        -> LendingView {
        let indexed = if self.plan_yield.contains_key(plan_id) {
            self
        } else {
            LendingView { plan_yield_index: self.plan_yield_index.push(plan_id), ..self }
        };
        indexed.with_position(
            plan_id,
            self.registered_position(now, plan_id, asset, principal),
        ).with_event(
            LendingEventView::PlanYieldRegistered(
                PlanYieldRegisteredEvent { plan_id, asset, principal, timestamp: now },
            ),
        )
    }

    /// Why a claim is refused.
    pub open spec fn claim_yield_error(self, now: u64, caller: Address, plan_id: u64) -> Option<
        LendingError,
    > {
        let position = self.plan_yield[plan_id];
        if self.admin is None {
            Some(LendingError::NotInitialized)
        } else if self.access.paused {
            Some(LendingError::ContractPaused)
        } else if self.plan_caller_error(caller) is Some {
            self.plan_caller_error(caller)
        } else if !self.plan_yield.contains_key(plan_id) {
            Some(LendingError::PlanYieldNotRegistered)
        } else if !position.active {
            Some(LendingError::PlanYieldInactive)
        } else if !self.pools.contains_key(position.asset) {
            Some(LendingError::AssetNotSupported)
        } else if self.pools[position.asset].is_paused {
            Some(LendingError::PoolPaused)
        } else if self.claimable(now, position) == 0 {
            Some(LendingError::NoYieldAccrued)
        } else {
            None
        }
    }

    /// The position of a plan after a claim.
    pub open spec fn harvested_position(self, now: u64, plan_id: u64) -> PlanYieldPosition {
        let position = self.plan_yield[plan_id];
        let payout = self.claimable(now, position);
        PlanYieldPosition {
            last_harvest_at: now,
            last_harvest_amount: payout,
            harvest_count: saturating_sum32(position.harvest_count, 1),
            total_harvested: saturating_sum(position.total_harvested, payout),
            ..position
        }
    }

    /// The contract after a claim: the payout left the retained yield, and the
    /// position's watermark is now.
    pub open spec fn yield_claimed(self, now: u64, plan_id: u64) -> LendingView {
        let position = self.plan_yield[plan_id];
        let payout = self.claimable(now, position);
        let pool = self.pools[position.asset];
        let harvested = self.harvested_position(now, plan_id);
        self.with_pool(
            position.asset,
            PoolState { retained_yield: (pool.retained_yield - payout) as u64, ..pool },
        ).with_position(plan_id, harvested).with_event(
            LendingEventView::PlanYieldClaimed(
                PlanYieldClaimedEvent {
                    plan_id,
                    asset: position.asset,
                    yield_amount: payout,
                    total_harvested: harvested.total_harvested,
                    timestamp: now,
                },
            ),
        )
    }

    /// The contract after the first `n` plans of a batch were harvested; a plan
    /// that cannot be harvested is passed over.
    pub open spec fn batch_claimed(self, now: u64, caller: Address, plan_ids: Seq<u64>, n: int)
        -> LendingView
        decreases n,
    {
        if n <= 0 {
            self
        } else {
            let before = self.batch_claimed(now, caller, plan_ids, n - 1);
            if before.claim_yield_error(now, caller, plan_ids[n - 1]) is None {
                before.yield_claimed(now, plan_ids[n - 1])
            } else {
                before
            }
        }
    }

    /// What the `i`-th plan of a batch is paid; nothing if it cannot be harvested.
    pub open spec fn batch_payout(self, now: u64, caller: Address, plan_ids: Seq<u64>, i: int)
        -> u64 {
        let before = self.batch_claimed(now, caller, plan_ids, i);
        if before.claim_yield_error(now, caller, plan_ids[i]) is None {
            before.claimable(now, before.plan_yield[plan_ids[i]])
        } else {
            0
        }
    }

    /// Why a batch of claims is refused as a whole.
    pub open spec fn batch_claim_error(self, plan_ids: Seq<u64>) -> Option<LendingError> {
        if self.access.entered {
            Some(LendingError::ReentrantCall)
        } else if self.admin is None {
            Some(LendingError::NotInitialized)
        } else if self.access.paused {
            Some(LendingError::ContractPaused)
        } else if plan_ids.len() > MAX_YIELD_CLAIM_BATCH {
            Some(LendingError::TooManyYieldPositions)
        } else {
            None
        }
    }

    /// Why a registration cannot be ended.
    pub open spec fn unregister_error(self, caller: Address, plan_id: u64) -> Option<
        LendingError,
    > {
        if self.admin is None {
            Some(LendingError::NotInitialized)
        } else if self.plan_caller_error(caller) is Some {
            self.plan_caller_error(caller)
        } else if !self.plan_yield.contains_key(plan_id) {
            Some(LendingError::PlanYieldNotRegistered)
        } else {
            None
        }
    }

    /// The contract after a registration was ended. The totals stay.
    pub open spec fn unregistered(self, now: u64, plan_id: u64) -> LendingView {
        let position = self.plan_yield[plan_id];
        self.with_position(
            plan_id,
            PlanYieldPosition { active: false, principal: 0, ..position },
        ).with_event(
            LendingEventView::PlanYieldUnregistered(
                PlanYieldUnregisteredEvent {
                    plan_id,
                    asset: position.asset,
                    total_harvested: position.total_harvested,
                    timestamp: now,
                },
            ),
        )
    }

    /// Why a boost is refused.
    pub open spec fn boost_error(self, admin: Address, plan_id: u64, boost_bps: u32) -> Option<
        LendingError,
    > {
        if self.admin is None {
            Some(LendingError::NotInitialized)
        } else if self.admin_error(admin) is Some {
            self.admin_error(admin)
        } else if boost_bps > MAX_YIELD_BOOST_BPS {
            Some(LendingError::InvalidYieldBoost)
        } else if !self.plan_yield.contains_key(plan_id) {
            Some(LendingError::PlanYieldNotRegistered)
        } else {
            None
        }
    }

    /// Why a position cannot be priced.
    pub open spec fn position_error(self, plan_id: u64) -> Option<LendingError> {
        if self.admin is None {
            Some(LendingError::NotInitialized)
        } else if !self.plan_yield.contains_key(plan_id) {
            Some(LendingError::PlanYieldNotRegistered)
        } else {
            self.pool_error(self.plan_yield[plan_id].asset)
        }
    }

    /// Why funding the retained yield is refused. `transferred` is whether the
    /// tokens arrived.
    pub open spec fn fund_yield_error(
        self,
        funder: Address,
        asset: Address,
        amount: u64,
        transferred: bool,
    ) -> Option<LendingError> {
        if self.admin is None {
            Some(LendingError::NotInitialized)
        } else if self.access.paused {
            Some(LendingError::ContractPaused)
        } else if self.plan_caller_error(funder) is Some {
            self.plan_caller_error(funder)
        } else if amount == 0 {
            Some(LendingError::InvalidAmount)
        } else if !self.pools.contains_key(asset) {
            Some(LendingError::AssetNotSupported)
        } else if !transferred {
            Some(LendingError::TransferFailed)
        } else if self.pools[asset].retained_yield + amount > u64::MAX {
            Some(LendingError::InvalidAmount)
        } else {
            None
        }
    }

    /// The contract after the retained yield was funded.
    pub open spec fn yield_funded(
        self,
        contract: Address,
        funder: Address,
        asset: Address,
        amount: u64,
    ) -> LendingView {
        let pool = self.pools[asset];
        let balance = (pool.retained_yield + amount) as u64;
        self.with_transfer(asset, funder, contract, amount).with_pool(
            asset,
            PoolState { retained_yield: balance, ..pool },
        ).with_event(
            LendingEventView::RetainedYieldFunded(
                RetainedYieldFundedEvent { asset, funder, amount, new_balance: balance },
            ),
        )
    }

    /// Whether the `i`-th registered plan has its position in the asset's pool.
    pub open spec fn in_pool(self, asset: Address, i: int) -> bool {
        let plan_id = self.plan_yield_index[i];
        self.plan_yield.contains_key(plan_id) && self.plan_yield[plan_id].asset == asset
    }

    /// Counts and sums over the first `n` registered plans.
    pub open spec fn stats(self, asset: Address, n: int) -> PlanYieldStats
        decreases n,
    {
        if n <= 0 {
            PlanYieldStats {
                asset,
                position_count: 0,
                active_count: 0,
                total_principal: 0,
                total_harvested: 0,
                available_yield: self.pools[asset].retained_yield,
            }
        } else {
            let before = self.stats(asset, n - 1);
            let position = self.plan_yield[self.plan_yield_index[n - 1]];
            if !self.in_pool(asset, n - 1) {
                before
            } else {
                PlanYieldStats {
                    position_count: (before.position_count + 1) as u32,
                    active_count: if position.active {
                        (before.active_count + 1) as u32
                    } else {
                        before.active_count
                    },
                    total_principal: if position.active {
                        saturating_sum(before.total_principal, position.principal)
                    } else {
                        before.total_principal
                    },
                    total_harvested: saturating_sum(
                        before.total_harvested,
                        position.total_harvested,
                    ),
                    ..before
                }
            }
        }
    }
}

/// A position can change in every respect.
proof fn lemma_position_update(lending: LendingView, plan_id: u64, position: PlanYieldPosition)
    requires
        lending.well_formed(),
        lending.plan_yield.contains_key(plan_id),
    ensures
        lending.with_position(plan_id, position).well_formed(),
{
    reveal(positions_indexed);
    let after = lending.with_position(plan_id, position);
    assert forall|id: u64| #[trigger]
        lending.plan_yield_index.contains(id) <==> after.plan_yield.contains_key(id) by {
        assert(lending.plan_yield_index.contains(id) <==> lending.plan_yield.contains_key(id));
    }
}

/// A claim keeps the contract well formed.
proof fn lemma_claim_well_formed(lending: LendingView, now: u64, caller: Address, plan_id: u64)
    requires
        lending.well_formed(),
        lending.claim_yield_error(now, caller, plan_id) is None,
    ensures
        lending.yield_claimed(now, plan_id).well_formed(),
{
    let position = lending.plan_yield[plan_id];
    let pool = lending.pools[position.asset];
    let updated = PoolState {
        retained_yield: (pool.retained_yield - lending.claimable(now, position)) as u64,
        ..pool
    };
    lemma_pool_update(lending, position.asset, updated);
    lemma_position_update(
        lending.with_pool(position.asset, updated),
        plan_id,
        lending.harvested_position(now, plan_id),
    );
}

/// A claim pays exactly what the preview showed, and takes exactly that from
/// the retained yield, never more than there was.
pub proof fn law_claim_pays_the_preview(
    lending: LendingView,
    now: u64,
    caller: Address,
    plan_id: u64,
)
    requires
        lending.claim_yield_error(now, caller, plan_id) is None,
    ensures
        ({
            let position = lending.plan_yield[plan_id];
            let payout = lending.claimable(now, position);
            let after = lending.yield_claimed(now, plan_id);
            &&& 0 < payout <= lending.pools[position.asset].retained_yield
            &&& after.pools[position.asset].retained_yield + payout
                == lending.pools[position.asset].retained_yield
            &&& after.plan_yield[plan_id].last_harvest_amount == payout
        }),
{
}

/// Elapsed time is paid once: right after a claim nothing is left to claim.
pub proof fn law_claim_pays_once(lending: LendingView, now: u64, caller: Address, plan_id: u64)
    requires
        lending.claim_yield_error(now, caller, plan_id) is None,
    ensures
        lending.yield_claimed(now, plan_id).claim_yield_error(now, caller, plan_id) == Some(
            LendingError::NoYieldAccrued,
        ),
{
    let after = lending.yield_claimed(now, plan_id);
    let position = after.plan_yield[plan_id];
    assert(position.principal * after.position_rate(position) * 0 == 0) by (nonlinear_arith);
    assert(after.accrued(now, position) == 0);
}

/// Registering again never prices elapsed time anew, and keeps what the plan
/// has earned so far.
pub proof fn law_reregistering_keeps_totals(
    lending: LendingView,
    now: u64,
    plan_id: u64,
    asset: Address,
    principal: u64,
)
    requires
        lending.plan_yield.contains_key(plan_id),
    ensures
        ({
            let before = lending.plan_yield[plan_id];
            let after = lending.registered(now, plan_id, asset, principal);
            let position = after.plan_yield[plan_id];
            &&& position.total_harvested == before.total_harvested
            &&& position.harvest_count == before.harvest_count
            &&& position.boost_bps == before.boost_bps
            &&& position.registered_at == before.registered_at
            &&& after.plan_yield_index == lending.plan_yield_index
            &&& after.accrued(now, position) == 0
        }),
{
    let after = lending.registered(now, plan_id, asset, principal);
    let position = after.plan_yield[plan_id];
    assert(position.principal * after.position_rate(position) * 0 == 0) by (nonlinear_arith);
}

/// A position whose registration ended accrues nothing, at any time.
pub proof fn law_unregistered_plans_stop_earning(
    lending: LendingView,
    now: u64,
    later: u64,
    plan_id: u64,
)
    ensures
        ({
            let after = lending.unregistered(now, plan_id);
            &&& after.accrued(later, after.plan_yield[plan_id]) == 0
            &&& after.plan_yield[plan_id].total_harvested
                == lending.plan_yield[plan_id].total_harvested
        }),
{
}

impl LendingContract {
    /// Authorize a caller for plan-yield operations.
    ///
    /// Accepts either the linked inheritance contract or a protocol admin, so the
    /// pool side can be driven directly during migrations without going through
    /// the vault.
    pub fn require_plan_yield_caller(&self, env: &Env, caller: Address) -> (result: Result<
        (),
        LendingError,
    >)
        requires
            env.authorized(caller),
        ensures
            match result {
                Ok(()) => self@.plan_caller_error(caller) is None,
                Err(e) => self@.plan_caller_error(caller) == Some(e),
            },
    {
        self.check_plan_yield_caller(caller)
    }

    /// Whether a caller may act for plans: the linked inheritance contract or an admin.
    pub fn check_plan_yield_caller(&self, caller: Address) -> (result: Result<(), LendingError>)
        ensures
            match result {
                Ok(()) => self@.plan_caller_error(caller) is None,
                Err(e) => self@.plan_caller_error(caller) == Some(e),
            },
    {
        match self.require_not_entered() {
            Err(e) => {
                return Err(e);
            },
            Ok(()) => {},
        }
        if let Some(contract) = self.inheritance_contract {
            if contract == caller {
                return Ok(());
            }
        }
        if self.access.has_role(caller, Role::Admin) {
            Ok(())
        } else {
            Err(LendingError::Unauthorized)
        }
    }

    /// Supply-side rate for `asset`, in basis points per year.
    pub fn supply_rate_bps_for(&self, asset: Address) -> (result: Result<u32, LendingError>)
        requires
            self@.well_formed(),
        ensures
            match result {
                Ok(rate) => self@.pools.contains_key(asset) && rate == self@.pool_supply_rate(
                    self@.pools[asset],
                ),
                Err(e) => self@.pool_error(asset) == Some(e),
            },
    {
        match self.get_pool(asset) {
            Ok(pool) => Ok(self.pool_supply_rate(&pool)),
            Err(e) => Err(e),
        }
    }

    /// Interest accrued by a position since its watermark, simple pro-rata:
    /// `principal * supply_rate_bps * elapsed / (10000 * SECONDS_IN_YEAR)`.
    ///
    /// Any overflow degrades to 0, so a harvest can never brick a plan. A
    /// position that accrues nothing is not priced at all.
    pub fn accrued_for_position(&self, env: &Env, position: &PlanYieldPosition) -> (result: Result<
        u64,
        LendingError,
    >)
        requires
            self@.well_formed(),
        ensures
            ({
                let idle = env.timestamp <= position.last_harvest_at || position.principal == 0
                    || !position.active;
                match result {
                    Ok(amount) => amount == (if idle {
                        0
                    } else {
                        self@.accrued(env.timestamp, *position)
                    }) && (idle || self@.pools.contains_key(position.asset)),
                    Err(e) => !idle && self@.pool_error(position.asset) == Some(e),
                }
            }),
            self@.pools.contains_key(position.asset) ==> result == Ok::<u64, LendingError>(
                self@.accrued(env.timestamp, *position),
            ),
    {
        let elapsed: u64 = env.timestamp.saturating_sub(position.last_harvest_at);
        if elapsed == 0 || position.principal == 0 || !position.active {
            proof {
                if position.active {
                    assert(position.principal * self@.position_rate(*position) * elapsed == 0)
                        by (nonlinear_arith)
                        requires
                            position.principal == 0 || elapsed == 0,
                    ;
                }
            }
            return Ok(0);
        }
        match self.supply_rate_bps_for(position.asset) {
            Ok(rate) => Ok(
                Self::simulate_plan_yield(
                    position.principal,
                    rate.saturating_add(position.boost_bps),
                    elapsed,
                ),
            ),
            Err(e) => Err(e),
        }
    }

    /// Adds a plan to the registry index, bounded by
    /// [`MAX_PLAN_YIELD_POSITIONS`] so the aggregate scan stays cheap.
    pub fn index_plan_yield(&mut self, plan_id: u64) -> (result: Result<(), LendingError>)
        ensures
            match result {
                Err(e) => e == LendingError::TooManyYieldPositions
                    && !old(self)@.plan_yield_index.contains(plan_id)
                    && old(self)@.plan_yield_index.len() >= MAX_PLAN_YIELD_POSITIONS
                    && final(self)@ == old(self)@,
                Ok(()) => if old(self)@.plan_yield_index.contains(plan_id) {
                    final(self)@ == old(self)@
                } else {
                    old(self)@.plan_yield_index.len() < MAX_PLAN_YIELD_POSITIONS && final(self)@
                        == (LendingView {
                        plan_yield_index: old(self)@.plan_yield_index.push(plan_id),
                        ..old(self)@
                    })
                },
            },
    {
        if list_contains(&self.plan_yield_index, &plan_id) {
            return Ok(());
        }
        if self.plan_yield_index.len() >= MAX_PLAN_YIELD_POSITIONS as usize {
            return Err(LendingError::TooManyYieldPositions);
        }
        self.plan_yield_index.push(plan_id);
        Ok(())
    }

    /// Register (or re-register) an inheritance plan's yield-bearing principal.
    ///
    /// Re-registering resets the accrual watermark to now, so a principal
    /// change never retroactively re-prices already-elapsed time. Callers that
    /// care about pending interest should harvest before re-registering.
    pub fn register_plan_yield(
        &mut self,
        env: &Env,
        caller: Address,
        plan_id: u64,
        asset: Address,
        principal: u64,
    ) -> (result: Result<(), LendingError>)
        requires
            old(self)@.well_formed(),
            env.authorized(caller),
        ensures
            match result {
                Err(e) => old(self)@.register_error(caller, plan_id, asset) == Some(e)
                    && final(self)@ == old(self)@,
                Ok(()) => old(self)@.register_error(caller, plan_id, asset) is None && final(self)@
                    == old(self)@.registered(env.timestamp, plan_id, asset, principal),
            },
            final(self)@.well_formed(),
    {
        match self.require_initialized() {
            Err(e) => {
                return Err(e);
            },
            Ok(()) => {},
        }
        match self.require_not_paused() {
            Err(e) => {
                return Err(e);
            },
            Ok(()) => {},
        }
        match self.require_plan_yield_caller(env, caller) {
            Err(e) => {
                return Err(e);
            },
            Ok(()) => {},
        }
        match self.get_pool(asset) {
            Err(e) => {
                return Err(e);
            },
            Ok(_) => {},
        }
        let now: u64 = env.timestamp;
        let existing: Option<PlanYieldPosition> = match self.plan_yield.get(plan_id) {
            Some(position) => Some(*position),
            None => None,
        };
        proof {
            reveal(positions_indexed);
            assert(self@.plan_yield_index.contains(plan_id) <==> self@.plan_yield.contains_key(
                plan_id,
            ));
        }
        let position = match existing {
            Some(prior) => PlanYieldPosition {
                asset,
                principal,
                last_harvest_at: now,
                active: true,
                ..prior
            },
            None => {
                match self.index_plan_yield(plan_id) {
                    Err(e) => {
                        return Err(e);
                    },
                    Ok(()) => {},
                }
                PlanYieldPosition {
                    plan_id,
                    asset,
                    principal,
                    last_harvest_at: now,
                    total_harvested: 0,
                    last_harvest_amount: 0,
                    harvest_count: 0,
                    registered_at: now,
                    boost_bps: 0,
                    active: true,
                }
            },
        };
        self.plan_yield.set(plan_id, position);
        self.publish(
            LendingEvent::PlanYieldRegistered(
                PlanYieldRegisteredEvent { plan_id, asset, principal, timestamp: now },
            ),
        );
        proof {
            assert forall|id: u64| #[trigger]
                self@.plan_yield_index.contains(id) <==> self@.plan_yield.contains_key(id) by {
                lemma_push_contains(old(self)@.plan_yield_index, plan_id, id);
                assert(old(self)@.plan_yield_index.contains(id)
                    <==> old(self)@.plan_yield.contains_key(id));
            }
        }
        Ok(())
    }

    /// Read the stored yield position for a plan, if any.
    pub fn get_plan_yield_position(&self, plan_id: u64) -> (position: Option<PlanYieldPosition>)
        ensures
            position == (if self@.plan_yield.contains_key(plan_id) {
                Some(self@.plan_yield[plan_id])
            } else {
                None
            }),
    {
        match self.plan_yield.get(plan_id) {
            Some(position) => Some(*position),
            None => None,
        }
    }

    /// The stored position of a plan that must have one.
    fn position_of(&self, plan_id: u64) -> (position: Result<PlanYieldPosition, LendingError>)
        ensures
            match position {
                Ok(p) => self@.plan_yield.contains_key(plan_id) && p == self@.plan_yield[plan_id],
                Err(e) => !self@.plan_yield.contains_key(plan_id) && e
                    == LendingError::PlanYieldNotRegistered,
            },
    {
        match self.plan_yield.get(plan_id) {
            Some(position) => Ok(*position),
            None => Err(LendingError::PlanYieldNotRegistered),
        }
    }

    /// Preview the yield a plan would harvest right now, without mutating state.
    ///
    /// The returned figure is already capped by the pool's `retained_yield`,
    /// so it matches what `claim_plan_yield` would actually pay out.
    pub fn get_accrued_plan_yield(&self, env: &Env, plan_id: u64) -> (result: Result<
        u64,
        LendingError,
    >)
        requires
            self@.well_formed(),
        ensures
            match result {
                Ok(amount) => self@.position_error(plan_id) is None && amount == self@.claimable(
                    env.timestamp,
                    self@.plan_yield[plan_id],
                ),
                Err(e) => self@.position_error(plan_id) == Some(e),
            },
    {
        match self.require_initialized() {
            Err(e) => {
                return Err(e);
            },
            Ok(()) => {},
        }
        let position = match self.position_of(plan_id) {
            Ok(position) => position,
            Err(e) => {
                return Err(e);
            },
        };
        let accrued: u64 = match self.accrued_for_position(env, &position) {
            Ok(accrued) => accrued,
            Err(e) => {
                return Err(e);
            },
        };
        match self.get_pool(position.asset) {
            Ok(pool) => Ok(min64(accrued, pool.retained_yield)),
            Err(e) => Err(e),
        }
    }

    /// Claim the yield accrued by a plan's position and advance its watermark.
    ///
    /// The payout is drawn from the pool's `retained_yield` bucket and capped
    /// by it, so a harvest can never mint value the pool has not earned. The
    /// underlying tokens stay in the pool: the inheritance contract compounds
    /// the returned amount into the plan's locked balance rather than moving
    /// funds out.
    pub fn claim_plan_yield(&mut self, env: &Env, caller: Address, plan_id: u64) -> (result: Result<
        u64,
        LendingError,
    >)
        requires
            old(self)@.well_formed(),
            env.authorized(caller),
        ensures
            ({
                let error = old(self)@.claim_yield_error(env.timestamp, caller, plan_id);
                match result {
                    Err(e) => error == Some(e) && final(self)@ == old(self)@,
                    Ok(payout) => error is None && payout == old(self)@.claimable(
                        env.timestamp,
                        old(self)@.plan_yield[plan_id],
                    ) && final(self)@ == old(self)@.yield_claimed(env.timestamp, plan_id),
                }
            }),
            final(self)@.well_formed(),
    {
        self.claim_plan_yield_inner(env, caller, plan_id)
    }

    /// A claim for a caller whose authorisation was already asked for.
    pub fn claim_plan_yield_inner(&mut self, env: &Env, caller: Address, plan_id: u64) -> (result:
        Result<u64, LendingError>)
        requires
            old(self)@.well_formed(),
        ensures
            ({
                let error = old(self)@.claim_yield_error(env.timestamp, caller, plan_id);
                match result {
                    Err(e) => error == Some(e) && final(self)@ == old(self)@,
                    Ok(payout) => error is None && payout == old(self)@.claimable(
                        env.timestamp,
                        old(self)@.plan_yield[plan_id],
                    ) && final(self)@ == old(self)@.yield_claimed(env.timestamp, plan_id),
                }
            }),
            final(self)@.well_formed(),
    {
        match self.require_initialized() {
            Err(e) => {
                return Err(e);
            },
            Ok(()) => {},
        }
        match self.require_not_paused() {
            Err(e) => {
                return Err(e);
            },
            Ok(()) => {},
        }
        match self.check_plan_yield_caller(caller) {
            Err(e) => {
                return Err(e);
            },
            Ok(()) => {},
        }
        let mut position = match self.position_of(plan_id) {
            Ok(position) => position,
            Err(e) => {
                return Err(e);
            },
        };
        if !position.active {
            return Err(LendingError::PlanYieldInactive);
        }
        let pool = match self.get_pool(position.asset) {
            Ok(pool) => pool,
            Err(e) => {
                return Err(e);
            },
        };
        if pool.is_paused {
            return Err(LendingError::PoolPaused);
        }
        let accrued: u64 = match self.accrued_for_position(env, &position) {
            Ok(accrued) => accrued,
            Err(e) => {
                return Err(e);
            },
        };
        let payout: u64 = min64(accrued, pool.retained_yield);
        if payout == 0 {
            return Err(LendingError::NoYieldAccrued);
        }
        proof {
            lemma_claim_well_formed(self@, env.timestamp, caller, plan_id);
        }
        let asset = position.asset;
        self.set_pool(asset, PoolState { retained_yield: pool.retained_yield - payout, ..pool });
        position.last_harvest_at = env.timestamp;
        position.last_harvest_amount = payout;
        position.harvest_count = position.harvest_count.saturating_add(1);
        position.total_harvested = position.total_harvested.saturating_add(payout);
        self.plan_yield.set(plan_id, position);
        self.publish(
            LendingEvent::PlanYieldClaimed(
                PlanYieldClaimedEvent {
                    plan_id,
                    asset,
                    yield_amount: payout,
                    total_harvested: position.total_harvested,
                    timestamp: env.timestamp,
                },
            ),
        );
        Ok(payout)
    }

    /// Claim yield for several plans in one call.
    ///
    /// A plan with nothing accrued yields 0 rather than reverting the batch,
    /// so one idle position cannot block a keeper's sweep. Results are
    /// positionally aligned with `plan_ids`.
    pub fn claim_plan_yield_batch(&mut self, env: &Env, caller: Address, plan_ids: Vec<u64>) -> (
    result: Result<Vec<u64>, LendingError>)
        requires
            old(self)@.well_formed(),
            env.authorized(caller),
        ensures
            match result {
                Err(e) => old(self)@.batch_claim_error(plan_ids@) == Some(e) && final(self)@
                    == old(self)@,
                Ok(payouts) => {
                    &&& old(self)@.batch_claim_error(plan_ids@) is None
                    &&& payouts@.len() == plan_ids@.len()
                    &&& forall|i: int|
                        0 <= i < plan_ids@.len() ==> payouts@[i] == old(self)@.batch_payout(
                            env.timestamp,
                            caller,
                            plan_ids@,
                            i,
                        )
                    &&& final(self)@ == old(self)@.batch_claimed(
                        env.timestamp,
                        caller,
                        plan_ids@,
                        plan_ids@.len() as int,
                    )
                },
            },
            final(self)@.well_formed(),
    {
        match self.require_not_entered() {
            Err(e) => {
                return Err(e);
            },
            Ok(()) => {},
        }
        match self.require_initialized() {
            Err(e) => {
                return Err(e);
            },
            Ok(()) => {},
        }
        match self.require_not_paused() {
            Err(e) => {
                return Err(e);
            },
            Ok(()) => {},
        }
        if plan_ids.len() > MAX_YIELD_CLAIM_BATCH {
            return Err(LendingError::TooManyYieldPositions);
        }
        let mut results: Vec<u64> = Vec::new();
        let mut i: usize = 0;
        while i < plan_ids.len()
            invariant
                i <= plan_ids@.len(),
                results@.len() == i,
                self@.well_formed(),
                self@ == old(self)@.batch_claimed(env.timestamp, caller, plan_ids@, i as int),
                forall|j: int|
                    0 <= j < i ==> results@[j] == old(self)@.batch_payout(
                        env.timestamp,
                        caller,
                        plan_ids@,
                        j,
                    ),
            decreases plan_ids@.len() - i,
        {
            let claimed: u64 = match self.claim_plan_yield_inner(env, caller, plan_ids[i]) {
                Ok(payout) => payout,
                Err(_) => 0,
            };
            results.push(claimed);
            i += 1;
        }
        Ok(results)
    }

    /// Every plan id that has ever registered a position, active or not.
    pub fn get_registered_plan_ids(&self) -> (ids: Vec<u64>)
        ensures
            ids@ == self@.plan_yield_index,
    {
        self.plan_yield_index.clone()
    }

    /// Number of registered plan positions.
    pub fn get_plan_yield_count(&self) -> (count: u32)
        requires
            self@.well_formed(),
        ensures
            count == self@.plan_yield_index.len(),
    {
        proof {
            reveal(positions_indexed);
        }
        self.plan_yield_index.len() as u32
    }

    /// Deactivate a plan's position so it stops accruing.
    ///
    /// Lifetime totals and the index entry survive, so historical accounting
    /// stays intact and a later `register_plan_yield` reactivates in place
    /// rather than double-counting a new entry.
    pub fn unregister_plan_yield(&mut self, env: &Env, caller: Address, plan_id: u64) -> (result:
        Result<(), LendingError>)
        requires
            old(self)@.well_formed(),
            env.authorized(caller),
        ensures
            match result {
                Err(e) => old(self)@.unregister_error(caller, plan_id) == Some(e) && final(self)@
                    == old(self)@,
                Ok(()) => old(self)@.unregister_error(caller, plan_id) is None && final(self)@
                    == old(self)@.unregistered(env.timestamp, plan_id),
            },
            final(self)@.well_formed(),
    {
        match self.require_initialized() {
            Err(e) => {
                return Err(e);
            },
            Ok(()) => {},
        }
        match self.require_plan_yield_caller(env, caller) {
            Err(e) => {
                return Err(e);
            },
            Ok(()) => {},
        }
        let mut position = match self.position_of(plan_id) {
            Ok(position) => position,
            Err(e) => {
                return Err(e);
            },
        };
        position.active = false;
        position.principal = 0;
        proof {
            lemma_position_update(self@, plan_id, position);
        }
        self.plan_yield.set(plan_id, position);
        self.publish(
            LendingEvent::PlanYieldUnregistered(
                PlanYieldUnregisteredEvent {
                    plan_id,
                    asset: position.asset,
                    total_harvested: position.total_harvested,
                    timestamp: env.timestamp,
                },
            ),
        );
        Ok(())
    }

    /// Grant a plan extra rate on top of the pool supply rate. Admin only.
    ///
    /// Capped at [`MAX_YIELD_BOOST_BPS`]. A boost still draws from the same
    /// `retained_yield` bucket, so it can raise what a plan is owed but never
    /// what the pool can actually pay.
    pub fn set_plan_yield_boost(
        &mut self,
        env: &Env,
        admin: Address,
        plan_id: u64,
        boost_bps: u32,
    ) -> (result: Result<(), LendingError>)
        requires
            old(self)@.well_formed(),
            env.authorized(admin),
        ensures
            match result {
                Err(e) => old(self)@.boost_error(admin, plan_id, boost_bps) == Some(e)
                    && final(self)@ == old(self)@,
                Ok(()) => old(self)@.boost_error(admin, plan_id, boost_bps) is None && final(self)@
                    == old(self)@.with_position(
                    plan_id,
                    PlanYieldPosition { boost_bps, ..old(self)@.plan_yield[plan_id] },
                ).with_event(
                    LendingEventView::PlanYieldBoostSet(
                        PlanYieldBoostSetEvent {
                            plan_id,
                            old_boost_bps: old(self)@.plan_yield[plan_id].boost_bps,
                            new_boost_bps: boost_bps,
                        },
                    ),
                ),
            },
            final(self)@.well_formed(),
    {
        match self.require_initialized() {
            Err(e) => {
                return Err(e);
            },
            Ok(()) => {},
        }
        match self.require_admin(env, admin) {
            Err(e) => {
                return Err(e);
            },
            Ok(()) => {},
        }
        if boost_bps > MAX_YIELD_BOOST_BPS {
            return Err(LendingError::InvalidYieldBoost);
        }
        let mut position = match self.position_of(plan_id) {
            Ok(position) => position,
            Err(e) => {
                return Err(e);
            },
        };
        let old_boost_bps: u32 = position.boost_bps;
        position.boost_bps = boost_bps;
        proof {
            lemma_position_update(self@, plan_id, position);
        }
        self.plan_yield.set(plan_id, position);
        self.publish(
            LendingEvent::PlanYieldBoostSet(
                PlanYieldBoostSetEvent { plan_id, old_boost_bps, new_boost_bps: boost_bps },
            ),
        );
        Ok(())
    }

    /// The effective annual rate for a plan: pool supply rate plus its boost.
    pub fn get_plan_yield_rate(&self, plan_id: u64) -> (result: Result<u32, LendingError>)
        requires
            self@.well_formed(),
        ensures
            match result {
                Ok(rate) => self@.position_error(plan_id) is None && rate == self@.position_rate(
                    self@.plan_yield[plan_id],
                ),
                Err(e) => self@.position_error(plan_id) == Some(e),
            },
    {
        match self.require_initialized() {
            Err(e) => {
                return Err(e);
            },
            Ok(()) => {},
        }
        let position = match self.position_of(plan_id) {
            Ok(position) => position,
            Err(e) => {
                return Err(e);
            },
        };
        match self.supply_rate_bps_for(position.asset) {
            Ok(rate) => Ok(rate.saturating_add(position.boost_bps)),
            Err(e) => Err(e),
        }
    }

    /// Project what a position would accrue over `horizon_secs` at its current
    /// effective rate, ignoring the `retained_yield` cap.
    ///
    /// A forecast for planning, not a claimable figure — use
    /// `get_accrued_plan_yield` for what is actually payable now.
    pub fn project_plan_yield(&self, plan_id: u64, horizon_secs: u64) -> (result: Result<
        u64,
        LendingError,
    >)
        requires
            self@.well_formed(),
        ensures
            match result {
                Ok(amount) => self@.position_error(plan_id) is None && amount == accrual(
                    self@.plan_yield[plan_id].principal,
                    self@.position_rate(self@.plan_yield[plan_id]),
                    horizon_secs,
                ),
                Err(e) => self@.position_error(plan_id) == Some(e),
            },
    {
        match self.require_initialized() {
            Err(e) => {
                return Err(e);
            },
            Ok(()) => {},
        }
        let position = match self.position_of(plan_id) {
            Ok(position) => position,
            Err(e) => {
                return Err(e);
            },
        };
        match self.get_plan_yield_rate(plan_id) {
            Ok(rate) => Ok(Self::simulate_plan_yield(position.principal, rate, horizon_secs)),
            Err(e) => Err(e),
        }
    }

    /// Aggregate position stats for one asset's pool.
    pub fn get_plan_yield_stats(&self, asset: Address) -> (result: Result<
        PlanYieldStats,
        LendingError,
    >)
        requires
            self@.well_formed(),
        ensures
            match result {
                Ok(stats) => self@.admin is Some && self@.pools.contains_key(asset) && stats
                    == self@.stats(asset, self@.plan_yield_index.len() as int),
                Err(e) => if self@.admin is None {
                    e == LendingError::NotInitialized
                } else {
                    self@.pool_error(asset) == Some(e)
                },
            },
    {
        match self.require_initialized() {
            Err(e) => {
                return Err(e);
            },
            Ok(()) => {},
        }
        let pool = match self.get_pool(asset) {
            Ok(pool) => pool,
            Err(e) => {
                return Err(e);
            },
        };
        let mut stats = PlanYieldStats {
            asset,
            position_count: 0,
            active_count: 0,
            total_principal: 0,
            total_harvested: 0,
            available_yield: pool.retained_yield,
        };
        proof {
            reveal(positions_indexed);
        }
        let mut i: usize = 0;
        while i < self.plan_yield_index.len()
            invariant
                i <= self.plan_yield_index@.len() <= 200,
                stats == self@.stats(asset, i as int),
                stats.position_count <= i,
                stats.active_count <= i,
            decreases self.plan_yield_index@.len() - i,
        {
            if let Some(position) = self.plan_yield.get(self.plan_yield_index[i]) {
                if position.asset == asset {
                    stats.position_count = stats.position_count + 1;
                    if position.active {
                        stats.active_count = stats.active_count + 1;
                        stats.total_principal =
                        stats.total_principal.saturating_add(position.principal);
                    }
                    stats.total_harvested =
                    stats.total_harvested.saturating_add(position.total_harvested);
                }
            }
            i += 1;
        }
        Ok(stats)
    }

    /// Top up the bucket harvests are paid from, moving `amount` of the asset
    /// from the funder into the pool.
    ///
    /// Real transfer, not a bookkeeping bump: the tokens back the credit the
    /// pool is about to owe out. Admin or the linked vault only.
    pub fn fund_retained_yield(
        &mut self,
        env: &Env,
        funder: Address,
        asset: Address,
        amount: u64,
        transferred: bool,
    ) -> (result: Result<u64, LendingError>)
        requires
            old(self)@.well_formed(),
            env.authorized(funder),
        ensures
            ({
                let error = old(self)@.fund_yield_error(funder, asset, amount, transferred);
                match result {
                    Err(e) => error == Some(e) && final(self)@ == old(self)@,
                    Ok(balance) => error is None && balance
                        == old(self)@.pools[asset].retained_yield + amount && final(self)@
                        == old(self)@.yield_funded(env.contract, funder, asset, amount),
                }
            }),
            final(self)@.well_formed(),
    {
        match self.require_initialized() {
            Err(e) => {
                return Err(e);
            },
            Ok(()) => {},
        }
        match self.require_not_paused() {
            Err(e) => {
                return Err(e);
            },
            Ok(()) => {},
        }
        match self.require_plan_yield_caller(env, funder) {
            Err(e) => {
                return Err(e);
            },
            Ok(()) => {},
        }
        if amount == 0 {
            return Err(LendingError::InvalidAmount);
        }
        let pool = match self.get_pool(asset) {
            Ok(pool) => pool,
            Err(e) => {
                return Err(e);
            },
        };
        if !transferred {
            return Err(LendingError::TransferFailed);
        }
        let retained_yield: u64 = match pool.retained_yield.checked_add(amount) {
            Some(sum) => sum,
            None => {
                return Err(LendingError::InvalidAmount);
            },
        };
        let _ = self.transfer(asset, funder, env.contract, amount, transferred);
        let updated = PoolState { retained_yield, ..pool };
        proof {
            lemma_pool_update(self@, asset, updated);
        }
        self.set_pool(asset, updated);
        self.publish(
            LendingEvent::RetainedYieldFunded(
                RetainedYieldFundedEvent { asset, funder, amount, new_balance: retained_yield },
            ),
        );
        Ok(retained_yield)
    }
}

/// A plan's position earns the pool's supply rate and its boost, on its principal, for
/// the time since its last harvest, as long as it is active; it can claim that as far as
/// the retained yield of its pool goes.
pub proof fn law_positions_earn_the_supply_rate(
    lending: LendingView,
    now: u64,
    position: PlanYieldPosition,
)
    requires
        lending.pool_supply_rate(lending.pools[position.asset]) + position.boost_bps <= 0xffff_ffff,
        position.last_harvest_at <= now,
    ensures
        ({
            let pool = lending.pools[position.asset];
            let rate = lending.pool_supply_rate(pool) + position.boost_bps;
            &&& lending.position_rate(position) == rate
            &&& !position.active ==> lending.accrued(now, position) == 0
            &&& position.active ==> lending.accrued(now, position) == accrual(
                position.principal,
                rate as u32,
                (now - position.last_harvest_at) as u64,
            )
            &&& lending.claimable(now, position) <= lending.accrued(now, position)
            &&& lending.claimable(now, position) <= pool.retained_yield
            &&& lending.claimable(now, position) == lending.accrued(now, position)
                || lending.claimable(now, position) == pool.retained_yield
        }),
{
}

/// Who can act for plans: the linked inheritance contract and admins. Boosts are up to
/// admins alone and at most 20%; there are at most two hundred positions and twenty-five
/// claims in a batch.
pub proof fn law_plan_calls_are_admitted(
    lending: LendingView,
    now: u64,
    caller: Address,
    plan_id: u64,
    asset: Address,
    amount: u64,
    boost_bps: u32,
    plan_ids: Seq<u64>,
)
    ensures
        lending.plan_caller_error(caller) is None <==> !lending.access.entered && (
        lending.inheritance_contract == Some(caller) || lending.access.has(caller, Role::Admin)),
        lending.register_error(caller, plan_id, asset) is None <==> {
            &&& lending.admin is Some && !lending.access.paused
            &&& lending.plan_caller_error(caller) is None
            &&& lending.pools.contains_key(asset)
            &&& lending.plan_yield.contains_key(plan_id) || lending.plan_yield_index.len() < 200
        },
        lending.claim_yield_error(now, caller, plan_id) is None <==> {
            let position = lending.plan_yield[plan_id];
            &&& lending.admin is Some && !lending.access.paused
            &&& lending.plan_caller_error(caller) is None
            &&& lending.plan_yield.contains_key(plan_id) && position.active
            &&& lending.pools.contains_key(position.asset)
                && !lending.pools[position.asset].is_paused
            &&& lending.claimable(now, position) > 0
        },
        lending.batch_claim_error(plan_ids) is None <==> lending.admin is Some
            && !lending.access.paused && !lending.access.entered && plan_ids.len() <= 25,
        lending.unregister_error(caller, plan_id) is None <==> lending.admin is Some
            && lending.plan_caller_error(caller) is None && lending.plan_yield.contains_key(plan_id),
        lending.boost_error(caller, plan_id, boost_bps) is None <==> {
            &&& lending.admin is Some && !lending.access.entered
            &&& lending.access.has(caller, Role::Admin)
            &&& boost_bps <= 2_000 && lending.plan_yield.contains_key(plan_id)
        },
        lending.fund_yield_error(caller, asset, amount, true) is None <==> {
            &&& lending.admin is Some && !lending.access.paused
            &&& lending.plan_caller_error(caller) is None
            &&& amount > 0 && lending.pools.contains_key(asset)
            &&& lending.pools[asset].retained_yield + amount <= 0xffff_ffff_ffff_ffff
        },
        lending.fund_yield_error(caller, asset, amount, false) is Some,
{
}

/// A registration puts the principal to work from now on: a plan that is new is listed
/// once, without totals and boost; one that is known keeps them.
pub proof fn law_registering(
    lending: LendingView,
    now: u64,
    plan_id: u64,
    asset: Address,
    principal: u64,
)
    ensures
        ({
            let known = lending.plan_yield.contains_key(plan_id);
            let after = lending.registered(now, plan_id, asset, principal);
            let position = after.plan_yield[plan_id];
            &&& position.asset == asset && position.principal == principal && position.active
            &&& position.last_harvest_at == now
            &&& known ==> position == (PlanYieldPosition {
                asset,
                principal,
                active: true,
                last_harvest_at: now,
                ..lending.plan_yield[plan_id]
            })
            &&& !known ==> position.plan_id == plan_id && position.registered_at == now
                && position.total_harvested == 0 && position.last_harvest_amount == 0
                && position.harvest_count == 0 && position.boost_bps == 0
            &&& known ==> after.plan_yield_index == lending.plan_yield_index
            &&& !known ==> after.plan_yield_index == lending.plan_yield_index.push(plan_id)
            &&& after.plan_yield == lending.plan_yield.insert(plan_id, position)
            &&& after.events == lending.events.push(
                LendingEventView::PlanYieldRegistered(
                    PlanYieldRegisteredEvent { plan_id, asset, principal, timestamp: now },
                ),
            )
            &&& after == (LendingView {
                plan_yield: after.plan_yield,
                plan_yield_index: after.plan_yield_index,
                events: after.events,
                ..lending
            })
        }),
{
}

/// A claim takes the payout from the retained yield of the plan's pool, adds it to the
/// plan's totals and restarts its clock. The tokens stay in the pool.
pub proof fn law_claiming_yield(lending: LendingView, now: u64, caller: Address, plan_id: u64)
    requires
        lending.claim_yield_error(now, caller, plan_id) is None,
        lending.plan_yield[plan_id].total_harvested + lending.claimable(
            now,
            lending.plan_yield[plan_id],
        ) <= 0xffff_ffff_ffff_ffff,
        lending.plan_yield[plan_id].harvest_count < 0xffff_ffff,
    ensures
        ({
            let position = lending.plan_yield[plan_id];
            let payout = lending.claimable(now, position);
            let before = lending.pools[position.asset];
            let after = lending.yield_claimed(now, plan_id);
            let pool = after.pools[position.asset];
            let harvested = after.plan_yield[plan_id];
            &&& pool.retained_yield + payout == before.retained_yield
            &&& after.pools == lending.pools.insert(
                position.asset,
                PoolState { retained_yield: pool.retained_yield, ..before },
            )
            &&& harvested.last_harvest_at == now && harvested.last_harvest_amount == payout
            &&& harvested.total_harvested == position.total_harvested + payout
            &&& harvested.harvest_count == position.harvest_count + 1
            &&& harvested == (PlanYieldPosition {
                last_harvest_at: harvested.last_harvest_at,
                last_harvest_amount: harvested.last_harvest_amount,
                total_harvested: harvested.total_harvested,
                harvest_count: harvested.harvest_count,
                ..position
            })
            &&& after.plan_yield == lending.plan_yield.insert(plan_id, harvested)
            &&& after.calls == lending.calls
            &&& after.events == lending.events.push(
                LendingEventView::PlanYieldClaimed(
                    PlanYieldClaimedEvent {
                        plan_id,
                        asset: position.asset,
                        yield_amount: payout,
                        total_harvested: harvested.total_harvested,
                        timestamp: now,
                    },
                ),
            )
            &&& after == (LendingView {
                pools: after.pools,
                plan_yield: after.plan_yield,
                events: after.events,
                ..lending
            })
        }),
{
}

/// A batch is claimed one plan after the other: each is paid what it can claim after the
/// ones before it, and one that cannot claim is paid nothing and changes nothing.
pub proof fn law_batches_claim_in_order(
    lending: LendingView,
    now: u64,
    caller: Address,
    plan_ids: Seq<u64>,
    i: int,
)
    requires
        0 <= i < plan_ids.len(),
    ensures
        ({
            let before = lending.batch_claimed(now, caller, plan_ids, i);
            let after = lending.batch_claimed(now, caller, plan_ids, i + 1);
            let paid = lending.batch_payout(now, caller, plan_ids, i);
            let refused = before.claim_yield_error(now, caller, plan_ids[i]) is Some;
            &&& lending.batch_claimed(now, caller, plan_ids, 0) == lending
            &&& refused ==> after == before && paid == 0
            &&& !refused ==> after == before.yield_claimed(now, plan_ids[i]) && paid
                == before.claimable(now, before.plan_yield[plan_ids[i]]) && paid > 0
        }),
{
}

/// Ending a registration stops the position and leaves its totals.
pub proof fn law_unregistering(lending: LendingView, now: u64, plan_id: u64)
    ensures
        ({
            let position = lending.plan_yield[plan_id];
            let after = lending.unregistered(now, plan_id);
            &&& after == (LendingView {
                plan_yield: lending.plan_yield.insert(
                    plan_id,
                    PlanYieldPosition { active: false, principal: 0, ..position },
                ),
                events: lending.events.push(
                    LendingEventView::PlanYieldUnregistered(
                        PlanYieldUnregisteredEvent {
                            plan_id,
                            asset: position.asset,
                            total_harvested: position.total_harvested,
                            timestamp: now,
                        },
                    ),
                ),
                ..lending
            })
        }),
{
}

/// Funding moves the amount from the funder to the contract and adds it to the retained
/// yield of the asset's pool.
pub proof fn law_funding_yield(
    lending: LendingView,
    contract: Address,
    funder: Address,
    asset: Address,
    amount: u64,
)
    requires
        lending.fund_yield_error(funder, asset, amount, true) is None,
    ensures
        ({
            let after = lending.yield_funded(contract, funder, asset, amount);
            let pool = after.pools[asset];
            &&& after.calls == lending.calls.push(
                LendingCallView::Transfer { token: asset, from: funder, to: contract, amount },
            )
            &&& pool.retained_yield == lending.pools[asset].retained_yield + amount
            &&& after == (LendingView {
                pools: lending.pools.insert(
                    asset,
                    PoolState { retained_yield: pool.retained_yield, ..lending.pools[asset] },
                ),
                calls: after.calls,
                events: lending.events.push(
                    LendingEventView::RetainedYieldFunded(
                        RetainedYieldFundedEvent {
                            asset,
                            funder,
                            amount,
                            new_balance: pool.retained_yield,
                        },
                    ),
                ),
                ..lending
            })
        }),
{
}

/// The statistics of a pool count every position in it and sum their harvests; principal
/// counts while a position is active.
pub proof fn law_stats_add_up(lending: LendingView, asset: Address, n: int)
    requires
        0 <= n < lending.plan_yield_index.len() <= 200,
    ensures
        ({
            let plan_id = lending.plan_yield_index[n];
            let position = lending.plan_yield[plan_id];
            let before = lending.stats(asset, n);
            let after = lending.stats(asset, n + 1);
            let counted = lending.plan_yield.contains_key(plan_id) && position.asset == asset;
            &&& lending.stats(asset, 0).position_count == 0 && lending.stats(asset, 0).active_count
                == 0 && lending.stats(asset, 0).total_principal == 0 && lending.stats(
                asset,
                0,
            ).total_harvested == 0
            &&& after.asset == asset && after.available_yield == lending.pools[asset].retained_yield
            &&& !counted ==> after == before
            &&& counted ==> after.position_count == before.position_count + 1
            &&& counted ==> after.active_count == before.active_count + if position.active {
                1int
            } else {
                0
            }
            &&& counted && before.total_harvested + position.total_harvested
                <= 0xffff_ffff_ffff_ffff ==> after.total_harvested == before.total_harvested
                + position.total_harvested
            &&& counted && before.total_principal + position.principal <= 0xffff_ffff_ffff_ffff
                ==> after.total_principal == before.total_principal + if position.active {
                position.principal as int
            } else {
                0
            }
        }),
{
    lemma_counts_are_bounded(lending, asset, n);
    lemma_counts_are_bounded(lending, asset, n + 1);
}

proof fn lemma_counts_are_bounded(lending: LendingView, asset: Address, n: int)
    requires
        0 <= n <= 200,
    ensures
        lending.stats(asset, n).asset == asset,
        lending.stats(asset, n).available_yield == lending.pools[asset].retained_yield,
        lending.stats(asset, n).position_count <= n,
        lending.stats(asset, n).active_count <= n,
    decreases n,
{
    if n > 0 {
        lemma_counts_are_bounded(lending, asset, n - 1);
    }
}

/// An extra rate is at most 20%, and a batch holds at most twenty-five claims.
pub proof fn law_limits()
    ensures
        MAX_YIELD_BOOST_BPS == 2_000,
        MAX_YIELD_CLAIM_BATCH == 25,
{
}

/// Why a caller may not act for a plan: every reason that is given holds.
pub proof fn law_reason_plan_caller(lending: LendingView, caller: Address)
    ensures
        match lending.plan_caller_error(caller) {
            None => true,
            Some(LendingError::ReentrantCall) => lending.access.entered,
            Some(LendingError::Unauthorized) => lending.inheritance_contract != Some(caller)
                && !lending.access.has(caller, Role::Admin),
            Some(_) => false,
        },
{
}

/// Why a registration is refused: every reason that is given holds.
pub proof fn law_reason_register(
    lending: LendingView,
    caller: Address,
    plan_id: u64,
    asset: Address,
)
    ensures
        match lending.register_error(caller, plan_id, asset) {
            None => true,
            Some(LendingError::NotInitialized) => lending.admin is None,
            Some(LendingError::ContractPaused) => lending.access.paused,
            Some(LendingError::AssetNotSupported) => !lending.pools.contains_key(asset),
            Some(LendingError::TooManyYieldPositions) => !lending.plan_yield.contains_key(plan_id)
                && lending.plan_yield_index.len() >= MAX_PLAN_YIELD_POSITIONS,
            Some(error) => lending.plan_caller_error(caller) == Some(error),
        },
{
}

/// Why a claim is refused: every reason that is given holds.
pub proof fn law_reason_claim_yield(lending: LendingView, now: u64, caller: Address, plan_id: u64)
    ensures
        ({
            let position = lending.plan_yield[plan_id];
            match lending.claim_yield_error(now, caller, plan_id) {
                None => true,
                Some(LendingError::NotInitialized) => lending.admin is None,
                Some(LendingError::ContractPaused) => lending.access.paused,
                Some(LendingError::PlanYieldNotRegistered) =>
                    !lending.plan_yield.contains_key(plan_id),
                Some(LendingError::PlanYieldInactive) => !position.active,
                Some(LendingError::AssetNotSupported) =>
                    !lending.pools.contains_key(position.asset),
                Some(LendingError::PoolPaused) => lending.pools[position.asset].is_paused,
                Some(LendingError::NoYieldAccrued) => lending.claimable(now, position) == 0,
                Some(error) => lending.plan_caller_error(caller) == Some(error),
            }
        }),
{
}

/// Why a batch of claims is refused as a whole: every reason that is given holds.
pub proof fn law_reason_batch_claim(lending: LendingView, plan_ids: Seq<u64>)
    ensures
        match lending.batch_claim_error(plan_ids) {
            None => true,
            Some(LendingError::ReentrantCall) => lending.access.entered,
            Some(LendingError::NotInitialized) => lending.admin is None,
            Some(LendingError::ContractPaused) => lending.access.paused,
            Some(LendingError::TooManyYieldPositions) => plan_ids.len() > MAX_YIELD_CLAIM_BATCH,
            Some(_) => false,
        },
{
}

/// Why a registration cannot be ended: every reason that is given holds.
pub proof fn law_reason_unregister(lending: LendingView, caller: Address, plan_id: u64)
    ensures
        match lending.unregister_error(caller, plan_id) {
            None => true,
            Some(LendingError::NotInitialized) => lending.admin is None,
            Some(LendingError::PlanYieldNotRegistered) => !lending.plan_yield.contains_key(plan_id),
            Some(error) => lending.plan_caller_error(caller) == Some(error),
        },
{
}

/// Why a boost is refused: every reason that is given holds.
pub proof fn law_reason_boost(lending: LendingView, admin: Address, plan_id: u64, boost_bps: u32)
    ensures
        match lending.boost_error(admin, plan_id, boost_bps) {
            None => true,
            Some(LendingError::NotInitialized) => lending.admin is None,
            Some(LendingError::InvalidYieldBoost) => boost_bps > MAX_YIELD_BOOST_BPS,
            Some(LendingError::PlanYieldNotRegistered) => !lending.plan_yield.contains_key(plan_id),
            Some(error) => lending.admin_error(admin) == Some(error),
        },
{
}

/// Why a position cannot be priced: every reason that is given holds.
pub proof fn law_reason_position(lending: LendingView, plan_id: u64)
    ensures
        match lending.position_error(plan_id) {
            None => true,
            Some(LendingError::NotInitialized) => lending.admin is None,
            Some(LendingError::PlanYieldNotRegistered) => !lending.plan_yield.contains_key(plan_id),
            Some(error) => lending.pool_error(lending.plan_yield[plan_id].asset) == Some(error),
        },
{
}

/// Why funding the retained yield is refused: every reason that is given holds.
pub proof fn law_reason_fund_yield(
    lending: LendingView,
    funder: Address,
    asset: Address,
    amount: u64,
    transferred: bool,
)
    ensures
        match lending.fund_yield_error(funder, asset, amount, transferred) {
            None => true,
            Some(LendingError::NotInitialized) => lending.admin is None,
            Some(LendingError::ContractPaused) => lending.access.paused,
            Some(LendingError::InvalidAmount) => amount == 0 || lending.pools[asset].retained_yield
                + amount > u64::MAX,
            Some(LendingError::AssetNotSupported) => !lending.pools.contains_key(asset),
            Some(LendingError::TransferFailed) => !transferred,
            Some(error) => lending.plan_caller_error(funder) == Some(error),
        },
{
}

} // verus!
