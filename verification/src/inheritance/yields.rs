//! Yield that plans earn in the lending pool: positions, policies and harvests.
use vstd::prelude::*;

use crate::access::Role;
use crate::host::{Address, Env};
use crate::inheritance::state::{
    lemma_plan_on_file, lemma_plan_update, yields_bounded, InheritanceContract, InheritanceView,
    PlanBookView, YieldBookView, MAX_PERFORMANCE_FEE_BP, MAX_YIELD_HISTORY, MAX_YIELD_RELAYERS,
};
use crate::inheritance::types::{
    InheritanceCall, InheritanceError, InheritanceEvent, InheritanceEventView, InheritancePlanView,
    PlanYieldState, PlanYieldStateView, YieldBatchHarvestEvent, YieldConfig,
    YieldConfigUpdatedEvent, YieldFeeCollectedEvent, YieldHarvestRecord, YieldHarvestedEvent,
    YieldPausedEvent, YieldPositionRegisteredEvent, YieldRelayerUpdatedEvent, YieldSummary,
};
use crate::inheritance::yield_math::{
    blended_rate, blended_rate_bps, compound_amount, compound_interest, compounding_result,
    daily_rate_bps, daily_step, effective_apy_bps, effective_rate, harvest_due, interest_of,
    is_harvest_due, mul_div, next_harvest, next_harvest_at, period_step, project_daily_compound,
    project_daily_interest, safe_add, safe_mul, simple_interest, simple_interest_of,
    split_performance_fee, validate_performance_fee, BPS_DENOMINATOR, MAX_RATE_BPS,
    SECONDS_PER_DAY, SECONDS_PER_YEAR,
};
use crate::list::{
    lemma_push_contains, lemma_without_contains, lemma_without_distinct, list_contains,
    list_without, without, Duplicate, List,
};
use crate::math::{
    bps_share, law_share_is_rounded_down, lemma_floor, saturating_difference, saturating_sum,
    saturating_sum32,
};

verus! {

/// Most plans in one batch of harvests.
pub const MAX_YIELD_BATCH: usize = 25;

/// What the lending pool answers when a plan is harvested: what the plan could claim,
/// and what it was paid; nothing where the pool could not be reached or refused.
#[derive(Clone, Copy, Debug, PartialEq, Eq)]
pub struct PoolReply {
    pub pending: Option<u64>,
    pub claimed: Option<u64>,
}

impl View for PoolReply {
    type V = PoolReply;

    open spec fn view(&self) -> PoolReply {
        *self
    }
}

/// A history with one more harvest; the oldest is dropped once it is full.
pub open spec fn history_with(history: Seq<YieldHarvestRecord>, record: YieldHarvestRecord) -> Seq<
    YieldHarvestRecord,
> {
    if history.len() >= MAX_YIELD_HISTORY {
        history.drop_first().push(record)
    } else {
        history.push(record)
    }
}

/// When a plan was last harvested; before its first harvest, when its position was
/// registered.
pub open spec fn last_harvest(state: PlanYieldStateView) -> u64 {
    if state.history.len() > 0 {
        state.history.last().harvested_at
    } else {
        state.registered_at
    }
}

impl InheritanceView {
    /// The caller may harvest for the plan: its owner, an admin, or a relayer.
    pub open spec fn may_harvest(self, caller: Address, plan_id: u64) -> bool {
        self.may_configure_yield(caller, plan_id) || self.yields.relayers.contains(caller)
    }

    /// The caller may change how the plan earns: its owner or an admin.
    pub open spec fn may_configure_yield(self, caller: Address, plan_id: u64) -> bool {
        self.plans.records[plan_id].owner == caller || self.access.has(caller, Role::Admin)
    }

    /// Why a call that is open to harvesters of a plan is refused.
    pub open spec fn harvester_error(self, caller: Address, plan_id: u64) -> Option<
        InheritanceError,
    > {
        if !self.plans.records.contains_key(plan_id) {
            Some(InheritanceError::PlanNotFound)
        } else if !self.may_harvest(caller, plan_id) {
            Some(InheritanceError::Unauthorized)
        } else if !self.plans.records[plan_id].is_active
            || !self.plans.records[plan_id].earn_yield {
            Some(InheritanceError::PlanNotActive)
        } else {
            None
        }
    }

    /// Why a call that is open to those who configure a plan's yield is refused.
    pub open spec fn configure_error(self, caller: Address, plan_id: u64) -> Option<
        InheritanceError,
    > {
        if !self.plans.records.contains_key(plan_id) {
            Some(InheritanceError::PlanNotFound)
        } else if !self.may_configure_yield(caller, plan_id) {
            Some(InheritanceError::Unauthorized)
        } else {
            None
        }
    }

    /// Why the lending pool is not called, or what its failure means.
    pub open spec fn pool_error(self, answered: bool) -> Option<InheritanceError> {
        if self.lending_contract is None {
            Some(InheritanceError::AdminNotSet)
        } else if !answered {
            Some(InheritanceError::FeeTransferFailed)
        } else {
            None
        }
    }

    /// Why a relayer is not added.
    pub open spec fn add_relayer_error(self, admin: Address, relayer: Address) -> Option<
        InheritanceError,
    > {
        if self.admin_error(admin) is Some {
            self.admin_error(admin)
        } else if !self.yields.relayers.contains(relayer) && self.yields.relayers.len()
            >= MAX_YIELD_RELAYERS {
            Some(InheritanceError::TooManyBeneficiaries)
        } else {
            None
        }
    }

    /// The contract with other relayers.
    pub open spec fn with_relayers(self, relayers: Seq<Address>) -> InheritanceView {
        InheritanceView { yields: YieldBookView { relayers, ..self.yields }, ..self }
    }

    /// The contract after a relayer was added; nothing changes if it was one already.
    pub open spec fn relayer_added(self, relayer: Address) -> InheritanceView {
        if self.yields.relayers.contains(relayer) {
            self
        } else {
            self.with_relayers(self.yields.relayers.push(relayer)).with_event(
                InheritanceEventView::YieldRelayerUpdated(
                    YieldRelayerUpdatedEvent { relayer, authorized: true },
                ),
            )
        }
    }

    /// Why a relayer is not removed.
    pub open spec fn remove_relayer_error(self, admin: Address, relayer: Address) -> Option<
        InheritanceError,
    > {
        if self.admin_error(admin) is Some {
            self.admin_error(admin)
        } else if !self.yields.relayers.contains(relayer) {
            Some(InheritanceError::Unauthorized)
        } else {
            None
        }
    }

    /// The contract after a relayer was removed.
    pub open spec fn relayer_removed(self, relayer: Address) -> InheritanceView {
        self.with_relayers(without(self.yields.relayers, relayer)).with_event(
            InheritanceEventView::YieldRelayerUpdated(
                YieldRelayerUpdatedEvent { relayer, authorized: false },
            ),
        )
    }

    /// The contract with another yield state of a plan.
    pub open spec fn with_yield_state(self, plan_id: u64, state: PlanYieldStateView)
        -> InheritanceView {
        InheritanceView {
            yields: YieldBookView {
                states: self.yields.states.insert(plan_id, state),
                ..self.yields
            },
            ..self
        }
    }

    /// The balance of a plan that is not on loan.
    pub open spec fn unencumbered(self, plan_id: u64) -> u64 {
        let plan = self.plans.records[plan_id];
        saturating_difference(plan.total_amount, plan.total_loaned)
    }

    /// Why a position is not registered. `accepted` is whether the pool took it.
    pub open spec fn register_position_error(self, caller: Address, plan_id: u64, accepted: bool)
        -> Option<InheritanceError> {
        if self.harvester_error(caller, plan_id) is Some {
            self.harvester_error(caller, plan_id)
        } else {
            self.pool_error(accepted)
        }
    }

    /// The yield state of a plan after its position was registered. Registering again
    /// keeps history and totals; asset, principal and watermark move.
    pub open spec fn registered_state(self, now: u64, plan_id: u64, asset: Address)
        -> PlanYieldStateView {
        let principal = self.unencumbered(plan_id);
        if self.yields.states.contains_key(plan_id) {
            PlanYieldStateView {
                asset,
                registered_principal: principal,
                last_harvest_at: now,
                ..self.yields.states[plan_id]
            }
        } else {
            PlanYieldStateView {
                asset,
                registered_at: now,
                last_harvest_at: now,
                total_harvested: 0,
                total_compounded: 0,
                total_fees_paid: 0,
                harvest_count: 0,
                last_harvest_amount: 0,
                registered_principal: principal,
                pending_credit: 0,
                paused: false,
                config: YieldConfig::spec_default(),
                history: Seq::empty(),
            }
        }
    }

    /// The contract after a position was registered.
    pub open spec fn position_registered(self, env: Env, plan_id: u64, asset: Address)
        -> InheritanceView {
        let principal = self.unencumbered(plan_id);
        self.with_call(
            InheritanceCall::RegisterPlanYield {
                pool: self.lending_contract->0,
                caller: env.contract,
                plan_id,
                asset,
                principal,
            },
        ).with_yield_state(
            plan_id,
            self.registered_state(env.timestamp, plan_id, asset),
        ).with_event(
            InheritanceEventView::YieldPositionRegistered(
                YieldPositionRegisteredEvent { plan_id, asset, principal },
            ),
        )
    }

    /// Why a position is not registered anew.
    pub open spec fn sync_error(self, caller: Address, plan_id: u64, accepted: bool) -> Option<
        InheritanceError,
    > {
        if !self.yields.states.contains_key(plan_id) {
            Some(InheritanceError::PlanNotFound)
        } else {
            self.register_position_error(caller, plan_id, accepted)
        }
    }

    /// Why a position is not dropped.
    pub open spec fn unregister_position_error(
        self,
        caller: Address,
        plan_id: u64,
        accepted: bool,
    ) -> Option<InheritanceError> {
        if self.configure_error(caller, plan_id) is Some {
            self.configure_error(caller, plan_id)
        } else if !self.yields.states.contains_key(plan_id) {
            Some(InheritanceError::PlanNotFound)
        } else if self.plans.records[plan_id].total_amount
            + self.yields.states[plan_id].pending_credit > u64::MAX {
            Some(InheritanceError::InvalidTotalAmount)
        } else {
            self.pool_error(accepted)
        }
    }

    /// The contract after the pending credit of a plan joined its balance.
    pub open spec fn credit_compounded(self, plan_id: u64) -> InheritanceView {
        let plan = self.plans.records[plan_id];
        let credit = self.yields.states[plan_id].pending_credit;
        self.with_plan(
            plan_id,
            InheritancePlanView { total_amount: (plan.total_amount + credit) as u64, ..plan },
        )
    }

    /// The contract after a position was dropped. What was harvested and not yet
    /// compounded is compounded first.
    pub open spec fn position_dropped(self, env: Env, plan_id: u64) -> InheritanceView {
        let compounded = self.credit_compounded(plan_id).with_call(
            InheritanceCall::UnregisterPlanYield {
                pool: self.lending_contract->0,
                caller: env.contract,
                plan_id,
            },
        );
        InheritanceView {
            yields: YieldBookView {
                states: self.yields.states.remove(plan_id),
                ..self.yields
            },
            ..compounded
        }
    }

    /// Why a policy is not set.
    pub open spec fn yield_config_error(
        self,
        caller: Address,
        plan_id: u64,
        performance_fee_bp: u32,
    ) -> Option<InheritanceError> {
        if self.configure_error(caller, plan_id) is Some {
            self.configure_error(caller, plan_id)
        } else if performance_fee_bp > MAX_PERFORMANCE_FEE_BP {
            Some(InheritanceError::InvalidAllocation)
        } else if !self.yields.states.contains_key(plan_id) {
            Some(InheritanceError::PlanNotFound)
        } else {
            None
        }
    }

    /// Why harvesting is not suspended or resumed.
    pub open spec fn yield_pause_error(self, caller: Address, plan_id: u64) -> Option<
        InheritanceError,
    > {
        if self.configure_error(caller, plan_id) is Some {
            self.configure_error(caller, plan_id)
        } else if !self.yields.states.contains_key(plan_id) {
            Some(InheritanceError::PlanNotFound)
        } else {
            None
        }
    }

    /// The contract after harvesting was suspended or resumed.
    pub open spec fn yield_paused(self, plan_id: u64, paused: bool) -> InheritanceView {
        self.with_yield_state(
            plan_id,
            PlanYieldStateView { paused, ..self.yields.states[plan_id] },
        ).with_event(InheritanceEventView::YieldPaused(YieldPausedEvent { plan_id, paused }))
    }

    /// Why a harvest is refused before the pool is asked.
    pub open spec fn harvest_entry_error(self, now: u64, caller: Address, plan_id: u64) -> Option<
        InheritanceError,
    > {
        let state = self.yields.states[plan_id];
        if self.harvester_error(caller, plan_id) is Some {
            self.harvester_error(caller, plan_id)
        } else if !self.yields.states.contains_key(plan_id) {
            Some(InheritanceError::PlanNotFound)
        } else if state.paused {
            Some(InheritanceError::PlanNotActive)
        } else if state.config.harvest_interval > 0 && now < next_harvest(
            state.last_harvest_at,
            state.config.harvest_interval,
        ) {
            Some(InheritanceError::EmergencyCooldownActive)
        } else if self.lending_contract is None {
            Some(InheritanceError::AdminNotSet)
        } else {
            None
        }
    }

    /// The pool reports something above the floor to harvest.
    pub open spec fn worth_harvesting(self, plan_id: u64, reply: PoolReply) -> bool {
        reply.pending matches Some(pending) && pending > 0 && pending
            >= self.yields.states[plan_id].config.min_harvest_amount
    }

    /// What a harvest withholds.
    pub open spec fn harvest_fee(self, plan_id: u64, gross: u64) -> u64 {
        bps_share(gross, self.yields.states[plan_id].config.performance_fee_bp)
    }

    /// What a plan gets of a harvest.
    pub open spec fn harvest_net(self, plan_id: u64, gross: u64) -> u64 {
        (gross - self.harvest_fee(plan_id, gross)) as u64
    }

    /// The balance that a harvest raises: that of the plan, or the credit that waits
    /// to be compounded.
    pub open spec fn harvest_target(self, plan_id: u64) -> u64 {
        if self.yields.states[plan_id].config.auto_compound {
            self.plans.records[plan_id].total_amount
        } else {
            self.yields.states[plan_id].pending_credit
        }
    }

    /// Why a harvest fails.
    pub open spec fn harvest_error(self, now: u64, caller: Address, plan_id: u64, reply: PoolReply)
        -> Option<InheritanceError> {
        if self.harvest_entry_error(now, caller, plan_id) is Some {
            self.harvest_entry_error(now, caller, plan_id)
        } else if reply.pending is None {
            Some(InheritanceError::FeeTransferFailed)
        } else if !self.worth_harvesting(plan_id, reply) {
            Some(InheritanceError::NothingToClaim)
        } else {
            match reply.claimed {
                None => Some(InheritanceError::FeeTransferFailed),
                Some(gross) => if gross == 0 {
                    Some(InheritanceError::NothingToClaim)
                } else if self.harvest_target(plan_id) + self.harvest_net(plan_id, gross)
                    > u64::MAX {
                    Some(InheritanceError::InvalidTotalAmount)
                } else {
                    None
                },
            }
        }
    }

    /// The contract after the calls that a harvest makes to the pool.
    pub open spec fn pool_called(self, env: Env, caller: Address, plan_id: u64, reply: PoolReply)
        -> InheritanceView {
        let pool = self.lending_contract->0;
        if self.harvest_entry_error(env.timestamp, caller, plan_id) is Some {
            self
        } else {
            let asked = self.with_call(InheritanceCall::GetAccruedPlanYield { pool, plan_id });
            if self.worth_harvesting(plan_id, reply) {
                asked.with_call(
                    InheritanceCall::ClaimPlanYield { pool, caller: env.contract, plan_id },
                )
            } else {
                asked
            }
        }
    }

    /// The yield state of a plan after a harvest.
    pub open spec fn harvested_state(self, now: u64, caller: Address, plan_id: u64, gross: u64)
        -> PlanYieldStateView {
        let state = self.yields.states[plan_id];
        let fee = self.harvest_fee(plan_id, gross);
        let net = self.harvest_net(plan_id, gross);
        let compounded = state.config.auto_compound;
        PlanYieldStateView {
            pending_credit: if compounded {
                state.pending_credit
            } else {
                (state.pending_credit + net) as u64
            },
            last_harvest_at: now,
            last_harvest_amount: gross,
            total_harvested: saturating_sum(state.total_harvested, gross),
            total_compounded: if compounded {
                saturating_sum(state.total_compounded, net)
            } else {
                state.total_compounded
            },
            total_fees_paid: saturating_sum(state.total_fees_paid, fee),
            harvest_count: saturating_sum32(state.harvest_count, 1),
            history: history_with(
                state.history,
                YieldHarvestRecord {
                    gross_amount: gross,
                    net_amount: net,
                    fee_amount: fee,
                    harvested_at: now,
                    harvested_by: caller,
                    compounded,
                },
            ),
            ..state
        }
    }

    /// The plan after a harvest.
    pub open spec fn harvested_plan(self, plan_id: u64, gross: u64) -> InheritancePlanView {
        let plan = self.plans.records[plan_id];
        if self.yields.states[plan_id].config.auto_compound {
            InheritancePlanView {
                total_amount: (plan.total_amount + self.harvest_net(plan_id, gross)) as u64,
                ..plan
            }
        } else {
            plan
        }
    }

    /// The contract after a harvest.
    pub open spec fn harvested(self, env: Env, caller: Address, plan_id: u64, reply: PoolReply)
        -> InheritanceView {
        let gross = reply.claimed->0;
        let fee = self.harvest_fee(plan_id, gross);
        let plan = self.harvested_plan(plan_id, gross);
        let booked = self.pool_called(env, caller, plan_id, reply).with_plan(
            plan_id,
            plan,
        ).with_yield_state(plan_id, self.harvested_state(env.timestamp, caller, plan_id, gross));
        let charged = if fee > 0 {
            booked.with_event(
                InheritanceEventView::YieldFeeCollected(
                    YieldFeeCollectedEvent {
                        plan_id,
                        gross_amount: gross,
                        fee_amount: fee,
                        fee_bp: self.yields.states[plan_id].config.performance_fee_bp,
                    },
                ),
            )
        } else {
            booked
        };
        charged.with_event(
            InheritanceEventView::YieldHarvested(
                YieldHarvestedEvent {
                    plan_id,
                    yield_amount: gross,
                    new_total_amount: plan.total_amount,
                    harvested_at: env.timestamp,
                },
            ),
        )
    }

    /// The contract after one plan of a batch: harvested if it can be, else only the
    /// pool was asked.
    pub open spec fn harvest_tried(self, env: Env, caller: Address, plan_id: u64, reply: PoolReply)
        -> InheritanceView {
        if self.harvest_error(env.timestamp, caller, plan_id, reply) is None {
            self.harvested(env, caller, plan_id, reply)
        } else {
            self.pool_called(env, caller, plan_id, reply)
        }
    }

    /// The contract after the first `n` plans of a batch.
    pub open spec fn harvests_tried(
        self,
        env: Env,
        caller: Address,
        plan_ids: Seq<u64>,
        replies: Seq<PoolReply>,
        n: int,
    ) -> InheritanceView
        decreases n,
    {
        if n <= 0 {
            self
        } else {
            self.harvests_tried(env, caller, plan_ids, replies, n - 1).harvest_tried(
                env,
                caller,
                plan_ids[n - 1],
                replies[n - 1],
            )
        }
    }

    /// The `i`-th plan of a batch is harvested.
    pub open spec fn harvest_succeeds(
        self,
        env: Env,
        caller: Address,
        plan_ids: Seq<u64>,
        replies: Seq<PoolReply>,
        i: int,
    ) -> bool {
        self.harvests_tried(env, caller, plan_ids, replies, i).harvest_error(
            env.timestamp,
            caller,
            plan_ids[i],
            replies[i],
        ) is None
    }

    /// How many of the first `n` plans of a batch are harvested.
    pub open spec fn harvest_successes(
        self,
        env: Env,
        caller: Address,
        plan_ids: Seq<u64>,
        replies: Seq<PoolReply>,
        n: int,
    ) -> nat
        decreases n,
    {
        if n <= 0 {
            0
        } else {
            self.harvest_successes(env, caller, plan_ids, replies, n - 1)
                + if self.harvest_succeeds(env, caller, plan_ids, replies, n - 1) {
                1nat
            } else {
                0nat
            }
        }
    }

    /// What the first `n` plans of a batch yield together.
    pub open spec fn harvest_total(
        self,
        env: Env,
        caller: Address,
        plan_ids: Seq<u64>,
        replies: Seq<PoolReply>,
        n: int,
    ) -> u64
        decreases n,
    {
        if n <= 0 {
            0
        } else if self.harvest_succeeds(env, caller, plan_ids, replies, n - 1) {
            saturating_sum(
                self.harvest_total(env, caller, plan_ids, replies, n - 1),
                replies[n - 1].claimed->0,
            )
        } else {
            self.harvest_total(env, caller, plan_ids, replies, n - 1)
        }
    }

    /// The contract after a batch of harvests.
    pub open spec fn batch_harvested(
        self,
        env: Env,
        caller: Address,
        plan_ids: Seq<u64>,
        replies: Seq<PoolReply>,
    ) -> InheritanceView {
        let n = plan_ids.len() as int;
        let successes = self.harvest_successes(env, caller, plan_ids, replies, n);
        self.harvests_tried(env, caller, plan_ids, replies, n).with_event(
            InheritanceEventView::YieldBatchHarvest(
                YieldBatchHarvestEvent {
                    success_count: successes as u32,
                    fail_count: (n - successes) as u32,
                    total_harvested: self.harvest_total(env, caller, plan_ids, replies, n),
                },
            ),
        )
    }

    /// Why pending credit is not compounded.
    pub open spec fn compound_error(self, caller: Address, plan_id: u64) -> Option<
        InheritanceError,
    > {
        if self.configure_error(caller, plan_id) is Some {
            self.configure_error(caller, plan_id)
        } else if !self.yields.states.contains_key(plan_id) {
            Some(InheritanceError::PlanNotFound)
        } else if self.yields.states[plan_id].pending_credit == 0 {
            Some(InheritanceError::NothingToClaim)
        } else if self.plans.records[plan_id].total_amount
            + self.yields.states[plan_id].pending_credit > u64::MAX {
            Some(InheritanceError::InvalidTotalAmount)
        } else {
            None
        }
    }

    /// The contract after pending credit was compounded.
    pub open spec fn pending_compounded(self, now: u64, plan_id: u64) -> InheritanceView {
        let state = self.yields.states[plan_id];
        let compounded = self.credit_compounded(plan_id);
        compounded.with_yield_state(
            plan_id,
            PlanYieldStateView {
                pending_credit: 0,
                total_compounded: saturating_sum(state.total_compounded, state.pending_credit),
                ..state
            },
        ).with_event(
            InheritanceEventView::YieldCompounded(
                YieldHarvestedEvent {
                    plan_id,
                    yield_amount: state.pending_credit,
                    new_total_amount: compounded.plans.records[plan_id].total_amount,
                    harvested_at: now,
                },
            ),
        )
    }

    /// What a plan controls: its balance and what waits to be compounded.
    pub open spec fn plan_value(self, plan_id: u64) -> int {
        self.plans.records[plan_id].total_amount + if self.yields.states.contains_key(plan_id) {
            self.yields.states[plan_id].pending_credit
        } else {
            0
        }
    }

    /// The span that a plan's position has been open.
    pub open spec fn open_span(self, now: u64, plan_id: u64) -> u64 {
        saturating_difference(now, self.yields.states[plan_id].registered_at)
    }

    /// What a plan has harvested per principal, in basis points.
    pub open spec fn harvested_bps(self, plan_id: u64) -> int {
        let state = self.yields.states[plan_id];
        (state.total_harvested * 10_000) / (state.registered_principal as int)
    }

    /// The annual rate that a plan has realized.
    pub open spec fn realized_rate(self, now: u64, plan_id: u64) -> Result<u32, InheritanceError> {
        let state = self.yields.states[plan_id];
        let span = self.open_span(now, plan_id);
        let annualized = (self.harvested_bps(plan_id) * 31_536_000) / (span as int);
        if !self.yields.states.contains_key(plan_id) {
            Err(InheritanceError::PlanNotFound)
        } else if state.registered_principal == 0 || state.harvest_count == 0 || span == 0 {
            Ok(0)
        } else if self.harvested_bps(plan_id) > u64::MAX || annualized > u64::MAX {
            Err(InheritanceError::InvalidTotalAmount)
        } else if annualized > u32::MAX {
            Ok(u32::MAX)
        } else {
            Ok(annualized as u32)
        }
    }

    /// A plan's share of a pool, in basis points.
    pub open spec fn pool_share(self, plan_id: u64, pool_total: u64) -> Result<
        u32,
        InheritanceError,
    > {
        let principal = self.yields.states[plan_id].registered_principal;
        let share = (principal * 10_000) / (pool_total as int);
        if !self.yields.states.contains_key(plan_id) {
            Err(InheritanceError::PlanNotFound)
        } else if pool_total == 0 {
            Ok(0)
        } else if principal * 10_000 > u64::MAX {
            Err(InheritanceError::InvalidTotalAmount)
        } else if share > u32::MAX {
            Ok(u32::MAX)
        } else {
            Ok(share as u32)
        }
    }
}

/// A harvest raises what a plan controls by what the plan gets of it, whether or not
/// it is compounded at once.
pub proof fn law_harvest_raises_value(
    contract: InheritanceView,
    env: Env,
    caller: Address,
    plan_id: u64,
    reply: PoolReply,
)
    requires
        contract.well_formed(),
        contract.harvest_error(env.timestamp, caller, plan_id, reply) is None,
    ensures
        ({
            let gross = reply.claimed->0;
            let after = contract.harvested(env, caller, plan_id, reply);
            &&& after.plan_value(plan_id) == contract.plan_value(plan_id) + contract.harvest_net(
                plan_id,
                gross,
            )
            &&& contract.harvest_net(plan_id, gross) + contract.harvest_fee(plan_id, gross) == gross
            &&& after.yields.states[plan_id].history.last().gross_amount == gross
        }),
{
    reveal(yields_bounded);
    let gross = reply.claimed->0;
    crate::math::lemma_share_bounded(
        gross,
        contract.yields.states[plan_id].config.performance_fee_bp,
    );
}

/// Neither compounding nor dropping a position discards yield that a plan was paid:
/// what the plan controls stays the same.
pub proof fn law_credit_is_never_lost(
    contract: InheritanceView,
    env: Env,
    caller: Address,
    plan_id: u64,
)
    ensures
        contract.compound_error(caller, plan_id) is None ==> contract.pending_compounded(
            env.timestamp,
            plan_id,
        ).plan_value(plan_id) == contract.plan_value(plan_id),
        contract.unregister_position_error(caller, plan_id, true) is None
            ==> contract.position_dropped(env, plan_id).plan_value(plan_id) == contract.plan_value(
            plan_id,
        ),
{
}

/// The lifetime total of compounded yield grows by exactly what reaches a plan's balance:
/// by the net of a harvest that is compounded at once, by nothing when the net is put
/// aside, and by the credit once that is compounded.
pub proof fn law_compounded_total_follows_the_balance(
    contract: InheritanceView,
    env: Env,
    caller: Address,
    plan_id: u64,
    reply: PoolReply,
)
    requires
        contract.yields.states[plan_id].total_compounded + contract.harvest_net(
            plan_id,
            reply.claimed->0,
        ) <= u64::MAX,
        contract.yields.states[plan_id].total_compounded
            + contract.yields.states[plan_id].pending_credit <= u64::MAX,
    ensures
        contract.harvest_error(env.timestamp, caller, plan_id, reply) is None ==> ({
            let after = contract.harvested(env, caller, plan_id, reply);
            after.yields.states[plan_id].total_compounded
                - contract.yields.states[plan_id].total_compounded
                == after.plans.records[plan_id].total_amount
                - contract.plans.records[plan_id].total_amount
        }),
        contract.compound_error(caller, plan_id) is None ==> ({
            let after = contract.pending_compounded(env.timestamp, plan_id);
            after.yields.states[plan_id].total_compounded
                - contract.yields.states[plan_id].total_compounded
                == after.plans.records[plan_id].total_amount
                - contract.plans.records[plan_id].total_amount
        }),
{
}

/// A relayer may harvest, but may not change how a plan earns: somebody who is neither
/// the owner nor an admin is refused, relayer or not.
pub proof fn law_relayers_only_harvest(
    contract: InheritanceView,
    relayer: Address,
    plan_id: u64,
    performance_fee_bp: u32,
)
    requires
        contract.plans.records.contains_key(plan_id),
        contract.plans.records[plan_id].owner != relayer,
        !contract.access.has(relayer, Role::Admin),
    ensures
        contract.may_harvest(relayer, plan_id) <==> contract.yields.relayers.contains(relayer),
        contract.yield_config_error(relayer, plan_id, performance_fee_bp) == Some(
            InheritanceError::Unauthorized,
        ),
        contract.yield_pause_error(relayer, plan_id) == Some(InheritanceError::Unauthorized),
        contract.compound_error(relayer, plan_id) == Some(InheritanceError::Unauthorized),
        contract.unregister_position_error(relayer, plan_id, true) == Some(
            InheritanceError::Unauthorized,
        ),
{
}

/// Registering a plan again keeps its history, its lifetime totals and the time since
/// which its position is open.
pub proof fn law_reregistering_keeps_history(
    contract: InheritanceView,
    env: Env,
    plan_id: u64,
    asset: Address,
)
    requires
        contract.yields.states.contains_key(plan_id),
    ensures
        ({
            let before = contract.yields.states[plan_id];
            let after = contract.position_registered(env, plan_id, asset).yields.states[plan_id];
            &&& after.history == before.history
            &&& after.registered_at == before.registered_at
            &&& after.total_harvested == before.total_harvested
            &&& after.total_compounded == before.total_compounded
            &&& after.total_fees_paid == before.total_fees_paid
            &&& after.harvest_count == before.harvest_count
            &&& after.pending_credit == before.pending_credit
            &&& after.config == before.config
        }),
{
}

/// Adding a relayer twice is the same as adding it once; and a relayer that was
/// removed is none any more.
pub proof fn law_relayers(contract: InheritanceView, relayer: Address, other: Address)
    ensures
        contract.relayer_added(relayer).relayer_added(relayer) == contract.relayer_added(relayer),
        contract.relayer_added(relayer).yields.relayers.contains(other)
            <==> contract.yields.relayers.contains(other) || other == relayer,
        contract.relayer_removed(relayer).yields.relayers.contains(other)
            <==> contract.yields.relayers.contains(other) && other != relayer,
{
    lemma_push_contains(contract.yields.relayers, relayer, relayer);
    lemma_push_contains(contract.yields.relayers, relayer, other);
    lemma_without_contains(contract.yields.relayers, relayer, other);
}

proof fn lemma_state_update(contract: InheritanceView, plan_id: u64, state: PlanYieldStateView)
    requires
        contract.well_formed(),
        state.history.len() <= MAX_YIELD_HISTORY,
        state.config.performance_fee_bp <= MAX_PERFORMANCE_FEE_BP,
    ensures
        contract.with_yield_state(plan_id, state).well_formed(),
{
    reveal(yields_bounded);
}

proof fn lemma_state_on_file(contract: InheritanceView, plan_id: u64)
    requires
        contract.well_formed(),
        contract.yields.states.contains_key(plan_id),
    ensures
        contract.yields.states[plan_id].history.len() <= MAX_YIELD_HISTORY,
        contract.yields.states[plan_id].config.performance_fee_bp <= MAX_PERFORMANCE_FEE_BP,
{
    reveal(yields_bounded);
}

impl InheritanceContract {
    fn can_configure_yield(&self, caller: Address, plan_id: u64) -> (allowed: bool)
        requires
            self@.plans.records.contains_key(plan_id),
        ensures
            allowed == self@.may_configure_yield(caller, plan_id),
    {
        match self.plans.records.get(plan_id) {
            Some(plan) => plan.owner == caller || self.access.has_role(caller, Role::Admin),
            None => false,
        }
    }

    /// Refuses a caller who may not harvest for the plan, or a plan that does not earn.
    fn check_harvester(&self, caller: Address, plan_id: u64) -> (error: Option<InheritanceError>)
        ensures
            error == self@.harvester_error(caller, plan_id),
    {
        match self.plans.records.get(plan_id) {
            Some(plan) => {
                if !self.can_configure_yield(caller, plan_id) && !self.is_yield_relayer(caller) {
                    Some(InheritanceError::Unauthorized)
                } else if !plan.is_active || !plan.earn_yield {
                    Some(InheritanceError::PlanNotActive)
                } else {
                    None
                }
            },
            None => Some(InheritanceError::PlanNotFound),
        }
    }

    /// Refuses a caller who may not change how a plan earns.
    fn check_configure(&self, caller: Address, plan_id: u64) -> (error: Option<InheritanceError>)
        ensures
            error == self@.configure_error(caller, plan_id),
    {
        if !self.plans.records.contains(plan_id) {
            Some(InheritanceError::PlanNotFound)
        } else if !self.can_configure_yield(caller, plan_id) {
            Some(InheritanceError::Unauthorized)
        } else {
            None
        }
    }

    /// The linked lending pool, if it answered.
    fn require_pool(&self, answered: bool) -> (pool: Result<Address, InheritanceError>)
        ensures
            match pool {
                Ok(p) => self@.pool_error(answered) is None && self@.lending_contract == Some(p),
                Err(e) => self@.pool_error(answered) == Some(e),
            },
    {
        match self.lending_contract {
            Some(pool) => {
                if answered {
                    Ok(pool)
                } else {
                    Err(InheritanceError::FeeTransferFailed)
                }
            },
            None => Err(InheritanceError::AdminNotSet),
        }
    }

    /// Authorize `relayer` to trigger harvests for any plan. Admin only.
    ///
    /// Idempotent: re-adding an existing relayer is a no-op rather than an
    /// error.
    pub fn add_yield_relayer(&mut self, env: &Env, admin: Address, relayer: Address) -> (result:
        Result<(), InheritanceError>)
        requires
            old(self)@.well_formed(),
            env.authorized(admin),
        ensures
            ({
                let error = old(self)@.add_relayer_error(admin, relayer);
                match result {
                    Err(e) => error == Some(e) && final(self)@ == old(self)@,
                    Ok(()) => error is None && final(self)@ == old(self)@.relayer_added(relayer),
                }
            }),
            final(self)@.well_formed(),
    {
        match self.require_admin(env, admin) {
            Ok(()) => {},
            Err(e) => {
                return Err(e);
            },
        }
        if list_contains(&self.yields.relayers, &relayer) {
            return Ok(());
        }
        if self.yields.relayers.len() >= MAX_YIELD_RELAYERS as usize {
            return Err(InheritanceError::TooManyBeneficiaries);
        }
        proof {
            reveal(yields_bounded);
        }
        self.yields.relayers.push(relayer);
        self.publish(
            InheritanceEvent::YieldRelayerUpdated(
                YieldRelayerUpdatedEvent { relayer, authorized: true },
            ),
        );
        Ok(())
    }

    /// Revoke a relayer's harvest authority. Admin only.
    pub fn remove_yield_relayer(&mut self, env: &Env, admin: Address, relayer: Address) -> (result:
        Result<(), InheritanceError>)
        requires
            old(self)@.well_formed(),
            env.authorized(admin),
        ensures
            ({
                let error = old(self)@.remove_relayer_error(admin, relayer);
                match result {
                    Err(e) => error == Some(e) && final(self)@ == old(self)@,
                    Ok(()) => error is None && final(self)@ == old(self)@.relayer_removed(relayer),
                }
            }),
            final(self)@.well_formed(),
    {
        match self.require_admin(env, admin) {
            Ok(()) => {},
            Err(e) => {
                return Err(e);
            },
        }
        if !list_contains(&self.yields.relayers, &relayer) {
            return Err(InheritanceError::Unauthorized);
        }
        proof {
            reveal(yields_bounded);
            lemma_without_distinct(self@.yields.relayers, relayer);
        }
        self.yields.relayers = list_without(&self.yields.relayers, &relayer);
        self.publish(
            InheritanceEvent::YieldRelayerUpdated(
                YieldRelayerUpdatedEvent { relayer, authorized: false },
            ),
        );
        Ok(())
    }

    /// List the accounts currently authorized to trigger harvests.
    pub fn get_yield_relayers(&self) -> (relayers: Vec<Address>)
        ensures
            relayers@ == self@.yields.relayers,
    {
        self.yields.relayers.clone()
    }

    /// Whether `address` may trigger harvests as a relayer.
    pub fn is_yield_relayer(&self, address: Address) -> (yes: bool)
        ensures
            yes == self@.yields.relayers.contains(address),
    {
        list_contains(&self.yields.relayers, &address)
    }

    /// Register the plan's locked balance as a yield-bearing position in the
    /// configured lending pool, so interest starts accruing against it.
    ///
    /// The registered principal is the plan's unencumbered balance. Call this
    /// again after a deposit, withdrawal, or loan changes the plan's balance:
    /// re-registering resets the pool's accrual watermark, so harvest first if
    /// interest is pending. `accepted` is whether the pool took the position.
    ///
    /// Callable by the plan owner, an admin, or a registered relayer.
    pub fn register_yield_position(
        &mut self,
        env: &Env,
        caller: Address,
        plan_id: u64,
        asset: Address,
        accepted: bool,
    ) -> (result: Result<(), InheritanceError>)
        requires
            old(self)@.well_formed(),
            !old(self)@.access.paused,
            env.authorized(caller),
        ensures
            ({
                let error = old(self)@.register_position_error(caller, plan_id, accepted);
                match result {
                    Err(e) => error == Some(e) && final(self)@ == old(self)@,
                    Ok(()) => error is None && final(self)@ == old(self)@.position_registered(
                        *env,
                        plan_id,
                        asset,
                    ),
                }
            }),
            final(self)@.well_formed(),
    {
        match self.check_harvester(caller, plan_id) {
            Some(e) => {
                return Err(e);
            },
            None => {},
        }
        let pool: Address = match self.require_pool(accepted) {
            Ok(pool) => pool,
            Err(e) => {
                return Err(e);
            },
        };
        let principal: u64 = match self.plans.records.get(plan_id) {
            Some(plan) => plan.total_amount.saturating_sub(plan.total_loaned),
            None => 0,
        };
        let now: u64 = env.timestamp;
        proof {
            if self@.yields.states.contains_key(plan_id) {
                lemma_state_on_file(self@, plan_id);
            }
            lemma_state_update(self@, plan_id, self@.registered_state(now, plan_id, asset));
        }
        self.call(
            InheritanceCall::RegisterPlanYield {
                pool,
                caller: env.contract,
                plan_id,
                asset,
                principal,
            },
        );
        if self.yields.states.contains(plan_id) {
            let state = self.yields.states.at_mut(plan_id);
            state.asset = asset;
            state.registered_principal = principal;
            state.last_harvest_at = now;
        } else {
            self.yields.states.set(
                plan_id,
                PlanYieldState {
                    asset,
                    registered_at: now,
                    last_harvest_at: now,
                    total_harvested: 0,
                    total_compounded: 0,
                    total_fees_paid: 0,
                    harvest_count: 0,
                    last_harvest_amount: 0,
                    registered_principal: principal,
                    pending_credit: 0,
                    paused: false,
                    config: YieldConfig::default_config(),
                    history: List::new(),
                },
            );
        }
        self.publish(
            InheritanceEvent::YieldPositionRegistered(
                YieldPositionRegisteredEvent { plan_id, asset, principal },
            ),
        );
        Ok(())
    }

    /// Re-register the plan's position at its current unencumbered balance, in the
    /// asset already on file. Returns the balance.
    pub fn sync_yield_principal(
        &mut self,
        env: &Env,
        caller: Address,
        plan_id: u64,
        accepted: bool,
    ) -> (result: Result<u64, InheritanceError>)
        requires
            old(self)@.well_formed(),
            !old(self)@.access.paused,
            env.authorized(caller),
        ensures
            ({
                let error = old(self)@.sync_error(caller, plan_id, accepted);
                match result {
                    Err(e) => error == Some(e) && final(self)@ == old(self)@,
                    Ok(principal) => error is None && principal == old(self)@.unencumbered(plan_id)
                        && final(self)@ == old(self)@.position_registered(
                        *env,
                        plan_id,
                        old(self)@.yields.states[plan_id].asset,
                    ),
                }
            }),
            final(self)@.well_formed(),
    {
        let asset: Address = match self.yields.states.get(plan_id) {
            Some(state) => state.asset,
            None => {
                return Err(InheritanceError::PlanNotFound);
            },
        };
        match self.register_yield_position(env, caller, plan_id, asset, accepted) {
            Ok(()) => {},
            Err(e) => {
                return Err(e);
            },
        }
        match self.yields.states.get(plan_id) {
            Some(state) => Ok(state.registered_principal),
            None => Err(InheritanceError::PlanNotFound),
        }
    }

    /// Drop a plan's yield position from the pool and clear its local record.
    ///
    /// Any uncompounded `pending_credit` is compounded into the plan first, so
    /// unregistering never silently discards yield the plan has already been
    /// paid. `accepted` is whether the pool dropped the position.
    pub fn unregister_yield_position(
        &mut self,
        env: &Env,
        caller: Address,
        plan_id: u64,
        accepted: bool,
    ) -> (result: Result<(), InheritanceError>)
        requires
            old(self)@.well_formed(),
            !old(self)@.access.paused,
            env.authorized(caller),
        ensures
            ({
                let error = old(self)@.unregister_position_error(caller, plan_id, accepted);
                match result {
                    Err(e) => error == Some(e) && final(self)@ == old(self)@,
                    Ok(()) => error is None && final(self)@ == old(self)@.position_dropped(
                        *env,
                        plan_id,
                    ),
                }
            }),
            final(self)@.well_formed(),
    {
        match self.check_configure(caller, plan_id) {
            Some(e) => {
                return Err(e);
            },
            None => {},
        }
        let credit: u64 = match self.yields.states.get(plan_id) {
            Some(state) => state.pending_credit,
            None => {
                return Err(InheritanceError::PlanNotFound);
            },
        };
        let total: u64 = match self.plans.records.get(plan_id) {
            Some(plan) => match safe_add(plan.total_amount, credit) {
                Ok(total) => total,
                Err(e) => {
                    return Err(e);
                },
            },
            None => {
                return Err(InheritanceError::PlanNotFound);
            },
        };
        let pool: Address = match self.require_pool(accepted) {
            Ok(pool) => pool,
            Err(e) => {
                return Err(e);
            },
        };
        let ghost before = self@;
        proof {
            lemma_plan_on_file(self@, plan_id);
        }
        let plan = self.plans.records.at_mut(plan_id);
        plan.total_amount = total;
        proof {
            lemma_plan_update(before, plan_id, plan@);
        }
        self.call(
            InheritanceCall::UnregisterPlanYield { pool, caller: env.contract, plan_id },
        );
        self.yields.states.remove(plan_id);
        proof {
            reveal(yields_bounded);
        }
        Ok(())
    }

    /// Set a plan's yield policy. Owner or admin only: relayers may harvest
    /// but may not change the economics of what they harvest.
    pub fn set_yield_config(
        &mut self,
        env: &Env,
        caller: Address,
        plan_id: u64,
        auto_compound: bool,
        min_harvest_amount: u64,
        harvest_interval: u64,
        performance_fee_bp: u32,
    ) -> (result: Result<(), InheritanceError>)
        requires
            old(self)@.well_formed(),
            !old(self)@.access.paused,
            env.authorized(caller),
        ensures
            ({
                let error = old(self)@.yield_config_error(caller, plan_id, performance_fee_bp);
                match result {
                    Err(e) => error == Some(e) && final(self)@ == old(self)@,
                    Ok(()) => error is None && final(self)@ == old(self)@.with_yield_state(
                        plan_id,
                        PlanYieldStateView {
                            config: YieldConfig {
                                auto_compound,
                                min_harvest_amount,
                                harvest_interval,
                                performance_fee_bp,
                            },
                            ..old(self)@.yields.states[plan_id]
                        },
                    ).with_event(
                        InheritanceEventView::YieldConfigUpdated(
                            YieldConfigUpdatedEvent {
                                plan_id,
                                auto_compound,
                                min_harvest_amount,
                                harvest_interval,
                                performance_fee_bp,
                            },
                        ),
                    ),
                }
            }),
            final(self)@.well_formed(),
    {
        match self.check_configure(caller, plan_id) {
            Some(e) => {
                return Err(e);
            },
            None => {},
        }
        match validate_performance_fee(performance_fee_bp) {
            Ok(()) => {},
            Err(e) => {
                return Err(e);
            },
        }
        if !self.yields.states.contains(plan_id) {
            return Err(InheritanceError::PlanNotFound);
        }
        let ghost before = self@;
        let config = YieldConfig {
            auto_compound,
            min_harvest_amount,
            harvest_interval,
            performance_fee_bp,
        };
        proof {
            lemma_state_on_file(self@, plan_id);
        }
        let state = self.yields.states.at_mut(plan_id);
        state.config = config;
        proof {
            lemma_state_update(before, plan_id, state@);
        }
        self.publish(
            InheritanceEvent::YieldConfigUpdated(
                YieldConfigUpdatedEvent {
                    plan_id,
                    auto_compound,
                    min_harvest_amount,
                    harvest_interval,
                    performance_fee_bp,
                },
            ),
        );
        Ok(())
    }

    /// Read a plan's yield policy.
    pub fn get_yield_config(&self, plan_id: u64) -> (config: Option<YieldConfig>)
        ensures
            config == (if self@.yields.states.contains_key(plan_id) {
                Some(self@.yields.states[plan_id].config)
            } else {
                None
            }),
    {
        match self.yields.states.get(plan_id) {
            Some(state) => Some(state.config),
            None => None,
        }
    }

    /// Suspend harvesting for a plan without unregistering its position.
    ///
    /// Interest keeps accruing in the pool; it simply cannot be pulled into
    /// the vault until resumed. Owner or admin only.
    pub fn pause_plan_yield(&mut self, env: &Env, caller: Address, plan_id: u64) -> (result: Result<
        (),
        InheritanceError,
    >)
        requires
            old(self)@.well_formed(),
            !old(self)@.access.paused,
            env.authorized(caller),
        ensures
            ({
                let error = old(self)@.yield_pause_error(caller, plan_id);
                match result {
                    Err(e) => error == Some(e) && final(self)@ == old(self)@,
                    Ok(()) => error is None && final(self)@ == old(self)@.yield_paused(
                        plan_id,
                        true,
                    ),
                }
            }),
            final(self)@.well_formed(),
    {
        self.set_plan_yield_paused(env, caller, plan_id, true)
    }

    /// Resume harvesting for a previously paused plan.
    pub fn resume_plan_yield(&mut self, env: &Env, caller: Address, plan_id: u64) -> (result:
        Result<(), InheritanceError>)
        requires
            old(self)@.well_formed(),
            !old(self)@.access.paused,
            env.authorized(caller),
        ensures
            ({
                let error = old(self)@.yield_pause_error(caller, plan_id);
                match result {
                    Err(e) => error == Some(e) && final(self)@ == old(self)@,
                    Ok(()) => error is None && final(self)@ == old(self)@.yield_paused(
                        plan_id,
                        false,
                    ),
                }
            }),
            final(self)@.well_formed(),
    {
        self.set_plan_yield_paused(env, caller, plan_id, false)
    }

    fn set_plan_yield_paused(&mut self, env: &Env, caller: Address, plan_id: u64, paused: bool) -> (
    result: Result<(), InheritanceError>)
        requires
            old(self)@.well_formed(),
            env.authorized(caller),
        ensures
            ({
                let error = old(self)@.yield_pause_error(caller, plan_id);
                match result {
                    Err(e) => error == Some(e) && final(self)@ == old(self)@,
                    Ok(()) => error is None && final(self)@ == old(self)@.yield_paused(
                        plan_id,
                        paused,
                    ),
                }
            }),
            final(self)@.well_formed(),
    {
        match self.check_configure(caller, plan_id) {
            Some(e) => {
                return Err(e);
            },
            None => {},
        }
        if !self.yields.states.contains(plan_id) {
            return Err(InheritanceError::PlanNotFound);
        }
        let ghost before = self@;
        proof {
            lemma_state_on_file(self@, plan_id);
        }
        let state = self.yields.states.at_mut(plan_id);
        state.paused = paused;
        proof {
            lemma_state_update(before, plan_id, state@);
        }
        self.publish(InheritanceEvent::YieldPaused(YieldPausedEvent { plan_id, paused }));
        Ok(())
    }

    /// Whether harvesting is currently suspended for a plan.
    pub fn is_plan_yield_paused(&self, plan_id: u64) -> (paused: bool)
        ensures
            paused == (self@.yields.states.contains_key(plan_id)
                && self@.yields.states[plan_id].paused),
    {
        match self.yields.states.get(plan_id) {
            Some(state) => state.paused,
            None => false,
        }
    }

    /// Yield bookkeeping for a plan, present once its position is registered.
    pub fn get_yield_state_of(&self, plan_id: u64) -> (state: Option<PlanYieldState>)
        ensures
            match state {
                Some(s) => self@.yields.states.contains_key(plan_id) && s@
                    == self@.yields.states[plan_id],
                None => !self@.yields.states.contains_key(plan_id),
            },
    {
        match self.yields.states.get(plan_id) {
            Some(state) => Some(state.duplicate()),
            None => None,
        }
    }

    /// Yield the plan could harvest right now, as reported by the lending pool:
    /// `reply` is its answer, nothing if it could not be reached or has no position
    /// of the plan.
    pub fn get_pending_yield(&self, plan_id: u64, reply: Option<u64>) -> (pending: Result<
        u64,
        InheritanceError,
    >)
        ensures
            match pending {
                Ok(p) => self@.pool_error(reply is Some) is None && reply == Some(p),
                Err(e) => self@.pool_error(reply is Some) == Some(e),
            },
    {
        match self.require_pool(reply.is_some()) {
            Ok(_) => {},
            Err(e) => {
                return Err(e);
            },
        }
        match reply {
            Some(pending) => Ok(pending),
            None => Err(InheritanceError::FeeTransferFailed),
        }
    }

    /// Lifetime yield compounded into a plan.
    pub fn get_total_yield_harvested(&self, plan_id: u64) -> (total: u64)
        ensures
            total == (if self@.yields.states.contains_key(plan_id) {
                self@.yields.states[plan_id].total_compounded
            } else {
                0
            }),
    {
        match self.yields.states.get(plan_id) {
            Some(state) => state.total_compounded,
            None => 0,
        }
    }

    /// Lifetime protocol fees withheld from a plan's harvests.
    pub fn get_total_yield_fees(&self, plan_id: u64) -> (total: u64)
        ensures
            total == (if self@.yields.states.contains_key(plan_id) {
                self@.yields.states[plan_id].total_fees_paid
            } else {
                0
            }),
    {
        match self.yields.states.get(plan_id) {
            Some(state) => state.total_fees_paid,
            None => 0,
        }
    }

    /// Timestamp of the plan's last successful harvest (0 if never harvested).
    pub fn get_last_yield_harvest(&self, plan_id: u64) -> (at: u64)
        ensures
            at == (if self@.yields.states.contains_key(plan_id)
                && self@.yields.states[plan_id].history.len() > 0 {
                self@.yields.states[plan_id].history.last().harvested_at
            } else {
                0
            }),
    {
        match self.yields.states.get(plan_id) {
            Some(state) => {
                let count: usize = state.history.len();
                if count > 0 {
                    state.history.get(count - 1).harvested_at
                } else {
                    0
                }
            },
            None => 0,
        }
    }

    /// The asset the plan's yield position is denominated in, if registered.
    pub fn get_yield_asset(&self, plan_id: u64) -> (asset: Option<Address>)
        ensures
            asset == (if self@.yields.states.contains_key(plan_id) {
                Some(self@.yields.states[plan_id].asset)
            } else {
                None
            }),
    {
        match self.yields.states.get(plan_id) {
            Some(state) => Some(state.asset),
            None => None,
        }
    }

    /// Harvested-but-not-yet-compounded yield, held for plans that have
    /// `auto_compound` switched off.
    pub fn get_pending_credit(&self, plan_id: u64) -> (credit: u64)
        ensures
            credit == (if self@.yields.states.contains_key(plan_id) {
                self@.yields.states[plan_id].pending_credit
            } else {
                0
            }),
    {
        match self.yields.states.get(plan_id) {
            Some(state) => state.pending_credit,
            None => 0,
        }
    }

    /// The plan's recent harvests, oldest first, capped at [`MAX_YIELD_HISTORY`]
    /// entries.
    pub fn get_yield_history(&self, plan_id: u64) -> (history: List<YieldHarvestRecord>)
        requires
            self@.well_formed(),
        ensures
            history@ == (if self@.yields.states.contains_key(plan_id) {
                self@.yields.states[plan_id].history
            } else {
                Seq::empty()
            }),
            history@.len() <= MAX_YIELD_HISTORY,
    {
        match self.yields.states.get(plan_id) {
            Some(state) => {
                proof {
                    lemma_state_on_file(self@, plan_id);
                }
                state.history.duplicate()
            },
            None => List::new(),
        }
    }

    /// Number of harvests executed against a plan.
    pub fn get_yield_harvest_count(&self, plan_id: u64) -> (count: u32)
        ensures
            count == (if self@.yields.states.contains_key(plan_id) {
                self@.yields.states[plan_id].harvest_count
            } else {
                0
            }),
    {
        match self.yields.states.get(plan_id) {
            Some(state) => state.harvest_count,
            None => 0,
        }
    }

    /// The earliest timestamp at which the plan's next harvest is eligible.
    pub fn get_next_harvest_at(&self, plan_id: u64) -> (at: u64)
        ensures
            at == (if self@.yields.states.contains_key(plan_id) {
                next_harvest(
                    self@.yields.states[plan_id].last_harvest_at,
                    self@.yields.states[plan_id].config.harvest_interval,
                )
            } else {
                0
            }),
    {
        match self.yields.states.get(plan_id) {
            Some(state) => next_harvest_at(state.last_harvest_at, state.config.harvest_interval),
            None => 0,
        }
    }

    /// Whether a harvest would go through right now: not paused, cooldown
    /// elapsed, and pending yield above the configured floor. `reply` is what the
    /// lending pool reports as pending.
    ///
    /// Returns `false` rather than erroring when the pool is unreachable.
    pub fn is_harvest_due(&self, env: &Env, plan_id: u64, reply: Option<u64>) -> (due: bool)
        ensures
            due == (self@.yields.states.contains_key(plan_id)
                && !self@.yields.states[plan_id].paused && self@.lending_contract is Some
                && match reply {
                Some(pending) => harvest_due(
                    env.timestamp,
                    self@.yields.states[plan_id].last_harvest_at,
                    self@.yields.states[plan_id].config.harvest_interval,
                    pending,
                    self@.yields.states[plan_id].config.min_harvest_amount,
                ),
                None => false,
            }),
    {
        match self.yields.states.get(plan_id) {
            Some(state) => {
                if state.paused {
                    return false;
                }
                match self.get_pending_yield(plan_id, reply) {
                    Ok(pending) => is_harvest_due(
                        env.timestamp,
                        state.last_harvest_at,
                        state.config.harvest_interval,
                        pending,
                        state.config.min_harvest_amount,
                    ),
                    Err(_) => false,
                }
            },
            None => false,
        }
    }

    /// One-shot read of everything about a plan's yield position.
    pub fn get_yield_summary(&self, plan_id: u64) -> (summary: Result<
        YieldSummary,
        InheritanceError,
    >)
        ensures
            ({
                let state = self@.yields.states[plan_id];
                summary == (if self@.yields.states.contains_key(plan_id) {
                    Ok::<YieldSummary, InheritanceError>(
                        YieldSummary {
                            plan_id,
                            asset: state.asset,
                            registered_principal: state.registered_principal,
                            total_harvested: state.total_harvested,
                            total_fees_paid: state.total_fees_paid,
                            pending_credit: state.pending_credit,
                            harvest_count: state.harvest_count,
                            last_harvest_at: state.last_harvest_at,
                            last_harvest_amount: state.last_harvest_amount,
                            next_harvest_at: next_harvest(
                                state.last_harvest_at,
                                state.config.harvest_interval,
                            ),
                            paused: state.paused,
                            auto_compound: state.config.auto_compound,
                        },
                    )
                } else {
                    Err(InheritanceError::PlanNotFound)
                })
            }),
    {
        match self.yields.states.get(plan_id) {
            Some(state) => Ok(
                YieldSummary {
                    plan_id,
                    asset: state.asset,
                    registered_principal: state.registered_principal,
                    total_harvested: state.total_harvested,
                    total_fees_paid: state.total_fees_paid,
                    pending_credit: state.pending_credit,
                    harvest_count: state.harvest_count,
                    last_harvest_at: state.last_harvest_at,
                    last_harvest_amount: state.last_harvest_amount,
                    next_harvest_at: next_harvest_at(
                        state.last_harvest_at,
                        state.config.harvest_interval,
                    ),
                    paused: state.paused,
                    auto_compound: state.config.auto_compound,
                },
            ),
            None => Err(InheritanceError::PlanNotFound),
        }
    }

    /// Project a plan's balance after `days` of daily compounding at
    /// `annual_rate_bps`.
    ///
    /// A forecast, not a promise: the pool's actual rate floats with
    /// utilization. Use it for UI estimates, never for settlement.
    pub fn project_plan_balance(&self, plan_id: u64, annual_rate_bps: u32, days: u64) -> (balance:
        Result<u64, InheritanceError>)
        ensures
            balance == (if self@.plans.records.contains_key(plan_id) {
                compounding_result(
                    self@.unencumbered(plan_id),
                    annual_rate_bps,
                    daily_step(annual_rate_bps),
                    days,
                )
            } else {
                Err(InheritanceError::PlanNotFound)
            }),
    {
        match self.plans.records.get(plan_id) {
            Some(plan) => project_daily_compound(
                plan.total_amount.saturating_sub(plan.total_loaned),
                annual_rate_bps,
                days,
            ),
            None => Err(InheritanceError::PlanNotFound),
        }
    }

    /// Interest alone a plan would earn over `days`, excluding principal.
    pub fn project_plan_interest(&self, plan_id: u64, annual_rate_bps: u32, days: u64) -> (interest:
        Result<u64, InheritanceError>)
        ensures
            interest == (if self@.plans.records.contains_key(plan_id) {
                interest_of(
                    compounding_result(
                        self@.unencumbered(plan_id),
                        annual_rate_bps,
                        daily_step(annual_rate_bps),
                        days,
                    ),
                    self@.unencumbered(plan_id),
                )
            } else {
                Err(InheritanceError::PlanNotFound)
            }),
    {
        match self.plans.records.get(plan_id) {
            Some(plan) => project_daily_interest(
                plan.total_amount.saturating_sub(plan.total_loaned),
                annual_rate_bps,
                days,
            ),
            None => Err(InheritanceError::PlanNotFound),
        }
    }

    /// The effective APY of a nominal rate compounded daily, in basis points.
    pub fn effective_apy(nominal_annual_rate_bps: u32) -> (rate: Result<u32, InheritanceError>)
        ensures
            rate == (if nominal_annual_rate_bps > MAX_RATE_BPS {
                Err::<u32, InheritanceError>(InheritanceError::InvalidAllocation)
            } else if effective_rate(nominal_annual_rate_bps) > u32::MAX {
                Err(InheritanceError::InvalidTotalAmount)
            } else {
                Ok(effective_rate(nominal_annual_rate_bps) as u32)
            }),
    {
        effective_apy_bps(nominal_annual_rate_bps)
    }

    /// Simple (non-compounding) interest a plan would accrue over
    /// `elapsed_secs` at `annual_rate_bps`.
    ///
    /// This matches how the lending pool actually accrues between harvests, so
    /// it is the right estimate for "what will the next harvest pay".
    pub fn estimate_next_harvest_amount(
        &self,
        plan_id: u64,
        annual_rate_bps: u32,
        elapsed_secs: u64,
    ) -> (amount: Result<u64, InheritanceError>)
        ensures
            ({
                let principal = self@.yields.states[plan_id].registered_principal;
                let interest = simple_interest_of(principal, annual_rate_bps, elapsed_secs);
                amount == (if !self@.yields.states.contains_key(plan_id) {
                    Err::<u64, InheritanceError>(InheritanceError::PlanNotFound)
                } else if annual_rate_bps > MAX_RATE_BPS {
                    Err(InheritanceError::InvalidAllocation)
                } else if interest > u64::MAX {
                    Err(InheritanceError::InvalidTotalAmount)
                } else {
                    Ok(interest as u64)
                })
            }),
    {
        match self.yields.states.get(plan_id) {
            Some(state) => simple_interest(
                state.registered_principal,
                annual_rate_bps,
                elapsed_secs,
            ),
            None => Err(InheritanceError::PlanNotFound),
        }
    }

    /// Compound an arbitrary principal over `periods` periods at a per-period
    /// rate, returning the resulting balance.
    pub fn compute_compound_amount(principal: u64, rate_bps_per_period: u32, periods: u64) -> (
    balance: Result<u64, InheritanceError>)
        ensures
            balance == compounding_result(
                principal,
                rate_bps_per_period,
                period_step(rate_bps_per_period),
                periods,
            ),
    {
        compound_amount(principal, rate_bps_per_period, periods)
    }

    /// Interest alone from compounding a principal over `periods` periods.
    pub fn compute_compound_interest(principal: u64, rate_bps_per_period: u32, periods: u64) -> (
    interest: Result<u64, InheritanceError>)
        ensures
            interest == interest_of(
                compounding_result(
                    principal,
                    rate_bps_per_period,
                    period_step(rate_bps_per_period),
                    periods,
                ),
                principal,
            ),
    {
        compound_interest(principal, rate_bps_per_period, periods)
    }

    /// The per-day rate, in basis points, implied by an annual rate.
    ///
    /// Floors to 0 below 365 bps: daily precision finer than a basis point
    /// lives in the fixed-point growth factor, not here.
    pub fn compute_daily_rate_bps(annual_rate_bps: u32) -> (rate: Result<u32, InheritanceError>)
        ensures
            rate == (if annual_rate_bps > MAX_RATE_BPS {
                Err::<u32, InheritanceError>(InheritanceError::InvalidAllocation)
            } else {
                Ok((annual_rate_bps / 365) as u32)
            }),
    {
        daily_rate_bps(annual_rate_bps)
    }

    /// Whole compounding periods elapsed in a span, at the vault's daily
    /// period length.
    pub fn compute_periods_elapsed(elapsed_secs: u64) -> (periods: Result<u64, InheritanceError>)
        ensures
            periods == Ok::<u64, InheritanceError>((elapsed_secs / 86_400) as u64),
    {
        Ok(elapsed_secs / SECONDS_PER_DAY)
    }

    /// Days elapsed since a plan's last harvest; before the first one, since its position
    /// was registered.
    pub fn days_since_last_harvest(&self, env: &Env, plan_id: u64) -> (days: Result<
        u64,
        InheritanceError,
    >)
        ensures
            days == (if self@.yields.states.contains_key(plan_id) {
                Ok::<u64, InheritanceError>(
                    (saturating_difference(
                        env.timestamp,
                        last_harvest(self@.yields.states[plan_id]),
                    ) / 86_400) as u64,
                )
            } else {
                Err(InheritanceError::PlanNotFound)
            }),
    {
        match self.yields.states.get(plan_id) {
            Some(state) => {
                let count: usize = state.history.len();
                let since: u64 = if count > 0 {
                    state.history.get(count - 1).harvested_at
                } else {
                    state.registered_at
                };
                Self::compute_periods_elapsed(env.timestamp.saturating_sub(since))
            },
            None => Err(InheritanceError::PlanNotFound),
        }
    }

    /// Principal-weighted average of two rates, in basis points.
    pub fn compute_blended_rate(
        principal_a: u64,
        rate_a_bps: u32,
        principal_b: u64,
        rate_b_bps: u32,
    ) -> (rate: Result<u32, InheritanceError>)
        ensures
            rate == Ok::<u32, InheritanceError>(
                blended_rate(principal_a, rate_a_bps, principal_b, rate_b_bps) as u32,
            ),
    {
        Ok(blended_rate_bps(principal_a, rate_a_bps, principal_b, rate_b_bps))
    }

    /// Annualized rate a plan has actually realized, in basis points.
    ///
    /// Derived from lifetime harvests against registered principal and the
    /// span the position has been open: the backward-looking counterpart to the
    /// forward-looking `project_*` functions.
    pub fn realized_yield_rate_bps(&self, env: &Env, plan_id: u64) -> (rate: Result<
        u32,
        InheritanceError,
    >)
        ensures
            rate == self@.realized_rate(env.timestamp, plan_id),
    {
        let state = match self.yields.states.get(plan_id) {
            Some(state) => state,
            None => {
                return Err(InheritanceError::PlanNotFound);
            },
        };
        if state.registered_principal == 0 || state.harvest_count == 0 {
            return Ok(0);
        }
        let span: u64 = env.timestamp.saturating_sub(state.registered_at);
        if span == 0 {
            return Ok(0);
        }
        let scaled: u64 = match mul_div(
            state.total_harvested,
            BPS_DENOMINATOR,
            state.registered_principal,
        ) {
            Ok(scaled) => scaled,
            Err(e) => {
                return Err(e);
            },
        };
        let annualized: u64 = match mul_div(scaled, SECONDS_PER_YEAR, span) {
            Ok(annualized) => annualized,
            Err(e) => {
                return Err(e);
            },
        };
        if annualized > u32::MAX as u64 {
            Ok(u32::MAX)
        } else {
            Ok(annualized as u32)
        }
    }

    /// Total value a plan controls: locked balance plus uncompounded credit.
    pub fn get_total_plan_value(&self, plan_id: u64) -> (value: Result<u64, InheritanceError>)
        ensures
            value == (if !self@.plans.records.contains_key(plan_id) {
                Err::<u64, InheritanceError>(InheritanceError::PlanNotFound)
            } else if self@.plan_value(plan_id) > u64::MAX {
                Err(InheritanceError::InvalidTotalAmount)
            } else {
                Ok(self@.plan_value(plan_id) as u64)
            }),
    {
        match self.plans.records.get(plan_id) {
            Some(plan) => safe_add(plan.total_amount, self.get_pending_credit(plan_id)),
            None => Err(InheritanceError::PlanNotFound),
        }
    }

    /// A plan's share of a pool, in basis points: its registered principal
    /// measured against the pool total the caller supplies.
    pub fn compute_plan_pool_share_bps(&self, plan_id: u64, pool_total: u64) -> (share: Result<
        u32,
        InheritanceError,
    >)
        ensures
            share == self@.pool_share(plan_id, pool_total),
    {
        let principal: u64 = match self.yields.states.get(plan_id) {
            Some(state) => state.registered_principal,
            None => {
                return Err(InheritanceError::PlanNotFound);
            },
        };
        if pool_total == 0 {
            return Ok(0);
        }
        let scaled: u64 = match safe_mul(principal, BPS_DENOMINATOR) {
            Ok(scaled) => scaled,
            Err(e) => {
                return Err(e);
            },
        };
        let share: u64 = scaled / pool_total;
        if share > u32::MAX as u64 {
            Ok(u32::MAX)
        } else {
            Ok(share as u32)
        }
    }

    /// Split a hypothetical harvest into `(net_to_plan, protocol_fee)` at a
    /// plan's configured fee rate, without executing anything.
    pub fn preview_harvest_split(&self, plan_id: u64, gross_amount: u64) -> (split: Result<
        (u64, u64),
        InheritanceError,
    >)
        requires
            self@.well_formed(),
        ensures
            split == (if self@.yields.states.contains_key(plan_id) {
                Ok::<(u64, u64), InheritanceError>(
                    (
                        self@.harvest_net(plan_id, gross_amount),
                        self@.harvest_fee(plan_id, gross_amount),
                    ),
                )
            } else {
                Err(InheritanceError::PlanNotFound)
            }),
    {
        match self.yields.states.get(plan_id) {
            Some(state) => {
                proof {
                    lemma_state_on_file(self@, plan_id);
                }
                split_performance_fee(gross_amount, state.config.performance_fee_bp)
            },
            None => Err(InheritanceError::PlanNotFound),
        }
    }

    /// Refuses a harvest before the pool is asked, or gives the pool.
    fn check_harvest_entry(&self, env: &Env, caller: Address, plan_id: u64) -> (pool: Result<
        Address,
        InheritanceError,
    >)
        ensures
            ({
                let error = self@.harvest_entry_error(env.timestamp, caller, plan_id);
                match pool {
                    Ok(p) => error is None && self@.lending_contract == Some(p),
                    Err(e) => error == Some(e),
                }
            }),
    {
        match self.check_harvester(caller, plan_id) {
            Some(e) => {
                return Err(e);
            },
            None => {},
        }
        match self.yields.states.get(plan_id) {
            Some(state) => {
                if state.paused {
                    return Err(InheritanceError::PlanNotActive);
                }
                if state.config.harvest_interval > 0 && env.timestamp < next_harvest_at(
                    state.last_harvest_at,
                    state.config.harvest_interval,
                ) {
                    return Err(InheritanceError::EmergencyCooldownActive);
                }
            },
            None => {
                return Err(InheritanceError::PlanNotFound);
            },
        }
        self.require_pool(true)
    }

    /// Refuses a harvest, or gives what it yields.
    fn check_harvest(&self, env: &Env, caller: Address, plan_id: u64, reply: PoolReply) -> (gross:
        Result<u64, InheritanceError>)
        requires
            self@.well_formed(),
        ensures
            ({
                let error = self@.harvest_error(env.timestamp, caller, plan_id, reply);
                match gross {
                    Ok(g) => error is None && reply.claimed == Some(g),
                    Err(e) => error == Some(e),
                }
            }),
    {
        match self.check_harvest_entry(env, caller, plan_id) {
            Ok(_) => {},
            Err(e) => {
                return Err(e);
            },
        }
        let pending: u64 = match reply.pending {
            Some(pending) => pending,
            None => {
                return Err(InheritanceError::FeeTransferFailed);
            },
        };
        let (auto_compound, fee_bp, min_amount, credit): (bool, u32, u64, u64) =
            match self.yields.states.get(plan_id) {
            Some(state) => (
                state.config.auto_compound,
                state.config.performance_fee_bp,
                state.config.min_harvest_amount,
                state.pending_credit,
            ),
            None => {
                return Err(InheritanceError::PlanNotFound);
            },
        };
        if pending == 0 || pending < min_amount {
            return Err(InheritanceError::NothingToClaim);
        }
        let gross: u64 = match reply.claimed {
            Some(gross) => gross,
            None => {
                return Err(InheritanceError::FeeTransferFailed);
            },
        };
        if gross == 0 {
            return Err(InheritanceError::NothingToClaim);
        }
        proof {
            lemma_state_on_file(self@, plan_id);
        }
        let net: u64 = match split_performance_fee(gross, fee_bp) {
            Ok((net, _)) => net,
            Err(e) => {
                return Err(e);
            },
        };
        let balance: u64 = match self.plans.records.get(plan_id) {
            Some(plan) => plan.total_amount,
            None => {
                return Err(InheritanceError::PlanNotFound);
            },
        };
        let target: u64 = if auto_compound {
            balance
        } else {
            credit
        };
        match safe_add(target, net) {
            Ok(_) => Ok(gross),
            Err(e) => Err(e),
        }
    }

    /// Makes the calls of a harvest to the pool.
    fn call_pool(&mut self, env: &Env, caller: Address, plan_id: u64, reply: PoolReply)
        ensures
            final(self)@ == old(self)@.pool_called(*env, caller, plan_id, reply),
    {
        let pool: Address = match self.check_harvest_entry(env, caller, plan_id) {
            Ok(pool) => pool,
            Err(_) => {
                return ;
            },
        };
        let min_amount: u64 = match self.yields.states.get(plan_id) {
            Some(state) => state.config.min_harvest_amount,
            None => 0,
        };
        self.call(InheritanceCall::GetAccruedPlanYield { pool, plan_id });
        match reply.pending {
            Some(pending) => {
                if pending > 0 && pending >= min_amount {
                    self.call(
                        InheritanceCall::ClaimPlanYield { pool, caller: env.contract, plan_id },
                    );
                }
            },
            None => {},
        }
    }

    /// Books a harvest that goes through.
    fn book_harvest(&mut self, env: &Env, caller: Address, plan_id: u64, reply: PoolReply, gross:
        u64)
        requires
            old(self)@.well_formed(),
            old(self)@.harvest_error(env.timestamp, caller, plan_id, reply) is None,
            reply.claimed == Some(gross),
        ensures
            final(self)@ == old(self)@.harvested(*env, caller, plan_id, reply),
            final(self)@.well_formed(),
    {
        let now: u64 = env.timestamp;
        let ghost start = self@;
        proof {
            lemma_state_on_file(self@, plan_id);
            lemma_plan_on_file(self@, plan_id);
        }
        self.call_pool(env, caller, plan_id, reply);
        let (auto_compound, fee_bp): (bool, u32) = match self.yields.states.get(plan_id) {
            Some(state) => (state.config.auto_compound, state.config.performance_fee_bp),
            None => (true, 0),
        };
        let (net, fee): (u64, u64) = match split_performance_fee(gross, fee_bp) {
            Ok(split) => split,
            Err(_) => (gross, 0),
        };
        let ghost called = self@;
        let plan = self.plans.records.at_mut(plan_id);
        if auto_compound {
            plan.total_amount = plan.total_amount + net;
        }
        let total_amount: u64 = plan.total_amount;
        proof {
            lemma_plan_update(called, plan_id, plan@);
        }
        let ghost funded = called.with_plan(plan_id, plan@);
        let state = self.yields.states.at_mut(plan_id);
        if auto_compound {
            state.total_compounded = state.total_compounded.saturating_add(net);
        } else {
            state.pending_credit = state.pending_credit + net;
        }
        state.last_harvest_at = now;
        state.last_harvest_amount = gross;
        state.total_harvested = state.total_harvested.saturating_add(gross);
        state.total_fees_paid = state.total_fees_paid.saturating_add(fee);
        state.harvest_count = state.harvest_count.saturating_add(1);
        if state.history.len() >= MAX_YIELD_HISTORY as usize {
            state.history.remove_first();
        }
        state.history.push(
            YieldHarvestRecord {
                gross_amount: gross,
                net_amount: net,
                fee_amount: fee,
                harvested_at: now,
                harvested_by: caller,
                compounded: auto_compound,
            },
        );
        proof {
            assert(state@ == start.harvested_state(now, caller, plan_id, gross));
            lemma_state_update(funded, plan_id, state@);
        }
        if fee > 0 {
            self.publish(
                InheritanceEvent::YieldFeeCollected(
                    YieldFeeCollectedEvent {
                        plan_id,
                        gross_amount: gross,
                        fee_amount: fee,
                        fee_bp,
                    },
                ),
            );
        }
        self.publish(
            InheritanceEvent::YieldHarvested(
                YieldHarvestedEvent {
                    plan_id,
                    yield_amount: gross,
                    new_total_amount: total_amount,
                    harvested_at: now,
                },
            ),
        );
    }

    /// Harvest accrued interest from the configured lending pool and compound
    /// it into the plan's locked vault balance. `reply` is what the pool answers.
    ///
    /// The claimed yield is added to the balance: it stays inside the vault and
    /// flows to beneficiaries on distribution, rather than being paid out to the
    /// caller. If the plan's policy has `auto_compound` off, the net lands in
    /// `pending_credit` for a later `compound_pending_yield` call instead. Open to
    /// the plan owner, an admin, and registered relayers.
    pub fn harvest_yield(&mut self, env: &Env, caller: Address, plan_id: u64, reply: PoolReply) -> (
    result: Result<u64, InheritanceError>)
        requires
            old(self)@.well_formed(),
            old(self)@.open_for_calls(),
            env.authorized(caller),
        ensures
            ({
                let error = old(self)@.harvest_error(env.timestamp, caller, plan_id, reply);
                match result {
                    Err(e) => error == Some(e) && final(self)@ == old(self)@,
                    Ok(gross) => error is None && reply.claimed == Some(gross) && final(self)@
                        == old(self)@.harvested(*env, caller, plan_id, reply),
                }
            }),
            final(self)@.well_formed(),
    {
        match self.check_harvest(env, caller, plan_id, reply) {
            Ok(gross) => {
                self.book_harvest(env, caller, plan_id, reply, gross);
                Ok(gross)
            },
            Err(e) => Err(e),
        }
    }

    /// Move a plan's `pending_credit` into its locked balance.
    ///
    /// Only relevant for plans with `auto_compound` switched off, where each
    /// harvest parks its net in `pending_credit` until the owner or an admin
    /// signs off on compounding it. Returns what was moved.
    pub fn compound_pending_yield(&mut self, env: &Env, caller: Address, plan_id: u64) -> (result:
        Result<u64, InheritanceError>)
        requires
            old(self)@.well_formed(),
            !old(self)@.access.paused,
            env.authorized(caller),
        ensures
            ({
                let error = old(self)@.compound_error(caller, plan_id);
                match result {
                    Err(e) => error == Some(e) && final(self)@ == old(self)@,
                    Ok(amount) => error is None && amount == old(
                        self,
                    )@.yields.states[plan_id].pending_credit && final(self)@ == old(
                        self,
                    )@.pending_compounded(env.timestamp, plan_id),
                }
            }),
            final(self)@.well_formed(),
    {
        match self.check_configure(caller, plan_id) {
            Some(e) => {
                return Err(e);
            },
            None => {},
        }
        let amount: u64 = match self.yields.states.get(plan_id) {
            Some(state) => state.pending_credit,
            None => {
                return Err(InheritanceError::PlanNotFound);
            },
        };
        if amount == 0 {
            return Err(InheritanceError::NothingToClaim);
        }
        let total: u64 = match self.plans.records.get(plan_id) {
            Some(plan) => match safe_add(plan.total_amount, amount) {
                Ok(total) => total,
                Err(e) => {
                    return Err(e);
                },
            },
            None => {
                return Err(InheritanceError::PlanNotFound);
            },
        };
        let ghost before = self@;
        proof {
            lemma_plan_on_file(self@, plan_id);
            lemma_state_on_file(self@, plan_id);
        }
        let plan = self.plans.records.at_mut(plan_id);
        plan.total_amount = total;
        proof {
            lemma_plan_update(before, plan_id, plan@);
        }
        let ghost funded = before.with_plan(plan_id, plan@);
        let state = self.yields.states.at_mut(plan_id);
        state.pending_credit = 0;
        state.total_compounded = state.total_compounded.saturating_add(amount);
        proof {
            lemma_state_update(funded, plan_id, state@);
        }
        self.publish(
            InheritanceEvent::YieldCompounded(
                YieldHarvestedEvent {
                    plan_id,
                    yield_amount: amount,
                    new_total_amount: total,
                    harvested_at: env.timestamp,
                },
            ),
        );
        Ok(amount)
    }

    /// Harvest several plans in one transaction, skipping the ones that are
    /// not currently harvestable. `replies` holds what the pool answers for each.
    ///
    /// A plan that is paused, on cooldown, or has nothing accrued is counted as a
    /// failure and stepped over rather than reverting the whole batch. Returns
    /// how many succeeded, how many failed, and the total that was harvested.
    pub fn harvest_yield_batch(
        &mut self,
        env: &Env,
        caller: Address,
        plan_ids: Vec<u64>,
        replies: Vec<PoolReply>,
    ) -> (result: Result<(u32, u32, u64), InheritanceError>)
        requires
            old(self)@.well_formed(),
            old(self)@.open_for_calls(),
            env.authorized(caller),
            plan_ids@.len() <= replies@.len(),
        ensures
            ({
                let n = plan_ids@.len() as int;
                let successes = old(self)@.harvest_successes(
                    *env,
                    caller,
                    plan_ids@,
                    replies@,
                    n,
                );
                match result {
                    Err(e) => n > MAX_YIELD_BATCH && e == InheritanceError::TooManyBeneficiaries
                        && final(self)@ == old(self)@,
                    Ok((success, fail, total)) => n <= MAX_YIELD_BATCH && success == successes
                        && fail == n - successes && total == old(self)@.harvest_total(
                        *env,
                        caller,
                        plan_ids@,
                        replies@,
                        n,
                    ) && final(self)@ == old(self)@.batch_harvested(
                        *env,
                        caller,
                        plan_ids@,
                        replies@,
                    ),
                }
            }),
            final(self)@.well_formed(),
    {
        if plan_ids.len() > MAX_YIELD_BATCH {
            return Err(InheritanceError::TooManyBeneficiaries);
        }
        let ghost start = self@;
        let mut success: u32 = 0;
        let mut fail: u32 = 0;
        let mut total: u64 = 0;
        let mut i: usize = 0;
        while i < plan_ids.len()
            invariant
                i <= plan_ids@.len() <= replies@.len(),
                plan_ids@.len() <= MAX_YIELD_BATCH,
                self@ == start.harvests_tried(*env, caller, plan_ids@, replies@, i as int),
                self@.well_formed(),
                success == start.harvest_successes(*env, caller, plan_ids@, replies@, i as int),
                success + fail == i,
                total == start.harvest_total(*env, caller, plan_ids@, replies@, i as int),
            decreases plan_ids@.len() - i,
        {
            let plan_id: u64 = plan_ids[i];
            let reply: PoolReply = replies[i];
            match self.check_harvest(env, caller, plan_id, reply) {
                Ok(gross) => {
                    self.book_harvest(env, caller, plan_id, reply, gross);
                    success += 1;
                    total = total.saturating_add(gross);
                },
                Err(_) => {
                    self.call_pool(env, caller, plan_id, reply);
                    fail += 1;
                },
            }
            i += 1;
        }
        self.publish(
            InheritanceEvent::YieldBatchHarvest(
                YieldBatchHarvestEvent {
                    success_count: success,
                    fail_count: fail,
                    total_harvested: total,
                },
            ),
        );
        Ok((success, fail, total))
    }
}

/// Who may do what with a plan's yield: its owner and admins change how it earns;
/// relayers may harvest and register as well, for a plan that is active and earns
/// yield. Fees are at most half. Relayers are named by admins, ten at most.
pub proof fn law_yield_calls_are_admitted(
    contract: InheritanceView,
    caller: Address,
    plan_id: u64,
    fee_bp: u32,
    relayer: Address,
)
    ensures
        ({
            let plan = contract.plans.records[plan_id];
            let filed = contract.plans.records.contains_key(plan_id);
            let known = contract.yields.states.contains_key(plan_id);
            let state = contract.yields.states[plan_id];
            let admin = contract.access.has(caller, Role::Admin);
            let configures = filed && (plan.owner == caller || admin);
            let harvests = filed && (plan.owner == caller || admin
                || contract.yields.relayers.contains(caller)) && plan.is_active && plan.earn_yield;
            let pool = contract.lending_contract is Some;
            &&& contract.register_position_error(caller, plan_id, true) is None <==> harvests
                && pool
            &&& contract.register_position_error(caller, plan_id, false) is Some
            &&& contract.sync_error(caller, plan_id, true) is None <==> harvests && pool && known
            &&& contract.sync_error(caller, plan_id, false) is Some
            &&& contract.unregister_position_error(caller, plan_id, true) is None <==> configures
                && known && plan.total_amount + state.pending_credit <= 0xffff_ffff_ffff_ffff
                && pool
            &&& contract.unregister_position_error(caller, plan_id, false) is Some
            &&& contract.yield_config_error(caller, plan_id, fee_bp) is None <==> configures
                && fee_bp <= 5_000 && known
            &&& contract.yield_pause_error(caller, plan_id) is None <==> configures && known
            &&& contract.compound_error(caller, plan_id) is None <==> configures && known
                && state.pending_credit > 0 && plan.total_amount + state.pending_credit
                <= 0xffff_ffff_ffff_ffff
            &&& contract.add_relayer_error(caller, relayer) is None <==> admin && (
            contract.yields.relayers.contains(relayer) || contract.yields.relayers.len() < 10)
            &&& contract.remove_relayer_error(caller, relayer) is None <==> admin
                && contract.yields.relayers.contains(relayer)
        }),
{
}

/// A position is registered with the part of the plan's balance that is not on loan:
/// the pool is told so, the watermark is now, and a plan that had no position starts
/// without totals, compounding everything, immediately and with no fee.
pub proof fn law_registering_positions(
    contract: InheritanceView,
    env: Env,
    plan_id: u64,
    asset: Address,
)
    ensures
        ({
            let plan = contract.plans.records[plan_id];
            let principal = contract.unencumbered(plan_id);
            let after = contract.position_registered(env, plan_id, asset);
            let state = after.yields.states[plan_id];
            &&& plan.total_amount >= plan.total_loaned ==> principal + plan.total_loaned
                == plan.total_amount
            &&& plan.total_amount < plan.total_loaned ==> principal == 0
            &&& state.asset == asset
            &&& state.registered_principal == principal
            &&& state.last_harvest_at == env.timestamp
            &&& contract.yields.states.contains_key(plan_id) ==> state == (PlanYieldStateView {
                asset,
                registered_principal: principal,
                last_harvest_at: env.timestamp,
                ..contract.yields.states[plan_id]
            })
            &&& !contract.yields.states.contains_key(plan_id) ==> {
                &&& state.registered_at == env.timestamp
                &&& state.total_harvested == 0
                &&& state.total_compounded == 0
                &&& state.total_fees_paid == 0
                &&& state.harvest_count == 0
                &&& state.last_harvest_amount == 0
                &&& state.pending_credit == 0
                &&& !state.paused
                &&& state.config.auto_compound
                &&& state.config.min_harvest_amount == 0
                &&& state.config.harvest_interval == 0
                &&& state.config.performance_fee_bp == 0
                &&& state.history.len() == 0
            }
            &&& after == (InheritanceView {
                yields: YieldBookView {
                    states: contract.yields.states.insert(plan_id, state),
                    ..contract.yields
                },
                calls: contract.calls.push(
                    InheritanceCall::RegisterPlanYield {
                        pool: contract.lending_contract->0,
                        caller: env.contract,
                        plan_id,
                        asset,
                        principal,
                    },
                ),
                events: contract.events.push(
                    InheritanceEventView::YieldPositionRegistered(
                        YieldPositionRegisteredEvent { plan_id, asset, principal },
                    ),
                ),
                ..contract
            })
        }),
{
}

/// Dropping a position adds the credit that waits to the plan's balance, tells the pool
/// and forgets the state. Compounding the credit adds it to the balance and to what was
/// compounded, and leaves none.
pub proof fn law_dropping_and_compounding(
    contract: InheritanceView,
    env: Env,
    caller: Address,
    plan_id: u64,
)
    ensures
        contract.unregister_position_error(caller, plan_id, true) is None ==> {
            let plan = contract.plans.records[plan_id];
            let after = contract.position_dropped(env, plan_id);
            let left = after.plans.records[plan_id];
            &&& left.total_amount == plan.total_amount
                + contract.yields.states[plan_id].pending_credit
            &&& after == (InheritanceView {
                plans: PlanBookView {
                    records: contract.plans.records.insert(
                        plan_id,
                        InheritancePlanView { total_amount: left.total_amount, ..plan },
                    ),
                    ..contract.plans
                },
                yields: YieldBookView {
                    states: contract.yields.states.remove(plan_id),
                    ..contract.yields
                },
                calls: contract.calls.push(
                    InheritanceCall::UnregisterPlanYield {
                        pool: contract.lending_contract->0,
                        caller: env.contract,
                        plan_id,
                    },
                ),
                ..contract
            })
        },
        contract.compound_error(caller, plan_id) is None ==> {
            let plan = contract.plans.records[plan_id];
            let state = contract.yields.states[plan_id];
            let after = contract.pending_compounded(env.timestamp, plan_id);
            let left = after.plans.records[plan_id];
            let kept = after.yields.states[plan_id];
            &&& left.total_amount == plan.total_amount + state.pending_credit
            &&& kept.pending_credit == 0
            &&& kept.total_compounded == (if state.total_compounded + state.pending_credit
                <= 0xffff_ffff_ffff_ffff {
                state.total_compounded + state.pending_credit
            } else {
                0xffff_ffff_ffff_ffff
            })
            &&& after == (InheritanceView {
                plans: PlanBookView {
                    records: contract.plans.records.insert(
                        plan_id,
                        InheritancePlanView { total_amount: left.total_amount, ..plan },
                    ),
                    ..contract.plans
                },
                yields: YieldBookView {
                    states: contract.yields.states.insert(
                        plan_id,
                        PlanYieldStateView {
                            pending_credit: 0,
                            total_compounded: kept.total_compounded,
                            ..state
                        },
                    ),
                    ..contract.yields
                },
                events: contract.events.push(
                    InheritanceEventView::YieldCompounded(
                        YieldHarvestedEvent {
                            plan_id,
                            yield_amount: state.pending_credit,
                            new_total_amount: left.total_amount,
                            harvested_at: env.timestamp,
                        },
                    ),
                ),
                ..contract
            })
        },
{
}

/// A harvest goes through exactly if the caller may harvest for the plan, which is
/// active and earns, has a position that is not suspended, and waited its interval;
/// if the pool reports something pending of at least the floor and pays something; and
/// if the balance that it raises can hold it.
pub proof fn law_harvests_are_admitted(
    contract: InheritanceView,
    now: u64,
    caller: Address,
    plan_id: u64,
    reply: PoolReply,
)
    ensures
        ({
            let plan = contract.plans.records[plan_id];
            let state = contract.yields.states[plan_id];
            let next = state.last_harvest_at + state.config.harvest_interval;
            let raised = if state.config.auto_compound {
                plan.total_amount
            } else {
                state.pending_credit
            };
            contract.harvest_error(now, caller, plan_id, reply) is None <==> {
                &&& contract.plans.records.contains_key(plan_id)
                &&& plan.owner == caller || contract.access.has(caller, Role::Admin)
                    || contract.yields.relayers.contains(caller)
                &&& plan.is_active
                &&& plan.earn_yield
                &&& contract.yields.states.contains_key(plan_id)
                &&& !state.paused
                &&& state.config.harvest_interval > 0 ==> now >= next || now
                    == 0xffff_ffff_ffff_ffff
                &&& contract.lending_contract is Some
                &&& reply.pending is Some && reply.pending->0 > 0 && reply.pending->0
                    >= state.config.min_harvest_amount
                &&& reply.claimed is Some && reply.claimed->0 > 0
                &&& raised + contract.harvest_net(plan_id, reply.claimed->0)
                    <= 0xffff_ffff_ffff_ffff
            }
        }),
{
}

/// Of what the pool pays, the fee that was agreed is withheld, rounded down, and the
/// rest is the plan's: added to the balance if it compounds at once, and put aside as
/// credit if not. Totals, count, history and watermark follow, the pool is asked and
/// then told to pay the contract, and the harvest is announced, with the fee where one
/// was withheld.
#[verifier::rlimit(40)]
pub proof fn law_harvesting(
    contract: InheritanceView,
    env: Env,
    caller: Address,
    plan_id: u64,
    reply: PoolReply,
)
    requires
        contract.well_formed(),
        contract.harvest_error(env.timestamp, caller, plan_id, reply) is None,
    ensures
        ({
            let gross = reply.claimed->0;
            let fee = contract.harvest_fee(plan_id, gross);
            let net = contract.harvest_net(plan_id, gross);
            let plan = contract.plans.records[plan_id];
            let state = contract.yields.states[plan_id];
            let after = contract.harvested(env, caller, plan_id, reply);
            let left = after.plans.records[plan_id];
            let kept = after.yields.states[plan_id];
            let pool = contract.lending_contract->0;
            let bps = state.config.performance_fee_bp;
            let harvest = InheritanceEventView::YieldHarvested(
                YieldHarvestedEvent {
                    plan_id,
                    yield_amount: gross,
                    new_total_amount: left.total_amount,
                    harvested_at: env.timestamp,
                },
            );
            let charge = InheritanceEventView::YieldFeeCollected(
                YieldFeeCollectedEvent {
                    plan_id,
                    gross_amount: gross,
                    fee_amount: fee,
                    fee_bp: bps,
                },
            );
            &&& fee + net == gross
            &&& fee * 10_000 <= gross * bps < (fee + 1) * 10_000
            &&& state.config.auto_compound ==> left.total_amount == plan.total_amount + net
                && kept.pending_credit == state.pending_credit
            &&& !state.config.auto_compound ==> left.total_amount == plan.total_amount
                && kept.pending_credit == state.pending_credit + net
            &&& left == (InheritancePlanView { total_amount: left.total_amount, ..plan })
            &&& kept.last_harvest_at == env.timestamp
            &&& kept.last_harvest_amount == gross
            &&& state.total_harvested + gross <= 0xffff_ffff_ffff_ffff ==> kept.total_harvested
                == state.total_harvested + gross
            &&& state.total_fees_paid + fee <= 0xffff_ffff_ffff_ffff ==> kept.total_fees_paid
                == state.total_fees_paid + fee
            &&& state.harvest_count < 0xffff_ffff ==> kept.harvest_count == state.harvest_count + 1
            &&& kept.history.len() <= 20
            &&& kept.history.last() == (YieldHarvestRecord {
                gross_amount: gross,
                net_amount: net,
                fee_amount: fee,
                harvested_at: env.timestamp,
                harvested_by: caller,
                compounded: state.config.auto_compound,
            })
            &&& state.history.len() < 20 ==> kept.history.drop_last() == state.history
            &&& state.history.len() == 20 ==> kept.history.drop_last() == state.history.drop_first()
            &&& kept.asset == state.asset
            &&& kept.registered_at == state.registered_at
            &&& kept.registered_principal == state.registered_principal
            &&& kept.paused == state.paused
            &&& kept.config == state.config
            &&& after == (InheritanceView {
                plans: PlanBookView {
                    records: contract.plans.records.insert(plan_id, left),
                    ..contract.plans
                },
                yields: YieldBookView {
                    states: contract.yields.states.insert(plan_id, kept),
                    ..contract.yields
                },
                calls: contract.calls.push(
                    InheritanceCall::GetAccruedPlanYield { pool, plan_id },
                ).push(InheritanceCall::ClaimPlanYield { pool, caller: env.contract, plan_id }),
                events: if fee > 0 {
                    contract.events.push(charge).push(harvest)
                } else {
                    contract.events.push(harvest)
                },
                ..contract
            })
        }),
{
    reveal(yields_bounded);
    let gross = reply.claimed->0;
    let bps = contract.yields.states[plan_id].config.performance_fee_bp;
    let history = contract.yields.states[plan_id].history;
    crate::math::lemma_share_bounded(gross, bps);
    assert(gross * bps <= gross * 10_000) by (nonlinear_arith)
        requires
            0 <= bps <= 10_000,
            0 <= gross,
    ;
    law_share_is_rounded_down(gross, bps);
    let kept = contract.harvested(env, caller, plan_id, reply).yields.states[plan_id].history;
    if history.len() < 20 {
        assert(kept.drop_last() =~= history);
    } else {
        assert(kept.drop_last() =~= history.drop_first());
    }
}

/// A harvest that fails leaves everything as it is, but for the calls to the pool: none
/// where the caller is refused, the question what is pending where there is too little,
/// and the request to pay where the pool then pays nothing.
pub proof fn law_failed_harvests(
    contract: InheritanceView,
    env: Env,
    caller: Address,
    plan_id: u64,
    reply: PoolReply,
)
    requires
        contract.harvest_error(env.timestamp, caller, plan_id, reply) is Some,
    ensures
        ({
            let after = contract.harvest_tried(env, caller, plan_id, reply);
            let pool = contract.lending_contract->0;
            let refused = contract.harvest_entry_error(env.timestamp, caller, plan_id) is Some;
            let enough = reply.pending is Some && reply.pending->0 > 0 && reply.pending->0
                >= contract.yields.states[plan_id].config.min_harvest_amount;
            let asked = contract.calls.push(InheritanceCall::GetAccruedPlanYield { pool, plan_id });
            after == (InheritanceView {
                calls: if refused {
                    contract.calls
                } else if enough {
                    asked.push(
                        InheritanceCall::ClaimPlanYield { pool, caller: env.contract, plan_id },
                    )
                } else {
                    asked
                },
                ..contract
            })
        }),
{
}

/// A batch harvests its plans one after the other, each with its reply and against what
/// the ones before it left; one that fails is passed over. What is announced at the end
/// is how many went through, how many did not, and what the first ones were paid.
pub proof fn law_harvest_batches(
    contract: InheritanceView,
    env: Env,
    caller: Address,
    plan_ids: Seq<u64>,
    replies: Seq<PoolReply>,
    n: int,
)
    requires
        0 <= n < plan_ids.len() <= 25,
    ensures
        ({
            let before = contract.harvests_tried(env, caller, plan_ids, replies, n);
            let after = contract.harvests_tried(env, caller, plan_ids, replies, n + 1);
            let fails = before.harvest_error(env.timestamp, caller, plan_ids[n], replies[n])
                is Some;
            let count = contract.harvest_successes(env, caller, plan_ids, replies, n);
            let total = contract.harvest_total(env, caller, plan_ids, replies, n);
            let count_after = contract.harvest_successes(env, caller, plan_ids, replies, n + 1);
            let total_after = contract.harvest_total(env, caller, plan_ids, replies, n + 1);
            &&& contract.harvests_tried(env, caller, plan_ids, replies, 0) == contract
            &&& contract.harvest_successes(env, caller, plan_ids, replies, 0) == 0
            &&& contract.harvest_total(env, caller, plan_ids, replies, 0) == 0
            &&& after == before.harvest_tried(env, caller, plan_ids[n], replies[n])
            &&& fails ==> count_after == count && total_after == total
            &&& !fails ==> {
                &&& after == before.harvested(env, caller, plan_ids[n], replies[n])
                &&& count_after == count + 1
                &&& total + replies[n].claimed->0 <= 0xffff_ffff_ffff_ffff ==> total_after == total
                    + replies[n].claimed->0
            }
        }),
        ({
            let after = contract.batch_harvested(env, caller, plan_ids, replies);
            let all = plan_ids.len() as int;
            let last = contract.harvests_tried(env, caller, plan_ids, replies, all);
            &&& after == (InheritanceView { events: after.events, ..last })
            &&& after.events.drop_last() == last.events
            &&& after.events.len() == last.events.len() + 1
            &&& {
                &&& after.events.last() matches InheritanceEventView::YieldBatchHarvest(event)
                &&& event.success_count == contract.harvest_successes(
                    env,
                    caller,
                    plan_ids,
                    replies,
                    all,
                )
                &&& event.success_count + event.fail_count == all
                &&& event.total_harvested == contract.harvest_total(
                    env,
                    caller,
                    plan_ids,
                    replies,
                    all,
                )
            }
        }),
{
    let all = plan_ids.len() as int;
    lemma_few_successes(contract, env, caller, plan_ids, replies, all);
    let after = contract.batch_harvested(env, caller, plan_ids, replies);
    let last = contract.harvests_tried(env, caller, plan_ids, replies, all);
    assert(after.events.drop_last() =~= last.events);
}

/// At most as many plans are harvested as were tried.
proof fn lemma_few_successes(
    contract: InheritanceView,
    env: Env,
    caller: Address,
    plan_ids: Seq<u64>,
    replies: Seq<PoolReply>,
    n: int,
)
    requires
        0 <= n,
    ensures
        contract.harvest_successes(env, caller, plan_ids, replies, n) <= n,
    decreases n,
{
    if n > 0 {
        lemma_few_successes(contract, env, caller, plan_ids, replies, n - 1);
    }
}

/// Relayers come and go, and harvesting is suspended and resumed, with an announcement
/// and nothing else changed.
pub proof fn law_relayers_and_pauses(
    contract: InheritanceView,
    relayer: Address,
    plan_id: u64,
    paused: bool,
)
    ensures
        contract.yields.relayers.contains(relayer) ==> contract.relayer_added(relayer) == contract,
        !contract.yields.relayers.contains(relayer) ==> contract.relayer_added(relayer) == (
        InheritanceView {
            yields: YieldBookView {
                relayers: contract.yields.relayers.push(relayer),
                ..contract.yields
            },
            events: contract.events.push(
                InheritanceEventView::YieldRelayerUpdated(
                    YieldRelayerUpdatedEvent { relayer, authorized: true },
                ),
            ),
            ..contract
        }),
        ({
            let after = contract.relayer_removed(relayer);
            after == (InheritanceView {
                yields: YieldBookView { relayers: after.yields.relayers, ..contract.yields },
                events: contract.events.push(
                    InheritanceEventView::YieldRelayerUpdated(
                        YieldRelayerUpdatedEvent { relayer, authorized: false },
                    ),
                ),
                ..contract
            })
        }),
        contract.yield_paused(plan_id, paused) == (InheritanceView {
            yields: YieldBookView {
                states: contract.yields.states.insert(
                    plan_id,
                    PlanYieldStateView { paused, ..contract.yields.states[plan_id] },
                ),
                ..contract.yields
            },
            events: contract.events.push(
                InheritanceEventView::YieldPaused(YieldPausedEvent { plan_id, paused }),
            ),
            ..contract
        }),
{
}

/// What a plan realized: harvests per registered principal in basis points, taken to a
/// year of 365 days over the time that the position is open, each rounded down; and
/// zero without principal, harvest or time. A share of a pool is the principal over the
/// pool's total in basis points, rounded down. What a plan controls is its balance and
/// the credit that waits.
pub proof fn law_yield_figures(contract: InheritanceView, now: u64, plan_id: u64, pool_total: u64)
    requires
        contract.yields.states.contains_key(plan_id),
    ensures
        ({
            let state = contract.yields.states[plan_id];
            let earned = contract.harvested_bps(plan_id);
            let span = now - state.registered_at;
            let known = state.registered_principal > 0 && state.harvest_count > 0 && span > 0;
            &&& state.registered_principal > 0 ==> earned * state.registered_principal
                <= state.total_harvested * 10_000 < (earned + 1) * state.registered_principal
            &&& !known ==> contract.realized_rate(now, plan_id) == Ok::<u32, InheritanceError>(0)
            &&& known ==> {
                &&& contract.realized_rate(now, plan_id) matches Ok(rate) ==> rate * span <= earned
                    * (365 * 86_400)
                &&& contract.realized_rate(now, plan_id) matches Ok(rate) ==> rate == 0xffff_ffff
                    || earned * (365 * 86_400) < (rate + 1) * span
                &&& contract.realized_rate(now, plan_id) is Err ==> earned > 0xffff_ffff_ffff_ffff
                    || earned * (365 * 86_400) > 0xffff_ffff_ffff_ffff * span
            }
        }),
        ({
            let principal = contract.yields.states[plan_id].registered_principal;
            &&& pool_total == 0 ==> contract.pool_share(plan_id, pool_total) == Ok::<
                u32,
                InheritanceError,
            >(0)
            &&& pool_total > 0 ==> {
                &&& contract.pool_share(plan_id, pool_total) is Err <==> principal * 10_000
                    > 0xffff_ffff_ffff_ffff
                &&& contract.pool_share(plan_id, pool_total) matches Ok(share) ==> share
                    * pool_total <= principal * 10_000
                &&& contract.pool_share(plan_id, pool_total) matches Ok(share) ==> share
                    == 0xffff_ffff || principal * 10_000 < (share + 1) * pool_total
            }
        }),
        contract.plan_value(plan_id) == contract.plans.records[plan_id].total_amount
            + contract.yields.states[plan_id].pending_credit,
{
    let state = contract.yields.states[plan_id];
    let principal = state.registered_principal as int;
    if principal > 0 {
        lemma_floor(state.total_harvested * 10_000, principal);
        let earned = contract.harvested_bps(plan_id);
        let span = now - state.registered_at;
        if span > 0 {
            let yearly = earned * 31_536_000;
            lemma_floor(yearly, span);
            let annual = yearly / span;
            lemma_capped(annual, span, yearly);
        }
    }
    if pool_total > 0 {
        lemma_floor(principal * 10_000, pool_total as int);
        lemma_capped((principal * 10_000) / pool_total as int, pool_total as int, principal * 10_000);
    }
}

/// A quotient that is capped stays below.
proof fn lemma_capped(quotient: int, divisor: int, dividend: int)
    requires
        divisor > 0,
        quotient * divisor <= dividend < (quotient + 1) * divisor,
    ensures
        quotient > 0xffff_ffff ==> 0xffff_ffff * divisor <= dividend,
        quotient > 0xffff_ffff_ffff_ffff ==> 0xffff_ffff_ffff_ffff * divisor < dividend,
{
    if quotient > 0xffff_ffff {
        assert(0xffff_ffff * divisor <= quotient * divisor) by (nonlinear_arith)
            requires
                quotient > 0xffff_ffff,
                divisor > 0,
        ;
    }
    if quotient > 0xffff_ffff_ffff_ffff {
        assert(0xffff_ffff_ffff_ffff * divisor < quotient * divisor) by (nonlinear_arith)
            requires
                quotient > 0xffff_ffff_ffff_ffff,
                divisor > 0,
        ;
    }
}

/// A history keeps the last twenty harvests in their order; the last harvest is the
/// last entry of it, and before the first one the time of registration stands for it.
pub proof fn law_history(state: PlanYieldStateView, record: YieldHarvestRecord)
    requires
        state.history.len() <= 20,
    ensures
        ({
            let after = history_with(state.history, record);
            &&& after.last() == record
            &&& after.len() == (if state.history.len() == 20 {
                20
            } else {
                state.history.len() + 1
            })
            &&& state.history.len() == 20 ==> after.drop_last() == state.history.drop_first()
            &&& state.history.len() < 20 ==> after.drop_last() == state.history
        }),
        state.history.len() == 0 ==> last_harvest(state) == state.registered_at,
        state.history.len() > 0 ==> last_harvest(state) == state.history.last().harvested_at,
{
    let after = history_with(state.history, record);
    if state.history.len() == 20 {
        assert(after.drop_last() =~= state.history.drop_first());
    } else {
        assert(after.drop_last() =~= state.history);
    }
}

/// A batch holds at most twenty-five harvests.
pub proof fn law_limits()
    ensures
        MAX_YIELD_BATCH == 25,
{
}

/// Why a call that is open to harvesters of a plan is refused: every reason that is
/// given holds.
pub proof fn law_reason_harvester(contract: InheritanceView, caller: Address, plan_id: u64)
    ensures
        match contract.harvester_error(caller, plan_id) {
            None => true,
            Some(InheritanceError::PlanNotFound) => !contract.plans.records.contains_key(plan_id),
            Some(InheritanceError::Unauthorized) => !contract.may_harvest(caller, plan_id),
            Some(InheritanceError::PlanNotActive) => !contract.plans.records[plan_id].is_active
                || !contract.plans.records[plan_id].earn_yield,
            Some(_) => false,
        },
{
}

/// Why a call that is open to those who configure a plan's yield is refused: every
/// reason that is given holds.
pub proof fn law_reason_configure(contract: InheritanceView, caller: Address, plan_id: u64)
    ensures
        match contract.configure_error(caller, plan_id) {
            None => true,
            Some(InheritanceError::PlanNotFound) => !contract.plans.records.contains_key(plan_id),
            Some(InheritanceError::Unauthorized) => !contract.may_configure_yield(caller, plan_id),
            Some(_) => false,
        },
{
}

/// Why the lending pool is not called, or what its failure means: every reason that is
/// given holds.
pub proof fn law_reason_pool(contract: InheritanceView, answered: bool)
    ensures
        match contract.pool_error(answered) {
            None => true,
            Some(InheritanceError::AdminNotSet) => contract.lending_contract is None,
            Some(InheritanceError::FeeTransferFailed) => !answered,
            Some(_) => false,
        },
{
}

/// Why a relayer is not added: every reason that is given holds.
pub proof fn law_reason_add_relayer(contract: InheritanceView, admin: Address, relayer: Address)
    ensures
        match contract.add_relayer_error(admin, relayer) {
            None => true,
            Some(InheritanceError::TooManyBeneficiaries) =>
                !contract.yields.relayers.contains(relayer) && contract.yields.relayers.len()
                >= MAX_YIELD_RELAYERS,
            Some(error) => contract.admin_error(admin) == Some(error),
        },
{
}

/// Why a relayer is not removed: every reason that is given holds.
pub proof fn law_reason_remove_relayer(contract: InheritanceView, admin: Address, relayer: Address)
    ensures
        match contract.remove_relayer_error(admin, relayer) {
            None => true,
            Some(InheritanceError::Unauthorized) => !contract.yields.relayers.contains(relayer),
            Some(error) => contract.admin_error(admin) == Some(error),
        },
{
}

/// Why a position is not registered anew: every reason that is given holds.
pub proof fn law_reason_sync(
    contract: InheritanceView,
    caller: Address,
    plan_id: u64,
    accepted: bool,
)
    ensures
        match contract.sync_error(caller, plan_id, accepted) {
            None => true,
            Some(InheritanceError::PlanNotFound) => !contract.yields.states.contains_key(plan_id)
                || contract.register_position_error(caller, plan_id, accepted)
                == Some(InheritanceError::PlanNotFound),
            Some(error) => contract.register_position_error(caller, plan_id, accepted)
                == Some(error),
        },
{
}

/// Why a position is not dropped: every reason that is given holds.
pub proof fn law_reason_unregister_position(
    contract: InheritanceView,
    caller: Address,
    plan_id: u64,
    accepted: bool,
)
    ensures
        match contract.unregister_position_error(caller, plan_id, accepted) {
            None => true,
            Some(InheritanceError::PlanNotFound) => !contract.yields.states.contains_key(plan_id)
                || contract.configure_error(caller, plan_id)
                == Some(InheritanceError::PlanNotFound),
            Some(InheritanceError::InvalidTotalAmount) =>
                contract.plans.records[plan_id].total_amount
                + contract.yields.states[plan_id].pending_credit > u64::MAX,
            Some(error) => contract.configure_error(caller, plan_id) == Some(error)
                || contract.pool_error(accepted) == Some(error),
        },
{
}

/// Why a policy is not set: every reason that is given holds.
pub proof fn law_reason_yield_config(
    contract: InheritanceView,
    caller: Address,
    plan_id: u64,
    performance_fee_bp: u32,
)
    ensures
        match contract.yield_config_error(caller, plan_id, performance_fee_bp) {
            None => true,
            Some(InheritanceError::InvalidAllocation) => performance_fee_bp
                > MAX_PERFORMANCE_FEE_BP,
            Some(InheritanceError::PlanNotFound) => !contract.yields.states.contains_key(plan_id)
                || contract.configure_error(caller, plan_id)
                == Some(InheritanceError::PlanNotFound),
            Some(error) => contract.configure_error(caller, plan_id) == Some(error),
        },
{
}

/// Why harvesting is not suspended or resumed: every reason that is given holds.
pub proof fn law_reason_yield_pause(contract: InheritanceView, caller: Address, plan_id: u64)
    ensures
        match contract.yield_pause_error(caller, plan_id) {
            None => true,
            Some(InheritanceError::PlanNotFound) => !contract.yields.states.contains_key(plan_id)
                || contract.configure_error(caller, plan_id)
                == Some(InheritanceError::PlanNotFound),
            Some(error) => contract.configure_error(caller, plan_id) == Some(error),
        },
{
}

/// Why a harvest is refused before the pool is asked: every reason that is given holds.
pub proof fn law_reason_harvest_entry(
    contract: InheritanceView,
    now: u64,
    caller: Address,
    plan_id: u64,
)
    ensures
        ({
            let state = contract.yields.states[plan_id];
            match contract.harvest_entry_error(now, caller, plan_id) {
                None => true,
                Some(InheritanceError::PlanNotFound) =>
                    !contract.yields.states.contains_key(plan_id)
                    || contract.harvester_error(caller, plan_id)
                    == Some(InheritanceError::PlanNotFound),
                Some(InheritanceError::PlanNotActive) => state.paused
                    || contract.harvester_error(caller, plan_id)
                    == Some(InheritanceError::PlanNotActive),
                Some(InheritanceError::EmergencyCooldownActive) => state.config.harvest_interval > 0
                    && now < next_harvest(state.last_harvest_at, state.config.harvest_interval),
                Some(InheritanceError::AdminNotSet) => contract.lending_contract is None,
                Some(error) => contract.harvester_error(caller, plan_id) == Some(error),
            }
        }),
{
}

/// Why pending credit is not compounded: every reason that is given holds.
pub proof fn law_reason_compound(contract: InheritanceView, caller: Address, plan_id: u64)
    ensures
        match contract.compound_error(caller, plan_id) {
            None => true,
            Some(InheritanceError::PlanNotFound) => !contract.yields.states.contains_key(plan_id)
                || contract.configure_error(caller, plan_id)
                == Some(InheritanceError::PlanNotFound),
            Some(InheritanceError::NothingToClaim) => contract.yields.states[plan_id].pending_credit
                == 0,
            Some(InheritanceError::InvalidTotalAmount) =>
                contract.plans.records[plan_id].total_amount
                + contract.yields.states[plan_id].pending_credit > u64::MAX,
            Some(error) => contract.configure_error(caller, plan_id) == Some(error),
        },
{
}

/// Why a harvest fails: every reason that is given holds.
pub proof fn law_reason_harvest(
    contract: InheritanceView,
    now: u64,
    caller: Address,
    plan_id: u64,
    reply: PoolReply,
)
    requires
        contract.harvest_entry_error(now, caller, plan_id) is None,
    ensures
        ({
            let least = contract.yields.states[plan_id].config.min_harvest_amount;
            match contract.harvest_error(now, caller, plan_id, reply) {
                None => true,
                Some(InheritanceError::FeeTransferFailed) => reply.pending is None || reply.claimed
                    is None,
                Some(InheritanceError::NothingToClaim) => reply.pending == Some(0u64) || (
                reply.pending is Some && reply.pending->0 < least) || reply.claimed == Some(0u64),
                Some(InheritanceError::InvalidTotalAmount) => reply.claimed is Some
                    && contract.harvest_target(plan_id) + contract.harvest_net(
                    plan_id,
                    reply.claimed->0,
                ) > 0xffff_ffff_ffff_ffff,
                Some(_) => false,
            }
        }),
{
}

} // verus!
