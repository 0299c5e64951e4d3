//! What triggers inheritance, and what becomes of a plan's loans then.
use vstd::prelude::*;

use crate::host::{Address, Env};
use crate::inheritance::state::{
    lemma_plan_on_file, lemma_plan_update, InheritanceContract, InheritanceView, PlanBookView,
    TriggerBookView,
};
use crate::inheritance::types::{
    InheritanceError, InheritanceEvent, InheritanceEventView, InheritancePlanView,
    InheritanceTriggerInfo, InheritanceTriggeredEvent, LiquidationFallbackEvent, LoanFreezeEvent,
    LoanRecallEvent, TriggerConditionMetEvent, TriggerConditionSetEvent, TriggerConditionType,
    TriggerConfig, TriggerConfigView,
};
use crate::list::{list_contains, Duplicate};
use crate::math::saturating_difference;
use crate::access::Role;

verus! {

/// Whether one condition is met.
pub open spec fn condition_met(
    config: TriggerConfigView,
    now: u64,
    condition: TriggerConditionType,
) -> bool {
    match condition {
        TriggerConditionType::Time => config.trigger_date > 0 && now >= config.trigger_date,
        TriggerConditionType::Inactivity => config.inactivity_period > 0 && config.last_activity > 0
            && now >= config.last_activity + config.inactivity_period,
        TriggerConditionType::Oracle => config.oracle_triggered,
        TriggerConditionType::Health => config.health_triggered,
        TriggerConditionType::Manual => false,
    }
}

/// Whether one of the configured conditions is met.
pub open spec fn conditions_met(config: TriggerConfigView, now: u64) -> bool {
    exists|i: int|
        0 <= i < config.conditions.len() && condition_met(
            config,
            now,
            #[trigger] config.conditions[i],
        )
}

/// Conditions with one more, unless it is among them.
pub open spec fn with_condition(
    conditions: Seq<TriggerConditionType>,
    condition: TriggerConditionType,
) -> Seq<TriggerConditionType> {
    if conditions.contains(condition) {
        conditions
    } else {
        conditions.push(condition)
    }
}

/// Inheritance that was triggered just now, with some funds on loan.
pub open spec fn fresh_trigger(now: u64, loaned: u64) -> InheritanceTriggerInfo {
    InheritanceTriggerInfo {
        triggered_at: now,
        loan_freeze_active: true,
        recall_attempted: false,
        liquidation_triggered: false,
        original_loaned: loaned,
        recalled_amount: 0,
        settled_amount: 0,
    }
}

impl InheritanceView {
    /// Inheritance was triggered for the plan.
    pub open spec fn triggered(self, plan_id: u64) -> bool {
        self.triggers.infos.contains_key(plan_id)
    }

    /// One of the conditions that are configured for the plan is met.
    pub open spec fn trigger_conditions_met(self, now: u64, plan_id: u64) -> bool {
        self.triggers.configs.contains_key(plan_id) && conditions_met(
            self.triggers.configs[plan_id],
            now,
        )
    }

    /// The conditions of the plan; none, if none were configured.
    pub open spec fn trigger_config(self, now: u64, plan_id: u64) -> TriggerConfigView {
        if self.triggers.configs.contains_key(plan_id) {
            self.triggers.configs[plan_id]
        } else {
            TriggerConfigView {
                conditions: Seq::empty(),
                trigger_date: 0,
                inactivity_period: 0,
                last_activity: now,
                oracle_address: None,
                oracle_triggered: false,
                health_triggered: false,
            }
        }
    }

    /// The contract with other conditions for a plan.
    pub open spec fn with_trigger_config(self, plan_id: u64, config: TriggerConfigView)
        -> InheritanceView {
        InheritanceView {
            triggers: TriggerBookView {
                configs: self.triggers.configs.insert(plan_id, config),
                ..self.triggers
            },
            ..self
        }
    }

    /// The contract with another state of triggered inheritance.
    pub open spec fn with_trigger_info(self, plan_id: u64, info: InheritanceTriggerInfo)
        -> InheritanceView {
        InheritanceView {
            triggers: TriggerBookView {
                infos: self.triggers.infos.insert(plan_id, info),
                ..self.triggers
            },
            ..self
        }
    }

    /// Why conditions are not set.
    pub open spec fn set_conditions_error(
        self,
        owner: Address,
        plan_id: u64,
        conditions: Seq<TriggerConditionType>,
        oracle_address: Option<Address>,
    ) -> Option<InheritanceError> {
        if self.owner_error(plan_id, owner) is Some {
            self.owner_error(plan_id, owner)
        } else if self.triggered(plan_id) {
            Some(InheritanceError::InheritanceAlreadyTriggered)
        } else if conditions.contains(TriggerConditionType::Oracle) && oracle_address is None {
            Some(InheritanceError::MissingRequiredField)
        } else {
            None
        }
    }

    /// Why a date is not set.
    pub open spec fn time_trigger_error(self, owner: Address, plan_id: u64, trigger_date: u64)
        -> Option<InheritanceError> {
        if self.owner_error(plan_id, owner) is Some {
            self.owner_error(plan_id, owner)
        } else if trigger_date == 0 {
            Some(InheritanceError::MissingRequiredField)
        } else if self.triggered(plan_id) {
            Some(InheritanceError::InheritanceAlreadyTriggered)
        } else {
            None
        }
    }

    /// Why a period of inactivity is not set.
    pub open spec fn inactivity_trigger_error(
        self,
        owner: Address,
        plan_id: u64,
        period_seconds: u64,
    ) -> Option<InheritanceError> {
        if self.owner_error(plan_id, owner) is Some {
            self.owner_error(plan_id, owner)
        } else if period_seconds == 0 {
            Some(InheritanceError::MissingRequiredField)
        } else {
            None
        }
    }

    /// Why activity is not recorded.
    pub open spec fn activity_error(self, owner: Address, plan_id: u64) -> Option<
        InheritanceError,
    > {
        if self.owner_error(plan_id, owner) is Some {
            self.owner_error(plan_id, owner)
        } else if !self.triggers.configs.contains_key(plan_id) {
            Some(InheritanceError::PlanNotFound)
        } else {
            None
        }
    }

    /// Why the report of an oracle is refused.
    pub open spec fn oracle_error(self, oracle: Address, plan_id: u64) -> Option<
        InheritanceError,
    > {
        if !self.triggers.configs.contains_key(plan_id) {
            Some(InheritanceError::PlanNotFound)
        } else if self.triggers.configs[plan_id].oracle_address != Some(oracle) {
            Some(InheritanceError::Unauthorized)
        } else {
            None
        }
    }

    /// A condition of the plan is met, and inheritance was not triggered yet.
    pub open spec fn auto_trigger_due(self, now: u64, plan_id: u64) -> bool {
        self.trigger_conditions_met(now, plan_id) && !self.triggered(plan_id)
    }

    /// Why inheritance is not triggered although a condition is met.
    pub open spec fn auto_trigger_error(self, now: u64, plan_id: u64) -> Option<
        InheritanceError,
    > {
        if !self.auto_trigger_due(now, plan_id) {
            None
        } else if !self.plans.records.contains_key(plan_id) {
            Some(InheritanceError::PlanNotFound)
        } else if !self.plans.records[plan_id].is_active {
            Some(InheritanceError::PlanNotActive)
        } else {
            None
        }
    }

    /// The contract after new loans against a plan were ruled out, and inheritance
    /// was recorded as triggered.
    pub open spec fn inheritance_opened(self, now: u64, plan_id: u64) -> InheritanceView {
        let plan = self.plans.records[plan_id];
        self.with_plan(
            plan_id,
            InheritancePlanView { is_lendable: false, ..plan },
        ).with_trigger_info(plan_id, fresh_trigger(now, plan.total_loaned))
    }

    /// The contract after its conditions were looked at: inheritance is triggered
    /// if one of them is met.
    pub open spec fn auto_triggered(self, now: u64, plan_id: u64) -> InheritanceView {
        if self.auto_trigger_due(now, plan_id) && self.auto_trigger_error(now, plan_id) is None {
            let plan = self.plans.records[plan_id];
            self.inheritance_opened(now, plan_id).with_event(
                InheritanceEventView::TriggerConditionMet(
                    TriggerConditionMetEvent { plan_id, triggered_at: now },
                ),
            ).with_event(
                InheritanceEventView::InheritanceTriggered(
                    InheritanceTriggeredEvent {
                        plan_id,
                        triggered_at: now,
                        outstanding_loans: plan.total_loaned,
                    },
                ),
            )
        } else {
            self
        }
    }

    /// The caller may trigger inheritance: the admin, the owner of the plan, or the
    /// trusted contact who has emergency access to it.
    pub open spec fn may_trigger(self, now: u64, caller: Address, plan_id: u64) -> bool {
        ||| self.admin == Some(caller)
        ||| self.plans.records.contains_key(plan_id) && self.plans.records[plan_id].owner == caller
        ||| self.plans.records.contains_key(plan_id) && self.emergency_held(now, plan_id)
            && self.emergency.access[plan_id].trusted_contact == caller
    }

    /// Why inheritance is not triggered.
    pub open spec fn trigger_error(self, now: u64, caller: Address, plan_id: u64) -> Option<
        InheritanceError,
    > {
        if !self.plans.records.contains_key(plan_id) {
            Some(InheritanceError::PlanNotFound)
        } else if !self.may_trigger(now, caller, plan_id) {
            Some(InheritanceError::Unauthorized)
        } else if !self.plans.records[plan_id].is_active || self.on_hold(plan_id) {
            Some(InheritanceError::PlanNotActive)
        } else if self.triggered(plan_id) {
            Some(InheritanceError::InheritanceAlreadyTriggered)
        } else {
            None
        }
    }

    /// The contract after inheritance was triggered: no new loans, and the trigger
    /// is on record.
    pub open spec fn inheritance_triggered(self, now: u64, plan_id: u64) -> InheritanceView {
        let plan = self.plans.records[plan_id];
        self.inheritance_opened(now, plan_id).with_event(
            InheritanceEventView::InheritanceTriggered(
                InheritanceTriggeredEvent {
                    plan_id,
                    triggered_at: now,
                    outstanding_loans: plan.total_loaned,
                },
            ),
        ).with_event(
            InheritanceEventView::LoanFreeze(LoanFreezeEvent { plan_id, frozen_at: now }),
        )
    }

    /// Why a step of the settlement of loans is refused before its amount is
    /// looked at.
    pub open spec fn settlement_error(self, admin: Address, plan_id: u64) -> Option<
        InheritanceError,
    > {
        if self.admin_error(admin) is Some {
            self.admin_error(admin)
        } else if !self.plans.records.contains_key(plan_id) {
            Some(InheritanceError::PlanNotFound)
        } else if !self.triggered(plan_id) {
            Some(InheritanceError::InheritanceNotTriggered)
        } else {
            None
        }
    }

    /// The contract after loans against a plan were frozen.
    pub open spec fn loans_frozen(self, now: u64, plan_id: u64) -> InheritanceView {
        self.with_plan(
            plan_id,
            InheritancePlanView { is_lendable: false, ..self.plans.records[plan_id] },
        ).with_trigger_info(
            plan_id,
            InheritanceTriggerInfo { loan_freeze_active: true, ..self.triggers.infos[plan_id] },
        ).with_event(InheritanceEventView::LoanFreeze(LoanFreezeEvent { plan_id, frozen_at: now }))
    }

    /// Why a recall is refused.
    pub open spec fn recall_error(self, admin: Address, plan_id: u64, recall_amount: u64) -> Option<
        InheritanceError,
    > {
        if self.settlement_error(admin, plan_id) is Some {
            self.settlement_error(admin, plan_id)
        } else if self.plans.records[plan_id].total_loaned == 0 {
            Some(InheritanceError::NoOutstandingLoans)
        } else if recall_amount == 0 || recall_amount > self.plans.records[plan_id].total_loaned {
            Some(InheritanceError::LoanRecallFailed)
        } else {
            None
        }
    }

    /// The contract after loaned funds came back.
    pub open spec fn loan_recalled(self, plan_id: u64, recall_amount: u64) -> InheritanceView {
        let plan = self.plans.records[plan_id];
        let info = self.triggers.infos[plan_id];
        let remaining = (plan.total_loaned - recall_amount) as u64;
        self.with_plan(
            plan_id,
            InheritancePlanView { total_loaned: remaining, ..plan },
        ).with_trigger_info(
            plan_id,
            InheritanceTriggerInfo {
                recall_attempted: true,
                recalled_amount: (info.recalled_amount + recall_amount) as u64,
                ..info
            },
        ).with_event(
            InheritanceEventView::LoanRecall(
                LoanRecallEvent {
                    plan_id,
                    recalled_amount: recall_amount,
                    remaining_loaned: remaining,
                },
            ),
        )
    }

    /// Why loans are not written off.
    pub open spec fn fallback_error(self, admin: Address, plan_id: u64) -> Option<
        InheritanceError,
    > {
        if self.settlement_error(admin, plan_id) is Some {
            self.settlement_error(admin, plan_id)
        } else if self.plans.records[plan_id].total_loaned == 0 {
            Some(InheritanceError::NoOutstandingLoans)
        } else {
            None
        }
    }

    /// The contract after outstanding loans were written off.
    pub open spec fn loans_written_off(self, plan_id: u64) -> InheritanceView {
        let plan = self.plans.records[plan_id];
        let info = self.triggers.infos[plan_id];
        let rest = saturating_difference(plan.total_amount, plan.total_loaned);
        self.with_plan(
            plan_id,
            InheritancePlanView { total_amount: rest, total_loaned: 0, ..plan },
        ).with_trigger_info(
            plan_id,
            InheritanceTriggerInfo {
                liquidation_triggered: true,
                settled_amount: (info.settled_amount + plan.total_loaned) as u64,
                ..info
            },
        ).with_event(
            InheritanceEventView::LiquidationFallback(
                LiquidationFallbackEvent {
                    plan_id,
                    settled_amount: plan.total_loaned,
                    claimable_amount: rest,
                },
            ),
        )
    }

    /// What beneficiaries can claim of a plan after its loans.
    pub open spec fn claimable_amount(self, plan_id: u64) -> u64 {
        let plan = self.plans.records[plan_id];
        saturating_difference(plan.total_amount, plan.total_loaned)
    }
}

/// Inheritance is triggered at most once: after it was triggered, by hand or by a
/// condition, neither can happen again, and no loans can be taken against the plan.
pub proof fn law_triggered_once(contract: InheritanceView, now: u64, caller: Address, plan_id: u64)
    requires
        contract.plans.records.contains_key(plan_id),
    ensures
        contract.trigger_error(now, caller, plan_id) is None ==> ({
            let after = contract.inheritance_triggered(now, plan_id);
            &&& after.trigger_error(now, caller, plan_id) is Some
            &&& !after.auto_trigger_due(now, plan_id)
            &&& !after.plans.records[plan_id].is_lendable
        }),
        contract.auto_trigger_due(now, plan_id) && contract.auto_trigger_error(now, plan_id) is None
            ==> ({
            let after = contract.auto_triggered(now, plan_id);
            &&& after.trigger_error(now, caller, plan_id) is Some
            &&& !after.auto_trigger_due(now, plan_id)
            &&& !after.plans.records[plan_id].is_lendable
        }),
{
}

/// Loaned funds are either recalled or written off: what was recalled and what is
/// still on loan make up what was on loan before, and writing the rest off leaves
/// beneficiaries what they could claim before it.
pub proof fn law_loans_are_settled(
    contract: InheritanceView,
    admin: Address,
    plan_id: u64,
    recall_amount: u64,
)
    ensures
        contract.recall_error(admin, plan_id, recall_amount) is None ==> ({
            let after = contract.loan_recalled(plan_id, recall_amount);
            after.plans.records[plan_id].total_loaned + recall_amount
                == contract.plans.records[plan_id].total_loaned
        }),
        contract.fallback_error(admin, plan_id) is None ==> ({
            let after = contract.loans_written_off(plan_id);
            &&& after.plans.records[plan_id].total_loaned == 0
            &&& after.claimable_amount(plan_id) == contract.claimable_amount(plan_id)
            &&& after.fallback_error(admin, plan_id) == Some(InheritanceError::NoOutstandingLoans)
        }),
{
}

/// An owner who keeps reporting activity is not taken for inactive: right after a
/// report a period of inactivity has not passed.
pub proof fn law_activity_postpones(contract: InheritanceView, now: u64, plan_id: u64)
    requires
        contract.triggers.configs.contains_key(plan_id),
    ensures
        ({
            let config = TriggerConfigView {
                last_activity: now,
                ..contract.triggers.configs[plan_id]
            };
            !condition_met(config, now, TriggerConditionType::Inactivity)
        }),
{
}

/// Opening inheritance keeps the contract well formed.
proof fn lemma_opened(contract: InheritanceView, now: u64, plan_id: u64)
    requires
        contract.well_formed(),
        contract.plans.records.contains_key(plan_id),
    ensures
        contract.inheritance_opened(now, plan_id).well_formed(),
{
    lemma_plan_on_file(contract, plan_id);
    lemma_plan_update(
        contract,
        plan_id,
        InheritancePlanView { is_lendable: false, ..contract.plans.records[plan_id] },
    );
}

/// Looking at the conditions of a plan keeps the contract well formed, and changes
/// nothing of the plan but whether it is lendable.
pub proof fn lemma_auto_triggered(contract: InheritanceView, now: u64, plan_id: u64)
    requires
        contract.well_formed(),
    ensures
        contract.auto_triggered(now, plan_id).well_formed(),
        contract.plans.records.contains_key(plan_id) ==> ({
            let after = contract.auto_triggered(now, plan_id).plans.records[plan_id];
            after == (InheritancePlanView {
                is_lendable: after.is_lendable,
                ..contract.plans.records[plan_id]
            })
        }),
{
    if contract.auto_trigger_due(now, plan_id) && contract.auto_trigger_error(now, plan_id) is None {
        lemma_opened(contract, now, plan_id);
    }
}

impl InheritanceContract {
    /// Whether one of the conditions that are configured for the plan is met.
    pub fn check_trigger_conditions(&self, env: &Env, plan_id: u64) -> (met: bool)
        ensures
            met == self@.trigger_conditions_met(env.timestamp, plan_id),
    {
        let config = match self.triggers.configs.get(plan_id) {
            Some(config) => config,
            None => {
                return false;
            },
        };
        let now: u64 = env.timestamp;
        let mut i: usize = 0;
        while i < config.conditions.len()
            invariant
                i <= config.conditions@.len(),
                now == env.timestamp,
                self@.triggers.configs.contains_key(plan_id),
                config@ == self@.triggers.configs[plan_id],
                forall|j: int|
                    0 <= j < i ==> !condition_met(config@, now, #[trigger] config@.conditions[j]),
            decreases config.conditions@.len() - i,
        {
            let met: bool = match config.conditions[i] {
                TriggerConditionType::Time => config.trigger_date > 0 && now >= config.trigger_date,
                TriggerConditionType::Inactivity => config.inactivity_period > 0
                    && config.last_activity > 0 && now >= config.last_activity && now
                    - config.last_activity >= config.inactivity_period,
                TriggerConditionType::Oracle => config.oracle_triggered,
                TriggerConditionType::Health => config.health_triggered,
                TriggerConditionType::Manual => false,
            };
            if met {
                proof {
                    assert(condition_met(config@, now, config@.conditions[i as int]));
                }
                return true;
            }
            i += 1;
        }
        false
    }

    /// The conditions that are configured for the plan.
    pub fn get_trigger_conditions(&self, plan_id: u64) -> (config: Option<TriggerConfig>)
        ensures
            match config {
                Some(c) => self@.triggers.configs.contains_key(plan_id) && c@
                    == self@.triggers.configs[plan_id],
                None => !self@.triggers.configs.contains_key(plan_id),
            },
    {
        match self.triggers.configs.get(plan_id) {
            Some(config) => Some(config.duplicate()),
            None => None,
        }
    }

    /// The conditions of the plan; none, if none were configured.
    fn trigger_config_or_none(&self, env: &Env, plan_id: u64) -> (config: TriggerConfig)
        ensures
            config@ == self@.trigger_config(env.timestamp, plan_id),
    {
        match self.triggers.configs.get(plan_id) {
            Some(config) => config.duplicate(),
            None => TriggerConfig {
                conditions: Vec::new(),
                trigger_date: 0,
                inactivity_period: 0,
                last_activity: env.timestamp,
                oracle_address: None,
                oracle_triggered: false,
                health_triggered: false,
            },
        }
    }

    /// Set the conditions on which inheritance is triggered. A condition on an
    /// oracle needs the oracle's address.
    pub fn set_trigger_conditions(
        &mut self,
        env: &Env,
        owner: Address,
        plan_id: u64,
        conditions: Vec<TriggerConditionType>,
        trigger_date: u64,
        inactivity_period: u64,
        oracle_address: Option<Address>,
    ) -> (result: Result<(), InheritanceError>)
        requires
            old(self)@.well_formed(),
            env.authorized(owner),
            conditions@.len() <= u32::MAX,
        ensures
            ({
                let error = old(self)@.set_conditions_error(
                    owner,
                    plan_id,
                    conditions@,
                    oracle_address,
                );
                match result {
                    Err(e) => error == Some(e) && final(self)@ == old(self)@,
                    Ok(()) => error is None && final(self)@ == old(self)@.with_trigger_config(
                        plan_id,
                        TriggerConfigView {
                            conditions: conditions@,
                            trigger_date,
                            inactivity_period,
                            last_activity: env.timestamp,
                            oracle_address,
                            oracle_triggered: false,
                            health_triggered: false,
                        },
                    ).with_event(
                        InheritanceEventView::TriggerConditionSet(
                            TriggerConditionSetEvent {
                                plan_id,
                                conditions_count: conditions@.len() as u32,
                            },
                        ),
                    ),
                }
            }),
            final(self)@.well_formed(),
    {
        match self.require_owner(plan_id, owner) {
            Err(e) => {
                return Err(e);
            },
            Ok(_) => {},
        }
        if self.triggers.infos.contains(plan_id) {
            return Err(InheritanceError::InheritanceAlreadyTriggered);
        }
        if list_contains(&conditions, &TriggerConditionType::Oracle) && oracle_address.is_none() {
            return Err(InheritanceError::MissingRequiredField);
        }
        let count: u32 = conditions.len() as u32;
        self.triggers.configs.set(
            plan_id,
            TriggerConfig {
                conditions,
                trigger_date,
                inactivity_period,
                last_activity: env.timestamp,
                oracle_address,
                oracle_triggered: false,
                health_triggered: false,
            },
        );
        self.publish(
            InheritanceEvent::TriggerConditionSet(
                TriggerConditionSetEvent { plan_id, conditions_count: count },
            ),
        );
        Ok(())
    }

    /// Trigger inheritance on a date.
    pub fn add_time_trigger(&mut self, env: &Env, owner: Address, plan_id: u64, trigger_date: u64)
        -> (result: Result<(), InheritanceError>)
        requires
            old(self)@.well_formed(),
            env.authorized(owner),
        ensures
            ({
                let error = old(self)@.time_trigger_error(owner, plan_id, trigger_date);
                let config = old(self)@.trigger_config(env.timestamp, plan_id);
                match result {
                    Err(e) => error == Some(e) && final(self)@ == old(self)@,
                    Ok(()) => error is None && final(self)@ == old(self)@.with_trigger_config(
                        plan_id,
                        TriggerConfigView {
                            conditions: with_condition(
                                config.conditions,
                                TriggerConditionType::Time,
                            ),
                            trigger_date,
                            ..config
                        },
                    ),
                }
            }),
            final(self)@.well_formed(),
    {
        match self.require_owner(plan_id, owner) {
            Err(e) => {
                return Err(e);
            },
            Ok(_) => {},
        }
        if trigger_date == 0 {
            return Err(InheritanceError::MissingRequiredField);
        }
        if self.triggers.infos.contains(plan_id) {
            return Err(InheritanceError::InheritanceAlreadyTriggered);
        }
        let mut config = self.trigger_config_or_none(env, plan_id);
        if !list_contains(&config.conditions, &TriggerConditionType::Time) {
            config.conditions.push(TriggerConditionType::Time);
        }
        config.trigger_date = trigger_date;
        self.triggers.configs.set(plan_id, config);
        Ok(())
    }

    /// Trigger inheritance after a period without activity of the owner.
    pub fn add_inactivity_trigger(
        &mut self,
        env: &Env,
        owner: Address,
        plan_id: u64,
        period_seconds: u64,
    ) -> (result: Result<(), InheritanceError>)
        requires
            old(self)@.well_formed(),
            env.authorized(owner),
        ensures
            ({
                let error = old(self)@.inactivity_trigger_error(owner, plan_id, period_seconds);
                let config = old(self)@.trigger_config(env.timestamp, plan_id);
                match result {
                    Err(e) => error == Some(e) && final(self)@ == old(self)@,
                    Ok(()) => error is None && final(self)@ == old(self)@.with_trigger_config(
                        plan_id,
                        TriggerConfigView {
                            conditions: with_condition(
                                config.conditions,
                                TriggerConditionType::Inactivity,
                            ),
                            inactivity_period: period_seconds,
                            last_activity: if config.last_activity == 0 {
                                env.timestamp
                            } else {
                                config.last_activity
                            },
                            ..config
                        },
                    ),
                }
            }),
            final(self)@.well_formed(),
    {
        match self.require_owner(plan_id, owner) {
            Err(e) => {
                return Err(e);
            },
            Ok(_) => {},
        }
        if period_seconds == 0 {
            return Err(InheritanceError::MissingRequiredField);
        }
        let mut config = self.trigger_config_or_none(env, plan_id);
        if !list_contains(&config.conditions, &TriggerConditionType::Inactivity) {
            config.conditions.push(TriggerConditionType::Inactivity);
        }
        config.inactivity_period = period_seconds;
        if config.last_activity == 0 {
            config.last_activity = env.timestamp;
        }
        self.triggers.configs.set(plan_id, config);
        Ok(())
    }

    /// Trigger inheritance on the report of an oracle.
    pub fn add_oracle_trigger(
        &mut self,
        env: &Env,
        owner: Address,
        plan_id: u64,
        oracle_address: Address,
    ) -> (result: Result<(), InheritanceError>)
        requires
            old(self)@.well_formed(),
            env.authorized(owner),
        ensures
            ({
                let error = old(self)@.owner_error(plan_id, owner);
                let config = old(self)@.trigger_config(env.timestamp, plan_id);
                match result {
                    Err(e) => error == Some(e) && final(self)@ == old(self)@,
                    Ok(()) => error is None && final(self)@ == old(self)@.with_trigger_config(
                        plan_id,
                        TriggerConfigView {
                            conditions: with_condition(
                                config.conditions,
                                TriggerConditionType::Oracle,
                            ),
                            oracle_address: Some(oracle_address),
                            ..config
                        },
                    ),
                }
            }),
            final(self)@.well_formed(),
    {
        match self.require_owner(plan_id, owner) {
            Err(e) => {
                return Err(e);
            },
            Ok(_) => {},
        }
        let mut config = self.trigger_config_or_none(env, plan_id);
        if !list_contains(&config.conditions, &TriggerConditionType::Oracle) {
            config.conditions.push(TriggerConditionType::Oracle);
        }
        config.oracle_address = Some(oracle_address);
        self.triggers.configs.set(plan_id, config);
        Ok(())
    }

    /// Trigger inheritance on the report of a health oracle.
    pub fn add_health_trigger(
        &mut self,
        env: &Env,
        owner: Address,
        plan_id: u64,
        oracle_address: Address,
    ) -> (result: Result<(), InheritanceError>)
        requires
            old(self)@.well_formed(),
            env.authorized(owner),
        ensures
            ({
                let error = old(self)@.owner_error(plan_id, owner);
                let config = old(self)@.trigger_config(env.timestamp, plan_id);
                match result {
                    Err(e) => error == Some(e) && final(self)@ == old(self)@,
                    Ok(()) => error is None && final(self)@ == old(self)@.with_trigger_config(
                        plan_id,
                        TriggerConfigView {
                            conditions: with_condition(
                                config.conditions,
                                TriggerConditionType::Health,
                            ),
                            oracle_address: Some(oracle_address),
                            ..config
                        },
                    ),
                }
            }),
            final(self)@.well_formed(),
    {
        match self.require_owner(plan_id, owner) {
            Err(e) => {
                return Err(e);
            },
            Ok(_) => {},
        }
        let mut config = self.trigger_config_or_none(env, plan_id);
        if !list_contains(&config.conditions, &TriggerConditionType::Health) {
            config.conditions.push(TriggerConditionType::Health);
        }
        config.oracle_address = Some(oracle_address);
        self.triggers.configs.set(plan_id, config);
        Ok(())
    }

    /// Record that the owner is active.
    pub fn record_activity(&mut self, env: &Env, owner: Address, plan_id: u64) -> (result: Result<
        (),
        InheritanceError,
    >)
        requires
            old(self)@.well_formed(),
            env.authorized(owner),
        ensures
            ({
                let error = old(self)@.activity_error(owner, plan_id);
                match result {
                    Err(e) => error == Some(e) && final(self)@ == old(self)@,
                    Ok(()) => error is None && final(self)@ == old(self)@.with_trigger_config(
                        plan_id,
                        TriggerConfigView {
                            last_activity: env.timestamp,
                            ..old(self)@.triggers.configs[plan_id]
                        },
                    ),
                }
            }),
            final(self)@.well_formed(),
    {
        match self.require_owner(plan_id, owner) {
            Err(e) => {
                return Err(e);
            },
            Ok(_) => {},
        }
        if !self.triggers.configs.contains(plan_id) {
            return Err(InheritanceError::PlanNotFound);
        }
        let config = self.triggers.configs.at_mut(plan_id);
        config.last_activity = env.timestamp;
        Ok(())
    }

    /// Record the report of the oracle.
    pub fn submit_oracle_trigger(&mut self, env: &Env, oracle: Address, plan_id: u64) -> (result:
        Result<(), InheritanceError>)
        requires
            old(self)@.well_formed(),
            env.authorized(oracle),
        ensures
            ({
                let error = old(self)@.oracle_error(oracle, plan_id);
                match result {
                    Err(e) => error == Some(e) && final(self)@ == old(self)@,
                    Ok(()) => error is None && final(self)@ == old(self)@.with_trigger_config(
                        plan_id,
                        TriggerConfigView {
                            oracle_triggered: true,
                            ..old(self)@.triggers.configs[plan_id]
                        },
                    ),
                }
            }),
            final(self)@.well_formed(),
    {
        match self.triggers.configs.get(plan_id) {
            Some(config) => {
                if config.oracle_address != Some(oracle) {
                    return Err(InheritanceError::Unauthorized);
                }
            },
            None => {
                return Err(InheritanceError::PlanNotFound);
            },
        }
        let config = self.triggers.configs.at_mut(plan_id);
        config.oracle_triggered = true;
        Ok(())
    }

    /// Record the report of the health oracle.
    pub fn submit_health_trigger(&mut self, env: &Env, oracle: Address, plan_id: u64) -> (result:
        Result<(), InheritanceError>)
        requires
            old(self)@.well_formed(),
            env.authorized(oracle),
        ensures
            ({
                let error = old(self)@.oracle_error(oracle, plan_id);
                match result {
                    Err(e) => error == Some(e) && final(self)@ == old(self)@,
                    Ok(()) => error is None && final(self)@ == old(self)@.with_trigger_config(
                        plan_id,
                        TriggerConfigView {
                            health_triggered: true,
                            ..old(self)@.triggers.configs[plan_id]
                        },
                    ),
                }
            }),
            final(self)@.well_formed(),
    {
        match self.triggers.configs.get(plan_id) {
            Some(config) => {
                if config.oracle_address != Some(oracle) {
                    return Err(InheritanceError::Unauthorized);
                }
            },
            None => {
                return Err(InheritanceError::PlanNotFound);
            },
        }
        let config = self.triggers.configs.at_mut(plan_id);
        config.health_triggered = true;
        Ok(())
    }

    /// Rules out new loans against the plan, and records that inheritance was
    /// triggered. Returns what is on loan.
    fn open_inheritance(&mut self, env: &Env, plan_id: u64) -> (loaned: u64)
        requires
            old(self)@.well_formed(),
            old(self)@.plans.records.contains_key(plan_id),
        ensures
            loaned == old(self)@.plans.records[plan_id].total_loaned,
            final(self)@ == old(self)@.inheritance_opened(env.timestamp, plan_id),
            final(self)@.well_formed(),
    {
        proof {
            lemma_opened(self@, env.timestamp, plan_id);
        }
        let plan = self.plans.records.at_mut(plan_id);
        let loaned: u64 = plan.total_loaned;
        plan.is_lendable = false;
        self.triggers.infos.set(
            plan_id,
            InheritanceTriggerInfo {
                triggered_at: env.timestamp,
                loan_freeze_active: true,
                recall_attempted: false,
                liquidation_triggered: false,
                original_loaned: loaned,
                recalled_amount: 0,
                settled_amount: 0,
            },
        );
        loaned
    }

    /// Trigger inheritance if one of the plan's conditions is met.
    pub fn auto_trigger_check(&mut self, env: &Env, plan_id: u64) -> (result: Result<
        (),
        InheritanceError,
    >)
        requires
            old(self)@.well_formed(),
        ensures
            ({
                let error = old(self)@.auto_trigger_error(env.timestamp, plan_id);
                match result {
                    Err(e) => error == Some(e),
                    Ok(()) => error is None,
                }
            }),
            final(self)@ == old(self)@.auto_triggered(env.timestamp, plan_id),
            final(self)@.well_formed(),
    {
        if !self.check_trigger_conditions(env, plan_id) {
            return Ok(());
        }
        if self.triggers.infos.contains(plan_id) {
            return Ok(());
        }
        match self.plans.records.get(plan_id) {
            Some(plan) => {
                if !plan.is_active {
                    return Err(InheritanceError::PlanNotActive);
                }
            },
            None => {
                return Err(InheritanceError::PlanNotFound);
            },
        }
        let now: u64 = env.timestamp;
        let loaned: u64 = self.open_inheritance(env, plan_id);
        self.publish(
            InheritanceEvent::TriggerConditionMet(
                TriggerConditionMetEvent { plan_id, triggered_at: now },
            ),
        );
        self.publish(
            InheritanceEvent::InheritanceTriggered(
                InheritanceTriggeredEvent {
                    plan_id,
                    triggered_at: now,
                    outstanding_loans: loaned,
                },
            ),
        );
        Ok(())
    }

    /// Trigger inheritance for a plan. This freezes new loans and initiates
    /// the loan recall process.
    ///
    /// Open to the admin, the owner, and the trusted contact who has emergency
    /// access; each must have authorised the call.
    pub fn trigger_inheritance(&mut self, env: &Env, caller: Address, plan_id: u64) -> (result:
        Result<(), InheritanceError>)
        requires
            old(self)@.well_formed(),
            old(self)@.open_for_calls(),
            old(self)@.may_trigger(env.timestamp, caller, plan_id) ==> env.authorized(caller),
        ensures
            ({
                let error = old(self)@.trigger_error(env.timestamp, caller, plan_id);
                match result {
                    Err(e) => error == Some(e) && final(self)@ == old(self)@,
                    Ok(()) => error is None && final(self)@ == old(self)@.inheritance_triggered(
                        env.timestamp,
                        plan_id,
                    ),
                }
            }),
            final(self)@.well_formed(),
    {
        let mut allowed: bool = self.admin == Some(caller);
        let active: bool = match self.plans.records.get(plan_id) {
            Some(plan) => {
                if plan.owner == caller {
                    allowed = true;
                }
                plan.is_active
            },
            None => {
                return Err(InheritanceError::PlanNotFound);
            },
        };
        if !allowed && !self.is_emergency_lapsed(env, plan_id) {
            match self.emergency.access.get(plan_id) {
                Some(record) => {
                    allowed = record.trusted_contact == caller;
                },
                None => {},
            }
        }
        if !allowed {
            return Err(InheritanceError::Unauthorized);
        }
        if !active || self.is_on_hold(plan_id) {
            return Err(InheritanceError::PlanNotActive);
        }
        if self.triggers.infos.contains(plan_id) {
            return Err(InheritanceError::InheritanceAlreadyTriggered);
        }
        let now: u64 = env.timestamp;
        let loaned: u64 = self.open_inheritance(env, plan_id);
        self.publish(
            InheritanceEvent::InheritanceTriggered(
                InheritanceTriggeredEvent {
                    plan_id,
                    triggered_at: now,
                    outstanding_loans: loaned,
                },
            ),
        );
        self.publish(
            InheritanceEvent::LoanFreeze(LoanFreezeEvent { plan_id, frozen_at: now }),
        );
        Ok(())
    }

    /// Refuses a step of the settlement of loans before its amount is looked at.
    pub fn check_settlement(&self, env: &Env, admin: Address, plan_id: u64) -> (error: Option<
        InheritanceError,
    >)
        requires
            env.authorized(admin),
        ensures
            error == self@.settlement_error(admin, plan_id),
    {
        match self.require_admin(env, admin) {
            Err(e) => {
                return Some(e);
            },
            Ok(()) => {},
        }
        if !self.plans.records.contains(plan_id) {
            return Some(InheritanceError::PlanNotFound);
        }
        if !self.triggers.infos.contains(plan_id) {
            return Some(InheritanceError::InheritanceNotTriggered);
        }
        None
    }

    /// Halt new borrowing against this plan's vault collateral.
    ///
    /// Triggering inheritance already does so. With this call the freeze can be
    /// confirmed (and re-applied) independently of the trigger.
    pub fn freeze_loans(&mut self, env: &Env, admin: Address, plan_id: u64) -> (result: Result<
        (),
        InheritanceError,
    >)
        requires
            old(self)@.well_formed(),
            !old(self)@.access.paused,
            env.authorized(admin),
        ensures
            ({
                let error = old(self)@.settlement_error(admin, plan_id);
                match result {
                    Err(e) => error == Some(e) && final(self)@ == old(self)@,
                    Ok(()) => error is None && final(self)@ == old(self)@.loans_frozen(
                        env.timestamp,
                        plan_id,
                    ),
                }
            }),
            final(self)@.well_formed(),
    {
        match self.check_settlement(env, admin, plan_id) {
            Some(e) => {
                return Err(e);
            },
            None => {},
        }
        proof {
            lemma_plan_on_file(self@, plan_id);
            lemma_plan_update(
                self@,
                plan_id,
                InheritancePlanView { is_lendable: false, ..self@.plans.records[plan_id] },
            );
        }
        let plan = self.plans.records.at_mut(plan_id);
        plan.is_lendable = false;
        let info = self.triggers.infos.at_mut(plan_id);
        info.loan_freeze_active = true;
        self.publish(
            InheritanceEvent::LoanFreeze(LoanFreezeEvent { plan_id, frozen_at: env.timestamp }),
        );
        Ok(())
    }

    /// Attempt to recall loaned funds back to the plan.
    /// Called by admin after loan repayment has been collected off-chain
    /// or via cross-contract calls to lending/borrowing contracts.
    pub fn recall_loan(&mut self, env: &Env, admin: Address, plan_id: u64, recall_amount: u64) -> (
    result: Result<(), InheritanceError>)
        requires
            old(self)@.well_formed(),
            env.authorized(admin),
            old(self)@.recall_error(admin, plan_id, recall_amount) is None ==> old(
                self,
            )@.triggers.infos[plan_id].recalled_amount + recall_amount <= u64::MAX,
        ensures
            ({
                let error = old(self)@.recall_error(admin, plan_id, recall_amount);
                match result {
                    Err(e) => error == Some(e) && final(self)@ == old(self)@,
                    Ok(()) => error is None && final(self)@ == old(self)@.loan_recalled(
                        plan_id,
                        recall_amount,
                    ),
                }
            }),
            final(self)@.well_formed(),
    {
        match self.check_settlement(env, admin, plan_id) {
            Some(e) => {
                return Err(e);
            },
            None => {},
        }
        proof {
            lemma_plan_on_file(self@, plan_id);
        }
        let ghost before = self@;
        let plan = self.plans.records.at_mut(plan_id);
        if plan.total_loaned == 0 {
            proof {
                assert(before.plans.records.insert(plan_id, plan@) =~= before.plans.records);
            }
            return Err(InheritanceError::NoOutstandingLoans);
        }
        if recall_amount == 0 || recall_amount > plan.total_loaned {
            proof {
                assert(before.plans.records.insert(plan_id, plan@) =~= before.plans.records);
            }
            return Err(InheritanceError::LoanRecallFailed);
        }
        plan.total_loaned = plan.total_loaned - recall_amount;
        let remaining: u64 = plan.total_loaned;
        proof {
            lemma_plan_update(before, plan_id, plan@);
        }
        let info = self.triggers.infos.at_mut(plan_id);
        info.recall_attempted = true;
        info.recalled_amount = info.recalled_amount + recall_amount;
        self.publish(
            InheritanceEvent::LoanRecall(
                LoanRecallEvent {
                    plan_id,
                    recalled_amount: recall_amount,
                    remaining_loaned: remaining,
                },
            ),
        );
        Ok(())
    }

    /// Write off loans that cannot be recalled, so that inheritance execution
    /// cannot be blocked by outstanding loans.
    pub fn liquidation_fallback(&mut self, env: &Env, admin: Address, plan_id: u64) -> (result:
        Result<(), InheritanceError>)
        requires
            old(self)@.well_formed(),
            env.authorized(admin),
            old(self)@.fallback_error(admin, plan_id) is None ==> old(
                self,
            )@.triggers.infos[plan_id].settled_amount + old(
                self,
            )@.plans.records[plan_id].total_loaned <= u64::MAX,
        ensures
            ({
                let error = old(self)@.fallback_error(admin, plan_id);
                match result {
                    Err(e) => error == Some(e) && final(self)@ == old(self)@,
                    Ok(()) => error is None && final(self)@ == old(self)@.loans_written_off(
                        plan_id,
                    ),
                }
            }),
            final(self)@.well_formed(),
    {
        match self.check_settlement(env, admin, plan_id) {
            Some(e) => {
                return Err(e);
            },
            None => {},
        }
        proof {
            lemma_plan_on_file(self@, plan_id);
        }
        let ghost before = self@;
        let plan = self.plans.records.at_mut(plan_id);
        if plan.total_loaned == 0 {
            proof {
                assert(before.plans.records.insert(plan_id, plan@) =~= before.plans.records);
            }
            return Err(InheritanceError::NoOutstandingLoans);
        }
        let unrecoverable: u64 = plan.total_loaned;
        plan.total_amount = plan.total_amount.saturating_sub(unrecoverable);
        plan.total_loaned = 0;
        let claimable: u64 = plan.total_amount;
        proof {
            lemma_plan_update(before, plan_id, plan@);
        }
        let info = self.triggers.infos.at_mut(plan_id);
        info.liquidation_triggered = true;
        info.settled_amount = info.settled_amount + unrecoverable;
        self.publish(
            InheritanceEvent::LiquidationFallback(
                LiquidationFallbackEvent {
                    plan_id,
                    settled_amount: unrecoverable,
                    claimable_amount: claimable,
                },
            ),
        );
        Ok(())
    }

    /// Query the inheritance trigger status for a plan.
    pub fn get_inheritance_trigger(&self, plan_id: u64) -> (info: Option<InheritanceTriggerInfo>)
        ensures
            info == (if self@.triggered(plan_id) {
                Some(self@.triggers.infos[plan_id])
            } else {
                None
            }),
    {
        match self.triggers.infos.get(plan_id) {
            Some(info) => Some(*info),
            None => None,
        }
    }

    /// Calculate the claimable amount for a plan, accounting for outstanding loans.
    /// Returns the amount available to beneficiaries after any loan deductions.
    pub fn get_claimable_amount(&self, plan_id: u64) -> (amount: Result<u64, InheritanceError>)
        ensures
            amount == (if self@.plans.records.contains_key(plan_id) {
                Ok::<u64, InheritanceError>(self@.claimable_amount(plan_id))
            } else {
                Err(InheritanceError::PlanNotFound)
            }),
    {
        match self.plans.records.get(plan_id) {
            Some(plan) => Ok(plan.total_amount.saturating_sub(plan.total_loaned)),
            None => Err(InheritanceError::PlanNotFound),
        }
    }
}

/// When a condition of a plan is met: a date that was set, once it has come; a period
/// of inactivity that was set, once it has passed since the last sign of life; the
/// report of the oracle, or that on health. One that is triggered by hand is never met
/// by itself. Of several conditions one is enough, and a plan without any has none met.
pub proof fn law_when_conditions_are_met(
    contract: InheritanceView,
    now: u64,
    plan_id: u64,
    other: u64,
)
    ensures
        ({
            let config = contract.triggers.configs[plan_id];
            let all = config.conditions;
            contract.trigger_conditions_met(now, plan_id) <==> {
                &&& contract.triggers.configs.contains_key(plan_id)
                &&& {
                    ||| all.contains(TriggerConditionType::Time) && 0 < config.trigger_date <= now
                    ||| all.contains(TriggerConditionType::Inactivity) && config.last_activity > 0
                        && config.inactivity_period > 0 && now - config.last_activity
                        >= config.inactivity_period
                    ||| all.contains(TriggerConditionType::Oracle) && config.oracle_triggered
                    ||| all.contains(TriggerConditionType::Health) && config.health_triggered
                }
            }
        }),
{
    let config = contract.triggers.configs[plan_id];
    let all = config.conditions;
    if conditions_met(config, now) {
        let i = choose|i: int|
            0 <= i < all.len() && condition_met(config, now, #[trigger] all[i]);
        assert(all.contains(all[i]));
    }
    if all.contains(TriggerConditionType::Time) {
        let i = all.index_of(TriggerConditionType::Time);
        assert(all[i] == TriggerConditionType::Time);
    }
    if all.contains(TriggerConditionType::Inactivity) {
        let i = all.index_of(TriggerConditionType::Inactivity);
        assert(all[i] == TriggerConditionType::Inactivity);
    }
    if all.contains(TriggerConditionType::Oracle) {
        let i = all.index_of(TriggerConditionType::Oracle);
        assert(all[i] == TriggerConditionType::Oracle);
    }
    if all.contains(TriggerConditionType::Health) {
        let i = all.index_of(TriggerConditionType::Health);
        assert(all[i] == TriggerConditionType::Health);
    }
}

/// Conditions are set by the owner of the plan alone: a list of them and a date only
/// while inheritance was not triggered, an oracle's condition only with the oracle, a
/// date and a period only if they are not zero. The oracle that was named, and nobody
/// else, reports.
pub proof fn law_conditions_are_for_owners(
    contract: InheritanceView,
    owner: Address,
    plan_id: u64,
    conditions: Seq<TriggerConditionType>,
    oracle: Option<Address>,
    seconds: u64,
)
    ensures
        ({
            let owns = contract.plans.records.contains_key(plan_id)
                && contract.plans.records[plan_id].owner == owner;
            let open = !contract.triggers.infos.contains_key(plan_id);
            let configured = contract.triggers.configs.contains_key(plan_id);
            &&& contract.set_conditions_error(owner, plan_id, conditions, oracle) is None <==> owns
                && open && (conditions.contains(TriggerConditionType::Oracle) ==> oracle is Some)
            &&& contract.time_trigger_error(owner, plan_id, seconds) is None <==> owns && open
                && seconds > 0
            &&& contract.inactivity_trigger_error(owner, plan_id, seconds) is None <==> owns
                && seconds > 0
            &&& contract.activity_error(owner, plan_id) is None <==> owns && configured
            &&& contract.oracle_error(owner, plan_id) is None <==> configured
                && contract.triggers.configs[plan_id].oracle_address == Some(owner)
        }),
{
}

/// A condition joins the others once, at the end; conditions of one plan leave all else
/// as it is; a plan without any starts with none of them, and counts as active now.
pub proof fn law_configuring(
    contract: InheritanceView,
    now: u64,
    plan_id: u64,
    config: TriggerConfigView,
    condition: TriggerConditionType,
)
    ensures
        ({
            let after = contract.with_trigger_config(plan_id, config);
            &&& after.triggers.configs == contract.triggers.configs.insert(plan_id, config)
            &&& after.triggers.infos == contract.triggers.infos
            &&& after == (InheritanceView { triggers: after.triggers, ..contract })
        }),
        ({
            let with = with_condition(config.conditions, condition);
            &&& with.contains(condition)
            &&& config.conditions.contains(condition) ==> with == config.conditions
            &&& !config.conditions.contains(condition) ==> with.drop_last() == config.conditions
                && with.last() == condition && with.len() == config.conditions.len() + 1
        }),
        contract.triggers.configs.contains_key(plan_id) ==> contract.trigger_config(now, plan_id)
            == contract.triggers.configs[plan_id],
        !contract.triggers.configs.contains_key(plan_id) ==> {
            let fresh = contract.trigger_config(now, plan_id);
            &&& fresh.conditions.len() == 0
            &&& fresh.trigger_date == 0
            &&& fresh.inactivity_period == 0
            &&& fresh.last_activity == now
            &&& fresh.oracle_address is None
            &&& !fresh.oracle_triggered
            &&& !fresh.health_triggered
        },
{
    if !config.conditions.contains(condition) {
        let with = with_condition(config.conditions, condition);
        assert(with[config.conditions.len() as int] == condition);
        assert(with.drop_last() =~= config.conditions);
    }
}

/// A condition that is met triggers inheritance for an active plan that was not
/// triggered before, and changes nothing otherwise: the time and what is on loan are on
/// record, no more loans are made against the plan, and both facts are announced. No
/// tokens move, and the amounts of the plan stay.
pub proof fn law_conditions_trigger(contract: InheritanceView, now: u64, plan_id: u64)
    ensures
        ({
            let plan = contract.plans.records[plan_id];
            let after = contract.auto_triggered(now, plan_id);
            let fires = contract.trigger_conditions_met(now, plan_id)
                && !contract.triggers.infos.contains_key(plan_id)
                && contract.plans.records.contains_key(plan_id) && plan.is_active;
            &&& !fires ==> after == contract
            &&& fires ==> after == (InheritanceView {
                plans: PlanBookView {
                    records: contract.plans.records.insert(
                        plan_id,
                        InheritancePlanView { is_lendable: false, ..plan },
                    ),
                    ..contract.plans
                },
                triggers: TriggerBookView {
                    infos: contract.triggers.infos.insert(
                        plan_id,
                        InheritanceTriggerInfo {
                            triggered_at: now,
                            loan_freeze_active: true,
                            recall_attempted: false,
                            liquidation_triggered: false,
                            original_loaned: plan.total_loaned,
                            recalled_amount: 0,
                            settled_amount: 0,
                        },
                    ),
                    ..contract.triggers
                },
                events: contract.events.push(
                    InheritanceEventView::TriggerConditionMet(
                        TriggerConditionMetEvent { plan_id, triggered_at: now },
                    ),
                ).push(
                    InheritanceEventView::InheritanceTriggered(
                        InheritanceTriggeredEvent {
                            plan_id,
                            triggered_at: now,
                            outstanding_loans: plan.total_loaned,
                        },
                    ),
                ),
                ..contract
            })
        }),
        contract.auto_trigger_error(now, plan_id) is Some <==> {
            &&& contract.trigger_conditions_met(now, plan_id)
            &&& !contract.triggers.infos.contains_key(plan_id)
            &&& !(contract.plans.records.contains_key(plan_id)
                && contract.plans.records[plan_id].is_active)
        },
{
}

/// Inheritance is triggered by hand by the admin, by the owner of the plan, or by the
/// trusted contact within the seven days of emergency access, and by nobody else; once,
/// and for an active plan under no hold. The trigger is on record, no more loans are
/// made against the plan, and both are announced; no tokens move.
pub proof fn law_triggering(contract: InheritanceView, now: u64, caller: Address, plan_id: u64)
    ensures
        ({
            let plan = contract.plans.records[plan_id];
            let access = contract.emergency.access[plan_id];
            contract.trigger_error(now, caller, plan_id) is None <==> {
                &&& contract.plans.records.contains_key(plan_id)
                &&& contract.admin == Some(caller) || plan.owner == caller || (
                contract.emergency.access.contains_key(plan_id) && now <= access.activated_at
                    + 604_800 && access.trusted_contact == caller)
                &&& plan.is_active
                &&& !contract.holds.freezes.contains_key(plan_id)
                &&& !contract.holds.legal_holds.contains_key(plan_id)
                &&& !contract.triggers.infos.contains_key(plan_id)
            }
        }),
        ({
            let plan = contract.plans.records[plan_id];
            let after = contract.inheritance_triggered(now, plan_id);
            after == (InheritanceView {
                plans: PlanBookView {
                    records: contract.plans.records.insert(
                        plan_id,
                        InheritancePlanView { is_lendable: false, ..plan },
                    ),
                    ..contract.plans
                },
                triggers: TriggerBookView {
                    infos: contract.triggers.infos.insert(
                        plan_id,
                        InheritanceTriggerInfo {
                            triggered_at: now,
                            loan_freeze_active: true,
                            recall_attempted: false,
                            liquidation_triggered: false,
                            original_loaned: plan.total_loaned,
                            recalled_amount: 0,
                            settled_amount: 0,
                        },
                    ),
                    ..contract.triggers
                },
                events: contract.events.push(
                    InheritanceEventView::InheritanceTriggered(
                        InheritanceTriggeredEvent {
                            plan_id,
                            triggered_at: now,
                            outstanding_loans: plan.total_loaned,
                        },
                    ),
                ).push(
                    InheritanceEventView::LoanFreeze(LoanFreezeEvent { plan_id, frozen_at: now }),
                ),
                ..contract
            })
        }),
{
}

/// Loans of a plan whose inheritance was triggered are settled by admins alone. A
/// recall takes a positive amount of at most what is on loan; a write-off needs
/// something on loan.
pub proof fn law_settlement_is_for_admins(
    contract: InheritanceView,
    admin: Address,
    plan_id: u64,
    amount: u64,
)
    ensures
        ({
            let open = contract.access.has(admin, Role::Admin)
                && contract.plans.records.contains_key(plan_id)
                && contract.triggers.infos.contains_key(plan_id);
            let loaned = contract.plans.records[plan_id].total_loaned;
            &&& contract.settlement_error(admin, plan_id) is None <==> open
            &&& contract.recall_error(admin, plan_id, amount) is None <==> open && 0 < amount
                <= loaned
            &&& contract.fallback_error(admin, plan_id) is None <==> open && loaned > 0
        }),
{
}

/// A recall brings an amount back: that much less is on loan, that much more was
/// recalled, and what the vault holds in all is the same. A write-off takes what is on
/// loan out of the vault. A freeze stops new loans. Each is announced, and leaves all
/// else as it is.
pub proof fn law_settling_loans(
    contract: InheritanceView,
    admin: Address,
    now: u64,
    plan_id: u64,
    amount: u64,
)
    requires
        contract.settlement_error(admin, plan_id) is None,
    ensures
        ({
            let plan = contract.plans.records[plan_id];
            let info = contract.triggers.infos[plan_id];
            let after = contract.loans_frozen(now, plan_id);
            &&& after.plans.records == contract.plans.records.insert(
                plan_id,
                InheritancePlanView { is_lendable: false, ..plan },
            )
            &&& after.triggers.infos == contract.triggers.infos.insert(
                plan_id,
                InheritanceTriggerInfo { loan_freeze_active: true, ..info },
            )
            &&& settles(contract, after)
            &&& after.events == contract.events.push(
                InheritanceEventView::LoanFreeze(LoanFreezeEvent { plan_id, frozen_at: now }),
            )
        }),
        contract.recall_error(admin, plan_id, amount) is None ==> {
            let plan = contract.plans.records[plan_id];
            let info = contract.triggers.infos[plan_id];
            let after = contract.loan_recalled(plan_id, amount);
            let left = after.plans.records[plan_id];
            let noted = after.triggers.infos[plan_id];
            &&& left.total_loaned + amount == plan.total_loaned
            &&& left == (InheritancePlanView { total_loaned: left.total_loaned, ..plan })
            &&& after.plans.records == contract.plans.records.insert(plan_id, left)
            &&& noted == (InheritanceTriggerInfo {
                recall_attempted: true,
                recalled_amount: noted.recalled_amount,
                ..info
            })
            &&& info.recalled_amount + amount <= 0xffff_ffff_ffff_ffff ==> noted.recalled_amount
                == info.recalled_amount + amount
            &&& after.triggers.infos == contract.triggers.infos.insert(plan_id, noted)
            &&& settles(contract, after)
            &&& after.events == contract.events.push(
                InheritanceEventView::LoanRecall(
                    LoanRecallEvent {
                        plan_id,
                        recalled_amount: amount,
                        remaining_loaned: left.total_loaned,
                    },
                ),
            )
        },
        contract.fallback_error(admin, plan_id) is None ==> {
            let plan = contract.plans.records[plan_id];
            let info = contract.triggers.infos[plan_id];
            let after = contract.loans_written_off(plan_id);
            let left = after.plans.records[plan_id];
            let noted = after.triggers.infos[plan_id];
            &&& left.total_loaned == 0
            &&& plan.total_amount >= plan.total_loaned ==> left.total_amount + plan.total_loaned
                == plan.total_amount
            &&& plan.total_amount < plan.total_loaned ==> left.total_amount == 0
            &&& left == (InheritancePlanView {
                total_amount: left.total_amount,
                total_loaned: 0,
                ..plan
            })
            &&& after.plans.records == contract.plans.records.insert(plan_id, left)
            &&& noted == (InheritanceTriggerInfo {
                liquidation_triggered: true,
                settled_amount: noted.settled_amount,
                ..info
            })
            &&& info.settled_amount + plan.total_loaned <= 0xffff_ffff_ffff_ffff
                ==> noted.settled_amount == info.settled_amount + plan.total_loaned
            &&& after.triggers.infos == contract.triggers.infos.insert(plan_id, noted)
            &&& settles(contract, after)
            &&& after.events == contract.events.push(
                InheritanceEventView::LiquidationFallback(
                    LiquidationFallbackEvent {
                        plan_id,
                        settled_amount: plan.total_loaned,
                        claimable_amount: left.total_amount,
                    },
                ),
            )
        },
        ({
            let plan = contract.plans.records[plan_id];
            contract.claimable_amount(plan_id) == (if plan.total_amount > plan.total_loaned {
                plan.total_amount - plan.total_loaned
            } else {
                0
            })
        }),
{
}

/// Nothing but plans, the record of the trigger and the events differs.
pub open spec fn settles(before: InheritanceView, after: InheritanceView) -> bool {
    after == (InheritanceView {
        plans: PlanBookView {
            records: after.plans.records,
            ..before.plans
        },
        triggers: TriggerBookView { infos: after.triggers.infos, ..before.triggers },
        events: after.events,
        ..before
    })
}

/// Why conditions are not set: every reason that is given holds.
pub proof fn law_reason_set_conditions(
    contract: InheritanceView,
    owner: Address,
    plan_id: u64,
    conditions: Seq<TriggerConditionType>,
    oracle_address: Option<Address>,
)
    ensures
        match contract.set_conditions_error(owner, plan_id, conditions, oracle_address) {
            None => true,
            Some(InheritanceError::InheritanceAlreadyTriggered) => contract.triggered(plan_id),
            Some(InheritanceError::MissingRequiredField) =>
                conditions.contains(TriggerConditionType::Oracle) && oracle_address is None,
            Some(error) => contract.owner_error(plan_id, owner) == Some(error),
        },
{
}

/// Why a date is not set: every reason that is given holds.
pub proof fn law_reason_time_trigger(
    contract: InheritanceView,
    owner: Address,
    plan_id: u64,
    trigger_date: u64,
)
    ensures
        match contract.time_trigger_error(owner, plan_id, trigger_date) {
            None => true,
            Some(InheritanceError::MissingRequiredField) => trigger_date == 0,
            Some(InheritanceError::InheritanceAlreadyTriggered) => contract.triggered(plan_id),
            Some(error) => contract.owner_error(plan_id, owner) == Some(error),
        },
{
}

/// Why a period of inactivity is not set: every reason that is given holds.
pub proof fn law_reason_inactivity_trigger(
    contract: InheritanceView,
    owner: Address,
    plan_id: u64,
    period_seconds: u64,
)
    ensures
        match contract.inactivity_trigger_error(owner, plan_id, period_seconds) {
            None => true,
            Some(InheritanceError::MissingRequiredField) => period_seconds == 0,
            Some(error) => contract.owner_error(plan_id, owner) == Some(error),
        },
{
}

/// Why activity is not recorded: every reason that is given holds.
pub proof fn law_reason_activity(contract: InheritanceView, owner: Address, plan_id: u64)
    ensures
        match contract.activity_error(owner, plan_id) {
            None => true,
            Some(InheritanceError::PlanNotFound) => !contract.triggers.configs.contains_key(plan_id)
                || contract.owner_error(plan_id, owner) == Some(InheritanceError::PlanNotFound),
            Some(error) => contract.owner_error(plan_id, owner) == Some(error),
        },
{
}

/// Why the report of an oracle is refused: every reason that is given holds.
pub proof fn law_reason_oracle(contract: InheritanceView, oracle: Address, plan_id: u64)
    ensures
        match contract.oracle_error(oracle, plan_id) {
            None => true,
            Some(InheritanceError::PlanNotFound) =>
                !contract.triggers.configs.contains_key(plan_id),
            Some(InheritanceError::Unauthorized) =>
                contract.triggers.configs[plan_id].oracle_address != Some(oracle),
            Some(_) => false,
        },
{
}

/// Why inheritance is not triggered although a condition is met: every reason that is
/// given holds.
pub proof fn law_reason_auto_trigger(contract: InheritanceView, now: u64, plan_id: u64)
    ensures
        match contract.auto_trigger_error(now, plan_id) {
            None => true,
            Some(InheritanceError::PlanNotFound) => !contract.plans.records.contains_key(plan_id),
            Some(InheritanceError::PlanNotActive) => !contract.plans.records[plan_id].is_active,
            Some(_) => false,
        },
{
}

/// Why inheritance is not triggered: every reason that is given holds.
pub proof fn law_reason_trigger(contract: InheritanceView, now: u64, caller: Address, plan_id: u64)
    ensures
        match contract.trigger_error(now, caller, plan_id) {
            None => true,
            Some(InheritanceError::PlanNotFound) => !contract.plans.records.contains_key(plan_id),
            Some(InheritanceError::Unauthorized) => !contract.may_trigger(now, caller, plan_id),
            Some(InheritanceError::PlanNotActive) => !contract.plans.records[plan_id].is_active
                || contract.on_hold(plan_id),
            Some(InheritanceError::InheritanceAlreadyTriggered) => contract.triggered(plan_id),
            Some(_) => false,
        },
{
}

/// Why a step of the settlement of loans is refused before its amount is looked at:
/// every reason that is given holds.
pub proof fn law_reason_settlement(contract: InheritanceView, admin: Address, plan_id: u64)
    ensures
        match contract.settlement_error(admin, plan_id) {
            None => true,
            Some(InheritanceError::PlanNotFound) => !contract.plans.records.contains_key(plan_id),
            Some(InheritanceError::InheritanceNotTriggered) => !contract.triggered(plan_id),
            Some(error) => contract.admin_error(admin) == Some(error),
        },
{
}

/// Why a recall is refused: every reason that is given holds.
pub proof fn law_reason_recall(
    contract: InheritanceView,
    admin: Address,
    plan_id: u64,
    recall_amount: u64,
)
    ensures
        match contract.recall_error(admin, plan_id, recall_amount) {
            None => true,
            Some(InheritanceError::NoOutstandingLoans) =>
                contract.plans.records[plan_id].total_loaned == 0,
            Some(InheritanceError::LoanRecallFailed) => recall_amount == 0 || recall_amount
                > contract.plans.records[plan_id].total_loaned,
            Some(error) => contract.settlement_error(admin, plan_id) == Some(error),
        },
{
}

/// Why loans are not written off: every reason that is given holds.
pub proof fn law_reason_fallback(contract: InheritanceView, admin: Address, plan_id: u64)
    ensures
        match contract.fallback_error(admin, plan_id) {
            None => true,
            Some(InheritanceError::NoOutstandingLoans) =>
                contract.plans.records[plan_id].total_loaned == 0,
            Some(error) => contract.settlement_error(admin, plan_id) == Some(error),
        },
{
}

} // verus!
