//! Plans: creation, funding, ownership, and the lists in which they are found.
use vstd::prelude::*;
use vstd::utf8::is_ascii_chars_encode_utf8;

#[allow(unused_imports)]
use vstd::string::StringSliceAdditionalSpecFns;

use crate::access::Role;
use crate::host::{Address, Env};
use crate::inheritance::beneficiaries::{
    all_texts_fit, first_making_error, inputs_error, lemma_made_allocations, made_beneficiaries, salts_filed,
};
use crate::inheritance::emergency::{emergency_limit, emergency_limit_of};
use crate::inheritance::hashing::Digest;
use crate::inheritance::state::{
    deactivated_listed, lemma_plan_on_file, lemma_plan_update, list_of, owners_listed, plan_valid,
    plans_valid, ClaimBookView, InheritanceContract, InheritanceView, PlanBookView,
};
use crate::inheritance::types::{
    BeneficiaryInput, BeneficiaryInputView, CreateInheritancePlanParams,
    CreateInheritancePlanParamsView, GracePeriodUpdatedEvent, InheritanceCall, InheritanceError,
    InheritanceEvent, InheritanceEventView, InheritancePlan, InheritancePlanView,
    PlanDeactivatedEvent, PlanOwnershipTransferredEvent, VaultDepositEvent,
    VaultLendableChangedEvent, VaultWithdrawEvent,
};
use crate::list::{
    append_text, lemma_push_contains, lemma_without_contains, lemma_without_distinct,
    list_contains, list_without, same_bytes, without, Duplicate, List,
};
use crate::math::{bps_share, lemma_share_bounded, saturating_difference, share_bps};

verus! {

/// Fee for creating a plan: 2%.
pub const CREATION_FEE_BP: u32 = 200;

/// Longest description of a plan.
pub const MAX_DESCRIPTION_LEN: usize = 500;

/// Shortest grace period that can be set: seven days.
pub const MIN_GRACE_PERIOD_SECONDS: u64 = 604_800;

/// Longest grace period that can be set: five years.
pub const MAX_GRACE_PERIOD_SECONDS: u64 = 157_680_000;

/// The one asset in which plans are held.
pub open spec fn usdc() -> Seq<u8> {
    "USDC".spec_bytes()
}

/// The one asset in which plans are held.
fn usdc_symbol() -> (symbol: Vec<u8>)
    ensures
        symbol@ == usdc(),
{
    let mut symbol: Vec<u8> = Vec::new();
    append_text(&mut symbol, "USDC");
    proof {
        assert(symbol@ =~= usdc());
    }
    symbol
}

/// What creating a plan costs.
pub open spec fn creation_fee(total_amount: u64) -> u64 {
    bps_share(total_amount, CREATION_FEE_BP)
}

/// Why the general terms of a plan are refused.
pub open spec fn plan_inputs_error(
    plan_name: Seq<u8>,
    description: Seq<u8>,
    asset_type: Seq<u8>,
    total_amount: u64,
) -> Option<InheritanceError> {
    if plan_name.len() == 0 {
        Some(InheritanceError::MissingRequiredField)
    } else if description.len() > MAX_DESCRIPTION_LEN {
        Some(InheritanceError::DescriptionTooLong)
    } else if asset_type != usdc() {
        Some(InheritanceError::InvalidAssetType)
    } else if total_amount == 0 {
        Some(InheritanceError::InvalidTotalAmount)
    } else {
        None
    }
}

/// Those of some plans that are on file, in order; with a wish, only those that are
/// active or not as wished.
pub open spec fn plans_found(
    records: Map<u64, InheritancePlanView>,
    ids: Seq<u64>,
    wish: Option<bool>,
) -> Seq<InheritancePlanView>
    decreases ids.len(),
{
    if ids.len() == 0 {
        Seq::empty()
    } else {
        let before = plans_found(records, ids.drop_last(), wish);
        let id = ids.last();
        if records.contains_key(id) && (wish is None || wish == Some(records[id].is_active)) {
            before.push(records[id])
        } else {
            before
        }
    }
}

/// The ids from one up to the next one.
pub open spec fn ids_below(next_id: u64) -> Seq<u64> {
    Seq::new((next_id - 1) as nat, |i: int| (i + 1) as u64)
}

impl InheritanceView {
    /// Why a user who has not been identified is refused.
    pub open spec fn kyc_error(self, user: Address) -> Option<InheritanceError> {
        if self.kyc.contains_key(user) && self.kyc[user].approved {
            None
        } else {
            Some(InheritanceError::KycNotSubmitted)
        }
    }

    /// Why a plan is not created. `balance` is what the owner holds of the token,
    /// and `fee_paid` whether the fee could be moved.
    pub open spec fn create_plan_error(
        self,
        params: CreateInheritancePlanParamsView,
        balance: i128,
        fee_paid: bool,
    ) -> Option<InheritanceError> {
        let inputs = params.beneficiaries_data;
        if self.kyc_error(params.owner) is Some {
            self.kyc_error(params.owner)
        } else if self.admin is None {
            Some(InheritanceError::AdminNotSet)
        } else if params.total_amount == 0 {
            Some(InheritanceError::InvalidTotalAmount)
        } else if plan_inputs_error(
            params.plan_name,
            params.description,
            usdc(),
            params.total_amount,
        ) is Some {
            plan_inputs_error(params.plan_name, params.description, usdc(), params.total_amount)
        } else if balance < params.total_amount {
            Some(InheritanceError::InsufficientBalance)
        } else if creation_fee(params.total_amount) > 0 && !fee_paid {
            Some(InheritanceError::FeeTransferFailed)
        } else if inputs_error(inputs) is Some {
            inputs_error(inputs)
        } else {
            first_making_error(inputs, inputs.len() as int)
        }
    }

    /// The plan that is created.
    pub open spec fn new_plan(
        self,
        now: u64,
        params: CreateInheritancePlanParamsView,
        salts: Seq<Digest>,
    ) -> InheritancePlanView {
        let inputs = params.beneficiaries_data;
        InheritancePlanView {
            plan_name: params.plan_name,
            description: params.description,
            asset_type: usdc(),
            total_amount: (params.total_amount - creation_fee(params.total_amount)) as u64,
            distribution_method: params.distribution_method,
            beneficiaries: made_beneficiaries(inputs, salts, inputs.len() as int),
            total_allocation_bp: 10_000,
            owner: params.owner,
            created_at: now,
            is_active: true,
            is_lendable: params.is_lendable,
            total_loaned: 0,
            waterfall_enabled: false,
            grace_period: 0,
            earn_yield: false,
        }
    }

    /// The contract after the payments for a new plan: the fee to the admin, the
    /// rest into the vault.
    pub open spec fn plan_paid(self, contract: Address, params: CreateInheritancePlanParamsView)
        -> InheritanceView {
        let fee = creation_fee(params.total_amount);
        let charged = if fee > 0 {
            self.with_transfer(params.token, params.owner, self.admin->0, fee)
        } else {
            self
        };
        charged.with_transfer(
            params.token,
            params.owner,
            contract,
            (params.total_amount - fee) as u64,
        )
    }

    /// The contract after a plan was created.
    pub open spec fn plan_created(
        self,
        env: Env,
        params: CreateInheritancePlanParamsView,
        salts: Seq<Digest>,
    ) -> InheritanceView {
        let id = self.plans.next_id;
        let owner = params.owner;
        let paid = self.plan_paid(env.contract, params).with_salts(
            salts_filed(
                self.claims.salts,
                id,
                salts,
                params.beneficiaries_data.len() as int,
            ),
        );
        InheritanceView {
            plans: PlanBookView {
                next_id: (id + 1) as u64,
                records: self.plans.records.insert(
                    id,
                    self.new_plan(env.timestamp, params, salts),
                ),
                by_owner: self.plans.by_owner.insert(
                    owner,
                    list_of(self.plans.by_owner, owner).push(id),
                ),
                ..self.plans
            },
            access: self.access.assigned(owner, Role::Owner),
            ..paid
        }
    }

    /// Why a grace period is not set.
    pub open spec fn grace_error(self, plan_id: u64, new_grace_period: u64) -> Option<
        InheritanceError,
    > {
        if !self.plans.records.contains_key(plan_id) {
            Some(InheritanceError::PlanNotFound)
        } else if !(MIN_GRACE_PERIOD_SECONDS <= new_grace_period <= MAX_GRACE_PERIOD_SECONDS) {
            Some(InheritanceError::InvalidBeneficiaryData)
        } else {
            None
        }
    }

    /// Why a plan is not updated.
    pub open spec fn update_plan_error(
        self,
        owner: Address,
        plan_id: u64,
        inputs: Seq<BeneficiaryInputView>,
    ) -> Option<InheritanceError> {
        if self.owner_error(plan_id, owner) is Some {
            self.owner_error(plan_id, owner)
        } else if self.triggered(plan_id) {
            Some(InheritanceError::InheritanceAlreadyTriggered)
        } else if inputs_error(inputs) is Some {
            inputs_error(inputs)
        } else {
            first_making_error(inputs, inputs.len() as int)
        }
    }

    /// The contract after a plan was updated.
    pub open spec fn plan_updated(
        self,
        plan_id: u64,
        inputs: Seq<BeneficiaryInputView>,
        grace_period: u64,
        earn_yield: bool,
        salts: Seq<Digest>,
    ) -> InheritanceView {
        let n = inputs.len() as int;
        self.with_salts(salts_filed(self.claims.salts, plan_id, salts, n)).with_plan(
            plan_id,
            InheritancePlanView {
                beneficiaries: made_beneficiaries(inputs, salts, n),
                total_allocation_bp: 10_000,
                grace_period,
                earn_yield,
                ..self.plans.records[plan_id]
            },
        )
    }

    /// Why a deposit is refused.
    pub open spec fn deposit_error(
        self,
        caller: Address,
        plan_id: u64,
        amount: u64,
        balance: i128,
        transferred: bool,
    ) -> Option<InheritanceError> {
        if amount == 0 {
            Some(InheritanceError::InvalidTotalAmount)
        } else if self.owner_error(plan_id, caller) is Some {
            self.owner_error(plan_id, caller)
        } else if !self.plans.records[plan_id].is_active || self.on_hold(plan_id) {
            Some(InheritanceError::PlanNotActive)
        } else if balance < amount {
            Some(InheritanceError::InsufficientBalance)
        } else if !transferred {
            Some(InheritanceError::FeeTransferFailed)
        } else {
            None
        }
    }

    /// The contract after a deposit.
    pub open spec fn deposited(
        self,
        contract: Address,
        caller: Address,
        token: Address,
        plan_id: u64,
        amount: u64,
    ) -> InheritanceView {
        let plan = self.plans.records[plan_id];
        self.with_transfer(token, caller, contract, amount).with_plan(
            plan_id,
            InheritancePlanView { total_amount: (plan.total_amount + amount) as u64, ..plan },
        ).with_event(InheritanceEventView::VaultDeposit(VaultDepositEvent { plan_id, amount }))
    }

    /// Why a withdrawal is refused.
    pub open spec fn withdraw_error(
        self,
        now: u64,
        caller: Address,
        plan_id: u64,
        amount: u64,
        transferred: bool,
    ) -> Option<InheritanceError> {
        let plan = self.plans.records[plan_id];
        if amount == 0 {
            Some(InheritanceError::InvalidTotalAmount)
        } else if self.owner_error(plan_id, caller) is Some {
            self.owner_error(plan_id, caller)
        } else if self.on_hold(plan_id) {
            Some(InheritanceError::PlanNotActive)
        } else if self.emergency_active(now, plan_id) && amount > emergency_limit(
            plan.total_amount,
        ) {
            Some(InheritanceError::EmergencyCooldownActive)
        } else if amount > saturating_difference(plan.total_amount, plan.total_loaned) {
            Some(InheritanceError::InsufficientLiquidity)
        } else if !transferred {
            Some(InheritanceError::FeeTransferFailed)
        } else {
            None
        }
    }

    /// The contract after a withdrawal.
    pub open spec fn withdrawn(
        self,
        env: Env,
        caller: Address,
        token: Address,
        plan_id: u64,
        amount: u64,
    ) -> InheritanceView {
        let plan = self.plans.records[plan_id];
        self.emergency_expired(env.timestamp, plan_id).with_transfer(
            token,
            env.contract,
            caller,
            amount,
        ).with_plan(
            plan_id,
            InheritancePlanView { total_amount: (plan.total_amount - amount) as u64, ..plan },
        ).with_event(InheritanceEventView::VaultWithdraw(VaultWithdrawEvent { plan_id, amount }))
    }

    /// Why a plan is not deactivated.
    pub open spec fn deactivate_error(self, owner: Address, plan_id: u64) -> Option<
        InheritanceError,
    > {
        if self.owner_error(plan_id, owner) is Some {
            self.owner_error(plan_id, owner)
        } else if !self.plans.records[plan_id].is_active {
            Some(InheritanceError::PlanAlreadyDeactivated)
        } else {
            None
        }
    }

    /// The contract after a plan was deactivated.
    pub open spec fn deactivated(self, now: u64, plan_id: u64) -> InheritanceView {
        let plan = self.plans.records[plan_id];
        (InheritanceView {
            plans: PlanBookView {
                records: self.plans.records.insert(
                    plan_id,
                    InheritancePlanView { is_active: false, ..plan },
                ),
                deactivated: self.plans.deactivated.push(plan_id),
                ..self.plans
            },
            ..self
        }).with_event(
            InheritanceEventView::PlanDeactivated(
                PlanDeactivatedEvent {
                    plan_id,
                    owner: plan.owner,
                    total_amount: plan.total_amount,
                    deactivated_at: now,
                },
            ),
        )
    }

    /// Why a plan is not handed over.
    pub open spec fn transfer_ownership_error(self, owner: Address, plan_id: u64) -> Option<
        InheritanceError,
    > {
        if self.owner_error(plan_id, owner) is Some {
            self.owner_error(plan_id, owner)
        } else if !self.plans.records[plan_id].is_active || self.triggered(plan_id) || self.on_hold(
            plan_id,
        ) {
            Some(InheritanceError::PlanNotActive)
        } else {
            None
        }
    }

    /// The contract after a plan was handed over.
    pub open spec fn ownership_transferred(self, now: u64, new_owner: Address, plan_id: u64)
        -> InheritanceView {
        let plan = self.plans.records[plan_id];
        let left = self.plans.by_owner.insert(
            plan.owner,
            without(list_of(self.plans.by_owner, plan.owner), plan_id),
        );
        (InheritanceView {
            plans: PlanBookView {
                records: self.plans.records.insert(
                    plan_id,
                    InheritancePlanView { owner: new_owner, ..plan },
                ),
                by_owner: left.insert(new_owner, list_of(left, new_owner).push(plan_id)),
                ..self.plans
            },
            ..self
        }).with_event(
            InheritanceEventView::PlanOwnershipTransferred(
                PlanOwnershipTransferredEvent {
                    plan_id,
                    old_owner: plan.owner,
                    new_owner,
                    transferred_at: now,
                },
            ),
        )
    }

    /// Why a plan is not shown to a caller: it is neither theirs, nor do they have
    /// emergency access to it.
    pub open spec fn read_error(self, now: u64, caller: Address, plan_id: u64) -> Option<
        InheritanceError,
    > {
        if !self.plans.records.contains_key(plan_id) {
            Some(InheritanceError::PlanNotFound)
        } else if self.plans.records[plan_id].owner == caller || (self.emergency_held(now, plan_id)
            && self.emergency.access[plan_id].trusted_contact == caller) {
            None
        } else {
            Some(InheritanceError::Unauthorized)
        }
    }

    /// Ids of the plans of an owner.
    pub open spec fn plan_ids_of(self, owner: Address) -> Seq<u64> {
        list_of(self.plans.by_owner, owner)
    }
}

/// What an owner pays for a plan is divided without loss: 2% go to the admin, and
/// the rest is what the plan holds.
pub proof fn law_creation_fee_split(
    contract: InheritanceView,
    now: u64,
    params: CreateInheritancePlanParamsView,
    salts: Seq<Digest>,
)
    ensures
        creation_fee(params.total_amount) + contract.new_plan(now, params, salts).total_amount
            == params.total_amount,
        creation_fee(params.total_amount) == (params.total_amount * 200) / 10_000,
        params.total_amount > 0 ==> contract.new_plan(now, params, salts).total_amount > 0,
{
    lemma_share_bounded(params.total_amount, CREATION_FEE_BP);
}

/// Withdrawing what was just deposited, where the withdrawal goes through, gives
/// back the plan as it was; and it goes through unless the cooldown after emergency
/// access stands against it, or more is on loan than the vault held before.
pub proof fn law_withdraw_undoes_deposit(
    contract: InheritanceView,
    env: Env,
    caller: Address,
    token: Address,
    plan_id: u64,
    amount: u64,
    balance: i128,
)
    requires
        contract.well_formed(),
        contract.deposit_error(caller, plan_id, amount, balance, true) is None,
        contract.plans.records[plan_id].total_amount + amount <= u64::MAX,
    ensures
        ({
            let plan = contract.plans.records[plan_id];
            let after = contract.deposited(env.contract, caller, token, plan_id, amount);
            &&& after.withdrawn(env, caller, token, plan_id, amount).plans == contract.plans
            &&& after.withdraw_error(env.timestamp, caller, plan_id, amount, true) is None <==> (
            !contract.emergency_active(env.timestamp, plan_id) || amount <= emergency_limit(
                (plan.total_amount + amount) as u64,
            )) && plan.total_loaned <= plan.total_amount
        }),
{
    let after = contract.deposited(env.contract, caller, token, plan_id, amount);
    let back = after.withdrawn(env, caller, token, plan_id, amount);
    assert(back.plans.records =~= contract.plans.records);
}

/// While the cooldown after emergency access is active, a withdrawal that goes
/// through moves at most a tenth of the vault.
pub proof fn law_cooldown_limits_withdrawals(
    contract: InheritanceView,
    now: u64,
    caller: Address,
    plan_id: u64,
    amount: u64,
)
    requires
        contract.emergency_active(now, plan_id),
        contract.withdraw_error(now, caller, plan_id, amount, true) is None,
    ensures
        amount * 10 <= contract.plans.records[plan_id].total_amount,
{
    lemma_share_bounded(contract.plans.records[plan_id].total_amount, 1_000);
}

/// A plan that changed hands is in the list of its new owner, and of nobody else.
pub proof fn law_ownership_moves(
    contract: InheritanceView,
    now: u64,
    owner: Address,
    new_owner: Address,
    plan_id: u64,
    who: Address,
)
    requires
        contract.well_formed(),
        contract.transfer_ownership_error(owner, plan_id) is None,
    ensures
        ({
            let after = contract.ownership_transferred(now, new_owner, plan_id);
            &&& after.plan_ids_of(who).contains(plan_id) <==> who == new_owner
            &&& after.plans.records[plan_id].owner == new_owner
            &&& owner != new_owner ==> after.transfer_ownership_error(owner, plan_id) == Some(
                InheritanceError::Unauthorized,
            )
        }),
{
    lemma_ownership_transferred(contract, now, new_owner, plan_id);
    reveal(owners_listed);
    let after = contract.ownership_transferred(now, new_owner, plan_id);
    assert(list_of(after.plans.by_owner, who).contains(plan_id)
        <==> after.plans.records.contains_key(plan_id) && after.plans.records[plan_id].owner
        == who);
}

proof fn lemma_ownership_transferred(
    contract: InheritanceView,
    now: u64,
    new_owner: Address,
    plan_id: u64,
)
    requires
        contract.well_formed(),
        contract.plans.records.contains_key(plan_id),
    ensures
        contract.ownership_transferred(now, new_owner, plan_id).well_formed(),
{
    reveal(plans_valid);
    reveal(owners_listed);
    reveal(deactivated_listed);
    let before = contract.plans;
    let owner = before.records[plan_id].owner;
    let after = contract.ownership_transferred(now, new_owner, plan_id).plans;
    let old_list = list_of(before.by_owner, owner);
    let left = before.by_owner.insert(owner, without(old_list, plan_id));
    assert forall|who: Address, id: u64| #[trigger]
        list_of(after.by_owner, who).contains(id) <==> after.records.contains_key(id)
            && after.records[id].owner == who by {
        assert(list_of(before.by_owner, who).contains(id) <==> before.records.contains_key(id)
            && before.records[id].owner == who);
        lemma_without_contains(old_list, plan_id, id);
        lemma_push_contains(list_of(left, new_owner), plan_id, id);
    }
    assert forall|who: Address| (#[trigger] list_of(after.by_owner, who)).no_duplicates() by {
        assert(list_of(before.by_owner, who).no_duplicates());
        assert(list_of(before.by_owner, owner).no_duplicates());
        lemma_without_distinct(old_list, plan_id);
        lemma_without_contains(old_list, plan_id, plan_id);
        assert(list_of(before.by_owner, new_owner).no_duplicates());
        assert(list_of(before.by_owner, new_owner).contains(plan_id) <==> owner == new_owner);
        let target = list_of(left, new_owner);
        assert(!target.contains(plan_id));
        assert(target.no_duplicates());
        assert(target.push(plan_id).no_duplicates());
    }
    assert forall|id: u64| #[trigger]
        after.deactivated.contains(id) <==> after.records.contains_key(id)
            && !after.records[id].is_active by {
        assert(before.deactivated.contains(id) <==> before.records.contains_key(id)
            && !before.records[id].is_active);
    }
}

proof fn lemma_deactivated(contract: InheritanceView, now: u64, plan_id: u64)
    requires
        contract.well_formed(),
        contract.plans.records.contains_key(plan_id),
        contract.plans.records[plan_id].is_active,
    ensures
        contract.deactivated(now, plan_id).well_formed(),
        !contract.plans.deactivated.contains(plan_id),
{
    reveal(plans_valid);
    reveal(owners_listed);
    reveal(deactivated_listed);
    let before = contract.plans;
    let after = contract.deactivated(now, plan_id).plans;
    assert(!before.deactivated.contains(plan_id));
    assert forall|who: Address, id: u64| #[trigger]
        list_of(after.by_owner, who).contains(id) <==> after.records.contains_key(id)
            && after.records[id].owner == who by {
        assert(list_of(before.by_owner, who).contains(id) <==> before.records.contains_key(id)
            && before.records[id].owner == who);
    }
    assert forall|id: u64| #[trigger]
        after.deactivated.contains(id) <==> after.records.contains_key(id)
            && !after.records[id].is_active by {
        assert(before.deactivated.contains(id) <==> before.records.contains_key(id)
            && !before.records[id].is_active);
        lemma_push_contains(before.deactivated, plan_id, id);
    }
}

proof fn lemma_plan_created(
    contract: InheritanceView,
    env: Env,
    params: CreateInheritancePlanParamsView,
    salts: Seq<Digest>,
)
    requires
        contract.well_formed(),
        contract.plans.next_id < u64::MAX,
        inputs_error(params.beneficiaries_data) is None,
    ensures
        contract.plan_created(env, params, salts).well_formed(),
{
    reveal(plans_valid);
    reveal(owners_listed);
    reveal(deactivated_listed);
    let before = contract.plans;
    let after = contract.plan_created(env, params, salts).plans;
    let plan = contract.new_plan(env.timestamp, params, salts);
    let id = before.next_id;
    lemma_made_allocations(
        params.beneficiaries_data,
        salts,
        params.beneficiaries_data.len() as int,
    );
    assert(plan_valid(plan));
    assert(!before.records.contains_key(id));
    assert forall|who: Address, other: u64| #[trigger]
        list_of(after.by_owner, who).contains(other) <==> after.records.contains_key(other)
            && after.records[other].owner == who by {
        assert(list_of(before.by_owner, who).contains(other) <==> before.records.contains_key(other)
            && before.records[other].owner == who);
        lemma_push_contains(list_of(before.by_owner, params.owner), id, other);
    }
    assert forall|who: Address| (#[trigger] list_of(after.by_owner, who)).no_duplicates() by {
        assert(list_of(before.by_owner, who).no_duplicates());
        assert(list_of(before.by_owner, params.owner).no_duplicates());
        assert(!list_of(before.by_owner, params.owner).contains(id));
    }
    assert forall|other: u64| #[trigger]
        after.deactivated.contains(other) <==> after.records.contains_key(other)
            && !after.records[other].is_active by {
        assert(before.deactivated.contains(other) <==> before.records.contains_key(other)
            && !before.records[other].is_active);
    }
    assert forall|other: u64| #[trigger] after.records.contains_key(other) implies 1 <= other
        < after.next_id && plan_valid(after.records[other]) by {
        if other != id {
            assert(before.records.contains_key(other));
        }
    }
}

impl InheritanceContract {
    /// Refuses a plan without a name, with too long a description, in another asset
    /// than USDC, or without an amount.
    pub fn validate_plan_inputs(
        plan_name: &Vec<u8>,
        description: &Vec<u8>,
        asset_type: &Vec<u8>,
        total_amount: u64,
    ) -> (result: Result<(), InheritanceError>)
        ensures
            ({
                let error = plan_inputs_error(
                    plan_name@,
                    description@,
                    asset_type@,
                    total_amount,
                );
                match result {
                    Ok(()) => error is None,
                    Err(e) => error == Some(e),
                }
            }),
    {
        if plan_name.len() == 0 {
            return Err(InheritanceError::MissingRequiredField);
        }
        if description.len() > MAX_DESCRIPTION_LEN {
            return Err(InheritanceError::DescriptionTooLong);
        }
        if !same_bytes(asset_type, &usdc_symbol()) {
            return Err(InheritanceError::InvalidAssetType);
        }
        if total_amount == 0 {
            return Err(InheritanceError::InvalidTotalAmount);
        }
        Ok(())
    }

    /// Refuses a user who has not been identified.
    pub fn check_kyc_approved(&self, user: Address) -> (result: Result<(), InheritanceError>)
        ensures
            match result {
                Ok(()) => self@.kyc_error(user) is None,
                Err(e) => self@.kyc_error(user) == Some(e),
            },
    {
        match self.kyc.get(user) {
            Some(status) => {
                if status.approved {
                    Ok(())
                } else {
                    Err(InheritanceError::KycNotSubmitted)
                }
            },
            None => Err(InheritanceError::KycNotSubmitted),
        }
    }

    /// Create a new inheritance plan.
    /// Applies a 2% creation fee: the fee is deducted from the owner's amount and
    /// moved to the admin wallet, and the net amount is moved into the vault. Whether
    /// the latter succeeds does not matter to the outcome.
    ///
    /// `balance` is what the owner holds of the token, `fee_paid` whether the fee
    /// could be moved, and `salts` holds a fresh random value for each beneficiary.
    /// Returns the id of the plan.
    pub fn create_inheritance_plan(
        &mut self,
        env: &Env,
        params: CreateInheritancePlanParams,
        balance: i128,
        fee_paid: bool,
        salts: Vec<Digest>,
    ) -> (result: Result<u64, InheritanceError>)
        requires
            old(self)@.well_formed(),
            old(self)@.open_for_calls(),
            env.authorized(params.owner),
            old(self)@.create_plan_error(params@, balance, fee_paid) is None ==> {
                &&& params.beneficiaries_data@.len() <= salts@.len()
                &&& all_texts_fit(params.beneficiaries_data@)
                &&& old(self)@.plans.next_id < u64::MAX
            },
        ensures
            ({
                let error = old(self)@.create_plan_error(params@, balance, fee_paid);
                match result {
                    Err(e) => error == Some(e) && final(self)@ == old(self)@,
                    Ok(id) => error is None && id == old(self)@.plans.next_id && final(self)@
                        == old(self)@.plan_created(*env, params@, salts@),
                }
            }),
            final(self)@.well_formed(),
    {
        let owner: Address = params.owner;
        let total_amount: u64 = params.total_amount;
        match self.check_kyc_approved(owner) {
            Ok(()) => {},
            Err(e) => {
                return Err(e);
            },
        }
        let admin: Address = match self.admin {
            Some(admin) => admin,
            None => {
                return Err(InheritanceError::AdminNotSet);
            },
        };
        let fee: u64 = share_bps(total_amount, CREATION_FEE_BP);
        proof {
            lemma_share_bounded(total_amount, CREATION_FEE_BP);
        }
        let net_amount: u64 = total_amount - fee;
        if net_amount == 0 {
            return Err(InheritanceError::InvalidTotalAmount);
        }
        match Self::validate_plan_inputs(
            &params.plan_name,
            &params.description,
            &usdc_symbol(),
            total_amount,
        ) {
            Ok(()) => {},
            Err(e) => {
                return Err(e);
            },
        }
        if balance < total_amount as i128 {
            return Err(InheritanceError::InsufficientBalance);
        }
        if fee > 0 && !fee_paid {
            return Err(InheritanceError::FeeTransferFailed);
        }
        match Self::validate_beneficiaries(&params.beneficiaries_data) {
            Ok(()) => {},
            Err(e) => {
                return Err(e);
            },
        }
        let beneficiaries = match Self::create_beneficiaries(&params.beneficiaries_data, &salts) {
            Ok(beneficiaries) => beneficiaries,
            Err(e) => {
                return Err(e);
            },
        };
        proof {
            lemma_plan_created(self@, *env, params@, salts@);
        }
        if fee > 0 {
            self.call(
                InheritanceCall::Transfer {
                    token: params.token,
                    from: owner,
                    to: admin,
                    amount: fee,
                },
            );
        }
        self.call(
            InheritanceCall::Transfer {
                token: params.token,
                from: owner,
                to: env.contract,
                amount: net_amount,
            },
        );
        let plan_id: u64 = self.plans.next_id;
        self.plans.next_id = plan_id + 1;
        self.file_salts(plan_id, &salts, params.beneficiaries_data.len());
        self.plans.records.set(
            plan_id,
            InheritancePlan {
                plan_name: params.plan_name,
                description: params.description,
                asset_type: usdc_symbol(),
                total_amount: net_amount,
                distribution_method: params.distribution_method,
                beneficiaries,
                total_allocation_bp: 10_000,
                owner,
                created_at: env.timestamp,
                is_active: true,
                is_lendable: params.is_lendable,
                total_loaned: 0,
                waterfall_enabled: false,
                grace_period: 0,
                earn_yield: false,
            },
        );
        self.add_plan_to_user(owner, plan_id);
        self.access.assign_role(owner, Role::Owner);
        Ok(plan_id)
    }

    fn owned_plan_ids(&self, owner: Address) -> (ids: Vec<u64>)
        ensures
            ids@ == self@.plan_ids_of(owner),
    {
        match self.plans.by_owner.get(owner) {
            Some(ids) => ids.clone(),
            None => Vec::new(),
        }
    }

    fn add_plan_to_user(&mut self, owner: Address, plan_id: u64)
        ensures
            final(self)@ == (InheritanceView {
                plans: PlanBookView {
                    by_owner: old(self)@.plans.by_owner.insert(
                        owner,
                        old(self)@.plan_ids_of(owner).push(plan_id),
                    ),
                    ..old(self)@.plans
                },
                ..old(self)@
            }),
    {
        let mut ids = self.owned_plan_ids(owner);
        ids.push(plan_id);
        self.plans.by_owner.set(owner, ids);
    }

    fn remove_plan_from_user(&mut self, owner: Address, plan_id: u64)
        ensures
            final(self)@ == (InheritanceView {
                plans: PlanBookView {
                    by_owner: old(self)@.plans.by_owner.insert(
                        owner,
                        without(old(self)@.plan_ids_of(owner), plan_id),
                    ),
                    ..old(self)@.plans
                },
                ..old(self)@
            }),
    {
        let ids = self.owned_plan_ids(owner);
        self.plans.by_owner.set(owner, list_without(&ids, &plan_id));
    }

    /// Let the vault of a plan be lent, or not.
    pub fn set_lendable(&mut self, env: &Env, owner: Address, plan_id: u64, is_lendable: bool) -> (
    result: Result<(), InheritanceError>)
        requires
            old(self)@.well_formed(),
            env.authorized(owner),
        ensures
            ({
                let error = old(self)@.owner_error(plan_id, owner);
                match result {
                    Err(e) => error == Some(e) && final(self)@ == old(self)@,
                    Ok(()) => error is None && final(self)@ == old(self)@.with_plan(
                        plan_id,
                        InheritancePlanView { is_lendable, ..old(self)@.plans.records[plan_id] },
                    ).with_event(
                        InheritanceEventView::VaultLendableChanged(
                            VaultLendableChangedEvent { plan_id, is_lendable },
                        ),
                    ),
                }
            }),
            final(self)@.well_formed(),
    {
        match self.require_owner(plan_id, owner) {
            Ok(_) => {},
            Err(e) => {
                return Err(e);
            },
        }
        let ghost before = self@;
        proof {
            lemma_plan_on_file(self@, plan_id);
        }
        let plan = self.plans.records.at_mut(plan_id);
        plan.is_lendable = is_lendable;
        proof {
            lemma_plan_update(before, plan_id, plan@);
        }
        self.publish(
            InheritanceEvent::VaultLendableChanged(
                VaultLendableChangedEvent { plan_id, is_lendable },
            ),
        );
        Ok(())
    }

    /// Update the inactivity grace period of an existing plan. Its owner must have
    /// authorised the call.
    pub fn update_grace_period(&mut self, env: &Env, plan_id: u64, new_grace_period: u64) -> (
    result: Result<(), InheritanceError>)
        requires
            old(self)@.well_formed(),
            old(self)@.plans.records.contains_key(plan_id) ==> env.authorized(
                old(self)@.plans.records[plan_id].owner,
            ),
        ensures
            ({
                let error = old(self)@.grace_error(plan_id, new_grace_period);
                match result {
                    Err(e) => error == Some(e) && final(self)@ == old(self)@,
                    Ok(()) => error is None && final(self)@ == old(self)@.with_plan(
                        plan_id,
                        InheritancePlanView {
                            grace_period: new_grace_period,
                            ..old(self)@.plans.records[plan_id]
                        },
                    ).with_event(
                        InheritanceEventView::GracePeriodUpdated(
                            GracePeriodUpdatedEvent { plan_id, new_grace_period },
                        ),
                    ),
                }
            }),
            final(self)@.well_formed(),
    {
        if !self.plans.records.contains(plan_id) {
            return Err(InheritanceError::PlanNotFound);
        }
        if new_grace_period < MIN_GRACE_PERIOD_SECONDS || new_grace_period
            > MAX_GRACE_PERIOD_SECONDS {
            return Err(InheritanceError::InvalidBeneficiaryData);
        }
        let ghost before = self@;
        proof {
            lemma_plan_on_file(self@, plan_id);
        }
        let plan = self.plans.records.at_mut(plan_id);
        plan.grace_period = new_grace_period;
        proof {
            lemma_plan_update(before, plan_id, plan@);
        }
        self.publish(
            InheritanceEvent::GracePeriodUpdated(
                GracePeriodUpdatedEvent { plan_id, new_grace_period },
            ),
        );
        Ok(())
    }

    /// Update plan parameters before a claim is triggered. `salts` holds a fresh
    /// random value for each beneficiary.
    pub fn update_plan(
        &mut self,
        env: &Env,
        owner: Address,
        plan_id: u64,
        beneficiaries: List<BeneficiaryInput>,
        grace_period: u64,
        earn_yield: bool,
        salts: Vec<Digest>,
    ) -> (result: Result<(), InheritanceError>)
        requires
            old(self)@.well_formed(),
            old(self)@.open_for_calls(),
            env.authorized(owner),
            old(self)@.update_plan_error(owner, plan_id, beneficiaries@) is None
                ==> beneficiaries@.len() <= salts@.len() && all_texts_fit(beneficiaries@),
        ensures
            ({
                let error = old(self)@.update_plan_error(owner, plan_id, beneficiaries@);
                match result {
                    Err(e) => error == Some(e) && final(self)@ == old(self)@,
                    Ok(()) => error is None && final(self)@ == old(self)@.plan_updated(
                        plan_id,
                        beneficiaries@,
                        grace_period,
                        earn_yield,
                        salts@,
                    ),
                }
            }),
            final(self)@.well_formed(),
    {
        match self.require_owner(plan_id, owner) {
            Ok(_) => {},
            Err(e) => {
                return Err(e);
            },
        }
        if self.triggers.infos.contains(plan_id) {
            return Err(InheritanceError::InheritanceAlreadyTriggered);
        }
        match Self::validate_beneficiaries(&beneficiaries) {
            Ok(()) => {},
            Err(e) => {
                return Err(e);
            },
        }
        let made = match Self::create_beneficiaries(&beneficiaries, &salts) {
            Ok(made) => made,
            Err(e) => {
                return Err(e);
            },
        };
        self.file_salts(plan_id, &salts, beneficiaries.len());
        let ghost before = self@;
        proof {
            lemma_plan_on_file(self@, plan_id);
            lemma_made_allocations(beneficiaries@, salts@, beneficiaries@.len() as int);
        }
        let plan = self.plans.records.at_mut(plan_id);
        plan.beneficiaries = made;
        plan.total_allocation_bp = 10_000;
        plan.grace_period = grace_period;
        plan.earn_yield = earn_yield;
        proof {
            lemma_plan_update(before, plan_id, plan@);
        }
        Ok(())
    }

    /// Deposit tokens into the vault of a plan. `balance` is what the owner holds,
    /// and `transferred` whether the tokens could be moved.
    pub fn deposit(
        &mut self,
        env: &Env,
        caller: Address,
        token: Address,
        plan_id: u64,
        amount: u64,
        balance: i128,
        transferred: bool,
    ) -> (result: Result<(), InheritanceError>)
        requires
            old(self)@.well_formed(),
            old(self)@.open_for_calls(),
            env.authorized(caller),
            old(self)@.deposit_error(caller, plan_id, amount, balance, transferred) is None ==> old(
                self,
            )@.plans.records[plan_id].total_amount + amount <= u64::MAX,
        ensures
            ({
                let error = old(self)@.deposit_error(
                    caller,
                    plan_id,
                    amount,
                    balance,
                    transferred,
                );
                match result {
                    Err(e) => error == Some(e) && final(self)@ == old(self)@,
                    Ok(()) => error is None && final(self)@ == old(self)@.deposited(
                        env.contract,
                        caller,
                        token,
                        plan_id,
                        amount,
                    ),
                }
            }),
            final(self)@.well_formed(),
    {
        if amount == 0 {
            return Err(InheritanceError::InvalidTotalAmount);
        }
        match self.require_owner(plan_id, caller) {
            Ok(plan) => {
                if !plan.is_active {
                    return Err(InheritanceError::PlanNotActive);
                }
            },
            Err(e) => {
                return Err(e);
            },
        }
        if self.is_on_hold(plan_id) {
            return Err(InheritanceError::PlanNotActive);
        }
        if balance < amount as i128 {
            return Err(InheritanceError::InsufficientBalance);
        }
        if !transferred {
            return Err(InheritanceError::FeeTransferFailed);
        }
        self.call(InheritanceCall::Transfer { token, from: caller, to: env.contract, amount });
        let ghost before = self@;
        proof {
            lemma_plan_on_file(self@, plan_id);
        }
        let plan = self.plans.records.at_mut(plan_id);
        plan.total_amount = plan.total_amount + amount;
        proof {
            lemma_plan_update(before, plan_id, plan@);
        }
        self.publish(InheritanceEvent::VaultDeposit(VaultDepositEvent { plan_id, amount }));
        Ok(())
    }

    /// Withdraw tokens from the vault of a plan. `transferred` is whether the tokens
    /// could be moved.
    pub fn withdraw(
        &mut self,
        env: &Env,
        caller: Address,
        token: Address,
        plan_id: u64,
        amount: u64,
        transferred: bool,
    ) -> (result: Result<(), InheritanceError>)
        requires
            old(self)@.well_formed(),
            old(self)@.open_for_calls(),
            env.authorized(caller),
        ensures
            ({
                let error = old(self)@.withdraw_error(
                    env.timestamp,
                    caller,
                    plan_id,
                    amount,
                    transferred,
                );
                match result {
                    Err(e) => error == Some(e) && final(self)@ == old(self)@,
                    Ok(()) => error is None && final(self)@ == old(self)@.withdrawn(
                        *env,
                        caller,
                        token,
                        plan_id,
                        amount,
                    ),
                }
            }),
            final(self)@.well_formed(),
    {
        if amount == 0 {
            return Err(InheritanceError::InvalidTotalAmount);
        }
        let (total_amount, total_loaned): (u64, u64) = match self.require_owner(plan_id, caller) {
            Ok(plan) => (plan.total_amount, plan.total_loaned),
            Err(e) => {
                return Err(e);
            },
        };
        if self.is_on_hold(plan_id) {
            return Err(InheritanceError::PlanNotActive);
        }
        if self.within_cooldown(env, plan_id) && amount > emergency_limit_of(total_amount) {
            return Err(InheritanceError::EmergencyCooldownActive);
        }
        if amount > total_amount.saturating_sub(total_loaned) {
            return Err(InheritanceError::InsufficientLiquidity);
        }
        if !transferred {
            return Err(InheritanceError::FeeTransferFailed);
        }
        self.check_and_expire_emergency_access(env, plan_id);
        self.call(InheritanceCall::Transfer { token, from: env.contract, to: caller, amount });
        let ghost before = self@;
        proof {
            lemma_plan_on_file(self@, plan_id);
        }
        let plan = self.plans.records.at_mut(plan_id);
        plan.total_amount = plan.total_amount - amount;
        proof {
            lemma_plan_update(before, plan_id, plan@);
        }
        self.publish(InheritanceEvent::VaultWithdraw(VaultWithdrawEvent { plan_id, amount }));
        Ok(())
    }

    /// Deactivate an existing inheritance plan. Its funds are to be returned to the
    /// owner; this marks the plan as inactive and publishes that it is.
    pub fn deactivate_inheritance_plan(&mut self, env: &Env, owner: Address, plan_id: u64) -> (
    result: Result<(), InheritanceError>)
        requires
            old(self)@.well_formed(),
            old(self)@.open_for_calls(),
            env.authorized(owner),
        ensures
            ({
                let error = old(self)@.deactivate_error(owner, plan_id);
                match result {
                    Err(e) => error == Some(e) && final(self)@ == old(self)@,
                    Ok(()) => error is None && final(self)@ == old(self)@.deactivated(
                        env.timestamp,
                        plan_id,
                    ),
                }
            }),
            final(self)@.well_formed(),
    {
        let total_amount: u64 = match self.require_owner(plan_id, owner) {
            Ok(plan) => {
                if !plan.is_active {
                    return Err(InheritanceError::PlanAlreadyDeactivated);
                }
                plan.total_amount
            },
            Err(e) => {
                return Err(e);
            },
        };
        proof {
            lemma_deactivated(self@, env.timestamp, plan_id);
        }
        let plan = self.plans.records.at_mut(plan_id);
        plan.is_active = false;
        if !list_contains(&self.plans.deactivated, &plan_id) {
            self.plans.deactivated.push(plan_id);
        }
        self.publish(
            InheritanceEvent::PlanDeactivated(
                PlanDeactivatedEvent {
                    plan_id,
                    owner,
                    total_amount,
                    deactivated_at: env.timestamp,
                },
            ),
        );
        Ok(())
    }

    /// Transfer ownership of an inheritance plan to another address.
    pub fn transfer_plan_ownership(
        &mut self,
        env: &Env,
        owner: Address,
        new_owner: Address,
        plan_id: u64,
    ) -> (result: Result<(), InheritanceError>)
        requires
            old(self)@.well_formed(),
            env.authorized(owner),
        ensures
            ({
                let error = old(self)@.transfer_ownership_error(owner, plan_id);
                match result {
                    Err(e) => error == Some(e) && final(self)@ == old(self)@,
                    Ok(()) => error is None && final(self)@ == old(self)@.ownership_transferred(
                        env.timestamp,
                        new_owner,
                        plan_id,
                    ),
                }
            }),
            final(self)@.well_formed(),
    {
        match self.require_owner(plan_id, owner) {
            Ok(plan) => {
                if !plan.is_active {
                    return Err(InheritanceError::PlanNotActive);
                }
            },
            Err(e) => {
                return Err(e);
            },
        }
        if self.triggers.infos.contains(plan_id) || self.is_on_hold(plan_id) {
            return Err(InheritanceError::PlanNotActive);
        }
        proof {
            lemma_ownership_transferred(self@, env.timestamp, new_owner, plan_id);
        }
        self.remove_plan_from_user(owner, plan_id);
        self.add_plan_to_user(new_owner, plan_id);
        let plan = self.plans.records.at_mut(plan_id);
        plan.owner = new_owner;
        self.publish(
            InheritanceEvent::PlanOwnershipTransferred(
                PlanOwnershipTransferredEvent {
                    plan_id,
                    old_owner: owner,
                    new_owner,
                    transferred_at: env.timestamp,
                },
            ),
        );
        Ok(())
    }

    /// Whether the user owns the plan.
    pub fn verify_plan_ownership(&self, plan_id: u64, user: Address) -> (owned: bool)
        ensures
            owned == (self@.owner_error(plan_id, user) is None),
    {
        self.require_owner(plan_id, user).is_ok()
    }

    /// Get plan details.
    pub fn get_plan_details(&self, plan_id: u64) -> (plan: Option<InheritancePlan>)
        ensures
            match plan {
                Some(p) => self@.plans.records.contains_key(plan_id) && p@
                    == self@.plans.records[plan_id],
                None => !self@.plans.records.contains_key(plan_id),
            },
    {
        match self.plans.records.get(plan_id) {
            Some(plan) => Some(plan.duplicate()),
            None => None,
        }
    }

    /// The plan, for its owner and for the trusted contact who has emergency access
    /// to it.
    pub fn get_user_plan(&self, env: &Env, caller: Address, plan_id: u64) -> (plan: Result<
        InheritancePlan,
        InheritanceError,
    >)
        requires
            env.authorized(caller),
        ensures
            ({
                let error = self@.read_error(env.timestamp, caller, plan_id);
                match plan {
                    Err(e) => error == Some(e),
                    Ok(p) => error is None && p@ == self@.plans.records[plan_id],
                }
            }),
    {
        match self.plans.records.get(plan_id) {
            Some(plan) => {
                if plan.owner == caller {
                    return Ok(plan.duplicate());
                }
                if !self.is_emergency_lapsed(env, plan_id) {
                    match self.emergency.access.get(plan_id) {
                        Some(record) => {
                            if record.trusted_contact == caller {
                                return Ok(plan.duplicate());
                            }
                        },
                        None => {},
                    }
                }
                Err(InheritanceError::Unauthorized)
            },
            None => Err(InheritanceError::PlanNotFound),
        }
    }

    /// Those of some plans that are on file.
    fn collect_plans(&self, ids: &Vec<u64>, wish: Option<bool>) -> (plans: List<InheritancePlan>)
        ensures
            plans@ == plans_found(self@.plans.records, ids@, wish),
    {
        let mut plans: List<InheritancePlan> = List::new();
        let mut i: usize = 0;
        while i < ids.len()
            invariant
                i <= ids@.len(),
                plans@ == plans_found(self@.plans.records, ids@.take(i as int), wish),
            decreases ids@.len() - i,
        {
            proof {
                assert(ids@.take(i + 1).drop_last() =~= ids@.take(i as int));
                assert(ids@.take(i + 1).last() == ids@[i as int]);
            }
            match self.plans.records.get(ids[i]) {
                Some(plan) => {
                    let wanted: bool = match wish {
                        Some(active) => plan.is_active == active,
                        None => true,
                    };
                    if wanted {
                        plans.push(plan.duplicate());
                    }
                },
                None => {},
            }
            i += 1;
        }
        proof {
            assert(ids@.take(i as int) =~= ids@);
        }
        plans
    }

    /// All plans of a user.
    pub fn get_user_plans(&self, env: &Env, user: Address) -> (plans: List<InheritancePlan>)
        requires
            env.authorized(user),
        ensures
            plans@ == plans_found(self@.plans.records, self@.plan_ids_of(user), None),
    {
        self.collect_plans(&self.owned_plan_ids(user), None)
    }

    /// The active plans of a user.
    pub fn get_user_pending_plans(&self, env: &Env, user: Address) -> (plans: List<InheritancePlan>)
        requires
            env.authorized(user),
        ensures
            plans@ == plans_found(self@.plans.records, self@.plan_ids_of(user), Some(true)),
    {
        self.collect_plans(&self.owned_plan_ids(user), Some(true))
    }

    /// Retrieve all deactivated plans for a user.
    pub fn get_user_deactivated_plans(&self, env: &Env, user: Address) -> (plans: List<
        InheritancePlan,
    >)
        requires
            env.authorized(user),
        ensures
            plans@ == plans_found(self@.plans.records, self@.plan_ids_of(user), Some(false)),
    {
        self.collect_plans(&self.owned_plan_ids(user), Some(false))
    }

    fn all_plan_ids(&self) -> (ids: Vec<u64>)
        requires
            self@.plans.next_id >= 1,
        ensures
            ids@ == ids_below(self@.plans.next_id),
    {
        let mut ids: Vec<u64> = Vec::new();
        let mut id: u64 = 1;
        while id < self.plans.next_id
            invariant
                1 <= id <= self.plans.next_id,
                ids@ == ids_below(id),
            decreases self.plans.next_id - id,
        {
            ids.push(id);
            id += 1;
            proof {
                assert(ids@ =~= ids_below(id));
            }
        }
        ids
    }

    /// All plans (admin only).
    pub fn get_all_plans(&self, env: &Env, admin: Address) -> (plans: Result<
        List<InheritancePlan>,
        InheritanceError,
    >)
        requires
            self@.well_formed(),
            env.authorized(admin),
        ensures
            match plans {
                Err(e) => self@.admin_error(admin) == Some(e),
                Ok(list) => self@.admin_error(admin) is None && list@ == plans_found(
                    self@.plans.records,
                    ids_below(self@.plans.next_id),
                    None,
                ),
            },
    {
        match self.require_admin(env, admin) {
            Ok(()) => {},
            Err(e) => {
                return Err(e);
            },
        }
        proof {
            reveal(plans_valid);
        }
        Ok(self.collect_plans(&self.all_plan_ids(), None))
    }

    /// All active plans (admin only).
    pub fn get_all_pending_plans(&self, env: &Env, admin: Address) -> (plans: Result<
        List<InheritancePlan>,
        InheritanceError,
    >)
        requires
            self@.well_formed(),
            env.authorized(admin),
        ensures
            match plans {
                Err(e) => self@.admin_error(admin) == Some(e),
                Ok(list) => self@.admin_error(admin) is None && list@ == plans_found(
                    self@.plans.records,
                    ids_below(self@.plans.next_id),
                    Some(true),
                ),
            },
    {
        match self.require_admin(env, admin) {
            Ok(()) => {},
            Err(e) => {
                return Err(e);
            },
        }
        proof {
            reveal(plans_valid);
        }
        Ok(self.collect_plans(&self.all_plan_ids(), Some(true)))
    }

    /// Retrieve all deactivated plans (for the admin).
    pub fn get_all_deactivated_plans(&self, env: &Env, admin: Address) -> (plans: Result<
        List<InheritancePlan>,
        InheritanceError,
    >)
        requires
            env.authorized(admin),
        ensures
            match plans {
                Err(e) => self@.admin != Some(admin) && e == InheritanceError::Unauthorized,
                Ok(list) => self@.admin == Some(admin) && list@ == plans_found(
                    self@.plans.records,
                    self@.plans.deactivated,
                    Some(false),
                ),
            },
    {
        if self.admin != Some(admin) {
            return Err(InheritanceError::Unauthorized);
        }
        Ok(self.collect_plans(&self.plans.deactivated, Some(false)))
    }

    /// Retrieve a specific deactivated plan of a user.
    pub fn get_deactivated_plan(&self, env: &Env, user: Address, plan_id: u64) -> (plan: Result<
        InheritancePlan,
        InheritanceError,
    >)
        requires
            env.authorized(user),
        ensures
            match plan {
                Ok(p) => self@.owner_error(plan_id, user) is None
                    && !self@.plans.records[plan_id].is_active && p@
                    == self@.plans.records[plan_id],
                Err(e) => if self@.owner_error(plan_id, user) is Some {
                    self@.owner_error(plan_id, user) == Some(e)
                } else {
                    self@.plans.records[plan_id].is_active && e == InheritanceError::PlanNotActive
                },
            },
    {
        match self.require_owner(plan_id, user) {
            Ok(plan) => {
                if plan.is_active {
                    Err(InheritanceError::PlanNotActive)
                } else {
                    Ok(plan.duplicate())
                }
            },
            Err(e) => Err(e),
        }
    }

    fn claimed_plan_ids(&self, owner: Address) -> (ids: Vec<u64>)
        ensures
            ids@ == list_of(self@.plans.claimed_by_owner, owner),
    {
        match self.plans.claimed_by_owner.get(owner) {
            Some(ids) => ids.clone(),
            None => Vec::new(),
        }
    }

    /// Retrieve a specific claimed plan belonging to the authenticated user.
    pub fn get_claimed_plan(&self, env: &Env, user: Address, plan_id: u64) -> (plan: Result<
        InheritancePlan,
        InheritanceError,
    >)
        requires
            env.authorized(user),
        ensures
            ({
                let claimed = list_of(self@.plans.claimed_by_owner, user).contains(plan_id);
                match plan {
                    Ok(p) => self@.owner_error(plan_id, user) is None && claimed && p@
                        == self@.plans.records[plan_id],
                    Err(e) => if self@.owner_error(plan_id, user) is Some {
                        self@.owner_error(plan_id, user) == Some(e)
                    } else {
                        !claimed && e == InheritanceError::PlanNotClaimed
                    },
                }
            }),
    {
        match self.require_owner(plan_id, user) {
            Ok(plan) => {
                if list_contains(&self.claimed_plan_ids(user), &plan_id) {
                    Ok(plan.duplicate())
                } else {
                    Err(InheritanceError::PlanNotClaimed)
                }
            },
            Err(e) => Err(e),
        }
    }

    /// Retrieve all claimed plans for the authenticated user.
    pub fn get_user_claimed_plans(&self, env: &Env, user: Address) -> (plans: List<InheritancePlan>)
        requires
            env.authorized(user),
        ensures
            plans@ == plans_found(
                self@.plans.records,
                list_of(self@.plans.claimed_by_owner, user),
                None,
            ),
    {
        self.collect_plans(&self.claimed_plan_ids(user), None)
    }

    /// Retrieve all claimed plans across all users; accessible only by
    /// administrators.
    pub fn get_all_claimed_plans(&self, env: &Env, admin: Address) -> (plans: Result<
        List<InheritancePlan>,
        InheritanceError,
    >)
        requires
            env.authorized(admin),
        ensures
            match plans {
                Err(e) => self@.admin_error(admin) == Some(e),
                Ok(list) => self@.admin_error(admin) is None && list@ == plans_found(
                    self@.plans.records,
                    self@.plans.claimed,
                    None,
                ),
            },
    {
        match self.require_admin(env, admin) {
            Ok(()) => {},
            Err(e) => {
                return Err(e);
            },
        }
        Ok(self.collect_plans(&self.plans.claimed, None))
    }
}

/// Plans are held in USDC, have a name, a description of at most 500 bytes, and a
/// positive amount.
pub proof fn law_general_terms(
    plan_name: Seq<u8>,
    description: Seq<u8>,
    asset_type: Seq<u8>,
    total_amount: u64,
)
    ensures
        plan_inputs_error(plan_name, description, asset_type, total_amount) is None <==> {
            &&& plan_name.len() > 0
            &&& description.len() <= 500
            &&& asset_type == seq![85u8, 83u8, 68u8, 67u8]
            &&& total_amount > 0
        },
{
    reveal_strlit("USDC");
    is_ascii_chars_encode_utf8("USDC"@);
    assert(usdc() =~= seq![85u8, 83u8, 68u8, 67u8]);
}

/// A plan is created exactly for an owner whose identity was approved, who holds the
/// amount, once there is an admin to take the fee, with terms and beneficiaries that
/// are accepted, if the fee could be paid where there is one.
pub proof fn law_plans_are_admitted(
    contract: InheritanceView,
    params: CreateInheritancePlanParamsView,
    balance: i128,
    fee_paid: bool,
)
    ensures
        contract.create_plan_error(params, balance, fee_paid) is None <==> {
            &&& contract.kyc.contains_key(params.owner) && contract.kyc[params.owner].approved
            &&& contract.admin is Some
            &&& params.total_amount > 0
            &&& params.plan_name.len() > 0
            &&& params.description.len() <= 500
            &&& balance >= params.total_amount
            &&& params.total_amount >= 50 ==> fee_paid
            &&& inputs_error(params.beneficiaries_data) is None
            &&& first_making_error(
                params.beneficiaries_data,
                params.beneficiaries_data.len() as int,
            ) is None
        },
        creation_fee(params.total_amount) == params.total_amount / 50,
{
    assert((params.total_amount * 200) / 10_000 == params.total_amount / 50);
}

/// A plan that was created holds what the owner paid without the fee of one fiftieth,
/// which goes to the admin while the rest goes to the contract. The plan is active, has
/// nothing on loan, takes its terms as stated, and is filed under the next id for its
/// owner, who has the owner's role. All else stays.
pub proof fn law_creating_plans(
    contract: InheritanceView,
    env: Env,
    params: CreateInheritancePlanParamsView,
    salts: Seq<Digest>,
    balance: i128,
    fee_paid: bool,
)
    requires
        contract.create_plan_error(params, balance, fee_paid) is None,
        contract.plans.next_id < 0xffff_ffff_ffff_ffff,
    ensures
        ({
            let after = contract.plan_created(env, params, salts);
            let id = contract.plans.next_id;
            let plan = after.plans.records[id];
            let fee = params.total_amount / 50;
            let rest = (params.total_amount - fee) as u64;
            let inputs = params.beneficiaries_data;
            let to_vault = InheritanceCall::Transfer {
                token: params.token,
                from: params.owner,
                to: env.contract,
                amount: rest,
            };
            &&& fee > 0 ==> after.calls == contract.calls.push(
                InheritanceCall::Transfer {
                    token: params.token,
                    from: params.owner,
                    to: contract.admin->0,
                    amount: fee,
                },
            ).push(to_vault)
            &&& fee == 0 ==> after.calls == contract.calls.push(to_vault)
            &&& plan.total_amount + fee == params.total_amount
            &&& plan == (InheritancePlanView {
                plan_name: params.plan_name,
                description: params.description,
                asset_type: seq![85u8, 83u8, 68u8, 67u8],
                total_amount: rest,
                distribution_method: params.distribution_method,
                beneficiaries: made_beneficiaries(inputs, salts, inputs.len() as int),
                total_allocation_bp: 10_000,
                owner: params.owner,
                created_at: env.timestamp,
                is_active: true,
                is_lendable: params.is_lendable,
                total_loaned: 0,
                waterfall_enabled: false,
                grace_period: 0,
                earn_yield: false,
            })
            &&& after.plans.next_id == id + 1
            &&& after.plans.records == contract.plans.records.insert(id, plan)
            &&& after.plans.by_owner == contract.plans.by_owner.insert(
                params.owner,
                list_of(contract.plans.by_owner, params.owner).push(id),
            )
            &&& after.plans.deactivated == contract.plans.deactivated
            &&& after.plans.claimed == contract.plans.claimed
            &&& after.plans.claimed_by_owner == contract.plans.claimed_by_owner
            &&& after.access == contract.access.assigned(params.owner, Role::Owner)
            &&& after == (InheritanceView {
                plans: after.plans,
                access: after.access,
                calls: after.calls,
                claims: ClaimBookView {
                    salts: salts_filed(contract.claims.salts, id, salts, inputs.len() as int),
                    ..contract.claims
                },
                ..contract
            })
        }),
{
    law_plans_are_admitted(contract, params, balance, fee_paid);
    law_general_terms(params.plan_name, params.description, usdc(), params.total_amount);
    reveal_strlit("USDC");
    is_ascii_chars_encode_utf8("USDC"@);
    assert(usdc() =~= seq![85u8, 83u8, 68u8, 67u8]);
}

/// A grace period is from seven days up to five years of 365 days. A plan is updated by
/// its owner before inheritance was triggered, with beneficiaries that are accepted.
pub proof fn law_updates_are_admitted(
    contract: InheritanceView,
    owner: Address,
    plan_id: u64,
    seconds: u64,
    inputs: Seq<BeneficiaryInputView>,
)
    ensures
        contract.grace_error(plan_id, seconds) is None
            <==> contract.plans.records.contains_key(plan_id) && 7 * 86_400 <= seconds <= 5 * 365
            * 86_400,
        contract.update_plan_error(owner, plan_id, inputs) is None <==> {
            &&& contract.plans.records.contains_key(plan_id)
            &&& contract.plans.records[plan_id].owner == owner
            &&& !contract.triggers.infos.contains_key(plan_id)
            &&& inputs_error(inputs) is None
            &&& first_making_error(inputs, inputs.len() as int) is None
        },
{
}

/// An update replaces the beneficiaries with their salts, the grace period and whether
/// the plan earns yield; amounts, owner and everything else stay.
pub proof fn law_updating_plans(
    contract: InheritanceView,
    plan_id: u64,
    inputs: Seq<BeneficiaryInputView>,
    grace_period: u64,
    earn_yield: bool,
    salts: Seq<Digest>,
)
    ensures
        ({
            let after = contract.plan_updated(plan_id, inputs, grace_period, earn_yield, salts);
            let n = inputs.len() as int;
            after == (InheritanceView {
                plans: PlanBookView {
                    records: contract.plans.records.insert(
                        plan_id,
                        InheritancePlanView {
                            beneficiaries: made_beneficiaries(inputs, salts, n),
                            total_allocation_bp: 10_000,
                            grace_period,
                            earn_yield,
                            ..contract.plans.records[plan_id]
                        },
                    ),
                    ..contract.plans
                },
                claims: ClaimBookView {
                    salts: salts_filed(contract.claims.salts, plan_id, salts, n),
                    ..contract.claims
                },
                ..contract
            })
        }),
{
}

/// A deposit is taken exactly from the owner of an active plan under no hold, of a
/// positive amount that the owner holds; a withdrawal is made exactly to the owner of a
/// plan under no hold, of a positive amount that is not on loan, and of at most a tenth
/// of the vault during the day after emergency access was activated.
pub proof fn law_vault_moves_are_admitted(
    contract: InheritanceView,
    now: u64,
    caller: Address,
    plan_id: u64,
    amount: u64,
    balance: i128,
)
    ensures
        ({
            let plan = contract.plans.records[plan_id];
            let free = !contract.holds.freezes.contains_key(plan_id)
                && !contract.holds.legal_holds.contains_key(plan_id);
            let owns = contract.plans.records.contains_key(plan_id) && plan.owner == caller;
            let access = contract.emergency.access[plan_id];
            &&& contract.deposit_error(caller, plan_id, amount, balance, true) is None <==> amount
                > 0 && owns && plan.is_active && free && balance >= amount
            &&& contract.deposit_error(caller, plan_id, amount, balance, false) is Some
            &&& contract.withdraw_error(now, caller, plan_id, amount, true) is None <==> {
                &&& amount > 0
                &&& owns
                &&& free
                &&& contract.emergency.access.contains_key(plan_id) && now < access.activated_at
                    + 86_400 ==> amount <= plan.total_amount / 10
                &&& amount + plan.total_loaned <= plan.total_amount
            }
            &&& contract.withdraw_error(now, caller, plan_id, amount, false) is Some
        }),
{
    let total = contract.plans.records[plan_id].total_amount;
    assert((total * 1_000) / 10_000 == total / 10);
}

/// A deposit moves the amount from the caller to the contract, and the plan holds that
/// much more; a withdrawal moves it from the contract to the caller, and the plan holds
/// that much less. Both are announced, and all else stays, but for emergency access
/// that lapsed.
pub proof fn law_vault_moves(
    contract: InheritanceView,
    env: Env,
    caller: Address,
    token: Address,
    plan_id: u64,
    amount: u64,
)
    requires
        contract.plans.records.contains_key(plan_id),
    ensures
        contract.plans.records[plan_id].total_amount + amount <= 0xffff_ffff_ffff_ffff ==> {
            let plan = contract.plans.records[plan_id];
            let after = contract.deposited(env.contract, caller, token, plan_id, amount);
            let left = after.plans.records[plan_id];
            &&& left.total_amount == plan.total_amount + amount
            &&& after == (InheritanceView {
                plans: PlanBookView {
                    records: contract.plans.records.insert(
                        plan_id,
                        InheritancePlanView { total_amount: left.total_amount, ..plan },
                    ),
                    ..contract.plans
                },
                calls: contract.calls.push(
                    InheritanceCall::Transfer { token, from: caller, to: env.contract, amount },
                ),
                events: contract.events.push(
                    InheritanceEventView::VaultDeposit(VaultDepositEvent { plan_id, amount }),
                ),
                ..contract
            })
        },
        contract.plans.records[plan_id].total_amount >= amount ==> {
            let plan = contract.plans.records[plan_id];
            let after = contract.withdrawn(env, caller, token, plan_id, amount);
            let left = after.plans.records[plan_id];
            &&& left.total_amount + amount == plan.total_amount
            &&& after == (InheritanceView {
                plans: PlanBookView {
                    records: contract.plans.records.insert(
                        plan_id,
                        InheritancePlanView { total_amount: left.total_amount, ..plan },
                    ),
                    ..contract.plans
                },
                calls: contract.calls.push(
                    InheritanceCall::Transfer { token, from: env.contract, to: caller, amount },
                ),
                emergency: after.emergency,
                events: after.events,
                ..contract
            })
            &&& after.events.last() == InheritanceEventView::VaultWithdraw(
                VaultWithdrawEvent { plan_id, amount },
            )
            &&& !contract.emergency_lapsed(env.timestamp, plan_id) ==> after.emergency
                == contract.emergency && after.events.drop_last() == contract.events
        },
{
    let after = contract.withdrawn(env, caller, token, plan_id, amount);
    if !contract.emergency_lapsed(env.timestamp, plan_id) {
        assert(after.events.drop_last() =~= contract.events);
    }
}

/// The owner of a plan deactivates it once, and hands it over while it is active,
/// untriggered and under no hold. The owner and the trusted contact within the seven
/// days of emergency access are shown the plan, and nobody else is.
pub proof fn law_plan_calls_are_admitted(
    contract: InheritanceView,
    now: u64,
    caller: Address,
    plan_id: u64,
)
    ensures
        ({
            let plan = contract.plans.records[plan_id];
            let filed = contract.plans.records.contains_key(plan_id);
            let owns = filed && plan.owner == caller;
            let access = contract.emergency.access[plan_id];
            &&& contract.deactivate_error(caller, plan_id) is None <==> owns && plan.is_active
            &&& contract.transfer_ownership_error(caller, plan_id) is None <==> owns
                && plan.is_active && !contract.triggers.infos.contains_key(plan_id)
                && !contract.holds.freezes.contains_key(plan_id)
                && !contract.holds.legal_holds.contains_key(plan_id)
            &&& contract.read_error(now, caller, plan_id) is None <==> owns || (filed
                && contract.emergency.access.contains_key(plan_id) && now <= access.activated_at
                + 604_800 && access.trusted_contact == caller)
            &&& contract.owner_error(plan_id, caller) is None <==> owns
            &&& contract.kyc_error(caller) is None <==> contract.kyc.contains_key(caller)
                && contract.kyc[caller].approved
        }),
{
}

/// Deactivating a plan makes it inactive, files it among the deactivated ones and
/// announces it with its owner and amount; no tokens move. Handing a plan over changes
/// its owner and the lists of both owners, and is announced.
pub proof fn law_deactivating_and_handing_over(
    contract: InheritanceView,
    now: u64,
    new_owner: Address,
    plan_id: u64,
    id: u64,
)
    requires
        contract.plans.records.contains_key(plan_id),
        contract.plans.records[plan_id].owner != new_owner,
    ensures
        ({
            let plan = contract.plans.records[plan_id];
            contract.deactivated(now, plan_id) == (InheritanceView {
                plans: PlanBookView {
                    records: contract.plans.records.insert(
                        plan_id,
                        InheritancePlanView { is_active: false, ..plan },
                    ),
                    deactivated: contract.plans.deactivated.push(plan_id),
                    ..contract.plans
                },
                events: contract.events.push(
                    InheritanceEventView::PlanDeactivated(
                        PlanDeactivatedEvent {
                            plan_id,
                            owner: plan.owner,
                            total_amount: plan.total_amount,
                            deactivated_at: now,
                        },
                    ),
                ),
                ..contract
            })
        }),
        ({
            let plan = contract.plans.records[plan_id];
            let after = contract.ownership_transferred(now, new_owner, plan_id);
            let lists = contract.plans.by_owner;
            &&& list_of(after.plans.by_owner, plan.owner).contains(id) <==> list_of(
                lists,
                plan.owner,
            ).contains(id) && id != plan_id
            &&& list_of(after.plans.by_owner, new_owner) == list_of(lists, new_owner).push(plan_id)
            &&& forall|who: Address|
                who != plan.owner && who != new_owner ==> #[trigger] list_of(
                    after.plans.by_owner,
                    who,
                ) == list_of(lists, who)
            &&& after == (InheritanceView {
                plans: PlanBookView {
                    records: contract.plans.records.insert(
                        plan_id,
                        InheritancePlanView { owner: new_owner, ..plan },
                    ),
                    by_owner: after.plans.by_owner,
                    ..contract.plans
                },
                events: contract.events.push(
                    InheritanceEventView::PlanOwnershipTransferred(
                        PlanOwnershipTransferredEvent {
                            plan_id,
                            old_owner: plan.owner,
                            new_owner,
                            transferred_at: now,
                        },
                    ),
                ),
                ..contract
            })
        }),
{
    let plan = contract.plans.records[plan_id];
    lemma_without_contains(list_of(contract.plans.by_owner, plan.owner), plan_id, id);
}

/// A search through ids gives the plans on file in their order, each as often as its id
/// occurs, and with a wish only those that are active, or not, as wished. All ids are
/// those from one up to the next.
pub proof fn law_finding_plans(
    records: Map<u64, InheritancePlanView>,
    ids: Seq<u64>,
    id: u64,
    wish: Option<bool>,
    next_id: u64,
)
    requires
        next_id >= 1,
    ensures
        plans_found(records, Seq::empty(), wish).len() == 0,
        ({
            let fits = records.contains_key(id) && match wish {
                None => true,
                Some(active) => records[id].is_active == active,
            };
            plans_found(records, ids.push(id), wish) == if fits {
                plans_found(records, ids, wish).push(records[id])
            } else {
                plans_found(records, ids, wish)
            }
        }),
        ids_below(next_id).len() == next_id - 1,
        forall|i: int| 0 <= i < next_id - 1 ==> #[trigger] ids_below(next_id)[i] == i + 1,
{
    assert(ids.push(id).drop_last() =~= ids);
}

/// Why the general terms of a plan are refused: every reason that is given holds.
pub proof fn law_reason_plan_inputs(
    plan_name: Seq<u8>,
    description: Seq<u8>,
    asset_type: Seq<u8>,
    total_amount: u64,
)
    ensures
        match plan_inputs_error(plan_name, description, asset_type, total_amount) {
            None => true,
            Some(InheritanceError::MissingRequiredField) => plan_name.len() == 0,
            Some(InheritanceError::DescriptionTooLong) => description.len() > MAX_DESCRIPTION_LEN,
            Some(InheritanceError::InvalidAssetType) => asset_type != usdc(),
            Some(InheritanceError::InvalidTotalAmount) => total_amount == 0,
            Some(_) => false,
        },
{
}

/// Why a user who has not been identified is refused: every reason that is given holds.
pub proof fn law_reason_kyc(contract: InheritanceView, user: Address)
    ensures
        match contract.kyc_error(user) {
            None => true,
            Some(error) => error == InheritanceError::KycNotSubmitted && !(
            contract.kyc.contains_key(user) && contract.kyc[user].approved),
        },
{
}

/// Why a plan is not created: every reason that is given holds.
pub proof fn law_reason_create_plan(
    contract: InheritanceView,
    params: CreateInheritancePlanParamsView,
    balance: i128,
    fee_paid: bool,
)
    ensures
        ({
            let inputs = params.beneficiaries_data;
            match contract.create_plan_error(params, balance, fee_paid) {
                None => true,
                Some(InheritanceError::AdminNotSet) => contract.admin is None
                    || inputs_error(inputs) == Some(InheritanceError::AdminNotSet)
                    || first_making_error(inputs, inputs.len() as int)
                    == Some(InheritanceError::AdminNotSet),
                Some(InheritanceError::InvalidTotalAmount) => params.total_amount == 0
                    || plan_inputs_error(params.plan_name, params.description, usdc(),
                    params.total_amount) == Some(InheritanceError::InvalidTotalAmount)
                    || inputs_error(inputs) == Some(InheritanceError::InvalidTotalAmount)
                    || first_making_error(inputs, inputs.len() as int)
                    == Some(InheritanceError::InvalidTotalAmount),
                Some(InheritanceError::InsufficientBalance) => balance < params.total_amount
                    || inputs_error(inputs) == Some(InheritanceError::InsufficientBalance)
                    || first_making_error(inputs, inputs.len() as int)
                    == Some(InheritanceError::InsufficientBalance),
                Some(InheritanceError::FeeTransferFailed) => (creation_fee(params.total_amount) > 0
                    && !fee_paid) || inputs_error(inputs)
                    == Some(InheritanceError::FeeTransferFailed) || first_making_error(inputs,
                    inputs.len() as int) == Some(InheritanceError::FeeTransferFailed),
                Some(error) => contract.kyc_error(params.owner) == Some(error)
                    || plan_inputs_error(params.plan_name, params.description, usdc(),
                    params.total_amount) == Some(error) || inputs_error(inputs) == Some(error)
                    || first_making_error(inputs, inputs.len() as int) == Some(error),
            }
        }),
{
}

/// Why a grace period is not set: every reason that is given holds.
pub proof fn law_reason_grace(contract: InheritanceView, plan_id: u64, new_grace_period: u64)
    ensures
        match contract.grace_error(plan_id, new_grace_period) {
            None => true,
            Some(InheritanceError::PlanNotFound) => !contract.plans.records.contains_key(plan_id),
            Some(InheritanceError::InvalidBeneficiaryData) => !(MIN_GRACE_PERIOD_SECONDS
                <= new_grace_period <= MAX_GRACE_PERIOD_SECONDS),
            Some(_) => false,
        },
{
}

/// Why a plan is not updated: every reason that is given holds.
pub proof fn law_reason_update_plan(
    contract: InheritanceView,
    owner: Address,
    plan_id: u64,
    inputs: Seq<BeneficiaryInputView>,
)
    ensures
        match contract.update_plan_error(owner, plan_id, inputs) {
            None => true,
            Some(InheritanceError::InheritanceAlreadyTriggered) => contract.triggered(plan_id)
                || inputs_error(inputs) == Some(InheritanceError::InheritanceAlreadyTriggered)
                || first_making_error(inputs, inputs.len() as int)
                == Some(InheritanceError::InheritanceAlreadyTriggered),
            Some(error) => contract.owner_error(plan_id, owner) == Some(error)
                || inputs_error(inputs) == Some(error) || first_making_error(inputs, inputs.len()
                as int) == Some(error),
        },
{
}

/// Why a deposit is refused: every reason that is given holds.
pub proof fn law_reason_deposit(
    contract: InheritanceView,
    caller: Address,
    plan_id: u64,
    amount: u64,
    balance: i128,
    transferred: bool,
)
    ensures
        match contract.deposit_error(caller, plan_id, amount, balance, transferred) {
            None => true,
            Some(InheritanceError::InvalidTotalAmount) => amount == 0,
            Some(InheritanceError::PlanNotActive) => !contract.plans.records[plan_id].is_active
                || contract.on_hold(plan_id),
            Some(InheritanceError::InsufficientBalance) => balance < amount,
            Some(InheritanceError::FeeTransferFailed) => !transferred,
            Some(error) => contract.owner_error(plan_id, caller) == Some(error),
        },
{
}

/// Why a withdrawal is refused: every reason that is given holds.
pub proof fn law_reason_withdraw(
    contract: InheritanceView,
    now: u64,
    caller: Address,
    plan_id: u64,
    amount: u64,
    transferred: bool,
)
    ensures
        ({
            let plan = contract.plans.records[plan_id];
            match contract.withdraw_error(now, caller, plan_id, amount, transferred) {
                None => true,
                Some(InheritanceError::InvalidTotalAmount) => amount == 0,
                Some(InheritanceError::PlanNotActive) => contract.on_hold(plan_id),
                Some(InheritanceError::EmergencyCooldownActive) => contract.emergency_active(now,
                    plan_id) && amount > emergency_limit(plan.total_amount),
                Some(InheritanceError::InsufficientLiquidity) => amount
                    > saturating_difference(plan.total_amount, plan.total_loaned),
                Some(InheritanceError::FeeTransferFailed) => !transferred,
                Some(error) => contract.owner_error(plan_id, caller) == Some(error),
            }
        }),
{
}

/// Why a plan is not deactivated: every reason that is given holds.
pub proof fn law_reason_deactivate(contract: InheritanceView, owner: Address, plan_id: u64)
    ensures
        match contract.deactivate_error(owner, plan_id) {
            None => true,
            Some(InheritanceError::PlanAlreadyDeactivated) =>
                !contract.plans.records[plan_id].is_active,
            Some(error) => contract.owner_error(plan_id, owner) == Some(error),
        },
{
}

/// Why a plan is not handed over: every reason that is given holds.
pub proof fn law_reason_transfer_ownership(contract: InheritanceView, owner: Address, plan_id: u64)
    ensures
        match contract.transfer_ownership_error(owner, plan_id) {
            None => true,
            Some(InheritanceError::PlanNotActive) => !contract.plans.records[plan_id].is_active
                || contract.triggered(plan_id) || contract.on_hold(plan_id),
            Some(error) => contract.owner_error(plan_id, owner) == Some(error),
        },
{
}

/// Why a plan is not shown to a caller: every reason that is given holds.
pub proof fn law_reason_read(contract: InheritanceView, now: u64, caller: Address, plan_id: u64)
    ensures
        match contract.read_error(now, caller, plan_id) {
            None => true,
            Some(InheritanceError::PlanNotFound) => !contract.plans.records.contains_key(plan_id),
            Some(InheritanceError::Unauthorized) => contract.plans.records[plan_id].owner != caller
                && !(contract.emergency_held(now, plan_id)
                && contract.emergency.access[plan_id].trusted_contact == caller),
            Some(_) => false,
        },
{
}

} // verus!
