//! The beneficiaries of a plan: who they are, what they are allocated, and in what
//! order they are paid.
use vstd::prelude::*;

use crate::host::{Address, Env};
use crate::inheritance::hashing::{
    claim_code_hash, hash_claim_code_with_salt, hash_data, hash_of, Digest, MAX_CLAIM_CODE,
    MAX_TEXT_LEN,
};
use crate::inheritance::state::{
    allocations, lemma_plan_on_file, lemma_plan_update, plan_valid, ClaimBookView,
    InheritanceContract, InheritanceView, PlanBookView, MAX_BENEFICIARIES,
};
use crate::inheritance::types::{
    BatchAllocationsUpdatedEvent, BatchBeneficiariesAddedEvent, BatchBeneficiariesRemovedEvent,
    Beneficiary, BeneficiaryAddedEvent, BeneficiaryInput, BeneficiaryInputView,
    BeneficiaryRemovedEvent, BeneficiaryView, InheritanceError, InheritanceEvent,
    InheritanceEventView, InheritancePlan, InheritancePlanView, PrioritySetEvent,
    WaterfallEnabledEvent,
};
use crate::list::{list_contains, same_bytes, swap_removed, List};
use crate::math::{bps_share, lemma_share_bounded, share_bps, smaller};

verus! {

/// Most items of a batch.
pub const BATCH_LIMIT: usize = 20;

/// Why a beneficiary cannot be made of what an owner states.
pub open spec fn beneficiary_error(input: BeneficiaryInputView) -> Option<InheritanceError> {
    if input.name.len() == 0 || input.email.len() == 0 || input.bank_account.len() == 0 {
        Some(InheritanceError::InvalidBeneficiaryData)
    } else if input.allocation_bp == 0 {
        Some(InheritanceError::InvalidAllocation)
    } else if input.claim_code > MAX_CLAIM_CODE {
        Some(InheritanceError::InvalidClaimCodeRange)
    } else {
        None
    }
}

/// The name and the email of a beneficiary can be hashed.
pub open spec fn texts_fit(input: BeneficiaryInputView) -> bool {
    input.name.len() <= MAX_TEXT_LEN && input.email.len() <= MAX_TEXT_LEN
}

/// The names and emails of all beneficiaries are short enough to be hashed.
pub open spec fn all_texts_fit(inputs: Seq<BeneficiaryInputView>) -> bool {
    forall|i: int| 0 <= i < inputs.len() ==> texts_fit(#[trigger] inputs[i])
}

/// The beneficiary that is made of what an owner states.
pub open spec fn made_beneficiary(input: BeneficiaryInputView, salt: Digest) -> BeneficiaryView {
    BeneficiaryView {
        hashed_full_name: hash_of(input.name),
        hashed_email: hash_of(input.email),
        hashed_claim_code: claim_code_hash(input.claim_code, salt),
        bank_account: input.bank_account,
        allocation_bp: input.allocation_bp,
        priority: input.priority,
        is_claimed: false,
    }
}

/// What the first `n` inputs are allocated together.
pub open spec fn input_allocations(inputs: Seq<BeneficiaryInputView>, n: int) -> int
    decreases n,
{
    if n <= 0 {
        0
    } else {
        input_allocations(inputs, n - 1) + inputs[n - 1].allocation_bp
    }
}

/// Why the `i`-th input is refused in view of those before it.
pub open spec fn input_error(inputs: Seq<BeneficiaryInputView>, i: int) -> Option<
    InheritanceError,
> {
    if inputs[i].name.len() == 0 {
        Some(InheritanceError::InvalidBeneficiaryData)
    } else if exists|j: int| 0 <= j < i && (#[trigger] inputs[j]).email == inputs[i].email {
        Some(InheritanceError::InvalidBeneficiaryData)
    } else if input_allocations(inputs, i + 1) > u32::MAX {
        Some(InheritanceError::AllocationPercentageMismatch)
    } else if inputs[i].priority == 0 {
        Some(InheritanceError::PriorityOutOfRange)
    } else if exists|j: int| 0 <= j < i && (#[trigger] inputs[j]).priority == inputs[i].priority {
        Some(InheritanceError::DuplicatePriority)
    } else {
        None
    }
}

/// Why one of the first `n` inputs is refused: the first reason counts.
pub open spec fn first_input_error(inputs: Seq<BeneficiaryInputView>, n: int) -> Option<
    InheritanceError,
>
    decreases n,
{
    if n <= 0 {
        None
    } else if first_input_error(inputs, n - 1) is Some {
        first_input_error(inputs, n - 1)
    } else {
        input_error(inputs, n - 1)
    }
}

/// Why a list of beneficiaries is refused.
pub open spec fn inputs_error(inputs: Seq<BeneficiaryInputView>) -> Option<InheritanceError> {
    if inputs.len() > MAX_BENEFICIARIES {
        Some(InheritanceError::TooManyBeneficiaries)
    } else if inputs.len() == 0 {
        Some(InheritanceError::MissingRequiredField)
    } else if first_input_error(inputs, inputs.len() as int) is Some {
        first_input_error(inputs, inputs.len() as int)
    } else if input_allocations(inputs, inputs.len() as int) != 10_000 {
        Some(InheritanceError::AllocationPercentageMismatch)
    } else {
        None
    }
}

/// Why one of the first `n` beneficiaries cannot be made: the first reason counts.
pub open spec fn first_making_error(inputs: Seq<BeneficiaryInputView>, n: int) -> Option<
    InheritanceError,
>
    decreases n,
{
    if n <= 0 {
        None
    } else if first_making_error(inputs, n - 1) is Some {
        first_making_error(inputs, n - 1)
    } else {
        beneficiary_error(inputs[n - 1])
    }
}

/// The beneficiaries that are made of the first `n` inputs.
pub open spec fn made_beneficiaries(
    inputs: Seq<BeneficiaryInputView>,
    salts: Seq<Digest>,
    n: int,
) -> Seq<BeneficiaryView>
    decreases n,
{
    if n <= 0 {
        Seq::empty()
    } else {
        made_beneficiaries(inputs, salts, n - 1).push(
            made_beneficiary(inputs[n - 1], salts[n - 1]),
        )
    }
}

/// The salts on file after the first `n` beneficiaries of a plan got theirs.
pub open spec fn salts_filed(
    filed: Map<(u64, u32), Digest>,
    plan_id: u64,
    salts: Seq<Digest>,
    n: int,
) -> Map<(u64, u32), Digest>
    decreases n,
{
    if n <= 0 {
        filed
    } else {
        salts_filed(filed, plan_id, salts, n - 1).insert(
            (plan_id, (n - 1) as u32),
            salts[n - 1],
        )
    }
}

/// Why a beneficiary cannot join a plan.
pub open spec fn join_error(plan: InheritancePlanView, input: BeneficiaryInputView) -> Option<
    InheritanceError,
> {
    if plan.beneficiaries.len() >= MAX_BENEFICIARIES {
        Some(InheritanceError::TooManyBeneficiaries)
    } else if input.allocation_bp == 0 {
        Some(InheritanceError::InvalidAllocation)
    } else if plan.total_allocation_bp + input.allocation_bp > 10_000 {
        Some(InheritanceError::AllocationExceedsLimit)
    } else {
        beneficiary_error(input)
    }
}

/// The plan after a beneficiary joined it.
pub open spec fn joined(plan: InheritancePlanView, beneficiary: BeneficiaryView)
    -> InheritancePlanView {
    InheritancePlanView {
        beneficiaries: plan.beneficiaries.push(beneficiary),
        total_allocation_bp: (plan.total_allocation_bp + beneficiary.allocation_bp) as u32,
        ..plan
    }
}

/// The plan after the first `n` inputs of a batch; an input that cannot join is
/// passed over.
pub open spec fn batch_joined(
    plan: InheritancePlanView,
    inputs: Seq<BeneficiaryInputView>,
    salts: Seq<Digest>,
    n: int,
) -> InheritancePlanView
    decreases n,
{
    if n <= 0 {
        plan
    } else {
        let before = batch_joined(plan, inputs, salts, n - 1);
        if join_error(before, inputs[n - 1]) is None {
            joined(before, made_beneficiary(inputs[n - 1], salts[n - 1]))
        } else {
            before
        }
    }
}

/// The name and the email of each beneficiary of a batch who joins the plan are
/// short enough to be hashed.
pub open spec fn batch_texts_fit(
    plan: InheritancePlanView,
    inputs: Seq<BeneficiaryInputView>,
    salts: Seq<Digest>,
) -> bool {
    forall|i: int|
        0 <= i < inputs.len() && join_error(
            #[trigger] batch_joined(plan, inputs, salts, i),
            inputs[i],
        ) is None ==> texts_fit(inputs[i])
}

/// How many of the first `n` inputs of a batch joined the plan.
pub open spec fn batch_join_count(
    plan: InheritancePlanView,
    inputs: Seq<BeneficiaryInputView>,
    salts: Seq<Digest>,
    n: int,
) -> nat
    decreases n,
{
    if n <= 0 {
        0
    } else {
        let before = batch_joined(plan, inputs, salts, n - 1);
        batch_join_count(plan, inputs, salts, n - 1) + if join_error(before, inputs[n - 1])
            is None {
            1nat
        } else {
            0nat
        }
    }
}

/// The salts on file after the first `n` inputs of a batch. The salt of an input is
/// filed before its claim code is looked at.
pub open spec fn batch_salts(
    filed: Map<(u64, u32), Digest>,
    plan_id: u64,
    plan: InheritancePlanView,
    inputs: Seq<BeneficiaryInputView>,
    salts: Seq<Digest>,
    n: int,
) -> Map<(u64, u32), Digest>
    decreases n,
{
    if n <= 0 {
        filed
    } else {
        let before = batch_joined(plan, inputs, salts, n - 1);
        let error = join_error(before, inputs[n - 1]);
        let rest = batch_salts(filed, plan_id, plan, inputs, salts, n - 1);
        if error is None || error == Some(InheritanceError::InvalidClaimCodeRange) {
            rest.insert((plan_id, before.beneficiaries.len() as u32), salts[n - 1])
        } else {
            rest
        }
    }
}

/// The beneficiaries after those from index `i` on that are to be removed were
/// removed, the last of them first; the last beneficiary takes the place of a
/// removed one.
pub open spec fn batch_removed(beneficiaries: Seq<BeneficiaryView>, indices: Seq<u32>, i: int)
    -> Seq<BeneficiaryView>
    decreases beneficiaries.len() - i,
{
    if i >= beneficiaries.len() {
        beneficiaries
    } else {
        let rest = batch_removed(beneficiaries, indices, i + 1);
        if indices.contains(i as u32) {
            swap_removed(rest, i)
        } else {
            rest
        }
    }
}

/// How many of the indices from `i` up to `len` are to be removed.
pub open spec fn removal_count(len: int, indices: Seq<u32>, i: int) -> nat
    decreases len - i,
{
    if i >= len {
        0
    } else {
        removal_count(len, indices, i + 1) + if indices.contains(i as u32) {
            1nat
        } else {
            0nat
        }
    }
}

/// The first `n` of some numbers taken together.
pub open spec fn total_of(numbers: Seq<u32>, n: int) -> int
    decreases n,
{
    if n <= 0 {
        0
    } else {
        total_of(numbers, n - 1) + numbers[n - 1]
    }
}

/// The beneficiaries with other allocations.
pub open spec fn reallocated(beneficiaries: Seq<BeneficiaryView>, shares: Seq<u32>) -> Seq<
    BeneficiaryView,
> {
    Seq::new(
        beneficiaries.len(),
        |i: int| BeneficiaryView { allocation_bp: shares[i], ..beneficiaries[i] },
    )
}

/// A beneficiary of higher priority has not claimed yet. Priority zero gates nobody.
pub open spec fn waterfall_blocked(plan: InheritancePlanView, index: int) -> bool {
    exists|i: int|
        0 <= i < plan.beneficiaries.len() && (#[trigger] plan.beneficiaries[i]).priority != 0
            && plan.beneficiaries[i].priority < plan.beneficiaries[index].priority
            && !plan.beneficiaries[i].is_claimed
}

/// What a beneficiary is entitled to: the allocated share of the remaining vault.
pub open spec fn entitlement(plan: InheritancePlanView, index: int) -> u64 {
    smaller(
        bps_share(plan.total_amount, plan.beneficiaries[index].allocation_bp),
        plan.total_amount,
    )
}

/// What a beneficiary can be paid now: nothing, as long as somebody of higher
/// priority is waiting in a plan that pays in order.
pub open spec fn waterfall_payout(plan: InheritancePlanView, index: int) -> u64 {
    if plan.waterfall_enabled && waterfall_blocked(plan, index) {
        0
    } else {
        entitlement(plan, index)
    }
}

impl InheritanceView {
    /// The contract with other salts of claim codes.
    pub open spec fn with_salts(self, salts: Map<(u64, u32), Digest>) -> InheritanceView {
        InheritanceView { claims: ClaimBookView { salts, ..self.claims }, ..self }
    }

    /// Why a beneficiary is not added.
    pub open spec fn add_beneficiary_error(
        self,
        owner: Address,
        plan_id: u64,
        input: BeneficiaryInputView,
    ) -> Option<InheritanceError> {
        if self.owner_error(plan_id, owner) is Some {
            self.owner_error(plan_id, owner)
        } else {
            join_error(self.plans.records[plan_id], input)
        }
    }

    /// The contract after a beneficiary was added.
    pub open spec fn beneficiary_added(
        self,
        plan_id: u64,
        input: BeneficiaryInputView,
        salt: Digest,
    ) -> InheritanceView {
        let plan = self.plans.records[plan_id];
        let beneficiary = made_beneficiary(input, salt);
        self.with_salts(
            self.claims.salts.insert((plan_id, plan.beneficiaries.len() as u32), salt),
        ).with_plan(plan_id, joined(plan, beneficiary)).with_event(
            InheritanceEventView::BeneficiaryAdded(
                BeneficiaryAddedEvent {
                    plan_id,
                    hashed_email: beneficiary.hashed_email,
                    allocation_bp: input.allocation_bp,
                },
            ),
        )
    }

    /// Why the beneficiary at an index is not available to an owner.
    pub open spec fn index_error(self, owner: Address, plan_id: u64, index: u32) -> Option<
        InheritanceError,
    > {
        if self.owner_error(plan_id, owner) is Some {
            self.owner_error(plan_id, owner)
        } else if index >= self.plans.records[plan_id].beneficiaries.len() {
            Some(InheritanceError::InvalidBeneficiaryIndex)
        } else {
            None
        }
    }

    /// The contract after a beneficiary was removed.
    pub open spec fn beneficiary_removed(self, plan_id: u64, index: u32) -> InheritanceView {
        let plan = self.plans.records[plan_id];
        let share = plan.beneficiaries[index as int].allocation_bp;
        self.with_plan(
            plan_id,
            InheritancePlanView {
                beneficiaries: swap_removed(plan.beneficiaries, index as int),
                total_allocation_bp: (plan.total_allocation_bp - share) as u32,
                ..plan
            },
        ).with_event(
            InheritanceEventView::BeneficiaryRemoved(
                BeneficiaryRemovedEvent { plan_id, index, allocation_bp: share },
            ),
        )
    }

    /// Why a priority is not set.
    pub open spec fn priority_error(self, owner: Address, plan_id: u64, index: u32, priority: u32)
        -> Option<InheritanceError> {
        let beneficiaries = self.plans.records[plan_id].beneficiaries;
        if self.index_error(owner, plan_id, index) is Some {
            self.index_error(owner, plan_id, index)
        } else if priority == 0 {
            Some(InheritanceError::PriorityOutOfRange)
        } else if exists|i: int|
            0 <= i < beneficiaries.len() && i != index && (#[trigger] beneficiaries[i]).priority
                == priority {
            Some(InheritanceError::DuplicatePriority)
        } else {
            None
        }
    }

    /// The contract after a priority was set.
    pub open spec fn priority_set(self, plan_id: u64, index: u32, priority: u32)
        -> InheritanceView {
        let plan = self.plans.records[plan_id];
        self.with_plan(
            plan_id,
            InheritancePlanView {
                beneficiaries: plan.beneficiaries.update(
                    index as int,
                    BeneficiaryView { priority, ..plan.beneficiaries[index as int] },
                ),
                ..plan
            },
        ).with_event(
            InheritanceEventView::PrioritySet(
                PrioritySetEvent { plan_id, beneficiary_index: index, priority },
            ),
        )
    }

    /// Why a batch of `count` items for a plan is refused as a whole.
    pub open spec fn batch_error(self, owner: Address, plan_id: u64, count: nat) -> Option<
        InheritanceError,
    > {
        if count > BATCH_LIMIT {
            Some(InheritanceError::TooManyBeneficiaries)
        } else {
            self.owner_error(plan_id, owner)
        }
    }

    /// The contract after a batch of beneficiaries was added.
    pub open spec fn beneficiaries_added(
        self,
        plan_id: u64,
        inputs: Seq<BeneficiaryInputView>,
        salts: Seq<Digest>,
    ) -> InheritanceView {
        let plan = self.plans.records[plan_id];
        let n = inputs.len() as int;
        let count = batch_join_count(plan, inputs, salts, n);
        self.with_salts(
            batch_salts(self.claims.salts, plan_id, plan, inputs, salts, n),
        ).with_plan(plan_id, batch_joined(plan, inputs, salts, n)).with_event(
            InheritanceEventView::BatchBeneficiariesAdded(
                BatchBeneficiariesAddedEvent {
                    plan_id,
                    success_count: count as u32,
                    fail_count: (inputs.len() - count) as u32,
                },
            ),
        )
    }

    /// The contract after a batch of beneficiaries was removed. An index counts
    /// once; one that is out of range, or repeated, fails.
    pub open spec fn beneficiaries_removed(self, plan_id: u64, indices: Seq<u32>)
        -> InheritanceView {
        let plan = self.plans.records[plan_id];
        let rest = batch_removed(plan.beneficiaries, indices, 0);
        let count = removal_count(plan.beneficiaries.len() as int, indices, 0);
        self.with_plan(
            plan_id,
            InheritancePlanView {
                beneficiaries: rest,
                total_allocation_bp: allocations(rest) as u32,
                ..plan
            },
        ).with_event(
            InheritanceEventView::BatchBeneficiariesRemoved(
                BatchBeneficiariesRemovedEvent {
                    plan_id,
                    success_count: count as u32,
                    fail_count: (indices.len() - count) as u32,
                },
            ),
        )
    }

    /// Why allocations are not updated.
    pub open spec fn allocations_error(self, owner: Address, plan_id: u64, shares: Seq<u32>)
        -> Option<InheritanceError> {
        if self.batch_error(owner, plan_id, shares.len()) is Some {
            self.batch_error(owner, plan_id, shares.len())
        } else if shares.len() != self.plans.records[plan_id].beneficiaries.len() {
            Some(InheritanceError::InvalidBeneficiaryData)
        } else if shares.contains(0) {
            Some(InheritanceError::InvalidAllocation)
        } else if total_of(shares, shares.len() as int) != 10_000 {
            Some(InheritanceError::AllocationPercentageMismatch)
        } else {
            None
        }
    }

    /// The contract after allocations were updated.
    pub open spec fn allocations_updated(self, plan_id: u64, shares: Seq<u32>) -> InheritanceView {
        let plan = self.plans.records[plan_id];
        self.with_plan(
            plan_id,
            InheritancePlanView {
                beneficiaries: reallocated(plan.beneficiaries, shares),
                total_allocation_bp: 10_000,
                ..plan
            },
        ).with_event(
            InheritanceEventView::BatchAllocationsUpdated(
                BatchAllocationsUpdatedEvent {
                    plan_id,
                    success_count: plan.beneficiaries.len() as u32,
                },
            ),
        )
    }
}

/// A list of beneficiaries that is accepted has at most ten entries, allocates
/// exactly the whole, and names nobody and no priority twice.
pub proof fn law_accepted_inputs(inputs: Seq<BeneficiaryInputView>)
    requires
        inputs_error(inputs) is None,
    ensures
        0 < inputs.len() <= MAX_BENEFICIARIES,
        input_allocations(inputs, inputs.len() as int) == 10_000,
        forall|i: int, j: int|
            0 <= i < j < inputs.len() ==> (#[trigger] inputs[i]).email != (
            #[trigger] inputs[j]).email && inputs[i].priority != inputs[j].priority,
        forall|i: int| 0 <= i < inputs.len() ==> (#[trigger] inputs[i]).name.len() > 0,
{
    assert forall|i: int, j: int| 0 <= i < j < inputs.len() implies (#[trigger] inputs[i]).email
        != (#[trigger] inputs[j]).email && inputs[i].priority != inputs[j].priority by {
        lemma_no_input_error(inputs, inputs.len() as int, j);
    }
    assert forall|i: int| 0 <= i < inputs.len() implies (#[trigger] inputs[i]).name.len()
        > 0 by {
        lemma_no_input_error(inputs, inputs.len() as int, i);
    }
}

proof fn lemma_no_input_error(inputs: Seq<BeneficiaryInputView>, n: int, i: int)
    requires
        first_input_error(inputs, n) is None,
        0 <= i < n,
    ensures
        input_error(inputs, i) is None,
    decreases n,
{
    if i < n - 1 {
        lemma_no_input_error(inputs, n - 1, i);
    }
}

proof fn lemma_first_input_error(inputs: Seq<BeneficiaryInputView>, n: int, m: int)
    requires
        n <= m,
        first_input_error(inputs, n) is Some,
    ensures
        first_input_error(inputs, m) == first_input_error(inputs, n),
    decreases m,
{
    if n < m && m > 0 {
        lemma_first_input_error(inputs, n, m - 1);
    }
}

proof fn lemma_first_making_error(inputs: Seq<BeneficiaryInputView>, n: int, m: int)
    requires
        n <= m,
        first_making_error(inputs, n) is Some,
    ensures
        first_making_error(inputs, m) == first_making_error(inputs, n),
    decreases m,
{
    if n < m && m > 0 {
        lemma_first_making_error(inputs, n, m - 1);
    }
}

proof fn lemma_input_allocations_grow(inputs: Seq<BeneficiaryInputView>, n: int, m: int)
    requires
        n <= m,
    ensures
        0 <= input_allocations(inputs, n) <= input_allocations(inputs, m),
    decreases m,
{
    if n < m && m > 0 {
        lemma_input_allocations_grow(inputs, n, m - 1);
    } else if n > 0 {
        lemma_input_allocations_grow(inputs, n - 1, n - 1);
    }
}

/// Beneficiaries are allocated what their inputs state.
pub proof fn lemma_made_allocations(inputs: Seq<BeneficiaryInputView>, salts: Seq<Digest>, n: int)
    requires
        0 <= n,
    ensures
        made_beneficiaries(inputs, salts, n).len() == n,
        allocations(made_beneficiaries(inputs, salts, n)) == input_allocations(inputs, n),
    decreases n,
{
    if n > 0 {
        lemma_made_allocations(inputs, salts, n - 1);
        assert(made_beneficiaries(inputs, salts, n).drop_last() =~= made_beneficiaries(
            inputs,
            salts,
            n - 1,
        ));
    }
}

/// In a list that is accepted, each entry can be made a beneficiary, with at most the
/// whole allocated to it.
pub proof fn lemma_accepted_input(inputs: Seq<BeneficiaryInputView>, i: int)
    requires
        inputs_error(inputs) is None,
        first_making_error(inputs, inputs.len() as int) is None,
        0 <= i < inputs.len(),
    ensures
        beneficiary_error(inputs[i]) is None,
        inputs[i].allocation_bp <= 10_000,
{
    let n = inputs.len() as int;
    if first_making_error(inputs, i + 1) is Some {
        lemma_first_making_error(inputs, i + 1, n);
    }
    lemma_input_allocations_grow(inputs, 0, i);
    lemma_input_allocations_grow(inputs, i + 1, n);
}

/// Each beneficiary of a list is made of the input and the salt at the same place,
/// and the salt is filed there.
pub proof fn lemma_made_at(
    filed: Map<(u64, u32), Digest>,
    plan_id: u64,
    inputs: Seq<BeneficiaryInputView>,
    salts: Seq<Digest>,
    n: int,
    i: int,
)
    requires
        0 <= i < n <= u32::MAX,
    ensures
        made_beneficiaries(inputs, salts, n).len() == n,
        made_beneficiaries(inputs, salts, n)[i] == made_beneficiary(inputs[i], salts[i]),
        salts_filed(filed, plan_id, salts, n).contains_key((plan_id, i as u32)),
        salts_filed(filed, plan_id, salts, n)[(plan_id, i as u32)] == salts[i],
    decreases n,
{
    lemma_made_allocations(inputs, salts, n);
    lemma_made_allocations(inputs, salts, n - 1);
    if i < n - 1 {
        lemma_made_at(filed, plan_id, inputs, salts, n - 1, i);
    }
}

/// Replacing one beneficiary changes what all are allocated by the difference.
pub proof fn lemma_allocations_update(
    beneficiaries: Seq<BeneficiaryView>,
    index: int,
    beneficiary: BeneficiaryView,
)
    requires
        0 <= index < beneficiaries.len(),
    ensures
        allocations(beneficiaries.update(index, beneficiary)) == allocations(beneficiaries)
            - beneficiaries[index].allocation_bp + beneficiary.allocation_bp,
    decreases beneficiaries.len(),
{
    let updated = beneficiaries.update(index, beneficiary);
    if index == beneficiaries.len() - 1 {
        assert(updated.drop_last() =~= beneficiaries.drop_last());
    } else {
        lemma_allocations_update(beneficiaries.drop_last(), index, beneficiary);
        assert(updated.drop_last() =~= beneficiaries.drop_last().update(index, beneficiary));
    }
}

/// Removing a beneficiary frees what they were allocated.
pub proof fn lemma_allocations_removed(beneficiaries: Seq<BeneficiaryView>, index: int)
    requires
        0 <= index < beneficiaries.len(),
    ensures
        allocations(swap_removed(beneficiaries, index)) == allocations(beneficiaries)
            - beneficiaries[index].allocation_bp,
{
    let last = beneficiaries.last();
    lemma_allocations_update(beneficiaries, index, last);
    let updated = beneficiaries.update(index, last);
    assert(updated.last() == last);
}

proof fn lemma_allocations_pushed(beneficiaries: Seq<BeneficiaryView>, beneficiary: BeneficiaryView)
    ensures
        allocations(beneficiaries.push(beneficiary)) == allocations(beneficiaries)
            + beneficiary.allocation_bp,
{
    assert(beneficiaries.push(beneficiary).drop_last() =~= beneficiaries);
}

/// Allocations are never negative.
pub proof fn lemma_allocations_nonnegative(beneficiaries: Seq<BeneficiaryView>)
    ensures
        0 <= allocations(beneficiaries),
        forall|i: int|
            0 <= i < beneficiaries.len() ==> (#[trigger] beneficiaries[i]).allocation_bp
                <= allocations(beneficiaries),
    decreases beneficiaries.len(),
{
    if beneficiaries.len() > 0 {
        let rest = beneficiaries.drop_last();
        lemma_allocations_nonnegative(rest);
        assert forall|i: int| 0 <= i < beneficiaries.len() implies (
        #[trigger] beneficiaries[i]).allocation_bp <= allocations(beneficiaries) by {
            if i < rest.len() {
                assert(rest[i] == beneficiaries[i]);
            }
        }
    }
}

/// A plan that a beneficiary can join stays valid when they do.
proof fn lemma_joined(plan: InheritancePlanView, input: BeneficiaryInputView, salt: Digest)
    requires
        plan_valid(plan),
        join_error(plan, input) is None,
    ensures
        plan_valid(joined(plan, made_beneficiary(input, salt))),
{
    lemma_allocations_pushed(plan.beneficiaries, made_beneficiary(input, salt));
}

proof fn lemma_batch_removed(beneficiaries: Seq<BeneficiaryView>, indices: Seq<u32>, i: int)
    requires
        0 <= i <= beneficiaries.len(),
    ensures
        batch_removed(beneficiaries, indices, i).len() == beneficiaries.len() - removal_count(
            beneficiaries.len() as int,
            indices,
            i,
        ),
        removal_count(beneficiaries.len() as int, indices, i) <= beneficiaries.len() - i,
        0 <= allocations(batch_removed(beneficiaries, indices, i)) <= allocations(beneficiaries),
    decreases beneficiaries.len() - i,
{
    lemma_allocations_nonnegative(beneficiaries);
    if i < beneficiaries.len() {
        lemma_batch_removed(beneficiaries, indices, i + 1);
        let rest = batch_removed(beneficiaries, indices, i + 1);
        if indices.contains(i as u32) {
            lemma_allocations_removed(rest, i);
            lemma_allocations_nonnegative(swap_removed(rest, i));
        }
    }
}

proof fn lemma_removal_count_bounded(len: int, indices: Seq<u32>, i: int)
    requires
        0 <= i,
        len <= u32::MAX,
    ensures
        removal_count(len, indices, i) <= indices.len(),
    decreases len - i,
{
    lemma_removal_count_distinct(len, indices, i, indices);
}

/// Distinct indices are counted at most as often as the list is long.
proof fn lemma_removal_count_distinct(len: int, indices: Seq<u32>, i: int, left: Seq<u32>)
    requires
        0 <= i,
        len <= u32::MAX,
        forall|k: u32| i <= k < len && indices.contains(k) ==> #[trigger] left.contains(k),
    ensures
        removal_count(len, indices, i) <= left.len(),
    decreases len - i,
{
    if i < len {
        if indices.contains(i as u32) {
            let at = left.index_of(i as u32);
            assert(left.contains(i as u32));
            assert(left[at] == i as u32);
            let rest = left.remove(at);
            assert forall|k: u32|
                i + 1 <= k < len && indices.contains(k) implies #[trigger] rest.contains(k) by {
                assert(left.contains(k));
                let j = left.index_of(k);
                assert(left[j] == k);
                assert(j != at);
                if j < at {
                    assert(rest[j] == k);
                } else {
                    assert(rest[j - 1] == k);
                }
            }
            lemma_removal_count_distinct(len, indices, i + 1, rest);
        } else {
            lemma_removal_count_distinct(len, indices, i + 1, left);
        }
    }
}

proof fn lemma_reallocated(beneficiaries: Seq<BeneficiaryView>, shares: Seq<u32>, n: int)
    requires
        0 <= n <= beneficiaries.len(),
        beneficiaries.len() == shares.len(),
    ensures
        allocations(reallocated(beneficiaries, shares).take(n)) == total_of(shares, n),
    decreases n,
{
    let all = reallocated(beneficiaries, shares);
    if n > 0 {
        lemma_reallocated(beneficiaries, shares, n - 1);
        assert(all.take(n).drop_last() =~= all.take(n - 1));
    }
}

/// The sum of the first shares is at least each of them and grows with each.
proof fn lemma_total_grows(shares: Seq<u32>, n: int, m: int)
    requires
        0 <= n <= m,
    ensures
        0 <= total_of(shares, n) <= total_of(shares, m),
        total_of(shares, n) <= n * 0xffff_ffff,
    decreases m,
{
    if n < m {
        lemma_total_grows(shares, n, m - 1);
    } else if n > 0 {
        lemma_total_grows(shares, n - 1, n - 1);
    }
}

/// A payout never exceeds what is left in the vault, and at most the whole is ever
/// allocated: what any beneficiary is entitled to is their share, rounded down.
pub proof fn law_payout_is_bounded(plan: InheritancePlanView, index: int)
    requires
        plan_valid(plan),
        0 <= index < plan.beneficiaries.len(),
    ensures
        waterfall_payout(plan, index) <= plan.total_amount,
        entitlement(plan, index) == (plan.total_amount * plan.beneficiaries[index].allocation_bp)
            / 10_000,
{
    lemma_allocations_nonnegative(plan.beneficiaries);
    lemma_share_bounded(plan.total_amount, plan.beneficiaries[index].allocation_bp);
}

/// Removing a beneficiary who was just added gives back the plan as it was.
pub proof fn law_remove_undoes_add(
    contract: InheritanceView,
    owner: Address,
    plan_id: u64,
    input: BeneficiaryInputView,
    salt: Digest,
)
    requires
        contract.well_formed(),
        contract.add_beneficiary_error(owner, plan_id, input) is None,
    ensures
        ({
            let index = contract.plans.records[plan_id].beneficiaries.len() as u32;
            let added = contract.beneficiary_added(plan_id, input, salt);
            &&& added.index_error(owner, plan_id, index) is None
            &&& added.beneficiary_removed(plan_id, index).plans == contract.plans
        }),
{
    let plan = contract.plans.records[plan_id];
    lemma_plan_on_file(contract, plan_id);
    let added = contract.beneficiary_added(plan_id, input, salt);
    let index = plan.beneficiaries.len() as u32;
    let back = added.beneficiary_removed(plan_id, index).plans.records[plan_id];
    assert(back.beneficiaries =~= plan.beneficiaries);
    assert(added.beneficiary_removed(plan_id, index).plans.records =~= contract.plans.records);
}

impl InheritanceContract {
    /// Makes a beneficiary of what an owner states, hashing what is sensitive.
    pub fn create_beneficiary(input: &BeneficiaryInput, salt: &Digest) -> (beneficiary: Result<
        Beneficiary,
        InheritanceError,
    >)
        requires
            beneficiary_error(input@) is None ==> texts_fit(input@),
        ensures
            match beneficiary {
                Ok(b) => beneficiary_error(input@) is None && b@ == made_beneficiary(input@, *salt),
                Err(e) => beneficiary_error(input@) == Some(e),
            },
    {
        match Self::check_beneficiary(input) {
            Some(e) => {
                return Err(e);
            },
            None => {},
        }
        match hash_claim_code_with_salt(input.claim_code, salt) {
            Ok(hashed_claim_code) => Ok(
                Beneficiary {
                    hashed_full_name: hash_data(&input.name),
                    hashed_email: hash_data(&input.email),
                    hashed_claim_code,
                    bank_account: input.bank_account.clone(),
                    allocation_bp: input.allocation_bp,
                    priority: input.priority,
                    is_claimed: false,
                },
            ),
            Err(e) => Err(e),
        }
    }

    /// Why no beneficiary can be made of what an owner states.
    fn check_beneficiary(input: &BeneficiaryInput) -> (error: Option<InheritanceError>)
        ensures
            error == beneficiary_error(input@),
    {
        if input.name.len() == 0 || input.email.len() == 0 || input.bank_account.len() == 0 {
            Some(InheritanceError::InvalidBeneficiaryData)
        } else if input.allocation_bp == 0 {
            Some(InheritanceError::InvalidAllocation)
        } else if input.claim_code > MAX_CLAIM_CODE {
            Some(InheritanceError::InvalidClaimCodeRange)
        } else {
            None
        }
    }

    /// Refuses a list of beneficiaries that is too long or empty, that does not
    /// allocate exactly the whole, or that names a person or a priority twice.
    pub fn validate_beneficiaries(inputs: &List<BeneficiaryInput>) -> (result: Result<
        (),
        InheritanceError,
    >)
        ensures
            match result {
                Ok(()) => inputs_error(inputs@) is None,
                Err(e) => inputs_error(inputs@) == Some(e),
            },
    {
        if inputs.len() > MAX_BENEFICIARIES as usize {
            return Err(InheritanceError::TooManyBeneficiaries);
        }
        if inputs.len() == 0 {
            return Err(InheritanceError::MissingRequiredField);
        }
        let mut total: u32 = 0;
        let mut i: usize = 0;
        while i < inputs.len()
            invariant
                0 < inputs@.len() <= MAX_BENEFICIARIES,
                i <= inputs@.len(),
                total == input_allocations(inputs@, i as int),
                first_input_error(inputs@, i as int) is None,
            decreases inputs@.len() - i,
        {
            match Self::check_input(inputs, i, total) {
                Err(e) => {
                    proof {
                        lemma_first_input_error(inputs@, i + 1, inputs@.len() as int);
                    }
                    return Err(e);
                },
                Ok(sum) => {
                    total = sum;
                },
            }
            i += 1;
        }
        if total != 10_000 {
            return Err(InheritanceError::AllocationPercentageMismatch);
        }
        Ok(())
    }

    /// Refuses an input in view of those before it. Returns what the inputs up to
    /// this one are allocated together.
    fn check_input(inputs: &List<BeneficiaryInput>, i: usize, total: u32) -> (sum: Result<
        u32,
        InheritanceError,
    >)
        requires
            i < inputs@.len(),
            total == input_allocations(inputs@, i as int),
        ensures
            match sum {
                Ok(s) => input_error(inputs@, i as int) is None && s == input_allocations(
                    inputs@,
                    i + 1,
                ),
                Err(e) => input_error(inputs@, i as int) == Some(e),
            },
    {
        let input = inputs.get(i);
        if input.name.len() == 0 {
            return Err(InheritanceError::InvalidBeneficiaryData);
        }
        let mut same_priority: bool = false;
        let mut j: usize = 0;
        while j < i
            invariant
                j <= i < inputs@.len(),
                input@ == inputs@[i as int],
                input@.name.len() > 0,
                forall|k: int| 0 <= k < j ==> (#[trigger] inputs@[k]).email != input@.email,
                same_priority <==> exists|k: int|
                    0 <= k < j && (#[trigger] inputs@[k]).priority == input@.priority,
            decreases i - j,
        {
            let other = inputs.get(j);
            if same_bytes(&other.email, &input.email) {
                proof {
                    assert(inputs@[j as int].email == inputs@[i as int].email);
                }
                return Err(InheritanceError::InvalidBeneficiaryData);
            }
            if other.priority == input.priority {
                same_priority = true;
                proof {
                    assert(inputs@[j as int].priority == input@.priority);
                }
            }
            j += 1;
        }
        let sum: u32 = match total.checked_add(input.allocation_bp) {
            Some(sum) => sum,
            None => {
                return Err(InheritanceError::AllocationPercentageMismatch);
            },
        };
        if input.priority == 0 {
            return Err(InheritanceError::PriorityOutOfRange);
        }
        if same_priority {
            return Err(InheritanceError::DuplicatePriority);
        }
        Ok(sum)
    }

    /// Makes the beneficiaries of a plan.
    pub fn create_beneficiaries(inputs: &List<BeneficiaryInput>, salts: &Vec<Digest>) -> (made:
        Result<List<Beneficiary>, InheritanceError>)
        requires
            first_making_error(inputs@, inputs@.len() as int) is None ==> inputs@.len()
                <= salts@.len() && all_texts_fit(inputs@),
        ensures
            ({
                let n = inputs@.len() as int;
                match made {
                    Ok(list) => first_making_error(inputs@, n) is None && list@
                        == made_beneficiaries(inputs@, salts@, n),
                    Err(e) => first_making_error(inputs@, n) == Some(e),
                }
            }),
    {
        let mut checked: usize = 0;
        while checked < inputs.len()
            invariant
                checked <= inputs@.len(),
                first_making_error(inputs@, checked as int) is None,
            decreases inputs@.len() - checked,
        {
            match Self::check_beneficiary(inputs.get(checked)) {
                Some(e) => {
                    proof {
                        lemma_first_making_error(inputs@, checked + 1, inputs@.len() as int);
                    }
                    return Err(e);
                },
                None => {},
            }
            checked += 1;
        }
        let mut made: List<Beneficiary> = List::new();
        let mut i: usize = 0;
        while i < inputs.len()
            invariant
                i <= inputs@.len() <= salts@.len(),
                all_texts_fit(inputs@),
                first_making_error(inputs@, inputs@.len() as int) is None,
                made@ == made_beneficiaries(inputs@, salts@, i as int),
            decreases inputs@.len() - i,
        {
            let input = inputs.get(i);
            proof {
                assert(texts_fit(inputs@[i as int]));
                if beneficiary_error(inputs@[i as int]) is Some {
                    if first_making_error(inputs@, i as int) is Some {
                        lemma_first_making_error(inputs@, i as int, inputs@.len() as int);
                    }
                    lemma_first_making_error(inputs@, i + 1, inputs@.len() as int);
                }
            }
            match Self::create_beneficiary(input, &salts[i]) {
                Ok(beneficiary) => {
                    made.push(beneficiary);
                },
                Err(e) => {
                    return Err(e);
                },
            }
            i += 1;
        }
        Ok(made)
    }

    /// Files the salts of the first `count` beneficiaries of a plan.
    pub fn file_salts(&mut self, plan_id: u64, salts: &Vec<Digest>, count: usize)
        requires
            count <= salts@.len(),
            count <= MAX_BENEFICIARIES,
        ensures
            final(self)@ == old(self)@.with_salts(
                salts_filed(old(self)@.claims.salts, plan_id, salts@, count as int),
            ),
    {
        let mut i: usize = 0;
        while i < count
            invariant
                i <= count <= salts@.len(),
                count <= MAX_BENEFICIARIES,
                self@ == old(self)@.with_salts(
                    salts_filed(old(self)@.claims.salts, plan_id, salts@, i as int),
                ),
            decreases count - i,
        {
            self.claims.salts.set((plan_id, i as u32), salts[i]);
            i += 1;
        }
    }

    /// Add a beneficiary to an existing inheritance plan. `salt` is a fresh random
    /// value that salts the hash of the claim code.
    pub fn add_beneficiary(
        &mut self,
        env: &Env,
        owner: Address,
        plan_id: u64,
        beneficiary_input: BeneficiaryInput,
        salt: Digest,
    ) -> (result: Result<(), InheritanceError>)
        requires
            old(self)@.well_formed(),
            old(self)@.open_for_calls(),
            env.authorized(owner),
            old(self)@.add_beneficiary_error(owner, plan_id, beneficiary_input@) is None
                ==> texts_fit(beneficiary_input@),
        ensures
            ({
                let error = old(self)@.add_beneficiary_error(owner, plan_id, beneficiary_input@);
                match result {
                    Err(e) => error == Some(e) && final(self)@ == old(self)@,
                    Ok(()) => error is None && final(self)@ == old(self)@.beneficiary_added(
                        plan_id,
                        beneficiary_input@,
                        salt,
                    ),
                }
            }),
            final(self)@.well_formed(),
    {
        let (count, total): (usize, u32) = match self.require_owner(plan_id, owner) {
            Ok(plan) => (plan.beneficiaries.len(), plan.total_allocation_bp),
            Err(e) => {
                return Err(e);
            },
        };
        proof {
            lemma_plan_on_file(self@, plan_id);
        }
        if count >= MAX_BENEFICIARIES as usize {
            return Err(InheritanceError::TooManyBeneficiaries);
        }
        if beneficiary_input.allocation_bp == 0 {
            return Err(InheritanceError::InvalidAllocation);
        }
        if beneficiary_input.allocation_bp > 10_000 - total {
            return Err(InheritanceError::AllocationExceedsLimit);
        }
        let beneficiary = match Self::create_beneficiary(&beneficiary_input, &salt) {
            Ok(beneficiary) => beneficiary,
            Err(e) => {
                return Err(e);
            },
        };
        let hashed_email = beneficiary.hashed_email;
        proof {
            lemma_joined(self@.plans.records[plan_id], beneficiary_input@, salt);
            lemma_plan_update(
                self@,
                plan_id,
                joined(self@.plans.records[plan_id], beneficiary@),
            );
        }
        self.claims.salts.set((plan_id, count as u32), salt);
        let plan = self.plans.records.at_mut(plan_id);
        plan.beneficiaries.push(beneficiary);
        plan.total_allocation_bp = total + beneficiary_input.allocation_bp;
        self.publish(
            InheritanceEvent::BeneficiaryAdded(
                BeneficiaryAddedEvent {
                    plan_id,
                    hashed_email,
                    allocation_bp: beneficiary_input.allocation_bp,
                },
            ),
        );
        Ok(())
    }

    /// Remove a beneficiary from an existing inheritance plan. The last beneficiary
    /// takes their place.
    pub fn remove_beneficiary(&mut self, env: &Env, owner: Address, plan_id: u64, index: u32) -> (
    result: Result<(), InheritanceError>)
        requires
            old(self)@.well_formed(),
            old(self)@.open_for_calls(),
            env.authorized(owner),
        ensures
            ({
                let error = old(self)@.index_error(owner, plan_id, index);
                match result {
                    Err(e) => error == Some(e) && final(self)@ == old(self)@,
                    Ok(()) => error is None && final(self)@ == old(self)@.beneficiary_removed(
                        plan_id,
                        index,
                    ),
                }
            }),
            final(self)@.well_formed(),
    {
        let share: u32 = match self.require_owner(plan_id, owner) {
            Ok(plan) => {
                if index as usize >= plan.beneficiaries.len() {
                    return Err(InheritanceError::InvalidBeneficiaryIndex);
                }
                plan.beneficiaries.get(index as usize).allocation_bp
            },
            Err(e) => {
                return Err(e);
            },
        };
        let ghost before = self@;
        proof {
            lemma_plan_on_file(self@, plan_id);
            lemma_allocations_removed(self@.plans.records[plan_id].beneficiaries, index as int);
            lemma_allocations_nonnegative(self@.plans.records[plan_id].beneficiaries);
        }
        let plan = self.plans.records.at_mut(plan_id);
        plan.beneficiaries.swap_remove(index as usize);
        plan.total_allocation_bp = plan.total_allocation_bp - share;
        proof {
            lemma_plan_update(before, plan_id, plan@);
        }
        self.publish(
            InheritanceEvent::BeneficiaryRemoved(
                BeneficiaryRemovedEvent { plan_id, index, allocation_bp: share },
            ),
        );
        Ok(())
    }

    /// Set the priority of a beneficiary, 1 being the highest. No two beneficiaries
    /// share a priority.
    pub fn set_beneficiary_priority(
        &mut self,
        env: &Env,
        owner: Address,
        plan_id: u64,
        beneficiary_index: u32,
        priority: u32,
    ) -> (result: Result<(), InheritanceError>)
        requires
            old(self)@.well_formed(),
            env.authorized(owner),
        ensures
            ({
                let error = old(self)@.priority_error(owner, plan_id, beneficiary_index, priority);
                match result {
                    Err(e) => error == Some(e) && final(self)@ == old(self)@,
                    Ok(()) => error is None && final(self)@ == old(self)@.priority_set(
                        plan_id,
                        beneficiary_index,
                        priority,
                    ),
                }
            }),
            final(self)@.well_formed(),
    {
        match self.require_owner(plan_id, owner) {
            Ok(plan) => {
                if beneficiary_index as usize >= plan.beneficiaries.len() {
                    return Err(InheritanceError::InvalidBeneficiaryIndex);
                }
                if priority == 0 {
                    return Err(InheritanceError::PriorityOutOfRange);
                }
                let mut i: usize = 0;
                while i < plan.beneficiaries.len()
                    invariant
                        i <= plan@.beneficiaries.len(),
                        self@ == old(self)@,
                        self@.well_formed(),
                        plan@ == self@.plans.records[plan_id],
                        self@.index_error(owner, plan_id, beneficiary_index) is None,
                        priority > 0,
                        forall|j: int|
                            0 <= j < i && j != beneficiary_index ==> (
                            #[trigger] plan@.beneficiaries[j]).priority != priority,
                    decreases plan@.beneficiaries.len() - i,
                {
                    if i != beneficiary_index as usize && plan.beneficiaries.get(i).priority
                        == priority {
                        proof {
                            assert(plan@.beneficiaries[i as int].priority == priority);
                        }
                        return Err(InheritanceError::DuplicatePriority);
                    }
                    i += 1;
                }
            },
            Err(e) => {
                return Err(e);
            },
        }
        let ghost before = self@;
        proof {
            lemma_plan_on_file(self@, plan_id);
            let beneficiaries = self@.plans.records[plan_id].beneficiaries;
            lemma_allocations_update(
                beneficiaries,
                beneficiary_index as int,
                BeneficiaryView { priority, ..beneficiaries[beneficiary_index as int] },
            );
        }
        let plan = self.plans.records.at_mut(plan_id);
        let beneficiary = plan.beneficiaries.at_mut(beneficiary_index as usize);
        beneficiary.priority = priority;
        proof {
            lemma_plan_update(before, plan_id, plan@);
        }
        self.publish(
            InheritanceEvent::PrioritySet(
                PrioritySetEvent { plan_id, beneficiary_index, priority },
            ),
        );
        Ok(())
    }

    /// The priority of a beneficiary.
    pub fn get_beneficiary_priority(&self, plan_id: u64, beneficiary_index: u32) -> (priority:
        Result<u32, InheritanceError>)
        ensures
            priority == (if !self@.plans.records.contains_key(plan_id) {
                Err::<u32, InheritanceError>(InheritanceError::PlanNotFound)
            } else if beneficiary_index >= self@.plans.records[plan_id].beneficiaries.len() {
                Err(InheritanceError::InvalidBeneficiaryIndex)
            } else {
                Ok(
                    self@.plans.records[plan_id].beneficiaries[beneficiary_index as int].priority,
                )
            }),
    {
        match self.plans.records.get(plan_id) {
            Some(plan) => {
                if beneficiary_index as usize >= plan.beneficiaries.len() {
                    Err(InheritanceError::InvalidBeneficiaryIndex)
                } else {
                    Ok(plan.beneficiaries.get(beneficiary_index as usize).priority)
                }
            },
            None => Err(InheritanceError::PlanNotFound),
        }
    }

    /// Pay the beneficiaries of a plan in the order of their priorities.
    pub fn enable_waterfall_distribution(&mut self, env: &Env, owner: Address, plan_id: u64) -> (
    result: Result<(), InheritanceError>)
        requires
            old(self)@.well_formed(),
            env.authorized(owner),
        ensures
            ({
                let error = old(self)@.owner_error(plan_id, owner);
                match result {
                    Err(e) => error == Some(e) && final(self)@ == old(self)@,
                    Ok(()) => error is None && final(self)@ == old(self)@.with_plan(
                        plan_id,
                        InheritancePlanView {
                            waterfall_enabled: true,
                            ..old(self)@.plans.records[plan_id]
                        },
                    ).with_event(
                        InheritanceEventView::WaterfallEnabled(
                            WaterfallEnabledEvent { plan_id, enabled_at: env.timestamp },
                        ),
                    ),
                }
            }),
            final(self)@.well_formed(),
    {
        match self.require_owner(plan_id, owner) {
            Ok(_) => {},
            Err(e) => {
                return Err(e);
            },
        }
        let ghost before = self@;
        proof {
            lemma_plan_on_file(self@, plan_id);
        }
        let plan = self.plans.records.at_mut(plan_id);
        plan.waterfall_enabled = true;
        proof {
            lemma_plan_update(before, plan_id, plan@);
        }
        self.publish(
            InheritanceEvent::WaterfallEnabled(
                WaterfallEnabledEvent { plan_id, enabled_at: env.timestamp },
            ),
        );
        Ok(())
    }

    /// Whether a beneficiary of higher priority has not claimed yet.
    pub fn is_waterfall_blocked(plan: &InheritancePlan, beneficiary_index: usize) -> (blocked: bool)
        requires
            beneficiary_index < plan@.beneficiaries.len(),
        ensures
            blocked == waterfall_blocked(plan@, beneficiary_index as int),
    {
        let priority: u32 = plan.beneficiaries.get(beneficiary_index).priority;
        let mut i: usize = 0;
        while i < plan.beneficiaries.len()
            invariant
                i <= plan@.beneficiaries.len(),
                beneficiary_index < plan@.beneficiaries.len(),
                priority == plan@.beneficiaries[beneficiary_index as int].priority,
                forall|j: int|
                    0 <= j < i ==> (#[trigger] plan@.beneficiaries[j]).priority == 0
                        || plan@.beneficiaries[j].priority >= priority
                        || plan@.beneficiaries[j].is_claimed,
            decreases plan@.beneficiaries.len() - i,
        {
            let other = plan.beneficiaries.get(i);
            if other.priority != 0 && other.priority < priority && !other.is_claimed {
                proof {
                    assert(plan@.beneficiaries[i as int].priority != 0);
                }
                return true;
            }
            i += 1;
        }
        false
    }

    /// What a beneficiary can be paid now.
    pub fn calculate_waterfall_payout(plan: &InheritancePlan, beneficiary_index: usize) -> (payout:
        u64)
        requires
            beneficiary_index < plan@.beneficiaries.len(),
        ensures
            payout == waterfall_payout(plan@, beneficiary_index as int),
    {
        if plan.waterfall_enabled && Self::is_waterfall_blocked(plan, beneficiary_index) {
            return 0;
        }
        let share: u64 = share_bps(
            plan.total_amount,
            plan.beneficiaries.get(beneficiary_index).allocation_bp,
        );
        crate::math::min64(share, plan.total_amount)
    }

    /// What a beneficiary can be paid now.
    pub fn get_claimable_by_priority(&self, plan_id: u64, beneficiary_index: u32) -> (amount:
        Result<u64, InheritanceError>)
        ensures
            amount == (if !self@.plans.records.contains_key(plan_id) {
                Err::<u64, InheritanceError>(InheritanceError::PlanNotFound)
            } else if beneficiary_index >= self@.plans.records[plan_id].beneficiaries.len() {
                Err(InheritanceError::InvalidBeneficiaryIndex)
            } else {
                Ok(waterfall_payout(self@.plans.records[plan_id], beneficiary_index as int))
            }),
    {
        match self.plans.records.get(plan_id) {
            Some(plan) => {
                if beneficiary_index as usize >= plan.beneficiaries.len() {
                    Err(InheritanceError::InvalidBeneficiaryIndex)
                } else {
                    Ok(Self::calculate_waterfall_payout(plan, beneficiary_index as usize))
                }
            },
            None => Err(InheritanceError::PlanNotFound),
        }
    }

    /// Add several beneficiaries to a plan. An input that cannot be added is
    /// counted as a failure and passed over. `salts` holds a fresh random value for
    /// each input. Returns how many were added and how many failed.
    pub fn batch_add_beneficiaries(
        &mut self,
        env: &Env,
        owner: Address,
        plan_id: u64,
        inputs: List<BeneficiaryInput>,
        salts: Vec<Digest>,
    ) -> (result: Result<(u32, u32), InheritanceError>)
        requires
            old(self)@.well_formed(),
            env.authorized(owner),
            old(self)@.batch_error(owner, plan_id, inputs@.len()) is None ==> inputs@.len()
                <= salts@.len() && batch_texts_fit(
                old(self)@.plans.records[plan_id],
                inputs@,
                salts@,
            ),
        ensures
            ({
                let error = old(self)@.batch_error(owner, plan_id, inputs@.len());
                let plan = old(self)@.plans.records[plan_id];
                let count = batch_join_count(plan, inputs@, salts@, inputs@.len() as int);
                match result {
                    Err(e) => error == Some(e) && final(self)@ == old(self)@,
                    Ok((success, fail)) => error is None && success == count && fail
                        == inputs@.len() - count && final(self)@ == old(self)@.beneficiaries_added(
                        plan_id,
                        inputs@,
                        salts@,
                    ),
                }
            }),
            final(self)@.well_formed(),
    {
        if inputs.len() > BATCH_LIMIT {
            return Err(InheritanceError::TooManyBeneficiaries);
        }
        match self.require_owner(plan_id, owner) {
            Ok(_) => {},
            Err(e) => {
                return Err(e);
            },
        }
        let ghost before = self@;
        let ghost plan = before.plans.records[plan_id];
        let mut success: u32 = 0;
        let mut fail: u32 = 0;
        let mut i: usize = 0;
        proof {
            assert(before.plans.records.insert(plan_id, plan) =~= before.plans.records);
        }
        while i < inputs.len()
            invariant
                i <= inputs@.len() <= salts@.len(),
                inputs@.len() <= BATCH_LIMIT,
                batch_texts_fit(plan, inputs@, salts@),
                before.well_formed(),
                before.plans.records.contains_key(plan_id),
                plan == before.plans.records[plan_id],
                self@ == before.with_salts(
                    batch_salts(before.claims.salts, plan_id, plan, inputs@, salts@, i as int),
                ).with_plan(plan_id, batch_joined(plan, inputs@, salts@, i as int)),
                self@.well_formed(),
                success == batch_join_count(plan, inputs@, salts@, i as int),
                success + fail == i,
            decreases inputs@.len() - i,
        {
            let input = inputs.get(i);
            proof {
                assert(input@ == inputs@[i as int]);
            }
            if self.try_join(plan_id, input, salts[i]) {
                success += 1;
            } else {
                fail += 1;
            }
            i += 1;
            proof {
                assert(self@.plans.records =~= before.plans.records.insert(
                    plan_id,
                    batch_joined(plan, inputs@, salts@, i as int),
                ));
            }
        }
        self.publish(
            InheritanceEvent::BatchBeneficiariesAdded(
                BatchBeneficiariesAddedEvent { plan_id, success_count: success, fail_count: fail },
            ),
        );
        Ok((success, fail))
    }

    /// Adds a beneficiary to a plan if they can join it. The salt is filed before
    /// the claim code is looked at.
    fn try_join(&mut self, plan_id: u64, input: &BeneficiaryInput, salt: Digest) -> (added: bool)
        requires
            old(self)@.well_formed(),
            old(self)@.plans.records.contains_key(plan_id),
            join_error(old(self)@.plans.records[plan_id], input@) is None ==> texts_fit(input@),
        ensures
            ({
                let plan = old(self)@.plans.records[plan_id];
                let error = join_error(plan, input@);
                let salted = if error is None || error == Some(
                    InheritanceError::InvalidClaimCodeRange,
                ) {
                    old(self)@.with_salts(
                        old(self)@.claims.salts.insert(
                            (plan_id, plan.beneficiaries.len() as u32),
                            salt,
                        ),
                    )
                } else {
                    old(self)@
                };
                &&& added == (error is None)
                &&& final(self)@ == (if added {
                    salted.with_plan(plan_id, joined(plan, made_beneficiary(input@, salt)))
                } else {
                    salted
                })
            }),
            final(self)@.well_formed(),
    {
        proof {
            lemma_plan_on_file(self@, plan_id);
        }
        let (count, total): (usize, u32) = match self.plans.records.get(plan_id) {
            Some(plan) => (plan.beneficiaries.len(), plan.total_allocation_bp),
            None => (0, 0),
        };
        if count >= MAX_BENEFICIARIES as usize || input.allocation_bp == 0 || input.allocation_bp
            > 10_000 - total {
            return false;
        }
        match Self::create_beneficiary(input, &salt) {
            Ok(beneficiary) => {
                proof {
                    lemma_joined(self@.plans.records[plan_id], input@, salt);
                    lemma_plan_update(
                        self@,
                        plan_id,
                        joined(self@.plans.records[plan_id], beneficiary@),
                    );
                }
                self.claims.salts.set((plan_id, count as u32), salt);
                let plan = self.plans.records.at_mut(plan_id);
                plan.beneficiaries.push(beneficiary);
                plan.total_allocation_bp = total + input.allocation_bp;
                true
            },
            Err(e) => {
                if e == InheritanceError::InvalidClaimCodeRange {
                    self.claims.salts.set((plan_id, count as u32), salt);
                }
                false
            },
        }
    }

    /// Remove several beneficiaries from a plan, given by their indices before the
    /// call. Returns how many were removed and how many indices failed: those out
    /// of range, and repetitions.
    pub fn batch_remove_beneficiaries(
        &mut self,
        env: &Env,
        owner: Address,
        plan_id: u64,
        indices: Vec<u32>,
    ) -> (result: Result<(u32, u32), InheritanceError>)
        requires
            old(self)@.well_formed(),
            env.authorized(owner),
        ensures
            ({
                let error = old(self)@.batch_error(owner, plan_id, indices@.len());
                let plan = old(self)@.plans.records[plan_id];
                let count = removal_count(plan.beneficiaries.len() as int, indices@, 0);
                match result {
                    Err(e) => error == Some(e) && final(self)@ == old(self)@,
                    Ok((success, fail)) => error is None && success == count && fail
                        == indices@.len() - count && final(self)@ == old(
                        self,
                    )@.beneficiaries_removed(plan_id, indices@),
                }
            }),
            final(self)@.well_formed(),
    {
        if indices.len() > BATCH_LIMIT {
            return Err(InheritanceError::TooManyBeneficiaries);
        }
        match self.require_owner(plan_id, owner) {
            Ok(_) => {},
            Err(e) => {
                return Err(e);
            },
        }
        let ghost before = self@;
        let ghost beneficiaries = before.plans.records[plan_id].beneficiaries;
        proof {
            lemma_plan_on_file(before, plan_id);
            lemma_removal_count_bounded(beneficiaries.len() as int, indices@, 0);
        }
        let plan = self.plans.records.at_mut(plan_id);
        let mut success: u32 = 0;
        let mut i: usize = plan.beneficiaries.len();
        while i > 0
            invariant
                i <= beneficiaries.len() <= MAX_BENEFICIARIES,
                beneficiaries == before.plans.records[plan_id].beneficiaries,
                plan_valid(before.plans.records[plan_id]),
                plan@ == (InheritancePlanView {
                    beneficiaries: batch_removed(beneficiaries, indices@, i as int),
                    total_allocation_bp: allocations(
                        batch_removed(beneficiaries, indices@, i as int),
                    ) as u32,
                    ..before.plans.records[plan_id]
                }),
                success == removal_count(beneficiaries.len() as int, indices@, i as int),
                success <= beneficiaries.len() - i,
            decreases i,
        {
            proof {
                lemma_batch_removed(beneficiaries, indices@, i as int);
                lemma_batch_removed(beneficiaries, indices@, i - 1);
            }
            i -= 1;
            if list_contains(&indices, &(i as u32)) {
                proof {
                    lemma_allocations_removed(plan@.beneficiaries, i as int);
                    lemma_allocations_nonnegative(plan@.beneficiaries);
                }
                let share: u32 = plan.beneficiaries.get(i).allocation_bp;
                plan.total_allocation_bp = plan.total_allocation_bp.saturating_sub(share);
                plan.beneficiaries.swap_remove(i);
                success += 1;
            }
        }
        proof {
            lemma_batch_removed(beneficiaries, indices@, 0);
            lemma_plan_update(before, plan_id, plan@);
        }
        let fail: u32 = indices.len() as u32 - success;
        self.publish(
            InheritanceEvent::BatchBeneficiariesRemoved(
                BatchBeneficiariesRemovedEvent {
                    plan_id,
                    success_count: success,
                    fail_count: fail,
                },
            ),
        );
        Ok((success, fail))
    }

    /// Replace the allocations of all beneficiaries of a plan. Together they must
    /// make up the whole.
    pub fn batch_update_allocations(
        &mut self,
        env: &Env,
        owner: Address,
        plan_id: u64,
        new_allocations: Vec<u32>,
    ) -> (result: Result<(), InheritanceError>)
        requires
            old(self)@.well_formed(),
            env.authorized(owner),
        ensures
            ({
                let error = old(self)@.allocations_error(owner, plan_id, new_allocations@);
                match result {
                    Err(e) => error == Some(e) && final(self)@ == old(self)@,
                    Ok(()) => error is None && final(self)@ == old(self)@.allocations_updated(
                        plan_id,
                        new_allocations@,
                    ),
                }
            }),
            final(self)@.well_formed(),
    {
        if new_allocations.len() > BATCH_LIMIT {
            return Err(InheritanceError::TooManyBeneficiaries);
        }
        match self.require_owner(plan_id, owner) {
            Ok(plan) => {
                if new_allocations.len() != plan.beneficiaries.len() {
                    return Err(InheritanceError::InvalidBeneficiaryData);
                }
            },
            Err(e) => {
                return Err(e);
            },
        }
        if list_contains(&new_allocations, &0) {
            return Err(InheritanceError::InvalidAllocation);
        }
        let mut total: u64 = 0;
        let mut i: usize = 0;
        while i < new_allocations.len()
            invariant
                i <= new_allocations@.len() <= BATCH_LIMIT,
                total == total_of(new_allocations@, i as int),
            decreases new_allocations@.len() - i,
        {
            proof {
                lemma_total_grows(new_allocations@, i as int, i as int);
            }
            total = total + new_allocations[i] as u64;
            i += 1;
        }
        if total != 10_000 {
            return Err(InheritanceError::AllocationPercentageMismatch);
        }
        let ghost before = self@;
        let ghost beneficiaries = before.plans.records[plan_id].beneficiaries;
        proof {
            lemma_plan_on_file(before, plan_id);
        }
        let plan = self.plans.records.at_mut(plan_id);
        let count: usize = plan.beneficiaries.len();
        let mut j: usize = 0;
        while j < count
            invariant
                j <= count == new_allocations@.len(),
                count == beneficiaries.len(),
                plan@.beneficiaries.len() == count,
                plan@ == (InheritancePlanView {
                    beneficiaries: plan@.beneficiaries,
                    ..before.plans.records[plan_id]
                }),
                forall|k: int|
                    0 <= k < count ==> (#[trigger] plan@.beneficiaries[k]) == (if k < j {
                        BeneficiaryView {
                            allocation_bp: new_allocations@[k],
                            ..beneficiaries[k]
                        }
                    } else {
                        beneficiaries[k]
                    }),
            decreases count - j,
        {
            let beneficiary = plan.beneficiaries.at_mut(j);
            beneficiary.allocation_bp = new_allocations[j];
            j += 1;
        }
        plan.total_allocation_bp = 10_000;
        proof {
            let all = reallocated(beneficiaries, new_allocations@);
            assert(plan@.beneficiaries =~= all);
            lemma_reallocated(beneficiaries, new_allocations@, count as int);
            assert(all.take(count as int) =~= all);
            lemma_plan_update(before, plan_id, plan@);
        }
        self.publish(
            InheritanceEvent::BatchAllocationsUpdated(
                BatchAllocationsUpdatedEvent { plan_id, success_count: count as u32 },
            ),
        );
        Ok(())
    }
}

/// A beneficiary can be made exactly of a name, an email and a bank account that are
/// not empty, a positive share, and a claim code of at most six digits. What is kept of
/// them are hashes of name, email and salted code, the account, the share and the
/// priority; nothing is claimed yet.
pub proof fn law_making_beneficiaries(input: BeneficiaryInputView, salt: Digest)
    ensures
        beneficiary_error(input) is None <==> {
            &&& input.name.len() > 0
            &&& input.email.len() > 0
            &&& input.bank_account.len() > 0
            &&& input.allocation_bp > 0
            &&& input.claim_code < 1_000_000
        },
        ({
            let made = made_beneficiary(input, salt);
            &&& made.hashed_full_name == hash_of(input.name)
            &&& made.hashed_email == hash_of(input.email)
            &&& made.hashed_claim_code == claim_code_hash(input.claim_code, salt)
            &&& made.bank_account == input.bank_account
            &&& made.allocation_bp == input.allocation_bp
            &&& made.priority == input.priority
            &&& !made.is_claimed
        }),
{
}

/// A list of beneficiaries is accepted exactly if it has one to ten entries, every
/// entry has a name and a positive priority, no email and no priority occurs twice, and
/// the shares come to 10,000 basis points.
pub proof fn law_input_lists_are_admitted(inputs: Seq<BeneficiaryInputView>)
    ensures
        inputs_error(inputs) is None <==> {
            &&& 1 <= inputs.len() <= 10
            &&& forall|i: int|
                0 <= i < inputs.len() ==> (#[trigger] inputs[i]).name.len() > 0
                    && inputs[i].priority > 0
            &&& forall|i: int, j: int|
                0 <= i < j < inputs.len() ==> (#[trigger] inputs[i]).email != (
                #[trigger] inputs[j]).email && inputs[i].priority != inputs[j].priority
            &&& input_allocations(inputs, inputs.len() as int) == 10_000
        },
        input_allocations(inputs, 0) == 0,
        forall|n: int|
            0 <= n < inputs.len() ==> #[trigger] input_allocations(inputs, n + 1)
                == input_allocations(inputs, n) + inputs[n].allocation_bp,
{
    if inputs_error(inputs) is None {
        law_accepted_inputs(inputs);
        assert forall|i: int| 0 <= i < inputs.len() implies (#[trigger] inputs[i]).priority
            > 0 by {
            lemma_no_input_error(inputs, inputs.len() as int, i);
        }
    }
    if {
        &&& 1 <= inputs.len() <= 10
        &&& forall|i: int|
            0 <= i < inputs.len() ==> (#[trigger] inputs[i]).name.len() > 0 && inputs[i].priority
                > 0
        &&& forall|i: int, j: int|
            0 <= i < j < inputs.len() ==> (#[trigger] inputs[i]).email != (
            #[trigger] inputs[j]).email && inputs[i].priority != inputs[j].priority
        &&& input_allocations(inputs, inputs.len() as int) == 10_000
    } {
        lemma_inputs_accepted(inputs, inputs.len() as int);
    }
}

/// Entries of which each is in order are accepted one after the other.
proof fn lemma_inputs_accepted(inputs: Seq<BeneficiaryInputView>, n: int)
    requires
        0 <= n <= inputs.len(),
        forall|i: int|
            0 <= i < inputs.len() ==> (#[trigger] inputs[i]).name.len() > 0 && inputs[i].priority
                > 0,
        forall|i: int, j: int|
            0 <= i < j < inputs.len() ==> (#[trigger] inputs[i]).email != (
            #[trigger] inputs[j]).email && inputs[i].priority != inputs[j].priority,
        input_allocations(inputs, inputs.len() as int) == 10_000,
    ensures
        first_input_error(inputs, n) is None,
    decreases n,
{
    if n > 0 {
        lemma_inputs_accepted(inputs, n - 1);
        lemma_input_allocations_grow(inputs, n, inputs.len() as int);
    }
}

/// Beneficiaries are made of the entries of a list in their order, as soon as each of
/// them can be made.
pub proof fn law_lists_are_made_in_order(
    inputs: Seq<BeneficiaryInputView>,
    salts: Seq<Digest>,
    filed: Map<(u64, u32), Digest>,
    plan_id: u64,
)
    requires
        inputs.len() <= 10,
    ensures
        first_making_error(inputs, inputs.len() as int) is None <==> forall|i: int|
            0 <= i < inputs.len() ==> beneficiary_error(#[trigger] inputs[i]) is None,
        made_beneficiaries(inputs, salts, inputs.len() as int).len() == inputs.len(),
        forall|i: int|
            0 <= i < inputs.len() ==> #[trigger] made_beneficiaries(
                inputs,
                salts,
                inputs.len() as int,
            )[i] == made_beneficiary(inputs[i], salts[i]),
        forall|i: u32|
            i < inputs.len() ==> #[trigger] salts_filed(
                filed,
                plan_id,
                salts,
                inputs.len() as int,
            ).contains_key((plan_id, i)) && salts_filed(
                filed,
                plan_id,
                salts,
                inputs.len() as int,
            )[(plan_id, i)] == salts[i as int],
        forall|plan: u64, i: u32|
            plan != plan_id || i >= inputs.len() ==> #[trigger] salts_filed(
                filed,
                plan_id,
                salts,
                inputs.len() as int,
            ).contains_key((plan, i)) == filed.contains_key((plan, i)) && salts_filed(
                filed,
                plan_id,
                salts,
                inputs.len() as int,
            )[(plan, i)] == filed[(plan, i)],
{
    let n = inputs.len() as int;
    let after = salts_filed(filed, plan_id, salts, n);
    lemma_made_allocations(inputs, salts, n);
    assert forall|i: int| 0 <= i < n implies #[trigger] made_beneficiaries(inputs, salts, n)[i]
        == made_beneficiary(inputs[i], salts[i]) by {
        lemma_made_at(filed, plan_id, inputs, salts, n, i);
    }
    assert forall|i: u32| i < n implies #[trigger] after.contains_key((plan_id, i)) && after[(
        plan_id,
        i,
    )] == salts[i as int] by {
        lemma_made_at(filed, plan_id, inputs, salts, n, i as int);
    }
    assert forall|plan: u64, i: u32| plan != plan_id || i >= n implies #[trigger] after.contains_key(
        (plan, i),
    ) == filed.contains_key((plan, i)) && after[(plan, i)] == filed[(plan, i)] by {
        lemma_other_salts(filed, plan_id, salts, n, plan, i);
    }
    lemma_making(inputs, n);
}

/// Salts of other beneficiaries stay.
proof fn lemma_other_salts(
    filed: Map<(u64, u32), Digest>,
    plan_id: u64,
    salts: Seq<Digest>,
    n: int,
    plan: u64,
    index: u32,
)
    requires
        n <= 10,
        plan != plan_id || index >= n,
    ensures
        salts_filed(filed, plan_id, salts, n).contains_key((plan, index)) == filed.contains_key(
            (plan, index),
        ),
        salts_filed(filed, plan_id, salts, n)[(plan, index)] == filed[(plan, index)],
    decreases n,
{
    if n > 0 {
        lemma_other_salts(filed, plan_id, salts, n - 1, plan, index);
    }
}

/// A list can be made exactly if each of its entries can.
proof fn lemma_making(inputs: Seq<BeneficiaryInputView>, n: int)
    requires
        0 <= n <= inputs.len(),
    ensures
        first_making_error(inputs, n) is None <==> forall|i: int|
            0 <= i < n ==> beneficiary_error(#[trigger] inputs[i]) is None,
    decreases n,
{
    if n > 0 {
        lemma_making(inputs, n - 1);
        if first_making_error(inputs, n) is None {
            assert forall|i: int| 0 <= i < n implies beneficiary_error(#[trigger] inputs[i])
                is None by {
                if i == n - 1 {
                    assert(beneficiary_error(inputs[n - 1]) is None);
                }
            }
        } else if beneficiary_error(inputs[n - 1]) is None {
            assert(first_making_error(inputs, n - 1) is Some);
        }
    }
}

/// The owner of a plan, and nobody else, adds a beneficiary: while there are fewer than
/// ten, and as long as all shares come to at most 10,000 basis points. The beneficiary
/// comes last, the salt is filed under that place, and the share is added to what is
/// allocated.
pub proof fn law_adding_beneficiaries(
    contract: InheritanceView,
    owner: Address,
    plan_id: u64,
    input: BeneficiaryInputView,
    salt: Digest,
)
    requires
        contract.well_formed(),
    ensures
        ({
            let plan = contract.plans.records[plan_id];
            contract.add_beneficiary_error(owner, plan_id, input) is None <==> {
                &&& contract.plans.records.contains_key(plan_id)
                &&& plan.owner == owner
                &&& plan.beneficiaries.len() < 10
                &&& plan.total_allocation_bp + input.allocation_bp <= 10_000
                &&& beneficiary_error(input) is None
            }
        }),
        contract.add_beneficiary_error(owner, plan_id, input) is None ==> {
            let plan = contract.plans.records[plan_id];
            let after = contract.beneficiary_added(plan_id, input, salt);
            let grown = after.plans.records[plan_id];
            &&& grown.beneficiaries == plan.beneficiaries.push(made_beneficiary(input, salt))
            &&& grown.total_allocation_bp == plan.total_allocation_bp + input.allocation_bp
            &&& grown == (InheritancePlanView {
                beneficiaries: grown.beneficiaries,
                total_allocation_bp: grown.total_allocation_bp,
                ..plan
            })
            &&& after == (InheritanceView {
                plans: PlanBookView {
                    records: contract.plans.records.insert(plan_id, grown),
                    ..contract.plans
                },
                claims: ClaimBookView {
                    salts: contract.claims.salts.insert(
                        (plan_id, plan.beneficiaries.len() as u32),
                        salt,
                    ),
                    ..contract.claims
                },
                events: contract.events.push(
                    InheritanceEventView::BeneficiaryAdded(
                        BeneficiaryAddedEvent {
                            plan_id,
                            hashed_email: hash_of(input.email),
                            allocation_bp: input.allocation_bp,
                        },
                    ),
                ),
                ..contract
            })
        },
{
    if contract.plans.records.contains_key(plan_id) {
        lemma_plan_on_file(contract, plan_id);
    }
}

/// The owner of a plan, and nobody else, removes the beneficiary at an index: the last
/// one takes the place, the others keep theirs, and the share is free again.
pub proof fn law_removing_beneficiaries(
    contract: InheritanceView,
    owner: Address,
    plan_id: u64,
    index: u32,
)
    requires
        contract.well_formed(),
    ensures
        contract.index_error(owner, plan_id, index) is None <==> {
            &&& contract.plans.records.contains_key(plan_id)
            &&& contract.plans.records[plan_id].owner == owner
            &&& index < contract.plans.records[plan_id].beneficiaries.len()
        },
        contract.index_error(owner, plan_id, index) is None ==> {
            let plan = contract.plans.records[plan_id];
            let gone = plan.beneficiaries[index as int];
            let after = contract.beneficiary_removed(plan_id, index);
            let left = after.plans.records[plan_id];
            let n = plan.beneficiaries.len() - 1;
            &&& left.beneficiaries.len() == n
            &&& forall|i: int|
                0 <= i < n && i != index ==> #[trigger] left.beneficiaries[i]
                    == plan.beneficiaries[i]
            &&& index < n ==> left.beneficiaries[index as int] == plan.beneficiaries[n]
            &&& left.total_allocation_bp + gone.allocation_bp == plan.total_allocation_bp
            &&& left == (InheritancePlanView {
                beneficiaries: left.beneficiaries,
                total_allocation_bp: left.total_allocation_bp,
                ..plan
            })
            &&& after == (InheritanceView {
                plans: PlanBookView {
                    records: contract.plans.records.insert(plan_id, left),
                    ..contract.plans
                },
                events: contract.events.push(
                    InheritanceEventView::BeneficiaryRemoved(
                        BeneficiaryRemovedEvent {
                            plan_id,
                            index,
                            allocation_bp: gone.allocation_bp,
                        },
                    ),
                ),
                ..contract
            })
        },
{
    if contract.index_error(owner, plan_id, index) is None {
        lemma_plan_on_file(contract, plan_id);
        lemma_allocations_nonnegative(contract.plans.records[plan_id].beneficiaries);
    }
}

/// The owner of a plan sets a priority that is positive and that no other beneficiary
/// has; nothing else changes.
pub proof fn law_setting_priorities(
    contract: InheritanceView,
    owner: Address,
    plan_id: u64,
    index: u32,
    priority: u32,
)
    ensures
        contract.priority_error(owner, plan_id, index, priority) is None <==> {
            &&& contract.plans.records.contains_key(plan_id)
            &&& contract.plans.records[plan_id].owner == owner
            &&& index < contract.plans.records[plan_id].beneficiaries.len()
            &&& priority > 0
            &&& forall|i: int|
                0 <= i < contract.plans.records[plan_id].beneficiaries.len() && i != index ==> (
                #[trigger] contract.plans.records[plan_id].beneficiaries[i]).priority != priority
        },
        contract.priority_error(owner, plan_id, index, priority) is None ==> {
            let plan = contract.plans.records[plan_id];
            let after = contract.priority_set(plan_id, index, priority);
            let changed = after.plans.records[plan_id];
            &&& changed.beneficiaries.len() == plan.beneficiaries.len()
            &&& forall|i: int|
                0 <= i < plan.beneficiaries.len() && i != index
                    ==> #[trigger] changed.beneficiaries[i] == plan.beneficiaries[i]
            &&& changed.beneficiaries[index as int] == (BeneficiaryView {
                priority,
                ..plan.beneficiaries[index as int]
            })
            &&& changed == (InheritancePlanView { beneficiaries: changed.beneficiaries, ..plan })
            &&& after == (InheritanceView {
                plans: PlanBookView {
                    records: contract.plans.records.insert(plan_id, changed),
                    ..contract.plans
                },
                events: contract.events.push(
                    InheritanceEventView::PrioritySet(
                        PrioritySetEvent { plan_id, beneficiary_index: index, priority },
                    ),
                ),
                ..contract
            })
        },
{
}

/// A batch is for the owner of the plan, and holds at most twenty items. The inputs of
/// a batch join one after the other: one that fits joins at the end, one that does not
/// is passed over, and each counts as one success or one failure.
pub proof fn law_batch_adding(
    contract: InheritanceView,
    owner: Address,
    plan_id: u64,
    inputs: Seq<BeneficiaryInputView>,
    salts: Seq<Digest>,
    n: int,
)
    requires
        contract.well_formed(),
        contract.plans.records.contains_key(plan_id),
        0 <= n < inputs.len() <= 20,
    ensures
        forall|count: nat| #[trigger]
            contract.batch_error(owner, plan_id, count) is None <==> count <= 20
                && contract.plans.records[plan_id].owner == owner,
        ({
            let plan = contract.plans.records[plan_id];
            let before = batch_joined(plan, inputs, salts, n);
            let after = batch_joined(plan, inputs, salts, n + 1);
            let count = batch_join_count(plan, inputs, salts, n);
            let filed = batch_salts(contract.claims.salts, plan_id, plan, inputs, salts, n);
            let filed_after = batch_salts(
                contract.claims.salts,
                plan_id,
                plan,
                inputs,
                salts,
                n + 1,
            );
            let input = inputs[n];
            let place = (plan_id, before.beneficiaries.len() as u32);
            let fits = before.beneficiaries.len() < 10 && before.total_allocation_bp
                + input.allocation_bp <= 10_000 && beneficiary_error(input) is None;
            &&& batch_joined(plan, inputs, salts, 0) == plan
            &&& batch_join_count(plan, inputs, salts, 0) == 0
            &&& batch_salts(contract.claims.salts, plan_id, plan, inputs, salts, 0)
                == contract.claims.salts
            &&& before.total_allocation_bp <= 10_000
            &&& fits ==> {
                &&& after.beneficiaries == before.beneficiaries.push(
                    made_beneficiary(input, salts[n]),
                )
                &&& after.total_allocation_bp == before.total_allocation_bp + input.allocation_bp
                &&& after == (InheritancePlanView {
                    beneficiaries: after.beneficiaries,
                    total_allocation_bp: after.total_allocation_bp,
                    ..plan
                })
                &&& filed_after == filed.insert(place, salts[n])
                &&& batch_join_count(plan, inputs, salts, n + 1) == count + 1
            }
            &&& !fits ==> {
                &&& after == before
                &&& batch_join_count(plan, inputs, salts, n + 1) == count
                &&& forall|key: (u64, u32)|
                    key != place ==> #[trigger] filed_after.contains_key(key)
                        == filed.contains_key(key) && filed_after[key] == filed[key]
            }
        }),
{
    let plan = contract.plans.records[plan_id];
    lemma_plan_on_file(contract, plan_id);
    lemma_batch_valid(plan, inputs, salts, n);
}

/// A plan stays valid while a batch joins it, and keeps all but its beneficiaries.
proof fn lemma_batch_valid(
    plan: InheritancePlanView,
    inputs: Seq<BeneficiaryInputView>,
    salts: Seq<Digest>,
    n: int,
)
    requires
        plan_valid(plan),
    ensures
        ({
            let after = batch_joined(plan, inputs, salts, n);
            &&& plan_valid(after)
            &&& after == (InheritancePlanView {
                beneficiaries: after.beneficiaries,
                total_allocation_bp: after.total_allocation_bp,
                ..plan
            })
            &&& batch_join_count(plan, inputs, salts, n) <= if n > 0 {
                n
            } else {
                0
            }
        }),
    decreases n,
{
    if n > 0 {
        lemma_batch_valid(plan, inputs, salts, n - 1);
        let before = batch_joined(plan, inputs, salts, n - 1);
        lemma_allocations_pushed(
            before.beneficiaries,
            made_beneficiary(inputs[n - 1], salts[n - 1]),
        );
    }
}

/// A batch of beneficiaries that was added changes the plan, its salts and nothing
/// else, and announces how many joined and how many did not.
pub proof fn law_batch_added(
    contract: InheritanceView,
    plan_id: u64,
    inputs: Seq<BeneficiaryInputView>,
    salts: Seq<Digest>,
)
    requires
        contract.well_formed(),
        contract.plans.records.contains_key(plan_id),
        inputs.len() <= 20,
    ensures
        ({
            let plan = contract.plans.records[plan_id];
            let n = inputs.len() as int;
            let after = contract.beneficiaries_added(plan_id, inputs, salts);
            &&& after == (InheritanceView {
                plans: PlanBookView {
                    records: contract.plans.records.insert(
                        plan_id,
                        batch_joined(plan, inputs, salts, n),
                    ),
                    ..contract.plans
                },
                claims: ClaimBookView {
                    salts: batch_salts(contract.claims.salts, plan_id, plan, inputs, salts, n),
                    ..contract.claims
                },
                events: after.events,
                ..contract
            })
            &&& after.events.drop_last() == contract.events
            &&& after.events.len() == contract.events.len() + 1
            &&& {
                &&& after.events.last() matches InheritanceEventView::BatchBeneficiariesAdded(event)
                &&& event.plan_id == plan_id
                &&& event.success_count == batch_join_count(plan, inputs, salts, n)
                &&& event.success_count + event.fail_count == n
            }
        }),
{
    let plan = contract.plans.records[plan_id];
    lemma_plan_on_file(contract, plan_id);
    lemma_batch_valid(plan, inputs, salts, inputs.len() as int);
}

/// A batch of removals takes out the beneficiaries whose index is named, each once, and
/// keeps all the others; what is allocated is what those are allocated together.
pub proof fn law_batch_removing(contract: InheritanceView, plan_id: u64, indices: Seq<u32>)
    requires
        contract.well_formed(),
        contract.plans.records.contains_key(plan_id),
        indices.len() <= 20,
    ensures
        ({
            let plan = contract.plans.records[plan_id];
            let all = plan.beneficiaries;
            let after = contract.beneficiaries_removed(plan_id, indices);
            let left = after.plans.records[plan_id];
            &&& forall|i: int|
                0 <= i < all.len() && !indices.contains(i as u32) ==> left.beneficiaries.contains(
                    #[trigger] all[i],
                )
            &&& forall|k: int|
                0 <= k < left.beneficiaries.len() ==> exists|i: int|
                    0 <= i < all.len() && !indices.contains(i as u32) && #[trigger] all[i]
                        == #[trigger] left.beneficiaries[k]
            &&& left.beneficiaries.len() + removal_count(all.len() as int, indices, 0) == all.len()
            &&& left.total_allocation_bp == allocations(left.beneficiaries)
            &&& left == (InheritancePlanView {
                beneficiaries: left.beneficiaries,
                total_allocation_bp: left.total_allocation_bp,
                ..plan
            })
            &&& after == (InheritanceView {
                plans: PlanBookView {
                    records: contract.plans.records.insert(plan_id, left),
                    ..contract.plans
                },
                events: after.events,
                ..contract
            })
            &&& after.events.drop_last() == contract.events
            &&& after.events.len() == contract.events.len() + 1
            &&& {
                &&& after.events.last() matches InheritanceEventView::BatchBeneficiariesRemoved(
                    event,
                )
                &&& event.plan_id == plan_id
                &&& event.success_count == all.len() - left.beneficiaries.len()
                &&& event.success_count + event.fail_count == indices.len()
            }
        }),
{
    let plan = contract.plans.records[plan_id];
    let all = plan.beneficiaries;
    lemma_plan_on_file(contract, plan_id);
    lemma_kept(all, indices, 0);
    lemma_batch_removed(all, indices, 0);
    lemma_removal_count_bounded(all.len() as int, indices, 0);
    let rest = batch_removed(all, indices, 0);
    assert forall|k: int| 0 <= k < rest.len() implies exists|i: int|
        0 <= i < all.len() && !indices.contains(i as u32) && #[trigger] all[i]
            == #[trigger] rest[k] by {
        assert(kept_from(all, indices, 0, rest[k]));
    }
}

/// An item of a list at or after an index that is not to be removed.
spec fn kept_from(
    all: Seq<BeneficiaryView>,
    indices: Seq<u32>,
    from: int,
    item: BeneficiaryView,
) -> bool {
    exists|i: int|
        from <= i < all.len() && !indices.contains(i as u32) && #[trigger] all[i] == item
}

/// Those before the index stay in place; from the index on there are those that are
/// kept, and no others.
proof fn lemma_kept(all: Seq<BeneficiaryView>, indices: Seq<u32>, i: int)
    requires
        0 <= i <= all.len() <= 10,
    ensures
        ({
            let rest = batch_removed(all, indices, i);
            &&& i <= rest.len()
            &&& rest.len() + removal_count(all.len() as int, indices, i) == all.len()
            &&& forall|k: int| 0 <= k < i ==> #[trigger] rest[k] == all[k]
            &&& forall|k: int|
                i <= k < rest.len() ==> kept_from(all, indices, i, #[trigger] rest[k])
            &&& forall|j: int|
                i <= j < all.len() && !indices.contains(j as u32) ==> rest.contains(
                    #[trigger] all[j],
                )
        }),
        ({
            let rest = batch_removed(all, indices, i);
            forall|j: int|
                i <= j < all.len() && !indices.contains(j as u32) ==> exists|k: int|
                    i <= k < rest.len() && #[trigger] rest[k] == #[trigger] all[j]
        }),
    decreases all.len() - i,
{
    if i < all.len() {
        lemma_kept(all, indices, i + 1);
        let rest = batch_removed(all, indices, i + 1);
        let after = batch_removed(all, indices, i);
        assert(rest[i] == all[i]);
        assert forall|k: int| i <= k < after.len() implies kept_from(
            all,
            indices,
            i,
            #[trigger] after[k],
        ) by {
            if indices.contains(i as u32) {
                let from = if k == i {
                    rest.len() - 1
                } else {
                    k
                };
                assert(after[k] == rest[from]);
                assert(kept_from(all, indices, i + 1, rest[from]));
            } else if k == i {
                assert(all[i] == after[k]);
            } else {
                assert(kept_from(all, indices, i + 1, rest[k]));
            }
        }
        assert forall|j: int| i <= j < all.len() && !indices.contains(j as u32) implies exists|
            k: int,
        |
            i <= k < after.len() && #[trigger] after[k] == #[trigger] all[j] by {
            if j == i {
                assert(after[i] == all[i]);
            } else {
                let k = choose|k: int|
                    i + 1 <= k < rest.len() && #[trigger] rest[k] == all[j];
                if indices.contains(i as u32) {
                    if k == rest.len() - 1 {
                        assert(after[i] == rest[k]);
                    } else {
                        assert(after[k] == rest[k]);
                    }
                } else {
                    assert(after[k] == rest[k]);
                }
            }
        }
    }
}

/// Every share is replaced by the one at the same place, where there are as many as
/// beneficiaries, none of them is zero, and they come to 10,000 basis points.
pub proof fn law_reallocating(
    contract: InheritanceView,
    owner: Address,
    plan_id: u64,
    shares: Seq<u32>,
)
    requires
        contract.well_formed(),
    ensures
        contract.allocations_error(owner, plan_id, shares) is None <==> {
            &&& shares.len() <= 20
            &&& contract.plans.records.contains_key(plan_id)
            &&& contract.plans.records[plan_id].owner == owner
            &&& shares.len() == contract.plans.records[plan_id].beneficiaries.len()
            &&& forall|i: int| 0 <= i < shares.len() ==> #[trigger] shares[i] > 0
            &&& total_of(shares, shares.len() as int) == 10_000
        },
        total_of(shares, 0) == 0,
        forall|n: int|
            0 <= n < shares.len() ==> #[trigger] total_of(shares, n + 1) == total_of(shares, n)
                + shares[n],
        contract.allocations_error(owner, plan_id, shares) is None ==> {
            let plan = contract.plans.records[plan_id];
            let after = contract.allocations_updated(plan_id, shares);
            let changed = after.plans.records[plan_id];
            &&& changed.beneficiaries.len() == plan.beneficiaries.len()
            &&& forall|i: int|
                0 <= i < plan.beneficiaries.len() ==> #[trigger] changed.beneficiaries[i] == (
                BeneficiaryView { allocation_bp: shares[i], ..plan.beneficiaries[i] })
            &&& changed.total_allocation_bp == 10_000
            &&& changed == (InheritancePlanView {
                beneficiaries: changed.beneficiaries,
                total_allocation_bp: changed.total_allocation_bp,
                ..plan
            })
            &&& after == (InheritanceView {
                plans: PlanBookView {
                    records: contract.plans.records.insert(plan_id, changed),
                    ..contract.plans
                },
                events: contract.events.push(
                    InheritanceEventView::BatchAllocationsUpdated(
                        BatchAllocationsUpdatedEvent {
                            plan_id,
                            success_count: plan.beneficiaries.len() as u32,
                        },
                    ),
                ),
                ..contract
            })
        },
{
    if !shares.contains(0) {
        assert forall|i: int| 0 <= i < shares.len() implies #[trigger] shares[i] > 0 by {
            if shares[i] == 0 {
                assert(shares.contains(0));
            }
        }
    }
}

/// A batch holds at most twenty items.
pub proof fn law_limits()
    ensures
        BATCH_LIMIT == 20,
{
}

/// Why a beneficiary cannot be made of what an owner states: every reason that is given
/// holds.
pub proof fn law_reason_beneficiary(input: BeneficiaryInputView)
    ensures
        match beneficiary_error(input) {
            None => true,
            Some(InheritanceError::InvalidBeneficiaryData) => input.name.len() == 0
                || input.email.len() == 0 || input.bank_account.len() == 0,
            Some(InheritanceError::InvalidAllocation) => input.allocation_bp == 0,
            Some(InheritanceError::InvalidClaimCodeRange) => input.claim_code > MAX_CLAIM_CODE,
            Some(_) => false,
        },
{
}

/// Why the `i`-th input is refused in view of those before it: every reason that is
/// given holds.
pub proof fn law_reason_input(inputs: Seq<BeneficiaryInputView>, i: int)
    ensures
        match input_error(inputs, i) {
            None => true,
            Some(InheritanceError::InvalidBeneficiaryData) => inputs[i].name.len() == 0
                || (exists|j: int| 0 <= j < i && (#[trigger] inputs[j]).email == inputs[i].email),
            Some(InheritanceError::AllocationPercentageMismatch) => input_allocations(inputs, i + 1)
                > u32::MAX,
            Some(InheritanceError::PriorityOutOfRange) => inputs[i].priority == 0,
            Some(InheritanceError::DuplicatePriority) => exists|j: int| 0 <= j < i && (#[trigger]
                inputs[j]).priority == inputs[i].priority,
            Some(_) => false,
        },
{
}

/// Why a list of beneficiaries is refused: every reason that is given holds.
pub proof fn law_reason_inputs(inputs: Seq<BeneficiaryInputView>)
    ensures
        match inputs_error(inputs) {
            None => true,
            Some(InheritanceError::TooManyBeneficiaries) => inputs.len() > MAX_BENEFICIARIES
                || first_input_error(inputs, inputs.len() as int)
                == Some(InheritanceError::TooManyBeneficiaries),
            Some(InheritanceError::MissingRequiredField) => inputs.len() == 0
                || first_input_error(inputs, inputs.len() as int)
                == Some(InheritanceError::MissingRequiredField),
            Some(InheritanceError::AllocationPercentageMismatch) => input_allocations(inputs,
                inputs.len() as int) != 10_000 || first_input_error(inputs, inputs.len() as int)
                == Some(InheritanceError::AllocationPercentageMismatch),
            Some(error) => first_input_error(inputs, inputs.len() as int) == Some(error),
        },
{
}

/// Why a beneficiary cannot join a plan: every reason that is given holds.
pub proof fn law_reason_join(plan: InheritancePlanView, input: BeneficiaryInputView)
    ensures
        match join_error(plan, input) {
            None => true,
            Some(InheritanceError::TooManyBeneficiaries) => plan.beneficiaries.len()
                >= MAX_BENEFICIARIES,
            Some(InheritanceError::InvalidAllocation) => input.allocation_bp == 0
                || beneficiary_error(input) == Some(InheritanceError::InvalidAllocation),
            Some(InheritanceError::AllocationExceedsLimit) => plan.total_allocation_bp
                + input.allocation_bp > 10_000,
            Some(error) => beneficiary_error(input) == Some(error),
        },
{
}

/// Why the beneficiary at an index is not available to an owner: every reason that is
/// given holds.
pub proof fn law_reason_index(contract: InheritanceView, owner: Address, plan_id: u64, index: u32)
    ensures
        match contract.index_error(owner, plan_id, index) {
            None => true,
            Some(InheritanceError::InvalidBeneficiaryIndex) => index
                >= contract.plans.records[plan_id].beneficiaries.len(),
            Some(error) => contract.owner_error(plan_id, owner) == Some(error),
        },
{
}

/// Why a priority is not set: every reason that is given holds.
pub proof fn law_reason_priority(
    contract: InheritanceView,
    owner: Address,
    plan_id: u64,
    index: u32,
    priority: u32,
)
    ensures
        ({
            let beneficiaries = contract.plans.records[plan_id].beneficiaries;
            match contract.priority_error(owner, plan_id, index, priority) {
                None => true,
                Some(InheritanceError::PriorityOutOfRange) => priority == 0,
                Some(InheritanceError::DuplicatePriority) => exists|i: int| 0 <= i
                    < beneficiaries.len() && i != index && (#[trigger] beneficiaries[i]).priority
                    == priority,
                Some(error) => contract.index_error(owner, plan_id, index) == Some(error),
            }
        }),
{
}

/// Why a batch of `count` items for a plan is refused as a whole: every reason that is
/// given holds.
pub proof fn law_reason_batch(contract: InheritanceView, owner: Address, plan_id: u64, count: nat)
    ensures
        match contract.batch_error(owner, plan_id, count) {
            None => true,
            Some(InheritanceError::TooManyBeneficiaries) => count > BATCH_LIMIT,
            Some(error) => contract.owner_error(plan_id, owner) == Some(error),
        },
{
}

/// Why allocations are not updated: every reason that is given holds.
pub proof fn law_reason_allocations(
    contract: InheritanceView,
    owner: Address,
    plan_id: u64,
    shares: Seq<u32>,
)
    ensures
        match contract.allocations_error(owner, plan_id, shares) {
            None => true,
            Some(InheritanceError::InvalidBeneficiaryData) => shares.len()
                != contract.plans.records[plan_id].beneficiaries.len(),
            Some(InheritanceError::InvalidAllocation) => shares.contains(0),
            Some(InheritanceError::AllocationPercentageMismatch) => total_of(shares, shares.len()
                as int) != 10_000,
            Some(error) => contract.batch_error(owner, plan_id, shares.len()) == Some(error),
        },
{
}

/// Why a list is refused: the reason is that of its first entry that is refused.
pub proof fn law_reason_of_the_first(inputs: Seq<BeneficiaryInputView>, n: int)
    requires
        0 <= n <= inputs.len(),
    ensures
        first_input_error(inputs, n) is Some ==> exists|i: int|
            0 <= i < n && #[trigger] input_error(inputs, i) == first_input_error(inputs, n)
                && first_input_error(inputs, i) is None,
        first_making_error(inputs, n) is Some ==> exists|i: int|
            0 <= i < n && beneficiary_error(#[trigger] inputs[i]) == first_making_error(inputs, n)
                && first_making_error(inputs, i) is None,
    decreases n,
{
    if n > 0 {
        law_reason_of_the_first(inputs, n - 1);
        if first_input_error(inputs, n) is Some {
            if first_input_error(inputs, n - 1) is Some {
                let i = choose|i: int|
                    0 <= i < n - 1 && #[trigger] input_error(inputs, i) == first_input_error(
                        inputs,
                        n - 1,
                    ) && first_input_error(inputs, i) is None;
                assert(input_error(inputs, i) == first_input_error(inputs, n));
            } else {
                assert(input_error(inputs, n - 1) == first_input_error(inputs, n));
            }
        }
        if first_making_error(inputs, n) is Some {
            if first_making_error(inputs, n - 1) is Some {
                let i = choose|i: int|
                    0 <= i < n - 1 && beneficiary_error(#[trigger] inputs[i]) == first_making_error(
                        inputs,
                        n - 1,
                    ) && first_making_error(inputs, i) is None;
                assert(beneficiary_error(inputs[i]) == first_making_error(inputs, n));
            } else {
                assert(beneficiary_error(inputs[n - 1]) == first_making_error(inputs, n));
            }
        }
    }
}

} // verus!
