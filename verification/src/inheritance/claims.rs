//! Claims: who may claim, what they are paid, and what is recorded.
use vstd::prelude::*;

use crate::access::{law_roles, Role};
use crate::host::{Address, Env};
use crate::inheritance::beneficiaries::{
    lemma_accepted_input, lemma_allocations_nonnegative, lemma_allocations_update, lemma_made_at,
    made_beneficiary, waterfall_blocked, waterfall_payout, BATCH_LIMIT,
};
use crate::inheritance::emergency::{emergency_limit, emergency_limit_of};
use crate::inheritance::hashing::{
    claim_code_hash, claim_key, code_digits, hash_claim_code_with_salt, hash_data, hash_of,
    make_claim_key, Digest, MAX_CLAIM_CODE, MAX_TEXT_LEN,
};
use crate::inheritance::state::{
    lemma_plan_on_file, lemma_plan_update, list_of, plan_valid, ClaimBookView, InheritanceContract,
    InheritanceView, PlanBookView,
};
use crate::inheritance::triggers::lemma_auto_triggered;
use crate::inheritance::types::{
    BatchClaimEvent, BeneficiaryView, ClaimAttemptWindow, ClaimRecord, ClaimedEvent,
    CreateInheritancePlanParamsView, DistributionMethod, FiatPayoutEvent, InheritanceError, InheritanceEvent, InheritanceEventView,
    InheritancePlan, InheritancePlanView,
};
use crate::list::{list_contains, Duplicate, List};
use crate::math::{
    bps_share, law_share_is_rounded_down, lemma_share_bounded, min64, saturating_difference,
    share_bps, smaller,
};
use crate::table::Key;

verus! {

/// Attempts to claim are counted for an hour.
pub const CLAIM_ATTEMPT_WINDOW_SECONDS: u64 = 3_600;

/// Most attempts to claim in an hour.
pub const CLAIM_MAX_ATTEMPTS_PER_WINDOW: u32 = 10;

/// One claim of a batch.
#[derive(Clone, Debug)]
pub struct ClaimEntry {
    pub claimer: Address,
    pub email: Vec<u8>,
    pub claim_code: u32,
}

/// The model of [`ClaimEntry`].
#[verifier::ext_equal]
pub struct ClaimEntryView {
    pub claimer: Address,
    pub email: Seq<u8>,
    pub claim_code: u32,
}

impl View for ClaimEntry {
    type V = ClaimEntryView;

    open spec fn view(&self) -> ClaimEntryView {
        ClaimEntryView {
            claimer: self.claimer,
            email: self.email@,
            claim_code: self.claim_code,
        }
    }
}

/// The salt of a beneficiary for whom none is on file: zeros.
pub open spec fn zero_digest() -> Digest {
    Digest { bytes: vstd::array::spec_array_fill_for_copy_type(0u8) }
}

/// Seconds that must pass before a plan can be claimed: 30, 90 or 365 days.
pub open spec fn waiting_period(method: DistributionMethod) -> int {
    match method {
        DistributionMethod::LumpSum => 0,
        DistributionMethod::Monthly => 2_592_000,
        DistributionMethod::Quarterly => 7_776_000,
        DistributionMethod::Yearly => 31_536_000,
    }
}

/// A plan has existed for long enough to be claimed.
pub open spec fn claim_time_valid(plan: InheritancePlanView, now: u64) -> bool {
    plan.distribution_method == DistributionMethod::LumpSum || now - plan.created_at
        >= waiting_period(plan.distribution_method)
}

/// The plan has a beneficiary with the email.
pub open spec fn email_listed(plan: InheritancePlanView, hashed_email: Digest) -> bool {
    exists|i: int|
        0 <= i < plan.beneficiaries.len() && (#[trigger] plan.beneficiaries[i]).hashed_email
            == hashed_email
}

/// A list that holds the item: the list itself, if it does, else with the item at
/// its end.
pub open spec fn holding(list: Seq<u64>, item: u64) -> Seq<u64> {
    if list.contains(item) {
        list
    } else {
        list.push(item)
    }
}

impl InheritanceView {
    /// The attempts of a claimer that count now.
    pub open spec fn attempt_window(self, now: u64, plan_id: u64, claimer: Address)
        -> ClaimAttemptWindow {
        let key = (plan_id, claimer);
        if self.claims.attempts.contains_key(key) && saturating_difference(
            now,
            self.claims.attempts[key].window_start,
        ) < CLAIM_ATTEMPT_WINDOW_SECONDS {
            self.claims.attempts[key]
        } else {
            ClaimAttemptWindow { window_start: now, attempts: 0 }
        }
    }

    /// The claimer has made too many attempts.
    pub open spec fn attempts_exhausted(self, now: u64, plan_id: u64, claimer: Address) -> bool {
        self.attempt_window(now, plan_id, claimer).attempts >= CLAIM_MAX_ATTEMPTS_PER_WINDOW
    }

    /// The contract after an attempt was counted.
    pub open spec fn attempt_recorded(self, now: u64, plan_id: u64, claimer: Address)
        -> InheritanceView {
        let window = self.attempt_window(now, plan_id, claimer);
        InheritanceView {
            claims: ClaimBookView {
                attempts: self.claims.attempts.insert(
                    (plan_id, claimer),
                    ClaimAttemptWindow { attempts: (window.attempts + 1) as u32, ..window },
                ),
                ..self.claims
            },
            ..self
        }
    }

    /// The salt of a beneficiary's claim code.
    pub open spec fn salt_of(self, plan_id: u64, index: u32) -> Digest {
        if self.claims.salts.contains_key((plan_id, index)) {
            self.claims.salts[(plan_id, index)]
        } else {
            zero_digest()
        }
    }

    /// The beneficiary at an index has the email and the claim code.
    pub open spec fn claim_matches(
        self,
        plan_id: u64,
        hashed_email: Digest,
        claim_code: u32,
        index: int,
    ) -> bool {
        let beneficiary = self.plans.records[plan_id].beneficiaries[index];
        &&& beneficiary.hashed_email == hashed_email
        &&& beneficiary.hashed_claim_code == claim_code_hash(
            claim_code,
            self.salt_of(plan_id, index as u32),
        )
    }

    /// The first beneficiary from an index on who has the email and the claim code.
    pub open spec fn claimant_from(
        self,
        plan_id: u64,
        hashed_email: Digest,
        claim_code: u32,
        from: int,
    ) -> Option<u32>
        decreases self.plans.records[plan_id].beneficiaries.len() - from,
    {
        if from >= self.plans.records[plan_id].beneficiaries.len() {
            None
        } else if self.claim_matches(plan_id, hashed_email, claim_code, from) {
            Some(from as u32)
        } else {
            self.claimant_from(plan_id, hashed_email, claim_code, from + 1)
        }
    }

    /// The beneficiary who has the email and the claim code.
    pub open spec fn claimant(self, plan_id: u64, email: Seq<u8>, claim_code: u32) -> Option<u32> {
        if claim_code > MAX_CLAIM_CODE {
            None
        } else {
            self.claimant_from(plan_id, hash_of(email), claim_code, 0)
        }
    }

    /// The claim under an email was already paid in full.
    pub open spec fn claim_settled(self, plan_id: u64, email: Seq<u8>) -> bool {
        self.claims.records.contains_key(claim_key(plan_id, hash_of(email)))
    }

    /// The beneficiary is frozen.
    pub open spec fn beneficiary_frozen(self, plan_id: u64, index: u32) -> bool {
        self.holds.frozen_beneficiaries.contains_key((plan_id, index))
            && self.holds.frozen_beneficiaries[(plan_id, index)]
    }

    /// The beneficiaries of the plan must acknowledge before they claim, and this
    /// one has not.
    pub open spec fn acknowledgment_missing(self, plan_id: u64, index: u32) -> bool {
        self.notices.required.contains_key(plan_id) && self.notices.required[plan_id]
            && !self.notices.acknowledged.contains_key((plan_id, index))
    }

    /// What is left of the settlement that was agreed with a beneficiary; nothing,
    /// if none was.
    pub open spec fn settlement_of(self, plan_id: u64, index: u32) -> u64 {
        if self.claims.settlements.contains_key((plan_id, index)) {
            self.claims.settlements[(plan_id, index)]
        } else {
            0
        }
    }

    /// What a beneficiary is paid: their entitlement, or what is left of the
    /// settlement that was agreed, whichever is less.
    pub open spec fn claim_payout(self, plan_id: u64, index: u32) -> u64 {
        let payout = waterfall_payout(self.plans.records[plan_id], index as int);
        let settlement = self.settlement_of(plan_id, index);
        if settlement > 0 {
            smaller(payout, settlement)
        } else {
            payout
        }
    }

    /// Why a beneficiary who was found is not paid. `triggered` is whether
    /// inheritance was triggered.
    pub open spec fn payout_error(self, now: u64, plan_id: u64, index: u32, triggered: bool)
        -> Option<InheritanceError> {
        let plan = self.plans.records[plan_id];
        let payout = self.claim_payout(plan_id, index);
        if self.beneficiary_frozen(plan_id, index) {
            Some(InheritanceError::Unauthorized)
        } else if self.acknowledgment_missing(plan_id, index) {
            Some(InheritanceError::ClaimNotAllowedYet)
        } else if plan.waterfall_enabled && waterfall_blocked(plan, index as int) {
            Some(InheritanceError::ClaimNotAllowedYet)
        } else if self.emergency_active(now, plan_id) && payout > emergency_limit(
            plan.total_amount,
        ) {
            Some(InheritanceError::EmergencyCooldownActive)
        } else if !triggered && payout > saturating_difference(
            plan.total_amount,
            plan.total_loaned,
        ) {
            Some(InheritanceError::InsufficientLiquidity)
        } else if payout == 0 {
            Some(InheritanceError::NothingToClaim)
        } else {
            None
        }
    }

    /// Inheritance was triggered, or is by a condition that is met now.
    pub open spec fn triggered_by_now(self, now: u64, plan_id: u64) -> bool {
        self.auto_triggered(now, plan_id).triggered(plan_id)
    }

    /// Why nobody is looked for who could be paid.
    pub open spec fn claim_entry_error(self, now: u64, plan_id: u64, claimer: Address) -> Option<
        InheritanceError,
    > {
        let plan = self.plans.records[plan_id];
        if self.kyc_error(claimer) is Some {
            self.kyc_error(claimer)
        } else if !self.plans.records.contains_key(plan_id) {
            Some(InheritanceError::PlanNotFound)
        } else if !plan.is_active || self.on_hold(plan_id) {
            Some(InheritanceError::PlanNotActive)
        } else if self.attempts_exhausted(now, plan_id, claimer) {
            Some(InheritanceError::Unauthorized)
        } else if !self.triggered_by_now(now, plan_id) && !claim_time_valid(plan, now) {
            Some(InheritanceError::ClaimNotAllowedYet)
        } else {
            None
        }
    }

    /// Why a claim is refused.
    pub open spec fn claim_error(
        self,
        now: u64,
        plan_id: u64,
        claimer: Address,
        email: Seq<u8>,
        claim_code: u32,
    ) -> Option<InheritanceError> {
        let plan = self.plans.records[plan_id];
        let triggered = self.triggered_by_now(now, plan_id);
        if self.claim_entry_error(now, plan_id, claimer) is Some {
            self.claim_entry_error(now, plan_id, claimer)
        } else if self.claim_settled(plan_id, email) {
            Some(InheritanceError::AlreadyClaimed)
        } else if claim_code > MAX_CLAIM_CODE && email_listed(plan, hash_of(email)) {
            Some(InheritanceError::InvalidClaimCodeRange)
        } else {
            match self.claimant(plan_id, email, claim_code) {
                None => Some(InheritanceError::BeneficiaryNotFound),
                Some(index) => self.payout_error(now, plan_id, index, triggered),
            }
        }
    }

    /// A payout settles the claim of a beneficiary: no settlement was agreed, or
    /// nothing is left of it.
    pub open spec fn payout_settles(self, plan_id: u64, index: u32) -> bool {
        self.settlement_of(plan_id, index) <= self.claim_payout(plan_id, index)
    }

    /// The plan after a beneficiary was paid.
    pub open spec fn paid_plan(self, plan_id: u64, index: u32) -> InheritancePlanView {
        let plan = self.plans.records[plan_id];
        let beneficiary = plan.beneficiaries[index as int];
        InheritancePlanView {
            beneficiaries: plan.beneficiaries.update(
                index as int,
                BeneficiaryView {
                    is_claimed: beneficiary.is_claimed || self.payout_settles(plan_id, index),
                    ..beneficiary
                },
            ),
            total_amount: (plan.total_amount - self.claim_payout(plan_id, index)) as u64,
            ..plan
        }
    }

    /// The settlements after a beneficiary was paid.
    pub open spec fn settlements_after(self, plan_id: u64, index: u32) -> Map<(u64, u32), u64> {
        let settlement = self.settlement_of(plan_id, index);
        let payout = self.claim_payout(plan_id, index);
        if settlement == 0 {
            self.claims.settlements
        } else if self.payout_settles(plan_id, index) {
            self.claims.settlements.remove((plan_id, index))
        } else {
            self.claims.settlements.insert((plan_id, index), (settlement - payout) as u64)
        }
    }

    /// The contract after a claim was recorded as paid in full.
    pub open spec fn claim_recorded(
        self,
        now: u64,
        plan_id: u64,
        index: u32,
        hashed_email: Digest,
        owner: Address,
    ) -> InheritanceView {
        InheritanceView {
            claims: ClaimBookView {
                records: self.claims.records.insert(
                    claim_key(plan_id, hashed_email),
                    ClaimRecord { plan_id, beneficiary_index: index, claimed_at: now },
                ),
                ..self.claims
            },
            plans: PlanBookView {
                claimed_by_owner: self.plans.claimed_by_owner.insert(
                    owner,
                    holding(list_of(self.plans.claimed_by_owner, owner), plan_id),
                ),
                claimed: holding(self.plans.claimed, plan_id),
                ..self.plans
            },
            ..self
        }
    }

    /// The contract after it looked at a claim that goes through, before it pays:
    /// the attempt is counted, a condition that is met has triggered inheritance,
    /// and lapsed emergency access is struck off.
    pub open spec fn claim_prepared(self, now: u64, plan_id: u64, claimer: Address)
        -> InheritanceView {
        self.attempt_recorded(now, plan_id, claimer).auto_triggered(
            now,
            plan_id,
        ).emergency_expired(now, plan_id)
    }

    /// The contract after a claim was paid.
    pub open spec fn claimed(
        self,
        now: u64,
        plan_id: u64,
        claimer: Address,
        email: Seq<u8>,
        claim_code: u32,
    ) -> InheritanceView {
        let index = self.claimant(plan_id, email, claim_code)->0;
        let plan = self.plans.records[plan_id];
        let payout = self.claim_payout(plan_id, index);
        let opened = self.claim_prepared(now, plan_id, claimer);
        let prepared = opened.with_plan(
            plan_id,
            InheritancePlanView {
                is_lendable: opened.plans.records[plan_id].is_lendable,
                ..self.paid_plan(plan_id, index)
            },
        );
        let paid = InheritanceView {
            claims: ClaimBookView {
                settlements: self.settlements_after(plan_id, index),
                ..prepared.claims
            },
            ..prepared
        };
        let recorded = if self.payout_settles(plan_id, index) {
            paid.claim_recorded(now, plan_id, index, hash_of(email), plan.owner)
        } else {
            paid
        };
        let published = (InheritanceView {
            access: recorded.access.assigned(claimer, Role::Beneficiary),
            ..recorded
        }).with_event(
            InheritanceEventView::Claimed(
                ClaimedEvent { plan_id, hashed_email: hash_of(email), payout },
            ),
        );
        if plan.beneficiaries[index as int].bank_account.len() > 0 {
            published.with_event(
                InheritanceEventView::FiatPayoutRequested(
                    FiatPayoutEvent { plan_id, beneficiary_index: index, payout },
                ),
            )
        } else {
            published
        }
    }

    /// Why a batch of claims is refused as a whole.
    pub open spec fn batch_claim_error(self, now: u64, plan_id: u64, count: nat) -> Option<
        InheritanceError,
    > {
        let plan = self.plans.records[plan_id];
        if count > BATCH_LIMIT {
            Some(InheritanceError::TooManyBeneficiaries)
        } else if !self.plans.records.contains_key(plan_id) {
            Some(InheritanceError::PlanNotFound)
        } else if !plan.is_active || self.on_hold(plan_id) {
            Some(InheritanceError::PlanNotActive)
        } else if !self.triggered_by_now(now, plan_id) && !claim_time_valid(plan, now) {
            Some(InheritanceError::ClaimNotAllowedYet)
        } else {
            None
        }
    }

    /// The claimer of an entry has attempts left and an approved identity.
    pub open spec fn entry_heard(self, now: u64, plan_id: u64, entry: ClaimEntryView) -> bool {
        !self.attempts_exhausted(now, plan_id, entry.claimer) && self.kyc_error(entry.claimer)
            is None
    }

    /// The emails of the entries of a batch whose claimers are heard are short enough
    /// to be hashed.
    pub open spec fn entries_fit(self, now: u64, plan_id: u64, entries: Seq<ClaimEntryView>)
        -> bool {
        forall|i: int|
            0 <= i < entries.len() && (#[trigger] self.entries_claimed(
                now,
                plan_id,
                entries,
                i,
            )).entry_heard(now, plan_id, entries[i]) ==> entries[i].email.len() <= MAX_TEXT_LEN
    }

    /// An entry of a batch is looked at closely: its claimer has attempts left and
    /// was identified, and the claim was not paid yet.
    pub open spec fn entry_admitted(self, now: u64, plan_id: u64, entry: ClaimEntryView) -> bool {
        self.entry_heard(now, plan_id, entry) && !self.claim_settled(plan_id, entry.email)
    }

    /// An entry of a batch names a beneficiary who can be paid.
    pub open spec fn entry_found(self, now: u64, plan_id: u64, entry: ClaimEntryView) -> bool {
        self.entry_admitted(now, plan_id, entry) && match self.claimant(
            plan_id,
            entry.email,
            entry.claim_code,
        ) {
            Some(index) => !self.acknowledgment_missing(plan_id, index),
            None => false,
        }
    }

    /// What an entry of a batch is paid: the beneficiary's share of what is left.
    pub open spec fn entry_payout(self, plan_id: u64, entry: ClaimEntryView) -> u64 {
        let plan = self.plans.records[plan_id];
        let index = self.claimant(plan_id, entry.email, entry.claim_code)->0;
        bps_share(plan.total_amount, plan.beneficiaries[index as int].allocation_bp)
    }

    /// An entry of a batch is paid.
    pub open spec fn entry_paid(self, now: u64, plan_id: u64, entry: ClaimEntryView) -> bool {
        self.entry_found(now, plan_id, entry) && !(self.emergency_active(now, plan_id)
            && self.entry_payout(plan_id, entry) > emergency_limit(
            self.plans.records[plan_id].total_amount,
        ))
    }

    /// How many failures an entry of a batch counts for. A claim code that is out of
    /// range counts twice where the email is a beneficiary's.
    pub open spec fn entry_failures(self, now: u64, plan_id: u64, entry: ClaimEntryView) -> nat {
        if self.entry_paid(now, plan_id, entry) {
            0
        } else if self.entry_admitted(now, plan_id, entry) && entry.claim_code > MAX_CLAIM_CODE
            && email_listed(self.plans.records[plan_id], hash_of(entry.email)) {
            2
        } else {
            1
        }
    }

    /// The contract after an entry of a batch.
    pub open spec fn entry_claimed(self, now: u64, plan_id: u64, entry: ClaimEntryView)
        -> InheritanceView {
        if self.attempts_exhausted(now, plan_id, entry.claimer) {
            self
        } else {
            let counted = self.attempt_recorded(now, plan_id, entry.claimer);
            if !self.entry_found(now, plan_id, entry) {
                counted
            } else {
                let clean = counted.emergency_expired(now, plan_id);
                if !self.entry_paid(now, plan_id, entry) {
                    clean
                } else {
                    let plan = self.plans.records[plan_id];
                    let index = self.claimant(plan_id, entry.email, entry.claim_code)->0;
                    let payout = self.entry_payout(plan_id, entry);
                    clean.with_plan(
                        plan_id,
                        InheritancePlanView {
                            total_amount: saturating_difference(plan.total_amount, payout),
                            ..plan
                        },
                    ).claim_recorded(
                        now,
                        plan_id,
                        index,
                        hash_of(entry.email),
                        plan.owner,
                    ).with_event(
                        InheritanceEventView::Claimed(
                            ClaimedEvent { plan_id, hashed_email: hash_of(entry.email), payout },
                        ),
                    )
                }
            }
        }
    }

    /// The contract after the first `n` entries of a batch.
    pub open spec fn entries_claimed(
        self,
        now: u64,
        plan_id: u64,
        entries: Seq<ClaimEntryView>,
        n: int,
    ) -> InheritanceView
        decreases n,
    {
        if n <= 0 {
            self
        } else {
            self.entries_claimed(now, plan_id, entries, n - 1).entry_claimed(
                now,
                plan_id,
                entries[n - 1],
            )
        }
    }

    /// How many of the first `n` entries of a batch are paid.
    pub open spec fn entries_paid(
        self,
        now: u64,
        plan_id: u64,
        entries: Seq<ClaimEntryView>,
        n: int,
    ) -> nat
        decreases n,
    {
        if n <= 0 {
            0
        } else {
            let before = self.entries_claimed(now, plan_id, entries, n - 1);
            self.entries_paid(now, plan_id, entries, n - 1) + if before.entry_paid(
                now,
                plan_id,
                entries[n - 1],
            ) {
                1nat
            } else {
                0nat
            }
        }
    }

    /// How many failures the first `n` entries of a batch count for.
    pub open spec fn entries_failed(
        self,
        now: u64,
        plan_id: u64,
        entries: Seq<ClaimEntryView>,
        n: int,
    ) -> nat
        decreases n,
    {
        if n <= 0 {
            0
        } else {
            let before = self.entries_claimed(now, plan_id, entries, n - 1);
            self.entries_failed(now, plan_id, entries, n - 1) + before.entry_failures(
                now,
                plan_id,
                entries[n - 1],
            )
        }
    }

    /// The contract after a batch of claims.
    pub open spec fn batch_claimed(self, now: u64, plan_id: u64, entries: Seq<ClaimEntryView>)
        -> InheritanceView {
        let n = entries.len() as int;
        let start = self.auto_triggered(now, plan_id);
        start.entries_claimed(now, plan_id, entries, n).with_event(
            InheritanceEventView::BatchClaim(
                BatchClaimEvent {
                    plan_id,
                    success_count: start.entries_paid(now, plan_id, entries, n) as u32,
                    fail_count: start.entries_failed(now, plan_id, entries, n) as u32,
                },
            ),
        )
    }
}

/// The beneficiary who was found is on the plan.
proof fn lemma_claimant(
    contract: InheritanceView,
    plan_id: u64,
    hashed_email: Digest,
    claim_code: u32,
    from: int,
)
    requires
        0 <= from,
        contract.plans.records[plan_id].beneficiaries.len() <= u32::MAX,
    ensures
        contract.claimant_from(plan_id, hashed_email, claim_code, from) matches Some(index) ==> {
            &&& from <= index < contract.plans.records[plan_id].beneficiaries.len()
            &&& contract.claim_matches(plan_id, hashed_email, claim_code, index as int)
        },
    decreases contract.plans.records[plan_id].beneficiaries.len() - from,
{
    if from < contract.plans.records[plan_id].beneficiaries.len() && !contract.claim_matches(
        plan_id,
        hashed_email,
        claim_code,
        from,
    ) {
        lemma_claimant(contract, plan_id, hashed_email, claim_code, from + 1);
    }
}

/// Who is found depends on the plans and the salts alone.
proof fn lemma_claimant_same(
    a: InheritanceView,
    b: InheritanceView,
    plan_id: u64,
    hashed_email: Digest,
    claim_code: u32,
    from: int,
)
    requires
        a.plans.records == b.plans.records,
        a.claims.salts == b.claims.salts,
    ensures
        a.claimant_from(plan_id, hashed_email, claim_code, from) == b.claimant_from(
            plan_id,
            hashed_email,
            claim_code,
            from,
        ),
    decreases a.plans.records[plan_id].beneficiaries.len() - from,
{
    if from < a.plans.records[plan_id].beneficiaries.len() {
        lemma_claimant_same(a, b, plan_id, hashed_email, claim_code, from + 1);
    }
}

/// What a claim pays is at most what the vault holds.
proof fn lemma_claim_payout(contract: InheritanceView, plan_id: u64, index: u32)
    requires
        plan_valid(contract.plans.records[plan_id]),
        index < contract.plans.records[plan_id].beneficiaries.len(),
    ensures
        contract.claim_payout(plan_id, index) <= contract.plans.records[plan_id].total_amount,
        plan_valid(contract.paid_plan(plan_id, index)),
{
    let plan = contract.plans.records[plan_id];
    let beneficiary = plan.beneficiaries[index as int];
    lemma_allocations_nonnegative(plan.beneficiaries);
    lemma_share_bounded(plan.total_amount, beneficiary.allocation_bp);
    lemma_allocations_update(
        plan.beneficiaries,
        index as int,
        contract.paid_plan(plan_id, index).beneficiaries[index as int],
    );
}

/// Who states the email and the claim code of a beneficiary, and of nobody before
/// them in the plan, is taken for that beneficiary.
proof fn lemma_claimant_is(
    contract: InheritanceView,
    plan_id: u64,
    hashed_email: Digest,
    claim_code: u32,
    from: int,
    index: int,
)
    requires
        0 <= from <= index < contract.plans.records[plan_id].beneficiaries.len() <= u32::MAX,
        contract.claim_matches(plan_id, hashed_email, claim_code, index),
        forall|j: int|
            0 <= j < index ==> (#[trigger] contract.plans.records[plan_id].beneficiaries[j]).hashed_email
                != hashed_email,
    ensures
        contract.claimant_from(plan_id, hashed_email, claim_code, from) == Some(index as u32),
    decreases index - from,
{
    if from < index {
        assert(contract.plans.records[plan_id].beneficiaries[from].hashed_email != hashed_email);
        lemma_claimant_is(contract, plan_id, hashed_email, claim_code, from + 1, index);
    }
}

/// A beneficiary can claim with the email and the claim code that the owner stated
/// for them when the plan was created, and is paid their share of what the plan
/// holds, rounded down. This asks that no two beneficiaries share the hash of their
/// email, that the time of the plan has come, and that nothing on file stands
/// against the claim.
pub proof fn law_beneficiary_can_claim(
    contract: InheritanceView,
    env: Env,
    params: CreateInheritancePlanParamsView,
    balance: i128,
    salts: Seq<Digest>,
    i: int,
    claimer: Address,
    now: u64,
)
    requires
        contract.create_plan_error(params, balance, true) is None,
        0 <= i < params.beneficiaries_data.len(),
        forall|j: int|
            0 <= j < i ==> hash_of((#[trigger] params.beneficiaries_data[j]).email) != hash_of(
                params.beneficiaries_data[i].email,
            ),
        ({
            let after = contract.plan_created(env, params, salts);
            let id = contract.plans.next_id;
            let input = params.beneficiaries_data[i];
            &&& after.claim_entry_error(now, id, claimer) is None
            &&& !after.claim_settled(id, input.email)
            &&& !after.beneficiary_frozen(id, i as u32)
            &&& !after.acknowledgment_missing(id, i as u32)
            &&& !after.emergency_active(now, id)
            &&& after.settlement_of(id, i as u32) == 0
            &&& bps_share(after.plans.records[id].total_amount, input.allocation_bp) > 0
        }),
    ensures
        ({
            let after = contract.plan_created(env, params, salts);
            let id = contract.plans.next_id;
            let input = params.beneficiaries_data[i];
            &&& after.claimant(id, input.email, input.claim_code) == Some(i as u32)
            &&& after.claim_payout(id, i as u32) == bps_share(
                after.plans.records[id].total_amount,
                input.allocation_bp,
            )
            &&& after.claim_error(now, id, claimer, input.email, input.claim_code) is None
        }),
{
    let after = contract.plan_created(env, params, salts);
    let id = contract.plans.next_id;
    let inputs = params.beneficiaries_data;
    let n = inputs.len() as int;
    let input = inputs[i];
    let plan = after.plans.records[id];
    lemma_accepted_input(inputs, i);
    assert forall|j: int| 0 <= j <= i implies (#[trigger] plan.beneficiaries[j])
        == made_beneficiary(inputs[j], salts[j]) by {
        lemma_made_at(contract.claims.salts, id, inputs, salts, n, j);
    }
    lemma_made_at(contract.claims.salts, id, inputs, salts, n, i);
    assert(after.salt_of(id, i as u32) == salts[i]);
    assert(after.claim_matches(id, hash_of(input.email), input.claim_code, i));
    assert forall|j: int| 0 <= j < i implies (#[trigger] plan.beneficiaries[j]).hashed_email
        != hash_of(input.email) by {
        assert(hash_of(inputs[j].email) != hash_of(input.email));
    }
    lemma_claimant_is(after, id, hash_of(input.email), input.claim_code, 0, i);
    lemma_share_bounded(plan.total_amount, input.allocation_bp);
}

/// A claim that goes through takes exactly the payout out of the vault, never more
/// than the vault holds, and the payout is not nothing.
pub proof fn law_claim_takes_the_payout(
    contract: InheritanceView,
    now: u64,
    plan_id: u64,
    claimer: Address,
    email: Seq<u8>,
    claim_code: u32,
)
    requires
        contract.well_formed(),
        contract.claim_error(now, plan_id, claimer, email, claim_code) is None,
    ensures
        ({
            let index = contract.claimant(plan_id, email, claim_code)->0;
            let payout = contract.claim_payout(plan_id, index);
            let after = contract.claimed(now, plan_id, claimer, email, claim_code);
            &&& 0 < payout <= contract.plans.records[plan_id].total_amount
            &&& after.plans.records[plan_id].total_amount + payout
                == contract.plans.records[plan_id].total_amount
        }),
{
    lemma_plan_on_file(contract, plan_id);
    lemma_claimant(contract, plan_id, hash_of(email), claim_code, 0);
    let index = contract.claimant(plan_id, email, claim_code)->0;
    lemma_claim_payout(contract, plan_id, index);
}

/// A claim that finds a condition met triggers inheritance, and from then on no loans
/// can be taken against the plan.
pub proof fn law_claim_triggers_inheritance(
    contract: InheritanceView,
    now: u64,
    plan_id: u64,
    claimer: Address,
    email: Seq<u8>,
    claim_code: u32,
)
    requires
        contract.claim_error(now, plan_id, claimer, email, claim_code) is None,
        contract.auto_trigger_due(now, plan_id),
    ensures
        ({
            let after = contract.claimed(now, plan_id, claimer, email, claim_code);
            &&& after.triggered(plan_id)
            &&& !after.plans.records[plan_id].is_lendable
        }),
{
}

/// Nobody is paid twice: once a claim was paid in full, no claim under the same email
/// goes through on the same plan, whoever makes it and with whatever code.
pub proof fn law_claim_pays_once(
    contract: InheritanceView,
    now: u64,
    plan_id: u64,
    claimer: Address,
    email: Seq<u8>,
    claim_code: u32,
    later: u64,
    other: Address,
    other_code: u32,
)
    requires
        contract.claim_error(now, plan_id, claimer, email, claim_code) is None,
        contract.payout_settles(plan_id, contract.claimant(plan_id, email, claim_code)->0),
    ensures
        ({
            let after = contract.claimed(now, plan_id, claimer, email, claim_code);
            let entry = ClaimEntryView { claimer: other, email, claim_code: other_code };
            &&& after.claim_settled(plan_id, email)
            &&& after.claim_error(later, plan_id, other, email, other_code) is Some
            &&& !after.entry_paid(later, plan_id, entry)
        }),
{
}

/// Nobody is paid twice by batches either.
pub proof fn law_batch_pays_once(
    contract: InheritanceView,
    now: u64,
    plan_id: u64,
    entry: ClaimEntryView,
    later: u64,
    again: ClaimEntryView,
)
    requires
        contract.entry_paid(now, plan_id, entry),
        again.email == entry.email,
    ensures
        ({
            let after = contract.entry_claimed(now, plan_id, entry);
            &&& after.claim_settled(plan_id, entry.email)
            &&& !after.entry_paid(later, plan_id, again)
            &&& after.claim_error(
                later,
                plan_id,
                again.claimer,
                again.email,
                again.claim_code,
            ) is Some
        }),
{
}

/// Claim codes cannot be guessed quickly: attempts are counted up to the limit and no
/// further, and a claimer who has reached it is refused until an hour has passed since
/// the first of them.
pub proof fn law_attempts_are_limited(
    contract: InheritanceView,
    now: u64,
    later: u64,
    plan_id: u64,
    claimer: Address,
    email: Seq<u8>,
    claim_code: u32,
)
    requires
        contract.claims.attempts.contains_key((plan_id, claimer)),
        contract.claims.attempts[(plan_id, claimer)].attempts >= CLAIM_MAX_ATTEMPTS_PER_WINDOW,
        contract.claims.attempts[(plan_id, claimer)].window_start <= later,
    ensures
        later < contract.claims.attempts[(plan_id, claimer)].window_start
            + CLAIM_ATTEMPT_WINDOW_SECONDS ==> contract.claim_error(
            later,
            plan_id,
            claimer,
            email,
            claim_code,
        ) is Some,
        !contract.attempts_exhausted(now, plan_id, claimer) ==> contract.attempt_recorded(
            now,
            plan_id,
            claimer,
        ).claims.attempts[(plan_id, claimer)].attempts <= CLAIM_MAX_ATTEMPTS_PER_WINDOW,
{
}

/// While the cooldown after emergency access is active, a claim that goes through
/// moves at most a tenth of the vault.
pub proof fn law_cooldown_limits_claims(
    contract: InheritanceView,
    now: u64,
    plan_id: u64,
    claimer: Address,
    email: Seq<u8>,
    claim_code: u32,
)
    requires
        contract.emergency_active(now, plan_id),
        contract.claim_error(now, plan_id, claimer, email, claim_code) is None,
    ensures
        contract.claim_payout(plan_id, contract.claimant(plan_id, email, claim_code)->0) * 10
            <= contract.plans.records[plan_id].total_amount,
{
    lemma_share_bounded(contract.plans.records[plan_id].total_amount, 1_000);
}

/// In a plan that pays in order, a claim goes through only when every beneficiary of
/// higher priority has claimed; and where acknowledgment is required, only when the
/// claimant has acknowledged.
pub proof fn law_claims_in_order(
    contract: InheritanceView,
    now: u64,
    plan_id: u64,
    claimer: Address,
    email: Seq<u8>,
    claim_code: u32,
    i: int,
)
    requires
        contract.claim_error(now, plan_id, claimer, email, claim_code) is None,
        0 <= i < contract.plans.records[plan_id].beneficiaries.len(),
    ensures
        ({
            let plan = contract.plans.records[plan_id];
            let index = contract.claimant(plan_id, email, claim_code)->0;
            &&& plan.waterfall_enabled && plan.beneficiaries[i].priority != 0
                && plan.beneficiaries[i].priority < plan.beneficiaries[index as int].priority
                ==> plan.beneficiaries[i].is_claimed
            &&& contract.notices.required.contains_key(plan_id)
                && contract.notices.required[plan_id]
                ==> contract.notices.acknowledged.contains_key((plan_id, index))
        }),
{
}

/// Where a plan requires acknowledgment, nobody is paid who has not acknowledged,
/// neither alone nor in a batch.
pub proof fn law_acknowledgment_comes_first(
    contract: InheritanceView,
    now: u64,
    plan_id: u64,
    entry: ClaimEntryView,
)
    requires
        contract.well_formed(),
        contract.notices.required.contains_key(plan_id) && contract.notices.required[plan_id],
    ensures
        contract.claim_error(now, plan_id, entry.claimer, entry.email, entry.claim_code) is None
            || contract.entry_paid(now, plan_id, entry) ==> contract.notices.acknowledged.contains_key(
            (plan_id, contract.claimant(plan_id, entry.email, entry.claim_code)->0),
        ),
{
}

/// A plan that is frozen or under a legal hold pays nobody.
pub proof fn law_holds_stop_claims(
    contract: InheritanceView,
    now: u64,
    plan_id: u64,
    claimer: Address,
    email: Seq<u8>,
    claim_code: u32,
    count: nat,
)
    requires
        contract.on_hold(plan_id),
    ensures
        contract.claim_error(now, plan_id, claimer, email, claim_code) is Some,
        contract.batch_claim_error(now, plan_id, count) is Some,
{
}

proof fn lemma_claimed(
    contract: InheritanceView,
    now: u64,
    plan_id: u64,
    claimer: Address,
    email: Seq<u8>,
    claim_code: u32,
)
    requires
        contract.well_formed(),
        contract.plans.records.contains_key(plan_id),
        contract.claimant(plan_id, email, claim_code) is Some,
    ensures
        contract.claimed(now, plan_id, claimer, email, claim_code).well_formed(),
        ({
            let index = contract.claimant(plan_id, email, claim_code)->0;
            &&& index < contract.plans.records[plan_id].beneficiaries.len()
            &&& contract.claim_payout(plan_id, index)
                <= contract.plans.records[plan_id].total_amount
        }),
{
    lemma_plan_on_file(contract, plan_id);
    lemma_claimant(contract, plan_id, hash_of(email), claim_code, 0);
    let index = contract.claimant(plan_id, email, claim_code)->0;
    lemma_claim_payout(contract, plan_id, index);
    let counted = contract.attempt_recorded(now, plan_id, claimer);
    lemma_auto_triggered(counted, now, plan_id);
    let opened = contract.claim_prepared(now, plan_id, claimer);
    lemma_plan_update(
        opened,
        plan_id,
        InheritancePlanView {
            is_lendable: opened.plans.records[plan_id].is_lendable,
            ..contract.paid_plan(plan_id, index)
        },
    );
}

proof fn lemma_entry_claimed(
    contract: InheritanceView,
    now: u64,
    plan_id: u64,
    entry: ClaimEntryView,
)
    requires
        contract.well_formed(),
        contract.plans.records.contains_key(plan_id),
    ensures
        contract.entry_claimed(now, plan_id, entry).well_formed(),
        contract.entry_claimed(now, plan_id, entry).plans.records.contains_key(plan_id),
{
    lemma_plan_on_file(contract, plan_id);
    let plan = contract.plans.records[plan_id];
    let clean = contract.attempt_recorded(now, plan_id, entry.claimer).emergency_expired(
        now,
        plan_id,
    );
    lemma_plan_update(
        clean,
        plan_id,
        InheritancePlanView {
            total_amount: saturating_difference(
                plan.total_amount,
                contract.entry_payout(plan_id, entry),
            ),
            ..plan
        },
    );
}

impl InheritanceContract {
    /// Counts an attempt to claim, and refuses one too many.
    pub fn check_and_record_claim_attempt(&mut self, env: &Env, plan_id: u64, claimer: Address) -> (
    result: Result<(), InheritanceError>)
        ensures
            match result {
                Err(e) => old(self)@.attempts_exhausted(env.timestamp, plan_id, claimer) && e
                    == InheritanceError::Unauthorized && final(self)@ == old(self)@,
                Ok(()) => !old(self)@.attempts_exhausted(env.timestamp, plan_id, claimer) && final(self)@ == old(self)@.attempt_recorded(env.timestamp, plan_id, claimer),
            },
    {
        let window: ClaimAttemptWindow = self.current_window(env, plan_id, claimer);
        if window.attempts >= CLAIM_MAX_ATTEMPTS_PER_WINDOW {
            return Err(InheritanceError::Unauthorized);
        }
        self.claims.attempts.set(
            (plan_id, claimer),
            ClaimAttemptWindow { attempts: window.attempts + 1, ..window },
        );
        Ok(())
    }

    fn current_window(&self, env: &Env, plan_id: u64, claimer: Address) -> (window:
        ClaimAttemptWindow)
        ensures
            window == self@.attempt_window(env.timestamp, plan_id, claimer),
    {
        let now: u64 = env.timestamp;
        match self.claims.attempts.get((plan_id, claimer)) {
            Some(window) => {
                if now.saturating_sub(window.window_start) >= CLAIM_ATTEMPT_WINDOW_SECONDS {
                    ClaimAttemptWindow { window_start: now, attempts: 0 }
                } else {
                    *window
                }
            },
            None => ClaimAttemptWindow { window_start: now, attempts: 0 },
        }
    }

    /// Whether a plan has existed for long enough to be claimed.
    pub fn is_claim_time_valid(env: &Env, plan: &InheritancePlan) -> (valid: bool)
        ensures
            valid == claim_time_valid(plan@, env.timestamp),
    {
        let waiting: u64 = match plan.distribution_method {
            DistributionMethod::LumpSum => {
                return true;
            },
            DistributionMethod::Monthly => 30 * 86_400,
            DistributionMethod::Quarterly => 90 * 86_400,
            DistributionMethod::Yearly => 365 * 86_400,
        };
        env.timestamp >= plan.created_at && env.timestamp - plan.created_at >= waiting
    }

    fn claim_salt(&self, plan_id: u64, index: u32) -> (salt: Digest)
        ensures
            salt == self@.salt_of(plan_id, index),
    {
        match self.claims.salts.get((plan_id, index)) {
            Some(salt) => *salt,
            None => Digest { bytes: [0u8; 32] },
        }
    }

    /// Finds the beneficiary who has the email and the claim code.
    fn find_claimant(&self, plan_id: u64, hashed_email: &Digest, claim_code: u32) -> (found: Result<
        Option<u32>,
        InheritanceError,
    >)
        requires
            self@.plans.records.contains_key(plan_id),
            self@.plans.records[plan_id].beneficiaries.len() <= 10,
        ensures
            match found {
                Err(e) => claim_code > MAX_CLAIM_CODE && email_listed(
                    self@.plans.records[plan_id],
                    *hashed_email,
                ) && e == InheritanceError::InvalidClaimCodeRange,
                Ok(index) => !(claim_code > MAX_CLAIM_CODE && email_listed(
                    self@.plans.records[plan_id],
                    *hashed_email,
                )) && index == (if claim_code > MAX_CLAIM_CODE {
                    None
                } else {
                    self@.claimant_from(plan_id, *hashed_email, claim_code, 0)
                }),
            },
    {
        let plan = match self.plans.records.get(plan_id) {
            Some(plan) => plan,
            None => {
                return Ok(None);
            },
        };
        let mut i: usize = 0;
        while i < plan.beneficiaries.len()
            invariant
                i <= plan@.beneficiaries.len() <= 10,
                self@.plans.records.contains_key(plan_id),
                plan@ == self@.plans.records[plan_id],
                claim_code > MAX_CLAIM_CODE ==> forall|j: int|
                    0 <= j < i ==> (#[trigger] plan@.beneficiaries[j]).hashed_email
                        != *hashed_email,
                claim_code <= MAX_CLAIM_CODE ==> self@.claimant_from(
                    plan_id,
                    *hashed_email,
                    claim_code,
                    0,
                ) == self@.claimant_from(plan_id, *hashed_email, claim_code, i as int),
            decreases plan@.beneficiaries.len() - i,
        {
            let beneficiary = plan.beneficiaries.get(i);
            if beneficiary.hashed_email.same(hashed_email) {
                proof {
                    assert(plan@.beneficiaries[i as int].hashed_email == *hashed_email);
                }
                let salt = self.claim_salt(plan_id, i as u32);
                match hash_claim_code_with_salt(claim_code, &salt) {
                    Ok(hash) => {
                        if beneficiary.hashed_claim_code.same(&hash) {
                            return Ok(Some(i as u32));
                        }
                    },
                    Err(e) => {
                        return Err(e);
                    },
                }
            }
            i += 1;
        }
        Ok(None)
    }

    fn is_beneficiary_frozen(&self, plan_id: u64, index: u32) -> (frozen: bool)
        ensures
            frozen == self@.beneficiary_frozen(plan_id, index),
    {
        match self.holds.frozen_beneficiaries.get((plan_id, index)) {
            Some(frozen) => *frozen,
            None => false,
        }
    }

    fn lacks_acknowledgment(&self, plan_id: u64, index: u32) -> (missing: bool)
        ensures
            missing == self@.acknowledgment_missing(plan_id, index),
    {
        match self.notices.required.get(plan_id) {
            Some(required) => *required && !self.notices.acknowledged.contains((plan_id, index)),
            None => false,
        }
    }

    /// What is left of the settlement that was agreed with a beneficiary.
    pub fn get_vesting_exit_settlement(&self, plan_id: u64, beneficiary_index: u32) -> (settlement:
        u64)
        ensures
            settlement == self@.settlement_of(plan_id, beneficiary_index),
    {
        match self.claims.settlements.get((plan_id, beneficiary_index)) {
            Some(settlement) => *settlement,
            None => 0,
        }
    }

    /// Refuses to pay a beneficiary who was found, or gives the payout.
    fn check_payout(&self, env: &Env, plan_id: u64, index: u32, triggered: bool) -> (payout: Result<
        u64,
        InheritanceError,
    >)
        requires
            self@.plans.records.contains_key(plan_id),
            index < self@.plans.records[plan_id].beneficiaries.len(),
        ensures
            ({
                let error = self@.payout_error(env.timestamp, plan_id, index, triggered);
                match payout {
                    Ok(p) => error is None && p == self@.claim_payout(plan_id, index),
                    Err(e) => error == Some(e),
                }
            }),
    {
        if self.is_beneficiary_frozen(plan_id, index) {
            return Err(InheritanceError::Unauthorized);
        }
        if self.lacks_acknowledgment(plan_id, index) {
            return Err(InheritanceError::ClaimNotAllowedYet);
        }
        let plan = match self.plans.records.get(plan_id) {
            Some(plan) => plan,
            None => {
                return Err(InheritanceError::PlanNotFound);
            },
        };
        if plan.waterfall_enabled && Self::is_waterfall_blocked(plan, index as usize) {
            return Err(InheritanceError::ClaimNotAllowedYet);
        }
        let mut payout: u64 = Self::calculate_waterfall_payout(plan, index as usize);
        let settlement: u64 = self.get_vesting_exit_settlement(plan_id, index);
        if settlement > 0 {
            payout = min64(payout, settlement);
        }
        if self.within_cooldown(env, plan_id) && payout > emergency_limit_of(plan.total_amount) {
            return Err(InheritanceError::EmergencyCooldownActive);
        }
        if !triggered && payout > plan.total_amount.saturating_sub(plan.total_loaned) {
            return Err(InheritanceError::InsufficientLiquidity);
        }
        if payout == 0 {
            return Err(InheritanceError::NothingToClaim);
        }
        Ok(payout)
    }

    /// Whether inheritance was triggered, or is by a condition that is met now.
    fn is_triggered_by_now(&self, env: &Env, plan_id: u64) -> (triggered: bool)
        requires
            self@.plans.records.contains_key(plan_id),
            self@.plans.records[plan_id].is_active,
        ensures
            triggered == self@.triggered_by_now(env.timestamp, plan_id),
    {
        self.triggers.infos.contains(plan_id) || self.check_trigger_conditions(env, plan_id)
    }

    /// Refuses a claim before the email is looked at.
    pub fn check_claim_entry(&self, env: &Env, plan_id: u64, claimer: Address) -> (error: Option<
        InheritanceError,
    >)
        requires
            self@.well_formed(),
        ensures
            error == self@.claim_entry_error(env.timestamp, plan_id, claimer),
    {
        match self.check_kyc_approved(claimer) {
            Ok(()) => {},
            Err(e) => {
                return Some(e);
            },
        }
        let plan = match self.plans.records.get(plan_id) {
            Some(plan) => plan,
            None => {
                return Some(InheritanceError::PlanNotFound);
            },
        };
        if !plan.is_active || self.is_on_hold(plan_id) {
            return Some(InheritanceError::PlanNotActive);
        }
        if self.current_window(env, plan_id, claimer).attempts >= CLAIM_MAX_ATTEMPTS_PER_WINDOW {
            return Some(InheritanceError::Unauthorized);
        }
        if !self.is_triggered_by_now(env, plan_id) && !Self::is_claim_time_valid(env, plan) {
            return Some(InheritanceError::ClaimNotAllowedYet);
        }
        None
    }

    /// Refuses a batch of claims as a whole.
    pub fn check_batch_claim(&self, env: &Env, plan_id: u64, count: usize) -> (error: Option<
        InheritanceError,
    >)
        requires
            self@.well_formed(),
        ensures
            error == self@.batch_claim_error(env.timestamp, plan_id, count as nat),
    {
        if count > BATCH_LIMIT {
            return Some(InheritanceError::TooManyBeneficiaries);
        }
        match self.plans.records.get(plan_id) {
            Some(plan) => {
                if !plan.is_active || self.is_on_hold(plan_id) {
                    return Some(InheritanceError::PlanNotActive);
                }
                if !self.is_triggered_by_now(env, plan_id) && !Self::is_claim_time_valid(
                    env,
                    plan,
                ) {
                    return Some(InheritanceError::ClaimNotAllowedYet);
                }
                None
            },
            None => Some(InheritanceError::PlanNotFound),
        }
    }

    /// Refuses a claim, or gives the index of the beneficiary and the payout.
    fn check_claim(
        &self,
        env: &Env,
        plan_id: u64,
        claimer: Address,
        email: &Vec<u8>,
        claim_code: u32,
    ) -> (found: Result<(u32, u64), InheritanceError>)
        requires
            self@.well_formed(),
            self@.claim_entry_error(env.timestamp, plan_id, claimer) is None ==> email@.len()
                <= MAX_TEXT_LEN,
        ensures
            ({
                let error = self@.claim_error(
                    env.timestamp,
                    plan_id,
                    claimer,
                    email@,
                    claim_code,
                );
                match found {
                    Err(e) => error == Some(e),
                    Ok((index, payout)) => error is None && self@.claimant(
                        plan_id,
                        email@,
                        claim_code,
                    ) == Some(index) && payout == self@.claim_payout(plan_id, index),
                }
            }),
    {
        match self.check_claim_entry(env, plan_id, claimer) {
            Some(e) => {
                return Err(e);
            },
            None => {},
        }
        let triggered: bool = self.is_triggered_by_now(env, plan_id);
        let hashed_email = hash_data(email);
        if self.claims.records.contains(make_claim_key(plan_id, &hashed_email)) {
            return Err(InheritanceError::AlreadyClaimed);
        }
        proof {
            lemma_plan_on_file(self@, plan_id);
            lemma_claimant(self@, plan_id, hash_of(email@), claim_code, 0);
        }
        let index: u32 = match self.find_claimant(plan_id, &hashed_email, claim_code) {
            Ok(Some(index)) => index,
            Ok(None) => {
                return Err(InheritanceError::BeneficiaryNotFound);
            },
            Err(e) => {
                return Err(e);
            },
        };
        match self.check_payout(env, plan_id, index, triggered) {
            Ok(payout) => Ok((index, payout)),
            Err(e) => Err(e),
        }
    }

    /// Records that the claim of a beneficiary was paid in full.
    fn record_claim(
        &mut self,
        env: &Env,
        plan_id: u64,
        index: u32,
        hashed_email: &Digest,
        owner: Address,
    )
        ensures
            final(self)@ == old(self)@.claim_recorded(
                env.timestamp,
                plan_id,
                index,
                *hashed_email,
                owner,
            ),
    {
        self.claims.records.set(
            make_claim_key(plan_id, hashed_email),
            ClaimRecord { plan_id, beneficiary_index: index, claimed_at: env.timestamp },
        );
        let mut ids: Vec<u64> = match self.plans.claimed_by_owner.get(owner) {
            Some(ids) => ids.clone(),
            None => Vec::new(),
        };
        if !list_contains(&ids, &plan_id) {
            ids.push(plan_id);
        }
        self.plans.claimed_by_owner.set(owner, ids);
        if !list_contains(&self.plans.claimed, &plan_id) {
            self.plans.claimed.push(plan_id);
        }
    }

    /// Claim the share of a beneficiary, who proves who they are by their email and
    /// their claim code.
    pub fn claim_inheritance_plan(
        &mut self,
        env: &Env,
        plan_id: u64,
        claimer: Address,
        email: Vec<u8>,
        claim_code: u32,
    ) -> (result: Result<(), InheritanceError>)
        requires
            old(self)@.well_formed(),
            old(self)@.open_for_calls(),
            env.authorized(claimer),
            old(self)@.claim_entry_error(env.timestamp, plan_id, claimer) is None ==> email@.len()
                <= MAX_TEXT_LEN,
        ensures
            ({
                let error = old(self)@.claim_error(
                    env.timestamp,
                    plan_id,
                    claimer,
                    email@,
                    claim_code,
                );
                match result {
                    Err(e) => error == Some(e) && final(self)@ == old(self)@,
                    Ok(()) => error is None && final(self)@ == old(self)@.claimed(
                        env.timestamp,
                        plan_id,
                        claimer,
                        email@,
                        claim_code,
                    ),
                }
            }),
            final(self)@.well_formed(),
    {
        let (index, payout): (u32, u64) = match self.check_claim(
            env,
            plan_id,
            claimer,
            &email,
            claim_code,
        ) {
            Ok(found) => found,
            Err(e) => {
                return Err(e);
            },
        };
        let hashed_email = hash_data(&email);
        let settlement: u64 = self.get_vesting_exit_settlement(plan_id, index);
        let settled: bool = settlement <= payout;
        proof {
            lemma_claimed(self@, env.timestamp, plan_id, claimer, email@, claim_code);
        }
        let mut updated_plan: InheritancePlan = match self.plans.records.get(plan_id) {
            Some(plan) => plan.duplicate(),
            None => {
                return Err(InheritanceError::PlanNotFound);
            },
        };
        let owner: Address = updated_plan.owner;
        let by_bank: bool = updated_plan.beneficiaries.get(index as usize).bank_account.len() > 0;
        let _ = self.check_and_record_claim_attempt(env, plan_id, claimer);
        proof {
            lemma_auto_triggered(self@, env.timestamp, plan_id);
        }
        let _ = self.auto_trigger_check(env, plan_id);
        self.check_and_expire_emergency_access(env, plan_id);
        match self.plans.records.get(plan_id) {
            Some(plan) => {
                updated_plan.is_lendable = plan.is_lendable;
            },
            None => {
                return Err(InheritanceError::PlanNotFound);
            },
        }
        if settled {
            let beneficiary = updated_plan.beneficiaries.at_mut(index as usize);
            beneficiary.is_claimed = true;
        } else {
            proof {
                let before = updated_plan@.beneficiaries;
                assert(before.update(index as int, before[index as int]) =~= before);
            }
        }
        updated_plan.total_amount = updated_plan.total_amount.saturating_sub(payout);
        proof {
            assert(updated_plan@ == (InheritancePlanView {
                is_lendable: self@.plans.records[plan_id].is_lendable,
                ..old(self)@.paid_plan(plan_id, index)
            }));
        }
        self.plans.records.set(plan_id, updated_plan);
        if settlement > 0 {
            if settled {
                self.claims.settlements.remove((plan_id, index));
            } else {
                self.claims.settlements.set((plan_id, index), settlement - payout);
            }
        }
        if settled {
            self.record_claim(env, plan_id, index, &hashed_email, owner);
        }
        self.access.assign_role(claimer, Role::Beneficiary);
        self.publish(
            InheritanceEvent::Claimed(ClaimedEvent { plan_id, hashed_email, payout }),
        );
        if by_bank {
            self.publish(
                InheritanceEvent::FiatPayoutRequested(
                    FiatPayoutEvent { plan_id, beneficiary_index: index, payout },
                ),
            );
        }
        Ok(())
    }

    /// Works through one entry of a batch. Returns whether it was paid, and how many
    /// failures it counts for.
    fn claim_entry(&mut self, env: &Env, plan_id: u64, entry: &ClaimEntry) -> (outcome: (bool, u32))
        requires
            old(self)@.well_formed(),
            old(self)@.plans.records.contains_key(plan_id),
            env.authorized(entry.claimer),
            old(self)@.entry_heard(env.timestamp, plan_id, entry@) ==> entry@.email.len()
                <= MAX_TEXT_LEN,
        ensures
            outcome.0 == old(self)@.entry_paid(env.timestamp, plan_id, entry@),
            outcome.1 == old(self)@.entry_failures(env.timestamp, plan_id, entry@),
            final(self)@ == old(self)@.entry_claimed(env.timestamp, plan_id, entry@),
            final(self)@.well_formed(),
            final(self)@.plans.records.contains_key(plan_id),
    {
        proof {
            lemma_entry_claimed(self@, env.timestamp, plan_id, entry@);
            lemma_plan_on_file(self@, plan_id);
            lemma_claimant(self@, plan_id, hash_of(entry@.email), entry.claim_code, 0);
        }
        if self.check_and_record_claim_attempt(env, plan_id, entry.claimer).is_err() {
            return (false, 1);
        }
        if self.check_kyc_approved(entry.claimer).is_err() {
            return (false, 1);
        }
        let hashed_email = hash_data(&entry.email);
        if self.claims.records.contains(make_claim_key(plan_id, &hashed_email)) {
            return (false, 1);
        }
        proof {
            lemma_claimant_same(
                old(self)@,
                self@,
                plan_id,
                hash_of(entry@.email),
                entry.claim_code,
                0,
            );
        }
        let index: u32 = match self.find_claimant(plan_id, &hashed_email, entry.claim_code) {
            Ok(Some(index)) => index,
            Ok(None) => {
                return (false, 1);
            },
            Err(_) => {
                return (false, 2);
            },
        };
        if self.lacks_acknowledgment(plan_id, index) {
            return (false, 1);
        }
        let active: bool = self.is_emergency_active(env, plan_id);
        let (payout, limit, owner): (u64, u64, Address) = match self.plans.records.get(plan_id) {
            Some(plan) => (
                share_bps(
                    plan.total_amount,
                    plan.beneficiaries.get(index as usize).allocation_bp,
                ),
                emergency_limit_of(plan.total_amount),
                plan.owner,
            ),
            None => {
                return (false, 1);
            },
        };
        if active && payout > limit {
            return (false, 1);
        }
        let plan = self.plans.records.at_mut(plan_id);
        plan.total_amount = plan.total_amount.saturating_sub(payout);
        self.record_claim(env, plan_id, index, &hashed_email, owner);
        self.publish(
            InheritanceEvent::Claimed(ClaimedEvent { plan_id, hashed_email, payout }),
        );
        (true, 0)
    }

    /// Claim for several beneficiaries of a plan. An entry that cannot be paid is
    /// passed over. Returns how many were paid, and how many failures were counted.
    pub fn batch_claim(&mut self, env: &Env, plan_id: u64, claimers: List<ClaimEntry>) -> (result:
        Result<(u32, u32), InheritanceError>)
        requires
            old(self)@.well_formed(),
            old(self)@.open_for_calls(),
            old(self)@.batch_claim_error(env.timestamp, plan_id, claimers@.len()) is None
                ==> {
                &&& forall|i: int|
                    0 <= i < claimers@.len() ==> env.authorized((#[trigger] claimers@[i]).claimer)
                &&& old(self)@.auto_triggered(env.timestamp, plan_id).entries_fit(
                    env.timestamp,
                    plan_id,
                    claimers@,
                )
            },
        ensures
            ({
                let now = env.timestamp;
                let error = old(self)@.batch_claim_error(now, plan_id, claimers@.len());
                let start = old(self)@.auto_triggered(now, plan_id);
                let n = claimers@.len() as int;
                match result {
                    Err(e) => error == Some(e) && final(self)@ == old(self)@,
                    Ok((success, fail)) => error is None && success == start.entries_paid(
                        now,
                        plan_id,
                        claimers@,
                        n,
                    ) && fail == start.entries_failed(now, plan_id, claimers@, n) && final(self)@
                        == old(self)@.batch_claimed(now, plan_id, claimers@),
                }
            }),
            final(self)@.well_formed(),
    {
        match self.check_batch_claim(env, plan_id, claimers.len()) {
            Some(e) => {
                return Err(e);
            },
            None => {},
        }
        let _ = self.auto_trigger_check(env, plan_id);
        let ghost start = self@;
        let ghost now = env.timestamp;
        let mut success: u32 = 0;
        let mut fail: u32 = 0;
        let mut i: usize = 0;
        while i < claimers.len()
            invariant
                i <= claimers@.len() <= BATCH_LIMIT,
                now == env.timestamp,
                forall|k: int|
                    0 <= k < claimers@.len() ==> env.authorized((#[trigger] claimers@[k]).claimer),
                start.entries_fit(now, plan_id, claimers@),
                self@ == start.entries_claimed(now, plan_id, claimers@, i as int),
                self@.well_formed(),
                self@.plans.records.contains_key(plan_id),
                success == start.entries_paid(now, plan_id, claimers@, i as int),
                fail == start.entries_failed(now, plan_id, claimers@, i as int),
                success <= i,
                fail <= 2 * i,
            decreases claimers@.len() - i,
        {
            let entry = claimers.get(i);
            proof {
                assert(claimers@[i as int].claimer == entry.claimer);
            }
            let (paid, failures): (bool, u32) = self.claim_entry(env, plan_id, entry);
            if paid {
                success += 1;
            }
            fail = fail + failures;
            i += 1;
        }
        self.publish(
            InheritanceEvent::BatchClaim(
                BatchClaimEvent { plan_id, success_count: success, fail_count: fail },
            ),
        );
        Ok((success, fail))
    }
}

/// A plan whose inheritance was not triggered and that has no condition met can be
/// claimed at once if it pays a lump sum, and else not before 30 days (monthly), 90
/// days (quarterly) or 365 days (yearly) after it was made: until that time every
/// claim and every batch is refused. From that time on, and for a triggered plan at any
/// time, the waiting time refuses nobody.
pub proof fn law_waiting_times(
    contract: InheritanceView,
    now: u64,
    plan_id: u64,
    claimer: Address,
    email: Seq<u8>,
    claim_code: u32,
    count: nat,
)
    ensures
        ({
            let plan = contract.plans.records[plan_id];
            let days = match plan.distribution_method {
                DistributionMethod::LumpSum => 0int,
                DistributionMethod::Monthly => 30,
                DistributionMethod::Quarterly => 90,
                DistributionMethod::Yearly => 365,
            };
            let waits = now < plan.created_at + days * 86_400 && !(plan.distribution_method
                is LumpSum);
            let early = InheritanceError::ClaimNotAllowedYet;
            &&& !contract.triggers.infos.contains_key(plan_id)
                && !contract.trigger_conditions_met(now, plan_id) && waits ==> {
                &&& contract.claim_entry_error(now, plan_id, claimer) is Some
                &&& contract.claim_error(now, plan_id, claimer, email, claim_code) is Some
                &&& contract.batch_claim_error(now, plan_id, count) is Some
            }
            &&& !waits || contract.triggers.infos.contains_key(plan_id) ==> {
                &&& contract.claim_entry_error(now, plan_id, claimer) != Some(early)
                &&& contract.batch_claim_error(now, plan_id, count) != Some(early)
            }
            &&& contract.plans.records.contains_key(plan_id) && plan.is_active
                && contract.trigger_conditions_met(now, plan_id) ==> {
                &&& contract.claim_entry_error(now, plan_id, claimer) != Some(early)
                &&& contract.batch_claim_error(now, plan_id, count) != Some(early)
            }
        }),
{
}

/// A claim is looked at exactly if the claimer's identity was approved, the plan is
/// active and under no hold, the claimer made fewer than ten attempts in the hour that
/// is counted, and the plan does not have to wait any longer.
pub proof fn law_claims_are_admitted(
    contract: InheritanceView,
    now: u64,
    plan_id: u64,
    claimer: Address,
)
    ensures
        ({
            let plan = contract.plans.records[plan_id];
            let key = (plan_id, claimer);
            let last = contract.claims.attempts[key];
            contract.claim_entry_error(now, plan_id, claimer) is None <==> {
                &&& contract.kyc.contains_key(claimer) && contract.kyc[claimer].approved
                &&& contract.plans.records.contains_key(plan_id)
                &&& plan.is_active
                &&& !contract.holds.freezes.contains_key(plan_id)
                &&& !contract.holds.legal_holds.contains_key(plan_id)
                &&& contract.claims.attempts.contains_key(key) && now < last.window_start + 3_600
                    ==> last.attempts < 10
                &&& contract.triggers.infos.contains_key(plan_id)
                    || contract.trigger_conditions_met(now, plan_id) || match plan.distribution_method {
                    DistributionMethod::LumpSum => true,
                    DistributionMethod::Monthly => now >= plan.created_at + 30 * 86_400,
                    DistributionMethod::Quarterly => now >= plan.created_at + 90 * 86_400,
                    DistributionMethod::Yearly => now >= plan.created_at + 365 * 86_400,
                }
            }
        }),
{
}

/// The claimant is the first beneficiary whose email hashes to the one on file, and
/// whose code, after the salt on file and written with six digits, hashes to the one
/// on file. A code of more than six digits is nobody's.
pub proof fn law_claimant_knows_email_and_code(
    contract: InheritanceView,
    plan_id: u64,
    email: Seq<u8>,
    claim_code: u32,
)
    requires
        contract.plans.records[plan_id].beneficiaries.len() <= 10,
    ensures
        ({
            let beneficiaries = contract.plans.records[plan_id].beneficiaries;
            &&& contract.claimant(plan_id, email, claim_code) matches Some(index) ==> {
                &&& claim_code < 1_000_000
                &&& index < beneficiaries.len()
                &&& beneficiaries[index as int].hashed_email == hash_of(email)
                &&& beneficiaries[index as int].hashed_claim_code == hash_of(
                    contract.salt_of(plan_id, index).bytes@ + code_digits(claim_code),
                )
                &&& forall|i: int|
                    0 <= i < index && (#[trigger] beneficiaries[i]).hashed_email == hash_of(email)
                        ==> beneficiaries[i].hashed_claim_code != hash_of(
                        contract.salt_of(plan_id, i as u32).bytes@ + code_digits(claim_code),
                    )
            }
            &&& contract.claimant(plan_id, email, claim_code) is None && claim_code < 1_000_000
                ==> forall|i: int|
                0 <= i < beneficiaries.len() && (#[trigger] beneficiaries[i]).hashed_email
                    == hash_of(email) ==> beneficiaries[i].hashed_claim_code != hash_of(
                    contract.salt_of(plan_id, i as u32).bytes@ + code_digits(claim_code),
                )
        }),
{
    let beneficiaries = contract.plans.records[plan_id].beneficiaries;
    lemma_claimant_first(contract, plan_id, hash_of(email), claim_code, 0);
    assert forall|i: int| 0 <= i < beneficiaries.len() implies contract.claim_matches(
        plan_id,
        hash_of(email),
        claim_code,
        i,
    ) == ((#[trigger] beneficiaries[i]).hashed_email == hash_of(email)
        && beneficiaries[i].hashed_claim_code == hash_of(
        contract.salt_of(plan_id, i as u32).bytes@ + code_digits(claim_code),
    )) by {}
}

/// The salt of a beneficiary is the one on file for the plan and the index, and 32
/// zeros where none is.
pub proof fn law_salts(contract: InheritanceView, plan_id: u64, index: u32)
    ensures
        contract.claims.salts.contains_key((plan_id, index)) ==> contract.salt_of(plan_id, index)
            == contract.claims.salts[(plan_id, index)],
        !contract.claims.salts.contains_key((plan_id, index)) ==> {
            &&& contract.salt_of(plan_id, index).bytes@.len() == 32
            &&& forall|i: int|
                0 <= i < 32 ==> #[trigger] contract.salt_of(plan_id, index).bytes@[i] == 0
        },
{
}

/// Whoever is found is the first from the index on.
proof fn lemma_claimant_first(
    contract: InheritanceView,
    plan_id: u64,
    hashed_email: Digest,
    claim_code: u32,
    from: int,
)
    requires
        0 <= from,
        contract.plans.records[plan_id].beneficiaries.len() <= 10,
    ensures
        contract.claimant_from(plan_id, hashed_email, claim_code, from) matches Some(index) ==> {
            &&& from <= index < contract.plans.records[plan_id].beneficiaries.len()
            &&& contract.claim_matches(plan_id, hashed_email, claim_code, index as int)
            &&& forall|i: int|
                from <= i < index ==> !#[trigger] contract.claim_matches(
                    plan_id,
                    hashed_email,
                    claim_code,
                    i,
                )
        },
        contract.claimant_from(plan_id, hashed_email, claim_code, from) is None ==> forall|i: int|
            from <= i < contract.plans.records[plan_id].beneficiaries.len()
                ==> !#[trigger] contract.claim_matches(plan_id, hashed_email, claim_code, i),
    decreases contract.plans.records[plan_id].beneficiaries.len() - from,
{
    if from < contract.plans.records[plan_id].beneficiaries.len() {
        lemma_claimant_first(contract, plan_id, hashed_email, claim_code, from + 1);
    }
}

/// A claim that is looked at goes through exactly if it was not paid in full before,
/// the claimant is found, is not frozen, has acknowledged where that is asked for,
/// waits for nobody of higher priority in a plan that pays in order, and what is paid
/// is positive, at most a tenth of the vault during the day after emergency access was
/// activated, and not out on loan unless inheritance was triggered.
pub proof fn law_payouts_are_admitted(
    contract: InheritanceView,
    now: u64,
    plan_id: u64,
    claimer: Address,
    email: Seq<u8>,
    claim_code: u32,
)
    requires
        contract.claim_entry_error(now, plan_id, claimer) is None,
    ensures
        ({
            let plan = contract.plans.records[plan_id];
            let index = contract.claimant(plan_id, email, claim_code)->0;
            let payout = contract.claim_payout(plan_id, index);
            let key = (plan_id, index);
            contract.claim_error(now, plan_id, claimer, email, claim_code) is None <==> {
                &&& !contract.claims.records.contains_key(claim_key(plan_id, hash_of(email)))
                &&& contract.claimant(plan_id, email, claim_code) is Some
                &&& !(contract.holds.frozen_beneficiaries.contains_key(key)
                    && contract.holds.frozen_beneficiaries[key])
                &&& contract.notices.required.contains_key(plan_id)
                    && contract.notices.required[plan_id]
                    ==> contract.notices.acknowledged.contains_key(key)
                &&& plan.waterfall_enabled ==> forall|i: int|
                    0 <= i < plan.beneficiaries.len() && (#[trigger] plan.beneficiaries[i]).priority
                        != 0 && plan.beneficiaries[i].priority
                        < plan.beneficiaries[index as int].priority
                        ==> plan.beneficiaries[i].is_claimed
                &&& contract.emergency.access.contains_key(plan_id) && now
                    < contract.emergency.access[plan_id].activated_at + 86_400 ==> payout
                    <= plan.total_amount / 10
                &&& contract.triggers.infos.contains_key(plan_id)
                    || contract.trigger_conditions_met(now, plan_id) || payout + plan.total_loaned
                    <= plan.total_amount
                &&& payout > 0
            }
        }),
{
    let plan = contract.plans.records[plan_id];
    lemma_tenth(plan.total_amount);
    if contract.claimant(plan_id, email, claim_code) is Some {
        assert(claim_code <= MAX_CLAIM_CODE);
    }
}

/// A tenth of an amount.
proof fn lemma_tenth(amount: u64)
    ensures
        emergency_limit(amount) == amount / 10,
{
    assert((amount * 1_000) / 10_000 == amount / 10);
}

/// What a claimant is paid: the share of the vault that the allocation gives, rounded
/// down; at most what is left of a settlement, where one was agreed; nothing while
/// somebody of higher priority is waiting in a plan that pays in order.
pub proof fn law_payout_is_the_allocated_share(
    contract: InheritanceView,
    plan_id: u64,
    index: u32,
)
    requires
        index < contract.plans.records[plan_id].beneficiaries.len(),
        contract.plans.records[plan_id].beneficiaries[index as int].allocation_bp <= 10_000,
    ensures
        ({
            let plan = contract.plans.records[plan_id];
            let beneficiary = plan.beneficiaries[index as int];
            let payout = contract.claim_payout(plan_id, index);
            let key = (plan_id, index);
            let owed = plan.total_amount * beneficiary.allocation_bp;
            let settled = contract.claims.settlements.contains_key(key)
                && contract.claims.settlements[key] > 0;
            let waits = plan.waterfall_enabled && exists|i: int|
                0 <= i < plan.beneficiaries.len() && (#[trigger] plan.beneficiaries[i]).priority
                    != 0 && plan.beneficiaries[i].priority < beneficiary.priority
                    && !plan.beneficiaries[i].is_claimed;
            &&& waits ==> payout == 0
            &&& payout * 10_000 <= owed
            &&& settled ==> payout <= contract.claims.settlements[key]
            &&& !waits && (!settled || payout < contract.claims.settlements[key]) ==> owed < (payout
                + 1) * 10_000
        }),
{
    let plan = contract.plans.records[plan_id];
    let beneficiary = plan.beneficiaries[index as int];
    lemma_share_bounded(plan.total_amount, beneficiary.allocation_bp);
    assert(plan.total_amount * beneficiary.allocation_bp <= plan.total_amount * 10_000
        && plan.total_amount * beneficiary.allocation_bp >= 0) by (nonlinear_arith)
        requires
            0 <= beneficiary.allocation_bp <= 10_000,
            0 <= plan.total_amount,
    ;
    law_share_is_rounded_down(plan.total_amount, beneficiary.allocation_bp);
}

/// A claim that is paid takes the payout out of the plan and nothing else: what the
/// claimant gets, what is left of the settlement, that the claim is closed once nothing
/// is left of it, the role, the counted attempt and the events. No tokens are moved by
/// the contract, and no other plan is touched.
#[verifier::rlimit(60)]
pub proof fn law_claiming(
    contract: InheritanceView,
    now: u64,
    plan_id: u64,
    claimer: Address,
    email: Seq<u8>,
    claim_code: u32,
)
    requires
        contract.well_formed(),
        contract.claim_error(now, plan_id, claimer, email, claim_code) is None,
    ensures
        ({
            let after = contract.claimed(now, plan_id, claimer, email, claim_code);
            let index = contract.claimant(plan_id, email, claim_code)->0;
            let plan = contract.plans.records[plan_id];
            let beneficiary = plan.beneficiaries[index as int];
            let left = after.plans.records[plan_id];
            let payout = contract.claim_payout(plan_id, index);
            let key = (plan_id, index);
            let agreed = contract.claims.settlements.contains_key(key)
                && contract.claims.settlements[key] > 0;
            let closes = !agreed || contract.claims.settlements[key] == payout;
            let opens = contract.trigger_conditions_met(now, plan_id)
                && !contract.triggers.infos.contains_key(plan_id);
            let record = claim_key(plan_id, hash_of(email));
            &&& plan.total_amount - left.total_amount == payout
            &&& left == (InheritancePlanView {
                total_amount: left.total_amount,
                is_lendable: plan.is_lendable && !opens,
                beneficiaries: plan.beneficiaries.update(
                    index as int,
                    BeneficiaryView { is_claimed: beneficiary.is_claimed || closes, ..beneficiary },
                ),
                ..plan
            })
            &&& after.plans.records == contract.plans.records.insert(plan_id, left)
            &&& after.claims.records == (if closes {
                contract.claims.records.insert(
                    record,
                    ClaimRecord { plan_id, beneficiary_index: index, claimed_at: now },
                )
            } else {
                contract.claims.records
            })
            &&& agreed && closes ==> after.claims.settlements
                == contract.claims.settlements.remove(key)
            &&& agreed && !closes ==> {
                &&& after.claims.settlements.contains_key(key)
                &&& after.claims.settlements[key] + payout == contract.claims.settlements[key]
                &&& after.claims.settlements == contract.claims.settlements.insert(
                    key,
                    after.claims.settlements[key],
                )
            }
            &&& !agreed ==> after.claims.settlements == contract.claims.settlements
            &&& after.claims.salts == contract.claims.salts
            &&& after.claims.attempts == contract.attempt_recorded(
                now,
                plan_id,
                claimer,
            ).claims.attempts
            &&& closes ==> {
                &&& after.plans.claimed.contains(plan_id)
                &&& list_of(after.plans.claimed_by_owner, plan.owner).contains(plan_id)
            }
            &&& !closes ==> after.plans.claimed == contract.plans.claimed
                && after.plans.claimed_by_owner == contract.plans.claimed_by_owner
            &&& !opens ==> after.triggers == contract.triggers
            &&& !contract.emergency_lapsed(now, plan_id) ==> after.emergency == contract.emergency
            &&& after.access.has(claimer, Role::Beneficiary)
            &&& after.calls == contract.calls
            &&& after.events.contains(
                InheritanceEventView::Claimed(
                    ClaimedEvent { plan_id, hashed_email: hash_of(email), payout },
                ),
            )
            &&& beneficiary.bank_account.len() > 0 ==> after.events.last()
                == InheritanceEventView::FiatPayoutRequested(
                FiatPayoutEvent { plan_id, beneficiary_index: index, payout },
            )
            &&& after == (InheritanceView {
                access: after.access,
                plans: PlanBookView {
                    records: after.plans.records,
                    claimed: after.plans.claimed,
                    claimed_by_owner: after.plans.claimed_by_owner,
                    ..contract.plans
                },
                claims: after.claims,
                emergency: after.emergency,
                triggers: after.triggers,
                events: after.events,
                ..contract
            })
        }),
{
    lemma_plan_on_file(contract, plan_id);
    let index = contract.claimant(plan_id, email, claim_code)->0;
    let plan = contract.plans.records[plan_id];
    let after = contract.claimed(now, plan_id, claimer, email, claim_code);
    lemma_claimant(contract, plan_id, hash_of(email), claim_code, 0);
    lemma_claim_payout(contract, plan_id, index);
    law_roles(
        contract.claim_prepared(now, plan_id, claimer).access,
        claimer,
        Role::Beneficiary,
        claimer,
        Role::Beneficiary,
    );
    lemma_holding(contract.plans.claimed, plan_id);
    lemma_holding(list_of(contract.plans.claimed_by_owner, plan.owner), plan_id);
    let claimed = InheritanceEventView::Claimed(
        ClaimedEvent {
            plan_id,
            hashed_email: hash_of(email),
            payout: contract.claim_payout(plan_id, index),
        },
    );
    let n = after.events.len() - if plan.beneficiaries[index as int].bank_account.len() > 0 {
        2int
    } else {
        1int
    };
    assert(after.events[n] == claimed);
}

/// A list that holds an item has it once.
proof fn lemma_holding(list: Seq<u64>, item: u64)
    ensures
        holding(list, item).contains(item),
        list.len() <= holding(list, item).len() <= list.len() + 1,
        forall|i: int| 0 <= i < list.len() ==> holding(list, item)[i] == list[i],
{
    if !list.contains(item) {
        assert(holding(list, item)[list.len() as int] == item);
    }
}

/// Attempts are counted for an hour from the first of them: an attempt within the hour
/// adds one to the count, and a later one starts a new hour with a count of one.
pub proof fn law_attempts_are_counted(
    contract: InheritanceView,
    now: u64,
    plan_id: u64,
    claimer: Address,
)
    requires
        !contract.attempts_exhausted(now, plan_id, claimer),
    ensures
        ({
            let after = contract.attempt_recorded(now, plan_id, claimer);
            let key = (plan_id, claimer);
            let counted = after.claims.attempts[key];
            let last = contract.claims.attempts[key];
            let running = contract.claims.attempts.contains_key(key) && now < last.window_start
                + 3_600;
            &&& after.claims.attempts == contract.claims.attempts.insert(key, counted)
            &&& running ==> counted.window_start == last.window_start && counted.attempts
                == last.attempts + 1
            &&& !running ==> counted.window_start == now && counted.attempts == 1
            &&& after == (InheritanceView {
                claims: ClaimBookView { attempts: after.claims.attempts, ..contract.claims },
                ..contract
            })
        }),
{
}

/// An entry of a batch is paid exactly if its claimer has attempts left and an
/// approved identity, the claim was not paid yet, the claimant is found and has
/// acknowledged where that is asked for, and the share is at most a tenth of the vault
/// during the day after emergency access was activated. The share is what the
/// allocation gives of what is left, rounded down.
pub proof fn law_batch_entries_are_admitted(
    contract: InheritanceView,
    now: u64,
    plan_id: u64,
    entry: ClaimEntryView,
)
    ensures
        ({
            let plan = contract.plans.records[plan_id];
            let attempts = contract.claims.attempts;
            let last = attempts[(plan_id, entry.claimer)];
            let index = contract.claimant(plan_id, entry.email, entry.claim_code)->0;
            let share = contract.entry_payout(plan_id, entry);
            contract.entry_paid(now, plan_id, entry) <==> {
                &&& attempts.contains_key((plan_id, entry.claimer)) && now < last.window_start
                    + 3_600 ==> last.attempts < 10
                &&& contract.kyc.contains_key(entry.claimer) && contract.kyc[entry.claimer].approved
                &&& !contract.claims.records.contains_key(
                    claim_key(plan_id, hash_of(entry.email)),
                )
                &&& contract.claimant(plan_id, entry.email, entry.claim_code) is Some
                &&& contract.notices.required.contains_key(plan_id)
                    && contract.notices.required[plan_id]
                    ==> contract.notices.acknowledged.contains_key((plan_id, index))
                &&& contract.emergency.access.contains_key(plan_id) && now
                    < contract.emergency.access[plan_id].activated_at + 86_400 ==> share
                    <= plan.total_amount / 10
            }
        }),
        ({
            let plan = contract.plans.records[plan_id];
            let index = contract.claimant(plan_id, entry.email, entry.claim_code)->0;
            let share = contract.entry_payout(plan_id, entry);
            let bps = plan.beneficiaries[index as int].allocation_bp;
            bps <= 10_000 ==> share * 10_000 <= plan.total_amount * bps < (share + 1) * 10_000
        }),
{
    let plan = contract.plans.records[plan_id];
    let index = contract.claimant(plan_id, entry.email, entry.claim_code)->0;
    let bps = plan.beneficiaries[index as int].allocation_bp;
    lemma_tenth(plan.total_amount);
    if bps <= 10_000 {
        assert(0 <= plan.total_amount * bps <= plan.total_amount * 10_000) by (nonlinear_arith)
            requires
                0 <= bps <= 10_000,
                0 <= plan.total_amount,
        ;
        law_share_is_rounded_down(plan.total_amount, bps);
    }
}

/// An entry of a batch that is paid takes its share out of the plan, and the claim is
/// on record and announced; the beneficiaries of the plan stay as they are, and no
/// tokens are moved. An entry that is not paid changes no plan and no record.
#[verifier::rlimit(40)]
pub proof fn law_batch_entry(
    contract: InheritanceView,
    now: u64,
    plan_id: u64,
    entry: ClaimEntryView,
)
    requires
        contract.well_formed(),
        contract.plans.records.contains_key(plan_id),
    ensures
        ({
            let after = contract.entry_claimed(now, plan_id, entry);
            let plan = contract.plans.records[plan_id];
            let left = after.plans.records[plan_id];
            let index = contract.claimant(plan_id, entry.email, entry.claim_code)->0;
            let share = contract.entry_payout(plan_id, entry);
            let record = claim_key(plan_id, hash_of(entry.email));
            &&& contract.entry_paid(now, plan_id, entry) ==> {
                &&& plan.total_amount - left.total_amount == share
                &&& left == (InheritancePlanView { total_amount: left.total_amount, ..plan })
                &&& after.plans.records == contract.plans.records.insert(plan_id, left)
                &&& after.plans.claimed.contains(plan_id)
                &&& list_of(after.plans.claimed_by_owner, plan.owner).contains(plan_id)
                &&& after.claims.records == contract.claims.records.insert(
                    record,
                    ClaimRecord { plan_id, beneficiary_index: index, claimed_at: now },
                )
                &&& after.events.last() == InheritanceEventView::Claimed(
                    ClaimedEvent { plan_id, hashed_email: hash_of(entry.email), payout: share },
                )
            }
            &&& !contract.entry_paid(now, plan_id, entry) ==> {
                &&& after.plans == contract.plans
                &&& after.claims.records == contract.claims.records
            }
            &&& after.claims == (ClaimBookView {
                records: after.claims.records,
                attempts: after.claims.attempts,
                ..contract.claims
            })
            &&& contract.attempts_exhausted(now, plan_id, entry.claimer) ==> after == contract
            &&& !contract.attempts_exhausted(now, plan_id, entry.claimer) ==> after.claims.attempts
                == contract.attempt_recorded(now, plan_id, entry.claimer).claims.attempts
            &&& !contract.emergency_lapsed(now, plan_id) ==> after.emergency == contract.emergency
            &&& after == (InheritanceView {
                plans: PlanBookView {
                    records: after.plans.records,
                    claimed: after.plans.claimed,
                    claimed_by_owner: after.plans.claimed_by_owner,
                    ..contract.plans
                },
                claims: after.claims,
                emergency: after.emergency,
                events: after.events,
                ..contract
            })
        }),
{
    lemma_plan_on_file(contract, plan_id);
    let plan = contract.plans.records[plan_id];
    lemma_claimant(contract, plan_id, hash_of(entry.email), entry.claim_code, 0);
    lemma_holding(contract.plans.claimed, plan_id);
    lemma_holding(list_of(contract.plans.claimed_by_owner, plan.owner), plan_id);
    if contract.entry_paid(now, plan_id, entry) {
        let index = contract.claimant(plan_id, entry.email, entry.claim_code)->0;
        lemma_allocations_nonnegative(plan.beneficiaries);
        lemma_share_bounded(plan.total_amount, plan.beneficiaries[index as int].allocation_bp);
    }
}

/// A batch is taken entry by entry, each against what the ones before it left; at its
/// end it is announced how many were paid and how many failed, where an email of the
/// plan with a code of more than six digits counts as two failures. A batch holds at
/// most twenty entries.
pub proof fn law_batch_in_order(
    contract: InheritanceView,
    now: u64,
    plan_id: u64,
    entries: Seq<ClaimEntryView>,
    n: int,
)
    requires
        0 <= n < entries.len() <= 20,
    ensures
        ({
            let before = contract.entries_claimed(now, plan_id, entries, n);
            let entry = entries[n];
            &&& contract.entries_claimed(now, plan_id, entries, 0) == contract
            &&& contract.entries_claimed(now, plan_id, entries, n + 1) == before.entry_claimed(
                now,
                plan_id,
                entry,
            )
            &&& contract.entries_paid(now, plan_id, entries, 0) == 0
            &&& contract.entries_failed(now, plan_id, entries, 0) == 0
            &&& before.entry_paid(now, plan_id, entry) ==> {
                &&& contract.entries_paid(now, plan_id, entries, n + 1) == contract.entries_paid(
                    now,
                    plan_id,
                    entries,
                    n,
                ) + 1
                &&& contract.entries_failed(now, plan_id, entries, n + 1)
                    == contract.entries_failed(now, plan_id, entries, n)
            }
            &&& !before.entry_paid(now, plan_id, entry) ==> {
                &&& contract.entries_paid(now, plan_id, entries, n + 1) == contract.entries_paid(
                    now,
                    plan_id,
                    entries,
                    n,
                )
                &&& contract.entries_failed(now, plan_id, entries, n + 1)
                    == contract.entries_failed(now, plan_id, entries, n) + (
                if before.entry_admitted(now, plan_id, entry) && entry.claim_code >= 1_000_000
                    && exists|i: int|
                    0 <= i < before.plans.records[plan_id].beneficiaries.len() && (
                    #[trigger] before.plans.records[plan_id].beneficiaries[i]).hashed_email
                        == hash_of(entry.email) {
                    2nat
                } else {
                    1nat
                })
            }
        }),
        ({
            let start = contract.auto_triggered(now, plan_id);
            let count = entries.len() as int;
            let after = contract.batch_claimed(now, plan_id, entries);
            let last = start.entries_claimed(now, plan_id, entries, count);
            &&& after.events.len() == last.events.len() + 1
            &&& after == (InheritanceView { events: after.events, ..last })
            &&& after.events.drop_last() == last.events
            &&& {
                &&& after.events.last() matches InheritanceEventView::BatchClaim(event)
                &&& event.plan_id == plan_id
                &&& event.success_count == start.entries_paid(now, plan_id, entries, count)
                &&& event.fail_count == start.entries_failed(now, plan_id, entries, count)
            }
        }),
        forall|count: nat| count > 20 ==> #[trigger] contract.batch_claim_error(now, plan_id, count)
            is Some,
{
    let start = contract.auto_triggered(now, plan_id);
    lemma_counts_bounded(start, now, plan_id, entries, entries.len() as int);
}

/// At most two of each entry are counted.
proof fn lemma_counts_bounded(
    contract: InheritanceView,
    now: u64,
    plan_id: u64,
    entries: Seq<ClaimEntryView>,
    n: int,
)
    requires
        0 <= n,
    ensures
        contract.entries_paid(now, plan_id, entries, n) <= n,
        contract.entries_failed(now, plan_id, entries, n) <= 2 * n,
    decreases n,
{
    if n > 0 {
        lemma_counts_bounded(contract, now, plan_id, entries, n - 1);
    }
}

/// A batch is taken exactly if it holds at most twenty entries, and the plan is active,
/// under no hold, and does not have to wait any longer.
pub proof fn law_batches_are_admitted(
    contract: InheritanceView,
    now: u64,
    plan_id: u64,
    count: nat,
)
    ensures
        ({
            let plan = contract.plans.records[plan_id];
            contract.batch_claim_error(now, plan_id, count) is None <==> {
                &&& count <= 20
                &&& contract.plans.records.contains_key(plan_id)
                &&& plan.is_active
                &&& !contract.holds.freezes.contains_key(plan_id)
                &&& !contract.holds.legal_holds.contains_key(plan_id)
                &&& contract.triggers.infos.contains_key(plan_id)
                    || contract.trigger_conditions_met(now, plan_id) || match plan.distribution_method {
                    DistributionMethod::LumpSum => true,
                    DistributionMethod::Monthly => now >= plan.created_at + 30 * 86_400,
                    DistributionMethod::Quarterly => now >= plan.created_at + 90 * 86_400,
                    DistributionMethod::Yearly => now >= plan.created_at + 365 * 86_400,
                }
            }
        }),
{
}

/// Why a beneficiary who was found is not paid: every reason that is given holds.
pub proof fn law_reason_payout(
    contract: InheritanceView,
    now: u64,
    plan_id: u64,
    index: u32,
    triggered: bool,
)
    ensures
        ({
            let plan = contract.plans.records[plan_id];
            let payout = contract.claim_payout(plan_id, index);
            match contract.payout_error(now, plan_id, index, triggered) {
                None => true,
                Some(InheritanceError::Unauthorized) => contract.beneficiary_frozen(plan_id, index),
                Some(InheritanceError::ClaimNotAllowedYet) =>
                    contract.acknowledgment_missing(plan_id, index) || (plan.waterfall_enabled
                    && waterfall_blocked(plan, index as int)),
                Some(InheritanceError::EmergencyCooldownActive) => contract.emergency_active(now,
                    plan_id) && payout > emergency_limit(plan.total_amount),
                Some(InheritanceError::InsufficientLiquidity) => !triggered && payout
                    > saturating_difference(plan.total_amount, plan.total_loaned),
                Some(InheritanceError::NothingToClaim) => payout == 0,
                Some(_) => false,
            }
        }),
{
}

/// Why nobody is looked for who could be paid: every reason that is given holds.
pub proof fn law_reason_claim_entry(
    contract: InheritanceView,
    now: u64,
    plan_id: u64,
    claimer: Address,
)
    ensures
        ({
            let plan = contract.plans.records[plan_id];
            match contract.claim_entry_error(now, plan_id, claimer) {
                None => true,
                Some(InheritanceError::PlanNotFound) =>
                    !contract.plans.records.contains_key(plan_id),
                Some(InheritanceError::PlanNotActive) => !plan.is_active
                    || contract.on_hold(plan_id),
                Some(InheritanceError::Unauthorized) => contract.attempts_exhausted(now, plan_id,
                    claimer),
                Some(InheritanceError::ClaimNotAllowedYet) => !contract.triggered_by_now(now,
                    plan_id) && !claim_time_valid(plan, now),
                Some(error) => contract.kyc_error(claimer) == Some(error),
            }
        }),
{
}

/// Why a batch of claims is refused as a whole: every reason that is given holds.
pub proof fn law_reason_batch_claim(contract: InheritanceView, now: u64, plan_id: u64, count: nat)
    ensures
        ({
            let plan = contract.plans.records[plan_id];
            match contract.batch_claim_error(now, plan_id, count) {
                None => true,
                Some(InheritanceError::TooManyBeneficiaries) => count > BATCH_LIMIT,
                Some(InheritanceError::PlanNotFound) =>
                    !contract.plans.records.contains_key(plan_id),
                Some(InheritanceError::PlanNotActive) => !plan.is_active
                    || contract.on_hold(plan_id),
                Some(InheritanceError::ClaimNotAllowedYet) => !contract.triggered_by_now(now,
                    plan_id) && !claim_time_valid(plan, now),
                Some(_) => false,
            }
        }),
{
}

/// Why a claim is refused: every reason that is given holds.
pub proof fn law_reason_claim(
    contract: InheritanceView,
    now: u64,
    plan_id: u64,
    claimer: Address,
    email: Seq<u8>,
    claim_code: u32,
)
    requires
        contract.claim_entry_error(now, plan_id, claimer) is None,
    ensures
        ({
            let plan = contract.plans.records[plan_id];
            let claimant = contract.claimant(plan_id, email, claim_code);
            match contract.claim_error(now, plan_id, claimer, email, claim_code) {
                None => true,
                Some(InheritanceError::AlreadyClaimed) => contract.claims.records.contains_key(
                    claim_key(plan_id, hash_of(email)),
                ),
                Some(InheritanceError::InvalidClaimCodeRange) => claim_code >= 1_000_000
                    && exists|i: int|
                    0 <= i < plan.beneficiaries.len() && (
                    #[trigger] plan.beneficiaries[i]).hashed_email == hash_of(email),
                Some(InheritanceError::BeneficiaryNotFound) => claimant is None,
                Some(error) => claimant is Some && contract.payout_error(
                    now,
                    plan_id,
                    claimant->0,
                    contract.triggered_by_now(now, plan_id),
                ) == Some(error),
            }
        }),
        contract.plans.records.contains_key(plan_id) && contract.plans.records[plan_id].is_active
            ==> (contract.triggered_by_now(now, plan_id) <==> contract.triggers.infos.contains_key(
            plan_id,
        ) || contract.trigger_conditions_met(now, plan_id)),
{
}

} // verus!
