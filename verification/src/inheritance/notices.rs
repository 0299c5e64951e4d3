//! Notices to beneficiaries, and their acknowledgments.
use vstd::prelude::*;

use crate::access::Role;
use crate::host::{Address, Env};
use crate::inheritance::state::{
    lemma_plan_on_file, InheritanceContract, InheritanceView, NoticeBookView,
};
use crate::inheritance::types::{
    BeneficiaryAcknowledgedEvent, BeneficiaryAcknowledgment, BeneficiaryNotifiedEvent,
    InheritanceError, InheritanceEvent, InheritanceEventView,
};
use crate::list::lemma_push_contains;

verus! {

impl InheritanceView {
    /// Why a call that is open to the owner of a plan and to admins is refused;
    /// `refusal` is what others are told.
    pub open spec fn owner_or_admin_error(
        self,
        caller: Address,
        plan_id: u64,
        refusal: InheritanceError,
    ) -> Option<InheritanceError> {
        if !self.plans.records.contains_key(plan_id) {
            Some(InheritanceError::PlanNotFound)
        } else if self.plans.records[plan_id].owner != caller && !self.access.has(
            caller,
            Role::Admin,
        ) {
            Some(refusal)
        } else {
            None
        }
    }

    /// Why a beneficiary is not notified.
    pub open spec fn notify_error(self, caller: Address, plan_id: u64, index: u32) -> Option<
        InheritanceError,
    > {
        let error = self.owner_or_admin_error(caller, plan_id, InheritanceError::Unauthorized);
        if error is Some {
            error
        } else if index >= self.plans.records[plan_id].beneficiaries.len() {
            Some(InheritanceError::InvalidBeneficiaryIndex)
        } else if self.notices.notified.contains_key((plan_id, index)) {
            Some(InheritanceError::AlreadyApproved)
        } else {
            None
        }
    }

    /// The contract after a beneficiary was notified.
    pub open spec fn beneficiary_notified(self, now: u64, plan_id: u64, index: u32)
        -> InheritanceView {
        (InheritanceView {
            notices: NoticeBookView {
                notified: self.notices.notified.insert((plan_id, index), now),
                ..self.notices
            },
            ..self
        }).with_event(
            InheritanceEventView::BeneficiaryNotified(
                BeneficiaryNotifiedEvent { plan_id, beneficiary_index: index, notified_at: now },
            ),
        )
    }

    /// Why an acknowledgment is refused.
    pub open spec fn acknowledge_error(self, plan_id: u64, index: u32) -> Option<
        InheritanceError,
    > {
        if !self.plans.records.contains_key(plan_id) {
            Some(InheritanceError::PlanNotFound)
        } else if index >= self.plans.records[plan_id].beneficiaries.len() {
            Some(InheritanceError::InvalidBeneficiaryIndex)
        } else if !self.notices.notified.contains_key((plan_id, index)) {
            Some(InheritanceError::ClaimNotAllowedYet)
        } else if self.notices.acknowledged.contains_key((plan_id, index)) {
            Some(InheritanceError::AlreadyApproved)
        } else {
            None
        }
    }

    /// The contract after a beneficiary acknowledged.
    pub open spec fn beneficiary_acknowledged(self, now: u64, plan_id: u64, index: u32)
        -> InheritanceView {
        (InheritanceView {
            notices: NoticeBookView {
                acknowledged: self.notices.acknowledged.insert((plan_id, index), now),
                ..self.notices
            },
            ..self
        }).with_event(
            InheritanceEventView::BeneficiaryAcknowledged(
                BeneficiaryAcknowledgedEvent {
                    plan_id,
                    beneficiary_index: index,
                    acknowledged_at: now,
                },
            ),
        )
    }

    /// A beneficiary was notified, and has not acknowledged.
    pub open spec fn unacknowledged(self, plan_id: u64, index: u32) -> bool {
        self.notices.notified.contains_key((plan_id, index))
            && !self.notices.acknowledged.contains_key((plan_id, index))
    }

    /// Those of the first `n` beneficiaries of a plan who were notified and have not
    /// acknowledged.
    pub open spec fn unacknowledged_among(self, plan_id: u64, n: int) -> Seq<u32>
        decreases n,
    {
        if n <= 0 {
            Seq::empty()
        } else if self.unacknowledged(plan_id, (n - 1) as u32) {
            self.unacknowledged_among(plan_id, n - 1).push((n - 1) as u32)
        } else {
            self.unacknowledged_among(plan_id, n - 1)
        }
    }
}

/// A beneficiary acknowledges after they were notified, and each happens once.
pub proof fn law_acknowledgment_follows_notice(
    contract: InheritanceView,
    now: u64,
    caller: Address,
    plan_id: u64,
    index: u32,
)
    ensures
        contract.notify_error(caller, plan_id, index) is None ==> ({
            let after = contract.beneficiary_notified(now, plan_id, index);
            &&& after.notify_error(caller, plan_id, index) == Some(
                InheritanceError::AlreadyApproved,
            )
            &&& !contract.notices.acknowledged.contains_key((plan_id, index))
                ==> after.acknowledge_error(plan_id, index) is None
        }),
        contract.acknowledge_error(plan_id, index) is None ==> ({
            let after = contract.beneficiary_acknowledged(now, plan_id, index);
            &&& contract.notices.notified.contains_key((plan_id, index))
            &&& after.acknowledge_error(plan_id, index) == Some(InheritanceError::AlreadyApproved)
            &&& !after.acknowledgment_missing(plan_id, index)
        }),
{
}

impl InheritanceContract {
    fn check_owner_or_admin(&self, caller: Address, plan_id: u64, refusal: InheritanceError) -> (
    error: Option<InheritanceError>)
        ensures
            error == self@.owner_or_admin_error(caller, plan_id, refusal),
    {
        match self.plans.records.get(plan_id) {
            Some(plan) => {
                if plan.owner != caller && !self.access.has_role(caller, Role::Admin) {
                    Some(refusal)
                } else {
                    None
                }
            },
            None => Some(InheritanceError::PlanNotFound),
        }
    }

    fn beneficiary_count(&self, plan_id: u64) -> (count: usize)
        requires
            self@.plans.records.contains_key(plan_id),
        ensures
            count == self@.plans.records[plan_id].beneficiaries.len(),
    {
        match self.plans.records.get(plan_id) {
            Some(plan) => plan.beneficiaries.len(),
            None => 0,
        }
    }

    /// Mark a beneficiary as notified on-chain. Only the plan owner or admin can call
    /// this.
    pub fn notify_beneficiary(
        &mut self,
        env: &Env,
        caller: Address,
        plan_id: u64,
        beneficiary_index: u32,
    ) -> (result: Result<(), InheritanceError>)
        requires
            old(self)@.well_formed(),
            env.authorized(caller),
        ensures
            ({
                let error = old(self)@.notify_error(caller, plan_id, beneficiary_index);
                match result {
                    Err(e) => error == Some(e) && final(self)@ == old(self)@,
                    Ok(()) => error is None && final(self)@ == old(self)@.beneficiary_notified(
                        env.timestamp,
                        plan_id,
                        beneficiary_index,
                    ),
                }
            }),
            final(self)@.well_formed(),
    {
        match self.check_owner_or_admin(caller, plan_id, InheritanceError::Unauthorized) {
            Some(e) => {
                return Err(e);
            },
            None => {},
        }
        if beneficiary_index as usize >= self.beneficiary_count(plan_id) {
            return Err(InheritanceError::InvalidBeneficiaryIndex);
        }
        if self.notices.notified.contains((plan_id, beneficiary_index)) {
            return Err(InheritanceError::AlreadyApproved);
        }
        self.notices.notified.set((plan_id, beneficiary_index), env.timestamp);
        self.publish(
            InheritanceEvent::BeneficiaryNotified(
                BeneficiaryNotifiedEvent {
                    plan_id,
                    beneficiary_index,
                    notified_at: env.timestamp,
                },
            ),
        );
        Ok(())
    }

    /// Called by the beneficiary (via their address) to acknowledge their listing in a
    /// plan. Requires the beneficiary to have been notified first.
    pub fn acknowledge_beneficiary_status(
        &mut self,
        env: &Env,
        beneficiary_caller: Address,
        plan_id: u64,
        beneficiary_index: u32,
    ) -> (result: Result<(), InheritanceError>)
        requires
            old(self)@.well_formed(),
            env.authorized(beneficiary_caller),
        ensures
            ({
                let error = old(self)@.acknowledge_error(plan_id, beneficiary_index);
                match result {
                    Err(e) => error == Some(e) && final(self)@ == old(self)@,
                    Ok(()) => error is None && final(self)@ == old(self)@.beneficiary_acknowledged(
                        env.timestamp,
                        plan_id,
                        beneficiary_index,
                    ),
                }
            }),
            final(self)@.well_formed(),
    {
        if !self.plans.records.contains(plan_id) {
            return Err(InheritanceError::PlanNotFound);
        }
        if beneficiary_index as usize >= self.beneficiary_count(plan_id) {
            return Err(InheritanceError::InvalidBeneficiaryIndex);
        }
        if !self.notices.notified.contains((plan_id, beneficiary_index)) {
            return Err(InheritanceError::ClaimNotAllowedYet);
        }
        if self.notices.acknowledged.contains((plan_id, beneficiary_index)) {
            return Err(InheritanceError::AlreadyApproved);
        }
        self.notices.acknowledged.set((plan_id, beneficiary_index), env.timestamp);
        self.publish(
            InheritanceEvent::BeneficiaryAcknowledged(
                BeneficiaryAcknowledgedEvent {
                    plan_id,
                    beneficiary_index,
                    acknowledged_at: env.timestamp,
                },
            ),
        );
        Ok(())
    }

    /// Returns notification and acknowledgment timestamps for a beneficiary, or None if
    /// not notified.
    pub fn get_beneficiary_acknowledgment(&self, plan_id: u64, beneficiary_index: u32) -> (found:
        Option<BeneficiaryAcknowledgment>)
        ensures
            ({
                let key = (plan_id, beneficiary_index);
                found == (if self@.notices.notified.contains_key(key) {
                    Some(
                        BeneficiaryAcknowledgment {
                            plan_id,
                            beneficiary_index,
                            notification_sent_at: self@.notices.notified[key],
                            acknowledged_at: if self@.notices.acknowledged.contains_key(key) {
                                self@.notices.acknowledged[key]
                            } else {
                                0
                            },
                        },
                    )
                } else {
                    None
                })
            }),
    {
        let acknowledged_at: u64 = match self.notices.acknowledged.get(
            (plan_id, beneficiary_index),
        ) {
            Some(at) => *at,
            None => 0,
        };
        match self.notices.notified.get((plan_id, beneficiary_index)) {
            Some(at) => Some(
                BeneficiaryAcknowledgment {
                    plan_id,
                    beneficiary_index,
                    notification_sent_at: *at,
                    acknowledged_at,
                },
            ),
            None => None,
        }
    }

    /// Enable or disable the acknowledgment requirement for a plan.
    /// When enabled, beneficiaries must acknowledge before they can claim.
    /// Only the plan owner or admin may call this.
    pub fn require_acknowledgment(
        &mut self,
        env: &Env,
        caller: Address,
        plan_id: u64,
        required: bool,
    ) -> (result: Result<(), InheritanceError>)
        requires
            old(self)@.well_formed(),
            env.authorized(caller),
        ensures
            ({
                let error = old(self)@.owner_or_admin_error(
                    caller,
                    plan_id,
                    InheritanceError::NotAdmin,
                );
                match result {
                    Err(e) => error == Some(e) && final(self)@ == old(self)@,
                    Ok(()) => error is None && final(self)@ == (InheritanceView {
                        notices: NoticeBookView {
                            required: old(self)@.notices.required.insert(plan_id, required),
                            ..old(self)@.notices
                        },
                        ..old(self)@
                    }),
                }
            }),
            final(self)@.well_formed(),
    {
        match self.check_owner_or_admin(caller, plan_id, InheritanceError::NotAdmin) {
            Some(e) => {
                return Err(e);
            },
            None => {},
        }
        self.notices.required.set(plan_id, required);
        Ok(())
    }

    /// Returns the indices of beneficiaries who have been notified but have not yet
    /// acknowledged.
    pub fn get_unacknowledged_beneficiaries(&self, plan_id: u64) -> (indices: Result<
        Vec<u32>,
        InheritanceError,
    >)
        requires
            self@.well_formed(),
        ensures
            match indices {
                Ok(list) => self@.plans.records.contains_key(plan_id) && list@
                    == self@.unacknowledged_among(
                    plan_id,
                    self@.plans.records[plan_id].beneficiaries.len() as int,
                ),
                Err(e) => !self@.plans.records.contains_key(plan_id) && e
                    == InheritanceError::PlanNotFound,
            },
    {
        if !self.plans.records.contains(plan_id) {
            return Err(InheritanceError::PlanNotFound);
        }
        proof {
            lemma_plan_on_file(self@, plan_id);
        }
        let count: u32 = self.beneficiary_count(plan_id) as u32;
        let mut indices: Vec<u32> = Vec::new();
        let mut i: u32 = 0;
        while i < count
            invariant
                i <= count,
                indices@ == self@.unacknowledged_among(plan_id, i as int),
            decreases count - i,
        {
            if self.notices.notified.contains((plan_id, i)) && !self.notices.acknowledged.contains(
                (plan_id, i),
            ) {
                indices.push(i);
            }
            i += 1;
        }
        Ok(indices)
    }
}

/// The owner of a plan and admins, and nobody else, notify a beneficiary of it, once;
/// a beneficiary who was notified acknowledges once.
pub proof fn law_notices_are_admitted(
    contract: InheritanceView,
    caller: Address,
    plan_id: u64,
    index: u32,
    refusal: InheritanceError,
)
    ensures
        ({
            let plan = contract.plans.records[plan_id];
            let filed = contract.plans.records.contains_key(plan_id);
            let key = (plan_id, index);
            let allowed = filed && (plan.owner == caller || contract.access.has(
                caller,
                Role::Admin,
            ));
            &&& contract.owner_or_admin_error(caller, plan_id, refusal) is None <==> allowed
            &&& filed && !allowed ==> contract.owner_or_admin_error(caller, plan_id, refusal)
                == Some(refusal)
            &&& contract.notify_error(caller, plan_id, index) is None <==> allowed && index
                < plan.beneficiaries.len() && !contract.notices.notified.contains_key(key)
            &&& contract.acknowledge_error(plan_id, index) is None <==> filed && index
                < plan.beneficiaries.len() && contract.notices.notified.contains_key(key)
                && !contract.notices.acknowledged.contains_key(key)
        }),
{
}

/// A notice and an acknowledgment are on record with their time, and announced; all
/// else stays.
pub proof fn law_notifying(contract: InheritanceView, now: u64, plan_id: u64, index: u32)
    ensures
        contract.beneficiary_notified(now, plan_id, index) == (InheritanceView {
            notices: NoticeBookView {
                notified: contract.notices.notified.insert((plan_id, index), now),
                ..contract.notices
            },
            events: contract.events.push(
                InheritanceEventView::BeneficiaryNotified(
                    BeneficiaryNotifiedEvent {
                        plan_id,
                        beneficiary_index: index,
                        notified_at: now,
                    },
                ),
            ),
            ..contract
        }),
        contract.beneficiary_acknowledged(now, plan_id, index) == (InheritanceView {
            notices: NoticeBookView {
                acknowledged: contract.notices.acknowledged.insert((plan_id, index), now),
                ..contract.notices
            },
            events: contract.events.push(
                InheritanceEventView::BeneficiaryAcknowledged(
                    BeneficiaryAcknowledgedEvent {
                        plan_id,
                        beneficiary_index: index,
                        acknowledged_at: now,
                    },
                ),
            ),
            ..contract
        }),
{
}

/// The list of those who did not acknowledge holds exactly the beneficiaries who were
/// notified and did not, in their order.
pub proof fn law_unacknowledged(contract: InheritanceView, plan_id: u64, n: int, index: u32)
    requires
        0 <= n <= 0xffff_ffff,
    ensures
        contract.unacknowledged_among(plan_id, n).contains(index) <==> {
            &&& index < n
            &&& contract.notices.notified.contains_key((plan_id, index))
            &&& !contract.notices.acknowledged.contains_key((plan_id, index))
        },
        contract.unacknowledged_among(plan_id, n).len() <= n,
        forall|i: int, j: int|
            0 <= i < j < contract.unacknowledged_among(plan_id, n).len()
                ==> #[trigger] contract.unacknowledged_among(plan_id, n)[i]
                < #[trigger] contract.unacknowledged_among(plan_id, n)[j] < n,
        forall|i: int|
            0 <= i < contract.unacknowledged_among(plan_id, n).len()
                ==> #[trigger] contract.unacknowledged_among(plan_id, n)[i] < n,
    decreases n,
{
    if n > 0 {
        law_unacknowledged(contract, plan_id, n - 1, index);
        lemma_push_contains(
            contract.unacknowledged_among(plan_id, n - 1),
            (n - 1) as u32,
            index,
        );
    }
}

/// Why a call that is open to the owner of a plan and to admins is refused: every
/// reason that is given holds.
pub proof fn law_reason_owner_or_admin(
    contract: InheritanceView,
    caller: Address,
    plan_id: u64,
    refusal: InheritanceError,
)
    ensures
        match contract.owner_or_admin_error(caller, plan_id, refusal) {
            None => true,
            Some(error) => {
                ||| error == InheritanceError::PlanNotFound
                    && !contract.plans.records.contains_key(plan_id)
                ||| error == refusal && contract.plans.records[plan_id].owner != caller
                    && !contract.access.has(caller, Role::Admin)
            },
        },
{
}

/// Why a beneficiary is not notified: every reason that is given holds.
pub proof fn law_reason_notify(contract: InheritanceView, caller: Address, plan_id: u64, index: u32)
    ensures
        ({
            let error = contract.owner_or_admin_error(caller, plan_id,
                InheritanceError::Unauthorized);
            match contract.notify_error(caller, plan_id, index) {
                None => true,
                Some(InheritanceError::InvalidBeneficiaryIndex) => index
                    >= contract.plans.records[plan_id].beneficiaries.len(),
                Some(InheritanceError::AlreadyApproved) =>
                    contract.notices.notified.contains_key((plan_id, index)),
                Some(reason) => error == Some(reason),
            }
        }),
{
}

/// Why an acknowledgment is refused: every reason that is given holds.
pub proof fn law_reason_acknowledge(contract: InheritanceView, plan_id: u64, index: u32)
    ensures
        match contract.acknowledge_error(plan_id, index) {
            None => true,
            Some(InheritanceError::PlanNotFound) => !contract.plans.records.contains_key(plan_id),
            Some(InheritanceError::InvalidBeneficiaryIndex) => index
                >= contract.plans.records[plan_id].beneficiaries.len(),
            Some(InheritanceError::ClaimNotAllowedYet) =>
                !contract.notices.notified.contains_key((plan_id, index)),
            Some(InheritanceError::AlreadyApproved) =>
                contract.notices.acknowledged.contains_key((plan_id, index)),
            Some(_) => false,
        },
{
}

} // verus!
