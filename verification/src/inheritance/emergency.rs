//! Emergency access: contacts, guardians, activation and expiry.
use vstd::prelude::*;

use crate::access::{law_roles, AccessView, Role};
use crate::host::{Address, Env};
use crate::inheritance::state::{
    contacts_bounded, list_of, EmergencyBookView, InheritanceContract, InheritanceView,
    MAX_EMERGENCY_CONTACTS,
};
use crate::inheritance::types::{
    EmergencyAccessActivatedEvent, EmergencyAccessApprovedEvent, EmergencyAccessExpirationEvent,
    EmergencyAccessRecord, EmergencyAccessRevocationEvent, EmergencyContactAddedEvent,
    EmergencyContactRemovedEvent, GuardianConfig, GuardianConfigView, InheritanceError,
    InheritanceEvent, InheritanceEventView,
};
use crate::list::{
    lemma_push_contains, lemma_swap_removed, list_contains, list_position, swap_removed,
};
use crate::math::{saturating_difference, share_bps, bps_share};

verus! {

/// Emergency access ends after seven days.
pub const EMERGENCY_EXPIRATION_PERIOD: u64 = 604_800;

/// For a day after emergency access was activated, transfers are limited.
pub const EMERGENCY_COOLDOWN_PERIOD: u64 = 86_400;

/// Share of a vault that can be moved at once during the cooldown: 10%.
pub const EMERGENCY_TRANSFER_LIMIT_BP: u32 = 1_000;

/// What can be moved out of a vault at once during the cooldown.
pub open spec fn emergency_limit(total_amount: u64) -> u64 {
    bps_share(total_amount, EMERGENCY_TRANSFER_LIMIT_BP)
}

/// What can be moved out of a vault at once during the cooldown.
pub fn emergency_limit_of(total_amount: u64) -> (limit: u64)
    ensures
        limit == emergency_limit(total_amount),
{
    share_bps(total_amount, EMERGENCY_TRANSFER_LIMIT_BP)
}

/// The roles after the first `n` of some addresses became guardians.
pub open spec fn guardians_assigned(access: AccessView, guardians: Seq<Address>, n: int)
    -> AccessView
    decreases n,
{
    if n <= 0 {
        access
    } else {
        guardians_assigned(access, guardians, n - 1).assigned(guardians[n - 1], Role::Guardian)
    }
}

impl InheritanceView {
    /// Emergency access to the plan was granted longer ago than it lasts.
    pub open spec fn emergency_lapsed(self, now: u64, plan_id: u64) -> bool {
        self.emergency.access.contains_key(plan_id) && now
            > self.emergency.access[plan_id].activated_at + EMERGENCY_EXPIRATION_PERIOD
    }

    /// Somebody has emergency access to the plan.
    pub open spec fn emergency_held(self, now: u64, plan_id: u64) -> bool {
        self.emergency.access.contains_key(plan_id) && !self.emergency_lapsed(now, plan_id)
    }

    /// Emergency access to the plan was granted so recently that transfers are
    /// limited.
    pub open spec fn emergency_active(self, now: u64, plan_id: u64) -> bool {
        self.emergency.access.contains_key(plan_id) && saturating_difference(
            now,
            self.emergency.access[plan_id].activated_at,
        ) < EMERGENCY_COOLDOWN_PERIOD
    }

    /// The contract after lapsed emergency access to the plan was struck off.
    pub open spec fn emergency_expired(self, now: u64, plan_id: u64) -> InheritanceView {
        if self.emergency_lapsed(now, plan_id) {
            (InheritanceView {
                emergency: EmergencyBookView {
                    access: self.emergency.access.remove(plan_id),
                    ..self.emergency
                },
                ..self
            }).with_event(
                InheritanceEventView::EmergencyAccessExpired(
                    EmergencyAccessExpirationEvent { plan_id, expired_at: now },
                ),
            )
        } else {
            self
        }
    }

    /// The contract after emergency access to the plan was granted.
    pub open spec fn emergency_granted(self, now: u64, plan_id: u64, trusted_contact: Address)
        -> InheritanceView {
        (InheritanceView {
            emergency: EmergencyBookView {
                access: self.emergency.access.insert(
                    plan_id,
                    EmergencyAccessRecord { plan_id, trusted_contact, activated_at: now },
                ),
                ..self.emergency
            },
            ..self
        }).with_event(
            InheritanceEventView::EmergencyAccessActivated(
                EmergencyAccessActivatedEvent { plan_id, trusted_contact, activated_at: now },
            ),
        )
    }

    /// Why emergency access is not activated.
    pub open spec fn activate_error(self, now: u64, owner: Address, plan_id: u64) -> Option<
        InheritanceError,
    > {
        if self.owner_error(plan_id, owner) is Some {
            self.owner_error(plan_id, owner)
        } else if self.emergency_held(now, plan_id) {
            Some(InheritanceError::EmergencyAccessAlreadyActive)
        } else {
            None
        }
    }

    /// Why guardians are not appointed.
    pub open spec fn guardians_error(
        self,
        owner: Address,
        plan_id: u64,
        guardians: Seq<Address>,
        threshold: u32,
    ) -> Option<InheritanceError> {
        if self.owner_error(plan_id, owner) is Some {
            self.owner_error(plan_id, owner)
        } else if threshold == 0 || guardians.len() < threshold {
            Some(InheritanceError::InvalidGuardianThreshold)
        } else {
            None
        }
    }

    /// The contract after guardians were appointed.
    pub open spec fn guardians_set(self, plan_id: u64, guardians: Seq<Address>, threshold: u32)
        -> InheritanceView {
        InheritanceView {
            emergency: EmergencyBookView {
                guardians: self.emergency.guardians.insert(
                    plan_id,
                    GuardianConfigView { guardians, threshold },
                ),
                ..self.emergency
            },
            access: guardians_assigned(self.access, guardians, guardians.len() as int),
            ..self
        }
    }

    /// The contract with other emergency contacts of a plan.
    pub open spec fn with_contacts(self, plan_id: u64, contacts: Seq<Address>) -> InheritanceView {
        InheritanceView {
            emergency: EmergencyBookView {
                contacts: self.emergency.contacts.insert(plan_id, contacts),
                ..self.emergency
            },
            ..self
        }
    }

    /// Why an emergency contact is not added.
    pub open spec fn add_contact_error(self, owner: Address, plan_id: u64, contact: Address)
        -> Option<InheritanceError> {
        let contacts = list_of(self.emergency.contacts, plan_id);
        if self.owner_error(plan_id, owner) is Some {
            self.owner_error(plan_id, owner)
        } else if contacts.contains(contact) {
            Some(InheritanceError::EmergencyContactAlreadyExists)
        } else if contacts.len() >= MAX_EMERGENCY_CONTACTS {
            Some(InheritanceError::TooManyEmergencyContacts)
        } else {
            None
        }
    }

    /// Why an emergency contact is not removed.
    pub open spec fn remove_contact_error(self, owner: Address, plan_id: u64, contact: Address)
        -> Option<InheritanceError> {
        if self.owner_error(plan_id, owner) is Some {
            self.owner_error(plan_id, owner)
        } else if !list_of(self.emergency.contacts, plan_id).contains(contact) {
            Some(InheritanceError::EmergencyContactNotFound)
        } else {
            None
        }
    }

    /// Why the approval of a guardian is refused.
    pub open spec fn approve_error(
        self,
        now: u64,
        guardian: Address,
        plan_id: u64,
        trusted_contact: Address,
    ) -> Option<InheritanceError> {
        if !self.access.has(guardian, Role::Guardian) {
            Some(InheritanceError::Unauthorized)
        } else if !self.plans.records.contains_key(plan_id) {
            Some(InheritanceError::PlanNotFound)
        } else if self.emergency_held(now, plan_id) {
            Some(InheritanceError::EmergencyAccessAlreadyActive)
        } else if !self.emergency.guardians.contains_key(plan_id) {
            Some(InheritanceError::GuardianNotFound)
        } else if !self.emergency.guardians[plan_id].guardians.contains(guardian) {
            Some(InheritanceError::Unauthorized)
        } else if list_of(self.emergency.approvals, (plan_id, trusted_contact)).contains(
            guardian,
        ) {
            Some(InheritanceError::AlreadyApproved)
        } else {
            None
        }
    }

    /// The contract after the approval of a guardian. Once enough guardians have
    /// approved, the trusted contact has emergency access.
    pub open spec fn approved(
        self,
        now: u64,
        guardian: Address,
        plan_id: u64,
        trusted_contact: Address,
    ) -> InheritanceView {
        let clean = self.emergency_expired(now, plan_id);
        let key = (plan_id, trusted_contact);
        let approvals = list_of(self.emergency.approvals, key).push(guardian);
        let recorded = (InheritanceView {
            emergency: EmergencyBookView {
                approvals: clean.emergency.approvals.insert(key, approvals),
                ..clean.emergency
            },
            ..clean
        }).with_event(
            InheritanceEventView::EmergencyAccessApproved(
                EmergencyAccessApprovedEvent {
                    plan_id,
                    trusted_contact,
                    guardian,
                    approvals_count: approvals.len() as u32,
                },
            ),
        );
        if approvals.len() >= self.emergency.guardians[plan_id].threshold {
            recorded.emergency_granted(now, plan_id, trusted_contact)
        } else {
            recorded
        }
    }

    /// The contract after its owner ended emergency access to a plan.
    pub open spec fn emergency_revoked(self, now: u64, plan_id: u64) -> InheritanceView {
        if self.emergency.access.contains_key(plan_id) {
            (InheritanceView {
                emergency: EmergencyBookView {
                    access: self.emergency.access.remove(plan_id),
                    ..self.emergency
                },
                ..self
            }).with_event(
                InheritanceEventView::EmergencyAccessRevoked(
                    EmergencyAccessRevocationEvent { plan_id, revoked_at: now },
                ),
            )
        } else {
            self
        }
    }
}

/// Transfers are limited only while somebody has emergency access: what makes the
/// cooldown active has not lapsed.
pub proof fn law_cooldown_within_access(contract: InheritanceView, now: u64, plan_id: u64)
    ensures
        contract.emergency_active(now, plan_id) ==> contract.emergency_held(now, plan_id),
{
}

/// Emergency access is granted to a trusted contact exactly when the approval
/// reaches the threshold, and to nobody before that.
pub proof fn law_access_needs_threshold(
    contract: InheritanceView,
    now: u64,
    guardian: Address,
    plan_id: u64,
    trusted_contact: Address,
)
    requires
        contract.approve_error(now, guardian, plan_id, trusted_contact) is None,
    ensures
        ({
            let after = contract.approved(now, guardian, plan_id, trusted_contact);
            let approvals = list_of(contract.emergency.approvals, (plan_id, trusted_contact)).len()
                + 1;
            &&& after.emergency_held(now, plan_id) <==> approvals
                >= contract.emergency.guardians[plan_id].threshold
            &&& after.emergency_held(now, plan_id)
                ==> after.emergency.access[plan_id].trusted_contact == trusted_contact
            &&& after.approve_error(now, guardian, plan_id, trusted_contact) is Some
        }),
{
    let approvals = list_of(contract.emergency.approvals, (plan_id, trusted_contact));
    lemma_push_contains(approvals, guardian, guardian);
}

/// A contact that was added can be removed, and is then no contact any more; the
/// other contacts of the plan stay.
pub proof fn law_contact_round_trip(
    contract: InheritanceView,
    owner: Address,
    plan_id: u64,
    contact: Address,
    other: Address,
)
    requires
        contract.well_formed(),
        contract.add_contact_error(owner, plan_id, contact) is None,
    ensures
        ({
            let before = list_of(contract.emergency.contacts, plan_id);
            let added = contract.with_contacts(plan_id, before.push(contact));
            let list = list_of(added.emergency.contacts, plan_id);
            let rest = swap_removed(list, list.index_of(contact));
            &&& added.remove_contact_error(owner, plan_id, contact) is None
            &&& rest.contains(other) <==> before.contains(other)
        }),
{
    reveal(contacts_bounded);
    let before = list_of(contract.emergency.contacts, plan_id);
    let list = before.push(contact);
    lemma_push_contains(before, contact, contact);
    lemma_push_contains(before, contact, other);
    let index = list.index_of(contact);
    assert(list[index] == contact);
    lemma_swap_removed(list, index);
    assert(swap_removed(list, index).contains(other) <==> list.contains(other) && other
        != list[index]);
}

proof fn lemma_contacts_update(contract: InheritanceView, plan_id: u64, contacts: Seq<Address>)
    requires
        contract.well_formed(),
        contacts.no_duplicates(),
        contacts.len() <= MAX_EMERGENCY_CONTACTS,
    ensures
        contract.with_contacts(plan_id, contacts).well_formed(),
{
    reveal(contacts_bounded);
    let before = contract.emergency.contacts;
    let after = contract.with_contacts(plan_id, contacts).emergency.contacts;
    assert forall|id: u64|
        (#[trigger] list_of(after, id)).no_duplicates() && list_of(after, id).len()
            <= MAX_EMERGENCY_CONTACTS by {
        assert(list_of(before, id).no_duplicates());
    }
}

impl InheritanceContract {
    /// Whether emergency access to the plan has lapsed.
    pub fn is_emergency_lapsed(&self, env: &Env, plan_id: u64) -> (lapsed: bool)
        ensures
            lapsed == self@.emergency_lapsed(env.timestamp, plan_id),
    {
        match self.emergency.access.get(plan_id) {
            Some(record) => env.timestamp > record.activated_at && env.timestamp
                - record.activated_at > EMERGENCY_EXPIRATION_PERIOD,
            None => false,
        }
    }

    /// Strikes off emergency access that has lapsed. Returns whether somebody has
    /// emergency access to the plan.
    pub fn check_and_expire_emergency_access(&mut self, env: &Env, plan_id: u64) -> (held: bool)
        ensures
            held == old(self)@.emergency_held(env.timestamp, plan_id),
            final(self)@ == old(self)@.emergency_expired(env.timestamp, plan_id),
    {
        if !self.emergency.access.contains(plan_id) {
            return false;
        }
        if self.is_emergency_lapsed(env, plan_id) {
            self.emergency.access.remove(plan_id);
            self.publish(
                InheritanceEvent::EmergencyAccessExpired(
                    EmergencyAccessExpirationEvent { plan_id, expired_at: env.timestamp },
                ),
            );
            return false;
        }
        true
    }

    /// Activate emergency access for a trusted contact on a vault/plan.
    /// Only the plan owner can activate emergency access.
    pub fn activate_emergency_access(
        &mut self,
        env: &Env,
        owner: Address,
        plan_id: u64,
        trusted_contact: Address,
    ) -> (result: Result<(), InheritanceError>)
        requires
            old(self)@.well_formed(),
            env.authorized(owner),
        ensures
            ({
                let error = old(self)@.activate_error(env.timestamp, owner, plan_id);
                match result {
                    Err(e) => error == Some(e) && final(self)@ == old(self)@,
                    Ok(()) => error is None && final(self)@ == old(self)@.emergency_expired(
                        env.timestamp,
                        plan_id,
                    ).emergency_granted(env.timestamp, plan_id, trusted_contact),
                }
            }),
            final(self)@.well_formed(),
    {
        match self.require_owner(plan_id, owner) {
            Err(e) => {
                return Err(e);
            },
            Ok(_) => {},
        }
        if self.emergency.access.contains(plan_id) && !self.is_emergency_lapsed(env, plan_id) {
            return Err(InheritanceError::EmergencyAccessAlreadyActive);
        }
        self.check_and_expire_emergency_access(env, plan_id);
        self.grant_emergency_access(env, plan_id, trusted_contact);
        Ok(())
    }

    fn grant_emergency_access(&mut self, env: &Env, plan_id: u64, trusted_contact: Address)
        ensures
            final(self)@ == old(self)@.emergency_granted(env.timestamp, plan_id, trusted_contact),
    {
        let now: u64 = env.timestamp;
        self.emergency.access.set(
            plan_id,
            EmergencyAccessRecord { plan_id, trusted_contact, activated_at: now },
        );
        self.publish(
            InheritanceEvent::EmergencyAccessActivated(
                EmergencyAccessActivatedEvent { plan_id, trusted_contact, activated_at: now },
            ),
        );
    }

    /// Appoint the guardians of a plan, and how many of them must approve
    /// emergency access. Every one of them gets the guardian role.
    pub fn set_guardians(
        &mut self,
        env: &Env,
        owner: Address,
        plan_id: u64,
        guardians: Vec<Address>,
        threshold: u32,
    ) -> (result: Result<(), InheritanceError>)
        requires
            old(self)@.well_formed(),
            env.authorized(owner),
        ensures
            ({
                let error = old(self)@.guardians_error(owner, plan_id, guardians@, threshold);
                match result {
                    Err(e) => error == Some(e) && final(self)@ == old(self)@,
                    Ok(()) => error is None && final(self)@ == old(self)@.guardians_set(
                        plan_id,
                        guardians@,
                        threshold,
                    ),
                }
            }),
            final(self)@.well_formed(),
    {
        match self.require_owner(plan_id, owner) {
            Err(e) => {
                return Err(e);
            },
            Ok(_) => {},
        }
        if threshold == 0 || guardians.len() < threshold as usize {
            return Err(InheritanceError::InvalidGuardianThreshold);
        }
        let mut i: usize = 0;
        while i < guardians.len()
            invariant
                i <= guardians@.len(),
                self@ == (InheritanceView {
                    access: guardians_assigned(old(self)@.access, guardians@, i as int),
                    ..old(self)@
                }),
            decreases guardians@.len() - i,
        {
            self.access.assign_role(guardians[i], Role::Guardian);
            i += 1;
        }
        self.emergency.guardians.set(plan_id, GuardianConfig { guardians, threshold });
        Ok(())
    }

    /// Add an emergency contact to a vault/plan.
    /// Emergency contacts can later request emergency access with guardian approval.
    pub fn add_emergency_contact(
        &mut self,
        env: &Env,
        owner: Address,
        plan_id: u64,
        contact: Address,
    ) -> (result: Result<(), InheritanceError>)
        requires
            old(self)@.well_formed(),
            env.authorized(owner),
        ensures
            ({
                let error = old(self)@.add_contact_error(owner, plan_id, contact);
                match result {
                    Err(e) => error == Some(e) && final(self)@ == old(self)@,
                    Ok(()) => error is None && final(self)@ == old(self)@.with_contacts(
                        plan_id,
                        list_of(old(self)@.emergency.contacts, plan_id).push(contact),
                    ).with_event(
                        InheritanceEventView::EmergencyContactAdded(
                            EmergencyContactAddedEvent { plan_id, contact },
                        ),
                    ),
                }
            }),
            final(self)@.well_formed(),
    {
        match self.require_owner(plan_id, owner) {
            Err(e) => {
                return Err(e);
            },
            Ok(_) => {},
        }
        let mut contacts = self.get_emergency_contacts(plan_id);
        if list_contains(&contacts, &contact) {
            return Err(InheritanceError::EmergencyContactAlreadyExists);
        }
        if contacts.len() >= MAX_EMERGENCY_CONTACTS {
            return Err(InheritanceError::TooManyEmergencyContacts);
        }
        contacts.push(contact);
        proof {
            reveal(contacts_bounded);
            lemma_contacts_update(self@, plan_id, contacts@);
        }
        self.emergency.contacts.set(plan_id, contacts);
        self.publish(
            InheritanceEvent::EmergencyContactAdded(EmergencyContactAddedEvent { plan_id, contact }),
        );
        Ok(())
    }

    /// Remove an emergency contact from a vault/plan. The last contact takes its
    /// place in the list.
    pub fn remove_emergency_contact(
        &mut self,
        env: &Env,
        owner: Address,
        plan_id: u64,
        contact: Address,
    ) -> (result: Result<(), InheritanceError>)
        requires
            old(self)@.well_formed(),
            env.authorized(owner),
        ensures
            ({
                let error = old(self)@.remove_contact_error(owner, plan_id, contact);
                let contacts = list_of(old(self)@.emergency.contacts, plan_id);
                match result {
                    Err(e) => error == Some(e) && final(self)@ == old(self)@,
                    Ok(()) => error is None && final(self)@ == old(self)@.with_contacts(
                        plan_id,
                        swap_removed(contacts, contacts.index_of(contact)),
                    ).with_event(
                        InheritanceEventView::EmergencyContactRemoved(
                            EmergencyContactRemovedEvent { plan_id, contact },
                        ),
                    ),
                }
            }),
            final(self)@.well_formed(),
    {
        match self.require_owner(plan_id, owner) {
            Err(e) => {
                return Err(e);
            },
            Ok(_) => {},
        }
        let mut contacts = self.get_emergency_contacts(plan_id);
        let index: usize = match list_position(&contacts, &contact) {
            Some(index) => index,
            None => {
                return Err(InheritanceError::EmergencyContactNotFound);
            },
        };
        let ghost before = contacts@;
        contacts.swap_remove(index);
        proof {
            reveal(contacts_bounded);
            assert(before[before.index_of(contact)] == contact);
            assert(before.index_of(contact) == index);
            assert(contacts@ =~= swap_removed(before, index as int));
            lemma_swap_removed(before, index as int);
            lemma_contacts_update(self@, plan_id, contacts@);
        }
        self.emergency.contacts.set(plan_id, contacts);
        self.publish(
            InheritanceEvent::EmergencyContactRemoved(
                EmergencyContactRemovedEvent { plan_id, contact },
            ),
        );
        Ok(())
    }

    /// Get all emergency contacts for a vault/plan.
    pub fn get_emergency_contacts(&self, plan_id: u64) -> (contacts: Vec<Address>)
        ensures
            contacts@ == list_of(self@.emergency.contacts, plan_id),
    {
        match self.emergency.contacts.get(plan_id) {
            Some(contacts) => contacts.clone(),
            None => Vec::new(),
        }
    }

    /// Record the approval of a guardian. Once enough of them have approved, the
    /// trusted contact has emergency access.
    pub fn approve_emergency_access(
        &mut self,
        env: &Env,
        guardian: Address,
        plan_id: u64,
        trusted_contact: Address,
    ) -> (result: Result<(), InheritanceError>)
        requires
            old(self)@.well_formed(),
            env.authorized(guardian),
            list_of(old(self)@.emergency.approvals, (plan_id, trusted_contact)).len() < u32::MAX,
        ensures
            ({
                let error = old(self)@.approve_error(
                    env.timestamp,
                    guardian,
                    plan_id,
                    trusted_contact,
                );
                match result {
                    Err(e) => error == Some(e) && final(self)@ == old(self)@,
                    Ok(()) => error is None && final(self)@ == old(self)@.approved(
                        env.timestamp,
                        guardian,
                        plan_id,
                        trusted_contact,
                    ),
                }
            }),
            final(self)@.well_formed(),
    {
        if !self.access.has_role(guardian, Role::Guardian) {
            return Err(InheritanceError::Unauthorized);
        }
        if !self.plans.records.contains(plan_id) {
            return Err(InheritanceError::PlanNotFound);
        }
        if self.emergency.access.contains(plan_id) && !self.is_emergency_lapsed(env, plan_id) {
            return Err(InheritanceError::EmergencyAccessAlreadyActive);
        }
        let threshold: u32 = match self.emergency.guardians.get(plan_id) {
            Some(config) => {
                if !list_contains(&config.guardians, &guardian) {
                    return Err(InheritanceError::Unauthorized);
                }
                config.threshold
            },
            None => {
                return Err(InheritanceError::GuardianNotFound);
            },
        };
        let mut approvals: Vec<Address> = match self.emergency.approvals.get(
            (plan_id, trusted_contact),
        ) {
            Some(approvals) => approvals.clone(),
            None => Vec::new(),
        };
        if list_contains(&approvals, &guardian) {
            return Err(InheritanceError::AlreadyApproved);
        }
        self.check_and_expire_emergency_access(env, plan_id);
        approvals.push(guardian);
        let count: usize = approvals.len();
        self.emergency.approvals.set((plan_id, trusted_contact), approvals);
        self.publish(
            InheritanceEvent::EmergencyAccessApproved(
                EmergencyAccessApprovedEvent {
                    plan_id,
                    trusted_contact,
                    guardian,
                    approvals_count: count as u32,
                },
            ),
        );
        if count as u32 >= threshold {
            self.grant_emergency_access(env, plan_id, trusted_contact);
        }
        Ok(())
    }

    /// Query the emergency access record for a plan: the record if emergency
    /// access is active, nothing otherwise. Access that has lapsed is struck off.
    pub fn get_emergency_access(&mut self, env: &Env, plan_id: u64) -> (record: Option<
        EmergencyAccessRecord,
    >)
        ensures
            final(self)@ == old(self)@.emergency_expired(env.timestamp, plan_id),
            record == (if old(self)@.emergency_held(env.timestamp, plan_id) {
                Some(old(self)@.emergency.access[plan_id])
            } else {
                None
            }),
    {
        if self.check_and_expire_emergency_access(env, plan_id) {
            match self.emergency.access.get(plan_id) {
                Some(record) => Some(*record),
                None => None,
            }
        } else {
            None
        }
    }

    /// Whether emergency access was activated within the last 24 hours. Access
    /// that has lapsed is struck off.
    pub fn is_emergency_active(&mut self, env: &Env, plan_id: u64) -> (active: bool)
        ensures
            final(self)@ == old(self)@.emergency_expired(env.timestamp, plan_id),
            active == old(self)@.emergency_active(env.timestamp, plan_id),
    {
        if !self.check_and_expire_emergency_access(env, plan_id) {
            return false;
        }
        self.within_cooldown(env, plan_id)
    }

    /// Whether emergency access was activated within the last 24 hours.
    pub fn within_cooldown(&self, env: &Env, plan_id: u64) -> (active: bool)
        ensures
            active == self@.emergency_active(env.timestamp, plan_id),
    {
        match self.emergency.access.get(plan_id) {
            Some(record) => env.timestamp.saturating_sub(record.activated_at)
                < EMERGENCY_COOLDOWN_PERIOD,
            None => false,
        }
    }

    /// Deactivate emergency access for a plan.
    /// Only the plan owner can deactivate emergency access.
    pub fn deactivate_emergency_access(&mut self, env: &Env, owner: Address, plan_id: u64) -> (
    result: Result<(), InheritanceError>)
        requires
            old(self)@.well_formed(),
            env.authorized(owner),
        ensures
            match result {
                Err(e) => old(self)@.owner_error(plan_id, owner) == Some(e) && final(self)@ == old(
                    self,
                )@,
                Ok(()) => old(self)@.owner_error(plan_id, owner) is None && final(self)@ == old(
                    self,
                )@.emergency_revoked(env.timestamp, plan_id),
            },
            final(self)@.well_formed(),
    {
        match self.require_owner(plan_id, owner) {
            Err(e) => {
                return Err(e);
            },
            Ok(_) => {},
        }
        if self.emergency.access.contains(plan_id) {
            self.emergency.access.remove(plan_id);
            self.publish(
                InheritanceEvent::EmergencyAccessRevoked(
                    EmergencyAccessRevocationEvent { plan_id, revoked_at: env.timestamp },
                ),
            );
        }
        Ok(())
    }
}

/// Emergency access lasts seven days, the last second included; during its first day a
/// tenth of the vault can be moved at once, rounded down.
pub proof fn law_emergency_periods(contract: InheritanceView, now: u64, plan_id: u64, amount: u64)
    ensures
        ({
            let granted = contract.emergency.access.contains_key(plan_id);
            let since = contract.emergency.access[plan_id].activated_at;
            &&& contract.emergency_held(now, plan_id) <==> granted && now <= since + 7 * 86_400
            &&& contract.emergency_lapsed(now, plan_id) <==> granted && now > since + 7 * 86_400
            &&& contract.emergency_active(now, plan_id) <==> granted && now < since + 86_400
        }),
        emergency_limit(amount) == amount / 10,
{
    assert((amount * 1_000) / 10_000 == amount / 10);
}

/// Access that lapsed is struck off and announced, and nothing else changes; access
/// that did not lapse stays.
pub proof fn law_expiring(contract: InheritanceView, now: u64, plan_id: u64)
    ensures
        ({
            let after = contract.emergency_expired(now, plan_id);
            let lapsed = contract.emergency.access.contains_key(plan_id) && now
                > contract.emergency.access[plan_id].activated_at + 604_800;
            &&& !lapsed ==> after == contract
            &&& lapsed ==> after == (InheritanceView {
                emergency: EmergencyBookView {
                    access: contract.emergency.access.remove(plan_id),
                    ..contract.emergency
                },
                events: contract.events.push(
                    InheritanceEventView::EmergencyAccessExpired(
                        EmergencyAccessExpirationEvent { plan_id, expired_at: now },
                    ),
                ),
                ..contract
            })
        }),
{
}

/// The owner of a plan, and nobody else, gives emergency access, ends it, and names
/// guardians and contacts. Access is given while nobody has it; guardians come with a
/// threshold from one up to their number; a contact is named once, and at most ten are.
pub proof fn law_emergency_is_for_owners(
    contract: InheritanceView,
    now: u64,
    owner: Address,
    plan_id: u64,
    guardians: Seq<Address>,
    threshold: u32,
    contact: Address,
)
    ensures
        ({
            let owns = contract.plans.records.contains_key(plan_id)
                && contract.plans.records[plan_id].owner == owner;
            let contacts = list_of(contract.emergency.contacts, plan_id);
            &&& contract.activate_error(now, owner, plan_id) is None <==> owns && !(
            contract.emergency.access.contains_key(plan_id) && now
                <= contract.emergency.access[plan_id].activated_at + 604_800)
            &&& contract.guardians_error(owner, plan_id, guardians, threshold) is None <==> owns
                && 1 <= threshold <= guardians.len()
            &&& contract.add_contact_error(owner, plan_id, contact) is None <==> owns
                && !contacts.contains(contact) && contacts.len() < 10
            &&& contract.remove_contact_error(owner, plan_id, contact) is None <==> owns
                && contacts.contains(contact)
        }),
{
}

/// Access is on record for the contact from now on, and announced. Ending it takes the
/// record away, and announces that if there was one.
pub proof fn law_granting_and_revoking(
    contract: InheritanceView,
    now: u64,
    plan_id: u64,
    trusted_contact: Address,
)
    ensures
        contract.emergency_granted(now, plan_id, trusted_contact) == (InheritanceView {
            emergency: EmergencyBookView {
                access: contract.emergency.access.insert(
                    plan_id,
                    EmergencyAccessRecord { plan_id, trusted_contact, activated_at: now },
                ),
                ..contract.emergency
            },
            events: contract.events.push(
                InheritanceEventView::EmergencyAccessActivated(
                    EmergencyAccessActivatedEvent { plan_id, trusted_contact, activated_at: now },
                ),
            ),
            ..contract
        }),
        !contract.emergency.access.contains_key(plan_id) ==> contract.emergency_revoked(
            now,
            plan_id,
        ) == contract,
        contract.emergency.access.contains_key(plan_id) ==> contract.emergency_revoked(
            now,
            plan_id,
        ) == (InheritanceView {
            emergency: EmergencyBookView {
                access: contract.emergency.access.remove(plan_id),
                ..contract.emergency
            },
            events: contract.events.push(
                InheritanceEventView::EmergencyAccessRevoked(
                    EmergencyAccessRevocationEvent { plan_id, revoked_at: now },
                ),
            ),
            ..contract
        }),
{
}

/// Guardians are on record with their threshold, in the place of those before them, and
/// each of them has the role; nobody loses a role, and nobody else gets one.
pub proof fn law_appointing_guardians(
    contract: InheritanceView,
    plan_id: u64,
    guardians: Seq<Address>,
    threshold: u32,
    who: Address,
    role: Role,
)
    ensures
        ({
            let after = contract.guardians_set(plan_id, guardians, threshold);
            &&& after.access.has(who, role) <==> contract.access.has(who, role) || (role
                == Role::Guardian && guardians.contains(who))
            &&& after.access.paused == contract.access.paused
            &&& after.access.entered == contract.access.entered
            &&& after == (InheritanceView {
                access: after.access,
                emergency: EmergencyBookView {
                    guardians: contract.emergency.guardians.insert(
                        plan_id,
                        GuardianConfigView { guardians, threshold },
                    ),
                    ..contract.emergency
                },
                ..contract
            })
        }),
{
    lemma_guardians_assigned(contract.access, guardians, guardians.len() as int, who, role);
    if guardians.contains(who) {
        let i = guardians.index_of(who);
        assert(guardians[i] == who);
    }
}

/// The first `n` addresses have the role, and the others what they had.
proof fn lemma_guardians_assigned(
    access: AccessView,
    guardians: Seq<Address>,
    n: int,
    who: Address,
    role: Role,
)
    requires
        0 <= n <= guardians.len(),
    ensures
        guardians_assigned(access, guardians, n).has(who, role) <==> access.has(who, role) || (role
            == Role::Guardian && exists|i: int| 0 <= i < n && #[trigger] guardians[i] == who),
        guardians_assigned(access, guardians, n).paused == access.paused,
        guardians_assigned(access, guardians, n).entered == access.entered,
    decreases n,
{
    if n > 0 {
        lemma_guardians_assigned(access, guardians, n - 1, who, role);
        let before = guardians_assigned(access, guardians, n - 1);
        law_roles(before, guardians[n - 1], Role::Guardian, who, role);
        if exists|i: int| 0 <= i < n && #[trigger] guardians[i] == who {
            let i = choose|i: int| 0 <= i < n && #[trigger] guardians[i] == who;
            if i < n - 1 {
                assert(guardians[i] == who);
            }
        }
    }
}

/// An approval counts exactly from a guardian of the plan who did not approve this
/// contact before, while nobody has access.
pub proof fn law_approvals_are_admitted(
    contract: InheritanceView,
    now: u64,
    guardian: Address,
    plan_id: u64,
    trusted_contact: Address,
)
    ensures
        contract.approve_error(now, guardian, plan_id, trusted_contact) is None <==> {
            &&& contract.access.has(guardian, Role::Guardian)
            &&& contract.plans.records.contains_key(plan_id)
            &&& !(contract.emergency.access.contains_key(plan_id) && now
                <= contract.emergency.access[plan_id].activated_at + 604_800)
            &&& contract.emergency.guardians.contains_key(plan_id)
            &&& contract.emergency.guardians[plan_id].guardians.contains(guardian)
            &&& !list_of(contract.emergency.approvals, (plan_id, trusted_contact)).contains(
                guardian,
            )
        },
{
}

/// An approval joins those for the same contact and is announced with their number;
/// once there are as many as the threshold says, the contact has access from now on.
pub proof fn law_approving(
    contract: InheritanceView,
    now: u64,
    guardian: Address,
    plan_id: u64,
    trusted_contact: Address,
)
    requires
        contract.approve_error(now, guardian, plan_id, trusted_contact) is None,
    ensures
        ({
            let after = contract.approved(now, guardian, plan_id, trusted_contact);
            let key = (plan_id, trusted_contact);
            let approvals = list_of(contract.emergency.approvals, key).push(guardian);
            let enough = approvals.len() >= contract.emergency.guardians[plan_id].threshold;
            let approved = InheritanceEventView::EmergencyAccessApproved(
                EmergencyAccessApprovedEvent {
                    plan_id,
                    trusted_contact,
                    guardian,
                    approvals_count: approvals.len() as u32,
                },
            );
            &&& after == (InheritanceView {
                emergency: after.emergency,
                events: after.events,
                ..contract
            })
            &&& after.emergency.approvals == contract.emergency.approvals.insert(key, approvals)
            &&& after.emergency.guardians == contract.emergency.guardians
            &&& after.emergency.contacts == contract.emergency.contacts
            &&& enough ==> after.emergency.access == contract.emergency.access.insert(
                plan_id,
                EmergencyAccessRecord { plan_id, trusted_contact, activated_at: now },
            )
            &&& !enough ==> after.emergency.access == contract.emergency.access.remove(plan_id)
            &&& !enough ==> after.events.last() == approved
            &&& enough ==> {
                &&& after.events[after.events.len() - 2] == approved
                &&& after.events.last() == InheritanceEventView::EmergencyAccessActivated(
                    EmergencyAccessActivatedEvent { plan_id, trusted_contact, activated_at: now },
                )
            }
            &&& after.events.len() == contract.events.len() + (if enough {
                2int
            } else {
                1
            }) + (if contract.emergency.access.contains_key(plan_id) {
                1int
            } else {
                0
            })
        }),
{
    let access = contract.emergency.access;
    if !access.contains_key(plan_id) {
        assert(access.remove(plan_id) =~= access);
    } else {
        assert(access.remove(plan_id).insert(
            plan_id,
            EmergencyAccessRecord { plan_id, trusted_contact, activated_at: now },
        ) =~= access.insert(
            plan_id,
            EmergencyAccessRecord { plan_id, trusted_contact, activated_at: now },
        ));
    }
}

/// Contacts of one plan leave all else as it is.
pub proof fn law_contacts(contract: InheritanceView, plan_id: u64, contacts: Seq<Address>)
    ensures
        contract.with_contacts(plan_id, contacts) == (InheritanceView {
            emergency: EmergencyBookView {
                contacts: contract.emergency.contacts.insert(plan_id, contacts),
                ..contract.emergency
            },
            ..contract
        }),
{
}

/// Why emergency access is not activated: every reason that is given holds.
pub proof fn law_reason_activate(contract: InheritanceView, now: u64, owner: Address, plan_id: u64)
    ensures
        match contract.activate_error(now, owner, plan_id) {
            None => true,
            Some(InheritanceError::EmergencyAccessAlreadyActive) => contract.emergency_held(now,
                plan_id),
            Some(error) => contract.owner_error(plan_id, owner) == Some(error),
        },
{
}

/// Why guardians are not appointed: every reason that is given holds.
pub proof fn law_reason_guardians(
    contract: InheritanceView,
    owner: Address,
    plan_id: u64,
    guardians: Seq<Address>,
    threshold: u32,
)
    ensures
        match contract.guardians_error(owner, plan_id, guardians, threshold) {
            None => true,
            Some(InheritanceError::InvalidGuardianThreshold) => threshold == 0 || guardians.len()
                < threshold,
            Some(error) => contract.owner_error(plan_id, owner) == Some(error),
        },
{
}

/// Why an emergency contact is not added: every reason that is given holds.
pub proof fn law_reason_add_contact(
    contract: InheritanceView,
    owner: Address,
    plan_id: u64,
    contact: Address,
)
    ensures
        ({
            let contacts = list_of(contract.emergency.contacts, plan_id);
            match contract.add_contact_error(owner, plan_id, contact) {
                None => true,
                Some(InheritanceError::EmergencyContactAlreadyExists) => contacts.contains(contact),
                Some(InheritanceError::TooManyEmergencyContacts) => contacts.len()
                    >= MAX_EMERGENCY_CONTACTS,
                Some(error) => contract.owner_error(plan_id, owner) == Some(error),
            }
        }),
{
}

/// Why an emergency contact is not removed: every reason that is given holds.
pub proof fn law_reason_remove_contact(
    contract: InheritanceView,
    owner: Address,
    plan_id: u64,
    contact: Address,
)
    ensures
        match contract.remove_contact_error(owner, plan_id, contact) {
            None => true,
            Some(InheritanceError::EmergencyContactNotFound) =>
                !list_of(contract.emergency.contacts, plan_id).contains(contact),
            Some(error) => contract.owner_error(plan_id, owner) == Some(error),
        },
{
}

/// Why the approval of a guardian is refused: every reason that is given holds.
pub proof fn law_reason_approve(
    contract: InheritanceView,
    now: u64,
    guardian: Address,
    plan_id: u64,
    trusted_contact: Address,
)
    ensures
        match contract.approve_error(now, guardian, plan_id, trusted_contact) {
            None => true,
            Some(InheritanceError::Unauthorized) => !contract.access.has(guardian, Role::Guardian)
                || !contract.emergency.guardians[plan_id].guardians.contains(guardian),
            Some(InheritanceError::PlanNotFound) => !contract.plans.records.contains_key(plan_id),
            Some(InheritanceError::EmergencyAccessAlreadyActive) => contract.emergency_held(now,
                plan_id),
            Some(InheritanceError::GuardianNotFound) =>
                !contract.emergency.guardians.contains_key(plan_id),
            Some(InheritanceError::AlreadyApproved) => list_of(contract.emergency.approvals,
                (plan_id, trusted_contact)).contains(guardian),
            Some(_) => false,
        },
{
}

} // verus!
