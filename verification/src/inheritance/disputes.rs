//! Disputes over plans, who arbitrates them, and plans that are frozen on their account.
use vstd::prelude::*;
use vstd::utf8::is_ascii_chars_encode_utf8;

#[allow(unused_imports)]
use vstd::string::StringSliceAdditionalSpecFns;

use crate::host::{Address, Env};
use crate::inheritance::state::{
    list_of, DisputeBookView, HoldBookView, InheritanceContract, InheritanceView,
};
use crate::inheritance::types::{
    DisputeFiledEvent, DisputeFiledEventView, DisputeRecord, DisputeRecordView,
    DisputeResolvedEvent, DisputeStatus, FreezeRecord, FreezeRecordView, InheritanceError,
    InheritanceEvent, InheritanceEventView, PlanFrozenEvent, PlanFrozenEventView,
    PlanUnfrozenEvent,
};
use crate::list::{
    append_text, lemma_without_contains, list_contains, list_without, without, Duplicate,
};

verus! {

/// The reason that is recorded when a dispute freezes a plan.
pub open spec fn dispute_reason() -> Seq<u8> {
    "dispute".spec_bytes()
}

fn dispute_reason_text() -> (reason: Vec<u8>)
    ensures
        reason@ == dispute_reason(),
{
    let mut reason: Vec<u8> = Vec::new();
    append_text(&mut reason, "dispute");
    proof {
        assert(reason@ =~= dispute_reason());
    }
    reason
}

/// A dispute is closed.
pub open spec fn is_closed(status: DisputeStatus) -> bool {
    status == DisputeStatus::Resolved || status == DisputeStatus::Rejected
}

impl InheritanceView {
    /// The contract with other arbitrators.
    pub open spec fn with_arbitrators(self, arbitrators: Seq<Address>) -> InheritanceView {
        InheritanceView { disputes: DisputeBookView { arbitrators, ..self.disputes }, ..self }
    }

    /// The contract after an arbitrator was appointed; nothing changes if it was one
    /// already.
    pub open spec fn arbitrator_added(self, arbitrator: Address) -> InheritanceView {
        if self.disputes.arbitrators.contains(arbitrator) {
            self
        } else {
            self.with_arbitrators(self.disputes.arbitrators.push(arbitrator))
        }
    }

    /// Why a dispute is not filed.
    pub open spec fn file_error(self, plan_id: u64) -> Option<InheritanceError> {
        if !self.plans.records.contains_key(plan_id) {
            Some(InheritanceError::PlanNotFound)
        } else if self.admin is None {
            Some(InheritanceError::AdminNotSet)
        } else {
            None
        }
    }

    /// Who arbitrates a new dispute: the first arbitrator, or the admin if there is none.
    pub open spec fn assigned_arbitrator(self) -> Address {
        if self.disputes.arbitrators.len() > 0 {
            self.disputes.arbitrators[0]
        } else {
            self.admin->0
        }
    }

    /// The contract after a dispute was filed.
    pub open spec fn dispute_filed(self, now: u64, disputer: Address, plan_id: u64, reason: Seq<u8>)
        -> InheritanceView {
        let dispute_id = self.disputes.next_id;
        (InheritanceView {
            disputes: DisputeBookView {
                next_id: (dispute_id + 1) as u64,
                records: self.disputes.records.insert(
                    dispute_id,
                    DisputeRecordView {
                        dispute_id,
                        plan_id,
                        disputer,
                        reason,
                        status: DisputeStatus::Filed,
                        filed_at: now,
                        resolved_at: 0,
                        resolution_notes: Seq::empty(),
                        arbitrator: self.assigned_arbitrator(),
                    },
                ),
                by_plan: self.disputes.by_plan.insert(
                    plan_id,
                    list_of(self.disputes.by_plan, plan_id).push(dispute_id),
                ),
                ..self.disputes
            },
            ..self
        }).with_event(
            InheritanceEventView::DisputeFiled(
                DisputeFiledEventView { dispute_id, plan_id, disputer, reason, filed_at: now },
            ),
        )
    }

    /// Why a review is refused.
    pub open spec fn review_error(self, arbitrator: Address, dispute_id: u64) -> Option<
        InheritanceError,
    > {
        if !self.disputes.records.contains_key(dispute_id) {
            Some(InheritanceError::PlanNotFound)
        } else if !self.disputes.arbitrators.contains(arbitrator) {
            Some(InheritanceError::Unauthorized)
        } else if is_closed(self.disputes.records[dispute_id].status) {
            Some(InheritanceError::AlreadyApproved)
        } else {
            None
        }
    }

    /// The dispute after a review.
    pub open spec fn reviewed_dispute(
        self,
        now: u64,
        dispute_id: u64,
        new_status: DisputeStatus,
        resolution_notes: Seq<u8>,
    ) -> DisputeRecordView {
        let record = self.disputes.records[dispute_id];
        DisputeRecordView {
            status: new_status,
            resolution_notes,
            resolved_at: if is_closed(new_status) {
                now
            } else {
                record.resolved_at
            },
            ..record
        }
    }

    /// The contract after a plan was frozen on account of a dispute.
    pub open spec fn plan_frozen(self, now: u64, plan_id: u64, arbitrator: Address)
        -> InheritanceView {
        (InheritanceView {
            holds: HoldBookView {
                freezes: self.holds.freezes.insert(
                    plan_id,
                    FreezeRecordView {
                        plan_id,
                        frozen_at: now,
                        reason: dispute_reason(),
                        frozen_by: arbitrator,
                    },
                ),
                ..self.holds
            },
            ..self
        }).with_event(
            InheritanceEventView::PlanFrozen(
                PlanFrozenEventView {
                    plan_id,
                    frozen_by: arbitrator,
                    frozen_at: now,
                    reason: dispute_reason(),
                },
            ),
        )
    }

    /// The contract after a review.
    pub open spec fn dispute_reviewed(
        self,
        now: u64,
        arbitrator: Address,
        dispute_id: u64,
        new_status: DisputeStatus,
        resolution_notes: Seq<u8>,
        freeze_plan: bool,
    ) -> InheritanceView {
        let record = self.reviewed_dispute(now, dispute_id, new_status, resolution_notes);
        let updated = InheritanceView {
            disputes: DisputeBookView {
                records: self.disputes.records.insert(dispute_id, record),
                ..self.disputes
            },
            ..self
        };
        let frozen = if freeze_plan {
            updated.plan_frozen(now, record.plan_id, arbitrator)
        } else {
            updated
        };
        if is_closed(new_status) {
            frozen.with_event(
                InheritanceEventView::DisputeResolved(
                    DisputeResolvedEvent {
                        dispute_id,
                        plan_id: record.plan_id,
                        status: new_status,
                        arbitrator,
                        resolved_at: now,
                    },
                ),
            )
        } else {
            frozen
        }
    }

    /// The contract after a plan was unfrozen.
    pub open spec fn plan_unfrozen(self, now: u64, plan_id: u64, admin: Address)
        -> InheritanceView {
        (InheritanceView {
            holds: HoldBookView { freezes: self.holds.freezes.remove(plan_id), ..self.holds },
            ..self
        }).with_event(
            InheritanceEventView::PlanUnfrozen(
                PlanUnfrozenEvent { plan_id, unfrozen_by: admin, unfrozen_at: now },
            ),
        )
    }
}

/// A dispute that was closed stays closed: nobody can review it again.
pub proof fn law_closed_disputes_stay_closed(
    contract: InheritanceView,
    now: u64,
    arbitrator: Address,
    dispute_id: u64,
    new_status: DisputeStatus,
    resolution_notes: Seq<u8>,
    freeze_plan: bool,
    who: Address,
)
    requires
        contract.review_error(arbitrator, dispute_id) is None,
        is_closed(new_status),
    ensures
        contract.dispute_reviewed(
            now,
            arbitrator,
            dispute_id,
            new_status,
            resolution_notes,
            freeze_plan,
        ).review_error(who, dispute_id) is Some,
{
}

/// A plan that a review froze is on hold, until an admin unfreezes it.
pub proof fn law_freeze_round_trip(
    contract: InheritanceView,
    now: u64,
    plan_id: u64,
    arbitrator: Address,
    later: u64,
    admin: Address,
)
    ensures
        contract.plan_frozen(now, plan_id, arbitrator).on_hold(plan_id),
        contract.plan_frozen(now, plan_id, arbitrator).plan_unfrozen(
            later,
            plan_id,
            admin,
        ).on_hold(plan_id) <==> contract.holds.legal_holds.contains_key(plan_id),
{
}

/// Only arbitrators review, and one who was removed no longer does.
pub proof fn law_removed_arbitrator_is_refused(
    contract: InheritanceView,
    arbitrator: Address,
    dispute_id: u64,
)
    ensures
        contract.with_arbitrators(
            without(contract.disputes.arbitrators, arbitrator),
        ).review_error(arbitrator, dispute_id) is Some,
{
    lemma_without_contains(contract.disputes.arbitrators, arbitrator, arbitrator);
}

impl InheritanceContract {
    /// Appoint an arbitrator. Admin-only.
    pub fn add_arbitrator(&mut self, env: &Env, admin: Address, arbitrator: Address) -> (result:
        Result<(), InheritanceError>)
        requires
            old(self)@.well_formed(),
            env.authorized(admin),
        ensures
            match result {
                Err(e) => old(self)@.admin_error(admin) == Some(e) && final(self)@ == old(self)@,
                Ok(()) => old(self)@.admin_error(admin) is None && final(self)@ == old(
                    self,
                )@.arbitrator_added(arbitrator),
            },
            final(self)@.well_formed(),
    {
        match self.require_admin(env, admin) {
            Ok(()) => {},
            Err(e) => {
                return Err(e);
            },
        }
        if !list_contains(&self.disputes.arbitrators, &arbitrator) {
            self.disputes.arbitrators.push(arbitrator);
        }
        Ok(())
    }

    /// Remove an arbitrator. Admin-only.
    pub fn remove_arbitrator(&mut self, env: &Env, admin: Address, arbitrator: Address) -> (result:
        Result<(), InheritanceError>)
        requires
            old(self)@.well_formed(),
            env.authorized(admin),
        ensures
            match result {
                Err(e) => old(self)@.admin_error(admin) == Some(e) && final(self)@ == old(self)@,
                Ok(()) => old(self)@.admin_error(admin) is None && final(self)@ == old(
                    self,
                )@.with_arbitrators(without(old(self)@.disputes.arbitrators, arbitrator)),
            },
            final(self)@.well_formed(),
    {
        match self.require_admin(env, admin) {
            Ok(()) => {},
            Err(e) => {
                return Err(e);
            },
        }
        self.disputes.arbitrators = list_without(&self.disputes.arbitrators, &arbitrator);
        Ok(())
    }

    /// The arbitrators.
    pub fn get_arbitrators(&self) -> (arbitrators: Vec<Address>)
        ensures
            arbitrators@ == self@.disputes.arbitrators,
    {
        self.disputes.arbitrators.clone()
    }

    /// File a dispute over a plan. Returns its id.
    pub fn file_dispute(&mut self, env: &Env, disputer: Address, plan_id: u64, reason: Vec<u8>) -> (
    result: Result<u64, InheritanceError>)
        requires
            old(self)@.well_formed(),
            !old(self)@.access.paused,
            env.authorized(disputer),
            old(self)@.file_error(plan_id) is None ==> old(self)@.disputes.next_id < u64::MAX,
        ensures
            ({
                let error = old(self)@.file_error(plan_id);
                match result {
                    Err(e) => error == Some(e) && final(self)@ == old(self)@,
                    Ok(id) => error is None && id == old(self)@.disputes.next_id && final(self)@
                        == old(self)@.dispute_filed(env.timestamp, disputer, plan_id, reason@),
                }
            }),
            final(self)@.well_formed(),
    {
        if !self.plans.records.contains(plan_id) {
            return Err(InheritanceError::PlanNotFound);
        }
        let mut arbitrator: Address = match self.admin {
            Some(admin) => admin,
            None => {
                return Err(InheritanceError::AdminNotSet);
            },
        };
        if self.disputes.arbitrators.len() > 0 {
            arbitrator = self.disputes.arbitrators[0];
        }
        let dispute_id: u64 = self.disputes.next_id;
        self.disputes.records.set(
            dispute_id,
            DisputeRecord {
                dispute_id,
                plan_id,
                disputer,
                reason: reason.clone(),
                status: DisputeStatus::Filed,
                filed_at: env.timestamp,
                resolved_at: 0,
                resolution_notes: Vec::new(),
                arbitrator,
            },
        );
        let mut ids = self.get_plan_disputes(plan_id);
        ids.push(dispute_id);
        self.disputes.by_plan.set(plan_id, ids);
        self.disputes.next_id = dispute_id + 1;
        self.publish(
            InheritanceEvent::DisputeFiled(
                DisputeFiledEvent {
                    dispute_id,
                    plan_id,
                    disputer,
                    reason,
                    filed_at: env.timestamp,
                },
            ),
        );
        Ok(dispute_id)
    }

    /// A dispute.
    pub fn get_dispute(&self, dispute_id: u64) -> (dispute: Option<DisputeRecord>)
        ensures
            match dispute {
                Some(d) => self@.disputes.records.contains_key(dispute_id) && d@
                    == self@.disputes.records[dispute_id],
                None => !self@.disputes.records.contains_key(dispute_id),
            },
    {
        match self.disputes.records.get(dispute_id) {
            Some(dispute) => Some(dispute.duplicate()),
            None => None,
        }
    }

    /// Ids of the disputes over a plan.
    pub fn get_plan_disputes(&self, plan_id: u64) -> (ids: Vec<u64>)
        ensures
            ids@ == list_of(self@.disputes.by_plan, plan_id),
    {
        match self.disputes.by_plan.get(plan_id) {
            Some(ids) => ids.clone(),
            None => Vec::new(),
        }
    }

    /// Review a dispute that is open. A review may freeze the plan.
    pub fn review_dispute(
        &mut self,
        env: &Env,
        arbitrator: Address,
        dispute_id: u64,
        new_status: DisputeStatus,
        resolution_notes: Vec<u8>,
        freeze_plan: bool,
    ) -> (result: Result<(), InheritanceError>)
        requires
            old(self)@.well_formed(),
            !old(self)@.access.paused,
            env.authorized(arbitrator),
        ensures
            ({
                let error = old(self)@.review_error(arbitrator, dispute_id);
                match result {
                    Err(e) => error == Some(e) && final(self)@ == old(self)@,
                    Ok(()) => error is None && final(self)@ == old(self)@.dispute_reviewed(
                        env.timestamp,
                        arbitrator,
                        dispute_id,
                        new_status,
                        resolution_notes@,
                        freeze_plan,
                    ),
                }
            }),
            final(self)@.well_formed(),
    {
        let plan_id: u64 = match self.disputes.records.get(dispute_id) {
            Some(record) => {
                if !list_contains(&self.disputes.arbitrators, &arbitrator) {
                    return Err(InheritanceError::Unauthorized);
                }
                if record.status == DisputeStatus::Resolved || record.status
                    == DisputeStatus::Rejected {
                    return Err(InheritanceError::AlreadyApproved);
                }
                record.plan_id
            },
            None => {
                return Err(InheritanceError::PlanNotFound);
            },
        };
        let now: u64 = env.timestamp;
        let closing: bool = new_status == DisputeStatus::Resolved || new_status
            == DisputeStatus::Rejected;
        let record = self.disputes.records.at_mut(dispute_id);
        record.status = new_status;
        record.resolution_notes = resolution_notes;
        if closing {
            record.resolved_at = now;
        }
        if freeze_plan {
            self.holds.freezes.set(
                plan_id,
                FreezeRecord {
                    plan_id,
                    frozen_at: now,
                    reason: dispute_reason_text(),
                    frozen_by: arbitrator,
                },
            );
            self.publish(
                InheritanceEvent::PlanFrozen(
                    PlanFrozenEvent {
                        plan_id,
                        frozen_by: arbitrator,
                        frozen_at: now,
                        reason: dispute_reason_text(),
                    },
                ),
            );
        }
        if closing {
            self.publish(
                InheritanceEvent::DisputeResolved(
                    DisputeResolvedEvent {
                        dispute_id,
                        plan_id,
                        status: new_status,
                        arbitrator,
                        resolved_at: now,
                    },
                ),
            );
        }
        Ok(())
    }

    /// Unfreeze a plan. Admin-only.
    pub fn unfreeze_plan(&mut self, env: &Env, admin: Address, plan_id: u64) -> (result: Result<
        (),
        InheritanceError,
    >)
        requires
            old(self)@.well_formed(),
            env.authorized(admin),
        ensures
            match result {
                Err(e) => old(self)@.admin_error(admin) == Some(e) && final(self)@ == old(self)@,
                Ok(()) => old(self)@.admin_error(admin) is None && final(self)@ == old(
                    self,
                )@.plan_unfrozen(env.timestamp, plan_id, admin),
            },
            final(self)@.well_formed(),
    {
        match self.require_admin(env, admin) {
            Ok(()) => {},
            Err(e) => {
                return Err(e);
            },
        }
        self.holds.freezes.remove(plan_id);
        self.publish(
            InheritanceEvent::PlanUnfrozen(
                PlanUnfrozenEvent { plan_id, unfrozen_by: admin, unfrozen_at: env.timestamp },
            ),
        );
        Ok(())
    }
}

/// A dispute is filed over a plan that exists, once there is an admin; it is reviewed
/// by an arbitrator, until it was resolved or rejected. The first arbitrator is
/// assigned to it, and the admin where there is none.
pub proof fn law_disputes_are_admitted(
    contract: InheritanceView,
    plan_id: u64,
    arbitrator: Address,
    dispute_id: u64,
)
    ensures
        contract.file_error(plan_id) is None <==> contract.plans.records.contains_key(plan_id)
            && contract.admin is Some,
        contract.review_error(arbitrator, dispute_id) is None <==> {
            &&& contract.disputes.records.contains_key(dispute_id)
            &&& contract.disputes.arbitrators.contains(arbitrator)
            &&& contract.disputes.records[dispute_id].status != DisputeStatus::Resolved
            &&& contract.disputes.records[dispute_id].status != DisputeStatus::Rejected
        },
        contract.disputes.arbitrators.len() > 0 ==> contract.assigned_arbitrator()
            == contract.disputes.arbitrators.first(),
        contract.disputes.arbitrators.len() == 0 && contract.admin is Some
            ==> contract.assigned_arbitrator() == contract.admin->0,
        contract.disputes.arbitrators.contains(arbitrator) ==> contract.arbitrator_added(arbitrator)
            == contract,
        !contract.disputes.arbitrators.contains(arbitrator) ==> contract.arbitrator_added(
            arbitrator,
        ) == (InheritanceView {
            disputes: DisputeBookView {
                arbitrators: contract.disputes.arbitrators.push(arbitrator),
                ..contract.disputes
            },
            ..contract
        }),
{
}

/// A dispute that was filed is on record under the next id and for its plan, with who
/// filed it and why, and open; it is announced, and all else stays.
pub proof fn law_filing_disputes(
    contract: InheritanceView,
    now: u64,
    disputer: Address,
    plan_id: u64,
    reason: Seq<u8>,
)
    requires
        contract.disputes.next_id < 0xffff_ffff_ffff_ffff,
    ensures
        ({
            let id = contract.disputes.next_id;
            let after = contract.dispute_filed(now, disputer, plan_id, reason);
            &&& after.disputes.next_id == id + 1
            &&& after == (InheritanceView {
                disputes: DisputeBookView {
                    next_id: after.disputes.next_id,
                    records: contract.disputes.records.insert(
                        id,
                        DisputeRecordView {
                            dispute_id: id,
                            plan_id,
                            disputer,
                            reason,
                            status: DisputeStatus::Filed,
                            filed_at: now,
                            resolved_at: 0,
                            resolution_notes: Seq::empty(),
                            arbitrator: contract.assigned_arbitrator(),
                        },
                    ),
                    by_plan: contract.disputes.by_plan.insert(
                        plan_id,
                        list_of(contract.disputes.by_plan, plan_id).push(id),
                    ),
                    ..contract.disputes
                },
                events: contract.events.push(
                    InheritanceEventView::DisputeFiled(
                        DisputeFiledEventView {
                            dispute_id: id,
                            plan_id,
                            disputer,
                            reason,
                            filed_at: now,
                        },
                    ),
                ),
                ..contract
            })
        }),
{
}

/// A review sets status and notes, and the time once it closes the dispute, which is
/// then announced. Where the arbitrator wishes, the plan of the dispute is frozen, with
/// the reason "dispute" on record and announced. All else stays.
pub proof fn law_reviewing_disputes(
    contract: InheritanceView,
    now: u64,
    arbitrator: Address,
    dispute_id: u64,
    status: DisputeStatus,
    notes: Seq<u8>,
    freeze: bool,
)
    ensures
        ({
            let record = contract.disputes.records[dispute_id];
            let plan_id = record.plan_id;
            let after = contract.dispute_reviewed(
                now,
                arbitrator,
                dispute_id,
                status,
                notes,
                freeze,
            );
            let closes = status == DisputeStatus::Resolved || status == DisputeStatus::Rejected;
            let reason = seq![100u8, 105u8, 115u8, 112u8, 117u8, 116u8, 101u8];
            let frozen = InheritanceEventView::PlanFrozen(
                PlanFrozenEventView { plan_id, frozen_by: arbitrator, frozen_at: now, reason },
            );
            let resolved = InheritanceEventView::DisputeResolved(
                DisputeResolvedEvent { dispute_id, plan_id, status, arbitrator, resolved_at: now },
            );
            let events = if freeze {
                contract.events.push(frozen)
            } else {
                contract.events
            };
            after == (InheritanceView {
                disputes: DisputeBookView {
                    records: contract.disputes.records.insert(
                        dispute_id,
                        DisputeRecordView {
                            status,
                            resolution_notes: notes,
                            resolved_at: if closes {
                                now
                            } else {
                                record.resolved_at
                            },
                            ..record
                        },
                    ),
                    ..contract.disputes
                },
                holds: HoldBookView {
                    freezes: if freeze {
                        contract.holds.freezes.insert(
                            plan_id,
                            FreezeRecordView {
                                plan_id,
                                frozen_at: now,
                                reason,
                                frozen_by: arbitrator,
                            },
                        )
                    } else {
                        contract.holds.freezes
                    },
                    ..contract.holds
                },
                events: if closes {
                    events.push(resolved)
                } else {
                    events
                },
                ..contract
            })
        }),
{
    reveal_strlit("dispute");
    is_ascii_chars_encode_utf8("dispute"@);
    assert(dispute_reason() =~= seq![100u8, 105u8, 115u8, 112u8, 117u8, 116u8, 101u8]);
}

/// A plan that is unfrozen has no freeze on record any more; it is announced, legal
/// holds stay, and so does all else.
pub proof fn law_unfreezing(contract: InheritanceView, now: u64, plan_id: u64, admin: Address)
    ensures
        contract.plan_unfrozen(now, plan_id, admin) == (InheritanceView {
            holds: HoldBookView {
                freezes: contract.holds.freezes.remove(plan_id),
                ..contract.holds
            },
            events: contract.events.push(
                InheritanceEventView::PlanUnfrozen(
                    PlanUnfrozenEvent { plan_id, unfrozen_by: admin, unfrozen_at: now },
                ),
            ),
            ..contract
        }),
{
}

/// Why a dispute is not filed: every reason that is given holds.
pub proof fn law_reason_file(contract: InheritanceView, plan_id: u64)
    ensures
        match contract.file_error(plan_id) {
            None => true,
            Some(InheritanceError::PlanNotFound) => !contract.plans.records.contains_key(plan_id),
            Some(InheritanceError::AdminNotSet) => contract.admin is None,
            Some(_) => false,
        },
{
}

/// Why a review is refused: every reason that is given holds.
pub proof fn law_reason_review(contract: InheritanceView, arbitrator: Address, dispute_id: u64)
    ensures
        match contract.review_error(arbitrator, dispute_id) {
            None => true,
            Some(InheritanceError::PlanNotFound) =>
                !contract.disputes.records.contains_key(dispute_id),
            Some(InheritanceError::Unauthorized) =>
                !contract.disputes.arbitrators.contains(arbitrator),
            Some(InheritanceError::AlreadyApproved) =>
                is_closed(contract.disputes.records[dispute_id].status),
            Some(_) => false,
        },
{
}

} // verus!
