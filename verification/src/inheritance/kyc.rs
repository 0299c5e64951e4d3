//! Identification of users.
use vstd::prelude::*;

use crate::host::{Address, Env};
use crate::inheritance::beneficiaries::BATCH_LIMIT;
use crate::inheritance::state::{InheritanceContract, InheritanceView};
use crate::inheritance::types::{
    BatchKycApprovedEvent, InheritanceError, InheritanceEvent, InheritanceEventView,
    KycApprovedEvent, KycRejectedEvent, KycStatus,
};
use crate::access::Role;

verus! {

impl InheritanceView {
    /// How far the identification of a user has come.
    pub open spec fn kyc_status(self, user: Address) -> KycStatus {
        if self.kyc.contains_key(user) {
            self.kyc[user]
        } else {
            KycStatus {
                submitted: false,
                approved: false,
                rejected: false,
                submitted_at: 0,
                approved_at: 0,
                rejected_at: 0,
            }
        }
    }

    /// The contract with another status of a user.
    pub open spec fn with_kyc(self, user: Address, status: KycStatus) -> InheritanceView {
        InheritanceView { kyc: self.kyc.insert(user, status), ..self }
    }

    /// Why a user is not approved.
    pub open spec fn approval_error(self, user: Address) -> Option<InheritanceError> {
        if !self.kyc_status(user).submitted {
            Some(InheritanceError::KycNotSubmitted)
        } else if self.kyc_status(user).approved {
            Some(InheritanceError::KycAlreadyApproved)
        } else {
            None
        }
    }

    /// Why an approval is refused.
    pub open spec fn approve_kyc_error(self, admin: Address, user: Address) -> Option<
        InheritanceError,
    > {
        if self.admin_error(admin) is Some {
            self.admin_error(admin)
        } else {
            self.approval_error(user)
        }
    }

    /// The contract after a user was approved.
    pub open spec fn kyc_approved(self, now: u64, user: Address) -> InheritanceView {
        self.with_kyc(
            user,
            KycStatus { approved: true, approved_at: now, ..self.kyc_status(user) },
        ).with_event(
            InheritanceEventView::KycApproved(KycApprovedEvent { user, approved_at: now }),
        )
    }

    /// Why a rejection is refused.
    pub open spec fn reject_kyc_error(self, admin: Address, user: Address) -> Option<
        InheritanceError,
    > {
        if self.admin is None {
            Some(InheritanceError::AdminNotSet)
        } else if self.admin_error(admin) is Some {
            self.admin_error(admin)
        } else if !self.kyc_status(user).submitted {
            Some(InheritanceError::KycNotSubmitted)
        } else if self.kyc_status(user).rejected {
            Some(InheritanceError::KycAlreadyRejected)
        } else {
            None
        }
    }

    /// The contract after a user was rejected.
    pub open spec fn kyc_rejected(self, now: u64, user: Address) -> InheritanceView {
        self.with_kyc(
            user,
            KycStatus { rejected: true, rejected_at: now, ..self.kyc_status(user) },
        ).with_event(
            InheritanceEventView::KycRejected(KycRejectedEvent { user, rejected_at: now }),
        )
    }

    /// The contract after the first `n` users of a batch were approved; one who cannot
    /// be is passed over.
    pub open spec fn users_approved(self, now: u64, users: Seq<Address>, n: int) -> InheritanceView
        decreases n,
    {
        if n <= 0 {
            self
        } else {
            let before = self.users_approved(now, users, n - 1);
            if before.approval_error(users[n - 1]) is None {
                before.kyc_approved(now, users[n - 1])
            } else {
                before
            }
        }
    }

    /// How many of the first `n` users of a batch are approved.
    pub open spec fn approval_count(self, now: u64, users: Seq<Address>, n: int) -> nat
        decreases n,
    {
        if n <= 0 {
            0
        } else {
            let before = self.users_approved(now, users, n - 1);
            self.approval_count(now, users, n - 1) + if before.approval_error(users[n - 1])
                is None {
                1nat
            } else {
                0nat
            }
        }
    }

    /// Why a batch of approvals is refused as a whole.
    pub open spec fn batch_kyc_error(self, admin: Address, count: nat) -> Option<
        InheritanceError,
    > {
        if self.admin_error(admin) is Some {
            self.admin_error(admin)
        } else if count > BATCH_LIMIT {
            Some(InheritanceError::TooManyBeneficiaries)
        } else {
            None
        }
    }

    /// The contract after a batch of approvals.
    pub open spec fn batch_approved(self, now: u64, users: Seq<Address>) -> InheritanceView {
        let n = users.len() as int;
        let count = self.approval_count(now, users, n);
        self.users_approved(now, users, n).with_event(
            InheritanceEventView::BatchKycApproved(
                BatchKycApprovedEvent {
                    success_count: count as u32,
                    fail_count: (n - count) as u32,
                },
            ),
        )
    }
}

/// Only a user who has submitted is ever approved; once approved, they can create plans
/// and claim, and stay approved: neither a submission nor an approval goes through again.
pub proof fn law_approval_follows_submission(contract: InheritanceView, now: u64, user: Address)
    requires
        contract.approval_error(user) is None,
    ensures
        contract.kyc_status(user).submitted,
        contract.kyc_error(user) is Some,
        contract.kyc_approved(now, user).kyc_error(user) is None,
        contract.kyc_approved(now, user).approval_error(user) == Some(
            InheritanceError::KycAlreadyApproved,
        ),
{
}

impl InheritanceContract {
    fn get_kyc_status(&self, user: Address) -> (status: KycStatus)
        ensures
            status == self@.kyc_status(user),
    {
        match self.kyc.get(user) {
            Some(status) => *status,
            None => KycStatus {
                submitted: false,
                approved: false,
                rejected: false,
                submitted_at: 0,
                approved_at: 0,
                rejected_at: 0,
            },
        }
    }

    /// Record KYC submission on-chain (called after off-chain submission).
    pub fn submit_kyc(&mut self, env: &Env, user: Address) -> (result: Result<
        (),
        InheritanceError,
    >)
        requires
            old(self)@.well_formed(),
            env.authorized(user),
        ensures
            match result {
                Err(e) => old(self)@.kyc_status(user).approved && e
                    == InheritanceError::KycAlreadyApproved && final(self)@ == old(self)@,
                Ok(()) => !old(self)@.kyc_status(user).approved && final(self)@ == old(
                    self,
                )@.with_kyc(
                    user,
                    KycStatus {
                        submitted: true,
                        submitted_at: env.timestamp,
                        ..old(self)@.kyc_status(user)
                    },
                ),
            },
            final(self)@.well_formed(),
    {
        let status: KycStatus = self.get_kyc_status(user);
        if status.approved {
            return Err(InheritanceError::KycAlreadyApproved);
        }
        self.kyc.set(
            user,
            KycStatus { submitted: true, submitted_at: env.timestamp, ..status },
        );
        Ok(())
    }

    fn check_approval(&self, user: Address) -> (error: Option<InheritanceError>)
        ensures
            error == self@.approval_error(user),
    {
        let status: KycStatus = self.get_kyc_status(user);
        if !status.submitted {
            Some(InheritanceError::KycNotSubmitted)
        } else if status.approved {
            Some(InheritanceError::KycAlreadyApproved)
        } else {
            None
        }
    }

    fn record_approval(&mut self, env: &Env, user: Address)
        requires
            old(self)@.well_formed(),
        ensures
            final(self)@ == old(self)@.kyc_approved(env.timestamp, user),
            final(self)@.well_formed(),
    {
        let status: KycStatus = self.get_kyc_status(user);
        self.kyc.set(user, KycStatus { approved: true, approved_at: env.timestamp, ..status });
        self.publish(
            InheritanceEvent::KycApproved(KycApprovedEvent { user, approved_at: env.timestamp }),
        );
    }

    /// Approve a user's KYC after off-chain verification (admin-only).
    pub fn approve_kyc(&mut self, env: &Env, admin: Address, user: Address) -> (result: Result<
        (),
        InheritanceError,
    >)
        requires
            old(self)@.well_formed(),
            env.authorized(admin),
        ensures
            ({
                let error = old(self)@.approve_kyc_error(admin, user);
                match result {
                    Err(e) => error == Some(e) && final(self)@ == old(self)@,
                    Ok(()) => error is None && final(self)@ == old(self)@.kyc_approved(
                        env.timestamp,
                        user,
                    ),
                }
            }),
            final(self)@.well_formed(),
    {
        match self.require_admin(env, admin) {
            Ok(()) => {},
            Err(e) => {
                return Err(e);
            },
        }
        match self.check_approval(user) {
            Some(e) => {
                return Err(e);
            },
            None => {},
        }
        self.record_approval(env, user);
        Ok(())
    }

    /// Reject a user's KYC after off-chain review (admin-only).
    pub fn reject_kyc(&mut self, env: &Env, admin: Address, user: Address) -> (result: Result<
        (),
        InheritanceError,
    >)
        requires
            old(self)@.well_formed(),
            env.authorized(admin),
        ensures
            ({
                let error = old(self)@.reject_kyc_error(admin, user);
                match result {
                    Err(e) => error == Some(e) && final(self)@ == old(self)@,
                    Ok(()) => error is None && final(self)@ == old(self)@.kyc_rejected(
                        env.timestamp,
                        user,
                    ),
                }
            }),
            final(self)@.well_formed(),
    {
        if self.admin.is_none() {
            return Err(InheritanceError::AdminNotSet);
        }
        match self.require_admin(env, admin) {
            Ok(()) => {},
            Err(e) => {
                return Err(e);
            },
        }
        let status: KycStatus = self.get_kyc_status(user);
        if !status.submitted {
            return Err(InheritanceError::KycNotSubmitted);
        }
        if status.rejected {
            return Err(InheritanceError::KycAlreadyRejected);
        }
        self.kyc.set(user, KycStatus { rejected: true, rejected_at: env.timestamp, ..status });
        self.publish(
            InheritanceEvent::KycRejected(KycRejectedEvent { user, rejected_at: env.timestamp }),
        );
        Ok(())
    }

    /// Approve several users. One who cannot be approved is counted as a failure and
    /// passed over. Returns how many were approved and how many failed.
    pub fn batch_approve_kyc(&mut self, env: &Env, admin: Address, users: Vec<Address>) -> (result:
        Result<(u32, u32), InheritanceError>)
        requires
            old(self)@.well_formed(),
            env.authorized(admin),
        ensures
            ({
                let error = old(self)@.batch_kyc_error(admin, users@.len());
                let count = old(self)@.approval_count(
                    env.timestamp,
                    users@,
                    users@.len() as int,
                );
                match result {
                    Err(e) => error == Some(e) && final(self)@ == old(self)@,
                    Ok((success, fail)) => error is None && success == count && fail
                        == users@.len() - count && final(self)@ == old(self)@.batch_approved(
                        env.timestamp,
                        users@,
                    ),
                }
            }),
            final(self)@.well_formed(),
    {
        match self.require_admin(env, admin) {
            Ok(()) => {},
            Err(e) => {
                return Err(e);
            },
        }
        if users.len() > BATCH_LIMIT {
            return Err(InheritanceError::TooManyBeneficiaries);
        }
        let ghost start = self@;
        let mut success: u32 = 0;
        let mut fail: u32 = 0;
        let mut i: usize = 0;
        while i < users.len()
            invariant
                i <= users@.len() <= BATCH_LIMIT,
                self@ == start.users_approved(env.timestamp, users@, i as int),
                self@.well_formed(),
                success == start.approval_count(env.timestamp, users@, i as int),
                success + fail == i,
            decreases users@.len() - i,
        {
            let user: Address = users[i];
            if self.check_approval(user).is_none() {
                self.record_approval(env, user);
                success += 1;
            } else {
                fail += 1;
            }
            i += 1;
        }
        self.publish(
            InheritanceEvent::BatchKycApproved(
                BatchKycApprovedEvent { success_count: success, fail_count: fail },
            ),
        );
        Ok((success, fail))
    }
}

/// Only admins approve and reject. A user is approved once, and rejected once, after
/// they submitted. A batch holds at most twenty users.
pub proof fn law_identification_is_for_admins(
    contract: InheritanceView,
    admin: Address,
    user: Address,
    count: nat,
)
    ensures
        ({
            let is_admin = contract.access.has(admin, Role::Admin);
            let known = contract.kyc.contains_key(user);
            let status = contract.kyc[user];
            &&& contract.approve_kyc_error(admin, user) is None <==> is_admin && known
                && status.submitted && !status.approved
            &&& contract.reject_kyc_error(admin, user) is None <==> contract.admin is Some
                && is_admin && known && status.submitted && !status.rejected
            &&& contract.batch_kyc_error(admin, count) is None <==> is_admin && count <= 20
        }),
{
}

/// An approval and a rejection are on record with their time, and announced; all else
/// stays, in particular what other users are.
pub proof fn law_identifying(contract: InheritanceView, now: u64, user: Address)
    requires
        contract.kyc.contains_key(user),
    ensures
        contract.kyc_approved(now, user) == (InheritanceView {
            kyc: contract.kyc.insert(
                user,
                KycStatus { approved: true, approved_at: now, ..contract.kyc[user] },
            ),
            events: contract.events.push(
                InheritanceEventView::KycApproved(KycApprovedEvent { user, approved_at: now }),
            ),
            ..contract
        }),
        contract.kyc_rejected(now, user) == (InheritanceView {
            kyc: contract.kyc.insert(
                user,
                KycStatus { rejected: true, rejected_at: now, ..contract.kyc[user] },
            ),
            events: contract.events.push(
                InheritanceEventView::KycRejected(KycRejectedEvent { user, rejected_at: now }),
            ),
            ..contract
        }),
{
}

/// A user nobody heard of has neither submitted nor been approved nor rejected; the
/// status of another user is what is on file.
pub proof fn law_kyc_status(contract: InheritanceView, user: Address, status: KycStatus)
    ensures
        contract.kyc.contains_key(user) ==> contract.kyc_status(user) == contract.kyc[user],
        !contract.kyc.contains_key(user) ==> {
            let none = contract.kyc_status(user);
            &&& !none.submitted
            &&& !none.approved
            &&& !none.rejected
            &&& none.submitted_at == 0
            &&& none.approved_at == 0
            &&& none.rejected_at == 0
        },
        contract.with_kyc(user, status) == (InheritanceView {
            kyc: contract.kyc.insert(user, status),
            ..contract
        }),
{
}

/// A batch approves its users one after the other, and passes over those who cannot be;
/// what is announced at the end is how many were approved, and how many not.
pub proof fn law_approval_batches(
    contract: InheritanceView,
    now: u64,
    users: Seq<Address>,
    n: int,
)
    requires
        0 <= n < users.len() <= 20,
    ensures
        ({
            let before = contract.users_approved(now, users, n);
            let after = contract.users_approved(now, users, n + 1);
            let count = contract.approval_count(now, users, n);
            let count_after = contract.approval_count(now, users, n + 1);
            let status = before.kyc[users[n]];
            let fits = before.kyc.contains_key(users[n]) && status.submitted && !status.approved;
            &&& contract.users_approved(now, users, 0) == contract
            &&& contract.approval_count(now, users, 0) == 0
            &&& fits ==> after == before.kyc_approved(now, users[n]) && count_after == count + 1
            &&& !fits ==> after == before && count_after == count
        }),
        ({
            let all = users.len() as int;
            let after = contract.batch_approved(now, users);
            let last = contract.users_approved(now, users, all);
            &&& after == (InheritanceView { events: after.events, ..last })
            &&& after.events.drop_last() == last.events
            &&& after.events.len() == last.events.len() + 1
            &&& {
                &&& after.events.last() matches InheritanceEventView::BatchKycApproved(event)
                &&& event.success_count == contract.approval_count(now, users, all)
                &&& event.success_count + event.fail_count == all
            }
        }),
{
    let all = users.len() as int;
    lemma_few_approvals(contract, now, users, all);
    let after = contract.batch_approved(now, users);
    assert(after.events.drop_last() =~= contract.users_approved(now, users, all).events);
}

/// At most as many users are approved as were named.
proof fn lemma_few_approvals(contract: InheritanceView, now: u64, users: Seq<Address>, n: int)
    requires
        0 <= n,
    ensures
        contract.approval_count(now, users, n) <= n,
    decreases n,
{
    if n > 0 {
        lemma_few_approvals(contract, now, users, n - 1);
    }
}

/// Why a user is not approved: every reason that is given holds.
pub proof fn law_reason_approval(contract: InheritanceView, user: Address)
    ensures
        match contract.approval_error(user) {
            None => true,
            Some(InheritanceError::KycNotSubmitted) => !contract.kyc_status(user).submitted,
            Some(InheritanceError::KycAlreadyApproved) => contract.kyc_status(user).approved,
            Some(_) => false,
        },
{
}

/// Why a rejection is refused: every reason that is given holds.
pub proof fn law_reason_reject_kyc(contract: InheritanceView, admin: Address, user: Address)
    ensures
        match contract.reject_kyc_error(admin, user) {
            None => true,
            Some(InheritanceError::AdminNotSet) => contract.admin is None,
            Some(InheritanceError::KycNotSubmitted) => !contract.kyc_status(user).submitted,
            Some(InheritanceError::KycAlreadyRejected) => contract.kyc_status(user).rejected,
            Some(error) => contract.admin_error(admin) == Some(error),
        },
{
}

/// Why a batch of approvals is refused as a whole: every reason that is given holds.
pub proof fn law_reason_batch_kyc(contract: InheritanceView, admin: Address, count: nat)
    ensures
        match contract.batch_kyc_error(admin, count) {
            None => true,
            Some(InheritanceError::TooManyBeneficiaries) => count > BATCH_LIMIT,
            Some(error) => contract.admin_error(admin) == Some(error),
        },
{
}

} // verus!
