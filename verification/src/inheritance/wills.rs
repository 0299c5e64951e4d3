//! Wills: hashes, versions, signatures, witnesses and finalization.
use vstd::prelude::*;
use vstd::seq_lib::{group_to_multiset_ensures, lemma_multiset_commutative, to_multiset_contains};

use crate::host::{Address, Env};
use crate::inheritance::hashing::{
    hash_data, hash_of, hash_signed_will, id_and_digest, lemma_id_and_digest, sha256_digest,
    signed_will_hash, Digest,
};
use crate::inheritance::state::{
    list_of, version_count, versions_numbered, InheritanceContract, InheritanceView, WillBookView,
};
use crate::inheritance::types::{
    BeneficiariesVerifiedEvent, BeneficiaryView, InheritanceError, InheritanceEvent,
    InheritanceEventView, InheritancePlan, WillFinalizedEvent, WillHashStoredEvent,
    WillLinkedToVaultEvent, WillSignatureProof, WillSignedEvent, WillVersionActivatedEvent,
    WillVersionCreatedEvent, WillVersionInfo, WitnessAddedEvent, WitnessSignedEvent,
};
use crate::list::{list_contains, list_position};
use crate::table::Key;

verus! {

/// A beneficiary as a will names them: the hash of their email, and their allocation
/// in basis points.
#[derive(Clone, Copy, Debug, PartialEq, Eq)]
pub struct WillBeneficiary {
    pub hashed_email: Digest,
    pub allocation_bp: u32,
}

impl Key for WillBeneficiary {
    fn same(&self, other: &Self) -> (equal: bool) {
        self.hashed_email.same(&other.hashed_email) && self.allocation_bp == other.allocation_bp
    }
}

/// The beneficiaries of a plan as a will would name them.
pub open spec fn named_beneficiaries(beneficiaries: Seq<BeneficiaryView>) -> Seq<WillBeneficiary> {
    Seq::new(
        beneficiaries.len(),
        |i: int|
            WillBeneficiary {
                hashed_email: beneficiaries[i].hashed_email,
                allocation_bp: beneficiaries[i].allocation_bp,
            },
    )
}

/// A will names the beneficiaries of the plan, each as often as the plan has them and
/// with the plan's allocation, in whatever order.
pub open spec fn will_matches(
    beneficiaries: Seq<BeneficiaryView>,
    will_beneficiaries: Seq<WillBeneficiary>,
) -> bool {
    will_beneficiaries.to_multiset() == named_beneficiaries(beneficiaries).to_multiset()
}

impl InheritanceView {
    /// The contract with other wills.
    pub open spec fn with_wills(self, wills: WillBookView) -> InheritanceView {
        InheritanceView { wills, ..self }
    }

    /// A version of a will is finalized.
    pub open spec fn will_finalized(self, vault_id: u64, version: u32) -> bool {
        self.wills.finalized.contains_key((vault_id, version)) && self.wills.finalized[(
            vault_id,
            version,
        )]
    }

    /// A signature was used before.
    pub open spec fn signature_used(self, signature: Seq<u8>) -> bool {
        let key = hash_of(signature);
        self.wills.used_signatures.contains_key(key) && self.wills.used_signatures[key]
    }

    /// Why a hash is not stored.
    pub open spec fn store_hash_error(self, owner: Address, plan_id: u64) -> Option<
        InheritanceError,
    > {
        if self.owner_error(plan_id, owner) is Some {
            self.owner_error(plan_id, owner)
        } else if self.wills.hashes.contains_key(plan_id) {
            Some(InheritanceError::WillHashAlreadyStored)
        } else {
            None
        }
    }

    /// Why a will is not linked.
    pub open spec fn link_will_error(self, owner: Address, plan_id: u64) -> Option<
        InheritanceError,
    > {
        if !self.plans.records.contains_key(plan_id) {
            Some(InheritanceError::VaultNotFound)
        } else if self.plans.records[plan_id].owner != owner {
            Some(InheritanceError::Unauthorized)
        } else if self.wills.linked.contains_key(plan_id) {
            Some(InheritanceError::WillAlreadyLinked)
        } else {
            None
        }
    }

    /// Why no new version of a will is created.
    pub open spec fn new_version_error(self, owner: Address, plan_id: u64) -> Option<
        InheritanceError,
    > {
        if self.owner_error(plan_id, owner) is Some {
            self.owner_error(plan_id, owner)
        } else if self.wills.active.contains_key(plan_id) && self.will_finalized(
            plan_id,
            self.wills.active[plan_id],
        ) {
            Some(InheritanceError::WillAlreadyFinalized)
        } else {
            None
        }
    }

    /// The wills after a new version was created: it is the active one, and linked to
    /// the vault.
    pub open spec fn version_added(self, now: u64, plan_id: u64, will_hash: Digest)
        -> WillBookView {
        let version = (version_count(self.wills, plan_id) + 1) as u32;
        let retired = if self.wills.active.contains_key(plan_id) {
            let key = (plan_id, self.wills.active[plan_id]);
            self.wills.versions.insert(
                key,
                WillVersionInfo { is_active: false, ..self.wills.versions[key] },
            )
        } else {
            self.wills.versions
        };
        WillBookView {
            version_counts: self.wills.version_counts.insert(plan_id, version),
            versions: retired.insert(
                (plan_id, version),
                WillVersionInfo { version, will_hash, created_at: now, is_active: true },
            ),
            active: self.wills.active.insert(plan_id, version),
            linked: self.wills.linked.insert(plan_id, will_hash),
            ..self.wills
        }
    }

    /// The contract after a new version of a will was created.
    pub open spec fn version_created(self, now: u64, plan_id: u64, will_hash: Digest)
        -> InheritanceView {
        let version = (version_count(self.wills, plan_id) + 1) as u32;
        self.with_wills(self.version_added(now, plan_id, will_hash)).with_event(
            InheritanceEventView::WillVersionCreated(WillVersionCreatedEvent { plan_id, version }),
        ).with_event(
            InheritanceEventView::WillVersionActivated(
                WillVersionActivatedEvent { plan_id, version },
            ),
        )
    }

    /// Why the signature of an owner is refused.
    pub open spec fn sign_error(
        self,
        now: u64,
        owner: Address,
        vault_id: u64,
        signature: Seq<u8>,
        expires_at: u64,
    ) -> Option<InheritanceError> {
        if self.owner_error(vault_id, owner) is Some {
            self.owner_error(vault_id, owner)
        } else if now > expires_at {
            Some(InheritanceError::Unauthorized)
        } else if self.signature_used(signature) {
            Some(InheritanceError::WillAlreadyFinalized)
        } else {
            None
        }
    }

    /// The contract after its owner signed a will.
    pub open spec fn will_signed(
        self,
        now: u64,
        owner: Address,
        vault_id: u64,
        will_hash: Digest,
        signature: Seq<u8>,
    ) -> InheritanceView {
        self.with_wills(
            WillBookView {
                used_signatures: self.wills.used_signatures.insert(hash_of(signature), true),
                signatures: self.wills.signatures.insert(
                    vault_id,
                    WillSignatureProof {
                        vault_id,
                        will_hash,
                        signer: owner,
                        sig_hash: signed_will_hash(vault_id, will_hash),
                        signed_at: now,
                    },
                ),
                ..self.wills
            },
        ).with_event(
            InheritanceEventView::WillSigned(WillSignedEvent { vault_id, signer: owner }),
        )
    }

    /// Every assigned witness has signed.
    pub open spec fn witnesses_signed(self, vault_id: u64) -> bool {
        let witnesses = list_of(self.wills.witnesses, vault_id);
        forall|i: int|
            0 <= i < witnesses.len() ==> self.wills.witness_signatures.contains_key(
                (vault_id, #[trigger] witnesses[i]),
            )
    }

    /// Why a will is not finalized.
    pub open spec fn finalize_error(self, owner: Address, vault_id: u64, version: u32) -> Option<
        InheritanceError,
    > {
        if self.owner_error(vault_id, owner) is Some {
            self.owner_error(vault_id, owner)
        } else if !self.wills.versions.contains_key((vault_id, version)) {
            Some(InheritanceError::WillVersionNotFound)
        } else if self.will_finalized(vault_id, version) {
            Some(InheritanceError::WillAlreadyFinalized)
        } else if !self.wills.signatures.contains_key(vault_id) {
            Some(InheritanceError::WillVersionNotFound)
        } else if !self.witnesses_signed(vault_id) {
            Some(InheritanceError::MissingRequiredField)
        } else {
            None
        }
    }

    /// The contract after a version of a will was finalized.
    pub open spec fn finalized(self, now: u64, vault_id: u64, version: u32) -> InheritanceView {
        self.with_wills(
            WillBookView {
                finalized: self.wills.finalized.insert((vault_id, version), true),
                finalized_at: self.wills.finalized_at.insert((vault_id, version), now),
                ..self.wills
            },
        ).with_event(
            InheritanceEventView::WillFinalized(
                WillFinalizedEvent { vault_id, version, finalized_at: now },
            ),
        )
    }

    /// Why a witness is not added.
    pub open spec fn add_witness_error(self, owner: Address, vault_id: u64, witness: Address)
        -> Option<InheritanceError> {
        if self.owner_error(vault_id, owner) is Some {
            self.owner_error(vault_id, owner)
        } else if list_of(self.wills.witnesses, vault_id).contains(witness) {
            Some(InheritanceError::EmergencyContactAlreadyExists)
        } else {
            None
        }
    }

    /// The contract after a witness was added.
    pub open spec fn witness_added(self, vault_id: u64, witness: Address) -> InheritanceView {
        self.with_wills(
            WillBookView {
                witnesses: self.wills.witnesses.insert(
                    vault_id,
                    list_of(self.wills.witnesses, vault_id).push(witness),
                ),
                ..self.wills
            },
        ).with_event(InheritanceEventView::WitnessAdded(WitnessAddedEvent { vault_id, witness }))
    }

    /// Why the signature of a witness is refused.
    pub open spec fn witness_error(
        self,
        now: u64,
        witness: Address,
        vault_id: u64,
        signature: Seq<u8>,
        expires_at: u64,
    ) -> Option<InheritanceError> {
        if !self.plans.records.contains_key(vault_id) {
            Some(InheritanceError::PlanNotFound)
        } else if !list_of(self.wills.witnesses, vault_id).contains(witness) {
            Some(InheritanceError::EmergencyContactNotFound)
        } else if now > expires_at {
            Some(InheritanceError::Unauthorized)
        } else if self.signature_used(signature) {
            Some(InheritanceError::AlreadyApproved)
        } else if self.wills.witness_signatures.contains_key((vault_id, witness)) {
            Some(InheritanceError::AlreadyApproved)
        } else {
            None
        }
    }

    /// The contract after a witness signed.
    pub open spec fn witness_signed(
        self,
        now: u64,
        witness: Address,
        vault_id: u64,
        signature: Seq<u8>,
    ) -> InheritanceView {
        self.with_wills(
            WillBookView {
                used_signatures: self.wills.used_signatures.insert(hash_of(signature), true),
                witness_signatures: self.wills.witness_signatures.insert((vault_id, witness), now),
                ..self.wills
            },
        ).with_event(InheritanceEventView::WitnessSigned(WitnessSignedEvent { vault_id, witness }))
    }
}

/// Using up an entry that a will names moves it from what is left to what was named.
proof fn lemma_entry_used(
    stated: Seq<WillBeneficiary>,
    left: Seq<WillBeneficiary>,
    i: int,
    at: int,
)
    requires
        0 <= i < stated.len(),
        0 <= at < left.len(),
        left[at] == stated[i],
    ensures
        stated.take(i).to_multiset().add(left.to_multiset()) == stated.take(
            i + 1,
        ).to_multiset().add(left.remove(at).to_multiset()),
{
    broadcast use group_to_multiset_ensures;

    assert(stated.take(i + 1) =~= stated.take(i).push(stated[i]));
    assert(left.contains(left[at]));
    assert(stated.take(i).to_multiset().add(left.to_multiset()) =~= stated.take(
        i + 1,
    ).to_multiset().add(left.remove(at).to_multiset()));
}

/// A will that names an entry of which none is left does not match.
proof fn lemma_entry_missing(stated: Seq<WillBeneficiary>, left: Seq<WillBeneficiary>, i: int)
    requires
        0 <= i < stated.len(),
        !left.contains(stated[i]),
    ensures
        stated.take(i).to_multiset().add(left.to_multiset()) != stated.to_multiset(),
{
    broadcast use group_to_multiset_ensures;

    let rest = stated.skip(i + 1);
    assert(stated.take(i + 1) =~= stated.take(i).push(stated[i]));
    assert(stated =~= stated.take(i + 1) + rest);
    lemma_multiset_commutative(stated.take(i + 1), rest);
    assert(stated.to_multiset().count(stated[i]) > stated.take(i).to_multiset().add(
        left.to_multiset(),
    ).count(stated[i]));
}

/// What a will has to name is what the plan has: a will that matches names nobody more
/// or less often than the plan lists them.
pub proof fn law_matching_will_names_everybody(
    beneficiaries: Seq<BeneficiaryView>,
    will_beneficiaries: Seq<WillBeneficiary>,
    someone: WillBeneficiary,
)
    requires
        will_matches(beneficiaries, will_beneficiaries),
    ensures
        will_beneficiaries.len() == beneficiaries.len(),
        will_beneficiaries.contains(someone) <==> named_beneficiaries(beneficiaries).contains(
            someone,
        ),
        will_beneficiaries.to_multiset().count(someone) == named_beneficiaries(
            beneficiaries,
        ).to_multiset().count(someone),
{
    broadcast use group_to_multiset_ensures;

    let named = named_beneficiaries(beneficiaries);
    assert(will_beneficiaries.to_multiset().len() == named.to_multiset().len());
    to_multiset_contains(will_beneficiaries, someone);
    to_multiset_contains(named, someone);
}

/// A finalized will is permanent: while the latest version is finalized, no version can
/// be added, and the version cannot be finalized again.
pub proof fn law_finalized_will_is_locked(
    contract: InheritanceView,
    now: u64,
    owner: Address,
    vault_id: u64,
    version: u32,
)
    requires
        contract.well_formed(),
        contract.finalize_error(owner, vault_id, version) is None,
        version == version_count(contract.wills, vault_id),
    ensures
        ({
            let after = contract.finalized(now, vault_id, version);
            &&& after.new_version_error(owner, vault_id) == Some(
                InheritanceError::WillAlreadyFinalized,
            )
            &&& after.finalize_error(owner, vault_id, version) == Some(
                InheritanceError::WillAlreadyFinalized,
            )
        }),
{
    reveal(versions_numbered);
    assert(contract.wills.versions.contains_key((vault_id, version)));
    assert(contract.wills.active.contains_key(vault_id));
}

/// A signature is good once: after it was used, by the owner or a witness, on whatever
/// vault, it is refused.
pub proof fn law_signatures_are_used_once(
    contract: InheritanceView,
    now: u64,
    signer: Address,
    vault_id: u64,
    will_hash: Digest,
    signature: Seq<u8>,
    later: u64,
    other: Address,
    other_vault: u64,
    expires_at: u64,
)
    ensures
        ({
            let signed = contract.will_signed(now, signer, vault_id, will_hash, signature);
            &&& signed.sign_error(later, other, other_vault, signature, expires_at) is Some
            &&& signed.witness_error(later, other, other_vault, signature, expires_at) is Some
        }),
        ({
            let signed = contract.witness_signed(now, signer, vault_id, signature);
            &&& signed.sign_error(later, other, other_vault, signature, expires_at) is Some
            &&& signed.witness_error(later, other, other_vault, signature, expires_at) is Some
        }),
{
}

/// The hash in the proof of a signature is bound to one will of one vault: signing the
/// same will of the same vault gives the same hash; another vault or another will gives
/// another one, unless SHA-256 collides on the two.
pub proof fn law_signature_is_bound_to_the_will(
    contract: InheritanceView,
    now: u64,
    owner: Address,
    vault_id: u64,
    will_hash: Digest,
    signature: Seq<u8>,
    other_contract: InheritanceView,
    later: u64,
    other_owner: Address,
    other_vault: u64,
    other_will: Digest,
    other_signature: Seq<u8>,
)
    requires
        sha256_digest(id_and_digest(vault_id, will_hash)) == sha256_digest(
            id_and_digest(other_vault, other_will),
        ) ==> id_and_digest(vault_id, will_hash) == id_and_digest(other_vault, other_will),
    ensures
        ({
            let one = contract.will_signed(now, owner, vault_id, will_hash, signature);
            let two = other_contract.will_signed(
                later,
                other_owner,
                other_vault,
                other_will,
                other_signature,
            );
            one.wills.signatures[vault_id].sig_hash == two.wills.signatures[other_vault].sig_hash
                <==> vault_id == other_vault && will_hash == other_will
        }),
{
    if id_and_digest(vault_id, will_hash) == id_and_digest(other_vault, other_will) {
        lemma_id_and_digest(vault_id, will_hash, other_vault, other_will);
    }
}

/// A new version of a will is the active one and the one that is linked to the vault;
/// the version that was active is no longer, and keeps its text.
pub proof fn law_new_version_is_active(
    contract: InheritanceView,
    now: u64,
    plan_id: u64,
    will_hash: Digest,
)
    requires
        contract.well_formed(),
        version_count(contract.wills, plan_id) < u32::MAX,
    ensures
        ({
            let count = version_count(contract.wills, plan_id);
            let after = contract.version_created(now, plan_id, will_hash).wills;
            let key = (plan_id, (count + 1) as u32);
            &&& after.active[plan_id] == count + 1
            &&& after.versions[key].is_active
            &&& after.versions[key].will_hash == will_hash
            &&& after.linked[plan_id] == will_hash
            &&& count > 0 ==> !after.versions[(plan_id, count)].is_active
                && after.versions[(plan_id, count)].will_hash == contract.wills.versions[(
                plan_id,
                count,
            )].will_hash
        }),
{
    reveal(versions_numbered);
    let count = version_count(contract.wills, plan_id);
    if count > 0 {
        assert(contract.wills.active.contains_key(plan_id));
    }
}

/// A will is finalized only when all its witnesses have signed.
pub proof fn law_finalizing_needs_witnesses(
    contract: InheritanceView,
    owner: Address,
    vault_id: u64,
    version: u32,
    witness: Address,
)
    requires
        contract.finalize_error(owner, vault_id, version) is None,
        list_of(contract.wills.witnesses, vault_id).contains(witness),
    ensures
        contract.wills.witness_signatures.contains_key((vault_id, witness)),
        contract.wills.signatures.contains_key(vault_id),
{
    let witnesses = list_of(contract.wills.witnesses, vault_id);
    let i = choose|i: int| 0 <= i < witnesses.len() && witnesses[i] == witness;
    assert(contract.wills.witness_signatures.contains_key((vault_id, witnesses[i])));
}

proof fn lemma_version_added(contract: InheritanceView, now: u64, plan_id: u64, will_hash: Digest)
    requires
        contract.well_formed(),
        version_count(contract.wills, plan_id) < u32::MAX,
    ensures
        versions_numbered(contract.version_added(now, plan_id, will_hash)),
        contract.wills.active.contains_key(plan_id) ==> contract.wills.versions.contains_key(
            (plan_id, contract.wills.active[plan_id]),
        ),
{
    reveal(versions_numbered);
    let before = contract.wills;
    let after = contract.version_added(now, plan_id, will_hash);
    if before.active.contains_key(plan_id) {
        assert(before.versions.contains_key((plan_id, before.active[plan_id])));
    }
    assert forall|id: u64, version: u32| #[trigger]
        after.versions.contains_key((id, version)) <==> 1 <= version <= version_count(
            after,
            id,
        ) by {
        assert(before.versions.contains_key((id, version)) <==> 1 <= version <= version_count(
            before,
            id,
        ));
    }
    assert forall|id: u64, version: u32| #[trigger]
        after.versions.contains_key((id, version)) implies after.versions[(id, version)].version
        == version && (after.versions[(id, version)].is_active <==> version == version_count(
        after,
        id,
    )) by {
        assert(before.versions.contains_key((id, version)) ==> before.versions[(
            id,
            version,
        )].version == version && (before.versions[(id, version)].is_active <==> version
            == version_count(before, id)));
        assert(before.versions.contains_key((id, version)) <==> 1 <= version <= version_count(
            before,
            id,
        ));
    }
    assert forall|id: u64| #[trigger]
        after.active.contains_key(id) <==> version_count(after, id) > 0 by {
        assert(before.active.contains_key(id) <==> version_count(before, id) > 0);
    }
    assert forall|id: u64| #[trigger] after.active.contains_key(id) implies after.active[id]
        == version_count(after, id) by {
        assert(before.active.contains_key(id) ==> before.active[id] == version_count(before, id));
    }
}

/// A change of the wills that leaves versions alone keeps the contract well formed.
proof fn lemma_wills_update(contract: InheritanceView, wills: WillBookView)
    requires
        contract.well_formed(),
        wills.versions == contract.wills.versions,
        wills.version_counts == contract.wills.version_counts,
        wills.active == contract.wills.active,
    ensures
        contract.with_wills(wills).well_formed(),
{
    reveal(versions_numbered);
    assert forall|id: u64| version_count(wills, id) == #[trigger] version_count(
        contract.wills,
        id,
    ) by {}
    assert forall|id: u64, version: u32| #[trigger]
        wills.versions.contains_key((id, version)) <==> 1 <= version <= version_count(
            wills,
            id,
        ) by {
        assert(contract.wills.versions.contains_key((id, version)) <==> 1 <= version
            <= version_count(contract.wills, id));
    }
}

impl InheritanceContract {
    /// Store a SHA-256 hash of a will document on-chain, mapped to a plan.
    pub fn store_will_hash(&mut self, env: &Env, owner: Address, plan_id: u64, will_hash: Digest)
        -> (result: Result<(), InheritanceError>)
        requires
            old(self)@.well_formed(),
            env.authorized(owner),
        ensures
            ({
                let error = old(self)@.store_hash_error(owner, plan_id);
                match result {
                    Err(e) => error == Some(e) && final(self)@ == old(self)@,
                    Ok(()) => error is None && final(self)@ == old(self)@.with_wills(
                        WillBookView {
                            hashes: old(self)@.wills.hashes.insert(plan_id, will_hash),
                            ..old(self)@.wills
                        },
                    ).with_event(
                        InheritanceEventView::WillHashStored(
                            WillHashStoredEvent { plan_id, will_hash },
                        ),
                    ),
                }
            }),
            final(self)@.well_formed(),
    {
        match self.require_owner(plan_id, owner) {
            Ok(_) => {},
            Err(e) => {
                return Err(e);
            },
        }
        if self.wills.hashes.contains(plan_id) {
            return Err(InheritanceError::WillHashAlreadyStored);
        }
        let ghost before = self@;
        self.wills.hashes.set(plan_id, will_hash);
        proof {
            lemma_wills_update(before, self@.wills);
        }
        self.publish(
            InheritanceEvent::WillHashStored(WillHashStoredEvent { plan_id, will_hash }),
        );
        Ok(())
    }

    /// Retrieve the stored will hash for a plan.
    pub fn get_will_hash(&self, plan_id: u64) -> (will_hash: Option<Digest>)
        ensures
            will_hash == (if self@.wills.hashes.contains_key(plan_id) {
                Some(self@.wills.hashes[plan_id])
            } else {
                None
            }),
    {
        match self.wills.hashes.get(plan_id) {
            Some(will_hash) => Some(*will_hash),
            None => None,
        }
    }

    /// Link a will document hash to a vault (plan). A link is not replaced, except by
    /// a new version of the will.
    pub fn link_will_to_vault(&mut self, env: &Env, owner: Address, plan_id: u64, will_hash: Digest)
        -> (result: Result<(), InheritanceError>)
        requires
            old(self)@.well_formed(),
            env.authorized(owner),
        ensures
            ({
                let error = old(self)@.link_will_error(owner, plan_id);
                match result {
                    Err(e) => error == Some(e) && final(self)@ == old(self)@,
                    Ok(()) => error is None && final(self)@ == old(self)@.with_wills(
                        WillBookView {
                            linked: old(self)@.wills.linked.insert(plan_id, will_hash),
                            ..old(self)@.wills
                        },
                    ).with_event(
                        InheritanceEventView::WillLinkedToVault(
                            WillLinkedToVaultEvent { plan_id, will_hash },
                        ),
                    ),
                }
            }),
            final(self)@.well_formed(),
    {
        match self.require_owner(plan_id, owner) {
            Ok(_) => {},
            Err(e) => {
                if e == InheritanceError::PlanNotFound {
                    return Err(InheritanceError::VaultNotFound);
                }
                return Err(e);
            },
        }
        if self.wills.linked.contains(plan_id) {
            return Err(InheritanceError::WillAlreadyLinked);
        }
        let ghost before = self@;
        self.wills.linked.set(plan_id, will_hash);
        proof {
            lemma_wills_update(before, self@.wills);
        }
        self.publish(
            InheritanceEvent::WillLinkedToVault(WillLinkedToVaultEvent { plan_id, will_hash }),
        );
        Ok(())
    }

    /// Retrieve the will hash linked to a vault.
    pub fn get_vault_will(&self, plan_id: u64) -> (will_hash: Option<Digest>)
        ensures
            will_hash == (if self@.wills.linked.contains_key(plan_id) {
                Some(self@.wills.linked[plan_id])
            } else {
                None
            }),
    {
        match self.wills.linked.get(plan_id) {
            Some(will_hash) => Some(*will_hash),
            None => None,
        }
    }

    fn name_beneficiaries(plan: &InheritancePlan) -> (named: Vec<WillBeneficiary>)
        ensures
            named@ == named_beneficiaries(plan@.beneficiaries),
    {
        let mut named: Vec<WillBeneficiary> = Vec::new();
        let mut i: usize = 0;
        while i < plan.beneficiaries.len()
            invariant
                i <= plan@.beneficiaries.len(),
                named@ == named_beneficiaries(plan@.beneficiaries).take(i as int),
            decreases plan@.beneficiaries.len() - i,
        {
            let beneficiary = plan.beneficiaries.get(i);
            named.push(
                WillBeneficiary {
                    hashed_email: beneficiary.hashed_email,
                    allocation_bp: beneficiary.allocation_bp,
                },
            );
            i += 1;
        }
        named
    }

    fn is_will_matching(plan: &InheritancePlan, will_beneficiaries: &Vec<WillBeneficiary>) -> (
    matching: bool)
        ensures
            matching == will_matches(plan@.beneficiaries, will_beneficiaries@),
    {
        let mut left: Vec<WillBeneficiary> = Self::name_beneficiaries(plan);
        let ghost named = left@;
        let ghost stated = will_beneficiaries@;
        proof {
            broadcast use group_to_multiset_ensures;

            assert(stated.take(0) =~= Seq::<WillBeneficiary>::empty());
            assert(stated.take(0).to_multiset().add(left@.to_multiset()) =~= named.to_multiset());
        }
        if will_beneficiaries.len() != left.len() {
            proof {
                broadcast use group_to_multiset_ensures;

                assert(stated.to_multiset().len() != named.to_multiset().len());
            }
            return false;
        }
        let mut i: usize = 0;
        while i < will_beneficiaries.len()
            invariant
                i <= stated.len(),
                stated == will_beneficiaries@,
                left@.len() == stated.len() - i,
                named == named_beneficiaries(plan@.beneficiaries),
                named.to_multiset() == stated.take(i as int).to_multiset().add(
                    left@.to_multiset(),
                ),
            decreases stated.len() - i,
        {
            let ghost before = left@;
            match list_position(&left, &will_beneficiaries[i]) {
                Some(at) => {
                    proof {
                        lemma_entry_used(stated, before, i as int, at as int);
                    }
                    left.remove(at);
                },
                None => {
                    proof {
                        lemma_entry_missing(stated, before, i as int);
                    }
                    return false;
                },
            }
            i += 1;
        }
        proof {
            broadcast use group_to_multiset_ensures;

            assert(stated.take(i as int) =~= stated);
            assert(left@ =~= Seq::<WillBeneficiary>::empty());
            assert(stated.to_multiset().add(left@.to_multiset()) =~= stated.to_multiset());
        }
        true
    }

    /// Verify that the beneficiaries in a will document match those stored in the
    /// plan, and record the outcome. Takes a list of pairs of hashed email and
    /// allocation, which is compared with the plan's.
    pub fn verify_beneficiaries(&mut self, plan_id: u64, will_beneficiaries: Vec<WillBeneficiary>)
        -> (result: Result<bool, InheritanceError>)
        requires
            old(self)@.well_formed(),
        ensures
            match result {
                Err(e) => !old(self)@.plans.records.contains_key(plan_id) && e
                    == InheritanceError::PlanNotFound && final(self)@ == old(self)@,
                Ok(status) => old(self)@.plans.records.contains_key(plan_id) && status
                    == will_matches(
                    old(self)@.plans.records[plan_id].beneficiaries,
                    will_beneficiaries@,
                ) && final(self)@ == old(self)@.with_wills(
                    WillBookView {
                        verified: old(self)@.wills.verified.insert(plan_id, status),
                        ..old(self)@.wills
                    },
                ).with_event(
                    InheritanceEventView::BeneficiariesVerified(
                        BeneficiariesVerifiedEvent { plan_id, status },
                    ),
                ),
            },
            final(self)@.well_formed(),
    {
        let status: bool = match self.plans.records.get(plan_id) {
            Some(plan) => Self::is_will_matching(plan, &will_beneficiaries),
            None => {
                return Err(InheritanceError::PlanNotFound);
            },
        };
        let ghost before = self@;
        self.wills.verified.set(plan_id, status);
        proof {
            lemma_wills_update(before, self@.wills);
        }
        self.publish(
            InheritanceEvent::BeneficiariesVerified(BeneficiariesVerifiedEvent { plan_id, status }),
        );
        Ok(status)
    }

    /// Get the last beneficiary verification status for a plan.
    pub fn get_verification_status(&self, plan_id: u64) -> (status: Option<bool>)
        ensures
            status == (if self@.wills.verified.contains_key(plan_id) {
                Some(self@.wills.verified[plan_id])
            } else {
                None
            }),
    {
        match self.wills.verified.get(plan_id) {
            Some(status) => Some(*status),
            None => None,
        }
    }

    /// Create a new will version for a plan. Auto-increments version number and
    /// deactivates the previously active version. Also updates the link to the vault.
    pub fn create_will_version(
        &mut self,
        env: &Env,
        owner: Address,
        plan_id: u64,
        will_hash: Digest,
    ) -> (result: Result<u32, InheritanceError>)
        requires
            old(self)@.well_formed(),
            env.authorized(owner),
            old(self)@.new_version_error(owner, plan_id) is None ==> version_count(
                old(self)@.wills,
                plan_id,
            ) < u32::MAX,
        ensures
            ({
                let error = old(self)@.new_version_error(owner, plan_id);
                match result {
                    Err(e) => error == Some(e) && final(self)@ == old(self)@,
                    Ok(version) => error is None && version == version_count(
                        old(self)@.wills,
                        plan_id,
                    ) + 1 && final(self)@ == old(self)@.version_created(
                        env.timestamp,
                        plan_id,
                        will_hash,
                    ),
                }
            }),
            final(self)@.well_formed(),
    {
        match self.require_owner(plan_id, owner) {
            Ok(_) => {},
            Err(e) => {
                return Err(e);
            },
        }
        let active: Option<u32> = match self.wills.active.get(plan_id) {
            Some(version) => Some(*version),
            None => None,
        };
        match active {
            Some(version) => {
                if self.is_will_finalized(plan_id, version) {
                    return Err(InheritanceError::WillAlreadyFinalized);
                }
            },
            None => {},
        }
        proof {
            lemma_version_added(self@, env.timestamp, plan_id, will_hash);
        }
        let version: u32 = self.get_will_version_count(plan_id) + 1;
        self.wills.version_counts.set(plan_id, version);
        match active {
            Some(previous) => {
                let info = self.wills.versions.at_mut((plan_id, previous));
                info.is_active = false;
            },
            None => {},
        }
        self.wills.versions.set(
            (plan_id, version),
            WillVersionInfo { version, will_hash, created_at: env.timestamp, is_active: true },
        );
        self.wills.active.set(plan_id, version);
        self.wills.linked.set(plan_id, will_hash);
        self.publish(
            InheritanceEvent::WillVersionCreated(WillVersionCreatedEvent { plan_id, version }),
        );
        self.publish(
            InheritanceEvent::WillVersionActivated(WillVersionActivatedEvent { plan_id, version }),
        );
        Ok(version)
    }

    /// Get a specific will version for a plan.
    pub fn get_will_version(&self, plan_id: u64, version: u32) -> (info: Option<WillVersionInfo>)
        ensures
            info == (if self@.wills.versions.contains_key((plan_id, version)) {
                Some(self@.wills.versions[(plan_id, version)])
            } else {
                None
            }),
    {
        match self.wills.versions.get((plan_id, version)) {
            Some(info) => Some(*info),
            None => None,
        }
    }

    /// Get the currently active will version for a plan.
    pub fn get_active_will_version(&self, plan_id: u64) -> (info: Option<WillVersionInfo>)
        requires
            self@.well_formed(),
        ensures
            info == (if version_count(self@.wills, plan_id) > 0 {
                Some(self@.wills.versions[(plan_id, version_count(self@.wills, plan_id))])
            } else {
                None
            }),
    {
        proof {
            reveal(versions_numbered);
        }
        match self.wills.active.get(plan_id) {
            Some(version) => {
                proof {
                    assert(self@.wills.active.contains_key(plan_id));
                    assert(self@.wills.versions.contains_key((plan_id, *version)));
                }
                self.get_will_version(plan_id, *version)
            },
            None => {
                proof {
                    assert(!self@.wills.active.contains_key(plan_id));
                }
                None
            },
        }
    }

    /// Get the total number of will versions for a plan.
    pub fn get_will_version_count(&self, plan_id: u64) -> (count: u32)
        ensures
            count == version_count(self@.wills, plan_id),
    {
        match self.wills.version_counts.get(plan_id) {
            Some(count) => *count,
            None => 0,
        }
    }

    fn is_signature_used(&self, sig_hash: Digest) -> (used: bool)
        ensures
            used == (self@.wills.used_signatures.contains_key(sig_hash)
                && self@.wills.used_signatures[sig_hash]),
    {
        match self.wills.used_signatures.get(sig_hash) {
            Some(used) => *used,
            None => false,
        }
    }

    /// Record that the vault owner has approved and signed a will.
    ///
    /// The caller must be the plan owner. A composite `sig_hash` is derived from the
    /// vault and the hash of the will, which binds the proof to one will of one vault.
    /// A signature is good once, until it expires, so that it cannot be replayed for
    /// another vault or another will.
    pub fn sign_will(
        &mut self,
        env: &Env,
        owner: Address,
        vault_id: u64,
        will_hash: Digest,
        signature: Vec<u8>,
        expires_at: u64,
    ) -> (result: Result<(), InheritanceError>)
        requires
            old(self)@.well_formed(),
            env.authorized(owner),
            signature@.len() == 64,
        ensures
            ({
                let error = old(self)@.sign_error(
                    env.timestamp,
                    owner,
                    vault_id,
                    signature@,
                    expires_at,
                );
                match result {
                    Err(e) => error == Some(e) && final(self)@ == old(self)@,
                    Ok(()) => error is None && final(self)@ == old(self)@.will_signed(
                        env.timestamp,
                        owner,
                        vault_id,
                        will_hash,
                        signature@,
                    ),
                }
            }),
            final(self)@.well_formed(),
    {
        match self.require_owner(vault_id, owner) {
            Ok(_) => {},
            Err(e) => {
                return Err(e);
            },
        }
        if env.timestamp > expires_at {
            return Err(InheritanceError::Unauthorized);
        }
        let used = hash_data(&signature);
        if self.is_signature_used(used) {
            return Err(InheritanceError::WillAlreadyFinalized);
        }
        let ghost before = self@;
        self.wills.used_signatures.set(used, true);
        self.wills.signatures.set(
            vault_id,
            WillSignatureProof {
                vault_id,
                will_hash,
                signer: owner,
                sig_hash: hash_signed_will(vault_id, &will_hash),
                signed_at: env.timestamp,
            },
        );
        proof {
            lemma_wills_update(before, self@.wills);
        }
        self.publish(InheritanceEvent::WillSigned(WillSignedEvent { vault_id, signer: owner }));
        Ok(())
    }

    /// Retrieve the stored will signature proof for a vault.
    pub fn get_will_signature(&self, vault_id: u64) -> (signed: Option<WillSignatureProof>)
        ensures
            signed == (if self@.wills.signatures.contains_key(vault_id) {
                Some(self@.wills.signatures[vault_id])
            } else {
                None
            }),
    {
        match self.wills.signatures.get(vault_id) {
            Some(signed) => Some(*signed),
            None => None,
        }
    }

    fn have_witnesses_signed(&self, vault_id: u64) -> (signed: bool)
        ensures
            signed == self@.witnesses_signed(vault_id),
    {
        let witnesses = self.get_witnesses(vault_id);
        let mut i: usize = 0;
        while i < witnesses.len()
            invariant
                i <= witnesses@.len(),
                witnesses@ == list_of(self@.wills.witnesses, vault_id),
                forall|k: int|
                    0 <= k < i ==> self@.wills.witness_signatures.contains_key(
                        (vault_id, #[trigger] witnesses@[k]),
                    ),
            decreases witnesses@.len() - i,
        {
            if !self.wills.witness_signatures.contains((vault_id, witnesses[i])) {
                proof {
                    let list = list_of(self@.wills.witnesses, vault_id);
                    assert(!self@.wills.witness_signatures.contains_key((vault_id, list[i as int])));
                }
                return false;
            }
            i += 1;
        }
        true
    }

    /// Finalize a specific will version, permanently locking it.
    ///
    /// Requirements:
    /// - Caller must be the plan owner.
    /// - The will version must exist.
    /// - The owner must have signed the will.
    /// - If witnesses are assigned, all must have signed.
    /// - Cannot finalize an already-finalized version.
    pub fn finalize_will(&mut self, env: &Env, owner: Address, vault_id: u64, version: u32) -> (
    result: Result<(), InheritanceError>)
        requires
            old(self)@.well_formed(),
            env.authorized(owner),
        ensures
            ({
                let error = old(self)@.finalize_error(owner, vault_id, version);
                match result {
                    Err(e) => error == Some(e) && final(self)@ == old(self)@,
                    Ok(()) => error is None && final(self)@ == old(self)@.finalized(
                        env.timestamp,
                        vault_id,
                        version,
                    ),
                }
            }),
            final(self)@.well_formed(),
    {
        match self.require_owner(vault_id, owner) {
            Ok(_) => {},
            Err(e) => {
                return Err(e);
            },
        }
        if !self.wills.versions.contains((vault_id, version)) {
            return Err(InheritanceError::WillVersionNotFound);
        }
        if self.is_will_finalized(vault_id, version) {
            return Err(InheritanceError::WillAlreadyFinalized);
        }
        if !self.wills.signatures.contains(vault_id) {
            return Err(InheritanceError::WillVersionNotFound);
        }
        if !self.have_witnesses_signed(vault_id) {
            return Err(InheritanceError::MissingRequiredField);
        }
        let ghost before = self@;
        self.wills.finalized.set((vault_id, version), true);
        self.wills.finalized_at.set((vault_id, version), env.timestamp);
        proof {
            lemma_wills_update(before, self@.wills);
        }
        self.publish(
            InheritanceEvent::WillFinalized(
                WillFinalizedEvent { vault_id, version, finalized_at: env.timestamp },
            ),
        );
        Ok(())
    }

    /// Check whether a specific will version is finalized.
    pub fn is_will_finalized(&self, vault_id: u64, version: u32) -> (finalized: bool)
        ensures
            finalized == self@.will_finalized(vault_id, version),
    {
        match self.wills.finalized.get((vault_id, version)) {
            Some(finalized) => *finalized,
            None => false,
        }
    }

    /// Get the finalization timestamp for a will version (None if not finalized).
    pub fn get_will_finalized_at(&self, vault_id: u64, version: u32) -> (at: Option<u64>)
        ensures
            at == (if self@.wills.finalized_at.contains_key((vault_id, version)) {
                Some(self@.wills.finalized_at[(vault_id, version)])
            } else {
                None
            }),
    {
        match self.wills.finalized_at.get((vault_id, version)) {
            Some(at) => Some(*at),
            None => None,
        }
    }

    /// Assign a witness address to a vault's will. Only the plan owner can add
    /// witnesses.
    pub fn add_witness(&mut self, env: &Env, owner: Address, vault_id: u64, witness: Address) -> (
    result: Result<(), InheritanceError>)
        requires
            old(self)@.well_formed(),
            env.authorized(owner),
        ensures
            ({
                let error = old(self)@.add_witness_error(owner, vault_id, witness);
                match result {
                    Err(e) => error == Some(e) && final(self)@ == old(self)@,
                    Ok(()) => error is None && final(self)@ == old(self)@.witness_added(
                        vault_id,
                        witness,
                    ),
                }
            }),
            final(self)@.well_formed(),
    {
        match self.require_owner(vault_id, owner) {
            Ok(_) => {},
            Err(e) => {
                return Err(e);
            },
        }
        let mut witnesses = self.get_witnesses(vault_id);
        if list_contains(&witnesses, &witness) {
            return Err(InheritanceError::EmergencyContactAlreadyExists);
        }
        let ghost before = self@;
        witnesses.push(witness);
        self.wills.witnesses.set(vault_id, witnesses);
        proof {
            lemma_wills_update(before, self@.wills);
        }
        self.publish(InheritanceEvent::WitnessAdded(WitnessAddedEvent { vault_id, witness }));
        Ok(())
    }

    /// Record a witness signature for a vault's will.
    ///
    /// The caller must be a registered witness for this vault.
    pub fn sign_as_witness(
        &mut self,
        env: &Env,
        witness: Address,
        vault_id: u64,
        signature: Vec<u8>,
        expires_at: u64,
    ) -> (result: Result<(), InheritanceError>)
        requires
            old(self)@.well_formed(),
            env.authorized(witness),
            signature@.len() == 64,
        ensures
            ({
                let error = old(self)@.witness_error(
                    env.timestamp,
                    witness,
                    vault_id,
                    signature@,
                    expires_at,
                );
                match result {
                    Err(e) => error == Some(e) && final(self)@ == old(self)@,
                    Ok(()) => error is None && final(self)@ == old(self)@.witness_signed(
                        env.timestamp,
                        witness,
                        vault_id,
                        signature@,
                    ),
                }
            }),
            final(self)@.well_formed(),
    {
        if !self.plans.records.contains(vault_id) {
            return Err(InheritanceError::PlanNotFound);
        }
        if !list_contains(&self.get_witnesses(vault_id), &witness) {
            return Err(InheritanceError::EmergencyContactNotFound);
        }
        if env.timestamp > expires_at {
            return Err(InheritanceError::Unauthorized);
        }
        let sig_hash = hash_data(&signature);
        if self.is_signature_used(sig_hash) {
            return Err(InheritanceError::AlreadyApproved);
        }
        if self.wills.witness_signatures.contains((vault_id, witness)) {
            return Err(InheritanceError::AlreadyApproved);
        }
        let ghost before = self@;
        self.wills.used_signatures.set(sig_hash, true);
        self.wills.witness_signatures.set((vault_id, witness), env.timestamp);
        proof {
            lemma_wills_update(before, self@.wills);
        }
        self.publish(InheritanceEvent::WitnessSigned(WitnessSignedEvent { vault_id, witness }));
        Ok(())
    }

    /// Get all registered witnesses for a vault.
    pub fn get_witnesses(&self, vault_id: u64) -> (witnesses: Vec<Address>)
        ensures
            witnesses@ == list_of(self@.wills.witnesses, vault_id),
    {
        match self.wills.witnesses.get(vault_id) {
            Some(witnesses) => witnesses.clone(),
            None => Vec::new(),
        }
    }

    /// Get the timestamp at which a witness signed, or None if not yet signed.
    pub fn get_witness_signature(&self, vault_id: u64, witness: Address) -> (at: Option<u64>)
        ensures
            at == (if self@.wills.witness_signatures.contains_key((vault_id, witness)) {
                Some(self@.wills.witness_signatures[(vault_id, witness)])
            } else {
                None
            }),
    {
        match self.wills.witness_signatures.get((vault_id, witness)) {
            Some(at) => Some(*at),
            None => None,
        }
    }
}

/// A will matches a plan exactly if both name every email with every allocation equally
/// often.
pub proof fn law_matching_wills_count_alike(
    beneficiaries: Seq<BeneficiaryView>,
    stated: Seq<WillBeneficiary>,
)
    ensures
        named_beneficiaries(beneficiaries).len() == beneficiaries.len(),
        forall|i: int|
            0 <= i < beneficiaries.len() ==> {
                &&& (#[trigger] named_beneficiaries(beneficiaries)[i]).hashed_email
                    == beneficiaries[i].hashed_email
                &&& named_beneficiaries(beneficiaries)[i].allocation_bp
                    == beneficiaries[i].allocation_bp
            },
        will_matches(beneficiaries, stated) <==> forall|entry: WillBeneficiary| #[trigger]
            stated.to_multiset().count(entry) == named_beneficiaries(
                beneficiaries,
            ).to_multiset().count(entry),
{
    if forall|entry: WillBeneficiary| #[trigger]
        stated.to_multiset().count(entry) == named_beneficiaries(
            beneficiaries,
        ).to_multiset().count(entry) {
        assert(stated.to_multiset() =~= named_beneficiaries(beneficiaries).to_multiset());
    }
}

/// Wills are in the hands of the owner of the vault: the hash is stored once, a will is
/// linked once, a version is added until the active one is finalized, a witness is
/// named once. The owner signs before the signature expires, with one that nobody used;
/// a witness who was named does so once.
pub proof fn law_will_calls_are_admitted(
    contract: InheritanceView,
    now: u64,
    caller: Address,
    vault_id: u64,
    signature: Seq<u8>,
    expires_at: u64,
    witness: Address,
)
    ensures
        ({
            let wills = contract.wills;
            let filed = contract.plans.records.contains_key(vault_id);
            let owns = filed && contract.plans.records[vault_id].owner == caller;
            let named = list_of(wills.witnesses, vault_id);
            let active = (vault_id, wills.active[vault_id]);
            let used = wills.used_signatures.contains_key(hash_of(signature))
                && wills.used_signatures[hash_of(signature)];
            &&& contract.store_hash_error(caller, vault_id) is None <==> owns
                && !wills.hashes.contains_key(vault_id)
            &&& contract.link_will_error(caller, vault_id) is None <==> owns
                && !wills.linked.contains_key(vault_id)
            &&& contract.new_version_error(caller, vault_id) is None <==> owns && !(
            wills.active.contains_key(vault_id) && wills.finalized.contains_key(active)
                && wills.finalized[active])
            &&& contract.sign_error(now, caller, vault_id, signature, expires_at) is None <==> owns
                && now <= expires_at && !used
            &&& contract.add_witness_error(caller, vault_id, witness) is None <==> owns
                && !named.contains(witness)
            &&& contract.witness_error(now, caller, vault_id, signature, expires_at) is None
                <==> filed && named.contains(caller) && now <= expires_at && !used
                && !wills.witness_signatures.contains_key((vault_id, caller))
        }),
{
}

/// A version is finalized exactly by the owner, once, if it exists, the owner signed,
/// and every witness who was named did.
pub proof fn law_finalizing_is_admitted(
    contract: InheritanceView,
    owner: Address,
    vault_id: u64,
    version: u32,
)
    ensures
        ({
            let wills = contract.wills;
            let key = (vault_id, version);
            let named = list_of(wills.witnesses, vault_id);
            contract.finalize_error(owner, vault_id, version) is None <==> {
                &&& contract.plans.records.contains_key(vault_id)
                &&& contract.plans.records[vault_id].owner == owner
                &&& wills.versions.contains_key(key)
                &&& !(wills.finalized.contains_key(key) && wills.finalized[key])
                &&& wills.signatures.contains_key(vault_id)
                &&& forall|i: int|
                    0 <= i < named.len() ==> wills.witness_signatures.contains_key(
                        (vault_id, #[trigger] named[i]),
                    )
            }
        }),
{
}

/// A new version has the next number, is the active one and the one that is linked, and
/// the one before it is retired; nothing else changes, and both are announced.
pub proof fn law_adding_versions(
    contract: InheritanceView,
    now: u64,
    plan_id: u64,
    will_hash: Digest,
)
    requires
        contract.well_formed(),
        version_count(contract.wills, plan_id) < 0xffff_ffff,
    ensures
        ({
            let before = contract.wills;
            let number = (version_count(before, plan_id) + 1) as u32;
            let after = contract.version_created(now, plan_id, will_hash);
            let wills = after.wills;
            &&& wills.version_counts == before.version_counts.insert(plan_id, number)
            &&& wills.active == before.active.insert(plan_id, number)
            &&& wills.linked == before.linked.insert(plan_id, will_hash)
            &&& wills.versions[(plan_id, number)] == (WillVersionInfo {
                version: number,
                will_hash,
                created_at: now,
                is_active: true,
            })
            &&& forall|key: (u64, u32)|
                key != (plan_id, number) ==> {
                    &&& #[trigger] wills.versions.contains_key(key)
                        <==> before.versions.contains_key(key)
                    &&& before.versions.contains_key(key) ==> wills.versions[key] == (
                    WillVersionInfo {
                        is_active: before.versions[key].is_active && key.0 != plan_id,
                        ..before.versions[key]
                    })
                }
            &&& wills == (WillBookView {
                version_counts: wills.version_counts,
                active: wills.active,
                linked: wills.linked,
                versions: wills.versions,
                ..before
            })
            &&& after == (InheritanceView {
                wills,
                events: contract.events.push(
                    InheritanceEventView::WillVersionCreated(
                        WillVersionCreatedEvent { plan_id, version: number },
                    ),
                ).push(
                    InheritanceEventView::WillVersionActivated(
                        WillVersionActivatedEvent { plan_id, version: number },
                    ),
                ),
                ..contract
            })
        }),
{
    reveal(versions_numbered);
    let before = contract.wills;
    let number = (version_count(before, plan_id) + 1) as u32;
    let wills = contract.version_added(now, plan_id, will_hash);
    assert forall|key: (u64, u32)| key != (plan_id, number) implies {
        &&& #[trigger] wills.versions.contains_key(key) <==> before.versions.contains_key(key)
        &&& before.versions.contains_key(key) ==> wills.versions[key] == (WillVersionInfo {
            is_active: before.versions[key].is_active && key.0 != plan_id,
            ..before.versions[key]
        })
    } by {
        let (vault, version) = key;
        assert(before.versions.contains_key((vault, version)) ==> 1 <= version <= version_count(
            before,
            vault,
        ));
        if before.active.contains_key(plan_id) {
            let last = before.active[plan_id];
            assert(before.versions.contains_key((plan_id, last)));
        }
    }
}

/// The owner's signature is on record for the vault with the hash of the will, the
/// signer and the time; a witness's with the time. Either signature is used up, and
/// announced. A version that is finalized is on record with the time.
pub proof fn law_signing(
    contract: InheritanceView,
    now: u64,
    signer: Address,
    vault_id: u64,
    will_hash: Digest,
    signature: Seq<u8>,
    version: u32,
)
    ensures
        contract.will_signed(now, signer, vault_id, will_hash, signature) == (InheritanceView {
            wills: WillBookView {
                used_signatures: contract.wills.used_signatures.insert(hash_of(signature), true),
                signatures: contract.wills.signatures.insert(
                    vault_id,
                    WillSignatureProof {
                        vault_id,
                        will_hash,
                        signer,
                        sig_hash: hash_of(id_and_digest(vault_id, will_hash)),
                        signed_at: now,
                    },
                ),
                ..contract.wills
            },
            events: contract.events.push(
                InheritanceEventView::WillSigned(WillSignedEvent { vault_id, signer }),
            ),
            ..contract
        }),
        contract.witness_signed(now, signer, vault_id, signature) == (InheritanceView {
            wills: WillBookView {
                used_signatures: contract.wills.used_signatures.insert(hash_of(signature), true),
                witness_signatures: contract.wills.witness_signatures.insert(
                    (vault_id, signer),
                    now,
                ),
                ..contract.wills
            },
            events: contract.events.push(
                InheritanceEventView::WitnessSigned(
                    WitnessSignedEvent { vault_id, witness: signer },
                ),
            ),
            ..contract
        }),
        contract.witness_added(vault_id, signer) == (InheritanceView {
            wills: WillBookView {
                witnesses: contract.wills.witnesses.insert(
                    vault_id,
                    list_of(contract.wills.witnesses, vault_id).push(signer),
                ),
                ..contract.wills
            },
            events: contract.events.push(
                InheritanceEventView::WitnessAdded(
                    WitnessAddedEvent { vault_id, witness: signer },
                ),
            ),
            ..contract
        }),
        contract.finalized(now, vault_id, version) == (InheritanceView {
            wills: WillBookView {
                finalized: contract.wills.finalized.insert((vault_id, version), true),
                finalized_at: contract.wills.finalized_at.insert((vault_id, version), now),
                ..contract.wills
            },
            events: contract.events.push(
                InheritanceEventView::WillFinalized(
                    WillFinalizedEvent { vault_id, version, finalized_at: now },
                ),
            ),
            ..contract
        }),
{
}

/// Why a hash is not stored: every reason that is given holds.
pub proof fn law_reason_store_hash(contract: InheritanceView, owner: Address, plan_id: u64)
    ensures
        match contract.store_hash_error(owner, plan_id) {
            None => true,
            Some(InheritanceError::WillHashAlreadyStored) =>
                contract.wills.hashes.contains_key(plan_id),
            Some(error) => contract.owner_error(plan_id, owner) == Some(error),
        },
{
}

/// Why a will is not linked: every reason that is given holds.
pub proof fn law_reason_link_will(contract: InheritanceView, owner: Address, plan_id: u64)
    ensures
        match contract.link_will_error(owner, plan_id) {
            None => true,
            Some(InheritanceError::VaultNotFound) => !contract.plans.records.contains_key(plan_id),
            Some(InheritanceError::Unauthorized) => contract.plans.records[plan_id].owner != owner,
            Some(InheritanceError::WillAlreadyLinked) =>
                contract.wills.linked.contains_key(plan_id),
            Some(_) => false,
        },
{
}

/// Why no new version of a will is created: every reason that is given holds.
pub proof fn law_reason_new_version(contract: InheritanceView, owner: Address, plan_id: u64)
    ensures
        match contract.new_version_error(owner, plan_id) {
            None => true,
            Some(InheritanceError::WillAlreadyFinalized) =>
                contract.wills.active.contains_key(plan_id) && contract.will_finalized(plan_id,
                contract.wills.active[plan_id]),
            Some(error) => contract.owner_error(plan_id, owner) == Some(error),
        },
{
}

/// Why the signature of an owner is refused: every reason that is given holds.
pub proof fn law_reason_sign(
    contract: InheritanceView,
    now: u64,
    owner: Address,
    vault_id: u64,
    signature: Seq<u8>,
    expires_at: u64,
)
    ensures
        match contract.sign_error(now, owner, vault_id, signature, expires_at) {
            None => true,
            Some(InheritanceError::Unauthorized) => now > expires_at
                || contract.owner_error(vault_id, owner) == Some(InheritanceError::Unauthorized),
            Some(InheritanceError::WillAlreadyFinalized) => contract.signature_used(signature),
            Some(error) => contract.owner_error(vault_id, owner) == Some(error),
        },
{
}

/// Why a will is not finalized: every reason that is given holds.
pub proof fn law_reason_finalize(
    contract: InheritanceView,
    owner: Address,
    vault_id: u64,
    version: u32,
)
    ensures
        match contract.finalize_error(owner, vault_id, version) {
            None => true,
            Some(InheritanceError::WillVersionNotFound) =>
                !contract.wills.versions.contains_key((vault_id, version))
                || !contract.wills.signatures.contains_key(vault_id),
            Some(InheritanceError::WillAlreadyFinalized) => contract.will_finalized(vault_id,
                version),
            Some(InheritanceError::MissingRequiredField) => !contract.witnesses_signed(vault_id),
            Some(error) => contract.owner_error(vault_id, owner) == Some(error),
        },
{
}

/// Why a witness is not added: every reason that is given holds.
pub proof fn law_reason_add_witness(
    contract: InheritanceView,
    owner: Address,
    vault_id: u64,
    witness: Address,
)
    ensures
        match contract.add_witness_error(owner, vault_id, witness) {
            None => true,
            Some(InheritanceError::EmergencyContactAlreadyExists) =>
                list_of(contract.wills.witnesses, vault_id).contains(witness),
            Some(error) => contract.owner_error(vault_id, owner) == Some(error),
        },
{
}

/// Why the signature of a witness is refused: every reason that is given holds.
pub proof fn law_reason_witness(
    contract: InheritanceView,
    now: u64,
    witness: Address,
    vault_id: u64,
    signature: Seq<u8>,
    expires_at: u64,
)
    ensures
        match contract.witness_error(now, witness, vault_id, signature, expires_at) {
            None => true,
            Some(InheritanceError::PlanNotFound) => !contract.plans.records.contains_key(vault_id),
            Some(InheritanceError::EmergencyContactNotFound) => !list_of(contract.wills.witnesses,
                vault_id).contains(witness),
            Some(InheritanceError::Unauthorized) => now > expires_at,
            Some(InheritanceError::AlreadyApproved) => contract.signature_used(signature)
                || contract.wills.witness_signatures.contains_key((vault_id, witness)),
            Some(_) => false,
        },
{
}

} // verus!
