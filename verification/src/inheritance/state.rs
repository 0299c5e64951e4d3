//! What the inheritance contract stores, its model, and what holds of it between
//! calls.
use vstd::prelude::*;

use crate::access::{AccessControl, AccessView, Role};
use crate::host::{Address, Env};
use crate::inheritance::hashing::Digest;
use crate::inheritance::types::{
    BeneficiaryView, ClaimAttemptWindow, ClaimRecord, DisputeRecord, DisputeRecordView,
    EmergencyAccessRecord, FreezeRecord, FreezeRecordView, GuardianConfig, GuardianConfigView,
    InheritanceCall, InheritanceError, InheritanceEvent, InheritanceEventView, InheritancePlan,
    InheritancePlanView, InheritanceTriggerInfo, KycStatus, LegacyMessageMetadata,
    LegacyMessageMetadataView, LegalHold, LegalHoldView, PlanYieldState, PlanYieldStateView,
    TriggerConfig, TriggerConfigView, WillSignatureProof, WillVersionInfo,
};
use crate::list::List;
use crate::table::Table;

verus! {

/// Version of a contract that was never upgraded.
pub const CONTRACT_VERSION: u32 = 1;

/// Most beneficiaries of a plan.
pub const MAX_BENEFICIARIES: u32 = 10;

/// Most emergency contacts of a plan.
pub const MAX_EMERGENCY_CONTACTS: usize = 10;

/// Most accounts that may harvest for any plan.
pub const MAX_YIELD_RELAYERS: u32 = 10;

/// Harvests that the history of a plan holds.
pub const MAX_YIELD_HISTORY: u32 = 20;

/// Largest share of a harvest that can be withheld: 50%.
pub const MAX_PERFORMANCE_FEE_BP: u32 = 5_000;

/// Plans, and the lists in which they are found.
pub struct PlanBook {
    /// Id of the next plan.
    pub next_id: u64,
    pub records: Table<u64, InheritancePlan>,
    /// Owner to the ids of the owner's plans.
    pub by_owner: Table<Address, Vec<u64>>,
    /// Owner to the ids of the owner's plans from which somebody has claimed.
    pub claimed_by_owner: Table<Address, Vec<u64>>,
    /// Ids of the plans that were deactivated.
    pub deactivated: Vec<u64>,
    /// Ids of the plans from which somebody has claimed.
    pub claimed: Vec<u64>,
}

/// The model of [`PlanBook`].
#[verifier::ext_equal]
pub struct PlanBookView {
    pub next_id: u64,
    pub records: Map<u64, InheritancePlanView>,
    pub by_owner: Map<Address, Seq<u64>>,
    pub claimed_by_owner: Map<Address, Seq<u64>>,
    pub deactivated: Seq<u64>,
    pub claimed: Seq<u64>,
}

impl View for PlanBook {
    type V = PlanBookView;

    open spec fn view(&self) -> PlanBookView {
        PlanBookView {
            next_id: self.next_id,
            records: self.records@,
            by_owner: self.by_owner@,
            claimed_by_owner: self.claimed_by_owner@,
            deactivated: self.deactivated@,
            claimed: self.claimed@,
        }
    }
}

impl PlanBookView {
    /// Nothing on file.
    pub open spec fn empty() -> PlanBookView {
        PlanBookView {
            next_id: 1,
            records: Map::empty(),
            by_owner: Map::empty(),
            claimed_by_owner: Map::empty(),
            deactivated: Seq::empty(),
            claimed: Seq::empty(),
        }
    }
}

impl PlanBook {
    /// Nothing on file.
    pub fn new() -> (book: PlanBook)
        ensures
            book@ == PlanBookView::empty(),
    {
        PlanBook {
            next_id: 1,
            records: Table::new(),
            by_owner: Table::new(),
            claimed_by_owner: Table::new(),
            deactivated: Vec::new(),
            claimed: Vec::new(),
        }
    }
}

/// Claims, and what guards them.
pub struct ClaimBook {
    /// Claim key to the claim that was paid in full.
    pub records: Table<Digest, ClaimRecord>,
    /// Plan and beneficiary index to the salt of the claim code.
    pub salts: Table<(u64, u32), Digest>,
    /// Plan and claimer to the claimer's recent attempts.
    pub attempts: Table<(u64, Address), ClaimAttemptWindow>,
    /// Plan and beneficiary index to what is left of an agreed settlement.
    pub settlements: Table<(u64, u32), u64>,
}

/// The model of [`ClaimBook`].
#[verifier::ext_equal]
pub struct ClaimBookView {
    pub records: Map<Digest, ClaimRecord>,
    pub salts: Map<(u64, u32), Digest>,
    pub attempts: Map<(u64, Address), ClaimAttemptWindow>,
    pub settlements: Map<(u64, u32), u64>,
}

impl View for ClaimBook {
    type V = ClaimBookView;

    open spec fn view(&self) -> ClaimBookView {
        ClaimBookView {
            records: self.records@,
            salts: self.salts@,
            attempts: self.attempts@,
            settlements: self.settlements@,
        }
    }
}

impl ClaimBookView {
    /// Nothing on file.
    pub open spec fn empty() -> ClaimBookView {
        ClaimBookView {
            records: Map::empty(),
            salts: Map::empty(),
            attempts: Map::empty(),
            settlements: Map::empty(),
        }
    }
}

impl ClaimBook {
    /// Nothing on file.
    pub fn new() -> (book: ClaimBook)
        ensures
            book@ == ClaimBookView::empty(),
    {
        ClaimBook {
            records: Table::new(),
            salts: Table::new(),
            attempts: Table::new(),
            settlements: Table::new(),
        }
    }
}

/// What keeps plans and beneficiaries from being paid.
pub struct HoldBook {
    pub freezes: Table<u64, FreezeRecord>,
    pub legal_holds: Table<u64, LegalHold>,
    /// Plan and beneficiary index to whether the beneficiary is frozen.
    pub frozen_beneficiaries: Table<(u64, u32), bool>,
}

/// The model of [`HoldBook`].
#[verifier::ext_equal]
pub struct HoldBookView {
    pub freezes: Map<u64, FreezeRecordView>,
    pub legal_holds: Map<u64, LegalHoldView>,
    pub frozen_beneficiaries: Map<(u64, u32), bool>,
}

impl View for HoldBook {
    type V = HoldBookView;

    open spec fn view(&self) -> HoldBookView {
        HoldBookView {
            freezes: self.freezes@,
            legal_holds: self.legal_holds@,
            frozen_beneficiaries: self.frozen_beneficiaries@,
        }
    }
}

impl HoldBookView {
    /// Nothing on file.
    pub open spec fn empty() -> HoldBookView {
        HoldBookView {
            freezes: Map::empty(),
            legal_holds: Map::empty(),
            frozen_beneficiaries: Map::empty(),
        }
    }
}

impl HoldBook {
    /// Nothing on file.
    pub fn new() -> (book: HoldBook)
        ensures
            book@ == HoldBookView::empty(),
    {
        HoldBook {
            freezes: Table::new(),
            legal_holds: Table::new(),
            frozen_beneficiaries: Table::new(),
        }
    }
}

/// Emergency access: who has it, who may get it, who decides.
pub struct EmergencyBook {
    pub access: Table<u64, EmergencyAccessRecord>,
    pub guardians: Table<u64, GuardianConfig>,
    /// Plan and trusted contact to the guardians who have approved.
    pub approvals: Table<(u64, Address), Vec<Address>>,
    pub contacts: Table<u64, Vec<Address>>,
}

/// The model of [`EmergencyBook`].
#[verifier::ext_equal]
pub struct EmergencyBookView {
    pub access: Map<u64, EmergencyAccessRecord>,
    pub guardians: Map<u64, GuardianConfigView>,
    pub approvals: Map<(u64, Address), Seq<Address>>,
    pub contacts: Map<u64, Seq<Address>>,
}

impl View for EmergencyBook {
    type V = EmergencyBookView;

    open spec fn view(&self) -> EmergencyBookView {
        EmergencyBookView {
            access: self.access@,
            guardians: self.guardians@,
            approvals: self.approvals@,
            contacts: self.contacts@,
        }
    }
}

impl EmergencyBookView {
    /// Nothing on file.
    pub open spec fn empty() -> EmergencyBookView {
        EmergencyBookView {
            access: Map::empty(),
            guardians: Map::empty(),
            approvals: Map::empty(),
            contacts: Map::empty(),
        }
    }
}

impl EmergencyBook {
    /// Nothing on file.
    pub fn new() -> (book: EmergencyBook)
        ensures
            book@ == EmergencyBookView::empty(),
    {
        EmergencyBook {
            access: Table::new(),
            guardians: Table::new(),
            approvals: Table::new(),
            contacts: Table::new(),
        }
    }
}

/// Inheritance that was triggered, and what triggers it.
pub struct TriggerBook {
    pub infos: Table<u64, InheritanceTriggerInfo>,
    pub configs: Table<u64, TriggerConfig>,
}

/// The model of [`TriggerBook`].
#[verifier::ext_equal]
pub struct TriggerBookView {
    pub infos: Map<u64, InheritanceTriggerInfo>,
    pub configs: Map<u64, TriggerConfigView>,
}

impl View for TriggerBook {
    type V = TriggerBookView;

    open spec fn view(&self) -> TriggerBookView {
        TriggerBookView {
            infos: self.infos@,
            configs: self.configs@,
        }
    }
}

impl TriggerBookView {
    /// Nothing on file.
    pub open spec fn empty() -> TriggerBookView {
        TriggerBookView {
            infos: Map::empty(),
            configs: Map::empty(),
        }
    }
}

impl TriggerBook {
    /// Nothing on file.
    pub fn new() -> (book: TriggerBook)
        ensures
            book@ == TriggerBookView::empty(),
    {
        TriggerBook {
            infos: Table::new(),
            configs: Table::new(),
        }
    }
}

/// Wills, their versions, signatures and witnesses.
pub struct WillBook {
    /// Plan to the hash of its will document.
    pub hashes: Table<u64, Digest>,
    /// Plan to the hash of the will that is linked to its vault.
    pub linked: Table<u64, Digest>,
    /// Plan to the outcome of the last verification of its beneficiaries.
    pub verified: Table<u64, bool>,
    pub version_counts: Table<u64, u32>,
    pub versions: Table<(u64, u32), WillVersionInfo>,
    /// Plan to its active version.
    pub active: Table<u64, u32>,
    pub signatures: Table<u64, WillSignatureProof>,
    /// Hashes of the signatures that were used.
    pub used_signatures: Table<Digest, bool>,
    /// Plan and version to whether the version is finalized.
    pub finalized: Table<(u64, u32), bool>,
    pub finalized_at: Table<(u64, u32), u64>,
    pub witnesses: Table<u64, Vec<Address>>,
    /// Plan and witness to when the witness signed.
    pub witness_signatures: Table<(u64, Address), u64>,
}

/// The model of [`WillBook`].
#[verifier::ext_equal]
pub struct WillBookView {
    pub hashes: Map<u64, Digest>,
    pub linked: Map<u64, Digest>,
    pub verified: Map<u64, bool>,
    pub version_counts: Map<u64, u32>,
    pub versions: Map<(u64, u32), WillVersionInfo>,
    pub active: Map<u64, u32>,
    pub signatures: Map<u64, WillSignatureProof>,
    pub used_signatures: Map<Digest, bool>,
    pub finalized: Map<(u64, u32), bool>,
    pub finalized_at: Map<(u64, u32), u64>,
    pub witnesses: Map<u64, Seq<Address>>,
    pub witness_signatures: Map<(u64, Address), u64>,
}

impl View for WillBook {
    type V = WillBookView;

    open spec fn view(&self) -> WillBookView {
        WillBookView {
            hashes: self.hashes@,
            linked: self.linked@,
            verified: self.verified@,
            version_counts: self.version_counts@,
            versions: self.versions@,
            active: self.active@,
            signatures: self.signatures@,
            used_signatures: self.used_signatures@,
            finalized: self.finalized@,
            finalized_at: self.finalized_at@,
            witnesses: self.witnesses@,
            witness_signatures: self.witness_signatures@,
        }
    }
}

impl WillBookView {
    /// Nothing on file.
    pub open spec fn empty() -> WillBookView {
        WillBookView {
            hashes: Map::empty(),
            linked: Map::empty(),
            verified: Map::empty(),
            version_counts: Map::empty(),
            versions: Map::empty(),
            active: Map::empty(),
            signatures: Map::empty(),
            used_signatures: Map::empty(),
            finalized: Map::empty(),
            finalized_at: Map::empty(),
            witnesses: Map::empty(),
            witness_signatures: Map::empty(),
        }
    }
}

impl WillBook {
    /// Nothing on file.
    pub fn new() -> (book: WillBook)
        ensures
            book@ == WillBookView::empty(),
    {
        WillBook {
            hashes: Table::new(),
            linked: Table::new(),
            verified: Table::new(),
            version_counts: Table::new(),
            versions: Table::new(),
            active: Table::new(),
            signatures: Table::new(),
            used_signatures: Table::new(),
            finalized: Table::new(),
            finalized_at: Table::new(),
            witnesses: Table::new(),
            witness_signatures: Table::new(),
        }
    }
}

/// Legacy messages and the keys that encrypt them.
pub struct MessageBook {
    /// Id of the next message.
    pub next_id: u64,
    pub records: Table<u64, LegacyMessageMetadata>,
    /// Vault to the ids of its messages.
    pub by_vault: Table<u64, Vec<u64>>,
    /// Vault and version to a key reference.
    pub keys: Table<(u64, u32), Vec<u8>>,
    /// Vault to the version of its current key.
    pub key_versions: Table<u64, u32>,
}

/// The model of [`MessageBook`].
#[verifier::ext_equal]
pub struct MessageBookView {
    pub next_id: u64,
    pub records: Map<u64, LegacyMessageMetadataView>,
    pub by_vault: Map<u64, Seq<u64>>,
    pub keys: Map<(u64, u32), Seq<u8>>,
    pub key_versions: Map<u64, u32>,
}

impl View for MessageBook {
    type V = MessageBookView;

    open spec fn view(&self) -> MessageBookView {
        MessageBookView {
            next_id: self.next_id,
            records: self.records@,
            by_vault: self.by_vault@,
            keys: self.keys@,
            key_versions: self.key_versions@,
        }
    }
}

impl MessageBookView {
    /// Nothing on file.
    pub open spec fn empty() -> MessageBookView {
        MessageBookView {
            next_id: 0,
            records: Map::empty(),
            by_vault: Map::empty(),
            keys: Map::empty(),
            key_versions: Map::empty(),
        }
    }
}

impl MessageBook {
    /// Nothing on file.
    pub fn new() -> (book: MessageBook)
        ensures
            book@ == MessageBookView::empty(),
    {
        MessageBook {
            next_id: 0,
            records: Table::new(),
            by_vault: Table::new(),
            keys: Table::new(),
            key_versions: Table::new(),
        }
    }
}

/// Disputes and who arbitrates them.
pub struct DisputeBook {
    /// Id of the next dispute.
    pub next_id: u64,
    pub records: Table<u64, DisputeRecord>,
    /// Plan to the ids of its disputes.
    pub by_plan: Table<u64, Vec<u64>>,
    pub arbitrators: Vec<Address>,
}

/// The model of [`DisputeBook`].
#[verifier::ext_equal]
pub struct DisputeBookView {
    pub next_id: u64,
    pub records: Map<u64, DisputeRecordView>,
    pub by_plan: Map<u64, Seq<u64>>,
    pub arbitrators: Seq<Address>,
}

impl View for DisputeBook {
    type V = DisputeBookView;

    open spec fn view(&self) -> DisputeBookView {
        DisputeBookView {
            next_id: self.next_id,
            records: self.records@,
            by_plan: self.by_plan@,
            arbitrators: self.arbitrators@,
        }
    }
}

impl DisputeBookView {
    /// Nothing on file.
    pub open spec fn empty() -> DisputeBookView {
        DisputeBookView {
            next_id: 0,
            records: Map::empty(),
            by_plan: Map::empty(),
            arbitrators: Seq::empty(),
        }
    }
}

impl DisputeBook {
    /// Nothing on file.
    pub fn new() -> (book: DisputeBook)
        ensures
            book@ == DisputeBookView::empty(),
    {
        DisputeBook {
            next_id: 0,
            records: Table::new(),
            by_plan: Table::new(),
            arbitrators: Vec::new(),
        }
    }
}

/// Yield that plans earn in the lending pool.
pub struct YieldBook {
    /// Accounts that may harvest for any plan.
    pub relayers: Vec<Address>,
    pub states: Table<u64, PlanYieldState>,
}

/// The model of [`YieldBook`].
#[verifier::ext_equal]
pub struct YieldBookView {
    pub relayers: Seq<Address>,
    pub states: Map<u64, PlanYieldStateView>,
}

impl View for YieldBook {
    type V = YieldBookView;

    open spec fn view(&self) -> YieldBookView {
        YieldBookView {
            relayers: self.relayers@,
            states: self.states@,
        }
    }
}

impl YieldBookView {
    /// Nothing on file.
    pub open spec fn empty() -> YieldBookView {
        YieldBookView {
            relayers: Seq::empty(),
            states: Map::empty(),
        }
    }
}

impl YieldBook {
    /// Nothing on file.
    pub fn new() -> (book: YieldBook)
        ensures
            book@ == YieldBookView::empty(),
    {
        YieldBook {
            relayers: Vec::new(),
            states: Table::new(),
        }
    }
}

/// Notices to beneficiaries and their acknowledgments.
pub struct NoticeBook {
    /// Plan and beneficiary index to when the beneficiary was notified.
    pub notified: Table<(u64, u32), u64>,
    /// Plan and beneficiary index to when the beneficiary acknowledged.
    pub acknowledged: Table<(u64, u32), u64>,
    /// Plan to whether its beneficiaries must acknowledge before they claim.
    pub required: Table<u64, bool>,
}

/// The model of [`NoticeBook`].
#[verifier::ext_equal]
pub struct NoticeBookView {
    pub notified: Map<(u64, u32), u64>,
    pub acknowledged: Map<(u64, u32), u64>,
    pub required: Map<u64, bool>,
}

impl View for NoticeBook {
    type V = NoticeBookView;

    open spec fn view(&self) -> NoticeBookView {
        NoticeBookView {
            notified: self.notified@,
            acknowledged: self.acknowledged@,
            required: self.required@,
        }
    }
}

impl NoticeBookView {
    /// Nothing on file.
    pub open spec fn empty() -> NoticeBookView {
        NoticeBookView {
            notified: Map::empty(),
            acknowledged: Map::empty(),
            required: Map::empty(),
        }
    }
}

impl NoticeBook {
    /// Nothing on file.
    pub fn new() -> (book: NoticeBook)
        ensures
            book@ == NoticeBookView::empty(),
    {
        NoticeBook {
            notified: Table::new(),
            acknowledged: Table::new(),
            required: Table::new(),
        }
    }
}

/// The inheritance contract and everything it stores.
pub struct InheritanceContract {
    pub access: AccessControl,
    pub admin: Option<Address>,
    pub plans: PlanBook,
    pub claims: ClaimBook,
    pub holds: HoldBook,
    pub kyc: Table<Address, KycStatus>,
    pub emergency: EmergencyBook,
    pub triggers: TriggerBook,
    pub wills: WillBook,
    pub messages: MessageBook,
    pub disputes: DisputeBook,
    pub yields: YieldBook,
    pub notices: NoticeBook,
    pub lending_contract: Option<Address>,
    pub governance_contract: Option<Address>,
    /// Version of the calls that other contracts can make, once it was set.
    pub interface_version: Option<u32>,
    /// Version of the contract's code, once it was upgraded or migrated.
    pub version: Option<u32>,
    pub wrapped_tokens: Vec<Address>,
    /// Events published so far.
    pub events: List<InheritanceEvent>,
    /// Calls to other contracts made so far.
    pub calls: List<InheritanceCall>,
}

/// The model of [`InheritanceContract`].
#[verifier::ext_equal]
pub struct InheritanceView {
    pub access: AccessView,
    pub admin: Option<Address>,
    pub plans: PlanBookView,
    pub claims: ClaimBookView,
    pub holds: HoldBookView,
    pub kyc: Map<Address, KycStatus>,
    pub emergency: EmergencyBookView,
    pub triggers: TriggerBookView,
    pub wills: WillBookView,
    pub messages: MessageBookView,
    pub disputes: DisputeBookView,
    pub yields: YieldBookView,
    pub notices: NoticeBookView,
    pub lending_contract: Option<Address>,
    pub governance_contract: Option<Address>,
    pub interface_version: Option<u32>,
    pub version: Option<u32>,
    pub wrapped_tokens: Seq<Address>,
    pub events: Seq<InheritanceEventView>,
    pub calls: Seq<InheritanceCall>,
}

impl View for InheritanceContract {
    type V = InheritanceView;

    open spec fn view(&self) -> InheritanceView {
        InheritanceView {
            access: self.access@,
            admin: self.admin,
            plans: self.plans@,
            claims: self.claims@,
            holds: self.holds@,
            kyc: self.kyc@,
            emergency: self.emergency@,
            triggers: self.triggers@,
            wills: self.wills@,
            messages: self.messages@,
            disputes: self.disputes@,
            yields: self.yields@,
            notices: self.notices@,
            lending_contract: self.lending_contract,
            governance_contract: self.governance_contract,
            interface_version: self.interface_version,
            version: self.version,
            wrapped_tokens: self.wrapped_tokens@,
            events: self.events@,
            calls: self.calls@,
        }
    }
}

/// The allocations of some beneficiaries taken together, in basis points.
pub open spec fn allocations(beneficiaries: Seq<BeneficiaryView>) -> int
    decreases beneficiaries.len(),
{
    if beneficiaries.len() == 0 {
        0
    } else {
        allocations(beneficiaries.drop_last()) + beneficiaries.last().allocation_bp
    }
}

/// A plan has at most ten beneficiaries, and allocates what they are allocated
/// together, at most the whole.
pub open spec fn plan_valid(plan: InheritancePlanView) -> bool {
    &&& plan.beneficiaries.len() <= MAX_BENEFICIARIES
    &&& plan.total_allocation_bp == allocations(plan.beneficiaries)
    &&& plan.total_allocation_bp <= 10_000
}

/// The list that is filed under a key, empty if there is none.
pub open spec fn list_of<K, T>(lists: Map<K, Seq<T>>, key: K) -> Seq<T> {
    if lists.contains_key(key) {
        lists[key]
    } else {
        Seq::empty()
    }
}

/// Plans on file: ids start at one and are below the next one, and every plan is
/// valid.
#[verifier::opaque]
pub open spec fn plans_valid(records: Map<u64, InheritancePlanView>, next_id: u64) -> bool {
    &&& next_id >= 1
    &&& forall|id: u64| #[trigger]
        records.contains_key(id) ==> 1 <= id < next_id && plan_valid(records[id])
}

/// The list of an owner names exactly the owner's plans, each once.
#[verifier::opaque]
pub open spec fn owners_listed(
    records: Map<u64, InheritancePlanView>,
    by_owner: Map<Address, Seq<u64>>,
) -> bool {
    &&& forall|owner: Address, id: u64| #[trigger]
        list_of(by_owner, owner).contains(id) <==> records.contains_key(id) && records[id].owner
            == owner
    &&& forall|owner: Address| (#[trigger] list_of(by_owner, owner)).no_duplicates()
}

/// The list of deactivated plans names exactly the inactive plans, each once.
#[verifier::opaque]
pub open spec fn deactivated_listed(
    records: Map<u64, InheritancePlanView>,
    deactivated: Seq<u64>,
) -> bool {
    &&& deactivated.no_duplicates()
    &&& forall|id: u64| #[trigger]
        deactivated.contains(id) <==> records.contains_key(id) && !records[id].is_active
}

/// Messages on file: ids are below the next one, each record carries its id, and
/// the list of a vault names exactly its messages, each once.
#[verifier::opaque]
pub open spec fn messages_filed(
    records: Map<u64, LegacyMessageMetadataView>,
    by_vault: Map<u64, Seq<u64>>,
    next_id: u64,
) -> bool {
    &&& forall|id: u64| #[trigger]
        records.contains_key(id) ==> id < next_id && records[id].message_id == id
    &&& forall|vault: u64, id: u64| #[trigger]
        list_of(by_vault, vault).contains(id) <==> records.contains_key(id)
            && records[id].vault_id == vault
    &&& forall|vault: u64| (#[trigger] list_of(by_vault, vault)).no_duplicates()
}

/// The number of will versions of a plan.
pub open spec fn version_count(wills: WillBookView, plan_id: u64) -> u32 {
    if wills.version_counts.contains_key(plan_id) {
        wills.version_counts[plan_id]
    } else {
        0
    }
}

/// Will versions are numbered from one, and the latest one is the active one.
#[verifier::opaque]
pub open spec fn versions_numbered(wills: WillBookView) -> bool {
    &&& forall|plan_id: u64, version: u32| #[trigger]
        wills.versions.contains_key((plan_id, version)) <==> 1 <= version <= version_count(
            wills,
            plan_id,
        )
    &&& forall|plan_id: u64, version: u32| #[trigger]
        wills.versions.contains_key((plan_id, version)) ==> wills.versions[(
            plan_id,
            version,
        )].version == version && (wills.versions[(plan_id, version)].is_active <==> version
            == version_count(wills, plan_id))
    &&& forall|plan_id: u64| #[trigger]
        wills.active.contains_key(plan_id) <==> version_count(wills, plan_id) > 0
    &&& forall|plan_id: u64| #[trigger]
        wills.active.contains_key(plan_id) ==> wills.active[plan_id] == version_count(
            wills,
            plan_id,
        )
}

/// The emergency contacts of a plan are few, and each is named once.
#[verifier::opaque]
pub open spec fn contacts_bounded(contacts: Map<u64, Seq<Address>>) -> bool {
    forall|plan_id: u64|
        (#[trigger] list_of(contacts, plan_id)).no_duplicates() && list_of(contacts, plan_id).len()
            <= MAX_EMERGENCY_CONTACTS
}

/// Relayers and histories are bounded, relayers are named once, and no plan pays
/// more than the largest fee.
#[verifier::opaque]
pub open spec fn yields_bounded(yields: YieldBookView) -> bool {
    &&& yields.relayers.no_duplicates()
    &&& yields.relayers.len() <= MAX_YIELD_RELAYERS
    &&& forall|plan_id: u64| #[trigger]
        yields.states.contains_key(plan_id) ==> yields.states[plan_id].history.len()
            <= MAX_YIELD_HISTORY && yields.states[plan_id].config.performance_fee_bp
            <= MAX_PERFORMANCE_FEE_BP
}

impl InheritanceView {
    /// What holds of the contract between calls.
    pub open spec fn well_formed(self) -> bool {
        &&& plans_valid(self.plans.records, self.plans.next_id)
        &&& owners_listed(self.plans.records, self.plans.by_owner)
        &&& deactivated_listed(self.plans.records, self.plans.deactivated)
        &&& messages_filed(self.messages.records, self.messages.by_vault, self.messages.next_id)
        &&& versions_numbered(self.wills)
        &&& contacts_bounded(self.emergency.contacts)
        &&& yields_bounded(self.yields)
        &&& self.wrapped_tokens.no_duplicates()
    }

    /// The contract takes a guarded call: it is not paused, and no other guarded
    /// call is under way.
    pub open spec fn open_for_calls(self) -> bool {
        !self.access.paused && !self.access.entered
    }

    /// Why a call that is open to admins alone is refused.
    pub open spec fn admin_error(self, caller: Address) -> Option<InheritanceError> {
        if self.access.has(caller, Role::Admin) {
            None
        } else {
            Some(InheritanceError::NotAdmin)
        }
    }

    /// Why a call that is open to the owner of a plan alone is refused.
    pub open spec fn owner_error(self, plan_id: u64, caller: Address) -> Option<
        InheritanceError,
    > {
        if !self.plans.records.contains_key(plan_id) {
            Some(InheritanceError::PlanNotFound)
        } else if self.plans.records[plan_id].owner != caller {
            Some(InheritanceError::Unauthorized)
        } else {
            None
        }
    }

    /// The plan is frozen or under a legal hold.
    pub open spec fn on_hold(self, plan_id: u64) -> bool {
        self.holds.freezes.contains_key(plan_id) || self.holds.legal_holds.contains_key(plan_id)
    }

    /// The contract with another state of one plan.
    pub open spec fn with_plan(self, plan_id: u64, plan: InheritancePlanView) -> InheritanceView {
        InheritanceView {
            plans: PlanBookView { records: self.plans.records.insert(plan_id, plan), ..self.plans },
            ..self
        }
    }

    /// The contract after an event was published.
    pub open spec fn with_event(self, event: InheritanceEventView) -> InheritanceView {
        InheritanceView { events: self.events.push(event), ..self }
    }

    /// The contract after a call to another contract.
    pub open spec fn with_call(self, call: InheritanceCall) -> InheritanceView {
        InheritanceView { calls: self.calls.push(call), ..self }
    }

    /// The contract after tokens were moved.
    pub open spec fn with_transfer(
        self,
        token: Address,
        from: Address,
        to: Address,
        amount: u64,
    ) -> InheritanceView {
        self.with_call(InheritanceCall::Transfer { token, from, to, amount })
    }

    /// The contract as deployed.
    pub open spec fn deployed() -> InheritanceView {
        InheritanceView {
            access: AccessView { roles: Map::empty(), paused: false, entered: false },
            admin: None,
            plans: PlanBookView::empty(),
            claims: ClaimBookView::empty(),
            holds: HoldBookView::empty(),
            kyc: Map::empty(),
            emergency: EmergencyBookView::empty(),
            triggers: TriggerBookView::empty(),
            wills: WillBookView::empty(),
            messages: MessageBookView::empty(),
            disputes: DisputeBookView::empty(),
            yields: YieldBookView::empty(),
            notices: NoticeBookView::empty(),
            lending_contract: None,
            governance_contract: None,
            interface_version: None,
            version: None,
            wrapped_tokens: Seq::empty(),
            events: Seq::empty(),
            calls: Seq::empty(),
        }
    }
}

/// A plan can change in every respect but its owner and whether it is active, as
/// long as it stays valid.
pub proof fn lemma_plan_update(contract: InheritanceView, plan_id: u64, plan: InheritancePlanView)
    requires
        contract.well_formed(),
        contract.plans.records.contains_key(plan_id),
        plan.owner == contract.plans.records[plan_id].owner,
        plan.is_active == contract.plans.records[plan_id].is_active,
        plan_valid(plan),
    ensures
        contract.with_plan(plan_id, plan).well_formed(),
{
    reveal(plans_valid);
    reveal(owners_listed);
    reveal(deactivated_listed);
    let before = contract.plans;
    let after = contract.with_plan(plan_id, plan).plans;
    assert forall|owner: Address, id: u64| #[trigger]
        list_of(after.by_owner, owner).contains(id) <==> after.records.contains_key(id)
            && after.records[id].owner == owner by {
        assert(list_of(before.by_owner, owner).contains(id) <==> before.records.contains_key(id)
            && before.records[id].owner == owner);
    }
    assert forall|id: u64| #[trigger]
        after.deactivated.contains(id) <==> after.records.contains_key(id)
            && !after.records[id].is_active by {
        assert(before.deactivated.contains(id) <==> before.records.contains_key(id)
            && !before.records[id].is_active);
    }
}

/// A plan on file is valid.
pub proof fn lemma_plan_on_file(contract: InheritanceView, plan_id: u64)
    requires
        contract.well_formed(),
        contract.plans.records.contains_key(plan_id),
    ensures
        plan_valid(contract.plans.records[plan_id]),
        1 <= plan_id < contract.plans.next_id,
{
    reveal(plans_valid);
}

impl InheritanceContract {
    /// The contract as deployed: no admin, no plans.
    pub fn new() -> (inheritance: InheritanceContract)
        ensures
            inheritance@ == InheritanceView::deployed(),
            inheritance@.well_formed(),
    {
        let inheritance = InheritanceContract {
            access: AccessControl::new(),
            admin: None,
            plans: PlanBook::new(),
            claims: ClaimBook::new(),
            holds: HoldBook::new(),
            kyc: Table::new(),
            emergency: EmergencyBook::new(),
            triggers: TriggerBook::new(),
            wills: WillBook::new(),
            messages: MessageBook::new(),
            disputes: DisputeBook::new(),
            yields: YieldBook::new(),
            notices: NoticeBook::new(),
            lending_contract: None,
            governance_contract: None,
            interface_version: None,
            version: None,
            wrapped_tokens: Vec::new(),
            events: List::new(),
            calls: List::new(),
        };
        proof {
            reveal(plans_valid);
            reveal(owners_listed);
            reveal(deactivated_listed);
            reveal(messages_filed);
            reveal(versions_numbered);
            reveal(contacts_bounded);
            reveal(yields_bounded);
        }
        inheritance
    }

    /// Whether the contract takes a guarded call.
    pub fn is_open_for_calls(&self) -> (open: bool)
        ensures
            open == self@.open_for_calls(),
    {
        !self.access.paused && !self.access.entered
    }

    /// Refuses a caller who is not an admin.
    pub fn require_admin(&self, env: &Env, caller: Address) -> (result: Result<
        (),
        InheritanceError,
    >)
        requires
            env.authorized(caller),
        ensures
            match result {
                Ok(()) => self@.admin_error(caller) is None,
                Err(e) => self@.admin_error(caller) == Some(e),
            },
    {
        if self.access.has_role(caller, Role::Admin) {
            Ok(())
        } else {
            Err(InheritanceError::NotAdmin)
        }
    }

    /// The plan, if the caller owns it.
    pub fn require_owner(&self, plan_id: u64, caller: Address) -> (plan: Result<
        &InheritancePlan,
        InheritanceError,
    >)
        ensures
            match plan {
                Ok(p) => self@.owner_error(plan_id, caller) is None && p@
                    == self@.plans.records[plan_id],
                Err(e) => self@.owner_error(plan_id, caller) == Some(e),
            },
    {
        match self.plans.records.get(plan_id) {
            Some(plan) => {
                if plan.owner == caller {
                    Ok(plan)
                } else {
                    Err(InheritanceError::Unauthorized)
                }
            },
            None => Err(InheritanceError::PlanNotFound),
        }
    }

    /// Whether the plan is frozen or under a legal hold.
    pub fn is_on_hold(&self, plan_id: u64) -> (held: bool)
        ensures
            held == self@.on_hold(plan_id),
    {
        self.holds.freezes.contains(plan_id) || self.holds.legal_holds.contains(plan_id)
    }

    /// Publishes an event.
    pub fn publish(&mut self, event: InheritanceEvent)
        ensures
            final(self)@ == old(self)@.with_event(event@),
    {
        self.events.push(event);
    }

    /// Records a call to another contract.
    pub fn call(&mut self, call: InheritanceCall)
        ensures
            final(self)@ == old(self)@.with_call(call),
    {
        self.calls.push(call);
    }
}

/// A plan has at most ten beneficiaries and ten emergency contacts; there are at most ten
/// relayers, twenty harvests are remembered, and a fee is at most half. The first version
/// is one.
pub proof fn law_limits()
    ensures
        CONTRACT_VERSION == 1,
        MAX_BENEFICIARIES == 10,
        MAX_EMERGENCY_CONTACTS == 10,
        MAX_YIELD_RELAYERS == 10,
        MAX_YIELD_HISTORY == 20,
        2 * MAX_PERFORMANCE_FEE_BP == 10_000,
{
}

/// Why a call that is open to admins alone is refused: every reason that is given
/// holds.
pub proof fn law_reason_admin(contract: InheritanceView, caller: Address)
    ensures
        match contract.admin_error(caller) {
            None => true,
            Some(error) => error == InheritanceError::NotAdmin && !contract.access.has(
                caller,
                Role::Admin,
            ),
        },
{
}

/// Why a call that is open to the owner of a plan alone is refused: every reason that
/// is given holds.
pub proof fn law_reason_owner(contract: InheritanceView, plan_id: u64, caller: Address)
    ensures
        match contract.owner_error(plan_id, caller) {
            None => true,
            Some(InheritanceError::PlanNotFound) => !contract.plans.records.contains_key(plan_id),
            Some(InheritanceError::Unauthorized) => contract.plans.records[plan_id].owner != caller,
            Some(_) => false,
        },
{
}

/// What is looked up where nothing is on file is an empty list.
pub proof fn law_lookups<K, T>(lists: Map<K, Seq<T>>, key: K)
    ensures
        lists.contains_key(key) ==> list_of(lists, key) == lists[key],
        !lists.contains_key(key) ==> list_of(lists, key).len() == 0,
{
}

/// A transfer is one call, from whom it is taken to whom it is given; plans and events
/// change one at a time; a freeze and a legal hold each hold a plan.
pub proof fn law_bookkeeping(
    contract: InheritanceView,
    token: Address,
    from: Address,
    to: Address,
    amount: u64,
    plan_id: u64,
    plan: InheritancePlanView,
    event: InheritanceEventView,
)
    ensures
        contract.with_transfer(token, from, to, amount) == (InheritanceView {
            calls: contract.calls.push(InheritanceCall::Transfer { token, from, to, amount }),
            ..contract
        }),
        contract.with_plan(plan_id, plan) == (InheritanceView {
            plans: PlanBookView {
                records: contract.plans.records.insert(plan_id, plan),
                ..contract.plans
            },
            ..contract
        }),
        contract.with_event(event) == (InheritanceView {
            events: contract.events.push(event),
            ..contract
        }),
        contract.on_hold(plan_id) <==> contract.holds.freezes.contains_key(plan_id)
            || contract.holds.legal_holds.contains_key(plan_id),
{
}

/// A contract that was just deployed is open, has no admin, no roles, no plans, no
/// messages, no disputes and no calls; the first plan gets the id one.
pub proof fn law_deployed()
    ensures
        ({
            let fresh = InheritanceView::deployed();
            &&& fresh.admin is None
            &&& fresh.open_for_calls()
            &&& fresh.plans.next_id == 1
            &&& forall|address: Address, role: Role| !#[trigger] fresh.access.has(address, role)
            &&& forall|id: u64| !#[trigger] fresh.plans.records.contains_key(id)
            &&& forall|id: u64| !#[trigger] fresh.messages.records.contains_key(id)
            &&& forall|id: u64| !#[trigger] fresh.disputes.records.contains_key(id)
            &&& forall|user: Address| !#[trigger] fresh.kyc.contains_key(user)
            &&& fresh.wrapped_tokens.len() == 0
            &&& fresh.lending_contract is None
            &&& fresh.governance_contract is None
            &&& fresh.version is None
            &&& fresh.events.len() == 0
            &&& fresh.calls.len() == 0
        }),
{
}

} // verus!
