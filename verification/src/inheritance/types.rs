//! What the inheritance contract stores and publishes, and why it refuses a call.
use vstd::prelude::*;

use crate::host::Address;
use crate::inheritance::hashing::Digest;
use crate::list::{Duplicate, List};
use crate::table::Key;

verus! {

/// How the vault of a plan is paid out.
#[derive(Clone, Copy, Debug, PartialEq, Eq, Structural)]
pub enum DistributionMethod {
    LumpSum,
    Monthly,
    Quarterly,
    Yearly,
}

/// What can trigger inheritance.
#[derive(Clone, Copy, Debug, PartialEq, Eq, Structural)]
pub enum TriggerConditionType {
    Manual,
    Time,
    Inactivity,
    Oracle,
    Health,
}

impl Key for TriggerConditionType {
    fn same(&self, other: &Self) -> (equal: bool) {
        *self == *other
    }
}

/// How far a dispute has come.
#[derive(Clone, Copy, Debug, PartialEq, Eq, Structural)]
pub enum DisputeStatus {
    Filed,
    UnderReview,
    Resolved,
    Rejected,
}

/// A contract that can be linked to the inheritance contract.
#[derive(Clone, Copy, Debug, PartialEq, Eq, Structural)]
pub enum LinkedContract {
    Lending,
    Governance,
}

/// A beneficiary of a plan. Names, emails and claim codes are stored as hashes.
#[derive(Clone, Debug)]
pub struct Beneficiary {
    pub hashed_full_name: Digest,
    pub hashed_email: Digest,
    pub hashed_claim_code: Digest,
    /// Plain text for fiat settlement (MVP trade-off)
    pub bank_account: Vec<u8>,
    /// Allocation in basis points (0-10000, where 10000 = 100%)
    pub allocation_bp: u32,
    /// Priority level (1=highest)
    pub priority: u32,
    /// Whether the beneficiary has already claimed their portion
    pub is_claimed: bool,
}

/// The model of [`Beneficiary`].
#[verifier::ext_equal]
pub struct BeneficiaryView {
    pub hashed_full_name: Digest,
    pub hashed_email: Digest,
    pub hashed_claim_code: Digest,
    pub bank_account: Seq<u8>,
    pub allocation_bp: u32,
    pub priority: u32,
    pub is_claimed: bool,
}

impl View for Beneficiary {
    type V = BeneficiaryView;

    open spec fn view(&self) -> BeneficiaryView {
        BeneficiaryView {
            hashed_full_name: self.hashed_full_name,
            hashed_email: self.hashed_email,
            hashed_claim_code: self.hashed_claim_code,
            bank_account: self.bank_account@,
            allocation_bp: self.allocation_bp,
            priority: self.priority,
            is_claimed: self.is_claimed,
        }
    }
}

impl Duplicate for Beneficiary {
    fn duplicate(&self) -> (copy: Beneficiary) {
        Beneficiary {
            hashed_full_name: self.hashed_full_name,
            hashed_email: self.hashed_email,
            hashed_claim_code: self.hashed_claim_code,
            bank_account: self.bank_account.clone(),
            allocation_bp: self.allocation_bp,
            priority: self.priority,
            is_claimed: self.is_claimed,
        }
    }
}

/// What an owner states of a beneficiary.
#[derive(Clone, Debug)]
pub struct BeneficiaryInput {
    pub name: Vec<u8>,
    pub email: Vec<u8>,
    pub claim_code: u32,
    pub bank_account: Vec<u8>,
    pub allocation_bp: u32,
    pub priority: u32,
}

/// The model of [`BeneficiaryInput`].
#[verifier::ext_equal]
pub struct BeneficiaryInputView {
    pub name: Seq<u8>,
    pub email: Seq<u8>,
    pub claim_code: u32,
    pub bank_account: Seq<u8>,
    pub allocation_bp: u32,
    pub priority: u32,
}

impl View for BeneficiaryInput {
    type V = BeneficiaryInputView;

    open spec fn view(&self) -> BeneficiaryInputView {
        BeneficiaryInputView {
            name: self.name@,
            email: self.email@,
            claim_code: self.claim_code,
            bank_account: self.bank_account@,
            allocation_bp: self.allocation_bp,
            priority: self.priority,
        }
    }
}

impl Duplicate for BeneficiaryInput {
    fn duplicate(&self) -> (copy: BeneficiaryInput) {
        BeneficiaryInput {
            name: self.name.clone(),
            email: self.email.clone(),
            claim_code: self.claim_code,
            bank_account: self.bank_account.clone(),
            allocation_bp: self.allocation_bp,
            priority: self.priority,
        }
    }
}

/// An inheritance plan: a vault and who inherits from it.
#[derive(Clone, Debug)]
pub struct InheritancePlan {
    pub plan_name: Vec<u8>,
    pub description: Vec<u8>,
    /// Only USDC allowed
    pub asset_type: Vec<u8>,
    pub total_amount: u64,
    pub distribution_method: DistributionMethod,
    pub beneficiaries: List<Beneficiary>,
    /// Total allocation in basis points
    pub total_allocation_bp: u32,
    /// Plan owner
    pub owner: Address,
    pub created_at: u64,
    /// Plan activation status
    pub is_active: bool,
    pub is_lendable: bool,
    pub total_loaned: u64,
    pub waterfall_enabled: bool,
    pub grace_period: u64,
    pub earn_yield: bool,
}

/// The model of [`InheritancePlan`].
#[verifier::ext_equal]
pub struct InheritancePlanView {
    pub plan_name: Seq<u8>,
    pub description: Seq<u8>,
    pub asset_type: Seq<u8>,
    pub total_amount: u64,
    pub distribution_method: DistributionMethod,
    pub beneficiaries: Seq<BeneficiaryView>,
    pub total_allocation_bp: u32,
    pub owner: Address,
    pub created_at: u64,
    pub is_active: bool,
    pub is_lendable: bool,
    pub total_loaned: u64,
    pub waterfall_enabled: bool,
    pub grace_period: u64,
    pub earn_yield: bool,
}

impl View for InheritancePlan {
    type V = InheritancePlanView;

    open spec fn view(&self) -> InheritancePlanView {
        InheritancePlanView {
            plan_name: self.plan_name@,
            description: self.description@,
            asset_type: self.asset_type@,
            total_amount: self.total_amount,
            distribution_method: self.distribution_method,
            beneficiaries: self.beneficiaries@,
            total_allocation_bp: self.total_allocation_bp,
            owner: self.owner,
            created_at: self.created_at,
            is_active: self.is_active,
            is_lendable: self.is_lendable,
            total_loaned: self.total_loaned,
            waterfall_enabled: self.waterfall_enabled,
            grace_period: self.grace_period,
            earn_yield: self.earn_yield,
        }
    }
}

impl Duplicate for InheritancePlan {
    fn duplicate(&self) -> (copy: InheritancePlan) {
        InheritancePlan {
            plan_name: self.plan_name.clone(),
            description: self.description.clone(),
            asset_type: self.asset_type.clone(),
            total_amount: self.total_amount,
            distribution_method: self.distribution_method,
            beneficiaries: self.beneficiaries.duplicate(),
            total_allocation_bp: self.total_allocation_bp,
            owner: self.owner,
            created_at: self.created_at,
            is_active: self.is_active,
            is_lendable: self.is_lendable,
            total_loaned: self.total_loaned,
            waterfall_enabled: self.waterfall_enabled,
            grace_period: self.grace_period,
            earn_yield: self.earn_yield,
        }
    }
}

/// The guardians of a plan, and how many of them must approve emergency access.
#[derive(Clone, Debug)]
pub struct GuardianConfig {
    pub guardians: Vec<Address>,
    pub threshold: u32,
}

/// The model of [`GuardianConfig`].
#[verifier::ext_equal]
pub struct GuardianConfigView {
    pub guardians: Seq<Address>,
    pub threshold: u32,
}

impl View for GuardianConfig {
    type V = GuardianConfigView;

    open spec fn view(&self) -> GuardianConfigView {
        GuardianConfigView {
            guardians: self.guardians@,
            threshold: self.threshold,
        }
    }
}

impl Duplicate for GuardianConfig {
    fn duplicate(&self) -> (copy: GuardianConfig) {
        GuardianConfig {
            guardians: self.guardians.clone(),
            threshold: self.threshold,
        }
    }
}

/// A claim that was paid in full.
#[derive(Clone, Copy, Debug, PartialEq, Eq, Structural)]
pub struct ClaimRecord {
    pub plan_id: u64,
    pub beneficiary_index: u32,
    pub claimed_at: u64,
}

impl View for ClaimRecord {
    type V = ClaimRecord;

    open spec fn view(&self) -> ClaimRecord {
        *self
    }
}

/// Attempts to claim since the window was opened.
#[derive(Clone, Copy, Debug, PartialEq, Eq, Structural)]
pub struct ClaimAttemptWindow {
    pub window_start: u64,
    pub attempts: u32,
}

impl View for ClaimAttemptWindow {
    type V = ClaimAttemptWindow;

    open spec fn view(&self) -> ClaimAttemptWindow {
        *self
    }
}

/// How far the identification of a user has come.
#[derive(Clone, Copy, Debug, PartialEq, Eq, Structural)]
pub struct KycStatus {
    pub submitted: bool,
    pub approved: bool,
    pub rejected: bool,
    pub submitted_at: u64,
    pub approved_at: u64,
    pub rejected_at: u64,
}

impl View for KycStatus {
    type V = KycStatus;

    open spec fn view(&self) -> KycStatus {
        *self
    }
}

/// That inheritance was triggered for a plan, and what became of its loans.
#[derive(Clone, Copy, Debug, PartialEq, Eq, Structural)]
pub struct InheritanceTriggerInfo {
    pub triggered_at: u64,
    pub loan_freeze_active: bool,
    pub recall_attempted: bool,
    pub liquidation_triggered: bool,
    pub original_loaned: u64,
    pub recalled_amount: u64,
    pub settled_amount: u64,
}

impl View for InheritanceTriggerInfo {
    type V = InheritanceTriggerInfo;

    open spec fn view(&self) -> InheritanceTriggerInfo {
        *self
    }
}

/// Emergency access that was granted to a trusted contact.
#[derive(Clone, Copy, Debug, PartialEq, Eq, Structural)]
pub struct EmergencyAccessRecord {
    pub plan_id: u64,
    pub trusted_contact: Address,
    pub activated_at: u64,
}

impl View for EmergencyAccessRecord {
    type V = EmergencyAccessRecord;

    open spec fn view(&self) -> EmergencyAccessRecord {
        *self
    }
}

/// Published as [`InheritanceEvent`].
#[derive(Clone, Copy, Debug, PartialEq, Eq)]
pub struct BeneficiaryAddedEvent {
    pub plan_id: u64,
    pub hashed_email: Digest,
    pub allocation_bp: u32,
}

/// Published as [`InheritanceEvent`].
#[derive(Clone, Copy, Debug, PartialEq, Eq, Structural)]
pub struct BeneficiaryRemovedEvent {
    pub plan_id: u64,
    pub index: u32,
    pub allocation_bp: u32,
}

/// Published as [`InheritanceEvent`].
#[derive(Clone, Copy, Debug, PartialEq, Eq, Structural)]
pub struct PlanDeactivatedEvent {
    pub plan_id: u64,
    pub owner: Address,
    pub total_amount: u64,
    pub deactivated_at: u64,
}

/// Published as [`InheritanceEvent`].
#[derive(Clone, Copy, Debug, PartialEq, Eq, Structural)]
pub struct KycApprovedEvent {
    pub user: Address,
    pub approved_at: u64,
}

/// Published as [`InheritanceEvent`].
#[derive(Clone, Copy, Debug, PartialEq, Eq, Structural)]
pub struct KycRejectedEvent {
    pub user: Address,
    pub rejected_at: u64,
}

/// Published as [`InheritanceEvent`].
#[derive(Clone, Copy, Debug, PartialEq, Eq, Structural)]
pub struct ContractLinkedEvent {
    pub contract_type: LinkedContract,
    pub address: Address,
}

/// Per-plan yield policy, set by the owner or an admin.
///
/// Defaults (see [`YieldConfig::default_config`]) are deliberately permissive:
/// compound everything, immediately, with no protocol cut. A plan only becomes
/// more restrictive if somebody configures it that way.
#[derive(Clone, Copy, Debug, PartialEq, Eq, Structural)]
pub struct YieldConfig {
    /// When true, a harvest adds straight to `total_amount`. When false it
    /// accrues to `pending_credit` for a later `compound_pending_yield` call,
    /// so an owner can review before the balance moves.
    pub auto_compound: bool,
    /// Smallest harvest worth executing. Below this the call reports
    /// `NothingToClaim` rather than burning gas on dust.
    pub min_harvest_amount: u64,
    /// Minimum seconds between harvests. Zero disables the cooldown.
    pub harvest_interval: u64,
    /// Protocol cut of each harvest, in basis points, capped at 50%. The fee
    /// is simply not compounded — it stays with the pool rather than moving
    /// tokens, since a harvest is a bookkeeping credit, not a transfer.
    pub performance_fee_bp: u32,
}

impl View for YieldConfig {
    type V = YieldConfig;

    open spec fn view(&self) -> YieldConfig {
        *self
    }
}

impl YieldConfig {
    /// Compound everything, immediately, with no fee.
    pub open spec fn spec_default() -> YieldConfig {
        YieldConfig {
            auto_compound: true,
            min_harvest_amount: 0,
            harvest_interval: 0,
            performance_fee_bp: 0,
        }
    }

    /// Compound everything, immediately, with no fee.
    pub fn default_config() -> (config: YieldConfig)
        ensures
            config == YieldConfig::spec_default(),
    {
        YieldConfig {
            auto_compound: true,
            min_harvest_amount: 0,
            harvest_interval: 0,
            performance_fee_bp: 0,
        }
    }
}

/// One entry in a plan's harvest history.
#[derive(Clone, Copy, Debug, PartialEq, Eq, Structural)]
pub struct YieldHarvestRecord {
    pub gross_amount: u64,
    pub net_amount: u64,
    pub fee_amount: u64,
    pub harvested_at: u64,
    pub harvested_by: Address,
    pub compounded: bool,
}

impl View for YieldHarvestRecord {
    type V = YieldHarvestRecord;

    open spec fn view(&self) -> YieldHarvestRecord {
        *self
    }
}

impl Duplicate for YieldHarvestRecord {
    fn duplicate(&self) -> (copy: YieldHarvestRecord) {
        *self
    }
}

/// Per-plan yield bookkeeping, created when the plan's position is registered
/// with the lending pool.
#[derive(Clone, Debug)]
pub struct PlanYieldState {
    pub asset: Address,
    pub registered_at: u64,
    pub last_harvest_at: u64,
    pub total_harvested: u64,
    pub total_compounded: u64,
    pub total_fees_paid: u64,
    pub harvest_count: u32,
    pub last_harvest_amount: u64,
    pub registered_principal: u64,
    pub pending_credit: u64,
    pub paused: bool,
    pub config: YieldConfig,
    pub history: List<YieldHarvestRecord>,
}

/// The model of [`PlanYieldState`].
#[verifier::ext_equal]
pub struct PlanYieldStateView {
    pub asset: Address,
    pub registered_at: u64,
    pub last_harvest_at: u64,
    pub total_harvested: u64,
    pub total_compounded: u64,
    pub total_fees_paid: u64,
    pub harvest_count: u32,
    pub last_harvest_amount: u64,
    pub registered_principal: u64,
    pub pending_credit: u64,
    pub paused: bool,
    pub config: YieldConfig,
    pub history: Seq<YieldHarvestRecord>,
}

impl View for PlanYieldState {
    type V = PlanYieldStateView;

    open spec fn view(&self) -> PlanYieldStateView {
        PlanYieldStateView {
            asset: self.asset,
            registered_at: self.registered_at,
            last_harvest_at: self.last_harvest_at,
            total_harvested: self.total_harvested,
            total_compounded: self.total_compounded,
            total_fees_paid: self.total_fees_paid,
            harvest_count: self.harvest_count,
            last_harvest_amount: self.last_harvest_amount,
            registered_principal: self.registered_principal,
            pending_credit: self.pending_credit,
            paused: self.paused,
            config: self.config,
            history: self.history@,
        }
    }
}

impl Duplicate for PlanYieldState {
    fn duplicate(&self) -> (copy: PlanYieldState) {
        PlanYieldState {
            asset: self.asset,
            registered_at: self.registered_at,
            last_harvest_at: self.last_harvest_at,
            total_harvested: self.total_harvested,
            total_compounded: self.total_compounded,
            total_fees_paid: self.total_fees_paid,
            harvest_count: self.harvest_count,
            last_harvest_amount: self.last_harvest_amount,
            registered_principal: self.registered_principal,
            pending_credit: self.pending_credit,
            paused: self.paused,
            config: self.config,
            history: self.history.duplicate(),
        }
    }
}

/// Everything a caller needs to render a plan's yield position, in one read.
#[derive(Clone, Copy, Debug, PartialEq, Eq, Structural)]
pub struct YieldSummary {
    pub plan_id: u64,
    pub asset: Address,
    pub registered_principal: u64,
    pub total_harvested: u64,
    pub total_fees_paid: u64,
    pub pending_credit: u64,
    pub harvest_count: u32,
    pub last_harvest_at: u64,
    pub last_harvest_amount: u64,
    pub next_harvest_at: u64,
    pub paused: bool,
    pub auto_compound: bool,
}

/// Published as [`InheritanceEvent`].
#[derive(Clone, Copy, Debug, PartialEq, Eq, Structural)]
pub struct YieldHarvestedEvent {
    pub plan_id: u64,
    pub yield_amount: u64,
    pub new_total_amount: u64,
    pub harvested_at: u64,
}

/// Published as [`InheritanceEvent`].
#[derive(Clone, Copy, Debug, PartialEq, Eq, Structural)]
pub struct YieldFeeCollectedEvent {
    pub plan_id: u64,
    pub gross_amount: u64,
    pub fee_amount: u64,
    pub fee_bp: u32,
}

/// Published as [`InheritanceEvent`].
#[derive(Clone, Copy, Debug, PartialEq, Eq, Structural)]
pub struct YieldConfigUpdatedEvent {
    pub plan_id: u64,
    pub auto_compound: bool,
    pub min_harvest_amount: u64,
    pub harvest_interval: u64,
    pub performance_fee_bp: u32,
}

/// Published as [`InheritanceEvent`].
#[derive(Clone, Copy, Debug, PartialEq, Eq, Structural)]
pub struct YieldPausedEvent {
    pub plan_id: u64,
    pub paused: bool,
}

/// Published as [`InheritanceEvent`].
#[derive(Clone, Copy, Debug, PartialEq, Eq, Structural)]
pub struct YieldBatchHarvestEvent {
    pub success_count: u32,
    pub fail_count: u32,
    pub total_harvested: u64,
}

/// Published as [`InheritanceEvent`].
#[derive(Clone, Copy, Debug, PartialEq, Eq, Structural)]
pub struct YieldPositionRegisteredEvent {
    pub plan_id: u64,
    pub asset: Address,
    pub principal: u64,
}

/// Published as [`InheritanceEvent`].
#[derive(Clone, Copy, Debug, PartialEq, Eq, Structural)]
pub struct YieldRelayerUpdatedEvent {
    pub relayer: Address,
    pub authorized: bool,
}

/// Published as [`InheritanceEvent`].
#[derive(Clone, Copy, Debug, PartialEq, Eq)]
pub struct ContractUpgradedEvent {
    pub old_version: u32,
    pub new_version: u32,
    pub new_wasm_hash: Digest,
    pub admin: Address,
    pub upgraded_at: u64,
}

/// Published as [`InheritanceEvent`].
#[derive(Clone, Copy, Debug, PartialEq, Eq, Structural)]
pub struct VaultDepositEvent {
    pub plan_id: u64,
    pub amount: u64,
}

/// Published as [`InheritanceEvent`].
#[derive(Clone, Copy, Debug, PartialEq, Eq, Structural)]
pub struct VaultWithdrawEvent {
    pub plan_id: u64,
    pub amount: u64,
}

/// Published as [`InheritanceEvent`].
#[derive(Clone, Copy, Debug, PartialEq, Eq, Structural)]
pub struct VaultLendableChangedEvent {
    pub plan_id: u64,
    pub is_lendable: bool,
}

/// Published as [`InheritanceEvent`].
#[derive(Clone, Copy, Debug, PartialEq, Eq, Structural)]
pub struct GracePeriodUpdatedEvent {
    pub plan_id: u64,
    pub new_grace_period: u64,
}

/// Published as [`InheritanceEvent`].
#[derive(Clone, Copy, Debug, PartialEq, Eq, Structural)]
pub struct InheritanceTriggeredEvent {
    pub plan_id: u64,
    pub triggered_at: u64,
    pub outstanding_loans: u64,
}

/// Published as [`InheritanceEvent`].
#[derive(Clone, Copy, Debug, PartialEq, Eq, Structural)]
pub struct LoanFreezeEvent {
    pub plan_id: u64,
    pub frozen_at: u64,
}

/// Published as [`InheritanceEvent`].
#[derive(Clone, Copy, Debug, PartialEq, Eq, Structural)]
pub struct LoanRecallEvent {
    pub plan_id: u64,
    pub recalled_amount: u64,
    pub remaining_loaned: u64,
}

/// Published as [`InheritanceEvent`].
#[derive(Clone, Copy, Debug, PartialEq, Eq, Structural)]
pub struct LiquidationFallbackEvent {
    pub plan_id: u64,
    pub settled_amount: u64,
    pub claimable_amount: u64,
}

/// Published as [`InheritanceEvent`].
#[derive(Clone, Copy, Debug, PartialEq, Eq, Structural)]
pub struct EmergencyAccessActivationEvent {
    pub user: Address,
    pub activated_at: u64,
}

/// Published as [`InheritanceEvent`].
#[derive(Clone, Copy, Debug, PartialEq, Eq, Structural)]
pub struct EmergencyAccessRevocationEvent {
    pub plan_id: u64,
    pub revoked_at: u64,
}

/// Published as [`InheritanceEvent`].
#[derive(Clone, Copy, Debug, PartialEq, Eq, Structural)]
pub struct EmergencyAccessApprovedEvent {
    pub plan_id: u64,
    pub trusted_contact: Address,
    pub guardian: Address,
    pub approvals_count: u32,
}

/// Published as [`InheritanceEvent`].
#[derive(Clone, Copy, Debug, PartialEq, Eq, Structural)]
pub struct EmergencyAccessExpirationEvent {
    pub plan_id: u64,
    pub expired_at: u64,
}

/// Published as [`InheritanceEvent`].
#[derive(Clone, Copy, Debug, PartialEq, Eq, Structural)]
pub struct EmergencyAccessActivatedEvent {
    pub plan_id: u64,
    pub trusted_contact: Address,
    pub activated_at: u64,
}

/// Published as [`InheritanceEvent`].
#[derive(Clone, Copy, Debug, PartialEq, Eq, Structural)]
pub struct EmergencyContactAddedEvent {
    pub plan_id: u64,
    pub contact: Address,
}

/// Published as [`InheritanceEvent`].
#[derive(Clone, Copy, Debug, PartialEq, Eq, Structural)]
pub struct WaterfallEnabledEvent {
    pub plan_id: u64,
    pub enabled_at: u64,
}

/// Published as [`InheritanceEvent`].
#[derive(Clone, Copy, Debug, PartialEq, Eq, Structural)]
pub struct PrioritySetEvent {
    pub plan_id: u64,
    pub beneficiary_index: u32,
    pub priority: u32,
}

/// Legacy message metadata stored on-chain
#[derive(Clone, Debug)]
pub struct LegacyMessageMetadata {
    /// Associated vault/plan ID
    pub vault_id: u64,
    /// Unique message identifier
    pub message_id: u64,
    /// Cryptographic hash of message content (off-chain)
    pub message_hash: Digest,
    /// Message creator (vault owner)
    pub creator: Address,
    /// Reference for decryption key
    pub key_reference: Vec<u8>,
    /// Timestamp when message becomes accessible
    pub unlock_timestamp: u64,
    /// Whether message has been unlocked
    pub is_unlocked: bool,
    /// Whether message has been finalized
    pub is_finalized: bool,
    /// Message creation timestamp
    pub created_at: u64,
}

/// The model of [`LegacyMessageMetadata`].
#[verifier::ext_equal]
pub struct LegacyMessageMetadataView {
    pub vault_id: u64,
    pub message_id: u64,
    pub message_hash: Digest,
    pub creator: Address,
    pub key_reference: Seq<u8>,
    pub unlock_timestamp: u64,
    pub is_unlocked: bool,
    pub is_finalized: bool,
    pub created_at: u64,
}

impl View for LegacyMessageMetadata {
    type V = LegacyMessageMetadataView;

    open spec fn view(&self) -> LegacyMessageMetadataView {
        LegacyMessageMetadataView {
            vault_id: self.vault_id,
            message_id: self.message_id,
            message_hash: self.message_hash,
            creator: self.creator,
            key_reference: self.key_reference@,
            unlock_timestamp: self.unlock_timestamp,
            is_unlocked: self.is_unlocked,
            is_finalized: self.is_finalized,
            created_at: self.created_at,
        }
    }
}

impl Duplicate for LegacyMessageMetadata {
    fn duplicate(&self) -> (copy: LegacyMessageMetadata) {
        LegacyMessageMetadata {
            vault_id: self.vault_id,
            message_id: self.message_id,
            message_hash: self.message_hash,
            creator: self.creator,
            key_reference: self.key_reference.clone(),
            unlock_timestamp: self.unlock_timestamp,
            is_unlocked: self.is_unlocked,
            is_finalized: self.is_finalized,
            created_at: self.created_at,
        }
    }
}

/// Parameters for creating a legacy message
#[derive(Clone, Debug)]
pub struct CreateLegacyMessageParams {
    pub vault_id: u64,
    pub message_hash: Digest,
    pub unlock_timestamp: u64,
    /// Addition for #364
    pub key_reference: Vec<u8>,
}

/// The model of [`CreateLegacyMessageParams`].
#[verifier::ext_equal]
pub struct CreateLegacyMessageParamsView {
    pub vault_id: u64,
    pub message_hash: Digest,
    pub unlock_timestamp: u64,
    pub key_reference: Seq<u8>,
}

impl View for CreateLegacyMessageParams {
    type V = CreateLegacyMessageParamsView;

    open spec fn view(&self) -> CreateLegacyMessageParamsView {
        CreateLegacyMessageParamsView {
            vault_id: self.vault_id,
            message_hash: self.message_hash,
            unlock_timestamp: self.unlock_timestamp,
            key_reference: self.key_reference@,
        }
    }
}

impl Duplicate for CreateLegacyMessageParams {
    fn duplicate(&self) -> (copy: CreateLegacyMessageParams) {
        CreateLegacyMessageParams {
            vault_id: self.vault_id,
            message_hash: self.message_hash,
            unlock_timestamp: self.unlock_timestamp,
            key_reference: self.key_reference.clone(),
        }
    }
}

/// Event emitted when a legacy message is created
#[derive(Clone, Copy, Debug, PartialEq, Eq, Structural)]
pub struct MessageCreatedEvent {
    pub vault_id: u64,
    pub message_id: u64,
    pub timestamp: u64,
}

/// Published as [`InheritanceEvent`].
#[derive(Clone, Copy, Debug, PartialEq, Eq, Structural)]
pub struct MessageUpdatedEvent {
    pub vault_id: u64,
    pub message_id: u64,
    pub timestamp: u64,
}

/// Published as [`InheritanceEvent`].
#[derive(Clone, Copy, Debug, PartialEq, Eq, Structural)]
pub struct MessageFinalizedEvent {
    pub vault_id: u64,
    pub message_id: u64,
    pub timestamp: u64,
}

/// Event emitted when a legacy message is deleted
#[derive(Clone, Copy, Debug, PartialEq, Eq, Structural)]
pub struct MessageDeletedEvent {
    pub vault_id: u64,
    pub message_id: u64,
    pub timestamp: u64,
}

/// Event emitted when a message is unlocked
#[derive(Clone, Copy, Debug, PartialEq, Eq, Structural)]
pub struct MessageUnlockedEvent {
    pub vault_id: u64,
    pub message_id: u64,
    pub timestamp: u64,
}

/// Published as [`InheritanceEvent`].
#[derive(Clone, Copy, Debug, PartialEq, Eq, Structural)]
pub struct MessageAccessedEvent {
    pub vault_id: u64,
    pub message_id: u64,
    pub timestamp: u64,
}

/// Published as [`InheritanceEvent`].
#[derive(Clone, Copy, Debug, PartialEq, Eq, Structural)]
pub struct EmergencyContactRemovedEvent {
    pub plan_id: u64,
    pub contact: Address,
}

/// A version of a will.
#[derive(Clone, Copy, Debug, PartialEq, Eq)]
pub struct WillVersionInfo {
    pub version: u32,
    pub will_hash: Digest,
    pub created_at: u64,
    pub is_active: bool,
}

impl View for WillVersionInfo {
    type V = WillVersionInfo;

    open spec fn view(&self) -> WillVersionInfo {
        *self
    }
}

/// Published as [`InheritanceEvent`].
#[derive(Clone, Copy, Debug, PartialEq, Eq)]
pub struct WillHashStoredEvent {
    pub plan_id: u64,
    pub will_hash: Digest,
}

/// Published as [`InheritanceEvent`].
#[derive(Clone, Copy, Debug, PartialEq, Eq)]
pub struct WillLinkedToVaultEvent {
    pub plan_id: u64,
    pub will_hash: Digest,
}

/// Published as [`InheritanceEvent`].
#[derive(Clone, Copy, Debug, PartialEq, Eq, Structural)]
pub struct BeneficiariesVerifiedEvent {
    pub plan_id: u64,
    pub status: bool,
}

/// Published as [`InheritanceEvent`].
#[derive(Clone, Copy, Debug, PartialEq, Eq, Structural)]
pub struct WillVersionCreatedEvent {
    pub plan_id: u64,
    pub version: u32,
}

/// Published as [`InheritanceEvent`].
#[derive(Clone, Copy, Debug, PartialEq, Eq, Structural)]
pub struct WillVersionActivatedEvent {
    pub plan_id: u64,
    pub version: u32,
}

/// Published as [`InheritanceEvent`].
#[derive(Clone, Copy, Debug, PartialEq, Eq, Structural)]
pub struct BatchBeneficiariesAddedEvent {
    pub plan_id: u64,
    pub success_count: u32,
    pub fail_count: u32,
}

/// Published as [`InheritanceEvent`].
#[derive(Clone, Copy, Debug, PartialEq, Eq, Structural)]
pub struct BatchBeneficiariesRemovedEvent {
    pub plan_id: u64,
    pub success_count: u32,
    pub fail_count: u32,
}

/// Published as [`InheritanceEvent`].
#[derive(Clone, Copy, Debug, PartialEq, Eq, Structural)]
pub struct BatchAllocationsUpdatedEvent {
    pub plan_id: u64,
    pub success_count: u32,
}

/// Published as [`InheritanceEvent`].
#[derive(Clone, Copy, Debug, PartialEq, Eq, Structural)]
pub struct BatchKycApprovedEvent {
    pub success_count: u32,
    pub fail_count: u32,
}

/// Published as [`InheritanceEvent`].
#[derive(Clone, Copy, Debug, PartialEq, Eq, Structural)]
pub struct BatchMessagesCreatedEvent {
    pub vault_id: u64,
    pub success_count: u32,
    pub fail_count: u32,
}

/// Published as [`InheritanceEvent`].
#[derive(Clone, Copy, Debug, PartialEq, Eq, Structural)]
pub struct BatchClaimEvent {
    pub plan_id: u64,
    pub success_count: u32,
    pub fail_count: u32,
}

/// That the owner signed a will.
#[derive(Clone, Copy, Debug, PartialEq, Eq)]
pub struct WillSignatureProof {
    pub vault_id: u64,
    pub will_hash: Digest,
    pub signer: Address,
    pub sig_hash: Digest,
    pub signed_at: u64,
}

impl View for WillSignatureProof {
    type V = WillSignatureProof;

    open spec fn view(&self) -> WillSignatureProof {
        *self
    }
}

/// Published as [`InheritanceEvent`].
#[derive(Clone, Copy, Debug, PartialEq, Eq, Structural)]
pub struct WillSignedEvent {
    pub vault_id: u64,
    pub signer: Address,
}

/// Published as [`InheritanceEvent`].
#[derive(Clone, Copy, Debug, PartialEq, Eq, Structural)]
pub struct WillFinalizedEvent {
    pub vault_id: u64,
    pub version: u32,
    pub finalized_at: u64,
}

/// Published as [`InheritanceEvent`].
#[derive(Clone, Copy, Debug, PartialEq, Eq, Structural)]
pub struct WitnessAddedEvent {
    pub vault_id: u64,
    pub witness: Address,
}

/// Published as [`InheritanceEvent`].
#[derive(Clone, Copy, Debug, PartialEq, Eq, Structural)]
pub struct WitnessSignedEvent {
    pub vault_id: u64,
    pub witness: Address,
}

/// Published as [`InheritanceEvent`].
#[derive(Clone, Copy, Debug, PartialEq, Eq, Structural)]
pub struct PlanOwnershipTransferredEvent {
    pub plan_id: u64,
    pub old_owner: Address,
    pub new_owner: Address,
    pub transferred_at: u64,
}

/// The conditions on which inheritance is triggered for a plan.
#[derive(Clone, Debug)]
pub struct TriggerConfig {
    pub conditions: Vec<TriggerConditionType>,
    pub trigger_date: u64,
    pub inactivity_period: u64,
    pub last_activity: u64,
    pub oracle_address: Option<Address>,
    pub oracle_triggered: bool,
    pub health_triggered: bool,
}

/// The model of [`TriggerConfig`].
#[verifier::ext_equal]
pub struct TriggerConfigView {
    pub conditions: Seq<TriggerConditionType>,
    pub trigger_date: u64,
    pub inactivity_period: u64,
    pub last_activity: u64,
    pub oracle_address: Option<Address>,
    pub oracle_triggered: bool,
    pub health_triggered: bool,
}

impl View for TriggerConfig {
    type V = TriggerConfigView;

    open spec fn view(&self) -> TriggerConfigView {
        TriggerConfigView {
            conditions: self.conditions@,
            trigger_date: self.trigger_date,
            inactivity_period: self.inactivity_period,
            last_activity: self.last_activity,
            oracle_address: self.oracle_address,
            oracle_triggered: self.oracle_triggered,
            health_triggered: self.health_triggered,
        }
    }
}

impl Duplicate for TriggerConfig {
    fn duplicate(&self) -> (copy: TriggerConfig) {
        TriggerConfig {
            conditions: self.conditions.clone(),
            trigger_date: self.trigger_date,
            inactivity_period: self.inactivity_period,
            last_activity: self.last_activity,
            oracle_address: self.oracle_address,
            oracle_triggered: self.oracle_triggered,
            health_triggered: self.health_triggered,
        }
    }
}

/// Published as [`InheritanceEvent`].
#[derive(Clone, Copy, Debug, PartialEq, Eq, Structural)]
pub struct TriggerConditionSetEvent {
    pub plan_id: u64,
    pub conditions_count: u32,
}

/// Published as [`InheritanceEvent`].
#[derive(Clone, Copy, Debug, PartialEq, Eq, Structural)]
pub struct TriggerConditionMetEvent {
    pub plan_id: u64,
    pub triggered_at: u64,
}

/// Parameters for creating an inheritance plan.
#[derive(Clone, Debug)]
pub struct CreateInheritancePlanParams {
    pub owner: Address,
    pub token: Address,
    pub plan_name: Vec<u8>,
    pub description: Vec<u8>,
    pub total_amount: u64,
    pub distribution_method: DistributionMethod,
    pub beneficiaries_data: List<BeneficiaryInput>,
    pub is_lendable: bool,
}

/// The model of [`CreateInheritancePlanParams`].
#[verifier::ext_equal]
pub struct CreateInheritancePlanParamsView {
    pub owner: Address,
    pub token: Address,
    pub plan_name: Seq<u8>,
    pub description: Seq<u8>,
    pub total_amount: u64,
    pub distribution_method: DistributionMethod,
    pub beneficiaries_data: Seq<BeneficiaryInputView>,
    pub is_lendable: bool,
}

impl View for CreateInheritancePlanParams {
    type V = CreateInheritancePlanParamsView;

    open spec fn view(&self) -> CreateInheritancePlanParamsView {
        CreateInheritancePlanParamsView {
            owner: self.owner,
            token: self.token,
            plan_name: self.plan_name@,
            description: self.description@,
            total_amount: self.total_amount,
            distribution_method: self.distribution_method,
            beneficiaries_data: self.beneficiaries_data@,
            is_lendable: self.is_lendable,
        }
    }
}

impl Duplicate for CreateInheritancePlanParams {
    fn duplicate(&self) -> (copy: CreateInheritancePlanParams) {
        CreateInheritancePlanParams {
            owner: self.owner,
            token: self.token,
            plan_name: self.plan_name.clone(),
            description: self.description.clone(),
            total_amount: self.total_amount,
            distribution_method: self.distribution_method,
            beneficiaries_data: self.beneficiaries_data.duplicate(),
            is_lendable: self.is_lendable,
        }
    }
}

/// That a plan is frozen.
#[derive(Clone, Debug)]
pub struct FreezeRecord {
    pub plan_id: u64,
    pub frozen_at: u64,
    pub reason: Vec<u8>,
    pub frozen_by: Address,
}

/// The model of [`FreezeRecord`].
#[verifier::ext_equal]
pub struct FreezeRecordView {
    pub plan_id: u64,
    pub frozen_at: u64,
    pub reason: Seq<u8>,
    pub frozen_by: Address,
}

impl View for FreezeRecord {
    type V = FreezeRecordView;

    open spec fn view(&self) -> FreezeRecordView {
        FreezeRecordView {
            plan_id: self.plan_id,
            frozen_at: self.frozen_at,
            reason: self.reason@,
            frozen_by: self.frozen_by,
        }
    }
}

impl Duplicate for FreezeRecord {
    fn duplicate(&self) -> (copy: FreezeRecord) {
        FreezeRecord {
            plan_id: self.plan_id,
            frozen_at: self.frozen_at,
            reason: self.reason.clone(),
            frozen_by: self.frozen_by,
        }
    }
}

/// That a plan is under a legal hold.
#[derive(Clone, Debug)]
pub struct LegalHold {
    pub plan_id: u64,
    pub added_at: u64,
    pub reason: Vec<u8>,
    pub added_by: Address,
}

/// The model of [`LegalHold`].
#[verifier::ext_equal]
pub struct LegalHoldView {
    pub plan_id: u64,
    pub added_at: u64,
    pub reason: Seq<u8>,
    pub added_by: Address,
}

impl View for LegalHold {
    type V = LegalHoldView;

    open spec fn view(&self) -> LegalHoldView {
        LegalHoldView {
            plan_id: self.plan_id,
            added_at: self.added_at,
            reason: self.reason@,
            added_by: self.added_by,
        }
    }
}

impl Duplicate for LegalHold {
    fn duplicate(&self) -> (copy: LegalHold) {
        LegalHold {
            plan_id: self.plan_id,
            added_at: self.added_at,
            reason: self.reason.clone(),
            added_by: self.added_by,
        }
    }
}

/// Published as [`InheritanceEvent`].
#[derive(Clone, Debug)]
pub struct PlanFrozenEvent {
    pub plan_id: u64,
    pub frozen_by: Address,
    pub frozen_at: u64,
    pub reason: Vec<u8>,
}

/// The model of [`PlanFrozenEvent`].
#[verifier::ext_equal]
pub struct PlanFrozenEventView {
    pub plan_id: u64,
    pub frozen_by: Address,
    pub frozen_at: u64,
    pub reason: Seq<u8>,
}

impl View for PlanFrozenEvent {
    type V = PlanFrozenEventView;

    open spec fn view(&self) -> PlanFrozenEventView {
        PlanFrozenEventView {
            plan_id: self.plan_id,
            frozen_by: self.frozen_by,
            frozen_at: self.frozen_at,
            reason: self.reason@,
        }
    }
}

impl Duplicate for PlanFrozenEvent {
    fn duplicate(&self) -> (copy: PlanFrozenEvent) {
        PlanFrozenEvent {
            plan_id: self.plan_id,
            frozen_by: self.frozen_by,
            frozen_at: self.frozen_at,
            reason: self.reason.clone(),
        }
    }
}

/// Published as [`InheritanceEvent`].
#[derive(Clone, Copy, Debug, PartialEq, Eq, Structural)]
pub struct PlanUnfrozenEvent {
    pub plan_id: u64,
    pub unfrozen_by: Address,
    pub unfrozen_at: u64,
}

/// Published as [`InheritanceEvent`].
#[derive(Clone, Copy, Debug, PartialEq, Eq, Structural)]
pub struct LegalHoldAddedEvent {
    pub plan_id: u64,
    pub added_by: Address,
    pub added_at: u64,
}

/// Published as [`InheritanceEvent`].
#[derive(Clone, Copy, Debug, PartialEq, Eq, Structural)]
pub struct LegalHoldRemovedEvent {
    pub plan_id: u64,
    pub removed_by: Address,
    pub removed_at: u64,
}

/// Published as [`InheritanceEvent`].
#[derive(Clone, Copy, Debug, PartialEq, Eq, Structural)]
pub struct BeneficiaryFrozenEvent {
    pub plan_id: u64,
    pub index: u32,
    pub frozen_by: Address,
    pub frozen_at: u64,
}

/// Published as [`InheritanceEvent`].
#[derive(Clone, Copy, Debug, PartialEq, Eq, Structural)]
pub struct BeneficiaryNotifiedEvent {
    pub plan_id: u64,
    pub beneficiary_index: u32,
    pub notified_at: u64,
}

/// Published as [`InheritanceEvent`].
#[derive(Clone, Copy, Debug, PartialEq, Eq, Structural)]
pub struct BeneficiaryAcknowledgedEvent {
    pub plan_id: u64,
    pub beneficiary_index: u32,
    pub acknowledged_at: u64,
}

/// When a beneficiary was notified, and when they acknowledged; zero if they have not.
#[derive(Clone, Copy, Debug, PartialEq, Eq, Structural)]
pub struct BeneficiaryAcknowledgment {
    pub plan_id: u64,
    pub beneficiary_index: u32,
    pub notification_sent_at: u64,
    pub acknowledged_at: u64,
}

/// A dispute over a plan.
#[derive(Clone, Debug)]
pub struct DisputeRecord {
    pub dispute_id: u64,
    pub plan_id: u64,
    pub disputer: Address,
    pub reason: Vec<u8>,
    pub status: DisputeStatus,
    pub filed_at: u64,
    /// Zero until the dispute is resolved or rejected.
    pub resolved_at: u64,
    pub resolution_notes: Vec<u8>,
    pub arbitrator: Address,
}

/// The model of [`DisputeRecord`].
#[verifier::ext_equal]
pub struct DisputeRecordView {
    pub dispute_id: u64,
    pub plan_id: u64,
    pub disputer: Address,
    pub reason: Seq<u8>,
    pub status: DisputeStatus,
    pub filed_at: u64,
    pub resolved_at: u64,
    pub resolution_notes: Seq<u8>,
    pub arbitrator: Address,
}

impl View for DisputeRecord {
    type V = DisputeRecordView;

    open spec fn view(&self) -> DisputeRecordView {
        DisputeRecordView {
            dispute_id: self.dispute_id,
            plan_id: self.plan_id,
            disputer: self.disputer,
            reason: self.reason@,
            status: self.status,
            filed_at: self.filed_at,
            resolved_at: self.resolved_at,
            resolution_notes: self.resolution_notes@,
            arbitrator: self.arbitrator,
        }
    }
}

impl Duplicate for DisputeRecord {
    fn duplicate(&self) -> (copy: DisputeRecord) {
        DisputeRecord {
            dispute_id: self.dispute_id,
            plan_id: self.plan_id,
            disputer: self.disputer,
            reason: self.reason.clone(),
            status: self.status,
            filed_at: self.filed_at,
            resolved_at: self.resolved_at,
            resolution_notes: self.resolution_notes.clone(),
            arbitrator: self.arbitrator,
        }
    }
}

/// Published as [`InheritanceEvent`].
#[derive(Clone, Debug)]
pub struct DisputeFiledEvent {
    pub dispute_id: u64,
    pub plan_id: u64,
    pub disputer: Address,
    pub reason: Vec<u8>,
    pub filed_at: u64,
}

/// The model of [`DisputeFiledEvent`].
#[verifier::ext_equal]
pub struct DisputeFiledEventView {
    pub dispute_id: u64,
    pub plan_id: u64,
    pub disputer: Address,
    pub reason: Seq<u8>,
    pub filed_at: u64,
}

impl View for DisputeFiledEvent {
    type V = DisputeFiledEventView;

    open spec fn view(&self) -> DisputeFiledEventView {
        DisputeFiledEventView {
            dispute_id: self.dispute_id,
            plan_id: self.plan_id,
            disputer: self.disputer,
            reason: self.reason@,
            filed_at: self.filed_at,
        }
    }
}

impl Duplicate for DisputeFiledEvent {
    fn duplicate(&self) -> (copy: DisputeFiledEvent) {
        DisputeFiledEvent {
            dispute_id: self.dispute_id,
            plan_id: self.plan_id,
            disputer: self.disputer,
            reason: self.reason.clone(),
            filed_at: self.filed_at,
        }
    }
}

/// Published as [`InheritanceEvent`].
#[derive(Clone, Copy, Debug, PartialEq, Eq, Structural)]
pub struct DisputeResolvedEvent {
    pub dispute_id: u64,
    pub plan_id: u64,
    pub status: DisputeStatus,
    pub arbitrator: Address,
    pub resolved_at: u64,
}

/// Published as [`InheritanceEvent`]: a beneficiary was paid.
#[derive(Clone, Copy, Debug, PartialEq, Eq)]
pub struct ClaimedEvent {
    pub plan_id: u64,
    pub hashed_email: Digest,
    pub payout: u64,
}

/// Published as [`InheritanceEvent`]: a payout is to be settled by bank transfer.
#[derive(Clone, Copy, Debug, PartialEq, Eq, Structural)]
pub struct FiatPayoutEvent {
    pub plan_id: u64,
    pub beneficiary_index: u32,
    pub payout: u64,
}

/// Published as [`InheritanceEvent`].
#[derive(Clone, Copy, Debug, PartialEq, Eq, Structural)]
pub struct MessageKeyRotatedEvent {
    pub vault_id: u64,
    pub version: u32,
}

/// Why the inheritance contract refuses a call. Each error has a code.
#[derive(Clone, Copy, Debug, PartialEq, Eq, Structural)]
pub enum InheritanceError {
    InvalidAssetType,
    InvalidTotalAmount,
    MissingRequiredField,
    TooManyBeneficiaries,
    InvalidClaimCode,
    AllocationPercentageMismatch,
    DescriptionTooLong,
    InvalidBeneficiaryData,
    Unauthorized,
    PlanNotFound,
    InvalidBeneficiaryIndex,
    AllocationExceedsLimit,
    InvalidAllocation,
    InvalidClaimCodeRange,
    ClaimNotAllowedYet,
    AlreadyClaimed,
    BeneficiaryNotFound,
    PlanAlreadyDeactivated,
    PlanNotActive,
    AdminNotSet,
    AdminAlreadyInitialized,
    NotAdmin,
    KycNotSubmitted,
    KycAlreadyApproved,
    DuplicatePriority,
    PriorityOutOfRange,
    PlanNotClaimed,
    KycAlreadyRejected,
    InsufficientBalance,
    FeeTransferFailed,
    InsufficientLiquidity,
    InheritanceAlreadyTriggered,
    EmergencyCooldownActive,
    VestingScheduleActive,
    NothingToClaim,
    EmergencyAccessAlreadyActive,
    InvalidGuardianThreshold,
    EmergencyContactAlreadyExists,
    TooManyEmergencyContacts,
    EmergencyContactNotFound,
    GuardianNotFound,
    AlreadyApproved,
    InheritanceNotTriggered,
    NoOutstandingLoans,
    LoanRecallFailed,
    WillHashAlreadyStored,
    VaultNotFound,
    WillAlreadyLinked,
    WillAlreadyFinalized,
    WillVersionNotFound,
}

impl InheritanceError {
    /// The code of the error.
    pub open spec fn spec_code(self) -> u32 {
        match self {
            InheritanceError::InvalidAssetType => 1,
            InheritanceError::InvalidTotalAmount => 2,
            InheritanceError::MissingRequiredField => 3,
            InheritanceError::TooManyBeneficiaries => 4,
            InheritanceError::InvalidClaimCode => 5,
            InheritanceError::AllocationPercentageMismatch => 6,
            InheritanceError::DescriptionTooLong => 7,
            InheritanceError::InvalidBeneficiaryData => 8,
            InheritanceError::Unauthorized => 9,
            InheritanceError::PlanNotFound => 10,
            InheritanceError::InvalidBeneficiaryIndex => 11,
            InheritanceError::AllocationExceedsLimit => 12,
            InheritanceError::InvalidAllocation => 13,
            InheritanceError::InvalidClaimCodeRange => 14,
            InheritanceError::ClaimNotAllowedYet => 15,
            InheritanceError::AlreadyClaimed => 16,
            InheritanceError::BeneficiaryNotFound => 17,
            InheritanceError::PlanAlreadyDeactivated => 18,
            InheritanceError::PlanNotActive => 19,
            InheritanceError::AdminNotSet => 20,
            InheritanceError::AdminAlreadyInitialized => 21,
            InheritanceError::NotAdmin => 22,
            InheritanceError::KycNotSubmitted => 23,
            InheritanceError::KycAlreadyApproved => 24,
            InheritanceError::DuplicatePriority => 25,
            InheritanceError::PriorityOutOfRange => 26,
            InheritanceError::PlanNotClaimed => 27,
            InheritanceError::KycAlreadyRejected => 28,
            InheritanceError::InsufficientBalance => 29,
            InheritanceError::FeeTransferFailed => 30,
            InheritanceError::InsufficientLiquidity => 31,
            InheritanceError::InheritanceAlreadyTriggered => 32,
            InheritanceError::EmergencyCooldownActive => 33,
            InheritanceError::VestingScheduleActive => 34,
            InheritanceError::NothingToClaim => 35,
            InheritanceError::EmergencyAccessAlreadyActive => 36,
            InheritanceError::InvalidGuardianThreshold => 37,
            InheritanceError::EmergencyContactAlreadyExists => 38,
            InheritanceError::TooManyEmergencyContacts => 39,
            InheritanceError::EmergencyContactNotFound => 40,
            InheritanceError::GuardianNotFound => 41,
            InheritanceError::AlreadyApproved => 42,
            InheritanceError::InheritanceNotTriggered => 43,
            InheritanceError::NoOutstandingLoans => 44,
            InheritanceError::LoanRecallFailed => 45,
            InheritanceError::WillHashAlreadyStored => 46,
            InheritanceError::VaultNotFound => 47,
            InheritanceError::WillAlreadyLinked => 48,
            InheritanceError::WillAlreadyFinalized => 49,
            InheritanceError::WillVersionNotFound => 50,
        }
    }

    /// The code of the error.
    pub fn code(self) -> (code: u32)
        ensures
            code == self.spec_code(),
    {
        match self {
            InheritanceError::InvalidAssetType => 1,
            InheritanceError::InvalidTotalAmount => 2,
            InheritanceError::MissingRequiredField => 3,
            InheritanceError::TooManyBeneficiaries => 4,
            InheritanceError::InvalidClaimCode => 5,
            InheritanceError::AllocationPercentageMismatch => 6,
            InheritanceError::DescriptionTooLong => 7,
            InheritanceError::InvalidBeneficiaryData => 8,
            InheritanceError::Unauthorized => 9,
            InheritanceError::PlanNotFound => 10,
            InheritanceError::InvalidBeneficiaryIndex => 11,
            InheritanceError::AllocationExceedsLimit => 12,
            InheritanceError::InvalidAllocation => 13,
            InheritanceError::InvalidClaimCodeRange => 14,
            InheritanceError::ClaimNotAllowedYet => 15,
            InheritanceError::AlreadyClaimed => 16,
            InheritanceError::BeneficiaryNotFound => 17,
            InheritanceError::PlanAlreadyDeactivated => 18,
            InheritanceError::PlanNotActive => 19,
            InheritanceError::AdminNotSet => 20,
            InheritanceError::AdminAlreadyInitialized => 21,
            InheritanceError::NotAdmin => 22,
            InheritanceError::KycNotSubmitted => 23,
            InheritanceError::KycAlreadyApproved => 24,
            InheritanceError::DuplicatePriority => 25,
            InheritanceError::PriorityOutOfRange => 26,
            InheritanceError::PlanNotClaimed => 27,
            InheritanceError::KycAlreadyRejected => 28,
            InheritanceError::InsufficientBalance => 29,
            InheritanceError::FeeTransferFailed => 30,
            InheritanceError::InsufficientLiquidity => 31,
            InheritanceError::InheritanceAlreadyTriggered => 32,
            InheritanceError::EmergencyCooldownActive => 33,
            InheritanceError::VestingScheduleActive => 34,
            InheritanceError::NothingToClaim => 35,
            InheritanceError::EmergencyAccessAlreadyActive => 36,
            InheritanceError::InvalidGuardianThreshold => 37,
            InheritanceError::EmergencyContactAlreadyExists => 38,
            InheritanceError::TooManyEmergencyContacts => 39,
            InheritanceError::EmergencyContactNotFound => 40,
            InheritanceError::GuardianNotFound => 41,
            InheritanceError::AlreadyApproved => 42,
            InheritanceError::InheritanceNotTriggered => 43,
            InheritanceError::NoOutstandingLoans => 44,
            InheritanceError::LoanRecallFailed => 45,
            InheritanceError::WillHashAlreadyStored => 46,
            InheritanceError::VaultNotFound => 47,
            InheritanceError::WillAlreadyLinked => 48,
            InheritanceError::WillAlreadyFinalized => 49,
            InheritanceError::WillVersionNotFound => 50,
        }
    }

    /// The error with the given code; the code itself if it is no error's.
    pub fn try_from(code: u32) -> (error: Result<InheritanceError, u32>)
        ensures
            match error {
                Ok(e) => e.spec_code() == code,
                Err(c) => c == code && (code == 0 || code > 50),
            },
    {
        match code {
            1 => Ok(InheritanceError::InvalidAssetType),
            2 => Ok(InheritanceError::InvalidTotalAmount),
            3 => Ok(InheritanceError::MissingRequiredField),
            4 => Ok(InheritanceError::TooManyBeneficiaries),
            5 => Ok(InheritanceError::InvalidClaimCode),
            6 => Ok(InheritanceError::AllocationPercentageMismatch),
            7 => Ok(InheritanceError::DescriptionTooLong),
            8 => Ok(InheritanceError::InvalidBeneficiaryData),
            9 => Ok(InheritanceError::Unauthorized),
            10 => Ok(InheritanceError::PlanNotFound),
            11 => Ok(InheritanceError::InvalidBeneficiaryIndex),
            12 => Ok(InheritanceError::AllocationExceedsLimit),
            13 => Ok(InheritanceError::InvalidAllocation),
            14 => Ok(InheritanceError::InvalidClaimCodeRange),
            15 => Ok(InheritanceError::ClaimNotAllowedYet),
            16 => Ok(InheritanceError::AlreadyClaimed),
            17 => Ok(InheritanceError::BeneficiaryNotFound),
            18 => Ok(InheritanceError::PlanAlreadyDeactivated),
            19 => Ok(InheritanceError::PlanNotActive),
            20 => Ok(InheritanceError::AdminNotSet),
            21 => Ok(InheritanceError::AdminAlreadyInitialized),
            22 => Ok(InheritanceError::NotAdmin),
            23 => Ok(InheritanceError::KycNotSubmitted),
            24 => Ok(InheritanceError::KycAlreadyApproved),
            25 => Ok(InheritanceError::DuplicatePriority),
            26 => Ok(InheritanceError::PriorityOutOfRange),
            27 => Ok(InheritanceError::PlanNotClaimed),
            28 => Ok(InheritanceError::KycAlreadyRejected),
            29 => Ok(InheritanceError::InsufficientBalance),
            30 => Ok(InheritanceError::FeeTransferFailed),
            31 => Ok(InheritanceError::InsufficientLiquidity),
            32 => Ok(InheritanceError::InheritanceAlreadyTriggered),
            33 => Ok(InheritanceError::EmergencyCooldownActive),
            34 => Ok(InheritanceError::VestingScheduleActive),
            35 => Ok(InheritanceError::NothingToClaim),
            36 => Ok(InheritanceError::EmergencyAccessAlreadyActive),
            37 => Ok(InheritanceError::InvalidGuardianThreshold),
            38 => Ok(InheritanceError::EmergencyContactAlreadyExists),
            39 => Ok(InheritanceError::TooManyEmergencyContacts),
            40 => Ok(InheritanceError::EmergencyContactNotFound),
            41 => Ok(InheritanceError::GuardianNotFound),
            42 => Ok(InheritanceError::AlreadyApproved),
            43 => Ok(InheritanceError::InheritanceNotTriggered),
            44 => Ok(InheritanceError::NoOutstandingLoans),
            45 => Ok(InheritanceError::LoanRecallFailed),
            46 => Ok(InheritanceError::WillHashAlreadyStored),
            47 => Ok(InheritanceError::VaultNotFound),
            48 => Ok(InheritanceError::WillAlreadyLinked),
            49 => Ok(InheritanceError::WillAlreadyFinalized),
            50 => Ok(InheritanceError::WillVersionNotFound),
            _ => Err(code),
        }
    }
}

/// No two errors share a code, and the codes are 1 to 50.
pub proof fn law_error_codes_distinct(a: InheritanceError, b: InheritanceError)
    ensures
        a.spec_code() == b.spec_code() ==> a == b,
        1 <= a.spec_code() <= 50,
{
}

/// An event of the inheritance contract.
#[derive(Clone, Debug)]
pub enum InheritanceEvent {
    /// The contract was paused at this time.
    Paused(u64),
    /// The contract was unpaused at this time.
    Unpaused(u64),
    DisputeFiled(DisputeFiledEvent),
    PlanFrozen(PlanFrozenEvent),
    DisputeResolved(DisputeResolvedEvent),
    PlanUnfrozen(PlanUnfrozenEvent),
    EmergencyAccessExpired(EmergencyAccessExpirationEvent),
    BeneficiaryAdded(BeneficiaryAddedEvent),
    BeneficiaryRemoved(BeneficiaryRemovedEvent),
    VaultLendableChanged(VaultLendableChangedEvent),
    GracePeriodUpdated(GracePeriodUpdatedEvent),
    VaultDeposit(VaultDepositEvent),
    VaultWithdraw(VaultWithdrawEvent),
    PrioritySet(PrioritySetEvent),
    WaterfallEnabled(WaterfallEnabledEvent),
    Claimed(ClaimedEvent),
    FiatPayoutRequested(FiatPayoutEvent),
    KycApproved(KycApprovedEvent),
    KycRejected(KycRejectedEvent),
    PlanDeactivated(PlanDeactivatedEvent),
    EmergencyAccessActivated(EmergencyAccessActivatedEvent),
    EmergencyContactAdded(EmergencyContactAddedEvent),
    EmergencyContactRemoved(EmergencyContactRemovedEvent),
    EmergencyAccessApproved(EmergencyAccessApprovedEvent),
    EmergencyAccessRevoked(EmergencyAccessRevocationEvent),
    TriggerConditionSet(TriggerConditionSetEvent),
    TriggerConditionMet(TriggerConditionMetEvent),
    InheritanceTriggered(InheritanceTriggeredEvent),
    LoanFreeze(LoanFreezeEvent),
    LoanRecall(LoanRecallEvent),
    LiquidationFallback(LiquidationFallbackEvent),
    ContractUpgraded(ContractUpgradedEvent),
    CodeReplaced(ContractUpgradedEvent),
    WillHashStored(WillHashStoredEvent),
    WillLinkedToVault(WillLinkedToVaultEvent),
    BeneficiariesVerified(BeneficiariesVerifiedEvent),
    WillVersionCreated(WillVersionCreatedEvent),
    WillVersionActivated(WillVersionActivatedEvent),
    WillSigned(WillSignedEvent),
    MessageKeyRotated(MessageKeyRotatedEvent),
    MessageCreated(MessageCreatedEvent),
    MessageUpdated(MessageUpdatedEvent),
    MessageFinalized(MessageFinalizedEvent),
    MessageDeleted(MessageDeletedEvent),
    MessageUnlocked(MessageUnlockedEvent),
    MessageAccessed(MessageAccessedEvent),
    WillFinalized(WillFinalizedEvent),
    WitnessAdded(WitnessAddedEvent),
    WitnessSigned(WitnessSignedEvent),
    BatchBeneficiariesAdded(BatchBeneficiariesAddedEvent),
    BatchBeneficiariesRemoved(BatchBeneficiariesRemovedEvent),
    BatchAllocationsUpdated(BatchAllocationsUpdatedEvent),
    BatchKycApproved(BatchKycApprovedEvent),
    BatchMessagesCreated(BatchMessagesCreatedEvent),
    BatchClaim(BatchClaimEvent),
    ContractLinked(ContractLinkedEvent),
    YieldRelayerUpdated(YieldRelayerUpdatedEvent),
    YieldPositionRegistered(YieldPositionRegisteredEvent),
    YieldConfigUpdated(YieldConfigUpdatedEvent),
    YieldPaused(YieldPausedEvent),
    YieldFeeCollected(YieldFeeCollectedEvent),
    YieldHarvested(YieldHarvestedEvent),
    YieldCompounded(YieldHarvestedEvent),
    YieldBatchHarvest(YieldBatchHarvestEvent),
    BeneficiaryNotified(BeneficiaryNotifiedEvent),
    BeneficiaryAcknowledged(BeneficiaryAcknowledgedEvent),
    PlanOwnershipTransferred(PlanOwnershipTransferredEvent),
    WrappedTokenAdded(Address),
    WrappedTokenRemoved(Address),
}

/// The model of [`InheritanceEvent`].
#[verifier::ext_equal]
pub enum InheritanceEventView {
    Paused(u64),
    Unpaused(u64),
    DisputeFiled(DisputeFiledEventView),
    PlanFrozen(PlanFrozenEventView),
    DisputeResolved(DisputeResolvedEvent),
    PlanUnfrozen(PlanUnfrozenEvent),
    EmergencyAccessExpired(EmergencyAccessExpirationEvent),
    BeneficiaryAdded(BeneficiaryAddedEvent),
    BeneficiaryRemoved(BeneficiaryRemovedEvent),
    VaultLendableChanged(VaultLendableChangedEvent),
    GracePeriodUpdated(GracePeriodUpdatedEvent),
    VaultDeposit(VaultDepositEvent),
    VaultWithdraw(VaultWithdrawEvent),
    PrioritySet(PrioritySetEvent),
    WaterfallEnabled(WaterfallEnabledEvent),
    Claimed(ClaimedEvent),
    FiatPayoutRequested(FiatPayoutEvent),
    KycApproved(KycApprovedEvent),
    KycRejected(KycRejectedEvent),
    PlanDeactivated(PlanDeactivatedEvent),
    EmergencyAccessActivated(EmergencyAccessActivatedEvent),
    EmergencyContactAdded(EmergencyContactAddedEvent),
    EmergencyContactRemoved(EmergencyContactRemovedEvent),
    EmergencyAccessApproved(EmergencyAccessApprovedEvent),
    EmergencyAccessRevoked(EmergencyAccessRevocationEvent),
    TriggerConditionSet(TriggerConditionSetEvent),
    TriggerConditionMet(TriggerConditionMetEvent),
    InheritanceTriggered(InheritanceTriggeredEvent),
    LoanFreeze(LoanFreezeEvent),
    LoanRecall(LoanRecallEvent),
    LiquidationFallback(LiquidationFallbackEvent),
    ContractUpgraded(ContractUpgradedEvent),
    CodeReplaced(ContractUpgradedEvent),
    WillHashStored(WillHashStoredEvent),
    WillLinkedToVault(WillLinkedToVaultEvent),
    BeneficiariesVerified(BeneficiariesVerifiedEvent),
    WillVersionCreated(WillVersionCreatedEvent),
    WillVersionActivated(WillVersionActivatedEvent),
    WillSigned(WillSignedEvent),
    MessageKeyRotated(MessageKeyRotatedEvent),
    MessageCreated(MessageCreatedEvent),
    MessageUpdated(MessageUpdatedEvent),
    MessageFinalized(MessageFinalizedEvent),
    MessageDeleted(MessageDeletedEvent),
    MessageUnlocked(MessageUnlockedEvent),
    MessageAccessed(MessageAccessedEvent),
    WillFinalized(WillFinalizedEvent),
    WitnessAdded(WitnessAddedEvent),
    WitnessSigned(WitnessSignedEvent),
    BatchBeneficiariesAdded(BatchBeneficiariesAddedEvent),
    BatchBeneficiariesRemoved(BatchBeneficiariesRemovedEvent),
    BatchAllocationsUpdated(BatchAllocationsUpdatedEvent),
    BatchKycApproved(BatchKycApprovedEvent),
    BatchMessagesCreated(BatchMessagesCreatedEvent),
    BatchClaim(BatchClaimEvent),
    ContractLinked(ContractLinkedEvent),
    YieldRelayerUpdated(YieldRelayerUpdatedEvent),
    YieldPositionRegistered(YieldPositionRegisteredEvent),
    YieldConfigUpdated(YieldConfigUpdatedEvent),
    YieldPaused(YieldPausedEvent),
    YieldFeeCollected(YieldFeeCollectedEvent),
    YieldHarvested(YieldHarvestedEvent),
    YieldCompounded(YieldHarvestedEvent),
    YieldBatchHarvest(YieldBatchHarvestEvent),
    BeneficiaryNotified(BeneficiaryNotifiedEvent),
    BeneficiaryAcknowledged(BeneficiaryAcknowledgedEvent),
    PlanOwnershipTransferred(PlanOwnershipTransferredEvent),
    WrappedTokenAdded(Address),
    WrappedTokenRemoved(Address),
}

impl View for InheritanceEvent {
    type V = InheritanceEventView;

    open spec fn view(&self) -> InheritanceEventView {
        match self {
            InheritanceEvent::Paused(e) => InheritanceEventView::Paused(*e),
            InheritanceEvent::Unpaused(e) => InheritanceEventView::Unpaused(*e),
            InheritanceEvent::DisputeFiled(e) => InheritanceEventView::DisputeFiled(e@),
            InheritanceEvent::PlanFrozen(e) => InheritanceEventView::PlanFrozen(e@),
            InheritanceEvent::DisputeResolved(e) => InheritanceEventView::DisputeResolved(*e),
            InheritanceEvent::PlanUnfrozen(e) => InheritanceEventView::PlanUnfrozen(*e),
            InheritanceEvent::EmergencyAccessExpired(e) => InheritanceEventView::EmergencyAccessExpired(*e),
            InheritanceEvent::BeneficiaryAdded(e) => InheritanceEventView::BeneficiaryAdded(*e),
            InheritanceEvent::BeneficiaryRemoved(e) => InheritanceEventView::BeneficiaryRemoved(*e),
            InheritanceEvent::VaultLendableChanged(e) => InheritanceEventView::VaultLendableChanged(*e),
            InheritanceEvent::GracePeriodUpdated(e) => InheritanceEventView::GracePeriodUpdated(*e),
            InheritanceEvent::VaultDeposit(e) => InheritanceEventView::VaultDeposit(*e),
            InheritanceEvent::VaultWithdraw(e) => InheritanceEventView::VaultWithdraw(*e),
            InheritanceEvent::PrioritySet(e) => InheritanceEventView::PrioritySet(*e),
            InheritanceEvent::WaterfallEnabled(e) => InheritanceEventView::WaterfallEnabled(*e),
            InheritanceEvent::Claimed(e) => InheritanceEventView::Claimed(*e),
            InheritanceEvent::FiatPayoutRequested(e) => InheritanceEventView::FiatPayoutRequested(*e),
            InheritanceEvent::KycApproved(e) => InheritanceEventView::KycApproved(*e),
            InheritanceEvent::KycRejected(e) => InheritanceEventView::KycRejected(*e),
            InheritanceEvent::PlanDeactivated(e) => InheritanceEventView::PlanDeactivated(*e),
            InheritanceEvent::EmergencyAccessActivated(e) => InheritanceEventView::EmergencyAccessActivated(*e),
            InheritanceEvent::EmergencyContactAdded(e) => InheritanceEventView::EmergencyContactAdded(*e),
            InheritanceEvent::EmergencyContactRemoved(e) => InheritanceEventView::EmergencyContactRemoved(*e),
            InheritanceEvent::EmergencyAccessApproved(e) => InheritanceEventView::EmergencyAccessApproved(*e),
            InheritanceEvent::EmergencyAccessRevoked(e) => InheritanceEventView::EmergencyAccessRevoked(*e),
            InheritanceEvent::TriggerConditionSet(e) => InheritanceEventView::TriggerConditionSet(*e),
            InheritanceEvent::TriggerConditionMet(e) => InheritanceEventView::TriggerConditionMet(*e),
            InheritanceEvent::InheritanceTriggered(e) => InheritanceEventView::InheritanceTriggered(*e),
            InheritanceEvent::LoanFreeze(e) => InheritanceEventView::LoanFreeze(*e),
            InheritanceEvent::LoanRecall(e) => InheritanceEventView::LoanRecall(*e),
            InheritanceEvent::LiquidationFallback(e) => InheritanceEventView::LiquidationFallback(*e),
            InheritanceEvent::ContractUpgraded(e) => InheritanceEventView::ContractUpgraded(*e),
            InheritanceEvent::CodeReplaced(e) => InheritanceEventView::CodeReplaced(*e),
            InheritanceEvent::WillHashStored(e) => InheritanceEventView::WillHashStored(*e),
            InheritanceEvent::WillLinkedToVault(e) => InheritanceEventView::WillLinkedToVault(*e),
            InheritanceEvent::BeneficiariesVerified(e) => InheritanceEventView::BeneficiariesVerified(*e),
            InheritanceEvent::WillVersionCreated(e) => InheritanceEventView::WillVersionCreated(*e),
            InheritanceEvent::WillVersionActivated(e) => InheritanceEventView::WillVersionActivated(*e),
            InheritanceEvent::WillSigned(e) => InheritanceEventView::WillSigned(*e),
            InheritanceEvent::MessageKeyRotated(e) => InheritanceEventView::MessageKeyRotated(*e),
            InheritanceEvent::MessageCreated(e) => InheritanceEventView::MessageCreated(*e),
            InheritanceEvent::MessageUpdated(e) => InheritanceEventView::MessageUpdated(*e),
            InheritanceEvent::MessageFinalized(e) => InheritanceEventView::MessageFinalized(*e),
            InheritanceEvent::MessageDeleted(e) => InheritanceEventView::MessageDeleted(*e),
            InheritanceEvent::MessageUnlocked(e) => InheritanceEventView::MessageUnlocked(*e),
            InheritanceEvent::MessageAccessed(e) => InheritanceEventView::MessageAccessed(*e),
            InheritanceEvent::WillFinalized(e) => InheritanceEventView::WillFinalized(*e),
            InheritanceEvent::WitnessAdded(e) => InheritanceEventView::WitnessAdded(*e),
            InheritanceEvent::WitnessSigned(e) => InheritanceEventView::WitnessSigned(*e),
            InheritanceEvent::BatchBeneficiariesAdded(e) => InheritanceEventView::BatchBeneficiariesAdded(*e),
            InheritanceEvent::BatchBeneficiariesRemoved(e) => InheritanceEventView::BatchBeneficiariesRemoved(*e),
            InheritanceEvent::BatchAllocationsUpdated(e) => InheritanceEventView::BatchAllocationsUpdated(*e),
            InheritanceEvent::BatchKycApproved(e) => InheritanceEventView::BatchKycApproved(*e),
            InheritanceEvent::BatchMessagesCreated(e) => InheritanceEventView::BatchMessagesCreated(*e),
            InheritanceEvent::BatchClaim(e) => InheritanceEventView::BatchClaim(*e),
            InheritanceEvent::ContractLinked(e) => InheritanceEventView::ContractLinked(*e),
            InheritanceEvent::YieldRelayerUpdated(e) => InheritanceEventView::YieldRelayerUpdated(*e),
            InheritanceEvent::YieldPositionRegistered(e) => InheritanceEventView::YieldPositionRegistered(*e),
            InheritanceEvent::YieldConfigUpdated(e) => InheritanceEventView::YieldConfigUpdated(*e),
            InheritanceEvent::YieldPaused(e) => InheritanceEventView::YieldPaused(*e),
            InheritanceEvent::YieldFeeCollected(e) => InheritanceEventView::YieldFeeCollected(*e),
            InheritanceEvent::YieldHarvested(e) => InheritanceEventView::YieldHarvested(*e),
            InheritanceEvent::YieldCompounded(e) => InheritanceEventView::YieldCompounded(*e),
            InheritanceEvent::YieldBatchHarvest(e) => InheritanceEventView::YieldBatchHarvest(*e),
            InheritanceEvent::BeneficiaryNotified(e) => InheritanceEventView::BeneficiaryNotified(*e),
            InheritanceEvent::BeneficiaryAcknowledged(e) => InheritanceEventView::BeneficiaryAcknowledged(*e),
            InheritanceEvent::PlanOwnershipTransferred(e) => InheritanceEventView::PlanOwnershipTransferred(*e),
            InheritanceEvent::WrappedTokenAdded(e) => InheritanceEventView::WrappedTokenAdded(*e),
            InheritanceEvent::WrappedTokenRemoved(e) => InheritanceEventView::WrappedTokenRemoved(*e),
        }
    }
}

impl InheritanceEventView {
    /// The names among the topics under which the event is published. The second
    /// is empty where the event has one topic, or where its second topic is the
    /// vault of a message or the admin who replaced the code.
    pub open spec fn spec_topics(self) -> (Seq<char>, Seq<char>) {
        match self {
            InheritanceEventView::Paused(_) => ("ADMIN"@, "PAUSE"@),
            InheritanceEventView::Unpaused(_) => ("ADMIN"@, "UNPAUSE"@),
            InheritanceEventView::DisputeFiled(_) => ("DSPT"@, "FILED"@),
            InheritanceEventView::PlanFrozen(_) => ("PLAN"@, "FROZE"@),
            InheritanceEventView::DisputeResolved(_) => ("DSPT"@, "RESOLV"@),
            InheritanceEventView::PlanUnfrozen(_) => ("PLAN"@, "UNFRO"@),
            InheritanceEventView::EmergencyAccessExpired(_) => ("EMERG"@, "EXPIR"@),
            InheritanceEventView::BeneficiaryAdded(_) => ("BENEFIC"@, "ADD"@),
            InheritanceEventView::BeneficiaryRemoved(_) => ("BENEFIC"@, "REMOVE"@),
            InheritanceEventView::VaultLendableChanged(_) => ("VAULT"@, "LENDABLE"@),
            InheritanceEventView::GracePeriodUpdated(_) => ("PLAN"@, "GRACE"@),
            InheritanceEventView::VaultDeposit(_) => ("VAULT"@, "DEPOSIT"@),
            InheritanceEventView::VaultWithdraw(_) => ("VAULT"@, "WITHDRAW"@),
            InheritanceEventView::PrioritySet(_) => ("BENEFIC"@, "PRIO"@),
            InheritanceEventView::WaterfallEnabled(_) => ("PLAN"@, "WATER"@),
            InheritanceEventView::Claimed(_) => ("CLAIM"@, "SUCCESS"@),
            InheritanceEventView::FiatPayoutRequested(_) => ("F_PAYOUT"@, ""@),
            InheritanceEventView::KycApproved(_) => ("KYC"@, "APPROV"@),
            InheritanceEventView::KycRejected(_) => ("KYC"@, "REJECT"@),
            InheritanceEventView::PlanDeactivated(_) => ("PLAN"@, "DEACT"@),
            InheritanceEventView::EmergencyAccessActivated(_) => ("EMERG"@, "ACTIV"@),
            InheritanceEventView::EmergencyContactAdded(_) => ("EMERG"@, "CON_ADD"@),
            InheritanceEventView::EmergencyContactRemoved(_) => ("EMERG"@, "CON_REM"@),
            InheritanceEventView::EmergencyAccessApproved(_) => ("EMERG"@, "APPROVE"@),
            InheritanceEventView::EmergencyAccessRevoked(_) => ("EMERG"@, "REVOK"@),
            InheritanceEventView::TriggerConditionSet(_) => ("TRIG"@, "CONDSET"@),
            InheritanceEventView::TriggerConditionMet(_) => ("TRIG"@, "CONDMET"@),
            InheritanceEventView::InheritanceTriggered(_) => ("INHERIT"@, "TRIGGER"@),
            InheritanceEventView::LoanFreeze(_) => ("LOAN"@, "FREEZE"@),
            InheritanceEventView::LoanRecall(_) => ("LOAN"@, "RECALL"@),
            InheritanceEventView::LiquidationFallback(_) => ("LOAN"@, "LIQUIDATE"@),
            InheritanceEventView::ContractUpgraded(_) => ("CONTRACT"@, "UPGRADE"@),
            InheritanceEventView::CodeReplaced(_) => ("UPGRADE"@, ""@),
            InheritanceEventView::WillHashStored(_) => ("WILL"@, "STORED"@),
            InheritanceEventView::WillLinkedToVault(_) => ("WILL"@, "LINKED"@),
            InheritanceEventView::BeneficiariesVerified(_) => ("WILL"@, "VERIFY"@),
            InheritanceEventView::WillVersionCreated(_) => ("WILL"@, "VERSION"@),
            InheritanceEventView::WillVersionActivated(_) => ("WILL"@, "ACTIVE"@),
            InheritanceEventView::WillSigned(_) => ("WILL"@, "SIGNED"@),
            InheritanceEventView::MessageKeyRotated(_) => ("KEY"@, "ROTATE"@),
            InheritanceEventView::MessageCreated(_) => ("message_created"@, ""@),
            InheritanceEventView::MessageUpdated(_) => ("message_updated"@, ""@),
            InheritanceEventView::MessageFinalized(_) => ("message_finalized"@, ""@),
            InheritanceEventView::MessageDeleted(_) => ("message_deleted"@, ""@),
            InheritanceEventView::MessageUnlocked(_) => ("message_unlocked"@, ""@),
            InheritanceEventView::MessageAccessed(_) => ("message_accessed"@, ""@),
            InheritanceEventView::WillFinalized(_) => ("WILL"@, "FINAL"@),
            InheritanceEventView::WitnessAdded(_) => ("WILL"@, "WITNESS"@),
            InheritanceEventView::WitnessSigned(_) => ("WILL"@, "WSIGN"@),
            InheritanceEventView::BatchBeneficiariesAdded(_) => ("BATCH"@, "BEN_ADD"@),
            InheritanceEventView::BatchBeneficiariesRemoved(_) => ("BATCH"@, "BEN_REM"@),
            InheritanceEventView::BatchAllocationsUpdated(_) => ("BATCH"@, "ALLOC"@),
            InheritanceEventView::BatchKycApproved(_) => ("BATCH"@, "KYC_APP"@),
            InheritanceEventView::BatchMessagesCreated(_) => ("BATCH"@, "MSG_CRE"@),
            InheritanceEventView::BatchClaim(_) => ("BATCH"@, "CLAIM"@),
            InheritanceEventView::ContractLinked(e) => match e.contract_type {
                LinkedContract::Lending => ("LINK"@, "LEND"@),
                LinkedContract::Governance => ("LINK"@, "GOV"@),
            },
            InheritanceEventView::YieldRelayerUpdated(_) => ("YIELD"@, "RELAYER"@),
            InheritanceEventView::YieldPositionRegistered(_) => ("YIELD"@, "REGISTER"@),
            InheritanceEventView::YieldConfigUpdated(_) => ("YIELD"@, "CONFIG"@),
            InheritanceEventView::YieldPaused(_) => ("YIELD"@, "PAUSE"@),
            InheritanceEventView::YieldFeeCollected(_) => ("YIELD"@, "FEE"@),
            InheritanceEventView::YieldHarvested(_) => ("YIELD"@, "HARVEST"@),
            InheritanceEventView::YieldCompounded(_) => ("YIELD"@, "COMPOUND"@),
            InheritanceEventView::YieldBatchHarvest(_) => ("YIELD"@, "BATCH"@),
            InheritanceEventView::BeneficiaryNotified(_) => ("BENEFIC"@, "NOTIFY"@),
            InheritanceEventView::BeneficiaryAcknowledged(_) => ("BENEFIC"@, "ACK"@),
            InheritanceEventView::PlanOwnershipTransferred(_) => ("PLAN"@, "TRANSFER"@),
            InheritanceEventView::WrappedTokenAdded(_) => ("wrapped"@, "add"@),
            InheritanceEventView::WrappedTokenRemoved(_) => ("wrapped"@, "remove"@),
        }
    }
}

impl InheritanceEvent {
    /// The names among the topics under which the event is published.
    pub fn topics(&self) -> (topics: (&'static str, &'static str))
        ensures
            topics.0@ == self@.spec_topics().0,
            topics.1@ == self@.spec_topics().1,
    {
        match self {
            InheritanceEvent::Paused(_) => ("ADMIN", "PAUSE"),
            InheritanceEvent::Unpaused(_) => ("ADMIN", "UNPAUSE"),
            InheritanceEvent::DisputeFiled(_) => ("DSPT", "FILED"),
            InheritanceEvent::PlanFrozen(_) => ("PLAN", "FROZE"),
            InheritanceEvent::DisputeResolved(_) => ("DSPT", "RESOLV"),
            InheritanceEvent::PlanUnfrozen(_) => ("PLAN", "UNFRO"),
            InheritanceEvent::EmergencyAccessExpired(_) => ("EMERG", "EXPIR"),
            InheritanceEvent::BeneficiaryAdded(_) => ("BENEFIC", "ADD"),
            InheritanceEvent::BeneficiaryRemoved(_) => ("BENEFIC", "REMOVE"),
            InheritanceEvent::VaultLendableChanged(_) => ("VAULT", "LENDABLE"),
            InheritanceEvent::GracePeriodUpdated(_) => ("PLAN", "GRACE"),
            InheritanceEvent::VaultDeposit(_) => ("VAULT", "DEPOSIT"),
            InheritanceEvent::VaultWithdraw(_) => ("VAULT", "WITHDRAW"),
            InheritanceEvent::PrioritySet(_) => ("BENEFIC", "PRIO"),
            InheritanceEvent::WaterfallEnabled(_) => ("PLAN", "WATER"),
            InheritanceEvent::Claimed(_) => ("CLAIM", "SUCCESS"),
            InheritanceEvent::FiatPayoutRequested(_) => ("F_PAYOUT", ""),
            InheritanceEvent::KycApproved(_) => ("KYC", "APPROV"),
            InheritanceEvent::KycRejected(_) => ("KYC", "REJECT"),
            InheritanceEvent::PlanDeactivated(_) => ("PLAN", "DEACT"),
            InheritanceEvent::EmergencyAccessActivated(_) => ("EMERG", "ACTIV"),
            InheritanceEvent::EmergencyContactAdded(_) => ("EMERG", "CON_ADD"),
            InheritanceEvent::EmergencyContactRemoved(_) => ("EMERG", "CON_REM"),
            InheritanceEvent::EmergencyAccessApproved(_) => ("EMERG", "APPROVE"),
            InheritanceEvent::EmergencyAccessRevoked(_) => ("EMERG", "REVOK"),
            InheritanceEvent::TriggerConditionSet(_) => ("TRIG", "CONDSET"),
            InheritanceEvent::TriggerConditionMet(_) => ("TRIG", "CONDMET"),
            InheritanceEvent::InheritanceTriggered(_) => ("INHERIT", "TRIGGER"),
            InheritanceEvent::LoanFreeze(_) => ("LOAN", "FREEZE"),
            InheritanceEvent::LoanRecall(_) => ("LOAN", "RECALL"),
            InheritanceEvent::LiquidationFallback(_) => ("LOAN", "LIQUIDATE"),
            InheritanceEvent::ContractUpgraded(_) => ("CONTRACT", "UPGRADE"),
            InheritanceEvent::CodeReplaced(_) => ("UPGRADE", ""),
            InheritanceEvent::WillHashStored(_) => ("WILL", "STORED"),
            InheritanceEvent::WillLinkedToVault(_) => ("WILL", "LINKED"),
            InheritanceEvent::BeneficiariesVerified(_) => ("WILL", "VERIFY"),
            InheritanceEvent::WillVersionCreated(_) => ("WILL", "VERSION"),
            InheritanceEvent::WillVersionActivated(_) => ("WILL", "ACTIVE"),
            InheritanceEvent::WillSigned(_) => ("WILL", "SIGNED"),
            InheritanceEvent::MessageKeyRotated(_) => ("KEY", "ROTATE"),
            InheritanceEvent::MessageCreated(_) => ("message_created", ""),
            InheritanceEvent::MessageUpdated(_) => ("message_updated", ""),
            InheritanceEvent::MessageFinalized(_) => ("message_finalized", ""),
            InheritanceEvent::MessageDeleted(_) => ("message_deleted", ""),
            InheritanceEvent::MessageUnlocked(_) => ("message_unlocked", ""),
            InheritanceEvent::MessageAccessed(_) => ("message_accessed", ""),
            InheritanceEvent::WillFinalized(_) => ("WILL", "FINAL"),
            InheritanceEvent::WitnessAdded(_) => ("WILL", "WITNESS"),
            InheritanceEvent::WitnessSigned(_) => ("WILL", "WSIGN"),
            InheritanceEvent::BatchBeneficiariesAdded(_) => ("BATCH", "BEN_ADD"),
            InheritanceEvent::BatchBeneficiariesRemoved(_) => ("BATCH", "BEN_REM"),
            InheritanceEvent::BatchAllocationsUpdated(_) => ("BATCH", "ALLOC"),
            InheritanceEvent::BatchKycApproved(_) => ("BATCH", "KYC_APP"),
            InheritanceEvent::BatchMessagesCreated(_) => ("BATCH", "MSG_CRE"),
            InheritanceEvent::BatchClaim(_) => ("BATCH", "CLAIM"),
            InheritanceEvent::ContractLinked(e) => match e.contract_type {
                LinkedContract::Lending => ("LINK", "LEND"),
                LinkedContract::Governance => ("LINK", "GOV"),
            },
            InheritanceEvent::YieldRelayerUpdated(_) => ("YIELD", "RELAYER"),
            InheritanceEvent::YieldPositionRegistered(_) => ("YIELD", "REGISTER"),
            InheritanceEvent::YieldConfigUpdated(_) => ("YIELD", "CONFIG"),
            InheritanceEvent::YieldPaused(_) => ("YIELD", "PAUSE"),
            InheritanceEvent::YieldFeeCollected(_) => ("YIELD", "FEE"),
            InheritanceEvent::YieldHarvested(_) => ("YIELD", "HARVEST"),
            InheritanceEvent::YieldCompounded(_) => ("YIELD", "COMPOUND"),
            InheritanceEvent::YieldBatchHarvest(_) => ("YIELD", "BATCH"),
            InheritanceEvent::BeneficiaryNotified(_) => ("BENEFIC", "NOTIFY"),
            InheritanceEvent::BeneficiaryAcknowledged(_) => ("BENEFIC", "ACK"),
            InheritanceEvent::PlanOwnershipTransferred(_) => ("PLAN", "TRANSFER"),
            InheritanceEvent::WrappedTokenAdded(_) => ("wrapped", "add"),
            InheritanceEvent::WrappedTokenRemoved(_) => ("wrapped", "remove"),
        }
    }
}

/// A call that the inheritance contract makes to another contract.
#[derive(Clone, Copy, Debug, PartialEq, Eq)]
pub enum InheritanceCall {
    /// Moves tokens.
    Transfer { token: Address, from: Address, to: Address, amount: u64 },
    /// Registers the balance of a plan as a position in the lending pool.
    RegisterPlanYield { pool: Address, caller: Address, plan_id: u64, asset: Address, principal: u64 },
    /// Ends the registration of a plan in the lending pool.
    UnregisterPlanYield { pool: Address, caller: Address, plan_id: u64 },
    /// Asks the lending pool what a plan could claim.
    GetAccruedPlanYield { pool: Address, plan_id: u64 },
    /// Claims the yield of a plan from the lending pool.
    ClaimPlanYield { pool: Address, caller: Address, plan_id: u64 },
    /// Replaces the code of the contract.
    UpdateWasm { new_wasm_hash: Digest },
}

impl View for InheritanceCall {
    type V = InheritanceCall;

    open spec fn view(&self) -> InheritanceCall {
        *self
    }
}

/// The code of every error, by which callers tell them apart.
pub proof fn law_error_codes()
    ensures
        InheritanceError::InvalidAssetType.spec_code() == 1,
        InheritanceError::InvalidTotalAmount.spec_code() == 2,
        InheritanceError::MissingRequiredField.spec_code() == 3,
        InheritanceError::TooManyBeneficiaries.spec_code() == 4,
        InheritanceError::InvalidClaimCode.spec_code() == 5,
        InheritanceError::AllocationPercentageMismatch.spec_code() == 6,
        InheritanceError::DescriptionTooLong.spec_code() == 7,
        InheritanceError::InvalidBeneficiaryData.spec_code() == 8,
        InheritanceError::Unauthorized.spec_code() == 9,
        InheritanceError::PlanNotFound.spec_code() == 10,
        InheritanceError::InvalidBeneficiaryIndex.spec_code() == 11,
        InheritanceError::AllocationExceedsLimit.spec_code() == 12,
        InheritanceError::InvalidAllocation.spec_code() == 13,
        InheritanceError::InvalidClaimCodeRange.spec_code() == 14,
        InheritanceError::ClaimNotAllowedYet.spec_code() == 15,
        InheritanceError::AlreadyClaimed.spec_code() == 16,
        InheritanceError::BeneficiaryNotFound.spec_code() == 17,
        InheritanceError::PlanAlreadyDeactivated.spec_code() == 18,
        InheritanceError::PlanNotActive.spec_code() == 19,
        InheritanceError::AdminNotSet.spec_code() == 20,
        InheritanceError::AdminAlreadyInitialized.spec_code() == 21,
        InheritanceError::NotAdmin.spec_code() == 22,
        InheritanceError::KycNotSubmitted.spec_code() == 23,
        InheritanceError::KycAlreadyApproved.spec_code() == 24,
        InheritanceError::DuplicatePriority.spec_code() == 25,
        InheritanceError::PriorityOutOfRange.spec_code() == 26,
        InheritanceError::PlanNotClaimed.spec_code() == 27,
        InheritanceError::KycAlreadyRejected.spec_code() == 28,
        InheritanceError::InsufficientBalance.spec_code() == 29,
        InheritanceError::FeeTransferFailed.spec_code() == 30,
        InheritanceError::InsufficientLiquidity.spec_code() == 31,
        InheritanceError::InheritanceAlreadyTriggered.spec_code() == 32,
        InheritanceError::EmergencyCooldownActive.spec_code() == 33,
        InheritanceError::VestingScheduleActive.spec_code() == 34,
        InheritanceError::NothingToClaim.spec_code() == 35,
        InheritanceError::EmergencyAccessAlreadyActive.spec_code() == 36,
        InheritanceError::InvalidGuardianThreshold.spec_code() == 37,
        InheritanceError::EmergencyContactAlreadyExists.spec_code() == 38,
        InheritanceError::TooManyEmergencyContacts.spec_code() == 39,
        InheritanceError::EmergencyContactNotFound.spec_code() == 40,
        InheritanceError::GuardianNotFound.spec_code() == 41,
        InheritanceError::AlreadyApproved.spec_code() == 42,
        InheritanceError::InheritanceNotTriggered.spec_code() == 43,
        InheritanceError::NoOutstandingLoans.spec_code() == 44,
        InheritanceError::LoanRecallFailed.spec_code() == 45,
        InheritanceError::WillHashAlreadyStored.spec_code() == 46,
        InheritanceError::VaultNotFound.spec_code() == 47,
        InheritanceError::WillAlreadyLinked.spec_code() == 48,
        InheritanceError::WillAlreadyFinalized.spec_code() == 49,
        InheritanceError::WillVersionNotFound.spec_code() == 50,
{
}

/// The topics under which each event is published.
pub proof fn law_topics(event: InheritanceEventView)
    ensures
        event.spec_topics() == (match event {
            InheritanceEventView::Paused(_) => ("ADMIN"@, "PAUSE"@),
            InheritanceEventView::Unpaused(_) => ("ADMIN"@, "UNPAUSE"@),
            InheritanceEventView::DisputeFiled(_) => ("DSPT"@, "FILED"@),
            InheritanceEventView::PlanFrozen(_) => ("PLAN"@, "FROZE"@),
            InheritanceEventView::DisputeResolved(_) => ("DSPT"@, "RESOLV"@),
            InheritanceEventView::PlanUnfrozen(_) => ("PLAN"@, "UNFRO"@),
            InheritanceEventView::EmergencyAccessExpired(_) => ("EMERG"@, "EXPIR"@),
            InheritanceEventView::BeneficiaryAdded(_) => ("BENEFIC"@, "ADD"@),
            InheritanceEventView::BeneficiaryRemoved(_) => ("BENEFIC"@, "REMOVE"@),
            InheritanceEventView::VaultLendableChanged(_) => ("VAULT"@, "LENDABLE"@),
            InheritanceEventView::GracePeriodUpdated(_) => ("PLAN"@, "GRACE"@),
            InheritanceEventView::VaultDeposit(_) => ("VAULT"@, "DEPOSIT"@),
            InheritanceEventView::VaultWithdraw(_) => ("VAULT"@, "WITHDRAW"@),
            InheritanceEventView::PrioritySet(_) => ("BENEFIC"@, "PRIO"@),
            InheritanceEventView::WaterfallEnabled(_) => ("PLAN"@, "WATER"@),
            InheritanceEventView::Claimed(_) => ("CLAIM"@, "SUCCESS"@),
            InheritanceEventView::FiatPayoutRequested(_) => ("F_PAYOUT"@, ""@),
            InheritanceEventView::KycApproved(_) => ("KYC"@, "APPROV"@),
            InheritanceEventView::KycRejected(_) => ("KYC"@, "REJECT"@),
            InheritanceEventView::PlanDeactivated(_) => ("PLAN"@, "DEACT"@),
            InheritanceEventView::EmergencyAccessActivated(_) => ("EMERG"@, "ACTIV"@),
            InheritanceEventView::EmergencyContactAdded(_) => ("EMERG"@, "CON_ADD"@),
            InheritanceEventView::EmergencyContactRemoved(_) => ("EMERG"@, "CON_REM"@),
            InheritanceEventView::EmergencyAccessApproved(_) => ("EMERG"@, "APPROVE"@),
            InheritanceEventView::EmergencyAccessRevoked(_) => ("EMERG"@, "REVOK"@),
            InheritanceEventView::TriggerConditionSet(_) => ("TRIG"@, "CONDSET"@),
            InheritanceEventView::TriggerConditionMet(_) => ("TRIG"@, "CONDMET"@),
            InheritanceEventView::InheritanceTriggered(_) => ("INHERIT"@, "TRIGGER"@),
            InheritanceEventView::LoanFreeze(_) => ("LOAN"@, "FREEZE"@),
            InheritanceEventView::LoanRecall(_) => ("LOAN"@, "RECALL"@),
            InheritanceEventView::LiquidationFallback(_) => ("LOAN"@, "LIQUIDATE"@),
            InheritanceEventView::ContractUpgraded(_) => ("CONTRACT"@, "UPGRADE"@),
            InheritanceEventView::CodeReplaced(_) => ("UPGRADE"@, ""@),
            InheritanceEventView::WillHashStored(_) => ("WILL"@, "STORED"@),
            InheritanceEventView::WillLinkedToVault(_) => ("WILL"@, "LINKED"@),
            InheritanceEventView::BeneficiariesVerified(_) => ("WILL"@, "VERIFY"@),
            InheritanceEventView::WillVersionCreated(_) => ("WILL"@, "VERSION"@),
            InheritanceEventView::WillVersionActivated(_) => ("WILL"@, "ACTIVE"@),
            InheritanceEventView::WillSigned(_) => ("WILL"@, "SIGNED"@),
            InheritanceEventView::MessageKeyRotated(_) => ("KEY"@, "ROTATE"@),
            InheritanceEventView::MessageCreated(_) => ("message_created"@, ""@),
            InheritanceEventView::MessageUpdated(_) => ("message_updated"@, ""@),
            InheritanceEventView::MessageFinalized(_) => ("message_finalized"@, ""@),
            InheritanceEventView::MessageDeleted(_) => ("message_deleted"@, ""@),
            InheritanceEventView::MessageUnlocked(_) => ("message_unlocked"@, ""@),
            InheritanceEventView::MessageAccessed(_) => ("message_accessed"@, ""@),
            InheritanceEventView::WillFinalized(_) => ("WILL"@, "FINAL"@),
            InheritanceEventView::WitnessAdded(_) => ("WILL"@, "WITNESS"@),
            InheritanceEventView::WitnessSigned(_) => ("WILL"@, "WSIGN"@),
            InheritanceEventView::BatchBeneficiariesAdded(_) => ("BATCH"@, "BEN_ADD"@),
            InheritanceEventView::BatchBeneficiariesRemoved(_) => ("BATCH"@, "BEN_REM"@),
            InheritanceEventView::BatchAllocationsUpdated(_) => ("BATCH"@, "ALLOC"@),
            InheritanceEventView::BatchKycApproved(_) => ("BATCH"@, "KYC_APP"@),
            InheritanceEventView::BatchMessagesCreated(_) => ("BATCH"@, "MSG_CRE"@),
            InheritanceEventView::BatchClaim(_) => ("BATCH"@, "CLAIM"@),
            InheritanceEventView::ContractLinked(e) => match e.contract_type {
                LinkedContract::Lending => ("LINK"@, "LEND"@),
                LinkedContract::Governance => ("LINK"@, "GOV"@),
            },
            InheritanceEventView::YieldRelayerUpdated(_) => ("YIELD"@, "RELAYER"@),
            InheritanceEventView::YieldPositionRegistered(_) => ("YIELD"@, "REGISTER"@),
            InheritanceEventView::YieldConfigUpdated(_) => ("YIELD"@, "CONFIG"@),
            InheritanceEventView::YieldPaused(_) => ("YIELD"@, "PAUSE"@),
            InheritanceEventView::YieldFeeCollected(_) => ("YIELD"@, "FEE"@),
            InheritanceEventView::YieldHarvested(_) => ("YIELD"@, "HARVEST"@),
            InheritanceEventView::YieldCompounded(_) => ("YIELD"@, "COMPOUND"@),
            InheritanceEventView::YieldBatchHarvest(_) => ("YIELD"@, "BATCH"@),
            InheritanceEventView::BeneficiaryNotified(_) => ("BENEFIC"@, "NOTIFY"@),
            InheritanceEventView::BeneficiaryAcknowledged(_) => ("BENEFIC"@, "ACK"@),
            InheritanceEventView::PlanOwnershipTransferred(_) => ("PLAN"@, "TRANSFER"@),
            InheritanceEventView::WrappedTokenAdded(_) => ("wrapped"@, "add"@),
            InheritanceEventView::WrappedTokenRemoved(_) => ("wrapped"@, "remove"@),
        }),
{
}

} // verus!
