use inheritx::access::Role;
use inheritx::host::{Address, Env};
use inheritx::inheritance::claims::ClaimEntry;
use inheritx::inheritance::hashing::{
    hash_claim_code_with_salt, hash_signed_will, make_claim_key, Digest,
};
use inheritx::inheritance::state::InheritanceContract;
use inheritx::inheritance::types::{
    Beneficiary, BeneficiaryInput, CreateInheritancePlanParams, CreateLegacyMessageParams,
    DisputeStatus, DistributionMethod, FreezeRecord, InheritanceCall, InheritanceError,
    InheritanceEvent, InheritancePlan, LegalHold, TriggerConditionType,
};
use inheritx::inheritance::wills::WillBeneficiary;
use inheritx::inheritance::yield_math;
use inheritx::inheritance::yields::PoolReply;
use inheritx::list::List;

const DAY: u64 = 86_400;
const START: u64 = 10_000_000;
const CONTRACT: Address = Address { id: 99 };
const ADMIN: Address = Address { id: 1 };
const OWNER: Address = Address { id: 2 };
const ALICE: Address = Address { id: 3 };
const BOB: Address = Address { id: 4 };
const GUARDIAN: Address = Address { id: 5 };
const SECOND_GUARDIAN: Address = Address { id: 6 };
const CONTACT: Address = Address { id: 7 };
const STRANGER: Address = Address { id: 8 };
const ORACLE: Address = Address { id: 9 };
const TOKEN: Address = Address { id: 10 };
const POOL: Address = Address { id: 11 };
const RELAYER: Address = Address { id: 12 };

/// An invocation at `timestamp` that everybody has authorised.
fn at(timestamp: u64) -> Env {
    Env::new(timestamp, CONTRACT, (0..40).map(|id| Address { id }).collect())
}

fn text(s: &str) -> Vec<u8> {
    s.as_bytes().to_vec()
}

fn list<T>(items: Vec<T>) -> List<T> {
    List { items }
}

fn salt(n: u8) -> Digest {
    Digest { bytes: [n; 32] }
}

fn hex(digest: Digest) -> String {
    digest.bytes.iter().map(|b| format!("{:02x}", b)).collect()
}

fn input(name: &str, claim_code: u32, allocation_bp: u32, priority: u32) -> BeneficiaryInput {
    BeneficiaryInput {
        name: text(name),
        email: text(&format!("{}@example.com", name)),
        claim_code,
        bank_account: text("NL00BANK0123456789"),
        allocation_bp,
        priority,
    }
}

fn two_heirs() -> List<BeneficiaryInput> {
    list(vec![input("alice", 123_456, 6_000, 1), input("bob", 654_321, 4_000, 2)])
}

fn params(
    total_amount: u64,
    method: DistributionMethod,
    heirs: List<BeneficiaryInput>,
) -> CreateInheritancePlanParams {
    CreateInheritancePlanParams {
        owner: OWNER,
        token: TOKEN,
        plan_name: text("House"),
        description: text("For the children"),
        total_amount,
        distribution_method: method,
        beneficiaries_data: heirs,
        is_lendable: true,
    }
}

/// A contract with an admin, and with users whose identity was approved.
fn deployed() -> InheritanceContract {
    let mut contract = InheritanceContract::new();
    contract.initialize_admin(&at(START), ADMIN).unwrap();
    for user in [OWNER, ALICE, BOB] {
        contract.submit_kyc(&at(START), user).unwrap();
        contract.approve_kyc(&at(START), ADMIN, user).unwrap();
    }
    contract
}

fn create(contract: &mut InheritanceContract, method: DistributionMethod) -> u64 {
    contract
        .create_inheritance_plan(
            &at(START),
            params(1_000_000, method, two_heirs()),
            1_000_000,
            true,
            vec![salt(1), salt(2)],
        )
        .unwrap()
}

/// A contract with one plan of 980,000 tokens, paid out at once.
fn planned() -> InheritanceContract {
    let mut contract = deployed();
    assert_eq!(create(&mut contract, DistributionMethod::LumpSum), 1);
    contract
}

fn plan(contract: &InheritanceContract) -> InheritancePlan {
    contract.get_plan_details(1).unwrap()
}

fn last_event(contract: &InheritanceContract) -> &InheritanceEvent {
    contract.events.items.last().unwrap()
}

fn claim_alice(
    contract: &mut InheritanceContract,
    timestamp: u64,
) -> Result<(), InheritanceError> {
    contract.claim_inheritance_plan(&at(timestamp), 1, ALICE, text("alice@example.com"), 123_456)
}

fn claim_bob(contract: &mut InheritanceContract, timestamp: u64) -> Result<(), InheritanceError> {
    contract.claim_inheritance_plan(&at(timestamp), 1, BOB, text("bob@example.com"), 654_321)
}

// --- Hashes ---

#[test]
fn hashes_are_sha256() {
    assert_eq!(
        hex(InheritanceContract::hash_string(text("abc"))),
        "ba7816bf8f01cfea414140de5dae2223b00361a396177a9cb410ff61f20015ad"
    );
    assert_eq!(
        hex(InheritanceContract::hash_bytes(Vec::new())),
        "e3b0c44298fc1c149afbf4c8996fb92427ae41e4649b934ca495991b7852b855"
    );
}

#[test]
fn long_inputs_are_hashed() {
    assert_eq!(
        hex(InheritanceContract::hash_bytes(vec![b'a'; 1_000_000])),
        "cdc76e5c9914fb9281a1c7e284d73e67f1809a48a497200e046d39ccc7112cd0"
    );
}

#[test]
fn claim_codes_are_hashed_behind_their_salt() {
    assert_eq!(
        hex(InheritanceContract::hash_claim_code(123_456).unwrap()),
        "16ba88244e0230b0fc84868b703a0e32c344be1b0284f2e67e59715f123748d6"
    );
    assert_eq!(
        hex(hash_claim_code_with_salt(123_456, &salt(7)).unwrap()),
        "d3a77909138f36f4f24cdff252ea2005b8167a500f9d7e015f46cb791b9a6bb7"
    );
    assert_eq!(
        InheritanceContract::hash_claim_code(1_000_000),
        Err(InheritanceError::InvalidClaimCodeRange)
    );
}

#[test]
fn claim_keys_join_plan_and_email() {
    let email = InheritanceContract::hash_string(text("abc"));
    assert_eq!(
        hex(make_claim_key(5, &email)),
        "3d23d3b0171c3b53507836cb6b2197a34ed81ff7223c50624170bf9666105a2f"
    );
}

// --- Administration ---

#[test]
fn the_greeting_names_its_addressee() {
    assert_eq!(InheritanceContract::hello(text("Dev")), vec![text("Hello"), text("Dev")]);
}

#[test]
fn the_admin_is_initialized_once() {
    let mut contract = deployed();
    assert!(contract.has_role(ADMIN, Role::Admin));
    assert_eq!(
        contract.initialize_admin(&at(START), STRANGER),
        Err(InheritanceError::AdminAlreadyInitialized)
    );
    assert!(!contract.has_role(STRANGER, Role::Admin));
}

#[test]
fn pausing_is_for_admins() {
    let mut contract = deployed();
    assert_eq!(contract.pause(&at(START), STRANGER), Err(InheritanceError::NotAdmin));
    contract.pause(&at(START), ADMIN).unwrap();
    assert!(contract.is_paused());
    assert!(!contract.is_open_for_calls());
    assert_eq!(last_event(&contract).topics(), ("ADMIN", "PAUSE"));
    contract.unpause(&at(START), ADMIN).unwrap();
    assert!(contract.is_open_for_calls());
}

#[test]
fn roles_are_assigned_and_revoked() {
    let mut contract = deployed();
    contract.assign_role(&at(START), ADMIN, STRANGER, Role::Guardian).unwrap();
    assert_eq!(contract.get_roles(STRANGER), vec![Role::Guardian]);
    contract.revoke_role(&at(START), ADMIN, STRANGER, Role::Guardian).unwrap();
    assert!(!contract.has_role(STRANGER, Role::Guardian));
    assert_eq!(
        contract.assign_role(&at(START), STRANGER, STRANGER, Role::Admin),
        Err(InheritanceError::NotAdmin)
    );
}

#[test]
fn code_is_replaced_by_admins() {
    let mut contract = InheritanceContract::new();
    assert_eq!(
        contract.upgrade(&at(START), ADMIN, salt(7)),
        Err(InheritanceError::AdminNotSet)
    );
    let mut contract = planned();
    assert_eq!(
        contract.upgrade(&at(START), STRANGER, salt(7)),
        Err(InheritanceError::NotAdmin)
    );
    assert_eq!(contract.version(), 1);
    contract.upgrade(&at(START), ADMIN, salt(7)).unwrap();
    assert_eq!(contract.version(), 2);
    assert_eq!(plan(&contract).total_amount, 980_000);
    assert_eq!(
        *contract.calls.items.last().unwrap(),
        InheritanceCall::UpdateWasm { new_wasm_hash: salt(7) }
    );
}

#[test]
fn migrating_twice_changes_nothing() {
    let mut contract = deployed();
    contract.migrate(&at(START), ADMIN).unwrap();
    assert_eq!(contract.version, Some(1));
    contract.migrate(&at(START), ADMIN).unwrap();
    assert_eq!(contract.version, Some(1));
}

#[test]
fn wrapped_tokens_are_added_and_removed() {
    let mut contract = InheritanceContract::new();
    assert_eq!(
        contract.add_supported_wrapped_token(&at(START), TOKEN),
        Err(InheritanceError::AdminNotSet)
    );
    let mut contract = deployed();
    contract.add_supported_wrapped_token(&at(START), TOKEN).unwrap();
    assert_eq!(
        contract.add_supported_wrapped_token(&at(START), TOKEN),
        Err(InheritanceError::AlreadyApproved)
    );
    assert_eq!(contract.get_wrapped_tokens(), vec![TOKEN]);
    contract.remove_wrapped_token(&at(START), TOKEN).unwrap();
    assert!(!contract.is_wrapped_token_supported(TOKEN));
    assert_eq!(
        contract.remove_wrapped_token(&at(START), TOKEN),
        Err(InheritanceError::BeneficiaryNotFound)
    );
}

#[test]
fn error_codes_round_trip() {
    let mut known = 0;
    for code in 0..200 {
        match InheritanceError::try_from(code) {
            Ok(error) => {
                known += 1;
                assert_eq!(error.code(), code);
            },
            Err(unknown) => assert_eq!(unknown, code),
        }
    }
    assert_eq!(known, 50);
}

// --- Identity ---

#[test]
fn identities_are_approved_after_submission() {
    let mut contract = InheritanceContract::new();
    assert_eq!(
        contract.reject_kyc(&at(START), ADMIN, ALICE),
        Err(InheritanceError::AdminNotSet)
    );
    contract.initialize_admin(&at(START), ADMIN).unwrap();
    assert_eq!(
        contract.approve_kyc(&at(START), ADMIN, ALICE),
        Err(InheritanceError::KycNotSubmitted)
    );
    contract.submit_kyc(&at(START), ALICE).unwrap();
    assert_eq!(
        contract.approve_kyc(&at(START), STRANGER, ALICE),
        Err(InheritanceError::NotAdmin)
    );
    contract.approve_kyc(&at(START + 1), ADMIN, ALICE).unwrap();
    assert_eq!(
        contract.approve_kyc(&at(START), ADMIN, ALICE),
        Err(InheritanceError::KycAlreadyApproved)
    );
    assert_eq!(contract.check_kyc_approved(ALICE), Ok(()));
    contract.submit_kyc(&at(START), BOB).unwrap();
    contract.reject_kyc(&at(START), ADMIN, BOB).unwrap();
    assert_eq!(
        contract.reject_kyc(&at(START), ADMIN, BOB),
        Err(InheritanceError::KycAlreadyRejected)
    );
}

#[test]
fn a_batch_of_approvals_counts_failures() {
    let mut contract = deployed();
    contract.submit_kyc(&at(START), STRANGER).unwrap();
    assert_eq!(
        contract.batch_approve_kyc(&at(START), ADMIN, vec![STRANGER, ALICE, CONTACT]),
        Ok((1, 2))
    );
    assert_eq!(
        contract.batch_approve_kyc(&at(START), ADMIN, vec![ALICE; 21]),
        Err(InheritanceError::TooManyBeneficiaries)
    );
}

// --- Plans ---

#[test]
fn plan_inputs_are_checked() {
    let check = |name: &str, description: usize, asset: &str, total: u64| {
        InheritanceContract::validate_plan_inputs(
            &text(name),
            &vec![b'd'; description],
            &text(asset),
            total,
        )
    };
    assert_eq!(check("House", 500, "USDC", 1), Ok(()));
    assert_eq!(check("", 500, "USDC", 1), Err(InheritanceError::MissingRequiredField));
    assert_eq!(check("House", 501, "USDC", 1), Err(InheritanceError::DescriptionTooLong));
    assert_eq!(check("House", 0, "XLM", 1), Err(InheritanceError::InvalidAssetType));
    assert_eq!(check("House", 0, "USDC", 0), Err(InheritanceError::InvalidTotalAmount));
}

#[test]
fn creating_a_plan_charges_two_percent() {
    let contract = planned();
    let plan = plan(&contract);
    assert_eq!(plan.total_amount, 980_000);
    assert_eq!(plan.total_allocation_bp, 10_000);
    assert_eq!(plan.asset_type, text("USDC"));
    assert_eq!(plan.beneficiaries.items.len(), 2);
    assert!(contract.has_role(OWNER, Role::Owner));
    assert_eq!(
        contract.calls.items,
        vec![
            InheritanceCall::Transfer { token: TOKEN, from: OWNER, to: ADMIN, amount: 20_000 },
            InheritanceCall::Transfer {
                token: TOKEN,
                from: OWNER,
                to: CONTRACT,
                amount: 980_000
            },
        ]
    );
}

#[test]
fn plans_are_refused() {
    let mut contract = deployed();
    let mut ask = |p: CreateInheritancePlanParams, balance: i128, paid: bool| {
        let salts = (0..30).map(salt).collect();
        contract.create_inheritance_plan(&at(START), p, balance, paid, salts)
    };
    let good = || params(1_000_000, DistributionMethod::LumpSum, two_heirs());
    let heirs = |h: Vec<BeneficiaryInput>| params(1_000_000, DistributionMethod::LumpSum, list(h));
    assert_eq!(
        ask(CreateInheritancePlanParams { owner: STRANGER, ..good() }, 1_000_000, true),
        Err(InheritanceError::KycNotSubmitted)
    );
    assert_eq!(
        ask(CreateInheritancePlanParams { total_amount: 0, ..good() }, 1_000_000, true),
        Err(InheritanceError::InvalidTotalAmount)
    );
    assert_eq!(ask(good(), 999_999, true), Err(InheritanceError::InsufficientBalance));
    assert_eq!(ask(good(), 1_000_000, false), Err(InheritanceError::FeeTransferFailed));
    assert_eq!(
        ask(heirs(Vec::new()), 1_000_000, true),
        Err(InheritanceError::MissingRequiredField)
    );
    assert_eq!(
        ask(heirs(vec![input("alice", 1, 9_999, 1)]), 1_000_000, true),
        Err(InheritanceError::AllocationPercentageMismatch)
    );
    assert_eq!(
        ask(heirs(vec![input("alice", 1, 10_000, 0)]), 1_000_000, true),
        Err(InheritanceError::PriorityOutOfRange)
    );
    assert_eq!(
        ask(heirs(vec![input("a", 1, 5_000, 1), input("b", 2, 5_000, 1)]), 1_000_000, true),
        Err(InheritanceError::DuplicatePriority)
    );
    assert_eq!(
        ask(heirs(vec![input("a", 1, 5_000, 1), input("a", 2, 5_000, 2)]), 1_000_000, true),
        Err(InheritanceError::InvalidBeneficiaryData)
    );
    assert_eq!(
        ask(heirs(vec![input("a", 1_000_000, 10_000, 1)]), 1_000_000, true),
        Err(InheritanceError::InvalidClaimCodeRange)
    );
    let many = (1..=11).map(|i| input(&format!("h{}", i), 1, 900, i)).collect();
    assert_eq!(ask(heirs(many), 1_000_000, true), Err(InheritanceError::TooManyBeneficiaries));
    assert_eq!(ask(good(), 1_000_000, true), Ok(1));
}

#[test]
fn withdrawing_undoes_a_deposit() {
    let mut contract = planned();
    let env = at(START);
    assert_eq!(
        contract.deposit(&env, OWNER, TOKEN, 1, 0, 10, true),
        Err(InheritanceError::InvalidTotalAmount)
    );
    assert_eq!(
        contract.deposit(&env, STRANGER, TOKEN, 1, 500, 500, true),
        Err(InheritanceError::Unauthorized)
    );
    assert_eq!(
        contract.deposit(&env, OWNER, TOKEN, 1, 500, 499, true),
        Err(InheritanceError::InsufficientBalance)
    );
    assert_eq!(
        contract.deposit(&env, OWNER, TOKEN, 1, 500, 500, false),
        Err(InheritanceError::FeeTransferFailed)
    );
    contract.deposit(&env, OWNER, TOKEN, 1, 500, 500, true).unwrap();
    assert_eq!(plan(&contract).total_amount, 980_500);
    assert_eq!(
        contract.withdraw(&env, OWNER, TOKEN, 1, 980_501, true),
        Err(InheritanceError::InsufficientLiquidity)
    );
    contract.withdraw(&env, OWNER, TOKEN, 1, 500, true).unwrap();
    assert_eq!(plan(&contract).total_amount, 980_000);
    assert_eq!(last_event(&contract).topics(), ("VAULT", "WITHDRAW"));
}

#[test]
fn ownership_moves_with_the_plan() {
    let mut contract = planned();
    let env = at(START);
    assert!(contract.verify_plan_ownership(1, OWNER));
    contract.transfer_plan_ownership(&env, OWNER, ALICE, 1).unwrap();
    assert!(contract.verify_plan_ownership(1, ALICE));
    assert!(!contract.verify_plan_ownership(1, OWNER));
    assert_eq!(contract.get_user_plans(&env, OWNER).items.len(), 0);
    assert_eq!(contract.get_user_plans(&env, ALICE).items.len(), 1);
    assert_eq!(
        contract.transfer_plan_ownership(&env, OWNER, ALICE, 1),
        Err(InheritanceError::Unauthorized)
    );
    contract.deactivate_inheritance_plan(&env, ALICE, 1).unwrap();
    assert_eq!(
        contract.transfer_plan_ownership(&env, ALICE, OWNER, 1),
        Err(InheritanceError::PlanNotActive)
    );
}

#[test]
fn plans_are_deactivated_once() {
    let mut contract = planned();
    let env = at(START);
    assert_eq!(contract.get_user_pending_plans(&env, OWNER).items.len(), 1);
    contract.deactivate_inheritance_plan(&env, OWNER, 1).unwrap();
    assert_eq!(
        contract.deactivate_inheritance_plan(&env, OWNER, 1),
        Err(InheritanceError::PlanAlreadyDeactivated)
    );
    assert_eq!(contract.get_user_pending_plans(&env, OWNER).items.len(), 0);
    assert_eq!(contract.get_user_deactivated_plans(&env, OWNER).items.len(), 1);
    assert_eq!(contract.get_all_deactivated_plans(&env, ADMIN).unwrap().items.len(), 1);
    assert_eq!(contract.get_all_pending_plans(&env, ADMIN).unwrap().items.len(), 0);
    assert_eq!(contract.get_all_plans(&env, ADMIN).unwrap().items.len(), 1);
    assert!(contract.get_deactivated_plan(&env, OWNER, 1).is_ok());
    assert_eq!(claim_alice(&mut contract, START), Err(InheritanceError::PlanNotActive));
    assert!(matches!(
        contract.get_all_plans(&env, STRANGER),
        Err(InheritanceError::NotAdmin)
    ));
}

#[test]
fn grace_periods_are_bounded() {
    let mut contract = planned();
    let env = at(START);
    assert_eq!(
        contract.update_grace_period(&env, 1, 7 * DAY - 1),
        Err(InheritanceError::InvalidBeneficiaryData)
    );
    assert_eq!(
        contract.update_grace_period(&env, 9, 7 * DAY),
        Err(InheritanceError::PlanNotFound)
    );
    contract.update_grace_period(&env, 1, 7 * DAY).unwrap();
    assert_eq!(plan(&contract).grace_period, 7 * DAY);
}

#[test]
fn plans_are_rewritten_by_their_owner() {
    let mut contract = planned();
    let heirs = list(vec![input("carol", 42, 10_000, 1)]);
    contract
        .update_plan(&at(START), OWNER, 1, heirs, 10 * DAY, true, vec![salt(5)])
        .unwrap();
    let plan = plan(&contract);
    assert!(plan.earn_yield);
    assert_eq!(plan.beneficiaries.items.len(), 1);
    assert_eq!(
        plan.beneficiaries.items[0].hashed_claim_code,
        hash_claim_code_with_salt(42, &salt(5)).unwrap()
    );
}

#[test]
fn lending_is_switched_by_the_owner() {
    let mut contract = planned();
    contract.set_lendable(&at(START), OWNER, 1, false).unwrap();
    assert!(!plan(&contract).is_lendable);
    assert_eq!(
        contract.set_lendable(&at(START), STRANGER, 1, true),
        Err(InheritanceError::Unauthorized)
    );
}

// --- Beneficiaries ---

#[test]
fn a_removed_beneficiary_leaves_no_trace() {
    let mut contract = planned();
    let env = at(START);
    assert_eq!(
        contract.add_beneficiary(&env, OWNER, 1, input("carol", 7, 1, 3), salt(3)),
        Err(InheritanceError::AllocationExceedsLimit)
    );
    contract.batch_remove_beneficiaries(&env, OWNER, 1, vec![1]).unwrap();
    assert_eq!(plan(&contract).total_allocation_bp, 6_000);
    contract.add_beneficiary(&env, OWNER, 1, input("carol", 7, 4_000, 3), salt(3)).unwrap();
    assert_eq!(plan(&contract).total_allocation_bp, 10_000);
    contract.remove_beneficiary(&env, OWNER, 1, 1).unwrap();
    assert_eq!(plan(&contract).total_allocation_bp, 6_000);
    assert_eq!(
        contract.remove_beneficiary(&env, OWNER, 1, 1),
        Err(InheritanceError::InvalidBeneficiaryIndex)
    );
    assert_eq!(
        contract.add_beneficiary(&env, OWNER, 1, input("carol", 7, 0, 3), salt(3)),
        Err(InheritanceError::InvalidAllocation)
    );
    assert_eq!(
        contract.add_beneficiary(&env, OWNER, 1, input("", 7, 1, 3), salt(3)),
        Err(InheritanceError::InvalidBeneficiaryData)
    );
}

#[test]
fn beneficiaries_are_stored_as_hashes() {
    let made: Beneficiary =
        InheritanceContract::create_beneficiary(&input("alice", 123_456, 6_000, 1), &salt(7))
            .unwrap();
    assert_eq!(made.hashed_full_name, InheritanceContract::hash_string(text("alice")));
    assert_eq!(made.hashed_email, InheritanceContract::hash_string(text("alice@example.com")));
    assert_eq!(
        hex(made.hashed_claim_code),
        "d3a77909138f36f4f24cdff252ea2005b8167a500f9d7e015f46cb791b9a6bb7"
    );
    assert!(!made.is_claimed);
}

#[test]
fn batches_of_beneficiaries_count_failures() {
    let mut contract = planned();
    let env = at(START);
    assert_eq!(contract.batch_remove_beneficiaries(&env, OWNER, 1, vec![0, 7, 1]), Ok((2, 1)));
    let heirs =
        list(vec![input("a", 1, 5_000, 1), input("b", 2, 6_000, 2), input("c", 3, 5_000, 3)]);
    assert_eq!(
        contract.batch_add_beneficiaries(&env, OWNER, 1, heirs, vec![salt(1), salt(2), salt(3)]),
        Ok((2, 1))
    );
    assert_eq!(plan(&contract).total_allocation_bp, 10_000);
    contract.batch_update_allocations(&env, OWNER, 1, vec![9_000, 1_000]).unwrap();
    assert_eq!(plan(&contract).beneficiaries.items[0].allocation_bp, 9_000);
    assert_eq!(
        contract.batch_update_allocations(&env, OWNER, 1, vec![9_000, 1_001]),
        Err(InheritanceError::AllocationPercentageMismatch)
    );
    assert_eq!(
        contract.batch_update_allocations(&env, OWNER, 1, vec![10_000]),
        Err(InheritanceError::InvalidBeneficiaryData)
    );
}

// --- Claims ---

#[test]
fn a_claim_pays_the_share() {
    let mut contract = planned();
    claim_alice(&mut contract, START).unwrap();
    assert_eq!(plan(&contract).total_amount, 392_000);
    assert!(plan(&contract).beneficiaries.items[0].is_claimed);
    assert!(contract.has_role(ALICE, Role::Beneficiary));
    assert_eq!(last_event(&contract).topics(), ("F_PAYOUT", ""));
    let env = at(START);
    assert_eq!(contract.get_user_claimed_plans(&env, OWNER).items.len(), 1);
    assert_eq!(contract.get_all_claimed_plans(&env, ADMIN).unwrap().items.len(), 1);
}

#[test]
fn a_claim_is_paid_once() {
    let mut contract = planned();
    claim_alice(&mut contract, START).unwrap();
    assert_eq!(claim_alice(&mut contract, START), Err(InheritanceError::AlreadyClaimed));
    assert_eq!(plan(&contract).total_amount, 392_000);
}

#[test]
fn claims_are_refused() {
    let mut contract = planned();
    let mut ask = |plan_id: u64, claimer: Address, email: &str, code: u32| {
        contract.claim_inheritance_plan(&at(START), plan_id, claimer, text(email), code)
    };
    let email = "alice@example.com";
    assert_eq!(ask(1, STRANGER, email, 123_456), Err(InheritanceError::KycNotSubmitted));
    assert_eq!(ask(9, ALICE, email, 123_456), Err(InheritanceError::PlanNotFound));
    assert_eq!(ask(1, ALICE, email, 123_457), Err(InheritanceError::BeneficiaryNotFound));
    assert_eq!(ask(1, ALICE, "eve@example.com", 123_456), Err(InheritanceError::BeneficiaryNotFound));
    assert_eq!(ask(1, ALICE, email, 1_000_000), Err(InheritanceError::InvalidClaimCodeRange));
}

#[test]
fn claims_are_checked_before_the_email() {
    let mut contract = deployed();
    create(&mut contract, DistributionMethod::Monthly);
    let env = at(START);
    assert_eq!(
        contract.check_claim_entry(&env, 1, STRANGER),
        Some(InheritanceError::KycNotSubmitted)
    );
    assert_eq!(
        contract.check_claim_entry(&env, 2, ALICE),
        Some(InheritanceError::PlanNotFound)
    );
    assert_eq!(
        contract.check_claim_entry(&env, 1, ALICE),
        Some(InheritanceError::ClaimNotAllowedYet)
    );
    assert_eq!(contract.check_claim_entry(&at(START + 30 * DAY), 1, ALICE), None);
    assert_eq!(
        contract.check_batch_claim(&env, 1, 21),
        Some(InheritanceError::TooManyBeneficiaries)
    );
    assert_eq!(
        contract.check_batch_claim(&env, 1, 1),
        Some(InheritanceError::ClaimNotAllowedYet)
    );
    assert_eq!(contract.check_batch_claim(&at(START + 30 * DAY), 1, 1), None);
}

#[test]
fn texts_are_not_measured_before_the_claimer_is_known() {
    let mut contract = planned();
    let long = vec![b'x'; 1_000];
    assert_eq!(
        contract.claim_inheritance_plan(&at(START), 1, STRANGER, long, 123_456),
        Err(InheritanceError::KycNotSubmitted)
    );
}

#[test]
fn periodic_plans_wait_for_their_time() {
    let mut contract = deployed();
    create(&mut contract, DistributionMethod::Monthly);
    assert_eq!(
        claim_alice(&mut contract, START + 30 * DAY - 1),
        Err(InheritanceError::ClaimNotAllowedYet)
    );
    claim_alice(&mut contract, START + 30 * DAY).unwrap();
}

#[test]
fn a_trigger_opens_the_claims() {
    let mut contract = deployed();
    create(&mut contract, DistributionMethod::Yearly);
    contract.trigger_inheritance(&at(START), OWNER, 1).unwrap();
    assert_eq!(
        contract.trigger_inheritance(&at(START), OWNER, 1),
        Err(InheritanceError::InheritanceAlreadyTriggered)
    );
    claim_alice(&mut contract, START).unwrap();
}

#[test]
fn a_claim_that_triggers_keeps_the_freeze() {
    let mut contract = planned();
    contract.add_time_trigger(&at(START), OWNER, 1, START + DAY).unwrap();
    assert!(plan(&contract).is_lendable);
    claim_alice(&mut contract, START + DAY).unwrap();
    assert!(contract.get_inheritance_trigger(1).is_some());
    assert!(!plan(&contract).is_lendable);
}

#[test]
fn claims_follow_the_waterfall() {
    let mut contract = planned();
    let env = at(START);
    contract.enable_waterfall_distribution(&env, OWNER, 1).unwrap();
    assert_eq!(contract.get_claimable_by_priority(1, 1), Ok(0));
    assert_eq!(contract.get_claimable_by_priority(1, 0), Ok(588_000));
    assert_eq!(claim_bob(&mut contract, START), Err(InheritanceError::ClaimNotAllowedYet));
    claim_alice(&mut contract, START).unwrap();
    assert_eq!(contract.get_claimable_by_priority(1, 1), Ok(156_800));
    claim_bob(&mut contract, START).unwrap();
    assert_eq!(plan(&contract).total_amount, 235_200);
}

#[test]
fn priorities_are_unique() {
    let mut contract = planned();
    let env = at(START);
    assert_eq!(
        contract.set_beneficiary_priority(&env, OWNER, 1, 0, 2),
        Err(InheritanceError::DuplicatePriority)
    );
    assert_eq!(
        contract.set_beneficiary_priority(&env, OWNER, 1, 0, 0),
        Err(InheritanceError::PriorityOutOfRange)
    );
    contract.set_beneficiary_priority(&env, OWNER, 1, 0, 5).unwrap();
    assert_eq!(contract.get_beneficiary_priority(1, 0), Ok(5));
}

#[test]
fn attempts_are_limited_by_the_hour() {
    let mut contract = planned();
    for _ in 0..10 {
        contract.check_and_record_claim_attempt(&at(START), 1, ALICE).unwrap();
    }
    assert_eq!(
        contract.check_and_record_claim_attempt(&at(START + 3_599), 1, ALICE),
        Err(InheritanceError::Unauthorized)
    );
    assert_eq!(claim_alice(&mut contract, START + 3_599), Err(InheritanceError::Unauthorized));
    claim_alice(&mut contract, START + 3_600).unwrap();
}

#[test]
fn a_batch_of_claims_counts_failures() {
    let mut contract = planned();
    let entry = |claimer: Address, email: &str, claim_code: u32| ClaimEntry {
        claimer,
        email: text(email),
        claim_code,
    };
    let entries = list(vec![
        entry(ALICE, "alice@example.com", 123_456),
        entry(ALICE, "alice@example.com", 123_456),
        entry(BOB, "bob@example.com", 1),
        entry(BOB, "bob@example.com", 1_000_000),
        entry(STRANGER, "bob@example.com", 654_321),
        entry(BOB, "bob@example.com", 654_321),
    ]);
    assert_eq!(contract.batch_claim(&at(START), 1, entries), Ok((2, 5)));
    assert_eq!(plan(&contract).total_amount, 235_200);
    assert_eq!(
        contract.batch_claim(&at(START), 9, list(Vec::new())),
        Err(InheritanceError::PlanNotFound)
    );
}

#[test]
fn frozen_plans_pay_nobody() {
    let mut contract = planned();
    contract.holds.freezes.set(
        1,
        FreezeRecord { plan_id: 1, frozen_at: START, reason: text("audit"), frozen_by: ADMIN },
    );
    assert_eq!(claim_alice(&mut contract, START), Err(InheritanceError::PlanNotActive));
    contract.holds.freezes.remove(1);
    contract.holds.legal_holds.set(
        1,
        LegalHold { plan_id: 1, added_at: START, reason: text("court"), added_by: ADMIN },
    );
    assert_eq!(claim_alice(&mut contract, START), Err(InheritanceError::PlanNotActive));
    contract.holds.legal_holds.remove(1);
    contract.holds.frozen_beneficiaries.set((1, 0), true);
    assert_eq!(claim_alice(&mut contract, START), Err(InheritanceError::Unauthorized));
    contract.holds.frozen_beneficiaries.set((1, 0), false);
    claim_alice(&mut contract, START).unwrap();
}

#[test]
fn settlements_cap_the_payout() {
    let mut contract = planned();
    contract.claims.settlements.set((1, 0), 600_000);
    assert_eq!(contract.get_vesting_exit_settlement(1, 0), 600_000);
    claim_alice(&mut contract, START).unwrap();
    assert_eq!(plan(&contract).total_amount, 392_000);
    assert_eq!(contract.get_vesting_exit_settlement(1, 0), 12_000);
    assert!(!plan(&contract).beneficiaries.items[0].is_claimed);
    claim_alice(&mut contract, START).unwrap();
    assert_eq!(plan(&contract).total_amount, 380_000);
    assert!(plan(&contract).beneficiaries.items[0].is_claimed);
}

// --- Emergency access ---

#[test]
fn guardians_grant_access_together() {
    let mut contract = planned();
    let env = at(START);
    assert_eq!(
        contract.set_guardians(&env, OWNER, 1, vec![GUARDIAN], 2),
        Err(InheritanceError::InvalidGuardianThreshold)
    );
    contract.set_guardians(&env, OWNER, 1, vec![GUARDIAN, SECOND_GUARDIAN], 2).unwrap();
    assert_eq!(
        contract.approve_emergency_access(&env, STRANGER, 1, CONTACT),
        Err(InheritanceError::Unauthorized)
    );
    contract.approve_emergency_access(&env, GUARDIAN, 1, CONTACT).unwrap();
    assert!(!contract.is_emergency_active(&env, 1));
    assert_eq!(
        contract.approve_emergency_access(&env, GUARDIAN, 1, CONTACT),
        Err(InheritanceError::AlreadyApproved)
    );
    contract.approve_emergency_access(&env, SECOND_GUARDIAN, 1, CONTACT).unwrap();
    assert!(contract.is_emergency_active(&env, 1));
    assert_eq!(contract.get_emergency_access(&env, 1).unwrap().trusted_contact, CONTACT);
    assert!(contract.get_user_plan(&env, CONTACT, 1).is_ok());
}

#[test]
fn the_cooldown_limits_what_leaves() {
    let mut contract = planned();
    contract.activate_emergency_access(&at(START), OWNER, 1, CONTACT).unwrap();
    assert_eq!(
        contract.activate_emergency_access(&at(START), OWNER, 1, CONTACT),
        Err(InheritanceError::EmergencyAccessAlreadyActive)
    );
    assert_eq!(
        contract.withdraw(&at(START), OWNER, TOKEN, 1, 98_001, true),
        Err(InheritanceError::EmergencyCooldownActive)
    );
    assert_eq!(
        claim_alice(&mut contract, START),
        Err(InheritanceError::EmergencyCooldownActive)
    );
    contract.withdraw(&at(START), OWNER, TOKEN, 1, 98_000, true).unwrap();
    contract.withdraw(&at(START + DAY), OWNER, TOKEN, 1, 400_000, true).unwrap();
}

#[test]
fn access_lapses_after_a_week() {
    let mut contract = planned();
    contract.activate_emergency_access(&at(START), OWNER, 1, CONTACT).unwrap();
    assert!(contract.get_emergency_access(&at(START + 7 * DAY), 1).is_some());
    assert!(contract.get_emergency_access(&at(START + 7 * DAY + 1), 1).is_none());
    assert_eq!(last_event(&contract).topics(), ("EMERG", "EXPIR"));
}

#[test]
fn access_is_taken_back() {
    let mut contract = planned();
    contract.activate_emergency_access(&at(START), OWNER, 1, CONTACT).unwrap();
    contract.deactivate_emergency_access(&at(START), OWNER, 1).unwrap();
    assert!(contract.get_emergency_access(&at(START), 1).is_none());
}

#[test]
fn contacts_come_and_go() {
    let mut contract = planned();
    let env = at(START);
    contract.add_emergency_contact(&env, OWNER, 1, CONTACT).unwrap();
    assert_eq!(
        contract.add_emergency_contact(&env, OWNER, 1, CONTACT),
        Err(InheritanceError::EmergencyContactAlreadyExists)
    );
    assert_eq!(contract.get_emergency_contacts(1), vec![CONTACT]);
    contract.remove_emergency_contact(&env, OWNER, 1, CONTACT).unwrap();
    assert_eq!(contract.get_emergency_contacts(1), Vec::<Address>::new());
    assert_eq!(
        contract.remove_emergency_contact(&env, OWNER, 1, CONTACT),
        Err(InheritanceError::EmergencyContactNotFound)
    );
    for id in 20..30 {
        contract.add_emergency_contact(&env, OWNER, 1, Address { id }).unwrap();
    }
    assert_eq!(
        contract.add_emergency_contact(&env, OWNER, 1, CONTACT),
        Err(InheritanceError::TooManyEmergencyContacts)
    );
}

#[test]
fn guardians_need_a_configuration() {
    let mut contract = planned();
    let env = at(START);
    contract.assign_role(&env, ADMIN, GUARDIAN, Role::Guardian).unwrap();
    assert_eq!(
        contract.approve_emergency_access(&env, GUARDIAN, 1, CONTACT),
        Err(InheritanceError::GuardianNotFound)
    );
}

// --- Triggers ---

#[test]
fn a_date_triggers() {
    let mut contract = planned();
    contract.add_time_trigger(&at(START), OWNER, 1, START + DAY).unwrap();
    assert!(!contract.check_trigger_conditions(&at(START + DAY - 1), 1));
    assert!(contract.check_trigger_conditions(&at(START + DAY), 1));
    contract.auto_trigger_check(&at(START + DAY), 1).unwrap();
    let info = contract.get_inheritance_trigger(1).unwrap();
    assert_eq!(info.triggered_at, START + DAY);
    assert!(info.loan_freeze_active);
    assert!(!plan(&contract).is_lendable);
    assert_eq!(
        contract.add_time_trigger(&at(START), OWNER, 1, 5),
        Err(InheritanceError::InheritanceAlreadyTriggered)
    );
}

#[test]
fn activity_postpones_the_trigger() {
    let mut contract = planned();
    contract.add_inactivity_trigger(&at(START), OWNER, 1, 10 * DAY).unwrap();
    assert!(contract.check_trigger_conditions(&at(START + 10 * DAY), 1));
    contract.record_activity(&at(START + 5 * DAY), OWNER, 1).unwrap();
    assert!(!contract.check_trigger_conditions(&at(START + 15 * DAY - 1), 1));
    assert!(contract.check_trigger_conditions(&at(START + 15 * DAY), 1));
    assert_eq!(
        contract.record_activity(&at(START), OWNER, 9),
        Err(InheritanceError::PlanNotFound)
    );
}

#[test]
fn oracles_trigger() {
    let mut contract = planned();
    let env = at(START);
    assert_eq!(
        contract.set_trigger_conditions(
            &env,
            OWNER,
            1,
            vec![TriggerConditionType::Oracle],
            0,
            0,
            None
        ),
        Err(InheritanceError::MissingRequiredField)
    );
    contract.add_oracle_trigger(&env, OWNER, 1, ORACLE).unwrap();
    assert_eq!(
        contract.submit_oracle_trigger(&env, STRANGER, 1),
        Err(InheritanceError::Unauthorized)
    );
    assert!(!contract.check_trigger_conditions(&env, 1));
    contract.submit_oracle_trigger(&env, ORACLE, 1).unwrap();
    assert!(contract.check_trigger_conditions(&env, 1));
}

#[test]
fn health_reports_trigger() {
    let mut contract = planned();
    let env = at(START);
    contract.add_health_trigger(&env, OWNER, 1, ORACLE).unwrap();
    contract.submit_health_trigger(&env, ORACLE, 1).unwrap();
    assert!(contract.check_trigger_conditions(&env, 1));
}

#[test]
fn loans_are_settled_after_the_trigger() {
    let mut contract = planned();
    let env = at(START);
    contract.plans.records.at_mut(1).total_loaned = 300_000;
    assert_eq!(contract.get_claimable_amount(1), Ok(680_000));
    assert_eq!(
        contract.freeze_loans(&env, ADMIN, 1),
        Err(InheritanceError::InheritanceNotTriggered)
    );
    contract.trigger_inheritance(&env, ADMIN, 1).unwrap();
    assert_eq!(
        contract.recall_loan(&env, ADMIN, 1, 300_001),
        Err(InheritanceError::LoanRecallFailed)
    );
    contract.recall_loan(&env, ADMIN, 1, 100_000).unwrap();
    contract.liquidation_fallback(&env, ADMIN, 1).unwrap();
    assert_eq!(last_event(&contract).topics(), ("LOAN", "LIQUIDATE"));
    let info = contract.get_inheritance_trigger(1).unwrap();
    assert_eq!(
        (info.original_loaned, info.recalled_amount, info.settled_amount),
        (300_000, 100_000, 200_000)
    );
    assert_eq!((plan(&contract).total_amount, plan(&contract).total_loaned), (780_000, 0));
    assert_eq!(
        contract.liquidation_fallback(&env, ADMIN, 1),
        Err(InheritanceError::NoOutstandingLoans)
    );
}

#[test]
fn lent_money_cannot_be_claimed() {
    let mut contract = planned();
    contract.plans.records.at_mut(1).total_loaned = 500_000;
    assert_eq!(claim_alice(&mut contract, START), Err(InheritanceError::InsufficientLiquidity));
    contract.plans.records.at_mut(1).total_loaned = 0;
    contract.plans.records.at_mut(1).total_amount = 0;
    assert_eq!(claim_alice(&mut contract, START), Err(InheritanceError::NothingToClaim));
}

// --- Wills ---

#[test]
fn a_finalized_will_is_locked() {
    let mut contract = planned();
    let env = at(START);
    assert_eq!(contract.create_will_version(&env, OWNER, 1, salt(1)), Ok(1));
    assert_eq!(contract.create_will_version(&env, OWNER, 1, salt(2)), Ok(2));
    assert_eq!(contract.get_will_version_count(1), 2);
    assert_eq!(contract.get_active_will_version(1).unwrap().will_hash, salt(2));
    assert!(!contract.get_will_version(1, 1).unwrap().is_active);
    assert_eq!(
        contract.finalize_will(&env, OWNER, 1, 3),
        Err(InheritanceError::WillVersionNotFound)
    );
    assert_eq!(
        contract.finalize_will(&env, OWNER, 1, 2),
        Err(InheritanceError::WillVersionNotFound)
    );
    contract.sign_will(&env, OWNER, 1, salt(2), vec![3; 64], START).unwrap();
    contract.add_witness(&env, OWNER, 1, ALICE).unwrap();
    assert_eq!(
        contract.finalize_will(&env, OWNER, 1, 2),
        Err(InheritanceError::MissingRequiredField)
    );
    contract.sign_as_witness(&env, ALICE, 1, vec![4; 64], START).unwrap();
    contract.finalize_will(&env, OWNER, 1, 2).unwrap();
    assert!(contract.is_will_finalized(1, 2));
    assert_eq!(contract.get_will_finalized_at(1, 2), Some(START));
    assert_eq!(
        contract.finalize_will(&env, OWNER, 1, 2),
        Err(InheritanceError::WillAlreadyFinalized)
    );
    assert_eq!(
        contract.create_will_version(&env, OWNER, 1, salt(9)),
        Err(InheritanceError::WillAlreadyFinalized)
    );
}

#[test]
fn signatures_are_used_once() {
    let mut contract = planned();
    let env = at(START);
    assert_eq!(
        contract.sign_will(&env, OWNER, 1, salt(1), vec![3; 64], START - 1),
        Err(InheritanceError::Unauthorized)
    );
    contract.sign_will(&env, OWNER, 1, salt(1), vec![3; 64], START).unwrap();
    assert_eq!(contract.get_will_signature(1).unwrap().sig_hash, hash_signed_will(1, &salt(1)));
    assert_eq!(
        contract.sign_will(&env, OWNER, 1, salt(1), vec![3; 64], START),
        Err(InheritanceError::WillAlreadyFinalized)
    );
    contract.add_witness(&env, OWNER, 1, ALICE).unwrap();
    assert_eq!(
        contract.add_witness(&env, OWNER, 1, ALICE),
        Err(InheritanceError::EmergencyContactAlreadyExists)
    );
    assert_eq!(
        contract.sign_as_witness(&env, ALICE, 1, vec![3; 64], START),
        Err(InheritanceError::AlreadyApproved)
    );
    assert_eq!(
        contract.sign_as_witness(&env, BOB, 1, vec![5; 64], START),
        Err(InheritanceError::EmergencyContactNotFound)
    );
    assert_eq!(contract.get_witness_signature(1, ALICE), None);
}

#[test]
fn a_signature_is_bound_to_vault_and_will() {
    let mut contract = planned();
    let env = at(START);
    contract.sign_will(&env, OWNER, 1, salt(1), vec![3; 64], START).unwrap();
    let first = contract.get_will_signature(1).unwrap().sig_hash;
    let mut encoded = 1u64.to_be_bytes().to_vec();
    encoded.extend_from_slice(&[1; 32]);
    assert_eq!(first, InheritanceContract::hash_bytes(encoded));
    contract.sign_will(&env, OWNER, 1, salt(1), vec![5; 64], START).unwrap();
    assert_eq!(contract.get_will_signature(1).unwrap().sig_hash, first);
    contract.sign_will(&env, OWNER, 1, salt(2), vec![6; 64], START).unwrap();
    assert_ne!(contract.get_will_signature(1).unwrap().sig_hash, first);
    assert_ne!(hash_signed_will(2, &salt(1)), first);
}

#[test]
fn wills_are_stored_and_linked_once() {
    let mut contract = planned();
    let env = at(START);
    contract.store_will_hash(&env, OWNER, 1, salt(1)).unwrap();
    assert_eq!(contract.get_will_hash(1), Some(salt(1)));
    assert_eq!(
        contract.store_will_hash(&env, OWNER, 1, salt(2)),
        Err(InheritanceError::WillHashAlreadyStored)
    );
    contract.link_will_to_vault(&env, OWNER, 1, salt(1)).unwrap();
    assert_eq!(contract.get_vault_will(1), Some(salt(1)));
    assert_eq!(
        contract.link_will_to_vault(&env, OWNER, 1, salt(1)),
        Err(InheritanceError::WillAlreadyLinked)
    );
    assert_eq!(
        contract.link_will_to_vault(&env, OWNER, 9, salt(1)),
        Err(InheritanceError::VaultNotFound)
    );
}

#[test]
fn a_will_is_compared_with_the_plan() {
    let mut contract = planned();
    let named = |name: &str, allocation_bp: u32| WillBeneficiary {
        hashed_email: InheritanceContract::hash_string(text(&format!("{}@example.com", name))),
        allocation_bp,
    };
    assert_eq!(
        contract.verify_beneficiaries(1, vec![named("bob", 4_000), named("alice", 6_000)]),
        Ok(true)
    );
    assert_eq!(
        contract.verify_beneficiaries(1, vec![named("bob", 4_001), named("alice", 6_000)]),
        Ok(false)
    );
    assert_eq!(contract.get_verification_status(1), Some(false));
    assert_eq!(contract.verify_beneficiaries(1, vec![named("alice", 6_000)]), Ok(false));
}

#[test]
fn a_will_cannot_name_one_heir_for_another() {
    let mut contract = deployed();
    let heirs = list(vec![input("alice", 123_456, 5_000, 1), input("bob", 654_321, 5_000, 2)]);
    contract
        .create_inheritance_plan(
            &at(START),
            params(1_000_000, DistributionMethod::LumpSum, heirs),
            1_000_000,
            true,
            vec![salt(1), salt(2)],
        )
        .unwrap();
    let named = |name: &str| WillBeneficiary {
        hashed_email: InheritanceContract::hash_string(text(&format!("{}@example.com", name))),
        allocation_bp: 5_000,
    };
    assert_eq!(contract.verify_beneficiaries(1, vec![named("bob"), named("alice")]), Ok(true));
    assert_eq!(contract.verify_beneficiaries(1, vec![named("alice"), named("alice")]), Ok(false));
}

// --- Messages ---

fn message(unlock_timestamp: u64) -> CreateLegacyMessageParams {
    CreateLegacyMessageParams {
        vault_id: 1,
        message_hash: salt(6),
        unlock_timestamp,
        key_reference: text("kms://1"),
    }
}

#[test]
fn messages_stay_locked_until_their_time() {
    let mut contract = planned();
    let env = at(START);
    assert_eq!(
        contract.create_legacy_message(&env, OWNER, message(START)),
        Err(InheritanceError::InvalidClaimCode)
    );
    let id = contract.create_legacy_message(&env, OWNER, message(START + DAY)).unwrap();
    assert_eq!(contract.get_vault_messages(1), vec![id]);
    assert!(matches!(
        contract.access_legacy_message(&env, text("alice@example.com"), id),
        Err(InheritanceError::ClaimNotAllowedYet)
    ));
    let later = at(START + DAY);
    assert!(matches!(
        contract.access_legacy_message(&later, text("eve@example.com"), id),
        Err(InheritanceError::Unauthorized)
    ));
    let read = contract.access_legacy_message(&later, text("alice@example.com"), id).unwrap();
    assert_eq!(read.message_hash, salt(6));
}

#[test]
fn finalized_messages_stay() {
    let mut contract = planned();
    let env = at(START);
    let id = contract.create_legacy_message(&env, OWNER, message(START + DAY)).unwrap();
    contract.update_legacy_message(&env, OWNER, id, message(START + 2 * DAY)).unwrap();
    contract.finalize_legacy_message(&env, OWNER, id).unwrap();
    assert_eq!(
        contract.update_legacy_message(&env, OWNER, id, message(START + DAY)),
        Err(InheritanceError::WillAlreadyFinalized)
    );
    assert_eq!(
        contract.delete_legacy_message(&env, OWNER, id),
        Err(InheritanceError::WillAlreadyFinalized)
    );
    assert_eq!(contract.get_legacy_message(id).unwrap().unlock_timestamp, START + 2 * DAY);
}

#[test]
fn deleted_messages_are_gone() {
    let mut contract = planned();
    let env = at(START);
    let id = contract.create_legacy_message(&env, OWNER, message(START + DAY)).unwrap();
    contract.delete_legacy_message(&env, OWNER, id).unwrap();
    assert!(contract.get_legacy_message(id).is_none());
    assert_eq!(contract.get_vault_messages(1), Vec::<u64>::new());
}

#[test]
fn a_trigger_unlocks_the_messages() {
    let mut contract = planned();
    let env = at(START);
    let id = contract.create_legacy_message(&env, OWNER, message(START + DAY)).unwrap();
    assert_eq!(
        contract.unlock_messages_on_inheritance(&env, 1),
        Err(InheritanceError::InheritanceNotTriggered)
    );
    contract.trigger_inheritance(&env, OWNER, 1).unwrap();
    contract.unlock_messages_on_inheritance(&env, 1).unwrap();
    assert!(contract.get_legacy_message(id).unwrap().is_unlocked);
    assert_eq!(last_event(&contract).topics(), ("message_unlocked", ""));
}

#[test]
fn message_keys_are_rotated() {
    let mut contract = planned();
    let env = at(START);
    assert_eq!(
        contract.rotate_vault_message_key(&env, OWNER, 1, Vec::new()),
        Err(InheritanceError::MissingRequiredField)
    );
    assert_eq!(contract.rotate_vault_message_key(&env, OWNER, 1, text("kms://2")), Ok(1));
    assert_eq!(contract.rotate_vault_message_key(&env, OWNER, 1, text("kms://3")), Ok(2));
    assert_eq!(contract.get_vault_message_key(1), Some(text("kms://3")));
    assert_eq!(contract.get_vault_message_key_version(1), 2);
    let unkeyed = CreateLegacyMessageParams { key_reference: Vec::new(), ..message(START + 1) };
    let id = contract.create_legacy_message(&env, OWNER, unkeyed).unwrap();
    assert_eq!(contract.get_legacy_message(id).unwrap().key_reference, text("kms://3"));
}

#[test]
fn batches_of_messages_count_failures() {
    let mut contract = planned();
    let env = at(START);
    let batch = list(vec![message(START + 1), message(START), message(START + 2)]);
    assert_eq!(contract.batch_create_messages(&env, OWNER, batch), Ok((vec![0, 1], 1)));
}

#[test]
fn the_last_message_ids_are_given_out() {
    let mut contract = planned();
    let env = at(START);
    contract.messages.next_id = u64::MAX - 2;
    let overlong = list((0..11).map(|_| message(START + 1)).collect());
    assert_eq!(
        contract.batch_create_messages(&env, OWNER, overlong),
        Err(InheritanceError::TooManyBeneficiaries)
    );
    let batch = list(vec![message(START + 1), message(START), message(START + 2)]);
    assert_eq!(
        contract.batch_create_messages(&env, OWNER, batch),
        Ok((vec![u64::MAX - 2, u64::MAX - 1], 1))
    );
    let refused = list(vec![message(START)]);
    assert_eq!(contract.batch_create_messages(&env, OWNER, refused), Ok((vec![], 1)));
}

#[test]
fn a_batch_uses_the_current_key_of_the_vault() {
    let mut contract = planned();
    let env = at(START);
    let unkeyed = || CreateLegacyMessageParams { key_reference: Vec::new(), ..message(START + 1) };
    assert_eq!(
        contract.batch_create_messages(&env, OWNER, list(vec![unkeyed()])),
        Ok((vec![0], 0))
    );
    assert_eq!(contract.get_legacy_message(0).unwrap().key_reference, Vec::<u8>::new());
    contract.rotate_vault_message_key(&env, OWNER, 1, text("kms://2")).unwrap();
    let batch = list(vec![message(START + 1), unkeyed()]);
    assert_eq!(contract.batch_create_messages(&env, OWNER, batch), Ok((vec![1, 2], 0)));
    assert_eq!(contract.get_legacy_message(1).unwrap().key_reference, text("kms://1"));
    assert_eq!(contract.get_legacy_message(2).unwrap().key_reference, text("kms://2"));
}

// --- Disputes ---

#[test]
fn disputes_freeze_and_close() {
    let mut contract = planned();
    let env = at(START);
    contract.add_arbitrator(&env, ADMIN, STRANGER).unwrap();
    assert_eq!(contract.get_arbitrators(), vec![STRANGER]);
    let id = contract.file_dispute(&env, ALICE, 1, text("forged")).unwrap();
    assert_eq!(contract.get_plan_disputes(1), vec![id]);
    assert_eq!(
        contract.review_dispute(&env, BOB, id, DisputeStatus::Resolved, text(""), true),
        Err(InheritanceError::Unauthorized)
    );
    contract
        .review_dispute(&env, STRANGER, id, DisputeStatus::Resolved, text("checked"), true)
        .unwrap();
    assert_eq!(contract.get_dispute(id).unwrap().status, DisputeStatus::Resolved);
    assert_eq!(
        contract.review_dispute(&env, STRANGER, id, DisputeStatus::Rejected, text(""), false),
        Err(InheritanceError::AlreadyApproved)
    );
    assert_eq!(claim_alice(&mut contract, START), Err(InheritanceError::PlanNotActive));
    contract.unfreeze_plan(&env, ADMIN, 1).unwrap();
    claim_alice(&mut contract, START).unwrap();
}

#[test]
fn removed_arbitrators_are_refused() {
    let mut contract = planned();
    let env = at(START);
    contract.add_arbitrator(&env, ADMIN, STRANGER).unwrap();
    let id = contract.file_dispute(&env, ALICE, 1, text("forged")).unwrap();
    contract.remove_arbitrator(&env, ADMIN, STRANGER).unwrap();
    assert_eq!(
        contract.review_dispute(&env, STRANGER, id, DisputeStatus::Resolved, text(""), true),
        Err(InheritanceError::Unauthorized)
    );
}

// --- Notices ---

#[test]
fn acknowledgments_follow_notices() {
    let mut contract = planned();
    let env = at(START);
    assert_eq!(
        contract.acknowledge_beneficiary_status(&env, ALICE, 1, 0),
        Err(InheritanceError::ClaimNotAllowedYet)
    );
    assert_eq!(
        contract.notify_beneficiary(&env, STRANGER, 1, 0),
        Err(InheritanceError::Unauthorized)
    );
    assert_eq!(
        contract.notify_beneficiary(&env, OWNER, 1, 2),
        Err(InheritanceError::InvalidBeneficiaryIndex)
    );
    contract.require_acknowledgment(&env, OWNER, 1, true).unwrap();
    contract.notify_beneficiary(&env, OWNER, 1, 0).unwrap();
    assert_eq!(
        contract.notify_beneficiary(&env, OWNER, 1, 0),
        Err(InheritanceError::AlreadyApproved)
    );
    assert_eq!(claim_alice(&mut contract, START), Err(InheritanceError::ClaimNotAllowedYet));
    assert_eq!(contract.get_unacknowledged_beneficiaries(1), Ok(vec![0]));
    contract.acknowledge_beneficiary_status(&at(START + 5), ALICE, 1, 0).unwrap();
    let found = contract.get_beneficiary_acknowledgment(1, 0).unwrap();
    assert_eq!((found.notification_sent_at, found.acknowledged_at), (START, START + 5));
    assert_eq!(contract.get_unacknowledged_beneficiaries(1), Ok(Vec::new()));
    claim_alice(&mut contract, START + 5).unwrap();
    assert_eq!(claim_bob(&mut contract, START + 5), Err(InheritanceError::ClaimNotAllowedYet));
    let bob =
        ClaimEntry { claimer: BOB, email: text("bob@example.com"), claim_code: 654_321 };
    assert_eq!(contract.batch_claim(&at(START + 5), 1, list(vec![bob])), Ok((0, 1)));
}

// --- Yield ---

fn answered(pending: u64, claimed: u64) -> PoolReply {
    PoolReply { pending: Some(pending), claimed: Some(claimed) }
}

/// A plan that is registered with the lending pool.
fn earning() -> InheritanceContract {
    let mut contract = planned();
    contract.set_lending_contract(&at(START), ADMIN, POOL, 1).unwrap();
    contract
        .update_plan(&at(START), OWNER, 1, two_heirs(), 7 * DAY, true, vec![salt(1), salt(2)])
        .unwrap();
    contract.register_yield_position(&at(START), OWNER, 1, TOKEN, true).unwrap();
    contract
}

#[test]
fn positions_are_registered_with_the_pool() {
    let contract = earning();
    assert_eq!(
        *contract.calls.items.last().unwrap(),
        InheritanceCall::RegisterPlanYield {
            pool: POOL,
            caller: CONTRACT,
            plan_id: 1,
            asset: TOKEN,
            principal: 980_000
        }
    );
    assert_eq!(contract.get_yield_asset(1), Some(TOKEN));
    assert_eq!(contract.get_last_yield_harvest(1), 0);
}

#[test]
fn a_harvest_is_compounded() {
    let mut contract = earning();
    contract.set_yield_config(&at(START), OWNER, 1, true, 100, DAY, 1_000).unwrap();
    let env = at(START + DAY);
    assert_eq!(
        contract.harvest_yield(&at(START + DAY - 1), OWNER, 1, answered(500, 500)),
        Err(InheritanceError::EmergencyCooldownActive)
    );
    assert_eq!(
        contract.harvest_yield(&env, OWNER, 1, answered(99, 99)),
        Err(InheritanceError::NothingToClaim)
    );
    assert_eq!(
        contract.harvest_yield(&env, OWNER, 1, PoolReply { pending: None, claimed: None }),
        Err(InheritanceError::FeeTransferFailed)
    );
    assert_eq!(
        contract.harvest_yield(&env, STRANGER, 1, answered(500, 500)),
        Err(InheritanceError::Unauthorized)
    );
    assert_eq!(contract.preview_harvest_split(1, 505), Ok((455, 50)));
    contract.harvest_yield(&env, OWNER, 1, answered(505, 505)).unwrap();
    assert_eq!(plan(&contract).total_amount, 980_455);
    assert_eq!(contract.get_total_yield_harvested(1), 455);
    assert_eq!(contract.get_yield_summary(1).unwrap().total_harvested, 505);
    assert_eq!(contract.get_total_yield_fees(1), 50);
    assert_eq!(contract.get_last_yield_harvest(1), START + DAY);
    assert_eq!(contract.get_next_harvest_at(1), START + 2 * DAY);
    assert_eq!(contract.get_yield_harvest_count(1), 1);
    assert_eq!(contract.get_yield_history(1).items.len(), 1);
}

#[test]
fn credit_is_never_lost() {
    let mut contract = earning();
    let env = at(START);
    contract.set_yield_config(&env, OWNER, 1, false, 0, 0, 0).unwrap();
    contract.harvest_yield(&env, OWNER, 1, answered(300, 300)).unwrap();
    assert_eq!(plan(&contract).total_amount, 980_000);
    assert_eq!(contract.get_pending_credit(1), 300);
    assert_eq!(contract.get_total_plan_value(1), Ok(980_300));
    assert_eq!(contract.get_total_yield_harvested(1), 0);
    assert_eq!(contract.compound_pending_yield(&env, OWNER, 1), Ok(300));
    assert_eq!(contract.get_total_yield_harvested(1), 300);
    assert_eq!(plan(&contract).total_amount, 980_300);
    assert_eq!(contract.get_pending_credit(1), 0);
    assert_eq!(
        contract.compound_pending_yield(&env, OWNER, 1),
        Err(InheritanceError::NothingToClaim)
    );
    contract.harvest_yield(&env, OWNER, 1, answered(200, 200)).unwrap();
    contract.unregister_yield_position(&env, OWNER, 1, true).unwrap();
    assert_eq!(plan(&contract).total_amount, 980_500);
}

#[test]
fn relayers_only_harvest() {
    let mut contract = earning();
    let env = at(START);
    contract.add_yield_relayer(&env, ADMIN, RELAYER).unwrap();
    assert!(contract.is_yield_relayer(RELAYER));
    contract.harvest_yield(&env, RELAYER, 1, answered(100, 100)).unwrap();
    assert_eq!(
        contract.set_yield_config(&env, RELAYER, 1, true, 0, 0, 0),
        Err(InheritanceError::Unauthorized)
    );
    contract.remove_yield_relayer(&env, ADMIN, RELAYER).unwrap();
    assert_eq!(
        contract.harvest_yield(&env, RELAYER, 1, answered(100, 100)),
        Err(InheritanceError::Unauthorized)
    );
}

#[test]
fn paused_yield_is_not_harvested() {
    let mut contract = earning();
    let env = at(START);
    contract.pause_plan_yield(&env, OWNER, 1).unwrap();
    assert!(contract.is_plan_yield_paused(1));
    assert_eq!(
        contract.harvest_yield(&env, OWNER, 1, answered(100, 100)),
        Err(InheritanceError::PlanNotActive)
    );
    contract.resume_plan_yield(&env, OWNER, 1).unwrap();
    contract.harvest_yield(&env, OWNER, 1, answered(100, 100)).unwrap();
}

#[test]
fn batches_of_harvests_count_failures() {
    let mut contract = earning();
    assert_eq!(
        contract.harvest_yield_batch(
            &at(START),
            OWNER,
            vec![1, 9, 1],
            vec![answered(100, 100), answered(1, 1), answered(50, 50)]
        ),
        Ok((2, 1, 150))
    );
    assert_eq!(plan(&contract).total_amount, 980_150);
    assert_eq!(last_event(&contract).topics().0, "YIELD");
}

#[test]
fn registering_again_keeps_the_history() {
    let mut contract = earning();
    contract.harvest_yield(&at(START), OWNER, 1, answered(100, 100)).unwrap();
    contract.register_yield_position(&at(START + DAY), OWNER, 1, TOKEN, true).unwrap();
    let state = contract.get_yield_state_of(1).unwrap();
    assert_eq!((state.total_harvested, state.harvest_count), (100, 1));
    assert_eq!(state.registered_principal, 980_100);
    assert_eq!(contract.get_yield_summary(1).unwrap().registered_principal, 980_100);
    assert_eq!(contract.get_last_yield_harvest(1), START);
    assert_eq!(contract.days_since_last_harvest(&at(START + 3 * DAY), 1), Ok(3));
}

#[test]
fn the_realized_rate_covers_the_open_span() {
    let year = 365 * DAY;
    let mut contract = earning();
    assert_eq!(
        contract.realized_yield_rate_bps(&at(START), 9),
        Err(InheritanceError::PlanNotFound)
    );
    assert_eq!(contract.realized_yield_rate_bps(&at(START + year), 1), Ok(0));
    contract.harvest_yield(&at(START + year), OWNER, 1, answered(9_800, 9_800)).unwrap();
    assert_eq!(contract.realized_yield_rate_bps(&at(START + year), 1), Ok(100));
    assert_eq!(contract.realized_yield_rate_bps(&at(START + 2 * year), 1), Ok(50));
    for n in 0..40 {
        contract.harvest_yield(&at(START + year + n), OWNER, 1, answered(245, 245)).unwrap();
    }
    assert_eq!(contract.realized_yield_rate_bps(&at(START + 2 * year), 1), Ok(100));
}

#[test]
fn rates_are_projected() {
    let contract = earning();
    assert_eq!(InheritanceContract::compute_compound_amount(10_000, 100, 12), Ok(11_268));
    assert_eq!(InheritanceContract::compute_compound_interest(10_000, 100, 12), Ok(1_268));
    assert_eq!(InheritanceContract::effective_apy(1_000), Ok(1_051));
    assert_eq!(InheritanceContract::compute_periods_elapsed(3 * DAY + 5), Ok(3));
    assert_eq!(InheritanceContract::compute_blended_rate(1_000, 500, 3_000, 900), Ok(800));
    assert_eq!(InheritanceContract::compute_blended_rate(0, 500, 0, 900), Ok(0));
    assert_eq!(contract.estimate_next_harvest_amount(1, 1_000, 31_536_000), Ok(98_000));
    assert_eq!(contract.compute_plan_pool_share_bps(1, 9_800_000), Ok(1_000));
    assert_eq!(
        InheritanceContract::compute_compound_amount(10_000, 10_001, 1),
        Err(InheritanceError::InvalidAllocation)
    );
    assert_eq!(
        InheritanceContract::compute_compound_amount(u64::MAX, 100, 1),
        Err(InheritanceError::InvalidTotalAmount)
    );
}

#[test]
fn yield_arithmetic_is_checked() {
    assert_eq!(yield_math::project_daily_compound(1_000_000, 500, 365), Ok(1_051_267));
    assert_eq!(yield_math::project_daily_interest(1_000_000, 500, 365), Ok(51_267));
    assert_eq!(yield_math::safe_add(1, 2), Ok(3));
    assert_eq!(
        yield_math::safe_add(u64::MAX, 1),
        Err(InheritanceError::InvalidTotalAmount)
    );
    assert_eq!(
        yield_math::safe_mul(u64::MAX, 2),
        Err(InheritanceError::InvalidTotalAmount)
    );
    assert_eq!(yield_math::mul_div(7, 3, 2), Ok(10));
    assert_eq!(yield_math::split_performance_fee(505, 1_000), Ok((455, 50)));
    assert_eq!(
        yield_math::validate_performance_fee(5_001),
        Err(InheritanceError::InvalidAllocation)
    );
    assert_eq!(yield_math::simple_interest(1_000_000, 500, 31_536_000), Ok(50_000));
    assert_eq!(yield_math::daily_rate_bps(3_650), Ok(10));
    assert_eq!(yield_math::next_harvest_at(u64::MAX, 1), u64::MAX);
    assert!(yield_math::is_harvest_due(100, 50, 50, 1, 1));
    assert!(!yield_math::is_harvest_due(99, 50, 50, 1, 1));
    assert!(!yield_math::is_harvest_due(100, 50, 50, 0, 0));
}
