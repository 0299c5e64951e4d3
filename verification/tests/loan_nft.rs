use inheritx::host::{Address, Env};
use inheritx::nft::{LoanMetadata, LoanNFT, NftEvent, NftRefusal};

fn address(id: u64) -> Address {
    Address { id }
}

/// An invocation that everybody has authorised.
fn everybody() -> Env {
    Env::new(0, address(0), (0..20).map(address).collect())
}

fn metadata(loan_id: u64, borrower: Address, principal: u64, collateral_amount: u64, uri: &str) -> LoanMetadata {
    LoanMetadata {
        loan_id,
        borrower,
        principal,
        collateral_amount,
        collateral_token: address(19),
        due_date: 0,
        ltv_ratio_bps: 2000,
        plan_id: 0,
        uri: uri.as_bytes().to_vec(),
    }
}

fn initialized() -> LoanNFT {
    let mut nft = LoanNFT::new();
    nft.initialize(address(1));
    nft
}

/// The call that is refused aborts with the message of the refusal.
fn abort_on(refusal: Option<NftRefusal>) {
    if let Some(refusal) = refusal {
        panic!("{}", refusal.message());
    }
}

#[test]
fn test_mint_and_burn() {
    let env = everybody();
    let user = address(2);
    let mut nft = initialized();
    nft.mint(&env, user, metadata(1, user, 1000, 500, "https://example.com/nft/1"));

    assert_eq!(nft.owner_of(1), Some(user));
    assert_eq!(nft.balance_of(user), 1);
    assert_eq!(nft.total_supply(), 1);

    nft.burn(&env, 1);

    assert_eq!(nft.owner_of(1), None);
    assert_eq!(nft.balance_of(user), 0);
    assert_eq!(nft.total_supply(), 0);
}

#[test]
fn test_transfer() {
    let env = everybody();
    let (user1, user2) = (address(2), address(3));
    let mut nft = initialized();
    nft.mint(&env, user1, metadata(2, user1, 1000, 500, "https://example.com/nft/2"));
    nft.set_transferable(&env, 2, true);
    nft.transfer(&env, user1, user2, 2);

    assert_eq!(nft.owner_of(2), Some(user2));
    assert_eq!(nft.balance_of(user1), 0);
    assert_eq!(nft.balance_of(user2), 1);
}

#[test]
fn test_approve_and_transfer_from() {
    let env = everybody();
    let (user1, user2, operator) = (address(2), address(3), address(4));
    let mut nft = initialized();
    nft.mint(&env, user1, metadata(3, user1, 1000, 500, "https://example.com/nft/3"));

    nft.set_transferable(&env, 3, true);
    nft.approve(&env, user1, operator, 3);
    assert_eq!(nft.get_approved(&env, 3), Some(operator));

    nft.transfer_from(&env, operator, user1, user2, 3);

    assert_eq!(nft.owner_of(3), Some(user2));
    assert_eq!(nft.get_approved(&env, 3), None);
}

#[test]
fn test_approval_for_all() {
    let env = everybody();
    let (user1, user2, operator) = (address(2), address(3), address(4));
    let mut nft = initialized();
    nft.mint(&env, user1, metadata(4, user1, 100, 50, "https://example.com/nft/4"));

    nft.set_transferable(&env, 4, true);
    nft.set_approval_for_all(&env, user1, operator, true);
    assert!(nft.is_approved_for_all(user1, operator));

    nft.transfer_from(&env, operator, user1, user2, 4);
    assert_eq!(nft.owner_of(4), Some(user2));
}

#[test]
fn test_operator_can_approve_on_behalf_of_owner() {
    let env = everybody();
    let (owner, approved, operator) = (address(2), address(3), address(4));
    let mut nft = initialized();
    nft.mint(&env, owner, metadata(44, owner, 100, 50, "https://example.com/nft/44"));

    nft.set_approval_for_all(&env, owner, operator, true);
    nft.approve(&env, operator, approved, 44);

    assert_eq!(nft.get_approved(&env, 44), Some(approved));
}

#[test]
#[should_panic(expected = "Cannot self-approve")]
fn test_set_approval_for_all_rejects_self_approval() {
    let env = everybody();
    let owner = address(2);
    let nft = initialized();
    abort_on(nft.approval_for_all_refusal(&env, owner, owner));
}

#[test]
#[should_panic(expected = "Cannot approve current owner")]
fn test_approve_rejects_current_owner() {
    let env = everybody();
    let owner = address(2);
    let mut nft = initialized();
    nft.mint(&env, owner, metadata(45, owner, 100, 50, "https://example.com/nft/45"));

    abort_on(nft.approve_refusal(&env, owner, owner, 45));
}

#[test]
fn test_transfer_events_use_standard_names() {
    let env = everybody();
    let (owner, operator, recipient) = (address(2), address(3), address(4));
    let mut nft = initialized();
    nft.mint(&env, owner, metadata(46, owner, 100, 50, "https://example.com/nft/46"));
    nft.set_transferable(&env, 46, true);
    nft.approve(&env, owner, operator, 46);
    nft.set_approval_for_all(&env, owner, operator, true);
    nft.transfer_from(&env, operator, owner, recipient, 46);

    let events = &nft.events;
    let n = events.len();
    assert_eq!(events[n - 3].name(), "Approval");
    assert_eq!(events[n - 3], NftEvent::Approval { owner, operator, loan_id: 46 });
    assert_eq!(events[n - 2].name(), "ApprovalForAll");
    assert_eq!(events[n - 2], NftEvent::ApprovalForAll { owner, operator, approved: true });
    assert_eq!(events[n - 1].name(), "Transfer");
    assert_eq!(
        events[n - 1],
        NftEvent::Transfer { from: Some(owner), to: Some(recipient), loan_id: 46 }
    );
}

#[test]
#[should_panic(expected = "NFT transfer is restricted for an active loan")]
fn test_transfer_restriction() {
    let env = everybody();
    let (user1, user2) = (address(2), address(3));
    let mut nft = initialized();
    nft.mint(&env, user1, metadata(5, user1, 100, 50, "https://example.com/nft/5"));

    nft.set_transferable(&env, 5, false);
    abort_on(nft.transfer_refusal(&env, user1, 5));
    nft.transfer(&env, user1, user2, 5);
}

#[test]
fn test_token_uri() {
    let env = everybody();
    let user1 = address(2);
    let mut nft = initialized();
    nft.mint(&env, user1, metadata(6, user1, 100, 50, "https://example.com/nft/6"));

    let uri = "https://example.com/nft/6".as_bytes().to_vec();
    nft.set_token_uri(&env, 6, uri.clone());

    assert_eq!(nft.token_uri(6), uri);
}

#[test]
fn test_get_token_uri_returns_on_chain_metadata_uri() {
    let env = everybody();
    let user = address(2);
    let mut nft = initialized();

    let uri_json = "{\"name\":\"InheritX Loan NFT #7\",\"loan_id\":7,\"principal\":1000,\"collateral_amount\":500,\"ltv_ratio_bps\":2000,\"plan_id\":42,\"due_date\":0}";
    let mut record = metadata(7, user, 1000, 500, uri_json);
    record.plan_id = 42;
    nft.mint(&env, user, record.clone());

    assert_eq!(nft.get_token_uri(7), uri_json.as_bytes().to_vec());
    assert_eq!(nft.get_metadata(7), Some(record));
}

#[test]
fn test_get_token_uri_unknown_token_returns_empty() {
    let nft = initialized();
    assert_eq!(nft.get_token_uri(999), Vec::<u8>::new());
}

#[test]
fn refusals_name_what_is_wrong() {
    let env = everybody();
    let nobody = Env::new(0, address(0), vec![]);
    let (owner, other) = (address(2), address(3));
    let fresh = LoanNFT::new();
    assert_eq!(fresh.initialize_refusal(), None);
    assert_eq!(fresh.mint_refusal(&env, 1), Some(NftRefusal::NotInitialized));

    let mut nft = initialized();
    assert_eq!(nft.initialize_refusal(), Some(NftRefusal::AlreadyInitialized));
    assert_eq!(nft.mint_refusal(&nobody, 1), Some(NftRefusal::Unauthorized));
    assert_eq!(nft.burn_refusal(&env, 1), Some(NftRefusal::UnknownToken));
    nft.mint(&env, owner, metadata(1, owner, 100, 50, "u"));
    assert_eq!(nft.mint_refusal(&env, 1), Some(NftRefusal::AlreadyMinted));
    // A fresh token is locked.
    assert_eq!(nft.transfer_refusal(&env, owner, 1), Some(NftRefusal::TransferRestricted));
    nft.set_transferable(&env, 1, true);
    assert_eq!(nft.transfer_refusal(&env, other, 1), Some(NftRefusal::NotOwner));
    assert_eq!(
        nft.transfer_from_refusal(&env, other, owner, 1),
        Some(NftRefusal::NotApproved)
    );
    assert_eq!(
        nft.approve_refusal(&env, other, address(5), 1),
        Some(NftRefusal::NotAuthorizedToApprove)
    );
    nft.enter_reentrancy_guard();
    assert_eq!(nft.mint_refusal(&env, 2), Some(NftRefusal::ReentrantCall));
    nft.exit_reentrancy_guard();
    assert_eq!(nft.mint_refusal(&env, 2), None);
}

#[test]
fn transfers_clear_approvals_and_keep_the_supply() {
    let env = everybody();
    let (owner, other, operator) = (address(2), address(3), address(4));
    let mut nft = initialized();
    nft.mint(&env, owner, metadata(1, owner, 100, 50, "u"));
    nft.mint(&env, owner, metadata(2, owner, 100, 50, "u"));
    nft.set_transferable(&env, 1, true);
    nft.approve(&env, owner, operator, 1);
    nft.transfer(&env, owner, other, 1);
    assert_eq!(nft.get_approved(&env, 1), None);
    assert_eq!(nft.total_supply(), 2);
    assert_eq!(nft.balance_of(owner) + nft.balance_of(other), 2);
    assert!(nft.is_metadata_locked(1));
}
