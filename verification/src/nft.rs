//! The loan position NFT: one token per loan, locked while the loan is active.
use vstd::prelude::*;

use crate::host::{Address, Env};
use crate::table::Table;

verus! {

/// How long a token approval lasts: seven days.
pub const DEFAULT_APPROVAL_EXPIRATION_SECONDS: u64 = 604_800;

/// What a loan token records of its loan.
#[derive(Clone, Debug, PartialEq, Eq)]
pub struct LoanMetadata {
    pub loan_id: u64,
    pub borrower: Address,
    pub principal: u64,
    pub collateral_amount: u64,
    pub collateral_token: Address,
    pub due_date: u64,
    /// LTV ratio in basis points (e.g. 5000 = 50% loan-to-value).
    pub ltv_ratio_bps: u32,
    /// Inheritance plan the loan NFT is bound to (0 = no plan).
    pub plan_id: u64,
    /// On-chain URI JSON bound to the token, returned by `get_token_uri`.
    pub uri: Vec<u8>,
}

/// The model of [`LoanMetadata`].
#[verifier::ext_equal]
pub struct LoanMetadataView {
    pub loan_id: u64,
    pub borrower: Address,
    pub principal: u64,
    pub collateral_amount: u64,
    pub collateral_token: Address,
    pub due_date: u64,
    pub ltv_ratio_bps: u32,
    pub plan_id: u64,
    pub uri: Seq<u8>,
}

impl View for LoanMetadata {
    type V = LoanMetadataView;

    open spec fn view(&self) -> LoanMetadataView {
        LoanMetadataView {
            loan_id: self.loan_id,
            borrower: self.borrower,
            principal: self.principal,
            collateral_amount: self.collateral_amount,
            collateral_token: self.collateral_token,
            due_date: self.due_date,
            ltv_ratio_bps: self.ltv_ratio_bps,
            plan_id: self.plan_id,
            uri: self.uri@,
        }
    }
}

impl LoanMetadata {
    /// A copy of the record.
    pub fn copied(&self) -> (copy: LoanMetadata)
        ensures
            copy@ == self@,
    {
        LoanMetadata {
            loan_id: self.loan_id,
            borrower: self.borrower,
            principal: self.principal,
            collateral_amount: self.collateral_amount,
            collateral_token: self.collateral_token,
            due_date: self.due_date,
            ltv_ratio_bps: self.ltv_ratio_bps,
            plan_id: self.plan_id,
            uri: self.uri.clone(),
        }
    }
}

/// Leave for one operator to move one token, until it expires.
#[derive(Clone, Copy, Debug, PartialEq, Eq, Structural)]
pub struct ApprovalRecord {
    pub operator: Address,
    pub expires_at: u64,
}

impl View for ApprovalRecord {
    type V = ApprovalRecord;

    open spec fn view(&self) -> ApprovalRecord {
        *self
    }
}

/// The standard events of the token. A mint has no `from`, a burn no `to`.
#[derive(Clone, Copy, Debug, PartialEq, Eq, Structural)]
pub enum NftEvent {
    Transfer { from: Option<Address>, to: Option<Address>, loan_id: u64 },
    Approval { owner: Address, operator: Address, loan_id: u64 },
    ApprovalForAll { owner: Address, operator: Address, approved: bool },
}

impl NftEvent {
    /// The name under which the event is published.
    pub open spec fn spec_name(self) -> Seq<char> {
        match self {
            NftEvent::Transfer { .. } => "Transfer"@,
            NftEvent::Approval { .. } => "Approval"@,
            NftEvent::ApprovalForAll { .. } => "ApprovalForAll"@,
        }
    }

    /// The name under which the event is published.
    pub fn name(&self) -> (name: &'static str)
        ensures
            name@ == self.spec_name(),
    {
        match self {
            NftEvent::Transfer { .. } => "Transfer",
            NftEvent::Approval { .. } => "Approval",
            NftEvent::ApprovalForAll { .. } => "ApprovalForAll",
        }
    }
}

/// Why a call on the token contract is refused.
#[derive(Clone, Copy, Debug, PartialEq, Eq, Structural)]
pub enum NftRefusal {
    AlreadyInitialized,
    NotInitialized,
    Unauthorized,
    ReentrantCall,
    AlreadyMinted,
    UnknownToken,
    UnknownTokenForLoan,
    NotOwner,
    NotApproved,
    ApproveOwner,
    NotAuthorizedToApprove,
    SelfApproval,
    TransferRestricted,
}

impl NftRefusal {
    /// The message with which the call is aborted.
    pub open spec fn spec_message(self) -> Seq<char> {
        match self {
            NftRefusal::AlreadyInitialized => "Already initialized"@,
            NftRefusal::NotInitialized => "Not initialized"@,
            NftRefusal::Unauthorized => "Unauthorized"@,
            NftRefusal::ReentrantCall => "Reentrant call"@,
            NftRefusal::AlreadyMinted => "NFT already exists for this loan"@,
            NftRefusal::UnknownToken => "NFT does not exist"@,
            NftRefusal::UnknownTokenForLoan => "NFT does not exist for this loan"@,
            NftRefusal::NotOwner => "Not owner"@,
            NftRefusal::NotApproved => "Not approved"@,
            NftRefusal::ApproveOwner => "Cannot approve current owner"@,
            NftRefusal::NotAuthorizedToApprove => "Not authorized to approve"@,
            NftRefusal::SelfApproval => "Cannot self-approve"@,
            NftRefusal::TransferRestricted => "NFT transfer is restricted for an active loan"@,
        }
    }

    /// The message with which the call is aborted.
    pub fn message(&self) -> (message: &'static str)
        ensures
            message@ == self.spec_message(),
    {
        match self {
            NftRefusal::AlreadyInitialized => "Already initialized",
            NftRefusal::NotInitialized => "Not initialized",
            NftRefusal::Unauthorized => "Unauthorized",
            NftRefusal::ReentrantCall => "Reentrant call",
            NftRefusal::AlreadyMinted => "NFT already exists for this loan",
            NftRefusal::UnknownToken => "NFT does not exist",
            NftRefusal::UnknownTokenForLoan => "NFT does not exist for this loan",
            NftRefusal::NotOwner => "Not owner",
            NftRefusal::NotApproved => "Not approved",
            NftRefusal::ApproveOwner => "Cannot approve current owner",
            NftRefusal::NotAuthorizedToApprove => "Not authorized to approve",
            NftRefusal::SelfApproval => "Cannot self-approve",
            NftRefusal::TransferRestricted => "NFT transfer is restricted for an active loan",
        }
    }
}

/// The token contract and everything it stores.
pub struct LoanNFT {
    /// Who may mint, burn and lock tokens; set once.
    pub admin: Option<Address>,
    /// Loan id to the record of the loan.
    pub metadata: Table<u64, LoanMetadata>,
    /// Loan id to the token's owner.
    pub owners: Table<u64, Address>,
    /// Loan id to the approval of the token.
    pub approved: Table<u64, ApprovalRecord>,
    /// Owner and operator to whether the operator may move all of the owner's tokens.
    pub operators: Table<(Address, Address), bool>,
    /// Owner to the number of tokens owned.
    pub balances: Table<Address, u64>,
    /// Number of tokens in existence.
    pub supply: u64,
    /// Loan id to the URI that the admin set.
    pub token_uris: Table<u64, Vec<u8>>,
    /// Whether a guarded call is under way.
    pub guarded: bool,
    /// Loan id to whether the token may move.
    pub transferable: Table<u64, bool>,
    /// Loan id to whether the record of the loan is final.
    pub metadata_locked: Table<u64, bool>,
    /// Events published so far.
    pub events: Vec<NftEvent>,
}

/// The model of [`LoanNFT`].
#[verifier::ext_equal]
pub struct LoanNftView {
    pub admin: Option<Address>,
    pub metadata: Map<u64, LoanMetadataView>,
    pub owners: Map<u64, Address>,
    pub approved: Map<u64, ApprovalRecord>,
    pub operators: Map<(Address, Address), bool>,
    pub balances: Map<Address, u64>,
    pub supply: u64,
    pub token_uris: Map<u64, Seq<u8>>,
    pub guarded: bool,
    pub transferable: Map<u64, bool>,
    pub metadata_locked: Map<u64, bool>,
    pub events: Seq<NftEvent>,
}

impl View for LoanNFT {
    type V = LoanNftView;

    open spec fn view(&self) -> LoanNftView {
        LoanNftView {
            admin: self.admin,
            metadata: self.metadata@,
            owners: self.owners@,
            approved: self.approved@,
            operators: self.operators@,
            balances: self.balances@,
            supply: self.supply,
            token_uris: self.token_uris@,
            guarded: self.guarded,
            transferable: self.transferable@,
            metadata_locked: self.metadata_locked@,
            events: self.events@,
        }
    }
}

/// The tokens that an address owns.
pub open spec fn holdings(owners: Map<u64, Address>, owner: Address) -> Set<u64> {
    owners.dom().filter(|loan_id: u64| owners[loan_id] == owner)
}

impl LoanNftView {
    /// Number of tokens that an address owns, as recorded.
    pub open spec fn balance_of(self, owner: Address) -> u64 {
        if self.balances.contains_key(owner) {
            self.balances[owner]
        } else {
            0
        }
    }

    /// Whether an operator may move all tokens of an owner.
    pub open spec fn is_operator(self, owner: Address, operator: Address) -> bool {
        self.operators.contains_key((owner, operator)) && self.operators[(owner, operator)]
    }

    /// Whether a token may move.
    pub open spec fn can_move(self, loan_id: u64) -> bool {
        self.transferable.contains_key(loan_id) ==> self.transferable[loan_id]
    }

    /// What holds of the contract between calls: without an admin there is no
    /// token; every token has an owner, a
    /// record and its two flags; the supply counts the tokens; each balance
    /// counts the tokens of its owner; approvals and URIs are of existing tokens.
    pub open spec fn well_formed(self) -> bool {
        &&& self.admin is None ==> self.owners == Map::<u64, Address>::empty()
        &&& self.owners.dom().finite()
        &&& self.metadata.dom() == self.owners.dom()
        &&& self.transferable.dom() == self.owners.dom()
        &&& self.metadata_locked.dom() == self.owners.dom()
        &&& self.approved.dom().subset_of(self.owners.dom())
        &&& self.token_uris.dom().subset_of(self.owners.dom())
        &&& self.supply == self.owners.dom().len()
        &&& forall|owner: Address|
            self.balance_of(owner) == #[trigger] holdings(self.owners, owner).len()
    }

    /// Why a call that is open to the admin alone is refused, if it is.
    pub open spec fn admin_refusal(self, env: Env) -> Option<NftRefusal> {
        match self.admin {
            None => Some(NftRefusal::NotInitialized),
            Some(admin) => if env.authorized(admin) {
                None
            } else {
                Some(NftRefusal::Unauthorized)
            },
        }
    }

    /// Why `mint` is refused, if it is.
    pub open spec fn mint_refusal(self, env: Env, loan_id: u64) -> Option<NftRefusal> {
        if self.admin_refusal(env) is Some {
            self.admin_refusal(env)
        } else if self.guarded {
            Some(NftRefusal::ReentrantCall)
        } else if self.metadata.contains_key(loan_id) {
            Some(NftRefusal::AlreadyMinted)
        } else {
            None
        }
    }

    /// Why `burn` is refused, if it is.
    pub open spec fn burn_refusal(self, env: Env, loan_id: u64) -> Option<NftRefusal> {
        if self.admin_refusal(env) is Some {
            self.admin_refusal(env)
        } else if self.guarded {
            Some(NftRefusal::ReentrantCall)
        } else if !self.owners.contains_key(loan_id) {
            Some(NftRefusal::UnknownToken)
        } else {
            None
        }
    }

    /// Why `transfer` is refused, if it is.
    pub open spec fn transfer_refusal(self, env: Env, from: Address, loan_id: u64) -> Option<
        NftRefusal,
    > {
        if !env.authorized(from) {
            Some(NftRefusal::Unauthorized)
        } else if self.guarded {
            Some(NftRefusal::ReentrantCall)
        } else if !self.can_move(loan_id) {
            Some(NftRefusal::TransferRestricted)
        } else if !self.owners.contains_key(loan_id) {
            Some(NftRefusal::UnknownTokenForLoan)
        } else if self.owners[loan_id] != from {
            Some(NftRefusal::NotOwner)
        } else {
            None
        }
    }

    /// Whether `spender` may move the token of `from` at `now`.
    pub open spec fn may_spend(self, now: u64, spender: Address, from: Address, loan_id: u64) -> bool {
        ||| spender == from
        ||| self.is_operator(from, spender)
        ||| self.approved.contains_key(loan_id) && self.approved[loan_id].operator == spender && now
            < self.approved[loan_id].expires_at
    }

    /// Why `transfer_from` is refused, if it is.
    pub open spec fn transfer_from_refusal(
        self,
        env: Env,
        spender: Address,
        from: Address,
        loan_id: u64,
    ) -> Option<NftRefusal> {
        if !env.authorized(spender) {
            Some(NftRefusal::Unauthorized)
        } else if self.guarded {
            Some(NftRefusal::ReentrantCall)
        } else if !self.can_move(loan_id) {
            Some(NftRefusal::TransferRestricted)
        } else if !self.owners.contains_key(loan_id) {
            Some(NftRefusal::UnknownToken)
        } else if self.owners[loan_id] != from {
            Some(NftRefusal::NotOwner)
        } else if !self.may_spend(env.timestamp, spender, from, loan_id) {
            Some(NftRefusal::NotApproved)
        } else {
            None
        }
    }

    /// Why `approve` is refused, if it is.
    pub open spec fn approve_refusal(
        self,
        env: Env,
        caller: Address,
        operator: Address,
        loan_id: u64,
    ) -> Option<NftRefusal> {
        if !env.authorized(caller) {
            Some(NftRefusal::Unauthorized)
        } else if !self.owners.contains_key(loan_id) {
            Some(NftRefusal::UnknownToken)
        } else if operator == self.owners[loan_id] {
            Some(NftRefusal::ApproveOwner)
        } else if caller != self.owners[loan_id] && !self.is_operator(
            self.owners[loan_id],
            caller,
        ) {
            Some(NftRefusal::NotAuthorizedToApprove)
        } else {
            None
        }
    }

    /// Why `set_approval_for_all` is refused, if it is.
    pub open spec fn approval_for_all_refusal(
        self,
        env: Env,
        caller: Address,
        operator: Address,
    ) -> Option<NftRefusal> {
        if !env.authorized(caller) {
            Some(NftRefusal::Unauthorized)
        } else if caller == operator {
            Some(NftRefusal::SelfApproval)
        } else {
            None
        }
    }

    /// Why `set_token_uri` and `set_transferable` are refused, if they are.
    pub open spec fn update_refusal(self, env: Env, loan_id: u64) -> Option<NftRefusal> {
        if self.admin_refusal(env) is Some {
            self.admin_refusal(env)
        } else if !self.metadata.contains_key(loan_id) {
            Some(NftRefusal::UnknownToken)
        } else {
            None
        }
    }

    /// The contract after a token was minted to `to`.
    pub open spec fn minted(self, to: Address, metadata: LoanMetadataView) -> LoanNftView {
        let loan_id = metadata.loan_id;
        LoanNftView {
            metadata: self.metadata.insert(loan_id, metadata),
            owners: self.owners.insert(loan_id, to),
            transferable: self.transferable.insert(loan_id, false),
            metadata_locked: self.metadata_locked.insert(loan_id, true),
            supply: (self.supply + 1) as u64,
            balances: self.balances.insert(to, (self.balance_of(to) + 1) as u64),
            events: self.events.push(NftEvent::Transfer { from: None, to: Some(to), loan_id }),
            ..self
        }
    }

    /// The contract after a token was burnt.
    pub open spec fn burnt(self, loan_id: u64) -> LoanNftView {
        let owner = self.owners[loan_id];
        LoanNftView {
            metadata: self.metadata.remove(loan_id),
            owners: self.owners.remove(loan_id),
            approved: self.approved.remove(loan_id),
            token_uris: self.token_uris.remove(loan_id),
            transferable: self.transferable.remove(loan_id),
            metadata_locked: self.metadata_locked.remove(loan_id),
            supply: (self.supply - 1) as u64,
            balances: self.balances.insert(owner, (self.balance_of(owner) - 1) as u64),
            events: self.events.push(
                NftEvent::Transfer { from: Some(owner), to: None, loan_id },
            ),
            ..self
        }
    }

    /// The contract after a token moved from `from` to `to`: the approval is
    /// gone, and one token changed sides.
    pub open spec fn moved(self, from: Address, to: Address, loan_id: u64) -> LoanNftView {
        let without = self.balances.insert(from, (self.balance_of(from) - 1) as u64);
        LoanNftView {
            owners: self.owners.insert(loan_id, to),
            approved: self.approved.remove(loan_id),
            balances: if from == to {
                self.balances.insert(from, self.balance_of(from))
            } else {
                without.insert(to, (self.balance_of(to) + 1) as u64)
            },
            events: self.events.push(
                NftEvent::Transfer { from: Some(from), to: Some(to), loan_id },
            ),
            ..self
        }
    }

    /// The token approval in force at `now`.
    pub open spec fn approval_at(self, now: u64, loan_id: u64) -> Option<Address> {
        if self.approved.contains_key(loan_id) && now < self.approved[loan_id].expires_at {
            Some(self.approved[loan_id].operator)
        } else {
            None
        }
    }
}

proof fn lemma_holdings_insert(owners: Map<u64, Address>, loan_id: u64, to: Address)
    requires
        owners.dom().finite(),
    ensures
        forall|owner: Address| #[trigger]
            holdings(owners.insert(loan_id, to), owner) == (if owner == to {
                holdings(owners, owner).insert(loan_id)
            } else {
                holdings(owners, owner).remove(loan_id)
            }),
        forall|owner: Address| (#[trigger] holdings(owners, owner)).finite(),
{
    assert forall|owner: Address| #[trigger]
        holdings(owners.insert(loan_id, to), owner) == (if owner == to {
            holdings(owners, owner).insert(loan_id)
        } else {
            holdings(owners, owner).remove(loan_id)
        }) by {
        if owner == to {
            assert(holdings(owners.insert(loan_id, to), owner) =~= holdings(owners, owner).insert(
                loan_id,
            ));
        } else {
            assert(holdings(owners.insert(loan_id, to), owner) =~= holdings(owners, owner).remove(
                loan_id,
            ));
        }
    }
}

proof fn lemma_holdings_remove(owners: Map<u64, Address>, loan_id: u64)
    requires
        owners.dom().finite(),
    ensures
        forall|owner: Address| #[trigger]
            holdings(owners.remove(loan_id), owner) == holdings(owners, owner).remove(loan_id),
        forall|owner: Address| (#[trigger] holdings(owners, owner)).finite(),
{
    assert forall|owner: Address| #[trigger]
        holdings(owners.remove(loan_id), owner) == holdings(owners, owner).remove(loan_id) by {
        assert(holdings(owners.remove(loan_id), owner) =~= holdings(owners, owner).remove(loan_id));
    }
}

proof fn lemma_balance_bounded(nft: LoanNftView, owner: Address)
    requires
        nft.well_formed(),
    ensures
        nft.balance_of(owner) <= nft.supply,
        forall|loan_id: u64|
            nft.owners.contains_key(loan_id) && #[trigger] nft.owners[loan_id] == owner
                ==> nft.balance_of(owner) >= 1,
{
    let held = holdings(nft.owners, owner);
    assert(held.subset_of(nft.owners.dom()));
    vstd::set_lib::lemma_len_subset(held, nft.owners.dom());
    assert forall|loan_id: u64|
        nft.owners.contains_key(loan_id) && #[trigger] nft.owners[loan_id]
            == owner implies nft.balance_of(owner) >= 1 by {
        assert(held.contains(loan_id));
        assert(held.len() > 0) by {
            assert(held.remove(loan_id).len() + 1 == held.len());
        }
    }
}

/// Minting a fresh token keeps the contract well formed.
pub proof fn law_mint_well_formed(nft: LoanNftView, to: Address, metadata: LoanMetadataView)
    requires
        nft.well_formed(),
        nft.admin is Some,
        !nft.owners.contains_key(metadata.loan_id),
        nft.supply < u64::MAX,
    ensures
        nft.minted(to, metadata).well_formed(),
{
    let after = nft.minted(to, metadata);
    lemma_holdings_insert(nft.owners, metadata.loan_id, to);
    lemma_balance_bounded(nft, to);
    assert forall|owner: Address|
        after.balance_of(owner) == #[trigger] holdings(after.owners, owner).len() by {
        let before = holdings(nft.owners, owner);
        assert(!before.contains(metadata.loan_id));
        assert(before.remove(metadata.loan_id) =~= before);
        assert(nft.balance_of(owner) == before.len());
    }
    assert(after.metadata.dom() =~= after.owners.dom());
    assert(after.transferable.dom() =~= after.owners.dom());
    assert(after.metadata_locked.dom() =~= after.owners.dom());
}

/// Burning a token keeps the contract well formed.
pub proof fn law_burn_well_formed(nft: LoanNftView, loan_id: u64)
    requires
        nft.well_formed(),
        nft.owners.contains_key(loan_id),
    ensures
        nft.burnt(loan_id).well_formed(),
{
    let after = nft.burnt(loan_id);
    lemma_holdings_remove(nft.owners, loan_id);
    lemma_balance_bounded(nft, nft.owners[loan_id]);
    assert forall|owner: Address|
        after.balance_of(owner) == #[trigger] holdings(after.owners, owner).len() by {
        let before = holdings(nft.owners, owner);
        assert(nft.balance_of(owner) == before.len());
        if owner == nft.owners[loan_id] {
            assert(before.contains(loan_id));
        } else {
            assert(!before.contains(loan_id));
            assert(before.remove(loan_id) =~= before);
        }
    }
    assert(nft.owners.dom().contains(loan_id));
    assert(after.metadata.dom() =~= after.owners.dom());
    assert(after.transferable.dom() =~= after.owners.dom());
    assert(after.metadata_locked.dom() =~= after.owners.dom());
}

/// Moving a token keeps the contract well formed: no token appears or is lost.
pub proof fn law_move_well_formed(nft: LoanNftView, from: Address, to: Address, loan_id: u64)
    requires
        nft.well_formed(),
        nft.owners.contains_key(loan_id),
        nft.owners[loan_id] == from,
    ensures
        nft.moved(from, to, loan_id).well_formed(),
        nft.moved(from, to, loan_id).supply == nft.supply,
        nft.moved(from, to, loan_id).owners.dom() == nft.owners.dom(),
{
    let after = nft.moved(from, to, loan_id);
    lemma_holdings_insert(nft.owners, loan_id, to);
    lemma_balance_bounded(nft, from);
    lemma_balance_bounded(nft, to);
    assert(after.owners.dom() =~= nft.owners.dom());
    assert(holdings(nft.owners, from).contains(loan_id));
    if from != to {
        assert(!holdings(nft.owners, to).contains(loan_id));
        let both = holdings(nft.owners, to).insert(loan_id);
        assert(both.subset_of(nft.owners.dom()));
        vstd::set_lib::lemma_len_subset(both, nft.owners.dom());
    }
    assert forall|owner: Address|
        after.balance_of(owner) == #[trigger] holdings(after.owners, owner).len() by {
        let before = holdings(nft.owners, owner);
        assert(nft.balance_of(owner) == before.len());
        if owner == from {
            if from == to {
                assert(before.insert(loan_id) =~= before);
            }
        } else if owner != to {
            assert(!before.contains(loan_id));
            assert(before.remove(loan_id) =~= before);
        }
    }
}

/// A fresh token can be burnt again, and then owners, records, supply and every
/// balance are what they were before it was minted.
pub proof fn law_burn_undoes_mint(nft: LoanNftView, to: Address, metadata: LoanMetadataView)
    requires
        nft.well_formed(),
        !nft.owners.contains_key(metadata.loan_id),
        nft.supply < u64::MAX,
    ensures
        ({
            let after = nft.minted(to, metadata).burnt(metadata.loan_id);
            &&& after.owners == nft.owners
            &&& after.metadata == nft.metadata
            &&& after.transferable == nft.transferable
            &&& after.metadata_locked == nft.metadata_locked
            &&& after.approved == nft.approved
            &&& after.token_uris == nft.token_uris
            &&& after.supply == nft.supply
            &&& forall|owner: Address| #[trigger] after.balance_of(owner) == nft.balance_of(owner)
        }),
{
    let after = nft.minted(to, metadata).burnt(metadata.loan_id);
    lemma_balance_bounded(nft, to);
    assert(after.owners =~= nft.owners);
    assert(after.metadata =~= nft.metadata);
    assert(!nft.transferable.dom().contains(metadata.loan_id));
    assert(after.transferable =~= nft.transferable);
    assert(!nft.metadata_locked.dom().contains(metadata.loan_id));
    assert(after.metadata_locked =~= nft.metadata_locked);
    assert(after.approved =~= nft.approved);
    assert(after.token_uris =~= nft.token_uris);
}

/// A freshly minted token cannot move: both ways of transferring it are refused
/// to everyone, at every time.
pub proof fn law_fresh_token_is_locked(
    nft: LoanNftView,
    to: Address,
    metadata: LoanMetadataView,
    env: Env,
    spender: Address,
    from: Address,
)
    requires
        !nft.guarded,
    ensures
        ({
            let after = nft.minted(to, metadata);
            &&& env.authorized(from) ==> after.transfer_refusal(env, from, metadata.loan_id)
                == Some(NftRefusal::TransferRestricted)
            &&& env.authorized(spender) ==> after.transfer_from_refusal(
                env,
                spender,
                from,
                metadata.loan_id,
            ) == Some(NftRefusal::TransferRestricted)
            &&& after.transfer_refusal(env, from, metadata.loan_id) is Some
            &&& after.transfer_from_refusal(env, spender, from, metadata.loan_id) is Some
        }),
{
}

/// A transfer ends the token's approval: an address that could move the token
/// through it alone can no longer do so.
pub proof fn law_transfer_clears_approval(
    nft: LoanNftView,
    from: Address,
    to: Address,
    loan_id: u64,
    now: u64,
    spender: Address,
)
    ensures
        nft.moved(from, to, loan_id).approval_at(now, loan_id) is None,
        spender != to && !nft.is_operator(to, spender) ==> !nft.moved(
            from,
            to,
            loan_id,
        ).may_spend(now, spender, to, loan_id),
{
}

/// While a guarded call is under way, mint, burn and both transfers are refused.
pub proof fn law_guard_blocks_reentry(
    nft: LoanNftView,
    env: Env,
    spender: Address,
    from: Address,
    loan_id: u64,
)
    requires
        nft.guarded,
    ensures
        nft.mint_refusal(env, loan_id) is Some,
        nft.burn_refusal(env, loan_id) is Some,
        nft.transfer_refusal(env, from, loan_id) is Some,
        nft.transfer_from_refusal(env, spender, from, loan_id) is Some,
{
}

impl LoanNFT {
    /// The contract as deployed: no admin, no tokens.
    pub fn new() -> (nft: LoanNFT)
        ensures
            nft@ == (LoanNftView {
                admin: None,
                metadata: Map::empty(),
                owners: Map::empty(),
                approved: Map::empty(),
                operators: Map::empty(),
                balances: Map::empty(),
                supply: 0,
                token_uris: Map::empty(),
                guarded: false,
                transferable: Map::empty(),
                metadata_locked: Map::empty(),
                events: Seq::empty(),
            }),
            nft@.well_formed(),
    {
        let nft = LoanNFT {
            admin: None,
            metadata: Table::new(),
            owners: Table::new(),
            approved: Table::new(),
            operators: Table::new(),
            balances: Table::new(),
            supply: 0,
            token_uris: Table::new(),
            guarded: false,
            transferable: Table::new(),
            metadata_locked: Table::new(),
            events: Vec::new(),
        };
        proof {
            assert forall|owner: Address| #[trigger]
                holdings(Map::<u64, Address>::empty(), owner).len() == 0 by {
                assert(holdings(Map::<u64, Address>::empty(), owner) =~= Set::<u64>::empty());
            }
        }
        nft
    }

    /// Why `initialize` is refused, if it is.
    pub fn initialize_refusal(&self) -> (refusal: Option<NftRefusal>)
        ensures
            refusal == (if self@.admin is Some {
                Some(NftRefusal::AlreadyInitialized)
            } else {
                None
            }),
    {
        if self.admin.is_some() {
            Some(NftRefusal::AlreadyInitialized)
        } else {
            None
        }
    }

    /// Appoints the admin of a contract that has none, and starts the supply at zero.
    pub fn initialize(&mut self, admin: Address)
        requires
            old(self)@.well_formed(),
            old(self)@.admin is None,
        ensures
            final(self)@ == (LoanNftView { admin: Some(admin), supply: 0, ..old(self)@ }),
            final(self)@.well_formed(),
    {
        self.admin = Some(admin);
        self.supply = 0;
        proof {
            assert forall|holder: Address|
                self@.balance_of(holder) == #[trigger] holdings(self@.owners, holder).len() by {
                assert(old(self)@.balance_of(holder) == holdings(old(self)@.owners, holder).len());
            }
        }
    }

    /// Why a call that is open to the admin alone is refused, if it is.
    pub fn check_admin(&self, env: &Env) -> (refusal: Option<NftRefusal>)
        ensures
            refusal == self@.admin_refusal(*env),
    {
        match self.admin {
            None => Some(NftRefusal::NotInitialized),
            Some(admin) => if env.is_authorized(admin) {
                None
            } else {
                Some(NftRefusal::Unauthorized)
            },
        }
    }

    /// Why `mint` is refused, if it is.
    pub fn mint_refusal(&self, env: &Env, loan_id: u64) -> (refusal: Option<NftRefusal>)
        ensures
            refusal == self@.mint_refusal(*env, loan_id),
    {
        let refusal = self.check_admin(env);
        if refusal.is_some() {
            return refusal;
        }
        if self.guarded {
            Some(NftRefusal::ReentrantCall)
        } else if self.metadata.contains(loan_id) {
            Some(NftRefusal::AlreadyMinted)
        } else {
            None
        }
    }

    /// Mints the token of a loan to `to`, locked in place, with a final record.
    pub fn mint(&mut self, env: &Env, to: Address, metadata: LoanMetadata)
        requires
            old(self)@.well_formed(),
            old(self)@.mint_refusal(*env, metadata.loan_id) is None,
            old(self)@.supply < u64::MAX,
        ensures
            final(self)@ == old(self)@.minted(to, metadata@),
            final(self)@.well_formed(),
    {
        proof {
            assert(!self@.owners.dom().contains(metadata.loan_id));
            law_mint_well_formed(self@, to, metadata@);
            lemma_balance_bounded(self@, to);
        }
        self.enter_reentrancy_guard();
        let loan_id: u64 = metadata.loan_id;
        self.metadata.set(loan_id, metadata);
        self.owners.set(loan_id, to);
        self.transferable.set(loan_id, false);
        self.metadata_locked.set(loan_id, true);
        self.supply = self.supply + 1;
        let balance: u64 = self.balance_of(to);
        self.balances.set(to, balance + 1);
        self.emit_mint_event(to, loan_id);
        self.exit_reentrancy_guard();
    }

    /// Why `burn` is refused, if it is.
    pub fn burn_refusal(&self, env: &Env, loan_id: u64) -> (refusal: Option<NftRefusal>)
        ensures
            refusal == self@.burn_refusal(*env, loan_id),
    {
        let refusal = self.check_admin(env);
        if refusal.is_some() {
            return refusal;
        }
        if self.guarded {
            Some(NftRefusal::ReentrantCall)
        } else if !self.owners.contains(loan_id) {
            Some(NftRefusal::UnknownToken)
        } else {
            None
        }
    }

    /// Destroys the token of a loan, with everything recorded of it.
    pub fn burn(&mut self, env: &Env, loan_id: u64)
        requires
            old(self)@.well_formed(),
            old(self)@.burn_refusal(*env, loan_id) is None,
        ensures
            final(self)@ == old(self)@.burnt(loan_id),
            final(self)@.well_formed(),
    {
        let owner = match self.owner_of(loan_id) {
            Some(owner) => owner,
            None => {
                return ;
            },
        };
        proof {
            law_burn_well_formed(self@, loan_id);
            lemma_balance_bounded(self@, owner);
        }
        self.enter_reentrancy_guard();
        self.metadata.remove(loan_id);
        self.owners.remove(loan_id);
        self.approved.remove(loan_id);
        self.token_uris.remove(loan_id);
        self.transferable.remove(loan_id);
        self.metadata_locked.remove(loan_id);
        if self.supply > 0 {
            self.supply = self.supply - 1;
        }
        let balance: u64 = self.balance_of(owner);
        self.balances.set(owner, balance.saturating_sub(1));
        self.emit_burn_event(owner, loan_id);
        self.exit_reentrancy_guard();
    }

    /// Why a transfer of the token is restricted, if it is.
    pub fn check_transfer_restriction(&self, loan_id: u64) -> (refusal: Option<NftRefusal>)
        ensures
            refusal == (if self@.can_move(loan_id) {
                None
            } else {
                Some(NftRefusal::TransferRestricted)
            }),
    {
        match self.transferable.get(loan_id) {
            Some(is_transferable) => if *is_transferable {
                None
            } else {
                Some(NftRefusal::TransferRestricted)
            },
            None => None,
        }
    }

    /// Why `transfer` is refused, if it is.
    pub fn transfer_refusal(&self, env: &Env, from: Address, loan_id: u64) -> (refusal: Option<
        NftRefusal,
    >)
        ensures
            refusal == self@.transfer_refusal(*env, from, loan_id),
    {
        if !env.is_authorized(from) {
            return Some(NftRefusal::Unauthorized);
        }
        if self.guarded {
            return Some(NftRefusal::ReentrantCall);
        }
        let restriction = self.check_transfer_restriction(loan_id);
        if restriction.is_some() {
            return restriction;
        }
        match self.owner_of(loan_id) {
            None => Some(NftRefusal::UnknownTokenForLoan),
            Some(owner) => if owner != from {
                Some(NftRefusal::NotOwner)
            } else {
                None
            },
        }
    }

    /// Moves a token from its owner to `to`.
    pub fn transfer(&mut self, env: &Env, from: Address, to: Address, loan_id: u64)
        requires
            old(self)@.well_formed(),
            old(self)@.transfer_refusal(*env, from, loan_id) is None,
        ensures
            final(self)@ == old(self)@.moved(from, to, loan_id),
            final(self)@.well_formed(),
    {
        proof {
            law_move_well_formed(self@, from, to, loan_id);
        }
        self.enter_reentrancy_guard();
        proof {
            assert forall|holder: Address|
                self@.balance_of(holder) == #[trigger] holdings(self@.owners, holder).len() by {
                assert(old(self)@.balance_of(holder) == holdings(old(self)@.owners, holder).len());
            }
        }
        self.do_transfer(from, to, loan_id);
        self.exit_reentrancy_guard();
    }

    /// Why `transfer_from` is refused, if it is.
    pub fn transfer_from_refusal(
        &self,
        env: &Env,
        spender: Address,
        from: Address,
        loan_id: u64,
    ) -> (refusal: Option<NftRefusal>)
        ensures
            refusal == self@.transfer_from_refusal(*env, spender, from, loan_id),
    {
        if !env.is_authorized(spender) {
            return Some(NftRefusal::Unauthorized);
        }
        if self.guarded {
            return Some(NftRefusal::ReentrantCall);
        }
        let restriction = self.check_transfer_restriction(loan_id);
        if restriction.is_some() {
            return restriction;
        }
        match self.owner_of(loan_id) {
            None => {
                return Some(NftRefusal::UnknownToken);
            },
            Some(owner) => if owner != from {
                return Some(NftRefusal::NotOwner);
            },
        }
        if spender != from && !self.is_approved_for_all(from, spender) {
            match self.approved.get(loan_id) {
                Some(record) => if record.operator != spender || env.timestamp
                    >= record.expires_at {
                    return Some(NftRefusal::NotApproved);
                },
                None => {
                    return Some(NftRefusal::NotApproved);
                },
            }
        }
        None
    }

    /// Moves a token of `from` to `to` on behalf of `spender`, who is the owner,
    /// an operator of the owner, or holds an approval that has not expired.
    pub fn transfer_from(
        &mut self,
        env: &Env,
        spender: Address,
        from: Address,
        to: Address,
        loan_id: u64,
    )
        requires
            old(self)@.well_formed(),
            old(self)@.transfer_from_refusal(*env, spender, from, loan_id) is None,
        ensures
            final(self)@ == old(self)@.moved(from, to, loan_id),
            final(self)@.well_formed(),
    {
        proof {
            law_move_well_formed(self@, from, to, loan_id);
        }
        self.enter_reentrancy_guard();
        proof {
            assert forall|holder: Address|
                self@.balance_of(holder) == #[trigger] holdings(self@.owners, holder).len() by {
                assert(old(self)@.balance_of(holder) == holdings(old(self)@.owners, holder).len());
            }
        }
        self.do_transfer(from, to, loan_id);
        self.exit_reentrancy_guard();
    }

    /// Why `approve` is refused, if it is.
    pub fn approve_refusal(
        &self,
        env: &Env,
        caller: Address,
        operator: Address,
        loan_id: u64,
    ) -> (refusal: Option<NftRefusal>)
        ensures
            refusal == self@.approve_refusal(*env, caller, operator, loan_id),
    {
        if !env.is_authorized(caller) {
            return Some(NftRefusal::Unauthorized);
        }
        match self.owner_of(loan_id) {
            None => Some(NftRefusal::UnknownToken),
            Some(owner) => if operator == owner {
                Some(NftRefusal::ApproveOwner)
            } else if caller != owner && !self.is_approved_for_all(owner, caller) {
                Some(NftRefusal::NotAuthorizedToApprove)
            } else {
                None
            },
        }
    }

    /// Lets `operator` move one token for the next seven days.
    pub fn approve(&mut self, env: &Env, caller: Address, operator: Address, loan_id: u64)
        requires
            old(self)@.well_formed(),
            old(self)@.approve_refusal(*env, caller, operator, loan_id) is None,
        ensures
            final(self)@ == (LoanNftView {
                approved: old(self)@.approved.insert(
                    loan_id,
                    ApprovalRecord {
                        operator,
                        expires_at: if env.timestamp + DEFAULT_APPROVAL_EXPIRATION_SECONDS
                            <= u64::MAX {
                            (env.timestamp + DEFAULT_APPROVAL_EXPIRATION_SECONDS) as u64
                        } else {
                            u64::MAX
                        },
                    },
                ),
                events: old(self)@.events.push(
                    NftEvent::Approval { owner: old(self)@.owners[loan_id], operator, loan_id },
                ),
                ..old(self)@
            }),
            final(self)@.well_formed(),
    {
        let owner = match self.owner_of(loan_id) {
            Some(owner) => owner,
            None => {
                return ;
            },
        };
        let expires_at: u64 = env.timestamp.saturating_add(DEFAULT_APPROVAL_EXPIRATION_SECONDS);
        self.approved.set(loan_id, ApprovalRecord { operator, expires_at });
        self.emit_approval_event(owner, operator, loan_id);
        proof {
            assert forall|holder: Address|
                self@.balance_of(holder) == #[trigger] holdings(self@.owners, holder).len() by {
                assert(old(self)@.balance_of(holder) == holdings(old(self)@.owners, holder).len());
            }
        }
    }

    /// Why `set_approval_for_all` is refused, if it is.
    pub fn approval_for_all_refusal(
        &self,
        env: &Env,
        caller: Address,
        operator: Address,
    ) -> (refusal: Option<NftRefusal>)
        ensures
            refusal == self@.approval_for_all_refusal(*env, caller, operator),
    {
        if !env.is_authorized(caller) {
            Some(NftRefusal::Unauthorized)
        } else if caller == operator {
            Some(NftRefusal::SelfApproval)
        } else {
            None
        }
    }

    /// Grants or withdraws an operator's leave to move all tokens of `caller`.
    pub fn set_approval_for_all(
        &mut self,
        env: &Env,
        caller: Address,
        operator: Address,
        approved: bool,
    )
        requires
            old(self)@.well_formed(),
            old(self)@.approval_for_all_refusal(*env, caller, operator) is None,
        ensures
            final(self)@ == (LoanNftView {
                operators: old(self)@.operators.insert((caller, operator), approved),
                events: old(self)@.events.push(
                    NftEvent::ApprovalForAll { owner: caller, operator, approved },
                ),
                ..old(self)@
            }),
            final(self)@.well_formed(),
    {
        self.operators.set((caller, operator), approved);
        self.emit_approval_for_all_event(caller, operator, approved);
        proof {
            assert forall|holder: Address|
                self@.balance_of(holder) == #[trigger] holdings(self@.owners, holder).len() by {
                assert(old(self)@.balance_of(holder) == holdings(old(self)@.owners, holder).len());
            }
        }
    }

    /// Who may move the token by approval now.
    pub fn get_approved(&self, env: &Env, loan_id: u64) -> (operator: Option<Address>)
        ensures
            operator == self@.approval_at(env.timestamp, loan_id),
    {
        match self.approved.get(loan_id) {
            Some(record) => if env.timestamp < record.expires_at {
                Some(record.operator)
            } else {
                None
            },
            None => None,
        }
    }

    /// Whether the operator may move all tokens of the owner.
    pub fn is_approved_for_all(&self, owner: Address, operator: Address) -> (yes: bool)
        ensures
            yes == self@.is_operator(owner, operator),
    {
        match self.operators.get((owner, operator)) {
            Some(approved) => *approved,
            None => false,
        }
    }

    /// Number of tokens that the address owns.
    pub fn balance_of(&self, owner: Address) -> (balance: u64)
        ensures
            balance == self@.balance_of(owner),
    {
        match self.balances.get(owner) {
            Some(balance) => *balance,
            None => 0,
        }
    }

    /// Number of tokens in existence.
    pub fn total_supply(&self) -> (supply: u64)
        ensures
            supply == self@.supply,
    {
        self.supply
    }

    /// The URI that the admin set for the token; empty if none.
    pub fn token_uri(&self, loan_id: u64) -> (uri: Vec<u8>)
        ensures
            uri@ == (if self@.token_uris.contains_key(loan_id) {
                self@.token_uris[loan_id]
            } else {
                Seq::empty()
            }),
    {
        match self.token_uris.get(loan_id) {
            Some(uri) => uri.clone(),
            None => Vec::new(),
        }
    }

    /// Returns the on-chain URI JSON bound to the loan NFT's dynamic metadata;
    /// empty for a token that does not exist.
    pub fn get_token_uri(&self, token_id: u32) -> (uri: Vec<u8>)
        ensures
            uri@ == (if self@.metadata.contains_key(token_id as u64) {
                self@.metadata[token_id as u64].uri
            } else {
                Seq::empty()
            }),
    {
        match self.metadata.get(token_id as u64) {
            Some(metadata) => metadata.uri.clone(),
            None => Vec::new(),
        }
    }

    /// Why `set_token_uri` and `set_transferable` are refused, if they are.
    pub fn update_refusal(&self, env: &Env, loan_id: u64) -> (refusal: Option<NftRefusal>)
        ensures
            refusal == self@.update_refusal(*env, loan_id),
    {
        let refusal = self.check_admin(env);
        if refusal.is_some() {
            return refusal;
        }
        if self.metadata.contains(loan_id) {
            None
        } else {
            Some(NftRefusal::UnknownToken)
        }
    }

    /// Sets the URI of a token.
    pub fn set_token_uri(&mut self, env: &Env, loan_id: u64, uri: Vec<u8>)
        requires
            old(self)@.well_formed(),
            old(self)@.update_refusal(*env, loan_id) is None,
        ensures
            final(self)@ == (LoanNftView {
                token_uris: old(self)@.token_uris.insert(loan_id, uri@),
                ..old(self)@
            }),
            final(self)@.well_formed(),
    {
        proof {
            assert(self@.metadata.dom().contains(loan_id));
        }
        self.token_uris.set(loan_id, uri);
        proof {
            assert forall|holder: Address|
                self@.balance_of(holder) == #[trigger] holdings(self@.owners, holder).len() by {
                assert(old(self)@.balance_of(holder) == holdings(old(self)@.owners, holder).len());
            }
        }
    }

    /// The record of a loan.
    pub fn get_metadata(&self, loan_id: u64) -> (metadata: Option<LoanMetadata>)
        ensures
            match metadata {
                Some(m) => self@.metadata.contains_key(loan_id) && m@ == self@.metadata[loan_id],
                None => !self@.metadata.contains_key(loan_id),
            },
    {
        match self.metadata.get(loan_id) {
            Some(metadata) => Some(metadata.copied()),
            None => None,
        }
    }

    /// Whether the record of a loan is final.
    pub fn is_metadata_locked(&self, loan_id: u64) -> (locked: bool)
        ensures
            locked == (self@.metadata_locked.contains_key(loan_id)
                && self@.metadata_locked[loan_id]),
    {
        match self.metadata_locked.get(loan_id) {
            Some(locked) => *locked,
            None => false,
        }
    }

    /// The owner of the token, if there is one.
    pub fn owner_of(&self, loan_id: u64) -> (owner: Option<Address>)
        ensures
            owner == (if self@.owners.contains_key(loan_id) {
                Some(self@.owners[loan_id])
            } else {
                None
            }),
    {
        match self.owners.get(loan_id) {
            Some(owner) => Some(*owner),
            None => None,
        }
    }

    /// Locks a token in place or lets it move.
    pub fn set_transferable(&mut self, env: &Env, loan_id: u64, is_transferable: bool)
        requires
            old(self)@.well_formed(),
            old(self)@.update_refusal(*env, loan_id) is None,
        ensures
            final(self)@ == (LoanNftView {
                transferable: old(self)@.transferable.insert(loan_id, is_transferable),
                ..old(self)@
            }),
            final(self)@.well_formed(),
    {
        proof {
            assert(self@.metadata.dom().contains(loan_id));
        }
        self.transferable.set(loan_id, is_transferable);
        proof {
            assert(self@.transferable.dom() =~= old(self)@.transferable.dom());
            assert forall|holder: Address|
                self@.balance_of(holder) == #[trigger] holdings(self@.owners, holder).len() by {
                assert(old(self)@.balance_of(holder) == holdings(old(self)@.owners, holder).len());
            }
        }
    }

    /// Gives the token of `from` to `to`.
    fn do_transfer(&mut self, from: Address, to: Address, loan_id: u64)
        requires
            old(self)@.well_formed(),
            old(self)@.owners.contains_key(loan_id),
            old(self)@.owners[loan_id] == from,
        ensures
            final(self)@ == old(self)@.moved(from, to, loan_id),
    {
        proof {
            law_move_well_formed(self@, from, to, loan_id);
            lemma_balance_bounded(self@, from);
            lemma_balance_bounded(self@, to);
            if from != to {
                lemma_holdings_insert(self@.owners, loan_id, to);
                let both = holdings(self@.owners, to).insert(loan_id);
                assert(!holdings(self@.owners, to).contains(loan_id));
                assert(both.subset_of(self@.owners.dom()));
                vstd::set_lib::lemma_len_subset(both, self@.owners.dom());
                assert(self@.balance_of(to) == holdings(self@.owners, to).len());
            }
        }
        self.owners.set(loan_id, to);
        self.approved.remove(loan_id);
        let balance_from: u64 = self.balance_of(from).saturating_sub(1);
        self.balances.set(from, balance_from);
        let balance_to: u64 = self.balance_of(to);
        self.balances.set(to, balance_to + 1);
        self.emit_transfer_event(from, to, loan_id);
        proof {
            assert(self@.balances =~= old(self)@.moved(from, to, loan_id).balances);
        }
    }

    fn emit_mint_event(&mut self, to: Address, loan_id: u64)
        ensures
            final(self)@ == (LoanNftView {
                events: old(self)@.events.push(
                    NftEvent::Transfer { from: None, to: Some(to), loan_id },
                ),
                ..old(self)@
            }),
    {
        self.events.push(NftEvent::Transfer { from: None, to: Some(to), loan_id });
    }

    fn emit_burn_event(&mut self, owner: Address, loan_id: u64)
        ensures
            final(self)@ == (LoanNftView {
                events: old(self)@.events.push(
                    NftEvent::Transfer { from: Some(owner), to: None, loan_id },
                ),
                ..old(self)@
            }),
    {
        self.events.push(NftEvent::Transfer { from: Some(owner), to: None, loan_id });
    }

    fn emit_transfer_event(&mut self, from: Address, to: Address, loan_id: u64)
        ensures
            final(self)@ == (LoanNftView {
                events: old(self)@.events.push(
                    NftEvent::Transfer { from: Some(from), to: Some(to), loan_id },
                ),
                ..old(self)@
            }),
    {
        self.events.push(NftEvent::Transfer { from: Some(from), to: Some(to), loan_id });
    }

    fn emit_approval_event(&mut self, owner: Address, operator: Address, loan_id: u64)
        ensures
            final(self)@ == (LoanNftView {
                events: old(self)@.events.push(NftEvent::Approval { owner, operator, loan_id }),
                ..old(self)@
            }),
    {
        self.events.push(NftEvent::Approval { owner, operator, loan_id });
    }

    fn emit_approval_for_all_event(&mut self, owner: Address, operator: Address, approved: bool)
        ensures
            final(self)@ == (LoanNftView {
                events: old(self)@.events.push(
                    NftEvent::ApprovalForAll { owner, operator, approved },
                ),
                ..old(self)@
            }),
    {
        self.events.push(NftEvent::ApprovalForAll { owner, operator, approved });
    }

    /// Marks that a guarded call is under way.
    pub fn enter_reentrancy_guard(&mut self)
        requires
            !old(self)@.guarded,
        ensures
            final(self)@ == (LoanNftView { guarded: true, ..old(self)@ }),
    {
        self.guarded = true;
    }

    /// Marks that the guarded call has ended.
    pub fn exit_reentrancy_guard(&mut self)
        ensures
            final(self)@ == (LoanNftView { guarded: false, ..old(self)@ }),
    {
        self.guarded = false;
    }
}

/// Only the admin mints, burns and updates: a token for a loan that has none, and one
/// that exists. No call is taken while a guarded one is under way.
pub proof fn law_tokens_are_for_the_admin(nft: LoanNftView, env: Env, loan_id: u64)
    ensures
        ({
            let admin = nft.admin is Some && env.authorized(nft.admin->0);
            &&& nft.admin_refusal(env) is None <==> admin
            &&& nft.mint_refusal(env, loan_id) is None <==> admin && !nft.guarded
                && !nft.metadata.contains_key(loan_id)
            &&& nft.burn_refusal(env, loan_id) is None <==> admin && !nft.guarded
                && nft.owners.contains_key(loan_id)
            &&& nft.update_refusal(env, loan_id) is None <==> admin && nft.metadata.contains_key(
                loan_id,
            )
        }),
{
}

/// A token that was not locked in place moves by the signature of its owner, or by that
/// of somebody whom the owner made an operator for all tokens, or who is approved for
/// this one and whose approval has not expired.
pub proof fn law_moves_are_admitted(
    nft: LoanNftView,
    env: Env,
    spender: Address,
    from: Address,
    loan_id: u64,
)
    ensures
        ({
            let unlocked = nft.transferable.contains_key(loan_id) ==> nft.transferable[loan_id];
            let owns = nft.owners.contains_key(loan_id) && nft.owners[loan_id] == from;
            let approval = nft.approved[loan_id];
            &&& nft.transfer_refusal(env, from, loan_id) is None <==> env.authorized(from)
                && !nft.guarded && unlocked && owns
            &&& nft.transfer_from_refusal(env, spender, from, loan_id) is None <==> {
                &&& env.authorized(spender)
                &&& !nft.guarded
                &&& unlocked
                &&& owns
                &&& {
                    ||| spender == from
                    ||| nft.operators.contains_key((from, spender)) && nft.operators[(
                        from,
                        spender,
                    )]
                    ||| nft.approved.contains_key(loan_id) && approval.operator == spender
                        && env.timestamp < approval.expires_at
                }
            }
        }),
{
}

/// The owner of a token, or an operator of the owner, approves somebody other than the
/// owner; nobody makes themselves their operator. An approval is in force until it
/// expires.
pub proof fn law_approvals_of_tokens_are_admitted(
    nft: LoanNftView,
    env: Env,
    caller: Address,
    operator: Address,
    loan_id: u64,
)
    ensures
        ({
            let owner = nft.owners[loan_id];
            let approval = nft.approved[loan_id];
            &&& nft.approve_refusal(env, caller, operator, loan_id) is None <==> {
                &&& env.authorized(caller)
                &&& nft.owners.contains_key(loan_id)
                &&& operator != owner
                &&& caller == owner || (nft.operators.contains_key((owner, caller))
                    && nft.operators[(owner, caller)])
            }
            &&& nft.approval_for_all_refusal(env, caller, operator) is None <==> env.authorized(
                caller,
            ) && caller != operator
            &&& nft.approval_at(env.timestamp, loan_id) == Some(operator)
                <==> nft.approved.contains_key(loan_id) && approval.operator == operator
                && env.timestamp < approval.expires_at
            &&& nft.is_operator(caller, operator) <==> nft.operators.contains_key(
                (caller, operator),
            ) && nft.operators[(caller, operator)]
        }),
{
}

/// A minted token is the receiver's, has its record, which is final, and is locked in
/// place; there is one token more, and the receiver has one more. It is announced, and
/// all else stays.
pub proof fn law_minting(nft: LoanNftView, to: Address, metadata: LoanMetadataView)
    requires
        nft.well_formed(),
        nft.supply < 0xffff_ffff_ffff_ffff,
    ensures
        ({
            let id = metadata.loan_id;
            let after = nft.minted(to, metadata);
            &&& after.supply == nft.supply + 1
            &&& after.balance_of(to) == nft.balance_of(to) + 1
            &&& forall|who: Address|
                who != to ==> #[trigger] after.balance_of(who) == nft.balance_of(who)
            &&& after == (LoanNftView {
                metadata: nft.metadata.insert(id, metadata),
                owners: nft.owners.insert(id, to),
                transferable: nft.transferable.insert(id, false),
                metadata_locked: nft.metadata_locked.insert(id, true),
                supply: after.supply,
                balances: after.balances,
                events: nft.events.push(
                    NftEvent::Transfer { from: None, to: Some(to), loan_id: id },
                ),
                ..nft
            })
        }),
{
    lemma_balance_bounded(nft, to);
}

/// A burnt token is gone with its record, approval, URI and flags; there is one token
/// less, and its owner has one less. It is announced, and all else stays.
pub proof fn law_burning(nft: LoanNftView, loan_id: u64)
    requires
        nft.well_formed(),
        nft.owners.contains_key(loan_id),
    ensures
        ({
            let owner = nft.owners[loan_id];
            let after = nft.burnt(loan_id);
            &&& after.supply + 1 == nft.supply
            &&& after.balance_of(owner) + 1 == nft.balance_of(owner)
            &&& forall|who: Address|
                who != owner ==> #[trigger] after.balance_of(who) == nft.balance_of(who)
            &&& after == (LoanNftView {
                metadata: nft.metadata.remove(loan_id),
                owners: nft.owners.remove(loan_id),
                approved: nft.approved.remove(loan_id),
                token_uris: nft.token_uris.remove(loan_id),
                transferable: nft.transferable.remove(loan_id),
                metadata_locked: nft.metadata_locked.remove(loan_id),
                supply: after.supply,
                balances: after.balances,
                events: nft.events.push(
                    NftEvent::Transfer { from: Some(owner), to: None, loan_id },
                ),
                ..nft
            })
        }),
{
    lemma_balance_bounded(nft, nft.owners[loan_id]);
    assert(nft.owners.dom().remove(loan_id).len() + 1 == nft.owners.dom().len());
}

/// A token that moves is the receiver's, who has one more, while the one it came from
/// has one less; its approval is gone. It is announced, and all else stays, in
/// particular the supply and the record.
pub proof fn law_moving(nft: LoanNftView, from: Address, to: Address, loan_id: u64)
    requires
        nft.well_formed(),
        nft.owners.contains_key(loan_id),
        nft.owners[loan_id] == from,
    ensures
        ({
            let after = nft.moved(from, to, loan_id);
            &&& from != to ==> {
                &&& after.balance_of(from) + 1 == nft.balance_of(from)
                &&& after.balance_of(to) == nft.balance_of(to) + 1
            }
            &&& from == to ==> after.balance_of(from) == nft.balance_of(from)
            &&& forall|who: Address|
                who != from && who != to ==> #[trigger] after.balance_of(who) == nft.balance_of(who)
            &&& after == (LoanNftView {
                owners: nft.owners.insert(loan_id, to),
                approved: nft.approved.remove(loan_id),
                balances: after.balances,
                events: nft.events.push(
                    NftEvent::Transfer { from: Some(from), to: Some(to), loan_id },
                ),
                ..nft
            })
        }),
{
    lemma_balance_bounded(nft, from);
    lemma_two_holders(nft, from, to, loan_id);
}

/// Somebody who does not own a token owns less than all.
proof fn lemma_two_holders(nft: LoanNftView, from: Address, to: Address, loan_id: u64)
    requires
        nft.well_formed(),
        nft.owners.contains_key(loan_id),
        nft.owners[loan_id] == from,
    ensures
        from != to ==> nft.balance_of(to) < nft.supply,
{
    if from != to {
        let held = holdings(nft.owners, to);
        assert(!held.contains(loan_id));
        assert(held.subset_of(nft.owners.dom().remove(loan_id)));
        vstd::set_lib::lemma_len_subset(held, nft.owners.dom().remove(loan_id));
        assert(nft.balance_of(to) == held.len());
    }
}

/// What a refused caller is told, and the names under which events are published.
pub proof fn law_messages(refusal: NftRefusal, event: NftEvent)
    ensures
        refusal.spec_message() == (match refusal {
            NftRefusal::AlreadyInitialized => "Already initialized"@,
            NftRefusal::NotInitialized => "Not initialized"@,
            NftRefusal::Unauthorized => "Unauthorized"@,
            NftRefusal::ReentrantCall => "Reentrant call"@,
            NftRefusal::AlreadyMinted => "NFT already exists for this loan"@,
            NftRefusal::UnknownToken => "NFT does not exist"@,
            NftRefusal::UnknownTokenForLoan => "NFT does not exist for this loan"@,
            NftRefusal::NotOwner => "Not owner"@,
            NftRefusal::NotApproved => "Not approved"@,
            NftRefusal::ApproveOwner => "Cannot approve current owner"@,
            NftRefusal::NotAuthorizedToApprove => "Not authorized to approve"@,
            NftRefusal::SelfApproval => "Cannot self-approve"@,
            NftRefusal::TransferRestricted => "NFT transfer is restricted for an active loan"@,
        }),
        event.spec_name() == (match event {
            NftEvent::Transfer { .. } => "Transfer"@,
            NftEvent::Approval { .. } => "Approval"@,
            NftEvent::ApprovalForAll { .. } => "ApprovalForAll"@,
        }),
{
}

/// An approval lasts seven days.
pub proof fn law_limits()
    ensures
        DEFAULT_APPROVAL_EXPIRATION_SECONDS == 7 * 24 * 60 * 60,
{
}

/// Why `mint` is refused: every reason that is given holds.
pub proof fn law_reason_mint(nft: LoanNftView, env: Env, loan_id: u64)
    ensures
        match nft.mint_refusal(env, loan_id) {
            None => true,
            Some(NftRefusal::ReentrantCall) => nft.guarded || nft.admin_refusal(env)
                == Some(NftRefusal::ReentrantCall),
            Some(NftRefusal::AlreadyMinted) => nft.metadata.contains_key(loan_id)
                || nft.admin_refusal(env) == Some(NftRefusal::AlreadyMinted),
            Some(error) => nft.admin_refusal(env) == Some(error),
        },
{
}

/// Why `burn` is refused: every reason that is given holds.
pub proof fn law_reason_burn(nft: LoanNftView, env: Env, loan_id: u64)
    ensures
        match nft.burn_refusal(env, loan_id) {
            None => true,
            Some(NftRefusal::ReentrantCall) => nft.guarded || nft.admin_refusal(env)
                == Some(NftRefusal::ReentrantCall),
            Some(NftRefusal::UnknownToken) => !nft.owners.contains_key(loan_id)
                || nft.admin_refusal(env) == Some(NftRefusal::UnknownToken),
            Some(error) => nft.admin_refusal(env) == Some(error),
        },
{
}

/// Why `transfer` is refused: every reason that is given holds.
pub proof fn law_reason_transfer(nft: LoanNftView, env: Env, from: Address, loan_id: u64)
    ensures
        match nft.transfer_refusal(env, from, loan_id) {
            None => true,
            Some(NftRefusal::Unauthorized) => !env.authorized(from),
            Some(NftRefusal::ReentrantCall) => nft.guarded,
            Some(NftRefusal::TransferRestricted) => !nft.can_move(loan_id),
            Some(NftRefusal::UnknownTokenForLoan) => !nft.owners.contains_key(loan_id),
            Some(NftRefusal::NotOwner) => nft.owners[loan_id] != from,
            Some(_) => false,
        },
{
}

/// Why `transfer_from` is refused: every reason that is given holds.
pub proof fn law_reason_transfer_from(
    nft: LoanNftView,
    env: Env,
    spender: Address,
    from: Address,
    loan_id: u64,
)
    ensures
        match nft.transfer_from_refusal(env, spender, from, loan_id) {
            None => true,
            Some(NftRefusal::Unauthorized) => !env.authorized(spender),
            Some(NftRefusal::ReentrantCall) => nft.guarded,
            Some(NftRefusal::TransferRestricted) => !nft.can_move(loan_id),
            Some(NftRefusal::UnknownToken) => !nft.owners.contains_key(loan_id),
            Some(NftRefusal::NotOwner) => nft.owners[loan_id] != from,
            Some(NftRefusal::NotApproved) => !nft.may_spend(env.timestamp, spender, from, loan_id),
            Some(_) => false,
        },
{
}

/// Why `approve` is refused: every reason that is given holds.
pub proof fn law_reason_approve(
    nft: LoanNftView,
    env: Env,
    caller: Address,
    operator: Address,
    loan_id: u64,
)
    ensures
        match nft.approve_refusal(env, caller, operator, loan_id) {
            None => true,
            Some(NftRefusal::Unauthorized) => !env.authorized(caller),
            Some(NftRefusal::UnknownToken) => !nft.owners.contains_key(loan_id),
            Some(NftRefusal::ApproveOwner) => operator == nft.owners[loan_id],
            Some(NftRefusal::NotAuthorizedToApprove) => caller != nft.owners[loan_id]
                && !nft.is_operator(nft.owners[loan_id], caller),
            Some(_) => false,
        },
{
}

/// Why `set_approval_for_all` is refused: every reason that is given holds.
pub proof fn law_reason_approval_for_all(
    nft: LoanNftView,
    env: Env,
    caller: Address,
    operator: Address,
)
    ensures
        match nft.approval_for_all_refusal(env, caller, operator) {
            None => true,
            Some(NftRefusal::Unauthorized) => !env.authorized(caller),
            Some(NftRefusal::SelfApproval) => caller == operator,
            Some(_) => false,
        },
{
}

/// Why `set_token_uri` and `set_transferable` are refused: every reason that is given
/// holds.
pub proof fn law_reason_update(nft: LoanNftView, env: Env, loan_id: u64)
    ensures
        match nft.update_refusal(env, loan_id) {
            None => true,
            Some(NftRefusal::UnknownToken) => !nft.metadata.contains_key(loan_id)
                || nft.admin_refusal(env) == Some(NftRefusal::UnknownToken),
            Some(error) => nft.admin_refusal(env) == Some(error),
        },
{
}

/// Why a call that is open to the admin alone is refused: every reason that is given
/// holds.
pub proof fn law_reason_admin(nft: LoanNftView, env: Env)
    ensures
        match nft.admin_refusal(env) {
            None => true,
            Some(NftRefusal::NotInitialized) => nft.admin is None,
            Some(NftRefusal::Unauthorized) => nft.admin is Some && !env.authorized(nft.admin->0),
            Some(_) => false,
        },
{
}

} // verus!
