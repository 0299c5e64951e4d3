//! Administration: roles, the pause switch, linked contracts, upgrades and wrapped
//! tokens.
use vstd::prelude::*;

#[allow(unused_imports)]
use vstd::string::StringSliceAdditionalSpecFns;

use crate::access::{AccessView, Role};
use crate::host::{Address, Env};
use crate::inheritance::hashing::{
    claim_code_hash, hash_claim_code_with_salt, hash_data, hash_of, Digest, MAX_CLAIM_CODE,
    MAX_HASH_INPUT_LEN, MAX_TEXT_LEN,
};
use crate::inheritance::claims::zero_digest;
use crate::inheritance::state::{InheritanceContract, InheritanceView, CONTRACT_VERSION};
use crate::inheritance::types::{
    ContractLinkedEvent, ContractUpgradedEvent, InheritanceCall, InheritanceError,
    InheritanceEvent, InheritanceEventView, LinkedContract,
};
use crate::list::{
    append_text, lemma_push_contains, lemma_without_contains, lemma_without_distinct,
    list_contains, list_without, without,
};

verus! {

/// Version of the calls that other contracts can make, and that linked contracts must
/// offer.
pub const INTERFACE_VERSION: u32 = 1;

impl InheritanceView {
    /// The version of the contract's code.
    pub open spec fn code_version(self) -> u32 {
        match self.version {
            Some(version) => version,
            None => CONTRACT_VERSION,
        }
    }

    /// The version that was stored; zero, if none was.
    pub open spec fn stored_version(self) -> u32 {
        match self.version {
            Some(version) => version,
            None => 0,
        }
    }

    /// Why an upgrade is refused.
    pub open spec fn upgrade_error(self, admin: Address) -> Option<InheritanceError> {
        if self.admin is None {
            Some(InheritanceError::AdminNotSet)
        } else {
            self.admin_error(admin)
        }
    }

    /// What is published of an upgrade.
    pub open spec fn upgrade_event(
        self,
        now: u64,
        admin: Address,
        old_version: u32,
        new_wasm_hash: Digest,
    ) -> ContractUpgradedEvent {
        ContractUpgradedEvent {
            old_version,
            new_version: (old_version + 1) as u32,
            new_wasm_hash,
            admin,
            upgraded_at: now,
        }
    }

    /// The contract after an upgrade.
    pub open spec fn upgraded(self, now: u64, admin: Address, new_wasm_hash: Digest)
        -> InheritanceView {
        let old_version = self.code_version();
        (InheritanceView { version: Some((old_version + 1) as u32), ..self }).with_event(
            InheritanceEventView::ContractUpgraded(
                self.upgrade_event(now, admin, old_version, new_wasm_hash),
            ),
        ).with_call(InheritanceCall::UpdateWasm { new_wasm_hash })
    }

    /// The contract after its code was replaced.
    pub open spec fn code_replaced(self, now: u64, admin: Address, new_wasm_hash: Digest)
        -> InheritanceView {
        let old_version = self.stored_version();
        let called = self.with_call(InheritanceCall::UpdateWasm { new_wasm_hash });
        (InheritanceView { version: Some((old_version + 1) as u32), ..called }).with_event(
            InheritanceEventView::CodeReplaced(
                self.upgrade_event(now, admin, old_version, new_wasm_hash),
            ),
        )
    }

    /// The contract after a migration: nothing changes if it is up to date.
    pub open spec fn migrated(self) -> InheritanceView {
        if self.stored_version() >= CONTRACT_VERSION {
            self
        } else {
            InheritanceView { version: Some(CONTRACT_VERSION), ..self }
        }
    }

    /// The contract after it got its first admin.
    pub open spec fn admin_initialized(self, admin: Address) -> InheritanceView {
        InheritanceView {
            admin: Some(admin),
            interface_version: Some(INTERFACE_VERSION),
            access: self.access.assigned(admin, Role::Admin),
            ..self
        }
    }

    /// The contract after it was paused or unpaused.
    pub open spec fn with_pause(self, now: u64, paused: bool) -> InheritanceView {
        (InheritanceView { access: AccessView { paused, ..self.access }, ..self }).with_event(
            if paused {
                InheritanceEventView::Paused(now)
            } else {
                InheritanceEventView::Unpaused(now)
            },
        )
    }

    /// Why a wrapped token is not added.
    pub open spec fn add_token_error(self, token: Address) -> Option<InheritanceError> {
        if self.admin is None {
            Some(InheritanceError::AdminNotSet)
        } else if self.wrapped_tokens.contains(token) {
            Some(InheritanceError::AlreadyApproved)
        } else {
            None
        }
    }

    /// Why a wrapped token is not removed.
    pub open spec fn remove_token_error(self, token: Address) -> Option<InheritanceError> {
        if self.admin is None {
            Some(InheritanceError::AdminNotSet)
        } else if !self.wrapped_tokens.contains(token) {
            Some(InheritanceError::BeneficiaryNotFound)
        } else {
            None
        }
    }

    /// The contract after a wrapped token was added.
    pub open spec fn token_added(self, token: Address) -> InheritanceView {
        (InheritanceView { wrapped_tokens: self.wrapped_tokens.push(token), ..self }).with_event(
            InheritanceEventView::WrappedTokenAdded(token),
        )
    }

    /// The contract after a wrapped token was removed.
    pub open spec fn token_removed(self, token: Address) -> InheritanceView {
        (InheritanceView {
            wrapped_tokens: without(self.wrapped_tokens, token),
            ..self
        }).with_event(InheritanceEventView::WrappedTokenRemoved(token))
    }
}

/// An upgrade replaces the code and moves the version on; plans, claims, identification,
/// the admin and everything else on file stay as they are.
pub proof fn law_upgrade_preserves_storage(
    contract: InheritanceView,
    now: u64,
    admin: Address,
    new_wasm_hash: Digest,
)
    requires
        contract.code_version() < u32::MAX,
    ensures
        ({
            let after = contract.upgraded(now, admin, new_wasm_hash);
            &&& after.code_version() == contract.code_version() + 1
            &&& after == (InheritanceView {
                version: after.version,
                events: after.events,
                calls: after.calls,
                ..contract
            })
        }),
        ({
            let after = contract.code_replaced(now, admin, new_wasm_hash);
            after == (InheritanceView {
                version: after.version,
                events: after.events,
                calls: after.calls,
                ..contract
            })
        }),
{
}

/// Migrating is always safe: it changes nothing but the version, and a second time
/// nothing at all.
pub proof fn law_migration_is_idempotent(contract: InheritanceView)
    ensures
        contract.migrated().migrated() == contract.migrated(),
        contract.migrated() == (InheritanceView {
            version: contract.migrated().version,
            ..contract
        }),
        contract.migrated().code_version() == contract.code_version() || contract.version
            == Some(0u32),
{
}

/// The contract gets its first admin once: from then on there is one, which is why a
/// second one is refused, and it holds the admin role.
pub proof fn law_admin_is_initialized_once(contract: InheritanceView, admin: Address)
    ensures
        contract.admin_initialized(admin).admin is Some,
        contract.admin_initialized(admin).admin_error(admin) is None,
{
    crate::access::law_roles(contract.access, admin, Role::Admin, admin, Role::Admin);
}

/// A wrapped token is supported from when it is added until it is removed.
pub proof fn law_wrapped_tokens(contract: InheritanceView, token: Address, other: Address)
    ensures
        contract.token_added(token).wrapped_tokens.contains(other)
            <==> contract.wrapped_tokens.contains(other) || other == token,
        contract.token_removed(token).wrapped_tokens.contains(other)
            <==> contract.wrapped_tokens.contains(other) && other != token,
{
    lemma_push_contains(contract.wrapped_tokens, token, other);
    lemma_without_contains(contract.wrapped_tokens, token, other);
}

impl InheritanceContract {
    /// A greeting.
    pub fn hello(to: Vec<u8>) -> (greeting: Vec<Vec<u8>>)
        ensures
            greeting@.len() == 2,
            greeting@[0]@ == "Hello".spec_bytes(),
            greeting@[1] == to,
    {
        let mut hello: Vec<u8> = Vec::new();
        append_text(&mut hello, "Hello");
        proof {
            assert(hello@ =~= "Hello".spec_bytes());
        }
        let mut greeting: Vec<Vec<u8>> = Vec::new();
        greeting.push(hello);
        greeting.push(to);
        greeting
    }

    /// The hash of a text.
    pub fn hash_string(input: Vec<u8>) -> (digest: Digest)
        requires
            input@.len() <= MAX_TEXT_LEN,
        ensures
            digest == hash_of(input@),
    {
        hash_data(&input)
    }

    /// The hash of a byte string.
    pub fn hash_bytes(input: Vec<u8>) -> (digest: Digest)
        requires
            input@.len() <= MAX_HASH_INPUT_LEN,
        ensures
            digest == hash_of(input@),
    {
        hash_data(&input)
    }

    /// The hash of a claim code under a salt of zeros. A code has at most six digits.
    pub fn hash_claim_code(claim_code: u32) -> (hash: Result<Digest, InheritanceError>)
        ensures
            match hash {
                Ok(h) => claim_code <= MAX_CLAIM_CODE && h == claim_code_hash(
                    claim_code,
                    zero_digest(),
                ),
                Err(e) => claim_code > MAX_CLAIM_CODE && e
                    == InheritanceError::InvalidClaimCodeRange,
            },
    {
        hash_claim_code_with_salt(claim_code, &Digest { bytes: [0u8; 32] })
    }

    /// Pause the contract. Admin-only.
    pub fn pause(&mut self, env: &Env, admin: Address) -> (result: Result<(), InheritanceError>)
        requires
            old(self)@.well_formed(),
            env.authorized(admin),
        ensures
            match result {
                Err(e) => old(self)@.admin_error(admin) == Some(e) && final(self)@ == old(self)@,
                Ok(()) => old(self)@.admin_error(admin) is None && final(self)@ == old(
                    self,
                )@.with_pause(env.timestamp, true),
            },
            final(self)@.well_formed(),
    {
        match self.require_admin(env, admin) {
            Ok(()) => {},
            Err(e) => {
                return Err(e);
            },
        }
        self.access.paused = true;
        self.publish(InheritanceEvent::Paused(env.timestamp));
        Ok(())
    }

    /// Unpause the contract. Admin-only.
    pub fn unpause(&mut self, env: &Env, admin: Address) -> (result: Result<(), InheritanceError>)
        requires
            old(self)@.well_formed(),
            env.authorized(admin),
        ensures
            match result {
                Err(e) => old(self)@.admin_error(admin) == Some(e) && final(self)@ == old(self)@,
                Ok(()) => old(self)@.admin_error(admin) is None && final(self)@ == old(
                    self,
                )@.with_pause(env.timestamp, false),
            },
            final(self)@.well_formed(),
    {
        match self.require_admin(env, admin) {
            Ok(()) => {},
            Err(e) => {
                return Err(e);
            },
        }
        self.access.paused = false;
        self.publish(InheritanceEvent::Unpaused(env.timestamp));
        Ok(())
    }

    /// Whether the contract is paused.
    pub fn is_paused(&self) -> (paused: bool)
        ensures
            paused == self@.access.paused,
    {
        self.access.paused
    }

    /// Version of the cross-contract call surface this contract exposes; zero before
    /// the contract has an admin.
    pub fn get_version(&self) -> (version: u32)
        ensures
            version == (match self@.interface_version {
                Some(v) => v,
                None => 0,
            }),
    {
        match self.interface_version {
            Some(version) => version,
            None => 0,
        }
    }

    /// Give the contract its first admin.
    pub fn initialize_admin(&mut self, env: &Env, admin: Address) -> (result: Result<
        (),
        InheritanceError,
    >)
        requires
            old(self)@.well_formed(),
            env.authorized(admin),
        ensures
            match result {
                Err(e) => old(self)@.admin is Some && e == InheritanceError::AdminAlreadyInitialized
                    && final(self)@ == old(self)@,
                Ok(()) => old(self)@.admin is None && final(self)@ == old(self)@.admin_initialized(
                    admin,
                ),
            },
            final(self)@.well_formed(),
    {
        if self.admin.is_some() {
            return Err(InheritanceError::AdminAlreadyInitialized);
        }
        self.admin = Some(admin);
        self.interface_version = Some(INTERFACE_VERSION);
        self.access.assign_role(admin, Role::Admin);
        Ok(())
    }

    /// Assign a role to an address. Admin-only.
    pub fn assign_role(&mut self, env: &Env, admin: Address, address: Address, role: Role) -> (
    result: Result<(), InheritanceError>)
        requires
            old(self)@.well_formed(),
            env.authorized(admin),
        ensures
            match result {
                Err(e) => old(self)@.admin_error(admin) == Some(e) && final(self)@ == old(self)@,
                Ok(()) => old(self)@.admin_error(admin) is None && final(self)@
                    == (InheritanceView {
                    access: old(self)@.access.assigned(address, role),
                    ..old(self)@
                }),
            },
            final(self)@.well_formed(),
    {
        match self.require_admin(env, admin) {
            Ok(()) => {},
            Err(e) => {
                return Err(e);
            },
        }
        self.access.assign_role(address, role);
        Ok(())
    }

    /// Revoke a role from an address. Admin-only.
    pub fn revoke_role(&mut self, env: &Env, admin: Address, address: Address, role: Role) -> (
    result: Result<(), InheritanceError>)
        requires
            old(self)@.well_formed(),
            env.authorized(admin),
        ensures
            match result {
                Err(e) => old(self)@.admin_error(admin) == Some(e) && final(self)@ == old(self)@,
                Ok(()) => old(self)@.admin_error(admin) is None && final(self)@
                    == (InheritanceView {
                    access: old(self)@.access.revoked(address, role),
                    ..old(self)@
                }),
            },
            final(self)@.well_formed(),
    {
        match self.require_admin(env, admin) {
            Ok(()) => {},
            Err(e) => {
                return Err(e);
            },
        }
        self.access.revoke_role(address, role);
        Ok(())
    }

    /// Check whether an address holds a given role.
    pub fn has_role(&self, address: Address, role: Role) -> (yes: bool)
        ensures
            yes == self@.access.has(address, role),
    {
        self.access.has_role(address, role)
    }

    /// Return all roles held by an address.
    pub fn get_roles(&self, address: Address) -> (roles: Vec<Role>)
        ensures
            roles@ == self@.access.roles_of(address),
    {
        self.access.get_roles(address)
    }

    /// Link the lending contract. `peer_version` is the version that it reports, and
    /// must be the one that this contract was written against.
    pub fn set_lending_contract(
        &mut self,
        env: &Env,
        admin: Address,
        contract: Address,
        peer_version: u32,
    ) -> (result: Result<(), InheritanceError>)
        requires
            old(self)@.well_formed(),
            env.authorized(admin),
            old(self)@.admin_error(admin) is None ==> peer_version == INTERFACE_VERSION,
        ensures
            match result {
                Err(e) => old(self)@.admin_error(admin) == Some(e) && final(self)@ == old(self)@,
                Ok(()) => old(self)@.admin_error(admin) is None && final(self)@
                    == (InheritanceView {
                    lending_contract: Some(contract),
                    ..old(self)@
                }).with_event(
                    InheritanceEventView::ContractLinked(
                        ContractLinkedEvent {
                            contract_type: LinkedContract::Lending,
                            address: contract,
                        },
                    ),
                ),
            },
            final(self)@.well_formed(),
    {
        match self.require_admin(env, admin) {
            Ok(()) => {},
            Err(e) => {
                return Err(e);
            },
        }
        self.lending_contract = Some(contract);
        self.publish(
            InheritanceEvent::ContractLinked(
                ContractLinkedEvent { contract_type: LinkedContract::Lending, address: contract },
            ),
        );
        Ok(())
    }

    /// The linked lending contract.
    pub fn get_lending_contract(&self) -> (contract: Option<Address>)
        ensures
            contract == self@.lending_contract,
    {
        self.lending_contract
    }

    /// Link the governance contract. `peer_version` is the version that it reports, and
    /// must be the one that this contract was written against.
    pub fn set_governance_contract(
        &mut self,
        env: &Env,
        admin: Address,
        contract: Address,
        peer_version: u32,
    ) -> (result: Result<(), InheritanceError>)
        requires
            old(self)@.well_formed(),
            env.authorized(admin),
            old(self)@.admin_error(admin) is None ==> peer_version == INTERFACE_VERSION,
        ensures
            match result {
                Err(e) => old(self)@.admin_error(admin) == Some(e) && final(self)@ == old(self)@,
                Ok(()) => old(self)@.admin_error(admin) is None && final(self)@
                    == (InheritanceView {
                    governance_contract: Some(contract),
                    ..old(self)@
                }).with_event(
                    InheritanceEventView::ContractLinked(
                        ContractLinkedEvent {
                            contract_type: LinkedContract::Governance,
                            address: contract,
                        },
                    ),
                ),
            },
            final(self)@.well_formed(),
    {
        match self.require_admin(env, admin) {
            Ok(()) => {},
            Err(e) => {
                return Err(e);
            },
        }
        self.governance_contract = Some(contract);
        self.publish(
            InheritanceEvent::ContractLinked(
                ContractLinkedEvent {
                    contract_type: LinkedContract::Governance,
                    address: contract,
                },
            ),
        );
        Ok(())
    }

    /// The linked governance contract.
    pub fn get_governance_contract(&self) -> (contract: Option<Address>)
        ensures
            contract == self@.governance_contract,
    {
        self.governance_contract
    }

    /// Get the current contract version.
    pub fn version(&self) -> (version: u32)
        ensures
            version == self@.code_version(),
    {
        match self.version {
            Some(version) => version,
            None => CONTRACT_VERSION,
        }
    }

    fn get_stored_version(&self) -> (version: u32)
        ensures
            version == self@.stored_version(),
    {
        match self.version {
            Some(version) => version,
            None => 0,
        }
    }

    /// Upgrade the contract to a new WASM binary.
    pub fn upgrade(&mut self, env: &Env, admin: Address, new_wasm_hash: Digest) -> (result: Result<
        (),
        InheritanceError,
    >)
        requires
            old(self)@.well_formed(),
            env.authorized(admin),
            old(self)@.upgrade_error(admin) is None ==> old(self)@.code_version() < u32::MAX,
        ensures
            match result {
                Err(e) => old(self)@.upgrade_error(admin) == Some(e) && final(self)@ == old(self)@,
                Ok(()) => old(self)@.upgrade_error(admin) is None && final(self)@ == old(
                    self,
                )@.upgraded(env.timestamp, admin, new_wasm_hash),
            },
            final(self)@.well_formed(),
    {
        if self.admin.is_none() {
            return Err(InheritanceError::AdminNotSet);
        }
        match self.require_admin(env, admin) {
            Ok(()) => {},
            Err(e) => {
                return Err(e);
            },
        }
        let old_version: u32 = self.version();
        let new_version: u32 = old_version + 1;
        self.version = Some(new_version);
        self.publish(
            InheritanceEvent::ContractUpgraded(
                ContractUpgradedEvent {
                    old_version,
                    new_version,
                    new_wasm_hash,
                    admin,
                    upgraded_at: env.timestamp,
                },
            ),
        );
        self.call(InheritanceCall::UpdateWasm { new_wasm_hash });
        Ok(())
    }

    /// Post-upgrade migration hook for data schema changes. If no migration is needed
    /// nothing happens, so it is always safe to call.
    pub fn migrate(&mut self, env: &Env, admin: Address) -> (result: Result<(), InheritanceError>)
        requires
            old(self)@.well_formed(),
            env.authorized(admin),
        ensures
            match result {
                Err(e) => old(self)@.admin_error(admin) == Some(e) && final(self)@ == old(self)@,
                Ok(()) => old(self)@.admin_error(admin) is None && final(self)@ == old(
                    self,
                )@.migrated(),
            },
            final(self)@.well_formed(),
    {
        match self.require_admin(env, admin) {
            Ok(()) => {},
            Err(e) => {
                return Err(e);
            },
        }
        if self.get_stored_version() >= CONTRACT_VERSION {
            return Ok(());
        }
        self.version = Some(CONTRACT_VERSION);
        Ok(())
    }

    /// Replace the code of the contract.
    pub fn upgrade_contract(&mut self, env: &Env, admin: Address, new_wasm_hash: Digest) -> (result:
        Result<(), InheritanceError>)
        requires
            old(self)@.well_formed(),
            env.authorized(admin),
            old(self)@.admin_error(admin) is None ==> old(self)@.stored_version() < u32::MAX,
        ensures
            match result {
                Err(e) => old(self)@.admin_error(admin) == Some(e) && final(self)@ == old(self)@,
                Ok(()) => old(self)@.admin_error(admin) is None && final(self)@ == old(
                    self,
                )@.code_replaced(env.timestamp, admin, new_wasm_hash),
            },
            final(self)@.well_formed(),
    {
        match self.require_admin(env, admin) {
            Ok(()) => {},
            Err(e) => {
                return Err(e);
            },
        }
        self.call(InheritanceCall::UpdateWasm { new_wasm_hash });
        let old_version: u32 = self.get_stored_version();
        let new_version: u32 = old_version + 1;
        self.version = Some(new_version);
        self.publish(
            InheritanceEvent::CodeReplaced(
                ContractUpgradedEvent {
                    old_version,
                    new_version,
                    new_wasm_hash,
                    admin,
                    upgraded_at: env.timestamp,
                },
            ),
        );
        Ok(())
    }

    /// Support a wrapped token. The admin must have authorised the call.
    pub fn add_supported_wrapped_token(&mut self, env: &Env, token: Address) -> (result: Result<
        (),
        InheritanceError,
    >)
        requires
            old(self)@.well_formed(),
            old(self)@.admin matches Some(admin) ==> env.authorized(admin),
        ensures
            match result {
                Err(e) => old(self)@.add_token_error(token) == Some(e) && final(self)@ == old(
                    self,
                )@,
                Ok(()) => old(self)@.add_token_error(token) is None && final(self)@ == old(
                    self,
                )@.token_added(token),
            },
            final(self)@.well_formed(),
    {
        if self.admin.is_none() {
            return Err(InheritanceError::AdminNotSet);
        }
        if list_contains(&self.wrapped_tokens, &token) {
            return Err(InheritanceError::AlreadyApproved);
        }
        self.wrapped_tokens.push(token);
        self.publish(InheritanceEvent::WrappedTokenAdded(token));
        Ok(())
    }

    /// Support a wrapped token no longer. The admin must have authorised the call.
    pub fn remove_wrapped_token(&mut self, env: &Env, token: Address) -> (result: Result<
        (),
        InheritanceError,
    >)
        requires
            old(self)@.well_formed(),
            old(self)@.admin matches Some(admin) ==> env.authorized(admin),
        ensures
            match result {
                Err(e) => old(self)@.remove_token_error(token) == Some(e) && final(self)@ == old(
                    self,
                )@,
                Ok(()) => old(self)@.remove_token_error(token) is None && final(self)@ == old(
                    self,
                )@.token_removed(token),
            },
            final(self)@.well_formed(),
    {
        if self.admin.is_none() {
            return Err(InheritanceError::AdminNotSet);
        }
        if !list_contains(&self.wrapped_tokens, &token) {
            return Err(InheritanceError::BeneficiaryNotFound);
        }
        proof {
            lemma_without_distinct(self@.wrapped_tokens, token);
        }
        self.wrapped_tokens = list_without(&self.wrapped_tokens, &token);
        self.publish(InheritanceEvent::WrappedTokenRemoved(token));
        Ok(())
    }

    /// Whether the wrapped token is supported.
    pub fn is_wrapped_token_supported(&self, token: Address) -> (yes: bool)
        ensures
            yes == self@.wrapped_tokens.contains(token),
    {
        list_contains(&self.wrapped_tokens, &token)
    }

    /// The wrapped tokens that are supported.
    pub fn get_wrapped_tokens(&self) -> (tokens: Vec<Address>)
        ensures
            tokens@ == self@.wrapped_tokens,
    {
        self.wrapped_tokens.clone()
    }
}

/// An upgrade is for admins, once there is an admin. It raises the version by one,
/// where a contract that was never upgraded counts as version one, asks the ledger for
/// the new code, and is announced with both versions. Replacing the code counts from
/// zero where nothing was stored.
pub proof fn law_upgrading(
    contract: InheritanceView,
    now: u64,
    admin: Address,
    new_wasm_hash: Digest,
)
    requires
        contract.version matches Some(version) ==> version < 0xffff_ffff,
    ensures
        contract.upgrade_error(admin) is None <==> contract.admin is Some && contract.access.has(
            admin,
            Role::Admin,
        ),
        contract.admin_error(admin) is None <==> contract.access.has(admin, Role::Admin),
        ({
            let old_version = match contract.version {
                Some(version) => version,
                None => 1,
            };
            let new_version = (old_version + 1) as u32;
            contract.upgraded(now, admin, new_wasm_hash) == (InheritanceView {
                version: Some(new_version),
                events: contract.events.push(
                    InheritanceEventView::ContractUpgraded(
                        ContractUpgradedEvent {
                            old_version,
                            new_version,
                            new_wasm_hash,
                            admin,
                            upgraded_at: now,
                        },
                    ),
                ),
                calls: contract.calls.push(InheritanceCall::UpdateWasm { new_wasm_hash }),
                ..contract
            })
        }),
        ({
            let old_version = match contract.version {
                Some(version) => version,
                None => 0,
            };
            let new_version = (old_version + 1) as u32;
            contract.code_replaced(now, admin, new_wasm_hash) == (InheritanceView {
                version: Some(new_version),
                events: contract.events.push(
                    InheritanceEventView::CodeReplaced(
                        ContractUpgradedEvent {
                            old_version,
                            new_version,
                            new_wasm_hash,
                            admin,
                            upgraded_at: now,
                        },
                    ),
                ),
                calls: contract.calls.push(InheritanceCall::UpdateWasm { new_wasm_hash }),
                ..contract
            })
        }),
{
}

/// A migration brings the stored version to one where it was below; the first admin is
/// on record, holds the role, and the interface has version one. All else stays.
pub proof fn law_migrating_and_initializing(contract: InheritanceView, admin: Address)
    ensures
        contract.version matches Some(version) && version >= 1 ==> contract.migrated() == contract,
        !(contract.version matches Some(version) && version >= 1) ==> contract.migrated() == (
        InheritanceView { version: Some(1), ..contract }),
        contract.admin_initialized(admin) == (InheritanceView {
            admin: Some(admin),
            interface_version: Some(1),
            access: contract.access.assigned(admin, Role::Admin),
            ..contract
        }),
{
}

/// Pausing and unpausing change the switch and nothing else, and are announced with the
/// time.
pub proof fn law_pausing(contract: InheritanceView, now: u64)
    ensures
        contract.with_pause(now, true) == (InheritanceView {
            access: AccessView { paused: true, ..contract.access },
            events: contract.events.push(InheritanceEventView::Paused(now)),
            ..contract
        }),
        contract.with_pause(now, false) == (InheritanceView {
            access: AccessView { paused: false, ..contract.access },
            events: contract.events.push(InheritanceEventView::Unpaused(now)),
            ..contract
        }),
        contract.open_for_calls() <==> !contract.access.paused && !contract.access.entered,
        !contract.with_pause(now, true).open_for_calls(),
{
}

/// A wrapped token is added once, and removed while it is supported, after there is an
/// admin; each is announced, and changes nothing but the list.
pub proof fn law_wrapping(contract: InheritanceView, token: Address)
    ensures
        contract.add_token_error(token) is None <==> contract.admin is Some
            && !contract.wrapped_tokens.contains(token),
        contract.remove_token_error(token) is None <==> contract.admin is Some
            && contract.wrapped_tokens.contains(token),
        contract.token_added(token) == (InheritanceView {
            wrapped_tokens: contract.wrapped_tokens.push(token),
            events: contract.events.push(InheritanceEventView::WrappedTokenAdded(token)),
            ..contract
        }),
        contract.token_removed(token) == (InheritanceView {
            wrapped_tokens: contract.token_removed(token).wrapped_tokens,
            events: contract.events.push(InheritanceEventView::WrappedTokenRemoved(token)),
            ..contract
        }),
{
}

/// Contracts that are linked offer version one of the interface.
pub proof fn law_limits()
    ensures
        INTERFACE_VERSION == 1,
{
}

/// Why an upgrade is refused: every reason that is given holds.
pub proof fn law_reason_upgrade(contract: InheritanceView, admin: Address)
    ensures
        match contract.upgrade_error(admin) {
            None => true,
            Some(InheritanceError::AdminNotSet) => contract.admin is None,
            Some(error) => contract.admin_error(admin) == Some(error),
        },
{
}

/// Why a wrapped token is not added: every reason that is given holds.
pub proof fn law_reason_add_token(contract: InheritanceView, token: Address)
    ensures
        match contract.add_token_error(token) {
            None => true,
            Some(InheritanceError::AdminNotSet) => contract.admin is None,
            Some(InheritanceError::AlreadyApproved) => contract.wrapped_tokens.contains(token),
            Some(_) => false,
        },
{
}

/// Why a wrapped token is not removed: every reason that is given holds.
pub proof fn law_reason_remove_token(contract: InheritanceView, token: Address)
    ensures
        match contract.remove_token_error(token) {
            None => true,
            Some(InheritanceError::AdminNotSet) => contract.admin is None,
            Some(InheritanceError::BeneficiaryNotFound) => !contract.wrapped_tokens.contains(token),
            Some(_) => false,
        },
{
}

} // verus!
