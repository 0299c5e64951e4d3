//! Settings, links to other contracts, and reads.
use vstd::prelude::*;

use crate::access::{AccessView, Role};
use crate::host::{Address, Env};
use crate::lending::pools::liquidity;
use crate::lending::state::{lemma_pool_update, LendingContract, LendingView};
use crate::lending::types::{
    ContractLinkedEvent, ContractUpgradedEvent, LendingCall, LendingCallView, LendingError,
    LendingEvent, LendingEventView, LinkedContract, LoanRecord, PoolState, RateModel,
    RateModelUpdatedEvent,
};
use crate::list::{list_contains, list_without, without};

verus! {

impl LendingView {
    /// Why the first pool cannot be read: the contract has no admin yet.
    pub open spec fn initialized_error(self) -> Option<LendingError> {
        if self.admin is None {
            Some(LendingError::NotInitialized)
        } else {
            None
        }
    }

    /// Why an admin call on one asset's pool is refused.
    pub open spec fn pool_admin_error(self, admin: Address, asset: Address) -> Option<
        LendingError,
    > {
        if self.admin_error(admin) is Some {
            self.admin_error(admin)
        } else {
            self.pool_error(asset)
        }
    }

    /// Why a rate model is refused.
    pub open spec fn rate_model_error(
        self,
        admin: Address,
        optimal_utilization_bps: u32,
        reserve_factor_bps: u32,
    ) -> Option<LendingError> {
        if self.admin_error(admin) is Some {
            self.admin_error(admin)
        } else if optimal_utilization_bps == 0 || optimal_utilization_bps >= 10_000
            || reserve_factor_bps >= 10_000 {
            Some(LendingError::InvalidRateModel)
        } else {
            None
        }
    }

    /// Why an upgrade is refused.
    pub open spec fn upgrade_error(self, admin: Address) -> Option<LendingError> {
        if self.admin is None {
            Some(LendingError::NotInitialized)
        } else {
            self.admin_error(admin)
        }
    }

    /// The contract after an upgrade.
    pub open spec fn upgraded(self, now: u64, admin: Address, new_wasm_hash: [u8; 32])
        -> LendingView {
        let new_version = (self.version + 1) as u32;
        (LendingView { version: new_version, ..self }).with_event(
            LendingEventView::ContractUpgraded(
                ContractUpgradedEvent {
                    old_version: self.version,
                    new_version,
                    new_wasm_hash,
                    admin,
                    upgraded_at: now,
                },
            ),
        ).with_call(LendingCallView::UpdateWasm { new_wasm_hash })
    }
}

/// An upgrade replaces the code and moves the version on by one; pools, shares,
/// loans, insurance, stakes and roles stay as they are.
pub proof fn law_upgrade_preserves_storage(
    lending: LendingView,
    now: u64,
    admin: Address,
    new_wasm_hash: [u8; 32],
)
    requires
        lending.version < u32::MAX,
    ensures
        ({
            let after = lending.upgraded(now, admin, new_wasm_hash);
            &&& after.version == lending.version + 1
            &&& after == (LendingView {
                version: after.version,
                events: after.events,
                calls: after.calls,
                ..lending
            })
        }),
{
}

impl LendingContract {
    /// Assign a role to an address. Admin-only.
    pub fn assign_role(&mut self, env: &Env, admin: Address, address: Address, role: Role) -> (
    result: Result<(), LendingError>)
        requires
            old(self)@.well_formed(),
            env.authorized(admin),
        ensures
            match result {
                Err(e) => old(self)@.admin_error(admin) == Some(e) && final(self)@ == old(self)@,
                Ok(()) => old(self)@.admin_error(admin) is None && final(self)@ == (LendingView {
                    access: old(self)@.access.assigned(address, role),
                    ..old(self)@
                }),
            },
            final(self)@.well_formed(),
    {
        match self.require_admin(env, admin) {
            Err(e) => {
                return Err(e);
            },
            Ok(()) => {},
        }
        proof {
            assert(!Seq::<Role>::empty().contains(Role::Admin));
        }
        self.access.assign_role(address, role);
        Ok(())
    }

    /// Revoke a role from an address. Admin-only.
    pub fn revoke_role(&mut self, env: &Env, admin: Address, address: Address, role: Role) -> (
    result: Result<(), LendingError>)
        requires
            old(self)@.well_formed(),
            env.authorized(admin),
        ensures
            match result {
                Err(e) => old(self)@.admin_error(admin) == Some(e) && final(self)@ == old(self)@,
                Ok(()) => old(self)@.admin_error(admin) is None && final(self)@ == (LendingView {
                    access: old(self)@.access.revoked(address, role),
                    ..old(self)@
                }),
            },
            final(self)@.well_formed(),
    {
        match self.require_admin(env, admin) {
            Err(e) => {
                return Err(e);
            },
            Ok(()) => {},
        }
        proof {
            assert(!Seq::<Role>::empty().contains(Role::Admin));
        }
        self.access.revoke_role(address, role);
        Ok(())
    }

    /// Check whether an address holds a given role.
    pub fn has_role(&self, address: Address, role: Role) -> (yes: bool)
        ensures
            yes == self@.access.has(address, role),
    {
        self.access.has_role(address, role)
    }

    /// Return all roles held by an address.
    pub fn get_roles(&self, address: Address) -> (roles: Vec<Role>)
        ensures
            roles@ == self@.access.roles_of(address),
    {
        self.access.get_roles(address)
    }

    /// The admin that the contract was initialized with.
    pub fn get_admin(&self) -> (admin: Option<Address>)
        ensures
            admin == self@.admin,
    {
        self.admin
    }

    /// Stops guarded calls until the contract is unpaused.
    pub fn pause(&mut self, env: &Env, admin: Address) -> (result: Result<(), LendingError>)
        requires
            old(self)@.well_formed(),
            env.authorized(admin),
        ensures
            match result {
                Err(e) => old(self)@.admin_error(admin) == Some(e) && final(self)@ == old(self)@,
                Ok(()) => old(self)@.admin_error(admin) is None && final(self)@ == (LendingView {
                    access: AccessView { paused: true, ..old(self)@.access },
                    ..old(self)@
                }),
            },
            final(self)@.well_formed(),
    {
        match self.require_admin(env, admin) {
            Err(e) => {
                return Err(e);
            },
            Ok(()) => {},
        }
        self.access.paused = true;
        Ok(())
    }

    /// Lets guarded calls in again.
    pub fn unpause(&mut self, env: &Env, admin: Address) -> (result: Result<(), LendingError>)
        requires
            old(self)@.well_formed(),
            env.authorized(admin),
        ensures
            match result {
                Err(e) => old(self)@.admin_error(admin) == Some(e) && final(self)@ == old(self)@,
                Ok(()) => old(self)@.admin_error(admin) is None && final(self)@ == (LendingView {
                    access: AccessView { paused: false, ..old(self)@.access },
                    ..old(self)@
                }),
            },
            final(self)@.well_formed(),
    {
        match self.require_admin(env, admin) {
            Err(e) => {
                return Err(e);
            },
            Ok(()) => {},
        }
        self.access.paused = false;
        Ok(())
    }

    /// Whether the contract is paused.
    pub fn is_paused(&self) -> (paused: bool)
        ensures
            paused == self@.access.paused,
    {
        self.access.paused
    }

    /// Pause or unpause a specific asset pool.
    pub fn pause_asset_pool(&mut self, env: &Env, admin: Address, asset: Address, paused: bool) -> (
    result: Result<(), LendingError>)
        requires
            old(self)@.well_formed(),
            env.authorized(admin),
        ensures
            match result {
                Err(e) => old(self)@.pool_admin_error(admin, asset) == Some(e) && final(self)@
                    == old(self)@,
                Ok(()) => old(self)@.pool_admin_error(admin, asset) is None && final(self)@
                    == old(self)@.with_pool(
                    asset,
                    PoolState { is_paused: paused, ..old(self)@.pools[asset] },
                ),
            },
            final(self)@.well_formed(),
    {
        match self.require_admin(env, admin) {
            Err(e) => {
                return Err(e);
            },
            Ok(()) => {},
        }
        let pool = match self.get_pool(asset) {
            Ok(pool) => pool,
            Err(e) => {
                return Err(e);
            },
        };
        let updated = PoolState { is_paused: paused, ..pool };
        proof {
            lemma_pool_update(self@, asset, updated);
        }
        self.set_pool(asset, updated);
        Ok(())
    }

    /// Set the grace period for loans (admin only)
    /// Grace period is the time after due date during which no late fees accrue
    pub fn set_grace_period(
        &mut self,
        env: &Env,
        admin: Address,
        asset: Address,
        grace_period_seconds: u64,
    ) -> (result: Result<(), LendingError>)
        requires
            old(self)@.well_formed(),
            env.authorized(admin),
        ensures
            match result {
                Err(e) => old(self)@.pool_admin_error(admin, asset) == Some(e) && final(self)@
                    == old(self)@,
                Ok(()) => old(self)@.pool_admin_error(admin, asset) is None && final(self)@
                    == old(self)@.with_pool(
                    asset,
                    PoolState { grace_period_seconds, ..old(self)@.pools[asset] },
                ),
            },
            final(self)@.well_formed(),
    {
        match self.require_admin(env, admin) {
            Err(e) => {
                return Err(e);
            },
            Ok(()) => {},
        }
        let pool = match self.get_pool(asset) {
            Ok(pool) => pool,
            Err(e) => {
                return Err(e);
            },
        };
        let updated = PoolState { grace_period_seconds, ..pool };
        proof {
            lemma_pool_update(self@, asset, updated);
        }
        self.set_pool(asset, updated);
        Ok(())
    }

    /// Set the late fee rate for loans (admin only)
    /// Late fee rate is in basis points per day (e.g., 500 = 5% per day)
    pub fn set_late_fee_rate(
        &mut self,
        env: &Env,
        admin: Address,
        asset: Address,
        late_fee_rate_bps: u32,
    ) -> (result: Result<(), LendingError>)
        requires
            old(self)@.well_formed(),
            env.authorized(admin),
        ensures
            match result {
                Err(e) => old(self)@.pool_admin_error(admin, asset) == Some(e) && final(self)@
                    == old(self)@,
                Ok(()) => old(self)@.pool_admin_error(admin, asset) is None && final(self)@
                    == old(self)@.with_pool(
                    asset,
                    PoolState { late_fee_rate_bps, ..old(self)@.pools[asset] },
                ),
            },
            final(self)@.well_formed(),
    {
        match self.require_admin(env, admin) {
            Err(e) => {
                return Err(e);
            },
            Ok(()) => {},
        }
        let pool = match self.get_pool(asset) {
            Ok(pool) => pool,
            Err(e) => {
                return Err(e);
            },
        };
        let updated = PoolState { late_fee_rate_bps, ..pool };
        proof {
            lemma_pool_update(self@, asset, updated);
        }
        self.set_pool(asset, updated);
        Ok(())
    }

    /// Whitelist a collateral token (admin only)
    pub fn whitelist_collateral(&mut self, env: &Env, admin: Address, token: Address) -> (result:
        Result<(), LendingError>)
        requires
            old(self)@.well_formed(),
            env.authorized(admin),
        ensures
            match result {
                Err(e) => old(self)@.admin_error(admin) == Some(e) && final(self)@ == old(self)@,
                Ok(()) => old(self)@.admin_error(admin) is None && final(self)@ == (LendingView {
                    whitelisted_collateral: old(self)@.whitelisted_collateral.insert(token, true),
                    ..old(self)@
                }),
            },
            final(self)@.well_formed(),
    {
        match self.require_admin(env, admin) {
            Err(e) => {
                return Err(e);
            },
            Ok(()) => {},
        }
        self.whitelisted_collateral.set(token, true);
        Ok(())
    }

    /// Remove a collateral token from whitelist (admin only)
    pub fn remove_collateral(&mut self, env: &Env, admin: Address, token: Address) -> (result:
        Result<(), LendingError>)
        requires
            old(self)@.well_formed(),
            env.authorized(admin),
        ensures
            match result {
                Err(e) => old(self)@.admin_error(admin) == Some(e) && final(self)@ == old(self)@,
                Ok(()) => old(self)@.admin_error(admin) is None && final(self)@ == (LendingView {
                    whitelisted_collateral: old(self)@.whitelisted_collateral.remove(token),
                    ..old(self)@
                }),
            },
            final(self)@.well_formed(),
    {
        match self.require_admin(env, admin) {
            Err(e) => {
                return Err(e);
            },
            Ok(()) => {},
        }
        self.whitelisted_collateral.remove(token);
        Ok(())
    }

    /// Set the flash loan fee in basis points (admin only)
    pub fn set_flash_loan_fee(&mut self, env: &Env, admin: Address, fee_bps: u32) -> (result:
        Result<(), LendingError>)
        requires
            old(self)@.well_formed(),
            env.authorized(admin),
        ensures
            match result {
                Err(e) => old(self)@.admin_error(admin) == Some(e) && final(self)@ == old(self)@,
                Ok(()) => old(self)@.admin_error(admin) is None && final(self)@ == (LendingView {
                    flash_loan_fee_bps: fee_bps,
                    ..old(self)@
                }),
            },
            final(self)@.well_formed(),
    {
        match self.require_admin(env, admin) {
            Err(e) => {
                return Err(e);
            },
            Ok(()) => {},
        }
        self.flash_loan_fee_bps = fee_bps;
        Ok(())
    }

    /// Register a contract address as an approved flash loan receiver (admin only).
    /// Only whitelisted receivers may be passed to `flash_loan`.
    pub fn whitelist_flash_loan_receiver(
        &mut self,
        env: &Env,
        admin: Address,
        receiver: Address,
    ) -> (result: Result<(), LendingError>)
        requires
            old(self)@.well_formed(),
            env.authorized(admin),
        ensures
            match result {
                Err(e) => old(self)@.admin_error(admin) == Some(e) && final(self)@ == old(self)@,
                Ok(()) => old(self)@.admin_error(admin) is None && final(self)@ == (LendingView {
                    whitelisted_flash_receivers: old(self)@.whitelisted_flash_receivers.insert(
                        receiver,
                        true,
                    ),
                    ..old(self)@
                }),
            },
            final(self)@.well_formed(),
    {
        match self.require_admin(env, admin) {
            Err(e) => {
                return Err(e);
            },
            Ok(()) => {},
        }
        self.whitelisted_flash_receivers.set(receiver, true);
        Ok(())
    }

    /// Remove a contract address from the flash loan receiver whitelist (admin only).
    pub fn remove_flash_loan_receiver(
        &mut self,
        env: &Env,
        admin: Address,
        receiver: Address,
    ) -> (result: Result<(), LendingError>)
        requires
            old(self)@.well_formed(),
            env.authorized(admin),
        ensures
            match result {
                Err(e) => old(self)@.admin_error(admin) == Some(e) && final(self)@ == old(self)@,
                Ok(()) => old(self)@.admin_error(admin) is None && final(self)@ == (LendingView {
                    whitelisted_flash_receivers: old(self)@.whitelisted_flash_receivers.remove(
                        receiver,
                    ),
                    ..old(self)@
                }),
            },
            final(self)@.well_formed(),
    {
        match self.require_admin(env, admin) {
            Err(e) => {
                return Err(e);
            },
            Ok(()) => {},
        }
        self.whitelisted_flash_receivers.remove(receiver);
        Ok(())
    }

    /// Set the contract that issues loan tokens (admin only)
    pub fn set_nft_token(&mut self, env: &Env, admin: Address, nft_token: Address) -> (result:
        Result<(), LendingError>)
        requires
            old(self)@.well_formed(),
            env.authorized(admin),
        ensures
            match result {
                Err(e) => old(self)@.admin_error(admin) == Some(e) && final(self)@ == old(self)@,
                Ok(()) => old(self)@.admin_error(admin) is None && final(self)@ == (LendingView {
                    nft_token: Some(nft_token),
                    ..old(self)@
                }),
            },
            final(self)@.well_formed(),
    {
        match self.require_admin(env, admin) {
            Err(e) => {
                return Err(e);
            },
            Ok(()) => {},
        }
        self.nft_token = Some(nft_token);
        Ok(())
    }

    /// Link the inheritance contract (admin only)
    pub fn set_inheritance_contract(&mut self, env: &Env, admin: Address, contract: Address) -> (
    result: Result<(), LendingError>)
        requires
            old(self)@.well_formed(),
            env.authorized(admin),
        ensures
            match result {
                Err(e) => old(self)@.admin_error(admin) == Some(e) && final(self)@ == old(self)@,
                Ok(()) => old(self)@.admin_error(admin) is None && final(self)@ == (LendingView {
                    inheritance_contract: Some(contract),
                    ..old(self)@
                }).with_event(
                    LendingEventView::ContractLinked(
                        ContractLinkedEvent {
                            contract_type: LinkedContract::Inheritance,
                            address: contract,
                        },
                    ),
                ),
            },
            final(self)@.well_formed(),
    {
        match self.require_admin(env, admin) {
            Err(e) => {
                return Err(e);
            },
            Ok(()) => {},
        }
        self.inheritance_contract = Some(contract);
        self.publish(
            LendingEvent::ContractLinked(
                ContractLinkedEvent {
                    contract_type: LinkedContract::Inheritance,
                    address: contract,
                },
            ),
        );
        Ok(())
    }

    /// The linked inheritance contract, if any.
    pub fn get_inheritance_contract(&self) -> (contract: Option<Address>)
        ensures
            contract == self@.inheritance_contract,
    {
        self.inheritance_contract
    }

    /// Link the governance contract (admin only)
    pub fn set_governance_contract(&mut self, env: &Env, admin: Address, contract: Address) -> (
    result: Result<(), LendingError>)
        requires
            old(self)@.well_formed(),
            env.authorized(admin),
        ensures
            match result {
                Err(e) => old(self)@.admin_error(admin) == Some(e) && final(self)@ == old(self)@,
                Ok(()) => old(self)@.admin_error(admin) is None && final(self)@ == (LendingView {
                    governance_contract: Some(contract),
                    ..old(self)@
                }).with_event(
                    LendingEventView::ContractLinked(
                        ContractLinkedEvent {
                            contract_type: LinkedContract::Governance,
                            address: contract,
                        },
                    ),
                ),
            },
            final(self)@.well_formed(),
    {
        match self.require_admin(env, admin) {
            Err(e) => {
                return Err(e);
            },
            Ok(()) => {},
        }
        self.governance_contract = Some(contract);
        self.publish(
            LendingEvent::ContractLinked(
                ContractLinkedEvent {
                    contract_type: LinkedContract::Governance,
                    address: contract,
                },
            ),
        );
        Ok(())
    }

    /// The linked governance contract, if any.
    pub fn get_governance_contract(&self) -> (contract: Option<Address>)
        ensures
            contract == self@.governance_contract,
    {
        self.governance_contract
    }

    /// What is asked of the linked inheritance contract about a plan: the
    /// contract, the plan and the supposed owner; nothing if none is linked.
    pub fn plan_ownership_query(&self, plan_id: u64, caller: Address) -> (query: Option<
        (Address, u64, Address),
    >)
        ensures
            query == (match self@.inheritance_contract {
                Some(contract) => Some((contract, plan_id, caller)),
                None => None,
            }),
    {
        match self.inheritance_contract {
            Some(contract) => Some((contract, plan_id, caller)),
            None => None,
        }
    }

    /// Whether `caller` owns the plan. `answer` is what the linked inheritance
    /// contract answered to [`Self::plan_ownership_query`]; without a linked
    /// contract nobody owns a plan.
    pub fn verify_plan_ownership(&self, plan_id: u64, caller: Address, answer: bool) -> (owned:
        bool)
        ensures
            owned == (self@.inheritance_contract is Some && answer),
    {
        self.plan_ownership_query(plan_id, caller).is_some() && answer
    }

    /// Update the interest rate model parameters. Admin only.
    pub fn set_rate_model(
        &mut self,
        env: &Env,
        admin: Address,
        base_rate_bps: u32,
        optimal_utilization_bps: u32,
        slope1_bps: u32,
        slope2_bps: u32,
        reserve_factor_bps: u32,
    ) -> (result: Result<(), LendingError>)
        requires
            old(self)@.well_formed(),
            env.authorized(admin),
        ensures
            ({
                let error = old(self)@.rate_model_error(
                    admin,
                    optimal_utilization_bps,
                    reserve_factor_bps,
                );
                match result {
                    Err(e) => error == Some(e) && final(self)@ == old(self)@,
                    Ok(()) => error is None && final(self)@ == (LendingView {
                        rate_model: Some(
                            RateModel {
                                base_rate_bps,
                                optimal_utilization_bps,
                                slope1_bps,
                                slope2_bps,
                                reserve_factor_bps,
                            },
                        ),
                        ..old(self)@
                    }).with_event(
                        LendingEventView::RateModelUpdated(
                            RateModelUpdatedEvent {
                                base_rate_bps,
                                optimal_utilization_bps,
                                slope1_bps,
                                slope2_bps,
                                reserve_factor_bps,
                                updated_by: admin,
                                timestamp: env.timestamp,
                            },
                        ),
                    ),
                }
            }),
            final(self)@.well_formed(),
    {
        match self.require_admin(env, admin) {
            Err(e) => {
                return Err(e);
            },
            Ok(()) => {},
        }
        if optimal_utilization_bps == 0 || optimal_utilization_bps >= 10_000 {
            return Err(LendingError::InvalidRateModel);
        }
        if reserve_factor_bps >= 10_000 {
            return Err(LendingError::InvalidRateModel);
        }
        self.rate_model = Some(
            RateModel {
                base_rate_bps,
                optimal_utilization_bps,
                slope1_bps,
                slope2_bps,
                reserve_factor_bps,
            },
        );
        self.publish(
            LendingEvent::RateModelUpdated(
                RateModelUpdatedEvent {
                    base_rate_bps,
                    optimal_utilization_bps,
                    slope1_bps,
                    slope2_bps,
                    reserve_factor_bps,
                    updated_by: admin,
                    timestamp: env.timestamp,
                },
            ),
        );
        Ok(())
    }

    /// The pool of the first asset.
    fn first_pool(&self) -> (pool: Result<PoolState, LendingError>)
        requires
            self@.well_formed(),
        ensures
            match pool {
                Ok(p) => self@.admin is Some && p == self@.first_pool(),
                Err(e) => self@.initialized_error() == Some(e),
            },
    {
        match self.token {
            Some(token) => self.get_pool(token),
            None => Err(LendingError::NotInitialized),
        }
    }

    /// Get the base interest rate from the rate model, falling back to pool state.
    pub fn get_base_rate(&self) -> (result: Result<u32, LendingError>)
        requires
            self@.well_formed(),
        ensures
            match result {
                Ok(rate) => self@.admin is Some && rate == (match self@.rate_model {
                    Some(model) => model.base_rate_bps,
                    None => self@.first_pool().base_rate_bps,
                }),
                Err(e) => self@.initialized_error() == Some(e),
            },
    {
        match self.first_pool() {
            Ok(pool) => match &self.rate_model {
                Some(model) => Ok(model.base_rate_bps),
                None => Ok(pool.base_rate_bps),
            },
            Err(e) => Err(e),
        }
    }

    /// Get the optimal (target) utilization rate from the rate model; the first
    /// pool's utilization cap if there is no model.
    pub fn get_optimal_utilization(&self) -> (result: Result<u32, LendingError>)
        requires
            self@.well_formed(),
        ensures
            match result {
                Ok(rate) => self@.admin is Some && rate == (match self@.rate_model {
                    Some(model) => model.optimal_utilization_bps,
                    None => self@.first_pool().utilization_cap_bps,
                }),
                Err(e) => self@.initialized_error() == Some(e),
            },
    {
        match self.first_pool() {
            Ok(pool) => match &self.rate_model {
                Some(model) => Ok(model.optimal_utilization_bps),
                None => Ok(pool.utilization_cap_bps),
            },
            Err(e) => Err(e),
        }
    }

    /// Get slope1 — the rate increase per unit utilization before optimal utilization;
    /// the first pool's multiplier if there is no model.
    pub fn get_slope1(&self) -> (result: Result<u32, LendingError>)
        requires
            self@.well_formed(),
        ensures
            match result {
                Ok(rate) => self@.admin is Some && rate == (match self@.rate_model {
                    Some(model) => model.slope1_bps,
                    None => self@.first_pool().multiplier_bps,
                }),
                Err(e) => self@.initialized_error() == Some(e),
            },
    {
        match self.first_pool() {
            Ok(pool) => match &self.rate_model {
                Some(model) => Ok(model.slope1_bps),
                None => Ok(pool.multiplier_bps),
            },
            Err(e) => Err(e),
        }
    }

    /// Get slope2 — the steep rate increase per unit utilization above optimal utilization;
    /// ten times the first pool's multiplier if there is no model.
    pub fn get_slope2(&self) -> (result: Result<u32, LendingError>)
        requires
            self@.well_formed(),
        ensures
            match result {
                Ok(rate) => self@.admin is Some && rate == (match self@.rate_model {
                    Some(model) => model.slope2_bps as int,
                    None => if self@.first_pool().multiplier_bps * 10 <= u32::MAX {
                        self@.first_pool().multiplier_bps * 10
                    } else {
                        u32::MAX as int
                    },
                }),
                Err(e) => self@.initialized_error() == Some(e),
            },
    {
        match self.first_pool() {
            Ok(pool) => match &self.rate_model {
                Some(model) => Ok(model.slope2_bps),
                None => match pool.multiplier_bps.checked_mul(10) {
                    Some(slope) => Ok(slope),
                    None => Ok(u32::MAX),
                },
            },
            Err(e) => Err(e),
        }
    }

    /// Get the current borrow rate using the two-slope model if configured,
    /// or the linear model otherwise.
    pub fn get_borrow_rate(&self) -> (result: Result<u32, LendingError>)
        requires
            self@.well_formed(),
        ensures
            match result {
                Ok(rate) => self@.admin is Some && rate == self@.borrow_rate_at(
                    self@.first_pool(),
                    crate::lending::rates::utilization(
                        self@.first_pool().total_borrowed,
                        self@.first_pool().total_deposits,
                    ),
                ),
                Err(e) => self@.initialized_error() == Some(e),
            },
    {
        match self.first_pool() {
            Ok(pool) => {
                let utilization_bps: u32 = Self::get_utilization_bps(
                    pool.total_borrowed,
                    pool.total_deposits,
                );
                Ok(self.borrow_rate_at(&pool, utilization_bps))
            },
            Err(e) => Err(e),
        }
    }

    /// Get the current supply (deposit) rate.
    /// supply_rate = borrow_rate × utilization × (1 − reserve_factor)
    pub fn get_supply_rate(&self) -> (result: Result<u32, LendingError>)
        requires
            self@.well_formed(),
        ensures
            match result {
                Ok(rate) => self@.admin is Some && rate == self@.pool_supply_rate(
                    self@.first_pool(),
                ),
                Err(e) => self@.initialized_error() == Some(e),
            },
    {
        match self.first_pool() {
            Ok(pool) => Ok(self.pool_supply_rate(&pool)),
            Err(e) => Err(e),
        }
    }

    /// Simulate the borrow rate at an arbitrary utilization level (in basis points).
    /// Useful for modelling rate impact before taking on or repaying debt.
    pub fn simulate_rate(&self, utilization_bps: u32) -> (result: Result<u32, LendingError>)
        requires
            self@.well_formed(),
        ensures
            match result {
                Ok(rate) => self@.admin is Some && rate == self@.borrow_rate_at(
                    self@.first_pool(),
                    utilization_bps,
                ),
                Err(e) => self@.initialized_error() == Some(e),
            },
    {
        match self.first_pool() {
            Ok(pool) => Ok(self.borrow_rate_at(&pool, utilization_bps)),
            Err(e) => Err(e),
        }
    }

    /// View pool state for a specific asset.
    pub fn get_pool_for_asset(&self, asset: Address) -> (pool: Result<PoolState, LendingError>)
        ensures
            match pool {
                Ok(p) => self@.pool_error(asset) is None && p == self@.pools[asset],
                Err(e) => self@.pool_error(asset) == Some(e),
            },
    {
        self.get_pool(asset)
    }

    /// Returns the current pool state of an asset.
    pub fn get_pool_state(&self, asset: Address) -> (pool: Result<PoolState, LendingError>)
        ensures
            match pool {
                Ok(p) => self@.pool_error(asset) is None && p == self@.pools[asset],
                Err(e) => self@.pool_error(asset) == Some(e),
            },
    {
        self.get_pool(asset)
    }

    /// List all assets supported by the protocol.
    pub fn get_supported_assets(&self) -> (assets: Vec<Address>)
        ensures
            assets@ == self@.supported_assets,
    {
        self.supported_assets.clone()
    }

    /// Returns the share balance of the given address for a specific asset.
    pub fn get_shares_of(&self, asset: Address, owner: Address) -> (shares: u64)
        ensures
            shares == self@.shares_of(asset, owner),
    {
        self.get_shares(asset, owner)
    }

    /// Returns the outstanding loan record for the given borrower, if any.
    pub fn get_loan(&self, borrower: Address) -> (loan: Option<LoanRecord>)
        ensures
            loan == (if self@.loans.contains_key(borrower) {
                Some(self@.loans[borrower])
            } else {
                None
            }),
    {
        match self.loans.get(borrower) {
            Some(loan) => Some(*loan),
            None => None,
        }
    }

    /// Returns the loan record by unique loan ID, if any.
    pub fn get_loan_by_id(&self, loan_id: u64) -> (loan: Option<LoanRecord>)
        ensures
            loan == (if self@.loans_by_id.contains_key(loan_id) {
                Some(self@.loans_by_id[loan_id])
            } else {
                None
            }),
    {
        match self.loans_by_id.get(loan_id) {
            Some(loan) => Some(*loan),
            None => None,
        }
    }

    /// Returns all loan IDs for a given user
    pub fn get_user_loan_ids(&self, user: Address) -> (ids: Vec<u64>)
        ensures
            ids@ == self@.loans_of(user),
    {
        self.get_user_loans(user)
    }

    /// Returns the available (un-borrowed) liquidity in the pool for a specific asset.
    pub fn available_liquidity(&self, asset: Address) -> (result: Result<u64, LendingError>)
        ensures
            match result {
                Ok(amount) => self@.admin is Some && self@.pool_error(asset) is None && amount
                    == liquidity(self@.pools[asset]),
                Err(e) => if self@.admin is None {
                    e == LendingError::NotInitialized
                } else {
                    self@.pool_error(asset) == Some(e)
                },
            },
    {
        match self.require_initialized() {
            Err(e) => {
                return Err(e);
            },
            Ok(()) => {},
        }
        match self.get_pool(asset) {
            Ok(pool) => Ok(pool.total_deposits.saturating_sub(pool.total_borrowed)),
            Err(e) => Err(e),
        }
    }

    /// Returns the current dynamic interest rate that would be given to a new loan for a specific
    /// asset
    pub fn get_current_interest_rate(&self, asset: Address) -> (result: Result<u32, LendingError>)
        ensures
            match result {
                Ok(rate) => self@.admin is Some && self@.pool_error(asset) is None && rate
                    == self@.current_rate(asset),
                Err(e) => if self@.admin is None {
                    e == LendingError::NotInitialized
                } else {
                    self@.pool_error(asset) == Some(e)
                },
            },
    {
        match self.require_initialized() {
            Err(e) => {
                return Err(e);
            },
            Ok(()) => {},
        }
        match self.get_pool(asset) {
            Ok(pool) => Ok(Self::rate_of(&pool)),
            Err(e) => Err(e),
        }
    }

    /// Check if a token is whitelisted
    pub fn is_whitelisted(&self, token: Address) -> (yes: bool)
        ensures
            yes == self@.accepts_collateral(token),
    {
        self.is_collateral_whitelisted(token)
    }

    /// Get the current collateral ratio in basis points
    pub fn get_collateral_ratio_bps(&self) -> (ratio: u32)
        ensures
            ratio == self@.collateral_ratio_bps,
    {
        self.get_collateral_ratio()
    }

    /// Get the current grace period in seconds
    pub fn get_grace_period(&self, asset: Address) -> (result: Result<u64, LendingError>)
        ensures
            match result {
                Ok(seconds) => self@.pool_error(asset) is None && seconds
                    == self@.pools[asset].grace_period_seconds,
                Err(e) => self@.pool_error(asset) == Some(e),
            },
    {
        match self.get_pool(asset) {
            Ok(pool) => Ok(pool.grace_period_seconds),
            Err(e) => Err(e),
        }
    }

    /// Get the current late fee rate in basis points per day
    pub fn get_late_fee_rate(&self, asset: Address) -> (result: Result<u32, LendingError>)
        ensures
            match result {
                Ok(rate) => self@.pool_error(asset) is None && rate
                    == self@.pools[asset].late_fee_rate_bps,
                Err(e) => self@.pool_error(asset) == Some(e),
            },
    {
        match self.get_pool(asset) {
            Ok(pool) => Ok(pool.late_fee_rate_bps),
            Err(e) => Err(e),
        }
    }

    /// Part of the interest that goes to the reserve, in basis points.
    pub fn get_reserve_factor(&self, asset: Address) -> (result: Result<u32, LendingError>)
        ensures
            match result {
                Ok(factor) => self@.pool_error(asset) is None && factor
                    == self@.pools[asset].reserve_factor_bps,
                Err(e) => self@.pool_error(asset) == Some(e),
            },
    {
        match self.get_pool(asset) {
            Ok(pool) => Ok(pool.reserve_factor_bps),
            Err(e) => Err(e),
        }
    }

    /// Tokens in the bad debt reserve.
    pub fn get_reserve_balance(&self, asset: Address) -> (result: Result<u64, LendingError>)
        ensures
            match result {
                Ok(amount) => self@.pool_error(asset) is None && amount
                    == self@.pools[asset].bad_debt_reserve,
                Err(e) => self@.pool_error(asset) == Some(e),
            },
    {
        match self.get_pool(asset) {
            Ok(pool) => Ok(pool.bad_debt_reserve),
            Err(e) => Err(e),
        }
    }

    /// Interest that the protocol has booked for itself.
    pub fn get_protocol_revenue(&self, asset: Address) -> (result: Result<u64, LendingError>)
        ensures
            match result {
                Ok(amount) => self@.pool_error(asset) is None && amount
                    == self@.pools[asset].total_protocol_revenue,
                Err(e) => self@.pool_error(asset) == Some(e),
            },
    {
        match self.get_pool(asset) {
            Ok(pool) => Ok(pool.total_protocol_revenue),
            Err(e) => Err(e),
        }
    }

    /// Adds a wrapped token to the supported ones (admin only)
    pub fn add_supported_wrapped_token(&mut self, env: &Env, admin: Address, token: Address) -> (
    result: Result<(), LendingError>)
        requires
            old(self)@.well_formed(),
            env.authorized(admin),
        ensures
            match result {
                Err(e) => final(self)@ == old(self)@ && if old(self)@.admin_error(admin) is Some {
                    old(self)@.admin_error(admin) == Some(e)
                } else {
                    old(self)@.wrapped_tokens.contains(token) && e
                        == LendingError::AssetNotSupported
                },
                Ok(()) => old(self)@.admin_error(admin) is None
                    && !old(self)@.wrapped_tokens.contains(token) && final(self)@ == (LendingView {
                    wrapped_tokens: old(self)@.wrapped_tokens.push(token),
                    ..old(self)@
                }).with_event(LendingEventView::WrappedTokenAdded(token)),
            },
            final(self)@.well_formed(),
    {
        match self.require_admin(env, admin) {
            Err(e) => {
                return Err(e);
            },
            Ok(()) => {},
        }
        if list_contains(&self.wrapped_tokens, &token) {
            return Err(LendingError::AssetNotSupported);
        }
        self.wrapped_tokens.push(token);
        self.publish(LendingEvent::WrappedTokenAdded(token));
        Ok(())
    }

    /// Takes a wrapped token out of the supported ones (admin only)
    pub fn remove_wrapped_token(&mut self, env: &Env, admin: Address, token: Address) -> (result:
        Result<(), LendingError>)
        requires
            old(self)@.well_formed(),
            env.authorized(admin),
        ensures
            match result {
                Err(e) => final(self)@ == old(self)@ && if old(self)@.admin_error(admin) is Some {
                    old(self)@.admin_error(admin) == Some(e)
                } else {
                    !old(self)@.wrapped_tokens.contains(token) && e
                        == LendingError::AssetNotSupported
                },
                Ok(()) => old(self)@.admin_error(admin) is None
                    && old(self)@.wrapped_tokens.contains(token) && final(self)@ == (LendingView {
                    wrapped_tokens: without(old(self)@.wrapped_tokens, token),
                    ..old(self)@
                }).with_event(LendingEventView::WrappedTokenRemoved(token)),
            },
            final(self)@.well_formed(),
    {
        match self.require_admin(env, admin) {
            Err(e) => {
                return Err(e);
            },
            Ok(()) => {},
        }
        if !list_contains(&self.wrapped_tokens, &token) {
            return Err(LendingError::AssetNotSupported);
        }
        self.wrapped_tokens = list_without(&self.wrapped_tokens, &token);
        self.publish(LendingEvent::WrappedTokenRemoved(token));
        Ok(())
    }

    /// Whether a wrapped token is supported.
    pub fn is_wrapped_token_supported(&self, token: Address) -> (yes: bool)
        ensures
            yes == self@.wrapped_tokens.contains(token),
    {
        list_contains(&self.wrapped_tokens, &token)
    }

    /// The supported wrapped tokens.
    pub fn get_wrapped_tokens(&self) -> (tokens: Vec<Address>)
        ensures
            tokens@ == self@.wrapped_tokens,
    {
        self.wrapped_tokens.clone()
    }

    /// Return the current contract version.
    pub fn version(&self) -> (version: u32)
        ensures
            version == self@.version,
    {
        self.version
    }

    /// Upgrade the contract to a new WASM binary. Admin-only.
    ///
    /// Atomically replaces contract code while preserving all on-chain storage
    /// (pools, loans, insurance, roles, etc.). Emits a `ContractUpgradedEvent`
    /// for audit purposes and increments the stored version number.
    ///
    /// # Errors
    /// - `NotInitialized` if the contract has not been initialized yet.
    /// - `NotAdmin` if `admin` does not hold the Admin role.
    pub fn upgrade(&mut self, env: &Env, admin: Address, new_wasm_hash: [u8; 32]) -> (result:
        Result<(), LendingError>)
        requires
            old(self)@.well_formed(),
            env.authorized(admin),
            old(self)@.upgrade_error(admin) is None ==> old(self)@.version < u32::MAX,
        ensures
            match result {
                Err(e) => old(self)@.upgrade_error(admin) == Some(e) && final(self)@ == old(self)@,
                Ok(()) => old(self)@.upgrade_error(admin) is None && final(self)@
                    == old(self)@.upgraded(env.timestamp, admin, new_wasm_hash),
            },
            final(self)@.well_formed(),
    {
        match self.require_initialized() {
            Err(e) => {
                return Err(e);
            },
            Ok(()) => {},
        }
        match self.require_admin(env, admin) {
            Err(e) => {
                return Err(e);
            },
            Ok(()) => {},
        }
        let old_version: u32 = self.version();
        let new_version: u32 = old_version + 1;
        self.version = new_version;
        self.publish(
            LendingEvent::ContractUpgraded(
                ContractUpgradedEvent {
                    old_version,
                    new_version,
                    new_wasm_hash,
                    admin,
                    upgraded_at: env.timestamp,
                },
            ),
        );
        self.call(LendingCall::UpdateWasm { new_wasm_hash });
        Ok(())
    }
}

/// Settings are up to addresses that hold the admin role, and to nobody while a flash
/// loan is out. A rate model needs an optimal utilization strictly between nothing and
/// everything, and a reserve factor below the whole.
pub proof fn law_settings_are_for_admins(
    lending: LendingView,
    admin: Address,
    asset: Address,
    optimal_utilization_bps: u32,
    reserve_factor_bps: u32,
)
    ensures
        lending.admin_error(admin) is None <==> lending.access.has(admin, Role::Admin)
            && !lending.access.entered,
        lending.pool_admin_error(admin, asset) is None <==> lending.access.has(admin, Role::Admin)
            && !lending.access.entered && lending.pools.contains_key(asset),
        lending.rate_model_error(admin, optimal_utilization_bps, reserve_factor_bps) is None <==> {
            &&& lending.access.has(admin, Role::Admin) && !lending.access.entered
            &&& 0 < optimal_utilization_bps < 10_000
            &&& reserve_factor_bps < 10_000
        },
        lending.upgrade_error(admin) is None <==> lending.admin is Some && lending.access.has(
            admin,
            Role::Admin,
        ) && !lending.access.entered,
        lending.initialized_error() is None <==> lending.admin is Some,
{
}

/// An upgrade asks the ledger for the new code and for nothing else, and is announced.
pub proof fn law_upgrade_replaces_the_code(
    lending: LendingView,
    now: u64,
    admin: Address,
    new_wasm_hash: [u8; 32],
)
    requires
        lending.version < 0xffff_ffff,
    ensures
        ({
            let after = lending.upgraded(now, admin, new_wasm_hash);
            &&& after.calls == lending.calls.push(LendingCallView::UpdateWasm { new_wasm_hash })
            &&& after.events == lending.events.push(
                LendingEventView::ContractUpgraded(
                    ContractUpgradedEvent {
                        old_version: lending.version,
                        new_version: (lending.version + 1) as u32,
                        new_wasm_hash,
                        admin,
                        upgraded_at: now,
                    },
                ),
            )
        }),
{
}

/// Why the first pool cannot be read: every reason that is given holds.
pub proof fn law_reason_initialized(lending: LendingView)
    ensures
        match lending.initialized_error() {
            None => true,
            Some(LendingError::NotInitialized) => lending.admin is None,
            Some(_) => false,
        },
{
}

/// Why a rate model is refused: every reason that is given holds.
pub proof fn law_reason_rate_model(
    lending: LendingView,
    admin: Address,
    optimal_utilization_bps: u32,
    reserve_factor_bps: u32,
)
    ensures
        match lending.rate_model_error(admin, optimal_utilization_bps, reserve_factor_bps) {
            None => true,
            Some(LendingError::InvalidRateModel) => optimal_utilization_bps == 0
                || optimal_utilization_bps >= 10_000 || reserve_factor_bps >= 10_000,
            Some(error) => lending.admin_error(admin) == Some(error),
        },
{
}

/// Why an upgrade is refused: every reason that is given holds.
pub proof fn law_reason_upgrade(lending: LendingView, admin: Address)
    ensures
        match lending.upgrade_error(admin) {
            None => true,
            Some(LendingError::NotInitialized) => lending.admin is None,
            Some(error) => lending.admin_error(admin) == Some(error),
        },
{
}

} // verus!
