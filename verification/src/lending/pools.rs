//! Opening pools, depositing and withdrawing.
use vstd::prelude::*;

use crate::access::Role;
use crate::host::{Address, Env};
use crate::lending::rates::{share_value, shares_bought};
use crate::lending::state::{
    assets_listed, fresh_pool, lemma_pool_update, lemma_total_insert, shares_backed, shares_total,
    LendingContract, LendingView, MINIMUM_LIQUIDITY,
};
use crate::lending::types::{
    DepositEvent, InsuranceFund, LendingCallView, LendingError, LendingEvent, LendingEventView,
    PoolState, PriorityWithdrawEvent, RewardPool, WithdrawEvent,
};
use crate::list::list_contains;
use crate::math::saturating_difference;

verus! {

/// Rewards per second of a new reward pool, with nine decimals.
pub const DEFAULT_REWARD_RATE: u64 = 1_000_000_000;

/// Insurance premium of a new contract: 2% of the principal.
pub const DEFAULT_INSURANCE_PREMIUM_RATE_BPS: u32 = 200;

/// A reward pool that was just opened.
pub open spec fn fresh_reward_pool(now: u64) -> RewardPool {
    RewardPool {
        total_staked: 0,
        reward_rate: DEFAULT_REWARD_RATE,
        last_update_time: now,
        reward_per_token_stored: 0,
        total_rewards_distributed: 0,
    }
}

/// An insurance fund without money.
pub open spec fn empty_fund() -> InsuranceFund {
    InsuranceFund { total_premiums_collected: 0, total_claims_paid: 0, available_balance: 0 }
}

impl RewardPool {
    /// A reward pool that was just opened.
    pub fn fresh(now: u64) -> (pool: RewardPool)
        ensures
            pool == fresh_reward_pool(now),
    {
        RewardPool {
            total_staked: 0,
            reward_rate: DEFAULT_REWARD_RATE,
            last_update_time: now,
            reward_per_token_stored: 0,
            total_rewards_distributed: 0,
        }
    }
}

impl InsuranceFund {
    /// An insurance fund without money.
    pub fn empty() -> (fund: InsuranceFund)
        ensures
            fund == empty_fund(),
    {
        InsuranceFund { total_premiums_collected: 0, total_claims_paid: 0, available_balance: 0 }
    }
}

/// Tokens of a pool that are not on loan.
pub open spec fn liquidity(pool: PoolState) -> u64 {
    saturating_difference(pool.total_deposits, pool.total_borrowed)
}

/// Shares that a depositor receives: those that the amount buys, less what the
/// first deposit locks.
pub open spec fn shares_minted(pool: PoolState, amount: u64) -> int {
    if pool.total_shares == 0 {
        shares_bought(pool, amount) - MINIMUM_LIQUIDITY
    } else {
        shares_bought(pool, amount) as int
    }
}

impl LendingView {
    /// Why opening the first pool is refused.
    pub open spec fn initialize_error(self) -> Option<LendingError> {
        if self.access.entered {
            Some(LendingError::ReentrantCall)
        } else if self.admin is Some {
            Some(LendingError::AlreadyInitialized)
        } else {
            None
        }
    }

    /// The contract after its first pool was opened.
    pub open spec fn initialized(
        self,
        now: u64,
        admin: Address,
        token: Address,
        pool: PoolState,
        collateral_ratio_bps: u32,
    ) -> LendingView {
        LendingView {
            admin: Some(admin),
            token: Some(token),
            supported_assets: seq![token],
            collateral_ratio_bps,
            pools: self.pools.insert(token, pool),
            reward_pools: self.reward_pools.insert(token, fresh_reward_pool(now)),
            insurance_fund: Some(empty_fund()),
            insurance_premium_rate_bps: Some(DEFAULT_INSURANCE_PREMIUM_RATE_BPS),
            access: self.access.assigned(admin, Role::Admin),
            ..self
        }
    }

    /// Why a deposit is refused. `transferred` is whether the depositor's tokens arrived.
    pub open spec fn deposit_error(self, asset: Address, amount: u64, transferred: bool) -> Option<
        LendingError,
    > {
        let pool = self.pools[asset];
        if self.entry_error() is Some {
            self.entry_error()
        } else if amount == 0 {
            Some(LendingError::InvalidAmount)
        } else if !self.pools.contains_key(asset) {
            Some(LendingError::AssetNotSupported)
        } else if pool.is_paused {
            Some(LendingError::PoolPaused)
        } else if !transferred {
            Some(LendingError::TransferFailed)
        } else if shares_minted(pool, amount) <= 0 {
            Some(LendingError::InvalidAmount)
        } else {
            None
        }
    }

    /// Whether a deposit keeps the totals of the pool within 64 bits.
    pub open spec fn deposit_fits(self, asset: Address, amount: u64) -> bool {
        let pool = self.pools[asset];
        &&& pool.total_deposits + amount <= u64::MAX
        &&& pool.total_shares + shares_bought(pool, amount) <= u64::MAX
    }

    /// The contract after a deposit.
    pub open spec fn deposited(
        self,
        contract: Address,
        depositor: Address,
        asset: Address,
        amount: u64,
    ) -> LendingView {
        let pool = self.pools[asset];
        let minted = shares_minted(pool, amount) as u64;
        self.with_transfer(asset, depositor, contract, amount).with_pool(
            asset,
            PoolState {
                total_deposits: (pool.total_deposits + amount) as u64,
                total_shares: (pool.total_shares + shares_bought(pool, amount)) as u64,
                ..pool
            },
        ).with_shares(asset, depositor, (self.shares_of(asset, depositor) + minted) as u64)
            .with_event(
            LendingEventView::Deposit(
                DepositEvent { depositor, asset, amount, shares_minted: minted },
            ),
        )
    }

    /// The contract with another holding of one owner.
    pub open spec fn with_shares(self, asset: Address, owner: Address, shares: u64) -> LendingView {
        LendingView { shares: self.shares.insert((owner, asset), shares), ..self }
    }

    /// Why a withdrawal is refused. `transferred` is whether the tokens could be paid out.
    pub open spec fn withdraw_error(
        self,
        depositor: Address,
        asset: Address,
        shares: u64,
        transferred: bool,
    ) -> Option<LendingError> {
        let pool = self.pools[asset];
        if self.entry_error() is Some {
            self.entry_error()
        } else if shares == 0 {
            Some(LendingError::InvalidAmount)
        } else if shares > self.shares_of(asset, depositor) {
            Some(LendingError::InsufficientShares)
        } else if !self.pools.contains_key(asset) {
            Some(LendingError::AssetNotSupported)
        } else if pool.is_paused {
            Some(LendingError::PoolPaused)
        } else if share_value(pool, shares) == 0 {
            Some(LendingError::InvalidAmount)
        } else if share_value(pool, shares) > liquidity(pool) {
            Some(LendingError::InsufficientLiquidity)
        } else if !transferred {
            Some(LendingError::TransferFailed)
        } else {
            None
        }
    }

    /// The contract after a withdrawal.
    pub open spec fn withdrawn(
        self,
        contract: Address,
        depositor: Address,
        asset: Address,
        shares: u64,
    ) -> LendingView {
        let pool = self.pools[asset];
        let amount = share_value(pool, shares);
        self.with_pool(
            asset,
            PoolState {
                total_deposits: (pool.total_deposits - amount) as u64,
                total_shares: (pool.total_shares - shares) as u64,
                ..pool
            },
        ).with_shares(asset, depositor, (self.shares_of(asset, depositor) - shares) as u64)
            .with_transfer(asset, contract, depositor, amount).with_event(
            LendingEventView::Withdraw(
                WithdrawEvent { depositor, asset, shares_burned: shares, amount },
            ),
        )
    }

    /// Why a withdrawal from the retained yield is refused.
    pub open spec fn withdraw_priority_error(
        self,
        asset: Address,
        amount: u64,
        transferred: bool,
    ) -> Option<LendingError> {
        if self.entry_error() is Some {
            self.entry_error()
        } else if amount == 0 {
            Some(LendingError::InvalidAmount)
        } else if !self.pools.contains_key(asset) {
            Some(LendingError::AssetNotSupported)
        } else if amount > self.pools[asset].retained_yield {
            Some(LendingError::InsufficientLiquidity)
        } else if !transferred {
            Some(LendingError::TransferFailed)
        } else {
            None
        }
    }

    /// The contract after a withdrawal from the retained yield.
    pub open spec fn priority_withdrawn(
        self,
        contract: Address,
        caller: Address,
        asset: Address,
        amount: u64,
    ) -> LendingView {
        let pool = self.pools[asset];
        self.with_pool(
            asset,
            PoolState { retained_yield: (pool.retained_yield - amount) as u64, ..pool },
        ).with_transfer(asset, contract, caller, amount).with_event(
            LendingEventView::PriorityWithdraw(PriorityWithdrawEvent { caller, asset, amount }),
        )
    }
}

/// A new pool for an asset that had none keeps the contract well formed.
proof fn lemma_pool_opened(before: LendingView, after: LendingView, asset: Address)
    requires
        before.well_formed(),
        !before.pools.contains_key(asset),
        after.supported_assets == before.supported_assets.push(asset),
        after.pools.dom() == before.pools.dom().insert(asset),
        forall|other: Address|
            other != asset && before.pools.contains_key(other) ==> #[trigger] after.pools[other]
                == before.pools[other],
        after.pools[asset].total_shares == 0,
        after.shares == before.shares,
    ensures
        assets_listed(after.pools, after.supported_assets),
        shares_backed(after.pools, after.shares),
{
    reveal(assets_listed);
    reveal(shares_backed);
    assert(!before.supported_assets.contains(asset));
    assert forall|a: Address| #[trigger]
        after.supported_assets.contains(a) <==> after.pools.contains_key(a) by {
        crate::list::lemma_push_contains(before.supported_assets, asset, a);
        assert(before.supported_assets.contains(a) <==> before.pools.contains_key(a));
        assert(after.pools.dom().contains(a) <==> before.pools.dom().insert(asset).contains(a));
    }
    assert forall|a: Address| #[trigger]
        shares_total(after.shares, a) == (if after.pools.contains_key(a) {
            if after.pools[a].total_shares == 0 {
                0
            } else {
                after.pools[a].total_shares - MINIMUM_LIQUIDITY
            }
        } else {
            0
        }) by {
        assert(after.pools.dom().contains(a) <==> before.pools.dom().insert(asset).contains(a));
        assert(shares_total(before.shares, a) == shares_total(after.shares, a));
    }
}

/// A change of one holding that the pool's total follows keeps the shares backed.
proof fn lemma_shares_moved(
    before: LendingView,
    after: LendingView,
    owner: Address,
    asset: Address,
    holding: u64,
)
    requires
        before.well_formed(),
        before.pools.contains_key(asset),
        after.pools.dom() == before.pools.dom(),
        forall|other: Address|
            other != asset && before.pools.contains_key(other) ==> #[trigger] after.pools[other]
                == before.pools[other],
        after.shares == before.shares.insert((owner, asset), holding),
        after.pools[asset].total_shares > 0,
        after.pools[asset].total_shares - MINIMUM_LIQUIDITY == (if before.pools[asset].total_shares
            == 0 {
            0
        } else {
            before.pools[asset].total_shares - MINIMUM_LIQUIDITY
        }) + holding - before.shares_of(asset, owner),
    ensures
        shares_backed(after.pools, after.shares),
        assets_listed(after.pools, before.supported_assets),
{
    reveal(shares_backed);
    reveal(assets_listed);
    assert forall|a: Address| #[trigger]
        shares_total(after.shares, a) == (if after.pools.contains_key(a) {
            if after.pools[a].total_shares == 0 {
                0
            } else {
                after.pools[a].total_shares - MINIMUM_LIQUIDITY
            }
        } else {
            0
        }) by {
        lemma_total_insert(before.shares, (owner, asset), holding, a);
        assert(after.pools.dom().contains(a) <==> before.pools.dom().contains(a));
        assert(before.pools.contains_key(a) || !before.pools.contains_key(a));
        assert(shares_total(before.shares, a) >= 0);
    }
    assert forall|a: Address| #[trigger]
        before.supported_assets.contains(a) <==> after.pools.contains_key(a) by {
        assert(before.supported_assets.contains(a) <==> before.pools.contains_key(a));
        assert(after.pools.dom().contains(a) <==> before.pools.dom().contains(a));
    }
}

/// An owner holds no more than the pool has outstanding.
pub proof fn lemma_holding_bounded(lending: LendingView, owner: Address, asset: Address)
    requires
        lending.well_formed(),
    ensures
        lending.pools.contains_key(asset) ==> lending.shares_of(asset, owner)
            <= lending.pools[asset].total_shares,
        lending.pools.contains_key(asset) && lending.pools[asset].total_shares > 0
            ==> lending.shares_of(asset, owner) + MINIMUM_LIQUIDITY
            <= lending.pools[asset].total_shares,
        !lending.pools.contains_key(asset) ==> lending.shares_of(asset, owner) == 0,
{
    reveal(shares_backed);
    lemma_total_insert(lending.shares, (owner, asset), 0, asset);
    assert(shares_total(lending.shares, asset) >= 0);
}

/// A depositor who withdraws all the shares of a deposit at once, from a pool
/// that was not empty and where nothing happened in between, gets back at most
/// what was put in.
pub proof fn law_deposit_then_withdraw(
    lending: LendingView,
    contract: Address,
    depositor: Address,
    asset: Address,
    amount: u64,
)
    requires
        lending.well_formed(),
        lending.deposit_error(asset, amount, true) is None,
        lending.deposit_fits(asset, amount),
        lending.pools[asset].total_shares > 0,
        lending.pools[asset].total_deposits > 0,
        (amount * lending.pools[asset].total_shares) / (lending.pools[asset].total_deposits as int)
            <= u64::MAX,
    ensures
        share_value(
            lending.deposited(contract, depositor, asset, amount).pools[asset],
            shares_minted(lending.pools[asset], amount) as u64,
        ) <= amount,
{
    crate::lending::rates::law_round_trip_never_gains(lending.pools[asset], amount);
}

impl LendingContract {
    /// Initialize the lending pool with an admin address and the initial underlying token.
    /// Can only be called once.
    pub fn initialize(
        &mut self,
        env: &Env,
        admin: Address,
        token: Address,
        base_rate_bps: u32,
        multiplier_bps: u32,
        collateral_ratio_bps: u32,
        utilization_cap_bps: u32,
    ) -> (result: Result<(), LendingError>)
        requires
            old(self)@.well_formed(),
            env.authorized(admin),
        ensures
            match result {
                Err(e) => old(self)@.initialize_error() == Some(e) && final(self)@ == old(self)@,
                Ok(()) => old(self)@.initialize_error() is None && final(self)@
                    == old(self)@.initialized(
                    env.timestamp,
                    admin,
                    token,
                    fresh_pool(base_rate_bps, multiplier_bps, utilization_cap_bps),
                    collateral_ratio_bps,
                ),
            },
            final(self)@.well_formed(),
    {
        match self.require_not_entered() {
            Err(e) => {
                return Err(e);
            },
            Ok(()) => {},
        }
        if self.admin.is_some() {
            return Err(LendingError::AlreadyInitialized);
        }
        self.admin = Some(admin);
        self.token = Some(token);
        let mut assets: Vec<Address> = Vec::new();
        assets.push(token);
        self.supported_assets = assets;
        self.collateral_ratio_bps = collateral_ratio_bps;
        self.set_pool(token, PoolState::fresh(base_rate_bps, multiplier_bps, utilization_cap_bps));
        self.reward_pools.set(token, RewardPool::fresh(env.timestamp));
        self.insurance_fund = Some(InsuranceFund::empty());
        self.insurance_premium_rate_bps = Some(DEFAULT_INSURANCE_PREMIUM_RATE_BPS);
        self.access.assign_role(admin, Role::Admin);
        proof {
            assert(old(self)@.supported_assets =~= Seq::<Address>::empty()) by {
                reveal(assets_listed);
                if old(self)@.supported_assets.len() > 0 {
                    let first = old(self)@.supported_assets[0];
                    assert(old(self)@.supported_assets.contains(first));
                }
            }
            assert(self@.supported_assets =~= old(self)@.supported_assets.push(token));
            assert(self@.pools.dom() =~= old(self)@.pools.dom().insert(token));
            lemma_pool_opened(old(self)@, self@, token);
        }
        Ok(())
    }

    /// Add a new asset pool to the lending protocol.
    /// Only the admin can call this.
    pub fn add_asset_pool(
        &mut self,
        env: &Env,
        admin: Address,
        asset: Address,
        base_rate_bps: u32,
        multiplier_bps: u32,
        utilization_cap_bps: u32,
    ) -> (result: Result<(), LendingError>)
        requires
            old(self)@.well_formed(),
            env.authorized(admin),
        ensures
            match result {
                Err(e) => final(self)@ == old(self)@ && if old(self)@.admin_error(admin) is Some {
                    old(self)@.admin_error(admin) == Some(e)
                } else {
                    e == LendingError::AlreadyInitialized
                        && old(self)@.supported_assets.contains(asset)
                },
                Ok(()) => old(self)@.admin_error(admin) is None
                    && !old(self)@.supported_assets.contains(asset) && final(self)@
                    == (LendingView {
                    supported_assets: old(self)@.supported_assets.push(asset),
                    pools: old(self)@.pools.insert(
                        asset,
                        fresh_pool(base_rate_bps, multiplier_bps, utilization_cap_bps),
                    ),
                    reward_pools: old(self)@.reward_pools.insert(
                        asset,
                        fresh_reward_pool(env.timestamp),
                    ),
                    ..old(self)@
                }),
            },
            final(self)@.well_formed(),
    {
        match self.require_admin(env, admin) {
            Err(e) => {
                return Err(e);
            },
            Ok(()) => {},
        }
        if list_contains(&self.supported_assets, &asset) {
            return Err(LendingError::AlreadyInitialized);
        }
        proof {
            reveal(assets_listed);
            assert(!self@.pools.contains_key(asset));
            assert(self@.admin is Some) by {
                assert(!Seq::<Role>::empty().contains(Role::Admin));
            }
        }
        self.supported_assets.push(asset);
        self.set_pool(asset, PoolState::fresh(base_rate_bps, multiplier_bps, utilization_cap_bps));
        self.reward_pools.set(asset, RewardPool::fresh(env.timestamp));
        proof {
            assert(self@.pools.dom() =~= old(self)@.pools.dom().insert(asset));
            lemma_pool_opened(old(self)@, self@, asset);
        }
        Ok(())
    }

    /// Deposit `amount` of the specific asset into its pool.
    /// Mints proportional pool shares to the depositor.
    pub fn deposit(
        &mut self,
        env: &Env,
        depositor: Address,
        asset: Address,
        amount: u64,
        transferred: bool,
    ) -> (result: Result<u64, LendingError>)
        requires
            old(self)@.well_formed(),
            env.authorized(depositor),
            old(self)@.deposit_error(asset, amount, transferred) is None
                ==> old(self)@.deposit_fits(asset, amount),
        ensures
            match result {
                Err(e) => old(self)@.deposit_error(asset, amount, transferred) == Some(e)
                    && final(self)@ == old(self)@,
                Ok(shares) => old(self)@.deposit_error(asset, amount, transferred) is None && shares
                    == shares_minted(old(self)@.pools[asset], amount) && final(self)@
                    == old(self)@.deposited(env.contract, depositor, asset, amount),
            },
            final(self)@.well_formed(),
    {
        match self.check_entry() {
            Some(e) => {
                return Err(e);
            },
            None => {},
        }
        if amount == 0 {
            return Err(LendingError::InvalidAmount);
        }
        let pool = match self.get_pool(asset) {
            Ok(pool) => pool,
            Err(e) => {
                return Err(e);
            },
        };
        if pool.is_paused {
            return Err(LendingError::PoolPaused);
        }
        if !transferred {
            return Err(LendingError::TransferFailed);
        }
        let bought: u64 = Self::shares_for_deposit(&pool, amount);
        let locked: u64 = if pool.total_shares == 0 {
            MINIMUM_LIQUIDITY
        } else {
            0
        };
        if bought <= locked {
            return Err(LendingError::InvalidAmount);
        }
        let shares: u64 = bought - locked;
        proof {
            lemma_holding_bounded(self@, depositor, asset);
        }
        let _ = self.transfer(asset, depositor, env.contract, amount, transferred);
        let updated = PoolState {
            total_deposits: pool.total_deposits + amount,
            total_shares: pool.total_shares + bought,
            ..pool
        };
        self.set_pool(asset, updated);
        let existing: u64 = self.get_shares(asset, depositor);
        self.set_shares(asset, depositor, existing + shares);
        self.publish(
            LendingEvent::Deposit(
                DepositEvent { depositor, asset, amount, shares_minted: shares },
            ),
        );
        proof {
            assert(self@.pools.dom() =~= old(self)@.pools.dom());
            lemma_shares_moved(
                old(self)@,
                self@,
                depositor,
                asset,
                (existing + shares) as u64,
            );
        }
        Ok(shares)
    }

    /// Burn `shares` and return the proportional underlying tokens to the depositor.
    /// Refused if insufficient liquidity (i.e., tokens are loaned out).
    pub fn withdraw(
        &mut self,
        env: &Env,
        depositor: Address,
        asset: Address,
        shares: u64,
        transferred: bool,
    ) -> (result: Result<u64, LendingError>)
        requires
            old(self)@.well_formed(),
            env.authorized(depositor),
        ensures
            match result {
                Err(e) => old(self)@.withdraw_error(depositor, asset, shares, transferred) == Some(
                    e,
                ) && final(self)@ == old(self)@,
                Ok(amount) => old(self)@.withdraw_error(depositor, asset, shares, transferred)
                    is None && amount == share_value(old(self)@.pools[asset], shares)
                    && final(self)@ == old(self)@.withdrawn(
                    env.contract,
                    depositor,
                    asset,
                    shares,
                ),
            },
            final(self)@.well_formed(),
    {
        match self.check_entry() {
            Some(e) => {
                return Err(e);
            },
            None => {},
        }
        if shares == 0 {
            return Err(LendingError::InvalidAmount);
        }
        let depositor_shares: u64 = self.get_shares(asset, depositor);
        if shares > depositor_shares {
            return Err(LendingError::InsufficientShares);
        }
        let pool = match self.get_pool(asset) {
            Ok(pool) => pool,
            Err(e) => {
                return Err(e);
            },
        };
        if pool.is_paused {
            return Err(LendingError::PoolPaused);
        }
        let amount: u64 = Self::assets_for_shares(&pool, shares);
        if amount == 0 {
            return Err(LendingError::InvalidAmount);
        }
        let available: u64 = pool.total_deposits.saturating_sub(pool.total_borrowed);
        if amount > available {
            return Err(LendingError::InsufficientLiquidity);
        }
        if !transferred {
            return Err(LendingError::TransferFailed);
        }
        proof {
            lemma_holding_bounded(self@, depositor, asset);
        }
        let updated = PoolState {
            total_deposits: pool.total_deposits - amount,
            total_shares: pool.total_shares - shares,
            ..pool
        };
        self.set_pool(asset, updated);
        self.set_shares(asset, depositor, depositor_shares - shares);
        let _ = self.transfer(asset, env.contract, depositor, amount, transferred);
        self.publish(
            LendingEvent::Withdraw(
                WithdrawEvent { depositor, asset, shares_burned: shares, amount },
            ),
        );
        proof {
            assert(self@.pools.dom() =~= old(self)@.pools.dom());
            lemma_shares_moved(
                old(self)@,
                self@,
                depositor,
                asset,
                (depositor_shares - shares) as u64,
            );
        }
        Ok(amount)
    }

    /// Withdraw prioritized funds from the retained yield for a specific asset.
    /// Used by authorized contracts (like InheritanceContract) to fulfill priority claims.
    pub fn withdraw_priority(
        &mut self,
        env: &Env,
        caller: Address,
        asset: Address,
        amount: u64,
        transferred: bool,
    ) -> (result: Result<u64, LendingError>)
        requires
            old(self)@.well_formed(),
            env.authorized(caller),
        ensures
            match result {
                Err(e) => old(self)@.withdraw_priority_error(asset, amount, transferred) == Some(e)
                    && final(self)@ == old(self)@,
                Ok(paid) => old(self)@.withdraw_priority_error(asset, amount, transferred) is None
                    && paid == amount && final(self)@ == old(self)@.priority_withdrawn(
                    env.contract,
                    caller,
                    asset,
                    amount,
                ),
            },
            final(self)@.well_formed(),
    {
        match self.check_entry() {
            Some(e) => {
                return Err(e);
            },
            None => {},
        }
        if amount == 0 {
            return Err(LendingError::InvalidAmount);
        }
        let pool = match self.get_pool(asset) {
            Ok(pool) => pool,
            Err(e) => {
                return Err(e);
            },
        };
        if amount > pool.retained_yield {
            return Err(LendingError::InsufficientLiquidity);
        }
        if !transferred {
            return Err(LendingError::TransferFailed);
        }
        let updated = PoolState { retained_yield: pool.retained_yield - amount, ..pool };
        proof {
            lemma_pool_update(self@, asset, updated);
        }
        self.set_pool(asset, updated);
        let _ = self.transfer(asset, env.contract, caller, amount, transferred);
        self.publish(
            LendingEvent::PriorityWithdraw(PriorityWithdrawEvent { caller, asset, amount }),
        );
        Ok(amount)
    }
}

/// A contract starts with its admin, one pool without money, and the defaults: three
/// days of grace, a late fee of 5% a day, a reserve of 10%, an insurance premium of 2%
/// and one reward unit a second.
pub proof fn law_initializing(
    lending: LendingView,
    now: u64,
    admin: Address,
    token: Address,
    base_rate_bps: u32,
    multiplier_bps: u32,
    utilization_cap_bps: u32,
    collateral_ratio_bps: u32,
)
    ensures
        lending.initialize_error() is None <==> lending.admin is None && !lending.access.entered,
        ({
            let pool = fresh_pool(base_rate_bps, multiplier_bps, utilization_cap_bps);
            let after = lending.initialized(now, admin, token, pool, collateral_ratio_bps);
            let opened = after.pools[token];
            let rewards = after.reward_pools[token];
            &&& after.admin == Some(admin) && after.token == Some(token)
            &&& after.access.has(admin, Role::Admin)
            &&& after.supported_assets == seq![token]
            &&& after.collateral_ratio_bps == collateral_ratio_bps
            &&& after.insurance_premium_rate_bps == Some(200u32)
            &&& after.insurance_fund matches Some(fund) && fund.available_balance == 0
                && fund.total_claims_paid == 0 && fund.total_premiums_collected == 0
            &&& opened.total_deposits == 0 && opened.total_shares == 0 && opened.total_borrowed == 0
            &&& opened.base_rate_bps == base_rate_bps && opened.multiplier_bps == multiplier_bps
            &&& opened.utilization_cap_bps == utilization_cap_bps && !opened.is_paused
            &&& opened.retained_yield == 0 && opened.bad_debt_reserve == 0
                && opened.total_protocol_revenue == 0
            &&& opened.grace_period_seconds == 3 * 24 * 3_600 && opened.late_fee_rate_bps == 500
                && opened.reserve_factor_bps == 1_000
            &&& rewards.reward_rate == 1_000_000_000 && rewards.total_staked == 0
                && rewards.last_update_time == now && rewards.reward_per_token_stored == 0
                && rewards.total_rewards_distributed == 0
        }),
{
    crate::access::law_roles(lending.access, admin, Role::Admin, admin, Role::Admin);
}

/// Who can deposit: anybody, into an open pool of an open contract, an amount that buys
/// more than a thousand shares the first time and at least one share later.
pub proof fn law_deposits_are_admitted(lending: LendingView, asset: Address, amount: u64)
    ensures
        lending.deposit_error(asset, amount, true) is None <==> {
            &&& lending.admin is Some && !lending.access.paused && !lending.access.entered
            &&& amount > 0
            &&& lending.pools.contains_key(asset) && !lending.pools[asset].is_paused
            &&& shares_bought(lending.pools[asset], amount) > (if lending.pools[asset].total_shares
                == 0 {
                1_000int
            } else {
                0
            })
        },
        lending.deposit_error(asset, amount, false) is Some,
{
}

/// A deposit brings the amount from the depositor to the contract, and the depositor
/// gets the shares that it buys, less a thousand that the first deposit locks for good.
/// Nobody else's shares change, and no other pool.
pub proof fn law_deposit(
    lending: LendingView,
    contract: Address,
    depositor: Address,
    asset: Address,
    amount: u64,
)
    requires
        lending.deposit_error(asset, amount, true) is None,
        lending.pools[asset].total_deposits + amount <= 0xffff_ffff_ffff_ffff,
        lending.pools[asset].total_shares + shares_bought(lending.pools[asset], amount)
            <= 0xffff_ffff_ffff_ffff,
        lending.shares_of(asset, depositor) <= lending.pools[asset].total_shares,
    ensures
        ({
            let before = lending.pools[asset];
            let bought = shares_bought(before, amount);
            let locked: int = if before.total_shares == 0 {
                1_000
            } else {
                0
            };
            let after = lending.deposited(contract, depositor, asset, amount);
            let pool = after.pools[asset];
            &&& after.calls == lending.calls.push(
                LendingCallView::Transfer { token: asset, from: depositor, to: contract, amount },
            )
            &&& pool.total_deposits - before.total_deposits == amount
            &&& pool.total_shares - before.total_shares == bought
            &&& pool == (PoolState {
                total_deposits: pool.total_deposits,
                total_shares: pool.total_shares,
                ..before
            })
            &&& after.pools == lending.pools.insert(asset, pool)
            &&& after.shares_of(asset, depositor) == lending.shares_of(asset, depositor) + bought
                - locked
            &&& forall|a: Address, o: Address|
                (o, a) != (depositor, asset) ==> #[trigger] after.shares_of(a, o)
                    == lending.shares_of(a, o)
            &&& after.events.last() == LendingEventView::Deposit(
                DepositEvent {
                    depositor,
                    asset,
                    amount,
                    shares_minted: (bought - locked) as u64,
                },
            )
            &&& after == (LendingView {
                pools: after.pools,
                shares: after.shares,
                calls: after.calls,
                events: after.events,
                ..lending
            })
        }),
{
}

/// Who can withdraw: an owner of that many shares, as far as the tokens are not on loan.
pub proof fn law_withdrawals_are_admitted(
    lending: LendingView,
    depositor: Address,
    asset: Address,
    shares: u64,
)
    ensures
        lending.withdraw_error(depositor, asset, shares, true) is None <==> {
            let pool = lending.pools[asset];
            &&& lending.admin is Some && !lending.access.paused && !lending.access.entered
            &&& 0 < shares <= lending.shares_of(asset, depositor)
            &&& lending.pools.contains_key(asset) && !pool.is_paused
            &&& share_value(pool, shares) > 0
            &&& pool.total_borrowed + share_value(pool, shares) <= pool.total_deposits
        },
        lending.withdraw_error(depositor, asset, shares, false) is Some,
{
}

/// A withdrawal burns the shares and pays what they are worth to their owner.
pub proof fn law_withdrawal(
    lending: LendingView,
    contract: Address,
    depositor: Address,
    asset: Address,
    shares: u64,
)
    requires
        lending.withdraw_error(depositor, asset, shares, true) is None,
        lending.shares_of(asset, depositor) <= lending.pools[asset].total_shares,
    ensures
        ({
            let before = lending.pools[asset];
            let worth = share_value(before, shares);
            let after = lending.withdrawn(contract, depositor, asset, shares);
            let pool = after.pools[asset];
            &&& after.calls == lending.calls.push(
                LendingCallView::Transfer {
                    token: asset,
                    from: contract,
                    to: depositor,
                    amount: worth,
                },
            )
            &&& before.total_deposits - pool.total_deposits == worth
            &&& before.total_shares - pool.total_shares == shares
            &&& pool == (PoolState {
                total_deposits: pool.total_deposits,
                total_shares: pool.total_shares,
                ..before
            })
            &&& after.pools == lending.pools.insert(asset, pool)
            &&& after.shares_of(asset, depositor) + shares == lending.shares_of(asset, depositor)
            &&& forall|a: Address, o: Address|
                (o, a) != (depositor, asset) ==> #[trigger] after.shares_of(a, o)
                    == lending.shares_of(a, o)
            &&& after.events.last() == LendingEventView::Withdraw(
                WithdrawEvent { depositor, asset, shares_burned: shares, amount: worth },
            )
            &&& after == (LendingView {
                pools: after.pools,
                shares: after.shares,
                calls: after.calls,
                events: after.events,
                ..lending
            })
        }),
{
}

/// A priority withdrawal pays the caller out of the retained yield of the asset's pool,
/// and out of nothing else; it is admitted as far as that yield goes.
pub proof fn law_priority_withdrawal(
    lending: LendingView,
    contract: Address,
    caller: Address,
    asset: Address,
    amount: u64,
)
    ensures
        lending.withdraw_priority_error(asset, amount, true) is None <==> {
            &&& lending.admin is Some && !lending.access.paused && !lending.access.entered
            &&& lending.pools.contains_key(asset)
            &&& 0 < amount <= lending.pools[asset].retained_yield
        },
        lending.withdraw_priority_error(asset, amount, false) is Some,
        lending.withdraw_priority_error(asset, amount, true) is None ==> {
            let after = lending.priority_withdrawn(contract, caller, asset, amount);
            &&& after.calls == lending.calls.push(
                LendingCallView::Transfer { token: asset, from: contract, to: caller, amount },
            )
            &&& after.pools[asset].retained_yield + amount == lending.pools[asset].retained_yield
            &&& after.pools == lending.pools.insert(
                asset,
                PoolState {
                    retained_yield: after.pools[asset].retained_yield,
                    ..lending.pools[asset]
                },
            )
            &&& after.events.last() == LendingEventView::PriorityWithdraw(
                PriorityWithdrawEvent { caller, asset, amount },
            )
            &&& after == (LendingView {
                pools: after.pools,
                calls: after.calls,
                events: after.events,
                ..lending
            })
        },
{
}

/// Rewards start at one a second, with nine decimals, and insurance at 2%.
pub proof fn law_limits()
    ensures
        DEFAULT_REWARD_RATE == 1_000_000_000,
        DEFAULT_INSURANCE_PREMIUM_RATE_BPS == 200,
{
}

/// Why opening the first pool is refused: every reason that is given holds.
pub proof fn law_reason_initialize(lending: LendingView)
    ensures
        match lending.initialize_error() {
            None => true,
            Some(LendingError::ReentrantCall) => lending.access.entered,
            Some(LendingError::AlreadyInitialized) => lending.admin is Some,
            Some(_) => false,
        },
{
}

/// Why a deposit is refused: every reason that is given holds.
pub proof fn law_reason_deposit(
    lending: LendingView,
    asset: Address,
    amount: u64,
    transferred: bool,
)
    ensures
        ({
            let pool = lending.pools[asset];
            match lending.deposit_error(asset, amount, transferred) {
                None => true,
                Some(LendingError::InvalidAmount) => amount == 0 || shares_minted(pool, amount)
                    <= 0,
                Some(LendingError::AssetNotSupported) => !lending.pools.contains_key(asset),
                Some(LendingError::PoolPaused) => pool.is_paused,
                Some(LendingError::TransferFailed) => !transferred,
                Some(error) => lending.entry_error() == Some(error),
            }
        }),
{
}

/// Why a withdrawal is refused: every reason that is given holds.
pub proof fn law_reason_withdraw(
    lending: LendingView,
    depositor: Address,
    asset: Address,
    shares: u64,
    transferred: bool,
)
    ensures
        ({
            let pool = lending.pools[asset];
            match lending.withdraw_error(depositor, asset, shares, transferred) {
                None => true,
                Some(LendingError::InvalidAmount) => shares == 0 || share_value(pool, shares) == 0,
                Some(LendingError::InsufficientShares) => shares > lending.shares_of(asset,
                    depositor),
                Some(LendingError::AssetNotSupported) => !lending.pools.contains_key(asset),
                Some(LendingError::PoolPaused) => pool.is_paused,
                Some(LendingError::InsufficientLiquidity) => share_value(pool, shares)
                    > liquidity(pool),
                Some(LendingError::TransferFailed) => !transferred,
                Some(error) => lending.entry_error() == Some(error),
            }
        }),
{
}

/// Why a withdrawal from the retained yield is refused: every reason that is given
/// holds.
pub proof fn law_reason_withdraw_priority(
    lending: LendingView,
    asset: Address,
    amount: u64,
    transferred: bool,
)
    ensures
        match lending.withdraw_priority_error(asset, amount, transferred) {
            None => true,
            Some(LendingError::InvalidAmount) => amount == 0,
            Some(LendingError::AssetNotSupported) => !lending.pools.contains_key(asset),
            Some(LendingError::InsufficientLiquidity) => amount
                > lending.pools[asset].retained_yield,
            Some(LendingError::TransferFailed) => !transferred,
            Some(error) => lending.entry_error() == Some(error),
        },
{
}

} // verus!
