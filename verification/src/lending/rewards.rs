//! Staking pool shares for rewards.
use vstd::prelude::*;

use crate::host::{Address, Env};
use crate::lending::pools::fresh_reward_pool;
use crate::lending::state::{LendingContract, LendingView};
use crate::lending::types::{
    LendingError, LendingEvent, LendingEventView, RewardPool, RewardRateUpdatedEvent,
    RewardsClaimedEvent, StakedEvent, UnstakedEvent, UserStake,
};
use crate::math::{lemma_floor, saturating_difference};

verus! {

/// Nine decimals of reward calculations.
pub const REWARD_PRECISION: u64 = 1_000_000_000;

/// A number that fits into 64 bits; else zero.
pub open spec fn fit_or_zero(value: int) -> u64 {
    if 0 <= value <= u64::MAX {
        value as u64
    } else {
        0
    }
}

/// A product over the reward precision; zero where the product does not fit
/// into 64 bits.
pub open spec fn scaled_reward(rate: u64, amount: u64) -> u64 {
    (fit_or_zero(rate * amount) / REWARD_PRECISION) as u64
}

/// The stake of a user who has none.
pub open spec fn no_stake() -> UserStake {
    UserStake { amount: 0, reward_per_token_paid: 0, rewards: 0, stake_time: 0 }
}

/// A reward pool brought up to date: the time since the last update adds to the
/// reward per token. A sum that does not fit into 64 bits restarts at zero.
pub open spec fn caught_up(pool: RewardPool, now: u64) -> RewardPool {
    let elapsed = saturating_difference(now, pool.last_update_time);
    if pool.total_staked > 0 && elapsed > 0 {
        let per_token = fit_or_zero(elapsed * pool.reward_rate);
        RewardPool {
            reward_per_token_stored: fit_or_zero(pool.reward_per_token_stored + per_token),
            total_rewards_distributed: fit_or_zero(
                pool.total_rewards_distributed + scaled_reward(per_token, pool.total_staked),
            ),
            last_update_time: now,
            ..pool
        }
    } else {
        RewardPool { last_update_time: now, ..pool }
    }
}

/// Rewards of a stake in a pool that is up to date.
pub open spec fn rewards_due(pool: RewardPool, stake: UserStake) -> u64 {
    if stake.amount == 0 {
        stake.rewards
    } else {
        fit_or_zero(
            stake.rewards + scaled_reward(
                saturating_difference(pool.reward_per_token_stored, stake.reward_per_token_paid),
                stake.amount,
            ),
        )
    }
}

impl LendingView {
    /// The reward pool of an asset; a new one if it has none.
    pub open spec fn reward_pool(self, asset: Address, now: u64) -> RewardPool {
        if self.reward_pools.contains_key(asset) {
            self.reward_pools[asset]
        } else {
            fresh_reward_pool(now)
        }
    }

    /// The stake of a user; nothing if there is none.
    pub open spec fn stake_of(self, user: Address, asset: Address) -> UserStake {
        if self.user_stakes.contains_key((user, asset)) {
            self.user_stakes[(user, asset)]
        } else {
            no_stake()
        }
    }

    /// The contract with another state of one reward pool.
    pub open spec fn with_reward_pool(self, asset: Address, pool: RewardPool) -> LendingView {
        LendingView { reward_pools: self.reward_pools.insert(asset, pool), ..self }
    }

    /// The contract with another stake of one user.
    pub open spec fn with_stake(self, user: Address, asset: Address, stake: UserStake)
        -> LendingView {
        LendingView { user_stakes: self.user_stakes.insert((user, asset), stake), ..self }
    }

    /// The contract with one reward pool brought up to date.
    pub open spec fn rewards_updated(self, asset: Address, now: u64) -> LendingView {
        self.with_reward_pool(asset, caught_up(self.reward_pool(asset, now), now))
    }

    /// Rewards of a user now.
    pub open spec fn pending(self, user: Address, asset: Address, now: u64) -> u64 {
        rewards_due(caught_up(self.reward_pool(asset, now), now), self.stake_of(user, asset))
    }

    /// The contract after a user's rewards were settled: the pool is up to date, and
    /// the stake records the rewards due and the reward per token that the pool had
    /// stored before. What the pool earned since its last update stays open.
    pub open spec fn debt_settled(self, user: Address, asset: Address, now: u64) -> LendingView {
        self.rewards_updated(asset, now).with_stake(
            user,
            asset,
            UserStake {
                reward_per_token_paid: self.reward_pool(asset, now).reward_per_token_stored,
                rewards: self.pending(user, asset, now),
                ..self.stake_of(user, asset)
            },
        )
    }

    /// Why staking is refused.
    pub open spec fn stake_error(self, user: Address, asset: Address, amount: u64) -> Option<
        LendingError,
    > {
        if self.access.entered {
            Some(LendingError::ReentrantCall)
        } else if self.admin is None {
            Some(LendingError::NotInitialized)
        } else if amount == 0 {
            Some(LendingError::InvalidAmount)
        } else if self.shares_of(asset, user) < amount {
            Some(LendingError::InsufficientShares)
        } else {
            None
        }
    }

    /// The contract after shares were staked. Rewards of an earlier stake start anew.
    pub open spec fn staked(self, user: Address, asset: Address, amount: u64, now: u64)
        -> LendingView {
        let pool = caught_up(self.reward_pool(asset, now), now);
        let stake = self.stake_of(user, asset);
        self.with_reward_pool(
            asset,
            RewardPool { total_staked: fit_or_zero(pool.total_staked + amount), ..pool },
        ).with_stake(
            user,
            asset,
            UserStake {
                amount: fit_or_zero(stake.amount + amount),
                reward_per_token_paid: pool.reward_per_token_stored,
                rewards: 0,
                stake_time: if stake.stake_time == 0 {
                    now
                } else {
                    stake.stake_time
                },
            },
        ).with_event(
            LendingEventView::Staked(StakedEvent { user, asset, amount, timestamp: now }),
        )
    }

    /// Why unstaking is refused.
    pub open spec fn unstake_error(self, user: Address, asset: Address, amount: u64) -> Option<
        LendingError,
    > {
        if self.access.entered {
            Some(LendingError::ReentrantCall)
        } else if self.admin is None {
            Some(LendingError::NotInitialized)
        } else if amount == 0 {
            Some(LendingError::InvalidAmount)
        } else if !self.user_stakes.contains_key((user, asset)) || self.user_stakes[(
            user,
            asset,
        )].amount < amount {
            Some(LendingError::InsufficientStake)
        } else {
            None
        }
    }

    /// The contract after shares were unstaked. The pending rewards are claimed with
    /// them.
    pub open spec fn unstaked(self, user: Address, asset: Address, amount: u64, now: u64)
        -> LendingView {
        let settled = self.debt_settled(user, asset, now);
        let pool = settled.reward_pools[asset];
        let stake = settled.user_stakes[(user, asset)];
        let left = (stake.amount - amount) as u64;
        settled.with_reward_pool(
            asset,
            RewardPool { total_staked: saturating_difference(pool.total_staked, amount), ..pool },
        ).with_stake(
            user,
            asset,
            if left == 0 {
                no_stake()
            } else {
                UserStake { amount: left, rewards: 0, ..stake }
            },
        ).with_event(
            LendingEventView::Unstaked(
                UnstakedEvent {
                    user,
                    asset,
                    amount,
                    rewards_claimed: stake.rewards,
                    timestamp: now,
                },
            ),
        )
    }

    /// Why claiming rewards is refused.
    pub open spec fn claim_rewards_error(self, user: Address, asset: Address, now: u64) -> Option<
        LendingError,
    > {
        if self.access.entered {
            Some(LendingError::ReentrantCall)
        } else if self.admin is None {
            Some(LendingError::NotInitialized)
        } else if self.pending(user, asset, now) == 0 {
            Some(LendingError::NoRewardsToClaim)
        } else {
            None
        }
    }

    /// The contract after rewards were claimed.
    pub open spec fn rewards_claimed(self, user: Address, asset: Address, now: u64) -> LendingView {
        let settled = self.debt_settled(user, asset, now);
        settled.with_stake(
            user,
            asset,
            UserStake { rewards: 0, ..settled.user_stakes[(user, asset)] },
        ).with_event(
            LendingEventView::RewardsClaimed(
                RewardsClaimedEvent {
                    user,
                    asset,
                    rewards: self.pending(user, asset, now),
                    timestamp: now,
                },
            ),
        )
    }
}

/// Staking has earned nothing yet: right after it no rewards are pending.
pub proof fn law_fresh_stake_has_no_rewards(
    lending: LendingView,
    user: Address,
    asset: Address,
    amount: u64,
    now: u64,
)
    ensures
        lending.staked(user, asset, amount, now).pending(user, asset, now) == 0,
{
    let after = lending.staked(user, asset, amount, now);
    let stake = after.stake_of(user, asset);
    let pool = caught_up(after.reward_pool(asset, now), now);
    assert(pool.reward_per_token_stored == stake.reward_per_token_paid);
    assert(0 * stake.amount == 0);
}

/// Rewards that were claimed by unstaking everything cannot be claimed again, now or
/// later.
pub proof fn law_unstaking_claims_the_rewards(
    lending: LendingView,
    user: Address,
    asset: Address,
    now: u64,
    later: u64,
)
    requires
        lending.admin is Some,
        !lending.access.entered,
    ensures
        ({
            let amount = lending.stake_of(user, asset).amount;
            let after = lending.unstaked(user, asset, amount, now);
            &&& after.pending(user, asset, later) == 0
            &&& after.claim_rewards_error(user, asset, later) == Some(
                LendingError::NoRewardsToClaim,
            )
        }),
{
}

/// Right after rewards were claimed, or paid with a part of the stake, exactly what the
/// pool earned since its last update is left to claim, on what is still staked; nothing
/// is left where the pool was up to date before. So a claim that follows another one at
/// the same time leaves nothing.
pub proof fn law_claiming_leaves_the_last_span(
    lending: LendingView,
    user: Address,
    asset: Address,
    amount: u64,
    now: u64,
)
    ensures
        ({
            let pool = lending.reward_pool(asset, now);
            let span = saturating_difference(
                caught_up(pool, now).reward_per_token_stored,
                pool.reward_per_token_stored,
            );
            let stake = lending.stake_of(user, asset);
            let claimed = lending.rewards_claimed(user, asset, now);
            &&& claimed.pending(user, asset, now) == scaled_reward(span, stake.amount)
            &&& claimed.rewards_claimed(user, asset, now).pending(user, asset, now) == 0
            &&& amount <= stake.amount ==> lending.unstaked(user, asset, amount, now).pending(
                user,
                asset,
                now,
            ) == scaled_reward(span, (stake.amount - amount) as u64)
            &&& pool.last_update_time >= now ==> claimed.pending(user, asset, now) == 0
        }),
{
    let stake = lending.stake_of(user, asset);
    assert(0 * stake.amount == 0);
    let pool = lending.reward_pool(asset, now);
    let span = saturating_difference(
        caught_up(pool, now).reward_per_token_stored,
        pool.reward_per_token_stored,
    );
    assert(span * 0 == 0);
}

/// Unstaking what was just staked takes the stake and the pool's total back to
/// what they were.
pub proof fn law_unstake_undoes_stake(
    lending: LendingView,
    user: Address,
    asset: Address,
    amount: u64,
    now: u64,
)
    requires
        lending.stake_of(user, asset).amount + amount <= u64::MAX,
        lending.reward_pool(asset, now).total_staked + amount <= u64::MAX,
    ensures
        ({
            let after = lending.staked(user, asset, amount, now).unstaked(user, asset, amount, now);
            &&& after.stake_of(user, asset).amount == lending.stake_of(user, asset).amount
            &&& after.reward_pool(asset, now).total_staked == lending.reward_pool(
                asset,
                now,
            ).total_staked
        }),
{
}

/// A product that fits into 64 bits; else zero.
fn product_or_zero(a: u64, b: u64) -> (c: u64)
    ensures
        c == fit_or_zero(a * b),
{
    proof {
        crate::math::lemma_product_fits(a, b);
    }
    match a.checked_mul(b) {
        Some(c) => c,
        None => 0,
    }
}

/// A sum that fits into 64 bits; else zero.
fn sum_or_zero(a: u64, b: u64) -> (c: u64)
    ensures
        c == fit_or_zero(a + b),
{
    match a.checked_add(b) {
        Some(c) => c,
        None => 0,
    }
}

impl LendingContract {
    /// The reward pool of an asset; a new one if it has none.
    fn reward_pool(&self, env: &Env, asset: Address) -> (pool: RewardPool)
        ensures
            pool == self@.reward_pool(asset, env.timestamp),
    {
        match self.reward_pools.get(asset) {
            Some(pool) => *pool,
            None => RewardPool::fresh(env.timestamp),
        }
    }

    /// The stake of a user; nothing if there is none.
    fn stake_of(&self, user: Address, asset: Address) -> (stake: UserStake)
        ensures
            stake == self@.stake_of(user, asset),
    {
        match self.user_stakes.get((user, asset)) {
            Some(stake) => *stake,
            None => UserStake { amount: 0, reward_per_token_paid: 0, rewards: 0, stake_time: 0 },
        }
    }

    /// Update reward pool state and calculate new reward per token
    pub fn update_reward_pool(&mut self, env: &Env, asset: Address)
        ensures
            final(self)@ == old(self)@.rewards_updated(asset, env.timestamp),
    {
        let mut pool = self.reward_pool(env, asset);
        let time_elapsed: u64 = env.timestamp.saturating_sub(pool.last_update_time);
        if pool.total_staked > 0 && time_elapsed > 0 {
            let per_token: u64 = product_or_zero(time_elapsed, pool.reward_rate);
            let new_rewards: u64 = product_or_zero(per_token, pool.total_staked)
                / REWARD_PRECISION;
            pool.reward_per_token_stored = sum_or_zero(pool.reward_per_token_stored, per_token);
            pool.total_rewards_distributed =
            sum_or_zero(pool.total_rewards_distributed, new_rewards);
        }
        pool.last_update_time = env.timestamp;
        self.reward_pools.set(asset, pool);
    }

    /// Get user's pending rewards, bringing the reward pool up to date
    pub fn calculate_pending_rewards(&mut self, env: &Env, user: Address, asset: Address) -> (
    pending: u64)
        ensures
            pending == old(self)@.pending(user, asset, env.timestamp),
            final(self)@ == old(self)@.rewards_updated(asset, env.timestamp),
    {
        self.update_reward_pool(env, asset);
        let pool = self.reward_pool(env, asset);
        let stake = self.stake_of(user, asset);
        if stake.amount == 0 {
            return stake.rewards;
        }
        let diff: u64 = pool.reward_per_token_stored.saturating_sub(stake.reward_per_token_paid);
        let pending: u64 = product_or_zero(diff, stake.amount) / REWARD_PRECISION;
        sum_or_zero(stake.rewards, pending)
    }

    /// Update user's reward debt
    pub fn update_user_reward_debt(&mut self, env: &Env, user: Address, asset: Address)
        ensures
            final(self)@ == old(self)@.debt_settled(user, asset, env.timestamp),
    {
        let pool = self.reward_pool(env, asset);
        let mut stake = self.stake_of(user, asset);
        stake.reward_per_token_paid = pool.reward_per_token_stored;
        stake.rewards = self.calculate_pending_rewards(env, user, asset);
        self.user_stakes.set((user, asset), stake);
    }

    /// Stake LP tokens (shares) for rewards for a specific asset
    pub fn stake_lp_tokens(&mut self, env: &Env, user: Address, asset: Address, amount: u64) -> (
    result: Result<(), LendingError>)
        requires
            old(self)@.well_formed(),
            env.authorized(user),
        ensures
            match result {
                Err(e) => old(self)@.stake_error(user, asset, amount) == Some(e) && final(self)@
                    == old(self)@,
                Ok(()) => old(self)@.stake_error(user, asset, amount) is None && final(self)@
                    == old(self)@.staked(user, asset, amount, env.timestamp),
            },
            final(self)@.well_formed(),
    {
        match self.require_not_entered() {
            Err(e) => {
                return Err(e);
            },
            Ok(()) => {},
        }
        match self.require_initialized() {
            Err(e) => {
                return Err(e);
            },
            Ok(()) => {},
        }
        if amount == 0 {
            return Err(LendingError::InvalidAmount);
        }
        if self.get_shares(asset, user) < amount {
            return Err(LendingError::InsufficientShares);
        }
        self.update_reward_pool(env, asset);
        let mut pool = self.reward_pool(env, asset);
        let mut stake = self.stake_of(user, asset);
        stake.reward_per_token_paid = pool.reward_per_token_stored;
        stake.rewards = 0;
        stake.amount = sum_or_zero(stake.amount, amount);
        if stake.stake_time == 0 {
            stake.stake_time = env.timestamp;
        }
        pool.total_staked = sum_or_zero(pool.total_staked, amount);
        self.reward_pools.set(asset, pool);
        self.user_stakes.set((user, asset), stake);
        self.publish(
            LendingEvent::Staked(StakedEvent { user, asset, amount, timestamp: env.timestamp }),
        );
        proof {
            assert(self@ =~= old(self)@.staked(user, asset, amount, env.timestamp));
        }
        Ok(())
    }

    /// Unstake LP tokens and claim pending rewards for a specific asset
    pub fn unstake_lp_tokens(&mut self, env: &Env, user: Address, asset: Address, amount: u64) -> (
    result: Result<(), LendingError>)
        requires
            old(self)@.well_formed(),
            env.authorized(user),
        ensures
            match result {
                Err(e) => old(self)@.unstake_error(user, asset, amount) == Some(e) && final(self)@
                    == old(self)@,
                Ok(()) => old(self)@.unstake_error(user, asset, amount) is None && final(self)@
                    == old(self)@.unstaked(user, asset, amount, env.timestamp),
            },
            final(self)@.well_formed(),
    {
        match self.require_not_entered() {
            Err(e) => {
                return Err(e);
            },
            Ok(()) => {},
        }
        match self.require_initialized() {
            Err(e) => {
                return Err(e);
            },
            Ok(()) => {},
        }
        if amount == 0 {
            return Err(LendingError::InvalidAmount);
        }
        match self.user_stakes.get((user, asset)) {
            Some(stake) => {
                if stake.amount < amount {
                    return Err(LendingError::InsufficientStake);
                }
            },
            None => {
                return Err(LendingError::InsufficientStake);
            },
        }
        self.update_user_reward_debt(env, user, asset);
        let mut stake = self.stake_of(user, asset);
        let rewards_to_claim: u64 = stake.rewards;
        stake.rewards = 0;
        stake.amount = stake.amount - amount;
        if stake.amount == 0 {
            stake.reward_per_token_paid = 0;
            stake.stake_time = 0;
        }
        let mut pool = self.reward_pool(env, asset);
        pool.total_staked = pool.total_staked.saturating_sub(amount);
        self.reward_pools.set(asset, pool);
        self.user_stakes.set((user, asset), stake);
        self.publish(
            LendingEvent::Unstaked(
                UnstakedEvent {
                    user,
                    asset,
                    amount,
                    rewards_claimed: rewards_to_claim,
                    timestamp: env.timestamp,
                },
            ),
        );
        Ok(())
    }

    /// Claim accumulated rewards without unstaking for a specific asset
    pub fn claim_rewards(&mut self, env: &Env, user: Address, asset: Address) -> (result: Result<
        u64,
        LendingError,
    >)
        requires
            old(self)@.well_formed(),
            env.authorized(user),
        ensures
            ({
                let error = old(self)@.claim_rewards_error(user, asset, env.timestamp);
                match result {
                    Err(e) => error == Some(e) && final(self)@ == old(self)@,
                    Ok(rewards) => error is None && rewards == old(self)@.pending(
                        user,
                        asset,
                        env.timestamp,
                    ) && final(self)@ == old(self)@.rewards_claimed(user, asset, env.timestamp),
                }
            }),
            final(self)@.well_formed(),
    {
        match self.require_not_entered() {
            Err(e) => {
                return Err(e);
            },
            Ok(()) => {},
        }
        match self.require_initialized() {
            Err(e) => {
                return Err(e);
            },
            Ok(()) => {},
        }
        if self.preview_rewards(env, user, asset) == 0 {
            return Err(LendingError::NoRewardsToClaim);
        }
        self.update_user_reward_debt(env, user, asset);
        let mut stake = self.stake_of(user, asset);
        let rewards_to_claim: u64 = stake.rewards;
        stake.rewards = 0;
        self.user_stakes.set((user, asset), stake);
        self.publish(
            LendingEvent::RewardsClaimed(
                RewardsClaimedEvent {
                    user,
                    asset,
                    rewards: rewards_to_claim,
                    timestamp: env.timestamp,
                },
            ),
        );
        Ok(rewards_to_claim)
    }

    /// Rewards of a user now, with nothing brought up to date.
    fn preview_rewards(&self, env: &Env, user: Address, asset: Address) -> (pending: u64)
        ensures
            pending == self@.pending(user, asset, env.timestamp),
    {
        let pool = self.reward_pool(env, asset);
        let stake = self.stake_of(user, asset);
        let mut stored: u64 = pool.reward_per_token_stored;
        let time_elapsed: u64 = env.timestamp.saturating_sub(pool.last_update_time);
        if pool.total_staked > 0 && time_elapsed > 0 {
            stored = sum_or_zero(stored, product_or_zero(time_elapsed, pool.reward_rate));
        }
        if stake.amount == 0 {
            return stake.rewards;
        }
        let diff: u64 = stored.saturating_sub(stake.reward_per_token_paid);
        sum_or_zero(stake.rewards, product_or_zero(diff, stake.amount) / REWARD_PRECISION)
    }

    /// Get total staked in the reward pool for a specific asset
    pub fn get_total_staked(&self, env: &Env, asset: Address) -> (staked: u64)
        ensures
            staked == self@.reward_pool(asset, env.timestamp).total_staked,
    {
        self.reward_pool(env, asset).total_staked
    }

    /// Get current reward rate for a specific asset
    pub fn get_reward_rate(&self, env: &Env, asset: Address) -> (rate: u64)
        ensures
            rate == self@.reward_pool(asset, env.timestamp).reward_rate,
    {
        self.reward_pool(env, asset).reward_rate
    }

    /// Get user's staked balance for a specific asset
    pub fn get_staked_balance(&self, user: Address, asset: Address) -> (balance: u64)
        ensures
            balance == self@.stake_of(user, asset).amount,
    {
        self.stake_of(user, asset).amount
    }

    /// Get pending rewards for a user for a specific asset. The reward pool is brought
    /// up to date, unless another call is under way.
    pub fn get_pending_rewards(&mut self, env: &Env, user: Address, asset: Address) -> (pending:
        u64)
        requires
            old(self)@.well_formed(),
        ensures
            pending == old(self)@.pending(user, asset, env.timestamp),
            final(self)@ == if old(self)@.access.entered {
                old(self)@
            } else {
                old(self)@.rewards_updated(asset, env.timestamp)
            },
            final(self)@.well_formed(),
    {
        if self.access.entered {
            return self.preview_rewards(env, user, asset);
        }
        self.calculate_pending_rewards(env, user, asset)
    }

    /// Set reward rate for an asset (admin only)
    pub fn set_reward_rate(&mut self, env: &Env, admin: Address, asset: Address, new_rate: u64) -> (
    result: Result<(), LendingError>)
        requires
            old(self)@.well_formed(),
            env.authorized(admin),
        ensures
            match result {
                Err(e) => final(self)@ == old(self)@ && if old(self)@.admin_error(admin) is Some {
                    old(self)@.admin_error(admin) == Some(e)
                } else {
                    new_rate == 0 && e == LendingError::InvalidRewardRate
                },
                Ok(()) => {
                    let pool = caught_up(
                        old(self)@.reward_pool(asset, env.timestamp),
                        env.timestamp,
                    );
                    &&& old(self)@.admin_error(admin) is None
                    &&& new_rate > 0
                    &&& final(self)@ == old(self)@.with_reward_pool(
                        asset,
                        RewardPool { reward_rate: new_rate, ..pool },
                    ).with_event(
                        LendingEventView::RewardRateUpdated(
                            RewardRateUpdatedEvent {
                                asset,
                                old_rate: pool.reward_rate,
                                new_rate,
                                timestamp: env.timestamp,
                            },
                        ),
                    )
                },
            },
            final(self)@.well_formed(),
    {
        match self.require_admin(env, admin) {
            Err(e) => {
                return Err(e);
            },
            Ok(()) => {},
        }
        if new_rate == 0 {
            return Err(LendingError::InvalidRewardRate);
        }
        self.update_reward_pool(env, asset);
        let mut pool = self.reward_pool(env, asset);
        let old_rate: u64 = pool.reward_rate;
        pool.reward_rate = new_rate;
        self.reward_pools.set(asset, pool);
        self.publish(
            LendingEvent::RewardRateUpdated(
                RewardRateUpdatedEvent { asset, old_rate, new_rate, timestamp: env.timestamp },
            ),
        );
        Ok(())
    }
}

/// A reward pool grows by its rate for each second since its last update, per token that
/// is staked; without stakes it does not grow. A token earns a billionth of that.
pub proof fn law_rewards_grow_by_the_second(pool: RewardPool, now: u64)
    requires
        pool.last_update_time <= now,
        pool.reward_per_token_stored + (now - pool.last_update_time) * pool.reward_rate
            <= 0xffff_ffff_ffff_ffff,
    ensures
        ({
            let after = caught_up(pool, now);
            &&& after.last_update_time == now
            &&& after.total_staked == pool.total_staked && after.reward_rate == pool.reward_rate
            &&& pool.total_staked > 0 ==> after.reward_per_token_stored
                == pool.reward_per_token_stored + (now - pool.last_update_time) * pool.reward_rate
            &&& pool.total_staked == 0 ==> after.reward_per_token_stored
                == pool.reward_per_token_stored && after.total_rewards_distributed
                == pool.total_rewards_distributed
        }),
{
    let elapsed = now - pool.last_update_time;
    assert(0 <= elapsed * pool.reward_rate) by (nonlinear_arith)
        requires
            0 <= elapsed,
            0 <= pool.reward_rate,
    ;
    if elapsed == 0 {
        assert(0 * pool.reward_rate == 0);
    }
}

/// A stake earns, beside the rewards it has, its amount times the growth of the reward
/// per token since it was last settled, over a billion and rounded down.
pub proof fn law_rewards_of_a_stake(pool: RewardPool, stake: UserStake)
    requires
        stake.reward_per_token_paid <= pool.reward_per_token_stored,
        (pool.reward_per_token_stored - stake.reward_per_token_paid) * stake.amount
            <= 0xffff_ffff_ffff_ffff,
        stake.rewards + ((pool.reward_per_token_stored - stake.reward_per_token_paid)
            * stake.amount) / 1_000_000_000 <= 0xffff_ffff_ffff_ffff,
    ensures
        ({
            let earned = rewards_due(pool, stake) - stake.rewards;
            earned * 1_000_000_000 <= (pool.reward_per_token_stored - stake.reward_per_token_paid)
                * stake.amount < (earned + 1) * 1_000_000_000
        }),
{
    let growth = pool.reward_per_token_stored - stake.reward_per_token_paid;
    let exact = growth * stake.amount;
    assert(0 <= exact) by (nonlinear_arith)
        requires
            exact == growth * stake.amount,
            0 <= growth,
            0 <= stake.amount,
    ;
    crate::math::lemma_floor(exact, 1_000_000_000);
    if stake.amount == 0 {
        assert(growth * 0 == 0);
    }
}

/// Who can stake, unstake and claim, and on what.
pub proof fn law_staking_is_admitted(
    lending: LendingView,
    user: Address,
    asset: Address,
    amount: u64,
    now: u64,
)
    ensures
        lending.stake_error(user, asset, amount) is None <==> lending.admin is Some
            && !lending.access.entered && 0 < amount <= lending.shares_of(asset, user),
        lending.unstake_error(user, asset, amount) is None <==> lending.admin is Some
            && !lending.access.entered && lending.user_stakes.contains_key((user, asset)) && 0
            < amount <= lending.user_stakes[(user, asset)].amount,
        lending.claim_rewards_error(user, asset, now) is None <==> lending.admin is Some
            && !lending.access.entered && lending.pending(user, asset, now) > 0,
{
}

/// Staking adds the amount to the user's stake and to the pool's total, and starts the
/// user's rewards anew at what the pool has stored now. Nobody else's stake changes.
pub proof fn law_staking(
    lending: LendingView,
    user: Address,
    asset: Address,
    amount: u64,
    now: u64,
)
    requires
        lending.stake_of(user, asset).amount + amount <= 0xffff_ffff_ffff_ffff,
        lending.reward_pool(asset, now).total_staked + amount <= 0xffff_ffff_ffff_ffff,
    ensures
        ({
            let before = lending.stake_of(user, asset);
            let pool = caught_up(lending.reward_pool(asset, now), now);
            let after = lending.staked(user, asset, amount, now);
            let stake = after.stake_of(user, asset);
            &&& stake.amount == before.amount + amount && stake.rewards == 0
            &&& stake.reward_per_token_paid == pool.reward_per_token_stored
            &&& stake.stake_time == (if before.stake_time == 0 {
                now
            } else {
                before.stake_time
            })
            &&& after.reward_pool(asset, now).total_staked == pool.total_staked + amount
            &&& after.reward_pool(asset, now) == (RewardPool {
                total_staked: after.reward_pool(asset, now).total_staked,
                ..pool
            })
            &&& forall|u: Address, a: Address|
                (u, a) != (user, asset) ==> #[trigger] after.stake_of(u, a) == lending.stake_of(
                    u,
                    a,
                )
            &&& forall|a: Address|
                a != asset ==> #[trigger] after.reward_pool(a, now) == lending.reward_pool(a, now)
            &&& after.events == lending.events.push(
                LendingEventView::Staked(StakedEvent { user, asset, amount, timestamp: now }),
            )
            &&& after == (LendingView {
                user_stakes: after.user_stakes,
                reward_pools: after.reward_pools,
                events: after.events,
                ..lending
            })
        }),
{
}

/// Unstaking takes the amount from the user's stake and from the pool's total, and pays
/// the rewards that were pending. Nobody else's stake changes.
pub proof fn law_unstaking(
    lending: LendingView,
    user: Address,
    asset: Address,
    amount: u64,
    now: u64,
)
    requires
        amount <= lending.stake_of(user, asset).amount,
        amount <= lending.reward_pool(asset, now).total_staked,
    ensures
        ({
            let before = lending.stake_of(user, asset);
            let pool = caught_up(lending.reward_pool(asset, now), now);
            let after = lending.unstaked(user, asset, amount, now);
            &&& after.stake_of(user, asset).amount + amount == before.amount
            &&& after.stake_of(user, asset).rewards == 0
            &&& after.reward_pool(asset, now).total_staked + amount == pool.total_staked
            &&& after.reward_pool(asset, now) == (RewardPool {
                total_staked: after.reward_pool(asset, now).total_staked,
                ..pool
            })
            &&& amount < before.amount ==> after.stake_of(user, asset).stake_time
                == before.stake_time && after.stake_of(user, asset).reward_per_token_paid
                == lending.reward_pool(asset, now).reward_per_token_stored
            &&& amount == before.amount ==> after.stake_of(user, asset).stake_time == 0
                && after.stake_of(user, asset).reward_per_token_paid == 0
            &&& forall|u: Address, a: Address|
                (u, a) != (user, asset) ==> #[trigger] after.stake_of(u, a) == lending.stake_of(
                    u,
                    a,
                )
            &&& after.events == lending.events.push(
                LendingEventView::Unstaked(
                    UnstakedEvent {
                        user,
                        asset,
                        amount,
                        rewards_claimed: lending.pending(user, asset, now),
                        timestamp: now,
                    },
                ),
            )
            &&& after == (LendingView {
                user_stakes: after.user_stakes,
                reward_pools: after.reward_pools,
                events: after.events,
                ..lending
            })
        }),
{
}

/// Claiming pays the pending rewards and leaves the stake as large as it was.
pub proof fn law_claiming_rewards(lending: LendingView, user: Address, asset: Address, now: u64)
    ensures
        ({
            let after = lending.rewards_claimed(user, asset, now);
            let pool = caught_up(lending.reward_pool(asset, now), now);
            &&& after.stake_of(user, asset) == (UserStake {
                rewards: 0,
                reward_per_token_paid: lending.reward_pool(asset, now).reward_per_token_stored,
                ..lending.stake_of(user, asset)
            })
            &&& after.reward_pool(asset, now) == pool
            &&& lending.pending(user, asset, now) == rewards_due(
                pool,
                lending.stake_of(user, asset),
            )
            &&& forall|u: Address, a: Address|
                (u, a) != (user, asset) ==> #[trigger] after.stake_of(u, a) == lending.stake_of(
                    u,
                    a,
                )
            &&& after.events == lending.events.push(
                LendingEventView::RewardsClaimed(
                    RewardsClaimedEvent {
                        user,
                        asset,
                        rewards: lending.pending(user, asset, now),
                        timestamp: now,
                    },
                ),
            )
            &&& after == (LendingView {
                user_stakes: after.user_stakes,
                reward_pools: after.reward_pools,
                events: after.events,
                ..lending
            })
        }),
{
}

/// Why staking is refused: every reason that is given holds.
pub proof fn law_reason_stake(lending: LendingView, user: Address, asset: Address, amount: u64)
    ensures
        match lending.stake_error(user, asset, amount) {
            None => true,
            Some(LendingError::ReentrantCall) => lending.access.entered,
            Some(LendingError::NotInitialized) => lending.admin is None,
            Some(LendingError::InvalidAmount) => amount == 0,
            Some(LendingError::InsufficientShares) => lending.shares_of(asset, user) < amount,
            Some(_) => false,
        },
{
}

/// Why unstaking is refused: every reason that is given holds.
pub proof fn law_reason_unstake(lending: LendingView, user: Address, asset: Address, amount: u64)
    ensures
        match lending.unstake_error(user, asset, amount) {
            None => true,
            Some(LendingError::ReentrantCall) => lending.access.entered,
            Some(LendingError::NotInitialized) => lending.admin is None,
            Some(LendingError::InvalidAmount) => amount == 0,
            Some(LendingError::InsufficientStake) => !lending.user_stakes.contains_key((user,
                asset)) || lending.user_stakes[(user, asset)].amount < amount,
            Some(_) => false,
        },
{
}

/// Why claiming rewards is refused: every reason that is given holds.
pub proof fn law_reason_claim_rewards(lending: LendingView, user: Address, asset: Address, now: u64)
    ensures
        match lending.claim_rewards_error(user, asset, now) {
            None => true,
            Some(LendingError::ReentrantCall) => lending.access.entered,
            Some(LendingError::NotInitialized) => lending.admin is None,
            Some(LendingError::NoRewardsToClaim) => lending.pending(user, asset, now) == 0,
            Some(_) => false,
        },
{
}

/// What a pool has given out grows by what the reward per token of the time gives to all
/// that is staked, in units of nine decimals and rounded down. A number that does not
/// fit into 64 bits counts as zero.
pub proof fn law_rewards_given_out(pool: RewardPool, now: u64, value: int)
    requires
        pool.last_update_time <= now,
        pool.total_staked > 0,
        (now - pool.last_update_time) * pool.reward_rate <= 0xffff_ffff_ffff_ffff,
        (now - pool.last_update_time) * pool.reward_rate * pool.total_staked
            <= 0xffff_ffff_ffff_ffff,
        pool.total_rewards_distributed + ((now - pool.last_update_time) * pool.reward_rate
            * pool.total_staked) / 1_000_000_000 <= 0xffff_ffff_ffff_ffff,
    ensures
        ({
            let given = caught_up(pool, now).total_rewards_distributed
                - pool.total_rewards_distributed;
            let earned = (now - pool.last_update_time) * pool.reward_rate * pool.total_staked;
            given * 1_000_000_000 <= earned < (given + 1) * 1_000_000_000
        }),
        0 <= value <= 0xffff_ffff_ffff_ffff ==> fit_or_zero(value) == value,
        !(0 <= value <= 0xffff_ffff_ffff_ffff) ==> fit_or_zero(value) == 0,
{
    let per_token = (now - pool.last_update_time) * pool.reward_rate;
    assert(0 <= per_token) by (nonlinear_arith)
        requires
            per_token == (now - pool.last_update_time) * pool.reward_rate,
            pool.last_update_time <= now,
            0 <= pool.reward_rate,
    ;
    assert(0 <= per_token * pool.total_staked) by (nonlinear_arith)
        requires
            0 <= per_token,
            0 <= pool.total_staked,
    ;
    lemma_floor(per_token * pool.total_staked, 1_000_000_000);
    if now == pool.last_update_time {
        assert(per_token == 0) by (nonlinear_arith)
            requires
                per_token == (now - pool.last_update_time) * pool.reward_rate,
                now == pool.last_update_time,
        ;
        assert(0 * pool.total_staked == 0);
    } else {
        let elapsed = saturating_difference(now, pool.last_update_time);
        assert(elapsed * pool.reward_rate == per_token);
        assert(fit_or_zero(elapsed * pool.reward_rate) == per_token);
        assert(scaled_reward(per_token as u64, pool.total_staked) == (per_token * pool.total_staked)
            / 1_000_000_000);
    }
}

/// An asset without a reward pool has a fresh one: nothing staked or given out, and one
/// reward a second with nine decimals. A user without a stake has none.
pub proof fn law_fresh_rewards(lending: LendingView, user: Address, asset: Address, now: u64)
    ensures
        lending.reward_pools.contains_key(asset) ==> lending.reward_pool(asset, now)
            == lending.reward_pools[asset],
        !lending.reward_pools.contains_key(asset) ==> lending.reward_pool(asset, now) == (
        RewardPool {
            total_staked: 0,
            reward_rate: 1_000_000_000,
            last_update_time: now,
            reward_per_token_stored: 0,
            total_rewards_distributed: 0,
        }),
        lending.user_stakes.contains_key((user, asset)) ==> lending.stake_of(user, asset)
            == lending.user_stakes[(user, asset)],
        !lending.user_stakes.contains_key((user, asset)) ==> lending.stake_of(user, asset) == (
        UserStake { amount: 0, reward_per_token_paid: 0, rewards: 0, stake_time: 0 }),
{
}

} // verus!
