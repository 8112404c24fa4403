//! Staking $NAIM for a share of the fees.
//!
//! The pool keeps a reward-per-share accumulator. Before a position changes, the
//! rewards that reached the vault since the last interaction are folded into the
//! accumulator, and what the position has earned is paid out.
use vstd::prelude::*;

use crate::action::{unless_zero, Action, Mint, Vault, VaultSigner};
use crate::arith::{fits_i64, low_u64, monus, truncate_u64};
use crate::constants::ACC_PRECISION;
use crate::error::{Error, NaimError};
use crate::pubkey::Pubkey;
use crate::state::{StakeAccount, StakePool, TokenConfig};

verus! {

/// The accumulator once a vault balance of `rewards_balance` is folded in: the
/// growth of the balance, scaled, divided among the staked units and rounded
/// down. Nothing is added while nothing is staked.
pub open spec fn synced_acc(pool: StakePool, rewards_balance: u64) -> int {
    if pool.total_staked > 0 {
        pool.acc_reward_per_share + monus(
            rewards_balance as int,
            pool.last_reward_balance as int,
        ) * 1_000_000_000_000 / (pool.total_staked as int)
    } else {
        pool.acc_reward_per_share as int
    }
}

/// The pool once a vault balance of `rewards_balance` is folded in.
pub open spec fn synced(pool: StakePool, rewards_balance: u64) -> StakePool {
    StakePool {
        acc_reward_per_share: synced_acc(pool, rewards_balance) as u128,
        last_reward_balance: rewards_balance,
        ..pool
    }
}

/// What `amount` staked units have earned over the accumulator's whole life.
pub open spec fn entitled(amount: u64, acc: int) -> int {
    amount * acc / 1_000_000_000_000
}

/// Rewards owed to a position since its last interaction.
pub open spec fn owed(position: StakeAccount, acc: int) -> u64 {
    low_u64(monus(entitled(position.amount, acc), position.reward_debt as int))
}

/// A transfer out of a vault, or nothing where the amount is zero.
pub open spec fn vault_payout(
    mint: Mint,
    from: Pubkey,
    to: Pubkey,
    signer: VaultSigner,
    amount: u64,
) -> Seq<Action> {
    unless_zero(
        amount,
        Action::TransferToken {
            mint: mint.key,
            from,
            to,
            amount,
            decimals: mint.decimals,
            signer: Some(signer),
        },
    )
}

/// Folds newly arrived rewards (the growth of the stakers vault) into the
/// per-share accumulator. Rewards that arrive while nothing is staked are
/// skipped.
pub fn sync_pool(pool: &mut StakePool, rewards_balance: u64)
    requires
        synced_acc(*old(pool), rewards_balance) <= u128::MAX,
    ensures
        *final(pool) == synced(*old(pool), rewards_balance),
{
    if pool.total_staked > 0 {
        let delta: u64 = rewards_balance.saturating_sub(pool.last_reward_balance);
        if delta > 0 {
            pool.acc_reward_per_share = pool.acc_reward_per_share + delta as u128 * ACC_PRECISION
                / (pool.total_staked as u128);
        }
    }
    pool.last_reward_balance = rewards_balance;
}

/// Whether folding in `rewards_balance` keeps the accumulator in range.
fn sync_fits(pool: &StakePool, rewards_balance: u64) -> (fits: bool)
    ensures
        fits == (synced_acc(*pool, rewards_balance) <= u128::MAX),
{
    if pool.total_staked > 0 {
        let delta: u64 = rewards_balance.saturating_sub(pool.last_reward_balance);
        let growth: u128 = delta as u128 * ACC_PRECISION / (pool.total_staked as u128);
        growth <= u128::MAX - pool.acc_reward_per_share
    } else {
        true
    }
}

/// Whether `amount * acc` is in range.
fn product_fits(amount: u64, acc: u128) -> (fits: bool)
    ensures
        fits == (amount * acc <= u128::MAX),
{
    (amount as u128).checked_mul(acc).is_some()
}

/// Rewards owed to a position since its last interaction.
pub fn pending(stake: &StakeAccount, acc: u128) -> (amount: u64)
    requires
        stake.amount * acc <= u128::MAX,
    ensures
        amount == owed(*stake, acc as int),
{
    let earned: u128 = (stake.amount as u128) * acc / ACC_PRECISION;
    truncate_u64(earned.saturating_sub(stake.reward_debt))
}

/// Transfers `amount` out of a program-owned vault, signed by its authority.
pub fn pay_from_vault(
    actions: &mut Vec<Action>,
    mint: &Mint,
    from: &Pubkey,
    to: &Pubkey,
    signer: VaultSigner,
    amount: u64,
)
    ensures
        final(actions)@ == old(actions)@ + vault_payout(*mint, *from, *to, signer, amount),
{
    if amount == 0 {
        return ;
    }
    actions.push(
        Action::TransferToken {
            mint: mint.key,
            from: *from,
            to: *to,
            amount,
            decimals: mint.decimals,
            signer: Some(signer),
        },
    );
}

/// Accounts of `init_stake_pool`.
#[derive(Clone, Copy, Debug, PartialEq, Eq)]
pub struct InitStakePool {
    /// The pool, which must not exist yet.
    pub stake_pool: Option<StakePool>,
    pub token_config: TokenConfig,
    /// The signer.
    pub admin: Pubkey,
    pub naim_mint: Mint,
    /// Balance of the stakers vault, which rewards are paid from.
    pub rewards_balance: u64,
    pub stake_pool_bump: u8,
    pub stake_vault_bump: u8,
}

/// Why `init_stake_pool` is refused.
pub open spec fn init_stake_pool_refusal(ctx: InitStakePool) -> Option<Error> {
    if ctx.stake_pool is Some {
        Some(Error::AccountInUse)
    } else if ctx.token_config.admin != ctx.admin {
        Some(Error::ConstraintHasOne)
    } else if ctx.naim_mint.key != ctx.token_config.naim_mint {
        Some(Error::ConstraintAddress)
    } else {
        None
    }
}

/// How `init_stake_pool` takes `before` to `after`, and what it returns.
pub open spec fn init_stake_pool_outcome(
    before: InitStakePool,
    after: InitStakePool,
    res: Result<(), Error>,
) -> bool {
    match res {
        Ok(_) => {
            &&& init_stake_pool_refusal(before) is None
            &&& after == (InitStakePool {
                stake_pool: Some(StakePool {
                    admin: before.admin,
                    naim_mint: before.naim_mint.key,
                    total_staked: 0,
                    acc_reward_per_share: 0,
                    last_reward_balance: before.rewards_balance,
                    bump: before.stake_pool_bump,
                    stake_vault_bump: before.stake_vault_bump,
                }),
                ..before
            })
        },
        Err(e) => {
            &&& init_stake_pool_refusal(before) == Some(e)
            &&& after == before
        },
    }
}

/// One-time staking setup. Rewards that arrived before any staking existed are
/// skipped.
pub fn init_stake_pool(ctx: &mut InitStakePool) -> (res: Result<(), Error>)
    ensures
        init_stake_pool_outcome(*old(ctx), *final(ctx), res),
{
    if ctx.stake_pool.is_some() {
        return Err(Error::AccountInUse);
    }
    if ctx.token_config.admin != ctx.admin {
        return Err(Error::ConstraintHasOne);
    }
    if ctx.naim_mint.key != ctx.token_config.naim_mint {
        return Err(Error::ConstraintAddress);
    }
    ctx.stake_pool = Some(StakePool {
        admin: ctx.admin,
        naim_mint: ctx.naim_mint.key,
        total_staked: 0,
        acc_reward_per_share: 0,
        last_reward_balance: ctx.rewards_balance,
        bump: ctx.stake_pool_bump,
        stake_vault_bump: ctx.stake_vault_bump,
    });
    Ok(())
}

/// Accounts of `stake`.
#[derive(Clone, Copy, Debug, PartialEq, Eq)]
pub struct Stake {
    pub stake_pool: StakePool,
    pub stake_account: StakeAccount,
    /// The user whose key the position's address is derived from.
    pub stake_account_seed: Pubkey,
    pub token_config: TokenConfig,
    /// The signer.
    pub user: Pubkey,
    pub naim_mint: Mint,
    /// Authority of the vault that custodies principal.
    pub stake_vault: Pubkey,
    /// Authority of the vault that rewards are paid from.
    pub stakers_vault: Pubkey,
    /// Balance of the stakers vault.
    pub rewards_balance: u64,
    pub stake_account_bump: u8,
}

impl Stake {
    /// The accumulator with the rewards that arrived folded in.
    pub open spec fn acc(self) -> int {
        synced_acc(self.stake_pool, self.rewards_balance)
    }

    /// The rewards that the position has earned.
    pub open spec fn reward(self) -> u64 {
        owed(self.stake_account, self.acc())
    }
}

/// Why `stake` is refused.
pub open spec fn stake_refusal(ctx: Stake, amount: u64, lock_seconds: i64) -> Option<Error> {
    if ctx.stake_account_seed != ctx.user {
        Some(Error::ConstraintSeeds)
    } else if ctx.naim_mint.key != ctx.stake_pool.naim_mint {
        Some(Error::ConstraintAddress)
    } else if amount == 0 || lock_seconds < 0 {
        Some(Error::Naim(NaimError::InvalidConfig))
    } else {
        None
    }
}

/// Whether the sums of an accepted `stake` are in range.
pub open spec fn stake_in_range(ctx: Stake, amount: u64, lock_seconds: i64, now: i64) -> bool {
    stake_refusal(ctx, amount, lock_seconds) is None ==> {
        &&& ctx.acc() <= u128::MAX
        &&& ctx.stake_account.amount + amount <= u64::MAX
        &&& fits_i64(now + lock_seconds)
        &&& (ctx.stake_account.amount + amount) * ctx.acc() <= u128::MAX
        &&& ctx.stake_pool.total_staked + amount <= u64::MAX
    }
}

/// The position after `stake`: a new one belongs to the caller; the principal
/// grows; the lock is extended, never shortened; the rewards are settled.
pub open spec fn position_after_stake(
    ctx: Stake,
    amount: u64,
    lock_seconds: i64,
    now: i64,
) -> StakeAccount {
    let old_position = ctx.stake_account;
    let is_new = old_position.owner.is_zero();
    let principal = (old_position.amount + amount) as u64;
    StakeAccount {
        owner: if is_new {
            ctx.user
        } else {
            old_position.owner
        },
        amount: principal,
        reward_debt: entitled(principal, ctx.acc()) as u128,
        lock_end: if now + lock_seconds > old_position.lock_end {
            (now + lock_seconds) as i64
        } else {
            old_position.lock_end
        },
        bump: if is_new {
            ctx.stake_account_bump
        } else {
            old_position.bump
        },
    }
}

/// The pool after `stake`.
pub open spec fn pool_after_stake(ctx: Stake, amount: u64) -> StakePool {
    StakePool {
        total_staked: (ctx.stake_pool.total_staked + amount) as u64,
        last_reward_balance: monus(ctx.rewards_balance as int, ctx.reward() as int) as u64,
        ..synced(ctx.stake_pool, ctx.rewards_balance)
    }
}

/// What `stake` moves: the principal into custody, then the rewards to the user.
pub open spec fn stake_actions(ctx: Stake, amount: u64) -> Seq<Action> {
    seq![
        Action::TransferToken {
            mint: ctx.naim_mint.key,
            from: ctx.user,
            to: ctx.stake_vault,
            amount,
            decimals: ctx.naim_mint.decimals,
            signer: None,
        },
    ] + vault_payout(
        ctx.naim_mint,
        ctx.stakers_vault,
        ctx.user,
        VaultSigner { vault: Vault::Stakers, bump: ctx.token_config.vault_bump },
        ctx.reward(),
    )
}

/// How `stake` takes `before` to `after`, and what it returns.
pub open spec fn stake_outcome(
    before: Stake,
    amount: u64,
    lock_seconds: i64,
    now: i64,
    after: Stake,
    res: Result<Vec<Action>, Error>,
) -> bool {
    match res {
        Ok(actions) => {
            &&& stake_refusal(before, amount, lock_seconds) is None
            &&& actions@ == stake_actions(before, amount)
            &&& after == Stake {
                stake_pool: pool_after_stake(before, amount),
                stake_account: position_after_stake(before, amount, lock_seconds, now),
                ..before
            }
        },
        Err(e) => {
            &&& stake_refusal(before, amount, lock_seconds) == Some(e)
            &&& after == before
        },
    }
}

/// Whether the sums of an accepted `stake` are in range.
fn stake_fits(ctx: &Stake, amount: u64, lock_seconds: i64, now: i64) -> (fits: bool)
    ensures
        fits == stake_in_range(*ctx, amount, lock_seconds, now),
{
    if ctx.stake_account_seed != ctx.user || ctx.naim_mint.key != ctx.stake_pool.naim_mint
        || amount == 0 || lock_seconds < 0 {
        return true;
    }
    if !sync_fits(&ctx.stake_pool, ctx.rewards_balance) {
        return false;
    }
    let mut pool: StakePool = ctx.stake_pool;
    sync_pool(&mut pool, ctx.rewards_balance);
    match ctx.stake_account.amount.checked_add(amount) {
        None => false,
        Some(principal) => {
            product_fits(principal, pool.acc_reward_per_share) && now.checked_add(
                lock_seconds,
            ).is_some() && ctx.stake_pool.total_staked.checked_add(amount).is_some()
        },
    }
}

/// Stakes $NAIM, locking it for `lock_seconds`. Pays out pending rewards first.
pub fn stake(ctx: &mut Stake, amount: u64, lock_seconds: i64, now: i64) -> (res: Result<
    Vec<Action>,
    Error,
>)
    requires
        stake_in_range(*old(ctx), amount, lock_seconds, now),
    ensures
        stake_outcome(*old(ctx), amount, lock_seconds, now, *final(ctx), res),
{
    if ctx.stake_account_seed != ctx.user {
        return Err(Error::ConstraintSeeds);
    }
    if ctx.naim_mint.key != ctx.stake_pool.naim_mint {
        return Err(Error::ConstraintAddress);
    }
    if amount == 0 || lock_seconds < 0 {
        return Err(Error::Naim(NaimError::InvalidConfig));
    }
    sync_pool(&mut ctx.stake_pool, ctx.rewards_balance);
    let acc: u128 = ctx.stake_pool.acc_reward_per_share;
    if ctx.stake_account.owner.is_default() {
        ctx.stake_account.owner = ctx.user;
        ctx.stake_account.bump = ctx.stake_account_bump;
    }
    proof {
        lemma_product_grows(ctx.stake_account.amount as int, amount as int, acc as int);
    }
    let pend: u64 = pending(&ctx.stake_account, acc);
    let mut actions: Vec<Action> = Vec::new();
    actions.push(
        Action::TransferToken {
            mint: ctx.naim_mint.key,
            from: ctx.user,
            to: ctx.stake_vault,
            amount,
            decimals: ctx.naim_mint.decimals,
            signer: None,
        },
    );
    ctx.stake_account.amount = ctx.stake_account.amount + amount;
    let new_lock: i64 = now + lock_seconds;
    if new_lock > ctx.stake_account.lock_end {
        ctx.stake_account.lock_end = new_lock;
    }
    ctx.stake_account.reward_debt = (ctx.stake_account.amount as u128) * acc / ACC_PRECISION;
    ctx.stake_pool.total_staked = ctx.stake_pool.total_staked + amount;
    pay_from_vault(
        &mut actions,
        &ctx.naim_mint,
        &ctx.stakers_vault,
        &ctx.user,
        VaultSigner { vault: Vault::Stakers, bump: ctx.token_config.vault_bump },
        pend,
    );
    ctx.stake_pool.last_reward_balance = ctx.stake_pool.last_reward_balance.saturating_sub(pend);
    assert(actions@ =~= stake_actions(*old(ctx), amount));
    Ok(actions)
}

/// How `try_stake` takes `before` to `after`, and what it returns.
pub open spec fn try_stake_outcome(
    before: Stake,
    amount: u64,
    lock_seconds: i64,
    now: i64,
    after: Stake,
    res: Option<Result<Vec<Action>, Error>>,
) -> bool {
    match res {
        None => {
            &&& !stake_in_range(
                before,
                amount,
                lock_seconds,
                now,
            )
            &&& after == before
        },
        Some(r) => {
            &&& stake_in_range(
                before,
                amount,
                lock_seconds,
                now,
            )
            &&& stake_outcome(
                before,
                amount,
                lock_seconds,
                now,
                after,
                r,
            )
        },
    }
}

/// `stake` for any input: `None` where its sums are out of range.
pub fn try_stake(ctx: &mut Stake, amount: u64, lock_seconds: i64, now: i64) -> (res: Option<
    Result<Vec<Action>, Error>,
>)
    ensures
        try_stake_outcome(
            *old(ctx),
            amount,
            lock_seconds,
            now,
            *final(ctx),
            res,
        ),
{
    if stake_fits(ctx, amount, lock_seconds, now) {
        Some(stake(ctx, amount, lock_seconds, now))
    } else {
        None
    }
}

/// Accounts of `claim_rewards`.
#[derive(Clone, Copy, Debug, PartialEq, Eq)]
pub struct ClaimRewards {
    pub stake_pool: StakePool,
    pub stake_account: StakeAccount,
    /// The user whose key the position's address is derived from.
    pub stake_account_seed: Pubkey,
    pub token_config: TokenConfig,
    /// The signer.
    pub user: Pubkey,
    pub naim_mint: Mint,
    /// Authority of the vault that rewards are paid from.
    pub stakers_vault: Pubkey,
    /// Balance of the stakers vault.
    pub rewards_balance: u64,
}

impl ClaimRewards {
    /// The accumulator with the rewards that arrived folded in.
    pub open spec fn acc(self) -> int {
        synced_acc(self.stake_pool, self.rewards_balance)
    }

    /// The rewards that the position has earned.
    pub open spec fn reward(self) -> u64 {
        owed(self.stake_account, self.acc())
    }
}

/// Why `claim_rewards` is refused.
pub open spec fn claim_rewards_refusal(ctx: ClaimRewards) -> Option<Error> {
    if ctx.stake_account_seed != ctx.user {
        Some(Error::ConstraintSeeds)
    } else if ctx.naim_mint.key != ctx.stake_pool.naim_mint {
        Some(Error::ConstraintAddress)
    } else if ctx.reward() == 0 {
        Some(Error::Naim(NaimError::NothingToClaim))
    } else {
        None
    }
}

/// Whether the sums of `claim_rewards` are in range.
pub open spec fn claim_rewards_in_range(ctx: ClaimRewards) -> bool {
    ctx.stake_account_seed == ctx.user && ctx.naim_mint.key == ctx.stake_pool.naim_mint ==> {
        &&& ctx.acc() <= u128::MAX
        &&& ctx.stake_account.amount * ctx.acc() <= u128::MAX
    }
}

/// The position after `claim_rewards`: the principal and the lock are untouched,
/// the rewards are settled.
pub open spec fn position_after_claim(ctx: ClaimRewards) -> StakeAccount {
    StakeAccount {
        reward_debt: entitled(ctx.stake_account.amount, ctx.acc()) as u128,
        ..ctx.stake_account
    }
}

/// The pool after `claim_rewards`.
pub open spec fn pool_after_claim(ctx: ClaimRewards) -> StakePool {
    StakePool {
        last_reward_balance: monus(ctx.rewards_balance as int, ctx.reward() as int) as u64,
        ..synced(ctx.stake_pool, ctx.rewards_balance)
    }
}

/// What `claim_rewards` moves: the rewards to the user.
pub open spec fn claim_rewards_actions(ctx: ClaimRewards) -> Seq<Action> {
    vault_payout(
        ctx.naim_mint,
        ctx.stakers_vault,
        ctx.user,
        VaultSigner { vault: Vault::Stakers, bump: ctx.token_config.vault_bump },
        ctx.reward(),
    )
}

/// How `claim_rewards` takes `before` to `after`, and what it returns.
pub open spec fn claim_rewards_outcome(
    before: ClaimRewards,
    after: ClaimRewards,
    res: Result<Vec<Action>, Error>,
) -> bool {
    match res {
        Ok(actions) => {
            &&& claim_rewards_refusal(before) is None
            &&& actions@ == claim_rewards_actions(before)
            &&& after == ClaimRewards {
                stake_pool: pool_after_claim(before),
                stake_account: position_after_claim(before),
                ..before
            }
        },
        Err(e) => {
            &&& claim_rewards_refusal(before) == Some(e)
            &&& after == before
        },
    }
}

/// Claims accrued rewards without touching the principal.
pub fn claim_rewards(ctx: &mut ClaimRewards) -> (res: Result<Vec<Action>, Error>)
    requires
        claim_rewards_in_range(*old(ctx)),
    ensures
        claim_rewards_outcome(*old(ctx), *final(ctx), res),
{
    if ctx.stake_account_seed != ctx.user {
        return Err(Error::ConstraintSeeds);
    }
    if ctx.naim_mint.key != ctx.stake_pool.naim_mint {
        return Err(Error::ConstraintAddress);
    }
    let mut pool: StakePool = ctx.stake_pool;
    sync_pool(&mut pool, ctx.rewards_balance);
    let acc: u128 = pool.acc_reward_per_share;
    let pend: u64 = pending(&ctx.stake_account, acc);
    if pend == 0 {
        return Err(Error::Naim(NaimError::NothingToClaim));
    }
    let mut actions: Vec<Action> = Vec::new();
    pay_from_vault(
        &mut actions,
        &ctx.naim_mint,
        &ctx.stakers_vault,
        &ctx.user,
        VaultSigner { vault: Vault::Stakers, bump: ctx.token_config.vault_bump },
        pend,
    );
    ctx.stake_account.reward_debt = (ctx.stake_account.amount as u128) * acc / ACC_PRECISION;
    pool.last_reward_balance = pool.last_reward_balance.saturating_sub(pend);
    ctx.stake_pool = pool;
    assert(actions@ =~= claim_rewards_actions(*old(ctx)));
    Ok(actions)
}

/// How `try_claim_rewards` takes `before` to `after`, and what it returns.
pub open spec fn try_claim_rewards_outcome(
    before: ClaimRewards,
    after: ClaimRewards,
    res: Option<Result<Vec<Action>, Error>>,
) -> bool {
    match res {
        None => {
            &&& !claim_rewards_in_range(
                before,
            )
            &&& after == before
        },
        Some(r) => {
            &&& claim_rewards_in_range(
                before,
            )
            &&& claim_rewards_outcome(
                before,
                after,
                r,
            )
        },
    }
}

/// `claim_rewards` for any input: `None` where its sums are out of range.
pub fn try_claim_rewards(ctx: &mut ClaimRewards) -> (res: Option<Result<Vec<Action>, Error>>)
    ensures
        try_claim_rewards_outcome(
            *old(ctx),
            *final(ctx),
            res,
        ),
{
    if ctx.stake_account_seed == ctx.user && ctx.naim_mint.key == ctx.stake_pool.naim_mint {
        if !sync_fits(&ctx.stake_pool, ctx.rewards_balance) {
            return None;
        }
        let mut pool: StakePool = ctx.stake_pool;
        sync_pool(&mut pool, ctx.rewards_balance);
        if !product_fits(ctx.stake_account.amount, pool.acc_reward_per_share) {
            return None;
        }
    }
    Some(claim_rewards(ctx))
}

/// Accounts of `unstake`.
#[derive(Clone, Copy, Debug, PartialEq, Eq)]
pub struct Unstake {
    pub stake_pool: StakePool,
    pub stake_account: StakeAccount,
    /// The user whose key the position's address is derived from.
    pub stake_account_seed: Pubkey,
    pub token_config: TokenConfig,
    /// The signer.
    pub user: Pubkey,
    pub naim_mint: Mint,
    /// Authority of the vault that custodies principal.
    pub stake_vault: Pubkey,
    /// Authority of the vault that rewards are paid from.
    pub stakers_vault: Pubkey,
    /// Balance of the stakers vault.
    pub rewards_balance: u64,
}

impl Unstake {
    /// The accumulator with the rewards that arrived folded in.
    pub open spec fn acc(self) -> int {
        synced_acc(self.stake_pool, self.rewards_balance)
    }

    /// The rewards that the position has earned.
    pub open spec fn reward(self) -> u64 {
        owed(self.stake_account, self.acc())
    }
}

/// Why `unstake` is refused.
pub open spec fn unstake_refusal(ctx: Unstake, amount: u64, now: i64) -> Option<Error> {
    if ctx.stake_account_seed != ctx.user {
        Some(Error::ConstraintSeeds)
    } else if ctx.naim_mint.key != ctx.stake_pool.naim_mint {
        Some(Error::ConstraintAddress)
    } else if amount == 0 {
        Some(Error::Naim(NaimError::InvalidConfig))
    } else if now < ctx.stake_account.lock_end {
        Some(Error::Naim(NaimError::StakeLocked))
    } else if amount > ctx.stake_account.amount {
        Some(Error::Naim(NaimError::InsufficientStake))
    } else {
        None
    }
}

/// Whether the sums of an accepted `unstake` are in range.
pub open spec fn unstake_in_range(ctx: Unstake, amount: u64, now: i64) -> bool {
    unstake_refusal(ctx, amount, now) is None ==> {
        &&& ctx.acc() <= u128::MAX
        &&& ctx.stake_account.amount * ctx.acc() <= u128::MAX
        &&& amount <= ctx.stake_pool.total_staked
    }
}

/// The position after `unstake`: the principal shrinks, the rewards are settled.
pub open spec fn position_after_unstake(ctx: Unstake, amount: u64) -> StakeAccount {
    let principal = (ctx.stake_account.amount - amount) as u64;
    StakeAccount {
        amount: principal,
        reward_debt: entitled(principal, ctx.acc()) as u128,
        ..ctx.stake_account
    }
}

/// The pool after `unstake`.
pub open spec fn pool_after_unstake(ctx: Unstake, amount: u64) -> StakePool {
    StakePool {
        total_staked: (ctx.stake_pool.total_staked - amount) as u64,
        last_reward_balance: monus(ctx.rewards_balance as int, ctx.reward() as int) as u64,
        ..synced(ctx.stake_pool, ctx.rewards_balance)
    }
}

/// What `unstake` moves: the principal out of custody, then the rewards, both to
/// the user.
pub open spec fn unstake_actions(ctx: Unstake, amount: u64) -> Seq<Action> {
    vault_payout(
        ctx.naim_mint,
        ctx.stake_vault,
        ctx.user,
        VaultSigner { vault: Vault::Stake, bump: ctx.stake_pool.stake_vault_bump },
        amount,
    ) + vault_payout(
        ctx.naim_mint,
        ctx.stakers_vault,
        ctx.user,
        VaultSigner { vault: Vault::Stakers, bump: ctx.token_config.vault_bump },
        ctx.reward(),
    )
}

/// How `unstake` takes `before` to `after`, and what it returns.
pub open spec fn unstake_outcome(
    before: Unstake,
    amount: u64,
    now: i64,
    after: Unstake,
    res: Result<Vec<Action>, Error>,
) -> bool {
    match res {
        Ok(actions) => {
            &&& unstake_refusal(before, amount, now) is None
            &&& actions@ == unstake_actions(before, amount)
            &&& after == Unstake {
                stake_pool: pool_after_unstake(before, amount),
                stake_account: position_after_unstake(before, amount),
                ..before
            }
        },
        Err(e) => {
            &&& unstake_refusal(before, amount, now) == Some(e)
            &&& after == before
        },
    }
}

/// Unstakes principal once the lock has expired; pays out pending rewards too.
pub fn unstake(ctx: &mut Unstake, amount: u64, now: i64) -> (res: Result<Vec<Action>, Error>)
    requires
        unstake_in_range(*old(ctx), amount, now),
    ensures
        unstake_outcome(*old(ctx), amount, now, *final(ctx), res),
{
    if ctx.stake_account_seed != ctx.user {
        return Err(Error::ConstraintSeeds);
    }
    if ctx.naim_mint.key != ctx.stake_pool.naim_mint {
        return Err(Error::ConstraintAddress);
    }
    if amount == 0 {
        return Err(Error::Naim(NaimError::InvalidConfig));
    }
    if now < ctx.stake_account.lock_end {
        return Err(Error::Naim(NaimError::StakeLocked));
    }
    if amount > ctx.stake_account.amount {
        return Err(Error::Naim(NaimError::InsufficientStake));
    }
    sync_pool(&mut ctx.stake_pool, ctx.rewards_balance);
    let acc: u128 = ctx.stake_pool.acc_reward_per_share;
    let pend: u64 = pending(&ctx.stake_account, acc);
    let mut actions: Vec<Action> = Vec::new();
    pay_from_vault(
        &mut actions,
        &ctx.naim_mint,
        &ctx.stake_vault,
        &ctx.user,
        VaultSigner { vault: Vault::Stake, bump: ctx.stake_pool.stake_vault_bump },
        amount,
    );
    pay_from_vault(
        &mut actions,
        &ctx.naim_mint,
        &ctx.stakers_vault,
        &ctx.user,
        VaultSigner { vault: Vault::Stakers, bump: ctx.token_config.vault_bump },
        pend,
    );
    ctx.stake_pool.last_reward_balance = ctx.stake_pool.last_reward_balance.saturating_sub(pend);
    proof {
        lemma_product_grows(ctx.stake_account.amount - amount, amount as int, acc as int);
    }
    ctx.stake_account.amount = ctx.stake_account.amount - amount;
    ctx.stake_account.reward_debt = (ctx.stake_account.amount as u128) * acc / ACC_PRECISION;
    ctx.stake_pool.total_staked = ctx.stake_pool.total_staked - amount;
    assert(actions@ =~= unstake_actions(*old(ctx), amount));
    Ok(actions)
}

/// How `try_unstake` takes `before` to `after`, and what it returns.
pub open spec fn try_unstake_outcome(
    before: Unstake,
    amount: u64,
    now: i64,
    after: Unstake,
    res: Option<Result<Vec<Action>, Error>>,
) -> bool {
    match res {
        None => {
            &&& !unstake_in_range(
                before,
                amount,
                now,
            )
            &&& after == before
        },
        Some(r) => {
            &&& unstake_in_range(
                before,
                amount,
                now,
            )
            &&& unstake_outcome(
                before,
                amount,
                now,
                after,
                r,
            )
        },
    }
}

/// `unstake` for any input: `None` where its sums are out of range.
pub fn try_unstake(ctx: &mut Unstake, amount: u64, now: i64) -> (res: Option<
    Result<Vec<Action>, Error>,
>)
    ensures
        try_unstake_outcome(
            *old(ctx),
            amount,
            now,
            *final(ctx),
            res,
        ),
{
    if ctx.stake_account_seed == ctx.user && ctx.naim_mint.key == ctx.stake_pool.naim_mint
        && amount != 0 && now >= ctx.stake_account.lock_end && amount <= ctx.stake_account.amount {
        if amount > ctx.stake_pool.total_staked || !sync_fits(
            &ctx.stake_pool,
            ctx.rewards_balance,
        ) {
            return None;
        }
        let mut pool: StakePool = ctx.stake_pool;
        sync_pool(&mut pool, ctx.rewards_balance);
        if !product_fits(ctx.stake_account.amount, pool.acc_reward_per_share) {
            return None;
        }
    }
    Some(unstake(ctx, amount, now))
}

/// A product grows with its first factor.
proof fn lemma_product_grows(a: int, more: int, acc: int)
    by (nonlinear_arith)
    requires
        0 <= a,
        0 <= more,
        0 <= acc,
    ensures
        a * acc <= (a + more) * acc,
{
}

} // verus!
