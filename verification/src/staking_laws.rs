//! What holds of the staking pool as a whole, over all of its positions.
use vstd::prelude::*;
use vstd::arithmetic::div_mod::{lemma_div_is_ordered, lemma_fundamental_div_mod};

use crate::action::{
    lemma_total_concat, lemma_total_unless_zero, token_given, token_taken, total, Action, Mint,
    Vault, VaultSigner,
};
use crate::arith::monus;
use crate::error::{Error, NaimError};
use crate::ledger::{from_vault, from_wallet, shared_out, unpaid};
use crate::pubkey::Pubkey;
use crate::staking::{
    claim_rewards_actions, claim_rewards_in_range, claim_rewards_outcome, claim_rewards_refusal,
    entitled, init_stake_pool_outcome, owed, pool_after_claim, pool_after_stake,
    pool_after_unstake, position_after_claim, position_after_stake, position_after_unstake,
    stake_actions, stake_in_range, stake_outcome, stake_refusal, synced, synced_acc,
    try_claim_rewards_outcome, try_stake_outcome, try_unstake_outcome, unstake_actions,
    unstake_in_range, unstake_outcome, unstake_refusal, vault_payout,
    ClaimRewards, InitStakePool, Stake, Unstake,
};
use crate::state::{StakeAccount, StakePool};

verus! {

/// The sum of `measure` over all positions.
pub open spec fn sum(positions: Seq<StakeAccount>, measure: spec_fn(StakeAccount) -> int) -> int
    decreases positions.len(),
{
    if positions.len() == 0 {
        0
    } else {
        sum(positions.drop_last(), measure) + measure(positions.last())
    }
}

/// The principal of all positions together.
pub open spec fn principal(positions: Seq<StakeAccount>) -> int {
    sum(positions, |p: StakeAccount| p.amount as int)
}

/// Whether the pool's total is the principal of its positions.
pub open spec fn is_backed(pool: StakePool, positions: Seq<StakeAccount>) -> bool {
    pool.total_staked == principal(positions)
}

/// What a position has earned since its last interaction, before rounding, in
/// units of the accumulator's precision.
pub open spec fn credit(position: StakeAccount, acc: int) -> int {
    position.amount * acc - position.reward_debt * 1_000_000_000_000
}

/// The credit of all positions together.
pub open spec fn credits(positions: Seq<StakeAccount>, acc: int) -> int {
    sum(positions, |p: StakeAccount| credit(p, acc))
}

/// Whether no position was paid more than it had earned.
pub open spec fn are_settled(positions: Seq<StakeAccount>, acc: int) -> bool {
    forall|i: int|
        0 <= i < positions.len() ==> (#[trigger] positions[i]).reward_debt <= entitled(
            positions[i].amount,
            acc,
        )
}

/// The vault balance that the pool counts on, less the credit of all positions,
/// in units of the accumulator's precision.
pub open spec fn reserve(pool: StakePool, positions: Seq<StakeAccount>) -> int {
    pool.last_reward_balance * 1_000_000_000_000 - credits(
        positions,
        pool.acc_reward_per_share as int,
    )
}

/// Replacing one position changes a sum by the difference of its measures.
proof fn lemma_sum_update(
    positions: Seq<StakeAccount>,
    i: int,
    p: StakeAccount,
    measure: spec_fn(StakeAccount) -> int,
)
    requires
        0 <= i < positions.len(),
    ensures
        sum(positions.update(i, p), measure) == sum(positions, measure) - measure(positions[i])
            + measure(p),
    decreases positions.len(),
{
    if i == positions.len() - 1 {
        assert(positions.update(i, p).drop_last() =~= positions.drop_last());
    } else {
        assert(positions.update(i, p).drop_last() =~= positions.drop_last().update(i, p));
        lemma_sum_update(positions.drop_last(), i, p, measure);
    }
}

/// A sum of measures that are nowhere negative is at least each of them.
proof fn lemma_sum_bounds(
    positions: Seq<StakeAccount>,
    i: int,
    measure: spec_fn(StakeAccount) -> int,
)
    requires
        0 <= i < positions.len(),
        forall|j: int| 0 <= j < positions.len() ==> measure(#[trigger] positions[j]) >= 0,
    ensures
        measure(positions[i]) <= sum(positions, measure),
        0 <= sum(positions, measure),
    decreases positions.len(),
{
    reveal_with_fuel(sum, 2);
    let front = positions.drop_last();
    assert(forall|j: int| 0 <= j < front.len() ==> front[j] == positions[j]);
    assert(positions.last() == positions[positions.len() - 1]);
    if front.len() > 0 {
        if i < front.len() {
            lemma_sum_bounds(front, i, measure);
        } else {
            lemma_sum_bounds(front, 0, measure);
        }
    }
}

/// When the accumulator grows, the credit of all positions together grows by
/// their principal times the growth.
proof fn lemma_credits_grow(positions: Seq<StakeAccount>, acc: int, grown: int)
    ensures
        credits(positions, grown) == credits(positions, acc) + principal(positions) * (grown - acc),
    decreases positions.len(),
{
    if positions.len() > 0 {
        lemma_credits_grow(positions.drop_last(), acc, grown);
        let a = positions.last().amount as int;
        let front = principal(positions.drop_last());
        assert(a * grown == a * acc + a * (grown - acc)) by (nonlinear_arith);
        assert((front + a) * (grown - acc) == front * (grown - acc) + a * (grown - acc))
            by (nonlinear_arith);
    }
}

/// Staking keeps the pool's total equal to the principal of all positions.
pub proof fn law_stake_keeps_pool_backed(
    ctx: Stake,
    amount: u64,
    lock_seconds: i64,
    now: i64,
    positions: Seq<StakeAccount>,
    i: int,
)
    requires
        0 <= i < positions.len(),
        positions[i] == ctx.stake_account,
        is_backed(ctx.stake_pool, positions),
        stake_refusal(ctx, amount, lock_seconds) is None,
        stake_in_range(ctx, amount, lock_seconds, now),
    ensures
        is_backed(
            pool_after_stake(ctx, amount),
            positions.update(i, position_after_stake(ctx, amount, lock_seconds, now)),
        ),
{
    lemma_sum_update(
        positions,
        i,
        position_after_stake(ctx, amount, lock_seconds, now),
        |p: StakeAccount| p.amount as int,
    );
}

/// Claiming keeps the pool's total equal to the principal of all positions.
pub proof fn law_claim_keeps_pool_backed(
    ctx: ClaimRewards,
    positions: Seq<StakeAccount>,
    i: int,
)
    requires
        0 <= i < positions.len(),
        positions[i] == ctx.stake_account,
        is_backed(ctx.stake_pool, positions),
    ensures
        is_backed(pool_after_claim(ctx), positions.update(i, position_after_claim(ctx))),
{
    lemma_sum_update(
        positions,
        i,
        position_after_claim(ctx),
        |p: StakeAccount| p.amount as int,
    );
}

/// Unstaking keeps the pool's total equal to the principal of all positions, and
/// never takes more than the total.
pub proof fn law_unstake_keeps_pool_backed(
    ctx: Unstake,
    amount: u64,
    now: i64,
    positions: Seq<StakeAccount>,
    i: int,
)
    requires
        0 <= i < positions.len(),
        positions[i] == ctx.stake_account,
        is_backed(ctx.stake_pool, positions),
        unstake_refusal(ctx, amount, now) is None,
    ensures
        amount <= ctx.stake_pool.total_staked,
        is_backed(
            pool_after_unstake(ctx, amount),
            positions.update(i, position_after_unstake(ctx, amount)),
        ),
{
    lemma_sum_bounds(positions, i, |p: StakeAccount| p.amount as int);
    lemma_sum_update(
        positions,
        i,
        position_after_unstake(ctx, amount),
        |p: StakeAccount| p.amount as int,
    );
}

/// A new position holds nothing, so adding one keeps the pool backed.
pub proof fn law_new_position_keeps_pool_backed(
    pool: StakePool,
    positions: Seq<StakeAccount>,
    position: StakeAccount,
)
    requires
        is_backed(pool, positions),
        position.amount == 0,
    ensures
        is_backed(pool, positions.push(position)),
{
    assert(positions.push(position).drop_last() =~= positions);
}

/// Folding rewards in hands out no more than what arrived, and leaves less than
/// the number of staked units undistributed, in units of the accumulator's
/// precision.
pub proof fn law_sync_hands_out_what_arrived(pool: StakePool, rewards_balance: u64)
    requires
        pool.total_staked > 0,
    ensures
        ({
            let arrived = monus(rewards_balance as int, pool.last_reward_balance as int)
                * 1_000_000_000_000;
            let handed_out = pool.total_staked * (synced_acc(pool, rewards_balance)
                - pool.acc_reward_per_share);
            0 <= handed_out <= arrived < handed_out + pool.total_staked
        }),
{
    let arrived = monus(rewards_balance as int, pool.last_reward_balance as int)
        * 1_000_000_000_000;
    lemma_fundamental_div_mod(arrived, pool.total_staked as int);
    assert(0 <= pool.total_staked * (arrived / (pool.total_staked as int))) by (nonlinear_arith)
        requires
            arrived >= 0,
            pool.total_staked > 0,
    ;
}

/// Rewards that arrive while nothing is staked are skipped: they change no
/// accumulator, and the pool counts them as already folded in.
pub proof fn law_rewards_without_stakers_are_skipped(pool: StakePool, rewards_balance: u64)
    requires
        pool.total_staked == 0,
    ensures
        synced(pool, rewards_balance).acc_reward_per_share == pool.acc_reward_per_share,
        synced(pool, rewards_balance).last_reward_balance == rewards_balance,
{
}

/// Folding in the same balance again changes nothing.
pub proof fn law_sync_is_idempotent(pool: StakePool, rewards_balance: u64)
    requires
        synced_acc(pool, rewards_balance) <= u128::MAX,
    ensures
        synced(synced(pool, rewards_balance), rewards_balance) == synced(pool, rewards_balance),
{
    law_accumulator_never_falls(pool, rewards_balance);
    let again = synced(pool, rewards_balance);
    if pool.total_staked > 0 {
        assert(0int / (again.total_staked as int) == 0) by (nonlinear_arith)
            requires
                again.total_staked > 0,
        ;
    }
}

/// The accumulator never falls.
pub proof fn law_accumulator_never_falls(pool: StakePool, rewards_balance: u64)
    ensures
        synced_acc(pool, rewards_balance) >= pool.acc_reward_per_share,
{
    if pool.total_staked > 0 {
        let total = pool.total_staked as int;
        let arrived = monus(rewards_balance as int, pool.last_reward_balance as int)
            * 1_000_000_000_000;
        assert(arrived / total >= 0) by (nonlinear_arith)
            requires
                arrived >= 0,
                total > 0,
        ;
    }
}

/// What a position has earned never falls as the accumulator grows.
proof fn lemma_entitled_grows(amount: u64, acc: int, grown: int)
    requires
        0 <= acc <= grown,
    ensures
        0 <= entitled(amount, acc) <= entitled(amount, grown),
{
    assert(0 <= amount * acc <= amount * grown) by (nonlinear_arith)
        requires
            0 <= amount,
            0 <= acc <= grown,
    ;
    lemma_div_is_ordered(amount * acc, amount * grown, 1_000_000_000_000);
}

/// Folding rewards in never leaves a position paid more than it has earned.
pub proof fn law_sync_keeps_positions_settled(
    pool: StakePool,
    rewards_balance: u64,
    positions: Seq<StakeAccount>,
)
    requires
        are_settled(positions, pool.acc_reward_per_share as int),
    ensures
        are_settled(positions, synced_acc(pool, rewards_balance)),
{
    law_accumulator_never_falls(pool, rewards_balance);
    assert forall|i: int| 0 <= i < positions.len() implies (#[trigger] positions[i]).reward_debt
        <= entitled(positions[i].amount, synced_acc(pool, rewards_balance)) by {
        lemma_entitled_grows(
            positions[i].amount,
            pool.acc_reward_per_share as int,
            synced_acc(pool, rewards_balance),
        );
    }
}

/// Folding rewards in promises no more than it takes in: with the positions' total
/// staked, the reserve never falls.
pub proof fn law_sync_keeps_reserve(
    pool: StakePool,
    rewards_balance: u64,
    positions: Seq<StakeAccount>,
)
    requires
        is_backed(pool, positions),
        rewards_balance >= pool.last_reward_balance,
        synced_acc(pool, rewards_balance) <= u128::MAX,
    ensures
        reserve(synced(pool, rewards_balance), positions) >= reserve(pool, positions),
{
    let acc = pool.acc_reward_per_share as int;
    let grown = synced_acc(pool, rewards_balance);
    law_accumulator_never_falls(pool, rewards_balance);
    lemma_credits_grow(positions, acc, grown);
    if pool.total_staked > 0 {
        law_sync_hands_out_what_arrived(pool, rewards_balance);
    } else {
        assert(principal(positions) * (grown - acc) == 0) by (nonlinear_arith)
            requires
                grown == acc,
        ;
    }
}

/// The credit of a settled position, in whole units and a rest of less than one.
proof fn lemma_credit_rounds_down(position: StakeAccount, acc: int)
    requires
        0 <= acc,
        position.reward_debt <= entitled(position.amount, acc),
    ensures
        ({
            let earned = entitled(position.amount, acc) - position.reward_debt;
            let rest = credit(position, acc) - earned * 1_000_000_000_000;
            &&& 0 <= rest < 1_000_000_000_000
            &&& owed(position, acc) <= earned
            &&& earned <= u64::MAX ==> owed(position, acc) == earned
        }),
{
    lemma_fundamental_div_mod(position.amount * acc, 1_000_000_000_000);
}

/// Right after an interaction a position is owed nothing.
proof fn lemma_settled_position(amount: u64, acc: int, position: StakeAccount)
    requires
        0 <= acc,
        amount * acc <= u128::MAX,
        position.amount == amount,
        position.reward_debt == entitled(amount, acc) as u128,
    ensures
        position.reward_debt == entitled(amount, acc),
        owed(position, acc) == 0,
        0 <= credit(position, acc) < 1_000_000_000_000,
{
    lemma_fundamental_div_mod(amount * acc, 1_000_000_000_000);
    lemma_entitled_grows(amount, 0, acc);
}

/// One position replaced in a pool whose other positions are settled.
proof fn lemma_settled_update(
    positions: Seq<StakeAccount>,
    i: int,
    position: StakeAccount,
    acc: int,
)
    requires
        0 <= i < positions.len(),
        are_settled(positions, acc),
        position.reward_debt <= entitled(position.amount, acc),
    ensures
        are_settled(positions.update(i, position), acc),
{
}

/// How the reserve changes when one settled position is replaced and its reward is
/// paid.
proof fn lemma_reserve_update(
    pool: StakePool,
    after: StakePool,
    positions: Seq<StakeAccount>,
    i: int,
    position: StakeAccount,
    reward: u64,
)
    requires
        0 <= i < positions.len(),
        after.acc_reward_per_share == pool.acc_reward_per_share,
        after.last_reward_balance == monus(pool.last_reward_balance as int, reward as int) as u64,
    ensures
        reserve(after, positions.update(i, position)) >= reserve(pool, positions) - reward
            * 1_000_000_000_000 + credit(positions[i], pool.acc_reward_per_share as int) - credit(
            position,
            pool.acc_reward_per_share as int,
        ),
{
    let acc = pool.acc_reward_per_share as int;
    lemma_sum_update(positions, i, position, |p: StakeAccount| credit(p, acc));
}

/// A claim pays out exactly what it settles: the reserve never falls by it.
pub proof fn law_claim_keeps_reserve(ctx: ClaimRewards, positions: Seq<StakeAccount>, i: int)
    requires
        0 <= i < positions.len(),
        positions[i] == ctx.stake_account,
        are_settled(positions, ctx.acc()),
        claim_rewards_refusal(ctx) is None,
        claim_rewards_in_range(ctx),
    ensures
        ({
            let after = positions.update(i, position_after_claim(ctx));
            &&& are_settled(after, ctx.acc())
            &&& reserve(pool_after_claim(ctx), after) >= reserve(
                synced(ctx.stake_pool, ctx.rewards_balance),
                positions,
            )
        }),
{
    let acc = ctx.acc();
    let p = position_after_claim(ctx);
    law_accumulator_never_falls(ctx.stake_pool, ctx.rewards_balance);
    lemma_credit_rounds_down(ctx.stake_account, acc);
    lemma_settled_position(ctx.stake_account.amount, acc, p);
    lemma_settled_update(positions, i, p, acc);
    lemma_reserve_update(
        synced(ctx.stake_pool, ctx.rewards_balance),
        pool_after_claim(ctx),
        positions,
        i,
        p,
        ctx.reward(),
    );
}

/// Staking more promises less than one base unit beyond what it settles: the
/// reserve falls by less than one unit, which rounding the debt down gives away.
pub proof fn law_stake_costs_less_than_one_unit(
    ctx: Stake,
    amount: u64,
    lock_seconds: i64,
    now: i64,
    positions: Seq<StakeAccount>,
    i: int,
)
    requires
        0 <= i < positions.len(),
        positions[i] == ctx.stake_account,
        are_settled(positions, ctx.acc()),
        stake_refusal(ctx, amount, lock_seconds) is None,
        stake_in_range(ctx, amount, lock_seconds, now),
    ensures
        ({
            let after = positions.update(i, position_after_stake(ctx, amount, lock_seconds, now));
            &&& are_settled(after, ctx.acc())
            &&& reserve(pool_after_stake(ctx, amount), after) > reserve(
                synced(ctx.stake_pool, ctx.rewards_balance),
                positions,
            ) - 1_000_000_000_000
        }),
{
    let acc = ctx.acc();
    let p = position_after_stake(ctx, amount, lock_seconds, now);
    law_accumulator_never_falls(ctx.stake_pool, ctx.rewards_balance);
    lemma_credit_rounds_down(ctx.stake_account, acc);
    lemma_settled_position(p.amount, acc, p);
    lemma_settled_update(positions, i, p, acc);
    lemma_reserve_update(
        synced(ctx.stake_pool, ctx.rewards_balance),
        pool_after_stake(ctx, amount),
        positions,
        i,
        p,
        ctx.reward(),
    );
}

/// Unstaking promises less than one base unit beyond what it settles.
pub proof fn law_unstake_costs_less_than_one_unit(
    ctx: Unstake,
    amount: u64,
    now: i64,
    positions: Seq<StakeAccount>,
    i: int,
)
    requires
        0 <= i < positions.len(),
        positions[i] == ctx.stake_account,
        are_settled(positions, ctx.acc()),
        unstake_refusal(ctx, amount, now) is None,
        unstake_in_range(ctx, amount, now),
    ensures
        ({
            let after = positions.update(i, position_after_unstake(ctx, amount));
            &&& are_settled(after, ctx.acc())
            &&& reserve(pool_after_unstake(ctx, amount), after) > reserve(
                synced(ctx.stake_pool, ctx.rewards_balance),
                positions,
            ) - 1_000_000_000_000
        }),
{
    let acc = ctx.acc();
    let p = position_after_unstake(ctx, amount);
    law_accumulator_never_falls(ctx.stake_pool, ctx.rewards_balance);
    lemma_credit_rounds_down(ctx.stake_account, acc);
    assert(p.amount * acc <= ctx.stake_account.amount * acc) by (nonlinear_arith)
        requires
            p.amount <= ctx.stake_account.amount,
            0 <= acc,
    ;
    lemma_settled_position(p.amount, acc, p);
    lemma_settled_update(positions, i, p, acc);
    lemma_reserve_update(
        synced(ctx.stake_pool, ctx.rewards_balance),
        pool_after_unstake(ctx, amount),
        positions,
        i,
        p,
        ctx.reward(),
    );
}

/// What all positions are owed, in whole units, is at most their credit.
proof fn lemma_owed_within_credits(positions: Seq<StakeAccount>, acc: int)
    requires
        0 <= acc,
        are_settled(positions, acc),
    ensures
        sum(positions, |p: StakeAccount| owed(p, acc) as int) * 1_000_000_000_000 <= credits(
            positions,
            acc,
        ),
    decreases positions.len(),
{
    if positions.len() > 0 {
        let front = positions.drop_last();
        assert(forall|i: int| 0 <= i < front.len() ==> front[i] == positions[i]);
        assert(are_settled(front, acc));
        lemma_owed_within_credits(front, acc);
        assert(positions.last() == positions[positions.len() - 1]);
        lemma_credit_rounds_down(positions.last(), acc);
    }
}

/// While the reserve is not negative, the vault balance covers what all positions
/// are owed together.
pub proof fn law_reserve_covers_all_rewards(pool: StakePool, positions: Seq<StakeAccount>)
    requires
        are_settled(positions, pool.acc_reward_per_share as int),
        reserve(pool, positions) >= 0,
    ensures
        sum(positions, |p: StakeAccount| owed(p, pool.acc_reward_per_share as int) as int)
            <= pool.last_reward_balance,
{
    lemma_owed_within_credits(positions, pool.acc_reward_per_share as int);
}

/// After `stake` the position is owed nothing: its rewards were paid, and the new
/// principal earns nothing of what arrived before.
pub proof fn law_stake_settles_rewards(ctx: Stake, amount: u64, lock_seconds: i64, now: i64)
    requires
        stake_refusal(ctx, amount, lock_seconds) is None,
        stake_in_range(ctx, amount, lock_seconds, now),
    ensures
        owed(
            position_after_stake(ctx, amount, lock_seconds, now),
            pool_after_stake(ctx, amount).acc_reward_per_share as int,
        ) == 0,
{
    let p = position_after_stake(ctx, amount, lock_seconds, now);
    law_accumulator_never_falls(ctx.stake_pool, ctx.rewards_balance);
    lemma_settled_position(p.amount, ctx.acc(), p);
}

/// After `claim_rewards` the position is owed nothing.
pub proof fn law_claim_settles_rewards(ctx: ClaimRewards)
    requires
        claim_rewards_refusal(ctx) is None,
        claim_rewards_in_range(ctx),
    ensures
        owed(
            position_after_claim(ctx),
            pool_after_claim(ctx).acc_reward_per_share as int,
        ) == 0,
        position_after_claim(ctx).amount == ctx.stake_account.amount,
        pool_after_claim(ctx).total_staked == ctx.stake_pool.total_staked,
{
    law_accumulator_never_falls(ctx.stake_pool, ctx.rewards_balance);
    lemma_settled_position(ctx.stake_account.amount, ctx.acc(), position_after_claim(ctx));
}

/// After `unstake` the position is owed nothing.
pub proof fn law_unstake_settles_rewards(ctx: Unstake, amount: u64, now: i64)
    requires
        unstake_refusal(ctx, amount, now) is None,
        unstake_in_range(ctx, amount, now),
    ensures
        owed(
            position_after_unstake(ctx, amount),
            pool_after_unstake(ctx, amount).acc_reward_per_share as int,
        ) == 0,
{
    let p = position_after_unstake(ctx, amount);
    law_accumulator_never_falls(ctx.stake_pool, ctx.rewards_balance);
    assert(p.amount * ctx.acc() <= ctx.stake_account.amount * ctx.acc()) by (nonlinear_arith)
        requires
            p.amount <= ctx.stake_account.amount,
            0 <= ctx.acc(),
    ;
    lemma_settled_position(p.amount, ctx.acc(), p);
}

/// Rewards cannot be claimed twice: after a claim, until more rewards arrive, the
/// next claim finds nothing.
pub proof fn law_second_claim_finds_nothing(first: ClaimRewards, second: ClaimRewards)
    requires
        claim_rewards_in_range(first),
        claim_rewards_refusal(first) is None,
        second.stake_pool == pool_after_claim(first),
        second.stake_account == position_after_claim(first),
        second.naim_mint == first.naim_mint,
        second.user == first.user,
        second.stake_account_seed == first.stake_account_seed,
        second.rewards_balance <= second.stake_pool.last_reward_balance,
    ensures
        claim_rewards_refusal(second) == Some(Error::Naim(NaimError::NothingToClaim)),
{
    law_accumulator_never_falls(first.stake_pool, first.rewards_balance);
    lemma_settled_position(first.stake_account.amount, first.acc(), second.stake_account);
    if second.stake_pool.total_staked > 0 {
        assert(0int / (second.stake_pool.total_staked as int) == 0) by (nonlinear_arith)
            requires
                second.stake_pool.total_staked > 0,
        ;
    }
}

/// Unstaking what was staked gives the same tokens back and restores the principal
/// of the position and of the pool.
pub proof fn law_unstake_returns_what_was_staked(
    s: Stake,
    u: Unstake,
    amount: u64,
    lock_seconds: i64,
    now: i64,
    later: i64,
)
    requires
        stake_refusal(s, amount, lock_seconds) is None,
        stake_in_range(s, amount, lock_seconds, now),
        u.stake_pool == pool_after_stake(s, amount),
        u.stake_account == position_after_stake(s, amount, lock_seconds, now),
        u.naim_mint == s.naim_mint,
        u.user == s.user,
        u.stake_account_seed == s.stake_account_seed,
        u.stake_vault == s.stake_vault,
    ensures
        unstake_refusal(u, amount, later) is None <==> later >= u.stake_account.lock_end,
        position_after_unstake(u, amount).amount == s.stake_account.amount,
        pool_after_unstake(u, amount).total_staked == s.stake_pool.total_staked,
        stake_actions(s, amount)[0] matches Action::TransferToken {
            mint,
            from,
            to,
            amount: taken,
            ..
        } && unstake_actions(u, amount)[0] matches Action::TransferToken {
            mint: mint_back,
            from: from_back,
            to: to_back,
            amount: returned,
            ..
        } && mint == mint_back && from == to_back && to == from_back && taken == amount && returned
            == amount,
{
}

/// Staking never shortens a lock, and until the lock ends no principal can be
/// withdrawn.
pub proof fn law_lock_holds(
    s: Stake,
    u: Unstake,
    amount: u64,
    lock_seconds: i64,
    now: i64,
    withdrawn: u64,
    later: i64,
)
    requires
        stake_refusal(s, amount, lock_seconds) is None,
        stake_in_range(s, amount, lock_seconds, now),
        u.stake_account == position_after_stake(s, amount, lock_seconds, now),
    ensures
        u.stake_account.lock_end >= s.stake_account.lock_end,
        u.stake_account.lock_end >= now + lock_seconds,
        later < u.stake_account.lock_end ==> unstake_refusal(u, withdrawn, later) is Some,
{
}

/// What one staker does leaves what every other position is owed as it was.
pub proof fn law_others_are_not_diluted(
    s: Stake,
    c: ClaimRewards,
    u: Unstake,
    amount: u64,
    other: StakeAccount,
)
    ensures
        s.acc() <= u128::MAX ==> owed(
            other,
            pool_after_stake(s, amount).acc_reward_per_share as int,
        ) == owed(other, s.acc()),
        c.acc() <= u128::MAX ==> owed(other, pool_after_claim(c).acc_reward_per_share as int)
            == owed(other, c.acc()),
        u.acc() <= u128::MAX ==> owed(
            other,
            pool_after_unstake(u, amount).acc_reward_per_share as int,
        ) == owed(other, u.acc()),
{
    law_accumulator_never_falls(s.stake_pool, s.rewards_balance);
    law_accumulator_never_falls(c.stake_pool, c.rewards_balance);
    law_accumulator_never_falls(u.stake_pool, u.rewards_balance);
}

/// The total over one payout of a vault.
proof fn lemma_total_payout(
    mint: Mint,
    from: Pubkey,
    to: Pubkey,
    signer: VaultSigner,
    amount: u64,
    measure: spec_fn(Action) -> nat,
)
    ensures
        total(vault_payout(mint, from, to, signer, amount), measure) == if amount > 0 {
            measure(
                Action::TransferToken {
                    mint: mint.key,
                    from,
                    to,
                    amount,
                    decimals: mint.decimals,
                    signer: Some(signer),
                },
            )
        } else {
            0
        },
{
    lemma_total_unless_zero(
        amount,
        Action::TransferToken {
            mint: mint.key,
            from,
            to,
            amount,
            decimals: mint.decimals,
            signer: Some(signer),
        },
        measure,
    );
}

/// Staking puts into custody exactly what it adds to the pool's total, and takes
/// nothing out.
pub proof fn law_stake_is_held_in_custody(ctx: Stake, amount: u64, lock_seconds: i64, now: i64)
    requires
        stake_refusal(ctx, amount, lock_seconds) is None,
        stake_in_range(ctx, amount, lock_seconds, now),
        ctx.user != ctx.stake_vault,
        ctx.stakers_vault != ctx.stake_vault,
    ensures
        total(
            stake_actions(ctx, amount),
            |a: Action| token_given(a, ctx.naim_mint.key, ctx.stake_vault),
        ) == pool_after_stake(ctx, amount).total_staked - ctx.stake_pool.total_staked,
        total(
            stake_actions(ctx, amount),
            |a: Action| token_taken(a, ctx.naim_mint.key, ctx.stake_vault),
        ) == 0,
{
    let given = |a: Action| token_given(a, ctx.naim_mint.key, ctx.stake_vault);
    let taken = |a: Action| token_taken(a, ctx.naim_mint.key, ctx.stake_vault);
    let deposit = Action::TransferToken {
        mint: ctx.naim_mint.key,
        from: ctx.user,
        to: ctx.stake_vault,
        amount,
        decimals: ctx.naim_mint.decimals,
        signer: None,
    };
    let signer = VaultSigner { vault: Vault::Stakers, bump: ctx.token_config.vault_bump };
    let payout = vault_payout(ctx.naim_mint, ctx.stakers_vault, ctx.user, signer, ctx.reward());
    lemma_total_concat(seq![deposit], payout, given);
    lemma_total_concat(seq![deposit], payout, taken);
    lemma_total_unless_zero(1, deposit, given);
    lemma_total_unless_zero(1, deposit, taken);
    lemma_total_payout(ctx.naim_mint, ctx.stakers_vault, ctx.user, signer, ctx.reward(), given);
    lemma_total_payout(ctx.naim_mint, ctx.stakers_vault, ctx.user, signer, ctx.reward(), taken);
}

/// Unstaking takes out of custody exactly what it takes off the pool's total; the
/// user gets it, and the rewards on top.
pub proof fn law_unstake_releases_custody(ctx: Unstake, amount: u64, now: i64)
    requires
        unstake_refusal(ctx, amount, now) is None,
        unstake_in_range(ctx, amount, now),
        ctx.stakers_vault != ctx.stake_vault,
    ensures
        total(
            unstake_actions(ctx, amount),
            |a: Action| token_taken(a, ctx.naim_mint.key, ctx.stake_vault),
        ) == ctx.stake_pool.total_staked - pool_after_unstake(ctx, amount).total_staked,
        total(
            unstake_actions(ctx, amount),
            |a: Action| token_given(a, ctx.naim_mint.key, ctx.user),
        ) == amount + ctx.reward(),
{
    let given = |a: Action| token_given(a, ctx.naim_mint.key, ctx.user);
    let taken = |a: Action| token_taken(a, ctx.naim_mint.key, ctx.stake_vault);
    let own = VaultSigner { vault: Vault::Stake, bump: ctx.stake_pool.stake_vault_bump };
    let signer = VaultSigner { vault: Vault::Stakers, bump: ctx.token_config.vault_bump };
    let back = vault_payout(ctx.naim_mint, ctx.stake_vault, ctx.user, own, amount);
    let payout = vault_payout(ctx.naim_mint, ctx.stakers_vault, ctx.user, signer, ctx.reward());
    lemma_total_concat(back, payout, given);
    lemma_total_concat(back, payout, taken);
    lemma_total_payout(ctx.naim_mint, ctx.stake_vault, ctx.user, own, amount, given);
    lemma_total_payout(ctx.naim_mint, ctx.stake_vault, ctx.user, own, amount, taken);
    lemma_total_payout(ctx.naim_mint, ctx.stakers_vault, ctx.user, signer, ctx.reward(), given);
    lemma_total_payout(ctx.naim_mint, ctx.stakers_vault, ctx.user, signer, ctx.reward(), taken);
}

/// A claim pays the user exactly the rewards, out of the stakers vault.
pub proof fn law_claim_pays_the_rewards(ctx: ClaimRewards)
    requires
        claim_rewards_refusal(ctx) is None,
        claim_rewards_in_range(ctx),
    ensures
        total(
            claim_rewards_actions(ctx),
            |a: Action| token_given(a, ctx.naim_mint.key, ctx.user),
        ) == ctx.reward(),
        total(
            claim_rewards_actions(ctx),
            |a: Action| token_taken(a, ctx.naim_mint.key, ctx.stakers_vault),
        ) == ctx.reward(),
{
    let signer = VaultSigner { vault: Vault::Stakers, bump: ctx.token_config.vault_bump };
    lemma_total_payout(
        ctx.naim_mint,
        ctx.stakers_vault,
        ctx.user,
        signer,
        ctx.reward(),
        |a: Action| token_given(a, ctx.naim_mint.key, ctx.user),
    );
    lemma_total_payout(
        ctx.naim_mint,
        ctx.stakers_vault,
        ctx.user,
        signer,
        ctx.reward(),
        |a: Action| token_taken(a, ctx.naim_mint.key, ctx.stakers_vault),
    );
}

/// The growth of the vault is shared out among the staked units, rounded down; where
/// nothing is staked, or the vault did not grow, nothing is. The pool takes the
/// balance down, and nothing else in it changes.
pub proof fn law_growth_is_shared_out(pool: StakePool, rewards_balance: u64)
    ensures
        synced_acc(pool, rewards_balance) == shared_out(pool, rewards_balance),
        pool.total_staked == 0 || rewards_balance <= pool.last_reward_balance ==> synced_acc(
            pool,
            rewards_balance,
        ) == pool.acc_reward_per_share,
        pool.total_staked > 0 && rewards_balance > pool.last_reward_balance ==> {
            let grown = (rewards_balance - pool.last_reward_balance) * 1_000_000_000_000;
            let each = synced_acc(pool, rewards_balance) - pool.acc_reward_per_share;
            pool.total_staked * each <= grown < pool.total_staked * each + pool.total_staked
        },
        synced_acc(pool, rewards_balance) <= u128::MAX ==> {
            let after = synced(pool, rewards_balance);
            &&& after.acc_reward_per_share == shared_out(pool, rewards_balance)
            &&& after.last_reward_balance == rewards_balance
            &&& after == StakePool {
                acc_reward_per_share: after.acc_reward_per_share,
                last_reward_balance: rewards_balance,
                ..pool
            }
        },
{
    law_accumulator_never_falls(pool, rewards_balance);
    if pool.total_staked > 0 {
        law_sync_hands_out_what_arrived(pool, rewards_balance);
        if rewards_balance <= pool.last_reward_balance {
            assert(0int / (pool.total_staked as int) == 0) by (nonlinear_arith)
                requires
                    pool.total_staked > 0,
            ;
        }
    }
}

/// A position is owed its units' part of the accumulator, rounded down, less what it
/// was settled for.
pub proof fn law_owed_is_earned_less_settled(position: StakeAccount, acc: int)
    requires
        0 <= acc,
    ensures
        owed(position, acc) == unpaid(position, acc),
        ({
            let earned = position.amount * acc - position.reward_debt * 1_000_000_000_000;
            let whole = owed(position, acc) * 1_000_000_000_000;
            &&& earned < 1_000_000_000_000 ==> owed(position, acc) == 0
            &&& 1_000_000_000_000 <= earned && earned < 0x1_0000_0000_0000_0000
                * 1_000_000_000_000 ==> whole <= earned < whole + 1_000_000_000_000
        }),
{
    lemma_fundamental_div_mod(position.amount * acc, 1_000_000_000_000);
}

/// What the units of a position entitle it to, rounded down.
proof fn lemma_entitled_is_a_quotient(amount: u64, acc: int)
    requires
        0 <= acc,
    ensures
        0 <= entitled(amount, acc),
        1_000_000_000_000 * entitled(amount, acc) <= amount * acc < 1_000_000_000_000 * entitled(
            amount,
            acc,
        ) + 1_000_000_000_000,
{
    lemma_fundamental_div_mod(amount * acc, 1_000_000_000_000);
    lemma_entitled_grows(amount, 0, acc);
}

/// Whether a debt settles a position of this size: it is what the units entitle to,
/// rounded down.
pub open spec fn settles(debt: u128, amount: u64, acc: int) -> bool {
    1_000_000_000_000 * debt <= amount * acc < 1_000_000_000_000 * debt + 1_000_000_000_000
}

/// Whether the pool shared the vault's growth out, counts what the vault is left with
/// once `reward` is paid, and has `total` staked; nothing else in it changed.
pub open spec fn pool_moved(
    before: StakePool,
    after: StakePool,
    rewards_balance: u64,
    reward: int,
    total_staked: int,
) -> bool {
    &&& after.acc_reward_per_share == shared_out(before, rewards_balance)
    &&& reward <= rewards_balance ==> after.last_reward_balance == rewards_balance - reward
    &&& reward > rewards_balance ==> after.last_reward_balance == 0
    &&& after.total_staked == total_staked
    &&& after.admin == before.admin
    &&& after.naim_mint == before.naim_mint
    &&& after.bump == before.bump
    &&& after.stake_vault_bump == before.stake_vault_bump
}

/// Who is owed rewards gets them: a claim with the user's own position and the
/// pool's mint succeeds exactly where the position earned more than it was settled
/// for, and then gives the user that difference, out of the stakers vault.
pub proof fn law_owed_rewards_can_be_claimed(
    before: ClaimRewards,
    after: ClaimRewards,
    res: Result<Vec<Action>, Error>,
)
    requires
        claim_rewards_in_range(before),
        claim_rewards_outcome(before, after, res),
        before.stake_account_seed == before.user,
        before.naim_mint.key == before.stake_pool.naim_mint,
    ensures
        ({
            let position = before.stake_account;
            let acc = shared_out(before.stake_pool, before.rewards_balance);
            let earned = position.amount * acc / 1_000_000_000_000;
            &&& earned <= position.reward_debt ==> res == Err::<Vec<Action>, Error>(
                Error::Naim(NaimError::NothingToClaim),
            )
            &&& position.reward_debt < earned <= position.reward_debt + u64::MAX ==> {
                &&& res is Ok
                &&& total(
                    res->Ok_0@,
                    |a: Action| token_given(a, before.naim_mint.key, before.user),
                ) == earned - position.reward_debt
                &&& total(
                    res->Ok_0@,
                    |a: Action| token_taken(a, before.naim_mint.key, before.stakers_vault),
                ) == earned - position.reward_debt
            }
        }),
{
    law_growth_is_shared_out(before.stake_pool, before.rewards_balance);
    law_accumulator_never_falls(before.stake_pool, before.rewards_balance);
    law_owed_is_earned_less_settled(before.stake_account, before.acc());
    if res is Ok {
        law_claim_pays_the_rewards(before);
    }
}

/// Which error a claim is due, if any.
pub open spec fn claim_due(ctx: ClaimRewards) -> Option<Error> {
    if !(ctx.stake_account_seed == ctx.user) {
        Some(Error::ConstraintSeeds)
    } else if !(ctx.stake_pool.naim_mint == ctx.naim_mint.key) {
        Some(Error::ConstraintAddress)
    } else if unpaid(ctx.stake_account, shared_out(ctx.stake_pool, ctx.rewards_balance)) == 0 {
        Some(Error::Naim(NaimError::NothingToClaim))
    } else {
        None
    }
}

/// A claim pays the user what is owed out of the stakers vault and settles the
/// position; the principal, the lock and the pool's total stay.
pub proof fn law_claim_in_full(
    before: ClaimRewards,
    after: ClaimRewards,
    res: Result<Vec<Action>, Error>,
)
    requires
        claim_rewards_in_range(before),
        claim_rewards_outcome(before, after, res),
    ensures
        match res {
            Ok(actions) => {
                let acc = shared_out(before.stake_pool, before.rewards_balance);
                let reward = unpaid(before.stake_account, acc);
                &&& claim_due(before) is None
                &&& actions@ == from_vault(
                    before.naim_mint,
                    Vault::Stakers,
                    before.token_config.vault_bump,
                    before.stakers_vault,
                    before.user,
                    reward,
                )
                &&& pool_moved(
                    before.stake_pool,
                    after.stake_pool,
                    before.rewards_balance,
                    reward,
                    before.stake_pool.total_staked as int,
                )
                &&& settles(after.stake_account.reward_debt, before.stake_account.amount, acc)
                &&& after.stake_account == StakeAccount {
                    reward_debt: after.stake_account.reward_debt,
                    ..before.stake_account
                }
                &&& after == ClaimRewards {
                    stake_pool: after.stake_pool,
                    stake_account: after.stake_account,
                    ..before
                }
            },
            Err(e) => claim_due(before) == Some(e) && after == before,
        },
{
    law_growth_is_shared_out(before.stake_pool, before.rewards_balance);
    law_accumulator_never_falls(before.stake_pool, before.rewards_balance);
    law_owed_is_earned_less_settled(before.stake_account, before.acc());
    lemma_entitled_is_a_quotient(before.stake_account.amount, before.acc());
}

/// Which error a stake is due, if any.
pub open spec fn stake_due(ctx: Stake, amount: u64, lock_seconds: i64) -> Option<Error> {
    if !(ctx.stake_account_seed == ctx.user) {
        Some(Error::ConstraintSeeds)
    } else if !(ctx.stake_pool.naim_mint == ctx.naim_mint.key) {
        Some(Error::ConstraintAddress)
    } else if !(amount > 0 && lock_seconds >= 0) {
        Some(Error::Naim(NaimError::InvalidConfig))
    } else {
        None
    }
}

/// A stake of something, for no negative time, succeeds: the user pays the amount
/// into custody and gets what the position was owed before; the position and the
/// pool grow by the amount, the position is settled for its new size, and the lock
/// ends at the later of its old end and the new one.
pub proof fn law_stake_in_full(
    before: Stake,
    amount: u64,
    lock_seconds: i64,
    now: i64,
    after: Stake,
    res: Result<Vec<Action>, Error>,
)
    requires
        stake_in_range(before, amount, lock_seconds, now),
        stake_outcome(before, amount, lock_seconds, now, after, res),
    ensures
        match res {
            Ok(actions) => {
                let acc = shared_out(before.stake_pool, before.rewards_balance);
                let old_position = before.stake_account;
                let position = after.stake_account;
                let reward = unpaid(old_position, acc);
                &&& stake_due(before, amount, lock_seconds) is None
                &&& actions@ == from_wallet(
                    before.naim_mint,
                    before.user,
                    before.stake_vault,
                    amount as int,
                ) + from_vault(
                    before.naim_mint,
                    Vault::Stakers,
                    before.token_config.vault_bump,
                    before.stakers_vault,
                    before.user,
                    reward,
                )
                &&& pool_moved(
                    before.stake_pool,
                    after.stake_pool,
                    before.rewards_balance,
                    reward,
                    before.stake_pool.total_staked + amount,
                )
                &&& position.amount == old_position.amount + amount
                &&& settles(position.reward_debt, position.amount, acc)
                &&& position.lock_end >= old_position.lock_end
                &&& position.lock_end >= now + lock_seconds
                &&& position.lock_end == old_position.lock_end || position.lock_end == now
                    + lock_seconds
                &&& old_position.owner.is_zero() ==> position.owner == before.user && position.bump
                    == before.stake_account_bump
                &&& !old_position.owner.is_zero() ==> position.owner == old_position.owner
                    && position.bump == old_position.bump
                &&& after == Stake {
                    stake_pool: after.stake_pool,
                    stake_account: position,
                    ..before
                }
            },
            Err(e) => stake_due(before, amount, lock_seconds) == Some(e) && after == before,
        },
{
    law_growth_is_shared_out(before.stake_pool, before.rewards_balance);
    law_accumulator_never_falls(before.stake_pool, before.rewards_balance);
    law_owed_is_earned_less_settled(before.stake_account, before.acc());
    if res is Ok {
        let principal = (before.stake_account.amount + amount) as u64;
        lemma_entitled_is_a_quotient(principal, before.acc());
    }
}

/// Which error an unstake is due, if any.
pub open spec fn unstake_due(ctx: Unstake, amount: u64, now: i64) -> Option<Error> {
    if !(ctx.stake_account_seed == ctx.user) {
        Some(Error::ConstraintSeeds)
    } else if !(ctx.stake_pool.naim_mint == ctx.naim_mint.key) {
        Some(Error::ConstraintAddress)
    } else if !(amount > 0) {
        Some(Error::Naim(NaimError::InvalidConfig))
    } else if !(ctx.stake_account.lock_end <= now) {
        Some(Error::Naim(NaimError::StakeLocked))
    } else if !(amount <= ctx.stake_account.amount) {
        Some(Error::Naim(NaimError::InsufficientStake))
    } else {
        None
    }
}

/// Once the lock has ended, whoever staked gets back what they ask for, up to what
/// they staked, and what the position is owed on top; the position and the pool
/// shrink by the amount, and the position is settled for its new size.
pub proof fn law_unstake_in_full(
    before: Unstake,
    amount: u64,
    now: i64,
    after: Unstake,
    res: Result<Vec<Action>, Error>,
)
    requires
        unstake_in_range(before, amount, now),
        unstake_outcome(before, amount, now, after, res),
    ensures
        match res {
            Ok(actions) => {
                let acc = shared_out(before.stake_pool, before.rewards_balance);
                let old_position = before.stake_account;
                let position = after.stake_account;
                let reward = unpaid(old_position, acc);
                &&& unstake_due(before, amount, now) is None
                &&& actions@ == from_vault(
                    before.naim_mint,
                    Vault::Stake,
                    before.stake_pool.stake_vault_bump,
                    before.stake_vault,
                    before.user,
                    amount as int,
                ) + from_vault(
                    before.naim_mint,
                    Vault::Stakers,
                    before.token_config.vault_bump,
                    before.stakers_vault,
                    before.user,
                    reward,
                )
                &&& pool_moved(
                    before.stake_pool,
                    after.stake_pool,
                    before.rewards_balance,
                    reward,
                    before.stake_pool.total_staked - amount,
                )
                &&& position.amount == old_position.amount - amount
                &&& settles(position.reward_debt, position.amount, acc)
                &&& position == StakeAccount {
                    amount: position.amount,
                    reward_debt: position.reward_debt,
                    ..old_position
                }
                &&& after == Unstake {
                    stake_pool: after.stake_pool,
                    stake_account: position,
                    ..before
                }
            },
            Err(e) => unstake_due(before, amount, now) == Some(e) && after == before,
        },
{
    law_growth_is_shared_out(before.stake_pool, before.rewards_balance);
    law_accumulator_never_falls(before.stake_pool, before.rewards_balance);
    law_owed_is_earned_less_settled(before.stake_account, before.acc());
    if res is Ok {
        let principal = (before.stake_account.amount - amount) as u64;
        lemma_entitled_is_a_quotient(principal, before.acc());
        assert(principal * before.acc() <= before.stake_account.amount * before.acc())
            by (nonlinear_arith)
            requires
                principal <= before.stake_account.amount,
                0 <= before.acc(),
        ;
    }
}

/// Staking, claiming and unstaking are out of range only where a sum that they need
/// does not fit its field: the accumulator, the units times the accumulator, the
/// principal, the pool's total, or the end of the lock.
pub proof fn law_staking_ranges(
    s: Stake,
    c: ClaimRewards,
    u: Unstake,
    amount: u64,
    lock_seconds: i64,
    now: i64,
)
    ensures
        stake_in_range(s, amount, lock_seconds, now) <==> {
            let acc = shared_out(s.stake_pool, s.rewards_balance);
            let principal = s.stake_account.amount + amount;
            stake_due(s, amount, lock_seconds) is None ==> {
                &&& acc <= u128::MAX
                &&& principal * acc <= u128::MAX
                &&& principal <= u64::MAX
                &&& s.stake_pool.total_staked + amount <= u64::MAX
                &&& now + lock_seconds <= i64::MAX
            }
        },
        claim_rewards_in_range(c) <==> {
            let acc = shared_out(c.stake_pool, c.rewards_balance);
            c.stake_account_seed == c.user && c.stake_pool.naim_mint == c.naim_mint.key ==> {
                &&& acc <= u128::MAX
                &&& c.stake_account.amount * acc <= u128::MAX
            }
        },
        unstake_in_range(u, amount, now) <==> {
            let acc = shared_out(u.stake_pool, u.rewards_balance);
            unstake_due(u, amount, now) is None ==> {
                &&& acc <= u128::MAX
                &&& u.stake_account.amount * acc <= u128::MAX
                &&& u.stake_pool.total_staked - amount >= 0
            }
        },
{
    law_growth_is_shared_out(s.stake_pool, s.rewards_balance);
    law_growth_is_shared_out(c.stake_pool, c.rewards_balance);
    law_growth_is_shared_out(u.stake_pool, u.rewards_balance);
}

/// Staking is set up once, by the tokenomics' admin and for the tokenomics' mint,
/// with nothing staked and what the vault holds already counted.
pub proof fn law_pool_setup_in_full(
    before: InitStakePool,
    after: InitStakePool,
    res: Result<(), Error>,
)
    requires
        init_stake_pool_outcome(before, after, res),
    ensures
        match res {
            Ok(_) => {
                &&& before.stake_pool is None
                &&& before.admin == before.token_config.admin
                &&& before.naim_mint.key == before.token_config.naim_mint
                &&& after.stake_pool matches Some(pool)
                &&& pool.admin == before.admin
                &&& pool.naim_mint == before.naim_mint.key
                &&& pool.total_staked == 0
                &&& pool.acc_reward_per_share == 0
                &&& pool.last_reward_balance == before.rewards_balance
                &&& pool.bump == before.stake_pool_bump
                &&& pool.stake_vault_bump == before.stake_vault_bump
                &&& after == InitStakePool { stake_pool: after.stake_pool, ..before }
            },
            Err(e) => {
                &&& after == before
                &&& e == if before.stake_pool is Some {
                    Error::AccountInUse
                } else if before.admin != before.token_config.admin {
                    Error::ConstraintHasOne
                } else {
                    Error::ConstraintAddress
                }
                &&& before.stake_pool is Some || before.admin != before.token_config.admin
                    || before.naim_mint.key != before.token_config.naim_mint
            },
        },
{
}

/// A payout of a vault is one transfer that the program signs for, or none where
/// there is nothing to pay.
pub proof fn law_vault_pays_what_it_is_told(
    mint: Mint,
    from: Pubkey,
    to: Pubkey,
    signer: VaultSigner,
    amount: u64,
)
    ensures
        vault_payout(mint, from, to, signer, amount) == from_vault(
            mint,
            signer.vault,
            signer.bump,
            from,
            to,
            amount as int,
        ),
{
}

/// Asking to stake, claim or unstake without knowing the range gives no answer
/// exactly where the sums do not fit, and then changes nothing; otherwise it gives
/// the answer of the instruction itself.
pub proof fn law_tried_stakes_are_answered(
    s: Stake,
    s_after: Stake,
    c: ClaimRewards,
    c_after: ClaimRewards,
    u: Unstake,
    u_after: Unstake,
    amount: u64,
    lock_seconds: i64,
    now: i64,
    res: Option<Result<Vec<Action>, Error>>,
)
    ensures
        try_stake_outcome(s, amount, lock_seconds, now, s_after, res) ==> {
            &&& res is Some <==> stake_in_range(s, amount, lock_seconds, now)
            &&& res is None ==> s_after == s
            &&& res matches Some(r) ==> stake_outcome(s, amount, lock_seconds, now, s_after, r)
        },
        try_claim_rewards_outcome(c, c_after, res) ==> {
            &&& res is Some <==> claim_rewards_in_range(c)
            &&& res is None ==> c_after == c
            &&& res matches Some(r) ==> claim_rewards_outcome(c, c_after, r)
        },
        try_unstake_outcome(u, amount, now, u_after, res) ==> {
            &&& res is Some <==> unstake_in_range(u, amount, now)
            &&& res is None ==> u_after == u
            &&& res matches Some(r) ==> unstake_outcome(u, amount, now, u_after, r)
        },
{
}

} // verus!
