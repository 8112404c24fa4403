use naim::action::{Action, Mint, Vault, VaultSigner};
use naim::error::{Error, NaimError};
use naim::pubkey::Pubkey;
use naim::staking::{
    claim_rewards, init_stake_pool, pay_from_vault, pending, stake, sync_pool, try_claim_rewards,
    try_stake, try_unstake, unstake, ClaimRewards, InitStakePool, Stake, Unstake,
};
use naim::state::{StakeAccount, StakePool, TokenConfig};

fn key(n: u8) -> Pubkey {
    Pubkey { bytes: [n; 32] }
}

fn naim(e: NaimError) -> Error {
    Error::Naim(e)
}

fn token_config() -> TokenConfig {
    TokenConfig {
        admin: key(1),
        naim_mint: key(2),
        treasury: key(3),
        fee_1_4: 1_000,
        fee_5_9: 501,
        fee_10_plus: 99,
        verify_fee: 77,
        treasury_bps: 5_000,
        stakers_bps: 3_000,
        burn_bps: 2_000,
        total_burned: 10,
        bump: 250,
        vault_bump: 251,
    }
}

fn mint() -> Mint {
    Mint { key: key(2), decimals: 6 }
}

fn pay(from: u8, to: u8, amount: u64) -> Action {
    Action::TransferToken {
        mint: key(2),
        from: key(from),
        to: key(to),
        amount,
        decimals: 6,
        signer: None,
    }
}

fn pool() -> StakePool {
    StakePool {
        admin: key(1),
        naim_mint: key(2),
        total_staked: 100,
        acc_reward_per_share: 0,
        last_reward_balance: 10,
        bump: 240,
        stake_vault_bump: 241,
    }
}

fn position() -> StakeAccount {
    StakeAccount { owner: key(9), amount: 40, reward_debt: 0, lock_end: 7, bump: 242 }
}

fn staking() -> Stake {
    Stake {
        stake_pool: pool(),
        stake_account: position(),
        stake_account_seed: key(9),
        token_config: token_config(),
        user: key(9),
        naim_mint: mint(),
        stake_vault: key(30),
        stakers_vault: key(31),
        rewards_balance: 60,
        stake_account_bump: 199,
    }
}

fn claiming() -> ClaimRewards {
    ClaimRewards {
        stake_pool: pool(),
        stake_account: position(),
        stake_account_seed: key(9),
        token_config: token_config(),
        user: key(9),
        naim_mint: mint(),
        stakers_vault: key(31),
        rewards_balance: 60,
    }
}

fn unstaking() -> Unstake {
    Unstake {
        stake_pool: pool(),
        stake_account: position(),
        stake_account_seed: key(9),
        token_config: token_config(),
        user: key(9),
        naim_mint: mint(),
        stake_vault: key(30),
        stakers_vault: key(31),
        rewards_balance: 60,
    }
}

fn reward(amount: u64) -> Action {
    Action::TransferToken {
        mint: key(2),
        from: key(31),
        to: key(9),
        amount,
        decimals: 6,
        signer: Some(VaultSigner { vault: Vault::Stakers, bump: 251 }),
    }
}

fn principal(amount: u64) -> Action {
    Action::TransferToken {
        mint: key(2),
        from: key(30),
        to: key(9),
        amount,
        decimals: 6,
        signer: Some(VaultSigner { vault: Vault::Stake, bump: 241 }),
    }
}

#[test]
fn pool_starts_empty_and_skips_earlier_rewards() {
    let mut ctx = InitStakePool {
        stake_pool: None,
        token_config: token_config(),
        admin: key(5),
        naim_mint: mint(),
        rewards_balance: 777,
        stake_pool_bump: 240,
        stake_vault_bump: 241,
    };
    assert_eq!(init_stake_pool(&mut ctx), Err(Error::ConstraintHasOne));
    ctx.admin = key(1);
    ctx.naim_mint.key = key(6);
    assert_eq!(init_stake_pool(&mut ctx), Err(Error::ConstraintAddress));
    ctx.naim_mint = mint();
    assert_eq!(init_stake_pool(&mut ctx), Ok(()));
    assert_eq!(
        ctx.stake_pool,
        Some(StakePool { total_staked: 0, last_reward_balance: 777, ..pool() })
    );
    assert_eq!(init_stake_pool(&mut ctx), Err(Error::AccountInUse));
}

#[test]
fn sync_folds_growth_into_the_accumulator() {
    let mut p = pool();
    sync_pool(&mut p, 60);
    assert_eq!(p.acc_reward_per_share, 500_000_000_000);
    assert_eq!(p.last_reward_balance, 60);
    sync_pool(&mut p, 60);
    assert_eq!(p.acc_reward_per_share, 500_000_000_000);
    sync_pool(&mut p, 20);
    assert_eq!(p.acc_reward_per_share, 500_000_000_000);
    assert_eq!(p.last_reward_balance, 20);
    p.total_staked = 7;
    sync_pool(&mut p, 21);
    assert_eq!(p.acc_reward_per_share, 642_857_142_857);
}

#[test]
fn rewards_without_stakers_are_lost_to_them() {
    let mut p = pool();
    p.total_staked = 0;
    sync_pool(&mut p, 1_000);
    assert_eq!(p, StakePool { total_staked: 0, last_reward_balance: 1_000, ..pool() });
    p.total_staked = 10;
    sync_pool(&mut p, 1_000);
    assert_eq!(p.acc_reward_per_share, 0);
}

#[test]
fn pending_is_earned_less_settled() {
    let mut s = position();
    assert_eq!(pending(&s, 500_000_000_000), 20);
    s.reward_debt = 15;
    assert_eq!(pending(&s, 500_000_000_000), 5);
    s.reward_debt = 21;
    assert_eq!(pending(&s, 500_000_000_000), 0);
    s.amount = 1;
    s.reward_debt = 0;
    assert_eq!(pending(&s, ((1u128 << 64) + 3) * 1_000_000_000_000), 3);
}

#[test]
fn vault_pays_nothing_for_zero() {
    let mut actions = vec![];
    let signer = VaultSigner { vault: Vault::Stakers, bump: 251 };
    pay_from_vault(&mut actions, &mint(), &key(31), &key(9), signer, 0);
    assert_eq!(actions, vec![]);
    pay_from_vault(&mut actions, &mint(), &key(31), &key(9), signer, 4);
    assert_eq!(actions, vec![reward(4)]);
}

#[test]
fn stake_harvests_then_grows_the_position() {
    let mut ctx = staking();
    assert_eq!(stake(&mut ctx, 60, 5, 100), Ok(vec![pay(9, 30, 60), reward(20)]));
    assert_eq!(
        ctx.stake_account,
        StakeAccount { amount: 100, reward_debt: 50, lock_end: 105, ..position() }
    );
    assert_eq!(
        ctx.stake_pool,
        StakePool {
            total_staked: 160,
            acc_reward_per_share: 500_000_000_000,
            last_reward_balance: 40,
            ..pool()
        }
    );
}

#[test]
fn first_stake_opens_the_position() {
    let mut ctx = staking();
    ctx.stake_account = StakeAccount {
        owner: Pubkey::default(),
        amount: 0,
        reward_debt: 0,
        lock_end: 0,
        bump: 0,
    };
    assert_eq!(stake(&mut ctx, 60, 0, 100), Ok(vec![pay(9, 30, 60)]));
    assert_eq!(
        ctx.stake_account,
        StakeAccount { owner: key(9), amount: 60, reward_debt: 30, lock_end: 100, bump: 199 }
    );
    assert_eq!(ctx.stake_pool.last_reward_balance, 60);
}

#[test]
fn stake_never_shortens_the_lock() {
    let mut ctx = staking();
    ctx.stake_account.lock_end = 1_000;
    assert!(stake(&mut ctx, 60, 5, 100).is_ok());
    assert_eq!(ctx.stake_account.lock_end, 1_000);
}

#[test]
fn stake_refusals() {
    let mut ctx = staking();
    assert_eq!(stake(&mut ctx, 0, 5, 100), Err(naim(NaimError::InvalidConfig)));
    assert_eq!(stake(&mut ctx, 1, -1, 100), Err(naim(NaimError::InvalidConfig)));
    ctx.naim_mint.key = key(6);
    assert_eq!(stake(&mut ctx, 1, 0, 100), Err(Error::ConstraintAddress));
    ctx.stake_account_seed = key(8);
    assert_eq!(stake(&mut ctx, 1, 0, 100), Err(Error::ConstraintSeeds));
    assert_eq!(ctx.stake_pool, pool());
    assert_eq!(ctx.stake_account, position());
}

#[test]
fn try_stake_reports_sums_out_of_range() {
    let mut ctx = staking();
    assert_eq!(try_stake(&mut ctx, u64::MAX, 5, 100), None);
    assert_eq!(try_stake(&mut ctx, 1, i64::MAX, 1), None);
    ctx.stake_pool.acc_reward_per_share = u128::MAX;
    assert_eq!(try_stake(&mut ctx, 1, 0, 1), None);
    ctx.rewards_balance = 10;
    assert_eq!(try_stake(&mut ctx, 1, 0, 1), None);
    ctx.stake_account.amount = 0;
    assert!(matches!(try_stake(&mut ctx, 1, 0, 1), Some(Ok(_))));
    let mut ctx = staking();
    ctx.stake_pool.total_staked = u64::MAX;
    assert_eq!(try_stake(&mut ctx, 1, 0, 1), None);
    assert_eq!(try_stake(&mut ctx, 0, 0, 1), Some(Err(naim(NaimError::InvalidConfig))));
}

#[test]
fn claim_pays_once() {
    let mut ctx = claiming();
    assert_eq!(claim_rewards(&mut ctx), Ok(vec![reward(20)]));
    assert_eq!(ctx.stake_account, StakeAccount { reward_debt: 20, ..position() });
    assert_eq!(ctx.stake_pool.last_reward_balance, 40);
    assert_eq!(ctx.stake_pool.total_staked, 100);
    ctx.rewards_balance = 40;
    let settled = ctx;
    assert_eq!(claim_rewards(&mut ctx), Err(naim(NaimError::NothingToClaim)));
    assert_eq!(ctx, settled);
}

#[test]
fn claim_refusals() {
    let mut ctx = claiming();
    ctx.naim_mint.key = key(6);
    assert_eq!(claim_rewards(&mut ctx), Err(Error::ConstraintAddress));
    ctx.user = key(8);
    assert_eq!(claim_rewards(&mut ctx), Err(Error::ConstraintSeeds));
    let mut ctx = claiming();
    ctx.stake_pool.acc_reward_per_share = u128::MAX;
    assert_eq!(try_claim_rewards(&mut ctx), None);
    ctx.rewards_balance = 10;
    assert_eq!(try_claim_rewards(&mut ctx), None);
    let mut ctx = claiming();
    assert_eq!(try_claim_rewards(&mut ctx), Some(Ok(vec![reward(20)])));
}

#[test]
fn unstake_returns_principal_and_rewards() {
    let mut ctx = unstaking();
    assert_eq!(unstake(&mut ctx, 30, 7), Ok(vec![principal(30), reward(20)]));
    assert_eq!(
        ctx.stake_account,
        StakeAccount { amount: 10, reward_debt: 5, ..position() }
    );
    assert_eq!(
        ctx.stake_pool,
        StakePool {
            total_staked: 70,
            acc_reward_per_share: 500_000_000_000,
            last_reward_balance: 40,
            ..pool()
        }
    );
}

#[test]
fn unstake_refusals() {
    let mut ctx = unstaking();
    assert_eq!(unstake(&mut ctx, 0, 7), Err(naim(NaimError::InvalidConfig)));
    assert_eq!(unstake(&mut ctx, 1, 6), Err(naim(NaimError::StakeLocked)));
    assert_eq!(unstake(&mut ctx, 41, 7), Err(naim(NaimError::InsufficientStake)));
    ctx.naim_mint.key = key(6);
    assert_eq!(unstake(&mut ctx, 1, 7), Err(Error::ConstraintAddress));
    ctx.user = key(8);
    assert_eq!(unstake(&mut ctx, 1, 7), Err(Error::ConstraintSeeds));
    let mut ctx = unstaking();
    ctx.stake_pool.total_staked = 5;
    assert_eq!(try_unstake(&mut ctx, 10, 7), None);
    assert_eq!(try_unstake(&mut ctx, 10, 6), Some(Err(naim(NaimError::StakeLocked))));
    ctx.stake_pool.acc_reward_per_share = u128::MAX;
    assert_eq!(try_unstake(&mut ctx, 1, 7), None);
    let mut ctx = unstaking();
    assert_eq!(try_unstake(&mut ctx, 40, 7), Some(Ok(vec![principal(40), reward(20)])));
}

#[test]
fn pool_total_follows_its_positions() {
    let mut pool_now = StakePool { total_staked: 0, last_reward_balance: 0, ..pool() };
    let mut positions = [position(); 3];
    for p in positions.iter_mut() {
        p.amount = 0;
    }
    let mut vault: u64 = 0;
    let mut held: u64 = 0;
    for round in 0..30u64 {
        let i = (round % 3) as usize;
        vault += 17 * round;
        let mut ctx = Stake {
            stake_pool: pool_now,
            stake_account: positions[i],
            rewards_balance: vault,
            ..staking()
        };
        let actions = stake(&mut ctx, 13 + round, 0, 1).unwrap();
        for a in actions.iter() {
            if let Action::TransferToken { from, amount, .. } = a {
                if *from == key(31) {
                    vault -= *amount;
                } else {
                    held += *amount;
                }
            }
        }
        pool_now = ctx.stake_pool;
        positions[i] = ctx.stake_account;
        assert_eq!(pool_now.total_staked, positions.iter().map(|p| p.amount).sum::<u64>());
        assert_eq!(pool_now.total_staked, held);
        assert_eq!(pool_now.last_reward_balance, vault);
        assert_eq!(pending(&positions[i], pool_now.acc_reward_per_share), 0);
        let all: u64 =
            positions.iter().map(|p| pending(p, pool_now.acc_reward_per_share)).sum();
        assert!(all <= vault + round + 1);
    }
}

#[test]
fn unstaking_undoes_staking() {
    let mut s = staking();
    assert!(stake(&mut s, 60, 5, 100).is_ok());
    let mut u = unstaking();
    u.stake_pool = s.stake_pool;
    u.stake_account = s.stake_account;
    u.rewards_balance = 40;
    assert_eq!(unstake(&mut u, 60, 104), Err(naim(NaimError::StakeLocked)));
    assert_eq!(unstake(&mut u, 60, 105), Ok(vec![principal(60)]));
    assert_eq!(u.stake_account.amount, position().amount);
    assert_eq!(u.stake_pool.total_staked, pool().total_staked);
}

#[test]
fn other_positions_keep_their_rewards() {
    let other = StakeAccount { owner: key(10), amount: 60, ..position() };
    let mut synced = pool();
    sync_pool(&mut synced, 60);
    assert_eq!(pending(&other, synced.acc_reward_per_share), 30);
    let mut s = staking();
    assert!(stake(&mut s, 1_000, 0, 100).is_ok());
    assert_eq!(pending(&other, s.stake_pool.acc_reward_per_share), 30);
    let mut c = claiming();
    assert!(claim_rewards(&mut c).is_ok());
    assert_eq!(pending(&other, c.stake_pool.acc_reward_per_share), 30);
    let mut u = unstaking();
    assert!(unstake(&mut u, 40, 7).is_ok());
    assert_eq!(pending(&other, u.stake_pool.acc_reward_per_share), 30);
}
