//! Protocol constants: limits, rates, currencies and the seeds that account
//! addresses are derived from. A seed is the ASCII text in its comment.
use vstd::prelude::*;

verus! {

/// Seed prefix of every name record. `naim`
pub const SEED_PREFIX: [u8; 4] = [110, 97, 105, 109];

/// Top-level domain of agent names. `.agent`
pub const TLD_AGENT: [u8; 6] = [46, 97, 103, 101, 110, 116];

/// Seed of the singleton protocol config. `config`
pub const CONFIG_SEED: [u8; 6] = [99, 111, 110, 102, 105, 103];

/// Seed of the singleton tokenomics config. `token_config`
pub const TOKEN_CONFIG_SEED: [u8; 12] = [116, 111, 107, 101, 110, 95, 99, 111, 110, 102, 105, 103];

/// Seed of the stakers-vault authority, which owns the token account that
/// accrues the stakers' share of every fee. `stakers_vault`
pub const STAKERS_VAULT_SEED: [u8; 13] = [115, 116, 97, 107, 101, 114, 115, 95, 118, 97, 117, 108, 116];

/// Seed of the singleton staking pool. `stake_pool`
pub const STAKE_POOL_SEED: [u8; 10] = [115, 116, 97, 107, 101, 95, 112, 111, 111, 108];

/// Seed of a user's stake position. `stake`
pub const STAKE_SEED: [u8; 5] = [115, 116, 97, 107, 101];

/// Seed of the authority that custodies staked principal. `stake_vault`
pub const STAKE_VAULT_SEED: [u8; 11] = [115, 116, 97, 107, 101, 95, 118, 97, 117, 108, 116];

/// Seed of a name's reputation record. `rep`
pub const REP_SEED: [u8; 3] = [114, 101, 112];

/// Seed of a category record. `category`
pub const CATEGORY_SEED: [u8; 8] = [99, 97, 116, 101, 103, 111, 114, 121];

/// Seed of a sponsored ranking bid. `rankbid`
pub const RANK_BID_SEED: [u8; 7] = [114, 97, 110, 107, 98, 105, 100];

/// Seed of a name's marketplace listing. `listing`
pub const LISTING_SEED: [u8; 7] = [108, 105, 115, 116, 105, 110, 103];

/// Seed of the singleton marketplace config. `market_config`
pub const MARKET_CONFIG_SEED: [u8; 13] = [109, 97, 114, 107, 101, 116, 95, 99, 111, 110, 102, 105, 103];

/// Denominator of a share in basis points: the whole is 10_000.
pub const BPS_DENOM: u16 = 10_000;

/// Fixed-point precision of the reward-per-share accumulator.
pub const ACC_PRECISION: u128 = 1_000_000_000_000;

/// Royalty that a new category earns on each name minted beneath it: 5%.
pub const DEFAULT_ROYALTY_BPS: u16 = 500;

/// Stake, in base units, that earns the first registration discount.
pub const STAKE_DISCOUNT_TIER1: u64 = 1_000_000_000;

/// The first registration discount: 10%.
pub const STAKE_DISCOUNT_BPS1: u16 = 1_000;

/// Stake, in base units, that earns the second registration discount.
pub const STAKE_DISCOUNT_TIER2: u64 = 5_000_000_000;

/// The second registration discount: 25%.
pub const STAKE_DISCOUNT_BPS2: u16 = 2_500;

/// Longest name, in characters.
pub const MAX_NAME_LEN: usize = 63;

/// Longest metadata URI, in bytes.
pub const MAX_METADATA_URI_LEN: usize = 200;

/// Most secondary wallets that one name can have.
pub const MAX_LINKED_WALLETS: usize = 5;

/// Length of a sponsored-ranking epoch, in seconds.
pub const RANK_EPOCH_SECS: i64 = 60;

/// Listing priced in $NAIM.
pub const CURRENCY_NAIM: u8 = 0;

/// Listing priced in SOL.
pub const CURRENCY_SOL: u8 = 1;

/// Listing priced in USDC.
pub const CURRENCY_USDC: u8 = 2;

} // verus!
