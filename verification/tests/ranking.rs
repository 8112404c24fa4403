use naim::action::{Action, Mint};
use naim::error::{Error, NaimError};
use naim::pubkey::Pubkey;
use naim::ranking::{place_rank_bid, place_rank_bid_with_digest, PlaceRankBid};
use naim::state::{NameRecord, RankBid, TokenConfig};

const NAME: [u8; 32] = [42; 32];
const SWAP_SHA256: [u8; 32] = [218, 71, 194, 244, 80, 164, 249, 213, 56, 216, 109, 96, 13, 85, 20, 154, 253, 57, 214, 103, 47, 221, 31, 48, 198, 138, 213, 190, 33, 202, 218, 216];

fn key(n: u8) -> Pubkey {
    Pubkey { bytes: [n; 32] }
}

fn naim(e: NaimError) -> Error {
    Error::Naim(e)
}

fn token_config() -> TokenConfig {
    TokenConfig {
        admin: key(1),
        naim_mint: key(2),
        treasury: key(3),
        fee_1_4: 1_000,
        fee_5_9: 501,
        fee_10_plus: 99,
        verify_fee: 77,
        treasury_bps: 5_000,
        stakers_bps: 3_000,
        burn_bps: 2_000,
        total_burned: 10,
        bump: 250,
        vault_bump: 251,
    }
}

fn mint() -> Mint {
    Mint { key: key(2), decimals: 6 }
}


fn record(owner: u8) -> NameRecord {
    NameRecord {
        owner: key(owner),
        resolver: key(owner),
        metadata_uri: String::new(),
        expiry_timestamp: 0,
        verified: false,
        linked_wallets: vec![],
        bump: 200,
    }
}

fn bidding() -> PlaceRankBid {
    PlaceRankBid {
        token_config: token_config(),
        name_record: Some(record(9)),
        name_record_seed: NAME,
        rank_bid: RankBid {
            owner: Pubkey::default(),
            name_hash: [0; 32],
            capability_hash: [0; 32],
            amount: 0,
            epoch: 0,
            bump: 0,
        },
        rank_bid_name_seed: NAME,
        rank_bid_capability_seed: SWAP_SHA256,
        owner: key(9),
        naim_mint: mint(),
        rank_bid_bump: 160,
    }
}

fn bid(ctx: &mut PlaceRankBid, amount: u64, now: i64) -> Result<Vec<Action>, Error> {
    place_rank_bid(ctx, NAME, "swap".to_string(), SWAP_SHA256, amount, now)
}

#[test]
fn bid_is_burned_whole() {
    let mut ctx = bidding();
    assert_eq!(
        bid(&mut ctx, 70, 6_005),
        Ok(vec![Action::BurnToken { mint: key(2), from: key(9), amount: 70 }])
    );
    assert_eq!(ctx.token_config.total_burned, 80);
    assert_eq!(
        ctx.rank_bid,
        RankBid {
            owner: key(9),
            name_hash: NAME,
            capability_hash: SWAP_SHA256,
            amount: 70,
            epoch: 100,
            bump: 160,
        }
    );
}

#[test]
fn bids_add_up_within_an_epoch() {
    let mut ctx = bidding();
    assert!(bid(&mut ctx, 70, 6_000).is_ok());
    assert!(bid(&mut ctx, 5, 6_059).is_ok());
    assert_eq!(ctx.rank_bid.amount, 75);
    assert_eq!(ctx.rank_bid.epoch, 100);
    assert!(bid(&mut ctx, 5, 6_060).is_ok());
    assert_eq!(ctx.rank_bid.amount, 5);
    assert_eq!(ctx.rank_bid.epoch, 101);
    assert!(bid(&mut ctx, u64::MAX, 6_061).is_ok());
    assert_eq!(ctx.rank_bid.amount, u64::MAX);
    assert_eq!(ctx.token_config.total_burned, u64::MAX);
}

#[test]
fn epochs_round_towards_zero() {
    let mut ctx = bidding();
    assert!(bid(&mut ctx, 1, -59).is_ok());
    assert_eq!(ctx.rank_bid.epoch, 0);
    assert!(bid(&mut ctx, 1, -61).is_ok());
    assert_eq!(ctx.rank_bid.epoch, -1);
}

#[test]
fn later_bids_keep_the_first_bidder() {
    let mut ctx = bidding();
    assert!(bid(&mut ctx, 70, 6_000).is_ok());
    ctx.owner = key(12);
    ctx.name_record = Some(record(12));
    ctx.rank_bid_bump = 1;
    assert!(bid(&mut ctx, 1, 6_000).is_ok());
    assert_eq!(ctx.rank_bid.owner, key(9));
    assert_eq!(ctx.rank_bid.bump, 160);
}

#[test]
fn bid_refusals() {
    let mut ctx = bidding();
    assert_eq!(bid(&mut ctx, 0, 0), Err(naim(NaimError::InvalidConfig)));
    assert_eq!(
        place_rank_bid(&mut ctx, NAME, "swop".to_string(), SWAP_SHA256, 5, 0),
        Err(naim(NaimError::InvalidName))
    );
    assert_eq!(
        place_rank_bid_with_digest(&mut ctx, NAME, SWAP_SHA256, 5, &[0; 32], 0),
        Err(naim(NaimError::InvalidName))
    );
    assert_eq!(
        place_rank_bid(&mut ctx, [1; 32], "swap".to_string(), SWAP_SHA256, 5, 0),
        Err(Error::ConstraintSeeds)
    );
    ctx.naim_mint.key = key(77);
    assert_eq!(bid(&mut ctx, 5, 0), Err(Error::ConstraintAddress));
    ctx.owner = key(12);
    assert_eq!(bid(&mut ctx, 5, 0), Err(naim(NaimError::Unauthorized)));
    ctx.rank_bid_capability_seed = NAME;
    assert_eq!(bid(&mut ctx, 5, 0), Err(Error::ConstraintSeeds));
    ctx.name_record = None;
    assert_eq!(bid(&mut ctx, 5, 0), Err(Error::AccountNotInitialized));
    assert_eq!(ctx.token_config, token_config());
}
