//! Sponsored ranking: burning $NAIM to boost a name for a capability.
use vstd::prelude::*;
use vstd::utf8::encode_utf8;

use crate::action::{Action, Mint};
use crate::arith::add_capped;
use crate::constants::RANK_EPOCH_SECS;
use crate::digest::{sha256, sha256_of};
use crate::error::{Error, NaimError};
use crate::pubkey::{same_bytes, Pubkey};
use crate::registry::{check_hash, hash_matches};
use crate::state::{NameRecord, RankBid, TokenConfig};

verus! {

/// The number of the epoch that a time falls in, rounded towards zero.
pub open spec fn epoch_of(now: i64) -> i64 {
    if now >= 0 {
        (now as int / 60) as i64
    } else {
        (-((-now) as int / 60)) as i64
    }
}

/// Accounts of `place_rank_bid`.
#[derive(Debug, PartialEq, Eq)]
pub struct PlaceRankBid {
    pub token_config: TokenConfig,
    pub name_record: Option<NameRecord>,
    /// The hash that the name record's address is derived from.
    pub name_record_seed: [u8; 32],
    pub rank_bid: RankBid,
    /// The name's hash that the bid's address is derived from.
    pub rank_bid_name_seed: [u8; 32],
    /// The capability's hash that the bid's address is derived from.
    pub rank_bid_capability_seed: [u8; 32],
    /// The signer.
    pub owner: Pubkey,
    pub naim_mint: Mint,
    pub rank_bid_bump: u8,
}

/// Why `place_rank_bid` is refused.
pub open spec fn place_rank_bid_refusal(
    ctx: PlaceRankBid,
    name_hash: [u8; 32],
    capability_hash: [u8; 32],
    amount: u64,
    digest: Seq<u8>,
) -> Option<Error> {
    if ctx.name_record is None {
        Some(Error::AccountNotInitialized)
    } else if ctx.rank_bid_name_seed != name_hash || ctx.rank_bid_capability_seed != capability_hash
        || ctx.name_record_seed != name_hash {
        Some(Error::ConstraintSeeds)
    } else if ctx.name_record->0.owner != ctx.owner {
        Some(Error::Naim(NaimError::Unauthorized))
    } else if ctx.naim_mint.key != ctx.token_config.naim_mint {
        Some(Error::ConstraintAddress)
    } else if amount == 0 {
        Some(Error::Naim(NaimError::InvalidConfig))
    } else if !hash_matches(capability_hash, digest) {
        Some(Error::Naim(NaimError::InvalidName))
    } else {
        None
    }
}

/// The bid after `amount` more was burned: a new record takes the bidder and what
/// it bids for; bids add up within an epoch, and a new epoch starts afresh.
pub open spec fn bid_after(
    ctx: PlaceRankBid,
    name_hash: [u8; 32],
    capability_hash: [u8; 32],
    amount: u64,
    now: i64,
) -> RankBid {
    let bid = ctx.rank_bid;
    let is_new = bid.owner.is_zero();
    RankBid {
        owner: if is_new {
            ctx.owner
        } else {
            bid.owner
        },
        name_hash: if is_new {
            name_hash
        } else {
            bid.name_hash
        },
        capability_hash: if is_new {
            capability_hash
        } else {
            bid.capability_hash
        },
        amount: if bid.epoch == epoch_of(now) {
            add_capped(bid.amount, amount)
        } else {
            amount
        },
        epoch: epoch_of(now),
        bump: if is_new {
            ctx.rank_bid_bump
        } else {
            bid.bump
        },
    }
}

/// How `place_rank_bid` takes `before` to `after`, and what it returns: the whole
/// bid is burned.
pub open spec fn place_rank_bid_outcome(
    before: PlaceRankBid,
    name_hash: [u8; 32],
    capability_hash: [u8; 32],
    amount: u64,
    digest: Seq<u8>,
    now: i64,
    after: PlaceRankBid,
    res: Result<Vec<Action>, Error>,
) -> bool {
    match res {
        Ok(actions) => {
            &&& place_rank_bid_refusal(before, name_hash, capability_hash, amount, digest) is None
            &&& actions@ == seq![
                Action::BurnToken { mint: before.naim_mint.key, from: before.owner, amount },
            ]
            &&& after == PlaceRankBid {
                token_config: TokenConfig {
                    total_burned: add_capped(before.token_config.total_burned, amount),
                    ..before.token_config
                },
                rank_bid: bid_after(before, name_hash, capability_hash, amount, now),
                ..before
            }
        },
        Err(e) => {
            &&& place_rank_bid_refusal(before, name_hash, capability_hash, amount, digest) == Some(e)
            &&& after == before
        },
    }
}

/// Bids $NAIM to boost a name that the caller owns for a capability, given the
/// digest of the capability's text. The bid is burned whole.
pub fn place_rank_bid_with_digest(
    ctx: &mut PlaceRankBid,
    name_hash: [u8; 32],
    capability_hash: [u8; 32],
    amount: u64,
    digest: &[u8; 32],
    now: i64,
) -> (res: Result<Vec<Action>, Error>)
    ensures
        place_rank_bid_outcome(
            *old(ctx),
            name_hash,
            capability_hash,
            amount,
            digest@,
            now,
            *final(ctx),
            res,
        ),
{
    let owner: Pubkey = match &ctx.name_record {
        Some(record) => record.owner,
        None => return Err(Error::AccountNotInitialized),
    };
    if !same_bytes(&ctx.rank_bid_name_seed, &name_hash) || !same_bytes(
        &ctx.rank_bid_capability_seed,
        &capability_hash,
    ) || !same_bytes(&ctx.name_record_seed, &name_hash) {
        return Err(Error::ConstraintSeeds);
    }
    if owner != ctx.owner {
        return Err(Error::Naim(NaimError::Unauthorized));
    }
    if ctx.naim_mint.key != ctx.token_config.naim_mint {
        return Err(Error::ConstraintAddress);
    }
    if amount == 0 {
        return Err(Error::Naim(NaimError::InvalidConfig));
    }
    if !check_hash(&capability_hash, digest) {
        return Err(Error::Naim(NaimError::InvalidName));
    }
    let mut actions: Vec<Action> = Vec::new();
    actions.push(Action::BurnToken { mint: ctx.naim_mint.key, from: ctx.owner, amount });
    ctx.token_config.total_burned = ctx.token_config.total_burned.saturating_add(amount);
    let epoch: i64 = now / RANK_EPOCH_SECS;
    if ctx.rank_bid.owner.is_default() {
        ctx.rank_bid.owner = ctx.owner;
        ctx.rank_bid.name_hash = name_hash;
        ctx.rank_bid.capability_hash = capability_hash;
        ctx.rank_bid.bump = ctx.rank_bid_bump;
    }
    if ctx.rank_bid.epoch == epoch {
        ctx.rank_bid.amount = ctx.rank_bid.amount.saturating_add(amount);
    } else {
        ctx.rank_bid.epoch = epoch;
        ctx.rank_bid.amount = amount;
    }
    assert(actions@ =~= seq![
        Action::BurnToken { mint: old(ctx).naim_mint.key, from: old(ctx).owner, amount },
    ]);
    Ok(actions)
}

/// How `place_rank_bid` takes `before` to `after`, and what it returns, on the digest that
/// it computes.
pub open spec fn place_rank_bid_hashed_outcome(
    before: PlaceRankBid,
    name_hash: [u8; 32],
    capability: Seq<char>,
    capability_hash: [u8; 32],
    amount: u64,
    now: i64,
    after: PlaceRankBid,
    res: Result<Vec<Action>, Error>,
) -> bool {
    place_rank_bid_outcome(
        before,
        name_hash,
        capability_hash,
        amount,
        sha256(encode_utf8(capability)),
        now,
        after,
        res,
    )
}

/// Bids $NAIM to boost a name: `place_rank_bid_with_digest` on the SHA-256 digest
/// of the capability.
pub fn place_rank_bid(
    ctx: &mut PlaceRankBid,
    name_hash: [u8; 32],
    capability: String,
    capability_hash: [u8; 32],
    amount: u64,
    now: i64,
) -> (res: Result<Vec<Action>, Error>)
    ensures
        place_rank_bid_hashed_outcome(
            *old(ctx),
            name_hash,
            capability@,
            capability_hash,
            amount,
            now,
            *final(ctx),
            res,
        ),
{
    let digest: [u8; 32] = sha256_of(capability.as_str().as_bytes());
    place_rank_bid_with_digest(ctx, name_hash, capability_hash, amount, &digest, now)
}

/// Bids placed in one epoch add up, and the first bid of a later epoch starts
/// afresh.
pub proof fn law_bids_add_up_within_an_epoch(
    first: PlaceRankBid,
    second: PlaceRankBid,
    name_hash: [u8; 32],
    capability_hash: [u8; 32],
    a: u64,
    b: u64,
    now: i64,
    later: i64,
)
    requires
        second.rank_bid == bid_after(first, name_hash, capability_hash, a, now),
        first.rank_bid.epoch != epoch_of(now),
    ensures
        epoch_of(later) == epoch_of(now) ==> bid_after(
            second,
            name_hash,
            capability_hash,
            b,
            later,
        ).amount == add_capped(a, b),
        epoch_of(later) != epoch_of(now) ==> bid_after(
            second,
            name_hash,
            capability_hash,
            b,
            later,
        ).amount == b,
{
}

/// A bid record keeps the name and the capability that it was first placed for,
/// and its first bidder.
pub proof fn law_bid_keeps_its_subject(
    ctx: PlaceRankBid,
    name_hash: [u8; 32],
    capability_hash: [u8; 32],
    amount: u64,
    now: i64,
)
    requires
        !ctx.rank_bid.owner.is_zero(),
    ensures
        ({
            let bid = bid_after(ctx, name_hash, capability_hash, amount, now);
            &&& bid.owner == ctx.rank_bid.owner
            &&& bid.name_hash == ctx.rank_bid.name_hash
            &&& bid.capability_hash == ctx.rank_bid.capability_hash
        }),
{
}

} // verus!
