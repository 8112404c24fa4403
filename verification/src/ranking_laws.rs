//! What a bid costs, and what it leaves on record.
use vstd::prelude::*;
use vstd::utf8::encode_utf8;

use crate::action::{token_burned, token_given, token_taken, total, Action};
use crate::digest::sha256;
use crate::error::{Error, NaimError};
use crate::pubkey::Pubkey;
use crate::ranking::{
    epoch_of, place_rank_bid_hashed_outcome, place_rank_bid_outcome, PlaceRankBid,
};
use crate::state::TokenConfig;

verus! {

/// Epochs last sixty seconds and are counted from time zero, rounding towards it.
pub proof fn law_epochs_last_a_minute(now: i64)
    ensures
        now >= 0 ==> 60 * epoch_of(now) <= now < 60 * epoch_of(now) + 60,
        now < 0 ==> 60 * epoch_of(now) - 60 < now <= 60 * epoch_of(now),
{
}

/// Every accepted bid burns its whole amount from the owner's own tokens, whatever
/// was bid before; nothing else moves, nobody receives anything, and the protocol's
/// count of burned tokens grows by what was burned.
pub proof fn law_bid_is_burned_whole(
    before: PlaceRankBid,
    name_hash: [u8; 32],
    capability_hash: [u8; 32],
    amount: u64,
    digest: Seq<u8>,
    now: i64,
    after: PlaceRankBid,
    res: Result<Vec<Action>, Error>,
    mint: Pubkey,
    wallet: Pubkey,
)
    requires
        place_rank_bid_outcome(
            before,
            name_hash,
            capability_hash,
            amount,
            digest,
            now,
            after,
            res,
        ),
    ensures
        res matches Ok(actions) ==> {
            let burned = total(actions@, |a: Action| token_burned(a, before.naim_mint.key));
            &&& burned == amount
            &&& total(actions@, |a: Action| token_taken(a, mint, wallet)) == if mint
                == before.naim_mint.key && wallet == before.owner {
                amount as int
            } else {
                0
            }
            &&& total(actions@, |a: Action| token_given(a, mint, wallet)) == 0
            &&& actions@.len() == 1
            &&& before.token_config.total_burned + burned <= u64::MAX
                ==> after.token_config.total_burned == before.token_config.total_burned + burned
            &&& before.token_config.total_burned + burned > u64::MAX
                ==> after.token_config.total_burned == u64::MAX
        },
{
    if res is Ok {
        reveal_with_fuel(total, 2);
        let actions = res->Ok_0@;
        assert(actions.drop_last() =~= Seq::<Action>::empty());
    }
}

/// A bid is accepted exactly where the owner of an existing name bids something, in
/// the right mint, for a rightly hashed capability. Bids of one epoch add up, the
/// first of another starts afresh; the first of all writes down the bidder and what
/// the bid is for, and later ones leave that.
pub proof fn law_bid_in_full(
    before: PlaceRankBid,
    name_hash: [u8; 32],
    capability_hash: [u8; 32],
    amount: u64,
    digest: Seq<u8>,
    now: i64,
    after: PlaceRankBid,
    res: Result<Vec<Action>, Error>,
)
    requires
        place_rank_bid_outcome(
            before,
            name_hash,
            capability_hash,
            amount,
            digest,
            now,
            after,
            res,
        ),
    ensures
        ({
            let due = if before.name_record is None {
                Some(Error::AccountNotInitialized)
            } else if !(before.name_record_seed == name_hash && before.rank_bid_name_seed
                == name_hash && before.rank_bid_capability_seed == capability_hash) {
                Some(Error::ConstraintSeeds)
            } else if !(before.name_record->0.owner == before.owner) {
                Some(Error::Naim(NaimError::Unauthorized))
            } else if !(before.token_config.naim_mint == before.naim_mint.key) {
                Some(Error::ConstraintAddress)
            } else if !(amount > 0) {
                Some(Error::Naim(NaimError::InvalidConfig))
            } else if !(digest == capability_hash@) {
                Some(Error::Naim(NaimError::InvalidName))
            } else {
                None
            };
            match res {
                Ok(actions) => {
                    let bid = before.rank_bid;
                    let new = after.rank_bid;
                    &&& due is None
                    &&& actions@[0] == (Action::BurnToken {
                        mint: before.naim_mint.key,
                        from: before.owner,
                        amount,
                    })
                    &&& now >= 0 ==> 60 * new.epoch <= now < 60 * new.epoch + 60
                    &&& now < 0 ==> 60 * new.epoch - 60 < now <= 60 * new.epoch
                    &&& bid.epoch != new.epoch ==> new.amount == amount
                    &&& bid.epoch == new.epoch && bid.amount + amount <= u64::MAX ==> new.amount
                        == bid.amount + amount
                    &&& bid.epoch == new.epoch && bid.amount + amount > u64::MAX ==> new.amount
                        == u64::MAX
                    &&& bid.owner.is_zero() ==> new.owner == before.owner && new.name_hash
                        == name_hash && new.capability_hash == capability_hash && new.bump
                        == before.rank_bid_bump
                    &&& !bid.owner.is_zero() ==> new.owner == bid.owner && new.name_hash
                        == bid.name_hash && new.capability_hash == bid.capability_hash && new.bump
                        == bid.bump
                    &&& after == PlaceRankBid {
                        token_config: TokenConfig {
                            total_burned: after.token_config.total_burned,
                            ..before.token_config
                        },
                        rank_bid: new,
                        ..before
                    }
                },
                Err(e) => due == Some(e) && after == before,
            }
        }),
{
    law_epochs_last_a_minute(now);
}

/// A bid goes by the hash of its capability: what is handed in must be the SHA-256
/// digest of the capability's UTF-8, and where it is, the rest decides.
pub proof fn law_capabilities_go_by_their_digest(
    before: PlaceRankBid,
    name_hash: [u8; 32],
    capability: Seq<char>,
    capability_hash: [u8; 32],
    amount: u64,
    now: i64,
    after: PlaceRankBid,
    res: Result<Vec<Action>, Error>,
)
    requires
        place_rank_bid_hashed_outcome(
            before,
            name_hash,
            capability,
            capability_hash,
            amount,
            now,
            after,
            res,
        ),
    ensures
        res is Ok ==> capability_hash@ == sha256(encode_utf8(capability)),
        place_rank_bid_outcome(
            before,
            name_hash,
            capability_hash,
            amount,
            sha256(encode_utf8(capability)),
            now,
            after,
            res,
        ),
{
}

} // verus!
