//! What a fee amounts to, and who gets it.
use vstd::prelude::*;
use vstd::utf8::encode_utf8;

use crate::action::{token_burned, token_taken, total, Action, Mint, Vault};
use crate::arith::{bps_share, lemma_bps_share_exact};
use crate::constants::{
    CATEGORY_SEED, CONFIG_SEED, LISTING_SEED, MARKET_CONFIG_SEED, RANK_BID_SEED, REP_SEED,
    SEED_PREFIX, STAKERS_VAULT_SEED, STAKE_POOL_SEED, STAKE_SEED, STAKE_VAULT_SEED, TLD_AGENT,
    TOKEN_CONFIG_SEED,
};
use crate::error::{Error, NaimError};
use crate::fees::{
    collect_fee_outcome, discount_bps, discounted, fee_actions, fee_collected, splits,
};
use crate::ledger::{
    charges, cut, divides, lemma_charges_take_the_fee, rebate, tariff,
};
use crate::names::tier_fee;
use crate::pubkey::Pubkey;
use crate::registry::hash_matches;
use crate::state::{uri_fits, TokenConfig};

verus! {

/// A share of at most the whole is the amount times the rate, rounded down to a
/// base unit; beyond the whole it keeps its low 64 bits.
pub proof fn law_share_is_rounded_down(amount: u64, bps: u16)
    ensures
        bps_share(amount, bps) == cut(amount as int, bps as int),
        bps <= 10_000 ==> 10_000 * bps_share(amount, bps) <= amount * bps < 10_000 * bps_share(
            amount,
            bps,
        ) + 10_000,
{
    if bps <= 10_000 {
        lemma_bps_share_exact(amount, bps);
    }
}

/// A stake of less than 1,000 $NAIM earns no discount, one of up to 5,000 a tenth,
/// a larger one a quarter of the fee, rounded down to a base unit.
pub proof fn law_discount_is_exact(base: u64, staked: u64)
    ensures
        discounted(base, staked) == base - rebate(base as int, staked as int),
        staked < 1_000_000_000 ==> discounted(base, staked) == base,
        1_000_000_000 <= staked < 5_000_000_000 ==> base <= 10 * (base - discounted(base, staked))
            + 9 && 10 * (base - discounted(base, staked)) <= base,
        5_000_000_000 <= staked ==> base <= 4 * (base - discounted(base, staked)) + 3 && 4 * (base
            - discounted(base, staked)) <= base,
{
    let bps = discount_bps(staked);
    if staked < 1_000_000_000 {
        assert(base * bps == 0) by (nonlinear_arith)
            requires
                bps == 0,
        ;
    } else if staked < 5_000_000_000 {
        assert(base * bps == base * 1_000) by (nonlinear_arith)
            requires
                bps == 1_000,
        ;
    } else {
        assert(base * bps == base * 2_500) by (nonlinear_arith)
            requires
                bps == 2_500,
        ;
    }
}

/// The tiers of the fee are 1 to 4, 5 to 9, and 10 characters or more.
pub proof fn law_fee_follows_length(tc: TokenConfig, char_len: nat)
    ensures
        tier_fee(tc, char_len) == tariff(tc, char_len),
        char_len <= 4 ==> tier_fee(tc, char_len) == tc.fee_1_4,
        5 <= char_len <= 9 ==> tier_fee(tc, char_len) == tc.fee_5_9,
        char_len >= 10 ==> tier_fee(tc, char_len) == tc.fee_10_plus,
{
}

/// A fee is collected exactly where the two shares fit into it; then the payer is
/// charged the fee, to the base unit, and what is burned is counted.
pub proof fn law_collecting_charges_the_fee(
    before: TokenConfig,
    mint: Mint,
    payer: Pubkey,
    stakers_vault: Pubkey,
    fee: u64,
    after: TokenConfig,
    res: Result<Vec<Action>, Error>,
)
    requires
        collect_fee_outcome(before, mint, payer, stakers_vault, fee, after, res),
    ensures
        res is Ok <==> divides(before, fee as int),
        match res {
            Ok(actions) => {
                &&& charges(
                    actions@,
                    before,
                    after,
                    mint,
                    payer,
                    stakers_vault,
                    fee as int,
                )
                &&& total(actions@, |a: Action| token_taken(a, mint.key, payer)) == fee
                &&& before.total_burned + total(actions@, |a: Action| token_burned(a, mint.key))
                    <= u64::MAX ==> after.total_burned == before.total_burned + total(
                    actions@,
                    |a: Action| token_burned(a, mint.key),
                )
            },
            Err(e) => e == Error::Naim(NaimError::InvalidConfig) && after == before,
        },
{
    lemma_fee_is_charged(before, mint, payer, stakers_vault, fee);
    if res is Ok {
        lemma_charges_take_the_fee(
            res->Ok_0@,
            before,
            after,
            mint,
            payer,
            stakers_vault,
            fee as int,
            mint.key,
            payer,
        );
    }
}

/// What the parts of a fee come to in plain arithmetic.
pub proof fn lemma_fee_is_charged(
    tc: TokenConfig,
    mint: Mint,
    payer: Pubkey,
    stakers_vault: Pubkey,
    fee: u64,
)
    ensures
        splits(tc, fee) <==> divides(tc, fee as int),
        splits(tc, fee) ==> charges(
            fee_actions(tc, mint, payer, stakers_vault, fee),
            tc,
            fee_collected(tc, fee),
            mint,
            payer,
            stakers_vault,
            fee as int,
        ),
{
    law_share_is_rounded_down(fee, tc.treasury_bps);
    law_share_is_rounded_down(fee, tc.stakers_bps);
}

/// Whether bytes spell an ASCII text.
pub open spec fn spells(bytes: Seq<u8>, text: Seq<char>) -> bool {
    &&& bytes.len() == text.len()
    &&& forall|i: int| 0 <= i < bytes.len() ==> #[trigger] bytes[i] as char == text[i]
}

/// Every seed spells its name, and each vault goes by its own.
pub proof fn law_seeds_spell_their_names()
    ensures
        spells(SEED_PREFIX@, "naim"@),
        spells(TLD_AGENT@, ".agent"@),
        spells(CONFIG_SEED@, "config"@),
        spells(TOKEN_CONFIG_SEED@, "token_config"@),
        spells(STAKERS_VAULT_SEED@, "stakers_vault"@),
        spells(STAKE_POOL_SEED@, "stake_pool"@),
        spells(STAKE_SEED@, "stake"@),
        spells(STAKE_VAULT_SEED@, "stake_vault"@),
        spells(REP_SEED@, "rep"@),
        spells(CATEGORY_SEED@, "category"@),
        spells(RANK_BID_SEED@, "rankbid"@),
        spells(LISTING_SEED@, "listing"@),
        spells(MARKET_CONFIG_SEED@, "market_config"@),
        spells(Vault::Stakers.seed_bytes(), "stakers_vault"@),
        spells(Vault::Stake.seed_bytes(), "stake_vault"@),
{
    reveal_strlit("naim");
    reveal_strlit(".agent");
    reveal_strlit("config");
    reveal_strlit("token_config");
    reveal_strlit("stakers_vault");
    reveal_strlit("stake_pool");
    reveal_strlit("stake");
    reveal_strlit("stake_vault");
    reveal_strlit("rep");
    reveal_strlit("category");
    reveal_strlit("rankbid");
    reveal_strlit("listing");
    reveal_strlit("market_config");
}

/// A hash is accepted exactly where it is the digest, a URI exactly where its UTF-8
/// takes at most 200 bytes, and a key is zero exactly where all its bytes are.
pub proof fn law_checks_on_bytes(hash: [u8; 32], digest: Seq<u8>, uri: Seq<char>, key: Pubkey)
    ensures
        hash_matches(hash, digest) <==> hash@ == digest,
        uri_fits(uri) <==> encode_utf8(uri).len() <= 200,
        key.is_zero() <==> key.bytes@ =~= Seq::new(32, |i: int| 0u8),
{
    if key.bytes@ =~= Seq::new(32, |i: int| 0u8) {
        assert forall|i: int| 0 <= i < 32 implies #[trigger] key.bytes[i] == 0 by {
            assert(key.bytes@[i] == 0);
        }
    }
}

} // verus!
