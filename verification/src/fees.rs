//! How a fee in $NAIM is discounted and split.
use vstd::prelude::*;

use crate::action::{
    lemma_total_concat, lemma_total_unless_zero, token_burned, token_given, token_taken, total,
    unless_zero, Action, Mint,
};
use crate::arith::{add_capped, bps_share, lemma_bps_share_exact, lemma_bps_shares_sum, share_of};
use crate::constants::{
    STAKE_DISCOUNT_BPS1, STAKE_DISCOUNT_BPS2, STAKE_DISCOUNT_TIER1, STAKE_DISCOUNT_TIER2,
};
use crate::error::{Error, NaimError};
use crate::pubkey::Pubkey;
use crate::state::TokenConfig;

verus! {

/// The discount, in basis points, that a staked balance earns.
pub open spec fn discount_bps(staked: u64) -> u16 {
    if staked >= STAKE_DISCOUNT_TIER2 {
        STAKE_DISCOUNT_BPS2
    } else if staked >= STAKE_DISCOUNT_TIER1 {
        STAKE_DISCOUNT_BPS1
    } else {
        0
    }
}

/// A fee less the discount that a staked balance earns.
pub open spec fn discounted(base: u64, staked: u64) -> u64 {
    (base - base * discount_bps(staked) / 10_000) as u64
}

/// Reduces a fee by the discount that the caller's staked balance earns.
pub fn apply_discount(base: u64, staked: u64) -> (fee: u64)
    ensures
        fee == discounted(base, staked),
{
    let bps: u16 = if staked >= STAKE_DISCOUNT_TIER2 {
        STAKE_DISCOUNT_BPS2
    } else if staked >= STAKE_DISCOUNT_TIER1 {
        STAKE_DISCOUNT_BPS1
    } else {
        0
    };
    proof {
        lemma_bps_share_exact(base, bps);
    }
    base - share_of(base, bps)
}

/// The treasury's part of a fee.
pub open spec fn treasury_part(tc: TokenConfig, fee: u64) -> u64 {
    bps_share(fee, tc.treasury_bps)
}

/// The stakers' part of a fee.
pub open spec fn stakers_part(tc: TokenConfig, fee: u64) -> u64 {
    bps_share(fee, tc.stakers_bps)
}

/// Whether the treasury's and the stakers' parts leave nothing owing.
pub open spec fn splits(tc: TokenConfig, fee: u64) -> bool {
    treasury_part(tc, fee) + stakers_part(tc, fee) <= fee
}

/// What is left of a fee to burn.
pub open spec fn burn_part(tc: TokenConfig, fee: u64) -> u64 {
    (fee - treasury_part(tc, fee) - stakers_part(tc, fee)) as u64
}

/// The three legs of a fee that `payer` pays: to the treasury, to the stakers
/// vault, and burned. A leg of zero is left out.
pub open spec fn fee_actions(
    tc: TokenConfig,
    mint: Mint,
    payer: Pubkey,
    stakers_vault: Pubkey,
    fee: u64,
) -> Seq<Action> {
    unless_zero(
        treasury_part(tc, fee),
        Action::TransferToken {
            mint: mint.key,
            from: payer,
            to: tc.treasury,
            amount: treasury_part(tc, fee),
            decimals: mint.decimals,
            signer: None,
        },
    ) + unless_zero(
        stakers_part(tc, fee),
        Action::TransferToken {
            mint: mint.key,
            from: payer,
            to: stakers_vault,
            amount: stakers_part(tc, fee),
            decimals: mint.decimals,
            signer: None,
        },
    ) + unless_zero(
        burn_part(tc, fee),
        Action::BurnToken { mint: mint.key, from: payer, amount: burn_part(tc, fee) },
    )
}

/// The tokenomics config once a fee has been collected: the burned part is
/// added to the running total.
pub open spec fn fee_collected(tc: TokenConfig, fee: u64) -> TokenConfig {
    TokenConfig { total_burned: add_capped(tc.total_burned, burn_part(tc, fee)), ..tc }
}

/// Whether a fee can be split as the config says.
pub fn fee_splits(token_config: &TokenConfig, fee: u64) -> (ok: bool)
    ensures
        ok == splits(*token_config, fee),
{
    let treasury_amt: u64 = share_of(fee, token_config.treasury_bps);
    let stakers_amt: u64 = share_of(fee, token_config.stakers_bps);
    treasury_amt <= fee && stakers_amt <= fee - treasury_amt
}

/// How `collect_fee` takes `before` to `after`, and what it returns.
pub open spec fn collect_fee_outcome(
    before: TokenConfig,
    mint: Mint,
    payer: Pubkey,
    stakers_vault: Pubkey,
    fee: u64,
    after: TokenConfig,
    res: Result<Vec<Action>, Error>,
) -> bool {
    match res {
        Ok(actions) => {
            &&& splits(before, fee)
            &&& actions@ == fee_actions(before, mint, payer, stakers_vault, fee)
            &&& after == fee_collected(before, fee)
        },
        Err(e) => {
            &&& !splits(before, fee)
            &&& e == Error::Naim(NaimError::InvalidConfig)
            &&& after == before
        },
    }
}

/// Collects a fee in $NAIM and splits it: the treasury's and the stakers' shares
/// are rounded down, and the remainder is burned.
pub fn collect_fee(
    token_config: &mut TokenConfig,
    mint: &Mint,
    payer: &Pubkey,
    stakers_vault: &Pubkey,
    fee: u64,
) -> (res: Result<Vec<Action>, Error>)
    ensures
        collect_fee_outcome(
            *old(token_config),
            *mint,
            *payer,
            *stakers_vault,
            fee,
            *final(token_config),
            res,
        ),
{
    let mut actions: Vec<Action> = Vec::new();
    let treasury_amt: u64 = share_of(fee, token_config.treasury_bps);
    let stakers_amt: u64 = share_of(fee, token_config.stakers_bps);
    if !fee_splits(token_config, fee) {
        return Err(Error::Naim(NaimError::InvalidConfig));
    }
    let burn_amt: u64 = fee - treasury_amt - stakers_amt;
    if treasury_amt > 0 {
        actions.push(
            Action::TransferToken {
                mint: mint.key,
                from: *payer,
                to: token_config.treasury,
                amount: treasury_amt,
                decimals: mint.decimals,
                signer: None,
            },
        );
    }
    if stakers_amt > 0 {
        actions.push(
            Action::TransferToken {
                mint: mint.key,
                from: *payer,
                to: *stakers_vault,
                amount: stakers_amt,
                decimals: mint.decimals,
                signer: None,
            },
        );
    }
    if burn_amt > 0 {
        actions.push(Action::BurnToken { mint: mint.key, from: *payer, amount: burn_amt });
        token_config.total_burned = token_config.total_burned.saturating_add(burn_amt);
    }
    assert(actions@ =~= fee_actions(*old(token_config), *mint, *payer, *stakers_vault, fee));
    Ok(actions)
}

/// A fee is charged in full and nothing more: the payer is debited exactly the
/// fee, and what the treasury, the stakers vault and the burn receive adds up to
/// it, so no rounding dust escapes. A fee of zero moves nothing.
pub proof fn law_fee_is_conserved(
    tc: TokenConfig,
    mint: Mint,
    payer: Pubkey,
    stakers_vault: Pubkey,
    fee: u64,
)
    requires
        splits(tc, fee),
    ensures
        treasury_part(tc, fee) + stakers_part(tc, fee) + burn_part(tc, fee) == fee,
        total(
            fee_actions(tc, mint, payer, stakers_vault, fee),
            |a: Action| token_taken(a, mint.key, payer),
        ) == fee,
        total(
            fee_actions(tc, mint, payer, stakers_vault, fee),
            |a: Action| token_burned(a, mint.key),
        ) == burn_part(tc, fee),
        fee == 0 ==> fee_actions(tc, mint, payer, stakers_vault, fee).len() == 0,
        tc.treasury != stakers_vault ==> total(
            fee_actions(tc, mint, payer, stakers_vault, fee),
            |a: Action| token_given(a, mint.key, tc.treasury),
        ) == treasury_part(tc, fee) && total(
            fee_actions(tc, mint, payer, stakers_vault, fee),
            |a: Action| token_given(a, mint.key, stakers_vault),
        ) == stakers_part(tc, fee),
{
    lemma_fee_totals(
        tc,
        mint,
        payer,
        stakers_vault,
        fee,
        |a: Action| token_taken(a, mint.key, payer),
    );
    lemma_fee_totals(
        tc,
        mint,
        payer,
        stakers_vault,
        fee,
        |a: Action| token_burned(a, mint.key),
    );
    lemma_fee_totals(
        tc,
        mint,
        payer,
        stakers_vault,
        fee,
        |a: Action| token_given(a, mint.key, tc.treasury),
    );
    lemma_fee_totals(
        tc,
        mint,
        payer,
        stakers_vault,
        fee,
        |a: Action| token_given(a, mint.key, stakers_vault),
    );
}

/// A total over the legs of a fee, leg by leg.
proof fn lemma_fee_totals(
    tc: TokenConfig,
    mint: Mint,
    payer: Pubkey,
    stakers_vault: Pubkey,
    fee: u64,
    measure: spec_fn(Action) -> nat,
)
    ensures
        ({
            let t = Action::TransferToken {
                mint: mint.key,
                from: payer,
                to: tc.treasury,
                amount: treasury_part(tc, fee),
                decimals: mint.decimals,
                signer: None,
            };
            let s = Action::TransferToken {
                mint: mint.key,
                from: payer,
                to: stakers_vault,
                amount: stakers_part(tc, fee),
                decimals: mint.decimals,
                signer: None,
            };
            let b = Action::BurnToken { mint: mint.key, from: payer, amount: burn_part(tc, fee) };
            total(fee_actions(tc, mint, payer, stakers_vault, fee), measure) == (if treasury_part(
                tc,
                fee,
            ) > 0 {
                measure(t)
            } else {
                0
            }) + (if stakers_part(tc, fee) > 0 {
                measure(s)
            } else {
                0
            }) + (if burn_part(tc, fee) > 0 {
                measure(b)
            } else {
                0
            })
        }),
{
    let t = Action::TransferToken {
        mint: mint.key,
        from: payer,
        to: tc.treasury,
        amount: treasury_part(tc, fee),
        decimals: mint.decimals,
        signer: None,
    };
    let s = Action::TransferToken {
        mint: mint.key,
        from: payer,
        to: stakers_vault,
        amount: stakers_part(tc, fee),
        decimals: mint.decimals,
        signer: None,
    };
    let b = Action::BurnToken { mint: mint.key, from: payer, amount: burn_part(tc, fee) };
    let legs_t = unless_zero(treasury_part(tc, fee), t);
    let legs_s = unless_zero(stakers_part(tc, fee), s);
    let legs_b = unless_zero(burn_part(tc, fee), b);
    lemma_total_concat(legs_t, legs_s, measure);
    lemma_total_concat(legs_t + legs_s, legs_b, measure);
    lemma_total_unless_zero(treasury_part(tc, fee), t, measure);
    lemma_total_unless_zero(stakers_part(tc, fee), s, measure);
    lemma_total_unless_zero(burn_part(tc, fee), b, measure);
}

/// Under a valid split every fee can be collected, and collecting one keeps the
/// split valid.
pub proof fn law_valid_split_always_collects(tc: TokenConfig, fee: u64)
    requires
        tc.is_valid(),
    ensures
        splits(tc, fee),
        treasury_part(tc, fee) == fee * tc.treasury_bps / 10_000,
        stakers_part(tc, fee) == fee * tc.stakers_bps / 10_000,
        burn_part(tc, fee) >= fee * tc.burn_bps / 10_000,
        fee_collected(tc, fee).is_valid(),
{
    lemma_bps_shares_sum(fee, tc.treasury_bps, tc.stakers_bps);
    lemma_bps_share_exact(fee, tc.treasury_bps);
    lemma_bps_share_exact(fee, tc.stakers_bps);
    assert(fee * tc.treasury_bps + fee * tc.stakers_bps + fee * tc.burn_bps == fee * 10_000)
        by (nonlinear_arith)
        requires
            tc.treasury_bps + tc.stakers_bps + tc.burn_bps == 10_000,
    ;
}

/// The burned total never falls.
pub proof fn law_total_burned_never_falls(tc: TokenConfig, fee: u64)
    requires
        splits(tc, fee),
    ensures
        fee_collected(tc, fee).total_burned >= tc.total_burned,
        tc.total_burned + burn_part(tc, fee) <= u64::MAX ==> fee_collected(tc, fee).total_burned
            == tc.total_burned + burn_part(tc, fee),
{
}

/// A larger stake never pays a larger fee, and no stake takes more than a quarter
/// off.
pub proof fn law_discount_grows_with_stake(base: u64, less: u64, more: u64)
    requires
        less <= more,
    ensures
        discounted(base, more) <= discounted(base, less) <= base,
        4 * discounted(base, more) >= 3 * base,
        less < STAKE_DISCOUNT_TIER1 ==> discounted(base, less) == base,
{
    assert(base * discount_bps(less) <= base * discount_bps(more)) by (nonlinear_arith)
        requires
            0 <= base,
            discount_bps(less) <= discount_bps(more),
    ;
    assert(0 <= base * discount_bps(less)) by (nonlinear_arith)
        requires
            0 <= base,
            0 <= discount_bps(less),
    ;
    assert(base * discount_bps(more) <= base * 2_500) by (nonlinear_arith)
        requires
            0 <= base,
            discount_bps(more) <= 2_500,
    ;
}

} // verus!
