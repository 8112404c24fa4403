//! The vocabulary that laws are stated in: tariffs, shares and payments in plain
//! arithmetic. No instruction is defined by it.
use vstd::prelude::*;

use crate::action::{
    lemma_total_concat, token_burned, token_given, token_taken, total, Action, Mint, Vault,
    VaultSigner,
};
use crate::pubkey::Pubkey;
use crate::state::{NameRecord, StakeAccount, StakePool, TokenConfig};

verus! {

/// What a name of this length costs before any discount.
pub open spec fn tariff(tc: TokenConfig, char_len: nat) -> int {
    if char_len >= 10 {
        tc.fee_10_plus as int
    } else if char_len >= 5 {
        tc.fee_5_9 as int
    } else {
        tc.fee_1_4 as int
    }
}

/// What a payer with this stake of their own is let off a fee: a tenth from 1,000
/// $NAIM on, a quarter from 5,000 on, rounded down.
pub open spec fn rebate(fee: int, staked: int) -> int {
    if staked < 1_000_000_000 {
        0
    } else if staked < 5_000_000_000 {
        fee / 10
    } else {
        fee / 4
    }
}

/// A share in basis points, rounded down, as 64 bits hold it.
pub open spec fn cut(amount: int, bps: int) -> int {
    amount * bps / 10_000 % 0x1_0000_0000_0000_0000
}

/// Whether the shares of the treasury and of the stakers fit into the fee.
pub open spec fn divides(tc: TokenConfig, fee: int) -> bool {
    cut(fee, tc.treasury_bps as int) + cut(fee, tc.stakers_bps as int) <= fee
}

/// One payment, left out where there is nothing to pay.
pub open spec fn pays(amount: int, payment: Action) -> Seq<Action> {
    if amount == 0 {
        Seq::empty()
    } else {
        seq![payment]
    }
}

/// A transfer that the paying wallet signs itself.
pub open spec fn from_wallet(mint: Mint, from: Pubkey, to: Pubkey, amount: int) -> Seq<Action> {
    pays(
        amount,
        Action::TransferToken {
            mint: mint.key,
            from,
            to,
            amount: amount as u64,
            decimals: mint.decimals,
            signer: None,
        },
    )
}

/// A transfer out of a vault, which the program signs for.
pub open spec fn from_vault(
    mint: Mint,
    vault: Vault,
    bump: u8,
    from: Pubkey,
    to: Pubkey,
    amount: int,
) -> Seq<Action> {
    pays(
        amount,
        Action::TransferToken {
            mint: mint.key,
            from,
            to,
            amount: amount as u64,
            decimals: mint.decimals,
            signer: Some(VaultSigner { vault, bump }),
        },
    )
}

/// A transfer of lamports.
pub open spec fn lamports_from(from: Pubkey, to: Pubkey, amount: int) -> Seq<Action> {
    pays(amount, Action::TransferSol { from, to, lamports: amount as u64 })
}

/// Whether `paid` charges `payer` the fee: the treasury's share, the stakers'
/// share and a burn of the rest, and nothing else; and whether `after` differs
/// from `before` by the burn that it counts.
pub open spec fn charges(
    paid: Seq<Action>,
    before: TokenConfig,
    after: TokenConfig,
    mint: Mint,
    payer: Pubkey,
    stakers_vault: Pubkey,
    fee: int,
) -> bool {
    let t = cut(fee, before.treasury_bps as int);
    let s = cut(fee, before.stakers_bps as int);
    let b = fee - t - s;
    &&& 0 <= b
    &&& paid == from_wallet(mint, payer, before.treasury, t) + from_wallet(
        mint,
        payer,
        stakers_vault,
        s,
    ) + pays(b, Action::BurnToken { mint: mint.key, from: payer, amount: b as u64 })
    &&& after == TokenConfig {
        total_burned: if before.total_burned + b <= u64::MAX {
            (before.total_burned + b) as u64
        } else {
            u64::MAX
        },
        ..before
    }
}

/// Whether the account of a name holds exactly these values.
pub open spec fn reads(
    record: Option<NameRecord>,
    owner: Pubkey,
    resolver: Pubkey,
    uri: Seq<char>,
    expiry: int,
    verified: bool,
    wallets: Seq<Pubkey>,
    bump: u8,
) -> bool {
    &&& record matches Some(r)
    &&& r.owner == owner
    &&& r.resolver == resolver
    &&& r.metadata_uri@ == uri
    &&& r.expiry_timestamp == expiry
    &&& r.verified == verified
    &&& r.linked_wallets@ == wallets
    &&& r.bump == bump
}

/// The accumulator with the growth of the vault shared out among all staked units.
pub open spec fn shared_out(pool: StakePool, rewards_balance: u64) -> int {
    if pool.total_staked == 0 || rewards_balance <= pool.last_reward_balance {
        pool.acc_reward_per_share as int
    } else {
        pool.acc_reward_per_share + (rewards_balance - pool.last_reward_balance)
            * 1_000_000_000_000 / (pool.total_staked as int)
    }
}

/// What a position has earned beyond what it was settled for, as 64 bits hold it.
pub open spec fn unpaid(position: StakeAccount, acc: int) -> int {
    let earned = position.amount * acc / 1_000_000_000_000;
    if earned <= position.reward_debt {
        0
    } else {
        (earned - position.reward_debt) % 0x1_0000_0000_0000_0000
    }
}

/// The total over one payment.
pub proof fn lemma_total_pays(amount: int, payment: Action, measure: spec_fn(Action) -> nat)
    ensures
        total(pays(amount, payment), measure) == if amount == 0 {
            0
        } else {
            measure(payment)
        },
{
    reveal_with_fuel(total, 2);
    if amount != 0 {
        assert(seq![payment].drop_last() =~= Seq::<Action>::empty());
    }
}

/// Charging a fee takes exactly the fee from the payer, in the fee's mint and in
/// no other, and takes nothing from anyone else.
pub proof fn lemma_charges_take_the_fee(
    paid: Seq<Action>,
    before: TokenConfig,
    after: TokenConfig,
    mint: Mint,
    payer: Pubkey,
    stakers_vault: Pubkey,
    fee: int,
    m: Pubkey,
    wallet: Pubkey,
)
    requires
        charges(paid, before, after, mint, payer, stakers_vault, fee),
        0 <= fee <= u64::MAX,
    ensures
        total(paid, |a: Action| token_taken(a, m, wallet)) == if m == mint.key && wallet == payer {
            fee
        } else {
            0
        },
        total(paid, |a: Action| token_burned(a, m)) == if m == mint.key {
            fee - cut(fee, before.treasury_bps as int) - cut(fee, before.stakers_bps as int)
        } else {
            0
        },
        total(paid, |a: Action| token_given(a, m, wallet)) == (if m == mint.key && wallet
            == before.treasury {
            cut(fee, before.treasury_bps as int)
        } else {
            0
        }) + (if m == mint.key && wallet == stakers_vault {
            cut(fee, before.stakers_bps as int)
        } else {
            0
        }),
{
    let t = cut(fee, before.treasury_bps as int);
    let s = cut(fee, before.stakers_bps as int);
    let b = fee - t - s;
    let x = from_wallet(mint, payer, before.treasury, t);
    let y = from_wallet(mint, payer, stakers_vault, s);
    let burn = Action::BurnToken { mint: mint.key, from: payer, amount: b as u64 };
    let z = pays(b, burn);
    let to_treasury = Action::TransferToken {
        mint: mint.key,
        from: payer,
        to: before.treasury,
        amount: t as u64,
        decimals: mint.decimals,
        signer: None,
    };
    let to_stakers = Action::TransferToken {
        mint: mint.key,
        from: payer,
        to: stakers_vault,
        amount: s as u64,
        decimals: mint.decimals,
        signer: None,
    };
    let taken = |a: Action| token_taken(a, m, wallet);
    let burned = |a: Action| token_burned(a, m);
    let given = |a: Action| token_given(a, m, wallet);
    lemma_total_concat(x, y, taken);
    lemma_total_concat(x + y, z, taken);
    lemma_total_pays(t, to_treasury, taken);
    lemma_total_pays(s, to_stakers, taken);
    lemma_total_pays(b, burn, taken);
    lemma_total_concat(x, y, burned);
    lemma_total_concat(x + y, z, burned);
    lemma_total_pays(t, to_treasury, burned);
    lemma_total_pays(s, to_stakers, burned);
    lemma_total_pays(b, burn, burned);
    lemma_total_concat(x, y, given);
    lemma_total_concat(x + y, z, given);
    lemma_total_pays(t, to_treasury, given);
    lemma_total_pays(s, to_stakers, given);
    lemma_total_pays(b, burn, given);
}

} // verus!
