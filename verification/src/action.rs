//! What an accepted instruction has the runtime do: move tokens or lamports,
//! burn tokens, close a record.
//!
//! A token account is named by the wallet that owns it: a wallet has one
//! associated token account for each mint.
use vstd::prelude::*;
use vstd::slice::slice_to_vec;

use crate::constants::{STAKERS_VAULT_SEED, STAKE_VAULT_SEED};
use crate::pubkey::Pubkey;

verus! {

/// A token mint, as far as payments depend on it.
#[derive(Clone, Copy, Debug, PartialEq, Eq)]
pub struct Mint {
    pub key: Pubkey,
    pub decimals: u8,
}

/// A vault that the program itself signs for.
#[derive(Clone, Copy, Debug, PartialEq, Eq)]
pub enum Vault {
    /// Holds the stakers' share of the fees.
    Stakers,
    /// Holds the staked principal.
    Stake,
}

impl Vault {
    /// The seed that the vault's authority is derived from.
    pub open spec fn seed_bytes(self) -> Seq<u8> {
        match self {
            Vault::Stakers => STAKERS_VAULT_SEED@,
            Vault::Stake => STAKE_VAULT_SEED@,
        }
    }

    /// The seed that the vault's authority is derived from.
    pub fn seed(&self) -> (seed: Vec<u8>)
        ensures
            seed@ == self.seed_bytes(),
    {
        match self {
            Vault::Stakers => slice_to_vec(STAKERS_VAULT_SEED.as_slice()),
            Vault::Stake => slice_to_vec(STAKE_VAULT_SEED.as_slice()),
        }
    }
}

/// The signature of a vault: its seed and the bump of its address.
#[derive(Clone, Copy, Debug, PartialEq, Eq)]
pub struct VaultSigner {
    pub vault: Vault,
    pub bump: u8,
}

/// The kinds of record that an instruction can close.
#[derive(Clone, Copy, Debug, PartialEq, Eq)]
pub enum Record {
    Name,
    Listing,
    Category,
}

/// One step for the runtime to perform.
#[derive(Clone, Copy, Debug, PartialEq, Eq)]
pub enum Action {
    /// Moves tokens of `mint` from the wallet `from` to the wallet `to`. `from`
    /// authorizes it: by its own signature, or as a vault by `signer`.
    TransferToken {
        mint: Pubkey,
        from: Pubkey,
        to: Pubkey,
        amount: u64,
        decimals: u8,
        signer: Option<VaultSigner>,
    },
    /// Destroys tokens of `mint` that the wallet `from` holds.
    BurnToken { mint: Pubkey, from: Pubkey, amount: u64 },
    /// Moves lamports from the wallet `from` to the wallet `to`.
    TransferSol { from: Pubkey, to: Pubkey, lamports: u64 },
    /// Closes the instruction's record and sends its rent to `refund_to`.
    Close { record: Record, refund_to: Pubkey },
}

/// `action` on its own, or nothing where `amount` is zero.
pub open spec fn unless_zero(amount: u64, action: Action) -> Seq<Action> {
    if amount > 0 {
        seq![action]
    } else {
        Seq::empty()
    }
}

/// Tokens of `mint` that one action takes from `wallet`.
pub open spec fn token_taken(action: Action, mint: Pubkey, wallet: Pubkey) -> nat {
    match action {
        Action::TransferToken { mint: m, from, amount, .. } if m == mint && from == wallet => amount as nat,
        Action::BurnToken { mint: m, from, amount } if m == mint && from == wallet => amount as nat,
        _ => 0,
    }
}

/// Tokens of `mint` that one action gives to `wallet`.
pub open spec fn token_given(action: Action, mint: Pubkey, wallet: Pubkey) -> nat {
    match action {
        Action::TransferToken { mint: m, to, amount, .. } if m == mint && to == wallet => amount as nat,
        _ => 0,
    }
}

/// Tokens of `mint` that one action destroys.
pub open spec fn token_burned(action: Action, mint: Pubkey) -> nat {
    match action {
        Action::BurnToken { mint: m, amount, .. } if m == mint => amount as nat,
        _ => 0,
    }
}

/// Lamports that one action takes from `wallet`.
pub open spec fn sol_taken(action: Action, wallet: Pubkey) -> nat {
    match action {
        Action::TransferSol { from, lamports, .. } if from == wallet => lamports as nat,
        _ => 0,
    }
}

/// Lamports that one action gives to `wallet`, rent refunds not counted.
pub open spec fn sol_given(action: Action, wallet: Pubkey) -> nat {
    match action {
        Action::TransferSol { to, lamports, .. } if to == wallet => lamports as nat,
        _ => 0,
    }
}

/// The sum of `measure` over all the actions.
pub open spec fn total(actions: Seq<Action>, measure: spec_fn(Action) -> nat) -> nat
    decreases actions.len(),
{
    if actions.len() == 0 {
        0
    } else {
        total(actions.drop_last(), measure) + measure(actions.last())
    }
}

/// A total over two lists joined is the sum of their totals.
pub proof fn lemma_total_concat(a: Seq<Action>, b: Seq<Action>, measure: spec_fn(Action) -> nat)
    ensures
        total(a + b, measure) == total(a, measure) + total(b, measure),
    decreases b.len(),
{
    if b.len() == 0 {
        assert(a + b =~= a);
    } else {
        assert((a + b).drop_last() =~= a + b.drop_last());
        lemma_total_concat(a, b.drop_last(), measure);
    }
}

/// The total over a conditional action.
pub proof fn lemma_total_unless_zero(amount: u64, action: Action, measure: spec_fn(Action) -> nat)
    ensures
        total(unless_zero(amount, action), measure) == if amount > 0 {
            measure(action)
        } else {
            0
        },
{
    reveal_with_fuel(total, 2);
    if amount > 0 {
        assert(seq![action].drop_last() =~= Seq::<Action>::empty());
    }
}

} // verus!
