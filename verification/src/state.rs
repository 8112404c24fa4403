//! The records that the protocol keeps.
//!
//! Where instructions create or close a record, its account is an `Option`: `None`
//! where there is no such account. A record that an instruction creates if needed
//! and that is never closed is plain, and all zero when it is new.
use vstd::prelude::*;
use vstd::utf8::encode_utf8;

use crate::constants::{MAX_LINKED_WALLETS, MAX_METADATA_URI_LEN};
use crate::pubkey::Pubkey;

verus! {

/// Singleton protocol config.
#[derive(Clone, Copy, Debug, PartialEq, Eq)]
pub struct Config {
    /// Admin authority (may update the config later).
    pub admin: Pubkey,
    /// Wallet that receives protocol fees.
    pub treasury: Pubkey,
    /// Registration fee for names of 1 to 4 characters, in lamports.
    pub fee_1_4: u64,
    /// Registration fee for names of 5 to 9 characters, in lamports.
    pub fee_5_9: u64,
    /// Registration fee for names of 10 characters or more, in lamports.
    pub fee_10_plus: u64,
    /// Fee to set the verified flag, in lamports.
    pub verify_fee: u64,
    /// Registration and renewal period in seconds.
    pub registration_period: i64,
    /// Seconds after expiry before anyone may register the name again.
    pub grace_period: i64,
    /// Address bump.
    pub bump: u8,
}

impl Config {
    /// What every stored config keeps: names last for a positive period, and the
    /// grace period is no negative one.
    pub open spec fn is_valid(self) -> bool {
        self.registration_period > 0 && self.grace_period >= 0
    }
}

/// Singleton tokenomics config: every protocol fee is paid in $NAIM, then split
/// between the treasury, the stakers vault and burning.
#[derive(Clone, Copy, Debug, PartialEq, Eq)]
pub struct TokenConfig {
    /// Admin authority (may update fees and split later).
    pub admin: Pubkey,
    /// The $NAIM mint that fees are paid in and burned from.
    pub naim_mint: Pubkey,
    /// Wallet that owns the treasury $NAIM token account.
    pub treasury: Pubkey,
    /// Fee for names of 1 to 4 characters, in $NAIM base units.
    pub fee_1_4: u64,
    /// Fee for names of 5 to 9 characters, in $NAIM base units.
    pub fee_5_9: u64,
    /// Fee for names of 10 characters or more, in $NAIM base units.
    pub fee_10_plus: u64,
    /// Fee to set the verified flag, in $NAIM base units.
    pub verify_fee: u64,
    /// Share of every fee sent to the treasury, in basis points.
    pub treasury_bps: u16,
    /// Share of every fee sent to the stakers vault, in basis points.
    pub stakers_bps: u16,
    /// Share of every fee burned, in basis points.
    pub burn_bps: u16,
    /// Running total of $NAIM burned by the protocol.
    pub total_burned: u64,
    /// Address bump of this record.
    pub bump: u8,
    /// Address bump of the stakers-vault authority.
    pub vault_bump: u8,
}

impl TokenConfig {
    /// What every stored tokenomics config keeps: the three shares make up the
    /// whole.
    pub open spec fn is_valid(self) -> bool {
        self.treasury_bps + self.stakers_bps + self.burn_bps == 10_000
    }
}

/// Singleton staking pool: distributes the stakers' share of the fees by a
/// reward-per-share accumulator.
#[derive(Clone, Copy, Debug, PartialEq, Eq)]
pub struct StakePool {
    pub admin: Pubkey,
    pub naim_mint: Pubkey,
    /// Total $NAIM currently staked.
    pub total_staked: u64,
    /// Accumulated reward per staked unit, scaled by `ACC_PRECISION`.
    pub acc_reward_per_share: u128,
    /// Rewards-vault balance already folded into the accumulator.
    pub last_reward_balance: u64,
    /// Address bump.
    pub bump: u8,
    /// Address bump of the authority that custodies principal.
    pub stake_vault_bump: u8,
}

/// A user's stake position.
#[derive(Clone, Copy, Debug, PartialEq, Eq)]
pub struct StakeAccount {
    pub owner: Pubkey,
    /// Staked principal in $NAIM base units.
    pub amount: u64,
    /// `amount * acc_reward_per_share / ACC_PRECISION` at the last interaction.
    pub reward_debt: u128,
    /// Time before which unstaking is refused.
    pub lock_end: i64,
    /// Address bump.
    pub bump: u8,
}

/// A sponsored ranking bid: how much a name burned for a capability in an epoch.
#[derive(Clone, Copy, Debug, PartialEq, Eq)]
pub struct RankBid {
    pub owner: Pubkey,
    pub name_hash: [u8; 32],
    pub capability_hash: [u8; 32],
    /// $NAIM burned during `epoch`.
    pub amount: u64,
    /// Number of the epoch that the bid was placed in.
    pub epoch: i64,
    /// Address bump.
    pub bump: u8,
}

/// A category namespace, whose owner earns a royalty on every name minted
/// beneath it.
#[derive(Clone, Copy, Debug, PartialEq, Eq)]
pub struct CategoryRecord {
    /// Current owner of the category.
    pub owner: Pubkey,
    /// Royalty on names minted beneath it, in basis points.
    pub royalty_bps: u16,
    /// Number of names minted beneath it.
    pub sub_count: u64,
    /// Royalty paid out to the owner so far.
    pub total_earned: u64,
    /// Address bump.
    pub bump: u8,
}

/// Reputation inputs of a name, which only the protocol writes.
#[derive(Clone, Copy, Debug, PartialEq, Eq)]
pub struct ReputationRecord {
    pub name_hash: [u8; 32],
    /// Time of first registration; a name that is registered anew starts afresh.
    pub created_at: i64,
    /// Number of renewals paid.
    pub renew_count: u32,
    /// Address bump.
    pub bump: u8,
}

/// The record of a registered name.
#[derive(Debug, PartialEq, Eq)]
pub struct NameRecord {
    /// Current owner of the name.
    pub owner: Pubkey,
    /// Wallet or program that the name resolves to.
    pub resolver: Pubkey,
    /// URI of the agent's manifest.
    pub metadata_uri: String,
    /// Time of expiry; 0 for a permanent name.
    pub expiry_timestamp: i64,
    /// Set by the protocol on verification.
    pub verified: bool,
    /// Further wallets of this identity.
    pub linked_wallets: Vec<Pubkey>,
    /// Address bump.
    pub bump: u8,
}

/// What a `NameRecord` holds.
#[verifier::ext_equal]
pub struct NameRecordView {
    pub owner: Pubkey,
    pub resolver: Pubkey,
    pub metadata_uri: Seq<char>,
    pub expiry_timestamp: i64,
    pub verified: bool,
    pub linked_wallets: Seq<Pubkey>,
    pub bump: u8,
}

impl View for NameRecord {
    type V = NameRecordView;

    open spec fn view(&self) -> NameRecordView {
        NameRecordView {
            owner: self.owner,
            resolver: self.resolver,
            metadata_uri: self.metadata_uri@,
            expiry_timestamp: self.expiry_timestamp,
            verified: self.verified,
            linked_wallets: self.linked_wallets@,
            bump: self.bump,
        }
    }
}

/// Whether a metadata URI fits its field: at most 200 bytes of UTF-8.
pub open spec fn uri_fits(uri: Seq<char>) -> bool {
    encode_utf8(uri).len() <= MAX_METADATA_URI_LEN
}

impl NameRecordView {
    /// What every stored name record keeps: the URI and the linked wallets fit
    /// their fields, and no wallet is linked twice.
    pub open spec fn is_valid(self) -> bool {
        &&& uri_fits(self.metadata_uri)
        &&& self.linked_wallets.len() <= MAX_LINKED_WALLETS
        &&& self.linked_wallets.no_duplicates()
    }

    /// Whether nobody holds the name: its owner is the zero address, as in a record
    /// that was never written.
    pub open spec fn is_vacant(self) -> bool {
        self.owner.is_zero()
    }
}

/// What the account of a name holds; nothing where there is no such account.
pub open spec fn stored(record: Option<NameRecord>) -> Option<NameRecordView> {
    match record {
        Some(r) => Some(r@),
        None => None,
    }
}

/// Whether the account of a name, where there is one, holds a valid record.
pub open spec fn stored_is_valid(record: Option<NameRecord>) -> bool {
    stored(record) matches Some(r) ==> r.is_valid()
}

/// Singleton marketplace config.
#[derive(Clone, Copy, Debug, PartialEq, Eq)]
pub struct MarketConfig {
    /// Admin authority (may update the market later).
    pub admin: Pubkey,
    /// USDC mint accepted as a sale currency.
    pub usdc_mint: Pubkey,
    /// Wallet that receives marketplace fees.
    pub treasury: Pubkey,
    /// Fee on a $NAIM sale, in basis points: lower than on other sales.
    pub fee_naim_bps: u16,
    /// Fee on a SOL or USDC sale, in basis points: higher than on a $NAIM sale.
    pub fee_stable_bps: u16,
    /// Address bump.
    pub bump: u8,
}

impl MarketConfig {
    /// What every stored marketplace config keeps: $NAIM is the cheaper tier, and
    /// no fee takes the whole price.
    pub open spec fn is_valid(self) -> bool {
        self.fee_naim_bps < self.fee_stable_bps && self.fee_stable_bps < 10_000
    }
}

/// A marketplace listing: its seller's authorization for a purchase to reassign
/// the name.
#[derive(Clone, Copy, Debug, PartialEq, Eq)]
pub struct Listing {
    /// Seller, who must own the name when it is listed and when it is bought.
    pub seller: Pubkey,
    /// Hash of the listed name.
    pub name_hash: [u8; 32],
    /// Payment currency.
    pub currency: u8,
    /// Asking price in the currency's base units.
    pub price: u64,
    /// Time at which the listing was created.
    pub created_at: i64,
    /// Address bump.
    pub bump: u8,
}

} // verus!
