//! Registering, renewing and managing names.
//!
//! A name is addressed by the SHA-256 digest of its text, which the caller hands
//! in with the name. Instructions that check it come twice: one computes the
//! digest of the name, the other takes the digest as an argument.
use vstd::prelude::*;
use vstd::utf8::encode_utf8;

use crate::action::{Action, Mint, Record};
use crate::arith::fits_i64;
use crate::constants::{MAX_LINKED_WALLETS, MAX_METADATA_URI_LEN};
use crate::digest::{sha256, sha256_of};
use crate::error::{Error, NaimError};
use crate::fees::{
    apply_discount, collect_fee, discounted, fee_actions, fee_collected, fee_splits, splits,
};
use crate::names::{
    fee_for, is_permanent, is_valid_name, permanent_length, tier_fee, validate_name,
};
use crate::pubkey::{same_bytes, Pubkey};
use crate::state::{
    stored, stored_is_valid, uri_fits, Config, NameRecord, NameRecordView, ReputationRecord,
    StakeAccount, TokenConfig,
};

verus! {

/// Whether the 32 bytes that the caller handed in are the digest.
pub open spec fn hash_matches(name_hash: [u8; 32], digest: Seq<u8>) -> bool {
    name_hash@ == digest
}

/// Whether the 32 bytes that the caller handed in are the digest.
pub fn check_hash(name_hash: &[u8; 32], digest: &[u8; 32]) -> (same: bool)
    ensures
        same == hash_matches(*name_hash, digest@),
{
    let same: bool = same_bytes(name_hash, digest);
    if !same {
        assert(!(*name_hash =~= *digest));
        assert(name_hash@ != digest@) by {
            if name_hash@ == digest@ {
                assert(forall|i: int| 0 <= i < 32 ==> name_hash@[i] == digest@[i]);
                assert(*name_hash =~= *digest);
            }
        }
    }
    same
}

/// Whether a metadata URI fits its field.
pub fn check_uri(uri: &str) -> (fits: bool)
    ensures
        fits == uri_fits(uri@),
{
    uri.as_bytes().len() <= MAX_METADATA_URI_LEN
}

/// When a name of this length that is registered now expires: never, written 0,
/// or after one registration period.
pub open spec fn new_expiry(char_len: nat, now: i64, registration_period: i64) -> i64 {
    if permanent_length(char_len) {
        0
    } else {
        (now + registration_period) as i64
    }
}

/// The record of a name that was just registered: it belongs to and resolves to
/// the payer, unverified and without linked wallets.
pub open spec fn fresh_record(
    payer: Pubkey,
    uri: Seq<char>,
    expiry_timestamp: i64,
    bump: u8,
) -> NameRecordView {
    NameRecordView {
        owner: payer,
        resolver: payer,
        metadata_uri: uri,
        expiry_timestamp,
        verified: false,
        linked_wallets: Seq::empty(),
        bump,
    }
}

/// The reputation of a name that was just registered.
pub open spec fn fresh_reputation(name_hash: [u8; 32], now: i64, bump: u8) -> ReputationRecord {
    ReputationRecord { name_hash, created_at: now, renew_count: 0, bump }
}

/// Why an instruction on a name is refused whose signer must own it.
pub open spec fn owner_refusal(record: Option<NameRecord>, signer: Pubkey) -> Option<Error> {
    match record {
        None => Some(Error::AccountNotInitialized),
        Some(r) => if r.owner != signer {
            Some(Error::Naim(NaimError::Unauthorized))
        } else {
            None
        },
    }
}

/// Checks that the name exists and that the signer owns it.
pub fn check_owner(record: &Option<NameRecord>, signer: &Pubkey) -> (res: Result<(), Error>)
    ensures
        match res {
            Ok(_) => owner_refusal(*record, *signer) is None,
            Err(e) => owner_refusal(*record, *signer) == Some(e),
        },
{
    match record {
        None => Err(Error::AccountNotInitialized),
        Some(r) => if r.owner != *signer {
            Err(Error::Naim(NaimError::Unauthorized))
        } else {
            Ok(())
        },
    }
}

/// Accounts of `register_name`.
#[derive(Debug, PartialEq, Eq)]
pub struct RegisterName {
    pub config: Config,
    pub token_config: TokenConfig,
    /// The name's record, which is created where it does not exist.
    pub name_record: Option<NameRecord>,
    /// The hash that the name record's address is derived from.
    pub name_record_seed: [u8; 32],
    /// The signer.
    pub payer: Pubkey,
    pub reputation_record: ReputationRecord,
    /// The hash that the reputation record's address is derived from.
    pub reputation_record_seed: [u8; 32],
    pub naim_mint: Mint,
    /// Authority of the vault that takes the stakers' share.
    pub stakers_vault: Pubkey,
    /// A stake position that may earn a discount.
    pub stake_account: Option<StakeAccount>,
    pub name_record_bump: u8,
    pub reputation_record_bump: u8,
}

impl RegisterName {
    /// The stake that counts for a discount: only the payer's own.
    pub open spec fn own_stake(self) -> u64 {
        match self.stake_account {
            Some(position) => if position.owner == self.payer {
                position.amount
            } else {
                0
            },
            None => 0,
        }
    }

    /// What a name of this length costs the payer.
    pub open spec fn fee(self, char_len: nat) -> u64 {
        discounted(tier_fee(self.token_config, char_len), self.own_stake())
    }

    /// Whether the name is held, and its expiry and grace period have not both
    /// passed. A permanent name is held for good.
    pub open spec fn is_taken(self, now: i64) -> bool {
        match self.name_record {
            Some(record) => {
                &&& !record@.is_vacant()
                &&& record.expiry_timestamp == 0 || now < record.expiry_timestamp
                    + self.config.grace_period
            },
            None => false,
        }
    }

    /// The stake that counts for a discount: only the payer's own.
    fn counted_stake(&self) -> (staked: u64)
        ensures
            staked == self.own_stake(),
    {
        match &self.stake_account {
            Some(position) => if position.owner == self.payer {
                position.amount
            } else {
                0
            },
            None => 0,
        }
    }
}

/// Why a request to register is refused whoever holds the name.
pub open spec fn register_request_refusal(
    ctx: RegisterName,
    name: Seq<char>,
    name_hash: [u8; 32],
    uri: Seq<char>,
    digest: Seq<u8>,
) -> Option<Error> {
    if ctx.name_record_seed != name_hash || ctx.reputation_record_seed != name_hash {
        Some(Error::ConstraintSeeds)
    } else if ctx.naim_mint.key != ctx.token_config.naim_mint {
        Some(Error::ConstraintAddress)
    } else if !is_valid_name(name) || !hash_matches(name_hash, digest) {
        Some(Error::Naim(NaimError::InvalidName))
    } else if !uri_fits(uri) {
        Some(Error::Naim(NaimError::MetadataUriTooLong))
    } else {
        None
    }
}

/// Why `register_name` is refused.
pub open spec fn register_name_refusal(
    ctx: RegisterName,
    name: Seq<char>,
    name_hash: [u8; 32],
    uri: Seq<char>,
    digest: Seq<u8>,
    now: i64,
) -> Option<Error> {
    let request = register_request_refusal(ctx, name, name_hash, uri, digest);
    if request is Some {
        request
    } else if ctx.is_taken(now) {
        Some(Error::Naim(NaimError::NameAlreadyRegistered))
    } else if !splits(ctx.token_config, ctx.fee(name.len())) {
        Some(Error::Naim(NaimError::InvalidConfig))
    } else {
        None
    }
}

/// Whether the times that `register_name` adds up are in range.
pub open spec fn register_name_in_range(
    ctx: RegisterName,
    name: Seq<char>,
    name_hash: [u8; 32],
    uri: Seq<char>,
    digest: Seq<u8>,
    now: i64,
) -> bool {
    &&& match ctx.name_record {
        Some(record) => register_request_refusal(ctx, name, name_hash, uri, digest) is None
            && !record@.is_vacant() && record.expiry_timestamp != 0 ==> fits_i64(
            record.expiry_timestamp + ctx.config.grace_period,
        ),
        None => true,
    }
    &&& register_name_refusal(ctx, name, name_hash, uri, digest, now) is None
        && !permanent_length(name.len()) ==> fits_i64(now + ctx.config.registration_period)
}

/// How `register_name` takes `before` to `after`, and what it returns.
pub open spec fn register_name_outcome(
    before: RegisterName,
    name: Seq<char>,
    name_hash: [u8; 32],
    uri: Seq<char>,
    digest: Seq<u8>,
    now: i64,
    after: RegisterName,
    res: Result<Vec<Action>, Error>,
) -> bool {
    match res {
        Ok(actions) => {
            let fee = before.fee(name.len());
            &&& register_name_refusal(before, name, name_hash, uri, digest, now) is None
            &&& actions@ == fee_actions(
                before.token_config,
                before.naim_mint,
                before.payer,
                before.stakers_vault,
                fee,
            )
            &&& stored(after.name_record) == Some(
                fresh_record(
                    before.payer,
                    uri,
                    new_expiry(name.len(), now, before.config.registration_period),
                    before.name_record_bump,
                ),
            )
            &&& after == RegisterName {
                token_config: fee_collected(before.token_config, fee),
                name_record: after.name_record,
                reputation_record: fresh_reputation(name_hash, now, before.reputation_record_bump),
                ..before
            }
        },
        Err(e) => {
            &&& register_name_refusal(before, name, name_hash, uri, digest, now) == Some(e)
            &&& after == before
        },
    }
}

/// Checks a request to register; returns the name's length in characters.
fn check_register_request(
    ctx: &RegisterName,
    name: &str,
    name_hash: &[u8; 32],
    metadata_uri: &str,
    digest: &[u8; 32],
) -> (res: Result<usize, Error>)
    ensures
        match res {
            Ok(len) => {
                &&& register_request_refusal(*ctx, name@, *name_hash, metadata_uri@, digest@) is None
                &&& len == name@.len()
            },
            Err(e) => register_request_refusal(*ctx, name@, *name_hash, metadata_uri@, digest@)
                == Some(e),
        },
{
    if !same_bytes(&ctx.name_record_seed, name_hash) || !same_bytes(
        &ctx.reputation_record_seed,
        name_hash,
    ) {
        return Err(Error::ConstraintSeeds);
    }
    if ctx.naim_mint.key != ctx.token_config.naim_mint {
        return Err(Error::ConstraintAddress);
    }
    let len: usize = match validate_name(name) {
        Ok(len) => len,
        Err(e) => return Err(e),
    };
    if !check_hash(name_hash, digest) {
        return Err(Error::Naim(NaimError::InvalidName));
    }
    if !check_uri(metadata_uri) {
        return Err(Error::Naim(NaimError::MetadataUriTooLong));
    }
    Ok(len)
}

/// Registers a name, given the digest of its text. Collects the tier fee, less
/// the payer's discount. A held name can be taken over only once its expiry and
/// grace period have fully passed. Names of 1 to 4 characters are permanent.
pub fn register_name_with_digest(
    ctx: &mut RegisterName,
    name: &str,
    name_hash: [u8; 32],
    metadata_uri: String,
    digest: &[u8; 32],
    now: i64,
) -> (res: Result<Vec<Action>, Error>)
    requires
        register_name_in_range(*old(ctx), name@, name_hash, metadata_uri@, digest@, now),
    ensures
        register_name_outcome(
            *old(ctx),
            name@,
            name_hash,
            metadata_uri@,
            digest@,
            now,
            *final(ctx),
            res,
        ),
{
    let len: usize = match check_register_request(
        ctx,
        name,
        &name_hash,
        metadata_uri.as_str(),
        digest,
    ) {
        Ok(len) => len,
        Err(e) => return Err(e),
    };
    let fee: u64 = apply_discount(fee_for(&ctx.token_config, len), ctx.counted_stake());
    if let Some(record) = &ctx.name_record {
        if !record.owner.is_default() {
            let expiry: i64 = record.expiry_timestamp;
            if expiry == 0 || now < expiry + ctx.config.grace_period {
                return Err(Error::Naim(NaimError::NameAlreadyRegistered));
            }
        }
    }
    let actions: Vec<Action> = match collect_fee(
        &mut ctx.token_config,
        &ctx.naim_mint,
        &ctx.payer,
        &ctx.stakers_vault,
        fee,
    ) {
        Ok(actions) => actions,
        Err(e) => return Err(e),
    };
    let expiry_timestamp: i64 = if is_permanent(len) {
        0
    } else {
        now + ctx.config.registration_period
    };
    ctx.name_record = Some(NameRecord {
        owner: ctx.payer,
        resolver: ctx.payer,
        metadata_uri,
        expiry_timestamp,
        verified: false,
        linked_wallets: Vec::new(),
        bump: ctx.name_record_bump,
    });
    ctx.reputation_record = ReputationRecord {
        name_hash,
        created_at: now,
        renew_count: 0,
        bump: ctx.reputation_record_bump,
    };
    Ok(actions)
}

/// How `register_name` takes `before` to `after`, and what it returns, on the digest that
/// it computes.
pub open spec fn register_name_hashed_outcome(
    before: RegisterName,
    name: Seq<char>,
    name_hash: [u8; 32],
    uri: Seq<char>,
    now: i64,
    after: RegisterName,
    res: Result<Vec<Action>, Error>,
) -> bool {
    register_name_outcome(
        before,
        name,
        name_hash,
        uri,
        sha256(encode_utf8(name)),
        now,
        after,
        res,
    )
}

/// Registers a name: `register_name_with_digest` on the SHA-256 digest of the
/// name.
pub fn register_name(
    ctx: &mut RegisterName,
    name: String,
    name_hash: [u8; 32],
    metadata_uri: String,
    now: i64,
) -> (res: Result<Vec<Action>, Error>)
    requires
        register_name_in_range(
            *old(ctx),
            name@,
            name_hash,
            metadata_uri@,
            sha256(encode_utf8(name@)),
            now,
        ),
    ensures
        register_name_hashed_outcome(
            *old(ctx),
            name@,
            name_hash,
            metadata_uri@,
            now,
            *final(ctx),
            res,
        ),
{
    let digest: [u8; 32] = sha256_of(name.as_str().as_bytes());
    register_name_with_digest(ctx, name.as_str(), name_hash, metadata_uri, &digest, now)
}

/// Whether the times that `register_name` adds up are in range.
fn register_name_fits(
    ctx: &RegisterName,
    name: &str,
    name_hash: &[u8; 32],
    metadata_uri: &str,
    digest: &[u8; 32],
    now: i64,
) -> (fits: bool)
    ensures
        fits == register_name_in_range(*ctx, name@, *name_hash, metadata_uri@, digest@, now),
{
    let len: usize = match check_register_request(ctx, name, name_hash, metadata_uri, digest) {
        Ok(len) => len,
        Err(_) => return true,
    };
    if let Some(record) = &ctx.name_record {
        if !record.owner.is_default() {
            let expiry: i64 = record.expiry_timestamp;
            if expiry == 0 {
                return true;
            }
            match expiry.checked_add(ctx.config.grace_period) {
                None => return false,
                Some(end) => if now < end {
                    return true;
                },
            }
        }
    }
    let fee: u64 = apply_discount(fee_for(&ctx.token_config, len), ctx.counted_stake());
    !fee_splits(&ctx.token_config, fee) || is_permanent(len) || now.checked_add(
        ctx.config.registration_period,
    ).is_some()
}

/// How `try_register_name` takes `before` to `after`, and what it returns.
pub open spec fn try_register_name_outcome(
    before: RegisterName,
    name: Seq<char>,
    name_hash: [u8; 32],
    uri: Seq<char>,
    now: i64,
    after: RegisterName,
    res: Option<Result<Vec<Action>, Error>>,
) -> bool {
    match res {
        None => {
            &&& !register_name_in_range(
                before,
                name,
                name_hash,
                uri,
                sha256(encode_utf8(name)),
                now,
            )
            &&& after == before
        },
        Some(r) => {
            &&& register_name_in_range(
                before,
                name,
                name_hash,
                uri,
                sha256(encode_utf8(name)),
                now,
            )
            &&& register_name_outcome(
                before,
                name,
                name_hash,
                uri,
                sha256(encode_utf8(name)),
                now,
                after,
                r,
            )
        },
    }
}

/// `register_name` for any input: `None` where the times it adds up are out of
/// range.
pub fn try_register_name(
    ctx: &mut RegisterName,
    name: String,
    name_hash: [u8; 32],
    metadata_uri: String,
    now: i64,
) -> (res: Option<Result<Vec<Action>, Error>>)
    ensures
        try_register_name_outcome(
            *old(ctx),
            name@,
            name_hash,
            metadata_uri@,
            now,
            *final(ctx),
            res,
        ),
{
    let digest: [u8; 32] = sha256_of(name.as_str().as_bytes());
    if register_name_fits(ctx, name.as_str(), &name_hash, metadata_uri.as_str(), &digest, now) {
        Some(register_name(ctx, name, name_hash, metadata_uri, now))
    } else {
        None
    }
}

/// Accounts of `renew_name`.
#[derive(Debug, PartialEq, Eq)]
pub struct RenewName {
    pub config: Config,
    pub token_config: TokenConfig,
    pub name_record: Option<NameRecord>,
    /// The hash that the name record's address is derived from.
    pub name_record_seed: [u8; 32],
    /// The signer.
    pub owner: Pubkey,
    pub reputation_record: ReputationRecord,
    /// The hash that the reputation record's address is derived from.
    pub reputation_record_seed: [u8; 32],
    pub naim_mint: Mint,
    /// Authority of the vault that takes the stakers' share.
    pub stakers_vault: Pubkey,
    pub reputation_record_bump: u8,
}

/// Why `renew_name` is refused.
pub open spec fn renew_name_refusal(
    ctx: RenewName,
    name: Seq<char>,
    name_hash: [u8; 32],
    digest: Seq<u8>,
) -> Option<Error> {
    if ctx.name_record is None {
        Some(Error::AccountNotInitialized)
    } else if ctx.name_record_seed != name_hash || ctx.reputation_record_seed != name_hash {
        Some(Error::ConstraintSeeds)
    } else if ctx.name_record->0.owner != ctx.owner {
        Some(Error::Naim(NaimError::Unauthorized))
    } else if ctx.naim_mint.key != ctx.token_config.naim_mint {
        Some(Error::ConstraintAddress)
    } else if !is_valid_name(name) || !hash_matches(name_hash, digest) {
        Some(Error::Naim(NaimError::InvalidName))
    } else if ctx.name_record->0.expiry_timestamp == 0 {
        Some(Error::Naim(NaimError::NamePermanent))
    } else if !splits(ctx.token_config, tier_fee(ctx.token_config, name.len())) {
        Some(Error::Naim(NaimError::InvalidConfig))
    } else {
        None
    }
}

/// When a renewed name expires: one period after the later of now and its
/// current expiry.
pub open spec fn renewed_expiry(ctx: RenewName, now: i64) -> int {
    let expiry = ctx.name_record->0.expiry_timestamp;
    (if now >= expiry {
        now as int
    } else {
        expiry as int
    }) + ctx.config.registration_period
}

/// Whether the new expiry of an accepted `renew_name` is in range.
pub open spec fn renew_name_in_range(
    ctx: RenewName,
    name: Seq<char>,
    name_hash: [u8; 32],
    digest: Seq<u8>,
    now: i64,
) -> bool {
    renew_name_refusal(ctx, name, name_hash, digest) is None ==> fits_i64(renewed_expiry(ctx, now))
}

/// The reputation after a renewal: one that was never written starts now; the
/// count of renewals grows by one, up to its largest value.
pub open spec fn renewed_reputation(
    ctx: RenewName,
    name_hash: [u8; 32],
    now: i64,
) -> ReputationRecord {
    let rep = ctx.reputation_record;
    let is_new = rep.created_at == 0;
    ReputationRecord {
        name_hash: if is_new {
            name_hash
        } else {
            rep.name_hash
        },
        created_at: if is_new {
            now
        } else {
            rep.created_at
        },
        renew_count: if rep.renew_count == u32::MAX {
            u32::MAX
        } else {
            (rep.renew_count + 1) as u32
        },
        bump: if is_new {
            ctx.reputation_record_bump
        } else {
            rep.bump
        },
    }
}

/// How `renew_name` takes `before` to `after`, and what it returns.
pub open spec fn renew_name_outcome(
    before: RenewName,
    name: Seq<char>,
    name_hash: [u8; 32],
    digest: Seq<u8>,
    now: i64,
    after: RenewName,
    res: Result<Vec<Action>, Error>,
) -> bool {
    match res {
        Ok(actions) => {
            let fee = tier_fee(before.token_config, name.len());
            &&& renew_name_refusal(before, name, name_hash, digest) is None
            &&& actions@ == fee_actions(
                before.token_config,
                before.naim_mint,
                before.owner,
                before.stakers_vault,
                fee,
            )
            &&& stored(after.name_record) == Some(
                NameRecordView {
                    expiry_timestamp: renewed_expiry(before, now) as i64,
                    ..before.name_record->0@
                },
            )
            &&& after == RenewName {
                token_config: fee_collected(before.token_config, fee),
                name_record: after.name_record,
                reputation_record: renewed_reputation(before, name_hash, now),
                ..before
            }
        },
        Err(e) => {
            &&& renew_name_refusal(before, name, name_hash, digest) == Some(e)
            &&& after == before
        },
    }
}

/// Checks a request to renew; returns the tier fee and the current expiry.
fn check_renewal(
    ctx: &RenewName,
    name: &str,
    name_hash: &[u8; 32],
    digest: &[u8; 32],
) -> (res: Result<(u64, i64), Error>)
    ensures
        match res {
            Ok((fee, expiry)) => {
                &&& renew_name_refusal(*ctx, name@, *name_hash, digest@) is None
                &&& fee == tier_fee(ctx.token_config, name@.len())
                &&& expiry == ctx.name_record->0.expiry_timestamp
            },
            Err(e) => renew_name_refusal(*ctx, name@, *name_hash, digest@) == Some(e),
        },
{
    let record = match &ctx.name_record {
        Some(record) => record,
        None => return Err(Error::AccountNotInitialized),
    };
    if !same_bytes(&ctx.name_record_seed, name_hash) || !same_bytes(
        &ctx.reputation_record_seed,
        name_hash,
    ) {
        return Err(Error::ConstraintSeeds);
    }
    if record.owner != ctx.owner {
        return Err(Error::Naim(NaimError::Unauthorized));
    }
    if ctx.naim_mint.key != ctx.token_config.naim_mint {
        return Err(Error::ConstraintAddress);
    }
    let len: usize = match validate_name(name) {
        Ok(len) => len,
        Err(e) => return Err(e),
    };
    if !check_hash(name_hash, digest) {
        return Err(Error::Naim(NaimError::InvalidName));
    }
    if record.expiry_timestamp == 0 {
        return Err(Error::Naim(NaimError::NamePermanent));
    }
    let fee: u64 = fee_for(&ctx.token_config, len);
    if !fee_splits(&ctx.token_config, fee) {
        return Err(Error::Naim(NaimError::InvalidConfig));
    }
    Ok((fee, record.expiry_timestamp))
}

/// Extends a name that is not permanent by one registration period, given the
/// digest of its text. Collects the tier fee. Extends from the later of `now` and
/// the current expiry.
pub fn renew_name_with_digest(
    ctx: &mut RenewName,
    name: &str,
    name_hash: [u8; 32],
    digest: &[u8; 32],
    now: i64,
) -> (res: Result<Vec<Action>, Error>)
    requires
        renew_name_in_range(*old(ctx), name@, name_hash, digest@, now),
    ensures
        renew_name_outcome(*old(ctx), name@, name_hash, digest@, now, *final(ctx), res),
{
    let (fee, expiry): (u64, i64) = match check_renewal(ctx, name, &name_hash, digest) {
        Ok(checked) => checked,
        Err(e) => return Err(e),
    };
    let actions: Vec<Action> = match collect_fee(
        &mut ctx.token_config,
        &ctx.naim_mint,
        &ctx.owner,
        &ctx.stakers_vault,
        fee,
    ) {
        Ok(actions) => actions,
        Err(e) => return Err(e),
    };
    let base: i64 = if now >= expiry {
        now
    } else {
        expiry
    };
    let renewed: i64 = base + ctx.config.registration_period;
    if let Some(record) = &mut ctx.name_record {
        record.expiry_timestamp = renewed;
    }
    if ctx.reputation_record.created_at == 0 {
        ctx.reputation_record.name_hash = name_hash;
        ctx.reputation_record.created_at = now;
        ctx.reputation_record.bump = ctx.reputation_record_bump;
    }
    ctx.reputation_record.renew_count = ctx.reputation_record.renew_count.saturating_add(1);
    Ok(actions)
}

/// How `renew_name` takes `before` to `after`, and what it returns, on the digest that
/// it computes.
pub open spec fn renew_name_hashed_outcome(
    before: RenewName,
    name: Seq<char>,
    name_hash: [u8; 32],
    now: i64,
    after: RenewName,
    res: Result<Vec<Action>, Error>,
) -> bool {
    renew_name_outcome(
        before,
        name,
        name_hash,
        sha256(encode_utf8(name)),
        now,
        after,
        res,
    )
}

/// Extends a name: `renew_name_with_digest` on the SHA-256 digest of the name.
pub fn renew_name(ctx: &mut RenewName, name: String, name_hash: [u8; 32], now: i64) -> (res: Result<
    Vec<Action>,
    Error,
>)
    requires
        renew_name_in_range(*old(ctx), name@, name_hash, sha256(encode_utf8(name@)), now),
    ensures
        renew_name_hashed_outcome(
            *old(ctx),
            name@,
            name_hash,
            now,
            *final(ctx),
            res,
        ),
{
    let digest: [u8; 32] = sha256_of(name.as_str().as_bytes());
    renew_name_with_digest(ctx, name.as_str(), name_hash, &digest, now)
}

/// How `try_renew_name` takes `before` to `after`, and what it returns.
pub open spec fn try_renew_name_outcome(
    before: RenewName,
    name: Seq<char>,
    name_hash: [u8; 32],
    now: i64,
    after: RenewName,
    res: Option<Result<Vec<Action>, Error>>,
) -> bool {
    match res {
        None => {
            &&& !renew_name_in_range(
                before,
                name,
                name_hash,
                sha256(encode_utf8(name)),
                now,
            )
            &&& after == before
        },
        Some(r) => {
            &&& renew_name_in_range(
                before,
                name,
                name_hash,
                sha256(encode_utf8(name)),
                now,
            )
            &&& renew_name_outcome(
                before,
                name,
                name_hash,
                sha256(encode_utf8(name)),
                now,
                after,
                r,
            )
        },
    }
}

/// `renew_name` for any input: `None` where the new expiry is out of range.
pub fn try_renew_name(
    ctx: &mut RenewName,
    name: String,
    name_hash: [u8; 32],
    now: i64,
) -> (res: Option<Result<Vec<Action>, Error>>)
    ensures
        try_renew_name_outcome(
            *old(ctx),
            name@,
            name_hash,
            now,
            *final(ctx),
            res,
        ),
{
    let digest: [u8; 32] = sha256_of(name.as_str().as_bytes());
    match check_renewal(ctx, name.as_str(), &name_hash, &digest) {
        Ok((_, expiry)) => {
            let base: i64 = if now >= expiry {
                now
            } else {
                expiry
            };
            if base.checked_add(ctx.config.registration_period).is_none() {
                return None;
            }
        },
        Err(_) => {},
    }
    Some(renew_name(ctx, name, name_hash, now))
}

/// Accounts of `release_name`.
#[derive(Debug, PartialEq, Eq)]
pub struct ReleaseName {
    pub name_record: Option<NameRecord>,
    /// The signer.
    pub owner: Pubkey,
}

/// How `release_name` takes `before` to `after`, and what it returns.
pub open spec fn release_name_outcome(
    before: ReleaseName,
    after: ReleaseName,
    res: Result<Vec<Action>, Error>,
) -> bool {
    match res {
        Ok(actions) => {
            &&& owner_refusal(before.name_record, before.owner) is None
            &&& actions@ == seq![Action::Close { record: Record::Name, refund_to: before.owner }]
            &&& after == ReleaseName { name_record: None, ..before }
        },
        Err(e) => {
            &&& owner_refusal(before.name_record, before.owner) == Some(e)
            &&& after == before
        },
    }
}

/// Releases a name that the caller owns: its record is closed, which frees the
/// name for registration, and the rent goes back to the owner.
pub fn release_name(ctx: &mut ReleaseName) -> (res: Result<Vec<Action>, Error>)
    ensures
        release_name_outcome(*old(ctx), *final(ctx), res),
{
    if let Err(e) = check_owner(&ctx.name_record, &ctx.owner) {
        return Err(e);
    }
    ctx.name_record = None;
    let mut actions: Vec<Action> = Vec::new();
    actions.push(Action::Close { record: Record::Name, refund_to: ctx.owner });
    assert(actions@ =~= seq![Action::Close { record: Record::Name, refund_to: old(ctx).owner }]);
    Ok(actions)
}

/// Accounts of the owner's updates of one field.
#[derive(Debug, PartialEq, Eq)]
pub struct UpdateName {
    pub name_record: Option<NameRecord>,
    /// The signer.
    pub owner: Pubkey,
}

/// How `transfer_name` takes `before` to `after`, and what it returns.
pub open spec fn transfer_name_outcome(
    before: UpdateName,
    new_owner: Pubkey,
    after: UpdateName,
    res: Result<(), Error>,
) -> bool {
    match res {
        Ok(_) => {
            &&& owner_refusal(before.name_record, before.owner) is None
            &&& stored(after.name_record) == Some((NameRecordView {
                owner: new_owner,
                ..before.name_record->0@
            }))
            &&& after.owner == before.owner
        },
        Err(e) => {
            &&& owner_refusal(before.name_record, before.owner) == Some(e)
            &&& after == before
        },
    }
}

/// Transfers ownership. Everything else in the record stays.
pub fn transfer_name(ctx: &mut UpdateName, new_owner: Pubkey) -> (res: Result<(), Error>)
    ensures
        stored_is_valid(old(ctx).name_record) ==> stored_is_valid(final(ctx).name_record),
        final(ctx).owner == old(ctx).owner,
        transfer_name_outcome(*old(ctx), new_owner, *final(ctx), res),
{
    if let Err(e) = check_owner(&ctx.name_record, &ctx.owner) {
        return Err(e);
    }
    if let Some(record) = &mut ctx.name_record {
        record.owner = new_owner;
    }
    Ok(())
}

/// How `update_resolver` takes `before` to `after`, and what it returns.
pub open spec fn update_resolver_outcome(
    before: UpdateName,
    new_resolver: Pubkey,
    after: UpdateName,
    res: Result<(), Error>,
) -> bool {
    match res {
        Ok(_) => {
            &&& owner_refusal(before.name_record, before.owner) is None
            &&& stored(after.name_record) == Some((NameRecordView {
                resolver: new_resolver,
                ..before.name_record->0@
            }))
            &&& after.owner == before.owner
        },
        Err(e) => {
            &&& owner_refusal(before.name_record, before.owner) == Some(e)
            &&& after == before
        },
    }
}

/// Changes the wallet or program that a name resolves to. Everything else in the
/// record stays.
pub fn update_resolver(ctx: &mut UpdateName, new_resolver: Pubkey) -> (res: Result<(), Error>)
    ensures
        stored_is_valid(old(ctx).name_record) ==> stored_is_valid(final(ctx).name_record),
        final(ctx).owner == old(ctx).owner,
        update_resolver_outcome(*old(ctx), new_resolver, *final(ctx), res),
{
    if let Err(e) = check_owner(&ctx.name_record, &ctx.owner) {
        return Err(e);
    }
    if let Some(record) = &mut ctx.name_record {
        record.resolver = new_resolver;
    }
    Ok(())
}

/// Why `update_metadata` is refused.
pub open spec fn update_metadata_refusal(ctx: UpdateName, new_uri: Seq<char>) -> Option<Error> {
    let owner = owner_refusal(ctx.name_record, ctx.owner);
    if owner is Some {
        owner
    } else if !uri_fits(new_uri) {
        Some(Error::Naim(NaimError::MetadataUriTooLong))
    } else {
        None
    }
}

/// How `update_metadata` takes `before` to `after`, and what it returns.
pub open spec fn update_metadata_outcome(
    before: UpdateName,
    new_uri: Seq<char>,
    after: UpdateName,
    res: Result<(), Error>,
) -> bool {
    match res {
        Ok(_) => {
            &&& update_metadata_refusal(before, new_uri) is None
            &&& stored(after.name_record) == Some((NameRecordView {
                metadata_uri: new_uri,
                ..before.name_record->0@
            }))
            &&& after.owner == before.owner
        },
        Err(e) => {
            &&& update_metadata_refusal(before, new_uri) == Some(e)
            &&& after == before
        },
    }
}

/// Changes the metadata URI. Everything else in the record stays.
pub fn update_metadata(ctx: &mut UpdateName, new_uri: String) -> (res: Result<(), Error>)
    ensures
        stored_is_valid(old(ctx).name_record) ==> stored_is_valid(final(ctx).name_record),
        final(ctx).owner == old(ctx).owner,
        update_metadata_outcome(*old(ctx), new_uri@, *final(ctx), res),
{
    if let Err(e) = check_owner(&ctx.name_record, &ctx.owner) {
        return Err(e);
    }
    if !check_uri(new_uri.as_str()) {
        return Err(Error::Naim(NaimError::MetadataUriTooLong));
    }
    if let Some(record) = &mut ctx.name_record {
        record.metadata_uri = new_uri;
    }
    Ok(())
}

/// Accounts of `link_wallet`.
#[derive(Debug, PartialEq, Eq)]
pub struct LinkWallet {
    pub name_record: Option<NameRecord>,
    /// The first signer.
    pub owner: Pubkey,
    /// The second signer.
    pub new_wallet: Pubkey,
}

/// Why `link_wallet` is refused.
pub open spec fn link_wallet_refusal(ctx: LinkWallet) -> Option<Error> {
    let owner = owner_refusal(ctx.name_record, ctx.owner);
    let record = ctx.name_record->0@;
    if owner is Some {
        owner
    } else if record.linked_wallets.len() >= MAX_LINKED_WALLETS {
        Some(Error::Naim(NaimError::TooManyLinkedWallets))
    } else if ctx.new_wallet == record.owner || record.linked_wallets.contains(ctx.new_wallet) {
        Some(Error::Naim(NaimError::WalletAlreadyLinked))
    } else {
        None
    }
}

/// Whether `wallets` holds `wallet`.
fn holds(wallets: &Vec<Pubkey>, wallet: &Pubkey) -> (found: bool)
    ensures
        found == wallets@.contains(*wallet),
{
    let mut i: usize = 0;
    while i < wallets.len()
        invariant
            i <= wallets@.len(),
            forall|j: int| 0 <= j < i ==> wallets@[j] != *wallet,
        decreases wallets@.len() - i,
    {
        if wallets[i] == *wallet {
            assert(wallets@[i as int] == *wallet);
            return true;
        }
        i += 1;
    }
    false
}

/// How `link_wallet` takes `before` to `after`, and what it returns.
pub open spec fn link_wallet_outcome(
    before: LinkWallet,
    after: LinkWallet,
    res: Result<(), Error>,
) -> bool {
    match res {
        Ok(_) => {
            &&& link_wallet_refusal(before) is None
            &&& stored(after.name_record) == Some((NameRecordView {
                linked_wallets: before.name_record->0@.linked_wallets.push(
                    before.new_wallet,
                ),
                ..before.name_record->0@
            }))
            &&& after.owner == before.owner
            &&& after.new_wallet == before.new_wallet
        },
        Err(e) => {
            &&& link_wallet_refusal(before) == Some(e)
            &&& after == before
        },
    }
}

/// Adds a secondary wallet to the identity, behind those that it has. Everything
/// else in the record stays.
pub fn link_wallet(ctx: &mut LinkWallet) -> (res: Result<(), Error>)
    ensures
        stored_is_valid(old(ctx).name_record) ==> stored_is_valid(final(ctx).name_record),
        final(ctx).owner == old(ctx).owner,
        final(ctx).new_wallet == old(ctx).new_wallet,
        link_wallet_outcome(*old(ctx), *final(ctx), res),
{
    if let Err(e) = check_owner(&ctx.name_record, &ctx.owner) {
        return Err(e);
    }
    let new_wallet: Pubkey = ctx.new_wallet;
    if let Some(record) = &mut ctx.name_record {
        if record.linked_wallets.len() >= MAX_LINKED_WALLETS {
            return Err(Error::Naim(NaimError::TooManyLinkedWallets));
        }
        if new_wallet == record.owner || holds(&record.linked_wallets, &new_wallet) {
            return Err(Error::Naim(NaimError::WalletAlreadyLinked));
        }
        record.linked_wallets.push(new_wallet);
    }
    Ok(())
}

/// Accounts of `verify_name`.
#[derive(Debug, PartialEq, Eq)]
pub struct VerifyName {
    pub token_config: TokenConfig,
    pub name_record: Option<NameRecord>,
    /// The signer.
    pub owner: Pubkey,
    pub naim_mint: Mint,
    /// Authority of the vault that takes the stakers' share.
    pub stakers_vault: Pubkey,
}

/// Why `verify_name` is refused.
pub open spec fn verify_name_refusal(ctx: VerifyName) -> Option<Error> {
    let owner = owner_refusal(ctx.name_record, ctx.owner);
    if owner is Some {
        owner
    } else if ctx.naim_mint.key != ctx.token_config.naim_mint {
        Some(Error::ConstraintAddress)
    } else if !splits(ctx.token_config, ctx.token_config.verify_fee) {
        Some(Error::Naim(NaimError::InvalidConfig))
    } else {
        None
    }
}

/// How `verify_name` takes `before` to `after`, and what it returns.
pub open spec fn verify_name_outcome(
    before: VerifyName,
    after: VerifyName,
    res: Result<Vec<Action>, Error>,
) -> bool {
    match res {
        Ok(actions) => {
            let fee = before.token_config.verify_fee;
            &&& verify_name_refusal(before) is None
            &&& actions@ == fee_actions(
                before.token_config,
                before.naim_mint,
                before.owner,
                before.stakers_vault,
                fee,
            )
            &&& stored(after.name_record) == Some((NameRecordView {
                verified: true,
                ..before.name_record->0@
            }))
            &&& after == (VerifyName {
                token_config: fee_collected(before.token_config, fee),
                name_record: after.name_record,
                ..before
            })
        },
        Err(e) => {
            &&& verify_name_refusal(before) == Some(e)
            &&& after == before
        },
    }
}

/// Sets the verified flag in exchange for the verification fee. Everything else in
/// the record stays.
pub fn verify_name(ctx: &mut VerifyName) -> (res: Result<Vec<Action>, Error>)
    ensures
        stored_is_valid(old(ctx).name_record) ==> stored_is_valid(final(ctx).name_record),
        verify_name_outcome(*old(ctx), *final(ctx), res),
{
    if let Err(e) = check_owner(&ctx.name_record, &ctx.owner) {
        return Err(e);
    }
    if ctx.naim_mint.key != ctx.token_config.naim_mint {
        return Err(Error::ConstraintAddress);
    }
    let fee: u64 = ctx.token_config.verify_fee;
    let actions: Vec<Action> = match collect_fee(
        &mut ctx.token_config,
        &ctx.naim_mint,
        &ctx.owner,
        &ctx.stakers_vault,
        fee,
    ) {
        Ok(actions) => actions,
        Err(e) => return Err(e),
    };
    if let Some(record) = &mut ctx.name_record {
        record.verified = true;
    }
    Ok(actions)
}

} // verus!
