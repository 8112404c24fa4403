//! Categories, and names minted beneath them.
use vstd::prelude::*;
use vstd::utf8::encode_utf8;

use crate::action::{
    lemma_total_concat, lemma_total_unless_zero, token_given, token_taken, total, unless_zero,
    Action, Mint, Record,
};
use crate::arith::{
    add_capped, bps_share, fits_i64, lemma_bps_share_exact, monus, share_of,
};
use crate::constants::DEFAULT_ROYALTY_BPS;
use crate::digest::{sha256, sha256_of};
use crate::error::{Error, NaimError};
use crate::fees::{
    collect_fee, fee_actions, fee_collected, fee_splits, law_fee_is_conserved,
    law_valid_split_always_collects, splits,
};
use crate::names::{
    directly_under, fee_for, is_directly_under, is_permanent, is_valid_category, is_valid_name,
    permanent_length, tier_fee, validate_category, validate_name,
};
use crate::pubkey::{same_bytes, Pubkey};
use crate::registry::{
    check_hash, check_uri, fresh_record, fresh_reputation, hash_matches, new_expiry,
    release_name_outcome, ReleaseName,
};
use crate::state::{
    stored, uri_fits, CategoryRecord, Config, NameRecord, ReputationRecord, TokenConfig,
};

verus! {

/// Accounts of `register_category`.
#[derive(Clone, Copy, Debug, PartialEq, Eq)]
pub struct RegisterCategory {
    pub token_config: TokenConfig,
    /// The category's record, which must not exist yet.
    pub category_record: Option<CategoryRecord>,
    /// The hash that the record's address is derived from.
    pub category_record_seed: [u8; 32],
    /// The signer.
    pub payer: Pubkey,
    pub naim_mint: Mint,
    /// Authority of the vault that takes the stakers' share.
    pub stakers_vault: Pubkey,
    pub category_record_bump: u8,
}

/// Why `register_category` is refused.
pub open spec fn register_category_refusal(
    ctx: RegisterCategory,
    category: Seq<char>,
    category_hash: [u8; 32],
    digest: Seq<u8>,
) -> Option<Error> {
    if ctx.category_record_seed != category_hash {
        Some(Error::ConstraintSeeds)
    } else if ctx.category_record is Some {
        Some(Error::AccountInUse)
    } else if ctx.naim_mint.key != ctx.token_config.naim_mint {
        Some(Error::ConstraintAddress)
    } else if !is_valid_name(category) {
        Some(Error::Naim(NaimError::InvalidName))
    } else if !is_valid_category(category) || !hash_matches(category_hash, digest) {
        Some(Error::Naim(NaimError::InvalidCategory))
    } else if !splits(ctx.token_config, tier_fee(ctx.token_config, category.len())) {
        Some(Error::Naim(NaimError::InvalidConfig))
    } else {
        None
    }
}

/// How `register_category` takes `before` to `after`, and what it returns: the
/// payer owns the category and earns the default royalty.
pub open spec fn register_category_outcome(
    before: RegisterCategory,
    category: Seq<char>,
    category_hash: [u8; 32],
    digest: Seq<u8>,
    after: RegisterCategory,
    res: Result<Vec<Action>, Error>,
) -> bool {
    match res {
        Ok(actions) => {
            let fee = tier_fee(before.token_config, category.len());
            &&& register_category_refusal(before, category, category_hash, digest) is None
            &&& actions@ == fee_actions(
                before.token_config,
                before.naim_mint,
                before.payer,
                before.stakers_vault,
                fee,
            )
            &&& after == RegisterCategory {
                token_config: fee_collected(before.token_config, fee),
                category_record: Some(CategoryRecord {
                    owner: before.payer,
                    royalty_bps: DEFAULT_ROYALTY_BPS,
                    sub_count: 0,
                    total_earned: 0,
                    bump: before.category_record_bump,
                }),
                ..before
            }
        },
        Err(e) => {
            &&& register_category_refusal(before, category, category_hash, digest) == Some(e)
            &&& after == before
        },
    }
}

/// Registers a category, given the digest of its text. Collects the tier fee.
pub fn register_category_with_digest(
    ctx: &mut RegisterCategory,
    category: &str,
    category_hash: [u8; 32],
    digest: &[u8; 32],
) -> (res: Result<Vec<Action>, Error>)
    ensures
        register_category_outcome(
            *old(ctx),
            category@,
            category_hash,
            digest@,
            *final(ctx),
            res,
        ),
{
    if !same_bytes(&ctx.category_record_seed, &category_hash) {
        return Err(Error::ConstraintSeeds);
    }
    if ctx.category_record.is_some() {
        return Err(Error::AccountInUse);
    }
    if ctx.naim_mint.key != ctx.token_config.naim_mint {
        return Err(Error::ConstraintAddress);
    }
    let len: usize = match validate_category(category) {
        Ok(len) => len,
        Err(e) => return Err(e),
    };
    if !check_hash(&category_hash, digest) {
        return Err(Error::Naim(NaimError::InvalidCategory));
    }
    let fee: u64 = fee_for(&ctx.token_config, len);
    let actions: Vec<Action> = match collect_fee(
        &mut ctx.token_config,
        &ctx.naim_mint,
        &ctx.payer,
        &ctx.stakers_vault,
        fee,
    ) {
        Ok(actions) => actions,
        Err(e) => return Err(e),
    };
    ctx.category_record = Some(CategoryRecord {
        owner: ctx.payer,
        royalty_bps: DEFAULT_ROYALTY_BPS,
        sub_count: 0,
        total_earned: 0,
        bump: ctx.category_record_bump,
    });
    Ok(actions)
}

/// How `register_category` takes `before` to `after`, and what it returns, on the digest that
/// it computes.
pub open spec fn register_category_hashed_outcome(
    before: RegisterCategory,
    category: Seq<char>,
    category_hash: [u8; 32],
    after: RegisterCategory,
    res: Result<Vec<Action>, Error>,
) -> bool {
    register_category_outcome(
        before,
        category,
        category_hash,
        sha256(encode_utf8(category)),
        after,
        res,
    )
}

/// Registers a category: `register_category_with_digest` on the SHA-256 digest of
/// the category.
pub fn register_category(
    ctx: &mut RegisterCategory,
    category: String,
    category_hash: [u8; 32],
) -> (res: Result<Vec<Action>, Error>)
    ensures
        register_category_hashed_outcome(
            *old(ctx),
            category@,
            category_hash,
            *final(ctx),
            res,
        ),
{
    let digest: [u8; 32] = sha256_of(category.as_str().as_bytes());
    register_category_with_digest(ctx, category.as_str(), category_hash, &digest)
}

/// Accounts of `register_under_category`.
#[derive(Debug, PartialEq, Eq)]
pub struct RegisterUnderCategory {
    pub config: Config,
    pub token_config: TokenConfig,
    /// The name's record, which must not exist yet.
    pub name_record: Option<NameRecord>,
    /// The hash that the name record's address is derived from.
    pub name_record_seed: [u8; 32],
    pub reputation_record: ReputationRecord,
    /// The hash that the reputation record's address is derived from.
    pub reputation_record_seed: [u8; 32],
    pub category: Option<CategoryRecord>,
    /// The hash that the category's address is derived from.
    pub category_seed: [u8; 32],
    /// Recipient of the royalty.
    pub category_owner: Pubkey,
    /// The signer.
    pub payer: Pubkey,
    pub naim_mint: Mint,
    /// Authority of the vault that takes the stakers' share.
    pub stakers_vault: Pubkey,
    pub name_record_bump: u8,
    pub reputation_record_bump: u8,
}

impl RegisterUnderCategory {
    /// What a name of this length costs.
    pub open spec fn fee(self, char_len: nat) -> u64 {
        tier_fee(self.token_config, char_len)
    }

    /// The category owner's part of the fee.
    pub open spec fn royalty(self, char_len: nat) -> u64 {
        bps_share(self.fee(char_len), self.category->0.royalty_bps)
    }

    /// What is left of the fee to split.
    pub open spec fn remainder(self, char_len: nat) -> u64 {
        monus(self.fee(char_len) as int, self.royalty(char_len) as int) as u64
    }
}

/// What a caller asks of `register_under_category`.
#[verifier::ext_equal]
pub struct SubNameRequest {
    pub name: Seq<char>,
    pub name_hash: [u8; 32],
    pub parent: Seq<char>,
    pub parent_hash: [u8; 32],
    pub uri: Seq<char>,
}

/// Why `register_under_category` is refused.
pub open spec fn register_under_category_refusal(
    ctx: RegisterUnderCategory,
    request: SubNameRequest,
    name_digest: Seq<u8>,
    parent_digest: Seq<u8>,
) -> Option<Error> {
    if ctx.category is None {
        Some(Error::AccountNotInitialized)
    } else if ctx.name_record_seed != request.name_hash {
        Some(Error::ConstraintSeeds)
    } else if ctx.name_record is Some {
        Some(Error::AccountInUse)
    } else if ctx.reputation_record_seed != request.name_hash || ctx.category_seed
        != request.parent_hash {
        Some(Error::ConstraintSeeds)
    } else if ctx.category_owner != ctx.category->0.owner {
        Some(Error::Naim(NaimError::Unauthorized))
    } else if ctx.naim_mint.key != ctx.token_config.naim_mint {
        Some(Error::ConstraintAddress)
    } else if !is_valid_name(request.name) || !hash_matches(request.name_hash, name_digest) {
        Some(Error::Naim(NaimError::InvalidName))
    } else if !hash_matches(request.parent_hash, parent_digest) {
        Some(Error::Naim(NaimError::InvalidCategory))
    } else if !directly_under(request.name, request.parent) {
        Some(Error::Naim(NaimError::NotUnderCategory))
    } else if !uri_fits(request.uri) {
        Some(Error::Naim(NaimError::MetadataUriTooLong))
    } else if !splits(ctx.token_config, ctx.remainder(request.name.len())) {
        Some(Error::Naim(NaimError::InvalidConfig))
    } else {
        None
    }
}

/// Whether the expiry of an accepted `register_under_category` is in range.
pub open spec fn register_under_category_in_range(
    ctx: RegisterUnderCategory,
    request: SubNameRequest,
    name_digest: Seq<u8>,
    parent_digest: Seq<u8>,
    now: i64,
) -> bool {
    register_under_category_refusal(ctx, request, name_digest, parent_digest) is None
        && !permanent_length(request.name.len()) ==> fits_i64(now + ctx.config.registration_period)
}

/// What `register_under_category` moves: the royalty to the category owner, then
/// the legs of the remaining fee.
pub open spec fn register_under_category_actions(
    ctx: RegisterUnderCategory,
    char_len: nat,
) -> Seq<Action> {
    unless_zero(
        ctx.royalty(char_len),
        Action::TransferToken {
            mint: ctx.naim_mint.key,
            from: ctx.payer,
            to: ctx.category_owner,
            amount: ctx.royalty(char_len),
            decimals: ctx.naim_mint.decimals,
            signer: None,
        },
    ) + fee_actions(
        ctx.token_config,
        ctx.naim_mint,
        ctx.payer,
        ctx.stakers_vault,
        ctx.remainder(char_len),
    )
}

/// How `register_under_category` takes `before` to `after`, and what it returns.
pub open spec fn register_under_category_outcome(
    before: RegisterUnderCategory,
    request: SubNameRequest,
    name_digest: Seq<u8>,
    parent_digest: Seq<u8>,
    now: i64,
    after: RegisterUnderCategory,
    res: Result<Vec<Action>, Error>,
) -> bool {
    let len = request.name.len();
    match res {
        Ok(actions) => {
            &&& register_under_category_refusal(before, request, name_digest, parent_digest) is None
            &&& actions@ == register_under_category_actions(before, len)
            &&& stored(after.name_record) == Some(
                fresh_record(
                    before.payer,
                    request.uri,
                    new_expiry(len, now, before.config.registration_period),
                    before.name_record_bump,
                ),
            )
            &&& after == RegisterUnderCategory {
                token_config: fee_collected(before.token_config, before.remainder(len)),
                name_record: after.name_record,
                reputation_record: fresh_reputation(
                    request.name_hash,
                    now,
                    before.reputation_record_bump,
                ),
                category: Some(
                    CategoryRecord {
                        sub_count: add_capped(before.category->0.sub_count, 1),
                        total_earned: add_capped(
                            before.category->0.total_earned,
                            before.royalty(len),
                        ),
                        ..before.category->0
                    },
                ),
                ..before
            }
        },
        Err(e) => {
            &&& register_under_category_refusal(before, request, name_digest, parent_digest)
                == Some(e)
            &&& after == before
        },
    }
}

/// Checks a request for a name beneath a category; returns the name's length in
/// characters and the category's record.
fn check_sub_name(
    ctx: &RegisterUnderCategory,
    name: &str,
    name_hash: &[u8; 32],
    parent: &str,
    parent_hash: &[u8; 32],
    metadata_uri: &str,
    name_digest: &[u8; 32],
    parent_digest: &[u8; 32],
) -> (res: Result<(usize, CategoryRecord), Error>)
    ensures
        ({
            let request = SubNameRequest {
                name: name@,
                name_hash: *name_hash,
                parent: parent@,
                parent_hash: *parent_hash,
                uri: metadata_uri@,
            };
            match res {
                Ok((len, category)) => {
                    &&& register_under_category_refusal(
                        *ctx,
                        request,
                        name_digest@,
                        parent_digest@,
                    ) is None
                    &&& len == name@.len()
                    &&& ctx.category == Some(category)
                },
                Err(e) => register_under_category_refusal(
                    *ctx,
                    request,
                    name_digest@,
                    parent_digest@,
                ) == Some(e),
            }
        }),
{
    let category: CategoryRecord = match ctx.category {
        Some(category) => category,
        None => return Err(Error::AccountNotInitialized),
    };
    if !same_bytes(&ctx.name_record_seed, name_hash) {
        return Err(Error::ConstraintSeeds);
    }
    if ctx.name_record.is_some() {
        return Err(Error::AccountInUse);
    }
    if !same_bytes(&ctx.reputation_record_seed, name_hash) || !same_bytes(
        &ctx.category_seed,
        parent_hash,
    ) {
        return Err(Error::ConstraintSeeds);
    }
    if ctx.category_owner != category.owner {
        return Err(Error::Naim(NaimError::Unauthorized));
    }
    if ctx.naim_mint.key != ctx.token_config.naim_mint {
        return Err(Error::ConstraintAddress);
    }
    let len: usize = match validate_name(name) {
        Ok(len) => len,
        Err(e) => return Err(e),
    };
    if !check_hash(name_hash, name_digest) {
        return Err(Error::Naim(NaimError::InvalidName));
    }
    if !check_hash(parent_hash, parent_digest) {
        return Err(Error::Naim(NaimError::InvalidCategory));
    }
    if !is_directly_under(name, parent) {
        return Err(Error::Naim(NaimError::NotUnderCategory));
    }
    if !check_uri(metadata_uri) {
        return Err(Error::Naim(NaimError::MetadataUriTooLong));
    }
    let fee: u64 = fee_for(&ctx.token_config, len);
    let royalty: u64 = share_of(fee, category.royalty_bps);
    if !fee_splits(&ctx.token_config, fee.saturating_sub(royalty)) {
        return Err(Error::Naim(NaimError::InvalidConfig));
    }
    Ok((len, category))
}

/// Registers a name directly under a category, given the digests of both texts.
/// Routes the royalty to the category owner; the remainder of the fee is split.
pub fn register_under_category_with_digests(
    ctx: &mut RegisterUnderCategory,
    name: &str,
    name_hash: [u8; 32],
    parent: &str,
    parent_hash: [u8; 32],
    metadata_uri: String,
    name_digest: &[u8; 32],
    parent_digest: &[u8; 32],
    now: i64,
) -> (res: Result<Vec<Action>, Error>)
    requires
        register_under_category_in_range(
            *old(ctx),
            (SubNameRequest {
                name: name@,
                name_hash,
                parent: parent@,
                parent_hash,
                uri: metadata_uri@,
            }),
            name_digest@,
            parent_digest@,
            now,
        ),
    ensures
        register_under_category_outcome(
            *old(ctx),
            (SubNameRequest {
                name: name@,
                name_hash,
                parent: parent@,
                parent_hash,
                uri: metadata_uri@,
            }),
            name_digest@,
            parent_digest@,
            now,
            *final(ctx),
            res,
        ),
{
    let (len, category): (usize, CategoryRecord) = match check_sub_name(
        ctx,
        name,
        &name_hash,
        parent,
        &parent_hash,
        metadata_uri.as_str(),
        name_digest,
        parent_digest,
    ) {
        Ok(checked) => checked,
        Err(e) => return Err(e),
    };
    let fee: u64 = fee_for(&ctx.token_config, len);
    let royalty: u64 = share_of(fee, category.royalty_bps);
    let rem: u64 = fee.saturating_sub(royalty);
    let mut actions: Vec<Action> = Vec::new();
    if royalty > 0 {
        actions.push(
            Action::TransferToken {
                mint: ctx.naim_mint.key,
                from: ctx.payer,
                to: ctx.category_owner,
                amount: royalty,
                decimals: ctx.naim_mint.decimals,
                signer: None,
            },
        );
    }
    let mut legs: Vec<Action> = match collect_fee(
        &mut ctx.token_config,
        &ctx.naim_mint,
        &ctx.payer,
        &ctx.stakers_vault,
        rem,
    ) {
        Ok(legs) => legs,
        Err(e) => return Err(e),
    };
    actions.append(&mut legs);
    assert(actions@ =~= register_under_category_actions(*old(ctx), name@.len()));
    ctx.category = Some(CategoryRecord {
        sub_count: category.sub_count.saturating_add(1),
        total_earned: category.total_earned.saturating_add(royalty),
        ..category
    });
    let expiry_timestamp: i64 = if is_permanent(len) {
        0
    } else {
        now + ctx.config.registration_period
    };
    ctx.name_record = Some(NameRecord {
        owner: ctx.payer,
        resolver: ctx.payer,
        metadata_uri,
        expiry_timestamp,
        verified: false,
        linked_wallets: Vec::new(),
        bump: ctx.name_record_bump,
    });
    ctx.reputation_record = ReputationRecord {
        name_hash,
        created_at: now,
        renew_count: 0,
        bump: ctx.reputation_record_bump,
    };
    Ok(actions)
}

/// How `register_under_category` takes `before` to `after`, and what it returns, on the digest that
/// it computes.
pub open spec fn register_under_category_hashed_outcome(
    before: RegisterUnderCategory,
    request: SubNameRequest,
    now: i64,
    after: RegisterUnderCategory,
    res: Result<Vec<Action>, Error>,
) -> bool {
    register_under_category_outcome(
        before,
        request,
        sha256(encode_utf8(request.name)),
        sha256(encode_utf8(request.parent)),
        now,
        after,
        res,
    )
}

/// Registers a name directly under a category:
/// `register_under_category_with_digests` on the SHA-256 digests of both texts.
pub fn register_under_category(
    ctx: &mut RegisterUnderCategory,
    name: String,
    name_hash: [u8; 32],
    parent: String,
    parent_hash: [u8; 32],
    metadata_uri: String,
    now: i64,
) -> (res: Result<Vec<Action>, Error>)
    requires
        register_under_category_in_range(
            *old(ctx),
            (SubNameRequest {
                name: name@,
                name_hash,
                parent: parent@,
                parent_hash,
                uri: metadata_uri@,
            }),
            sha256(encode_utf8(name@)),
            sha256(encode_utf8(parent@)),
            now,
        ),
    ensures
        register_under_category_hashed_outcome(
            *old(ctx),
            (SubNameRequest {
                name: name@,
                name_hash,
                parent: parent@,
                parent_hash,
                uri: metadata_uri@,
            }),
            now,
            *final(ctx),
            res,
        ),
{
    let name_digest: [u8; 32] = sha256_of(name.as_str().as_bytes());
    let parent_digest: [u8; 32] = sha256_of(parent.as_str().as_bytes());
    register_under_category_with_digests(
        ctx,
        name.as_str(),
        name_hash,
        parent.as_str(),
        parent_hash,
        metadata_uri,
        &name_digest,
        &parent_digest,
        now,
    )
}

/// How `try_register_under_category` takes `before` to `after`, and what it returns.
pub open spec fn try_register_under_category_outcome(
    before: RegisterUnderCategory,
    request: SubNameRequest,
    now: i64,
    after: RegisterUnderCategory,
    res: Option<Result<Vec<Action>, Error>>,
) -> bool {
    match res {
        None => {
            &&& !register_under_category_in_range(
                before,
                request,
                sha256(encode_utf8(request.name)),
                sha256(encode_utf8(request.parent)),
                now,
            )
            &&& after == before
        },
        Some(r) => {
            &&& register_under_category_in_range(
                before,
                request,
                sha256(encode_utf8(request.name)),
                sha256(encode_utf8(request.parent)),
                now,
            )
            &&& register_under_category_outcome(
                before,
                request,
                sha256(encode_utf8(request.name)),
                sha256(encode_utf8(request.parent)),
                now,
                after,
                r,
            )
        },
    }
}

/// `register_under_category` for any input: `None` where the expiry is out of
/// range.
pub fn try_register_under_category(
    ctx: &mut RegisterUnderCategory,
    name: String,
    name_hash: [u8; 32],
    parent: String,
    parent_hash: [u8; 32],
    metadata_uri: String,
    now: i64,
) -> (res: Option<Result<Vec<Action>, Error>>)
    ensures
        try_register_under_category_outcome(
            *old(ctx),
            (SubNameRequest {
                name: name@,
                name_hash,
                parent: parent@,
                parent_hash,
                uri: metadata_uri@,
            }),
            now,
            *final(ctx),
            res,
        ),
{
    let name_digest: [u8; 32] = sha256_of(name.as_str().as_bytes());
    let parent_digest: [u8; 32] = sha256_of(parent.as_str().as_bytes());
    match check_sub_name(
        ctx,
        name.as_str(),
        &name_hash,
        parent.as_str(),
        &parent_hash,
        metadata_uri.as_str(),
        &name_digest,
        &parent_digest,
    ) {
        Ok((len, _)) => if !is_permanent(len) && now.checked_add(
            ctx.config.registration_period,
        ).is_none() {
            return None;
        },
        Err(_) => {},
    }
    Some(register_under_category(ctx, name, name_hash, parent, parent_hash, metadata_uri, now))
}

/// Why an instruction on a category is refused whose signer must own it.
pub open spec fn category_owner_refusal(
    record: Option<CategoryRecord>,
    signer: Pubkey,
) -> Option<Error> {
    match record {
        None => Some(Error::AccountNotInitialized),
        Some(r) => if r.owner != signer {
            Some(Error::Naim(NaimError::Unauthorized))
        } else {
            None
        },
    }
}

/// Checks that the category exists and that the signer owns it; returns its
/// record.
fn owned_category(record: &Option<CategoryRecord>, signer: &Pubkey) -> (res: Result<
    CategoryRecord,
    Error,
>)
    ensures
        match res {
            Ok(r) => category_owner_refusal(*record, *signer) is None && *record == Some(r),
            Err(e) => category_owner_refusal(*record, *signer) == Some(e),
        },
{
    match record {
        None => Err(Error::AccountNotInitialized),
        Some(r) => if r.owner != *signer {
            Err(Error::Naim(NaimError::Unauthorized))
        } else {
            Ok(*r)
        },
    }
}

/// Accounts of `transfer_category`.
#[derive(Clone, Copy, Debug, PartialEq, Eq)]
pub struct UpdateCategory {
    pub category_record: Option<CategoryRecord>,
    /// The signer.
    pub owner: Pubkey,
}

/// How `transfer_category` takes `before` to `after`, and what it returns.
pub open spec fn transfer_category_outcome(
    before: UpdateCategory,
    new_owner: Pubkey,
    after: UpdateCategory,
    res: Result<(), Error>,
) -> bool {
    match res {
        Ok(_) => {
            &&& category_owner_refusal(before.category_record, before.owner) is None
            &&& after == (UpdateCategory {
                category_record: Some(CategoryRecord {
                    owner: new_owner,
                    ..before.category_record->0
                }),
                ..before
            })
        },
        Err(e) => {
            &&& category_owner_refusal(before.category_record, before.owner) == Some(e)
            &&& after == before
        },
    }
}

/// Transfers a category, and with it the royalty stream. Everything else in the
/// record stays.
pub fn transfer_category(ctx: &mut UpdateCategory, new_owner: Pubkey) -> (res: Result<(), Error>)
    ensures
        transfer_category_outcome(*old(ctx), new_owner, *final(ctx), res),
{
    match owned_category(&ctx.category_record, &ctx.owner) {
        Ok(record) => {
            ctx.category_record = Some(CategoryRecord { owner: new_owner, ..record });
            Ok(())
        },
        Err(e) => Err(e),
    }
}

/// Accounts of `close_category`.
#[derive(Clone, Copy, Debug, PartialEq, Eq)]
pub struct CloseCategory {
    pub category_record: Option<CategoryRecord>,
    /// The signer.
    pub owner: Pubkey,
}

/// How `close_category` takes `before` to `after`, and what it returns.
pub open spec fn close_category_outcome(
    before: CloseCategory,
    after: CloseCategory,
    res: Result<Vec<Action>, Error>,
) -> bool {
    match res {
        Ok(actions) => {
            &&& category_owner_refusal(before.category_record, before.owner) is None
            &&& actions@ == seq![
                Action::Close { record: Record::Category, refund_to: before.owner },
            ]
            &&& after == CloseCategory { category_record: None, ..before }
        },
        Err(e) => {
            &&& category_owner_refusal(before.category_record, before.owner) == Some(e)
            &&& after == before
        },
    }
}

/// Closes a category that the caller owns: its record is gone and the rent goes
/// back to the owner. Names already minted beneath it are untouched.
pub fn close_category(ctx: &mut CloseCategory) -> (res: Result<Vec<Action>, Error>)
    ensures
        close_category_outcome(*old(ctx), *final(ctx), res),
{
    if let Err(e) = owned_category(&ctx.category_record, &ctx.owner) {
        return Err(e);
    }
    ctx.category_record = None;
    let mut actions: Vec<Action> = Vec::new();
    actions.push(Action::Close { record: Record::Category, refund_to: ctx.owner });
    assert(actions@ =~= seq![
        Action::Close { record: Record::Category, refund_to: old(ctx).owner },
    ]);
    Ok(actions)
}

/// The fee of a name beneath a category is charged in full and nothing more: the
/// royalty goes to the category owner, and the payer is debited exactly the fee.
pub proof fn law_sub_name_fee_is_conserved(ctx: RegisterUnderCategory, char_len: nat)
    requires
        ctx.category->0.royalty_bps <= 10_000,
        splits(ctx.token_config, ctx.remainder(char_len)),
    ensures
        ctx.royalty(char_len) == ctx.fee(char_len) * ctx.category->0.royalty_bps / 10_000,
        ctx.royalty(char_len) + ctx.remainder(char_len) == ctx.fee(char_len),
        total(
            register_under_category_actions(ctx, char_len),
            |a: Action| token_taken(a, ctx.naim_mint.key, ctx.payer),
        ) == ctx.fee(char_len),
        total(
            register_under_category_actions(ctx, char_len),
            |a: Action| token_given(a, ctx.naim_mint.key, ctx.category_owner),
        ) >= ctx.royalty(char_len),
{
    let royalty = ctx.royalty(char_len);
    let rem = ctx.remainder(char_len);
    lemma_bps_share_exact(ctx.fee(char_len), ctx.category->0.royalty_bps);
    law_fee_is_conserved(ctx.token_config, ctx.naim_mint, ctx.payer, ctx.stakers_vault, rem);
    let action = Action::TransferToken {
        mint: ctx.naim_mint.key,
        from: ctx.payer,
        to: ctx.category_owner,
        amount: royalty,
        decimals: ctx.naim_mint.decimals,
        signer: None,
    };
    let legs = fee_actions(ctx.token_config, ctx.naim_mint, ctx.payer, ctx.stakers_vault, rem);
    let taken = |a: Action| token_taken(a, ctx.naim_mint.key, ctx.payer);
    let given = |a: Action| token_given(a, ctx.naim_mint.key, ctx.category_owner);
    lemma_total_concat(unless_zero(royalty, action), legs, taken);
    lemma_total_unless_zero(royalty, action, taken);
    lemma_total_concat(unless_zero(royalty, action), legs, given);
    lemma_total_unless_zero(royalty, action, given);
}

/// A category earns its owner five percent of the fee on every name minted beneath
/// it, from the day that it is registered.
pub proof fn law_new_categories_earn_five_percent(
    before: RegisterCategory,
    category: Seq<char>,
    category_hash: [u8; 32],
    digest: Seq<u8>,
    after: RegisterCategory,
    res: Result<Vec<Action>, Error>,
    ctx: RegisterUnderCategory,
    char_len: nat,
)
    requires
        register_category_outcome(before, category, category_hash, digest, after, res),
        res is Ok,
        after.category_record == ctx.category,
    ensures
        ctx.royalty(char_len) == ctx.fee(char_len) * 5 / 100,
        ctx.category->0.owner == before.payer,
{
    lemma_bps_share_exact(ctx.fee(char_len), 500);
}

/// Under a valid split a name beneath a category is never refused for its fee.
pub proof fn law_valid_split_never_refuses_sub_names(
    ctx: RegisterUnderCategory,
    request: SubNameRequest,
    name_digest: Seq<u8>,
    parent_digest: Seq<u8>,
)
    requires
        ctx.token_config.is_valid(),
    ensures
        register_under_category_refusal(ctx, request, name_digest, parent_digest) != Some(
            Error::Naim(NaimError::InvalidConfig),
        ),
{
    law_valid_split_always_collects(
        ctx.token_config,
        ctx.remainder(request.name.len()),
    );
}

/// A name minted beneath a category gets a valid record, which no other
/// registration beneath a category can overwrite; a valid fee split stays valid.
pub proof fn law_sub_name_keeps_records_valid(
    before: RegisterUnderCategory,
    request: SubNameRequest,
    name_digest: Seq<u8>,
    parent_digest: Seq<u8>,
    now: i64,
    after: RegisterUnderCategory,
    res: Result<Vec<Action>, Error>,
    next: SubNameRequest,
    next_name_digest: Seq<u8>,
    next_parent_digest: Seq<u8>,
)
    requires
        register_under_category_outcome(
            before,
            request,
            name_digest,
            parent_digest,
            now,
            after,
            res,
        ),
        res is Ok,
    ensures
        stored(after.name_record) matches Some(record) && record.is_valid(),
        before.token_config.is_valid() ==> after.token_config.is_valid(),
        register_under_category_refusal(after, next, next_name_digest, next_parent_digest) is Some,
{
}

/// Nothing is minted beneath a category that was closed, nor can it be transferred
/// or closed again; its name is free to be registered anew.
pub proof fn law_closed_categories_are_gone(
    before: CloseCategory,
    after: CloseCategory,
    res: Result<Vec<Action>, Error>,
    sub: RegisterUnderCategory,
    request: SubNameRequest,
    name_digest: Seq<u8>,
    parent_digest: Seq<u8>,
    signer: Pubkey,
    again: RegisterCategory,
    category: Seq<char>,
    category_hash: [u8; 32],
    digest: Seq<u8>,
)
    requires
        close_category_outcome(before, after, res),
        res is Ok,
    ensures
        sub.category == after.category_record ==> register_under_category_refusal(
            sub,
            request,
            name_digest,
            parent_digest,
        ) == Some(Error::AccountNotInitialized),
        category_owner_refusal(after.category_record, signer) == Some(
            Error::AccountNotInitialized,
        ),
        again.category_record == after.category_record ==> {
            let refusal = register_category_refusal(again, category, category_hash, digest);
            &&& refusal != Some(Error::AccountInUse)
            &&& again.category_record_seed == category_hash && again.naim_mint.key
                == again.token_config.naim_mint && is_valid_category(category) && hash_matches(
                category_hash,
                digest,
            ) && again.token_config.is_valid() ==> refusal is None
        },
{
    if again.token_config.is_valid() {
        law_valid_split_always_collects(
            again.token_config,
            tier_fee(again.token_config, category.len()),
        );
    }
}

/// A name that was released is free to be registered beneath a category, too.
pub proof fn law_released_names_are_free_for_categories(
    before: ReleaseName,
    after: ReleaseName,
    res: Result<Vec<Action>, Error>,
    ctx: RegisterUnderCategory,
    request: SubNameRequest,
    name_digest: Seq<u8>,
    parent_digest: Seq<u8>,
)
    requires
        release_name_outcome(before, after, res),
        res is Ok,
        ctx.name_record == after.name_record,
    ensures
        register_under_category_refusal(ctx, request, name_digest, parent_digest) != Some(
            Error::AccountInUse,
        ),
{
}

} // verus!
