//! What holds of a name over its life: who can take it, and when.
use vstd::prelude::*;
use vstd::utf8::encode_utf8;

use crate::action::{token_taken, total, Action, Record};
use crate::digest::sha256;
use crate::error::{Error, NaimError};
use crate::fee_laws::{law_discount_is_exact, law_fee_follows_length, lemma_fee_is_charged};
use crate::fees::splits;
use crate::ledger::{
    charges, divides, lemma_charges_take_the_fee, reads, rebate, tariff,
};
use crate::name_laws::{law_name_grammar, spells_a_name};
use crate::names::{is_valid_name, permanent_length, tier_fee};
use crate::pubkey::Pubkey;
use crate::registry::{
    link_wallet_outcome, link_wallet_refusal, owner_refusal, register_name_hashed_outcome,
    register_name_in_range, renew_name_hashed_outcome, try_register_name_outcome,
    try_renew_name_outcome,
    register_name_outcome, register_name_refusal, register_request_refusal, release_name_outcome,
    renew_name_in_range, renew_name_outcome, renew_name_refusal, transfer_name_outcome,
    update_metadata_outcome, update_metadata_refusal, update_resolver_outcome,
    verify_name_outcome, verify_name_refusal, LinkWallet, RegisterName, ReleaseName, RenewName,
    UpdateName, VerifyName,
};
use crate::state::{stored, stored_is_valid, ReputationRecord};

verus! {

/// Names of 1 to 4 characters are permanent, and longer ones expire one
/// registration period from now.
pub proof fn law_expiry_follows_length(
    before: RegisterName,
    name: Seq<char>,
    name_hash: [u8; 32],
    uri: Seq<char>,
    digest: Seq<u8>,
    now: i64,
    after: RegisterName,
    res: Result<Vec<Action>, Error>,
)
    requires
        register_name_in_range(before, name, name_hash, uri, digest, now),
        register_name_outcome(before, name, name_hash, uri, digest, now, after, res),
        res is Ok,
    ensures
        after.name_record is Some,
        name.len() <= 4 ==> after.name_record->0.expiry_timestamp == 0,
        name.len() > 4 ==> after.name_record->0.expiry_timestamp == now
            + before.config.registration_period,
{
    assert(after.name_record->0@.expiry_timestamp == after.name_record->0.expiry_timestamp);
}

/// A permanent name that someone holds can be neither taken over nor renewed, at
/// any time and by anyone.
pub proof fn law_permanent_names_are_held_for_good(
    reg: RegisterName,
    renewal: RenewName,
    name: Seq<char>,
    name_hash: [u8; 32],
    uri: Seq<char>,
    digest: Seq<u8>,
    now: i64,
)
    ensures
        reg.name_record matches Some(record) && !record@.is_vacant() && record.expiry_timestamp
            == 0 ==> {
            &&& register_name_refusal(reg, name, name_hash, uri, digest, now) is Some
            &&& register_request_refusal(reg, name, name_hash, uri, digest) is None
                ==> register_name_refusal(reg, name, name_hash, uri, digest, now) == Some(
                Error::Naim(NaimError::NameAlreadyRegistered),
            )
        },
        renewal.name_record matches Some(record) && record.expiry_timestamp == 0 ==> renew_name_refusal(
            renewal,
            name,
            name_hash,
            digest,
        ) is Some,
{
}

/// A held name that expires can be taken over only once its expiry and its grace
/// period have both passed.
pub proof fn law_takeover_waits_for_grace(
    ctx: RegisterName,
    name: Seq<char>,
    name_hash: [u8; 32],
    uri: Seq<char>,
    digest: Seq<u8>,
    now: i64,
)
    requires
        ctx.name_record matches Some(record) && !record@.is_vacant(),
        register_name_refusal(ctx, name, name_hash, uri, digest, now) is None,
    ensures
        ctx.name_record->0.expiry_timestamp != 0,
        now >= ctx.name_record->0.expiry_timestamp + ctx.config.grace_period,
{
}

/// A registered name is the payer's alone: until its expiry and grace period have
/// passed, which for a permanent name is never, every further registration is
/// refused.
pub proof fn law_registration_is_exclusive(
    before: RegisterName,
    name: Seq<char>,
    name_hash: [u8; 32],
    uri: Seq<char>,
    digest: Seq<u8>,
    now: i64,
    after: RegisterName,
    res: Result<Vec<Action>, Error>,
    next: RegisterName,
    next_name: Seq<char>,
    next_uri: Seq<char>,
    next_digest: Seq<u8>,
    later: i64,
)
    requires
        register_name_in_range(before, name, name_hash, uri, digest, now),
        register_name_outcome(before, name, name_hash, uri, digest, now, after, res),
        res is Ok,
        !before.payer.is_zero(),
        stored(next.name_record) == stored(after.name_record),
        next.config == before.config,
        permanent_length(name.len()) || later < now + before.config.registration_period
            + before.config.grace_period,
    ensures
        register_name_refusal(next, next_name, name_hash, next_uri, next_digest, later) is Some,
{
    assert(next.name_record->0@.owner == before.payer);
    assert(next.name_record->0@.expiry_timestamp == after.name_record->0@.expiry_timestamp);
}

/// A name that was released is free: whoever asks for it next is not told that it
/// is taken, and under a valid split gets it.
pub proof fn law_released_names_are_free(
    before: ReleaseName,
    after: ReleaseName,
    res: Result<Vec<Action>, Error>,
    ctx: RegisterName,
    name: Seq<char>,
    name_hash: [u8; 32],
    uri: Seq<char>,
    digest: Seq<u8>,
    now: i64,
)
    requires
        release_name_outcome(before, after, res),
        res is Ok,
        ctx.name_record == after.name_record,
    ensures
        register_name_refusal(ctx, name, name_hash, uri, digest, now) != Some(
            Error::Naim(NaimError::NameAlreadyRegistered),
        ),
        register_request_refusal(ctx, name, name_hash, uri, digest) is None
            && ctx.token_config.is_valid() ==> register_name_refusal(
            ctx,
            name,
            name_hash,
            uri,
            digest,
            now,
        ) is None,
{
    if ctx.token_config.is_valid() {
        crate::fees::law_valid_split_always_collects(ctx.token_config, ctx.fee(name.len()));
    }
}

/// A name that does not exist, as after its release, can be neither renewed nor
/// changed by anyone.
pub proof fn law_missing_names_cannot_be_changed(
    renewal: RenewName,
    release: ReleaseName,
    update: UpdateName,
    link: LinkWallet,
    verify: VerifyName,
    name: Seq<char>,
    name_hash: [u8; 32],
    uri: Seq<char>,
    digest: Seq<u8>,
)
    ensures
        renewal.name_record is None ==> renew_name_refusal(renewal, name, name_hash, digest)
            == Some(Error::AccountNotInitialized),
        release.name_record is None ==> owner_refusal(release.name_record, release.owner) == Some(
            Error::AccountNotInitialized,
        ),
        update.name_record is None ==> {
            &&& owner_refusal(update.name_record, update.owner) == Some(
                Error::AccountNotInitialized,
            )
            &&& update_metadata_refusal(update, uri) == Some(Error::AccountNotInitialized)
        },
        link.name_record is None ==> link_wallet_refusal(link) == Some(
            Error::AccountNotInitialized,
        ),
        verify.name_record is None ==> verify_name_refusal(verify) == Some(
            Error::AccountNotInitialized,
        ),
{
}

/// Nobody else's stake earns the payer a discount.
pub proof fn law_only_own_stake_counts(ctx: RegisterName, char_len: nat)
    requires
        ctx.stake_account matches Some(position) ==> position.owner != ctx.payer,
    ensures
        ctx.own_stake() == 0,
        ctx.fee(char_len) == tier_fee(ctx.token_config, char_len),
{
    crate::fees::law_discount_grows_with_stake(tier_fee(ctx.token_config, char_len), 0, 0);
}

/// A renewal adds a full period to the later of now and the old expiry, so under a
/// valid config it never shortens a name's life, and it never lowers its
/// reputation.
pub proof fn law_renewal_extends(
    before: RenewName,
    name: Seq<char>,
    name_hash: [u8; 32],
    digest: Seq<u8>,
    now: i64,
    after: RenewName,
    res: Result<Vec<Action>, Error>,
)
    requires
        renew_name_in_range(before, name, name_hash, digest, now),
        renew_name_outcome(before, name, name_hash, digest, now, after, res),
        res is Ok,
    ensures
        after.name_record->0.expiry_timestamp >= before.name_record->0.expiry_timestamp
            + before.config.registration_period,
        after.name_record->0.expiry_timestamp >= now + before.config.registration_period,
        before.config.is_valid() ==> after.name_record->0.expiry_timestamp
            > before.name_record->0.expiry_timestamp,
        before.config.is_valid() && now >= 0 ==> after.name_record->0.expiry_timestamp != 0,
        after.reputation_record.renew_count >= before.reputation_record.renew_count,
        before.reputation_record.created_at != 0 ==> after.reputation_record.created_at
            == before.reputation_record.created_at,
{
    assert(after.name_record->0@.expiry_timestamp == after.name_record->0.expiry_timestamp);
}

/// Only valid names whose hash is handed in correctly are registered or renewed.
pub proof fn law_only_valid_names_pass(
    reg: RegisterName,
    renewal: RenewName,
    name: Seq<char>,
    name_hash: [u8; 32],
    uri: Seq<char>,
    digest: Seq<u8>,
    now: i64,
)
    ensures
        register_name_refusal(reg, name, name_hash, uri, digest, now) is None ==> is_valid_name(
            name,
        ) && name_hash@ == digest && reg.name_record_seed == name_hash,
        renew_name_refusal(renewal, name, name_hash, digest) is None ==> is_valid_name(name)
            && name_hash@ == digest && renewal.name_record_seed == name_hash,
{
}

/// A wallet that is linked cannot be linked again, nor can the owner be linked to
/// the own name.
pub proof fn law_wallets_are_linked_once(ctx: LinkWallet)
    requires
        ctx.name_record matches Some(record) && (record@.linked_wallets.contains(ctx.new_wallet)
            || ctx.new_wallet == record.owner),
    ensures
        link_wallet_refusal(ctx) is Some,
{
}

/// A registration writes a valid record, and keeps a valid fee split valid.
pub proof fn law_registration_keeps_records_valid(
    before: RegisterName,
    name: Seq<char>,
    name_hash: [u8; 32],
    uri: Seq<char>,
    digest: Seq<u8>,
    now: i64,
    after: RegisterName,
    res: Result<Vec<Action>, Error>,
)
    requires
        register_name_outcome(before, name, name_hash, uri, digest, now, after, res),
    ensures
        res is Ok ==> after.name_record is Some && stored_is_valid(after.name_record),
        stored_is_valid(before.name_record) ==> stored_is_valid(after.name_record),
        before.token_config.is_valid() ==> after.token_config.is_valid(),
{
}

/// A renewal keeps a valid record and a valid fee split valid.
pub proof fn law_renewal_keeps_records_valid(
    before: RenewName,
    name: Seq<char>,
    name_hash: [u8; 32],
    digest: Seq<u8>,
    now: i64,
    after: RenewName,
    res: Result<Vec<Action>, Error>,
)
    requires
        renew_name_outcome(before, name, name_hash, digest, now, after, res),
    ensures
        stored_is_valid(before.name_record) ==> stored_is_valid(after.name_record),
        before.token_config.is_valid() ==> after.token_config.is_valid(),
{
}

/// What registering a name of this length costs this payer: the tariff, less the
/// rebate on a stake of the payer's own, whatever else its record holds.
pub open spec fn registration_price(ctx: RegisterName, char_len: nat) -> int {
    let price = tariff(ctx.token_config, char_len);
    match ctx.stake_account {
        Some(position) => if position.owner == ctx.payer {
            price - rebate(price, position.amount as int)
        } else {
            price
        },
        None => price,
    }
}

/// Which error a registration is due, if any.
pub open spec fn registration_due(
    ctx: RegisterName,
    name: Seq<char>,
    name_hash: [u8; 32],
    uri: Seq<char>,
    digest: Seq<u8>,
    now: i64,
) -> Option<Error> {
    if !(ctx.name_record_seed == name_hash && ctx.reputation_record_seed == name_hash) {
        Some(Error::ConstraintSeeds)
    } else if !(ctx.token_config.naim_mint == ctx.naim_mint.key) {
        Some(Error::ConstraintAddress)
    } else if !(spells_a_name(name) && digest == name_hash@) {
        Some(Error::Naim(NaimError::InvalidName))
    } else if encode_utf8(uri).len() > 200 {
        Some(Error::Naim(NaimError::MetadataUriTooLong))
    } else if ctx.name_record matches Some(r) && !r.owner.is_zero() && !(r.expiry_timestamp != 0
        && r.expiry_timestamp + ctx.config.grace_period <= now) {
        Some(Error::Naim(NaimError::NameAlreadyRegistered))
    } else if !divides(ctx.token_config, registration_price(ctx, name.len())) {
        Some(Error::Naim(NaimError::InvalidConfig))
    } else {
        None
    }
}

/// The discount reaches the payer: what a registration costs is what the tariff and
/// the payer's own stake say.
pub proof fn law_own_stake_earns_its_discount(ctx: RegisterName, char_len: nat)
    ensures
        ctx.fee(char_len) == registration_price(ctx, char_len),
        ctx.stake_account is Some && ctx.stake_account->0.owner == ctx.payer ==> {
            let base = tariff(ctx.token_config, char_len);
            let position = ctx.stake_account->0;
            &&& position.amount < 1_000_000_000 ==> ctx.fee(char_len) == base
            &&& 1_000_000_000 <= position.amount < 5_000_000_000 ==> ctx.fee(char_len) == base
                - base * 1_000 / 10_000
            &&& 5_000_000_000 <= position.amount ==> ctx.fee(char_len) == base - base * 2_500
                / 10_000
        },
{
    law_fee_follows_length(ctx.token_config, char_len);
    law_discount_is_exact(tier_fee(ctx.token_config, char_len), ctx.own_stake());
}

/// The parts of the fee of a registration.
proof fn lemma_registration_is_charged(ctx: RegisterName, char_len: nat)
    ensures
        ctx.fee(char_len) == registration_price(ctx, char_len),
        splits(ctx.token_config, ctx.fee(char_len)) <==> divides(
            ctx.token_config,
            registration_price(ctx, char_len),
        ),
{
    law_own_stake_earns_its_discount(ctx, char_len);
    lemma_fee_is_charged(
        ctx.token_config,
        ctx.naim_mint,
        ctx.payer,
        ctx.stakers_vault,
        ctx.fee(char_len),
    );
}

/// A registration succeeds exactly where nothing stands against it: the accounts
/// belong to the name, the name is valid and hashed right, the URI fits, nobody
/// holds the name beyond its grace period, and the fee can be split. It then charges
/// the payer the price, discount included, and writes a record that belongs and
/// resolves to the payer, with the period that its length is due.
pub proof fn law_registration_in_full(
    before: RegisterName,
    name: Seq<char>,
    name_hash: [u8; 32],
    uri: Seq<char>,
    digest: Seq<u8>,
    now: i64,
    after: RegisterName,
    res: Result<Vec<Action>, Error>,
)
    requires
        register_name_in_range(before, name, name_hash, uri, digest, now),
        register_name_outcome(before, name, name_hash, uri, digest, now, after, res),
    ensures
        match res {
            Ok(actions) => {
                let price = registration_price(before, name.len());
                &&& registration_due(before, name, name_hash, uri, digest, now) is None
                &&& charges(
                    actions@,
                    before.token_config,
                    after.token_config,
                    before.naim_mint,
                    before.payer,
                    before.stakers_vault,
                    price,
                )
                &&& total(
                    actions@,
                    |a: Action| token_taken(a, before.naim_mint.key, before.payer),
                ) == price
                &&& reads(
                    after.name_record,
                    before.payer,
                    before.payer,
                    uri,
                    if name.len() < 5 {
                        0
                    } else {
                        now + before.config.registration_period
                    },
                    false,
                    Seq::empty(),
                    before.name_record_bump,
                )
                &&& after.reputation_record == ReputationRecord {
                    name_hash,
                    created_at: now,
                    renew_count: 0,
                    bump: before.reputation_record_bump,
                }
                &&& after == RegisterName {
                    token_config: after.token_config,
                    name_record: after.name_record,
                    reputation_record: after.reputation_record,
                    ..before
                }
            },
            Err(e) => registration_due(before, name, name_hash, uri, digest, now) == Some(e)
                && after == before,
        },
{
    law_name_grammar(name);
    lemma_registration_is_charged(before, name.len());
    lemma_fee_is_charged(
        before.token_config,
        before.naim_mint,
        before.payer,
        before.stakers_vault,
        before.fee(name.len()),
    );
    if res is Ok {
        lemma_charges_take_the_fee(
            res->Ok_0@,
            before.token_config,
            after.token_config,
            before.naim_mint,
            before.payer,
            before.stakers_vault,
            registration_price(before, name.len()),
            before.naim_mint.key,
            before.payer,
        );
    }
}

/// A registration is out of range only where a sum that it needs is no time: the end
/// of the grace period of a held name, or the expiry of a name that it grants.
pub proof fn law_registration_range(
    ctx: RegisterName,
    name: Seq<char>,
    name_hash: [u8; 32],
    uri: Seq<char>,
    digest: Seq<u8>,
    now: i64,
)
    ensures
        register_name_in_range(ctx, name, name_hash, uri, digest, now) <==> {
            let due = registration_due(ctx, name, name_hash, uri, digest, now);
            let asked = due is None || due == Some(
                Error::Naim(NaimError::NameAlreadyRegistered),
            ) || due == Some(Error::Naim(NaimError::InvalidConfig));
            let end = ctx.name_record->0.expiry_timestamp + ctx.config.grace_period;
            let expiry = now + ctx.config.registration_period;
            &&& asked && ctx.name_record is Some && !ctx.name_record->0.owner.is_zero()
                && ctx.name_record->0.expiry_timestamp != 0 ==> i64::MIN <= end <= i64::MAX
            &&& due is None && name.len() > 4 ==> i64::MIN <= expiry <= i64::MAX
        },
{
    law_name_grammar(name);
    lemma_registration_is_charged(ctx, name.len());
}

/// Which error a renewal is due, if any.
pub open spec fn renewal_due(
    ctx: RenewName,
    name: Seq<char>,
    name_hash: [u8; 32],
    digest: Seq<u8>,
) -> Option<Error> {
    match ctx.name_record {
        None => Some(Error::AccountNotInitialized),
        Some(r) => if !(ctx.name_record_seed == name_hash && ctx.reputation_record_seed
            == name_hash) {
            Some(Error::ConstraintSeeds)
        } else if !(r.owner == ctx.owner) {
            Some(Error::Naim(NaimError::Unauthorized))
        } else if !(ctx.token_config.naim_mint == ctx.naim_mint.key) {
            Some(Error::ConstraintAddress)
        } else if !(spells_a_name(name) && digest == name_hash@) {
            Some(Error::Naim(NaimError::InvalidName))
        } else if !(r.expiry_timestamp != 0) {
            Some(Error::Naim(NaimError::NamePermanent))
        } else if !divides(ctx.token_config, tariff(ctx.token_config, name.len())) {
            Some(Error::Naim(NaimError::InvalidConfig))
        } else {
            None
        },
    }
}

/// Every renewal costs the tariff of the name's length, whenever it comes: that is
/// what it takes from the owner, neither the time nor the expiry change it.
pub proof fn law_renewal_costs_the_tariff(
    before: RenewName,
    name: Seq<char>,
    name_hash: [u8; 32],
    digest: Seq<u8>,
    now: i64,
    after: RenewName,
    res: Result<Vec<Action>, Error>,
)
    requires
        renew_name_outcome(before, name, name_hash, digest, now, after, res),
    ensures
        res matches Ok(actions) ==> {
            &&& charges(
                actions@,
                before.token_config,
                after.token_config,
                before.naim_mint,
                before.owner,
                before.stakers_vault,
                tariff(before.token_config, name.len()),
            )
            &&& total(actions@, |a: Action| token_taken(a, before.naim_mint.key, before.owner))
                == tariff(before.token_config, name.len())
        },
{
    let fee = tier_fee(before.token_config, name.len());
    law_fee_follows_length(before.token_config, name.len());
    lemma_fee_is_charged(
        before.token_config,
        before.naim_mint,
        before.owner,
        before.stakers_vault,
        fee,
    );
    if res is Ok {
        lemma_charges_take_the_fee(
            res->Ok_0@,
            before.token_config,
            after.token_config,
            before.naim_mint,
            before.owner,
            before.stakers_vault,
            fee as int,
            before.naim_mint.key,
            before.owner,
        );
    }
}

/// A renewal succeeds exactly where the owner asks for it, with a valid and rightly
/// hashed name that is not permanent and a fee that can be split. It then moves the
/// expiry to one period after the later of now and the old expiry, counts the
/// renewal, and leaves everything else in the record as it was.
pub proof fn law_renewal_in_full(
    before: RenewName,
    name: Seq<char>,
    name_hash: [u8; 32],
    digest: Seq<u8>,
    now: i64,
    after: RenewName,
    res: Result<Vec<Action>, Error>,
)
    requires
        renew_name_in_range(before, name, name_hash, digest, now),
        renew_name_outcome(before, name, name_hash, digest, now, after, res),
    ensures
        match res {
            Ok(_) => {
                let old_record = before.name_record->0;
                let old_rep = before.reputation_record;
                let rep = after.reputation_record;
                let period = before.config.registration_period;
                &&& renewal_due(before, name, name_hash, digest) is None
                &&& old_record.expiry_timestamp > now ==> after.name_record->0.expiry_timestamp
                    - old_record.expiry_timestamp == period
                &&& old_record.expiry_timestamp <= now ==> after.name_record->0.expiry_timestamp
                    - now == period
                &&& reads(
                    after.name_record,
                    old_record.owner,
                    old_record.resolver,
                    old_record.metadata_uri@,
                    after.name_record->0.expiry_timestamp as int,
                    old_record.verified,
                    old_record.linked_wallets@,
                    old_record.bump,
                )
                &&& old_rep.renew_count < u32::MAX ==> rep.renew_count == old_rep.renew_count + 1
                &&& old_rep.renew_count == u32::MAX ==> rep.renew_count == u32::MAX
                &&& old_rep.created_at != 0 ==> rep.created_at == old_rep.created_at
                    && rep.name_hash == old_rep.name_hash && rep.bump == old_rep.bump
                &&& old_rep.created_at == 0 ==> rep.created_at == now && rep.name_hash == name_hash
                    && rep.bump == before.reputation_record_bump
                &&& after == RenewName {
                    token_config: after.token_config,
                    name_record: after.name_record,
                    reputation_record: rep,
                    ..before
                }
            },
            Err(e) => renewal_due(before, name, name_hash, digest) == Some(e) && after == before,
        },
{
    law_name_grammar(name);
    law_fee_follows_length(before.token_config, name.len());
    lemma_fee_is_charged(
        before.token_config,
        before.naim_mint,
        before.owner,
        before.stakers_vault,
        tier_fee(before.token_config, name.len()),
    );
}

/// A renewal is out of range only where the new expiry is no time.
pub proof fn law_renewal_range(
    ctx: RenewName,
    name: Seq<char>,
    name_hash: [u8; 32],
    digest: Seq<u8>,
    now: i64,
)
    ensures
        !renew_name_in_range(ctx, name, name_hash, digest, now) <==> {
            let expiry = ctx.name_record->0.expiry_timestamp;
            let period = ctx.config.registration_period;
            &&& renewal_due(ctx, name, name_hash, digest) is None
            &&& now > expiry ==> !(i64::MIN <= now + period <= i64::MAX)
            &&& now <= expiry ==> !(i64::MIN <= expiry + period <= i64::MAX)
        },
{
    law_name_grammar(name);
    law_fee_follows_length(ctx.token_config, name.len());
    lemma_fee_is_charged(
        ctx.token_config,
        ctx.naim_mint,
        ctx.owner,
        ctx.stakers_vault,
        tier_fee(ctx.token_config, name.len()),
    );
}

/// A name is the owner's to give up, and nobody else's: releasing it closes its
/// account and refunds the owner, and moves nothing else.
pub proof fn law_release_in_full(
    before: ReleaseName,
    after: ReleaseName,
    res: Result<Vec<Action>, Error>,
)
    requires
        release_name_outcome(before, after, res),
    ensures
        res is Ok <==> (before.name_record matches Some(r) && r.owner == before.owner),
        match res {
            Ok(actions) => {
                &&& after.name_record is None
                &&& after.owner == before.owner
                &&& actions@.len() == 1
                &&& actions@[0] == (Action::Close {
                    record: Record::Name,
                    refund_to: before.owner,
                })
            },
            Err(e) => {
                &&& after == before
                &&& e == if before.name_record is Some {
                    Error::Naim(NaimError::Unauthorized)
                } else {
                    Error::AccountNotInitialized
                }
            },
        },
{
}

/// A name's owner, and nobody else, can hand it on, point it elsewhere and give it
/// another URI of up to 200 bytes; each changes that field alone.
pub proof fn law_owner_updates_in_full(
    before: UpdateName,
    key: Pubkey,
    uri: Seq<char>,
    after: UpdateName,
    res: Result<(), Error>,
)
    requires
        transfer_name_outcome(before, key, after, res) || update_resolver_outcome(
            before,
            key,
            after,
            res,
        ) || update_metadata_outcome(before, uri, after, res),
    ensures
        res matches Err(e) ==> after == before,
        res is Ok ==> after.owner == before.owner,
        before.name_record is None ==> res == Err::<(), Error>(Error::AccountNotInitialized),
        before.name_record is Some && before.name_record->0.owner != before.owner ==> res == Err::<
            (),
            Error,
        >(Error::Naim(NaimError::Unauthorized)),
        ({
            let r = before.name_record->0;
            &&& res is Ok ==> before.name_record is Some && r.owner == before.owner
            &&& before.name_record is Some && r.owner == before.owner ==> {
                &&& transfer_name_outcome(before, key, after, res) ==> res is Ok
                &&& update_resolver_outcome(before, key, after, res) ==> res is Ok
                &&& update_metadata_outcome(before, uri, after, res) ==> if encode_utf8(uri).len()
                    <= 200 {
                    res is Ok
                } else {
                    res == Err::<(), Error>(Error::Naim(NaimError::MetadataUriTooLong))
                }
            }
        }),
{
}

/// What each of the owner's updates leaves in the record.
pub proof fn law_owner_updates_change_one_field(
    before: UpdateName,
    key: Pubkey,
    uri: Seq<char>,
    after: UpdateName,
    res: Result<(), Error>,
)
    requires
        res is Ok,
    ensures
        ({
            let r = before.name_record->0;
            &&& transfer_name_outcome(before, key, after, res) ==> reads(
                after.name_record,
                key,
                r.resolver,
                r.metadata_uri@,
                r.expiry_timestamp as int,
                r.verified,
                r.linked_wallets@,
                r.bump,
            )
            &&& update_resolver_outcome(before, key, after, res) ==> reads(
                after.name_record,
                r.owner,
                key,
                r.metadata_uri@,
                r.expiry_timestamp as int,
                r.verified,
                r.linked_wallets@,
                r.bump,
            )
            &&& update_metadata_outcome(before, uri, after, res) ==> reads(
                after.name_record,
                r.owner,
                r.resolver,
                uri,
                r.expiry_timestamp as int,
                r.verified,
                r.linked_wallets@,
                r.bump,
            )
        }),
{
}

/// A wallet is linked exactly where the owner asks, fewer than five are linked, and
/// it is neither the owner nor linked already. It goes behind the others, and
/// nothing else in the record changes.
pub proof fn law_linking_in_full(before: LinkWallet, after: LinkWallet, res: Result<(), Error>)
    requires
        link_wallet_outcome(before, after, res),
    ensures
        ({
            let r = before.name_record->0;
            let linked = exists|i: int|
                0 <= i < r.linked_wallets@.len() && #[trigger] r.linked_wallets@[i]
                    == before.new_wallet;
            match res {
                Ok(_) => {
                    &&& before.name_record is Some
                    &&& r.owner == before.owner
                    &&& r.linked_wallets@.len() < 5
                    &&& before.new_wallet != before.owner
                    &&& !linked
                    &&& reads(
                        after.name_record,
                        r.owner,
                        r.resolver,
                        r.metadata_uri@,
                        r.expiry_timestamp as int,
                        r.verified,
                        r.linked_wallets@ + seq![before.new_wallet],
                        r.bump,
                    )
                    &&& after.owner == before.owner
                    &&& after.new_wallet == before.new_wallet
                },
                Err(e) => {
                    &&& after == before
                    &&& e == if before.name_record is None {
                        Error::AccountNotInitialized
                    } else if r.owner != before.owner {
                        Error::Naim(NaimError::Unauthorized)
                    } else if r.linked_wallets@.len() >= 5 {
                        Error::Naim(NaimError::TooManyLinkedWallets)
                    } else {
                        Error::Naim(NaimError::WalletAlreadyLinked)
                    }
                    &&& before.name_record is None || r.owner != before.owner
                        || r.linked_wallets@.len() >= 5 || before.new_wallet == before.owner
                        || linked
                },
            }
        }),
{
    if res is Ok {
        let r = before.name_record->0;
        assert(r.linked_wallets@.push(before.new_wallet) =~= r.linked_wallets@
            + seq![before.new_wallet]);
    }
}

/// Verification is granted exactly where the owner pays for it in the right mint and
/// the fee can be split. It charges the verification fee and sets the flag, which
/// is all that changes in the record.
pub proof fn law_verification_in_full(
    before: VerifyName,
    after: VerifyName,
    res: Result<Vec<Action>, Error>,
)
    requires
        verify_name_outcome(before, after, res),
    ensures
        ({
            let r = before.name_record->0;
            let fee = before.token_config.verify_fee as int;
            let due = if before.name_record is None {
                Some(Error::AccountNotInitialized)
            } else if !(r.owner == before.owner) {
                Some(Error::Naim(NaimError::Unauthorized))
            } else if !(before.token_config.naim_mint == before.naim_mint.key) {
                Some(Error::ConstraintAddress)
            } else if !divides(before.token_config, fee) {
                Some(Error::Naim(NaimError::InvalidConfig))
            } else {
                None
            };
            match res {
                Ok(actions) => {
                    &&& due is None
                    &&& charges(
                        actions@,
                        before.token_config,
                        after.token_config,
                        before.naim_mint,
                        before.owner,
                        before.stakers_vault,
                        fee,
                    )
                    &&& total(
                        actions@,
                        |a: Action| token_taken(a, before.naim_mint.key, before.owner),
                    ) == fee
                    &&& reads(
                        after.name_record,
                        r.owner,
                        r.resolver,
                        r.metadata_uri@,
                        r.expiry_timestamp as int,
                        true,
                        r.linked_wallets@,
                        r.bump,
                    )
                    &&& after == VerifyName {
                        token_config: after.token_config,
                        name_record: after.name_record,
                        ..before
                    }
                },
                Err(e) => due == Some(e) && after == before,
            }
        }),
{
    let fee = before.token_config.verify_fee;
    lemma_fee_is_charged(
        before.token_config,
        before.naim_mint,
        before.owner,
        before.stakers_vault,
        fee,
    );
    if res is Ok {
        lemma_charges_take_the_fee(
            res->Ok_0@,
            before.token_config,
            after.token_config,
            before.naim_mint,
            before.owner,
            before.stakers_vault,
            fee as int,
            before.naim_mint.key,
            before.owner,
        );
    }
}

/// A name is registered and renewed under its own hash alone: what is handed in must
/// be the SHA-256 digest of the name's UTF-8, and where it is, the rest decides.
pub proof fn law_names_go_by_their_digest(
    reg: RegisterName,
    reg_after: RegisterName,
    renewal: RenewName,
    renewal_after: RenewName,
    name: Seq<char>,
    name_hash: [u8; 32],
    uri: Seq<char>,
    now: i64,
    res: Result<Vec<Action>, Error>,
)
    ensures
        register_name_hashed_outcome(reg, name, name_hash, uri, now, reg_after, res) ==> {
            &&& res is Ok ==> name_hash@ == sha256(encode_utf8(name))
            &&& match res {
                Ok(_) => registration_due(
                    reg,
                    name,
                    name_hash,
                    uri,
                    sha256(encode_utf8(name)),
                    now,
                ) is None,
                Err(e) => registration_due(
                    reg,
                    name,
                    name_hash,
                    uri,
                    sha256(encode_utf8(name)),
                    now,
                ) == Some(e) && reg_after == reg,
            }
            &&& register_name_outcome(
                reg,
                name,
                name_hash,
                uri,
                sha256(encode_utf8(name)),
                now,
                reg_after,
                res,
            )
        },
        renew_name_hashed_outcome(renewal, name, name_hash, now, renewal_after, res) ==> {
            &&& res is Ok ==> name_hash@ == sha256(encode_utf8(name))
            &&& match res {
                Ok(_) => renewal_due(renewal, name, name_hash, sha256(encode_utf8(name))) is None,
                Err(e) => renewal_due(renewal, name, name_hash, sha256(encode_utf8(name))) == Some(
                    e,
                ) && renewal_after == renewal,
            }
            &&& renew_name_outcome(
                renewal,
                name,
                name_hash,
                sha256(encode_utf8(name)),
                now,
                renewal_after,
                res,
            )
        },
{
    law_name_grammar(name);
    lemma_registration_is_charged(reg, name.len());
    law_fee_follows_length(renewal.token_config, name.len());
    lemma_fee_is_charged(
        renewal.token_config,
        renewal.naim_mint,
        renewal.owner,
        renewal.stakers_vault,
        tier_fee(renewal.token_config, name.len()),
    );
}

/// Asking for a registration or a renewal without knowing the range gives no answer
/// exactly where a time that is needed does not exist, and then changes nothing;
/// otherwise it gives the answer of the instruction itself.
pub proof fn law_tried_names_are_answered(
    reg: RegisterName,
    reg_after: RegisterName,
    renewal: RenewName,
    renewal_after: RenewName,
    name: Seq<char>,
    name_hash: [u8; 32],
    uri: Seq<char>,
    now: i64,
    res: Option<Result<Vec<Action>, Error>>,
)
    ensures
        try_register_name_outcome(reg, name, name_hash, uri, now, reg_after, res) ==> {
            let digest = sha256(encode_utf8(name));
            &&& res is Some <==> register_name_in_range(reg, name, name_hash, uri, digest, now)
            &&& res is None ==> reg_after == reg
            &&& res matches Some(r) ==> register_name_outcome(
                reg,
                name,
                name_hash,
                uri,
                digest,
                now,
                reg_after,
                r,
            )
        },
        try_renew_name_outcome(renewal, name, name_hash, now, renewal_after, res) ==> {
            let digest = sha256(encode_utf8(name));
            &&& res is Some <==> renew_name_in_range(renewal, name, name_hash, digest, now)
            &&& res is None ==> renewal_after == renewal
            &&& res matches Some(r) ==> renew_name_outcome(
                renewal,
                name,
                name_hash,
                digest,
                now,
                renewal_after,
                r,
            )
        },
{
}

} // verus!
