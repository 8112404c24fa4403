//! What a category is owed, and what a name beneath it costs.
use vstd::prelude::*;
use vstd::utf8::encode_utf8;

use crate::action::{lemma_total_concat, token_taken, total, Action, Record};
use crate::arith::lemma_bps_share_exact;
use crate::category::{
    close_category_outcome, register_category_hashed_outcome, register_category_outcome,
    register_under_category_hashed_outcome, try_register_under_category_outcome, register_under_category_in_range,
    register_under_category_outcome, register_under_category_refusal, transfer_category_outcome,
    CloseCategory, RegisterCategory, RegisterUnderCategory, SubNameRequest, UpdateCategory,
};
use crate::digest::sha256;
use crate::error::{Error, NaimError};
use crate::fee_laws::{law_fee_follows_length, law_share_is_rounded_down, lemma_fee_is_charged};
use crate::fees::fee_actions;
use crate::ledger::{
    charges, cut, divides, from_wallet, lemma_charges_take_the_fee, lemma_total_pays, reads, tariff,
};
use crate::name_laws::{law_category_grammar, law_name_grammar, spells_a_name};
use crate::names::{directly_under, law_directly_under_is_label_dot_parent, tier_fee};
use crate::pubkey::Pubkey;
use crate::state::{CategoryRecord, ReputationRecord};

verus! {

/// Whether a text ends in `.agent` and has something before it.
pub open spec fn ends_in_agent(text: Seq<char>) -> bool {
    let n = text.len() as int;
    &&& n > 6
    &&& text[n - 6] == '.' && text[n - 5] == 'a' && text[n - 4] == 'g'
    &&& text[n - 3] == 'e' && text[n - 2] == 'n' && text[n - 1] == 't'
}

/// A category is registered exactly where its record does not exist, its text is a
/// name that ends in `.agent` and is hashed right, and the fee can be split. The
/// payer is charged the tariff and owns a category that earns five percent.
pub proof fn law_category_registration_in_full(
    before: RegisterCategory,
    category: Seq<char>,
    category_hash: [u8; 32],
    digest: Seq<u8>,
    after: RegisterCategory,
    res: Result<Vec<Action>, Error>,
)
    requires
        register_category_outcome(before, category, category_hash, digest, after, res),
    ensures
        ({
            let fee = tariff(before.token_config, category.len());
            let due = if !(before.category_record_seed == category_hash) {
                Some(Error::ConstraintSeeds)
            } else if !(before.category_record is None) {
                Some(Error::AccountInUse)
            } else if !(before.token_config.naim_mint == before.naim_mint.key) {
                Some(Error::ConstraintAddress)
            } else if !spells_a_name(category) {
                Some(Error::Naim(NaimError::InvalidName))
            } else if !(ends_in_agent(category) && digest == category_hash@) {
                Some(Error::Naim(NaimError::InvalidCategory))
            } else if !divides(before.token_config, fee) {
                Some(Error::Naim(NaimError::InvalidConfig))
            } else {
                None
            };
            match res {
                Ok(actions) => {
                    &&& due is None
                    &&& charges(
                        actions@,
                        before.token_config,
                        after.token_config,
                        before.naim_mint,
                        before.payer,
                        before.stakers_vault,
                        fee,
                    )
                    &&& total(
                        actions@,
                        |a: Action| token_taken(a, before.naim_mint.key, before.payer),
                    ) == fee
                    &&& after.category_record matches Some(c)
                    &&& c.owner == before.payer
                    &&& c.royalty_bps == 500
                    &&& c.sub_count == 0
                    &&& c.total_earned == 0
                    &&& c.bump == before.category_record_bump
                    &&& after == RegisterCategory {
                        token_config: after.token_config,
                        category_record: after.category_record,
                        ..before
                    }
                },
                Err(e) => due == Some(e) && after == before,
            }
        }),
{
    law_name_grammar(category);
    law_category_grammar(category);
    law_fee_follows_length(before.token_config, category.len());
    let fee = tier_fee(before.token_config, category.len());
    lemma_fee_is_charged(
        before.token_config,
        before.naim_mint,
        before.payer,
        before.stakers_vault,
        fee,
    );
    if res is Ok {
        lemma_charges_take_the_fee(
            res->Ok_0@,
            before.token_config,
            after.token_config,
            before.naim_mint,
            before.payer,
            before.stakers_vault,
            fee as int,
            before.naim_mint.key,
            before.payer,
        );
    }
}

/// The category owner's part of the fee of a name beneath it.
pub open spec fn royalty_due(ctx: RegisterUnderCategory, char_len: nat) -> int {
    cut(tariff(ctx.token_config, char_len), ctx.category->0.royalty_bps as int)
}

/// What is left of the fee of a name beneath a category.
pub open spec fn fee_beyond_royalty(ctx: RegisterUnderCategory, char_len: nat) -> int {
    let fee = tariff(ctx.token_config, char_len);
    if royalty_due(ctx, char_len) > fee {
        0
    } else {
        fee - royalty_due(ctx, char_len)
    }
}

/// Whether a text is a label without dots, a dot, and the parent.
pub open spec fn is_label_dot(text: Seq<char>, parent: Seq<char>) -> bool {
    exists|label: Seq<char>|
        {
            &&& label.len() > 0
            &&& !label.contains('.')
            &&& text == #[trigger] (label + seq!['.'] + parent)
        }
}

/// Which error a registration beneath a category is due, if any.
pub open spec fn sub_name_due(
    ctx: RegisterUnderCategory,
    request: SubNameRequest,
    name_digest: Seq<u8>,
    parent_digest: Seq<u8>,
) -> Option<Error> {
    if ctx.category is None {
        Some(Error::AccountNotInitialized)
    } else if !(ctx.name_record_seed == request.name_hash) {
        Some(Error::ConstraintSeeds)
    } else if !(ctx.name_record is None) {
        Some(Error::AccountInUse)
    } else if !(ctx.reputation_record_seed == request.name_hash && ctx.category_seed
        == request.parent_hash) {
        Some(Error::ConstraintSeeds)
    } else if !(ctx.category->0.owner == ctx.category_owner) {
        Some(Error::Naim(NaimError::Unauthorized))
    } else if !(ctx.token_config.naim_mint == ctx.naim_mint.key) {
        Some(Error::ConstraintAddress)
    } else if !(spells_a_name(request.name) && name_digest == request.name_hash@) {
        Some(Error::Naim(NaimError::InvalidName))
    } else if !(parent_digest == request.parent_hash@) {
        Some(Error::Naim(NaimError::InvalidCategory))
    } else if !is_label_dot(request.name, request.parent) {
        Some(Error::Naim(NaimError::NotUnderCategory))
    } else if encode_utf8(request.uri).len() > 200 {
        Some(Error::Naim(NaimError::MetadataUriTooLong))
    } else if !divides(ctx.token_config, fee_beyond_royalty(ctx, request.name.len())) {
        Some(Error::Naim(NaimError::InvalidConfig))
    } else {
        None
    }
}

/// The amounts of a registration beneath a category in plain arithmetic.
proof fn lemma_sub_name_amounts(ctx: RegisterUnderCategory, char_len: nat)
    ensures
        ctx.fee(char_len) == tariff(ctx.token_config, char_len),
        ctx.royalty(char_len) == royalty_due(ctx, char_len),
        ctx.remainder(char_len) == fee_beyond_royalty(ctx, char_len),
{
    law_fee_follows_length(ctx.token_config, char_len);
    law_share_is_rounded_down(ctx.fee(char_len), ctx.category->0.royalty_bps);
}

/// A name is registered beneath a category exactly where the category exists, the
/// name is new, valid and rightly hashed, and is a label, a dot and the category.
/// The payer then pays the tariff: the royalty to the category's owner, and the rest
/// split as any fee. The record belongs and resolves to the payer, and the category
/// counts the name and the royalty.
pub proof fn law_sub_name_in_full(
    before: RegisterUnderCategory,
    request: SubNameRequest,
    name_digest: Seq<u8>,
    parent_digest: Seq<u8>,
    now: i64,
    after: RegisterUnderCategory,
    res: Result<Vec<Action>, Error>,
)
    requires
        register_under_category_in_range(before, request, name_digest, parent_digest, now),
        register_under_category_outcome(
            before,
            request,
            name_digest,
            parent_digest,
            now,
            after,
            res,
        ),
    ensures
        match res {
            Ok(actions) => {
                let len = request.name.len();
                let royalty = royalty_due(before, len);
                let old_category = before.category->0;
                let first: int = if royalty == 0 {
                    0
                } else {
                    1
                };
                &&& sub_name_due(before, request, name_digest, parent_digest) is None
                &&& actions@.len() >= first
                &&& actions@.take(first) == from_wallet(
                    before.naim_mint,
                    before.payer,
                    before.category_owner,
                    royalty,
                )
                &&& charges(
                    actions@.skip(first),
                    before.token_config,
                    after.token_config,
                    before.naim_mint,
                    before.payer,
                    before.stakers_vault,
                    fee_beyond_royalty(before, len),
                )
                &&& old_category.royalty_bps <= 10_000 ==> total(
                    actions@,
                    |a: Action| token_taken(a, before.naim_mint.key, before.payer),
                ) == tariff(before.token_config, len)
                &&& after.category matches Some(c)
                &&& old_category.sub_count < u64::MAX ==> c.sub_count == old_category.sub_count + 1
                &&& old_category.sub_count == u64::MAX ==> c.sub_count == u64::MAX
                &&& old_category.total_earned + royalty <= u64::MAX ==> c.total_earned
                    == old_category.total_earned + royalty
                &&& old_category.total_earned + royalty > u64::MAX ==> c.total_earned == u64::MAX
                &&& c == CategoryRecord {
                    sub_count: c.sub_count,
                    total_earned: c.total_earned,
                    ..old_category
                }
                &&& reads(
                    after.name_record,
                    before.payer,
                    before.payer,
                    request.uri,
                    if len < 5 {
                        0
                    } else {
                        now + before.config.registration_period
                    },
                    false,
                    Seq::empty(),
                    before.name_record_bump,
                )
                &&& after.reputation_record == ReputationRecord {
                    name_hash: request.name_hash,
                    created_at: now,
                    renew_count: 0,
                    bump: before.reputation_record_bump,
                }
                &&& after == RegisterUnderCategory {
                    token_config: after.token_config,
                    name_record: after.name_record,
                    reputation_record: after.reputation_record,
                    category: after.category,
                    ..before
                }
            },
            Err(e) => sub_name_due(before, request, name_digest, parent_digest) == Some(e)
                && after == before,
        },
{
    let len = request.name.len();
    lemma_sub_name_due(before, request, name_digest, parent_digest);
    lemma_sub_name_amounts(before, len);
    let rem = before.remainder(len);
    lemma_fee_is_charged(
        before.token_config,
        before.naim_mint,
        before.payer,
        before.stakers_vault,
        rem,
    );
    if res is Ok {
        let royalty = royalty_due(before, len);
        let first = from_wallet(before.naim_mint, before.payer, before.category_owner, royalty);
        let legs = fee_actions(
            before.token_config,
            before.naim_mint,
            before.payer,
            before.stakers_vault,
            rem,
        );
        let paid = res->Ok_0@;
        assert(paid =~= first + legs);
        assert(paid.take(first.len() as int) =~= first);
        assert(paid.skip(first.len() as int) =~= legs);
        lemma_charges_take_the_fee(
            legs,
            before.token_config,
            after.token_config,
            before.naim_mint,
            before.payer,
            before.stakers_vault,
            rem as int,
            before.naim_mint.key,
            before.payer,
        );
        let taken = |a: Action| token_taken(a, before.naim_mint.key, before.payer);
        lemma_total_concat(first, legs, taken);
        lemma_total_pays(
            royalty,
            Action::TransferToken {
                mint: before.naim_mint.key,
                from: before.payer,
                to: before.category_owner,
                amount: royalty as u64,
                decimals: before.naim_mint.decimals,
                signer: None,
            },
            taken,
        );
        if before.category->0.royalty_bps <= 10_000 {
            lemma_bps_share_exact(before.fee(len), before.category->0.royalty_bps);
        }
    }
}

/// The error that is due is the one that is given.
proof fn lemma_sub_name_due(
    ctx: RegisterUnderCategory,
    request: SubNameRequest,
    name_digest: Seq<u8>,
    parent_digest: Seq<u8>,
)
    ensures
        register_under_category_refusal(ctx, request, name_digest, parent_digest)
            == sub_name_due(ctx, request, name_digest, parent_digest),
{
    law_name_grammar(request.name);
    if spells_a_name(request.name) {
        law_directly_under_is_label_dot_parent(request.name, request.parent);
        assert(directly_under(request.name, request.parent) <==> is_label_dot(
            request.name,
            request.parent,
        ));
    }
    lemma_sub_name_amounts(ctx, request.name.len());
    lemma_fee_is_charged(
        ctx.token_config,
        ctx.naim_mint,
        ctx.payer,
        ctx.stakers_vault,
        ctx.remainder(request.name.len()),
    );
}

/// A registration beneath a category is out of range only where the expiry that it
/// grants is no time.
pub proof fn law_sub_name_range(
    ctx: RegisterUnderCategory,
    request: SubNameRequest,
    name_digest: Seq<u8>,
    parent_digest: Seq<u8>,
    now: i64,
)
    ensures
        !register_under_category_in_range(ctx, request, name_digest, parent_digest, now) <==> {
            let expiry = now + ctx.config.registration_period;
            &&& sub_name_due(ctx, request, name_digest, parent_digest) is None
            &&& request.name.len() >= 5
            &&& expiry < i64::MIN || expiry > i64::MAX
        },
{
    lemma_sub_name_due(ctx, request, name_digest, parent_digest);
}

/// A category's owner, and nobody else, can hand it on and close it. Handing it on
/// changes the owner alone; closing it refunds the owner and moves nothing else.
pub proof fn law_category_ownership_in_full(
    before: UpdateCategory,
    new_owner: Pubkey,
    after: UpdateCategory,
    res: Result<(), Error>,
    closing: CloseCategory,
    closed: CloseCategory,
    close_res: Result<Vec<Action>, Error>,
)
    ensures
        transfer_category_outcome(before, new_owner, after, res) ==> {
            let old_record = before.category_record->0;
            match res {
                Ok(_) => {
                    &&& before.category_record is Some
                    &&& old_record.owner == before.owner
                    &&& after.owner == before.owner
                    &&& after.category_record matches Some(c)
                    &&& c.owner == new_owner
                    &&& c.royalty_bps == old_record.royalty_bps
                    &&& c.sub_count == old_record.sub_count
                    &&& c.total_earned == old_record.total_earned
                    &&& c.bump == old_record.bump
                },
                Err(e) => {
                    &&& after == before
                    &&& before.category_record is None ==> e == Error::AccountNotInitialized
                    &&& before.category_record is Some ==> old_record.owner != before.owner && e
                        == Error::Naim(NaimError::Unauthorized)
                },
            }
        },
        close_category_outcome(closing, closed, close_res) ==> {
            let old_record = closing.category_record->0;
            match close_res {
                Ok(actions) => {
                    &&& closing.category_record is Some
                    &&& old_record.owner == closing.owner
                    &&& closed.category_record is None
                    &&& closed.owner == closing.owner
                    &&& actions@.len() == 1
                    &&& actions@[0] == (Action::Close {
                        record: Record::Category,
                        refund_to: closing.owner,
                    })
                },
                Err(e) => {
                    &&& closed == closing
                    &&& closing.category_record is None ==> e == Error::AccountNotInitialized
                    &&& closing.category_record is Some ==> old_record.owner != closing.owner && e
                        == Error::Naim(NaimError::Unauthorized)
                },
            }
        },
{
}

/// Categories and names beneath them go by their own hashes alone: what is handed in
/// must be the SHA-256 digest of the text's UTF-8, and where it is, the rest decides.
pub proof fn law_categories_go_by_their_digest(
    reg: RegisterCategory,
    reg_after: RegisterCategory,
    category: Seq<char>,
    category_hash: [u8; 32],
    sub: RegisterUnderCategory,
    sub_after: RegisterUnderCategory,
    request: SubNameRequest,
    now: i64,
    res: Result<Vec<Action>, Error>,
)
    ensures
        register_category_hashed_outcome(reg, category, category_hash, reg_after, res) ==> {
            &&& res is Ok ==> category_hash@ == sha256(encode_utf8(category))
            &&& register_category_outcome(
                reg,
                category,
                category_hash,
                sha256(encode_utf8(category)),
                reg_after,
                res,
            )
        },
        register_under_category_hashed_outcome(sub, request, now, sub_after, res) ==> {
            let name_digest = sha256(encode_utf8(request.name));
            let parent_digest = sha256(encode_utf8(request.parent));
            &&& res is Ok ==> request.name_hash@ == name_digest && request.parent_hash@
                == parent_digest
            &&& register_under_category_outcome(
                sub,
                request,
                name_digest,
                parent_digest,
                now,
                sub_after,
                res,
            )
        },
{
}

/// Asking for a name beneath a category without knowing the range gives no answer
/// exactly where the expiry would be no time, and then changes nothing; otherwise it
/// gives the answer of the instruction itself.
pub proof fn law_tried_sub_names_are_answered(
    before: RegisterUnderCategory,
    request: SubNameRequest,
    now: i64,
    after: RegisterUnderCategory,
    res: Option<Result<Vec<Action>, Error>>,
)
    requires
        try_register_under_category_outcome(before, request, now, after, res),
    ensures
        ({
            let name_digest = sha256(encode_utf8(request.name));
            let parent_digest = sha256(encode_utf8(request.parent));
            let expiry = now + before.config.registration_period;
            &&& res is None <==> sub_name_due(before, request, name_digest, parent_digest) is None
                && request.name.len() >= 5 && !(i64::MIN <= expiry <= i64::MAX)
            &&& res is None ==> after == before
            &&& res matches Some(r) ==> register_under_category_outcome(
                before,
                request,
                name_digest,
                parent_digest,
                now,
                after,
                r,
            )
        }),
{
    law_sub_name_range(
        before,
        request,
        sha256(encode_utf8(request.name)),
        sha256(encode_utf8(request.parent)),
        now,
    );
}

} // verus!
