//! What holds of every sale.
use vstd::prelude::*;

use crate::action::{
    lemma_total_concat, lemma_total_unless_zero, sol_given, sol_taken, token_given, token_taken,
    total, unless_zero, Action, Record,
};
use crate::arith::{bps_share, lemma_bps_share_exact};
use crate::constants::CURRENCY_SOL;
use crate::error::{Error, NaimError};
use crate::fee_laws::law_share_is_rounded_down;
use crate::ledger::{cut, from_wallet, lamports_from, reads};
use crate::market::{
    buy_with_sol_actions, buy_with_sol_outcome, buy_with_sol_refusal, buy_with_token_actions,
    buy_with_token_outcome, buy_with_token_refusal, is_currency, list_name_outcome,
    list_name_refusal, proceeds, unlist_name_outcome, unlist_name_refusal, update_listing_outcome,
    update_listing_refusal, BuyWithSol, BuyWithToken, ListName, UnlistName, UpdateListing,
};
use crate::state::{stored, MarketConfig};

verus! {

/// A price divides into fee and proceeds without rest, and the seller of anything
/// that has a price gets something.
pub proof fn law_price_is_fee_and_proceeds(price: u64, fee_bps: u16)
    requires
        fee_bps < 10_000,
    ensures
        bps_share(price, fee_bps) == price * fee_bps / 10_000,
        bps_share(price, fee_bps) + proceeds(price, fee_bps) == price,
        price > 0 ==> proceeds(price, fee_bps) > 0,
{
    lemma_bps_share_exact(price, fee_bps);
    assert(price * fee_bps <= price * 9_999) by (nonlinear_arith)
        requires
            0 <= price,
            0 <= fee_bps <= 9_999,
    ;
}

/// A total over two conditional legs and the closing of the listing.
proof fn lemma_sale_totals(
    first: u64,
    a: Action,
    second: u64,
    b: Action,
    close: Action,
    measure: spec_fn(Action) -> nat,
)
    ensures
        total(unless_zero(first, a) + unless_zero(second, b) + seq![close], measure) == (if first
            > 0 {
            measure(a)
        } else {
            0
        }) + (if second > 0 {
            measure(b)
        } else {
            0
        }) + measure(close),
{
    lemma_total_concat(unless_zero(first, a), unless_zero(second, b), measure);
    lemma_total_concat(unless_zero(first, a) + unless_zero(second, b), seq![close], measure);
    lemma_total_unless_zero(first, a, measure);
    lemma_total_unless_zero(second, b, measure);
    lemma_total_unless_zero(1, close, measure);
}

/// In a sale for tokens the buyer pays exactly the price; the treasury gets the
/// fee and the seller the rest.
pub proof fn law_token_sale_is_conserved(ctx: BuyWithToken)
    requires
        ctx.market_config.is_valid(),
    ensures
        ({
            let price = ctx.listing->0.price;
            let actions = buy_with_token_actions(ctx);
            let mint = ctx.pay_mint.key;
            &&& total(actions, |a: Action| token_taken(a, mint, ctx.buyer)) == price
            &&& ctx.seller != ctx.market_treasury ==> {
                &&& total(actions, |a: Action| token_given(a, mint, ctx.seller)) == proceeds(
                    price,
                    ctx.fee_bps(),
                )
                &&& total(actions, |a: Action| token_given(a, mint, ctx.market_treasury))
                    == bps_share(price, ctx.fee_bps())
            }
            &&& ctx.seller == ctx.market_treasury ==> total(
                actions,
                |a: Action| token_given(a, mint, ctx.seller),
            ) == price
        }),
{
    let price = ctx.listing->0.price;
    let bps = ctx.fee_bps();
    let mint = ctx.pay_mint.key;
    let to_seller = Action::TransferToken {
        mint,
        from: ctx.buyer,
        to: ctx.seller,
        amount: proceeds(price, bps),
        decimals: ctx.pay_mint.decimals,
        signer: None,
    };
    let to_treasury = Action::TransferToken {
        mint,
        from: ctx.buyer,
        to: ctx.market_treasury,
        amount: bps_share(price, bps),
        decimals: ctx.pay_mint.decimals,
        signer: None,
    };
    let close = Action::Close { record: Record::Listing, refund_to: ctx.seller };
    let p = proceeds(price, bps);
    let f = bps_share(price, bps);
    law_price_is_fee_and_proceeds(price, bps);
    lemma_sale_totals(
        p,
        to_seller,
        f,
        to_treasury,
        close,
        |a: Action| token_taken(a, mint, ctx.buyer),
    );
    lemma_sale_totals(
        p,
        to_seller,
        f,
        to_treasury,
        close,
        |a: Action| token_given(a, mint, ctx.seller),
    );
    lemma_sale_totals(
        p,
        to_seller,
        f,
        to_treasury,
        close,
        |a: Action| token_given(a, mint, ctx.market_treasury),
    );
}

/// In a sale for SOL the buyer pays exactly the price; the treasury gets the fee
/// and the seller the rest.
pub proof fn law_sol_sale_is_conserved(ctx: BuyWithSol)
    requires
        ctx.market_config.is_valid(),
    ensures
        ({
            let price = ctx.listing->0.price;
            let bps = ctx.market_config.fee_stable_bps;
            let actions = buy_with_sol_actions(ctx);
            &&& total(actions, |a: Action| sol_taken(a, ctx.buyer)) == price
            &&& ctx.seller != ctx.treasury ==> {
                &&& total(actions, |a: Action| sol_given(a, ctx.seller)) == proceeds(price, bps)
                &&& total(actions, |a: Action| sol_given(a, ctx.treasury)) == bps_share(price, bps)
            }
            &&& ctx.seller == ctx.treasury ==> total(actions, |a: Action| sol_given(a, ctx.seller))
                == price
        }),
{
    let price = ctx.listing->0.price;
    let bps = ctx.market_config.fee_stable_bps;
    let p = proceeds(price, bps);
    let f = bps_share(price, bps);
    let to_seller = Action::TransferSol { from: ctx.buyer, to: ctx.seller, lamports: p };
    let to_treasury = Action::TransferSol { from: ctx.buyer, to: ctx.treasury, lamports: f };
    let close = Action::Close { record: Record::Listing, refund_to: ctx.seller };
    law_price_is_fee_and_proceeds(price, bps);
    lemma_sale_totals(
        p,
        to_seller,
        f,
        to_treasury,
        close,
        |a: Action| sol_taken(a, ctx.buyer),
    );
    lemma_sale_totals(
        p,
        to_seller,
        f,
        to_treasury,
        close,
        |a: Action| sol_given(a, ctx.seller),
    );
    lemma_sale_totals(
        p,
        to_seller,
        f,
        to_treasury,
        close,
        |a: Action| sol_given(a, ctx.treasury),
    );
}

/// A listing sells through exactly one of the two purchases: in SOL through the
/// one, in $NAIM or USDC through the other.
pub proof fn law_one_purchase_fits_each_currency(
    t: BuyWithToken,
    s: BuyWithSol,
    name_hash: [u8; 32],
)
    requires
        t.listing == s.listing,
        is_currency(t.listing->0.currency),
    ensures
        t.listing->0.currency == CURRENCY_SOL ==> buy_with_token_refusal(t, name_hash) is Some,
        t.listing->0.currency != CURRENCY_SOL ==> buy_with_sol_refusal(s, name_hash) is Some,
        t.expected_mint() is Some <==> t.listing->0.currency != CURRENCY_SOL,
{
}

/// A listing whose seller no longer owns the name sells nothing.
pub proof fn law_stale_listings_do_not_sell(
    t: BuyWithToken,
    s: BuyWithSol,
    name_hash: [u8; 32],
)
    ensures
        t.name_record->0.owner != t.listing->0.seller ==> buy_with_token_refusal(t, name_hash) is Some,
        s.name_record->0.owner != s.listing->0.seller ==> buy_with_sol_refusal(s, name_hash) is Some,
{
}

/// A name changes hands once per listing: even if the listing outlived the sale,
/// its seller would no longer own the name.
pub proof fn law_no_listing_sells_twice(
    bought: BuyWithToken,
    bought_for_sol: BuyWithSol,
    t: BuyWithToken,
    s: BuyWithSol,
    name_hash: [u8; 32],
)
    ensures
        buy_with_token_refusal(bought, name_hash) is None && t.listing == bought.listing
            && t.name_record->0.owner == bought.buyer ==> buy_with_token_refusal(t, name_hash) is Some,
        buy_with_sol_refusal(bought_for_sol, name_hash) is None && s.listing
            == bought_for_sol.listing && s.name_record->0.owner == bought_for_sol.buyer
            ==> buy_with_sol_refusal(s, name_hash) is Some,
{
}

/// A listing that does not exist, as after it was taken back or sold, sells
/// nothing and cannot be changed.
pub proof fn law_closed_listings_do_not_sell(
    t: BuyWithToken,
    s: BuyWithSol,
    update: UpdateListing,
    unlist: UnlistName,
    name_hash: [u8; 32],
    new_price: u64,
)
    ensures
        t.listing is None ==> buy_with_token_refusal(t, name_hash) == Some(
            Error::AccountNotInitialized,
        ),
        s.listing is None ==> buy_with_sol_refusal(s, name_hash) == Some(
            Error::AccountNotInitialized,
        ),
        update.listing is None ==> update_listing_refusal(update, name_hash, new_price) == Some(
            Error::AccountNotInitialized,
        ),
        unlist.listing is None ==> unlist_name_refusal(unlist, name_hash) == Some(
            Error::AccountNotInitialized,
        ),
{
}

/// A name that was delisted can be listed again by whoever owns it.
pub proof fn law_delisted_names_can_be_listed(
    before: UnlistName,
    after: UnlistName,
    res: Result<Vec<Action>, Error>,
    name_hash: [u8; 32],
    next: ListName,
    currency: u8,
    price: u64,
)
    requires
        unlist_name_outcome(before, name_hash, after, res),
        res is Ok,
        next.listing == after.listing,
        next.listing_seed == name_hash,
        next.name_record_seed == name_hash,
        next.name_record matches Some(record) && record.owner == next.owner,
        price > 0,
        is_currency(currency),
    ensures
        list_name_refusal(next, name_hash, currency, price) is None,
{
}

/// A name that was bought can be listed again by its buyer.
pub proof fn law_bought_names_can_be_listed(
    before: BuyWithToken,
    after: BuyWithToken,
    before_sol: BuyWithSol,
    after_sol: BuyWithSol,
    res: Result<Vec<Action>, Error>,
    name_hash: [u8; 32],
    next: ListName,
    currency: u8,
    price: u64,
)
    requires
        res is Ok,
        next.listing_seed == name_hash,
        next.name_record_seed == name_hash,
        price > 0,
        is_currency(currency),
    ensures
        buy_with_token_outcome(before, name_hash, after, res) && next.listing == after.listing
            && next.name_record == after.name_record && next.owner == before.buyer
            ==> list_name_refusal(next, name_hash, currency, price) is None,
        buy_with_sol_outcome(before_sol, name_hash, after_sol, res) && next.listing
            == after_sol.listing && next.name_record == after_sol.name_record && next.owner
            == before_sol.buyer ==> list_name_refusal(next, name_hash, currency, price) is None,
{
    assert(stored(next.name_record) matches Some(record) ==> record.owner
        == next.name_record->0.owner);
}

/// Nobody buys their own listing.
pub proof fn law_no_self_purchase(t: BuyWithToken, s: BuyWithSol, name_hash: [u8; 32])
    ensures
        t.buyer == t.listing->0.seller ==> buy_with_token_refusal(t, name_hash) is Some,
        s.buyer == s.listing->0.seller ==> buy_with_sol_refusal(s, name_hash) is Some,
{
}

/// $NAIM is the cheaper tier: a sale in $NAIM never costs the seller more than a
/// sale at the same price in SOL or USDC.
pub proof fn law_cheaper_tier_leaves_more(market: MarketConfig, price: u64)
    requires
        market.is_valid(),
    ensures
        bps_share(price, market.fee_naim_bps) <= bps_share(price, market.fee_stable_bps),
        proceeds(price, market.fee_naim_bps) >= proceeds(price, market.fee_stable_bps),
{
    lemma_bps_share_exact(price, market.fee_naim_bps);
    lemma_bps_share_exact(price, market.fee_stable_bps);
    assert(price * market.fee_naim_bps <= price * market.fee_stable_bps) by (nonlinear_arith)
        requires
            0 <= price,
            market.fee_naim_bps <= market.fee_stable_bps,
    ;
}

/// A listing is opened exactly where the owner of an existing, unlisted name asks a
/// price above zero in $NAIM, SOL or USDC. It holds what was asked, and the name
/// stays as it is.
pub proof fn law_listing_in_full(
    before: ListName,
    name_hash: [u8; 32],
    currency: u8,
    price: u64,
    now: i64,
    after: ListName,
    res: Result<(), Error>,
)
    requires
        list_name_outcome(before, name_hash, currency, price, now, after, res),
    ensures
        ({
            let due = if before.name_record is None {
                Some(Error::AccountNotInitialized)
            } else if !(before.listing_seed == name_hash) {
                Some(Error::ConstraintSeeds)
            } else if !(before.listing is None) {
                Some(Error::AccountInUse)
            } else if !(before.name_record_seed == name_hash) {
                Some(Error::ConstraintSeeds)
            } else if !(before.name_record->0.owner == before.owner) {
                Some(Error::Naim(NaimError::Unauthorized))
            } else if !(price > 0) {
                Some(Error::Naim(NaimError::InvalidPrice))
            } else if !(currency <= 2) {
                Some(Error::Naim(NaimError::InvalidCurrency))
            } else {
                None
            };
            match res {
                Ok(_) => {
                    &&& due is None
                    &&& after.listing matches Some(l)
                    &&& l.seller == before.owner
                    &&& l.name_hash == name_hash
                    &&& l.currency == currency
                    &&& l.price == price
                    &&& l.created_at == now
                    &&& l.bump == before.listing_bump
                    &&& after == ListName { listing: after.listing, ..before }
                },
                Err(e) => due == Some(e) && after == before,
            }
        }),
{
}

/// A price is changed exactly where the seller of an existing listing asks for one
/// above zero; nothing else in the listing changes.
pub proof fn law_repricing_in_full(
    before: UpdateListing,
    name_hash: [u8; 32],
    new_price: u64,
    after: UpdateListing,
    res: Result<(), Error>,
)
    requires
        update_listing_outcome(before, name_hash, new_price, after, res),
    ensures
        ({
            let l = before.listing->0;
            let due = if before.listing is None {
                Some(Error::AccountNotInitialized)
            } else if !(before.listing_seed == name_hash) {
                Some(Error::ConstraintSeeds)
            } else if !(l.seller == before.seller) {
                Some(Error::Naim(NaimError::Unauthorized))
            } else if !(new_price > 0) {
                Some(Error::Naim(NaimError::InvalidPrice))
            } else {
                None
            };
            match res {
                Ok(_) => {
                    &&& due is None
                    &&& after.listing matches Some(new)
                    &&& new.price == new_price
                    &&& new.seller == l.seller
                    &&& new.name_hash == l.name_hash
                    &&& new.currency == l.currency
                    &&& new.created_at == l.created_at
                    &&& new.bump == l.bump
                    &&& after == UpdateListing { listing: after.listing, ..before }
                },
                Err(e) => due == Some(e) && after == before,
            }
        }),
{
}

/// A listing is taken back exactly where its seller asks: it is gone, and its rent
/// goes to the seller.
pub proof fn law_delisting_in_full(
    before: UnlistName,
    name_hash: [u8; 32],
    after: UnlistName,
    res: Result<Vec<Action>, Error>,
)
    requires
        unlist_name_outcome(before, name_hash, after, res),
    ensures
        ({
            let due = if before.listing is None {
                Some(Error::AccountNotInitialized)
            } else if !(before.listing_seed == name_hash) {
                Some(Error::ConstraintSeeds)
            } else if !(before.listing->0.seller == before.seller) {
                Some(Error::Naim(NaimError::Unauthorized))
            } else {
                None
            };
            match res {
                Ok(actions) => {
                    &&& due is None
                    &&& after.listing is None
                    &&& after.listing_seed == before.listing_seed
                    &&& after.seller == before.seller
                    &&& actions@.len() == 1
                    &&& actions@[0] == (Action::Close {
                        record: Record::Listing,
                        refund_to: before.seller,
                    })
                },
                Err(e) => due == Some(e) && after == before,
            }
        }),
{
}

/// The market's fee on a sale for tokens: the lower tier for $NAIM, the other for
/// USDC.
pub open spec fn token_sale_fee(ctx: BuyWithToken) -> int {
    cut(
        ctx.listing->0.price as int,
        if ctx.listing->0.currency == 0 {
            ctx.market_config.fee_naim_bps as int
        } else {
            ctx.market_config.fee_stable_bps as int
        },
    )
}

/// Which error a purchase for tokens is due, if any.
pub open spec fn token_sale_due(ctx: BuyWithToken, name_hash: [u8; 32]) -> Option<Error> {
    let l = ctx.listing->0;
    if ctx.listing is None || ctx.name_record is None {
        Some(Error::AccountNotInitialized)
    } else if !(ctx.listing_seed == name_hash) {
        Some(Error::ConstraintSeeds)
    } else if !(l.seller == ctx.seller) {
        Some(Error::Naim(NaimError::Unauthorized))
    } else if !(ctx.name_record_seed == name_hash) {
        Some(Error::ConstraintSeeds)
    } else if !(ctx.market_config.treasury == ctx.market_treasury) {
        Some(Error::Naim(NaimError::Unauthorized))
    } else if !(ctx.name_record->0.owner == l.seller) {
        Some(Error::Naim(NaimError::SellerNotOwner))
    } else if !(ctx.buyer != l.seller) {
        Some(Error::Naim(NaimError::SelfPurchase))
    } else if !(l.currency == 0 || l.currency == 2) {
        Some(Error::Naim(NaimError::CurrencyMismatch))
    } else if !(ctx.pay_mint.key == if l.currency == 0 {
        ctx.token_config.naim_mint
    } else {
        ctx.market_config.usdc_mint
    }) {
        Some(Error::Naim(NaimError::WrongPayMint))
    } else {
        None
    }
}

/// A name that is bought belongs and resolves to the buyer, whatever it resolved to
/// before, for tokens and for SOL alike. Its URI, expiry, flag and wallets stay.
pub proof fn law_bought_names_are_the_buyers(
    t: BuyWithToken,
    t_after: BuyWithToken,
    s: BuyWithSol,
    s_after: BuyWithSol,
    name_hash: [u8; 32],
    res: Result<Vec<Action>, Error>,
)
    requires
        res is Ok,
    ensures
        ({
            let r = t.name_record->0;
            buy_with_token_outcome(t, name_hash, t_after, res) ==> reads(
                t_after.name_record,
                t.buyer,
                t.buyer,
                r.metadata_uri@,
                r.expiry_timestamp as int,
                r.verified,
                r.linked_wallets@,
                r.bump,
            )
        }),
        ({
            let r = s.name_record->0;
            buy_with_sol_outcome(s, name_hash, s_after, res) ==> reads(
                s_after.name_record,
                s.buyer,
                s.buyer,
                r.metadata_uri@,
                r.expiry_timestamp as int,
                r.verified,
                r.linked_wallets@,
                r.bump,
            )
        }),
{
}

/// A purchase for tokens succeeds exactly where the seller still owns the name, the
/// buyer is another wallet and pays in the mint of the listing's currency. The buyer
/// then pays the price: the fee of the currency's tier to the treasury, the rest to
/// the seller, who also gets the listing's rent.
pub proof fn law_token_sale_in_full(
    before: BuyWithToken,
    name_hash: [u8; 32],
    after: BuyWithToken,
    res: Result<Vec<Action>, Error>,
)
    requires
        buy_with_token_outcome(before, name_hash, after, res),
    ensures
        match res {
            Ok(actions) => {
                let price = before.listing->0.price as int;
                let fee = token_sale_fee(before);
                let rest = if fee > price {
                    0
                } else {
                    price - fee
                };
                &&& token_sale_due(before, name_hash) is None
                &&& actions@ == from_wallet(before.pay_mint, before.buyer, before.seller, rest)
                    + from_wallet(before.pay_mint, before.buyer, before.market_treasury, fee) + seq![
                    Action::Close { record: Record::Listing, refund_to: before.seller },
                ]
                &&& after.listing is None
                &&& after == BuyWithToken {
                    listing: after.listing,
                    name_record: after.name_record,
                    ..before
                }
            },
            Err(e) => token_sale_due(before, name_hash) == Some(e) && after == before,
        },
{
    law_share_is_rounded_down(before.listing->0.price, before.fee_bps());
}

/// Which error a purchase for SOL is due, if any.
pub open spec fn sol_sale_due(ctx: BuyWithSol, name_hash: [u8; 32]) -> Option<Error> {
    let l = ctx.listing->0;
    if ctx.listing is None || ctx.name_record is None {
        Some(Error::AccountNotInitialized)
    } else if !(ctx.listing_seed == name_hash) {
        Some(Error::ConstraintSeeds)
    } else if !(l.seller == ctx.seller) {
        Some(Error::Naim(NaimError::Unauthorized))
    } else if !(ctx.name_record_seed == name_hash) {
        Some(Error::ConstraintSeeds)
    } else if !(ctx.market_config.treasury == ctx.treasury) {
        Some(Error::Naim(NaimError::Unauthorized))
    } else if !(ctx.name_record->0.owner == l.seller) {
        Some(Error::Naim(NaimError::SellerNotOwner))
    } else if !(ctx.buyer != l.seller) {
        Some(Error::Naim(NaimError::SelfPurchase))
    } else if !(l.currency == 1) {
        Some(Error::Naim(NaimError::CurrencyMismatch))
    } else {
        None
    }
}

/// A purchase for SOL succeeds exactly where the listing is in SOL, the seller still
/// owns the name and the buyer is another wallet. The buyer then pays the price: the
/// fee to the treasury, the rest to the seller, who also gets the listing's rent.
pub proof fn law_sol_sale_in_full(
    before: BuyWithSol,
    name_hash: [u8; 32],
    after: BuyWithSol,
    res: Result<Vec<Action>, Error>,
)
    requires
        buy_with_sol_outcome(before, name_hash, after, res),
    ensures
        match res {
            Ok(actions) => {
                let price = before.listing->0.price as int;
                let fee = cut(price, before.market_config.fee_stable_bps as int);
                let rest = if fee > price {
                    0
                } else {
                    price - fee
                };
                &&& sol_sale_due(before, name_hash) is None
                &&& actions@ == lamports_from(before.buyer, before.seller, rest) + lamports_from(
                    before.buyer,
                    before.treasury,
                    fee,
                ) + seq![Action::Close { record: Record::Listing, refund_to: before.seller }]
                &&& after.listing is None
                &&& after == BuyWithSol {
                    listing: after.listing,
                    name_record: after.name_record,
                    ..before
                }
            },
            Err(e) => sol_sale_due(before, name_hash) == Some(e) && after == before,
        },
{
    law_share_is_rounded_down(
        before.listing->0.price,
        before.market_config.fee_stable_bps,
    );
}

} // verus!
