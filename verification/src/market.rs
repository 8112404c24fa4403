//! The secondary market: listing, delisting and buying names.
use vstd::prelude::*;

use crate::action::{unless_zero, Action, Mint, Record};
use crate::arith::{bps_share, monus, share_of};
use crate::constants::{CURRENCY_NAIM, CURRENCY_SOL, CURRENCY_USDC};
use crate::error::{Error, NaimError};
use crate::pubkey::{same_bytes, Pubkey};
use crate::state::{
    stored, stored_is_valid, Listing, MarketConfig, NameRecord, NameRecordView, TokenConfig,
};

verus! {

/// The currencies that a listing can be priced in.
pub open spec fn is_currency(currency: u8) -> bool {
    currency == CURRENCY_NAIM || currency == CURRENCY_SOL || currency == CURRENCY_USDC
}

/// What the seller gets of a price: the price less the fee.
pub open spec fn proceeds(price: u64, fee_bps: u16) -> u64 {
    monus(price as int, bps_share(price, fee_bps) as int) as u64
}

/// Accounts of `list_name`.
#[derive(Debug, PartialEq, Eq)]
pub struct ListName {
    pub name_record: Option<NameRecord>,
    /// The hash that the name record's address is derived from.
    pub name_record_seed: [u8; 32],
    /// The name's listing, which must not exist yet.
    pub listing: Option<Listing>,
    /// The hash that the listing's address is derived from.
    pub listing_seed: [u8; 32],
    /// The signer.
    pub owner: Pubkey,
    pub listing_bump: u8,
}

/// Why `list_name` is refused.
pub open spec fn list_name_refusal(
    ctx: ListName,
    name_hash: [u8; 32],
    currency: u8,
    price: u64,
) -> Option<Error> {
    if ctx.name_record is None {
        Some(Error::AccountNotInitialized)
    } else if ctx.listing_seed != name_hash {
        Some(Error::ConstraintSeeds)
    } else if ctx.listing is Some {
        Some(Error::AccountInUse)
    } else if ctx.name_record_seed != name_hash {
        Some(Error::ConstraintSeeds)
    } else if ctx.name_record->0.owner != ctx.owner {
        Some(Error::Naim(NaimError::Unauthorized))
    } else if price == 0 {
        Some(Error::Naim(NaimError::InvalidPrice))
    } else if !is_currency(currency) {
        Some(Error::Naim(NaimError::InvalidCurrency))
    } else {
        None
    }
}

/// How `list_name` takes `before` to `after`, and what it returns.
pub open spec fn list_name_outcome(
    before: ListName,
    name_hash: [u8; 32],
    currency: u8,
    price: u64,
    now: i64,
    after: ListName,
    res: Result<(), Error>,
) -> bool {
    match res {
        Ok(_) => {
            &&& list_name_refusal(before, name_hash, currency, price) is None
            &&& after == (ListName {
                listing: Some(Listing {
                    seller: before.owner,
                    name_hash,
                    currency,
                    price,
                    created_at: now,
                    bump: before.listing_bump,
                }),
                ..before
            })
        },
        Err(e) => {
            &&& list_name_refusal(before, name_hash, currency, price) == Some(e)
            &&& after == before
        },
    }
}

/// Lists a name that the caller owns for sale at `price` in `currency`. The name
/// stays the caller's until someone buys it.
pub fn list_name(
    ctx: &mut ListName,
    name_hash: [u8; 32],
    currency: u8,
    price: u64,
    now: i64,
) -> (res: Result<(), Error>)
    ensures
        list_name_outcome(*old(ctx), name_hash, currency, price, now, *final(ctx), res),
{
    let owner: Pubkey = match &ctx.name_record {
        Some(record) => record.owner,
        None => return Err(Error::AccountNotInitialized),
    };
    if !same_bytes(&ctx.listing_seed, &name_hash) {
        return Err(Error::ConstraintSeeds);
    }
    if ctx.listing.is_some() {
        return Err(Error::AccountInUse);
    }
    if !same_bytes(&ctx.name_record_seed, &name_hash) {
        return Err(Error::ConstraintSeeds);
    }
    if owner != ctx.owner {
        return Err(Error::Naim(NaimError::Unauthorized));
    }
    if price == 0 {
        return Err(Error::Naim(NaimError::InvalidPrice));
    }
    if currency != CURRENCY_NAIM && currency != CURRENCY_SOL && currency != CURRENCY_USDC {
        return Err(Error::Naim(NaimError::InvalidCurrency));
    }
    ctx.listing = Some(Listing {
        seller: ctx.owner,
        name_hash,
        currency,
        price,
        created_at: now,
        bump: ctx.listing_bump,
    });
    Ok(())
}

/// Accounts of `update_listing`.
#[derive(Clone, Copy, Debug, PartialEq, Eq)]
pub struct UpdateListing {
    pub listing: Option<Listing>,
    /// The hash that the listing's address is derived from.
    pub listing_seed: [u8; 32],
    /// The signer.
    pub seller: Pubkey,
}

/// Why `update_listing` is refused.
pub open spec fn update_listing_refusal(
    ctx: UpdateListing,
    name_hash: [u8; 32],
    new_price: u64,
) -> Option<Error> {
    if ctx.listing is None {
        Some(Error::AccountNotInitialized)
    } else if ctx.listing_seed != name_hash {
        Some(Error::ConstraintSeeds)
    } else if ctx.listing->0.seller != ctx.seller {
        Some(Error::Naim(NaimError::Unauthorized))
    } else if new_price == 0 {
        Some(Error::Naim(NaimError::InvalidPrice))
    } else {
        None
    }
}

/// How `update_listing` takes `before` to `after`, and what it returns.
pub open spec fn update_listing_outcome(
    before: UpdateListing,
    name_hash: [u8; 32],
    new_price: u64,
    after: UpdateListing,
    res: Result<(), Error>,
) -> bool {
    match res {
        Ok(_) => {
            &&& update_listing_refusal(before, name_hash, new_price) is None
            &&& after == (UpdateListing {
                listing: Some(Listing { price: new_price, ..before.listing->0 }),
                ..before
            })
        },
        Err(e) => {
            &&& update_listing_refusal(before, name_hash, new_price) == Some(e)
            &&& after == before
        },
    }
}

/// Changes the asking price of the caller's listing; everything else in it stays.
pub fn update_listing(ctx: &mut UpdateListing, name_hash: [u8; 32], new_price: u64) -> (res:
    Result<(), Error>)
    ensures
        update_listing_outcome(*old(ctx), name_hash, new_price, *final(ctx), res),
{
    let listing: Listing = match ctx.listing {
        Some(listing) => listing,
        None => return Err(Error::AccountNotInitialized),
    };
    if !same_bytes(&ctx.listing_seed, &name_hash) {
        return Err(Error::ConstraintSeeds);
    }
    if listing.seller != ctx.seller {
        return Err(Error::Naim(NaimError::Unauthorized));
    }
    if new_price == 0 {
        return Err(Error::Naim(NaimError::InvalidPrice));
    }
    ctx.listing = Some(Listing { price: new_price, ..listing });
    Ok(())
}

/// Accounts of `unlist_name`.
#[derive(Clone, Copy, Debug, PartialEq, Eq)]
pub struct UnlistName {
    pub listing: Option<Listing>,
    /// The hash that the listing's address is derived from.
    pub listing_seed: [u8; 32],
    /// The signer.
    pub seller: Pubkey,
}

/// Why `unlist_name` is refused.
pub open spec fn unlist_name_refusal(ctx: UnlistName, name_hash: [u8; 32]) -> Option<Error> {
    if ctx.listing is None {
        Some(Error::AccountNotInitialized)
    } else if ctx.listing_seed != name_hash {
        Some(Error::ConstraintSeeds)
    } else if ctx.listing->0.seller != ctx.seller {
        Some(Error::Naim(NaimError::Unauthorized))
    } else {
        None
    }
}

/// How `unlist_name` takes `before` to `after`, and what it returns.
pub open spec fn unlist_name_outcome(
    before: UnlistName,
    name_hash: [u8; 32],
    after: UnlistName,
    res: Result<Vec<Action>, Error>,
) -> bool {
    match res {
        Ok(actions) => {
            &&& unlist_name_refusal(before, name_hash) is None
            &&& actions@ == seq![
                Action::Close { record: Record::Listing, refund_to: before.seller },
            ]
            &&& after == UnlistName { listing: None, ..before }
        },
        Err(e) => {
            &&& unlist_name_refusal(before, name_hash) == Some(e)
            &&& after == before
        },
    }
}

/// Delists the caller's name: the listing is closed and its rent goes back to the
/// seller.
pub fn unlist_name(ctx: &mut UnlistName, name_hash: [u8; 32]) -> (res: Result<Vec<Action>, Error>)
    ensures
        unlist_name_outcome(*old(ctx), name_hash, *final(ctx), res),
{
    let listing: Listing = match ctx.listing {
        Some(listing) => listing,
        None => return Err(Error::AccountNotInitialized),
    };
    if !same_bytes(&ctx.listing_seed, &name_hash) {
        return Err(Error::ConstraintSeeds);
    }
    if listing.seller != ctx.seller {
        return Err(Error::Naim(NaimError::Unauthorized));
    }
    ctx.listing = None;
    let mut actions: Vec<Action> = Vec::new();
    actions.push(Action::Close { record: Record::Listing, refund_to: ctx.seller });
    assert(actions@ =~= seq![
        Action::Close { record: Record::Listing, refund_to: old(ctx).seller },
    ]);
    Ok(actions)
}

/// Accounts of `buy_with_token`.
#[derive(Debug, PartialEq, Eq)]
pub struct BuyWithToken {
    pub listing: Option<Listing>,
    /// The hash that the listing's address is derived from.
    pub listing_seed: [u8; 32],
    pub name_record: Option<NameRecord>,
    /// The hash that the name record's address is derived from.
    pub name_record_seed: [u8; 32],
    /// The signer.
    pub buyer: Pubkey,
    pub seller: Pubkey,
    pub token_config: TokenConfig,
    pub market_config: MarketConfig,
    pub market_treasury: Pubkey,
    /// The mint that the buyer pays in.
    pub pay_mint: Mint,
}

impl BuyWithToken {
    /// The mint that the listing's currency is paid in; none for SOL and for an
    /// unknown currency.
    pub open spec fn expected_mint(self) -> Option<Pubkey> {
        if self.listing->0.currency == CURRENCY_NAIM {
            Some(self.token_config.naim_mint)
        } else if self.listing->0.currency == CURRENCY_USDC {
            Some(self.market_config.usdc_mint)
        } else {
            None
        }
    }

    /// The fee on the listing's currency, in basis points.
    pub open spec fn fee_bps(self) -> u16 {
        if self.listing->0.currency == CURRENCY_NAIM {
            self.market_config.fee_naim_bps
        } else {
            self.market_config.fee_stable_bps
        }
    }
}

/// Why `buy_with_token` is refused.
pub open spec fn buy_with_token_refusal(ctx: BuyWithToken, name_hash: [u8; 32]) -> Option<Error> {
    if ctx.listing is None || ctx.name_record is None {
        Some(Error::AccountNotInitialized)
    } else if ctx.listing_seed != name_hash {
        Some(Error::ConstraintSeeds)
    } else if ctx.listing->0.seller != ctx.seller {
        Some(Error::Naim(NaimError::Unauthorized))
    } else if ctx.name_record_seed != name_hash {
        Some(Error::ConstraintSeeds)
    } else if ctx.market_treasury != ctx.market_config.treasury {
        Some(Error::Naim(NaimError::Unauthorized))
    } else if ctx.name_record->0.owner != ctx.listing->0.seller {
        Some(Error::Naim(NaimError::SellerNotOwner))
    } else if ctx.buyer == ctx.listing->0.seller {
        Some(Error::Naim(NaimError::SelfPurchase))
    } else {
        match ctx.expected_mint() {
            None => Some(Error::Naim(NaimError::CurrencyMismatch)),
            Some(mint) => if ctx.pay_mint.key != mint {
                Some(Error::Naim(NaimError::WrongPayMint))
            } else {
                None
            },
        }
    }
}

/// What `buy_with_token` moves: the proceeds to the seller, the fee to the
/// treasury, and the listing's rent to the seller.
pub open spec fn buy_with_token_actions(ctx: BuyWithToken) -> Seq<Action> {
    let price = ctx.listing->0.price;
    let fee_bps = ctx.fee_bps();
    unless_zero(
        proceeds(price, fee_bps),
        Action::TransferToken {
            mint: ctx.pay_mint.key,
            from: ctx.buyer,
            to: ctx.seller,
            amount: proceeds(price, fee_bps),
            decimals: ctx.pay_mint.decimals,
            signer: None,
        },
    ) + unless_zero(
        bps_share(price, fee_bps),
        Action::TransferToken {
            mint: ctx.pay_mint.key,
            from: ctx.buyer,
            to: ctx.market_treasury,
            amount: bps_share(price, fee_bps),
            decimals: ctx.pay_mint.decimals,
            signer: None,
        },
    ) + seq![Action::Close { record: Record::Listing, refund_to: ctx.seller }]
}

/// How `buy_with_token` takes `before` to `after`, and what it returns: the name
/// belongs and resolves to the buyer, and the listing is gone.
pub open spec fn buy_with_token_outcome(
    before: BuyWithToken,
    name_hash: [u8; 32],
    after: BuyWithToken,
    res: Result<Vec<Action>, Error>,
) -> bool {
    match res {
        Ok(actions) => {
            &&& buy_with_token_refusal(before, name_hash) is None
            &&& actions@ == buy_with_token_actions(before)
            &&& stored(after.name_record) == Some(
                NameRecordView {
                    owner: before.buyer,
                    resolver: before.buyer,
                    ..before.name_record->0@
                },
            )
            &&& after == BuyWithToken { listing: None, name_record: after.name_record, ..before }
        },
        Err(e) => {
            &&& buy_with_token_refusal(before, name_hash) == Some(e)
            &&& after == before
        },
    }
}

/// Buys a name listed in $NAIM or USDC: the fee goes to the treasury, the rest of
/// the price to the seller; the name belongs and resolves to the buyer, and the
/// listing is closed.
pub fn buy_with_token(ctx: &mut BuyWithToken, name_hash: [u8; 32]) -> (res: Result<
    Vec<Action>,
    Error,
>)
    ensures
        buy_with_token_outcome(*old(ctx), name_hash, *final(ctx), res),
        stored_is_valid(old(ctx).name_record) ==> stored_is_valid(final(ctx).name_record),
{
    let listing: Listing = match ctx.listing {
        Some(listing) => listing,
        None => return Err(Error::AccountNotInitialized),
    };
    let owner: Pubkey = match &ctx.name_record {
        Some(record) => record.owner,
        None => return Err(Error::AccountNotInitialized),
    };
    if !same_bytes(&ctx.listing_seed, &name_hash) {
        return Err(Error::ConstraintSeeds);
    }
    if listing.seller != ctx.seller {
        return Err(Error::Naim(NaimError::Unauthorized));
    }
    if !same_bytes(&ctx.name_record_seed, &name_hash) {
        return Err(Error::ConstraintSeeds);
    }
    if ctx.market_treasury != ctx.market_config.treasury {
        return Err(Error::Naim(NaimError::Unauthorized));
    }
    if owner != listing.seller {
        return Err(Error::Naim(NaimError::SellerNotOwner));
    }
    if ctx.buyer == listing.seller {
        return Err(Error::Naim(NaimError::SelfPurchase));
    }
    let expected_mint: Pubkey;
    let fee_bps: u16;
    if listing.currency == CURRENCY_NAIM {
        expected_mint = ctx.token_config.naim_mint;
        fee_bps = ctx.market_config.fee_naim_bps;
    } else if listing.currency == CURRENCY_USDC {
        expected_mint = ctx.market_config.usdc_mint;
        fee_bps = ctx.market_config.fee_stable_bps;
    } else {
        return Err(Error::Naim(NaimError::CurrencyMismatch));
    }
    if ctx.pay_mint.key != expected_mint {
        return Err(Error::Naim(NaimError::WrongPayMint));
    }
    let price: u64 = listing.price;
    let fee: u64 = share_of(price, fee_bps);
    let to_seller: u64 = price.saturating_sub(fee);
    let mut actions: Vec<Action> = Vec::new();
    if to_seller > 0 {
        actions.push(
            Action::TransferToken {
                mint: ctx.pay_mint.key,
                from: ctx.buyer,
                to: ctx.seller,
                amount: to_seller,
                decimals: ctx.pay_mint.decimals,
                signer: None,
            },
        );
    }
    if fee > 0 {
        actions.push(
            Action::TransferToken {
                mint: ctx.pay_mint.key,
                from: ctx.buyer,
                to: ctx.market_treasury,
                amount: fee,
                decimals: ctx.pay_mint.decimals,
                signer: None,
            },
        );
    }
    actions.push(Action::Close { record: Record::Listing, refund_to: ctx.seller });
    assert(actions@ =~= buy_with_token_actions(*old(ctx)));
    let buyer: Pubkey = ctx.buyer;
    if let Some(record) = &mut ctx.name_record {
        record.owner = buyer;
        record.resolver = buyer;
    }
    ctx.listing = None;
    Ok(actions)
}

/// Accounts of `buy_with_sol`.
#[derive(Debug, PartialEq, Eq)]
pub struct BuyWithSol {
    pub listing: Option<Listing>,
    /// The hash that the listing's address is derived from.
    pub listing_seed: [u8; 32],
    pub name_record: Option<NameRecord>,
    /// The hash that the name record's address is derived from.
    pub name_record_seed: [u8; 32],
    /// The signer.
    pub buyer: Pubkey,
    pub seller: Pubkey,
    pub market_config: MarketConfig,
    pub treasury: Pubkey,
}

/// Why `buy_with_sol` is refused.
pub open spec fn buy_with_sol_refusal(ctx: BuyWithSol, name_hash: [u8; 32]) -> Option<Error> {
    if ctx.listing is None || ctx.name_record is None {
        Some(Error::AccountNotInitialized)
    } else if ctx.listing_seed != name_hash {
        Some(Error::ConstraintSeeds)
    } else if ctx.listing->0.seller != ctx.seller {
        Some(Error::Naim(NaimError::Unauthorized))
    } else if ctx.name_record_seed != name_hash {
        Some(Error::ConstraintSeeds)
    } else if ctx.treasury != ctx.market_config.treasury {
        Some(Error::Naim(NaimError::Unauthorized))
    } else if ctx.name_record->0.owner != ctx.listing->0.seller {
        Some(Error::Naim(NaimError::SellerNotOwner))
    } else if ctx.buyer == ctx.listing->0.seller {
        Some(Error::Naim(NaimError::SelfPurchase))
    } else if ctx.listing->0.currency != CURRENCY_SOL {
        Some(Error::Naim(NaimError::CurrencyMismatch))
    } else {
        None
    }
}

/// What `buy_with_sol` moves: the proceeds to the seller, the fee to the treasury,
/// and the listing's rent to the seller.
pub open spec fn buy_with_sol_actions(ctx: BuyWithSol) -> Seq<Action> {
    let price = ctx.listing->0.price;
    let fee_bps = ctx.market_config.fee_stable_bps;
    unless_zero(
        proceeds(price, fee_bps),
        Action::TransferSol {
            from: ctx.buyer,
            to: ctx.seller,
            lamports: proceeds(price, fee_bps),
        },
    ) + unless_zero(
        bps_share(price, fee_bps),
        Action::TransferSol {
            from: ctx.buyer,
            to: ctx.treasury,
            lamports: bps_share(price, fee_bps),
        },
    ) + seq![Action::Close { record: Record::Listing, refund_to: ctx.seller }]
}

/// How `buy_with_sol` takes `before` to `after`, and what it returns: the name
/// belongs and resolves to the buyer, and the listing is gone.
pub open spec fn buy_with_sol_outcome(
    before: BuyWithSol,
    name_hash: [u8; 32],
    after: BuyWithSol,
    res: Result<Vec<Action>, Error>,
) -> bool {
    match res {
        Ok(actions) => {
            &&& buy_with_sol_refusal(before, name_hash) is None
            &&& actions@ == buy_with_sol_actions(before)
            &&& stored(after.name_record) == Some(
                NameRecordView {
                    owner: before.buyer,
                    resolver: before.buyer,
                    ..before.name_record->0@
                },
            )
            &&& after == BuyWithSol { listing: None, name_record: after.name_record, ..before }
        },
        Err(e) => {
            &&& buy_with_sol_refusal(before, name_hash) == Some(e)
            &&& after == before
        },
    }
}

/// Buys a name listed in SOL: the fee goes to the treasury, the rest of the price
/// to the seller; the name belongs and resolves to the buyer, and the listing is
/// closed.
pub fn buy_with_sol(ctx: &mut BuyWithSol, name_hash: [u8; 32]) -> (res: Result<
    Vec<Action>,
    Error,
>)
    ensures
        buy_with_sol_outcome(*old(ctx), name_hash, *final(ctx), res),
        stored_is_valid(old(ctx).name_record) ==> stored_is_valid(final(ctx).name_record),
{
    let listing: Listing = match ctx.listing {
        Some(listing) => listing,
        None => return Err(Error::AccountNotInitialized),
    };
    let owner: Pubkey = match &ctx.name_record {
        Some(record) => record.owner,
        None => return Err(Error::AccountNotInitialized),
    };
    if !same_bytes(&ctx.listing_seed, &name_hash) {
        return Err(Error::ConstraintSeeds);
    }
    if listing.seller != ctx.seller {
        return Err(Error::Naim(NaimError::Unauthorized));
    }
    if !same_bytes(&ctx.name_record_seed, &name_hash) {
        return Err(Error::ConstraintSeeds);
    }
    if ctx.treasury != ctx.market_config.treasury {
        return Err(Error::Naim(NaimError::Unauthorized));
    }
    if owner != listing.seller {
        return Err(Error::Naim(NaimError::SellerNotOwner));
    }
    if ctx.buyer == listing.seller {
        return Err(Error::Naim(NaimError::SelfPurchase));
    }
    if listing.currency != CURRENCY_SOL {
        return Err(Error::Naim(NaimError::CurrencyMismatch));
    }
    let price: u64 = listing.price;
    let fee: u64 = share_of(price, ctx.market_config.fee_stable_bps);
    let to_seller: u64 = price.saturating_sub(fee);
    let mut actions: Vec<Action> = Vec::new();
    if to_seller > 0 {
        actions.push(
            Action::TransferSol { from: ctx.buyer, to: ctx.seller, lamports: to_seller },
        );
    }
    if fee > 0 {
        actions.push(Action::TransferSol { from: ctx.buyer, to: ctx.treasury, lamports: fee });
    }
    actions.push(Action::Close { record: Record::Listing, refund_to: ctx.seller });
    assert(actions@ =~= buy_with_sol_actions(*old(ctx)));
    let buyer: Pubkey = ctx.buyer;
    if let Some(record) = &mut ctx.name_record {
        record.owner = buyer;
        record.resolver = buyer;
    }
    ctx.listing = None;
    Ok(actions)
}

} // verus!
