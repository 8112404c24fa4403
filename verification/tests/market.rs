use naim::action::{Action, Mint, Record};
use naim::constants::{CURRENCY_NAIM, CURRENCY_SOL, CURRENCY_USDC};
use naim::error::{Error, NaimError};
use naim::market::{
    buy_with_sol, buy_with_token, list_name, unlist_name, update_listing, BuyWithSol,
    BuyWithToken, ListName, UnlistName, UpdateListing,
};
use naim::pubkey::Pubkey;
use naim::state::{Listing, MarketConfig, NameRecord, TokenConfig};

const HASH: [u8; 32] = [42; 32];

fn key(n: u8) -> Pubkey {
    Pubkey { bytes: [n; 32] }
}

fn naim(e: NaimError) -> Error {
    Error::Naim(e)
}

fn token_config() -> TokenConfig {
    TokenConfig {
        admin: key(1),
        naim_mint: key(2),
        treasury: key(3),
        fee_1_4: 1_000,
        fee_5_9: 501,
        fee_10_plus: 99,
        verify_fee: 77,
        treasury_bps: 5_000,
        stakers_bps: 3_000,
        burn_bps: 2_000,
        total_burned: 10,
        bump: 250,
        vault_bump: 251,
    }
}


fn market_config() -> MarketConfig {
    MarketConfig {
        admin: key(1),
        usdc_mint: key(50),
        treasury: key(51),
        fee_naim_bps: 100,
        fee_stable_bps: 250,
        bump: 0,
    }
}

fn record(owner: u8) -> NameRecord {
    NameRecord {
        owner: key(owner),
        resolver: key(13),
        metadata_uri: "ar://x".to_string(),
        expiry_timestamp: 99,
        verified: true,
        linked_wallets: vec![key(14)],
        bump: 200,
    }
}

fn listing(currency: u8, price: u64) -> Listing {
    Listing { seller: key(9), name_hash: HASH, currency, price, created_at: 5, bump: 180 }
}

fn token_sale(currency: u8, price: u64, pay_mint: u8) -> BuyWithToken {
    BuyWithToken {
        listing: Some(listing(currency, price)),
        listing_seed: HASH,
        name_record: Some(record(9)),
        name_record_seed: HASH,
        buyer: key(10),
        seller: key(9),
        token_config: token_config(),
        market_config: market_config(),
        market_treasury: key(51),
        pay_mint: Mint { key: key(pay_mint), decimals: 6 },
    }
}

fn sol_sale(currency: u8, price: u64) -> BuyWithSol {
    BuyWithSol {
        listing: Some(listing(currency, price)),
        listing_seed: HASH,
        name_record: Some(record(9)),
        name_record_seed: HASH,
        buyer: key(10),
        seller: key(9),
        market_config: market_config(),
        treasury: key(51),
    }
}

fn sold_record() -> NameRecord {
    let mut r = record(10);
    r.resolver = key(10);
    r
}

fn token(mint: u8, to: u8, amount: u64) -> Action {
    Action::TransferToken {
        mint: key(mint),
        from: key(10),
        to: key(to),
        amount,
        decimals: 6,
        signer: None,
    }
}

fn close() -> Action {
    Action::Close { record: Record::Listing, refund_to: key(9) }
}

#[test]
fn owner_lists_a_name_once() {
    let mut ctx = ListName {
        name_record: Some(record(9)),
        name_record_seed: HASH,
        listing: None,
        listing_seed: HASH,
        owner: key(9),
        listing_bump: 180,
    };
    assert_eq!(
        list_name(&mut ctx, HASH, CURRENCY_SOL, 0, 5),
        Err(naim(NaimError::InvalidPrice))
    );
    assert_eq!(list_name(&mut ctx, HASH, 3, 7, 5), Err(naim(NaimError::InvalidCurrency)));
    assert_eq!(
        list_name(&mut ctx, [1; 32], CURRENCY_SOL, 7, 5),
        Err(Error::ConstraintSeeds)
    );
    assert_eq!(list_name(&mut ctx, HASH, CURRENCY_USDC, 7, 5), Ok(()));
    assert_eq!(ctx.listing, Some(listing(CURRENCY_USDC, 7)));
    assert_eq!(ctx.name_record, Some(record(9)));
    assert_eq!(list_name(&mut ctx, HASH, CURRENCY_USDC, 7, 5), Err(Error::AccountInUse));
    ctx.listing = None;
    ctx.name_record_seed = [1; 32];
    assert_eq!(list_name(&mut ctx, HASH, CURRENCY_USDC, 7, 5), Err(Error::ConstraintSeeds));
    ctx.name_record_seed = HASH;
    ctx.owner = key(10);
    assert_eq!(
        list_name(&mut ctx, HASH, CURRENCY_NAIM, 7, 5),
        Err(naim(NaimError::Unauthorized))
    );
}

#[test]
fn seller_changes_the_price() {
    let mut ctx = UpdateListing {
        listing: Some(listing(CURRENCY_SOL, 7)),
        listing_seed: HASH,
        seller: key(10),
    };
    assert_eq!(update_listing(&mut ctx, HASH, 8), Err(naim(NaimError::Unauthorized)));
    ctx.seller = key(9);
    assert_eq!(update_listing(&mut ctx, [0; 32], 8), Err(Error::ConstraintSeeds));
    assert_eq!(update_listing(&mut ctx, HASH, 0), Err(naim(NaimError::InvalidPrice)));
    assert_eq!(update_listing(&mut ctx, HASH, 8), Ok(()));
    assert_eq!(ctx.listing, Some(listing(CURRENCY_SOL, 8)));
}

#[test]
fn seller_delists() {
    let mut ctx = UnlistName {
        listing: Some(listing(CURRENCY_SOL, 7)),
        listing_seed: HASH,
        seller: key(10),
    };
    assert_eq!(unlist_name(&mut ctx, HASH), Err(naim(NaimError::Unauthorized)));
    ctx.seller = key(9);
    assert_eq!(unlist_name(&mut ctx, [0; 32]), Err(Error::ConstraintSeeds));
    assert_eq!(unlist_name(&mut ctx, HASH), Ok(vec![close()]));
    assert_eq!(ctx.listing, None);
}

#[test]
fn naim_sale_pays_the_lower_fee() {
    let mut ctx = token_sale(CURRENCY_NAIM, 999, 2);
    assert_eq!(
        buy_with_token(&mut ctx, HASH),
        Ok(vec![token(2, 9, 990), token(2, 51, 9), close()])
    );
    assert_eq!(ctx.name_record, Some(sold_record()));
    assert_eq!(ctx.listing, None);
}

#[test]
fn usdc_sale_pays_the_stable_fee() {
    let mut ctx = token_sale(CURRENCY_USDC, 1_000, 50);
    assert_eq!(
        buy_with_token(&mut ctx, HASH),
        Ok(vec![token(50, 9, 975), token(50, 51, 25), close()])
    );
    assert_eq!(ctx.name_record, Some(sold_record()));
    let mut tiny = token_sale(CURRENCY_USDC, 1, 50);
    assert_eq!(buy_with_token(&mut tiny, HASH), Ok(vec![token(50, 9, 1), close()]));
}

#[test]
fn token_sale_refusals() {
    let mut ctx = token_sale(CURRENCY_NAIM, 1_000, 50);
    assert_eq!(buy_with_token(&mut ctx, HASH), Err(naim(NaimError::WrongPayMint)));
    let mut ctx = token_sale(CURRENCY_USDC, 1_000, 2);
    assert_eq!(buy_with_token(&mut ctx, HASH), Err(naim(NaimError::WrongPayMint)));
    let mut ctx = token_sale(CURRENCY_SOL, 1_000, 2);
    assert_eq!(buy_with_token(&mut ctx, HASH), Err(naim(NaimError::CurrencyMismatch)));
    let mut ctx = token_sale(CURRENCY_NAIM, 1_000, 2);
    ctx.buyer = key(9);
    assert_eq!(buy_with_token(&mut ctx, HASH), Err(naim(NaimError::SelfPurchase)));
    let mut ctx = token_sale(CURRENCY_NAIM, 1_000, 2);
    ctx.name_record = Some(record(11));
    assert_eq!(buy_with_token(&mut ctx, HASH), Err(naim(NaimError::SellerNotOwner)));
    let mut ctx = token_sale(CURRENCY_NAIM, 1_000, 2);
    ctx.seller = key(11);
    assert_eq!(buy_with_token(&mut ctx, HASH), Err(naim(NaimError::Unauthorized)));
    let mut ctx = token_sale(CURRENCY_NAIM, 1_000, 2);
    ctx.market_treasury = key(11);
    assert_eq!(buy_with_token(&mut ctx, HASH), Err(naim(NaimError::Unauthorized)));
    let mut ctx = token_sale(CURRENCY_NAIM, 1_000, 2);
    ctx.name_record_seed = [1; 32];
    assert_eq!(buy_with_token(&mut ctx, HASH), Err(Error::ConstraintSeeds));
    ctx.listing_seed = [1; 32];
    assert_eq!(buy_with_token(&mut ctx, HASH), Err(Error::ConstraintSeeds));
    assert_eq!(ctx.name_record, Some(record(9)));
}

#[test]
fn sol_sale_moves_lamports() {
    let mut ctx = sol_sale(CURRENCY_SOL, 1_000);
    assert_eq!(
        buy_with_sol(&mut ctx, HASH),
        Ok(vec![
            Action::TransferSol { from: key(10), to: key(9), lamports: 975 },
            Action::TransferSol { from: key(10), to: key(51), lamports: 25 },
            close(),
        ])
    );
    assert_eq!(ctx.name_record, Some(sold_record()));
    assert_eq!(ctx.listing, None);
}

#[test]
fn sol_sale_refusals() {
    let mut ctx = sol_sale(CURRENCY_NAIM, 1_000);
    assert_eq!(buy_with_sol(&mut ctx, HASH), Err(naim(NaimError::CurrencyMismatch)));
    let mut ctx = sol_sale(CURRENCY_SOL, 1_000);
    ctx.buyer = key(9);
    assert_eq!(buy_with_sol(&mut ctx, HASH), Err(naim(NaimError::SelfPurchase)));
    let mut ctx = sol_sale(CURRENCY_SOL, 1_000);
    ctx.name_record = Some(record(11));
    assert_eq!(buy_with_sol(&mut ctx, HASH), Err(naim(NaimError::SellerNotOwner)));
    let mut ctx = sol_sale(CURRENCY_SOL, 1_000);
    ctx.treasury = key(11);
    assert_eq!(buy_with_sol(&mut ctx, HASH), Err(naim(NaimError::Unauthorized)));
    let mut ctx = sol_sale(CURRENCY_SOL, 1_000);
    ctx.seller = key(11);
    assert_eq!(buy_with_sol(&mut ctx, HASH), Err(naim(NaimError::Unauthorized)));
    let mut ctx = sol_sale(CURRENCY_SOL, 1_000);
    assert_eq!(buy_with_sol(&mut ctx, [0; 32]), Err(Error::ConstraintSeeds));
}

#[test]
fn listing_sells_once() {
    let mut ctx = sol_sale(CURRENCY_SOL, 1_000);
    assert!(buy_with_sol(&mut ctx, HASH).is_ok());
    let mut again = sol_sale(CURRENCY_SOL, 1_000);
    again.name_record = ctx.name_record;
    again.buyer = key(12);
    assert_eq!(buy_with_sol(&mut again, HASH), Err(naim(NaimError::SellerNotOwner)));
}

#[test]
fn naim_tier_leaves_the_seller_more() {
    let mut in_naim = token_sale(CURRENCY_NAIM, 10_000, 2);
    let mut in_usdc = token_sale(CURRENCY_USDC, 10_000, 50);
    assert_eq!(
        buy_with_token(&mut in_naim, HASH),
        Ok(vec![token(2, 9, 9_900), token(2, 51, 100), close()])
    );
    assert_eq!(
        buy_with_token(&mut in_usdc, HASH),
        Ok(vec![token(50, 9, 9_750), token(50, 51, 250), close()])
    );
}

#[test]
fn closed_listings_sell_nothing_and_can_be_reopened() {
    let gone = Error::AccountNotInitialized;
    let mut unlist = UnlistName {
        listing: Some(listing(CURRENCY_SOL, 7)),
        listing_seed: HASH,
        seller: key(9),
    };
    assert!(unlist_name(&mut unlist, HASH).is_ok());
    assert_eq!(unlist_name(&mut unlist, HASH), Err(gone));
    let mut update =
        UpdateListing { listing: unlist.listing, listing_seed: HASH, seller: key(9) };
    assert_eq!(update_listing(&mut update, HASH, 8), Err(gone));
    let mut for_sol = sol_sale(CURRENCY_SOL, 7);
    for_sol.listing = unlist.listing;
    for_sol.name_record = Some(record(0));
    for_sol.seller = key(0);
    assert_eq!(buy_with_sol(&mut for_sol, HASH), Err(gone));
    let mut for_token = token_sale(CURRENCY_NAIM, 7, 2);
    for_token.name_record = None;
    assert_eq!(buy_with_token(&mut for_token, HASH), Err(gone));
    let mut relist = ListName {
        name_record: Some(record(9)),
        name_record_seed: HASH,
        listing: unlist.listing,
        listing_seed: HASH,
        owner: key(9),
        listing_bump: 180,
    };
    assert_eq!(list_name(&mut relist, HASH, CURRENCY_SOL, 7, 5), Ok(()));
    relist.name_record = None;
    assert_eq!(list_name(&mut relist, HASH, CURRENCY_SOL, 7, 5), Err(gone));
}

#[test]
fn buyers_list_what_they_bought() {
    let mut ctx = sol_sale(CURRENCY_SOL, 1_000);
    assert!(buy_with_sol(&mut ctx, HASH).is_ok());
    let mut relist = ListName {
        name_record: ctx.name_record,
        name_record_seed: HASH,
        listing: ctx.listing,
        listing_seed: HASH,
        owner: key(10),
        listing_bump: 180,
    };
    assert_eq!(list_name(&mut relist, HASH, CURRENCY_NAIM, 7, 5), Ok(()));
}
