use naim::action::{Action, Mint, Record};
use naim::category::{
    close_category, register_category, register_category_with_digest, register_under_category,
    register_under_category_with_digests, transfer_category, try_register_under_category,
    CloseCategory, RegisterCategory, RegisterUnderCategory, UpdateCategory,
};
use naim::error::{Error, NaimError};
use naim::pubkey::Pubkey;
use naim::state::{CategoryRecord, Config, NameRecord, ReputationRecord, TokenConfig};

const DEFI_SHA256: [u8; 32] = [149, 36, 0, 175, 255, 76, 228, 4, 38, 245, 248, 88, 195, 143, 165, 215, 167, 239, 203, 250, 122, 161, 83, 239, 73, 64, 50, 191, 63, 151, 1, 92];
const SUB_SHA256: [u8; 32] = [17, 64, 145, 2, 193, 211, 181, 27, 214, 68, 219, 209, 192, 202, 54, 1, 47, 95, 238, 253, 242, 119, 114, 170, 210, 27, 235, 30, 1, 95, 52, 120];

fn key(n: u8) -> Pubkey {
    Pubkey { bytes: [n; 32] }
}

fn naim(e: NaimError) -> Error {
    Error::Naim(e)
}

fn token_config() -> TokenConfig {
    TokenConfig {
        admin: key(1),
        naim_mint: key(2),
        treasury: key(3),
        fee_1_4: 1_000,
        fee_5_9: 501,
        fee_10_plus: 99,
        verify_fee: 77,
        treasury_bps: 5_000,
        stakers_bps: 3_000,
        burn_bps: 2_000,
        total_burned: 10,
        bump: 250,
        vault_bump: 251,
    }
}

fn mint() -> Mint {
    Mint { key: key(2), decimals: 6 }
}

fn pay(from: u8, to: u8, amount: u64) -> Action {
    Action::TransferToken {
        mint: key(2),
        from: key(from),
        to: key(to),
        amount,
        decimals: 6,
        signer: None,
    }
}

fn burn(from: u8, amount: u64) -> Action {
    Action::BurnToken { mint: key(2), from: key(from), amount }
}

fn config() -> Config {
    Config {
        admin: key(1),
        treasury: key(3),
        fee_1_4: 0,
        fee_5_9: 0,
        fee_10_plus: 0,
        verify_fee: 0,
        registration_period: 1_000,
        grace_period: 100,
        bump: 254,
    }
}

fn category() -> CategoryRecord {
    CategoryRecord {
        owner: key(40),
        royalty_bps: 500,
        sub_count: 3,
        total_earned: 12,
        bump: 170,
    }
}

fn category_registration() -> RegisterCategory {
    RegisterCategory {
        token_config: token_config(),
        category_record: None,
        category_record_seed: DEFI_SHA256,
        payer: key(9),
        naim_mint: mint(),
        stakers_vault: key(8),
        category_record_bump: 170,
    }
}

fn sub_registration() -> RegisterUnderCategory {
    RegisterUnderCategory {
        config: config(),
        token_config: token_config(),
        name_record: None,
        name_record_seed: SUB_SHA256,
        reputation_record: ReputationRecord {
            name_hash: [0; 32],
            created_at: 0,
            renew_count: 4,
            bump: 0,
        },
        reputation_record_seed: SUB_SHA256,
        category: Some(category()),
        category_seed: DEFI_SHA256,
        category_owner: key(40),
        payer: key(9),
        naim_mint: mint(),
        stakers_vault: key(8),
        name_record_bump: 200,
        reputation_record_bump: 201,
    }
}

fn mint_sub(ctx: &mut RegisterUnderCategory, now: i64) -> Result<Vec<Action>, Error> {
    register_under_category(
        ctx,
        "bot.defi.agent".to_string(),
        SUB_SHA256,
        "defi.agent".to_string(),
        DEFI_SHA256,
        "ar://x".to_string(),
        now,
    )
}

#[test]
fn category_belongs_to_its_payer() {
    let mut ctx = category_registration();
    let actions = register_category(&mut ctx, "defi.agent".to_string(), DEFI_SHA256).unwrap();
    assert_eq!(actions, vec![pay(9, 3, 49), pay(9, 8, 29), burn(9, 21)]);
    assert_eq!(
        ctx.category_record,
        Some(CategoryRecord {
            owner: key(9),
            royalty_bps: 500,
            sub_count: 0,
            total_earned: 0,
            bump: 170,
        })
    );
    assert_eq!(ctx.token_config.total_burned, 31);
    assert_eq!(
        register_category(&mut ctx, "defi.agent".to_string(), DEFI_SHA256),
        Err(Error::AccountInUse)
    );
}

#[test]
fn category_refusals() {
    let mut ctx = category_registration();
    ctx.category_record_seed = [3; 32];
    assert_eq!(
        register_category(&mut ctx, "defi.agent".to_string(), DEFI_SHA256),
        Err(Error::ConstraintSeeds)
    );
    assert_eq!(
        register_category(&mut ctx, "defi.agent".to_string(), [3; 32]),
        Err(naim(NaimError::InvalidCategory))
    );
    assert_eq!(
        register_category_with_digest(&mut ctx, "defi", [3; 32], &[3; 32]),
        Err(naim(NaimError::InvalidCategory))
    );
    assert_eq!(
        register_category_with_digest(&mut ctx, "..agent", [3; 32], &[3; 32]),
        Err(naim(NaimError::InvalidName))
    );
    ctx.token_config.treasury_bps = 10_000;
    assert_eq!(
        register_category_with_digest(&mut ctx, "defi.agent", [3; 32], &[3; 32]),
        Err(naim(NaimError::InvalidConfig))
    );
    ctx.naim_mint.key = key(77);
    assert_eq!(
        register_category_with_digest(&mut ctx, "defi.agent", [3; 32], &[3; 32]),
        Err(Error::ConstraintAddress)
    );
    assert_eq!(ctx.category_record, None);
}

#[test]
fn sub_name_pays_the_royalty_first() {
    let mut ctx = sub_registration();
    let actions = mint_sub(&mut ctx, 500).unwrap();
    assert_eq!(
        actions,
        vec![pay(9, 40, 4), pay(9, 3, 47), pay(9, 8, 28), burn(9, 20)]
    );
    assert_eq!(
        ctx.category,
        Some(CategoryRecord { sub_count: 4, total_earned: 16, ..category() })
    );
    assert_eq!(
        ctx.name_record,
        Some(NameRecord {
            owner: key(9),
            resolver: key(9),
            metadata_uri: "ar://x".to_string(),
            expiry_timestamp: 1_500,
            verified: false,
            linked_wallets: vec![],
            bump: 200,
        })
    );
    assert_eq!(
        ctx.reputation_record,
        ReputationRecord {
            name_hash: SUB_SHA256,
            created_at: 500,
            renew_count: 0,
            bump: 201,
        }
    );
    assert_eq!(ctx.token_config.total_burned, 30);
    assert_eq!(mint_sub(&mut ctx, 500), Err(Error::AccountInUse));
}

#[test]
fn short_sub_name_is_permanent() {
    let mut ctx = sub_registration();
    ctx.name_record_seed = [1; 32];
    ctx.reputation_record_seed = [1; 32];
    ctx.category_seed = [2; 32];
    let res = register_under_category_with_digests(
        &mut ctx,
        "a.b",
        [1; 32],
        "b",
        [2; 32],
        String::new(),
        &[1; 32],
        &[2; 32],
        i64::MAX,
    );
    assert!(res.is_ok());
    assert_eq!(ctx.name_record.unwrap().expiry_timestamp, 0);
}

#[test]
fn sub_name_refusals() {
    let mut ctx = sub_registration();
    ctx.category_owner = key(41);
    assert_eq!(mint_sub(&mut ctx, 0), Err(naim(NaimError::Unauthorized)));
    let mut ctx = sub_registration();
    ctx.naim_mint.key = key(77);
    assert_eq!(mint_sub(&mut ctx, 0), Err(Error::ConstraintAddress));
    let mut ctx = sub_registration();
    ctx.category_seed = [9; 32];
    assert_eq!(mint_sub(&mut ctx, 0), Err(Error::ConstraintSeeds));
    let mut ctx = sub_registration();
    ctx.reputation_record_seed = [9; 32];
    assert_eq!(mint_sub(&mut ctx, 0), Err(Error::ConstraintSeeds));
    let mut ctx = sub_registration();
    ctx.name_record_seed = [9; 32];
    assert_eq!(mint_sub(&mut ctx, 0), Err(Error::ConstraintSeeds));
    let mut ctx = sub_registration();
    ctx.token_config.stakers_bps = 9_999;
    assert_eq!(mint_sub(&mut ctx, 0), Err(naim(NaimError::InvalidConfig)));
    let mut ctx = sub_registration();
    let with = |ctx: &mut RegisterUnderCategory, name: &str, parent: &str, n: u8, p: u8, len: usize| {
        register_under_category_with_digests(
            ctx,
            name,
            SUB_SHA256,
            parent,
            DEFI_SHA256,
            "u".repeat(len),
            &if n == 0 { SUB_SHA256 } else { [n; 32] },
            &if p == 0 { DEFI_SHA256 } else { [p; 32] },
            0,
        )
    };
    let name = "bot.defi.agent";
    assert_eq!(
        with(&mut ctx, "Bot.defi.agent", "defi.agent", 0, 0, 0),
        Err(naim(NaimError::InvalidName))
    );
    assert_eq!(
        with(&mut ctx, name, "defi.agent", 1, 0, 0),
        Err(naim(NaimError::InvalidName))
    );
    assert_eq!(
        with(&mut ctx, name, "defi.agent", 0, 1, 0),
        Err(naim(NaimError::InvalidCategory))
    );
    assert_eq!(
        with(&mut ctx, name, "agent", 0, 0, 0),
        Err(naim(NaimError::NotUnderCategory))
    );
    assert_eq!(
        with(&mut ctx, name, "defi.agent", 0, 0, 201),
        Err(naim(NaimError::MetadataUriTooLong))
    );
    assert_eq!(ctx, sub_registration());
    assert!(with(&mut ctx, name, "defi.agent", 0, 0, 200).is_ok());
}

#[test]
fn sub_name_counts_stop_at_the_largest_value() {
    let mut ctx = sub_registration();
    let full = CategoryRecord { sub_count: u64::MAX, total_earned: u64::MAX, ..category() };
    ctx.category = Some(CategoryRecord { total_earned: u64::MAX - 1, ..full });
    assert!(mint_sub(&mut ctx, 0).is_ok());
    assert_eq!(ctx.category, Some(full));
}

#[test]
fn try_sub_name_reports_times_out_of_range() {
    let mut ctx = sub_registration();
    let go = |ctx: &mut RegisterUnderCategory, hash: [u8; 32]| {
        try_register_under_category(
            ctx,
            "bot.defi.agent".to_string(),
            hash,
            "defi.agent".to_string(),
            DEFI_SHA256,
            String::new(),
            i64::MAX,
        )
    };
    assert_eq!(go(&mut ctx, SUB_SHA256), None);
    assert_eq!(ctx, sub_registration());
    assert_eq!(go(&mut ctx, [0; 32]), Some(Err(Error::ConstraintSeeds)));
    ctx.config.registration_period = 0;
    assert!(matches!(go(&mut ctx, SUB_SHA256), Some(Ok(_))));
}

#[test]
fn category_changes_hands_and_closes() {
    let mut ctx = UpdateCategory { category_record: Some(category()), owner: key(9) };
    assert_eq!(transfer_category(&mut ctx, key(5)), Err(naim(NaimError::Unauthorized)));
    ctx.owner = key(40);
    assert_eq!(transfer_category(&mut ctx, key(5)), Ok(()));
    assert_eq!(ctx.category_record, Some(CategoryRecord { owner: key(5), ..category() }));
    let mut closing = CloseCategory { category_record: ctx.category_record, owner: key(40) };
    assert_eq!(close_category(&mut closing), Err(naim(NaimError::Unauthorized)));
    closing.owner = key(5);
    assert_eq!(
        close_category(&mut closing),
        Ok(vec![Action::Close { record: Record::Category, refund_to: key(5) }])
    );
    assert_eq!(closing.category_record, None);
}

#[test]
fn closed_categories_are_gone() {
    let gone = Error::AccountNotInitialized;
    let mut closing = CloseCategory { category_record: Some(category()), owner: key(40) };
    assert!(close_category(&mut closing).is_ok());
    assert_eq!(close_category(&mut closing), Err(gone));
    let mut update =
        UpdateCategory { category_record: closing.category_record, owner: key(0) };
    assert_eq!(transfer_category(&mut update, key(5)), Err(gone));
    let mut sub = sub_registration();
    sub.category = closing.category_record;
    sub.category_owner = key(0);
    assert_eq!(mint_sub(&mut sub, 0), Err(gone));
    let mut again = category_registration();
    again.category_record = closing.category_record;
    assert!(register_category(&mut again, "defi.agent".to_string(), DEFI_SHA256).is_ok());
}
