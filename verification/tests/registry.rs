use naim::action::{Action, Mint, Record};
use naim::error::{Error, NaimError};
use naim::pubkey::Pubkey;
use naim::registry::{
    link_wallet, register_name, register_name_with_digest, release_name, renew_name,
    renew_name_with_digest, transfer_name, try_register_name, try_renew_name, update_metadata,
    update_resolver, verify_name, LinkWallet, RegisterName, ReleaseName, RenewName, UpdateName,
    VerifyName,
};
use naim::state::{Config, NameRecord, ReputationRecord, StakeAccount, TokenConfig};

const ALICE_SHA256: [u8; 32] = [43, 216, 6, 201, 127, 14, 0, 175, 26, 31, 195, 50, 143, 167, 99, 169, 38, 151, 35, 200, 219, 143, 172, 79, 147, 175, 113, 219, 24, 109, 110, 144];
const BOB_SHA256: [u8; 32] = [129, 182, 55, 216, 252, 210, 198, 218, 99, 89, 230, 150, 49, 19, 161, 23, 13, 231, 149, 228, 183, 37, 184, 77, 30, 11, 76, 253, 158, 197, 140, 233];

fn key(n: u8) -> Pubkey {
    Pubkey { bytes: [n; 32] }
}

fn naim(e: NaimError) -> Error {
    Error::Naim(e)
}

fn token_config() -> TokenConfig {
    TokenConfig {
        admin: key(1),
        naim_mint: key(2),
        treasury: key(3),
        fee_1_4: 1_000,
        fee_5_9: 501,
        fee_10_plus: 99,
        verify_fee: 77,
        treasury_bps: 5_000,
        stakers_bps: 3_000,
        burn_bps: 2_000,
        total_burned: 10,
        bump: 250,
        vault_bump: 251,
    }
}

fn mint() -> Mint {
    Mint { key: key(2), decimals: 6 }
}

fn pay(from: u8, to: u8, amount: u64) -> Action {
    Action::TransferToken {
        mint: key(2),
        from: key(from),
        to: key(to),
        amount,
        decimals: 6,
        signer: None,
    }
}

fn burn(from: u8, amount: u64) -> Action {
    Action::BurnToken { mint: key(2), from: key(from), amount }
}

fn config() -> Config {
    Config {
        admin: key(1),
        treasury: key(3),
        fee_1_4: 0,
        fee_5_9: 0,
        fee_10_plus: 0,
        verify_fee: 0,
        registration_period: 1_000,
        grace_period: 100,
        bump: 254,
    }
}

fn blank_reputation() -> ReputationRecord {
    ReputationRecord { name_hash: [0; 32], created_at: 0, renew_count: 0, bump: 0 }
}

fn registration(hash: [u8; 32]) -> RegisterName {
    RegisterName {
        config: config(),
        token_config: token_config(),
        name_record: None,
        name_record_seed: hash,
        payer: key(9),
        reputation_record: blank_reputation(),
        reputation_record_seed: hash,
        naim_mint: mint(),
        stakers_vault: key(8),
        stake_account: None,
        name_record_bump: 200,
        reputation_record_bump: 201,
    }
}

fn record(owner: u8, expiry: i64) -> NameRecord {
    NameRecord {
        owner: key(owner),
        resolver: key(owner),
        metadata_uri: "ar://x".to_string(),
        expiry_timestamp: expiry,
        verified: false,
        linked_wallets: vec![],
        bump: 200,
    }
}

fn renewal(expiry: i64) -> RenewName {
    RenewName {
        config: config(),
        token_config: token_config(),
        name_record: Some(record(9, expiry)),
        name_record_seed: ALICE_SHA256,
        owner: key(9),
        reputation_record: ReputationRecord {
            name_hash: ALICE_SHA256,
            created_at: 50,
            renew_count: 2,
            bump: 201,
        },
        reputation_record_seed: ALICE_SHA256,
        naim_mint: mint(),
        stakers_vault: key(8),
        reputation_record_bump: 201,
    }
}

fn register_alice(ctx: &mut RegisterName, now: i64) -> Result<Vec<Action>, Error> {
    register_name(ctx, "alice".to_string(), ALICE_SHA256, "ar://x".to_string(), now)
}

#[test]
fn register_writes_a_fresh_record() {
    let mut ctx = registration(ALICE_SHA256);
    ctx.reputation_record.renew_count = 7;
    let actions = register_alice(&mut ctx, 500).unwrap();
    assert_eq!(actions, vec![pay(9, 3, 250), pay(9, 8, 150), burn(9, 101)]);
    assert_eq!(ctx.name_record, Some(record(9, 1_500)));
    assert_eq!(
        ctx.reputation_record,
        ReputationRecord {
            name_hash: ALICE_SHA256,
            created_at: 500,
            renew_count: 0,
            bump: 201,
        }
    );
    assert_eq!(ctx.token_config, TokenConfig { total_burned: 111, ..token_config() });
}

#[test]
fn short_names_never_expire() {
    let mut ctx = registration(BOB_SHA256);
    let actions =
        register_name(&mut ctx, "bob".to_string(), BOB_SHA256, String::new(), i64::MAX).unwrap();
    assert_eq!(actions, vec![pay(9, 3, 500), pay(9, 8, 300), burn(9, 200)]);
    assert_eq!(ctx.name_record.as_ref().unwrap().expiry_timestamp, 0);
    let mut again = registration(BOB_SHA256);
    again.name_record = Some(record(9, 0));
    assert_eq!(
        register_name(&mut again, "bob".to_string(), BOB_SHA256, String::new(), i64::MAX),
        Err(naim(NaimError::NameAlreadyRegistered))
    );
}

#[test]
fn wrong_hash_is_an_invalid_name() {
    let mut ctx = registration(BOB_SHA256);
    let res = register_name(&mut ctx, "alice".to_string(), BOB_SHA256, String::new(), 0);
    assert_eq!(res, Err(naim(NaimError::InvalidName)));
    let mut ctx = registration(ALICE_SHA256);
    let res = register_name(&mut ctx, "Alice".to_string(), ALICE_SHA256, String::new(), 0);
    assert_eq!(res, Err(naim(NaimError::InvalidName)));
    assert_eq!(ctx, registration(ALICE_SHA256));
}

#[test]
fn register_decides_by_the_digest_it_is_given() {
    let mut ctx = registration([5; 32]);
    let res = register_name_with_digest(&mut ctx, "alice", [5; 32], String::new(), &[6; 32], 0);
    assert_eq!(res, Err(naim(NaimError::InvalidName)));
    let res = register_name_with_digest(&mut ctx, "alice", [5; 32], String::new(), &[5; 32], 0);
    assert!(res.is_ok());
}

#[test]
fn uri_is_limited_in_bytes() {
    let mut ctx = registration(ALICE_SHA256);
    let res = register_name(&mut ctx, "alice".to_string(), ALICE_SHA256, "u".repeat(201), 0);
    assert_eq!(res, Err(naim(NaimError::MetadataUriTooLong)));
    let two_bytes = "\u{e9}".repeat(101);
    let res = register_name(&mut ctx, "alice".to_string(), ALICE_SHA256, two_bytes, 0);
    assert_eq!(res, Err(naim(NaimError::MetadataUriTooLong)));
    let res =
        register_name(&mut ctx, "alice".to_string(), ALICE_SHA256, "\u{e9}".repeat(100), 0);
    assert!(res.is_ok());
}

#[test]
fn accounts_of_another_name_or_mint_are_refused() {
    let mut ctx = registration(ALICE_SHA256);
    ctx.name_record_seed = BOB_SHA256;
    assert_eq!(register_alice(&mut ctx, 0), Err(Error::ConstraintSeeds));
    let mut ctx = registration(ALICE_SHA256);
    ctx.reputation_record_seed = BOB_SHA256;
    assert_eq!(register_alice(&mut ctx, 0), Err(Error::ConstraintSeeds));
    let mut ctx = registration(ALICE_SHA256);
    ctx.naim_mint.key = key(77);
    assert_eq!(register_alice(&mut ctx, 0), Err(Error::ConstraintAddress));
}

#[test]
fn held_names_are_reclaimed_after_grace() {
    let mut ctx = registration(ALICE_SHA256);
    let mut held = record(4, 1_000);
    held.verified = true;
    held.linked_wallets = vec![key(5)];
    ctx.name_record = Some(held);
    assert_eq!(register_alice(&mut ctx, 1_099), Err(naim(NaimError::NameAlreadyRegistered)));
    assert_eq!(ctx.name_record.as_ref().unwrap().owner, key(4));
    assert!(register_alice(&mut ctx, 1_100).is_ok());
    assert_eq!(ctx.name_record, Some(record(9, 2_100)));
}

#[test]
fn registration_is_exclusive_until_grace_has_passed() {
    let mut first = registration(ALICE_SHA256);
    assert!(register_alice(&mut first, 500).is_ok());
    let mut second = registration(ALICE_SHA256);
    second.payer = key(11);
    second.name_record = first.name_record;
    assert_eq!(
        register_alice(&mut second, 1_599),
        Err(naim(NaimError::NameAlreadyRegistered))
    );
    assert!(register_alice(&mut second, 1_600).is_ok());
    assert_eq!(second.name_record.as_ref().unwrap().owner, key(11));
    assert_eq!(second.reputation_record.created_at, 1_600);
}

#[test]
fn own_stake_earns_a_discount() {
    let position = StakeAccount {
        owner: key(9),
        amount: 5_000_000_000,
        reward_debt: 0,
        lock_end: 0,
        bump: 0,
    };
    let mut ctx = registration(ALICE_SHA256);
    ctx.stake_account = Some(position);
    // 501 less 125 is 376
    assert_eq!(
        register_alice(&mut ctx, 0),
        Ok(vec![pay(9, 3, 188), pay(9, 8, 112), burn(9, 76)])
    );
    let mut ctx = registration(ALICE_SHA256);
    ctx.stake_account = Some(StakeAccount { owner: key(10), ..position });
    assert_eq!(
        register_alice(&mut ctx, 0),
        Ok(vec![pay(9, 3, 250), pay(9, 8, 150), burn(9, 101)])
    );
}

#[test]
fn register_refuses_a_broken_split() {
    let mut ctx = registration(ALICE_SHA256);
    ctx.token_config.treasury_bps = 9_999;
    assert_eq!(register_alice(&mut ctx, 0), Err(naim(NaimError::InvalidConfig)));
    assert_eq!(ctx.name_record, None);
}

#[test]
fn try_register_reports_times_out_of_range() {
    let mut ctx = registration(ALICE_SHA256);
    let alice = || "alice".to_string();
    assert_eq!(
        try_register_name(&mut ctx, alice(), ALICE_SHA256, String::new(), i64::MAX - 999),
        None
    );
    assert_eq!(ctx, registration(ALICE_SHA256));
    ctx.name_record = Some(record(4, i64::MAX));
    assert_eq!(try_register_name(&mut ctx, alice(), ALICE_SHA256, String::new(), 5), None);
    assert_eq!(
        try_register_name(&mut ctx, alice(), ALICE_SHA256, "u".repeat(201), 5),
        Some(Err(naim(NaimError::MetadataUriTooLong)))
    );
    ctx.name_record = None;
    assert!(matches!(
        try_register_name(&mut ctx, alice(), ALICE_SHA256, String::new(), i64::MAX - 1_000),
        Some(Ok(_))
    ));
    assert_eq!(ctx.name_record.as_ref().unwrap().expiry_timestamp, i64::MAX);
}

#[test]
fn renewal_extends_from_the_later_time() {
    let mut ctx = renewal(2_000);
    let actions = renew_name(&mut ctx, "alice".to_string(), ALICE_SHA256, 1_500).unwrap();
    assert_eq!(actions, vec![pay(9, 3, 250), pay(9, 8, 150), burn(9, 101)]);
    assert_eq!(ctx.name_record, Some(record(9, 3_000)));
    assert_eq!(ctx.reputation_record.renew_count, 3);
    assert_eq!(ctx.reputation_record.created_at, 50);
    let mut late = renewal(2_000);
    assert!(renew_name(&mut late, "alice".to_string(), ALICE_SHA256, 2_500).is_ok());
    assert_eq!(late.name_record.as_ref().unwrap().expiry_timestamp, 3_500);
}

#[test]
fn renewal_starts_a_missing_reputation() {
    let mut ctx = renewal(2_000);
    ctx.reputation_record = blank_reputation();
    assert!(renew_name(&mut ctx, "alice".to_string(), ALICE_SHA256, 1_500).is_ok());
    assert_eq!(
        ctx.reputation_record,
        ReputationRecord {
            name_hash: ALICE_SHA256,
            created_at: 1_500,
            renew_count: 1,
            bump: 201,
        }
    );
    ctx.reputation_record.renew_count = u32::MAX;
    assert!(renew_name(&mut ctx, "alice".to_string(), ALICE_SHA256, 1_500).is_ok());
    assert_eq!(ctx.reputation_record.renew_count, u32::MAX);
}

#[test]
fn renewal_refusals() {
    let alice = || "alice".to_string();
    let mut ctx = renewal(0);
    assert_eq!(
        renew_name(&mut ctx, alice(), ALICE_SHA256, 5),
        Err(naim(NaimError::NamePermanent))
    );
    let mut ctx = renewal(2_000);
    ctx.owner = key(10);
    assert_eq!(
        renew_name(&mut ctx, alice(), ALICE_SHA256, 5),
        Err(naim(NaimError::Unauthorized))
    );
    let mut ctx = renewal(2_000);
    ctx.naim_mint.key = key(77);
    assert_eq!(renew_name(&mut ctx, alice(), ALICE_SHA256, 5), Err(Error::ConstraintAddress));
    let mut ctx = renewal(2_000);
    assert_eq!(renew_name(&mut ctx, alice(), BOB_SHA256, 5), Err(Error::ConstraintSeeds));
    assert_eq!(
        renew_name(&mut ctx, "bob".to_string(), ALICE_SHA256, 5),
        Err(naim(NaimError::InvalidName))
    );
    assert_eq!(
        renew_name_with_digest(&mut ctx, "bob", ALICE_SHA256, &BOB_SHA256, 5),
        Err(naim(NaimError::InvalidName))
    );
    ctx.token_config.stakers_bps = 9_000;
    assert_eq!(
        renew_name(&mut ctx, alice(), ALICE_SHA256, 5),
        Err(naim(NaimError::InvalidConfig))
    );
    assert_eq!(ctx.name_record, Some(record(9, 2_000)));
}

#[test]
fn try_renew_reports_times_out_of_range() {
    let mut ctx = renewal(i64::MAX - 5);
    assert_eq!(try_renew_name(&mut ctx, "alice".to_string(), ALICE_SHA256, 5), None);
    assert_eq!(
        try_renew_name(&mut ctx, "bob".to_string(), ALICE_SHA256, 5),
        Some(Err(naim(NaimError::InvalidName)))
    );
    let mut ctx = renewal(100);
    assert!(matches!(
        try_renew_name(&mut ctx, "alice".to_string(), ALICE_SHA256, 5),
        Some(Ok(_))
    ));
}

#[test]
fn released_names_can_be_registered_again() {
    let mut ctx = ReleaseName { name_record: Some(record(9, 0)), owner: key(8) };
    assert_eq!(release_name(&mut ctx), Err(naim(NaimError::Unauthorized)));
    ctx.owner = key(9);
    assert_eq!(
        release_name(&mut ctx),
        Ok(vec![Action::Close { record: Record::Name, refund_to: key(9) }])
    );
    assert_eq!(ctx.name_record, None);
    let mut next = registration(ALICE_SHA256);
    next.name_record = ctx.name_record;
    assert!(register_alice(&mut next, 0).is_ok());
}

#[test]
fn owner_updates_one_field_at_a_time() {
    let mut ctx = UpdateName { name_record: Some(record(9, 5)), owner: key(8) };
    assert_eq!(transfer_name(&mut ctx, key(1)), Err(naim(NaimError::Unauthorized)));
    assert_eq!(update_resolver(&mut ctx, key(1)), Err(naim(NaimError::Unauthorized)));
    assert_eq!(
        update_metadata(&mut ctx, "u".repeat(201)),
        Err(naim(NaimError::Unauthorized))
    );
    assert_eq!(ctx.name_record, Some(record(9, 5)));
    ctx.owner = key(9);
    assert_eq!(
        update_metadata(&mut ctx, "u".repeat(201)),
        Err(naim(NaimError::MetadataUriTooLong))
    );
    assert_eq!(update_metadata(&mut ctx, "u".repeat(200)), Ok(()));
    assert_eq!(update_resolver(&mut ctx, key(6)), Ok(()));
    assert_eq!(transfer_name(&mut ctx, key(7)), Ok(()));
    let mut expected = record(9, 5);
    expected.metadata_uri = "u".repeat(200);
    expected.resolver = key(6);
    expected.owner = key(7);
    assert_eq!(ctx.name_record, Some(expected));
    assert_eq!(transfer_name(&mut ctx, key(9)), Err(naim(NaimError::Unauthorized)));
}

#[test]
fn wallets_link_once_and_up_to_five() {
    let mut ctx =
        LinkWallet { name_record: Some(record(9, 5)), owner: key(8), new_wallet: key(20) };
    assert_eq!(link_wallet(&mut ctx), Err(naim(NaimError::Unauthorized)));
    ctx.owner = key(9);
    for n in 20..25 {
        ctx.new_wallet = key(n);
        assert_eq!(link_wallet(&mut ctx), Ok(()));
        if n < 24 {
            assert_eq!(link_wallet(&mut ctx), Err(naim(NaimError::WalletAlreadyLinked)));
            ctx.new_wallet = key(9);
            assert_eq!(link_wallet(&mut ctx), Err(naim(NaimError::WalletAlreadyLinked)));
        }
    }
    assert_eq!(link_wallet(&mut ctx), Err(naim(NaimError::TooManyLinkedWallets)));
    assert_eq!(
        ctx.name_record.as_ref().unwrap().linked_wallets,
        vec![key(20), key(21), key(22), key(23), key(24)]
    );
}

#[test]
fn verification_costs_its_fee() {
    let mut ctx = VerifyName {
        token_config: token_config(),
        name_record: Some(record(9, 5)),
        owner: key(8),
        naim_mint: mint(),
        stakers_vault: key(8),
    };
    assert_eq!(verify_name(&mut ctx), Err(naim(NaimError::Unauthorized)));
    ctx.owner = key(9);
    ctx.naim_mint.key = key(77);
    assert_eq!(verify_name(&mut ctx), Err(Error::ConstraintAddress));
    ctx.naim_mint = mint();
    assert_eq!(
        verify_name(&mut ctx),
        Ok(vec![pay(9, 3, 38), pay(9, 8, 23), burn(9, 16)])
    );
    let mut expected = record(9, 5);
    expected.verified = true;
    assert_eq!(ctx.name_record, Some(expected));
    assert_eq!(ctx.token_config.total_burned, 26);
    ctx.token_config.treasury_bps = 10_000;
    assert_eq!(verify_name(&mut ctx), Err(naim(NaimError::InvalidConfig)));
}

#[test]
fn names_that_do_not_exist_are_refused() {
    let gone = || Error::AccountNotInitialized;
    let mut released = ReleaseName { name_record: Some(record(9, 5)), owner: key(9) };
    assert!(release_name(&mut released).is_ok());
    assert_eq!(release_name(&mut released), Err(gone()));
    let mut update = UpdateName { name_record: released.name_record, owner: key(9) };
    assert_eq!(transfer_name(&mut update, key(1)), Err(gone()));
    assert_eq!(update_resolver(&mut update, key(1)), Err(gone()));
    assert_eq!(update_metadata(&mut update, String::new()), Err(gone()));
    let mut link = LinkWallet { name_record: None, owner: key(9), new_wallet: key(20) };
    assert_eq!(link_wallet(&mut link), Err(gone()));
    let mut verify = VerifyName {
        token_config: token_config(),
        name_record: None,
        owner: key(9),
        naim_mint: mint(),
        stakers_vault: key(8),
    };
    assert_eq!(verify_name(&mut verify), Err(gone()));
    let mut ctx = renewal(2_000);
    ctx.name_record = None;
    assert_eq!(renew_name(&mut ctx, "bob".to_string(), BOB_SHA256, 5), Err(gone()));
}
