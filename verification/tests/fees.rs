use naim::action::{Action, Mint, Vault};
use naim::arith::{share_of, truncate_u64};
use naim::error::{Error, NaimError};
use naim::fees::{apply_discount, collect_fee, fee_splits};
use naim::pubkey::Pubkey;
use naim::state::TokenConfig;

fn key(n: u8) -> Pubkey {
    Pubkey { bytes: [n; 32] }
}

fn naim(e: NaimError) -> Error {
    Error::Naim(e)
}

fn token_config() -> TokenConfig {
    TokenConfig {
        admin: key(1),
        naim_mint: key(2),
        treasury: key(3),
        fee_1_4: 1_000,
        fee_5_9: 501,
        fee_10_plus: 99,
        verify_fee: 77,
        treasury_bps: 5_000,
        stakers_bps: 3_000,
        burn_bps: 2_000,
        total_burned: 10,
        bump: 250,
        vault_bump: 251,
    }
}

fn mint() -> Mint {
    Mint { key: key(2), decimals: 6 }
}

fn pay(from: u8, to: u8, amount: u64) -> Action {
    Action::TransferToken {
        mint: key(2),
        from: key(from),
        to: key(to),
        amount,
        decimals: 6,
        signer: None,
    }
}

fn burn(from: u8, amount: u64) -> Action {
    Action::BurnToken { mint: key(2), from: key(from), amount }
}

#[test]
fn shares_round_down() {
    assert_eq!(share_of(501, 5_000), 250);
    assert_eq!(share_of(99, 500), 4);
    assert_eq!(share_of(u64::MAX, 10_000), u64::MAX);
    assert_eq!(share_of(0, 10_000), 0);
    assert_eq!(share_of(u64::MAX, 20_000), u64::MAX - 1);
    assert_eq!(truncate_u64(1u128 << 64), 0);
    assert_eq!(truncate_u64((1u128 << 64) + 5), 5);
}

#[test]
fn discount_has_two_tiers() {
    assert_eq!(apply_discount(1_000, 0), 1_000);
    assert_eq!(apply_discount(1_000, 999_999_999), 1_000);
    assert_eq!(apply_discount(1_000, 1_000_000_000), 900);
    assert_eq!(apply_discount(1_000, 4_999_999_999), 900);
    assert_eq!(apply_discount(1_000, 5_000_000_000), 750);
    assert_eq!(apply_discount(3, 5_000_000_000), 3);
    assert_eq!(apply_discount(u64::MAX, u64::MAX), 13_835_058_055_282_163_712);
}

#[test]
fn fee_is_split_and_the_rest_burned() {
    let mut tc = token_config();
    let actions = collect_fee(&mut tc, &mint(), &key(9), &key(8), 501).unwrap();
    assert_eq!(actions, vec![pay(9, 3, 250), pay(9, 8, 150), burn(9, 101)]);
    assert_eq!(tc.total_burned, 111);
    assert_eq!(TokenConfig { total_burned: 10, ..tc }, token_config());
}

#[test]
fn legs_of_zero_are_left_out() {
    let mut tc = token_config();
    assert_eq!(collect_fee(&mut tc, &mint(), &key(9), &key(8), 0), Ok(vec![]));
    assert_eq!(tc, token_config());
    assert_eq!(collect_fee(&mut tc, &mint(), &key(9), &key(8), 1), Ok(vec![burn(9, 1)]));
    tc.treasury_bps = 10_000;
    tc.stakers_bps = 0;
    assert_eq!(collect_fee(&mut tc, &mint(), &key(9), &key(8), 5), Ok(vec![pay(9, 3, 5)]));
}

#[test]
fn split_beyond_the_fee_is_refused() {
    let mut tc = token_config();
    tc.treasury_bps = 9_000;
    let before = tc;
    assert!(!fee_splits(&tc, 1_000));
    assert_eq!(
        collect_fee(&mut tc, &mint(), &key(9), &key(8), 1_000),
        Err(naim(NaimError::InvalidConfig))
    );
    assert_eq!(tc, before);
    assert_eq!(collect_fee(&mut tc, &mint(), &key(9), &key(8), 0), Ok(vec![]));
}

#[test]
fn burned_total_stops_at_the_largest_value() {
    let mut tc = token_config();
    tc.total_burned = u64::MAX - 5;
    collect_fee(&mut tc, &mint(), &key(9), &key(8), 501).unwrap();
    assert_eq!(tc.total_burned, u64::MAX);
}

#[test]
fn vault_seeds_are_their_names() {
    assert_eq!(Vault::Stakers.seed(), "stakers_vault".as_bytes().to_vec());
    assert_eq!(Vault::Stake.seed(), "stake_vault".as_bytes().to_vec());
}

#[test]
fn valid_splits_collect_any_fee() {
    for (treasury, stakers) in [(10_000, 0), (0, 10_000), (5_000, 5_000), (1, 9_999), (0, 0)] {
        let mut tc = token_config();
        tc.treasury_bps = treasury;
        tc.stakers_bps = stakers;
        tc.burn_bps = 10_000 - treasury - stakers;
        for fee in [1, 9_999, 10_001, u64::MAX] {
            let actions = collect_fee(&mut tc, &mint(), &key(9), &key(8), fee).unwrap();
            let charged: u128 = actions
                .iter()
                .map(|a| match a {
                    Action::TransferToken { amount, .. } => *amount as u128,
                    Action::BurnToken { amount, .. } => *amount as u128,
                    _ => 0,
                })
                .sum();
            assert_eq!(charged, fee as u128);
        }
    }
}
