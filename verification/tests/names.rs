use naim::error::{Error, NaimError};
use naim::names::{fee_for, is_directly_under, is_permanent, validate_category, validate_name};
use naim::pubkey::Pubkey;
use naim::state::TokenConfig;

const BAD_NAME: Result<usize, Error> = Err(Error::Naim(NaimError::InvalidName));
const BAD_CATEGORY: Result<usize, Error> = Err(Error::Naim(NaimError::InvalidCategory));

#[test]
fn valid_names_report_their_length() {
    assert_eq!(validate_name("a"), Ok(1));
    assert_eq!(validate_name("executor.defi"), Ok(13));
    assert_eq!(validate_name("a-b.c0"), Ok(6));
    assert_eq!(validate_name("a--b"), Ok(4));
    assert_eq!(validate_name("a.-b"), Ok(4));
    assert_eq!(validate_name(&"x".repeat(63)), Ok(63));
}

#[test]
fn names_of_wrong_length_are_refused() {
    assert_eq!(validate_name(""), BAD_NAME);
    assert_eq!(validate_name(&"x".repeat(64)), BAD_NAME);
}

#[test]
fn names_with_other_characters_are_refused() {
    assert_eq!(validate_name("Alice"), BAD_NAME);
    assert_eq!(validate_name("al ice"), BAD_NAME);
    assert_eq!(validate_name("al_ice"), BAD_NAME);
    assert_eq!(validate_name("caf\u{e9}"), BAD_NAME);
    assert_eq!(validate_name("\u{ff}"), BAD_NAME);
    assert_eq!(validate_name("a/b"), BAD_NAME);
    assert_eq!(validate_name("a{b"), BAD_NAME);
}

#[test]
fn dots_and_hyphens_at_the_ends_are_refused() {
    assert_eq!(validate_name(".a"), BAD_NAME);
    assert_eq!(validate_name("a."), BAD_NAME);
    assert_eq!(validate_name("-a"), BAD_NAME);
    assert_eq!(validate_name("a-"), BAD_NAME);
    assert_eq!(validate_name("a..b"), BAD_NAME);
    assert_eq!(validate_name("."), BAD_NAME);
    assert_eq!(validate_name("-"), BAD_NAME);
}

#[test]
fn categories_end_in_the_top_level_domain() {
    assert_eq!(validate_category("defi.agent"), Ok(10));
    assert_eq!(validate_category("a.b.agent"), Ok(9));
    assert_eq!(validate_category("defi"), BAD_CATEGORY);
    assert_eq!(validate_category("agent"), BAD_CATEGORY);
    assert_eq!(validate_category("xagent"), BAD_CATEGORY);
    assert_eq!(validate_category("defi.agents"), BAD_CATEGORY);
    assert_eq!(validate_category(".agent"), BAD_NAME);
    assert_eq!(validate_category("Defi.agent"), BAD_NAME);
}

#[test]
fn only_direct_children_are_under_a_category() {
    assert!(is_directly_under("executor.defi.agent", "defi.agent"));
    assert!(!is_directly_under("a.executor.defi.agent", "defi.agent"));
    assert!(is_directly_under("a.executor.defi.agent", "executor.defi.agent"));
    assert!(!is_directly_under("defi.agent", "defi.agent"));
    assert!(!is_directly_under("executor", "defi.agent"));
    assert!(!is_directly_under("executor.defi", "defi.agent"));
    assert!(!is_directly_under("executor.defi", "d\u{e9}fi"));
    assert!(!is_directly_under("executor.defi", ""));
}

#[test]
fn short_names_are_permanent() {
    assert!(is_permanent(1));
    assert!(is_permanent(4));
    assert!(!is_permanent(5));
}

#[test]
fn fees_follow_the_tiers() {
    let key = Pubkey { bytes: [0; 32] };
    let tc = TokenConfig {
        admin: key,
        naim_mint: key,
        treasury: key,
        fee_1_4: 100,
        fee_5_9: 50,
        fee_10_plus: 10,
        verify_fee: 7,
        treasury_bps: 5_000,
        stakers_bps: 3_000,
        burn_bps: 2_000,
        total_burned: 0,
        bump: 1,
        vault_bump: 2,
    };
    assert_eq!(fee_for(&tc, 1), 100);
    assert_eq!(fee_for(&tc, 4), 100);
    assert_eq!(fee_for(&tc, 5), 50);
    assert_eq!(fee_for(&tc, 9), 50);
    assert_eq!(fee_for(&tc, 10), 10);
    assert_eq!(fee_for(&tc, 63), 10);
}
