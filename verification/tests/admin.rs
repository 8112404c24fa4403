use naim::action::Mint;
use naim::admin::{
    init_market_config, init_token_config, initialize, update_config, update_market_config,
    update_token_config, ConfigParams, InitMarketConfig, InitTokenConfig, Initialize,
    MarketConfigParams, TokenConfigParams, UpdateConfig, UpdateMarketConfig, UpdateTokenConfig,
};
use naim::error::{Error, NaimError};
use naim::pubkey::Pubkey;
use naim::state::{Config, MarketConfig, TokenConfig};

fn key(n: u8) -> Pubkey {
    Pubkey { bytes: [n; 32] }
}

fn naim(e: NaimError) -> Error {
    Error::Naim(e)
}

fn params() -> ConfigParams {
    ConfigParams {
        treasury: key(3),
        fee_1_4: 1,
        fee_5_9: 2,
        fee_10_plus: 3,
        verify_fee: 4,
        registration_period: 100,
        grace_period: 10,
    }
}

fn token_params() -> TokenConfigParams {
    TokenConfigParams {
        fee_1_4: 10,
        fee_5_9: 20,
        fee_10_plus: 30,
        verify_fee: 40,
        treasury_bps: 5_000,
        stakers_bps: 3_000,
        burn_bps: 2_000,
    }
}

fn market_params() -> MarketConfigParams {
    MarketConfigParams {
        usdc_mint: key(4),
        treasury: key(3),
        fee_naim_bps: 100,
        fee_stable_bps: 250,
    }
}

fn stored_config() -> Config {
    Config {
        admin: key(1),
        treasury: key(3),
        fee_1_4: 1,
        fee_5_9: 2,
        fee_10_plus: 3,
        verify_fee: 4,
        registration_period: 100,
        grace_period: 10,
        bump: 254,
    }
}

fn stored_token_config() -> TokenConfig {
    TokenConfig {
        admin: key(1),
        naim_mint: key(2),
        treasury: key(3),
        fee_1_4: 10,
        fee_5_9: 20,
        fee_10_plus: 30,
        verify_fee: 40,
        treasury_bps: 5_000,
        stakers_bps: 3_000,
        burn_bps: 2_000,
        total_burned: 0,
        bump: 253,
        vault_bump: 252,
    }
}

fn stored_market_config() -> MarketConfig {
    MarketConfig {
        admin: key(1),
        usdc_mint: key(4),
        treasury: key(3),
        fee_naim_bps: 100,
        fee_stable_bps: 250,
        bump: 251,
    }
}

#[test]
fn initialize_stores_the_parameters_once() {
    let mut ctx = Initialize { config: None, admin: key(1), config_bump: 254 };
    assert_eq!(initialize(&mut ctx, params()), Ok(()));
    assert_eq!(ctx.config, Some(stored_config()));
    assert_eq!(initialize(&mut ctx, params()), Err(Error::AccountInUse));
}

#[test]
fn initialize_refuses_bad_periods() {
    let mut ctx = Initialize { config: None, admin: key(1), config_bump: 254 };
    let mut p = params();
    p.registration_period = 0;
    assert_eq!(initialize(&mut ctx, p), Err(naim(NaimError::InvalidConfig)));
    p.registration_period = 1;
    p.grace_period = -1;
    assert_eq!(initialize(&mut ctx, p), Err(naim(NaimError::InvalidConfig)));
    assert_eq!(ctx.config, None);
    p.grace_period = 0;
    assert_eq!(initialize(&mut ctx, p), Ok(()));
}

#[test]
fn update_config_is_for_the_admin() {
    let mut p = params();
    p.treasury = key(7);
    p.grace_period = 0;
    let mut ctx = UpdateConfig { config: stored_config(), admin: key(2) };
    assert_eq!(update_config(&mut ctx, p), Err(naim(NaimError::Unauthorized)));
    assert_eq!(ctx.config, stored_config());
    ctx.admin = key(1);
    assert_eq!(update_config(&mut ctx, p), Ok(()));
    assert_eq!(ctx.config, Config { treasury: key(7), grace_period: 0, ..stored_config() });
    p.registration_period = -5;
    assert_eq!(update_config(&mut ctx, p), Err(naim(NaimError::InvalidConfig)));
}

#[test]
fn init_token_config_pins_mint_and_split() {
    let mut ctx = InitTokenConfig {
        config: stored_config(),
        token_config: None,
        admin: key(1),
        naim_mint: Mint { key: key(2), decimals: 6 },
        treasury: key(3),
        token_config_bump: 253,
        stakers_vault_bump: 252,
    };
    let mut p = token_params();
    p.burn_bps = 2_001;
    assert_eq!(init_token_config(&mut ctx, p), Err(naim(NaimError::InvalidConfig)));
    p.treasury_bps = 65_535;
    p.stakers_bps = 65_535;
    assert_eq!(init_token_config(&mut ctx, p), Err(naim(NaimError::InvalidConfig)));
    assert_eq!(init_token_config(&mut ctx, token_params()), Ok(()));
    assert_eq!(ctx.token_config, Some(stored_token_config()));
    assert_eq!(init_token_config(&mut ctx, token_params()), Err(Error::AccountInUse));
}

#[test]
fn update_token_config_keeps_admin_total_and_bumps() {
    let mut stored = stored_token_config();
    stored.total_burned = 99;
    let mut ctx = UpdateTokenConfig {
        token_config: stored,
        admin: key(9),
        naim_mint: Mint { key: key(5), decimals: 6 },
        treasury: key(6),
    };
    let mut p = token_params();
    p.fee_1_4 = 1_234;
    assert_eq!(update_token_config(&mut ctx, p), Err(naim(NaimError::Unauthorized)));
    ctx.admin = key(1);
    assert_eq!(update_token_config(&mut ctx, p), Ok(()));
    assert_eq!(
        ctx.token_config,
        TokenConfig { naim_mint: key(5), treasury: key(6), fee_1_4: 1_234, ..stored }
    );
    p.stakers_bps = 0;
    assert_eq!(update_token_config(&mut ctx, p), Err(naim(NaimError::InvalidConfig)));
}

#[test]
fn market_config_is_gated_and_bounded() {
    let mut ctx = InitMarketConfig {
        config: stored_config(),
        market_config: None,
        admin: key(2),
        market_config_bump: 251,
    };
    assert_eq!(
        init_market_config(&mut ctx, market_params()),
        Err(naim(NaimError::Unauthorized))
    );
    ctx.admin = key(1);
    let mut p = market_params();
    p.fee_stable_bps = 10_000;
    assert_eq!(init_market_config(&mut ctx, p), Err(naim(NaimError::InvalidConfig)));
    p.fee_naim_bps = 500;
    p.fee_stable_bps = 100;
    assert_eq!(init_market_config(&mut ctx, p), Err(naim(NaimError::InvalidConfig)));
    p.fee_naim_bps = 100;
    assert_eq!(init_market_config(&mut ctx, p), Err(naim(NaimError::InvalidConfig)));
    assert_eq!(ctx.market_config, None);
    assert_eq!(init_market_config(&mut ctx, market_params()), Ok(()));
    assert_eq!(ctx.market_config, Some(stored_market_config()));
    assert_eq!(init_market_config(&mut ctx, market_params()), Err(Error::AccountInUse));
}

#[test]
fn update_market_config_keeps_admin_and_bump() {
    let mut ctx = UpdateMarketConfig { market_config: stored_market_config(), admin: key(8) };
    let mut p = market_params();
    p.usdc_mint = key(44);
    p.fee_naim_bps = 0;
    assert_eq!(update_market_config(&mut ctx, p), Err(naim(NaimError::Unauthorized)));
    ctx.admin = key(1);
    assert_eq!(update_market_config(&mut ctx, p), Ok(()));
    assert_eq!(
        ctx.market_config,
        MarketConfig { usdc_mint: key(44), fee_naim_bps: 0, ..stored_market_config() }
    );
    let updated = ctx.market_config;
    p.fee_stable_bps = 0;
    assert_eq!(update_market_config(&mut ctx, p), Err(naim(NaimError::InvalidConfig)));
    assert_eq!(ctx.market_config, updated);
    p.fee_stable_bps = 20_000;
    assert_eq!(update_market_config(&mut ctx, p), Err(naim(NaimError::InvalidConfig)));
}

#[test]
fn tokenomics_setup_is_for_the_protocol_admin() {
    let mut ctx = InitTokenConfig {
        config: stored_config(),
        token_config: None,
        admin: key(9),
        naim_mint: Mint { key: key(2), decimals: 6 },
        treasury: key(3),
        token_config_bump: 253,
        stakers_vault_bump: 252,
    };
    let before = ctx;
    assert_eq!(
        init_token_config(&mut ctx, token_params()),
        Err(naim(NaimError::Unauthorized))
    );
    assert_eq!(ctx, before);
    let mut broken = token_params();
    broken.burn_bps = 0;
    assert_eq!(init_token_config(&mut ctx, broken), Err(naim(NaimError::Unauthorized)));
    ctx.token_config = Some(stored_token_config());
    assert_eq!(init_token_config(&mut ctx, broken), Err(Error::AccountInUse));
}
