//! Who sets the protocol up, and what is stored then.
use vstd::prelude::*;

use crate::admin::{
    init_market_config_outcome, init_token_config_outcome, initialize_outcome,
    update_config_outcome, update_market_config_outcome, update_token_config_outcome,
    ConfigParams, InitMarketConfig, InitTokenConfig, Initialize, MarketConfigParams,
    TokenConfigParams, UpdateConfig, UpdateMarketConfig, UpdateTokenConfig,
};
use crate::error::{Error, NaimError};
use crate::pubkey::Pubkey;
use crate::state::{Config, MarketConfig, TokenConfig};

verus! {

/// Whether a config holds exactly what was asked.
pub open spec fn config_holds(c: Config, admin: Pubkey, p: ConfigParams, bump: u8) -> bool {
    &&& c.admin == admin
    &&& c.treasury == p.treasury
    &&& c.fee_1_4 == p.fee_1_4
    &&& c.fee_5_9 == p.fee_5_9
    &&& c.fee_10_plus == p.fee_10_plus
    &&& c.verify_fee == p.verify_fee
    &&& c.registration_period == p.registration_period
    &&& c.grace_period == p.grace_period
    &&& c.bump == bump
}

/// The protocol is set up once, by whoever signs, with a positive period and a grace
/// period that is not negative; it stores what was asked.
pub proof fn law_initialize_in_full(
    before: Initialize,
    p: ConfigParams,
    after: Initialize,
    res: Result<(), Error>,
)
    requires
        initialize_outcome(before, p, after, res),
    ensures
        match res {
            Ok(_) => {
                &&& before.config is None
                &&& 1 <= p.registration_period
                &&& 0 <= p.grace_period
                &&& after.config matches Some(c)
                &&& config_holds(c, before.admin, p, before.config_bump)
                &&& after.admin == before.admin
                &&& after.config_bump == before.config_bump
            },
            Err(e) => {
                &&& after == before
                &&& before.config is Some ==> e == Error::AccountInUse
                &&& before.config is None ==> e == Error::Naim(NaimError::InvalidConfig) && (
                p.registration_period <= 0 || p.grace_period < 0)
            },
        },
{
}

/// The config is changed by its admin alone, under the same conditions; the admin
/// and the bump stay.
pub proof fn law_config_update_in_full(
    before: UpdateConfig,
    p: ConfigParams,
    after: UpdateConfig,
    res: Result<(), Error>,
)
    requires
        update_config_outcome(before, p, after, res),
    ensures
        match res {
            Ok(_) => {
                &&& before.admin == before.config.admin
                &&& 1 <= p.registration_period
                &&& 0 <= p.grace_period
                &&& config_holds(after.config, before.config.admin, p, before.config.bump)
                &&& after.admin == before.admin
            },
            Err(e) => {
                &&& after == before
                &&& before.admin != before.config.admin ==> e == Error::Naim(
                    NaimError::Unauthorized,
                )
                &&& before.admin == before.config.admin ==> e == Error::Naim(
                    NaimError::InvalidConfig,
                ) && (p.registration_period <= 0 || p.grace_period < 0)
            },
        },
{
}

/// Whether a tokenomics config holds exactly what was asked.
pub open spec fn token_config_holds(
    tc: TokenConfig,
    admin: Pubkey,
    mint: Pubkey,
    treasury: Pubkey,
    p: TokenConfigParams,
    total_burned: int,
    bump: u8,
    vault_bump: u8,
) -> bool {
    &&& tc.admin == admin
    &&& tc.naim_mint == mint
    &&& tc.treasury == treasury
    &&& tc.fee_1_4 == p.fee_1_4
    &&& tc.fee_5_9 == p.fee_5_9
    &&& tc.fee_10_plus == p.fee_10_plus
    &&& tc.verify_fee == p.verify_fee
    &&& tc.treasury_bps == p.treasury_bps
    &&& tc.stakers_bps == p.stakers_bps
    &&& tc.burn_bps == p.burn_bps
    &&& tc.total_burned == total_burned
    &&& tc.bump == bump
    &&& tc.vault_bump == vault_bump
}

/// The tokenomics are set up once, by the protocol's admin, with three shares that
/// make up the whole; they store what was asked, with nothing burned yet.
pub proof fn law_tokenomics_setup_in_full(
    before: InitTokenConfig,
    p: TokenConfigParams,
    after: InitTokenConfig,
    res: Result<(), Error>,
)
    requires
        init_token_config_outcome(before, p, after, res),
    ensures
        match res {
            Ok(_) => {
                &&& before.token_config is None
                &&& before.admin == before.config.admin
                &&& p.treasury_bps + p.stakers_bps + p.burn_bps == 10_000
                &&& after.token_config matches Some(tc)
                &&& token_config_holds(
                    tc,
                    before.admin,
                    before.naim_mint.key,
                    before.treasury,
                    p,
                    0,
                    before.token_config_bump,
                    before.stakers_vault_bump,
                )
                &&& after == InitTokenConfig { token_config: after.token_config, ..before }
            },
            Err(e) => {
                &&& after == before
                &&& e == if before.token_config is Some {
                    Error::AccountInUse
                } else if before.admin != before.config.admin {
                    Error::Naim(NaimError::Unauthorized)
                } else {
                    Error::Naim(NaimError::InvalidConfig)
                }
                &&& before.token_config is Some || before.admin != before.config.admin
                    || p.treasury_bps + p.stakers_bps + p.burn_bps != 10_000
            },
        },
{
}

/// The tokenomics are changed by their admin alone, with three shares that make up
/// the whole; the admin, the burned total and the bumps stay.
pub proof fn law_tokenomics_update_in_full(
    before: UpdateTokenConfig,
    p: TokenConfigParams,
    after: UpdateTokenConfig,
    res: Result<(), Error>,
)
    requires
        update_token_config_outcome(before, p, after, res),
    ensures
        match res {
            Ok(_) => {
                let tc = before.token_config;
                &&& before.admin == tc.admin
                &&& p.treasury_bps + p.stakers_bps + p.burn_bps == 10_000
                &&& token_config_holds(
                    after.token_config,
                    tc.admin,
                    before.naim_mint.key,
                    before.treasury,
                    p,
                    tc.total_burned as int,
                    tc.bump,
                    tc.vault_bump,
                )
                &&& after == UpdateTokenConfig { token_config: after.token_config, ..before }
            },
            Err(e) => {
                &&& after == before
                &&& before.admin != before.token_config.admin ==> e == Error::Naim(
                    NaimError::Unauthorized,
                )
                &&& before.admin == before.token_config.admin ==> e == Error::Naim(
                    NaimError::InvalidConfig,
                ) && p.treasury_bps + p.stakers_bps + p.burn_bps != 10_000
            },
        },
{
}

/// Whether a marketplace config holds exactly what was asked.
pub open spec fn market_config_holds(
    mc: MarketConfig,
    admin: Pubkey,
    p: MarketConfigParams,
    bump: u8,
) -> bool {
    &&& mc.admin == admin
    &&& mc.usdc_mint == p.usdc_mint
    &&& mc.treasury == p.treasury
    &&& mc.fee_naim_bps == p.fee_naim_bps
    &&& mc.fee_stable_bps == p.fee_stable_bps
    &&& mc.bump == bump
}

/// The marketplace is set up once, by the protocol's admin, with a $NAIM fee below
/// the other and that one below the whole; it stores what was asked.
pub proof fn law_market_setup_in_full(
    before: InitMarketConfig,
    p: MarketConfigParams,
    after: InitMarketConfig,
    res: Result<(), Error>,
)
    requires
        init_market_config_outcome(before, p, after, res),
    ensures
        match res {
            Ok(_) => {
                &&& before.market_config is None
                &&& before.admin == before.config.admin
                &&& p.fee_naim_bps < p.fee_stable_bps < 10_000
                &&& after.market_config matches Some(mc)
                &&& market_config_holds(mc, before.admin, p, before.market_config_bump)
                &&& after == InitMarketConfig { market_config: after.market_config, ..before }
            },
            Err(e) => {
                &&& after == before
                &&& e == if before.market_config is Some {
                    Error::AccountInUse
                } else if before.admin != before.config.admin {
                    Error::Naim(NaimError::Unauthorized)
                } else {
                    Error::Naim(NaimError::InvalidConfig)
                }
                &&& before.market_config is Some || before.admin != before.config.admin
                    || !(p.fee_naim_bps < p.fee_stable_bps < 10_000)
            },
        },
{
}

/// The marketplace is changed by its admin alone, under the same conditions; the
/// admin and the bump stay.
pub proof fn law_market_update_in_full(
    before: UpdateMarketConfig,
    p: MarketConfigParams,
    after: UpdateMarketConfig,
    res: Result<(), Error>,
)
    requires
        update_market_config_outcome(before, p, after, res),
    ensures
        match res {
            Ok(_) => {
                &&& before.admin == before.market_config.admin
                &&& p.fee_naim_bps < p.fee_stable_bps < 10_000
                &&& market_config_holds(
                    after.market_config,
                    before.market_config.admin,
                    p,
                    before.market_config.bump,
                )
                &&& after.admin == before.admin
            },
            Err(e) => {
                &&& after == before
                &&& before.admin != before.market_config.admin ==> e == Error::Naim(
                    NaimError::Unauthorized,
                )
                &&& before.admin == before.market_config.admin ==> e == Error::Naim(
                    NaimError::InvalidConfig,
                ) && !(p.fee_naim_bps < p.fee_stable_bps < 10_000)
            },
        },
{
}

} // verus!
