//! Setup and update of the protocol, tokenomics and marketplace configs.
use vstd::prelude::*;

use crate::action::Mint;
use crate::constants::BPS_DENOM;
use crate::error::{Error, NaimError};
use crate::pubkey::Pubkey;
use crate::state::{Config, MarketConfig, TokenConfig};

verus! {

/// Parameters of the protocol config.
#[derive(Clone, Copy, Debug, PartialEq, Eq)]
pub struct ConfigParams {
    pub treasury: Pubkey,
    pub fee_1_4: u64,
    pub fee_5_9: u64,
    pub fee_10_plus: u64,
    pub verify_fee: u64,
    pub registration_period: i64,
    pub grace_period: i64,
}

/// Parameters of the tokenomics config.
#[derive(Clone, Copy, Debug, PartialEq, Eq)]
pub struct TokenConfigParams {
    /// Per-tier fees in $NAIM base units.
    pub fee_1_4: u64,
    pub fee_5_9: u64,
    pub fee_10_plus: u64,
    pub verify_fee: u64,
    /// Fee split in basis points; the three must sum to the whole.
    pub treasury_bps: u16,
    pub stakers_bps: u16,
    pub burn_bps: u16,
}

/// Parameters of the marketplace config.
#[derive(Clone, Copy, Debug, PartialEq, Eq)]
pub struct MarketConfigParams {
    /// USDC mint accepted as a sale currency.
    pub usdc_mint: Pubkey,
    /// Wallet that receives marketplace fees.
    pub treasury: Pubkey,
    /// Fee on a $NAIM sale, in basis points: the cheaper tier.
    pub fee_naim_bps: u16,
    /// Fee on a SOL or USDC sale, in basis points: higher than on a $NAIM sale.
    pub fee_stable_bps: u16,
}

/// Accounts of `initialize`.
#[derive(Clone, Copy, Debug, PartialEq, Eq)]
pub struct Initialize {
    /// The config, which must not exist yet.
    pub config: Option<Config>,
    /// The signer.
    pub admin: Pubkey,
    pub config_bump: u8,
}

/// Accounts of `update_config`.
#[derive(Clone, Copy, Debug, PartialEq, Eq)]
pub struct UpdateConfig {
    pub config: Config,
    /// The signer.
    pub admin: Pubkey,
}

/// Accounts of `init_token_config`.
#[derive(Clone, Copy, Debug, PartialEq, Eq)]
pub struct InitTokenConfig {
    pub config: Config,
    /// The config of the tokenomics, which must not exist yet.
    pub token_config: Option<TokenConfig>,
    /// The signer.
    pub admin: Pubkey,
    pub naim_mint: Mint,
    /// Wallet that owns the treasury token account.
    pub treasury: Pubkey,
    pub token_config_bump: u8,
    pub stakers_vault_bump: u8,
}

/// Accounts of `update_token_config`.
#[derive(Clone, Copy, Debug, PartialEq, Eq)]
pub struct UpdateTokenConfig {
    pub token_config: TokenConfig,
    /// The signer.
    pub admin: Pubkey,
    pub naim_mint: Mint,
    /// Wallet that owns the treasury token account.
    pub treasury: Pubkey,
}

/// Accounts of `init_market_config`.
#[derive(Clone, Copy, Debug, PartialEq, Eq)]
pub struct InitMarketConfig {
    pub config: Config,
    /// The config of the market, which must not exist yet.
    pub market_config: Option<MarketConfig>,
    /// The signer.
    pub admin: Pubkey,
    pub market_config_bump: u8,
}

/// Accounts of `update_market_config`.
#[derive(Clone, Copy, Debug, PartialEq, Eq)]
pub struct UpdateMarketConfig {
    pub market_config: MarketConfig,
    /// The signer.
    pub admin: Pubkey,
}

impl ConfigParams {
    /// Whether the parameters make a valid config.
    pub open spec fn is_valid(self) -> bool {
        self.registration_period > 0 && self.grace_period >= 0
    }
}

impl TokenConfigParams {
    /// Whether the three shares make up the whole.
    pub open spec fn is_valid(self) -> bool {
        self.treasury_bps + self.stakers_bps + self.burn_bps == 10_000
    }

    /// Whether the three shares make up the whole.
    fn split_is_whole(&self) -> (whole: bool)
        ensures
            whole == self.is_valid(),
    {
        self.treasury_bps as u32 + self.stakers_bps as u32 + self.burn_bps as u32
            == BPS_DENOM as u32
    }
}

impl MarketConfigParams {
    /// Whether $NAIM is the cheaper tier and neither fee takes the whole price.
    pub open spec fn is_valid(self) -> bool {
        self.fee_naim_bps < self.fee_stable_bps && self.fee_stable_bps < 10_000
    }

    /// Whether $NAIM is the cheaper tier and neither fee takes the whole price.
    fn tiers_are_ordered(&self) -> (ordered: bool)
        ensures
            ordered == self.is_valid(),
    {
        self.fee_naim_bps < self.fee_stable_bps && self.fee_stable_bps < BPS_DENOM
    }
}

/// How `initialize` takes `before` to `after`, and what it returns.
pub open spec fn initialize_outcome(
    before: Initialize,
    p: ConfigParams,
    after: Initialize,
    res: Result<(), Error>,
) -> bool {
    match res {
        Ok(_) => {
            &&& before.config is None
            &&& p.is_valid()
            &&& after == (Initialize {
                config: Some(Config {
                    admin: before.admin,
                    treasury: p.treasury,
                    fee_1_4: p.fee_1_4,
                    fee_5_9: p.fee_5_9,
                    fee_10_plus: p.fee_10_plus,
                    verify_fee: p.verify_fee,
                    registration_period: p.registration_period,
                    grace_period: p.grace_period,
                    bump: before.config_bump,
                }),
                ..before
            })
            &&& after.config->0.is_valid()
        },
        Err(e) => {
            &&& before.config is Some || !p.is_valid()
            &&& e == if before.config is Some {
                Error::AccountInUse
            } else {
                Error::Naim(NaimError::InvalidConfig)
            }
            &&& after == before
        },
    }
}

/// One-time protocol setup: stores treasury, fee tiers and periods.
pub fn initialize(ctx: &mut Initialize, p: ConfigParams) -> (res: Result<(), Error>)
    ensures
        initialize_outcome(*old(ctx), p, *final(ctx), res),
{
    if ctx.config.is_some() {
        return Err(Error::AccountInUse);
    }
    if p.registration_period <= 0 || p.grace_period < 0 {
        return Err(Error::Naim(NaimError::InvalidConfig));
    }
    ctx.config = Some(Config {
        admin: ctx.admin,
        treasury: p.treasury,
        fee_1_4: p.fee_1_4,
        fee_5_9: p.fee_5_9,
        fee_10_plus: p.fee_10_plus,
        verify_fee: p.verify_fee,
        registration_period: p.registration_period,
        grace_period: p.grace_period,
        bump: ctx.config_bump,
    });
    Ok(())
}

/// How `update_config` takes `before` to `after`, and what it returns.
pub open spec fn update_config_outcome(
    before: UpdateConfig,
    p: ConfigParams,
    after: UpdateConfig,
    res: Result<(), Error>,
) -> bool {
    match res {
        Ok(_) => {
            &&& before.config.admin == before.admin
            &&& p.is_valid()
            &&& after == (UpdateConfig {
                config: Config {
                    admin: before.config.admin,
                    treasury: p.treasury,
                    fee_1_4: p.fee_1_4,
                    fee_5_9: p.fee_5_9,
                    fee_10_plus: p.fee_10_plus,
                    verify_fee: p.verify_fee,
                    registration_period: p.registration_period,
                    grace_period: p.grace_period,
                    bump: before.config.bump,
                },
                ..before
            })
            &&& after.config.is_valid()
        },
        Err(e) => {
            &&& e == Error::Naim(
                if before.config.admin != before.admin {
                    NaimError::Unauthorized
                } else {
                    NaimError::InvalidConfig
                },
            )
            &&& before.config.admin != before.admin || !p.is_valid()
            &&& after == before
        },
    }
}

/// Admin-only: updates periods, treasury and fees. The admin and the bump stay.
pub fn update_config(ctx: &mut UpdateConfig, p: ConfigParams) -> (res: Result<(), Error>)
    ensures
        update_config_outcome(*old(ctx), p, *final(ctx), res),
{
    if ctx.config.admin != ctx.admin {
        return Err(Error::Naim(NaimError::Unauthorized));
    }
    if p.registration_period <= 0 || p.grace_period < 0 {
        return Err(Error::Naim(NaimError::InvalidConfig));
    }
    ctx.config = Config {
        admin: ctx.config.admin,
        treasury: p.treasury,
        fee_1_4: p.fee_1_4,
        fee_5_9: p.fee_5_9,
        fee_10_plus: p.fee_10_plus,
        verify_fee: p.verify_fee,
        registration_period: p.registration_period,
        grace_period: p.grace_period,
        bump: ctx.config.bump,
    };
    Ok(())
}

/// How `init_token_config` takes `before` to `after`, and what it returns.
pub open spec fn init_token_config_outcome(
    before: InitTokenConfig,
    p: TokenConfigParams,
    after: InitTokenConfig,
    res: Result<(), Error>,
) -> bool {
    match res {
        Ok(_) => {
            &&& before.token_config is None
            &&& before.config.admin == before.admin
            &&& p.is_valid()
            &&& after == (InitTokenConfig {
                token_config: Some(TokenConfig {
                    admin: before.admin,
                    naim_mint: before.naim_mint.key,
                    treasury: before.treasury,
                    fee_1_4: p.fee_1_4,
                    fee_5_9: p.fee_5_9,
                    fee_10_plus: p.fee_10_plus,
                    verify_fee: p.verify_fee,
                    treasury_bps: p.treasury_bps,
                    stakers_bps: p.stakers_bps,
                    burn_bps: p.burn_bps,
                    total_burned: 0,
                    bump: before.token_config_bump,
                    vault_bump: before.stakers_vault_bump,
                }),
                ..before
            })
            &&& after.token_config->0.is_valid()
        },
        Err(e) => {
            &&& before.token_config is Some || before.config.admin != before.admin
                || !p.is_valid()
            &&& e == if before.token_config is Some {
                Error::AccountInUse
            } else if before.config.admin != before.admin {
                Error::Naim(NaimError::Unauthorized)
            } else {
                Error::Naim(NaimError::InvalidConfig)
            }
            &&& after == before
        },
    }
}

/// One-time tokenomics setup: pins the $NAIM mint, the fees and the split.
/// Admin-only: the signer must be the protocol's admin.
pub fn init_token_config(ctx: &mut InitTokenConfig, p: TokenConfigParams) -> (res: Result<
    (),
    Error,
>)
    ensures
        init_token_config_outcome(*old(ctx), p, *final(ctx), res),
{
    if ctx.token_config.is_some() {
        return Err(Error::AccountInUse);
    }
    if ctx.config.admin != ctx.admin {
        return Err(Error::Naim(NaimError::Unauthorized));
    }
    if !p.split_is_whole() {
        return Err(Error::Naim(NaimError::InvalidConfig));
    }
    ctx.token_config = Some(TokenConfig {
        admin: ctx.admin,
        naim_mint: ctx.naim_mint.key,
        treasury: ctx.treasury,
        fee_1_4: p.fee_1_4,
        fee_5_9: p.fee_5_9,
        fee_10_plus: p.fee_10_plus,
        verify_fee: p.verify_fee,
        treasury_bps: p.treasury_bps,
        stakers_bps: p.stakers_bps,
        burn_bps: p.burn_bps,
        total_burned: 0,
        bump: ctx.token_config_bump,
        vault_bump: ctx.stakers_vault_bump,
    });
    Ok(())
}

/// How `update_token_config` takes `before` to `after`, and what it returns.
pub open spec fn update_token_config_outcome(
    before: UpdateTokenConfig,
    p: TokenConfigParams,
    after: UpdateTokenConfig,
    res: Result<(), Error>,
) -> bool {
    match res {
        Ok(_) => {
            &&& before.token_config.admin == before.admin
            &&& p.is_valid()
            &&& after == (UpdateTokenConfig {
                token_config: TokenConfig {
                    admin: before.token_config.admin,
                    naim_mint: before.naim_mint.key,
                    treasury: before.treasury,
                    fee_1_4: p.fee_1_4,
                    fee_5_9: p.fee_5_9,
                    fee_10_plus: p.fee_10_plus,
                    verify_fee: p.verify_fee,
                    treasury_bps: p.treasury_bps,
                    stakers_bps: p.stakers_bps,
                    burn_bps: p.burn_bps,
                    total_burned: before.token_config.total_burned,
                    bump: before.token_config.bump,
                    vault_bump: before.token_config.vault_bump,
                },
                ..before
            })
            &&& after.token_config.is_valid()
        },
        Err(e) => {
            &&& e == Error::Naim(
                if before.token_config.admin != before.admin {
                    NaimError::Unauthorized
                } else {
                    NaimError::InvalidConfig
                },
            )
            &&& before.token_config.admin != before.admin || !p.is_valid()
            &&& after == before
        },
    }
}

/// Admin-only: updates fees, split, treasury and mint. The admin, the burned
/// total and the bumps stay.
pub fn update_token_config(ctx: &mut UpdateTokenConfig, p: TokenConfigParams) -> (res: Result<
    (),
    Error,
>)
    ensures
        update_token_config_outcome(*old(ctx), p, *final(ctx), res),
{
    if ctx.token_config.admin != ctx.admin {
        return Err(Error::Naim(NaimError::Unauthorized));
    }
    if !p.split_is_whole() {
        return Err(Error::Naim(NaimError::InvalidConfig));
    }
    ctx.token_config = TokenConfig {
        admin: ctx.token_config.admin,
        naim_mint: ctx.naim_mint.key,
        treasury: ctx.treasury,
        fee_1_4: p.fee_1_4,
        fee_5_9: p.fee_5_9,
        fee_10_plus: p.fee_10_plus,
        verify_fee: p.verify_fee,
        treasury_bps: p.treasury_bps,
        stakers_bps: p.stakers_bps,
        burn_bps: p.burn_bps,
        total_burned: ctx.token_config.total_burned,
        bump: ctx.token_config.bump,
        vault_bump: ctx.token_config.vault_bump,
    };
    Ok(())
}

/// How `init_market_config` takes `before` to `after`, and what it returns.
pub open spec fn init_market_config_outcome(
    before: InitMarketConfig,
    p: MarketConfigParams,
    after: InitMarketConfig,
    res: Result<(), Error>,
) -> bool {
    match res {
        Ok(_) => {
            &&& before.market_config is None
            &&& before.config.admin == before.admin
            &&& p.is_valid()
            &&& after == (InitMarketConfig {
                market_config: Some(MarketConfig {
                    admin: before.admin,
                    usdc_mint: p.usdc_mint,
                    treasury: p.treasury,
                    fee_naim_bps: p.fee_naim_bps,
                    fee_stable_bps: p.fee_stable_bps,
                    bump: before.market_config_bump,
                }),
                ..before
            })
            &&& after.market_config->0.is_valid()
        },
        Err(e) => {
            &&& e == if before.market_config is Some {
                Error::AccountInUse
            } else if before.config.admin != before.admin {
                Error::Naim(NaimError::Unauthorized)
            } else {
                Error::Naim(NaimError::InvalidConfig)
            }
            &&& before.market_config is Some || before.config.admin != before.admin
                || !p.is_valid()
            &&& after == before
        },
    }
}

/// One-time marketplace setup by the protocol admin: pins the USDC mint and the
/// two fee tiers, of which $NAIM is the cheaper.
pub fn init_market_config(ctx: &mut InitMarketConfig, p: MarketConfigParams) -> (res: Result<
    (),
    Error,
>)
    ensures
        init_market_config_outcome(*old(ctx), p, *final(ctx), res),
{
    if ctx.market_config.is_some() {
        return Err(Error::AccountInUse);
    }
    if ctx.config.admin != ctx.admin {
        return Err(Error::Naim(NaimError::Unauthorized));
    }
    if !p.tiers_are_ordered() {
        return Err(Error::Naim(NaimError::InvalidConfig));
    }
    ctx.market_config = Some(MarketConfig {
        admin: ctx.admin,
        usdc_mint: p.usdc_mint,
        treasury: p.treasury,
        fee_naim_bps: p.fee_naim_bps,
        fee_stable_bps: p.fee_stable_bps,
        bump: ctx.market_config_bump,
    });
    Ok(())
}

/// How `update_market_config` takes `before` to `after`, and what it returns.
pub open spec fn update_market_config_outcome(
    before: UpdateMarketConfig,
    p: MarketConfigParams,
    after: UpdateMarketConfig,
    res: Result<(), Error>,
) -> bool {
    match res {
        Ok(_) => {
            &&& before.market_config.admin == before.admin
            &&& p.is_valid()
            &&& after == (UpdateMarketConfig {
                market_config: MarketConfig {
                    admin: before.market_config.admin,
                    usdc_mint: p.usdc_mint,
                    treasury: p.treasury,
                    fee_naim_bps: p.fee_naim_bps,
                    fee_stable_bps: p.fee_stable_bps,
                    bump: before.market_config.bump,
                },
                ..before
            })
            &&& after.market_config.is_valid()
        },
        Err(e) => {
            &&& e == Error::Naim(
                if before.market_config.admin != before.admin {
                    NaimError::Unauthorized
                } else {
                    NaimError::InvalidConfig
                },
            )
            &&& before.market_config.admin != before.admin || !p.is_valid()
            &&& after == before
        },
    }
}

/// Admin-only: updates marketplace fees, USDC mint and treasury. $NAIM stays the
/// cheaper tier; the admin and the bump stay as they are.
pub fn update_market_config(ctx: &mut UpdateMarketConfig, p: MarketConfigParams) -> (res: Result<
    (),
    Error,
>)
    ensures
        update_market_config_outcome(*old(ctx), p, *final(ctx), res),
{
    if ctx.market_config.admin != ctx.admin {
        return Err(Error::Naim(NaimError::Unauthorized));
    }
    if !p.tiers_are_ordered() {
        return Err(Error::Naim(NaimError::InvalidConfig));
    }
    ctx.market_config = MarketConfig {
        admin: ctx.market_config.admin,
        usdc_mint: p.usdc_mint,
        treasury: p.treasury,
        fee_naim_bps: p.fee_naim_bps,
        fee_stable_bps: p.fee_stable_bps,
        bump: ctx.market_config.bump,
    };
    Ok(())
}

} // verus!
