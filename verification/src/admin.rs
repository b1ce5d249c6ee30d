use vstd::prelude::*;

use crate::errors::CustomError;
use crate::state::{AssetConfig, GlobalConfig};

verus! {

/// Mercy buffer an asset gets when none was configured, in basis points.
pub const MERCY_BUFFER_DEFAULT: u64 = 500;

/// Default wait before an admin may force-settle a bet, in seconds.
pub const BATCH_SETTLE_WAIT_DEFAULT_SECS: i64 = 86_400;

/// Create the protocol's configuration singleton.
pub fn initialize_protocol(
    admin: u64,
    treasury_wallet: u64,
    house_fee_bps: u64,
    parimutuel_fee_bps: u64,
    allowed_assets: Vec<u64>,
) -> (c: GlobalConfig)
    ensures
        c.admin == admin,
        c.treasury_wallet == treasury_wallet,
        c.protocol_fee_bps == 0,
        c.house_fee_bps == house_fee_bps,
        c.parimutuel_fee_bps == parimutuel_fee_bps,
        !c.paused,
        c.allowed_assets@ == allowed_assets@,
        c.batch_settle_wait_secs == BATCH_SETTLE_WAIT_DEFAULT_SECS,
{
    GlobalConfig {
        admin,
        treasury_wallet,
        protocol_fee_bps: 0,
        house_fee_bps,
        parimutuel_fee_bps,
        paused: false,
        allowed_assets,
        batch_settle_wait_secs: BATCH_SETTLE_WAIT_DEFAULT_SECS,
    }
}

/// Update protocol parameters; each `Some` overwrites its field, each
/// `None` leaves it alone. Admin only.
pub fn update_config(
    config: &mut GlobalConfig,
    caller: u64,
    new_treasury: Option<u64>,
    new_protocol_fee_bps: Option<u64>,
    new_house_fee_bps: Option<u64>,
    new_parimutuel_fee_bps: Option<u64>,
    new_allowed_assets: Option<Vec<u64>>,
) -> (r: Result<(), CustomError>)
    ensures
        r is Err ==> *final(config) == *old(config) && r->Err_0 == CustomError::Unauthorized,
        r is Ok <==> caller == old(config).admin,
        r is Ok ==> ({
            &&& final(config).admin == old(config).admin
            &&& final(config).paused == old(config).paused
            &&& final(config).batch_settle_wait_secs == old(config).batch_settle_wait_secs
            &&& final(config).treasury_wallet == (if new_treasury is Some {
                new_treasury->0
            } else {
                old(config).treasury_wallet
            })
            &&& final(config).protocol_fee_bps == (if new_protocol_fee_bps is Some {
                new_protocol_fee_bps->0
            } else {
                old(config).protocol_fee_bps
            })
            &&& final(config).house_fee_bps == (if new_house_fee_bps is Some {
                new_house_fee_bps->0
            } else {
                old(config).house_fee_bps
            })
            &&& final(config).parimutuel_fee_bps == (if new_parimutuel_fee_bps is Some {
                new_parimutuel_fee_bps->0
            } else {
                old(config).parimutuel_fee_bps
            })
            &&& final(config).allowed_assets@ == (if new_allowed_assets is Some {
                new_allowed_assets->0@
            } else {
                old(config).allowed_assets@
            })
        }),
{
    if caller != config.admin {
        return Err(CustomError::Unauthorized);
    }
    match new_treasury {
        Some(treasury) => {
            config.treasury_wallet = treasury;
        },
        None => {},
    }
    match new_protocol_fee_bps {
        Some(fee) => {
            config.protocol_fee_bps = fee;
        },
        None => {},
    }
    match new_house_fee_bps {
        Some(fee) => {
            config.house_fee_bps = fee;
        },
        None => {},
    }
    match new_parimutuel_fee_bps {
        Some(fee) => {
            config.parimutuel_fee_bps = fee;
        },
        None => {},
    }
    match new_allowed_assets {
        Some(assets) => {
            config.allowed_assets = assets;
        },
        None => {},
    }
    Ok(())
}

/// Hand the protocol to a new admin. Admin only.
pub fn transfer_admin(config: &mut GlobalConfig, caller: u64, new_admin: u64) -> (r: Result<
    (),
    CustomError,
>)
    ensures
        r is Err ==> *final(config) == *old(config) && r->Err_0 == CustomError::Unauthorized,
        r is Ok <==> caller == old(config).admin,
        r is Ok ==> final(config).admin == new_admin && final(config).treasury_wallet == old(config).treasury_wallet && final(config).paused == old(config).paused && final(config).protocol_fee_bps == old(config).protocol_fee_bps && final(config).house_fee_bps == old(config).house_fee_bps && final(config).parimutuel_fee_bps == old(config).parimutuel_fee_bps
            && final(config).allowed_assets@ == old(config).allowed_assets@ && final(config).batch_settle_wait_secs == old(config).batch_settle_wait_secs,
{
    if caller != config.admin {
        return Err(CustomError::Unauthorized);
    }
    config.admin = new_admin;
    Ok(())
}

/// Flip the circuit breaker. Admin only.
pub fn set_pause(config: &mut GlobalConfig, caller: u64, paused: bool) -> (r: Result<
    (),
    CustomError,
>)
    ensures
        r is Err ==> *final(config) == *old(config) && r->Err_0 == CustomError::Unauthorized,
        r is Ok <==> caller == old(config).admin,
        r is Ok ==> final(config).paused == paused && final(config).admin == old(config).admin
            && final(config).treasury_wallet == old(config).treasury_wallet && final(config).protocol_fee_bps == old(config).protocol_fee_bps && final(config).house_fee_bps == old(config).house_fee_bps && final(config).parimutuel_fee_bps == old(config).parimutuel_fee_bps
            && final(config).allowed_assets@ == old(config).allowed_assets@ && final(config).batch_settle_wait_secs == old(config).batch_settle_wait_secs,
{
    if caller != config.admin {
        return Err(CustomError::Unauthorized);
    }
    config.paused = paused;
    Ok(())
}

/// Create or update an asset's oracle and risk configuration. Admin only.
/// A fresh or zeroed mercy buffer falls back to the protocol default.
pub fn config_asset(
    config: &GlobalConfig,
    existing: Option<AssetConfig>,
    caller: u64,
    symbol: u64,
    pyth_feed: u64,
    volatility: u64,
    use_pyth_volatility: bool,
) -> (r: Result<AssetConfig, CustomError>)
    ensures
        r is Ok <==> caller == config.admin,
        r is Err ==> r->Err_0 == CustomError::Unauthorized,
        r is Ok ==> r->Ok_0 == (AssetConfig {
            symbol,
            pyth_feed,
            volatility_factor: volatility,
            mercy_buffer_bps: (if existing is Some && existing->0.mercy_buffer_bps != 0 {
                existing->0.mercy_buffer_bps
            } else {
                MERCY_BUFFER_DEFAULT
            }),
            use_pyth_volatility,
        }),
{
    if caller != config.admin {
        return Err(CustomError::Unauthorized);
    }
    let mercy_buffer_bps: u64 = match existing {
        Some(previous) => {
            if previous.mercy_buffer_bps != 0 {
                previous.mercy_buffer_bps
            } else {
                MERCY_BUFFER_DEFAULT
            }
        },
        None => MERCY_BUFFER_DEFAULT,
    };
    Ok(
        AssetConfig {
            symbol,
            pyth_feed,
            volatility_factor: volatility,
            mercy_buffer_bps,
            use_pyth_volatility,
        },
    )
}

} // verus!
