use vstd::prelude::*;
use vstd::arithmetic::div_mod::{lemma_div_is_ordered, lemma_div_pos_is_pos};
use vstd::arithmetic::mul::lemma_mul_nonnegative;

use crate::errors::CustomError;
use crate::fixed_math::{
    calculate_accuracy_score,
    calculate_conviction_bonus,
    calculate_time_bonus,
    calculate_parimutuel_weight,
    spec_accuracy_score,
    spec_conviction_bonus,
    spec_parimutuel_weight,
};
use crate::infinite_math::{
    calculate_max_potential_profit,
    calculate_time_decay_factor,
    lemma_u64_mul_fits,
    spec_max_profit,
    spec_time_decay_factor,
    spec_time_decay_overflows,
};
use crate::state::{
    status_rank,
    AssetConfig,
    BetStatus,
    FixedMarket,
    GlobalConfig,
    MarketMode,
    MarketType,
    UserBet,
    WinCriterion,
};

verus! {

/// Create a self-funded fixed-window market. Only the admin may create
/// markets, the window must be non-empty, the mint must be whitelisted, and
/// a parimutuel market must use the target-only criterion.
pub fn create_fixed_market(
    config: &GlobalConfig,
    caller: u64,
    name: u64,
    token_mint: u64,
    start_time: i64,
    end_time: i64,
    initial_liquidity: u64,
    mode: MarketMode,
    criterion: WinCriterion,
    max_accuracy_buffer: u64,
    conviction_bonus_bps: u64,
) -> (r: Result<FixedMarket, CustomError>)
    ensures
        caller != config.admin ==> r == Err::<FixedMarket, CustomError>(CustomError::Unauthorized),
        caller == config.admin && end_time <= start_time ==> r == Err::<FixedMarket, CustomError>(
            CustomError::DurationTooShort,
        ),
        caller == config.admin && end_time > start_time && !(exists|i: int|
            0 <= i < config.allowed_assets@.len() && config.allowed_assets@[i] == token_mint)
            ==> r == Err::<FixedMarket, CustomError>(CustomError::AssetNotWhitelisted),
        r is Ok <==> (caller == config.admin && end_time > start_time && (exists|i: int|
            0 <= i < config.allowed_assets@.len() && config.allowed_assets@[i] == token_mint) && (
        mode == MarketMode::Parimutuel ==> criterion == WinCriterion::TargetOnly)),
        r is Ok ==> r->Ok_0 == (FixedMarket {
            admin: caller,
            name,
            token_mint,
            start_time,
            end_time,
            vault_balance: initial_liquidity,
            mode,
            criterion,
            max_accuracy_buffer,
            conviction_bonus_bps,
            resolution_target: 0,
            is_resolved: false,
            resolution_ts: 0,
            total_weight: 0,
            weight_finalized: false,
            locked_for_payouts: 0,
        }),
        r is Ok ==> r->Ok_0.locked_covered() && r->Ok_0.start_time < r->Ok_0.end_time,
{
    if caller != config.admin {
        return Err(CustomError::Unauthorized);
    }
    if end_time <= start_time {
        return Err(CustomError::DurationTooShort);
    }
    let mut i: usize = 0;
    let mut whitelisted: bool = false;
    let n: usize = config.allowed_assets.len();
    while i < n
        invariant
            0 <= i <= n,
            n == config.allowed_assets@.len(),
            whitelisted <==> (exists|j: int|
                0 <= j < i && config.allowed_assets@[j] == token_mint),
        decreases n - i,
    {
        if config.allowed_assets[i] == token_mint {
            whitelisted = true;
        }
        i += 1;
    }
    if !whitelisted {
        return Err(CustomError::AssetNotWhitelisted);
    }
    if matches!(mode, MarketMode::Parimutuel) && !matches!(criterion, WinCriterion::TargetOnly) {
        return Err(CustomError::InvalidAsset);
    }
    Ok(
        FixedMarket {
            admin: caller,
            name,
            token_mint,
            start_time,
            end_time,
            vault_balance: initial_liquidity,
            mode,
            criterion,
            max_accuracy_buffer,
            conviction_bonus_bps,
            resolution_target: 0,
            is_resolved: false,
            resolution_ts: 0,
            total_weight: 0,
            weight_finalized: false,
            locked_for_payouts: 0,
        },
    )
}

/// The multiplier a house-mode bet is granted at placement: the declared
/// multiplier scaled by the time-decay factor.
pub open spec fn spec_adjusted_multiplier(declared: int, decay: int) -> int {
    declared * decay / 10_000
}

/// The placement arithmetic of a fixed-market bet fails closed.
pub open spec fn spec_place_fixed_overflow(
    m: FixedMarket,
    fee_bps: int,
    amount: int,
    declared: int,
    now: int,
) -> bool {
    if m.mode == MarketMode::Parimutuel {
        m.vault_balance + amount > u64::MAX
    } else {
        let fee = amount * fee_bps / 10_000;
        let net = amount - fee;
        ||| fee > u64::MAX
        ||| fee > amount
        ||| spec_time_decay_overflows(m.start_time as int, m.end_time as int, now)
        ||| ({
            let adjusted = spec_adjusted_multiplier(
                declared,
                spec_time_decay_factor(m.start_time as int, m.end_time as int, now),
            );
            let profit = spec_max_profit(net, adjusted);
            ||| profit > u64::MAX
            ||| net + profit > u64::MAX
            ||| m.vault_balance + net > u64::MAX
            ||| m.locked_for_payouts + net + profit > u64::MAX
        })
    }
}

/// Place a bet in a fixed market. House mode charges the placement fee,
/// decays the declared multiplier, and reserves deposit plus potential
/// profit against the market's balance; parimutuel mode just banks the
/// stake into the pot. Returns the new bet and the fee owed the treasury.
pub fn place_bet_fixed(
    config: &GlobalConfig,
    market: &mut FixedMarket,
    asset_config: &AssetConfig,
    owner: u64,
    amount: u64,
    declared_multiplier_bps: u64,
    commitment: [u8; 32],
    now: i64,
) -> (r: Result<(UserBet, u64), CustomError>)
    requires
        old(market).start_time < old(market).end_time,
    ensures
        r is Err ==> *final(market) == *old(market),
        config.paused ==> r == Err::<(UserBet, u64), CustomError>(CustomError::Paused),
        !config.paused && (now < old(market).start_time || now >= old(market).end_time) ==> r
            == Err::<(UserBet, u64), CustomError>(CustomError::DurationTooShort),
        !config.paused && old(market).start_time <= now < old(market).end_time
            && spec_place_fixed_overflow(
            *old(market),
            config.house_fee_bps as int,
            amount as int,
            declared_multiplier_bps as int,
            now as int,
        ) ==> r == Err::<(UserBet, u64), CustomError>(CustomError::MathOverflow),
        !config.paused && old(market).start_time <= now < old(market).end_time
            && !spec_place_fixed_overflow(
            *old(market),
            config.house_fee_bps as int,
            amount as int,
            declared_multiplier_bps as int,
            now as int,
        ) && old(market).mode == MarketMode::House && ({
            let fee = amount as int * config.house_fee_bps / 10_000;
            let net = amount - fee;
            let adjusted = spec_adjusted_multiplier(
                declared_multiplier_bps as int,
                spec_time_decay_factor(
                    old(market).start_time as int,
                    old(market).end_time as int,
                    now as int,
                ),
            );
            old(market).locked_for_payouts + net + spec_max_profit(net, adjusted) > old(
                market,
            ).vault_balance + net
        }) ==> r == Err::<(UserBet, u64), CustomError>(CustomError::SolvencyRisk),
        r is Ok <==> (!config.paused && old(market).start_time <= now < old(market).end_time
            && !spec_place_fixed_overflow(
            *old(market),
            config.house_fee_bps as int,
            amount as int,
            declared_multiplier_bps as int,
            now as int,
        ) && (old(market).mode == MarketMode::House ==> ({
            let fee = amount as int * config.house_fee_bps / 10_000;
            let net = amount - fee;
            let adjusted = spec_adjusted_multiplier(
                declared_multiplier_bps as int,
                spec_time_decay_factor(
                    old(market).start_time as int,
                    old(market).end_time as int,
                    now as int,
                ),
            );
            old(market).locked_for_payouts + net + spec_max_profit(net, adjusted) <= old(
                market,
            ).vault_balance + net
        }))),
        r is Ok && old(market).mode == MarketMode::Parimutuel ==> ({
            &&& r->Ok_0.1 == 0
            &&& r->Ok_0.0 == (UserBet {
                owner,
                market_identifier: old(market).name,
                market_type: MarketType::Fixed,
                deposit: amount,
                end_timestamp: old(market).end_time,
                payout_multiplier: 0,
                creation_ts: now,
                update_count: 0,
                calculated_weight: 0,
                is_weight_added: false,
                entry_price: 0,
                volatility_factor_at_entry: asset_config.volatility_factor,
                referrer: None,
                commitment,
                is_revealed: false,
                prediction_low: 0,
                prediction_high: 0,
                prediction_target: 0,
                status: BetStatus::Active,
            })
            &&& *final(market) == (FixedMarket {
                vault_balance: (old(market).vault_balance + amount) as u64,
                ..*old(market)
            })
        }),
        r is Ok && old(market).mode == MarketMode::House ==> ({
            let fee = amount as int * config.house_fee_bps / 10_000;
            let net = amount - fee;
            let adjusted = spec_adjusted_multiplier(
                declared_multiplier_bps as int,
                spec_time_decay_factor(
                    old(market).start_time as int,
                    old(market).end_time as int,
                    now as int,
                ),
            );
            let profit = spec_max_profit(net, adjusted);
            &&& r->Ok_0.1 == fee
            &&& r->Ok_0.0 == (UserBet {
                owner,
                market_identifier: old(market).name,
                market_type: MarketType::Fixed,
                deposit: net as u64,
                end_timestamp: old(market).end_time,
                payout_multiplier: adjusted as u64,
                creation_ts: now,
                update_count: 0,
                calculated_weight: 0,
                is_weight_added: false,
                entry_price: 0,
                volatility_factor_at_entry: asset_config.volatility_factor,
                referrer: None,
                commitment,
                is_revealed: false,
                prediction_low: 0,
                prediction_high: 0,
                prediction_target: 0,
                status: BetStatus::Active,
            })
            &&& *final(market) == (FixedMarket {
                vault_balance: (old(market).vault_balance + net) as u64,
                locked_for_payouts: (old(market).locked_for_payouts + net + profit) as u64,
                ..*old(market)
            })
        }),
        r is Ok && old(market).locked_covered() ==> final(market).locked_covered(),
{
    if config.paused {
        return Err(CustomError::Paused);
    }
    if now < market.start_time {
        return Err(CustomError::DurationTooShort);
    }
    if now >= market.end_time {
        return Err(CustomError::DurationTooShort);
    }
    let mut fee_amount: u64 = 0;
    let mut net_deposit: u64 = amount;
    if !matches!(market.mode, MarketMode::Parimutuel) {
        proof {
            lemma_u64_mul_fits(amount, config.house_fee_bps);
            lemma_mul_nonnegative(amount as int, config.house_fee_bps as int);
            lemma_div_pos_is_pos((amount as int) * (config.house_fee_bps as int), 10_000);
        }
        let fee_wide: u128 = (amount as u128) * (config.house_fee_bps as u128) / 10_000;
        if fee_wide > u64::MAX as u128 {
            return Err(CustomError::MathOverflow);
        }
        fee_amount = fee_wide as u64;
        if fee_amount > amount {
            return Err(CustomError::MathOverflow);
        }
        net_deposit = amount - fee_amount;
    }
    let final_multiplier: u64 = if matches!(market.mode, MarketMode::House) {
        let decay_factor: u64 = match calculate_time_decay_factor(
            market.start_time,
            market.end_time,
            now,
        ) {
            Ok(v) => v,
            Err(e) => {
                return Err(e);
            },
        };
        proof {
            lemma_u64_mul_fits(declared_multiplier_bps, decay_factor);
            lemma_mul_nonnegative(declared_multiplier_bps as int, decay_factor as int);
            lemma_div_pos_is_pos(
                (declared_multiplier_bps as int) * (decay_factor as int),
                10_000,
            );
            assert((declared_multiplier_bps as int) * (decay_factor as int)
                <= (declared_multiplier_bps as int) * 10_000) by (nonlinear_arith)
                requires
                    decay_factor <= 10_000,
                    declared_multiplier_bps >= 0,
            ;
            lemma_div_is_ordered(
                (declared_multiplier_bps as int) * (decay_factor as int),
                (declared_multiplier_bps as int) * 10_000,
                10_000,
            );
        }
        let adjusted_multiplier: u64 = (((declared_multiplier_bps as u128) * (
        decay_factor as u128)) / 10_000) as u64;
        let max_potential_profit: u64 = match calculate_max_potential_profit(
            net_deposit,
            adjusted_multiplier,
        ) {
            Ok(v) => v,
            Err(e) => {
                return Err(e);
            },
        };
        let max_liability_this_bet: u64 = match net_deposit.checked_add(max_potential_profit) {
            Some(v) => v,
            None => {
                return Err(CustomError::MathOverflow);
            },
        };
        let new_vault_balance: u64 = match market.vault_balance.checked_add(net_deposit) {
            Some(v) => v,
            None => {
                return Err(CustomError::MathOverflow);
            },
        };
        let new_locked_total: u64 = match market.locked_for_payouts.checked_add(
            max_liability_this_bet,
        ) {
            Some(v) => v,
            None => {
                return Err(CustomError::MathOverflow);
            },
        };
        if new_locked_total > new_vault_balance {
            return Err(CustomError::SolvencyRisk);
        }
        market.locked_for_payouts = new_locked_total;
        adjusted_multiplier
    } else {
        0
    };
    let new_balance: u64 = match market.vault_balance.checked_add(net_deposit) {
        Some(v) => v,
        None => {
            return Err(CustomError::MathOverflow);
        },
    };
    market.vault_balance = new_balance;
    let bet = UserBet {
        owner,
        market_identifier: market.name,
        market_type: MarketType::Fixed,
        deposit: net_deposit,
        end_timestamp: market.end_time,
        payout_multiplier: final_multiplier,
        creation_ts: now,
        update_count: 0,
        calculated_weight: 0,
        is_weight_added: false,
        entry_price: 0,
        volatility_factor_at_entry: asset_config.volatility_factor,
        referrer: None,
        commitment,
        is_revealed: false,
        prediction_low: 0,
        prediction_high: 0,
        prediction_target: 0,
        status: BetStatus::Active,
    };
    Ok((bet, fee_amount))
}

/// Record the resolved outcome of a fixed market once its window closes.
pub fn resolve_fixed_market(
    config: &GlobalConfig,
    market: &mut FixedMarket,
    caller: u64,
    final_outcome: u64,
    now: i64,
) -> (r: Result<(), CustomError>)
    ensures
        r is Err ==> *final(market) == *old(market),
        caller != config.admin ==> r == Err::<(), CustomError>(CustomError::Unauthorized),
        caller == config.admin && old(market).is_resolved ==> r == Err::<(), CustomError>(
            CustomError::AlreadySettled,
        ),
        caller == config.admin && !old(market).is_resolved && now < old(market).end_time ==> r
            == Err::<(), CustomError>(CustomError::DurationTooShort),
        r is Ok <==> (caller == config.admin && !old(market).is_resolved && now >= old(
            market,
        ).end_time),
        r is Ok ==> *final(market) == (FixedMarket {
            resolution_target: final_outcome,
            is_resolved: true,
            resolution_ts: now,
            weight_finalized: false,
            ..*old(market)
        }),
{
    if caller != config.admin {
        return Err(CustomError::Unauthorized);
    }
    if market.is_resolved {
        return Err(CustomError::AlreadySettled);
    }
    if now < market.end_time {
        return Err(CustomError::DurationTooShort);
    }
    market.resolution_target = final_outcome;
    market.is_resolved = true;
    market.resolution_ts = now;
    market.weight_finalized = false;
    Ok(())
}

} // verus!

verus! {

/// Accuracy of a bet's revealed target against a market's resolved outcome.
pub open spec fn spec_bet_accuracy(resolution_target: int, buffer: int, b: UserBet) -> int {
    spec_accuracy_score(b.prediction_target as int, resolution_target, buffer)
}

/// The parimutuel weight a bet earns in a resolved market.
pub open spec fn spec_bet_weight(
    start: int,
    end: int,
    resolution_target: int,
    buffer: int,
    b: UserBet,
) -> int {
    spec_parimutuel_weight(
        b.deposit as int,
        spec_bet_accuracy(resolution_target, buffer, b),
        spec_time_decay_factor(start, end, b.creation_ts as int),
        spec_conviction_bonus(b.update_count as int),
    )
}

/// Score one revealed, active bet of a resolved fixed market. Parimutuel
/// mode computes the full weight and adds it to the market total; house
/// mode records the bare accuracy score. Either way the weight is written
/// exactly once and the bet advances to Calculated.
pub fn calculate_fixed_outcome(market: &mut FixedMarket, bet: &mut UserBet) -> (r: Result<
    (),
    CustomError,
>)
    requires
        old(bet).market_identifier == old(market).name,
        old(market).start_time < old(market).end_time,
    ensures
        r is Err ==> *final(bet) == *old(bet) && *final(market) == *old(market),
        old(bet).status != BetStatus::Active ==> r == Err::<(), CustomError>(
            CustomError::AlreadySettled,
        ),
        old(bet).status == BetStatus::Active && !old(bet).is_revealed ==> r == Err::<(),
            CustomError,
        >(CustomError::BetNotRevealed),
        old(bet).status == BetStatus::Active && old(bet).is_revealed && !old(market).is_resolved
            ==> r == Err::<(), CustomError>(CustomError::SettlementTooEarly),
        old(bet).status == BetStatus::Active && old(bet).is_revealed && old(market).is_resolved
            && old(bet).is_weight_added ==> r == Err::<(), CustomError>(
            CustomError::AlreadySettled,
        ),
        r is Ok <==> (old(bet).status == BetStatus::Active && old(bet).is_revealed && old(
            market,
        ).is_resolved && !old(bet).is_weight_added && (old(market).mode == MarketMode::Parimutuel
            ==> !spec_time_decay_overflows(
            old(market).start_time as int,
            old(market).end_time as int,
            old(bet).creation_ts as int,
        ) && old(market).total_weight + spec_bet_weight(
            old(market).start_time as int,
            old(market).end_time as int,
            old(market).resolution_target as int,
            old(market).max_accuracy_buffer as int,
            *old(bet),
        ) <= u128::MAX)),
        r is Ok && old(market).mode == MarketMode::Parimutuel ==> ({
            let weight = spec_bet_weight(
                old(market).start_time as int,
                old(market).end_time as int,
                old(market).resolution_target as int,
                old(market).max_accuracy_buffer as int,
                *old(bet),
            );
            &&& *final(bet) == (UserBet {
                calculated_weight: weight as u128,
                is_weight_added: true,
                status: BetStatus::Calculated,
                ..*old(bet)
            })
            &&& *final(market) == (FixedMarket {
                total_weight: (old(market).total_weight + weight) as u128,
                ..*old(market)
            })
        }),
        r is Ok && old(market).mode == MarketMode::House ==> *final(bet) == (UserBet {
            calculated_weight: spec_bet_accuracy(
                old(market).resolution_target as int,
                old(market).max_accuracy_buffer as int,
                *old(bet),
            ) as u128,
            is_weight_added: true,
            status: BetStatus::Calculated,
            ..*old(bet)
        }) && *final(market) == *old(market),
        status_rank(final(bet).status) >= status_rank(old(bet).status),
{
    if !matches!(bet.status, BetStatus::Active) {
        return Err(CustomError::AlreadySettled);
    }
    if !bet.is_revealed {
        return Err(CustomError::BetNotRevealed);
    }
    if !market.is_resolved {
        return Err(CustomError::SettlementTooEarly);
    }
    if bet.is_weight_added {
        return Err(CustomError::AlreadySettled);
    }
    let accuracy_score: u64 = calculate_accuracy_score(
        bet.prediction_target,
        market.resolution_target,
        market.max_accuracy_buffer,
    );
    if matches!(market.mode, MarketMode::Parimutuel) {
        let time_bonus: u64 = match calculate_time_bonus(
            market.start_time,
            market.end_time,
            bet.creation_ts,
        ) {
            Ok(v) => v,
            Err(e) => {
                return Err(e);
            },
        };
        let conviction_bonus: u64 = calculate_conviction_bonus(bet.update_count);
        let weight: u128 = calculate_parimutuel_weight(
            bet.deposit,
            accuracy_score,
            time_bonus,
            conviction_bonus,
        );
        let new_total: u128 = match market.total_weight.checked_add(weight) {
            Some(v) => v,
            None => {
                return Err(CustomError::MathOverflow);
            },
        };
        market.total_weight = new_total;
        bet.calculated_weight = weight;
        bet.is_weight_added = true;
        bet.status = BetStatus::Calculated;
    } else {
        bet.calculated_weight = accuracy_score as u128;
        bet.is_weight_added = true;
        bet.status = BetStatus::Calculated;
    }
    Ok(())
}

/// Close a resolved parimutuel market's pot: deduct the protocol's share
/// for the treasury and freeze the remainder as the distributable pot.
/// Returns the fee owed to the treasury.
pub fn finalize_weights(config: &GlobalConfig, market: &mut FixedMarket, caller: u64) -> (r: Result<
    u64,
    CustomError,
>)
    ensures
        r is Err ==> *final(market) == *old(market),
        caller != config.admin ==> r == Err::<u64, CustomError>(CustomError::Unauthorized),
        caller == config.admin && old(market).mode != MarketMode::Parimutuel ==> r == Err::<
            u64,
            CustomError,
        >(CustomError::InvalidAsset),
        caller == config.admin && old(market).mode == MarketMode::Parimutuel && !old(
            market,
        ).is_resolved ==> r == Err::<u64, CustomError>(CustomError::SettlementTooEarly),
        caller == config.admin && old(market).mode == MarketMode::Parimutuel && old(
            market,
        ).is_resolved && old(market).weight_finalized ==> r == Err::<u64, CustomError>(
            CustomError::AlreadySettled,
        ),
        r is Ok <==> (caller == config.admin && old(market).mode == MarketMode::Parimutuel && old(
            market,
        ).is_resolved && !old(market).weight_finalized && old(market).vault_balance as int
            * config.parimutuel_fee_bps / 10_000 <= old(market).vault_balance),
        r is Ok ==> ({
            let fee = old(market).vault_balance as int * config.parimutuel_fee_bps / 10_000;
            &&& r->Ok_0 == fee
            &&& *final(market) == (FixedMarket {
                vault_balance: (old(market).vault_balance - fee) as u64,
                locked_for_payouts: (old(market).vault_balance - fee) as u64,
                weight_finalized: true,
                ..*old(market)
            })
        }),
        r is Ok ==> final(market).locked_covered(),
{
    if caller != config.admin {
        return Err(CustomError::Unauthorized);
    }
    if !matches!(market.mode, MarketMode::Parimutuel) {
        return Err(CustomError::InvalidAsset);
    }
    if !market.is_resolved {
        return Err(CustomError::SettlementTooEarly);
    }
    if market.weight_finalized {
        return Err(CustomError::AlreadySettled);
    }
    proof {
        lemma_u64_mul_fits(market.vault_balance, config.parimutuel_fee_bps);
        lemma_mul_nonnegative(market.vault_balance as int, config.parimutuel_fee_bps as int);
        lemma_div_pos_is_pos(
            (market.vault_balance as int) * (config.parimutuel_fee_bps as int),
            10_000,
        );
    }
    let fee_wide: u128 = (market.vault_balance as u128) * (config.parimutuel_fee_bps as u128)
        / 10_000;
    if fee_wide > market.vault_balance as u128 {
        return Err(CustomError::MathOverflow);
    }
    let fee_amount: u64 = fee_wide as u64;
    market.vault_balance = market.vault_balance - fee_amount;
    market.locked_for_payouts = market.vault_balance;
    market.weight_finalized = true;
    Ok(fee_amount)
}

/// A calculated bet's pro-rata share of a finalized parimutuel pot.
pub open spec fn spec_pool_share(weight: int, pot: int, total_weight: int) -> int {
    if weight > 0 && total_weight > 0 {
        weight * pot / total_weight
    } else {
        0
    }
}

/// What a house-mode bet is paid at claim time: deposit plus the profit
/// scaled by the recorded accuracy score, or nothing on a zero score.
pub open spec fn spec_house_payout(deposit: int, mult: int, accuracy: int) -> int {
    if accuracy > 0 {
        deposit + (deposit * mult / 10_000) * accuracy / 1_000_000
    } else {
        0
    }
}

/// The liability released from the market's lock at claim time.
pub open spec fn spec_house_release(deposit: int, mult: int, accuracy: int) -> int {
    if accuracy > 0 {
        spec_house_payout(deposit, mult, accuracy)
    } else {
        deposit + deposit * mult / 10_000
    }
}

/// The claim computation fails closed on these inputs.
pub open spec fn spec_claim_fixed_overflow(m: FixedMarket, b: UserBet) -> bool {
    if m.mode == MarketMode::Parimutuel {
        b.calculated_weight > 0 && m.total_weight > 0 && (b.calculated_weight as int
            * m.locked_for_payouts > u128::MAX || spec_pool_share(
            b.calculated_weight as int,
            m.locked_for_payouts as int,
            m.total_weight as int,
        ) > u64::MAX)
    } else {
        let acc = b.calculated_weight as int;
        ||| acc > u64::MAX
        ||| (b.deposit as int * b.payout_multiplier / 10_000) * acc > u128::MAX
        ||| spec_house_release(b.deposit as int, b.payout_multiplier as int, acc) > u64::MAX
    }
}

/// Pay out a calculated bet. Parimutuel mode pays the bet's share of the
/// finalized pot; house mode pays deposit plus accuracy-scaled profit and
/// releases the liability locked for the bet. The bet ends Settled.
/// Returns the payout owed to the bettor.
pub fn claim_fixed_reward(market: &mut FixedMarket, bet: &mut UserBet, caller: u64) -> (r: Result<
    u64,
    CustomError,
>)
    requires
        old(bet).market_identifier == old(market).name,
    ensures
        r is Err ==> *final(bet) == *old(bet) && *final(market) == *old(market),
        caller != old(bet).owner ==> r == Err::<u64, CustomError>(CustomError::Unauthorized),
        caller == old(bet).owner && old(bet).status != BetStatus::Calculated ==> r == Err::<
            u64,
            CustomError,
        >(CustomError::SettlementTooEarly),
        caller == old(bet).owner && old(bet).status == BetStatus::Calculated && old(market).mode
            == MarketMode::Parimutuel && !old(market).weight_finalized ==> r == Err::<
            u64,
            CustomError,
        >(CustomError::SettlementTooEarly),
        caller == old(bet).owner && old(bet).status == BetStatus::Calculated && (old(market).mode
            == MarketMode::Parimutuel ==> old(market).weight_finalized)
            && spec_claim_fixed_overflow(*old(market), *old(bet)) ==> r == Err::<u64, CustomError>(
            CustomError::MathOverflow,
        ),
        caller == old(bet).owner && old(bet).status == BetStatus::Calculated && (old(market).mode
            == MarketMode::Parimutuel ==> old(market).weight_finalized)
            && !spec_claim_fixed_overflow(*old(market), *old(bet)) && ({
            let payout = if old(market).mode == MarketMode::Parimutuel {
                spec_pool_share(
                    old(bet).calculated_weight as int,
                    old(market).locked_for_payouts as int,
                    old(market).total_weight as int,
                )
            } else {
                spec_house_payout(
                    old(bet).deposit as int,
                    old(bet).payout_multiplier as int,
                    old(bet).calculated_weight as int,
                )
            };
            payout > old(market).vault_balance
        }) ==> r == Err::<u64, CustomError>(CustomError::InsufficientLiquidity),
        r is Ok <==> (caller == old(bet).owner && old(bet).status == BetStatus::Calculated && (old(
            market,
        ).mode == MarketMode::Parimutuel ==> old(market).weight_finalized)
            && !spec_claim_fixed_overflow(*old(market), *old(bet)) && ({
            let payout = if old(market).mode == MarketMode::Parimutuel {
                spec_pool_share(
                    old(bet).calculated_weight as int,
                    old(market).locked_for_payouts as int,
                    old(market).total_weight as int,
                )
            } else {
                spec_house_payout(
                    old(bet).deposit as int,
                    old(bet).payout_multiplier as int,
                    old(bet).calculated_weight as int,
                )
            };
            payout <= old(market).vault_balance
        })),
        r is Ok && old(market).mode == MarketMode::Parimutuel ==> ({
            let payout = spec_pool_share(
                old(bet).calculated_weight as int,
                old(market).locked_for_payouts as int,
                old(market).total_weight as int,
            );
            &&& r->Ok_0 == payout
            &&& *final(bet) == (UserBet { status: BetStatus::Settled, ..*old(bet) })
            &&& *final(market) == (FixedMarket {
                vault_balance: (old(market).vault_balance - payout) as u64,
                ..*old(market)
            })
        }),
        r is Ok && old(market).mode == MarketMode::House ==> ({
            let payout = spec_house_payout(
                old(bet).deposit as int,
                old(bet).payout_multiplier as int,
                old(bet).calculated_weight as int,
            );
            let released = spec_house_release(
                old(bet).deposit as int,
                old(bet).payout_multiplier as int,
                old(bet).calculated_weight as int,
            );
            &&& r->Ok_0 == payout
            &&& *final(bet) == (UserBet { status: BetStatus::Settled, ..*old(bet) })
            &&& *final(market) == (FixedMarket {
                vault_balance: (old(market).vault_balance - payout) as u64,
                locked_for_payouts: if old(market).locked_for_payouts >= released {
                    (old(market).locked_for_payouts - released) as u64
                } else {
                    0
                },
                ..*old(market)
            })
        }),
        status_rank(final(bet).status) >= status_rank(old(bet).status),
{
    if caller != bet.owner {
        return Err(CustomError::Unauthorized);
    }
    if !matches!(bet.status, BetStatus::Calculated) {
        return Err(CustomError::SettlementTooEarly);
    }
    let payout_amount: u64;
    let mut new_locked: u64 = market.locked_for_payouts;
    if matches!(market.mode, MarketMode::Parimutuel) {
        if !market.weight_finalized {
            return Err(CustomError::SettlementTooEarly);
        }
        if bet.calculated_weight > 0 && market.total_weight > 0 {
            let pot: u128 = market.locked_for_payouts as u128;
            let prod: u128 = match bet.calculated_weight.checked_mul(pot) {
                Some(v) => v,
                None => {
                    return Err(CustomError::MathOverflow);
                },
            };
            let share: u128 = prod / market.total_weight;
            if share > u64::MAX as u128 {
                return Err(CustomError::MathOverflow);
            }
            payout_amount = share as u64;
        } else {
            payout_amount = 0;
        }
    } else {
        if bet.calculated_weight > u64::MAX as u128 {
            return Err(CustomError::MathOverflow);
        }
        let accuracy_score: u64 = bet.calculated_weight as u64;
        if accuracy_score > 0 {
            proof {
                lemma_u64_mul_fits(bet.deposit, bet.payout_multiplier);
                lemma_mul_nonnegative(bet.deposit as int, bet.payout_multiplier as int);
                lemma_div_pos_is_pos(
                    (bet.deposit as int) * (bet.payout_multiplier as int),
                    10_000,
                );
            }
            let raw_profit: u128 = (bet.deposit as u128) * (bet.payout_multiplier as u128)
                / 10_000;
            let scaled: u128 = match raw_profit.checked_mul(accuracy_score as u128) {
                Some(v) => v,
                None => {
                    return Err(CustomError::MathOverflow);
                },
            };
            let adjusted_profit: u128 = scaled / 1_000_000;
            let total: u128 = (bet.deposit as u128) + adjusted_profit;
            if total > u64::MAX as u128 {
                return Err(CustomError::MathOverflow);
            }
            payout_amount = total as u64;
            new_locked = market.locked_for_payouts.saturating_sub(payout_amount);
        } else {
            proof {
                lemma_u64_mul_fits(bet.deposit, bet.payout_multiplier);
                lemma_mul_nonnegative(bet.deposit as int, bet.payout_multiplier as int);
                lemma_div_pos_is_pos(
                    (bet.deposit as int) * (bet.payout_multiplier as int),
                    10_000,
                );
            }
            let reserved_wide: u128 = (bet.deposit as u128) * (bet.payout_multiplier as u128)
                / 10_000;
            let total_reserved: u128 = (bet.deposit as u128) + reserved_wide;
            if total_reserved > u64::MAX as u128 {
                return Err(CustomError::MathOverflow);
            }
            payout_amount = 0;
            new_locked = market.locked_for_payouts.saturating_sub(total_reserved as u64);
        }
    }
    if payout_amount > market.vault_balance {
        return Err(CustomError::InsufficientLiquidity);
    }
    market.locked_for_payouts = new_locked;
    market.vault_balance = market.vault_balance - payout_amount;
    bet.status = BetStatus::Settled;
    Ok(payout_amount)
}

} // verus!
