use vstd::prelude::*;

use crate::errors::CustomError;
use crate::infinite_math::spec_max_profit;

verus! {

// Identities (signers, token mints, storage keys, symbols) live in the
// keyed-storage collaborator outside this library; here each is an opaque
// numeric id that the engine only ever compares for equality.

/// Lifecycle of a bet. Transitions only ever move forward:
/// Active -> Calculated -> Settled, or Active -> Settled directly.
#[derive(Clone, Copy, Debug, PartialEq, Eq, Structural)]
pub enum BetStatus {
    Active,
    Calculated,
    Settled,
}

/// Position of a status in the lifecycle; operations never decrease it.
pub open spec fn status_rank(s: BetStatus) -> int {
    match s {
        BetStatus::Active => 0,
        BetStatus::Calculated => 1,
        BetStatus::Settled => 2,
    }
}

/// Which kind of market a bet belongs to.
#[derive(Clone, Copy, Debug, PartialEq, Eq, Structural)]
pub enum MarketType {
    Infinite,
    Fixed,
}

/// How a fixed market pays: house-backed fixed odds, or a parimutuel pot.
#[derive(Clone, Copy, Debug, PartialEq, Eq, Structural)]
pub enum MarketMode {
    House,
    Parimutuel,
}

/// Win criterion for a fixed market.
#[derive(Clone, Copy, Debug, PartialEq, Eq, Structural)]
pub enum WinCriterion {
    TargetOnly,
    Range,
}

/// Protocol-wide configuration singleton, mutated only by admin calls.
#[derive(Clone, Debug)]
pub struct GlobalConfig {
    /// The super admin who can pause and change protocol parameters.
    pub admin: u64,
    /// Wallet that collects protocol fees.
    pub treasury_wallet: u64,
    /// Fee on parimutuel pots at finalization, in basis points.
    pub protocol_fee_bps: u64,
    /// Fee on house-mode bet placement, in basis points.
    pub house_fee_bps: u64,
    /// Fee on parimutuel-mode fixed markets, in basis points.
    pub parimutuel_fee_bps: u64,
    /// Circuit breaker: placement and liquidity calls reject while set.
    pub paused: bool,
    /// Token mints whitelisted for vaults and markets.
    pub allowed_assets: Vec<u64>,
    /// How long after a bet's end a forced batch settlement must wait.
    pub batch_settle_wait_secs: i64,
}

/// Per-asset oracle and risk configuration, admin-managed.
#[derive(Clone, Copy, Debug, PartialEq, Eq, Structural)]
pub struct AssetConfig {
    /// The asset symbol this config is keyed by.
    pub symbol: u64,
    /// The oracle price feed for this asset.
    pub pyth_feed: u64,
    /// Risk multiplier in thousandths; higher means higher payouts.
    pub volatility_factor: u64,
    /// How close a loser must land to earn a mercy refund, in basis points.
    pub mercy_buffer_bps: u64,
    /// Whether the multiplier derives from oracle confidence instead.
    pub use_pyth_volatility: bool,
}

/// Pooled-capital vault backing the house-mode infinite market.
#[derive(Clone, Copy, Debug, PartialEq, Eq, Structural)]
pub struct LiquidityVault {
    /// Mint of the token being pooled.
    pub token_mint: u64,
    /// The asset symbol this vault serves.
    pub asset_symbol: u64,
    /// Raw assets currently held.
    pub total_assets: u64,
    /// LP shares outstanding.
    pub total_shares: u64,
    /// Total potential profit the vault is liable for across open bets.
    pub total_exposure: u64,
    /// Fees accumulated and not yet claimed.
    pub accumulated_fees: u64,
}

impl LiquidityVault {
    /// The solvency invariant: liabilities never exceed backing assets.
    pub open spec fn solvent(self) -> bool {
        self.total_exposure <= self.total_assets
    }

    /// A fresh empty vault for a whitelisted asset.
    pub fn new(token_mint: u64, asset_symbol: u64) -> (v: LiquidityVault)
        ensures
            v.token_mint == token_mint,
            v.asset_symbol == asset_symbol,
            v.total_assets == 0,
            v.total_shares == 0,
            v.total_exposure == 0,
            v.accumulated_fees == 0,
            v.solvent(),
    {
        LiquidityVault {
            token_mint,
            asset_symbol,
            total_assets: 0,
            total_shares: 0,
            total_exposure: 0,
            accumulated_fees: 0,
        }
    }

    /// Reserve exposure for a newly placed bet: rejected outright when the
    /// new liability would exceed the assets on hand.
    pub fn reserve_exposure(&mut self, potential_profit: u64) -> (r: Result<(), CustomError>)
        ensures
            old(self).total_exposure + potential_profit > u64::MAX ==> r == Err::<(),
                CustomError,
            >(CustomError::MathOverflow) && *final(self) == *old(self),
            old(self).total_exposure + potential_profit <= u64::MAX && old(self).total_exposure
                + potential_profit > old(self).total_assets ==> r == Err::<(), CustomError>(
                CustomError::SolvencyRisk,
            ) && *final(self) == *old(self),
            old(self).total_exposure + potential_profit <= old(self).total_assets ==> r == Ok::<(),
                CustomError,
            >(()) && *final(self) == (LiquidityVault {
                total_exposure: (old(self).total_exposure + potential_profit) as u64,
                ..*old(self)
            }),
            final(self).solvent() || *final(self) == *old(self),
    {
        let new_exposure: u64 = match self.total_exposure.checked_add(potential_profit) {
            Some(v) => v,
            None => {
                return Err(CustomError::MathOverflow);
            },
        };
        if new_exposure > self.total_assets {
            return Err(CustomError::SolvencyRisk);
        }
        self.total_exposure = new_exposure;
        Ok(())
    }

    /// Release exposure that was reserved for a bet, tolerating redundant
    /// releases by saturating at zero.
    pub fn release_exposure(&mut self, potential_profit: u64)
        ensures
            *final(self) == (LiquidityVault {
                total_exposure: if old(self).total_exposure >= potential_profit {
                    (old(self).total_exposure - potential_profit) as u64
                } else {
                    0
                },
                ..*old(self)
            }),
            old(self).solvent() ==> final(self).solvent(),
    {
        self.total_exposure = self.total_exposure.saturating_sub(potential_profit);
    }
}

/// A self-funded fixed-window market, house or parimutuel mode.
///
/// A market's optional descriptive metadata (a URL or content hash) lives
/// in the keyed-storage record alongside these fields; no engine rule
/// reads it, so it is not part of this model.
#[derive(Clone, Copy, Debug, PartialEq, Eq, Structural)]
pub struct FixedMarket {
    /// The admin who created the market.
    pub admin: u64,
    /// The market's name, its storage key.
    pub name: u64,
    /// Mint of the token the market trades in.
    pub token_mint: u64,
    /// Opening of the betting window.
    pub start_time: i64,
    /// Close of the betting window.
    pub end_time: i64,
    /// Funds held for this market's bets.
    pub vault_balance: u64,
    /// House-backed fixed odds or parimutuel pot.
    pub mode: MarketMode,
    /// Win criterion for bets in this market.
    pub criterion: WinCriterion,
    /// Accuracy buffer for scoring, in price units.
    pub max_accuracy_buffer: u64,
    /// Conviction penalty applied on each update, in basis points.
    pub conviction_bonus_bps: u64,
    /// Resolved outcome, zero until resolution.
    pub resolution_target: u64,
    /// Whether the admin has resolved the market.
    pub is_resolved: bool,
    /// When the market was resolved.
    pub resolution_ts: i64,
    /// Sum of all calculated parimutuel weights.
    pub total_weight: u128,
    /// Whether the distributable pot has been finalized.
    pub weight_finalized: bool,
    /// House mode: liability reserved per bet. Parimutuel mode after
    /// finalization: the distributable pot.
    pub locked_for_payouts: u64,
}

impl FixedMarket {
    /// Reserved liabilities never exceed the funds held.
    pub open spec fn locked_covered(self) -> bool {
        self.locked_for_payouts <= self.vault_balance
    }
}

/// A standalone parimutuel pool.
#[derive(Clone, Copy, Debug, PartialEq, Eq, Structural)]
pub struct Pool {
    /// The admin who created the pool.
    pub admin: u64,
    /// The pool's name, its storage key.
    pub name: u64,
    /// Opening of the betting window.
    pub start_time: i64,
    /// Close of the betting window.
    pub end_time: i64,
    /// Whether the admin has resolved the pool.
    pub is_resolved: bool,
    /// Resolved outcome, zero until resolution.
    pub final_outcome: u64,
    /// When the pool was resolved.
    pub resolution_ts: i64,
    /// Sum of all calculated parimutuel weights.
    pub total_weight: u128,
    /// Whether the distributable pot has been finalized.
    pub weight_finalized: bool,
    /// Funds held for this pool's bets.
    pub vault_balance: u64,
    /// The distributable pot once finalized.
    pub locked_for_payouts: u64,
    /// Accuracy buffer for scoring, in price units.
    pub max_accuracy_buffer: u64,
    /// Conviction bonus step, in basis points.
    pub conviction_bonus_bps: u64,
}

/// One wager: a commitment at placement, a revealed prediction later, a
/// calculated weight, and a terminal settlement.
#[derive(Clone, Copy, Debug)]
pub struct UserBet {
    /// The bettor.
    pub owner: u64,
    /// The vault symbol or market name this bet belongs to.
    pub market_identifier: u64,
    /// Which kind of market backs the bet.
    pub market_type: MarketType,
    /// Stake net of placement fee.
    pub deposit: u64,
    /// When the bet can settle.
    pub end_timestamp: i64,
    /// Declared multiplier, decayed on updates, in basis points.
    pub payout_multiplier: u64,
    /// When the bet was placed or last updated.
    pub creation_ts: i64,
    /// How many times the prediction has been revised.
    pub update_count: u32,
    /// Parimutuel weight or house accuracy score, written once.
    pub calculated_weight: u128,
    /// Guard that `calculated_weight` is written at most once.
    pub is_weight_added: bool,
    /// Oracle price snapshot at placement, never re-fetched.
    pub entry_price: u64,
    /// Volatility snapshot at placement.
    pub volatility_factor_at_entry: u64,
    /// Optional referrer paid from losing residue.
    pub referrer: Option<u64>,
    /// Keccak commitment to the prediction, fixed at placement.
    pub commitment: [u8; 32],
    /// Whether the prediction has been revealed and verified.
    pub is_revealed: bool,
    /// Revealed lower bound, zero until reveal.
    pub prediction_low: u64,
    /// Revealed upper bound, zero until reveal.
    pub prediction_high: u64,
    /// Revealed target, zero until reveal.
    pub prediction_target: u64,
    /// Lifecycle status; only ever moves forward.
    pub status: BetStatus,
}

impl UserBet {
    /// Maximum profit the backing vault reserved for this bet.
    pub open spec fn max_profit(self) -> int {
        spec_max_profit(self.deposit as int, self.payout_multiplier as int)
    }
}

/// The vault both counts this bet's potential profit in its exposure and
/// holds the bet's deposit on top of that exposure. Placement establishes
/// this and it is what settlement and refunds draw down.
pub open spec fn vault_backs_bet(v: LiquidityVault, b: UserBet) -> bool {
    &&& b.max_profit() <= v.total_exposure
    &&& v.total_exposure + b.deposit <= v.total_assets
}

} // verus!
