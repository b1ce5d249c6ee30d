use vstd::prelude::*;

verus! {

/// Every failure the engine can report. Each operation's contract states
/// exactly which variant is returned on which inputs.
#[derive(Clone, Copy, Debug, PartialEq, Eq, Structural)]
pub enum CustomError {
    /// Global protocol is paused.
    Paused,
    /// Unauthorized admin action.
    Unauthorized,
    /// Math operation overflow.
    MathOverflow,
    /// Slippage tolerance exceeded.
    SlippageExceeded,
    /// Insufficient liquidity in vault.
    InsufficientLiquidity,
    /// Bet rejected: potential payout exceeds vault solvency limit.
    SolvencyRisk,
    /// Bet is already settled.
    AlreadySettled,
    /// Bet duration is too short.
    DurationTooShort,
    /// Invalid asset symbol.
    InvalidAsset,
    /// Asset is not whitelisted.
    AssetNotWhitelisted,
    /// Bet does not match the current vault/asset config.
    MarketMismatch,
    /// Parimutuel markets must use the target-only criterion.
    InvalidMode,
    /// Oracle price is non-positive.
    InvalidOraclePrice,
    /// Admin force-settlement is not yet allowed for this bet.
    SettlementTooEarly,
    /// Emergency refund timeout has not been met.
    TimeoutNotMet,
    /// Bet weight has not been calculated yet.
    NotCalculatedYet,
    /// The provided prediction does not match the commitment hash.
    InvalidCommitment,
    /// Bet is already revealed.
    AlreadyRevealed,
    /// Bet has not been revealed.
    BetNotRevealed,
    /// A revealed bet cannot be refunded; it must be settled.
    CannotRefundRevealed,
    /// Reveal window has expired; the only recovery is a refund.
    RevealWindowExpired,
}

impl CustomError {
    /// A short stable name for logging outside the library.
    pub fn as_str(&self) -> (r: &'static str) {
        match self {
            CustomError::Paused => "paused",
            CustomError::Unauthorized => "unauthorized",
            CustomError::MathOverflow => "math overflow",
            CustomError::SlippageExceeded => "slippage exceeded",
            CustomError::InsufficientLiquidity => "insufficient liquidity",
            CustomError::SolvencyRisk => "solvency risk",
            CustomError::AlreadySettled => "already settled",
            CustomError::DurationTooShort => "duration too short",
            CustomError::InvalidAsset => "invalid asset",
            CustomError::AssetNotWhitelisted => "asset not whitelisted",
            CustomError::MarketMismatch => "market mismatch",
            CustomError::InvalidMode => "invalid mode",
            CustomError::InvalidOraclePrice => "invalid oracle price",
            CustomError::SettlementTooEarly => "settlement too early",
            CustomError::TimeoutNotMet => "timeout not met",
            CustomError::NotCalculatedYet => "not calculated yet",
            CustomError::InvalidCommitment => "invalid commitment",
            CustomError::AlreadyRevealed => "already revealed",
            CustomError::BetNotRevealed => "bet not revealed",
            CustomError::CannotRefundRevealed => "cannot refund revealed bet",
            CustomError::RevealWindowExpired => "reveal window expired",
        }
    }
}

} // verus!
