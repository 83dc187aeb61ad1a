use vstd::prelude::*;

verus! {

/// Every way an instruction of the sale can be refused.
#[derive(Clone, Copy, Debug, PartialEq, Eq, Structural)]
pub enum IdoError {
    /// The caller is not the configured pool creator, or not the pool's creator.
    UnauthorizedCreator,
    InvalidStartTime,
    InvalidEndTime,
    InvalidClaimTime,
    /// A zero sale amount, or a funding amount other than the pool's sale amount.
    InvalidSaleAmount,
    /// A zero price.
    InvalidPrice,
    /// The creator lacks the sale supply, or the pool lacks the remaining supply.
    InsufficientTokenBalance,
    SaleNotStarted,
    SaleEnded,
    PoolNotActive,
    /// The payment buys less than one whole token.
    InsufficientPayment,
    ClaimNotAvailable,
    AlreadyClaimed,
    NothingToClaim,
    /// A checked addition in the purchase accounting overflowed.
    ArithmeticOverflow,
    /// A token account or record does not belong to the caller or to the pool.
    InvalidAccount,
    /// The platform configuration has not been initialized.
    ConfigNotInitialized,
    /// The platform configuration already exists.
    ConfigAlreadyInitialized,
    /// A pool record already exists under this identifier.
    PoolAlreadyExists,
    /// No pool record exists under this identifier.
    PoolNotFound,
    /// The caller has no purchase record in this pool.
    PurchaseNotFound,
}

impl IdoError {
    /// The human-readable message of the error.
    pub fn message(&self) -> (r: &'static str) {
        match self {
            IdoError::UnauthorizedCreator => "Unauthorized creator",
            IdoError::InvalidStartTime => "Invalid start time",
            IdoError::InvalidEndTime => "Invalid end time",
            IdoError::InvalidClaimTime => "Invalid claim time",
            IdoError::InvalidSaleAmount => "Invalid sale amount",
            IdoError::InvalidPrice => "Invalid price",
            IdoError::InsufficientTokenBalance => "Insufficient token balance",
            IdoError::SaleNotStarted => "Sale not started",
            IdoError::SaleEnded => "Sale ended",
            IdoError::PoolNotActive => "Pool not active",
            IdoError::InsufficientPayment => "Insufficient payment",
            IdoError::ClaimNotAvailable => "Claim not available yet",
            IdoError::AlreadyClaimed => "Already claimed",
            IdoError::NothingToClaim => "Nothing to claim",
            IdoError::ArithmeticOverflow => "Arithmetic overflow",
            IdoError::InvalidAccount => "Invalid account",
            IdoError::ConfigNotInitialized => "Config not initialized",
            IdoError::ConfigAlreadyInitialized => "Config already initialized",
            IdoError::PoolAlreadyExists => "Pool already exists",
            IdoError::PoolNotFound => "Pool not found",
            IdoError::PurchaseNotFound => "Purchase record not found",
        }
    }
}

} // verus!
