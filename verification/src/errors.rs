use vstd::prelude::*;

verus! {

/// The ways in which the exchange itself refuses an operation.
#[derive(Clone, Copy, Debug, PartialEq, Eq, Structural)]
pub enum MarketError {
    /// A trade was attempted while trading is disabled.
    MarketPaused,
    /// The stable vault cannot cover a payout.
    InsufficientVaultFunds,
    /// The caller is not the market's recorded administrator.
    Unauthorized,
    /// Price times quantity overflows, or does not fit a transfer amount.
    MathOverflow,
}

impl MarketError {
    /// The message shown to a caller for this error.
    pub fn msg(&self) -> (text: &'static str)
        ensures
            text@ == match *self {
                MarketError::MarketPaused => "Market is paused"@,
                MarketError::InsufficientVaultFunds => "Insufficient funds in vault"@,
                MarketError::Unauthorized => "Unauthorized"@,
                MarketError::MathOverflow => "Math overflow"@,
            },
    {
        match self {
            MarketError::MarketPaused => "Market is paused",
            MarketError::InsufficientVaultFunds => "Insufficient funds in vault",
            MarketError::Unauthorized => "Unauthorized",
            MarketError::MathOverflow => "Math overflow",
        }
    }
}

/// The ways in which custody refuses to move an asset between two holdings.
#[derive(Clone, Copy, Debug, PartialEq, Eq, Structural)]
pub enum TransferError {
    /// The source holds less than the amount.
    InsufficientFunds,
    /// Source and destination hold different assets.
    MintMismatch,
    /// The authority given is not the owner of the source.
    OwnerMismatch,
    /// The destination's balance would no longer fit in 64 bits.
    Overflow,
}

/// The ways in which the accounts handed to an operation can contradict the
/// relationships the operation expects of them.
#[derive(Clone, Copy, Debug, PartialEq, Eq, Structural)]
pub enum ConstraintError {
    /// The market's address is not the one derived from its bond asset and bump.
    Seeds,
    /// A holding is not owned by the party it is meant to belong to.
    TokenOwner,
    /// A vault is not the one recorded in the market.
    Address,
}

/// Everything an operation of the exchange can fail with.
#[derive(Clone, Copy, Debug, PartialEq, Eq, Structural)]
pub enum Error {
    /// The exchange's own refusal.
    Market(MarketError),
    /// A custody transfer failed.
    Transfer(TransferError),
    /// The accounts do not fit together.
    Constraint(ConstraintError),
}

} // verus!
