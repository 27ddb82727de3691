use vstd::prelude::*;

verus! {

/// Every way an operation on the sale can be refused. Each operation's
/// contract says exactly which variant comes back on which inputs.
#[derive(Clone, Copy, Debug, PartialEq, Eq, Structural)]
pub enum IcoError {
    /// The sale is inactive, has not started yet, or its window has closed.
    IcoNotActive,
    /// Fewer tokens remain unsold than the purchase asks for.
    InsufficientTokens,
    /// The sale window has not closed yet, so the sale cannot be ended.
    IcoStillActive,
    /// The caller is not the sale's authority.
    Unauthorized,
    /// No purchase record was found for the buyer.
    PurchaseNotFound,
    /// A checked multiplication or addition would overflow.
    MathOverflow,
    /// The buyer is not on the whitelist during the seed round.
    NotWhitelisted,
    /// The purchase record has already been settled.
    AlreadyDistributed,
    /// The purchase record does not belong to the sale being settled.
    InvalidPurchase,
    /// A token account's mint does not match the sale's token.
    InvalidTokenMint,
    /// The investor is already on the whitelist.
    InvestorAlreadyExists,
    /// The whitelist already holds as many investors as it may.
    CapacityExceeded,
}

impl IcoError {
    /// The human-readable description of the error.
    pub open spec fn spec_message(self) -> Seq<char> {
        match self {
            IcoError::IcoNotActive => "ICO is not currently active"@,
            IcoError::InsufficientTokens => "Insufficient tokens remaining"@,
            IcoError::IcoStillActive => "ICO is still active"@,
            IcoError::Unauthorized => "You are not authorized to perform this action"@,
            IcoError::PurchaseNotFound => "Purchase not found"@,
            IcoError::MathOverflow => "Mathematical overflow occurred"@,
            IcoError::NotWhitelisted => "Investor is not whitelisted for the seed round"@,
            IcoError::AlreadyDistributed => "Tokens already distributed for this purchase"@,
            IcoError::InvalidPurchase => "Invalid purchase account"@,
            IcoError::InvalidTokenMint => "Invalid token mint"@,
            IcoError::InvestorAlreadyExists => "Investor is already in the seed investors list"@,
            IcoError::CapacityExceeded => "Seed investor list is full"@,
        }
    }

    /// The human-readable description of the error.
    pub fn message(&self) -> (m: &'static str)
        ensures
            m@ == self.spec_message(),
    {
        match self {
            IcoError::IcoNotActive => "ICO is not currently active",
            IcoError::InsufficientTokens => "Insufficient tokens remaining",
            IcoError::IcoStillActive => "ICO is still active",
            IcoError::Unauthorized => "You are not authorized to perform this action",
            IcoError::PurchaseNotFound => "Purchase not found",
            IcoError::MathOverflow => "Mathematical overflow occurred",
            IcoError::NotWhitelisted => "Investor is not whitelisted for the seed round",
            IcoError::AlreadyDistributed => "Tokens already distributed for this purchase",
            IcoError::InvalidPurchase => "Invalid purchase account",
            IcoError::InvalidTokenMint => "Invalid token mint",
            IcoError::InvestorAlreadyExists => "Investor is already in the seed investors list",
            IcoError::CapacityExceeded => "Seed investor list is full",
        }
    }
}

} // verus!
