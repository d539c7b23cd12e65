use vstd::prelude::*;

verus! {

/// Why an operation was rejected. A rejected operation leaves every state it
/// was given unchanged.
#[derive(Clone, Copy, Debug, PartialEq, Eq, Structural)]
pub enum Error {
    /// A caller-supplied minimum is zero.
    InvalidArgument,
    /// A payment is missing, empty, of the wrong asset or of the wrong shape.
    InvalidPayment,
    /// A stated minimum exceeds the amount actually paid.
    ArgumentPaymentMismatch,
    /// A computed optimal amount is below the caller's minimum.
    SlippageExceeded,
    /// The computed share issuance is zero.
    InsufficientLiquidity,
    /// A reward payout exceeds the reward reserve.
    InsufficientRewardReserve,
    /// The block index moved backwards.
    ClockSkew,
    /// The contract state forbids the operation.
    InactiveContract,
    /// An exact result does not fit the machine representation.
    Overflow,
}

impl Error {
    /// The text that describes each error.
    pub open spec fn description(self) -> Seq<char> {
        match self {
            Error::InvalidArgument => "invalid arguments"@,
            Error::InvalidPayment => "invalid payments"@,
            Error::ArgumentPaymentMismatch => "arguments do not match payments"@,
            Error::SlippageExceeded => "slippage exceeded"@,
            Error::InsufficientLiquidity => "insufficient liquidity minted"@,
            Error::InsufficientRewardReserve => "insufficient reward reserve"@,
            Error::ClockSkew => "block index went backwards"@,
            Error::InactiveContract => "contract is not active"@,
            Error::Overflow => "arithmetic overflow"@,
        }
    }

    /// A short human-readable description of the error.
    pub fn message(&self) -> (text: &'static str)
        ensures
            text@ == self.description(),
    {
        match self {
            Error::InvalidArgument => "invalid arguments",
            Error::InvalidPayment => "invalid payments",
            Error::ArgumentPaymentMismatch => "arguments do not match payments",
            Error::SlippageExceeded => "slippage exceeded",
            Error::InsufficientLiquidity => "insufficient liquidity minted",
            Error::InsufficientRewardReserve => "insufficient reward reserve",
            Error::ClockSkew => "block index went backwards",
            Error::InactiveContract => "contract is not active",
            Error::Overflow => "arithmetic overflow",
        }
    }
}

} // verus!
