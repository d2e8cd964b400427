use vstd::prelude::*;

verus! {

/// The ways in which an operation of the ledger can fail. A failed operation
/// changes nothing.
#[derive(Clone, Copy, Debug, PartialEq, Eq, Structural)]
pub enum TokenError {
    /// `initialize` was called although an administrator is already recorded.
    AlreadyInitialized,
    /// A negative amount, or a decimal precision above 255.
    InvalidArgument,
    /// The identity whose consent the operation needs has not authorized the
    /// call, or no administrator exists yet for an administrator-only call.
    Unauthorized,
    /// The account that the operation would draw on is frozen.
    AccountFrozen,
    /// The amount exceeds the balance of the paying account.
    InsufficientBalance,
    /// The amount exceeds the allowance that is still valid.
    InsufficientAllowance,
    /// Fewer coffee points than a free coffee costs.
    InsufficientPoints,
    /// No free-coffee credit is left to redeem.
    NoFreeCoffee,
    /// A counter or balance would leave the range of a 128-bit signed integer.
    Overflow,
}

impl TokenError {
    /// The text that `message` returns for each kind of failure.
    pub open spec fn spec_message(self) -> Seq<char> {
        match self {
            TokenError::AlreadyInitialized => "already initialized"@,
            TokenError::InvalidArgument => "invalid argument"@,
            TokenError::Unauthorized => "unauthorized"@,
            TokenError::AccountFrozen => "account is frozen"@,
            TokenError::InsufficientBalance => "insufficient balance"@,
            TokenError::InsufficientAllowance => "insufficient allowance"@,
            TokenError::InsufficientPoints => "not enough points"@,
            TokenError::NoFreeCoffee => "no free coffee available"@,
            TokenError::Overflow => "arithmetic overflow"@,
        }
    }

    /// A short human-readable description of the failure.
    pub fn message(&self) -> (text: &'static str)
        ensures
            text@ == self.spec_message(),
    {
        match self {
            TokenError::AlreadyInitialized => "already initialized",
            TokenError::InvalidArgument => "invalid argument",
            TokenError::Unauthorized => "unauthorized",
            TokenError::AccountFrozen => "account is frozen",
            TokenError::InsufficientBalance => "insufficient balance",
            TokenError::InsufficientAllowance => "insufficient allowance",
            TokenError::InsufficientPoints => "not enough points",
            TokenError::NoFreeCoffee => "no free coffee available",
            TokenError::Overflow => "arithmetic overflow",
        }
    }
}

} // verus!
