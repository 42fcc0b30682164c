use vstd::prelude::*;

verus! {

/// Errors specific to the lock-up rules, reported by the host as custom codes.
#[derive(Debug, Clone, Copy, PartialEq, Eq, Structural)]
pub enum TokenError {
    AccountAlreadyLocked,
    AccountNotLocked,
    LockupPeriodNotEnded,
    InvalidAmount,
}

impl TokenError {
    pub open spec fn spec_code(self) -> u32 {
        match self {
            TokenError::AccountAlreadyLocked => 0,
            TokenError::AccountNotLocked => 1,
            TokenError::LockupPeriodNotEnded => 2,
            TokenError::InvalidAmount => 3,
        }
    }

    /// The custom error code under which the host reports this error.
    pub fn code(&self) -> (r: u32)
        ensures
            r == self.spec_code(),
    {
        match self {
            TokenError::AccountAlreadyLocked => 0,
            TokenError::AccountNotLocked => 1,
            TokenError::LockupPeriodNotEnded => 2,
            TokenError::InvalidAmount => 3,
        }
    }
}

/// Every way an operation on a lock record can fail.
#[derive(Debug, Clone, Copy, PartialEq, Eq, Structural)]
pub enum ProcessError {
    /// The caller did not sign the invocation.
    MissingSignature,
    /// The instruction bytes are not one of the three tagged operations.
    InvalidInstructionEncoding,
    /// Stored account data (the lock record or a token account) does not decode.
    InvalidAccountData,
    /// The caller is not the depositor that the record belongs to.
    IllegalOwner,
    /// A reward or date computation does not fit its integer type.
    ArithmeticOverflow,
    /// A violation of the lock-up rules.
    Token(TokenError),
}

} // verus!
