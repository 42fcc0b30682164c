use vstd::prelude::*;
use vstd::bytes::{spec_u64_from_le_bytes, u64_from_le_bytes};
use crate::error::ProcessError;

verus! {

/// The three operations on a lock record.
///
/// Encoded as a tag byte (0, 1 or 2); `LockTokens` is followed by its amount
/// as an 8-byte little-endian integer.
#[derive(Debug, Clone, Copy, PartialEq, Eq, Structural)]
pub enum TokenInstruction {
    /// Deposit `amount` tokens for a period chosen from the current time.
    LockTokens { amount: u64 },
    /// Clear a matured record.
    UnlockTokens,
    /// Collect the rewards accrued since the last claim.
    ClaimRewards,
}

/// The instruction that bytes encode, if any.
pub open spec fn unpack_spec(s: Seq<u8>) -> Option<TokenInstruction> {
    if s.len() == 9 && s[0] == 0 {
        Some(TokenInstruction::LockTokens { amount: spec_u64_from_le_bytes(s.subrange(1, 9)) })
    } else if s.len() == 1 && s[0] == 1 {
        Some(TokenInstruction::UnlockTokens)
    } else if s.len() == 1 && s[0] == 2 {
        Some(TokenInstruction::ClaimRewards)
    } else {
        None
    }
}

impl TokenInstruction {
    /// Decodes instruction bytes; any other shape than the three tagged forms,
    /// trailing bytes included, is `InvalidInstructionEncoding`.
    pub fn unpack(input: &[u8]) -> (r: Result<TokenInstruction, ProcessError>)
        ensures
            match unpack_spec(input@) {
                Some(i) => r == Ok::<TokenInstruction, ProcessError>(i),
                None => r == Err::<TokenInstruction, ProcessError>(
                    ProcessError::InvalidInstructionEncoding,
                ),
            },
    {
        if input.len() == 9 && input[0] == 0 {
            let amount = u64_from_le_bytes(vstd::slice::slice_subrange(input, 1, 9));
            Ok(TokenInstruction::LockTokens { amount })
        } else if input.len() == 1 && input[0] == 1 {
            Ok(TokenInstruction::UnlockTokens)
        } else if input.len() == 1 && input[0] == 2 {
            Ok(TokenInstruction::ClaimRewards)
        } else {
            Err(ProcessError::InvalidInstructionEncoding)
        }
    }
}

} // verus!
