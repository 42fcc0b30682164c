use vstd::prelude::*;
use crate::error::ProcessError;
use crate::instruction::{unpack_spec, TokenInstruction};
use crate::processor::{
    claim_spec, lock_tokens_spec, process_claim_rewards, process_lock_tokens,
    process_unlock_tokens, unlock_spec,
};
use crate::record::{decode, decode_spec, Identity, LockDetails};

verus! {

/// What the host hands over with an instruction: who calls, whether they
/// signed, the current time, and the data of the caller's token account
/// (read by Lock only).
#[derive(Debug, Clone)]
pub struct Invocation {
    pub caller: Identity,
    pub is_signer: bool,
    pub now: i64,
    pub token_account_data: Vec<u8>,
}

/// The effect of a successful instruction: the record to store, the amount
/// to move from the caller into custody, and the amounts to mint to the
/// depositor and to the fee recipient. Each amount of 0 means no such call.
#[derive(Debug, Clone, Copy, PartialEq, Eq)]
pub struct Transition {
    pub record: LockDetails,
    pub transfer_amount: u64,
    pub user_rewards: u64,
    pub owner_fee: u64,
}

/// The outcome of an instruction on a record.
pub open spec fn apply_spec(instruction: TokenInstruction, rec: LockDetails, inv: Invocation) -> Result<
    Transition,
    ProcessError,
> {
    let caller = inv.caller;
    let is_signer = inv.is_signer;
    let now = inv.now;
    match instruction {
        TokenInstruction::LockTokens { amount } => match lock_tokens_spec(
            rec,
            caller,
            is_signer,
            inv.token_account_data@,
            amount,
            now,
        ) {
            Ok(new) => Ok(
                Transition { record: new, transfer_amount: amount, user_rewards: 0, owner_fee: 0 },
            ),
            Err(e) => Err(e),
        },
        TokenInstruction::UnlockTokens => match unlock_spec(rec, caller, is_signer, now) {
            Ok(new) => Ok(
                Transition { record: new, transfer_amount: 0, user_rewards: 0, owner_fee: 0 },
            ),
            Err(e) => Err(e),
        },
        TokenInstruction::ClaimRewards => match claim_spec(rec, caller, is_signer, now) {
            Ok(out) => Ok(
                Transition {
                    record: out.record,
                    transfer_amount: 0,
                    user_rewards: out.user_rewards,
                    owner_fee: out.owner_fee,
                },
            ),
            Err(e) => Err(e),
        },
    }
}

/// The outcome of instruction bytes on stored record bytes: the instruction
/// is decoded first, then the signature checked, then the record decoded.
pub open spec fn process_spec(instruction_data: Seq<u8>, record_data: Seq<u8>, inv: Invocation) -> Result<
    Transition,
    ProcessError,
> {
    match unpack_spec(instruction_data) {
        None => Err(ProcessError::InvalidInstructionEncoding),
        Some(instruction) => if !inv.is_signer {
            Err(ProcessError::MissingSignature)
        } else {
            match decode_spec(record_data) {
                None => Err(ProcessError::InvalidAccountData),
                Some(rec) => apply_spec(instruction, rec, inv),
            }
        },
    }
}

/// Runs one decoded instruction against a record.
pub fn apply(instruction: &TokenInstruction, record: &LockDetails, inv: &Invocation) -> (r: Result<
    Transition,
    ProcessError,
>)
    ensures
        r == apply_spec(*instruction, *record, *inv),
        record.wf() ==> (r matches Ok(t) ==> t.record.wf()),
{
    match instruction {
        TokenInstruction::LockTokens { amount } => {
            match process_lock_tokens(
                record,
                &inv.caller,
                inv.is_signer,
                inv.token_account_data.as_slice(),
                *amount,
                inv.now,
            ) {
                Ok(new) => Ok(
                    Transition {
                        record: new,
                        transfer_amount: *amount,
                        user_rewards: 0,
                        owner_fee: 0,
                    },
                ),
                Err(e) => Err(e),
            }
        },
        TokenInstruction::UnlockTokens => {
            match process_unlock_tokens(record, &inv.caller, inv.is_signer, inv.now) {
                Ok(new) => Ok(
                    Transition { record: new, transfer_amount: 0, user_rewards: 0, owner_fee: 0 },
                ),
                Err(e) => Err(e),
            }
        },
        TokenInstruction::ClaimRewards => {
            match process_claim_rewards(record, &inv.caller, inv.is_signer, inv.now) {
                Ok(out) => Ok(
                    Transition {
                        record: out.record,
                        transfer_amount: 0,
                        user_rewards: out.user_rewards,
                        owner_fee: out.owner_fee,
                    },
                ),
                Err(e) => Err(e),
            }
        },
    }
}

/// Decodes the instruction and the stored record, and runs the instruction.
/// Nothing is written: the caller stores `record` of the result, and makes
/// the transfer and mint calls it names, only on success.
pub fn process_instruction(instruction_data: &[u8], record_data: &[u8], inv: &Invocation) -> (r:
    Result<Transition, ProcessError>)
    ensures
        r == process_spec(instruction_data@, record_data@, *inv),
{
    let instruction = match TokenInstruction::unpack(instruction_data) {
        Ok(i) => i,
        Err(e) => {
            return Err(e);
        },
    };
    if !inv.is_signer {
        return Err(ProcessError::MissingSignature);
    }
    match decode(record_data) {
        None => Err(ProcessError::InvalidAccountData),
        Some(record) => apply(&instruction, &record, inv),
    }
}

} // verus!
