use vstd::prelude::*;
use crate::error::{ProcessError, TokenError};
use crate::period::{period_for, select_period};
use crate::record::{default_record, Identity, LockDetails};
use crate::rewards::{compute_rewards, fee_for, rewards_for, SECONDS_PER_DAY};
use crate::token_account::{is_initialized_token_account, token_balance_of, unpack_token_balance};

verus! {

/// What a reward claim leaves behind: the updated record and the two amounts
/// to mint, to the depositor and to the fee recipient.
#[derive(Debug, Clone, Copy, PartialEq, Eq)]
pub struct ClaimOutcome {
    pub record: LockDetails,
    pub user_rewards: u64,
    pub owner_fee: u64,
}

/// The outcome of the Lock operation on a record, given the caller's token balance.
pub open spec fn lock_spec(
    rec: LockDetails,
    caller: Identity,
    is_signer: bool,
    balance: u64,
    amount: u64,
    now: i64,
) -> Result<LockDetails, ProcessError> {
    if !is_signer {
        Err(ProcessError::MissingSignature)
    } else if rec.is_initialized {
        Err(ProcessError::Token(TokenError::AccountAlreadyLocked))
    } else if amount == 0 || balance < amount {
        Err(ProcessError::Token(TokenError::InvalidAmount))
    } else if now + period_for(now as int) > i64::MAX {
        Err(ProcessError::ArithmeticOverflow)
    } else {
        Ok(
            LockDetails {
                is_initialized: true,
                user_pubkey: caller,
                amount_locked: amount,
                lock_date: now,
                unlock_date: (now + period_for(now as int)) as i64,
                last_reward_claim_date: now,
            },
        )
    }
}

/// The outcome of the Lock operation when the caller's balance is read from
/// token-account data: after the signature and record checks, data that does
/// not unpack as an initialized token account is `InvalidAccountData`.
pub open spec fn lock_tokens_spec(
    rec: LockDetails,
    caller: Identity,
    is_signer: bool,
    token_account: Seq<u8>,
    amount: u64,
    now: i64,
) -> Result<LockDetails, ProcessError> {
    if is_signer && !rec.is_initialized && !is_initialized_token_account(token_account) {
        Err(ProcessError::InvalidAccountData)
    } else {
        lock_spec(rec, caller, is_signer, token_balance_of(token_account), amount, now)
    }
}

/// The outcome of the Unlock operation on a record.
pub open spec fn unlock_spec(rec: LockDetails, caller: Identity, is_signer: bool, now: i64) -> Result<
    LockDetails,
    ProcessError,
> {
    if !is_signer {
        Err(ProcessError::MissingSignature)
    } else if !rec.is_initialized {
        Err(ProcessError::Token(TokenError::AccountNotLocked))
    } else if rec.user_pubkey != caller {
        Err(ProcessError::IllegalOwner)
    } else if now < rec.unlock_date {
        Err(ProcessError::Token(TokenError::LockupPeriodNotEnded))
    } else {
        Ok(default_record())
    }
}

/// The last moment that accrues rewards: `min(now, unlock_date)`.
pub open spec fn accrual_end(rec: LockDetails, now: i64) -> i64 {
    if now > rec.unlock_date {
        rec.unlock_date
    } else {
        now
    }
}

/// Whole days between the last claim and the accrual end, rounded down.
pub open spec fn days_elapsed(rec: LockDetails, now: i64) -> int {
    (accrual_end(rec, now) - rec.last_reward_claim_date) / (SECONDS_PER_DAY as int)
}

/// The outcome of the ClaimRewards operation on a record.
pub open spec fn claim_spec(rec: LockDetails, caller: Identity, is_signer: bool, now: i64) -> Result<
    ClaimOutcome,
    ProcessError,
> {
    if !is_signer {
        Err(ProcessError::MissingSignature)
    } else if !rec.is_initialized {
        Err(ProcessError::Token(TokenError::AccountNotLocked))
    } else if rec.user_pubkey != caller {
        Err(ProcessError::IllegalOwner)
    } else if days_elapsed(rec, now) <= 0 {
        Ok(ClaimOutcome { record: rec, user_rewards: 0, owner_fee: 0 })
    } else if rewards_for(rec.amount_locked as int, days_elapsed(rec, now)) > u64::MAX {
        Err(ProcessError::ArithmeticOverflow)
    } else {
        let rewards = rewards_for(rec.amount_locked as int, days_elapsed(rec, now));
        Ok(
            ClaimOutcome {
                record: LockDetails { last_reward_claim_date: accrual_end(rec, now), ..rec },
                user_rewards: (rewards - fee_for(rewards)) as u64,
                owner_fee: fee_for(rewards) as u64,
            },
        )
    }
}

/// Lock, once the caller's token balance is known: checks the guards and
/// builds the new record, which unlocks `select_period(now)` after `now`.
pub fn lock_with_balance(
    record: &LockDetails,
    caller: &Identity,
    is_signer: bool,
    balance: u64,
    amount: u64,
    now: i64,
) -> (r: Result<LockDetails, ProcessError>)
    ensures
        r == lock_spec(*record, *caller, is_signer, balance, amount, now),
        r matches Ok(new) ==> new.wf(),
{
    if !is_signer {
        return Err(ProcessError::MissingSignature);
    }
    if record.is_initialized {
        return Err(ProcessError::Token(TokenError::AccountAlreadyLocked));
    }
    if amount == 0 || balance < amount {
        return Err(ProcessError::Token(TokenError::InvalidAmount));
    }
    let period = select_period(now);
    match now.checked_add(period) {
        None => Err(ProcessError::ArithmeticOverflow),
        Some(unlock_date) => Ok(
            LockDetails {
                is_initialized: true,
                user_pubkey: *caller,
                amount_locked: amount,
                lock_date: now,
                unlock_date,
                last_reward_claim_date: now,
            },
        ),
    }
}

/// Lock: the caller deposits `amount` tokens. The balance is read from the
/// caller's token-account data.
pub fn process_lock_tokens(
    record: &LockDetails,
    caller: &Identity,
    is_signer: bool,
    token_account_data: &[u8],
    amount: u64,
    now: i64,
) -> (r: Result<LockDetails, ProcessError>)
    ensures
        r == lock_tokens_spec(*record, *caller, is_signer, token_account_data@, amount, now),
        r matches Ok(new) ==> new.wf(),
{
    if !is_signer {
        return Err(ProcessError::MissingSignature);
    }
    if record.is_initialized {
        return Err(ProcessError::Token(TokenError::AccountAlreadyLocked));
    }
    match unpack_token_balance(token_account_data) {
        Err(_) => Err(ProcessError::InvalidAccountData),
        Ok(balance) => lock_with_balance(record, caller, is_signer, balance, amount, now),
    }
}

/// Unlock: a matured record goes back to the uninitialized one.
pub fn process_unlock_tokens(record: &LockDetails, caller: &Identity, is_signer: bool, now: i64) -> (r:
    Result<LockDetails, ProcessError>)
    ensures
        r == unlock_spec(*record, *caller, is_signer, now),
        r matches Ok(new) ==> new.wf() && new.is_default(),
{
    if !is_signer {
        return Err(ProcessError::MissingSignature);
    }
    if !record.is_initialized {
        return Err(ProcessError::Token(TokenError::AccountNotLocked));
    }
    if !record.user_pubkey.same_as(caller) {
        return Err(ProcessError::IllegalOwner);
    }
    if now < record.unlock_date {
        return Err(ProcessError::Token(TokenError::LockupPeriodNotEnded));
    }
    Ok(LockDetails::default())
}

/// ClaimRewards: accrues whole days from the last claim up to
/// `min(now, unlock_date)`, splits the reward, and moves the claim date.
/// With no whole day to claim the record is returned unchanged.
pub fn process_claim_rewards(record: &LockDetails, caller: &Identity, is_signer: bool, now: i64) -> (r:
    Result<ClaimOutcome, ProcessError>)
    ensures
        r == claim_spec(*record, *caller, is_signer, now),
        record.wf() ==> (r matches Ok(out) ==> out.record.wf()),
{
    if !is_signer {
        return Err(ProcessError::MissingSignature);
    }
    if !record.is_initialized {
        return Err(ProcessError::Token(TokenError::AccountNotLocked));
    }
    if !record.user_pubkey.same_as(caller) {
        return Err(ProcessError::IllegalOwner);
    }
    let end_date: i64 = if now > record.unlock_date {
        record.unlock_date
    } else {
        now
    };
    let last: i64 = record.last_reward_claim_date;
    if end_date <= last {
        assert(days_elapsed(*record, now) <= 0) by (nonlinear_arith)
            requires
                accrual_end(*record, now) <= last,
                last == record.last_reward_claim_date,
                days_elapsed(*record, now) == (accrual_end(*record, now) - last) / 86400,
        ;
        return Ok(ClaimOutcome { record: *record, user_rewards: 0, owner_fee: 0 });
    }
    let span: u64 = ((end_date as i128) - (last as i128)) as u64;
    let days: u64 = span / (SECONDS_PER_DAY as u64);
    assert(days as int == days_elapsed(*record, now));
    if days == 0 {
        return Ok(ClaimOutcome { record: *record, user_rewards: 0, owner_fee: 0 });
    }
    match compute_rewards(record.amount_locked, days) {
        Err(e) => Err(e),
        Ok(split) => {
            assert(span >= 86400) by (nonlinear_arith)
                requires
                    days == span / 86400,
                    days > 0,
            ;
            Ok(
                ClaimOutcome {
                    record: LockDetails { last_reward_claim_date: end_date, ..*record },
                    user_rewards: split.user_rewards,
                    owner_fee: split.owner_fee,
                },
            )
        },
    }
}

} // verus!
