use vstd::prelude::*;
use crate::error::{ProcessError, TokenError};
use crate::processor::{claim_spec, lock_spec, unlock_spec, ClaimOutcome};
use crate::record::{Identity, LockDetails};

verus! {

/// Locking a record that is already initialized fails with
/// `AccountAlreadyLocked`, whatever the balance, amount and time.
pub proof fn lemma_lock_locked_record_fails(
    rec: LockDetails,
    caller: Identity,
    balance: u64,
    amount: u64,
    now: i64,
)
    requires
        rec.is_initialized,
    ensures
        lock_spec(rec, caller, true, balance, amount, now) == Err::<LockDetails, ProcessError>(
            ProcessError::Token(TokenError::AccountAlreadyLocked),
        ),
{
}

/// A claim by the owner with no whole day to accrue succeeds, mints nothing
/// and leaves every field of the record as it was.
pub proof fn lemma_claim_without_days_is_noop(rec: LockDetails, now: i64)
    requires
        rec.is_initialized,
        crate::processor::days_elapsed(rec, now) <= 0,
    ensures
        claim_spec(rec, rec.user_pubkey, true, now) == Ok::<ClaimOutcome, ProcessError>(
            ClaimOutcome { record: rec, user_rewards: 0, owner_fee: 0 },
        ),
{
}

/// Accrual stops at maturity: a claim at any moment after `unlock_date`
/// has the same outcome as a claim exactly at `unlock_date`.
pub proof fn lemma_claim_after_maturity_same_as_at_maturity(
    rec: LockDetails,
    caller: Identity,
    is_signer: bool,
    extra: i64,
)
    requires
        extra > 0,
        rec.unlock_date + extra <= i64::MAX,
    ensures
        claim_spec(rec, caller, is_signer, (rec.unlock_date + extra) as i64) == claim_spec(
            rec,
            caller,
            is_signer,
            rec.unlock_date,
        ),
{
}

/// The owner's Unlock fails with `LockupPeriodNotEnded` before `unlock_date`;
/// at or after it, it succeeds and gives the default, uninitialized record.
pub proof fn lemma_unlock_only_at_maturity(rec: LockDetails, now: i64)
    requires
        rec.is_initialized,
    ensures
        now < rec.unlock_date ==> unlock_spec(rec, rec.user_pubkey, true, now) == Err::<
            LockDetails,
            ProcessError,
        >(ProcessError::Token(TokenError::LockupPeriodNotEnded)),
        now >= rec.unlock_date ==> (unlock_spec(rec, rec.user_pubkey, true, now) matches Ok(new)
            && new.is_default()),
{
    crate::record::lemma_default_record_is_default();
}

/// A signed Claim or Unlock by anyone but the record's owner fails with
/// `IllegalOwner`, at any time.
pub proof fn lemma_only_owner_may_act(rec: LockDetails, caller: Identity, now: i64)
    requires
        rec.is_initialized,
        caller != rec.user_pubkey,
    ensures
        claim_spec(rec, caller, true, now) == Err::<ClaimOutcome, ProcessError>(
            ProcessError::IllegalOwner,
        ),
        unlock_spec(rec, caller, true, now) == Err::<LockDetails, ProcessError>(
            ProcessError::IllegalOwner,
        ),
{
}

/// Every transition keeps a well-formed record well-formed: Lock builds one,
/// ClaimRewards only moves the claim date forward within the lock period, and
/// Unlock resets the record.
pub proof fn lemma_transitions_keep_record_wf(
    rec: LockDetails,
    caller: Identity,
    is_signer: bool,
    balance: u64,
    amount: u64,
    now: i64,
)
    requires
        rec.wf(),
    ensures
        lock_spec(rec, caller, is_signer, balance, amount, now) matches Ok(new) ==> new.wf(),
        claim_spec(rec, caller, is_signer, now) matches Ok(out) ==> out.record.wf(),
        unlock_spec(rec, caller, is_signer, now) matches Ok(new) ==> new.wf(),
{
    crate::record::lemma_default_record_is_default();
    if let Ok(out) = claim_spec(rec, caller, is_signer, now) {
        if crate::processor::days_elapsed(rec, now) > 0 {
            let end = crate::processor::accrual_end(rec, now);
            assert(end > rec.last_reward_claim_date) by (nonlinear_arith)
                requires
                    (end - rec.last_reward_claim_date) / 86400 > 0,
            ;
        }
    }
}

} // verus!
