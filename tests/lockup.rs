use token_lockup::dispatch::{apply, process_instruction, Invocation, Transition};
use token_lockup::error::{ProcessError, TokenError};
use token_lockup::instruction::TokenInstruction;
use token_lockup::period::{select_period, ONE_YEAR, THREE_YEARS, TWO_YEARS};
use token_lockup::processor::{
    lock_with_balance, process_claim_rewards, process_lock_tokens, process_unlock_tokens,
};
use token_lockup::record::{decode, encode, Identity, LockDetails};
use token_lockup::rewards::compute_rewards;

const DAY: i64 = 86_400;

fn id(b: u8) -> Identity {
    Identity { bytes: [b; 32] }
}

fn locked(owner: u8, amount: u64, lock: i64, unlock: i64, last: i64) -> LockDetails {
    LockDetails {
        is_initialized: true,
        user_pubkey: id(owner),
        amount_locked: amount,
        lock_date: lock,
        unlock_date: unlock,
        last_reward_claim_date: last,
    }
}

fn token_account(balance: u64, state: u8) -> Vec<u8> {
    let mut data = vec![0u8; 165];
    data[64..72].copy_from_slice(&balance.to_le_bytes());
    data[108] = state;
    data
}

#[test]
fn period_buckets_by_last_two_digits() {
    assert_eq!(select_period(0), ONE_YEAR);
    assert_eq!(select_period(14), ONE_YEAR);
    assert_eq!(select_period(15), TWO_YEARS);
    assert_eq!(select_period(49), TWO_YEARS);
    assert_eq!(select_period(50), THREE_YEARS);
    assert_eq!(select_period(99), THREE_YEARS);
    assert_eq!(select_period(100), ONE_YEAR);
    assert_eq!(select_period(1_700_000_014), ONE_YEAR);
    assert_eq!(select_period(1_700_000_033), TWO_YEARS);
    assert_eq!(select_period(i64::MAX), ONE_YEAR);
}

#[test]
fn period_values_in_seconds() {
    assert_eq!(ONE_YEAR, 31_536_000);
    assert_eq!(TWO_YEARS, 63_072_000);
    assert_eq!(THREE_YEARS, 94_608_000);
}

#[test]
fn period_of_negative_time_uses_mathematical_remainder() {
    assert_eq!(select_period(-1), THREE_YEARS);
    assert_eq!(select_period(-90), ONE_YEAR);
    assert_eq!(select_period(-60), TWO_YEARS);
    assert_eq!(select_period(-100), ONE_YEAR);
    assert_eq!(select_period(i64::MIN), THREE_YEARS);
}

#[test]
fn lock_builds_record() {
    let rec = LockDetails::default();
    let r = lock_with_balance(&rec, &id(7), true, 500, 200, 1_000_000_020).unwrap();
    assert_eq!(r, locked(7, 200, 1_000_000_020, 1_000_000_020 + TWO_YEARS, 1_000_000_020));
}

#[test]
fn lock_already_locked_fails_and_keeps_record() {
    let rec = locked(7, 10, 100, 100 + ONE_YEAR, 100);
    let before = rec;
    let r = process_lock_tokens(&rec, &id(7), true, &token_account(1_000, 1), 5, 200);
    assert_eq!(r, Err(ProcessError::Token(TokenError::AccountAlreadyLocked)));
    assert_eq!(rec, before);
    let r = lock_with_balance(&rec, &id(9), true, u64::MAX, 1, 0);
    assert_eq!(r, Err(ProcessError::Token(TokenError::AccountAlreadyLocked)));
}

#[test]
fn lock_requires_signature() {
    let r = lock_with_balance(&LockDetails::default(), &id(1), false, 100, 10, 5);
    assert_eq!(r, Err(ProcessError::MissingSignature));
}

#[test]
fn lock_insufficient_balance_is_invalid_amount() {
    let r = process_lock_tokens(&LockDetails::default(), &id(1), true, &token_account(99, 1), 100, 5);
    assert_eq!(r, Err(ProcessError::Token(TokenError::InvalidAmount)));
}

#[test]
fn lock_zero_amount_is_invalid_amount() {
    let r = lock_with_balance(&LockDetails::default(), &id(1), true, 100, 0, 5);
    assert_eq!(r, Err(ProcessError::Token(TokenError::InvalidAmount)));
}

#[test]
fn lock_reads_balance_from_token_account() {
    let r = process_lock_tokens(&LockDetails::default(), &id(3), true, &token_account(100, 1), 100, 60);
    assert_eq!(r, Ok(locked(3, 100, 60, 60 + THREE_YEARS, 60)));
}

#[test]
fn lock_with_bad_token_account_is_invalid_account_data() {
    let r = process_lock_tokens(&LockDetails::default(), &id(3), true, &[0u8; 10], 1, 60);
    assert_eq!(r, Err(ProcessError::InvalidAccountData));
    let r = process_lock_tokens(&LockDetails::default(), &id(3), true, &token_account(100, 0), 1, 60);
    assert_eq!(r, Err(ProcessError::InvalidAccountData));
}

#[test]
fn lock_unlock_date_overflow() {
    let r = lock_with_balance(&LockDetails::default(), &id(1), true, 10, 10, i64::MAX - 10);
    assert_eq!(r, Err(ProcessError::ArithmeticOverflow));
}

#[test]
fn rewards_example_split() {
    let s = compute_rewards(1_000_000, 10).unwrap();
    assert_eq!(s.rewards, 10_000);
    assert_eq!(s.owner_fee, 100);
    assert_eq!(s.user_rewards, 9_900);
}

#[test]
fn rewards_round_down() {
    let s = compute_rewards(999, 1).unwrap();
    assert_eq!((s.rewards, s.owner_fee, s.user_rewards), (0, 0, 0));
    let s = compute_rewards(150_000, 1).unwrap();
    assert_eq!((s.rewards, s.owner_fee, s.user_rewards), (150, 1, 149));
}

#[test]
fn rewards_overflow() {
    assert_eq!(compute_rewards(u64::MAX, 2_000), Err(ProcessError::ArithmeticOverflow));
    let s = compute_rewards(u64::MAX, 1_000).unwrap();
    assert_eq!(s.rewards, u64::MAX);
    assert_eq!(s.owner_fee, u64::MAX / 100);
}

#[test]
fn claim_ten_days() {
    let rec = locked(4, 1_000_000, 0, ONE_YEAR, 0);
    let out = process_claim_rewards(&rec, &id(4), true, 10 * DAY + 5).unwrap();
    assert_eq!(out.user_rewards, 9_900);
    assert_eq!(out.owner_fee, 100);
    assert_eq!(out.record, locked(4, 1_000_000, 0, ONE_YEAR, 10 * DAY + 5));
}

#[test]
fn claim_without_whole_day_is_noop() {
    let rec = locked(4, 1_000_000, 0, ONE_YEAR, 100);
    let out = process_claim_rewards(&rec, &id(4), true, 100 + DAY - 1).unwrap();
    assert_eq!(out.record, rec);
    assert_eq!((out.user_rewards, out.owner_fee), (0, 0));
    let out = process_claim_rewards(&rec, &id(4), true, 50).unwrap();
    assert_eq!(out.record, rec);
    assert_eq!((out.user_rewards, out.owner_fee), (0, 0));
}

#[test]
fn claim_stops_at_maturity() {
    let rec = locked(4, 1_000_000, 0, 30 * DAY, 0);
    let at = process_claim_rewards(&rec, &id(4), true, 30 * DAY).unwrap();
    let after = process_claim_rewards(&rec, &id(4), true, 30 * DAY + 12_345_678).unwrap();
    assert_eq!(at, after);
    assert_eq!(at.user_rewards + at.owner_fee, 30_000);
    assert_eq!(at.record.last_reward_claim_date, 30 * DAY);
}

#[test]
fn claim_overflow() {
    let rec = locked(4, u64::MAX, 0, 3_000 * DAY, 0);
    let r = process_claim_rewards(&rec, &id(4), true, 2_000 * DAY);
    assert_eq!(r, Err(ProcessError::ArithmeticOverflow));
}

#[test]
fn claim_on_unlocked_record() {
    let r = process_claim_rewards(&LockDetails::default(), &id(0), true, 10);
    assert_eq!(r, Err(ProcessError::Token(TokenError::AccountNotLocked)));
}

#[test]
fn unlock_before_maturity_fails() {
    let rec = locked(2, 5, 0, 1_000, 0);
    let r = process_unlock_tokens(&rec, &id(2), true, 999);
    assert_eq!(r, Err(ProcessError::Token(TokenError::LockupPeriodNotEnded)));
}

#[test]
fn unlock_at_maturity_resets() {
    let rec = locked(2, 5, 0, 1_000, 0);
    assert_eq!(process_unlock_tokens(&rec, &id(2), true, 1_000), Ok(LockDetails::default()));
    assert_eq!(process_unlock_tokens(&rec, &id(2), true, 5_000), Ok(LockDetails::default()));
    let d = LockDetails::default();
    assert!(!d.is_initialized());
    assert_eq!(d.user_pubkey, Identity::zero());
    assert_eq!((d.amount_locked, d.lock_date, d.unlock_date, d.last_reward_claim_date), (0, 0, 0, 0));
}

#[test]
fn unlock_not_locked() {
    let r = process_unlock_tokens(&LockDetails::default(), &id(0), true, 10);
    assert_eq!(r, Err(ProcessError::Token(TokenError::AccountNotLocked)));
}

#[test]
fn non_owner_is_illegal_owner() {
    let rec = locked(2, 1_000_000, 0, 1_000 * DAY, 0);
    assert_eq!(process_unlock_tokens(&rec, &id(3), true, 2_000 * DAY), Err(ProcessError::IllegalOwner));
    assert_eq!(process_claim_rewards(&rec, &id(3), true, 20 * DAY), Err(ProcessError::IllegalOwner));
    let mut other = id(2);
    other.bytes[31] = 0;
    assert!(!other.same_as(&id(2)));
    assert!(id(2).same_as(&id(2)));
    assert_eq!(process_claim_rewards(&rec, &other, true, 20 * DAY), Err(ProcessError::IllegalOwner));
}

#[test]
fn record_round_trip() {
    let mut owner = id(0);
    for (i, b) in owner.bytes.iter_mut().enumerate() {
        *b = i as u8 * 7;
    }
    let rec = LockDetails {
        is_initialized: true,
        user_pubkey: owner,
        amount_locked: u64::MAX - 3,
        lock_date: -5,
        unlock_date: i64::MAX,
        last_reward_claim_date: i64::MIN,
    };
    let bytes = encode(&rec);
    assert_eq!(bytes.len(), 65);
    assert_eq!(decode(&bytes), Some(rec));
    assert_eq!(decode(&encode(&LockDetails::default())), Some(LockDetails::default()));
}

#[test]
fn record_layout_matches_borsh() {
    let rec = locked(9, 0x0102_0304_0506_0708, 1_700_000_000, 1_731_536_000, -1);
    let expected = borsh::to_vec(&(
        true,
        [9u8; 32],
        0x0102_0304_0506_0708u64,
        1_700_000_000i64,
        1_731_536_000i64,
        -1i64,
    ))
    .unwrap();
    assert_eq!(encode(&rec), expected);
}

#[test]
fn record_decode_rejects() {
    let mut bytes = encode(&LockDetails::default());
    bytes[0] = 2;
    assert_eq!(decode(&bytes), None);
    assert_eq!(decode(&[0u8; 64]), None);
    assert_eq!(decode(&[0u8; 66]), None);
}

#[test]
fn instruction_unpack() {
    let mut lock = vec![0u8];
    lock.extend_from_slice(&42u64.to_le_bytes());
    assert_eq!(TokenInstruction::unpack(&lock), Ok(TokenInstruction::LockTokens { amount: 42 }));
    assert_eq!(TokenInstruction::unpack(&[1]), Ok(TokenInstruction::UnlockTokens));
    assert_eq!(TokenInstruction::unpack(&[2]), Ok(TokenInstruction::ClaimRewards));
    let bad = ProcessError::InvalidInstructionEncoding;
    assert_eq!(TokenInstruction::unpack(&[]), Err(bad));
    assert_eq!(TokenInstruction::unpack(&[3]), Err(bad));
    assert_eq!(TokenInstruction::unpack(&[1, 0]), Err(bad));
    assert_eq!(TokenInstruction::unpack(&[0, 1, 2]), Err(bad));
}

#[test]
fn token_error_codes() {
    assert_eq!(TokenError::AccountAlreadyLocked.code(), 0);
    assert_eq!(TokenError::AccountNotLocked.code(), 1);
    assert_eq!(TokenError::LockupPeriodNotEnded.code(), 2);
    assert_eq!(TokenError::InvalidAmount.code(), 3);
}

fn invocation(caller: u8, is_signer: bool, now: i64, balance: u64) -> Invocation {
    Invocation { caller: id(caller), is_signer, now, token_account_data: token_account(balance, 1) }
}

#[test]
fn process_instruction_lock_then_claim_then_unlock() {
    let mut lock = vec![0u8];
    lock.extend_from_slice(&1_000_000u64.to_le_bytes());
    let empty = encode(&LockDetails::default());
    let t = process_instruction(&lock, &empty, &invocation(5, true, 1_000, 2_000_000)).unwrap();
    assert_eq!(t.transfer_amount, 1_000_000);
    assert_eq!(t.record, locked(5, 1_000_000, 1_000, 1_000 + ONE_YEAR, 1_000));

    let stored = encode(&t.record);
    let t = process_instruction(&[2], &stored, &invocation(5, true, 1_000 + 10 * DAY, 0)).unwrap();
    assert_eq!(
        t,
        Transition {
            record: locked(5, 1_000_000, 1_000, 1_000 + ONE_YEAR, 1_000 + 10 * DAY),
            transfer_amount: 0,
            user_rewards: 9_900,
            owner_fee: 100,
        }
    );

    let stored = encode(&t.record);
    let r = process_instruction(&[1], &stored, &invocation(5, true, 1_000, 0));
    assert_eq!(r, Err(ProcessError::Token(TokenError::LockupPeriodNotEnded)));
    let t = process_instruction(&[1], &stored, &invocation(5, true, 1_000 + ONE_YEAR, 0)).unwrap();
    assert_eq!(t.record, LockDetails::default());
}

#[test]
fn process_instruction_errors() {
    let empty = encode(&LockDetails::default());
    assert_eq!(
        process_instruction(&[7], &empty, &invocation(1, true, 0, 0)),
        Err(ProcessError::InvalidInstructionEncoding)
    );
    assert_eq!(
        process_instruction(&[2], &empty, &invocation(1, false, 0, 0)),
        Err(ProcessError::MissingSignature)
    );
    assert_eq!(
        process_instruction(&[2], &[1u8; 3], &invocation(1, true, 0, 0)),
        Err(ProcessError::InvalidAccountData)
    );
    let rec = locked(1, 10, 0, 10, 0);
    let inv = invocation(1, true, 0, 100);
    assert_eq!(
        apply(&TokenInstruction::LockTokens { amount: 1 }, &rec, &inv),
        Err(ProcessError::Token(TokenError::AccountAlreadyLocked))
    );
}

#[test]
fn lock_token_account_states() {
    let frozen = token_account(50, 2);
    let r = process_lock_tokens(&LockDetails::default(), &id(3), true, &frozen, 50, 115);
    assert_eq!(r, Ok(locked(3, 50, 115, 115 + TWO_YEARS, 115)));
    let r = process_lock_tokens(&LockDetails::default(), &id(3), true, &token_account(50, 3), 1, 115);
    assert_eq!(r, Err(ProcessError::InvalidAccountData));
    let mut bad_tag = token_account(50, 1);
    bad_tag[72] = 2;
    let r = process_lock_tokens(&LockDetails::default(), &id(3), true, &bad_tag, 1, 115);
    assert_eq!(r, Err(ProcessError::InvalidAccountData));
    let mut with_delegate = token_account(50, 1);
    with_delegate[72] = 1;
    let r = process_lock_tokens(&LockDetails::default(), &id(3), true, &with_delegate, 1, 115);
    assert!(r.is_ok());
}

#[test]
fn apply_lock_with_unreadable_token_account() {
    let inv = Invocation { caller: id(1), is_signer: true, now: 0, token_account_data: vec![1, 2, 3] };
    assert_eq!(
        apply(&TokenInstruction::LockTokens { amount: 1 }, &LockDetails::default(), &inv),
        Err(ProcessError::InvalidAccountData)
    );
}
