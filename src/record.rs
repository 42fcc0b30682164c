use vstd::prelude::*;
use vstd::bytes::{
    spec_u64_from_le_bytes, spec_u64_to_le_bytes, u64_from_le_bytes, u64_to_le_bytes,
    lemma_auto_spec_u64_to_from_le_bytes,
};

verus! {

/// Width in bytes of a public identity.
pub const IDENTITY_LEN: usize = 32;

/// Width in bytes of an encoded lock record.
pub const LOCK_DETAILS_LEN: usize = 65;

/// A public identity (an account address), as its 32 bytes.
#[derive(Debug, Clone, Copy, PartialEq, Eq)]
pub struct Identity {
    pub bytes: [u8; 32],
}

impl Identity {
    pub open spec fn view(self) -> Seq<u8> {
        self.bytes@
    }

    /// The identity whose 32 bytes are all zero.
    pub fn zero() -> (r: Identity)
        ensures
            r@ == zero_identity(),
    {
        let r = Identity { bytes: [0u8; 32] };
        assert(r@ =~= zero_identity());
        r
    }

    /// Whether two identities are the same address.
    pub fn same_as(&self, other: &Identity) -> (r: bool)
        ensures
            r == (*self == *other),
    {
        let mut i: usize = 0;
        while i < IDENTITY_LEN
            invariant
                0 <= i <= 32,
                forall|j: int| 0 <= j < i ==> self.bytes@[j] == other.bytes@[j],
            decreases 32 - i,
        {
            if self.bytes[i] != other.bytes[i] {
                return false;
            }
            i = i + 1;
        }
        assert(self.bytes =~= other.bytes);
        true
    }
}

/// The stored state of one deposit.
#[derive(Debug, Clone, Copy, PartialEq, Eq)]
pub struct LockDetails {
    pub is_initialized: bool,
    pub user_pubkey: Identity,
    pub amount_locked: u64,
    pub lock_date: i64,
    pub unlock_date: i64,
    pub last_reward_claim_date: i64,
}

/// The 32 zero bytes of the empty identity.
pub open spec fn zero_identity() -> Seq<u8> {
    Seq::new(32, |i: int| 0u8)
}

/// The uninitialized record, as one value.
pub open spec fn default_record() -> LockDetails {
    LockDetails {
        is_initialized: false,
        user_pubkey: Identity { bytes: identity_array(zero_identity()) },
        amount_locked: 0,
        lock_date: 0,
        unlock_date: 0,
        last_reward_claim_date: 0,
    }
}

impl LockDetails {
    /// The uninitialized record: the flag clear and every other field zero.
    pub open spec fn is_default(self) -> bool {
        &&& !self.is_initialized
        &&& self.user_pubkey@ == zero_identity()
        &&& self.amount_locked == 0
        &&& self.lock_date == 0
        &&& self.unlock_date == 0
        &&& self.last_reward_claim_date == 0
    }

    /// An uninitialized record is the default one; an initialized one holds a
    /// positive amount and dates with `lock <= last claim <= unlock` and
    /// `lock < unlock`.
    pub open spec fn wf(self) -> bool {
        if self.is_initialized {
            &&& self.amount_locked > 0
            &&& self.lock_date < self.unlock_date
            &&& self.lock_date <= self.last_reward_claim_date
            &&& self.last_reward_claim_date <= self.unlock_date
        } else {
            self.is_default()
        }
    }

    pub fn is_initialized(&self) -> (r: bool)
        ensures
            r == self.is_initialized,
    {
        self.is_initialized
    }
}

/// The default record is the uninitialized one, and well-formed.
pub proof fn lemma_default_record_is_default()
    ensures
        default_record().is_default(),
        default_record().wf(),
{
    let a = vstd::array::spec_array_fill_for_copy_type::<u8, 32>(0u8);
    assert(a@ =~= zero_identity());
}

impl Default for LockDetails {
    /// The uninitialized record.
    fn default() -> (r: LockDetails)
        ensures
            r == default_record(),
            r.is_default(),
            r.wf(),
    {
        let r = LockDetails {
            is_initialized: false,
            user_pubkey: Identity::zero(),
            amount_locked: 0,
            lock_date: 0,
            unlock_date: 0,
            last_reward_claim_date: 0,
        };
        let ghost a = identity_array(zero_identity());
        assert(a@ == r.user_pubkey.bytes@);
        assert(a =~= r.user_pubkey.bytes);
        r
    }
}

/// The eight little-endian bytes of a signed 64-bit value.
pub open spec fn i64_le_bytes(x: i64) -> Seq<u8> {
    spec_u64_to_le_bytes(x as u64)
}

/// The signed 64-bit value of eight little-endian bytes.
pub open spec fn i64_from_le_bytes(s: Seq<u8>) -> i64 {
    spec_u64_from_le_bytes(s) as i64
}

/// The record's layout: the flag byte (0 or 1), the owner's 32 bytes, then the
/// amount and the three dates as 8-byte little-endian integers.
pub open spec fn encode_spec(r: LockDetails) -> Seq<u8> {
    seq![if r.is_initialized { 1u8 } else { 0u8 }]
        + r.user_pubkey@
        + spec_u64_to_le_bytes(r.amount_locked)
        + i64_le_bytes(r.lock_date)
        + i64_le_bytes(r.unlock_date)
        + i64_le_bytes(r.last_reward_claim_date)
}

/// The record that bytes hold, if they are exactly 65 bytes with a flag of 0 or 1.
pub open spec fn decode_spec(s: Seq<u8>) -> Option<LockDetails> {
    if s.len() == LOCK_DETAILS_LEN && s[0] <= 1 {
        Some(
            LockDetails {
                is_initialized: s[0] == 1,
                user_pubkey: Identity { bytes: identity_array(s.subrange(1, 33)) },
                amount_locked: spec_u64_from_le_bytes(s.subrange(33, 41)),
                lock_date: i64_from_le_bytes(s.subrange(41, 49)),
                unlock_date: i64_from_le_bytes(s.subrange(49, 57)),
                last_reward_claim_date: i64_from_le_bytes(s.subrange(57, 65)),
            },
        )
    } else {
        None
    }
}

/// The 32-byte array whose view is `s`.
pub open spec fn identity_array(s: Seq<u8>) -> [u8; 32] {
    choose|a: [u8; 32]| a@ == s
}

proof fn lemma_i64_round_trip(x: i64)
    ensures
        i64_from_le_bytes(i64_le_bytes(x)) == x,
        i64_le_bytes(x).len() == 8,
{
    lemma_auto_spec_u64_to_from_le_bytes();
    assert(((x as u64) as i64) == x) by (bit_vector);
}

/// Decoding the encoding of any record gives back every field unchanged.
pub proof fn lemma_record_round_trip(r: LockDetails)
    ensures
        decode_spec(encode_spec(r)) == Some(r),
{
    lemma_auto_spec_u64_to_from_le_bytes();
    lemma_i64_round_trip(r.lock_date);
    lemma_i64_round_trip(r.unlock_date);
    lemma_i64_round_trip(r.last_reward_claim_date);
    let s = encode_spec(r);
    assert(s.subrange(1, 33) =~= r.user_pubkey@);
    assert(s.subrange(33, 41) =~= spec_u64_to_le_bytes(r.amount_locked));
    assert(s.subrange(41, 49) =~= i64_le_bytes(r.lock_date));
    assert(s.subrange(49, 57) =~= i64_le_bytes(r.unlock_date));
    assert(s.subrange(57, 65) =~= i64_le_bytes(r.last_reward_claim_date));
    let a = identity_array(s.subrange(1, 33));
    assert(a@ == r.user_pubkey.bytes@);
    assert(a =~= r.user_pubkey.bytes);
}

fn push_all(out: &mut Vec<u8>, bytes: &Vec<u8>)
    ensures
        final(out)@ == old(out)@ + bytes@,
{
    let mut i: usize = 0;
    while i < bytes.len()
        invariant
            0 <= i <= bytes@.len(),
            out@ == old(out)@ + bytes@.subrange(0, i as int),
        decreases bytes@.len() - i,
    {
        out.push(bytes[i]);
        i = i + 1;
        assert(bytes@.subrange(0, i as int) =~= bytes@.subrange(0, i - 1) + seq![bytes@[i - 1]]);
    }
    assert(bytes@.subrange(0, bytes@.len() as int) =~= bytes@);
}

/// Encodes a record in its stored layout.
pub fn encode(r: &LockDetails) -> (out: Vec<u8>)
    ensures
        out@ == encode_spec(*r),
        out@.len() == LOCK_DETAILS_LEN,
{
    proof {
        lemma_auto_spec_u64_to_from_le_bytes();
    }
    let mut out: Vec<u8> = Vec::new();
    out.push(if r.is_initialized { 1u8 } else { 0u8 });
    let mut i: usize = 0;
    while i < IDENTITY_LEN
        invariant
            0 <= i <= 32,
            out@ == seq![if r.is_initialized { 1u8 } else { 0u8 }] + r.user_pubkey@.subrange(0, i as int),
        decreases 32 - i,
    {
        out.push(r.user_pubkey.bytes[i]);
        i = i + 1;
        assert(r.user_pubkey@.subrange(0, i as int) =~= r.user_pubkey@.subrange(0, i - 1) + seq![r.user_pubkey@[i - 1]]);
    }
    assert(r.user_pubkey@.subrange(0, 32) =~= r.user_pubkey@);
    push_all(&mut out, &u64_to_le_bytes(r.amount_locked));
    push_all(&mut out, &u64_to_le_bytes(r.lock_date as u64));
    push_all(&mut out, &u64_to_le_bytes(r.unlock_date as u64));
    push_all(&mut out, &u64_to_le_bytes(r.last_reward_claim_date as u64));
    out
}

/// Decodes a stored record; `None` unless the bytes are exactly one record
/// with a flag byte of 0 or 1.
pub fn decode(s: &[u8]) -> (r: Option<LockDetails>)
    ensures
        r == decode_spec(s@),
{
    if s.len() != LOCK_DETAILS_LEN || s[0] > 1 {
        return None;
    }
    let mut bytes = [0u8; 32];
    let mut i: usize = 0;
    while i < IDENTITY_LEN
        invariant
            0 <= i <= 32,
            s@.len() == 65,
            forall|j: int| 0 <= j < i ==> bytes@[j] == s@[j + 1],
        decreases 32 - i,
    {
        bytes[i] = s[i + 1];
        i = i + 1;
    }
    assert(bytes@ =~= s@.subrange(1, 33));
    let amount = u64_from_le_bytes(slice_of(s, 33, 41));
    let lock_date = u64_from_le_bytes(slice_of(s, 41, 49)) as i64;
    let unlock_date = u64_from_le_bytes(slice_of(s, 49, 57)) as i64;
    let last = u64_from_le_bytes(slice_of(s, 57, 65)) as i64;
    let rec = LockDetails {
        is_initialized: s[0] == 1,
        user_pubkey: Identity { bytes },
        amount_locked: amount,
        lock_date,
        unlock_date,
        last_reward_claim_date: last,
    };
    let ghost a = identity_array(s@.subrange(1, 33));
    assert(a@ == bytes@);
    assert(a =~= bytes);
    Some(rec)
}

fn slice_of(s: &[u8], start: usize, end: usize) -> (r: &[u8])
    requires
        start <= end <= s@.len(),
    ensures
        r@ == s@.subrange(start as int, end as int),
{
    vstd::slice::slice_subrange(s, start, end)
}

} // verus!
