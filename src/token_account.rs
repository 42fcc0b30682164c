use vstd::prelude::*;
use vstd::bytes::spec_u64_from_le_bytes;
use solana_program::program_error::ProgramError;
use solana_program::program_pack::Pack;

verus! {

/// Width in bytes of a token account's data.
pub const TOKEN_ACCOUNT_LEN: usize = 165;

#[verifier::external_type_specification]
#[verifier::external_body]
pub struct ExProgramError(ProgramError);

/// The balance field of token-account data: 8 little-endian bytes at offset 64.
pub open spec fn token_balance_of(data: Seq<u8>) -> u64 {
    spec_u64_from_le_bytes(data.subrange(64, 72))
}

/// A 4-byte optional-value tag at `at`: `[0, 0, 0, 0]` or `[1, 0, 0, 0]`.
pub open spec fn option_tag_ok(data: Seq<u8>, at: int) -> bool {
    &&& data[at] == 0 || data[at] == 1
    &&& data[at + 1] == 0
    &&& data[at + 2] == 0
    &&& data[at + 3] == 0
}

/// Token-account data that unpacks: 165 bytes, with valid tags on the
/// delegate (offset 72), native-reserve (109) and close-authority (129)
/// options, and a state byte (108) of 1 (initialized) or 2 (frozen).
pub open spec fn is_initialized_token_account(data: Seq<u8>) -> bool {
    &&& data.len() == TOKEN_ACCOUNT_LEN
    &&& option_tag_ok(data, 72)
    &&& data[108] == 1 || data[108] == 2
    &&& option_tag_ok(data, 109)
    &&& option_tag_ok(data, 129)
}

/// Relies on spl_token's `Account::unpack` (through `Pack::unpack`): it takes
/// exactly the data above (`unpack_unchecked` checks the length,
/// `unpack_from_slice` the tags and the state, `is_initialized` refuses state 0)
/// and reads the balance as the little-endian `u64` at offsets 64..72.
#[verifier::external_body]
pub(crate) fn unpack_token_balance(data: &[u8]) -> (r: Result<u64, ProgramError>)
    ensures
        r is Ok <==> is_initialized_token_account(data@),
        r is Ok ==> r->Ok_0 == token_balance_of(data@),
{
    spl_token::state::Account::unpack(data).map(|account| account.amount)
}

} // verus!
