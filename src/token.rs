use vstd::prelude::*;
use solana_program::program_error::ProgramError;
use solana_program::program_pack::Pack;
use crate::bytes::le_u64;
use crate::error::ProcessError;

verus! {

/// The key of the token program that owns every token account.
pub open spec fn token_program_id_bytes() -> Seq<u8> {
    seq![
        6u8, 221, 246, 225, 215, 101, 161, 147, 217, 203, 225, 70, 206, 235, 121, 172,
        28, 180, 133, 237, 95, 91, 55, 145, 58, 140, 245, 133, 126, 255, 0, 169,
    ]
}

/// Size of a token account's data.
pub const TOKEN_ACCOUNT_LEN: usize = 165;

/// A four-byte option tag at `at` is `0` (none) or `1` (some).
pub open spec fn option_tag_ok(s: Seq<u8>, at: int) -> bool {
    (s[at] == 0 || s[at] == 1) && s[at + 1] == 0 && s[at + 2] == 0 && s[at + 3] == 0
}

/// The balance that token-account data records: the data is 165 bytes, with
/// well-formed option tags for delegate (72), native flag (109) and close
/// authority (129), and a state byte (108) of at most `2`. A state of `0` is an
/// uninitialized account; the balance is the little-endian integer at 64.
pub open spec fn decode_token_amount(s: Seq<u8>) -> Result<u64, ProcessError> {
    if s.len() != TOKEN_ACCOUNT_LEN || !option_tag_ok(s, 72) || s[108] > 2 || !option_tag_ok(
        s,
        109,
    ) || !option_tag_ok(s, 129) {
        Err(ProcessError::InvalidAccountData)
    } else if s[108] == 0 {
        Err(ProcessError::UninitializedAccount)
    } else {
        Ok(le_u64(s.subrange(64, 72)))
    }
}

/// Relies on `spl_token::id`: the token program's fixed key, declared in its
/// crate as `TokenkegQfeZyiNwAJbNbGKPFXCWuBvf9Ss623VQ5DA`.
#[verifier::external_body]
pub(crate) fn token_program_id() -> (r: [u8; 32])
    ensures
        r@ == token_program_id_bytes(),
{
    spl_token::id().to_bytes()
}

/// Relies on `spl_token::state::Account::unpack` (the `Pack` layout of a token
/// account), keeping only the balance and telling an uninitialized account
/// from malformed data.
#[verifier::external_body]
pub(crate) fn token_account_amount(data: &[u8]) -> (r: Result<u64, ProcessError>)
    ensures
        r == decode_token_amount(data@),
{
    match spl_token::state::Account::unpack(data) {
        Ok(account) => Ok(account.amount),
        Err(ProgramError::UninitializedAccount) => Err(ProcessError::UninitializedAccount),
        Err(_) => Err(ProcessError::InvalidAccountData),
    }
}

} // verus!
