use vstd::prelude::*;
use crate::bytes::{le_u64, u64_le, lemma_le_round_trip, read_u64_le, push_u64_le, read_key, push_key};
use crate::error::ProcessError;

verus! {

/// Size of a stored escrow record: flag, three keys, amount.
pub const ESCROW_LEN: usize = 105;

/// The persistent escrow record.
#[derive(Debug, Clone, Copy, PartialEq, Eq)]
pub struct Escrow {
    pub is_initialized: bool,
    pub initializer_pubkey: [u8; 32],
    pub temp_token_account_pubkey: [u8; 32],
    pub initializer_token_to_receive_account_pubkey: [u8; 32],
    pub expected_amount: u64,
}

/// The stored layout of a record.
pub open spec fn escrow_bytes(e: Escrow) -> Seq<u8> {
    seq![if e.is_initialized { 1u8 } else { 0u8 }] + e.initializer_pubkey@
        + e.temp_token_account_pubkey@ + e.initializer_token_to_receive_account_pubkey@
        + u64_le(e.expected_amount)
}

/// The key stored in 32 bytes.
pub open spec fn key_of(s: Seq<u8>) -> [u8; 32] {
    choose|k: [u8; 32]| k@ == s
}

/// What a buffer holds, whatever its flag says: a 105-byte buffer whose first
/// byte is `0` or `1` decodes, anything else is invalid account data.
pub open spec fn decode_escrow(s: Seq<u8>) -> Result<Escrow, ProcessError> {
    if s.len() != ESCROW_LEN || (s[0] != 0 && s[0] != 1) {
        Err(ProcessError::InvalidAccountData)
    } else {
        Ok(
            Escrow {
                is_initialized: s[0] == 1,
                initializer_pubkey: key_of(s.subrange(1, 33)),
                temp_token_account_pubkey: key_of(s.subrange(33, 65)),
                initializer_token_to_receive_account_pubkey: key_of(s.subrange(65, 97)),
                expected_amount: le_u64(s.subrange(97, 105)),
            },
        )
    }
}

/// As `decode_escrow`, and a record whose flag is clear is refused as
/// uninitialized.
pub open spec fn decode_initialized_escrow(s: Seq<u8>) -> Result<Escrow, ProcessError> {
    match decode_escrow(s) {
        Ok(e) => if e.is_initialized {
            Ok(e)
        } else {
            Err(ProcessError::UninitializedAccount)
        },
        Err(err) => Err(err),
    }
}

pub(crate) proof fn lemma_key_of(k: [u8; 32])
    ensures
        key_of(k@) == k,
{
    let c = key_of(k@);
    assert(exists|x: [u8; 32]| x@ == k@);
    assert(c@ == k@);
    assert(c =~= k);
}

/// Decoding the stored layout of a record gives back the same record.
pub proof fn lemma_escrow_round_trip(e: Escrow)
    ensures
        decode_escrow(escrow_bytes(e)) == Ok::<Escrow, ProcessError>(e),
        e.is_initialized ==> decode_initialized_escrow(escrow_bytes(e)) == Ok::<
            Escrow,
            ProcessError,
        >(e),
{
    let s = escrow_bytes(e);
    assert(s.subrange(1, 33) =~= e.initializer_pubkey@);
    assert(s.subrange(33, 65) =~= e.temp_token_account_pubkey@);
    assert(s.subrange(65, 97) =~= e.initializer_token_to_receive_account_pubkey@);
    assert(s.subrange(97, 105) =~= u64_le(e.expected_amount));
    lemma_key_of(e.initializer_pubkey);
    lemma_key_of(e.temp_token_account_pubkey);
    lemma_key_of(e.initializer_token_to_receive_account_pubkey);
    lemma_le_round_trip(e.expected_amount);
}

impl Escrow {
    /// The stored bytes of this record.
    pub fn to_bytes(&self) -> (r: Vec<u8>)
        ensures
            r@ == escrow_bytes(*self),
            r@.len() == ESCROW_LEN,
    {
        let mut out: Vec<u8> = Vec::new();
        out.push(if self.is_initialized { 1u8 } else { 0u8 });
        push_key(&mut out, &self.initializer_pubkey);
        push_key(&mut out, &self.temp_token_account_pubkey);
        push_key(&mut out, &self.initializer_token_to_receive_account_pubkey);
        push_u64_le(&mut out, self.expected_amount);
        out
    }

    /// Decodes a record without looking at its flag.
    pub fn unpack_unchecked(input: &[u8]) -> (r: Result<Escrow, ProcessError>)
        ensures
            r == decode_escrow(input@),
    {
        if input.len() != ESCROW_LEN {
            return Err(ProcessError::InvalidAccountData);
        }
        let flag = input[0];
        if flag != 0 && flag != 1 {
            return Err(ProcessError::InvalidAccountData);
        }
        let a = read_key(input, 1);
        let b = read_key(input, 33);
        let c = read_key(input, 65);
        proof {
            lemma_key_of(a);
            lemma_key_of(b);
            lemma_key_of(c);
        }
        Ok(
            Escrow {
                is_initialized: flag == 1,
                initializer_pubkey: a,
                temp_token_account_pubkey: b,
                initializer_token_to_receive_account_pubkey: c,
                expected_amount: read_u64_le(input, 97),
            },
        )
    }

    /// Decodes a record that must have been initialized.
    pub fn unpack(input: &[u8]) -> (r: Result<Escrow, ProcessError>)
        ensures
            r == decode_initialized_escrow(input@),
    {
        let e = Self::unpack_unchecked(input)?;
        if e.is_initialized {
            Ok(e)
        } else {
            Err(ProcessError::UninitializedAccount)
        }
    }

    /// Overwrites a buffer of the record's size with its layout.
    pub fn pack(src: Escrow, dst: &mut Vec<u8>) -> (r: Result<(), ProcessError>)
        ensures
            old(dst)@.len() == ESCROW_LEN ==> r is Ok && final(dst)@ == escrow_bytes(src),
            old(dst)@.len() != ESCROW_LEN ==> r == Err::<(), ProcessError>(
                ProcessError::InvalidAccountData,
            ) && final(dst)@ == old(dst)@,
    {
        if dst.len() != ESCROW_LEN {
            return Err(ProcessError::InvalidAccountData);
        }
        *dst = src.to_bytes();
        Ok(())
    }
}

} // verus!
