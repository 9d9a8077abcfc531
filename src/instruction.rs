use vstd::prelude::*;
use crate::bytes::{le_u64, read_u64_le};
use crate::error::EscrowError;

verus! {

/// The commands the escrow program understands.
#[derive(Debug, Clone, Copy, PartialEq, Eq, Structural)]
pub enum EscrowInstruction {
    /// Opens an escrow that expects `amount` of the counter-token.
    InitEscrow { amount: u64 },
    /// Completes an escrow whose custody account holds `amount`.
    Exchange { amount: u64 },
}

/// What a byte string decodes to: a tag byte (`0` or `1`) followed by a
/// little-endian 64-bit amount; trailing bytes are ignored.
pub open spec fn decode_instruction(s: Seq<u8>) -> Result<EscrowInstruction, EscrowError> {
    if s.len() < 9 {
        Err(EscrowError::InvalidInstruction)
    } else if s[0] == 0 {
        Ok(EscrowInstruction::InitEscrow { amount: le_u64(s.subrange(1, 9)) })
    } else if s[0] == 1 {
        Ok(EscrowInstruction::Exchange { amount: le_u64(s.subrange(1, 9)) })
    } else {
        Err(EscrowError::InvalidInstruction)
    }
}

impl EscrowInstruction {
    /// Decodes instruction bytes.
    pub fn unpack(input: &[u8]) -> (r: Result<EscrowInstruction, EscrowError>)
        ensures
            r == decode_instruction(input@),
            input@.len() < 9 ==> r == Err::<EscrowInstruction, EscrowError>(
                EscrowError::InvalidInstruction,
            ),
            input@.len() > 0 && input@[0] != 0 && input@[0] != 1 ==> r == Err::<
                EscrowInstruction,
                EscrowError,
            >(EscrowError::InvalidInstruction),
    {
        if input.len() < 9 {
            return Err(EscrowError::InvalidInstruction);
        }
        let tag = input[0];
        if tag == 0 {
            Ok(EscrowInstruction::InitEscrow { amount: read_u64_le(input, 1) })
        } else if tag == 1 {
            Ok(EscrowInstruction::Exchange { amount: read_u64_le(input, 1) })
        } else {
            Err(EscrowError::InvalidInstruction)
        }
    }
}

} // verus!
