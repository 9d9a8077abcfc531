use vstd::prelude::*;

verus! {

/// Failures that belong to the escrow program itself.
#[derive(Debug, Clone, Copy, PartialEq, Eq, Structural)]
pub enum EscrowError {
    /// The instruction bytes do not decode to a known command.
    InvalidInstruction,
    /// The escrow record account does not hold the rent-exempt minimum.
    NotRentExempt,
    /// The custody balance differs from the amount the taker expects.
    EscrowAmountMismatch,
    /// Crediting a reclaimed balance would overflow.
    AmountOverflow,
}

impl EscrowError {
    /// The custom error code under which the runtime reports this failure.
    pub open spec fn spec_code(&self) -> u32 {
        match self {
            EscrowError::InvalidInstruction => 0,
            EscrowError::NotRentExempt => 1,
            EscrowError::EscrowAmountMismatch => 2,
            EscrowError::AmountOverflow => 3,
        }
    }

    pub fn code(&self) -> (r: u32)
        ensures
            r == self.spec_code(),
    {
        match self {
            EscrowError::InvalidInstruction => 0,
            EscrowError::NotRentExempt => 1,
            EscrowError::EscrowAmountMismatch => 2,
            EscrowError::AmountOverflow => 3,
        }
    }
}

/// Every way an instruction can be rejected: the runtime's standard account
/// errors and the program's own ones.
#[derive(Debug, Clone, Copy, PartialEq, Eq, Structural)]
pub enum ProcessError {
    MissingRequiredSignature,
    IncorrectProgramId,
    AccountAlreadyInitialized,
    UninitializedAccount,
    InvalidAccountData,
    NotEnoughAccountKeys,
    InvalidSeeds,
    Escrow(EscrowError),
}

} // verus!
