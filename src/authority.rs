use vstd::prelude::*;
use solana_program::pubkey::Pubkey;
use crate::error::ProcessError;
use crate::state::key_of;

verus! {

/// What `Pubkey::try_find_program_address` returns for one seed and a program
/// key: the derived address and its bump, or nothing when no bump works.
pub uninterp spec fn found_program_address(seed: Seq<u8>, program_id: Seq<u8>) -> Option<
    (Seq<u8>, u8),
>;

/// Relies on `Pubkey::try_find_program_address` with the single seed `seed`:
/// a deterministic function of the seed and the program key.
#[verifier::external_body]
fn find_program_address(seed: &[u8], program_id: &[u8; 32]) -> (r: Option<([u8; 32], u8)>)
    ensures
        match r {
            Some(p) => found_program_address(seed@, program_id@) == Some((p.0@, p.1)),
            None => found_program_address(seed@, program_id@) is None,
        },
{
    Pubkey::try_find_program_address(&[seed], &Pubkey::new_from_array(*program_id)).map(
        |(address, bump)| (address.to_bytes(), bump),
    )
}

/// The seed label from which the escrow authority is derived.
pub open spec fn escrow_seed() -> Seq<u8> {
    seq![101u8, 115, 99, 114, 111, 119]
}

/// The seed label, as bytes.
pub fn seed_label() -> (r: Vec<u8>)
    ensures
        r@ == escrow_seed(),
{
    let mut v: Vec<u8> = Vec::new();
    v.push(101u8);
    v.push(115u8);
    v.push(99u8);
    v.push(114u8);
    v.push(111u8);
    v.push(119u8);
    assert(v@ =~= escrow_seed());
    v
}

/// The program-derived address that holds authority over custody accounts,
/// with the bump that makes it a valid derived address. It has no private
/// key: the program acts for it by presenting the seed label and bump.
#[derive(Debug, Clone, Copy, PartialEq, Eq)]
pub struct AuthorityDelegate {
    pub bump: u8,
    pub address: [u8; 32],
}

/// The escrow authority of a program, if one can be derived.
pub open spec fn delegate_of(program_id: Seq<u8>) -> Option<AuthorityDelegate> {
    match found_program_address(escrow_seed(), program_id) {
        Some(p) => Some(AuthorityDelegate { bump: p.1, address: key_of(p.0) }),
        None => None,
    }
}

impl AuthorityDelegate {
    /// Derives the escrow authority of `program_id`.
    pub fn derive(program_id: &[u8; 32]) -> (r: Result<AuthorityDelegate, ProcessError>)
        ensures
            match delegate_of(program_id@) {
                Some(d) => r == Ok::<AuthorityDelegate, ProcessError>(d),
                None => r == Err::<AuthorityDelegate, ProcessError>(ProcessError::InvalidSeeds),
            },
    {
        let seed = seed_label();
        match find_program_address(seed.as_slice(), program_id) {
            Some(p) => {
                proof {
                    crate::state::lemma_key_of(p.0);
                }
                Ok(AuthorityDelegate { bump: p.1, address: p.0 })
            },
            None => Err(ProcessError::InvalidSeeds),
        }
    }

    /// The seeds that authorize a call on behalf of this address: the seed
    /// label, then the bump.
    pub fn signer_seeds(&self) -> (r: Vec<Vec<u8>>)
        ensures
            r@.len() == 2,
            r@[0]@ == escrow_seed(),
            r@[1]@ == seq![self.bump],
    {
        let mut bump: Vec<u8> = Vec::new();
        bump.push(self.bump);
        let mut r: Vec<Vec<u8>> = Vec::new();
        r.push(seed_label());
        r.push(bump);
        r
    }
}

} // verus!
