//! The governance authority: an address derived from the program's own
//! identifier, which no key pair can sign for.

use vstd::prelude::*;
use solana_program::pubkey::Pubkey;
use crate::address::Address;
use crate::error::ErrorCode;

verus! {

/// The seed that the governance authority is derived from: the ASCII text
/// `multisig_pda_seed`.
pub const MULTISIG_PDA_SEED: [u8; 17] = [
    109, 117, 108, 116, 105, 115, 105, 103, 95, 112, 100, 97, 95, 115, 101, 101, 100,
];

/// The program-derived address for one seed under a program, with the bump
/// seed that was found for it; `None` where no bump seed yields an address.
/// It stands for what `Pubkey::try_find_program_address` computes from the
/// seed and the 32 bytes of the program identifier.
pub uninterp spec fn program_address(seed: Seq<u8>, program_id: Seq<u8>) -> Option<(Seq<u8>, u8)>;

/// The bytes of a derived address and its bump seed.
pub open spec fn derived_view(derived: Option<(Address, u8)>) -> Option<(Seq<u8>, u8)> {
    match derived {
        Some((address, bump_seed)) => Some((address@, bump_seed)),
        None => None,
    }
}

/// Calls `solana_program::pubkey::Pubkey::try_find_program_address` with
/// the single seed `seed` under `program_id`. Trusted: the result is the
/// derived address and bump seed, a function of the two arguments alone.
/// The call hashes the seed, a candidate bump seed and the program
/// identifier, and keeps the first candidate, counting down from 255, whose
/// hash is not a point of the ed25519 curve.
#[verifier::external_body]
fn find_program_address(seed: &[u8], program_id: &Address) -> (derived: Option<(Address, u8)>)
    ensures
        derived_view(derived) == program_address(seed@, program_id@),
{
    Pubkey::try_find_program_address(&[seed], &Pubkey::new_from_array(program_id.bytes)).map(
        |(key, bump_seed)| (Address { bytes: key.to_bytes() }, bump_seed),
    )
}

/// What the check of an offered authority account comes to, given the
/// address that was derived: the bump seed when the offered account is the
/// derived one, `InvalidAuthPda` when it is another or none could be derived.
pub open spec fn authority_verdict(
    derived: Option<(Seq<u8>, u8)>,
    offered: Seq<u8>,
) -> Result<u8, ErrorCode> {
    match derived {
        Some((address, bump_seed)) => if address == offered {
            Ok(bump_seed)
        } else {
            Err(ErrorCode::InvalidAuthPda)
        },
        None => Err(ErrorCode::InvalidAuthPda),
    }
}

/// Derives the governance authority of the program `program_id`.
pub fn find_authority(program_id: &Address) -> (derived: Option<(Address, u8)>)
    ensures
        derived_view(derived) == program_address(MULTISIG_PDA_SEED@, program_id@),
{
    find_program_address(MULTISIG_PDA_SEED.as_slice(), program_id)
}

/// Compares the account offered as the authority with the derived one.
pub fn match_authority(
    derived: Option<(Address, u8)>,
    offered: &Address,
) -> (r: Result<u8, ErrorCode>)
    ensures
        r == authority_verdict(derived_view(derived), offered@),
{
    match derived {
        Some((address, bump_seed)) => {
            proof {
                Address::lemma_equal_by_bytes(address, *offered);
            }
            if address == *offered {
                Ok(bump_seed)
            } else {
                Err(ErrorCode::InvalidAuthPda)
            }
        },
        None => Err(ErrorCode::InvalidAuthPda),
    }
}

/// Checks that `offered` is the governance authority of `program_id`, and
/// returns the bump seed that signs for it.
pub fn check_authority(offered: &Address, program_id: &Address) -> (r: Result<u8, ErrorCode>)
    ensures
        r == authority_verdict(program_address(MULTISIG_PDA_SEED@, program_id@), offered@),
{
    match_authority(find_authority(program_id), offered)
}

} // verus!
