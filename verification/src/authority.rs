//! The signer of a check's vault.
//!
//! No one holds a key for the vault. Its owner is an address derived from
//! the check's own address, a nonce and the program's id, which only the
//! program can sign for.

use vstd::prelude::*;
use crate::address::{lemma_view_injective, view_of, Address};
use crate::error::ErrorCode;

verus! {

/// The address that `program_id` derives from the seeds `key` and `nonce`,
/// or `None` where these seeds derive no address: what
/// `Pubkey::create_program_address` comes to on them. Nothing more is said
/// of it anywhere than that it is a function of the three.
pub uninterp spec fn program_address(key: Seq<u8>, nonce: u8, program_id: Seq<u8>) -> Option<Seq<u8>>;

/// Why `Pubkey::create_program_address` derived no address.
#[verifier::external_type_specification]
#[verifier::external_body]
pub struct ExPubkeyError(anchor_lang::solana_program::pubkey::PubkeyError);

/// The bytes of a derived address, or `None` where the derivation failed.
pub open spec fn derived_bytes(r: Result<Address, anchor_lang::solana_program::pubkey::PubkeyError>) -> Option<
    Seq<u8>,
> {
    match r {
        Ok(address) => Some(address@),
        Err(_) => None,
    }
}

/// Calls `Pubkey::create_program_address` with the two seeds `key` and
/// `[nonce]`. That function hashes the seeds, the program id and a fixed
/// marker, and fails where a seed is too long or the digest is a point of
/// the ed25519 curve. Its result depends on the three arguments alone, and
/// this is all that the contract says of it; nothing here proves it.
#[verifier::external_body]
pub(crate) fn create_program_address(key: &Address, nonce: u8, program_id: &Address) -> (r: Result<
    Address,
    anchor_lang::solana_program::pubkey::PubkeyError,
>)
    ensures
        derived_bytes(r) == program_address(key@, nonce, program_id@),
{
    let program = anchor_lang::prelude::Pubkey::new_from_array(program_id.bytes);
    match anchor_lang::prelude::Pubkey::create_program_address(&[&key.bytes, &[nonce]], &program) {
        Ok(address) => Ok(Address { bytes: address.to_bytes() }),
        Err(e) => Err(e),
    }
}

/// Derives the signer of the vault of the check at `key`: the address that
/// `program_id` derives from `key` and `nonce`, if they derive one.
pub fn derive_authority(key: &Address, nonce: u8, program_id: &Address) -> (r: Option<Address>)
    ensures
        view_of(r) == program_address(key@, nonce, program_id@),
{
    match create_program_address(key, nonce, program_id) {
        Ok(address) => Some(address),
        Err(_) => None,
    }
}

/// Whether `derived` is the address that was `presented` as the signer.
pub open spec fn signer_matches(derived: Option<Seq<u8>>, presented: Address) -> bool {
    derived == Some(presented@)
}

/// Accepts a derived address only if it is the one presented.
pub fn check_signer(derived: Option<Address>, presented: &Address) -> (r: Result<(), ErrorCode>)
    ensures
        r is Ok <==> signer_matches(view_of(derived), *presented),
        r is Err ==> r == Err::<(), ErrorCode>(ErrorCode::InvalidAuthorityDerivation),
{
    match derived {
        Some(signer) => {
            proof {
                lemma_view_injective(signer, *presented);
            }
            if signer == *presented {
                Ok(())
            } else {
                Err(ErrorCode::InvalidAuthorityDerivation)
            }
        },
        None => Err(ErrorCode::InvalidAuthorityDerivation),
    }
}

} // verus!
