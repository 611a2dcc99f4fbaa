//! The record of a check.

use vstd::prelude::*;
use crate::address::Address;
use crate::error::ErrorCode;

verus! {

/// A check: tokens locked in a vault for a buyer, until it is cashed or
/// cancelled.
///
/// A record is written once, when the check is created. After that only
/// `burned` changes, once, from `false` to `true`.
#[derive(Clone, Debug, PartialEq, Eq)]
pub struct Escrow {
    /// Who wrote the check.
    pub seller: Address,
    /// The token account the tokens came from.
    pub seller_token: Address,
    /// The token account that may cash the check.
    pub buyer_token: Address,
    /// How many tokens the check is for.
    pub amount: u64,
    /// The token account that holds the tokens meanwhile.
    pub vault: Address,
    /// The nonce from which, with the check's address, the vault's signer
    /// is derived.
    pub nonce: u8,
    /// Whether the check has been cashed or cancelled.
    pub burned: bool,
    /// A free note. Nothing depends on it.
    pub memo: Option<String>,
}

impl Escrow {
    /// What holds of every record that the library writes.
    pub open spec fn wf(self) -> bool {
        self.amount > 0
    }

    /// This record, burned.
    pub open spec fn settled(self) -> Escrow {
        Escrow { burned: true, ..self }
    }
}

/// Refuses a check that has been cashed or cancelled.
pub fn not_burned(escrow: &Escrow) -> (r: Result<(), ErrorCode>)
    ensures
        r is Ok <==> !escrow.burned,
        r is Err ==> r == Err::<(), ErrorCode>(ErrorCode::AlreadySettledError),
{
    if escrow.burned {
        return Err(ErrorCode::AlreadySettledError);
    }
    Ok(())
}

} // verus!
