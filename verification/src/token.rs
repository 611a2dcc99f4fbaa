//! Token accounts as a request presents them, and the transfers that the
//! library asks for.

use vstd::prelude::*;
use crate::address::Address;

verus! {

/// A token account as it was presented with a request.
#[derive(Clone, Copy, Debug, PartialEq, Eq)]
pub struct TokenAccount {
    /// The account's own address.
    pub key: Address,
    /// The mint whose tokens the account holds.
    pub mint: Address,
    /// Who may move tokens out of the account.
    pub owner: Address,
}

/// The seeds by which the program signs for a check's vault.
#[derive(Clone, Copy, Debug, PartialEq, Eq)]
pub struct SignerSeeds {
    /// The address of the check.
    pub key: Address,
    /// The nonce stored on the check.
    pub nonce: u8,
}

/// A transfer of tokens to be carried out by the token program.
#[derive(Clone, Copy, Debug, PartialEq, Eq)]
pub struct Transfer {
    /// The account debited.
    pub from: Address,
    /// The account credited.
    pub to: Address,
    /// In whose name the tokens leave `from`.
    pub authority: Address,
    /// How many tokens move.
    pub amount: u64,
    /// `None` where `authority` signs for itself; otherwise the seeds with
    /// which the program signs in its place.
    pub seeds: Option<SignerSeeds>,
}

} // verus!
