//! Writing a check.

use vstd::prelude::*;
use crate::address::{view_of, Address};
use crate::authority::{check_signer, derive_authority, program_address, signer_matches};
use crate::error::ErrorCode;
use crate::escrow::Escrow;
use crate::pending::{plan_of, Pending, Plan};
use crate::token::{TokenAccount, Transfer};

verus! {

/// The accounts presented to write a check.
#[derive(Clone, Copy, Debug, PartialEq, Eq)]
pub struct CreateEscrow {
    /// The program that writes the check.
    pub program_id: Address,
    /// The address at which the check will be stored. The slot is fresh:
    /// whoever allots it sees to that.
    pub escrow_key: Address,
    /// The vault that will hold the tokens.
    pub vault: TokenAccount,
    /// The address given as the vault's signer.
    pub escrow_signer: Address,
    /// The token account that the check is drawn on.
    pub seller_token: TokenAccount,
    /// The token account that the check is made out to.
    pub buyer_token: TokenAccount,
    /// Who writes the check, and in whose name the tokens leave
    /// `seller_token`.
    pub seller: Address,
}

impl CreateEscrow {
    /// The address that `nonce` derives for the check at `self.escrow_key`.
    pub open spec fn authority(self, nonce: u8) -> Option<Seq<u8>> {
        program_address(self.escrow_key@, nonce, self.program_id@)
    }

    /// Why a check for `amount` is refused, if it is, where `authority` is
    /// what the nonce derives. The first rule broken decides.
    pub open spec fn refusal(self, amount: u64, authority: Option<Seq<u8>>) -> Option<ErrorCode> {
        if amount == 0 {
            Some(ErrorCode::InvalidAmount)
        } else if self.seller_token.mint != self.buyer_token.mint {
            Some(ErrorCode::AssetMismatchError)
        } else if !signer_matches(authority, self.escrow_signer) || self.vault.owner
            != self.escrow_signer {
            Some(ErrorCode::InvalidAuthorityDerivation)
        } else if self.seller_token.owner != self.seller {
            Some(ErrorCode::AuthorizationError)
        } else {
            None
        }
    }

    /// The transfer that funds a check for `amount`: out of the seller's
    /// account into the vault, in the seller's name.
    pub open spec fn funding(self, amount: u64) -> Transfer {
        Transfer {
            from: self.seller_token.key,
            to: self.vault.key,
            authority: self.seller,
            amount,
            seeds: None,
        }
    }

    /// The record of a new check for `amount`.
    pub open spec fn record(self, amount: u64, nonce: u8, memo: Option<String>) -> Escrow {
        Escrow {
            seller: self.seller,
            seller_token: self.seller_token.key,
            buyer_token: self.buyer_token.key,
            amount,
            vault: self.vault.key,
            nonce,
            burned: false,
            memo,
        }
    }

    /// What a request to write a check comes to, where `authority` is what
    /// the nonce derives.
    pub open spec fn plan(
        self,
        amount: u64,
        nonce: u8,
        memo: Option<String>,
        authority: Option<Seq<u8>>,
    ) -> Result<Plan, ErrorCode> {
        match self.refusal(amount, authority) {
            Some(e) => Err(e),
            None => Ok(
                Plan {
                    escrow_key: self.escrow_key,
                    transfer: self.funding(amount),
                    record: self.record(amount, nonce, memo),
                },
            ),
        }
    }

    /// Accepts the accounts only if the program derives, from the check's
    /// address and `nonce`, the address that was given as the vault's
    /// signer. Anything else is an `InvalidAuthorityDerivation`.
    pub fn accounts(ctx: &CreateEscrow, nonce: u8) -> (r: Result<(), ErrorCode>)
        ensures
            r is Ok <==> signer_matches(ctx.authority(nonce), ctx.escrow_signer),
            r is Err ==> r == Err::<(), ErrorCode>(ErrorCode::InvalidAuthorityDerivation),
    {
        let derived = derive_authority(&ctx.escrow_key, nonce, &ctx.program_id);
        check_signer(derived, &ctx.escrow_signer)
    }
}

/// Validates a request to write a check for `amount`, given the address
/// that `nonce` derives.
///
/// The request is refused by the first of these rules that it breaks:
/// - the amount is more than nothing, else `InvalidAmount`;
/// - the seller's and the buyer's token accounts are of one mint, else
///   `AssetMismatchError`;
/// - `authority` is the address given as the vault's signer, and that
///   address owns the vault, else `InvalidAuthorityDerivation`;
/// - the seller owns the token account drawn on, else `AuthorizationError`.
///
/// An accepted request asks for `amount` to be moved from the seller's
/// account into the vault in the seller's name, and, once that has gone
/// through, for a check that is not burned to be stored at `escrow_key`.
pub fn create_escrow_with_authority(
    ctx: CreateEscrow,
    amount: u64,
    nonce: u8,
    memo: Option<String>,
    authority: Option<Address>,
) -> (r: Result<Pending, ErrorCode>)
    ensures
        plan_of(r) == ctx.plan(amount, nonce, memo, view_of(authority)),
{
    if amount == 0 {
        return Err(ErrorCode::InvalidAmount);
    }
    if ctx.seller_token.mint != ctx.buyer_token.mint {
        return Err(ErrorCode::AssetMismatchError);
    }
    check_signer(authority, &ctx.escrow_signer)?;
    if ctx.vault.owner != ctx.escrow_signer {
        return Err(ErrorCode::InvalidAuthorityDerivation);
    }
    if ctx.seller_token.owner != ctx.seller {
        return Err(ErrorCode::AuthorizationError);
    }
    let transfer = Transfer {
        from: ctx.seller_token.key,
        to: ctx.vault.key,
        authority: ctx.seller,
        amount,
        seeds: None,
    };
    let record = Escrow {
        seller: ctx.seller,
        seller_token: ctx.seller_token.key,
        buyer_token: ctx.buyer_token.key,
        amount,
        vault: ctx.vault.key,
        nonce,
        burned: false,
        memo,
    };
    Ok(Pending::new(ctx.escrow_key, transfer, record))
}

/// Validates a request to write a check for `amount`, as
/// [`create_escrow_with_authority`] does, with the address that the
/// program derives from the check's address and `nonce`.
pub fn create_escrow(ctx: CreateEscrow, amount: u64, nonce: u8, memo: Option<String>) -> (r: Result<
    Pending,
    ErrorCode,
>)
    ensures
        plan_of(r) == ctx.plan(amount, nonce, memo, ctx.authority(nonce)),
{
    let authority = derive_authority(&ctx.escrow_key, nonce, &ctx.program_id);
    create_escrow_with_authority(ctx, amount, nonce, memo, authority)
}

} // verus!
