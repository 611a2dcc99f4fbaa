//! Cashing and cancelling a check.
//!
//! The two differ in who is paid: the buyer's account where the check is
//! cashed, the seller's where it is cancelled. Everything else is one rule,
//! [`settle`], so that a check is burned in one place only.

use vstd::prelude::*;
use crate::address::{view_of, Address};
use crate::authority::{check_signer, derive_authority, program_address, signer_matches};
use crate::error::ErrorCode;
use crate::escrow::{not_burned, Escrow};
use crate::pending::{plan_of, Pending, Plan};
use crate::token::{SignerSeeds, TokenAccount, Transfer};

verus! {

/// Which way the tokens leave the vault.
#[derive(Clone, Copy, Debug, PartialEq, Eq, Structural)]
pub enum Direction {
    /// On to the buyer.
    Cash,
    /// Back to the seller.
    Cancel,
}

impl Direction {
    /// The token account that `escrow` names for this direction.
    pub open spec fn payee(self, escrow: Escrow) -> Address {
        match self {
            Direction::Cash => escrow.buyer_token,
            Direction::Cancel => escrow.seller_token,
        }
    }

    /// The token account that `escrow` names for this direction.
    pub fn named_account(&self, escrow: &Escrow) -> (account: Address)
        ensures
            account == self.payee(*escrow),
    {
        match self {
            Direction::Cash => escrow.buyer_token,
            Direction::Cancel => escrow.seller_token,
        }
    }
}

/// A request to settle a check, whichever way.
#[derive(Clone, Debug, PartialEq, Eq)]
pub struct Settlement {
    /// The program that wrote the check.
    pub program_id: Address,
    /// The address of the check.
    pub escrow_key: Address,
    /// The check as it is stored.
    pub escrow: Escrow,
    /// The account presented as the check's vault.
    pub vault: Address,
    /// The address presented as the vault's signer.
    pub signer: Address,
    /// The token account to be paid.
    pub account: TokenAccount,
    /// Who asks.
    pub party: Address,
}

impl Settlement {
    /// The address that the check's own nonce derives for it.
    pub open spec fn authority(self) -> Option<Seq<u8>> {
        program_address(self.escrow_key@, self.escrow.nonce, self.program_id@)
    }

    /// Whether the accounts presented are those that the check names for
    /// `direction`, the caller owns the one to be paid, and, where the
    /// check is to be cancelled, the caller is the seller who wrote it.
    pub open spec fn authorized(self, direction: Direction) -> bool {
        &&& self.account.key == direction.payee(self.escrow)
        &&& self.account.owner == self.party
        &&& direction is Cancel ==> self.party == self.escrow.seller
        &&& self.vault == self.escrow.vault
    }

    /// Why the request is refused, if it is, where `authority` is what the
    /// check's nonce derives. The first rule broken decides.
    pub open spec fn refusal(self, direction: Direction, authority: Option<Seq<u8>>) -> Option<
        ErrorCode,
    > {
        if self.escrow.burned {
            Some(ErrorCode::AlreadySettledError)
        } else if !self.authorized(direction) {
            Some(ErrorCode::AuthorizationError)
        } else if !signer_matches(authority, self.signer) {
            Some(ErrorCode::InvalidAuthorityDerivation)
        } else {
            None
        }
    }

    /// The transfer that empties the check: its whole amount, out of its
    /// vault into the account to be paid, signed for by the program.
    pub open spec fn payout(self) -> Transfer {
        Transfer {
            from: self.escrow.vault,
            to: self.account.key,
            authority: self.signer,
            amount: self.escrow.amount,
            seeds: Some(SignerSeeds { key: self.escrow_key, nonce: self.escrow.nonce }),
        }
    }

    /// What the request comes to, where `authority` is what the check's
    /// nonce derives.
    pub open spec fn plan(self, direction: Direction, authority: Option<Seq<u8>>) -> Result<
        Plan,
        ErrorCode,
    > {
        match self.refusal(direction, authority) {
            Some(e) => Err(e),
            None => Ok(
                Plan {
                    escrow_key: self.escrow_key,
                    transfer: self.payout(),
                    record: self.escrow.settled(),
                },
            ),
        }
    }
}

/// The accounts presented to cash a check.
#[derive(Clone, Debug, PartialEq, Eq)]
pub struct CashCheck {
    /// The program that wrote the check.
    pub program_id: Address,
    /// The address of the check.
    pub escrow_key: Address,
    /// The check as it is stored.
    pub escrow: Escrow,
    /// The account presented as the check's vault.
    pub vault: Address,
    /// The address presented as the vault's signer.
    pub escrow_signer: Address,
    /// The token account to be paid.
    pub buyer_token: TokenAccount,
    /// Who cashes the check.
    pub buyer: Address,
}

impl CashCheck {
    /// The request to settle that these accounts make.
    pub open spec fn request(self) -> Settlement {
        Settlement {
            program_id: self.program_id,
            escrow_key: self.escrow_key,
            escrow: self.escrow,
            vault: self.vault,
            signer: self.escrow_signer,
            account: self.buyer_token,
            party: self.buyer,
        }
    }
}

/// The accounts presented to cancel a check.
#[derive(Clone, Debug, PartialEq, Eq)]
pub struct CancelCheck {
    /// The program that wrote the check.
    pub program_id: Address,
    /// The address of the check.
    pub escrow_key: Address,
    /// The check as it is stored.
    pub escrow: Escrow,
    /// The account presented as the check's vault.
    pub vault: Address,
    /// The address presented as the vault's signer.
    pub check_signer: Address,
    /// The token account to be paid back.
    pub from: TokenAccount,
    /// Who cancels the check.
    pub owner: Address,
}

impl CancelCheck {
    /// The request to settle that these accounts make.
    pub open spec fn request(self) -> Settlement {
        Settlement {
            program_id: self.program_id,
            escrow_key: self.escrow_key,
            escrow: self.escrow,
            vault: self.vault,
            signer: self.check_signer,
            account: self.from,
            party: self.owner,
        }
    }
}

/// Validates a request to settle a check, given the address that the
/// check's nonce derives.
///
/// The request is refused by the first of these rules that it breaks:
/// - the check is not burned, else `AlreadySettledError`;
/// - the account to be paid is the one that the check names for
///   `direction`, the caller owns it, the vault presented is the check's,
///   and a check is cancelled by the seller who wrote it, else
///   `AuthorizationError`;
/// - `authority` is the address presented as the vault's signer, else
///   `InvalidAuthorityDerivation`.
///
/// An accepted request asks for the check's whole amount to be moved out of
/// its vault into the account to be paid, signed for by the program, and,
/// once that has gone through, for the check to be stored as burned, with
/// nothing else changed.
pub fn settle(request: Settlement, direction: Direction, authority: Option<Address>) -> (r: Result<
    Pending,
    ErrorCode,
>)
    ensures
        plan_of(r) == request.plan(direction, view_of(authority)),
{
    not_burned(&request.escrow)?;
    if request.account.key != direction.named_account(&request.escrow) || request.account.owner
        != request.party || request.vault != request.escrow.vault {
        return Err(ErrorCode::AuthorizationError);
    }
    if matches!(direction, Direction::Cancel) && request.party != request.escrow.seller {
        return Err(ErrorCode::AuthorizationError);
    }
    check_signer(authority, &request.signer)?;
    let transfer = Transfer {
        from: request.escrow.vault,
        to: request.account.key,
        authority: request.signer,
        amount: request.escrow.amount,
        seeds: Some(SignerSeeds { key: request.escrow_key, nonce: request.escrow.nonce }),
    };
    let mut record = request.escrow;
    record.burned = true;
    Ok(Pending::new(request.escrow_key, transfer, record))
}

/// Validates a request to cash a check, as [`settle`] does for
/// [`Direction::Cash`], with the address that the program derives from the
/// check's address and the nonce stored on it.
pub fn cash_check(ctx: CashCheck) -> (r: Result<Pending, ErrorCode>)
    ensures
        plan_of(r) == ctx.request().plan(Direction::Cash, ctx.request().authority()),
{
    let authority = derive_authority(&ctx.escrow_key, ctx.escrow.nonce, &ctx.program_id);
    let request = Settlement {
        program_id: ctx.program_id,
        escrow_key: ctx.escrow_key,
        escrow: ctx.escrow,
        vault: ctx.vault,
        signer: ctx.escrow_signer,
        account: ctx.buyer_token,
        party: ctx.buyer,
    };
    settle(request, Direction::Cash, authority)
}

/// Validates a request to cancel a check, as [`settle`] does for
/// [`Direction::Cancel`], with the address that the program derives from the
/// check's address and the nonce stored on it.
pub fn cancel_check(ctx: CancelCheck) -> (r: Result<Pending, ErrorCode>)
    ensures
        plan_of(r) == ctx.request().plan(Direction::Cancel, ctx.request().authority()),
{
    let authority = derive_authority(&ctx.escrow_key, ctx.escrow.nonce, &ctx.program_id);
    let request = Settlement {
        program_id: ctx.program_id,
        escrow_key: ctx.escrow_key,
        escrow: ctx.escrow,
        vault: ctx.vault,
        signer: ctx.check_signer,
        account: ctx.from,
        party: ctx.owner,
    };
    settle(request, Direction::Cancel, authority)
}

} // verus!
