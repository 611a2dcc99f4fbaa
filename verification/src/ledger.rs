//! A model of the token program's books.
//!
//! The library never moves tokens itself. To say what its plans come to,
//! this module states what the token program is taken to do with a
//! transfer, and what carrying out a plan against its books leaves behind.
//! Signatures are not modelled: a transfer is taken to be signed by the
//! authority it names.

use vstd::prelude::*;
use crate::address::Address;
use crate::error::{ErrorCode, TransferError};
use crate::escrow::Escrow;
use crate::pending::{completed, Plan};
use crate::token::{TokenAccount, Transfer};

verus! {

/// What the books say of one token account.
pub struct Holding {
    /// The mint whose tokens the account holds.
    pub mint: Address,
    /// Who may move tokens out of the account.
    pub owner: Address,
    /// How many tokens the account holds.
    pub amount: nat,
}

/// The books: a holding for every address.
pub struct Ledger {
    pub holdings: Map<Address, Holding>,
}

impl Ledger {
    /// How many tokens `account` holds.
    pub open spec fn balance(self, account: Address) -> nat {
        self.holdings[account].amount
    }

    /// Whether `account` was presented as the books have it.
    pub open spec fn shows(self, account: TokenAccount) -> bool {
        &&& self.holdings[account.key].mint == account.mint
        &&& self.holdings[account.key].owner == account.owner
    }

    /// Why the token program refuses `transfer`, if it does.
    pub open spec fn refusal(self, transfer: Transfer) -> Option<TransferError> {
        let from = self.holdings[transfer.from];
        let to = self.holdings[transfer.to];
        if from.mint != to.mint {
            Some(TransferError::AssetMismatch)
        } else if from.owner != transfer.authority {
            Some(TransferError::Unauthorized)
        } else if from.amount < transfer.amount {
            Some(TransferError::InsufficientFunds)
        } else {
            None
        }
    }

    /// The books after `transfer` has gone through: the amount is taken off
    /// the source and then put on the destination.
    pub open spec fn moved(self, transfer: Transfer) -> Ledger {
        let from = self.holdings[transfer.from];
        let debited = self.holdings.insert(
            transfer.from,
            Holding { amount: (from.amount - transfer.amount) as nat, ..from },
        );
        let to = debited[transfer.to];
        Ledger {
            holdings: debited.insert(
                transfer.to,
                Holding { amount: (to.amount + transfer.amount) as nat, ..to },
            ),
        }
    }

    /// The books after `transfer` has been tried, and how it went. A
    /// transfer goes through whole or leaves the books as they were.
    pub open spec fn transfer(self, transfer: Transfer) -> (Ledger, Result<(), TransferError>) {
        match self.refusal(transfer) {
            Some(e) => (self, Err(e)),
            None => (self.moved(transfer), Ok(())),
        }
    }
}

/// The books after a request has been dealt with, and what the caller is
/// told: a refused request moves nothing; an accepted one has its transfer
/// tried and is completed with the outcome.
pub open spec fn carried_out(ledger: Ledger, plan: Result<Plan, ErrorCode>) -> (
    Ledger,
    Result<(Address, Escrow), ErrorCode>,
) {
    match plan {
        Err(e) => (ledger, Err(e)),
        Ok(plan) => {
            let (after, outcome) = ledger.transfer(plan.transfer);
            (after, completed(plan, outcome))
        },
    }
}

} // verus!
