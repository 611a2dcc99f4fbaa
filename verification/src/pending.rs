//! A request that has been accepted and waits for its transfer.

use vstd::prelude::*;
use crate::address::Address;
use crate::error::{ErrorCode, TransferError};
use crate::escrow::Escrow;
use crate::token::Transfer;

verus! {

/// What an accepted request amounts to.
#[derive(Clone, Debug, PartialEq, Eq)]
pub struct Plan {
    /// The address of the check.
    pub escrow_key: Address,
    /// The transfer to carry out.
    pub transfer: Transfer,
    /// The record to store at `escrow_key` if the transfer goes through.
    pub record: Escrow,
}

/// A request that passed validation and whose transfer is still to be made.
///
/// Only the operations of this library make one, so whoever holds one holds
/// a request that was in order. It is used up by [`Pending::complete`]: the
/// record is handed out together with the news that the tokens have moved,
/// or not at all.
#[derive(Debug, PartialEq, Eq)]
pub struct Pending {
    plan: Plan,
}

impl View for Pending {
    type V = Plan;

    closed spec fn view(&self) -> Plan {
        self.plan
    }
}

/// The plan of an accepted request, or the error of a refused one.
pub open spec fn plan_of(r: Result<Pending, ErrorCode>) -> Result<Plan, ErrorCode> {
    match r {
        Ok(pending) => Ok(pending@),
        Err(e) => Err(e),
    }
}

/// What a plan comes to once its transfer has been tried: the check's
/// address and the record to store there, or the transfer's failure.
pub open spec fn completed(plan: Plan, outcome: Result<(), TransferError>) -> Result<(Address, Escrow), ErrorCode> {
    match outcome {
        Ok(_) => Ok((plan.escrow_key, plan.record)),
        Err(e) => Err(ErrorCode::TransferFailed(e)),
    }
}

impl Pending {
    pub(crate) fn new(escrow_key: Address, transfer: Transfer, record: Escrow) -> (p: Pending)
        ensures
            p@ == (Plan { escrow_key, transfer, record }),
    {
        Pending { plan: Plan { escrow_key, transfer, record } }
    }

    /// The transfer to carry out.
    pub fn transfer(&self) -> (t: Transfer)
        ensures
            t == self@.transfer,
    {
        self.plan.transfer
    }

    /// Takes the outcome of the transfer. Where it went through, returns the
    /// check's address and the record to store there; where it failed,
    /// returns the failure, and nothing is to be stored.
    pub fn complete(self, outcome: Result<(), TransferError>) -> (r: Result<(Address, Escrow), ErrorCode>)
        ensures
            r == completed(self@, outcome),
    {
        match outcome {
            Ok(_) => Ok((self.plan.escrow_key, self.plan.record)),
            Err(e) => Err(ErrorCode::TransferFailed(e)),
        }
    }
}

} // verus!
