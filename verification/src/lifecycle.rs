//! The life of a check, over any run of requests.
//!
//! A check is written once, into a slot that held none, and is settled at
//! most once. This module follows the stored checks and the books through
//! whole runs of requests and proves it.

use vstd::prelude::*;
use crate::address::Address;
use crate::create::CreateEscrow;
use crate::error::ErrorCode;
use crate::escrow::Escrow;
use crate::ledger::{carried_out, Ledger};
use crate::pending::Plan;
use crate::settle::{Direction, Settlement};

verus! {

/// What requests act on: the token program's books and the checks stored.
pub struct World {
    pub ledger: Ledger,
    /// The check in each slot that holds one.
    pub checks: Map<Address, Escrow>,
}

/// A request as it reaches the program.
pub enum Request {
    /// Write a check for `amount` into the slot at `ctx.escrow_key`.
    Create { ctx: CreateEscrow, amount: u64, nonce: u8, memo: Option<String> },
    /// Settle the check stored at `accounts.escrow_key`. The check itself is
    /// read from its slot, whatever `accounts.escrow` says.
    Settle { direction: Direction, accounts: Settlement },
}

impl Request {
    /// Whether this is a request to settle the check at `key`.
    pub open spec fn settles(self, key: Address) -> bool {
        self matches Request::Settle { accounts, .. } && accounts.escrow_key == key
    }
}

impl World {
    /// What `request` comes to before anything is carried out, or `None`
    /// where it is turned away at the slot: a check can be written only
    /// into a slot that holds none, and settled only where one is stored.
    pub open spec fn plan(self, request: Request) -> Option<Result<Plan, ErrorCode>> {
        match request {
            Request::Create { ctx, amount, nonce, memo } => {
                if self.checks.dom().contains(ctx.escrow_key) {
                    None
                } else {
                    Some(ctx.plan(amount, nonce, memo, ctx.authority(nonce)))
                }
            },
            Request::Settle { direction, accounts } => {
                if self.checks.dom().contains(accounts.escrow_key) {
                    let loaded = Settlement { escrow: self.checks[accounts.escrow_key], ..accounts };
                    Some(loaded.plan(direction, loaded.authority()))
                } else {
                    None
                }
            },
        }
    }

    /// Whether `request` goes through: it is accepted and its transfer is
    /// made.
    pub open spec fn succeeds(self, request: Request) -> bool {
        self.plan(request) matches Some(plan) && carried_out(self.ledger, plan).1 is Ok
    }

    /// The world after `request` has been dealt with. A request that goes
    /// through leaves the books as its transfer made them and its record in
    /// its slot; any other leaves the world as it was.
    pub open spec fn step(self, request: Request) -> World {
        match self.plan(request) {
            None => self,
            Some(plan) => {
                let (ledger, result) = carried_out(self.ledger, plan);
                match result {
                    Ok((key, record)) => World { ledger, checks: self.checks.insert(key, record) },
                    Err(_) => self,
                }
            },
        }
    }

    /// The world after the requests of `run` have been dealt with in turn.
    pub open spec fn after(self, run: Seq<Request>) -> World
        decreases run.len(),
    {
        if run.len() == 0 {
            self
        } else {
            self.step(run[0]).after(run.drop_first())
        }
    }

    /// How many requests of `run` to settle the check at `key` go through.
    pub open spec fn settlements(self, run: Seq<Request>, key: Address) -> nat
        decreases run.len(),
    {
        if run.len() == 0 {
            0
        } else {
            let rest = self.step(run[0]).settlements(run.drop_first(), key);
            if run[0].settles(key) && self.succeeds(run[0]) {
                rest + 1
            } else {
                rest
            }
        }
    }
}

/// A request that does not go through changes nothing: not the books, not
/// a check.
pub proof fn lemma_failed_request_changes_nothing(world: World, request: Request)
    requires
        !world.succeeds(request),
    ensures
        world.step(request) == world,
{
}

/// One request does to a stored check one of two things: nothing, or,
/// where it is a request to settle that check and goes through, it burns
/// the check, which was not burned, and changes nothing else on it.
pub proof fn lemma_step_only_burns(world: World, request: Request, key: Address)
    requires
        world.checks.dom().contains(key),
    ensures
        world.step(request).checks.dom().contains(key),
        request.settles(key) && world.succeeds(request) ==> {
            &&& !world.checks[key].burned
            &&& world.step(request).checks[key] == world.checks[key].settled()
        },
        !(request.settles(key) && world.succeeds(request)) ==> world.step(request).checks[key]
            == world.checks[key],
{
}

/// Over any run of requests a stored check stays what it is or is burned:
/// its amount, its accounts and its nonce never change, and a burned check
/// is never open again.
pub proof fn lemma_run_only_burns(world: World, run: Seq<Request>, key: Address)
    requires
        world.checks.dom().contains(key),
    ensures
        world.after(run).checks.dom().contains(key),
        world.after(run).checks[key] == world.checks[key] || (!world.checks[key].burned
            && world.after(run).checks[key] == world.checks[key].settled()),
        world.checks[key].burned ==> world.after(run).checks[key] == world.checks[key],
    decreases run.len(),
{
    if run.len() > 0 {
        lemma_step_only_burns(world, run[0], key);
        lemma_run_only_burns(world.step(run[0]), run.drop_first(), key);
    }
}

/// Over any run of requests at most one request to settle a given check
/// goes through, whether to cash or to cancel it, and none does once the
/// check is burned.
pub proof fn lemma_settled_at_most_once(world: World, run: Seq<Request>, key: Address)
    requires
        world.checks.dom().contains(key),
    ensures
        world.settlements(run, key) <= 1,
        world.checks[key].burned ==> world.settlements(run, key) == 0,
        world.settlements(run, key) == 1 ==> world.after(run).checks[key].burned,
    decreases run.len(),
{
    if run.len() > 0 {
        lemma_step_only_burns(world, run[0], key);
        lemma_settled_at_most_once(world.step(run[0]), run.drop_first(), key);
        lemma_run_only_burns(world.step(run[0]), run.drop_first(), key);
    }
}

} // verus!
