//! What holds of every check, whatever the request and whatever the books.

use vstd::prelude::*;
use crate::address::Address;
use crate::authority::signer_matches;
use crate::create::CreateEscrow;
use crate::error::ErrorCode;
use crate::escrow::Escrow;
use crate::ledger::{carried_out, Ledger};
use crate::settle::{CancelCheck, CashCheck, Direction, Settlement};

verus! {

/// Writing a check funds its vault. A request to write a check goes through
/// where the amount is positive, the seller's and the buyer's accounts are
/// of one mint, the nonce derives the vault's owner, the seller owns the
/// account drawn on, and the token program lets the amount pass from that
/// account to the vault: the two are presented as the books have them, are
/// of one mint, and the account drawn on holds the amount. The check
/// recorded is then not burned, and, the vault being another account than
/// the one drawn on, the vault holds `amount` more and the seller's account
/// `amount` less.
pub proof fn lemma_create_funds_vault(
    ledger: Ledger,
    ctx: CreateEscrow,
    amount: u64,
    nonce: u8,
    memo: Option<String>,
)
    requires
        amount > 0,
        ctx.seller_token.mint == ctx.buyer_token.mint,
        signer_matches(ctx.authority(nonce), ctx.escrow_signer),
        ctx.vault.owner == ctx.escrow_signer,
        ctx.seller_token.owner == ctx.seller,
        ledger.shows(ctx.seller_token),
        ledger.shows(ctx.vault),
        ctx.vault.mint == ctx.seller_token.mint,
        ledger.balance(ctx.seller_token.key) >= amount,
        ctx.seller_token.key != ctx.vault.key,
    ensures
        ({
            let (after, result) = carried_out(
                ledger,
                ctx.plan(amount, nonce, memo, ctx.authority(nonce)),
            );
            &&& result == Ok::<(Address, Escrow), ErrorCode>(
                (ctx.escrow_key, ctx.record(amount, nonce, memo)),
            )
            &&& !ctx.record(amount, nonce, memo).burned
            &&& ctx.record(amount, nonce, memo).wf()
            &&& after.balance(ctx.vault.key) == ledger.balance(ctx.vault.key) + amount
            &&& after.balance(ctx.seller_token.key) == ledger.balance(ctx.seller_token.key)
                - amount
        }),
{
}

/// A check that has just been written is for the amount asked, which is
/// more than nothing, is not burned, and names the accounts it was written
/// with.
pub proof fn lemma_written_check_is_open(
    ctx: CreateEscrow,
    amount: u64,
    nonce: u8,
    memo: Option<String>,
    authority: Option<Seq<u8>>,
)
    requires
        ctx.plan(amount, nonce, memo, authority) is Ok,
    ensures
        ({
            let plan = ctx.plan(amount, nonce, memo, authority)->Ok_0;
            &&& plan.escrow_key == ctx.escrow_key
            &&& plan.record.wf()
            &&& !plan.record.burned
            &&& plan.record.amount == amount
            &&& plan.record.nonce == nonce
            &&& plan.record.memo == memo
            &&& plan.record.vault == ctx.vault.key
            &&& plan.record.seller_token == ctx.seller_token.key
            &&& plan.record.buyer_token == ctx.buyer_token.key
            &&& plan.transfer.amount == amount
        }),
{
}

/// Settling a check burns it and changes nothing else on it. Only a check
/// that is not burned is settled, so a check never goes from burned back to
/// open, and its amount stays what it was written for.
pub proof fn lemma_settling_only_burns(
    request: Settlement,
    direction: Direction,
    authority: Option<Seq<u8>>,
)
    requires
        request.plan(direction, authority) is Ok,
    ensures
        ({
            let plan = request.plan(direction, authority)->Ok_0;
            &&& !request.escrow.burned
            &&& plan.escrow_key == request.escrow_key
            &&& plan.record == (Escrow { burned: true, ..request.escrow })
            &&& plan.record.amount == request.escrow.amount
            &&& request.escrow.wf() ==> plan.record.wf()
        }),
{
}

/// A check is settled once. Where one request to cash or cancel a check has
/// gone through, any later request on the record it left, either way and by
/// whomever, is refused as already settled and moves nothing.
pub proof fn lemma_settles_once(
    ledger: Ledger,
    first: Settlement,
    first_direction: Direction,
    first_authority: Option<Seq<u8>>,
    second: Settlement,
    second_direction: Direction,
    second_authority: Option<Seq<u8>>,
)
    requires
        carried_out(ledger, first.plan(first_direction, first_authority)).1 == Ok::<
            (Address, Escrow),
            ErrorCode,
        >((second.escrow_key, second.escrow)),
    ensures
        second.escrow.burned,
        ({
            let after = carried_out(ledger, first.plan(first_direction, first_authority)).0;
            carried_out(after, second.plan(second_direction, second_authority)) == (
                after,
                Err::<(Address, Escrow), ErrorCode>(ErrorCode::AlreadySettledError),
            )
        }),
{
}

/// Only the buyer cashes a check. Where the check is not burned, the
/// account to be paid is presented as the books have it, and the caller
/// does not own the buyer's account that the check names, the request is
/// refused as unauthorized and moves nothing.
pub proof fn lemma_cash_needs_buyer(ledger: Ledger, ctx: CashCheck, authority: Option<Seq<u8>>)
    requires
        !ctx.escrow.burned,
        ledger.shows(ctx.buyer_token),
        ledger.holdings[ctx.escrow.buyer_token].owner != ctx.buyer,
    ensures
        carried_out(ledger, ctx.request().plan(Direction::Cash, authority)) == (
            ledger,
            Err::<(Address, Escrow), ErrorCode>(ErrorCode::AuthorizationError),
        ),
{
}

/// Only the seller cancels a check. Where the check is not burned and the
/// caller is not the seller who wrote it, or, the account to be paid back
/// being presented as the books have it, does not own the seller's account
/// that the check names, the request is refused as unauthorized and moves
/// nothing.
pub proof fn lemma_cancel_needs_seller(
    ledger: Ledger,
    ctx: CancelCheck,
    authority: Option<Seq<u8>>,
)
    requires
        !ctx.escrow.burned,
        ctx.owner != ctx.escrow.seller || (ledger.shows(ctx.from)
            && ledger.holdings[ctx.escrow.seller_token].owner != ctx.owner),
    ensures
        carried_out(ledger, ctx.request().plan(Direction::Cancel, authority)) == (
            ledger,
            Err::<(Address, Escrow), ErrorCode>(ErrorCode::AuthorizationError),
        ),
{
}

/// Cancelling undoes writing. Where a check has been written and funded,
/// with its vault presented as the books have it, the seller's request to
/// cancel it, made with the accounts the check was written with, goes
/// through, burns the check, and leaves every account holding what it held
/// before the check was written.
pub proof fn lemma_cancel_undoes_create(
    ledger: Ledger,
    ctx: CreateEscrow,
    amount: u64,
    nonce: u8,
    memo: Option<String>,
    cancel: CancelCheck,
)
    requires
        ledger.shows(ctx.vault),
        carried_out(ledger, ctx.plan(amount, nonce, memo, ctx.authority(nonce))).1 == Ok::<
            (Address, Escrow),
            ErrorCode,
        >((cancel.escrow_key, cancel.escrow)),
        cancel.program_id == ctx.program_id,
        cancel.vault == ctx.vault.key,
        cancel.check_signer == ctx.escrow_signer,
        cancel.from == ctx.seller_token,
        cancel.owner == ctx.seller,
    ensures
        ({
            let funded = carried_out(
                ledger,
                ctx.plan(amount, nonce, memo, ctx.authority(nonce)),
            ).0;
            let (after, result) = carried_out(
                funded,
                cancel.request().plan(Direction::Cancel, cancel.request().authority()),
            );
            &&& result == Ok::<(Address, Escrow), ErrorCode>(
                (cancel.escrow_key, cancel.escrow.settled()),
            )
            &&& cancel.escrow.settled().burned
            &&& forall|account: Address| after.holdings[account] == ledger.holdings[account]
        }),
{
}

/// Cashing pays the buyer. Where a check has been written and funded, with
/// three different accounts presented as the books have them, the request
/// of the buyer named on it, made with the accounts the check was written
/// with, goes through, burns the check, and moves its amount on from the
/// vault into the buyer's account: the vault holds again what it held
/// before the check was written, the seller's account the amount less and
/// the buyer's account the amount more.
pub proof fn lemma_cash_pays_buyer(
    ledger: Ledger,
    ctx: CreateEscrow,
    amount: u64,
    nonce: u8,
    memo: Option<String>,
    cash: CashCheck,
)
    requires
        ledger.shows(ctx.vault),
        ledger.shows(ctx.seller_token),
        ledger.shows(ctx.buyer_token),
        ctx.vault.key != ctx.seller_token.key,
        ctx.vault.key != ctx.buyer_token.key,
        ctx.seller_token.key != ctx.buyer_token.key,
        carried_out(ledger, ctx.plan(amount, nonce, memo, ctx.authority(nonce))).1 == Ok::<
            (Address, Escrow),
            ErrorCode,
        >((cash.escrow_key, cash.escrow)),
        cash.program_id == ctx.program_id,
        cash.vault == ctx.vault.key,
        cash.escrow_signer == ctx.escrow_signer,
        cash.buyer_token == ctx.buyer_token,
        cash.buyer == ctx.buyer_token.owner,
    ensures
        ({
            let funded = carried_out(
                ledger,
                ctx.plan(amount, nonce, memo, ctx.authority(nonce)),
            ).0;
            let (after, result) = carried_out(
                funded,
                cash.request().plan(Direction::Cash, cash.request().authority()),
            );
            &&& result == Ok::<(Address, Escrow), ErrorCode>(
                (cash.escrow_key, cash.escrow.settled()),
            )
            &&& cash.escrow.settled().burned
            &&& after.balance(ctx.buyer_token.key) == ledger.balance(ctx.buyer_token.key)
                + amount
            &&& after.balance(ctx.seller_token.key) == ledger.balance(ctx.seller_token.key)
                - amount
            &&& after.balance(ctx.vault.key) == ledger.balance(ctx.vault.key)
        }),
{
}

/// A check for a positive amount between accounts of different mints is
/// refused as such, and nothing moves.
pub proof fn lemma_mint_mismatch_refused(
    ledger: Ledger,
    ctx: CreateEscrow,
    amount: u64,
    nonce: u8,
    memo: Option<String>,
    authority: Option<Seq<u8>>,
)
    requires
        amount > 0,
        ctx.seller_token.mint != ctx.buyer_token.mint,
    ensures
        carried_out(ledger, ctx.plan(amount, nonce, memo, authority)) == (
            ledger,
            Err::<(Address, Escrow), ErrorCode>(ErrorCode::AssetMismatchError),
        ),
{
}

/// A check for a positive amount between accounts of one mint, written with
/// a nonce that derives another address than the vault's owner, or none, is
/// refused for its derivation, and nothing moves.
pub proof fn lemma_wrong_nonce_refused(
    ledger: Ledger,
    ctx: CreateEscrow,
    amount: u64,
    nonce: u8,
    memo: Option<String>,
)
    requires
        amount > 0,
        ctx.seller_token.mint == ctx.buyer_token.mint,
        !signer_matches(ctx.authority(nonce), ctx.vault.owner),
    ensures
        carried_out(ledger, ctx.plan(amount, nonce, memo, ctx.authority(nonce))) == (
            ledger,
            Err::<(Address, Escrow), ErrorCode>(ErrorCode::InvalidAuthorityDerivation),
        ),
{
}

/// No one but the program signs for a vault. The transfer of an accepted
/// request to settle is made in the name of the address that the check's
/// own address and nonce derive, and carries these as its seeds.
pub proof fn lemma_payout_signed_by_program(request: Settlement, direction: Direction)
    requires
        request.plan(direction, request.authority()) is Ok,
    ensures
        ({
            let transfer = request.plan(direction, request.authority())->Ok_0.transfer;
            &&& request.authority() == Some(transfer.authority@)
            &&& transfer.seeds matches Some(seeds)
            &&& seeds.key == request.escrow_key
            &&& seeds.nonce == request.escrow.nonce
            &&& transfer.from == request.escrow.vault
            &&& transfer.amount == request.escrow.amount
        }),
{
}

} // verus!
