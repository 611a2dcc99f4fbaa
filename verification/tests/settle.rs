use escrowdemo::{
    cancel_check, cash_check, not_burned, settle, Address, CancelCheck, CashCheck, Direction,
    ErrorCode, Escrow, Settlement, SignerSeeds, TokenAccount, Transfer, TransferError,
};

const PROGRAM: [u8; 32] = [11; 32];
const CHECK: [u8; 32] = [1; 32];
const NONCE: u8 = 252;
const SIGNER: [u8; 32] = [
    158, 184, 105, 246, 149, 140, 15, 196, 13, 52, 28, 12, 15, 29, 83, 243, 19, 41, 37, 75, 33, 51,
    166, 188, 162, 24, 51, 5, 199, 23, 37, 177,
];
const VAULT: [u8; 32] = [2; 32];
const MINT: [u8; 32] = [3; 32];
const SELLER_TOKEN: [u8; 32] = [4; 32];
const SELLER: [u8; 32] = [5; 32];
const BUYER_TOKEN: [u8; 32] = [6; 32];
const BUYER: [u8; 32] = [7; 32];
const OTHER: [u8; 32] = [8; 32];

fn address(bytes: [u8; 32]) -> Address {
    Address { bytes }
}

fn check(burned: bool) -> Escrow {
    Escrow {
        seller: address(SELLER),
        seller_token: address(SELLER_TOKEN),
        buyer_token: address(BUYER_TOKEN),
        amount: 1000,
        vault: address(VAULT),
        nonce: NONCE,
        burned,
        memo: Some(String::from("invoice 17")),
    }
}

fn cash(escrow: Escrow) -> CashCheck {
    CashCheck {
        program_id: address(PROGRAM),
        escrow_key: address(CHECK),
        escrow,
        vault: address(VAULT),
        escrow_signer: address(SIGNER),
        buyer_token: TokenAccount {
            key: address(BUYER_TOKEN),
            mint: address(MINT),
            owner: address(BUYER),
        },
        buyer: address(BUYER),
    }
}

fn cancel(escrow: Escrow) -> CancelCheck {
    CancelCheck {
        program_id: address(PROGRAM),
        escrow_key: address(CHECK),
        escrow,
        vault: address(VAULT),
        check_signer: address(SIGNER),
        from: TokenAccount {
            key: address(SELLER_TOKEN),
            mint: address(MINT),
            owner: address(SELLER),
        },
        owner: address(SELLER),
    }
}

fn payout(to: [u8; 32]) -> Transfer {
    Transfer {
        from: address(VAULT),
        to: address(to),
        authority: address(SIGNER),
        amount: 1000,
        seeds: Some(SignerSeeds { key: address(CHECK), nonce: NONCE }),
    }
}

#[test]
fn not_burned_accepts_an_open_check() {
    assert_eq!(not_burned(&check(false)), Ok(()));
}

#[test]
fn not_burned_rejects_a_burned_check() {
    assert_eq!(not_burned(&check(true)), Err(ErrorCode::AlreadySettledError));
}

#[test]
fn cash_check_pays_the_buyer_out_of_the_vault() {
    let pending = cash_check(cash(check(false))).unwrap();
    assert_eq!(pending.transfer(), payout(BUYER_TOKEN));
}

#[test]
fn cash_check_burns_the_check_and_nothing_else() {
    let pending = cash_check(cash(check(false))).unwrap();
    let (key, escrow) = pending.complete(Ok(())).unwrap();
    assert_eq!(key, address(CHECK));
    assert_eq!(escrow, check(true));
}

#[test]
fn cancel_check_pays_the_seller_out_of_the_vault() {
    let pending = cancel_check(cancel(check(false))).unwrap();
    assert_eq!(pending.transfer(), payout(SELLER_TOKEN));
}

#[test]
fn cancel_check_burns_the_check_and_nothing_else() {
    let pending = cancel_check(cancel(check(false))).unwrap();
    assert_eq!(pending.complete(Ok(())), Ok((address(CHECK), check(true))));
}

#[test]
fn a_failed_payout_leaves_nothing_to_store() {
    let pending = cash_check(cash(check(false))).unwrap();
    assert_eq!(
        pending.complete(Err(TransferError::InsufficientFunds)),
        Err(ErrorCode::TransferFailed(TransferError::InsufficientFunds))
    );
    let pending = cancel_check(cancel(check(false))).unwrap();
    assert_eq!(
        pending.complete(Err(TransferError::Unauthorized)),
        Err(ErrorCode::TransferFailed(TransferError::Unauthorized))
    );
}

#[test]
fn cash_check_rejects_a_burned_check() {
    assert_eq!(cash_check(cash(check(true))), Err(ErrorCode::AlreadySettledError));
}

#[test]
fn cancel_check_rejects_a_burned_check() {
    assert_eq!(cancel_check(cancel(check(true))), Err(ErrorCode::AlreadySettledError));
}

#[test]
fn a_cashed_check_cannot_be_cashed_or_cancelled() {
    let (_, cashed) = cash_check(cash(check(false))).unwrap().complete(Ok(())).unwrap();
    assert_eq!(cash_check(cash(cashed.clone())), Err(ErrorCode::AlreadySettledError));
    assert_eq!(cancel_check(cancel(cashed)), Err(ErrorCode::AlreadySettledError));
}

#[test]
fn a_cancelled_check_cannot_be_cashed_or_cancelled() {
    let (_, cancelled) = cancel_check(cancel(check(false))).unwrap().complete(Ok(())).unwrap();
    assert_eq!(cash_check(cash(cancelled.clone())), Err(ErrorCode::AlreadySettledError));
    assert_eq!(cancel_check(cancel(cancelled)), Err(ErrorCode::AlreadySettledError));
}

#[test]
fn a_burned_check_is_refused_as_settled_whoever_asks() {
    let mut accounts = cash(check(true));
    accounts.buyer = address(OTHER);
    accounts.escrow_signer = address(OTHER);
    accounts.vault = address(OTHER);
    assert_eq!(cash_check(accounts), Err(ErrorCode::AlreadySettledError));
}

#[test]
fn cash_check_rejects_a_caller_who_is_not_the_buyer() {
    let mut accounts = cash(check(false));
    accounts.buyer = address(SELLER);
    assert_eq!(cash_check(accounts), Err(ErrorCode::AuthorizationError));
}

#[test]
fn cash_check_rejects_an_account_the_check_does_not_name() {
    let mut accounts = cash(check(false));
    accounts.buyer_token =
        TokenAccount { key: address(OTHER), mint: address(MINT), owner: address(OTHER) };
    accounts.buyer = address(OTHER);
    assert_eq!(cash_check(accounts), Err(ErrorCode::AuthorizationError));
}

#[test]
fn cash_check_rejects_the_seller_account() {
    let mut accounts = cash(check(false));
    accounts.buyer_token =
        TokenAccount { key: address(SELLER_TOKEN), mint: address(MINT), owner: address(SELLER) };
    accounts.buyer = address(SELLER);
    assert_eq!(cash_check(accounts), Err(ErrorCode::AuthorizationError));
}

#[test]
fn cancel_check_rejects_a_caller_who_is_not_the_seller() {
    let mut accounts = cancel(check(false));
    accounts.owner = address(BUYER);
    assert_eq!(cancel_check(accounts), Err(ErrorCode::AuthorizationError));
}

#[test]
fn cancel_check_rejects_a_new_owner_of_the_seller_account() {
    let mut accounts = cancel(check(false));
    accounts.from.owner = address(OTHER);
    accounts.owner = address(OTHER);
    assert_eq!(cancel_check(accounts), Err(ErrorCode::AuthorizationError));
}

#[test]
fn cancel_check_rejects_the_seller_who_no_longer_owns_the_account() {
    let mut accounts = cancel(check(false));
    accounts.from.owner = address(OTHER);
    assert_eq!(cancel_check(accounts), Err(ErrorCode::AuthorizationError));
}

#[test]
fn cancel_check_goes_by_the_seller_on_the_check() {
    let mut escrow = check(false);
    escrow.seller = address(OTHER);
    assert_eq!(cancel_check(cancel(escrow.clone())), Err(ErrorCode::AuthorizationError));
    let mut accounts = cancel(escrow.clone());
    accounts.from.owner = address(OTHER);
    accounts.owner = address(OTHER);
    escrow.burned = true;
    assert_eq!(cancel_check(accounts).unwrap().complete(Ok(())), Ok((address(CHECK), escrow)));
}

#[test]
fn cash_check_does_not_ask_who_the_seller_is() {
    let mut escrow = check(false);
    escrow.seller = address(OTHER);
    let pending = cash_check(cash(escrow)).unwrap();
    assert_eq!(pending.transfer(), payout(BUYER_TOKEN));
}

#[test]
fn cancel_check_rejects_an_account_the_check_does_not_name() {
    let mut accounts = cancel(check(false));
    accounts.from =
        TokenAccount { key: address(BUYER_TOKEN), mint: address(MINT), owner: address(BUYER) };
    accounts.owner = address(BUYER);
    assert_eq!(cancel_check(accounts), Err(ErrorCode::AuthorizationError));
}

#[test]
fn settling_rejects_another_vault() {
    let mut accounts = cash(check(false));
    accounts.vault = address(OTHER);
    assert_eq!(cash_check(accounts), Err(ErrorCode::AuthorizationError));
    let mut accounts = cancel(check(false));
    accounts.vault = address(OTHER);
    assert_eq!(cancel_check(accounts), Err(ErrorCode::AuthorizationError));
}

#[test]
fn settling_rejects_a_signer_that_is_not_derived() {
    let mut accounts = cash(check(false));
    accounts.escrow_signer = address(OTHER);
    assert_eq!(cash_check(accounts), Err(ErrorCode::InvalidAuthorityDerivation));
    let mut accounts = cancel(check(false));
    accounts.check_signer = address(OTHER);
    assert_eq!(cancel_check(accounts), Err(ErrorCode::InvalidAuthorityDerivation));
}

#[test]
fn settling_derives_the_signer_from_the_stored_nonce() {
    let mut escrow = check(false);
    escrow.nonce = 251;
    assert_eq!(cash_check(cash(escrow.clone())), Err(ErrorCode::InvalidAuthorityDerivation));
    escrow.nonce = 255;
    assert_eq!(cancel_check(cancel(escrow)), Err(ErrorCode::InvalidAuthorityDerivation));
}

#[test]
fn settling_derives_the_signer_from_the_address_of_the_check() {
    let mut accounts = cash(check(false));
    accounts.escrow_key = address(OTHER);
    assert_eq!(cash_check(accounts), Err(ErrorCode::InvalidAuthorityDerivation));
    let mut accounts = cash(check(false));
    accounts.program_id = address(OTHER);
    assert_eq!(cash_check(accounts), Err(ErrorCode::InvalidAuthorityDerivation));
}

#[test]
fn settling_reports_the_first_rule_broken() {
    let mut accounts = cash(check(false));
    accounts.escrow_signer = address(OTHER);
    accounts.buyer = address(OTHER);
    assert_eq!(cash_check(accounts.clone()), Err(ErrorCode::AuthorizationError));
    accounts.escrow.burned = true;
    assert_eq!(cash_check(accounts), Err(ErrorCode::AlreadySettledError));
}

fn request(escrow: Escrow, account: [u8; 32], party: [u8; 32]) -> Settlement {
    Settlement {
        program_id: address(PROGRAM),
        escrow_key: address(CHECK),
        escrow,
        vault: address(VAULT),
        signer: address(OTHER),
        account: TokenAccount { key: address(account), mint: address(MINT), owner: address(party) },
        party: address(party),
    }
}

#[test]
fn settle_pays_the_account_named_for_the_direction() {
    let signer = Some(address(OTHER));
    let mut expected = payout(BUYER_TOKEN);
    expected.authority = address(OTHER);
    let pending = settle(request(check(false), BUYER_TOKEN, BUYER), Direction::Cash, signer);
    assert_eq!(pending.unwrap().transfer(), expected);
    expected.to = address(SELLER_TOKEN);
    let pending = settle(request(check(false), SELLER_TOKEN, SELLER), Direction::Cancel, signer);
    assert_eq!(pending.unwrap().transfer(), expected);
}

#[test]
fn settle_rejects_the_account_named_for_the_other_direction() {
    let signer = Some(address(OTHER));
    assert_eq!(
        settle(request(check(false), BUYER_TOKEN, BUYER), Direction::Cancel, signer),
        Err(ErrorCode::AuthorizationError)
    );
    assert_eq!(
        settle(request(check(false), SELLER_TOKEN, SELLER), Direction::Cash, signer),
        Err(ErrorCode::AuthorizationError)
    );
}

#[test]
fn settle_rejects_a_signer_other_than_the_one_derived() {
    assert_eq!(
        settle(request(check(false), BUYER_TOKEN, BUYER), Direction::Cash, Some(address(SIGNER))),
        Err(ErrorCode::InvalidAuthorityDerivation)
    );
    assert_eq!(
        settle(request(check(false), BUYER_TOKEN, BUYER), Direction::Cash, None),
        Err(ErrorCode::InvalidAuthorityDerivation)
    );
}

#[test]
fn settle_rejects_a_burned_check() {
    let signer = Some(address(OTHER));
    assert_eq!(
        settle(request(check(true), BUYER_TOKEN, BUYER), Direction::Cash, signer),
        Err(ErrorCode::AlreadySettledError)
    );
    assert_eq!(
        settle(request(check(true), SELLER_TOKEN, SELLER), Direction::Cancel, signer),
        Err(ErrorCode::AlreadySettledError)
    );
}

#[test]
fn direction_names_the_account_to_pay() {
    assert_eq!(Direction::Cash.named_account(&check(false)), address(BUYER_TOKEN));
    assert_eq!(Direction::Cancel.named_account(&check(false)), address(SELLER_TOKEN));
}
