//! A cashier's check for tokens.
//!
//! A seller locks a fixed amount of tokens in a vault that only an address
//! derived by the program can sign for. The buyer named on the check may cash
//! it once; until then the seller may cancel it and take the tokens back. A
//! check that has been cashed or cancelled is burned and stays so.
//!
//! The library decides and does not move tokens. Each operation validates a
//! request and, where it is in order, returns a [`Pending`] step: the
//! transfer to carry out and the record to store once that transfer has gone
//! through. The caller carries the transfer out and hands the outcome to
//! [`Pending::complete`].
//!
//! [`create`] and [`settle`] hold the operations, [`authority`] the
//! derivation of a vault's signer. [`ledger`] models what the token program
//! does with a transfer; over that model [`laws`] states what each operation
//! comes to, and [`lifecycle`] what holds of a check over any run of
//! requests.

pub mod address;
pub mod authority;
pub mod create;
pub mod error;
pub mod escrow;
pub mod laws;
pub mod ledger;
pub mod lifecycle;
pub mod pending;
pub mod settle;
pub mod token;

pub use address::Address;
pub use authority::{check_signer, derive_authority};
pub use create::{create_escrow, create_escrow_with_authority, CreateEscrow};
pub use error::{ErrorCode, TransferError};
pub use escrow::{not_burned, Escrow};
pub use pending::{Pending, Plan};
pub use settle::{cancel_check, cash_check, settle, CancelCheck, CashCheck, Direction, Settlement};
pub use token::{SignerSeeds, TokenAccount, Transfer};
