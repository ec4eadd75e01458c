//! A marketplace ledger for ownable skill assets.
//!
//! The ledger mints assets, keeps one balance and one royalty account per
//! identity, and moves assets between owners by purchase or by transfer.
//! Every operation is a total function on an explicitly owned [`Ledger`]:
//! it either applies one whole state transition or reports an error and
//! leaves the ledger as it was.
//!
//! [`model`] holds the ledger as a mathematical state and each operation as
//! a function on it. The contracts of [`Ledger`] say that the executable
//! code computes exactly those functions, and [`laws`] proves what follows
//! from them. [`topup`] splits the one operation that waits for a service
//! outside the ledger into the part before the call and the part after it.

pub mod accounts;
pub mod asset;
pub mod error;
pub mod identity;
pub mod laws;
pub mod ledger;
pub mod model;
pub mod snapshot;
pub mod text;
pub mod topup;

pub use accounts::{Account, AccountBook};
pub use asset::{views_of, Asset, AssetView};
pub use error::{ErrorKind, LedgerError};
pub use identity::{Identity, MAX_IDENTITY_BYTES};
pub use ledger::{check_listing, validate_listing, Ledger};
pub use model::{LedgerState, Wanted};
pub use snapshot::Snapshot;
pub use topup::{
    begin_top_up, funding_account, plan_top_up, transfer_service, TopUp, TransferOutcome,
    TransferRequest, TRANSFER_FEE, TRANSFER_MEMO, TRANSFER_METHOD, TRANSFER_SERVICE,
};
