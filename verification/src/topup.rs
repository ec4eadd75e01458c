//! Balance top-up through the funds-transfer service.
//!
//! A top-up spans a call to a service outside the ledger, during which
//! other operations may run. It is therefore split in two. [`begin_top_up`]
//! decides what to ask of the service and touches no ledger at all. The
//! [`TopUp`] it returns stands for the pending request; with the service's
//! answer it is handed to [`Ledger::settle_top_up`], which credits the caller
//! in one step, on the ledger as it is by then, or reports the failure.

use crate::error::LedgerError;
use crate::identity::{Identity, MAX_IDENTITY_BYTES};
use crate::ledger::Ledger;
use crate::model::LedgerState;
use candid::Principal;
use ic_ledger_types::{AccountIdentifier, Subaccount};
use vstd::prelude::*;

verus! {

/// The address of the funds-transfer service, in text form.
pub const TRANSFER_SERVICE: &'static str = "ryjl3-tyaaa-aaaaa-aaaba-cai";

/// The method of the funds-transfer service that a top-up calls.
pub const TRANSFER_METHOD: &'static str = "icrc1_transfer";

/// The fee that the funds-transfer service takes for a transfer.
pub const TRANSFER_FEE: u64 = 10_000;

/// The memo that a top-up puts on its transfer.
pub const TRANSFER_MEMO: u64 = 0;

/// The bytes of the identity that `candid::Principal::from_text` reads from
/// `text`, or `None` where it rejects the text.
pub uninterp spec fn identity_of_text(text: Seq<char>) -> Option<Seq<u8>>;

/// The account address that `ic_ledger_types::AccountIdentifier::new`
/// derives from the bytes of an owner and of a subaccount.
pub uninterp spec fn account_address_of(owner: Seq<u8>, subaccount: Seq<u8>) -> Seq<u8>;

/// Calls `candid::Principal::from_text`, which decodes the text form of an
/// identity and verifies its checksum. Taken on trust: the result depends on
/// the text alone, it is `None` exactly where the text is rejected, and the
/// bytes decoded are at most [`MAX_IDENTITY_BYTES`].
#[verifier::external_body]
fn identity_bytes_from_text(text: &str) -> (bytes: Option<Vec<u8>>)
    ensures
        match bytes {
            Some(decoded) => identity_of_text(text@) == Some(decoded@) && decoded@.len()
                <= MAX_IDENTITY_BYTES,
            None => identity_of_text(text@) is None,
        },
{
    match Principal::from_text(text) {
        Ok(principal) => Some(principal.as_slice().to_vec()),
        Err(_) => None,
    }
}

/// Calls `ic_ledger_types::AccountIdentifier::new`, which hashes the owner
/// and the subaccount and puts a checksum in front. Taken on trust: the
/// address depends on the bytes of the owner and of the subaccount alone.
/// The owner must not exceed [`MAX_IDENTITY_BYTES`], as
/// `candid::Principal::from_slice` panics on more.
#[verifier::external_body]
fn account_address(owner: &Vec<u8>, subaccount: &[u8; 32]) -> (address: [u8; 32])
    requires
        owner@.len() <= MAX_IDENTITY_BYTES,
    ensures
        address@ == account_address_of(owner@, subaccount@),
{
    *AccountIdentifier::new(&Principal::from_slice(owner.as_slice()), &Subaccount(*subaccount))
        .as_bytes()
}

/// What a top-up asks of the funds-transfer service.
#[derive(Debug, PartialEq, Eq)]
pub struct TransferRequest {
    /// A number that the caller may use to find the transfer again.
    pub memo: u64,
    /// The amount to transfer.
    pub amount: u64,
    /// The fee offered to the service.
    pub fee: u64,
    /// The subaccount to take the funds from; `None` for the default one.
    pub from_subaccount: Option<[u8; 32]>,
    /// The address of the account to transfer to.
    pub to: [u8; 32],
    /// When the request was made; `None` lets the service use its own clock.
    pub created_at_time: Option<u64>,
}

/// The subaccount that a ledger is funded through: all zeros.
pub open spec fn default_subaccount() -> Seq<u8> {
    Seq::new(32, |at: int| 0u8)
}

impl TransferRequest {
    /// Whether this is the request of a top-up by `amount` into the account at `to`.
    pub open spec fn is_top_up(self, amount: u64, to: Seq<u8>) -> bool {
        &&& self.memo == TRANSFER_MEMO
        &&& self.amount == amount
        &&& self.fee == TRANSFER_FEE
        &&& self.from_subaccount is None
        &&& self.to@ == to
        &&& self.created_at_time is None
    }
}

/// A top-up that waits for the answer of the funds-transfer service.
///
/// Making one changes no ledger. It can be settled once: settling takes it.
#[derive(Debug, PartialEq, Eq)]
pub struct TopUp {
    /// Whose balance the top-up is for.
    pub caller: Identity,
    /// The amount to credit once the transfer has settled.
    pub amount: u64,
    /// The service to call.
    pub service: Identity,
    /// What to ask of the service.
    pub request: TransferRequest,
}

impl TopUp {
    /// Whether this is the top-up of `amount` for `caller` that asks
    /// `service` to fund the account at `to`.
    pub open spec fn is_plan(
        self,
        caller: Seq<u8>,
        amount: u64,
        service: Seq<u8>,
        to: Seq<u8>,
    ) -> bool {
        &&& self.caller@ == caller
        &&& self.amount == amount
        &&& self.service@ == service
        &&& self.request.is_top_up(amount, to)
    }
}

/// The answer of the funds-transfer service.
#[derive(Debug, PartialEq, Eq)]
pub enum TransferOutcome {
    /// The transfer settled in the block with this index.
    Settled { block_index: u64 },
    /// The call failed or the service refused the transfer.
    Failed { detail: String },
}

/// The identity that an optional identity stands for.
pub open spec fn identity_in(service: Option<Identity>) -> Option<Seq<u8>> {
    match service {
        Some(identity) => Some(identity@),
        None => None,
    }
}

/// The service that a top-up of `amount` calls, or why there is no
/// top-up: the amount must be positive and the address of the service
/// readable.
pub open spec fn service_to_call(amount: u64, service: Option<Seq<u8>>) -> Result<
    Seq<u8>,
    LedgerError,
> {
    if amount == 0 {
        Err(LedgerError::ZeroAmount)
    } else {
        match service {
            Some(identity) => Ok(identity),
            None => Err(LedgerError::ServiceAddress),
        }
    }
}

/// What settling a top-up of `amount` for `who` makes of `state`, given the
/// answer of the service: the credit on success, no change on failure.
pub open spec fn settlement(
    state: LedgerState,
    who: Seq<u8>,
    amount: u64,
    outcome: TransferOutcome,
) -> Result<LedgerState, LedgerError> {
    match outcome {
        TransferOutcome::Settled { .. } => state.credit(who, amount),
        TransferOutcome::Failed { detail } => Err(LedgerError::TransferFailed { detail }),
    }
}

/// Plans a top-up of `amount` for `caller` from the address of the service,
/// as far as it could be read, and the address of the account to fund.
pub fn plan_top_up(
    caller: &Identity,
    amount: u64,
    service: Option<Identity>,
    to: [u8; 32],
) -> (plan: Result<TopUp, LedgerError>)
    ensures
        match service_to_call(amount, identity_in(service)) {
            Ok(called) => plan matches Ok(pending) && pending.is_plan(caller@, amount, called, to@),
            Err(error) => plan == Err::<TopUp, LedgerError>(error),
        },
{
    if amount == 0 {
        return Err(LedgerError::ZeroAmount);
    }
    match service {
        None => Err(LedgerError::ServiceAddress),
        Some(service) => Ok(
            TopUp {
                caller: caller.clone(),
                amount,
                service,
                request: TransferRequest {
                    memo: TRANSFER_MEMO,
                    amount,
                    fee: TRANSFER_FEE,
                    from_subaccount: None,
                    to,
                    created_at_time: None,
                },
            },
        ),
    }
}

/// The identity of the funds-transfer service, read from [`TRANSFER_SERVICE`].
pub fn transfer_service() -> (service: Option<Identity>)
    ensures
        identity_in(service) == identity_of_text(TRANSFER_SERVICE@),
{
    match identity_bytes_from_text(TRANSFER_SERVICE) {
        Some(bytes) => Identity::new(bytes),
        None => None,
    }
}

/// The address of the account through which the ledger run by `host` is
/// funded: the host's default subaccount.
pub fn funding_account(host: &Identity) -> (address: [u8; 32])
    ensures
        address@ == account_address_of(host@, default_subaccount()),
{
    let subaccount: [u8; 32] = [0u8; 32];
    assert(subaccount@ =~= default_subaccount());
    account_address(host.as_bytes(), &subaccount)
}

/// Begins a top-up of `amount` for `caller` on the ledger that `host` runs:
/// decides what to ask of the funds-transfer service. No ledger is touched.
pub fn begin_top_up(caller: &Identity, host: &Identity, amount: u64) -> (plan: Result<
    TopUp,
    LedgerError,
>)
    ensures
        match service_to_call(amount, identity_of_text(TRANSFER_SERVICE@)) {
            Ok(called) => plan matches Ok(pending) && pending.is_plan(
                caller@,
                amount,
                called,
                account_address_of(host@, default_subaccount()),
            ),
            Err(error) => plan == Err::<TopUp, LedgerError>(error),
        },
{
    if amount == 0 {
        return Err(LedgerError::ZeroAmount);
    }
    plan_top_up(caller, amount, transfer_service(), funding_account(host))
}

impl Ledger {
    /// Settles a pending top-up with the answer of the funds-transfer
    /// service: on success the amount is credited to the caller's balance as
    /// it stands now, on failure nothing changes.
    pub fn settle_top_up(&mut self, pending: TopUp, outcome: TransferOutcome) -> (done: Result<
        (),
        LedgerError,
    >)
        ensures
            match settlement(old(self)@, pending.caller@, pending.amount, outcome) {
                Ok(next) => done is Ok && final(self)@ == next,
                Err(error) => done == Err::<(), LedgerError>(error) && final(self)@ == old(self)@,
            },
    {
        match outcome {
            TransferOutcome::Settled { block_index: _ } => self.credit(
                &pending.caller,
                pending.amount,
            ),
            TransferOutcome::Failed { detail } => Err(LedgerError::TransferFailed { detail }),
        }
    }
}

} // verus!
