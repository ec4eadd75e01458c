//! The errors that ledger operations report.

use vstd::prelude::*;

verus! {

/// The class an error falls into.
#[derive(Debug, Clone, Copy, PartialEq, Eq, Structural)]
pub enum ErrorKind {
    /// An argument is not acceptable whatever the state of the ledger.
    Validation,
    /// The asset that the operation names does not exist.
    NotFound,
    /// The caller lacks the role that the operation asks for.
    Authorization,
    /// The state of the ledger does not allow the operation.
    State,
    /// The funds-transfer service could not be used or refused the transfer.
    External,
}

/// Why an operation did not take place.
#[derive(Debug, PartialEq, Eq)]
pub enum LedgerError {
    /// The title is blank.
    EmptyTitle,
    /// The description is blank.
    EmptyDescription,
    /// The price of a new asset is zero.
    ZeroPrice,
    /// The resale price is zero.
    ZeroResalePrice,
    /// The amount to top up is zero.
    ZeroAmount,
    /// No asset has the given identifier.
    AssetNotFound,
    /// The caller does not own the asset.
    NotOwner,
    /// The caller did not create the asset.
    NotCreator,
    /// The asset has been deactivated.
    InactiveAsset,
    /// The caller already owns the asset offered for purchase.
    SelfPurchase,
    /// The asset would be transferred to the caller.
    SelfTransfer,
    /// The buyer's balance is below the price.
    InsufficientBalance,
    /// An account cannot hold the sum that would be credited to it.
    AccountOverflow,
    /// Every identifier has been issued.
    IdentifiersExhausted,
    /// The address of the funds-transfer service could not be read.
    ServiceAddress,
    /// The funds-transfer service failed or refused the transfer.
    TransferFailed { detail: String },
}

impl Clone for LedgerError {
    fn clone(&self) -> (copy: Self)
        ensures
            copy == *self,
    {
        match self {
            LedgerError::EmptyTitle => LedgerError::EmptyTitle,
            LedgerError::EmptyDescription => LedgerError::EmptyDescription,
            LedgerError::ZeroPrice => LedgerError::ZeroPrice,
            LedgerError::ZeroResalePrice => LedgerError::ZeroResalePrice,
            LedgerError::ZeroAmount => LedgerError::ZeroAmount,
            LedgerError::AssetNotFound => LedgerError::AssetNotFound,
            LedgerError::NotOwner => LedgerError::NotOwner,
            LedgerError::NotCreator => LedgerError::NotCreator,
            LedgerError::InactiveAsset => LedgerError::InactiveAsset,
            LedgerError::SelfPurchase => LedgerError::SelfPurchase,
            LedgerError::SelfTransfer => LedgerError::SelfTransfer,
            LedgerError::InsufficientBalance => LedgerError::InsufficientBalance,
            LedgerError::AccountOverflow => LedgerError::AccountOverflow,
            LedgerError::IdentifiersExhausted => LedgerError::IdentifiersExhausted,
            LedgerError::ServiceAddress => LedgerError::ServiceAddress,
            LedgerError::TransferFailed { detail } => LedgerError::TransferFailed {
                detail: detail.clone(),
            },
        }
    }
}

impl LedgerError {
    /// The class of the error.
    pub open spec fn kind_of(self) -> ErrorKind {
        match self {
            LedgerError::EmptyTitle
            | LedgerError::EmptyDescription
            | LedgerError::ZeroPrice
            | LedgerError::ZeroResalePrice
            | LedgerError::ZeroAmount => ErrorKind::Validation,
            LedgerError::AssetNotFound => ErrorKind::NotFound,
            LedgerError::NotOwner | LedgerError::NotCreator => ErrorKind::Authorization,
            LedgerError::InactiveAsset
            | LedgerError::SelfPurchase
            | LedgerError::SelfTransfer
            | LedgerError::InsufficientBalance
            | LedgerError::AccountOverflow
            | LedgerError::IdentifiersExhausted => ErrorKind::State,
            LedgerError::ServiceAddress | LedgerError::TransferFailed { .. } => ErrorKind::External,
        }
    }

    /// The text that describes the error.
    pub open spec fn message_of(self) -> Seq<char> {
        match self {
            LedgerError::EmptyTitle => "Title cannot be empty"@,
            LedgerError::EmptyDescription => "Description cannot be empty"@,
            LedgerError::ZeroPrice => "Price must be greater than zero"@,
            LedgerError::ZeroResalePrice => "Resale price must be greater than zero"@,
            LedgerError::ZeroAmount => "Amount must be greater than zero"@,
            LedgerError::AssetNotFound => "Asset not found"@,
            LedgerError::NotOwner => "Only the current owner can do this"@,
            LedgerError::NotCreator => "Only the creator can deactivate the asset"@,
            LedgerError::InactiveAsset => "Asset is not active"@,
            LedgerError::SelfPurchase => "Cannot purchase your own asset"@,
            LedgerError::SelfTransfer => "New owner must be different from the current owner"@,
            LedgerError::InsufficientBalance => "Insufficient balance"@,
            LedgerError::AccountOverflow => "Account cannot hold the credited amount"@,
            LedgerError::IdentifiersExhausted => "No asset identifier is left"@,
            LedgerError::ServiceAddress => "Funds-transfer service address is malformed"@,
            LedgerError::TransferFailed { detail } => "Failed to add balance: "@ + detail@,
        }
    }

    /// The class of the error.
    pub fn kind(&self) -> (kind: ErrorKind)
        ensures
            kind == self.kind_of(),
    {
        match self {
            LedgerError::EmptyTitle
            | LedgerError::EmptyDescription
            | LedgerError::ZeroPrice
            | LedgerError::ZeroResalePrice
            | LedgerError::ZeroAmount => ErrorKind::Validation,
            LedgerError::AssetNotFound => ErrorKind::NotFound,
            LedgerError::NotOwner | LedgerError::NotCreator => ErrorKind::Authorization,
            LedgerError::InactiveAsset
            | LedgerError::SelfPurchase
            | LedgerError::SelfTransfer
            | LedgerError::InsufficientBalance
            | LedgerError::AccountOverflow
            | LedgerError::IdentifiersExhausted => ErrorKind::State,
            LedgerError::ServiceAddress | LedgerError::TransferFailed { .. } => ErrorKind::External,
        }
    }

    /// A description of the error for the caller.
    pub fn message(&self) -> (text: String)
        ensures
            text@ == self.message_of(),
    {
        match self {
            LedgerError::EmptyTitle => String::from_str("Title cannot be empty"),
            LedgerError::EmptyDescription => String::from_str("Description cannot be empty"),
            LedgerError::ZeroPrice => String::from_str("Price must be greater than zero"),
            LedgerError::ZeroResalePrice => String::from_str(
                "Resale price must be greater than zero",
            ),
            LedgerError::ZeroAmount => String::from_str("Amount must be greater than zero"),
            LedgerError::AssetNotFound => String::from_str("Asset not found"),
            LedgerError::NotOwner => String::from_str("Only the current owner can do this"),
            LedgerError::NotCreator => String::from_str(
                "Only the creator can deactivate the asset",
            ),
            LedgerError::InactiveAsset => String::from_str("Asset is not active"),
            LedgerError::SelfPurchase => String::from_str("Cannot purchase your own asset"),
            LedgerError::SelfTransfer => String::from_str(
                "New owner must be different from the current owner",
            ),
            LedgerError::InsufficientBalance => String::from_str("Insufficient balance"),
            LedgerError::AccountOverflow => String::from_str(
                "Account cannot hold the credited amount",
            ),
            LedgerError::IdentifiersExhausted => String::from_str("No asset identifier is left"),
            LedgerError::ServiceAddress => String::from_str(
                "Funds-transfer service address is malformed",
            ),
            LedgerError::TransferFailed { detail } => String::from_str(
                "Failed to add balance: ",
            ).concat(detail.as_str()),
        }
    }
}

} // verus!
