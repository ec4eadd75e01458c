use skill_ledger::{
    check_listing, validate_listing, Account, AccountBook, ErrorKind, Identity, LedgerError,
    MAX_IDENTITY_BYTES,
};

#[test]
fn identity_holds_up_to_the_limit() {
    assert_eq!(MAX_IDENTITY_BYTES, 29);
    assert!(Identity::new(Vec::new()).is_some());
    assert!(Identity::new(vec![1; 29]).is_some());
    assert!(Identity::new(vec![1; 30]).is_none());
    let identity = Identity::new(vec![4, 5, 6]).unwrap();
    assert_eq!(identity.as_bytes(), &vec![4, 5, 6]);
}

#[test]
fn identity_same_compares_bytes() {
    let one = Identity::new(vec![4, 5, 6]).unwrap();
    assert!(one.same(&Identity::new(vec![4, 5, 6]).unwrap()));
    assert!(one.same(&one.clone()));
    assert!(!one.same(&Identity::new(vec![4, 5, 7]).unwrap()));
    assert!(!one.same(&Identity::new(vec![4, 5]).unwrap()));
    assert!(!one.same(&Identity::new(vec![4, 5, 6, 0]).unwrap()));
    assert!(Identity::new(Vec::new()).unwrap().same(&Identity::new(Vec::new()).unwrap()));
}

#[test]
fn check_listing_orders_its_verdicts() {
    assert_eq!(check_listing(false, false, 1), Ok(()));
    assert_eq!(check_listing(true, false, 1), Err(LedgerError::EmptyTitle));
    assert_eq!(check_listing(true, true, 0), Err(LedgerError::EmptyTitle));
    assert_eq!(check_listing(false, true, 1), Err(LedgerError::EmptyDescription));
    assert_eq!(check_listing(false, true, 0), Err(LedgerError::EmptyDescription));
    assert_eq!(check_listing(false, false, 0), Err(LedgerError::ZeroPrice));
    assert_eq!(check_listing(false, false, u64::MAX), Ok(()));
}

#[test]
fn validate_listing_trims_white_space() {
    assert_eq!(validate_listing("Rust Basics", "intro", 100), Ok(()));
    assert_eq!(validate_listing(" x ", "\ty\n", 1), Ok(()));
    assert_eq!(validate_listing("", "intro", 100), Err(LedgerError::EmptyTitle));
    assert_eq!(validate_listing(" \t\r\n", "intro", 100), Err(LedgerError::EmptyTitle));
    assert_eq!(validate_listing("\u{2003}\u{a0}", "intro", 100), Err(LedgerError::EmptyTitle));
    assert_eq!(validate_listing("Rust", " ", 100), Err(LedgerError::EmptyDescription));
    assert_eq!(validate_listing("Rust", "intro", 0), Err(LedgerError::ZeroPrice));
}

#[test]
fn every_error_has_its_kind() {
    let kinds = [
        (LedgerError::EmptyTitle, ErrorKind::Validation),
        (LedgerError::EmptyDescription, ErrorKind::Validation),
        (LedgerError::ZeroPrice, ErrorKind::Validation),
        (LedgerError::ZeroResalePrice, ErrorKind::Validation),
        (LedgerError::ZeroAmount, ErrorKind::Validation),
        (LedgerError::AssetNotFound, ErrorKind::NotFound),
        (LedgerError::NotOwner, ErrorKind::Authorization),
        (LedgerError::NotCreator, ErrorKind::Authorization),
        (LedgerError::InactiveAsset, ErrorKind::State),
        (LedgerError::SelfPurchase, ErrorKind::State),
        (LedgerError::SelfTransfer, ErrorKind::State),
        (LedgerError::InsufficientBalance, ErrorKind::State),
        (LedgerError::AccountOverflow, ErrorKind::State),
        (LedgerError::IdentifiersExhausted, ErrorKind::State),
        (LedgerError::ServiceAddress, ErrorKind::External),
        (LedgerError::TransferFailed { detail: "x".to_string() }, ErrorKind::External),
    ];
    for (error, kind) in kinds {
        assert_eq!(error.kind(), kind);
        assert_eq!(error.clone(), error);
    }
}

#[test]
fn every_error_has_its_message() {
    assert_eq!(LedgerError::EmptyTitle.message(), "Title cannot be empty");
    assert_eq!(LedgerError::EmptyDescription.message(), "Description cannot be empty");
    assert_eq!(LedgerError::ZeroPrice.message(), "Price must be greater than zero");
    assert_eq!(LedgerError::ZeroResalePrice.message(), "Resale price must be greater than zero");
    assert_eq!(LedgerError::ZeroAmount.message(), "Amount must be greater than zero");
    assert_eq!(LedgerError::AssetNotFound.message(), "Asset not found");
    assert_eq!(LedgerError::NotOwner.message(), "Only the current owner can do this");
    assert_eq!(LedgerError::NotCreator.message(), "Only the creator can deactivate the asset");
    assert_eq!(LedgerError::InactiveAsset.message(), "Asset is not active");
    assert_eq!(LedgerError::SelfPurchase.message(), "Cannot purchase your own asset");
    assert_eq!(
        LedgerError::SelfTransfer.message(),
        "New owner must be different from the current owner"
    );
    assert_eq!(LedgerError::InsufficientBalance.message(), "Insufficient balance");
    assert_eq!(LedgerError::AccountOverflow.message(), "Account cannot hold the credited amount");
    assert_eq!(LedgerError::IdentifiersExhausted.message(), "No asset identifier is left");
    assert_eq!(
        LedgerError::ServiceAddress.message(),
        "Funds-transfer service address is malformed"
    );
    assert_eq!(
        LedgerError::TransferFailed { detail: "timeout".to_string() }.message(),
        "Failed to add balance: timeout"
    );
}

#[test]
fn account_book_sets_and_reads() {
    let ann = Identity::new(vec![1]).unwrap();
    let bob = Identity::new(vec![2]).unwrap();
    let mut book = AccountBook::new();
    assert_eq!(book.amount_of(&ann), 0);
    book.set(&ann, 5);
    book.set(&bob, 6);
    book.set(&ann, 7);
    assert_eq!(book.amount_of(&ann), 7);
    assert_eq!(book.amount_of(&bob), 6);
    assert_eq!(
        book.entries(),
        vec![Account { holder: ann.clone(), amount: 7 }, Account { holder: bob, amount: 6 }]
    );
    book.set(&ann, 0);
    assert_eq!(book.amount_of(&ann), 0);
    assert_eq!(book.entries().len(), 2);
}

#[test]
fn account_book_from_entries_wants_distinct_holders() {
    let ann = Identity::new(vec![1]).unwrap();
    let bob = Identity::new(vec![2]).unwrap();
    let listed = vec![
        Account { holder: ann.clone(), amount: 1 },
        Account { holder: bob.clone(), amount: 2 },
    ];
    let book = AccountBook::from_entries(listed.clone()).unwrap();
    assert_eq!(book.amount_of(&bob), 2);
    assert_eq!(book.entries(), listed);
    assert!(AccountBook::from_entries(Vec::new()).is_some());
    let twice = vec![
        Account { holder: ann.clone(), amount: 1 },
        Account { holder: ann.clone(), amount: 1 },
    ];
    assert!(AccountBook::from_entries(twice).is_none());
}
