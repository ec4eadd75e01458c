use candid::Principal;
use ic_ledger_types::{
    AccountIdentifier, Subaccount, DEFAULT_SUBACCOUNT, MAINNET_LEDGER_CANISTER_ID,
};
use skill_ledger::{
    begin_top_up, funding_account, plan_top_up, transfer_service, ErrorKind, Identity, Ledger,
    LedgerError, TransferOutcome, TransferRequest, TRANSFER_FEE, TRANSFER_MEMO, TRANSFER_METHOD,
    TRANSFER_SERVICE,
};

fn holder(tag: u8) -> Identity {
    Identity::new(vec![tag, 9, 9]).unwrap()
}

#[test]
fn transfer_service_is_the_ledger_of_the_network() {
    let service = transfer_service().unwrap();
    assert_eq!(service.as_bytes(), &vec![0u8, 0, 0, 0, 0, 0, 0, 2, 1, 1]);
    assert_eq!(service.as_bytes().as_slice(), MAINNET_LEDGER_CANISTER_ID.as_slice());
    assert_eq!(Principal::from_slice(service.as_bytes()).to_text(), TRANSFER_SERVICE);
}

#[test]
fn transfer_constants() {
    assert_eq!(TRANSFER_SERVICE, "ryjl3-tyaaa-aaaaa-aaaba-cai");
    assert_eq!(TRANSFER_METHOD, "icrc1_transfer");
    assert_eq!(TRANSFER_FEE, 10_000);
    assert_eq!(TRANSFER_MEMO, 0);
}

#[test]
fn funding_account_is_the_default_account_of_the_host() {
    let host = Identity::new(vec![0, 0, 0, 0, 0, 0x10, 0, 7, 1, 1]).unwrap();
    let address = funding_account(&host);
    let expected =
        AccountIdentifier::new(&Principal::from_slice(host.as_bytes()), &DEFAULT_SUBACCOUNT);
    assert_eq!(&address, expected.as_bytes());
    assert_eq!(AccountIdentifier::from_slice(&address), Ok(expected));
    assert_ne!(&address[..10], host.as_bytes().as_slice());
}

#[test]
fn funding_account_depends_on_the_host_and_the_subaccount() {
    let one = funding_account(&holder(1));
    let two = funding_account(&holder(2));
    assert_ne!(one, two);
    let other_subaccount =
        AccountIdentifier::new(&Principal::from_slice(holder(1).as_bytes()), &Subaccount([1; 32]));
    assert_ne!(&one, other_subaccount.as_bytes());
}

#[test]
fn funding_account_of_the_longest_identity() {
    let host = Identity::new(vec![7; 29]).unwrap();
    let address = funding_account(&host);
    let expected =
        AccountIdentifier::new(&Principal::from_slice(&[7; 29]), &Subaccount([0; 32]));
    assert_eq!(&address, expected.as_bytes());
}

#[test]
fn begin_top_up_plans_the_transfer() {
    let caller = holder(1);
    let host = holder(2);
    let pending = begin_top_up(&caller, &host, 150).unwrap();
    assert_eq!(pending.caller, caller);
    assert_eq!(pending.amount, 150);
    assert_eq!(pending.service, transfer_service().unwrap());
    assert_eq!(
        pending.request,
        TransferRequest {
            memo: 0,
            amount: 150,
            fee: 10_000,
            from_subaccount: None,
            to: funding_account(&host),
            created_at_time: None,
        }
    );
}

#[test]
fn begin_top_up_rejects_zero() {
    let refused = begin_top_up(&holder(1), &holder(2), 0);
    assert_eq!(refused, Err(LedgerError::ZeroAmount));
    assert_eq!(refused.unwrap_err().kind(), ErrorKind::Validation);
}

#[test]
fn plan_top_up_needs_the_service() {
    let refused = plan_top_up(&holder(1), 5, None, [3; 32]);
    assert_eq!(refused, Err(LedgerError::ServiceAddress));
    assert_eq!(refused.unwrap_err().kind(), ErrorKind::External);
    let refused = plan_top_up(&holder(1), 0, None, [3; 32]);
    assert_eq!(refused, Err(LedgerError::ZeroAmount));
}

#[test]
fn plan_top_up_takes_what_it_is_given() {
    let pending = plan_top_up(&holder(1), 5, Some(holder(4)), [3; 32]).unwrap();
    assert_eq!(pending.caller, holder(1));
    assert_eq!(pending.amount, 5);
    assert_eq!(pending.service, holder(4));
    assert_eq!(pending.request.to, [3; 32]);
    assert_eq!(pending.request.amount, 5);
    assert_eq!(pending.request.fee, 10_000);
    assert_eq!(pending.request.memo, 0);
    assert_eq!(pending.request.from_subaccount, None);
    assert_eq!(pending.request.created_at_time, None);
}

#[test]
fn settled_top_up_credits_the_caller() {
    let caller = holder(1);
    let mut ledger = Ledger::new();
    ledger.credit(&caller, 10).unwrap();
    let pending = begin_top_up(&caller, &holder(2), 150).unwrap();
    assert_eq!(ledger.settle_top_up(pending, TransferOutcome::Settled { block_index: 1 }), Ok(()));
    assert_eq!(ledger.balance_of(&caller), 160);
    assert_eq!(ledger.balance_of(&holder(2)), 0);
}

#[test]
fn failed_top_up_changes_nothing() {
    let caller = holder(1);
    let mut ledger = Ledger::new();
    ledger.credit(&caller, 10).unwrap();
    let pending = begin_top_up(&caller, &holder(2), 150).unwrap();
    let outcome = TransferOutcome::Failed { detail: "(CanisterReject, \"no\")".to_string() };
    let refused = ledger.settle_top_up(pending, outcome);
    assert_eq!(
        refused,
        Err(LedgerError::TransferFailed { detail: "(CanisterReject, \"no\")".to_string() })
    );
    let error = refused.unwrap_err();
    assert_eq!(error.kind(), ErrorKind::External);
    assert_eq!(error.message(), "Failed to add balance: (CanisterReject, \"no\")");
    assert_eq!(ledger.balance_of(&caller), 10);
}

#[test]
fn settled_top_up_that_does_not_fit_is_refused() {
    let caller = holder(1);
    let mut ledger = Ledger::new();
    ledger.credit(&caller, u64::MAX - 5).unwrap();
    let pending = begin_top_up(&caller, &holder(2), 6).unwrap();
    assert_eq!(
        ledger.settle_top_up(pending, TransferOutcome::Settled { block_index: 1 }),
        Err(LedgerError::AccountOverflow)
    );
    assert_eq!(ledger.balance_of(&caller), u64::MAX - 5);
}

#[test]
fn beginning_a_top_up_touches_no_ledger() {
    let caller = holder(1);
    let ledger = Ledger::new();
    let before = ledger.snapshot();
    let pending = begin_top_up(&caller, &holder(2), 150).unwrap();
    assert_eq!(ledger.snapshot(), before);
    assert_eq!(pending.amount, 150);
    assert_eq!(ledger.balance_of(&caller), 0);
}
