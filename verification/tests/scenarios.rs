use skill_ledger::{
    begin_top_up, Identity, Ledger, LedgerError, TransferOutcome,
};
use std::collections::HashMap;

fn actor(tag: u8) -> Identity {
    Identity::new(vec![tag; 10]).unwrap()
}

#[test]
fn scenario_mint_top_up_purchase() {
    let host = actor(0);
    let creator = actor(1);
    let buyer = actor(2);
    let mut ledger = Ledger::new();

    let id = ledger
        .mint(&creator, "Rust Basics".to_string(), "intro".to_string(), 100, None, HashMap::new())
        .unwrap();
    assert_eq!(id, 0);

    let pending = begin_top_up(&buyer, &host, 150).unwrap();
    assert_eq!(ledger.balance_of(&buyer), 0);
    assert_eq!(ledger.settle_top_up(pending, TransferOutcome::Settled { block_index: 42 }), Ok(()));
    assert_eq!(ledger.balance_of(&buyer), 150);

    let creator_before = ledger.balance_of(&creator);
    let royalty_before = ledger.royalty_of(&creator);
    assert_eq!(ledger.purchase(&buyer, 0), Ok(()));
    assert_eq!(ledger.balance_of(&buyer), 50);
    assert_eq!(ledger.balance_of(&creator), creator_before + 100);
    assert_eq!(ledger.royalty_of(&creator), royalty_before + 10);
    assert_eq!(ledger.get(0).unwrap().owner, buyer);
}

#[test]
fn scenario_transfer_by_non_owner() {
    let creator = actor(1);
    let stranger = actor(2);
    let new_owner = actor(3);
    let mut ledger = Ledger::new();
    let id = ledger
        .mint(&creator, "Rust Basics".to_string(), "intro".to_string(), 100, None, HashMap::new())
        .unwrap();
    assert_eq!(id, 0);
    assert_eq!(ledger.transfer(&stranger, 0, &new_owner), Err(LedgerError::NotOwner));
    assert_eq!(ledger.get(0).unwrap().owner, creator);
}

#[test]
fn scenario_interleaved_top_ups_and_purchase() {
    let host = actor(0);
    let creator = actor(1);
    let buyer = actor(2);
    let mut ledger = Ledger::new();
    let id = ledger
        .mint(&creator, "Rust Basics".to_string(), "intro".to_string(), 100, None, HashMap::new())
        .unwrap();

    let first = begin_top_up(&buyer, &host, 60).unwrap();
    let second = begin_top_up(&buyer, &host, 70).unwrap();
    assert_eq!(ledger.purchase(&buyer, id), Err(LedgerError::InsufficientBalance));
    assert_eq!(ledger.settle_top_up(second, TransferOutcome::Settled { block_index: 8 }), Ok(()));
    assert_eq!(ledger.purchase(&buyer, id), Err(LedgerError::InsufficientBalance));
    assert_eq!(ledger.settle_top_up(first, TransferOutcome::Settled { block_index: 9 }), Ok(()));
    assert_eq!(ledger.balance_of(&buyer), 130);
    assert_eq!(ledger.purchase(&buyer, id), Ok(()));
    assert_eq!(ledger.balance_of(&buyer), 30);
}
