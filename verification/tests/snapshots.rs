use skill_ledger::{Account, Asset, Identity, Ledger, LedgerError, Snapshot};
use std::collections::HashMap;

fn person(tag: u8) -> Identity {
    Identity::new(vec![tag, 5]).unwrap()
}

fn asset(id: u64, owner: &Identity) -> Asset {
    Asset {
        id,
        title: "Rust".to_string(),
        description: "intro".to_string(),
        creator: owner.clone(),
        price: 10,
        unlock_duration: None,
        metadata: HashMap::new(),
        owner: owner.clone(),
        resale_price: None,
        is_active: true,
    }
}

fn empty_snapshot(next_id: u64) -> Snapshot {
    Snapshot { assets: Vec::new(), next_id, balances: Vec::new(), royalties: Vec::new() }
}

fn busy_ledger() -> Ledger {
    let ann = person(1);
    let bob = person(2);
    let mut ledger = Ledger::new();
    let mut metadata = HashMap::new();
    metadata.insert("level".to_string(), "1".to_string());
    let first = ledger
        .mint(&ann, "Rust".to_string(), "intro".to_string(), 100, Some(5), metadata)
        .unwrap();
    let second =
        ledger.mint(&bob, "Go".to_string(), "more".to_string(), 30, None, HashMap::new()).unwrap();
    ledger.credit(&bob, 500).unwrap();
    ledger.credit(&ann, 40).unwrap();
    ledger.purchase(&bob, first).unwrap();
    ledger.purchase(&ann, second).unwrap();
    ledger.set_resale_price(&bob, first, 900).unwrap();
    ledger.deactivate(&bob, second).unwrap();
    ledger
}

#[test]
fn snapshot_of_an_empty_ledger() {
    assert_eq!(Ledger::new().snapshot(), empty_snapshot(0));
}

#[test]
fn snapshot_lists_everything() {
    let ledger = busy_ledger();
    let record = ledger.snapshot();
    assert_eq!(record.next_id, 2);
    assert_eq!(record.assets, vec![ledger.get(0).unwrap(), ledger.get(1).unwrap()]);
    assert_eq!(
        record.balances,
        vec![
            Account { holder: person(2), amount: 430 },
            Account { holder: person(1), amount: 110 },
        ]
    );
    assert_eq!(
        record.royalties,
        vec![Account { holder: person(1), amount: 10 }, Account { holder: person(2), amount: 3 }]
    );
}

#[test]
fn snapshot_round_trip_gives_the_same_ledger() {
    let ledger = busy_ledger();
    let record = ledger.snapshot();
    let restored = Ledger::restore(ledger.snapshot()).unwrap();
    assert_eq!(restored.snapshot(), record);
    assert_eq!(restored.next_id(), ledger.next_id());
    for id in 0..3 {
        assert_eq!(restored.get(id), ledger.get(id));
    }
    for tag in 0..4 {
        assert_eq!(restored.balance_of(&person(tag)), ledger.balance_of(&person(tag)));
        assert_eq!(restored.royalty_of(&person(tag)), ledger.royalty_of(&person(tag)));
    }
}

#[test]
fn restored_ledger_goes_on_where_the_old_one_stopped() {
    let mut restored = Ledger::restore(busy_ledger().snapshot()).unwrap();
    let id = restored
        .mint(&person(3), "Zig".to_string(), "z".to_string(), 1, None, HashMap::new())
        .unwrap();
    assert_eq!(id, 2);
    assert_eq!(restored.purchase(&person(2), 1), Err(LedgerError::InactiveAsset));
}

#[test]
fn restore_accepts_assets_in_any_order_and_gaps() {
    let ann = person(1);
    let record = Snapshot {
        assets: vec![asset(7, &ann), asset(2, &ann)],
        next_id: 9,
        balances: vec![Account { holder: ann.clone(), amount: 3 }],
        royalties: Vec::new(),
    };
    let ledger = Ledger::restore(record).unwrap();
    assert_eq!(ledger.get(7), Some(asset(7, &ann)));
    assert_eq!(ledger.get(2), Some(asset(2, &ann)));
    assert_eq!(ledger.get(0), None);
    assert_eq!(ledger.balance_of(&ann), 3);
    let listed: Vec<u64> = ledger.list_by_owner(&ann).iter().map(|a| a.id).collect();
    assert_eq!(listed, vec![2, 7]);
    assert_eq!(ledger.snapshot().assets, vec![asset(2, &ann), asset(7, &ann)]);
}

#[test]
fn restore_refuses_an_identifier_listed_twice() {
    let ann = person(1);
    let mut record = empty_snapshot(5);
    record.assets = vec![asset(1, &ann), asset(2, &ann), asset(1, &ann)];
    assert!(Ledger::restore(record).is_none());
}

#[test]
fn restore_refuses_an_identifier_not_yet_issued() {
    let ann = person(1);
    let mut record = empty_snapshot(3);
    record.assets = vec![asset(3, &ann)];
    assert!(Ledger::restore(record).is_none());
    let mut record = empty_snapshot(4);
    record.assets = vec![asset(3, &ann)];
    assert!(Ledger::restore(record).is_some());
}

#[test]
fn restore_refuses_invalid_assets() {
    let ann = person(1);
    let mut blank_title = asset(0, &ann);
    blank_title.title = "  ".to_string();
    let mut blank_description = asset(0, &ann);
    blank_description.description = String::new();
    let mut free = asset(0, &ann);
    free.price = 0;
    let mut listed_for_nothing = asset(0, &ann);
    listed_for_nothing.resale_price = Some(0);
    for broken in [blank_title, blank_description, free, listed_for_nothing] {
        let mut record = empty_snapshot(1);
        record.assets = vec![broken];
        assert!(Ledger::restore(record).is_none());
    }
    let mut listed = asset(0, &ann);
    listed.resale_price = Some(1);
    listed.is_active = false;
    let mut record = empty_snapshot(1);
    record.assets = vec![listed];
    assert!(Ledger::restore(record).is_some());
}

#[test]
fn restore_refuses_a_holder_listed_twice() {
    let ann = person(1);
    let twice = vec![
        Account { holder: ann.clone(), amount: 1 },
        Account { holder: person(2), amount: 1 },
        Account { holder: ann.clone(), amount: 2 },
    ];
    let mut record = empty_snapshot(0);
    record.balances = twice.clone();
    assert!(Ledger::restore(record).is_none());
    let mut record = empty_snapshot(0);
    record.royalties = twice;
    assert!(Ledger::restore(record).is_none());
}

#[test]
fn mint_fails_once_identifiers_are_exhausted() {
    let ann = person(1);
    let mut record = empty_snapshot(u64::MAX - 1);
    record.assets = vec![asset(u64::MAX - 2, &ann)];
    let mut ledger = Ledger::restore(record).unwrap();
    let last =
        ledger.mint(&ann, "last".to_string(), "one".to_string(), 1, None, HashMap::new()).unwrap();
    assert_eq!(last, u64::MAX - 1);
    assert_eq!(ledger.next_id(), u64::MAX);
    let refused = ledger.mint(&ann, "more".to_string(), "one".to_string(), 1, None, HashMap::new());
    assert_eq!(refused, Err(LedgerError::IdentifiersExhausted));
    assert_eq!(ledger.next_id(), u64::MAX);
    let blank = ledger.mint(&ann, " ".to_string(), "one".to_string(), 1, None, HashMap::new());
    assert_eq!(blank, Err(LedgerError::EmptyTitle));
}

#[test]
fn purchase_fails_when_the_royalty_account_is_full() {
    let ann = person(1);
    let bob = person(2);
    let mut record = empty_snapshot(1);
    let mut pricey = asset(0, &ann);
    pricey.price = 100;
    record.assets = vec![pricey];
    record.balances = vec![Account { holder: bob.clone(), amount: 100 }];
    record.royalties = vec![Account { holder: ann.clone(), amount: u64::MAX - 9 }];
    let mut ledger = Ledger::restore(record).unwrap();
    assert_eq!(ledger.purchase(&bob, 0), Err(LedgerError::AccountOverflow));
    assert_eq!(ledger.balance_of(&bob), 100);
    assert_eq!(ledger.royalty_of(&ann), u64::MAX - 9);
    assert_eq!(ledger.get(0).unwrap().owner, ann);
}
