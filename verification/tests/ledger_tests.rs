use payment_contract::ledger::{Identity, Ledger, Payment};

#[test]
fn new_ledger_is_empty() {
    let ledger = Ledger::new();
    assert_eq!(ledger.len(), 0);
    assert!(ledger.read_all().is_empty());
}

#[test]
fn append_grows_ledger_in_order() {
    let alice = Identity { id: 1 };
    let bob = Identity { id: 2 };
    let first = Payment { from: alice, to: bob, amount: 3, timestamp: 10 };
    let second = Payment { from: bob, to: alice, amount: 4, timestamp: 20 };

    let mut ledger = Ledger::new();
    ledger.append(first);
    assert_eq!(ledger.len(), 1);
    ledger.append(second);
    assert_eq!(ledger.len(), 2);

    let all = ledger.read_all();
    assert_eq!(all, vec![first, second]);
}

#[test]
fn from_records_keeps_the_given_sequence() {
    let alice = Identity { id: 1 };
    let bob = Identity { id: 2 };
    let records = vec![
        Payment { from: alice, to: bob, amount: 8, timestamp: 1 },
        Payment { from: bob, to: alice, amount: 9, timestamp: 2 },
    ];
    let ledger = Ledger::from_records(records.clone());
    assert_eq!(ledger.len(), records.len());
    assert_eq!(ledger.read_all(), records);
}
