use state_machine::balances::Pallet;
use state_machine::support::DispatchError;

#[test]
fn init_balances() {
    let mut balances = Pallet::new();

    assert_eq!(balances.balance(&"alice".to_string()), 0);
    balances.set_balance(&"alice".to_string(), 100);
    assert_eq!(balances.balance(&"alice".to_string()), 100);
    assert_eq!(balances.balance(&"bob".to_string()), 0);
}

#[test]
fn transfer_balance() {
    let mut balances = Pallet::new();

    assert_eq!(
        balances.transfer("alice".to_string(), "bob".to_string(), 51),
        Err(DispatchError::InsufficientFunds)
    );

    balances.set_balance(&"alice".to_string(), 100);
    assert_eq!(balances.transfer("alice".to_string(), "bob".to_string(), 51), Ok(()));
    assert_eq!(balances.balance(&"alice".to_string()), 49);
    assert_eq!(balances.balance(&"bob".to_string()), 51);

    assert_eq!(
        balances.transfer("alice".to_string(), "bob".to_string(), 51),
        Err(DispatchError::InsufficientFunds)
    );
}

#[test]
fn transfer_overflow_rejected() {
    let mut balances = Pallet::new();
    balances.set_balance(&"alice".to_string(), 10);
    balances.set_balance(&"bob".to_string(), u128::MAX);

    assert_eq!(
        balances.transfer("alice".to_string(), "bob".to_string(), 1),
        Err(DispatchError::Overflow)
    );
    assert_eq!(balances.balance(&"alice".to_string()), 10);
    assert_eq!(balances.balance(&"bob".to_string()), u128::MAX);
}

#[test]
fn transfer_whole_range() {
    let mut balances = Pallet::new();
    balances.set_balance(&"alice".to_string(), u128::MAX);

    assert_eq!(balances.transfer("alice".to_string(), "bob".to_string(), u128::MAX), Ok(()));
    assert_eq!(balances.balance(&"alice".to_string()), 0);
    assert_eq!(balances.balance(&"bob".to_string()), u128::MAX);
}

#[test]
fn self_transfer_keeps_balance() {
    let mut balances = Pallet::new();
    balances.set_balance(&"alice".to_string(), 100);

    assert_eq!(balances.transfer("alice".to_string(), "alice".to_string(), 30), Ok(()));
    assert_eq!(balances.balance(&"alice".to_string()), 100);

    assert_eq!(
        balances.transfer("alice".to_string(), "alice".to_string(), 101),
        Err(DispatchError::InsufficientFunds)
    );
    assert_eq!(balances.balance(&"alice".to_string()), 100);
}

#[test]
fn transfer_conserves_total() {
    let mut balances = Pallet::new();
    balances.set_balance(&"alice".to_string(), 70);
    balances.set_balance(&"bob".to_string(), 30);

    let before =
        balances.balance(&"alice".to_string()) + balances.balance(&"bob".to_string());
    assert_eq!(balances.transfer("alice".to_string(), "bob".to_string(), 25), Ok(()));
    let after = balances.balance(&"alice".to_string()) + balances.balance(&"bob".to_string());
    assert_eq!(before, after);
    assert_eq!(balances.balance(&"alice".to_string()), 45);
    assert_eq!(balances.balance(&"bob".to_string()), 55);
}

#[test]
fn transfer_leaves_others_untouched() {
    let mut balances = Pallet::new();
    balances.set_balance(&"alice".to_string(), 100);
    balances.set_balance(&"charlie".to_string(), 7);

    assert_eq!(balances.transfer("alice".to_string(), "bob".to_string(), 60), Ok(()));
    assert_eq!(balances.balance(&"charlie".to_string()), 7);
}
