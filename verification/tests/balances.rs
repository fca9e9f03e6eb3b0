use state_machine::balances::Pallet;
use state_machine::support::DispatchError;

#[test]
fn init_balances() {
    let mut balances = Pallet::new();

    assert_eq!(balances.balance(&"Alice".to_string()), 0);
    balances.set_balance("Alice".to_string(), 100);
    assert_eq!(balances.balance(&"Alice".to_string()), 100);
    assert_eq!(balances.balance(&"Bob".to_string()), 0);
}

#[test]
fn transfer_balance() {
    let mut balances = Pallet::new();
    balances.set_balance("Alice".to_string(), 100);

    balances.transfer("Alice".to_string(), "Bob".to_string(), 50).unwrap();
    assert_eq!(balances.balance(&"Alice".to_string()), 50);
    assert_eq!(balances.balance(&"Bob".to_string()), 50);

    let result = balances.transfer("Alice".to_string(), "Bob".to_string(), 60);
    assert_eq!(result, Err(DispatchError::InsufficientFunds));
    assert_eq!(DispatchError::InsufficientFunds.message(), "Not enough funds!");
    assert_eq!(balances.balance(&"Alice".to_string()), 50);
    assert_eq!(balances.balance(&"Bob".to_string()), 50);
}

#[test]
fn transfer_overflow_rejected() {
    let mut balances = Pallet::new();
    balances.set_balance("Alice".to_string(), 10);
    balances.set_balance("Bob".to_string(), u128::MAX);

    let result = balances.transfer("Alice".to_string(), "Bob".to_string(), 5);
    assert_eq!(result, Err(DispatchError::Overflow));
    assert_eq!(DispatchError::Overflow.message(), "Overflow");
    assert_eq!(balances.balance(&"Alice".to_string()), 10);
    assert_eq!(balances.balance(&"Bob".to_string()), u128::MAX);
}

#[test]
fn self_transfer_keeps_balance() {
    let mut balances = Pallet::new();
    balances.set_balance("Alice".to_string(), 100);

    balances.transfer("Alice".to_string(), "Alice".to_string(), 40).unwrap();
    assert_eq!(balances.balance(&"Alice".to_string()), 100);

    let result = balances.transfer("Alice".to_string(), "Alice".to_string(), 101);
    assert_eq!(result, Err(DispatchError::InsufficientFunds));
    assert_eq!(balances.balance(&"Alice".to_string()), 100);
}

#[test]
fn transfer_conserves_total() {
    let mut balances = Pallet::new();
    balances.set_balance("Alice".to_string(), 70);
    balances.set_balance("Bob".to_string(), 30);

    balances.transfer("Alice".to_string(), "Bob".to_string(), 25).unwrap();
    let alice = balances.balance(&"Alice".to_string());
    let bob = balances.balance(&"Bob".to_string());
    assert_eq!(alice, 45);
    assert_eq!(bob, 55);
    assert_eq!(alice + bob, 100);
}
