use state_machine::system::Pallet;

#[test]
fn init_system() {
    let mut pallet = Pallet::new();
    pallet.nonce.insert("Wassim".to_string(), 0);
    assert_eq!(pallet.block_number, 0);
    pallet.inc_block_number();
    assert_eq!(pallet.block_number, 1);
    pallet.inc_nonce("Wassim".to_string());
    assert_eq!(pallet.nonce.get(&"Wassim".to_string()).unwrap(), &1);
}

#[test]
fn nonce_counts_calls() {
    let mut pallet = Pallet::new();
    assert_eq!(pallet.nonce.get(&"Alice".to_string()), None);
    for expected in 1..=5u32 {
        pallet.inc_nonce("Alice".to_string());
        assert_eq!(pallet.nonce.get(&"Alice".to_string()), Some(&expected));
    }
    assert_eq!(pallet.nonce.get(&"Bob".to_string()), None);
}

#[test]
fn counters_wrap_at_the_top() {
    let mut pallet = Pallet::new();
    pallet.nonce.insert("Alice".to_string(), u32::MAX);
    pallet.inc_nonce("Alice".to_string());
    assert_eq!(pallet.nonce.get(&"Alice".to_string()), Some(&0));

    pallet.block_number = u32::MAX;
    pallet.inc_block_number();
    assert_eq!(pallet.block_number(), 0);
}
