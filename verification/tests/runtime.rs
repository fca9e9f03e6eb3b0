use state_machine::balances;
use state_machine::proof_of_existence;
use state_machine::runtime::{Block, Extrinsic, ExtrinsicFailure, Header, Runtime, RuntimeCall};
use state_machine::support::{BlockError, DispatchError};

fn transfer_call(to: &str, amount: u128) -> RuntimeCall {
    RuntimeCall::Balances(balances::Call::Transfer { to: to.to_string(), amount })
}

#[test]
fn block_applies_a_transfer() {
    let mut runtime = Runtime::new();
    runtime.balances.set_balance("alice".to_string(), 100);

    let block = Block {
        header: Header { block_number: 1 },
        extrinsics: vec![Extrinsic {
            caller: "alice".to_string(),
            call: transfer_call("bob", 30),
        }],
    };

    let failures = runtime.execute_block(block).unwrap();
    assert!(failures.is_empty());
    assert_eq!(runtime.balances.balance(&"alice".to_string()), 70);
    assert_eq!(runtime.balances.balance(&"bob".to_string()), 30);
    assert_eq!(runtime.system.block_number(), 1);
}

#[test]
fn block_number_mismatch_rejects_the_block() {
    let mut runtime = Runtime::new();
    runtime.balances.set_balance("alice".to_string(), 100);

    let block = Block {
        header: Header { block_number: 5 },
        extrinsics: vec![Extrinsic {
            caller: "alice".to_string(),
            call: transfer_call("bob", 30),
        }],
    };

    let result = runtime.execute_block(block);
    assert_eq!(result, Err(BlockError::NumberMismatch));
    assert_eq!(
        BlockError::NumberMismatch.message(),
        "Incoming and current block numbers dont match!"
    );
    // None of the block's extrinsics ran.
    assert_eq!(runtime.balances.balance(&"alice".to_string()), 100);
    assert_eq!(runtime.balances.balance(&"bob".to_string()), 0);
    assert_eq!(runtime.system.nonce.get(&"alice".to_string()), None);
    // The height advanced before validation and is not rolled back, so the
    // next accepted block must declare 2, not 1.
    assert_eq!(runtime.system.block_number(), 1);
    let next = Block {
        header: Header { block_number: 2 },
        extrinsics: vec![],
    };
    assert!(runtime.execute_block(next).is_ok());
    assert_eq!(runtime.system.block_number(), 2);
}

#[test]
fn failing_extrinsic_does_not_abort_the_block() {
    let mut runtime = Runtime::new();
    runtime.balances.set_balance("alice".to_string(), 100);

    let block = Block {
        header: Header { block_number: 1 },
        extrinsics: vec![
            Extrinsic {
                caller: "charlie".to_string(),
                call: transfer_call("bob", 10),
            },
            Extrinsic {
                caller: "alice".to_string(),
                call: transfer_call("bob", 30),
            },
        ],
    };

    let failures = runtime.execute_block(block).unwrap();
    assert_eq!(
        failures,
        vec![ExtrinsicFailure {
            block_number: 1,
            index: 0,
            error: DispatchError::InsufficientFunds,
        }]
    );
    // The first extrinsic left no effect, the second took effect.
    assert_eq!(runtime.balances.balance(&"charlie".to_string()), 0);
    assert_eq!(runtime.balances.balance(&"alice".to_string()), 70);
    assert_eq!(runtime.balances.balance(&"bob".to_string()), 30);
    // Both callers' nonces rose regardless of the outcome.
    assert_eq!(runtime.system.nonce.get(&"charlie".to_string()), Some(&1));
    assert_eq!(runtime.system.nonce.get(&"alice".to_string()), Some(&1));
}

#[test]
fn claims_flow_through_dispatch() {
    let mut runtime = Runtime::new();

    let block_1 = Block {
        header: Header { block_number: 1 },
        extrinsics: vec![
            Extrinsic {
                caller: "alice".to_string(),
                call: RuntimeCall::ProofOfExistence(proof_of_existence::Call::CreateClaim {
                    claim: "Hello, world!".to_string(),
                }),
            },
            Extrinsic {
                caller: "bob".to_string(),
                call: RuntimeCall::ProofOfExistence(proof_of_existence::Call::CreateClaim {
                    claim: "Hello, world!".to_string(),
                }),
            },
        ],
    };
    let failures = runtime.execute_block(block_1).unwrap();
    assert_eq!(
        failures,
        vec![ExtrinsicFailure {
            block_number: 1,
            index: 1,
            error: DispatchError::AlreadyClaimed,
        }]
    );
    assert_eq!(
        runtime.proof_of_existence.get_claim(&"Hello, world!".to_string()),
        Some(&"alice".to_string())
    );

    let block_2 = Block {
        header: Header { block_number: 2 },
        extrinsics: vec![
            Extrinsic {
                caller: "alice".to_string(),
                call: RuntimeCall::ProofOfExistence(proof_of_existence::Call::RevokeClaim {
                    claim: "Hello, world!".to_string(),
                }),
            },
            Extrinsic {
                caller: "bob".to_string(),
                call: RuntimeCall::ProofOfExistence(proof_of_existence::Call::CreateClaim {
                    claim: "Hello, world!".to_string(),
                }),
            },
        ],
    };
    let failures = runtime.execute_block(block_2).unwrap();
    assert!(failures.is_empty());
    assert_eq!(
        runtime.proof_of_existence.get_claim(&"Hello, world!".to_string()),
        Some(&"bob".to_string())
    );
}

#[test]
fn fresh_runtime_is_empty() {
    let runtime = Runtime::default();
    assert_eq!(runtime.system.block_number(), 0);
    assert_eq!(runtime.balances.balance(&"alice".to_string()), 0);
    assert_eq!(runtime.system.nonce.get(&"alice".to_string()), None);
    assert_eq!(runtime.proof_of_existence.get_claim(&"anything".to_string()), None);
}
