use state_machine::balances;
use state_machine::proof_of_existence;
use state_machine::runtime::{Runtime, RuntimeCall};
use state_machine::support::{Block, BlockError, Extrinsic, Header};

fn transfer_block(number: u32, transfers: Vec<(&str, &str, u128)>) -> state_machine::types::Block {
    Block {
        header: Header { block_number: number },
        extrinsics: transfers
            .into_iter()
            .map(|(from, to, amount)| Extrinsic {
                caller: from.to_string(),
                call: RuntimeCall::Balances(balances::Call::Transfer {
                    to: to.to_string(),
                    amount,
                }),
            })
            .collect(),
    }
}

#[test]
fn first_block_moves_funds() {
    let mut runtime = Runtime::new();
    let alice = "alice".to_string();
    runtime.balances.set_balance(&alice, 100);

    let block_1 = transfer_block(1, vec![("alice", "bob", 30), ("alice", "charlie", 20)]);
    assert_eq!(runtime.execute_block(block_1), Ok(()));

    assert_eq!(runtime.system.block_number(), 1);
    assert_eq!(runtime.system.nonce(&alice), 2);
    assert_eq!(runtime.balances.balance(&alice), 50);
    assert_eq!(runtime.balances.balance(&"bob".to_string()), 30);
    assert_eq!(runtime.balances.balance(&"charlie".to_string()), 20);
}

#[test]
fn duplicate_claim_in_block_is_contained() {
    let mut runtime = Runtime::new();
    let alice = "alice".to_string();
    let bob = "bob".to_string();
    runtime.balances.set_balance(&alice, 100);

    let block_1 = transfer_block(1, vec![("alice", "bob", 30), ("alice", "charlie", 20)]);
    assert_eq!(runtime.execute_block(block_1), Ok(()));

    let block_2 = Block {
        header: Header { block_number: 2 },
        extrinsics: vec![
            Extrinsic {
                caller: alice.clone(),
                call: RuntimeCall::ProofOfExistence(proof_of_existence::Call::CreateClaim {
                    claim: "x".to_string(),
                }),
            },
            Extrinsic {
                caller: bob.clone(),
                call: RuntimeCall::ProofOfExistence(proof_of_existence::Call::CreateClaim {
                    claim: "x".to_string(),
                }),
            },
        ],
    };
    assert_eq!(runtime.execute_block(block_2), Ok(()));

    assert_eq!(runtime.system.block_number(), 2);
    assert_eq!(runtime.proof_of_existence.get_claim(&"x".to_string()), Some(&alice));
    assert_eq!(runtime.system.nonce(&alice), 3);
    assert_eq!(runtime.system.nonce(&bob), 1);
}

#[test]
fn revoked_claim_can_be_reclaimed() {
    let mut runtime = Runtime::new();
    let alice = "alice".to_string();
    let bob = "bob".to_string();
    runtime.balances.set_balance(&alice, 100);

    let block_1 = transfer_block(1, vec![("alice", "bob", 30), ("alice", "charlie", 20)]);
    assert_eq!(runtime.execute_block(block_1), Ok(()));

    let block_2 = Block {
        header: Header { block_number: 2 },
        extrinsics: vec![
            Extrinsic {
                caller: alice.clone(),
                call: RuntimeCall::ProofOfExistence(proof_of_existence::Call::CreateClaim {
                    claim: "x".to_string(),
                }),
            },
            Extrinsic {
                caller: bob.clone(),
                call: RuntimeCall::ProofOfExistence(proof_of_existence::Call::CreateClaim {
                    claim: "x".to_string(),
                }),
            },
        ],
    };
    assert_eq!(runtime.execute_block(block_2), Ok(()));

    let block_3 = Block {
        header: Header { block_number: 3 },
        extrinsics: vec![
            Extrinsic {
                caller: alice.clone(),
                call: RuntimeCall::ProofOfExistence(proof_of_existence::Call::RevokeClaim {
                    claim: "x".to_string(),
                }),
            },
            Extrinsic {
                caller: bob.clone(),
                call: RuntimeCall::ProofOfExistence(proof_of_existence::Call::CreateClaim {
                    claim: "x".to_string(),
                }),
            },
        ],
    };
    assert_eq!(runtime.execute_block(block_3), Ok(()));

    assert_eq!(runtime.system.block_number(), 3);
    assert_eq!(runtime.proof_of_existence.get_claim(&"x".to_string()), Some(&bob));
    assert_eq!(runtime.system.nonce(&alice), 4);
    assert_eq!(runtime.system.nonce(&bob), 2);
}

#[test]
fn block_number_mismatch_applies_nothing() {
    let mut runtime = Runtime::new();
    let alice = "alice".to_string();
    runtime.balances.set_balance(&alice, 100);

    let wrong = transfer_block(2, vec![("alice", "bob", 30)]);
    assert_eq!(runtime.execute_block(wrong), Err(BlockError::BlockNumberMismatch));

    // The sequence number advanced, but no contained operation was applied.
    assert_eq!(runtime.system.block_number(), 1);
    assert_eq!(runtime.system.nonce(&alice), 0);
    assert_eq!(runtime.balances.balance(&alice), 100);
    assert_eq!(runtime.balances.balance(&"bob".to_string()), 0);
}

#[test]
fn failed_operation_does_not_abort_block() {
    let mut runtime = Runtime::new();
    let alice = "alice".to_string();
    runtime.balances.set_balance(&alice, 100);

    let block_1 = transfer_block(1, vec![("alice", "bob", 1000), ("alice", "bob", 10)]);
    assert_eq!(runtime.execute_block(block_1), Ok(()));

    // The first transfer failed, the second still ran, and both bumped the
    // caller's nonce.
    assert_eq!(runtime.balances.balance(&alice), 90);
    assert_eq!(runtime.balances.balance(&"bob".to_string()), 10);
    assert_eq!(runtime.system.nonce(&alice), 2);
}

#[test]
fn empty_block_advances_number_only() {
    let mut runtime = Runtime::new();

    let block_1 = Block { header: Header { block_number: 1 }, extrinsics: vec![] };
    assert_eq!(runtime.execute_block(block_1), Ok(()));
    assert_eq!(runtime.system.block_number(), 1);
    assert_eq!(runtime.system.nonce(&"alice".to_string()), 0);
}
