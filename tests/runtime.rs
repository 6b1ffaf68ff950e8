use state_machine::runtime::{Runtime, RuntimeCall};
use state_machine::support::{Block, DispatchError, Extrinsic, Header};

fn transfer(from: &str, to: &str, amount: u128) -> Extrinsic<String, RuntimeCall> {
    Extrinsic {
        caller: from.to_string(),
        call: RuntimeCall::BalancesTransfer { to: to.to_string(), amount },
    }
}

fn block(
    height: u32,
    extrinsics: Vec<Extrinsic<String, RuntimeCall>>,
) -> Block<Header<u32>, Extrinsic<String, RuntimeCall>> {
    Block { header: Header { block_number: height }, extrinsics }
}

#[test]
fn genesis_is_empty() {
    let runtime = Runtime::new();
    assert_eq!(runtime.system.block_number(), 0);
    assert_eq!(runtime.balances.balance(&"Alice".to_string()), 0);
    assert_eq!(runtime.system.get_nonce(&"Alice".to_string()), 0);
}

#[test]
fn two_transfers_in_one_block() {
    let mut runtime = Runtime::new();
    runtime.balances.set_balance(&"Alice".to_string(), 100);
    let r = runtime.execute_block(block(
        1,
        vec![transfer("Alice", "Bob", 50), transfer("Alice", "Bob", 20)],
    ));
    assert_eq!(r, Ok(vec![]));
    assert_eq!(runtime.balances.balance(&"Alice".to_string()), 30);
    assert_eq!(runtime.balances.balance(&"Bob".to_string()), 70);
    assert_eq!(runtime.system.get_nonce(&"Alice".to_string()), 2);
    assert_eq!(runtime.system.get_nonce(&"Bob".to_string()), 0);
    assert_eq!(runtime.system.block_number(), 1);
}

#[test]
fn transfer_from_empty_account_fails() {
    let mut runtime = Runtime::new();
    let r = runtime.execute_block(block(1, vec![transfer("Alice", "Bob", 123)]));
    assert_eq!(r, Ok(vec![(0, DispatchError::InsufficientFunds)]));
    assert_eq!(runtime.balances.balance(&"Alice".to_string()), 0);
    assert_eq!(runtime.balances.balance(&"Bob".to_string()), 0);
    assert_eq!(runtime.system.get_nonce(&"Alice".to_string()), 1);
}

#[test]
fn transfer_to_full_account_overflows() {
    let mut runtime = Runtime::new();
    runtime.balances.set_balance(&"Alice".to_string(), 10);
    runtime.balances.set_balance(&"Bob".to_string(), u128::MAX);
    let r = runtime.execute_block(block(1, vec![transfer("Alice", "Bob", 1)]));
    assert_eq!(r, Ok(vec![(0, DispatchError::BalanceOverflow)]));
    assert_eq!(runtime.balances.balance(&"Alice".to_string()), 10);
    assert_eq!(runtime.balances.balance(&"Bob".to_string()), u128::MAX);
    assert_eq!(runtime.system.get_nonce(&"Alice".to_string()), 1);
}

#[test]
fn block_of_wrong_height_is_refused() {
    let mut runtime = Runtime::new();
    runtime.balances.set_balance(&"Alice".to_string(), 100);
    let r = runtime.execute_block(block(5, vec![transfer("Alice", "Bob", 50)]));
    assert_eq!(r, Err(DispatchError::InvalidBlockHeight));
    assert_eq!(runtime.system.block_number(), 1);
    assert_eq!(runtime.balances.balance(&"Alice".to_string()), 100);
    assert_eq!(runtime.balances.balance(&"Bob".to_string()), 0);
    assert_eq!(runtime.system.get_nonce(&"Alice".to_string()), 0);
}

#[test]
fn nonce_counts_every_call_whatever_its_outcome() {
    let mut runtime = Runtime::new();
    runtime.balances.set_balance(&"Alice".to_string(), 30);
    let r = runtime.execute_block(block(
        1,
        vec![
            transfer("Alice", "Bob", 20),
            transfer("Alice", "Bob", 20),
            transfer("Bob", "Carol", 5),
            transfer("Alice", "Carol", 10),
        ],
    ));
    assert_eq!(r, Ok(vec![(1, DispatchError::InsufficientFunds)]));
    assert_eq!(runtime.system.get_nonce(&"Alice".to_string()), 3);
    assert_eq!(runtime.system.get_nonce(&"Bob".to_string()), 1);
    assert_eq!(runtime.system.get_nonce(&"Carol".to_string()), 0);
    assert_eq!(runtime.balances.balance(&"Alice".to_string()), 0);
    assert_eq!(runtime.balances.balance(&"Bob".to_string()), 15);
    assert_eq!(runtime.balances.balance(&"Carol".to_string()), 15);
}

#[test]
fn later_calls_see_earlier_writes() {
    let mut runtime = Runtime::new();
    runtime.balances.set_balance(&"Alice".to_string(), 10);
    let r = runtime.execute_block(block(
        1,
        vec![transfer("Alice", "Bob", 10), transfer("Bob", "Carol", 10)],
    ));
    assert_eq!(r, Ok(vec![]));
    assert_eq!(runtime.balances.balance(&"Carol".to_string()), 10);
    assert_eq!(runtime.balances.balance(&"Bob".to_string()), 0);
}

#[test]
fn blocks_follow_one_another() {
    let mut runtime = Runtime::new();
    runtime.balances.set_balance(&"Alice".to_string(), 10);
    assert_eq!(runtime.execute_block(block(1, vec![])), Ok(vec![]));
    assert_eq!(
        runtime.execute_block(block(2, vec![transfer("Alice", "Bob", 4)])),
        Ok(vec![])
    );
    assert_eq!(runtime.system.block_number(), 2);
    assert_eq!(
        runtime.execute_block(block(2, vec![transfer("Alice", "Bob", 4)])),
        Err(DispatchError::InvalidBlockHeight)
    );
    assert_eq!(runtime.system.block_number(), 3);
    assert_eq!(runtime.balances.balance(&"Bob".to_string()), 4);
    assert_eq!(runtime.system.get_nonce(&"Alice".to_string()), 1);
}

#[test]
fn dispatch_routes_a_transfer() {
    let mut runtime = Runtime::new();
    runtime.balances.set_balance(&"Alice".to_string(), 9);
    let call = RuntimeCall::BalancesTransfer { to: "Bob".to_string(), amount: 4 };
    assert_eq!(runtime.dispatch("Alice".to_string(), call), Ok(()));
    assert_eq!(runtime.balances.balance(&"Alice".to_string()), 5);
    assert_eq!(runtime.balances.balance(&"Bob".to_string()), 4);
    assert_eq!(runtime.system.get_nonce(&"Alice".to_string()), 0);
}
