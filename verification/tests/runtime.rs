use rsm_en::runtime::Runtime;
use rsm_en::support::{self, DispatchError};
use rsm_en::types::{Block, Extrinsic, Header, RuntimeCall};

fn name(s: &str) -> String {
    s.to_string()
}

fn transfer(caller: &str, nonce: u32, to: &str, amount: u128) -> Extrinsic {
    support::Extrinsic {
        caller: name(caller),
        nonce,
        call: support::RuntimeCall::Transfer { to: name(to), amount },
    }
}

fn block(number: u32, extrinsics: Vec<Extrinsic>) -> Block {
    support::Block { header: Header { block_number: number }, extrinsics }
}

fn funded() -> Runtime {
    let mut runtime = Runtime::new();
    runtime.balances.set_balance(name("Alice"), 10000);
    runtime.balances.set_balance(name("Bob"), 10000);
    runtime.balances.set_balance(name("Mark"), 10000);
    runtime
}

#[test]
fn new_runtime_is_empty() {
    let runtime = Runtime::new();
    assert_eq!(runtime.system.block_number(), 0);
    assert_eq!(runtime.system.get_nonce(name("Alice")), 0);
    assert_eq!(runtime.balances.get_balance(&name("Alice")), 0);
}

#[test]
fn runtime_transfer_between_funded_accounts() {
    let mut runtime = funded();
    assert_eq!(runtime.balances.transfer(name("Alice"), name("Bob"), 1000), Ok(()));
    assert_eq!(runtime.balances.get_balance(&name("Alice")), 9000);
    assert_eq!(runtime.balances.get_balance(&name("Bob")), 11000);
    assert_eq!(runtime.balances.get_balance(&name("Mark")), 10000);
}

#[test]
fn first_block_then_replay_is_rejected() {
    let mut runtime = Runtime::new();
    assert_eq!(runtime.execute_block(block(1, vec![])), Ok(vec![]));
    assert_eq!(runtime.system.block_number(), 1);
    assert_eq!(
        runtime.execute_block(block(1, vec![])),
        Err(DispatchError::BlockNumberMismatch)
    );
    assert_eq!(runtime.system.block_number(), 1);
}

#[test]
fn block_with_wrong_number_applies_nothing() {
    let mut runtime = funded();
    let outcome = runtime.execute_block(block(2, vec![transfer("Alice", 0, "Bob", 1000)]));
    assert_eq!(outcome, Err(DispatchError::BlockNumberMismatch));
    assert_eq!(runtime.system.block_number(), 0);
    assert_eq!(runtime.system.get_nonce(name("Alice")), 0);
    assert_eq!(runtime.balances.get_balance(&name("Alice")), 10000);
    assert_eq!(runtime.balances.get_balance(&name("Bob")), 10000);
    let outcome = runtime.execute_block(block(0, vec![transfer("Alice", 0, "Bob", 1000)]));
    assert_eq!(outcome, Err(DispatchError::BlockNumberMismatch));
    assert_eq!(runtime.balances.get_balance(&name("Alice")), 10000);
}

#[test]
fn block_applies_extrinsics_in_order() {
    let mut runtime = funded();
    let outcome = runtime.execute_block(block(
        1,
        vec![
            transfer("Alice", 0, "Bob", 1000),
            transfer("Alice", 1, "Mark", 500),
            transfer("Bob", 0, "Alice", 11000),
        ],
    ));
    assert_eq!(outcome, Ok(vec![Ok(()), Ok(()), Ok(())]));
    assert_eq!(runtime.balances.get_balance(&name("Alice")), 19500);
    assert_eq!(runtime.balances.get_balance(&name("Bob")), 0);
    assert_eq!(runtime.balances.get_balance(&name("Mark")), 10500);
    assert_eq!(runtime.system.get_nonce(name("Alice")), 2);
    assert_eq!(runtime.system.get_nonce(name("Bob")), 1);
    assert_eq!(runtime.system.get_nonce(name("Mark")), 0);
    assert_eq!(runtime.system.block_number(), 1);
}

#[test]
fn block_continues_past_failed_extrinsics() {
    let mut runtime = funded();
    let outcome = runtime.execute_block(block(
        1,
        vec![
            transfer("Alice", 1, "Bob", 1000),
            transfer("Alice", 0, "Bob", 20000),
            support::Extrinsic {
                caller: name("Alice"),
                nonce: 0,
                call: support::RuntimeCall::Unrecognized { tag: 9 },
            },
            transfer("Alice", 0, "Bob", 1),
            transfer("Alice", 0, "Bob", 1),
        ],
    ));
    assert_eq!(
        outcome,
        Ok(vec![
            Err(DispatchError::InvalidNonce),
            Err(DispatchError::InsufficientBalance),
            Err(DispatchError::UnknownCall),
            Ok(()),
            Err(DispatchError::InvalidNonce),
        ])
    );
    assert_eq!(runtime.balances.get_balance(&name("Alice")), 9999);
    assert_eq!(runtime.balances.get_balance(&name("Bob")), 10001);
    assert_eq!(runtime.system.get_nonce(name("Alice")), 1);
    assert_eq!(runtime.system.block_number(), 1);
}

#[test]
fn consecutive_blocks_advance_the_counter() {
    let mut runtime = funded();
    assert_eq!(
        runtime.execute_block(block(1, vec![transfer("Alice", 0, "Bob", 10)])),
        Ok(vec![Ok(())])
    );
    assert_eq!(
        runtime.execute_block(block(2, vec![transfer("Alice", 1, "Bob", 10)])),
        Ok(vec![Ok(())])
    );
    assert_eq!(
        runtime.execute_block(block(4, vec![transfer("Alice", 2, "Bob", 10)])),
        Err(DispatchError::BlockNumberMismatch)
    );
    assert_eq!(runtime.system.block_number(), 2);
    assert_eq!(runtime.balances.get_balance(&name("Alice")), 9980);
    assert_eq!(runtime.balances.get_balance(&name("Bob")), 10020);
}

#[test]
fn dispatch_routes_a_transfer() {
    let mut runtime = funded();
    let call: RuntimeCall = support::RuntimeCall::Transfer { to: name("Mark"), amount: 250 };
    assert_eq!(runtime.dispatch(name("Bob"), &call), Ok(()));
    assert_eq!(runtime.balances.get_balance(&name("Bob")), 9750);
    assert_eq!(runtime.balances.get_balance(&name("Mark")), 10250);
    assert_eq!(runtime.system.get_nonce(name("Bob")), 0);
}

#[test]
fn dispatch_reports_insufficient_balance() {
    let mut runtime = funded();
    let call: RuntimeCall = support::RuntimeCall::Transfer { to: name("Mark"), amount: 10001 };
    assert_eq!(runtime.dispatch(name("Bob"), &call), Err(DispatchError::InsufficientBalance));
    assert_eq!(runtime.balances.get_balance(&name("Bob")), 10000);
    assert_eq!(runtime.balances.get_balance(&name("Mark")), 10000);
}

#[test]
fn dispatch_rejects_an_unrecognized_call() {
    let mut runtime = funded();
    let call: RuntimeCall = support::RuntimeCall::Unrecognized { tag: 77 };
    assert_eq!(runtime.dispatch(name("Bob"), &call), Err(DispatchError::UnknownCall));
    assert_eq!(runtime.balances.get_balance(&name("Bob")), 10000);
}

#[test]
fn apply_extrinsic_checks_the_nonce() {
    let mut runtime = funded();
    assert_eq!(
        runtime.apply_extrinsic(&transfer("Alice", 3, "Bob", 1)),
        Err(DispatchError::InvalidNonce)
    );
    assert_eq!(runtime.balances.get_balance(&name("Alice")), 10000);
    assert_eq!(runtime.system.get_nonce(name("Alice")), 0);
    assert_eq!(runtime.apply_extrinsic(&transfer("Alice", 0, "Bob", 1)), Ok(()));
    assert_eq!(runtime.system.get_nonce(name("Alice")), 1);
    assert_eq!(runtime.balances.get_balance(&name("Alice")), 9999);
}

#[test]
fn failed_dispatch_keeps_the_nonce() {
    let mut runtime = funded();
    assert_eq!(
        runtime.apply_extrinsic(&transfer("Alice", 0, "Bob", 10001)),
        Err(DispatchError::InsufficientBalance)
    );
    assert_eq!(runtime.system.get_nonce(name("Alice")), 0);
    assert_eq!(runtime.apply_extrinsic(&transfer("Alice", 0, "Bob", 10000)), Ok(()));
    assert_eq!(runtime.system.get_nonce(name("Alice")), 1);
}
