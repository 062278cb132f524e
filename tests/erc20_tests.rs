use erc20::account::AccountId;
use erc20::erc20::{Approval, Erc20, Error, Event, Transfer};

fn setup() -> (AccountId, AccountId) {
    let alice = AccountId::default();
    let bob = AccountId::from_bytes([1u8; 20]);
    (alice, bob)
}

fn last_transfer(contract: &Erc20) -> (Option<AccountId>, Option<AccountId>, u128) {
    match contract.events().last() {
        Some(Event::Transfer(t)) => (t.from, t.to, t.value),
        other => panic!("expected a transfer event, found {:?}", other),
    }
}

fn last_approval(contract: &Erc20) -> (AccountId, AccountId, u128) {
    match contract.events().last() {
        Some(Event::Approval(a)) => (a.owner, a.spender, a.value),
        other => panic!("expected an approval event, found {:?}", other),
    }
}

#[test]
fn test_new_works() {
    let (alice, _) = setup();
    let initial_supply: u128 = 1000;
    let contract = Erc20::new(alice, initial_supply);
    assert_eq!(contract.total_supply(), initial_supply);
    assert_eq!(contract.balance_of(alice), initial_supply);

    let events = contract.events();
    assert_eq!(events.len(), 1);
    let (from, to, value) = last_transfer(&contract);
    assert_eq!(from, None);
    assert_eq!(to, Some(alice));
    assert_eq!(value, initial_supply);
}

#[test]
fn test_transfer_works() {
    let (alice, bob) = setup();
    let initial_supply: u128 = 1000;
    let mut contract = Erc20::new(alice, initial_supply);
    let transfer_amount: u128 = 100;
    assert_eq!(contract.balance_of(bob), 0);

    let initial_events_len = contract.events().len();
    contract.transfer(alice, bob, transfer_amount).unwrap();

    assert_eq!(contract.events().len(), initial_events_len + 1);
    let (from, to, value) = last_transfer(&contract);
    assert_eq!(from, Some(alice));
    assert_eq!(to, Some(bob));
    assert_eq!(value, transfer_amount);

    assert_eq!(contract.balance_of(alice), initial_supply - transfer_amount);
    assert_eq!(contract.balance_of(bob), transfer_amount);
}

#[test]
fn test_transfer_fails_with_insufficient_balance() {
    let (alice, bob) = setup();
    let initial_supply: u128 = 1000;
    let mut contract = Erc20::new(alice, initial_supply);
    let transfer_amount: u128 = 1001;

    let initial_events_len = contract.events().len();
    let result = contract.transfer(alice, bob, transfer_amount);
    assert_eq!(result, Err(Error::InsufficientBalance));

    assert_eq!(contract.events().len(), initial_events_len);

    assert_eq!(contract.balance_of(alice), initial_supply);
    assert_eq!(contract.balance_of(bob), 0);
}

#[test]
fn test_approve_works() {
    let (alice, bob) = setup();
    let initial_supply: u128 = 1000;
    let mut contract = Erc20::new(alice, initial_supply);
    let approve_amount: u128 = 200;
    assert_eq!(contract.allowance(alice, bob), 0);

    let initial_events_len = contract.events().len();
    contract.approve(alice, bob, approve_amount).unwrap();

    assert_eq!(contract.events().len(), initial_events_len + 1);
    let (owner, spender, value) = last_approval(&contract);
    assert_eq!(owner, alice);
    assert_eq!(spender, bob);
    assert_eq!(value, approve_amount);

    assert_eq!(contract.allowance(alice, bob), approve_amount);
}

#[test]
fn test_transfer_from_works() {
    let (alice, bob) = setup();
    let initial_supply: u128 = 1000;
    let mut contract = Erc20::new(alice, initial_supply);
    let transfer_amount: u128 = 100;

    contract.approve(alice, bob, 200).unwrap();
    assert_eq!(contract.allowance(alice, bob), 200);

    let initial_events_len = contract.events().len();
    let result = contract.transfer_from(bob, alice, bob, transfer_amount);
    assert_eq!(result, Ok(()));

    assert_eq!(contract.events().len(), initial_events_len + 1);
    let (from, to, value) = last_transfer(&contract);
    assert_eq!(from, Some(alice));
    assert_eq!(to, Some(bob));
    assert_eq!(value, transfer_amount);

    assert_eq!(contract.balance_of(alice), initial_supply - transfer_amount);
    assert_eq!(contract.balance_of(bob), transfer_amount);
    assert_eq!(contract.allowance(alice, bob), 100);
}

#[test]
fn test_transfer_from_fails_with_insufficient_allowance() {
    let (alice, bob) = setup();
    let initial_supply: u128 = 1000;
    let mut contract = Erc20::new(alice, initial_supply);
    let transfer_amount: u128 = 100;

    contract.approve(alice, bob, 50).unwrap();

    let initial_events_len = contract.events().len();
    let result = contract.transfer_from(bob, alice, bob, transfer_amount);
    assert_eq!(result, Err(Error::InsufficientAllowance));

    assert_eq!(contract.events().len(), initial_events_len);

    assert_eq!(contract.balance_of(alice), initial_supply);
    assert_eq!(contract.balance_of(bob), 0);
    assert_eq!(contract.allowance(alice, bob), 50);
}

#[test]
fn test_transfer_from_fails_with_insufficient_balance() {
    let (alice, bob) = setup();
    let initial_supply: u128 = 1000;
    let mut contract = Erc20::new(alice, initial_supply);
    let transfer_amount: u128 = 1001;

    contract.approve(alice, bob, 2000).unwrap();

    let initial_events_len = contract.events().len();
    let result = contract.transfer_from(bob, alice, bob, transfer_amount);
    assert_eq!(result, Err(Error::InsufficientBalance));

    assert_eq!(contract.events().len(), initial_events_len);

    assert_eq!(contract.balance_of(alice), initial_supply);
    assert_eq!(contract.balance_of(bob), 0);
    assert_eq!(contract.allowance(alice, bob), 2000);
}

#[test]
fn test_allowance_returns_zero_by_default() {
    let (alice, bob) = setup();
    let contract = Erc20::new(alice, 1000);
    assert_eq!(contract.allowance(alice, bob), 0);
}

#[test]
fn test_balance_returns_zero_by_default() {
    let (alice, bob) = setup();
    let contract = Erc20::new(alice, 1000);
    assert_eq!(contract.balance_of(bob), 0);
}

#[test]
fn event_values_compare_whole() {
    let (alice, bob) = setup();
    let mut contract = Erc20::new(alice, 10);
    contract.approve(alice, bob, 3).unwrap();
    contract.transfer(alice, bob, 4).unwrap();
    let expected = vec![
        Event::Transfer(Transfer { from: None, to: Some(alice), value: 10 }),
        Event::Approval(Approval { owner: alice, spender: bob, value: 3 }),
        Event::Transfer(Transfer { from: Some(alice), to: Some(bob), value: 4 }),
    ];
    assert_eq!(contract.events(), &expected);
}
