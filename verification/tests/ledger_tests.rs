use erc20::AccountId;
use erc20::Erc20;
use erc20::Error;
use erc20::Event;
use erc20::Transfer;

fn alice() -> AccountId {
    AccountId(1)
}

fn bob() -> AccountId {
    AccountId(2)
}

fn eve() -> AccountId {
    AccountId(3)
}

#[test]
fn constructor_works() {
    let mint_amount = 10_000_000;
    let erc20 = Erc20::new(
        String::from("TestToken"),
        String::from("TT"),
        18,
        mint_amount,
        alice(),
    );

    assert_eq!(erc20.name().as_str(), "TestToken");
    assert_eq!(erc20.symbol().as_str(), "TT");
    assert_eq!(erc20.decimals(), 18);
    assert_eq!(erc20.balance_of(alice()), mint_amount);
    assert_eq!(erc20.total_supply(), mint_amount);
}

#[test]
fn balance_of_works() {
    let mint_amount = 10_000_000;

    let erc20 = Erc20::new(
        String::from("TestToken"),
        String::from("TT"),
        18,
        mint_amount,
        alice(),
    );
    let alice_balance = erc20.balance_of(alice());

    assert_eq!(alice_balance, mint_amount);
}

#[test]
fn allowance_works() {
    let mint_amount = 10_000_000;

    let erc20 = Erc20::new(
        String::from("TestToken"),
        String::from("TT"),
        18,
        mint_amount,
        alice(),
    );

    assert_eq!(erc20.allowance(alice(), bob()), 0);
}

#[test]
fn approve_works() {
    let mint_amount = 10_000_000;
    let amount = 10_000;

    let mut erc20 = Erc20::new(
        String::from("TestToken"),
        String::from("TT"),
        18,
        mint_amount,
        alice(),
    );

    let _ = erc20.approve(alice(), bob(), amount);
    assert_eq!(erc20.allowance(alice(), bob()), amount);
}

#[test]
fn transfer_works() {
    let mint_amount = 10_000_000;
    let amount = 10_000;

    let mut erc20 = Erc20::new(
        String::from("TestToken"),
        String::from("TT"),
        18,
        mint_amount,
        alice(),
    );

    let alice_balance = erc20.balance_of(alice());
    let bob_balance = erc20.balance_of(bob());

    let _ = erc20.transfer(alice(), bob(), amount);

    assert_eq!(erc20.balance_of(alice()), alice_balance - amount);
    assert_eq!(erc20.balance_of(bob()), bob_balance + amount);
}

#[test]
fn transfer_from_works() {
    let mint_amount = 10_000_000;
    let amount = 10_000;

    let mut erc20 = Erc20::new(
        String::from("TestToken"),
        String::from("TT"),
        18,
        mint_amount,
        alice(),
    );

    let alice_balance = erc20.balance_of(alice());
    let bob_balance = erc20.balance_of(bob());

    assert_eq!(erc20.approve(alice(), eve(), amount), Ok(()));

    assert_eq!(erc20.transfer_from(eve(), alice(), bob(), amount), Ok(()));

    assert_eq!(erc20.balance_of(alice()), alice_balance - amount);
    assert_eq!(erc20.balance_of(bob()), bob_balance + amount);
}

#[test]
fn approve_overwrites_not_adds() {
    let mut erc20 = Erc20::new(
        String::from("TestToken"),
        String::from("TT"),
        18,
        10_000_000,
        alice(),
    );

    assert_eq!(erc20.approve(alice(), bob(), 100), Ok(()));
    assert_eq!(erc20.allowance(alice(), bob()), 100);
    assert_eq!(erc20.approve(alice(), bob(), 50), Ok(()));
    assert_eq!(erc20.allowance(alice(), bob()), 50);
}

#[test]
fn transfer_success_exact_amounts() {
    let mut erc20 = Erc20::new(
        String::from("TestToken"),
        String::from("TT"),
        18,
        10_000_000,
        alice(),
    );

    assert_eq!(erc20.transfer(alice(), bob(), 10_000), Ok(()));
    assert_eq!(erc20.balance_of(alice()), 9_990_000);
    assert_eq!(erc20.balance_of(bob()), 10_000);
}

#[test]
fn transfer_insufficient_funds() {
    let mut erc20 = Erc20::new(
        String::from("TestToken"),
        String::from("TT"),
        18,
        100,
        alice(),
    );

    assert_eq!(
        erc20.transfer(alice(), bob(), 101),
        Err(Error::InsufficientBalance)
    );
    assert_eq!(erc20.balance_of(alice()), 100);
    assert_eq!(erc20.balance_of(bob()), 0);
    assert_eq!(erc20.events().len(), 1);
}

#[test]
fn delegated_transfer_reduces_allowance() {
    let mut erc20 = Erc20::new(
        String::from("TestToken"),
        String::from("TT"),
        18,
        10_000_000,
        alice(),
    );

    assert_eq!(erc20.approve(alice(), eve(), 10_000), Ok(()));
    assert_eq!(erc20.transfer_from(eve(), alice(), bob(), 10_000), Ok(()));
    assert_eq!(erc20.allowance(alice(), eve()), 0);
}

#[test]
fn delegated_transfer_over_allowance_fails() {
    let mut erc20 = Erc20::new(
        String::from("TestToken"),
        String::from("TT"),
        18,
        10_000_000,
        alice(),
    );

    assert_eq!(erc20.approve(alice(), eve(), 100), Ok(()));
    assert_eq!(
        erc20.transfer_from(eve(), alice(), bob(), 101),
        Err(Error::InsufficientAllowance)
    );
    assert_eq!(erc20.allowance(alice(), eve()), 100);
    assert_eq!(erc20.balance_of(alice()), 10_000_000);
    assert_eq!(erc20.balance_of(bob()), 0);
}

#[test]
fn delegated_transfer_insufficient_balance() {
    let mut erc20 = Erc20::new(
        String::from("TestToken"),
        String::from("TT"),
        18,
        100,
        alice(),
    );

    assert_eq!(erc20.approve(alice(), eve(), 1_000), Ok(()));
    assert_eq!(
        erc20.transfer_from(eve(), alice(), bob(), 500),
        Err(Error::InsufficientBalance)
    );
    assert_eq!(erc20.allowance(alice(), eve()), 1_000);
    assert_eq!(erc20.balance_of(alice()), 100);
    assert_eq!(erc20.balance_of(bob()), 0);
}

#[test]
fn construction_event() {
    let mint_amount = 10_000_000;
    let erc20 = Erc20::new(
        String::from("TestToken"),
        String::from("TT"),
        18,
        mint_amount,
        alice(),
    );

    assert_eq!(erc20.events().len(), 1);
    assert_eq!(
        erc20.events()[0],
        Event::Transfer(Transfer {
            from: AccountId(0),
            to: alice(),
            value: mint_amount,
        })
    );
    assert_eq!(erc20.balance_of(alice()), mint_amount);
    assert_eq!(erc20.total_supply(), mint_amount);
}

#[test]
fn transfer_emits_event() {
    let mut erc20 = Erc20::new(
        String::from("TestToken"),
        String::from("TT"),
        18,
        10_000_000,
        alice(),
    );

    assert_eq!(erc20.transfer(alice(), bob(), 7), Ok(()));
    assert_eq!(erc20.events().len(), 2);
    assert_eq!(
        erc20.events()[1],
        Event::Transfer(Transfer {
            from: alice(),
            to: bob(),
            value: 7,
        })
    );
}

#[test]
fn self_transfer_preserves_balance() {
    let mut erc20 = Erc20::new(
        String::from("TestToken"),
        String::from("TT"),
        18,
        10_000_000,
        alice(),
    );

    assert_eq!(erc20.transfer(alice(), alice(), 5_000), Ok(()));
    assert_eq!(erc20.balance_of(alice()), 10_000_000);
    assert_eq!(erc20.events().len(), 2);
    assert_eq!(
        erc20.events()[1],
        Event::Transfer(Transfer {
            from: alice(),
            to: alice(),
            value: 5_000,
        })
    );
}

#[test]
fn conservation_across_operations() {
    let total = 1_000_000;
    let mut erc20 = Erc20::new(
        String::from("TestToken"),
        String::from("TT"),
        18,
        total,
        alice(),
    );

    assert_eq!(erc20.transfer(alice(), bob(), 300_000), Ok(()));
    assert_eq!(erc20.approve(alice(), eve(), 250_000), Ok(()));
    assert_eq!(erc20.transfer_from(eve(), alice(), eve(), 250_000), Ok(()));
    assert_eq!(erc20.transfer(bob(), eve(), 1), Ok(()));

    let sum = erc20.balance_of(alice()) + erc20.balance_of(bob()) + erc20.balance_of(eve());
    assert_eq!(sum, total);
    assert_eq!(erc20.total_supply(), total);
}

#[test]
fn zero_identity_is_default() {
    assert_eq!(AccountId::default(), AccountId(0));
}
