use coffee_token::admin::{has_administrator, read_administrator, write_administrator};
use coffee_token::balance::{
    balance_after_receive, balance_after_spend, balances_after_move, move_balance, read_balance,
    receive_balance, spend_balance, write_balance,
};
use coffee_token::metadata::{has_metadata, read_decimal, read_name, read_symbol, write_metadata};
use coffee_token::{
    Address, AddressKind, AllowanceDataKey, Event, Host, Key, Table, TokenError, TokenMetadata,
};

fn addr(n: u128) -> Address {
    Address { kind: AddressKind::Account, hi: 0, lo: n }
}

#[test]
fn new_host_is_empty() {
    let host = Host::new();
    assert_eq!(host.admin, None);
    assert_eq!(host.metadata, None);
    assert!(host.balances.entries().is_empty());
    assert!(host.allowances.entries().is_empty());
    assert!(host.frozen.entries().is_empty());
    assert!(host.coffee_points.entries().is_empty());
    assert!(host.free_coffee.entries().is_empty());
    assert_eq!(host.ledger_sequence(), 0);
    assert!(host.auths.is_empty());
    assert!(host.events().is_empty());
}

#[test]
fn authorizations_are_set_added_and_cleared() {
    let mut host = Host::new();
    assert_eq!(host.require_auth(&addr(1)), Err(TokenError::Unauthorized));
    host.authorize(addr(1));
    assert_eq!(host.require_auth(&addr(1)), Ok(()));
    assert_eq!(host.require_auth(&addr(2)), Err(TokenError::Unauthorized));
    host.authorize(addr(2));
    assert_eq!(host.require_auth(&addr(1)), Ok(()));
    assert_eq!(host.require_auth(&addr(2)), Ok(()));
    host.set_auths(vec![addr(3)]);
    assert_eq!(host.require_auth(&addr(1)), Err(TokenError::Unauthorized));
    assert_eq!(host.require_auth(&addr(3)), Ok(()));
    host.clear_auths();
    assert_eq!(host.require_auth(&addr(3)), Err(TokenError::Unauthorized));
}

#[test]
fn ledger_sequence_is_set_and_read() {
    let mut host = Host::new();
    host.set_ledger_sequence(77);
    assert_eq!(host.ledger_sequence(), 77);
    host.set_ledger_sequence(u32::MAX);
    assert_eq!(host.ledger_sequence(), u32::MAX);
}

#[test]
fn published_events_are_kept_in_order() {
    let mut host = Host::new();
    let first = Event::Burn { from: addr(1), amount: 3 };
    let second = Event::Transfer { from: addr(1), to: addr(2), amount: 4 };
    host.publish(first);
    host.publish(second);
    assert_eq!(host.events().as_slice(), &[first, second]);
}

#[test]
fn event_names_and_actors() {
    let a = addr(1);
    let b = addr(2);
    let c = addr(3);
    let cases = [
        (Event::Mint { admin: a, to: b, amount: 1 }, "mint", a),
        (Event::SetAdmin { admin: a, new_admin: b }, "set_admin", a),
        (Event::FreezeAccount { admin: a, account: b }, "freeze_account", a),
        (Event::UnfreezeAccount { admin: a, account: b }, "unfreeze_account", a),
        (
            Event::AddCoffeePoint { admin: a, account: b, points: 1, price: 10, shop_owner: c },
            "add_coffee_point",
            a,
        ),
        (Event::FreeCoffeeGranted { admin: a, account: b }, "free_coffee_granted", a),
        (Event::FreeCoffeeRedeemed { admin: a, account: b }, "free_coffee_redeemed", a),
        (
            Event::Approve { from: b, spender: c, amount: 1, expiration_ledger: 2 },
            "approve",
            b,
        ),
        (Event::Transfer { from: b, to: c, amount: 1 }, "transfer", b),
        (Event::Burn { from: c, amount: 1 }, "burn", c),
    ];
    for (event, name, actor) in cases {
        assert_eq!(event.name(), name);
        assert_eq!(event.actor(), actor);
    }
}

#[test]
fn error_messages() {
    let cases = [
        (TokenError::AlreadyInitialized, "already initialized"),
        (TokenError::InvalidArgument, "invalid argument"),
        (TokenError::Unauthorized, "unauthorized"),
        (TokenError::AccountFrozen, "account is frozen"),
        (TokenError::InsufficientBalance, "insufficient balance"),
        (TokenError::InsufficientAllowance, "insufficient allowance"),
        (TokenError::InsufficientPoints, "not enough points"),
        (TokenError::NoFreeCoffee, "no free coffee available"),
        (TokenError::Overflow, "arithmetic overflow"),
    ];
    for (error, text) in cases {
        assert_eq!(error.message(), text);
    }
}

#[test]
fn keys_are_the_same_when_all_fields_agree() {
    assert!(addr(1).same(&addr(1)));
    assert!(!addr(1).same(&addr(2)));
    assert!(!addr(1).same(&Address { kind: AddressKind::Contract, hi: 0, lo: 1 }));
    assert!(!addr(1).same(&Address { kind: AddressKind::Account, hi: 1, lo: 1 }));
    let key = AllowanceDataKey { from: addr(1), spender: addr(2) };
    assert!(key.same(&AllowanceDataKey { from: addr(1), spender: addr(2) }));
    assert!(!key.same(&AllowanceDataKey { from: addr(2), spender: addr(1) }));
    assert!(!key.same(&AllowanceDataKey { from: addr(1), spender: addr(1) }));
}

#[test]
fn table_sets_gets_and_removes() {
    let mut table: Table<Address, i128> = Table::new();
    assert_eq!(table.get(&addr(1)), None);
    table.set(addr(1), 10);
    table.set(addr(2), 20);
    table.set(addr(3), 30);
    assert_eq!(table.get(&addr(1)), Some(10));
    assert_eq!(table.get(&addr(2)), Some(20));
    assert_eq!(table.get(&addr(3)), Some(30));
    assert_eq!(table.get(&addr(4)), None);
    table.set(addr(2), 21);
    assert_eq!(table.get(&addr(2)), Some(21));
    assert_eq!(table.entries(), vec![(addr(1), 10), (addr(2), 21), (addr(3), 30)]);
    table.remove(&addr(1));
    assert_eq!(table.get(&addr(1)), None);
    assert_eq!(table.entries(), vec![(addr(2), 21), (addr(3), 30)]);
    table.remove(&addr(1));
    table.remove(&addr(9));
    assert_eq!(table.entries(), vec![(addr(2), 21), (addr(3), 30)]);
    table.remove(&addr(3));
    table.remove(&addr(2));
    assert!(table.entries().is_empty());
    assert_eq!(table, Table::new());
}

#[test]
fn table_clone_is_independent() {
    let mut table: Table<Address, bool> = Table::new();
    table.set(addr(1), true);
    let copy = table.clone();
    table.set(addr(1), false);
    table.set(addr(2), true);
    assert_eq!(copy.get(&addr(1)), Some(true));
    assert_eq!(copy.get(&addr(2)), None);
    assert_eq!(table.get(&addr(1)), Some(false));
}

#[test]
fn administrator_record() {
    let mut host = Host::new();
    assert!(!has_administrator(&host));
    assert_eq!(read_administrator(&host), None);
    write_administrator(&mut host, &addr(1));
    assert!(has_administrator(&host));
    assert_eq!(read_administrator(&host), Some(addr(1)));
    write_administrator(&mut host, &addr(2));
    assert_eq!(read_administrator(&host), Some(addr(2)));
}

#[test]
fn metadata_record() {
    let mut host = Host::new();
    assert!(!has_metadata(&host));
    write_metadata(
        &mut host,
        TokenMetadata { decimal: 9, name: "Coffee".to_string(), symbol: "COF".to_string() },
    );
    assert!(has_metadata(&host));
    assert_eq!(read_decimal(&host), 9);
    assert_eq!(read_name(&host), "Coffee");
    assert_eq!(read_symbol(&host), "COF");
}

#[test]
fn balance_arithmetic() {
    assert_eq!(balance_after_receive(40, 2), Ok(42));
    assert_eq!(balance_after_receive(0, 0), Ok(0));
    assert_eq!(balance_after_receive(i128::MAX - 1, 1), Ok(i128::MAX));
    assert_eq!(balance_after_receive(i128::MAX, 1), Err(TokenError::Overflow));
    assert_eq!(balance_after_receive(i128::MIN, -1), Err(TokenError::Overflow));
    assert_eq!(balance_after_spend(40, 2), Ok(38));
    assert_eq!(balance_after_spend(40, 40), Ok(0));
    assert_eq!(balance_after_spend(40, 41), Err(TokenError::InsufficientBalance));
    assert_eq!(balance_after_spend(0, 1), Err(TokenError::InsufficientBalance));
    assert_eq!(balance_after_spend(i128::MAX, -1), Err(TokenError::Overflow));
}

#[test]
fn balance_records() {
    let mut host = Host::new();
    assert_eq!(read_balance(&host, addr(1)), 0);
    write_balance(&mut host, addr(1), 50);
    assert_eq!(read_balance(&host, addr(1)), 50);
    assert_eq!(receive_balance(&mut host, addr(1), 5), Ok(()));
    assert_eq!(read_balance(&host, addr(1)), 55);
    assert_eq!(spend_balance(&mut host, addr(1), 15), Ok(()));
    assert_eq!(read_balance(&host, addr(1)), 40);
    let before = host.clone();
    assert_eq!(spend_balance(&mut host, addr(1), 41), Err(TokenError::InsufficientBalance));
    assert_eq!(receive_balance(&mut host, addr(1), i128::MAX), Err(TokenError::Overflow));
    assert_eq!(host, before);
}

#[test]
fn moving_a_balance() {
    let mut host = Host::new();
    write_balance(&mut host, addr(1), 50);
    write_balance(&mut host, addr(2), 7);
    assert_eq!(balances_after_move(&host, addr(1), addr(2), 20), Ok((30, 27)));
    assert_eq!(balances_after_move(&host, addr(1), addr(1), 20), Ok((30, 50)));
    assert_eq!(
        balances_after_move(&host, addr(1), addr(2), 51),
        Err(TokenError::InsufficientBalance)
    );
    assert_eq!(read_balance(&host, addr(1)), 50);
    assert_eq!(move_balance(&mut host, addr(1), addr(2), 20), Ok(()));
    assert_eq!(read_balance(&host, addr(1)), 30);
    assert_eq!(read_balance(&host, addr(2)), 27);
    assert_eq!(move_balance(&mut host, addr(1), addr(1), 30), Ok(()));
    assert_eq!(read_balance(&host, addr(1)), 30);
    write_balance(&mut host, addr(3), i128::MAX);
    let before = host.clone();
    assert_eq!(move_balance(&mut host, addr(1), addr(3), 1), Err(TokenError::Overflow));
    assert_eq!(host, before);
}
