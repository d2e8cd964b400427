use coffee_token::{
    check_nonnegative_amount, Address, AddressKind, Event, Host, Token, TokenError,
};

fn addr(n: u128) -> Address {
    Address { kind: AddressKind::Account, hi: 0, lo: n }
}

fn fresh() -> (Host, Address) {
    let mut host = Host::new();
    let admin = addr(1);
    Token::initialize(&mut host, admin, 7, "Coffee".to_string(), "COF".to_string()).unwrap();
    (host, admin)
}

fn funded(holders: &[(Address, i128)]) -> (Host, Address) {
    let (mut host, admin) = fresh();
    host.set_auths(vec![admin]);
    for (who, amount) in holders {
        Token::mint(&mut host, *who, *amount).unwrap();
    }
    host.clear_auths();
    (host, admin)
}

fn total(host: &Host, holders: &[Address]) -> i128 {
    holders.iter().map(|a| Token::balance(host, *a)).sum()
}

#[test]
fn nonnegative_amounts_pass_and_negative_ones_do_not() {
    assert_eq!(check_nonnegative_amount(0), Ok(()));
    assert_eq!(check_nonnegative_amount(1), Ok(()));
    assert_eq!(check_nonnegative_amount(i128::MAX), Ok(()));
    assert_eq!(check_nonnegative_amount(-1), Err(TokenError::InvalidArgument));
    assert_eq!(check_nonnegative_amount(i128::MIN), Err(TokenError::InvalidArgument));
}

#[test]
fn unknown_account_has_balance_zero() {
    let (host, _) = fresh();
    assert_eq!(Token::balance(&host, addr(42)), 0);
    assert_eq!(Token::balance(&Host::new(), addr(42)), 0);
}

#[test]
fn mint_raises_the_balance_and_publishes() {
    let (mut host, admin) = fresh();
    host.set_auths(vec![admin]);
    assert_eq!(Token::mint(&mut host, addr(2), 100), Ok(()));
    assert_eq!(Token::mint(&mut host, addr(2), 23), Ok(()));
    assert_eq!(Token::balance(&host, addr(2)), 123);
    assert_eq!(
        host.events().as_slice(),
        &[
            Event::Mint { admin, to: addr(2), amount: 100 },
            Event::Mint { admin, to: addr(2), amount: 23 },
        ]
    );
}

#[test]
fn mint_of_zero_succeeds() {
    let (mut host, admin) = fresh();
    host.set_auths(vec![admin]);
    assert_eq!(Token::mint(&mut host, addr(2), 0), Ok(()));
    assert_eq!(Token::balance(&host, addr(2)), 0);
    assert_eq!(host.events().len(), 1);
}

#[test]
fn mint_of_a_negative_amount_is_an_invalid_argument() {
    let (mut host, admin) = fresh();
    host.set_auths(vec![admin]);
    let before = host.clone();
    assert_eq!(Token::mint(&mut host, addr(2), -1), Err(TokenError::InvalidArgument));
    assert_eq!(host, before);
}

#[test]
fn negative_mint_is_refused_before_authorization_is_asked() {
    let (mut host, _) = fresh();
    assert_eq!(Token::mint(&mut host, addr(2), -5), Err(TokenError::InvalidArgument));
}

#[test]
fn mint_without_the_administrator_is_unauthorized() {
    let (mut host, _) = fresh();
    host.set_auths(vec![addr(2)]);
    let before = host.clone();
    assert_eq!(Token::mint(&mut host, addr(2), 5), Err(TokenError::Unauthorized));
    assert_eq!(host, before);
}

#[test]
fn mint_before_initialization_is_unauthorized() {
    let mut host = Host::new();
    host.set_auths(vec![addr(1)]);
    assert_eq!(Token::mint(&mut host, addr(2), 5), Err(TokenError::Unauthorized));
    assert_eq!(Token::balance(&host, addr(2)), 0);
}

#[test]
fn mint_past_the_largest_balance_overflows_and_changes_nothing() {
    let (mut host, admin) = fresh();
    host.set_auths(vec![admin]);
    Token::mint(&mut host, addr(2), i128::MAX).unwrap();
    let before = host.clone();
    assert_eq!(Token::mint(&mut host, addr(2), 1), Err(TokenError::Overflow));
    assert_eq!(host, before);
    assert_eq!(Token::balance(&host, addr(2)), i128::MAX);
}

#[test]
fn transfer_moves_the_amount() {
    let (mut host, _) = funded(&[(addr(2), 100)]);
    host.set_auths(vec![addr(2)]);
    assert_eq!(Token::transfer(&mut host, addr(2), addr(3), 40), Ok(()));
    assert_eq!(Token::balance(&host, addr(2)), 60);
    assert_eq!(Token::balance(&host, addr(3)), 40);
    assert_eq!(
        host.events().last(),
        Some(&Event::Transfer { from: addr(2), to: addr(3), amount: 40 })
    );
}

#[test]
fn transfer_of_the_whole_balance_and_of_zero() {
    let (mut host, _) = funded(&[(addr(2), 100)]);
    host.set_auths(vec![addr(2)]);
    assert_eq!(Token::transfer(&mut host, addr(2), addr(3), 0), Ok(()));
    assert_eq!(Token::balance(&host, addr(2)), 100);
    assert_eq!(Token::transfer(&mut host, addr(2), addr(3), 100), Ok(()));
    assert_eq!(Token::balance(&host, addr(2)), 0);
    assert_eq!(Token::balance(&host, addr(3)), 100);
}

#[test]
fn transfer_to_oneself_keeps_the_balance_and_still_publishes() {
    let (mut host, _) = funded(&[(addr(2), 100)]);
    host.set_auths(vec![addr(2)]);
    let events = host.events().len();
    assert_eq!(Token::transfer(&mut host, addr(2), addr(2), 70), Ok(()));
    assert_eq!(Token::balance(&host, addr(2)), 100);
    assert_eq!(host.events().len(), events + 1);
    assert_eq!(
        host.events().last(),
        Some(&Event::Transfer { from: addr(2), to: addr(2), amount: 70 })
    );
}

#[test]
fn transfer_to_oneself_needs_authorization_and_funds() {
    let (mut host, _) = funded(&[(addr(2), 100)]);
    assert_eq!(Token::transfer(&mut host, addr(2), addr(2), 70), Err(TokenError::Unauthorized));
    host.set_auths(vec![addr(2)]);
    assert_eq!(
        Token::transfer(&mut host, addr(2), addr(2), 101),
        Err(TokenError::InsufficientBalance)
    );
}

#[test]
fn transfer_to_oneself_at_the_largest_balance_does_not_overflow() {
    let (mut host, _) = funded(&[(addr(2), i128::MAX)]);
    host.set_auths(vec![addr(2)]);
    assert_eq!(Token::transfer(&mut host, addr(2), addr(2), i128::MAX), Ok(()));
    assert_eq!(Token::balance(&host, addr(2)), i128::MAX);
}

#[test]
fn transfer_of_more_than_the_balance_fails_and_changes_nothing() {
    let (mut host, _) = funded(&[(addr(2), 100)]);
    host.set_auths(vec![addr(2)]);
    let before = host.clone();
    assert_eq!(
        Token::transfer(&mut host, addr(2), addr(3), 101),
        Err(TokenError::InsufficientBalance)
    );
    assert_eq!(host, before);
}

#[test]
fn transfer_without_the_owner_is_unauthorized() {
    let (mut host, admin) = funded(&[(addr(2), 100)]);
    host.set_auths(vec![admin, addr(3)]);
    let before = host.clone();
    assert_eq!(Token::transfer(&mut host, addr(2), addr(3), 10), Err(TokenError::Unauthorized));
    assert_eq!(host, before);
}

#[test]
fn unauthorized_comes_before_invalid_argument_in_a_transfer() {
    let (mut host, _) = funded(&[(addr(2), 100)]);
    assert_eq!(Token::transfer(&mut host, addr(2), addr(3), -1), Err(TokenError::Unauthorized));
    host.set_auths(vec![addr(2)]);
    assert_eq!(
        Token::transfer(&mut host, addr(2), addr(3), -1),
        Err(TokenError::InvalidArgument)
    );
}

#[test]
fn transfer_that_would_overflow_the_receiver_changes_nothing() {
    let (mut host, _) = funded(&[(addr(2), 100), (addr(3), i128::MAX - 5)]);
    host.set_auths(vec![addr(2)]);
    let before = host.clone();
    assert_eq!(Token::transfer(&mut host, addr(2), addr(3), 6), Err(TokenError::Overflow));
    assert_eq!(host, before);
    assert_eq!(Token::transfer(&mut host, addr(2), addr(3), 5), Ok(()));
    assert_eq!(Token::balance(&host, addr(3)), i128::MAX);
    assert_eq!(Token::balance(&host, addr(2)), 95);
}

#[test]
fn burn_lowers_the_balance_and_publishes() {
    let (mut host, _) = funded(&[(addr(2), 100)]);
    host.set_auths(vec![addr(2)]);
    assert_eq!(Token::burn(&mut host, addr(2), 30), Ok(()));
    assert_eq!(Token::balance(&host, addr(2)), 70);
    assert_eq!(host.events().last(), Some(&Event::Burn { from: addr(2), amount: 30 }));
}

#[test]
fn burn_failures() {
    let (mut host, admin) = funded(&[(addr(2), 100)]);
    host.set_auths(vec![admin]);
    assert_eq!(Token::burn(&mut host, addr(2), 30), Err(TokenError::Unauthorized));
    host.set_auths(vec![addr(2)]);
    assert_eq!(Token::burn(&mut host, addr(2), -30), Err(TokenError::InvalidArgument));
    let before = host.clone();
    assert_eq!(Token::burn(&mut host, addr(2), 101), Err(TokenError::InsufficientBalance));
    assert_eq!(host, before);
    assert_eq!(Token::burn(&mut host, addr(2), 100), Ok(()));
    assert_eq!(Token::balance(&host, addr(2)), 0);
}

#[test]
fn transfers_conserve_the_sum_of_balances() {
    let holders = [addr(2), addr(3), addr(4), addr(5)];
    let (mut host, _) = funded(&[(addr(2), 100), (addr(3), 50), (addr(4), 7)]);
    assert_eq!(total(&host, &holders), 157);
    host.set_auths(vec![addr(2), addr(3), addr(4), addr(5)]);
    Token::approve(&mut host, addr(3), addr(5), 20, 10).unwrap();
    let moves = [
        Token::transfer(&mut host, addr(2), addr(3), 60),
        Token::transfer(&mut host, addr(3), addr(4), 110),
        Token::transfer(&mut host, addr(4), addr(4), 5),
        Token::transfer(&mut host, addr(4), addr(5), 500),
        Token::transfer_from(&mut host, addr(5), addr(3), addr(2), 0),
        Token::transfer_from(&mut host, addr(5), addr(3), addr(5), 1),
        Token::transfer_from(&mut host, addr(5), addr(3), addr(5), 20),
        Token::transfer(&mut host, addr(5), addr(2), -3),
    ];
    assert_eq!(
        moves,
        [
            Ok(()),
            Ok(()),
            Ok(()),
            Err(TokenError::InsufficientBalance),
            Ok(()),
            Err(TokenError::InsufficientBalance),
            Err(TokenError::InsufficientBalance),
            Err(TokenError::InvalidArgument),
        ]
    );
    assert_eq!(Token::balance(&host, addr(2)), 40);
    assert_eq!(Token::balance(&host, addr(3)), 0);
    assert_eq!(Token::balance(&host, addr(4)), 117);
    assert_eq!(Token::balance(&host, addr(5)), 0);
    assert_eq!(total(&host, &holders), 157);
}

#[test]
fn supply_is_what_was_minted_less_what_was_burned() {
    let holders = [addr(2), addr(3), addr(4)];
    let (mut host, admin) = fresh();
    host.set_auths(vec![admin, addr(2), addr(3), addr(4)]);
    let mut minted: i128 = 0;
    let mut burned: i128 = 0;
    for (to, amount) in [(addr(2), 100), (addr(3), 40), (addr(2), -4), (addr(4), 9)] {
        if Token::mint(&mut host, to, amount).is_ok() {
            minted += amount;
        }
    }
    Token::transfer(&mut host, addr(2), addr(4), 30).unwrap();
    Token::approve(&mut host, addr(4), addr(3), 25, 100).unwrap();
    for (from, amount) in [(addr(2), 70), (addr(2), 1), (addr(3), 15)] {
        if Token::burn(&mut host, from, amount).is_ok() {
            burned += amount;
        }
    }
    for amount in [20, 6, 5] {
        if Token::burn_from(&mut host, addr(3), addr(4), amount).is_ok() {
            burned += amount;
        }
    }
    assert_eq!(minted, 149);
    assert_eq!(burned, 110);
    assert_eq!(total(&host, &holders), 39);
    assert_eq!(total(&host, &holders), minted - burned);
}

#[test]
fn operations_without_authorization_change_nothing() {
    let (mut host, _) = funded(&[(addr(2), 100)]);
    host.set_auths(vec![addr(9)]);
    let before = host.clone();
    let outcomes = [
        Token::mint(&mut host, addr(2), 1),
        Token::set_admin(&mut host, addr(9)),
        Token::freeze_account(&mut host, addr(2)),
        Token::unfreeze_account(&mut host, addr(2)),
        Token::add_coffee_point(&mut host, addr(2), addr(3)),
        Token::check_free_coffee(&mut host, addr(2)),
        Token::redeem_free_coffee(&mut host, addr(2)),
        Token::approve(&mut host, addr(2), addr(9), 10, 100),
        Token::transfer(&mut host, addr(2), addr(9), 10),
        Token::transfer_from(&mut host, addr(3), addr(2), addr(9), 10),
        Token::burn(&mut host, addr(2), 10),
        Token::burn_from(&mut host, addr(3), addr(2), 10),
    ];
    for outcome in outcomes {
        assert_eq!(outcome, Err(TokenError::Unauthorized));
    }
    assert_eq!(host, before);
}

#[test]
fn addresses_differ_by_kind_and_by_either_half() {
    let (mut host, _) = funded(&[(addr(2), 100)]);
    let contract = Address { kind: AddressKind::Contract, hi: 0, lo: 2 };
    let high = Address { kind: AddressKind::Account, hi: 2, lo: 0 };
    let both = Address { kind: AddressKind::Account, hi: 1, lo: 2 };
    assert_eq!(Token::balance(&host, contract), 0);
    assert_eq!(Token::balance(&host, high), 0);
    assert_eq!(Token::balance(&host, both), 0);
    host.set_auths(vec![contract]);
    assert_eq!(Token::transfer(&mut host, addr(2), contract, 1), Err(TokenError::Unauthorized));
    host.set_auths(vec![addr(2)]);
    assert_eq!(Token::transfer(&mut host, addr(2), contract, 1), Ok(()));
    assert_eq!(Token::balance(&host, contract), 1);
    assert_eq!(Token::balance(&host, addr(2)), 99);
}
