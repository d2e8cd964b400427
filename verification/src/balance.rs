use crate::error::TokenError;
use crate::host::{Host, HostView};
use crate::storage_types::{Address, Key};
use vstd::prelude::*;

verus! {

/// What a balance becomes when `amount` is added to it.
pub open spec fn spec_balance_after_receive(balance: i128, amount: i128) -> Result<
    i128,
    TokenError,
> {
    if i128::MIN <= balance + amount <= i128::MAX {
        Ok((balance + amount) as i128)
    } else {
        Err(TokenError::Overflow)
    }
}

/// What a balance becomes when `amount` is taken from it.
pub open spec fn spec_balance_after_spend(balance: i128, amount: i128) -> Result<
    i128,
    TokenError,
> {
    if balance < amount {
        Err(TokenError::InsufficientBalance)
    } else if balance - amount > i128::MAX {
        Err(TokenError::Overflow)
    } else {
        Ok((balance - amount) as i128)
    }
}

impl HostView {
    /// The state after `id` has received `amount`, or why it cannot.
    pub open spec fn receive(self, id: Address, amount: i128) -> Result<HostView, TokenError> {
        match spec_balance_after_receive(self.balance(id), amount) {
            Ok(balance) => Ok(self.with_balance(id, balance)),
            Err(e) => Err(e),
        }
    }

    /// The state after `id` has spent `amount`, or why it cannot.
    pub open spec fn spend(self, id: Address, amount: i128) -> Result<HostView, TokenError> {
        match spec_balance_after_spend(self.balance(id), amount) {
            Ok(balance) => Ok(self.with_balance(id, balance)),
            Err(e) => Err(e),
        }
    }

    /// The state after `amount` has moved from `from` to `to`: `from` spends,
    /// then `to` receives. Either both happen or neither does.
    pub open spec fn move_balance(self, from: Address, to: Address, amount: i128) -> Result<
        HostView,
        TokenError,
    > {
        match self.spend(from, amount) {
            Ok(spent) => spent.receive(to, amount),
            Err(e) => Err(e),
        }
    }
}

/// Adds `amount` to `balance`, unless the sum leaves the range of the type.
pub fn balance_after_receive(balance: i128, amount: i128) -> (res: Result<i128, TokenError>)
    ensures
        res == spec_balance_after_receive(balance, amount),
{
    match balance.checked_add(amount) {
        Some(sum) => Ok(sum),
        None => Err(TokenError::Overflow),
    }
}

/// Takes `amount` from `balance`, unless the balance is too small.
pub fn balance_after_spend(balance: i128, amount: i128) -> (res: Result<i128, TokenError>)
    ensures
        res == spec_balance_after_spend(balance, amount),
{
    if balance < amount {
        return Err(TokenError::InsufficientBalance);
    }
    match balance.checked_sub(amount) {
        Some(rest) => Ok(rest),
        None => Err(TokenError::Overflow),
    }
}

/// The balance of `id`: 0 for an account that has none recorded.
pub fn read_balance(host: &Host, id: Address) -> (balance: i128)
    ensures
        balance == host@.balance(id),
{
    match host.balances.get(&id) {
        Some(balance) => balance,
        None => 0,
    }
}

/// Records `amount` as the balance of `id`.
pub fn write_balance(host: &mut Host, id: Address, amount: i128)
    ensures
        final(host)@ == old(host)@.with_balance(id, amount),
{
    host.balances.set(id, amount);
}

/// Adds `amount` to the balance of `id`. Fails with `Overflow`, changing
/// nothing, where the new balance would not fit.
pub fn receive_balance(host: &mut Host, id: Address, amount: i128) -> (res: Result<
    (),
    TokenError,
>)
    ensures
        match old(host)@.receive(id, amount) {
            Ok(after) => res is Ok && final(host)@ == after,
            Err(e) => res == Err::<(), TokenError>(e) && *final(host) == *old(host),
        },
{
    let balance = balance_after_receive(read_balance(host, id), amount)?;
    write_balance(host, id, balance);
    Ok(())
}

/// Takes `amount` from the balance of `id`. Fails with `InsufficientBalance`,
/// changing nothing, where the balance is smaller than `amount`.
pub fn spend_balance(host: &mut Host, id: Address, amount: i128) -> (res: Result<(), TokenError>)
    ensures
        match old(host)@.spend(id, amount) {
            Ok(after) => res is Ok && final(host)@ == after,
            Err(e) => res == Err::<(), TokenError>(e) && *final(host) == *old(host),
        },
{
    let balance = balance_after_spend(read_balance(host, id), amount)?;
    write_balance(host, id, balance);
    Ok(())
}

/// The balances that `from` and `to` would have after `amount` has moved
/// from the first to the second, or why it cannot move. Changes nothing.
pub fn balances_after_move(host: &Host, from: Address, to: Address, amount: i128) -> (res: Result<
    (i128, i128),
    TokenError,
>)
    ensures
        match host@.move_balance(from, to, amount) {
            Ok(after) => res is Ok && after == host@.with_balance(from, res->Ok_0.0).with_balance(
                to,
                res->Ok_0.1,
            ),
            Err(e) => res == Err::<(i128, i128), TokenError>(e),
        },
{
    let spent = balance_after_spend(read_balance(host, from), amount)?;
    let before = if to.same(&from) {
        spent
    } else {
        read_balance(host, to)
    };
    let received = balance_after_receive(before, amount)?;
    Ok((spent, received))
}

/// Moves `amount` from `from` to `to` as one step: where `from` cannot pay or
/// the balance of `to` would not fit, nothing changes.
pub fn move_balance(host: &mut Host, from: Address, to: Address, amount: i128) -> (res: Result<
    (),
    TokenError,
>)
    ensures
        match old(host)@.move_balance(from, to, amount) {
            Ok(after) => res is Ok && final(host)@ == after,
            Err(e) => res == Err::<(), TokenError>(e) && *final(host) == *old(host),
        },
{
    let (spent, received) = balances_after_move(host, from, to, amount)?;
    write_balance(host, from, spent);
    write_balance(host, to, received);
    Ok(())
}

} // verus!
