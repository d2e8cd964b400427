use crate::error::TokenError;
use crate::host::{Host, HostView};
use crate::storage_types::{Address, AllowanceDataKey, AllowanceValue};
use vstd::prelude::*;

verus! {

/// What an allowance becomes when `amount` is drawn from it: the amount goes
/// down by `amount`, the expiration stays.
pub open spec fn spec_allowance_after_spend(allowance: AllowanceValue, amount: i128) -> Result<
    AllowanceValue,
    TokenError,
> {
    if allowance.amount < amount {
        Err(TokenError::InsufficientAllowance)
    } else if amount > 0 {
        Ok(
            AllowanceValue {
                amount: (allowance.amount - amount) as i128,
                expiration_ledger: allowance.expiration_ledger,
            },
        )
    } else {
        Ok(allowance)
    }
}

impl HostView {
    /// The state in which `value` is recorded as the allowance of `spender`
    /// on `from`.
    pub open spec fn with_allowance(
        self,
        from: Address,
        spender: Address,
        value: AllowanceValue,
    ) -> HostView {
        HostView {
            allowances: self.allowances.insert(AllowanceDataKey { from, spender }, value),
            ..self
        }
    }

    /// The state after `spender` has drawn `amount` from the allowance on
    /// `from`, or why it cannot. Drawing nothing records nothing.
    pub open spec fn spend_allowance(self, from: Address, spender: Address, amount: i128) -> Result<
        HostView,
        TokenError,
    > {
        match spec_allowance_after_spend(self.allowance(from, spender), amount) {
            Ok(rest) => if amount > 0 {
                Ok(self.with_allowance(from, spender, rest))
            } else {
                Ok(self)
            },
            Err(e) => Err(e),
        }
    }
}

/// Draws `amount` from `allowance`, unless it allows less than that.
pub fn allowance_after_spend(allowance: AllowanceValue, amount: i128) -> (res: Result<
    AllowanceValue,
    TokenError,
>)
    ensures
        res == spec_allowance_after_spend(allowance, amount),
{
    if allowance.amount < amount {
        Err(TokenError::InsufficientAllowance)
    } else if amount > 0 {
        Ok(
            AllowanceValue {
                amount: allowance.amount - amount,
                expiration_ledger: allowance.expiration_ledger,
            },
        )
    } else {
        Ok(allowance)
    }
}

/// The allowance that `spender` may still draw on from `from` at the current
/// ledger sequence: amount 0 once the ledger has reached the recorded
/// expiration, and amount and expiration 0 where nothing is recorded.
pub fn read_allowance(host: &Host, from: Address, spender: Address) -> (allowance: AllowanceValue)
    ensures
        allowance == host@.allowance(from, spender),
{
    let key = AllowanceDataKey { from, spender };
    match host.allowances.get(&key) {
        Some(recorded) => {
            if recorded.expiration_ledger <= host.sequence {
                AllowanceValue { amount: 0, expiration_ledger: recorded.expiration_ledger }
            } else {
                recorded
            }
        },
        None => AllowanceValue { amount: 0, expiration_ledger: 0 },
    }
}

/// Records `amount` and `expiration_ledger` as the allowance of `spender` on
/// `from`, in place of any earlier record.
pub fn write_allowance(
    host: &mut Host,
    from: Address,
    spender: Address,
    amount: i128,
    expiration_ledger: u32,
)
    ensures
        final(host)@ == old(host)@.with_allowance(
            from,
            spender,
            AllowanceValue { amount, expiration_ledger },
        ),
{
    let key = AllowanceDataKey { from, spender };
    host.allowances.set(key, AllowanceValue { amount, expiration_ledger });
}

/// Draws `amount` from the allowance of `spender` on `from`. Fails with
/// `InsufficientAllowance`, changing nothing, where `amount` exceeds what is
/// still valid.
pub fn spend_allowance(host: &mut Host, from: Address, spender: Address, amount: i128) -> (res:
    Result<(), TokenError>)
    ensures
        match old(host)@.spend_allowance(from, spender, amount) {
            Ok(after) => res is Ok && final(host)@ == after,
            Err(e) => res == Err::<(), TokenError>(e) && *final(host) == *old(host),
        },
{
    let rest = allowance_after_spend(read_allowance(host, from, spender), amount)?;
    if amount > 0 {
        write_allowance(host, from, spender, rest.amount, rest.expiration_ledger);
    }
    Ok(())
}

} // verus!
