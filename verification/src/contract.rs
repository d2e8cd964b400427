use crate::admin::{has_administrator, read_administrator, write_administrator};
use crate::allowance::{allowance_after_spend, read_allowance, write_allowance};
use crate::balance::{
    balances_after_move, move_balance, read_balance, receive_balance, spend_balance, write_balance,
};
use crate::coffee::{read_coffee_points, read_free_coffee, write_coffee_points, write_free_coffee};
use crate::error::TokenError;
use crate::event::Event;
use crate::host::{Host, HostView};
use crate::metadata::{read_decimal, read_name, read_symbol, write_metadata};
use crate::storage_types::{Address, AllowanceValue, TokenMetadata, TokenMetadataView};
use vstd::prelude::*;

verus! {

/// What a coffee costs, in units of the token.
pub const COFFEE_PRICE: i128 = 10;

/// How many coffee points buy one free coffee.
pub const POINTS_PER_FREE_COFFEE: i128 = 10;

/// The largest decimal precision that a token can have.
pub const MAX_DECIMAL: u32 = 255;

impl HostView {
    /// `initialize`: records the administrator and the identity of the token,
    /// once.
    pub open spec fn initialize(
        self,
        admin: Address,
        decimal: u32,
        name: Seq<char>,
        symbol: Seq<char>,
    ) -> Result<HostView, TokenError> {
        if self.admin is Some {
            Err(TokenError::AlreadyInitialized)
        } else if decimal > MAX_DECIMAL {
            Err(TokenError::InvalidArgument)
        } else {
            Ok(
                HostView {
                    admin: Some(admin),
                    metadata: Some(TokenMetadataView { decimal, name, symbol }),
                    ..self
                },
            )
        }
    }

    /// `mint`: the administrator creates `amount` units for `to`.
    pub open spec fn mint(self, to: Address, amount: i128) -> Result<HostView, TokenError> {
        if amount < 0 {
            Err(TokenError::InvalidArgument)
        } else if !self.admin_authorized() {
            Err(TokenError::Unauthorized)
        } else {
            match self.receive(to, amount) {
                Ok(after) => Ok(after.emit(Event::Mint { admin: self.admin->0, to, amount })),
                Err(e) => Err(e),
            }
        }
    }

    /// `set_admin`: the administrator hands control to `new_admin`.
    pub open spec fn set_admin(self, new_admin: Address) -> Result<HostView, TokenError> {
        if !self.admin_authorized() {
            Err(TokenError::Unauthorized)
        } else {
            Ok(
                HostView { admin: Some(new_admin), ..self }.emit(
                    Event::SetAdmin { admin: self.admin->0, new_admin },
                ),
            )
        }
    }

    /// `freeze_account`: the administrator freezes `account`.
    pub open spec fn freeze_account(self, account: Address) -> Result<HostView, TokenError> {
        if !self.admin_authorized() {
            Err(TokenError::Unauthorized)
        } else {
            Ok(
                HostView { frozen: self.frozen.insert(account, true), ..self }.emit(
                    Event::FreezeAccount { admin: self.admin->0, account },
                ),
            )
        }
    }

    /// `unfreeze_account`: the administrator removes the freeze flag of
    /// `account`.
    pub open spec fn unfreeze_account(self, account: Address) -> Result<HostView, TokenError> {
        if !self.admin_authorized() {
            Err(TokenError::Unauthorized)
        } else {
            Ok(
                HostView { frozen: self.frozen.remove(account), ..self }.emit(
                    Event::UnfreezeAccount { admin: self.admin->0, account },
                ),
            )
        }
    }

    /// `add_coffee_point`: `account` pays the price of a coffee to
    /// `shop_owner` and earns one point.
    pub open spec fn add_coffee_point(self, account: Address, shop_owner: Address) -> Result<
        HostView,
        TokenError,
    > {
        if !self.admin_authorized() {
            Err(TokenError::Unauthorized)
        } else if self.is_frozen(account) {
            Err(TokenError::AccountFrozen)
        } else {
            match self.move_balance(account, shop_owner, COFFEE_PRICE) {
                Ok(paid) => if self.coffee_points_of(account) == i128::MAX {
                    Err(TokenError::Overflow)
                } else {
                    let points = (self.coffee_points_of(account) + 1) as i128;
                    Ok(
                        paid.with_coffee_points(account, points).emit(
                            Event::AddCoffeePoint {
                                admin: self.admin->0,
                                account,
                                points,
                                price: COFFEE_PRICE,
                                shop_owner,
                            },
                        ),
                    )
                },
                Err(e) => Err(e),
            }
        }
    }

    /// `check_free_coffee`: turns points of `account` into one free-coffee
    /// credit.
    pub open spec fn check_free_coffee(self, account: Address) -> Result<HostView, TokenError> {
        if !self.admin_authorized() {
            Err(TokenError::Unauthorized)
        } else if self.is_frozen(account) {
            Err(TokenError::AccountFrozen)
        } else if self.coffee_points_of(account) < POINTS_PER_FREE_COFFEE {
            Err(TokenError::InsufficientPoints)
        } else if self.free_coffee_of(account) == i128::MAX {
            Err(TokenError::Overflow)
        } else {
            Ok(
                self.with_coffee_points(
                    account,
                    (self.coffee_points_of(account) - POINTS_PER_FREE_COFFEE) as i128,
                ).with_free_coffee(account, (self.free_coffee_of(account) + 1) as i128).emit(
                    Event::FreeCoffeeGranted { admin: self.admin->0, account },
                ),
            )
        }
    }

    /// `redeem_free_coffee`: `account` uses up one free-coffee credit.
    pub open spec fn redeem_free_coffee(self, account: Address) -> Result<HostView, TokenError> {
        if !self.admin_authorized() {
            Err(TokenError::Unauthorized)
        } else if self.is_frozen(account) {
            Err(TokenError::AccountFrozen)
        } else if self.free_coffee_of(account) <= 0 {
            Err(TokenError::NoFreeCoffee)
        } else {
            Ok(
                self.with_free_coffee(account, (self.free_coffee_of(account) - 1) as i128).emit(
                    Event::FreeCoffeeRedeemed { admin: self.admin->0, account },
                ),
            )
        }
    }

    /// `approve`: `from` lets `spender` spend up to `amount` until
    /// `expiration_ledger`.
    pub open spec fn approve(
        self,
        from: Address,
        spender: Address,
        amount: i128,
        expiration_ledger: u32,
    ) -> Result<HostView, TokenError> {
        if !self.authorized(from) {
            Err(TokenError::Unauthorized)
        } else if amount < 0 {
            Err(TokenError::InvalidArgument)
        } else {
            Ok(
                self.with_allowance(
                    from,
                    spender,
                    AllowanceValue { amount, expiration_ledger },
                ).emit(Event::Approve { from, spender, amount, expiration_ledger }),
            )
        }
    }

    /// `transfer`: `from` moves `amount` to `to`.
    pub open spec fn transfer(self, from: Address, to: Address, amount: i128) -> Result<
        HostView,
        TokenError,
    > {
        if !self.authorized(from) {
            Err(TokenError::Unauthorized)
        } else if amount < 0 {
            Err(TokenError::InvalidArgument)
        } else if self.is_frozen(from) {
            Err(TokenError::AccountFrozen)
        } else {
            match self.move_balance(from, to, amount) {
                Ok(after) => Ok(after.emit(Event::Transfer { from, to, amount })),
                Err(e) => Err(e),
            }
        }
    }

    /// `transfer_from`: `spender` draws on its allowance to move `amount`
    /// from `from` to `to`.
    pub open spec fn transfer_from(
        self,
        spender: Address,
        from: Address,
        to: Address,
        amount: i128,
    ) -> Result<HostView, TokenError> {
        if !self.authorized(spender) {
            Err(TokenError::Unauthorized)
        } else if amount < 0 {
            Err(TokenError::InvalidArgument)
        } else if self.is_frozen(from) {
            Err(TokenError::AccountFrozen)
        } else {
            match self.spend_allowance(from, spender, amount) {
                Ok(drawn) => match drawn.move_balance(from, to, amount) {
                    Ok(after) => Ok(after.emit(Event::Transfer { from, to, amount })),
                    Err(e) => Err(e),
                },
                Err(e) => Err(e),
            }
        }
    }

    /// `burn`: `from` destroys `amount` of its own units.
    pub open spec fn burn(self, from: Address, amount: i128) -> Result<HostView, TokenError> {
        if !self.authorized(from) {
            Err(TokenError::Unauthorized)
        } else if amount < 0 {
            Err(TokenError::InvalidArgument)
        } else if self.is_frozen(from) {
            Err(TokenError::AccountFrozen)
        } else {
            match self.spend(from, amount) {
                Ok(after) => Ok(after.emit(Event::Burn { from, amount })),
                Err(e) => Err(e),
            }
        }
    }

    /// `burn_from`: `spender` draws on its allowance to destroy `amount`
    /// units of `from`.
    pub open spec fn burn_from(self, spender: Address, from: Address, amount: i128) -> Result<
        HostView,
        TokenError,
    > {
        if !self.authorized(spender) {
            Err(TokenError::Unauthorized)
        } else if amount < 0 {
            Err(TokenError::InvalidArgument)
        } else if self.is_frozen(from) {
            Err(TokenError::AccountFrozen)
        } else {
            match self.spend_allowance(from, spender, amount) {
                Ok(drawn) => match drawn.spend(from, amount) {
                    Ok(after) => Ok(after.emit(Event::Burn { from, amount })),
                    Err(e) => Err(e),
                },
                Err(e) => Err(e),
            }
        }
    }
}

/// An operation is carried out faithfully when it succeeds exactly where its
/// transition is defined and then leaves the host in the state the transition
/// gives, and otherwise returns the transition's error and leaves the host
/// untouched.
pub open spec fn carried_out(
    before: Host,
    after: Host,
    res: Result<(), TokenError>,
    transition: Result<HostView, TokenError>,
) -> bool {
    match transition {
        Ok(next) => res is Ok && after@ == next,
        Err(e) => res == Err::<(), TokenError>(e) && after == before,
    }
}

/// Rejects a negative amount.
pub fn check_nonnegative_amount(amount: i128) -> (res: Result<(), TokenError>)
    ensures
        res == (if amount < 0 {
            Err::<(), TokenError>(TokenError::InvalidArgument)
        } else {
            Ok::<(), TokenError>(())
        }),
{
    if amount < 0 {
        Err(TokenError::InvalidArgument)
    } else {
        Ok(())
    }
}

/// Whether `account` is frozen. An account without a flag is not.
pub fn is_account_frozen(host: &Host, account: &Address) -> (frozen: bool)
    ensures
        frozen == host@.is_frozen(*account),
{
    match host.frozen.get(account) {
        Some(flag) => flag,
        None => false,
    }
}

/// Demands that an administrator exists and has authorized the call in
/// progress, and names that administrator.
pub fn require_admin(host: &Host) -> (res: Result<Address, TokenError>)
    ensures
        res == (if host@.admin_authorized() {
            Ok::<Address, TokenError>(host@.admin->0)
        } else {
            Err::<Address, TokenError>(TokenError::Unauthorized)
        }),
{
    match read_administrator(host) {
        Some(admin) => {
            host.require_auth(&admin)?;
            Ok(admin)
        },
        None => Err(TokenError::Unauthorized),
    }
}

/// The entry points of the ledger.
#[derive(Clone, Copy, Debug)]
pub struct Token;

impl Token {
    /// Records `admin` as the administrator and `decimal`, `name` and
    /// `symbol` as the identity of the token. Fails with `AlreadyInitialized`
    /// once an administrator exists, and with `InvalidArgument` where
    /// `decimal` exceeds 255.
    pub fn initialize(
        host: &mut Host,
        admin: Address,
        decimal: u32,
        name: String,
        symbol: String,
    ) -> (res: Result<(), TokenError>)
        ensures
            carried_out(
                *old(host),
                *final(host),
                res,
                old(host)@.initialize(admin, decimal, name@, symbol@),
            ),
    {
        if has_administrator(host) {
            return Err(TokenError::AlreadyInitialized);
        }
        if decimal > MAX_DECIMAL {
            return Err(TokenError::InvalidArgument);
        }
        write_administrator(host, &admin);
        write_metadata(host, TokenMetadata { decimal, name, symbol });
        Ok(())
    }

    /// Creates `amount` units for `to`, on the administrator's authority.
    pub fn mint(host: &mut Host, to: Address, amount: i128) -> (res: Result<(), TokenError>)
        ensures
            carried_out(*old(host), *final(host), res, old(host)@.mint(to, amount)),
    {
        check_nonnegative_amount(amount)?;
        let admin = require_admin(host)?;
        receive_balance(host, to, amount)?;
        host.publish(Event::Mint { admin, to, amount });
        Ok(())
    }

    /// Makes `new_admin` the administrator, on the current administrator's
    /// authority.
    pub fn set_admin(host: &mut Host, new_admin: Address) -> (res: Result<(), TokenError>)
        ensures
            carried_out(*old(host), *final(host), res, old(host)@.set_admin(new_admin)),
    {
        let admin = require_admin(host)?;
        write_administrator(host, &new_admin);
        host.publish(Event::SetAdmin { admin, new_admin });
        Ok(())
    }

    /// Freezes `account`, on the administrator's authority.
    pub fn freeze_account(host: &mut Host, account: Address) -> (res: Result<(), TokenError>)
        ensures
            carried_out(*old(host), *final(host), res, old(host)@.freeze_account(account)),
    {
        let admin = require_admin(host)?;
        host.frozen.set(account, true);
        host.publish(Event::FreezeAccount { admin, account });
        Ok(())
    }

    /// Lifts the freeze on `account`, on the administrator's authority.
    pub fn unfreeze_account(host: &mut Host, account: Address) -> (res: Result<(), TokenError>)
        ensures
            carried_out(*old(host), *final(host), res, old(host)@.unfreeze_account(account)),
    {
        let admin = require_admin(host)?;
        host.frozen.remove(&account);
        host.publish(Event::UnfreezeAccount { admin, account });
        Ok(())
    }

    /// Charges `account` the price of a coffee in favour of `shop_owner` and
    /// gives it one coffee point, on the administrator's authority. Where the
    /// charge fails, the points stay as they are.
    pub fn add_coffee_point(host: &mut Host, account: Address, shop_owner: Address) -> (res:
        Result<(), TokenError>)
        ensures
            carried_out(
                *old(host),
                *final(host),
                res,
                old(host)@.add_coffee_point(account, shop_owner),
            ),
    {
        let admin = require_admin(host)?;
        if is_account_frozen(host, &account) {
            return Err(TokenError::AccountFrozen);
        }
        let (paid, earned) = balances_after_move(host, account, shop_owner, COFFEE_PRICE)?;
        let current = read_coffee_points(host, &account);
        if current == i128::MAX {
            return Err(TokenError::Overflow);
        }
        let points = current + 1;
        write_balance(host, account, paid);
        write_balance(host, shop_owner, earned);
        write_coffee_points(host, &account, points);
        host.publish(
            Event::AddCoffeePoint { admin, account, points, price: COFFEE_PRICE, shop_owner },
        );
        Ok(())
    }

    /// Turns ten coffee points of `account` into one free-coffee credit, on
    /// the administrator's authority.
    pub fn check_free_coffee(host: &mut Host, account: Address) -> (res: Result<(), TokenError>)
        ensures
            carried_out(*old(host), *final(host), res, old(host)@.check_free_coffee(account)),
    {
        let admin = require_admin(host)?;
        if is_account_frozen(host, &account) {
            return Err(TokenError::AccountFrozen);
        }
        let points = read_coffee_points(host, &account);
        if points < POINTS_PER_FREE_COFFEE {
            return Err(TokenError::InsufficientPoints);
        }
        let credits = read_free_coffee(host, &account);
        if credits == i128::MAX {
            return Err(TokenError::Overflow);
        }
        write_coffee_points(host, &account, points - POINTS_PER_FREE_COFFEE);
        write_free_coffee(host, &account, credits + 1);
        host.publish(Event::FreeCoffeeGranted { admin, account });
        Ok(())
    }

    /// Uses up one free-coffee credit of `account`, on the administrator's
    /// authority.
    pub fn redeem_free_coffee(host: &mut Host, account: Address) -> (res: Result<(), TokenError>)
        ensures
            carried_out(*old(host), *final(host), res, old(host)@.redeem_free_coffee(account)),
    {
        let admin = require_admin(host)?;
        if is_account_frozen(host, &account) {
            return Err(TokenError::AccountFrozen);
        }
        let credits = read_free_coffee(host, &account);
        if credits <= 0 {
            return Err(TokenError::NoFreeCoffee);
        }
        write_free_coffee(host, &account, credits - 1);
        host.publish(Event::FreeCoffeeRedeemed { admin, account });
        Ok(())
    }

    /// The amount that `spender` may still spend from `from` at the current
    /// ledger sequence.
    pub fn allowance(host: &Host, from: Address, spender: Address) -> (amount: i128)
        ensures
            amount == host@.allowance(from, spender).amount,
    {
        read_allowance(host, from, spender).amount
    }

    /// Lets `spender` spend up to `amount` from `from` until
    /// `expiration_ledger`, on the authority of `from`. Replaces any earlier
    /// allowance of the pair.
    pub fn approve(
        host: &mut Host,
        from: Address,
        spender: Address,
        amount: i128,
        expiration_ledger: u32,
    ) -> (res: Result<(), TokenError>)
        ensures
            carried_out(
                *old(host),
                *final(host),
                res,
                old(host)@.approve(from, spender, amount, expiration_ledger),
            ),
    {
        host.require_auth(&from)?;
        check_nonnegative_amount(amount)?;
        write_allowance(host, from, spender, amount, expiration_ledger);
        host.publish(Event::Approve { from, spender, amount, expiration_ledger });
        Ok(())
    }

    /// The balance of `id`.
    pub fn balance(host: &Host, id: Address) -> (amount: i128)
        ensures
            amount == host@.balance(id),
    {
        read_balance(host, id)
    }

    /// Moves `amount` from `from` to `to`, on the authority of `from`.
    pub fn transfer(host: &mut Host, from: Address, to: Address, amount: i128) -> (res: Result<
        (),
        TokenError,
    >)
        ensures
            carried_out(*old(host), *final(host), res, old(host)@.transfer(from, to, amount)),
    {
        host.require_auth(&from)?;
        check_nonnegative_amount(amount)?;
        if is_account_frozen(host, &from) {
            return Err(TokenError::AccountFrozen);
        }
        move_balance(host, from, to, amount)?;
        host.publish(Event::Transfer { from, to, amount });
        Ok(())
    }

    /// Moves `amount` from `from` to `to`, on the authority of `spender` and
    /// against its allowance on `from`.
    pub fn transfer_from(
        host: &mut Host,
        spender: Address,
        from: Address,
        to: Address,
        amount: i128,
    ) -> (res: Result<(), TokenError>)
        ensures
            carried_out(
                *old(host),
                *final(host),
                res,
                old(host)@.transfer_from(spender, from, to, amount),
            ),
    {
        host.require_auth(&spender)?;
        check_nonnegative_amount(amount)?;
        if is_account_frozen(host, &from) {
            return Err(TokenError::AccountFrozen);
        }
        let rest = allowance_after_spend(read_allowance(host, from, spender), amount)?;
        move_balance(host, from, to, amount)?;
        if amount > 0 {
            write_allowance(host, from, spender, rest.amount, rest.expiration_ledger);
        }
        host.publish(Event::Transfer { from, to, amount });
        Ok(())
    }

    /// Destroys `amount` units of `from`, on the authority of `from`.
    pub fn burn(host: &mut Host, from: Address, amount: i128) -> (res: Result<(), TokenError>)
        ensures
            carried_out(*old(host), *final(host), res, old(host)@.burn(from, amount)),
    {
        host.require_auth(&from)?;
        check_nonnegative_amount(amount)?;
        if is_account_frozen(host, &from) {
            return Err(TokenError::AccountFrozen);
        }
        spend_balance(host, from, amount)?;
        host.publish(Event::Burn { from, amount });
        Ok(())
    }

    /// Destroys `amount` units of `from`, on the authority of `spender` and
    /// against its allowance on `from`.
    pub fn burn_from(host: &mut Host, spender: Address, from: Address, amount: i128) -> (res:
        Result<(), TokenError>)
        ensures
            carried_out(
                *old(host),
                *final(host),
                res,
                old(host)@.burn_from(spender, from, amount),
            ),
    {
        host.require_auth(&spender)?;
        check_nonnegative_amount(amount)?;
        if is_account_frozen(host, &from) {
            return Err(TokenError::AccountFrozen);
        }
        let rest = allowance_after_spend(read_allowance(host, from, spender), amount)?;
        spend_balance(host, from, amount)?;
        if amount > 0 {
            write_allowance(host, from, spender, rest.amount, rest.expiration_ledger);
        }
        host.publish(Event::Burn { from, amount });
        Ok(())
    }

    /// The decimal precision fixed at initialization.
    pub fn decimals(host: &Host) -> (decimal: u32)
        requires
            host@.metadata is Some,
        ensures
            decimal == host@.metadata->0.decimal,
    {
        read_decimal(host)
    }

    /// The name fixed at initialization.
    pub fn name(host: &Host) -> (name: String)
        requires
            host@.metadata is Some,
        ensures
            name@ == host@.metadata->0.name,
    {
        read_name(host)
    }

    /// The symbol fixed at initialization.
    pub fn symbol(host: &Host) -> (symbol: String)
        requires
            host@.metadata is Some,
        ensures
            symbol@ == host@.metadata->0.symbol,
    {
        read_symbol(host)
    }
}

} // verus!
