use crate::call::{Call, Invocation};
use crate::contract::{COFFEE_PRICE, POINTS_PER_FREE_COFFEE};
use crate::error::TokenError;
use crate::host::HostView;
use crate::storage_types::{Address, AllowanceDataKey};
use crate::supply::{lemma_sum_empty, lemma_sum_insert};
use vstd::prelude::*;

verus! {

impl HostView {
    /// No balance, allowance, point count or credit count is negative.
    pub open spec fn nonnegative(self) -> bool {
        &&& forall|id: Address| self.balances.dom().contains(id) ==> self.balances[id] >= 0
        &&& forall|key: AllowanceDataKey|
            self.allowances.dom().contains(key) ==> self.allowances[key].amount >= 0
        &&& forall|id: Address|
            self.coffee_points.dom().contains(id) ==> self.coffee_points[id] >= 0
        &&& forall|id: Address| self.free_coffee.dom().contains(id) ==> self.free_coffee[id] >= 0
    }
}

/// Receiving raises the total supply by the amount received.
pub proof fn lemma_receive_supply(s: HostView, id: Address, amount: i128)
    requires
        s.finite(),
        s.receive(id, amount) is Ok,
    ensures
        s.receive(id, amount)->Ok_0.finite(),
        s.receive(id, amount)->Ok_0.total_supply() == s.total_supply() + amount,
{
    lemma_sum_insert(s.balances, id, (s.balance(id) + amount) as i128);
}

/// Spending lowers the total supply by the amount spent.
pub proof fn lemma_spend_supply(s: HostView, id: Address, amount: i128)
    requires
        s.finite(),
        s.spend(id, amount) is Ok,
    ensures
        s.spend(id, amount)->Ok_0.finite(),
        s.spend(id, amount)->Ok_0.total_supply() == s.total_supply() - amount,
{
    lemma_sum_insert(s.balances, id, (s.balance(id) - amount) as i128);
}

/// Moving an amount between two accounts, or from an account to itself,
/// leaves the total supply as it was.
pub proof fn lemma_move_supply(s: HostView, from: Address, to: Address, amount: i128)
    requires
        s.finite(),
        s.move_balance(from, to, amount) is Ok,
    ensures
        s.move_balance(from, to, amount)->Ok_0.finite(),
        s.move_balance(from, to, amount)->Ok_0.total_supply() == s.total_supply(),
{
    lemma_spend_supply(s, from, amount);
    lemma_receive_supply(s.spend(from, amount)->Ok_0, to, amount);
}

/// Every invocation leaves the tables finite and changes the total supply by
/// exactly what it creates less what it destroys.
pub proof fn lemma_invocation_supply(s: HostView, invocation: Invocation)
    requires
        s.finite(),
    ensures
        s.after(invocation).finite(),
        s.after(invocation).total_supply() == s.total_supply() + s.minted_by(invocation)
            - s.burned_by(invocation),
{
    let e = s.enter(invocation.auths, invocation.sequence);
    if e.perform(invocation.call) is Ok {
        match invocation.call {
            Call::Mint { to, amount } => {
                lemma_receive_supply(e, to, amount);
            },
            Call::AddCoffeePoint { account, shop_owner } => {
                lemma_move_supply(e, account, shop_owner, COFFEE_PRICE);
            },
            Call::Transfer { from, to, amount } => {
                lemma_move_supply(e, from, to, amount);
            },
            Call::TransferFrom { spender, from, to, amount } => {
                lemma_move_supply(e.spend_allowance(from, spender, amount)->Ok_0, from, to, amount);
            },
            Call::Burn { from, amount } => {
                lemma_spend_supply(e, from, amount);
            },
            Call::BurnFrom { spender, from, amount } => {
                lemma_spend_supply(e.spend_allowance(from, spender, amount)->Ok_0, from, amount);
            },
            _ => {},
        }
    }
}

/// Supply accounting: after any sequence of invocations the total supply is
/// what it was at the start, plus the amounts of all mints that succeeded,
/// less the amounts of all burns that succeeded.
pub proof fn lemma_supply_accounting(s: HostView, invocations: Seq<Invocation>)
    requires
        s.finite(),
    ensures
        s.run(invocations).finite(),
        s.run(invocations).total_supply() == s.total_supply() + s.total_minted(invocations)
            - s.total_burned(invocations),
    decreases invocations.len(),
{
    if invocations.len() > 0 {
        lemma_supply_accounting(s, invocations.drop_last());
        lemma_invocation_supply(s.run(invocations.drop_last()), invocations.last());
    }
}

/// Supply accounting from the start: on a ledger that began empty, the total
/// supply is the sum of the mints that succeeded less the sum of the burns
/// that succeeded.
pub proof fn lemma_supply_from_empty(invocations: Seq<Invocation>)
    ensures
        HostView::empty().run(invocations).total_supply() == HostView::empty().total_minted(
            invocations,
        ) - HostView::empty().total_burned(invocations),
{
    lemma_sum_empty::<Address>();
    lemma_supply_accounting(HostView::empty(), invocations);
}

/// A sequence without mints creates nothing, and one without burns destroys
/// nothing.
pub proof fn lemma_nothing_minted_or_burned(s: HostView, invocations: Seq<Invocation>)
    ensures
        (forall|i: int| 0 <= i < invocations.len() ==> !invocations[i].call.mints())
            ==> s.total_minted(invocations) == 0,
        (forall|i: int| 0 <= i < invocations.len() ==> !invocations[i].call.burns())
            ==> s.total_burned(invocations) == 0,
    decreases invocations.len(),
{
    if invocations.len() > 0 {
        let front = invocations.drop_last();
        lemma_nothing_minted_or_burned(s, front);
        assert(forall|i: int| 0 <= i < front.len() ==> front[i] == invocations[i]);
    }
}

/// Conservation: a sequence of invocations that holds neither a mint nor a
/// burn, whatever else it holds and whether or not its calls succeed, leaves
/// the sum of all balances unchanged.
pub proof fn lemma_conservation(s: HostView, invocations: Seq<Invocation>)
    requires
        s.finite(),
        forall|i: int|
            0 <= i < invocations.len() ==> !invocations[i].call.mints()
                && !invocations[i].call.burns(),
    ensures
        s.run(invocations).total_supply() == s.total_supply(),
{
    lemma_supply_accounting(s, invocations);
    lemma_nothing_minted_or_burned(s, invocations);
}

/// Authorization gate: a call that needs an identity's consent and does not
/// have it fails. The failure is `Unauthorized`, except for a mint of a
/// negative amount, which is refused as `InvalidArgument` before anyone's
/// consent is asked for.
pub proof fn lemma_authorization_gate(s: HostView, call: Call)
    requires
        !(call is Initialize),
        !s.signed(call),
    ensures
        s.perform(call) == Err::<HostView, TokenError>(TokenError::Unauthorized) || (call is Mint
            && call.amount() < 0 && s.perform(call) == Err::<HostView, TokenError>(
            TokenError::InvalidArgument,
        )),
{
}

/// Authorization gate, the effect: an invocation that lacks the consent it
/// needs leaves every record, and the event log, as it found them.
pub proof fn lemma_unauthorized_changes_nothing(s: HostView, invocation: Invocation)
    requires
        !(invocation.call is Initialize),
        !s.enter(invocation.auths, invocation.sequence).signed(invocation.call),
    ensures
        s.invoke(invocation) is Err,
        s.after(invocation) == s.enter(invocation.auths, invocation.sequence),
{
    lemma_authorization_gate(s.enter(invocation.auths, invocation.sequence), invocation.call);
}

/// Freeze gate, the refusal: while `account` is frozen, a call that would
/// draw on it, has the consent it needs and names no negative amount fails
/// with `AccountFrozen`.
pub proof fn lemma_frozen_account_refused(s: HostView, account: Address, call: Call)
    requires
        s.is_frozen(account),
        call.draws_on(account),
        s.signed(call),
        call.amount() >= 0,
    ensures
        s.perform(call) == Err::<HostView, TokenError>(TokenError::AccountFrozen),
{
}

/// Freeze gate, the freeze: a freeze that succeeds leaves the account frozen.
pub proof fn lemma_freeze_freezes(s: HostView, account: Address)
    requires
        s.freeze_account(account) is Ok,
    ensures
        s.freeze_account(account)->Ok_0.is_frozen(account),
{
}

/// Freeze gate, the persistence: a frozen account stays frozen through any
/// invocation but an unfreeze of that account that succeeds.
pub proof fn lemma_freeze_persists(s: HostView, account: Address, invocation: Invocation)
    requires
        s.is_frozen(account),
        !(invocation.call == (Call::UnfreezeAccount { account }) && s.invoke(invocation) is Ok),
    ensures
        s.after(invocation).is_frozen(account),
{
}

/// Freeze gate, over time: after a freeze of `account` that succeeded, and
/// any sequence of invocations that holds no unfreeze of it, every call that
/// would draw on the account, has the consent it needs and names no negative
/// amount fails with `AccountFrozen`.
pub proof fn lemma_freeze_gate(
    s: HostView,
    account: Address,
    invocations: Seq<Invocation>,
    attempt: Invocation,
)
    requires
        s.is_frozen(account),
        forall|i: int|
            0 <= i < invocations.len() ==> invocations[i].call != (Call::UnfreezeAccount {
                account,
            }),
        attempt.call.draws_on(account),
        s.run(invocations).enter(attempt.auths, attempt.sequence).signed(attempt.call),
        attempt.call.amount() >= 0,
    ensures
        s.run(invocations).is_frozen(account),
        s.run(invocations).invoke(attempt) == Err::<HostView, TokenError>(
            TokenError::AccountFrozen,
        ),
{
    lemma_frozen_through(s, account, invocations);
    lemma_frozen_account_refused(
        s.run(invocations).enter(attempt.auths, attempt.sequence),
        account,
        attempt.call,
    );
}

/// A frozen account stays frozen through any sequence of invocations that
/// holds no unfreeze of it.
pub proof fn lemma_frozen_through(s: HostView, account: Address, invocations: Seq<Invocation>)
    requires
        s.is_frozen(account),
        forall|i: int|
            0 <= i < invocations.len() ==> invocations[i].call != (Call::UnfreezeAccount {
                account,
            }),
    ensures
        s.run(invocations).is_frozen(account),
    decreases invocations.len(),
{
    if invocations.len() > 0 {
        let front = invocations.drop_last();
        assert(forall|i: int| 0 <= i < front.len() ==> front[i] == invocations[i]);
        lemma_frozen_through(s, account, front);
        lemma_freeze_persists(s.run(front), account, invocations.last());
    }
}

/// Initialization happens once, the step: no invocation removes the
/// administrator, and once there is one, none changes the identity of the
/// token.
pub proof fn lemma_initialized_stays(s: HostView, invocation: Invocation)
    requires
        s.admin is Some,
    ensures
        s.after(invocation).admin is Some,
        s.after(invocation).metadata == s.metadata,
{
    let e = s.enter(invocation.auths, invocation.sequence);
    match invocation.call {
        Call::Initialize { admin, decimal, name, symbol } => {
            assert(e.initialize(admin, decimal, name, symbol) is Err);
        },
        Call::Mint { .. } => {},
        Call::SetAdmin { .. } => {},
        Call::FreezeAccount { .. } => {},
        Call::UnfreezeAccount { .. } => {},
        Call::AddCoffeePoint { .. } => {},
        Call::CheckFreeCoffee { .. } => {},
        Call::RedeemFreeCoffee { .. } => {},
        Call::Approve { .. } => {},
        Call::Transfer { .. } => {},
        Call::TransferFrom { .. } => {},
        Call::Burn { .. } => {},
        Call::BurnFrom { .. } => {},
    }
}

/// Initialization happens once: after an initialization that succeeded, and
/// whatever was invoked since, another `initialize` fails with
/// `AlreadyInitialized`, and the identity of the token is still the one that
/// was first set.
pub proof fn lemma_initialize_once(
    s: HostView,
    invocations: Seq<Invocation>,
    again: Invocation,
)
    requires
        s.admin is Some,
        again.call is Initialize,
    ensures
        s.run(invocations).admin is Some,
        s.run(invocations).metadata == s.metadata,
        s.run(invocations).invoke(again) == Err::<HostView, TokenError>(
            TokenError::AlreadyInitialized,
        ),
        s.run(invocations).after(again).metadata == s.metadata,
        s.run(invocations).after(again).admin == s.run(invocations).admin,
    decreases invocations.len(),
{
    if invocations.len() > 0 {
        let front = invocations.drop_last();
        lemma_initialize_once(s, front, again);
        lemma_initialized_stays(s.run(front), invocations.last());
    }
}

/// An initialization that succeeds records the administrator and the
/// identity of the token that it was given.
pub proof fn lemma_initialize_records(
    s: HostView,
    admin: Address,
    decimal: u32,
    name: Seq<char>,
    symbol: Seq<char>,
)
    requires
        s.initialize(admin, decimal, name, symbol) is Ok,
    ensures
        s.initialize(admin, decimal, name, symbol)->Ok_0.admin == Some(admin),
        s.initialize(admin, decimal, name, symbol)->Ok_0.metadata is Some,
        s.initialize(admin, decimal, name, symbol)->Ok_0.metadata->0.decimal == decimal,
        s.initialize(admin, decimal, name, symbol)->Ok_0.metadata->0.name == name,
        s.initialize(admin, decimal, name, symbol)->Ok_0.metadata->0.symbol == symbol,
{
}

/// Receiving no negative amount, and spending or moving any amount that the
/// balance covers, keeps the records free of negative numbers.
pub proof fn lemma_balances_stay_nonnegative(s: HostView, from: Address, to: Address, amount: i128)
    requires
        s.nonnegative(),
    ensures
        s.spend(from, amount) is Ok ==> s.spend(from, amount)->Ok_0.nonnegative(),
        s.receive(to, amount) is Ok && amount >= 0 ==> s.receive(to, amount)->Ok_0.nonnegative(),
        s.move_balance(from, to, amount) is Ok && amount >= 0 ==> s.move_balance(
            from,
            to,
            amount,
        )->Ok_0.nonnegative(),
{
    if s.spend(from, amount) is Ok {
        let spent = s.spend(from, amount)->Ok_0;
        assert(spent.nonnegative());
        if spent.receive(to, amount) is Ok && amount >= 0 {
            assert(spent.receive(to, amount)->Ok_0.nonnegative());
        }
    }
}

/// Drawing on an allowance keeps the records free of negative numbers.
pub proof fn lemma_allowances_stay_nonnegative(
    s: HostView,
    from: Address,
    spender: Address,
    amount: i128,
)
    requires
        s.nonnegative(),
        s.spend_allowance(from, spender, amount) is Ok,
    ensures
        s.spend_allowance(from, spender, amount)->Ok_0.nonnegative(),
{
}

/// No invocation makes a balance, an allowance, a point count or a credit
/// count negative.
pub proof fn lemma_invocation_keeps_nonnegative(s: HostView, invocation: Invocation)
    requires
        s.nonnegative(),
    ensures
        s.after(invocation).nonnegative(),
{
    let e = s.enter(invocation.auths, invocation.sequence);
    assert(e.nonnegative());
    if e.perform(invocation.call) is Ok {
        match invocation.call {
            Call::Initialize { .. } => {},
            Call::Mint { to, amount } => {
                lemma_balances_stay_nonnegative(e, to, to, amount);
            },
            Call::SetAdmin { .. } => {},
            Call::FreezeAccount { .. } => {},
            Call::UnfreezeAccount { .. } => {},
            Call::AddCoffeePoint { account, shop_owner } => {
                lemma_balances_stay_nonnegative(
                    e,
                    account,
                    shop_owner,
                    COFFEE_PRICE,
                );
            },
            Call::CheckFreeCoffee { .. } => {},
            Call::RedeemFreeCoffee { .. } => {},
            Call::Approve { .. } => {},
            Call::Transfer { from, to, amount } => {
                lemma_balances_stay_nonnegative(e, from, to, amount);
            },
            Call::TransferFrom { spender, from, to, amount } => {
                lemma_allowances_stay_nonnegative(e, from, spender, amount);
                lemma_balances_stay_nonnegative(
                    e.spend_allowance(from, spender, amount)->Ok_0,
                    from,
                    to,
                    amount,
                );
            },
            Call::Burn { from, amount } => {
                lemma_balances_stay_nonnegative(e, from, from, amount);
            },
            Call::BurnFrom { spender, from, amount } => {
                lemma_allowances_stay_nonnegative(e, from, spender, amount);
                lemma_balances_stay_nonnegative(
                    e.spend_allowance(from, spender, amount)->Ok_0,
                    from,
                    from,
                    amount,
                );
            },
        }
    }
}

/// On a ledger that began empty, no balance, allowance, point count or credit
/// count is ever negative.
pub proof fn lemma_nonnegative(s: HostView, invocations: Seq<Invocation>)
    requires
        s.nonnegative(),
    ensures
        s.run(invocations).nonnegative(),
        HostView::empty().nonnegative(),
    decreases invocations.len(),
{
    if invocations.len() > 0 {
        lemma_nonnegative(s, invocations.drop_last());
        lemma_invocation_keeps_nonnegative(s.run(invocations.drop_last()), invocations.last());
    }
}

/// Allowance bound: a `transfer_from` that succeeds lowers the allowance by
/// the amount moved, and one that asks for more than the allowance fails with
/// `InsufficientAllowance`.
pub proof fn lemma_allowance_bound(
    s: HostView,
    spender: Address,
    from: Address,
    to: Address,
    amount: i128,
)
    ensures
        s.transfer_from(spender, from, to, amount) is Ok ==> amount <= s.allowance(
            from,
            spender,
        ).amount && s.transfer_from(spender, from, to, amount)->Ok_0.allowance(
            from,
            spender,
        ).amount == s.allowance(from, spender).amount - amount,
        s.authorized(spender) && amount >= 0 && !s.is_frozen(from) && amount > s.allowance(
            from,
            spender,
        ).amount ==> s.transfer_from(spender, from, to, amount) == Err::<HostView, TokenError>(
            TokenError::InsufficientAllowance,
        ),
{
}

/// Allowance expiry: once the ledger has reached the expiration of an
/// allowance, it reads as 0, and a `transfer_from` of a positive amount
/// against it fails with `InsufficientAllowance`.
pub proof fn lemma_allowance_expiry(
    s: HostView,
    spender: Address,
    from: Address,
    to: Address,
    amount: i128,
)
    requires
        s.allowances.dom().contains(AllowanceDataKey { from, spender }),
        s.allowances[AllowanceDataKey { from, spender }].expiration_ledger <= s.sequence,
    ensures
        s.allowance(from, spender).amount == 0,
        s.authorized(spender) && amount > 0 && !s.is_frozen(from) ==> s.transfer_from(
            spender,
            from,
            to,
            amount,
        ) == Err::<HostView, TokenError>(TokenError::InsufficientAllowance),
{
}

/// Loyalty atomicity: a coffee that the account cannot pay for is refused
/// with `InsufficientBalance`, so no point is earned; a coffee that is paid
/// for earns exactly one point and moves exactly the price to the shop.
pub proof fn lemma_coffee_point(s: HostView, account: Address, shop_owner: Address)
    ensures
        s.admin_authorized() && !s.is_frozen(account) && s.balance(account) < COFFEE_PRICE
            ==> s.add_coffee_point(account, shop_owner) == Err::<HostView, TokenError>(
            TokenError::InsufficientBalance,
        ),
        s.add_coffee_point(account, shop_owner) is Ok ==> {
            let after = s.add_coffee_point(account, shop_owner)->Ok_0;
            &&& after.coffee_points_of(account) == s.coffee_points_of(account) + 1
            &&& after.free_coffee == s.free_coffee
            &&& account != shop_owner ==> after.balance(account) == s.balance(account)
                - COFFEE_PRICE && after.balance(shop_owner) == s.balance(shop_owner)
                + COFFEE_PRICE
            &&& account == shop_owner ==> after.balance(account) == s.balance(account)
        },
{
}

/// Loyalty conversion: a conversion that succeeds takes ten points and gives
/// one credit; with fewer than ten points it fails with `InsufficientPoints`.
pub proof fn lemma_conversion(s: HostView, account: Address)
    ensures
        s.admin_authorized() && !s.is_frozen(account) && s.coffee_points_of(account)
            < POINTS_PER_FREE_COFFEE ==> s.check_free_coffee(account) == Err::<
            HostView,
            TokenError,
        >(TokenError::InsufficientPoints),
        s.check_free_coffee(account) is Ok ==> {
            let after = s.check_free_coffee(account)->Ok_0;
            &&& after.coffee_points_of(account) == s.coffee_points_of(account)
                - POINTS_PER_FREE_COFFEE
            &&& after.free_coffee_of(account) == s.free_coffee_of(account) + 1
            &&& after.balances == s.balances
        },
{
}

/// Redemption: a redemption that succeeds uses up one credit; without a
/// credit it fails with `NoFreeCoffee`.
pub proof fn lemma_redemption(s: HostView, account: Address)
    ensures
        s.admin_authorized() && !s.is_frozen(account) && s.free_coffee_of(account) <= 0
            ==> s.redeem_free_coffee(account) == Err::<HostView, TokenError>(
            TokenError::NoFreeCoffee,
        ),
        s.redeem_free_coffee(account) is Ok ==> {
            let after = s.redeem_free_coffee(account)->Ok_0;
            &&& after.free_coffee_of(account) == s.free_coffee_of(account) - 1
            &&& after.coffee_points == s.coffee_points
            &&& after.balances == s.balances
        },
{
}

} // verus!
