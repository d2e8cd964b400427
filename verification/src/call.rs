use crate::error::TokenError;
use crate::host::HostView;
use crate::storage_types::Address;
use vstd::prelude::*;

verus! {

/// One call of a state-changing entry point, with its arguments.
pub enum Call {
    Initialize { admin: Address, decimal: u32, name: Seq<char>, symbol: Seq<char> },
    Mint { to: Address, amount: i128 },
    SetAdmin { new_admin: Address },
    FreezeAccount { account: Address },
    UnfreezeAccount { account: Address },
    AddCoffeePoint { account: Address, shop_owner: Address },
    CheckFreeCoffee { account: Address },
    RedeemFreeCoffee { account: Address },
    Approve { from: Address, spender: Address, amount: i128, expiration_ledger: u32 },
    Transfer { from: Address, to: Address, amount: i128 },
    TransferFrom { spender: Address, from: Address, to: Address, amount: i128 },
    Burn { from: Address, amount: i128 },
    BurnFrom { spender: Address, from: Address, amount: i128 },
}

/// A call together with the circumstances under which it is made: who has
/// authorized it, and the ledger sequence at which it runs.
pub struct Invocation {
    pub auths: Seq<Address>,
    pub sequence: u32,
    pub call: Call,
}

impl Call {
    /// Whether the call creates units.
    pub open spec fn mints(self) -> bool {
        self is Mint
    }

    /// Whether the call destroys units.
    pub open spec fn burns(self) -> bool {
        self is Burn || self is BurnFrom
    }

    /// The amount that the call names, 0 where it names none.
    pub open spec fn amount(self) -> int {
        match self {
            Call::Mint { amount, .. } => amount as int,
            Call::Approve { amount, .. } => amount as int,
            Call::Transfer { amount, .. } => amount as int,
            Call::TransferFrom { amount, .. } => amount as int,
            Call::Burn { amount, .. } => amount as int,
            Call::BurnFrom { amount, .. } => amount as int,
            _ => 0,
        }
    }

    /// Whether the call would take value, points or credits from `account`.
    pub open spec fn draws_on(self, account: Address) -> bool {
        match self {
            Call::Transfer { from, .. } => from == account,
            Call::TransferFrom { from, .. } => from == account,
            Call::Burn { from, .. } => from == account,
            Call::BurnFrom { from, .. } => from == account,
            Call::AddCoffeePoint { account: payer, .. } => payer == account,
            Call::CheckFreeCoffee { account: holder } => holder == account,
            Call::RedeemFreeCoffee { account: holder } => holder == account,
            _ => false,
        }
    }
}

impl HostView {
    /// The identity whose authorization `call` needs in this state: the
    /// administrator for the privileged calls, the owner or the spender for
    /// the others. `initialize` needs none, and neither does a privileged
    /// call find one while no administrator exists.
    pub open spec fn required_signer(self, call: Call) -> Option<Address> {
        match call {
            Call::Initialize { .. } => None,
            Call::Approve { from, .. } => Some(from),
            Call::Transfer { from, .. } => Some(from),
            Call::Burn { from, .. } => Some(from),
            Call::TransferFrom { spender, .. } => Some(spender),
            Call::BurnFrom { spender, .. } => Some(spender),
            _ => self.admin,
        }
    }

    /// Whether the identity that `call` needs has authorized it.
    pub open spec fn signed(self, call: Call) -> bool {
        self.required_signer(call) is Some && self.authorized(self.required_signer(call)->0)
    }

    /// The state as a call finds it: the records as they are, under the
    /// authorizations `auths` and at ledger sequence `sequence`.
    pub open spec fn enter(self, auths: Seq<Address>, sequence: u32) -> HostView {
        HostView { auths, sequence, ..self }
    }

    /// What `call` does in this state.
    pub open spec fn perform(self, call: Call) -> Result<HostView, TokenError> {
        match call {
            Call::Initialize { admin, decimal, name, symbol } => self.initialize(
                admin,
                decimal,
                name,
                symbol,
            ),
            Call::Mint { to, amount } => self.mint(to, amount),
            Call::SetAdmin { new_admin } => self.set_admin(new_admin),
            Call::FreezeAccount { account } => self.freeze_account(account),
            Call::UnfreezeAccount { account } => self.unfreeze_account(account),
            Call::AddCoffeePoint { account, shop_owner } => self.add_coffee_point(
                account,
                shop_owner,
            ),
            Call::CheckFreeCoffee { account } => self.check_free_coffee(account),
            Call::RedeemFreeCoffee { account } => self.redeem_free_coffee(account),
            Call::Approve { from, spender, amount, expiration_ledger } => self.approve(
                from,
                spender,
                amount,
                expiration_ledger,
            ),
            Call::Transfer { from, to, amount } => self.transfer(from, to, amount),
            Call::TransferFrom { spender, from, to, amount } => self.transfer_from(
                spender,
                from,
                to,
                amount,
            ),
            Call::Burn { from, amount } => self.burn(from, amount),
            Call::BurnFrom { spender, from, amount } => self.burn_from(spender, from, amount),
        }
    }

    /// What `invocation` does to the records of this state.
    pub open spec fn invoke(self, invocation: Invocation) -> Result<HostView, TokenError> {
        self.enter(invocation.auths, invocation.sequence).perform(invocation.call)
    }

    /// The state after `invocation`: what the call made of it where it
    /// succeeded, and the state as the call found it where it failed.
    pub open spec fn after(self, invocation: Invocation) -> HostView {
        match self.invoke(invocation) {
            Ok(next) => next,
            Err(_) => self.enter(invocation.auths, invocation.sequence),
        }
    }

    /// The state after all of `invocations`, made one after the other.
    pub open spec fn run(self, invocations: Seq<Invocation>) -> HostView
        decreases invocations.len(),
    {
        if invocations.len() == 0 {
            self
        } else {
            self.run(invocations.drop_last()).after(invocations.last())
        }
    }

    /// The units that `invocation` creates in this state: the amount of a
    /// mint that succeeds, else nothing.
    pub open spec fn minted_by(self, invocation: Invocation) -> int {
        if invocation.call.mints() && self.invoke(invocation) is Ok {
            invocation.call.amount()
        } else {
            0
        }
    }

    /// The units that `invocation` destroys in this state: the amount of a
    /// burn that succeeds, else nothing.
    pub open spec fn burned_by(self, invocation: Invocation) -> int {
        if invocation.call.burns() && self.invoke(invocation) is Ok {
            invocation.call.amount()
        } else {
            0
        }
    }

    /// The units created in the course of `invocations`.
    pub open spec fn total_minted(self, invocations: Seq<Invocation>) -> int
        decreases invocations.len(),
    {
        if invocations.len() == 0 {
            0
        } else {
            self.total_minted(invocations.drop_last()) + self.run(
                invocations.drop_last(),
            ).minted_by(invocations.last())
        }
    }

    /// The units destroyed in the course of `invocations`.
    pub open spec fn total_burned(self, invocations: Seq<Invocation>) -> int
        decreases invocations.len(),
    {
        if invocations.len() == 0 {
            0
        } else {
            self.total_burned(invocations.drop_last()) + self.run(
                invocations.drop_last(),
            ).burned_by(invocations.last())
        }
    }
}

} // verus!
