use crate::storage_types::Address;
use vstd::prelude::*;

verus! {

/// A record that a successful operation appends to the event log. Each record
/// names the acting identity first, then what the operation did.
#[derive(Clone, Copy, Debug, PartialEq, Eq, Structural)]
pub enum Event {
    /// The administrator created `amount` units for `to`.
    Mint { admin: Address, to: Address, amount: i128 },
    /// The administrator handed control to `new_admin`.
    SetAdmin { admin: Address, new_admin: Address },
    /// The administrator froze `account`.
    FreezeAccount { admin: Address, account: Address },
    /// The administrator lifted the freeze on `account`.
    UnfreezeAccount { admin: Address, account: Address },
    /// `account` paid `price` to `shop_owner` for a coffee and now has
    /// `points` coffee points.
    AddCoffeePoint { admin: Address, account: Address, points: i128, price: i128, shop_owner: Address },
    /// Points of `account` were turned into one free-coffee credit.
    FreeCoffeeGranted { admin: Address, account: Address },
    /// `account` used up one free-coffee credit.
    FreeCoffeeRedeemed { admin: Address, account: Address },
    /// `from` allowed `spender` to spend `amount` until `expiration_ledger`.
    Approve { from: Address, spender: Address, amount: i128, expiration_ledger: u32 },
    /// `amount` units moved from `from` to `to`.
    Transfer { from: Address, to: Address, amount: i128 },
    /// `amount` units of `from` were destroyed.
    Burn { from: Address, amount: i128 },
}

impl Event {
    /// The name of each kind of event.
    pub open spec fn spec_name(self) -> Seq<char> {
        match self {
            Event::Mint { .. } => "mint"@,
            Event::SetAdmin { .. } => "set_admin"@,
            Event::FreezeAccount { .. } => "freeze_account"@,
            Event::UnfreezeAccount { .. } => "unfreeze_account"@,
            Event::AddCoffeePoint { .. } => "add_coffee_point"@,
            Event::FreeCoffeeGranted { .. } => "free_coffee_granted"@,
            Event::FreeCoffeeRedeemed { .. } => "free_coffee_redeemed"@,
            Event::Approve { .. } => "approve"@,
            Event::Transfer { .. } => "transfer"@,
            Event::Burn { .. } => "burn"@,
        }
    }

    /// The identity on whose behalf the recorded operation ran: the
    /// administrator, or the account that gave up value or granted the
    /// allowance.
    pub open spec fn spec_actor(self) -> Address {
        match self {
            Event::Mint { admin, .. } => admin,
            Event::SetAdmin { admin, .. } => admin,
            Event::FreezeAccount { admin, .. } => admin,
            Event::UnfreezeAccount { admin, .. } => admin,
            Event::AddCoffeePoint { admin, .. } => admin,
            Event::FreeCoffeeGranted { admin, .. } => admin,
            Event::FreeCoffeeRedeemed { admin, .. } => admin,
            Event::Approve { from, .. } => from,
            Event::Transfer { from, .. } => from,
            Event::Burn { from, .. } => from,
        }
    }

    /// The name under which observers file this event.
    pub fn name(&self) -> (text: &'static str)
        ensures
            text@ == self.spec_name(),
    {
        match self {
            Event::Mint { .. } => "mint",
            Event::SetAdmin { .. } => "set_admin",
            Event::FreezeAccount { .. } => "freeze_account",
            Event::UnfreezeAccount { .. } => "unfreeze_account",
            Event::AddCoffeePoint { .. } => "add_coffee_point",
            Event::FreeCoffeeGranted { .. } => "free_coffee_granted",
            Event::FreeCoffeeRedeemed { .. } => "free_coffee_redeemed",
            Event::Approve { .. } => "approve",
            Event::Transfer { .. } => "transfer",
            Event::Burn { .. } => "burn",
        }
    }

    /// The acting identity of this event.
    pub fn actor(&self) -> (who: Address)
        ensures
            who == self.spec_actor(),
    {
        match self {
            Event::Mint { admin, .. } => *admin,
            Event::SetAdmin { admin, .. } => *admin,
            Event::FreezeAccount { admin, .. } => *admin,
            Event::UnfreezeAccount { admin, .. } => *admin,
            Event::AddCoffeePoint { admin, .. } => *admin,
            Event::FreeCoffeeGranted { admin, .. } => *admin,
            Event::FreeCoffeeRedeemed { admin, .. } => *admin,
            Event::Approve { from, .. } => *from,
            Event::Transfer { from, .. } => *from,
            Event::Burn { from, .. } => *from,
        }
    }
}

} // verus!
