use crate::error::TokenError;
use crate::event::Event;
use crate::storage_types::{
    Address, AllowanceDataKey, AllowanceValue, Key, TokenMetadata, TokenMetadataView,
};
use crate::supply::sum_values;
use crate::table::Table;
use vstd::prelude::*;

verus! {

/// Everything an operation of the ledger reads or changes: the persistent
/// records, the current ledger sequence number, the identities that have
/// authorized the call in progress, and the log of published events.
#[derive(Clone, Debug, PartialEq, Eq)]
pub struct Host {
    pub admin: Option<Address>,
    pub metadata: Option<TokenMetadata>,
    pub balances: Table<Address, i128>,
    pub allowances: Table<AllowanceDataKey, AllowanceValue>,
    pub frozen: Table<Address, bool>,
    pub coffee_points: Table<Address, i128>,
    pub free_coffee: Table<Address, i128>,
    pub sequence: u32,
    pub auths: Vec<Address>,
    pub events: Vec<Event>,
}

/// The mathematical value of a [`Host`].
pub struct HostView {
    pub admin: Option<Address>,
    pub metadata: Option<TokenMetadataView>,
    pub balances: Map<Address, i128>,
    pub allowances: Map<AllowanceDataKey, AllowanceValue>,
    pub frozen: Map<Address, bool>,
    pub coffee_points: Map<Address, i128>,
    pub free_coffee: Map<Address, i128>,
    pub sequence: u32,
    pub auths: Seq<Address>,
    pub events: Seq<Event>,
}

impl View for Host {
    type V = HostView;

    open spec fn view(&self) -> HostView {
        HostView {
            admin: self.admin,
            metadata: match self.metadata {
                Some(m) => Some(m@),
                None => None,
            },
            balances: self.balances@,
            allowances: self.allowances@,
            frozen: self.frozen@,
            coffee_points: self.coffee_points@,
            free_coffee: self.free_coffee@,
            sequence: self.sequence,
            auths: self.auths@,
            events: self.events@,
        }
    }
}

impl HostView {
    /// The state of a host on which nothing has happened yet.
    pub open spec fn empty() -> HostView {
        HostView {
            admin: None,
            metadata: None,
            balances: Map::empty(),
            allowances: Map::empty(),
            frozen: Map::empty(),
            coffee_points: Map::empty(),
            free_coffee: Map::empty(),
            sequence: 0,
            auths: Seq::empty(),
            events: Seq::empty(),
        }
    }

    /// Whether every table of the state holds finitely many records.
    pub open spec fn finite(self) -> bool {
        &&& self.balances.dom().finite()
        &&& self.allowances.dom().finite()
        &&& self.frozen.dom().finite()
        &&& self.coffee_points.dom().finite()
        &&& self.free_coffee.dom().finite()
    }

    /// The balance of `id`: 0 where none is recorded.
    pub open spec fn balance(self, id: Address) -> i128 {
        if self.balances.dom().contains(id) {
            self.balances[id]
        } else {
            0
        }
    }

    /// Whether `id` is frozen: not, where no flag is recorded.
    pub open spec fn is_frozen(self, id: Address) -> bool {
        self.frozen.dom().contains(id) && self.frozen[id]
    }

    /// The coffee points of `id`: 0 where none are recorded.
    pub open spec fn coffee_points_of(self, id: Address) -> i128 {
        if self.coffee_points.dom().contains(id) {
            self.coffee_points[id]
        } else {
            0
        }
    }

    /// The free-coffee credits of `id`: 0 where none are recorded.
    pub open spec fn free_coffee_of(self, id: Address) -> i128 {
        if self.free_coffee.dom().contains(id) {
            self.free_coffee[id]
        } else {
            0
        }
    }

    /// The allowance that `spender` may still draw on from `from`. A record
    /// whose expiration the ledger has reached counts as amount 0; where
    /// nothing is recorded, the amount and the expiration are 0.
    pub open spec fn allowance(self, from: Address, spender: Address) -> AllowanceValue {
        let key = AllowanceDataKey { from, spender };
        if self.allowances.dom().contains(key) {
            let recorded = self.allowances[key];
            if recorded.expiration_ledger <= self.sequence {
                AllowanceValue { amount: 0, expiration_ledger: recorded.expiration_ledger }
            } else {
                recorded
            }
        } else {
            AllowanceValue { amount: 0, expiration_ledger: 0 }
        }
    }

    /// Whether `id` has authorized the call in progress.
    pub open spec fn authorized(self, id: Address) -> bool {
        self.auths.contains(id)
    }

    /// Whether an administrator exists and has authorized the call in
    /// progress.
    pub open spec fn admin_authorized(self) -> bool {
        self.admin is Some && self.authorized(self.admin->0)
    }

    /// The sum of all balances.
    pub open spec fn total_supply(self) -> int {
        sum_values(self.balances)
    }

    /// The state with `event` appended to the log.
    pub open spec fn emit(self, event: Event) -> HostView {
        HostView { events: self.events.push(event), ..self }
    }

    /// The state in which the balance of `id` is `amount`.
    pub open spec fn with_balance(self, id: Address, amount: i128) -> HostView {
        HostView { balances: self.balances.insert(id, amount), ..self }
    }
}

impl Host {
    /// A host on which nothing has happened yet: no records, ledger sequence
    /// 0, nobody authorized, no events.
    pub fn new() -> (host: Host)
        ensures
            host@ == HostView::empty(),
    {
        Host {
            admin: None,
            metadata: None,
            balances: Table::new(),
            allowances: Table::new(),
            frozen: Table::new(),
            coffee_points: Table::new(),
            free_coffee: Table::new(),
            sequence: 0,
            auths: Vec::new(),
            events: Vec::new(),
        }
    }

    /// Every host holds finitely many records.
    pub proof fn lemma_finite(self)
        ensures
            self@.finite(),
    {
        self.balances.lemma_finite();
        self.allowances.lemma_finite();
        self.frozen.lemma_finite();
        self.coffee_points.lemma_finite();
        self.free_coffee.lemma_finite();
    }

    /// The current ledger sequence number.
    pub fn ledger_sequence(&self) -> (sequence: u32)
        ensures
            sequence == self@.sequence,
    {
        self.sequence
    }

    /// Moves the ledger to `sequence`.
    pub fn set_ledger_sequence(&mut self, sequence: u32)
        ensures
            final(self)@ == (HostView { sequence, ..old(self)@ }),
    {
        self.sequence = sequence;
    }

    /// Records that exactly the identities in `auths` have authorized the
    /// call that comes next.
    pub fn set_auths(&mut self, auths: Vec<Address>)
        ensures
            final(self)@ == (HostView { auths: auths@, ..old(self)@ }),
    {
        self.auths = auths;
    }

    /// Records that `id` too has authorized the call that comes next.
    pub fn authorize(&mut self, id: Address)
        ensures
            final(self)@ == (HostView { auths: old(self)@.auths.push(id), ..old(self)@ }),
            forall|other: Address|
                final(self)@.auths.contains(other) <==> other == id || old(self)@.auths.contains(
                    other,
                ),
    {
        self.auths.push(id);
        assert forall|other: Address|
            self@.auths.contains(other) <==> other == id || old(self)@.auths.contains(other) by {
            let before = old(self).auths@;
            let after = self.auths@;
            if other == id {
                assert(after[after.len() - 1] == other);
            }
            if before.contains(other) {
                let i = choose|i: int| 0 <= i < before.len() && before[i] == other;
                assert(after[i] == other);
            }
        }
    }

    /// Forgets all authorizations.
    pub fn clear_auths(&mut self)
        ensures
            final(self)@ == (HostView { auths: Seq::empty(), ..old(self)@ }),
    {
        self.auths = Vec::new();
    }

    /// Demands that `id` has authorized the call in progress.
    pub fn require_auth(&self, id: &Address) -> (res: Result<(), TokenError>)
        ensures
            res == (if self@.authorized(*id) {
                Ok::<(), TokenError>(())
            } else {
                Err::<(), TokenError>(TokenError::Unauthorized)
            }),
    {
        let mut i: usize = 0;
        while i < self.auths.len()
            invariant
                i <= self.auths@.len(),
                forall|j: int| 0 <= j < i ==> self.auths@[j] != *id,
            decreases self.auths@.len() - i,
        {
            if self.auths[i].same(id) {
                return Ok(());
            }
            i += 1;
        }
        Err(TokenError::Unauthorized)
    }

    /// Appends `event` to the log.
    pub fn publish(&mut self, event: Event)
        ensures
            final(self)@ == old(self)@.emit(event),
    {
        self.events.push(event);
    }

    /// The events published so far, oldest first.
    pub fn events(&self) -> (log: &Vec<Event>)
        ensures
            log@ == self@.events,
    {
        &self.events
    }
}

} // verus!
