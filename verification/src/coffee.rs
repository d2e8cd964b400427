use crate::host::{Host, HostView};
use crate::storage_types::Address;
use vstd::prelude::*;

verus! {

impl HostView {
    /// The state in which `account` has `points` coffee points.
    pub open spec fn with_coffee_points(self, account: Address, points: i128) -> HostView {
        HostView { coffee_points: self.coffee_points.insert(account, points), ..self }
    }

    /// The state in which `account` has `count` free-coffee credits.
    pub open spec fn with_free_coffee(self, account: Address, count: i128) -> HostView {
        HostView { free_coffee: self.free_coffee.insert(account, count), ..self }
    }
}

/// The coffee points of `account`: 0 where none are recorded.
pub fn read_coffee_points(host: &Host, account: &Address) -> (points: i128)
    ensures
        points == host@.coffee_points_of(*account),
{
    match host.coffee_points.get(account) {
        Some(points) => points,
        None => 0,
    }
}

/// Records `points` as the coffee points of `account`.
pub fn write_coffee_points(host: &mut Host, account: &Address, points: i128)
    ensures
        final(host)@ == old(host)@.with_coffee_points(*account, points),
{
    host.coffee_points.set(*account, points);
}

/// The free-coffee credits of `account`: 0 where none are recorded.
pub fn read_free_coffee(host: &Host, account: &Address) -> (count: i128)
    ensures
        count == host@.free_coffee_of(*account),
{
    match host.free_coffee.get(account) {
        Some(count) => count,
        None => 0,
    }
}

/// Records `count` as the free-coffee credits of `account`.
pub fn write_free_coffee(host: &mut Host, account: &Address, count: i128)
    ensures
        final(host)@ == old(host)@.with_free_coffee(*account, count),
{
    host.free_coffee.set(*account, count);
}

} // verus!
