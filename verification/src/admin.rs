use crate::host::{Host, HostView};
use crate::storage_types::Address;
use vstd::prelude::*;

verus! {

/// Whether an administrator is recorded.
pub fn has_administrator(host: &Host) -> (present: bool)
    ensures
        present == (host@.admin is Some),
{
    host.admin.is_some()
}

/// The administrator, if one is recorded.
pub fn read_administrator(host: &Host) -> (admin: Option<Address>)
    ensures
        admin == host@.admin,
{
    host.admin
}

/// Records `id` as the administrator.
pub fn write_administrator(host: &mut Host, id: &Address)
    ensures
        final(host)@ == (HostView { admin: Some(*id), ..old(host)@ }),
{
    host.admin = Some(*id);
}

} // verus!
