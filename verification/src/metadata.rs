use crate::host::{Host, HostView};
use crate::storage_types::TokenMetadata;
use vstd::prelude::*;

verus! {

/// Whether the identity of the token is recorded.
pub fn has_metadata(host: &Host) -> (present: bool)
    ensures
        present == (host@.metadata is Some),
{
    host.metadata.is_some()
}

/// The decimal precision of the token.
pub fn read_decimal(host: &Host) -> (decimal: u32)
    requires
        host@.metadata is Some,
    ensures
        decimal == host@.metadata->0.decimal,
{
    host.metadata.as_ref().unwrap().decimal
}

/// The name of the token.
pub fn read_name(host: &Host) -> (name: String)
    requires
        host@.metadata is Some,
    ensures
        name@ == host@.metadata->0.name,
{
    host.metadata.as_ref().unwrap().name.clone()
}

/// The symbol of the token.
pub fn read_symbol(host: &Host) -> (symbol: String)
    requires
        host@.metadata is Some,
    ensures
        symbol@ == host@.metadata->0.symbol,
{
    host.metadata.as_ref().unwrap().symbol.clone()
}

/// Records `metadata` as the identity of the token.
pub fn write_metadata(host: &mut Host, metadata: TokenMetadata)
    ensures
        final(host)@ == (HostView { metadata: Some(metadata@), ..old(host)@ }),
{
    host.metadata = Some(metadata);
}

} // verus!
