//! A fungible-token ledger with a coffee loyalty programme.
//!
//! The ledger keeps balances, spending allowances, an administrator, account
//! freezes, coffee points and free-coffee credits in a [`Host`], together
//! with the ledger sequence number, the identities that have authorized the
//! call in progress, and the log of published events. Every entry point of
//! [`Token`] either applies one whole transition to the host or fails with a
//! [`TokenError`] and leaves the host exactly as it was.
//!
//! Each entry point is specified by a function of the same name on
//! [`HostView`], the mathematical value of a host. The module [`laws`] proves
//! what holds of those transitions over any sequence of calls: conservation
//! of the supply, the authorization and freeze gates, and that initialization
//! happens once.

pub mod admin;
pub mod allowance;
pub mod balance;
pub mod call;
pub mod coffee;
pub mod contract;
pub mod error;
pub mod event;
pub mod host;
pub mod laws;
pub mod metadata;
pub mod storage_types;
pub mod supply;
pub mod table;

pub use crate::call::{Call, Invocation};
pub use crate::coffee::{
    read_coffee_points, read_free_coffee, write_coffee_points, write_free_coffee,
};
pub use crate::contract::{check_nonnegative_amount, Token};
pub use crate::error::TokenError;
pub use crate::event::Event;
pub use crate::host::{Host, HostView};
pub use crate::storage_types::{
    Address, AddressKind, AllowanceDataKey, AllowanceValue, Key, TokenMetadata,
};
pub use crate::table::Table;
