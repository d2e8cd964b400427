use vstd::prelude::*;

verus! {

/// What kind of party an address names.
#[derive(Clone, Copy, Debug, PartialEq, Eq, Structural)]
pub enum AddressKind {
    /// An account that signs with its own key.
    Account,
    /// A contract.
    Contract,
}

/// The identity of a party: its kind and a 256-bit identifier, held as two
/// halves. Two addresses are the same party exactly when all three fields agree.
#[derive(Clone, Copy, Debug, PartialEq, Eq, Structural)]
pub struct Address {
    pub kind: AddressKind,
    pub hi: u128,
    pub lo: u128,
}

/// The key of an allowance: who granted it and who may spend it.
#[derive(Clone, Copy, Debug, PartialEq, Eq, Structural)]
pub struct AllowanceDataKey {
    pub from: Address,
    pub spender: Address,
}

/// A recorded allowance: the amount left and the ledger sequence number at
/// which it stops being valid.
#[derive(Clone, Copy, Debug, PartialEq, Eq, Structural)]
pub struct AllowanceValue {
    pub amount: i128,
    pub expiration_ledger: u32,
}

/// The identity of the token, fixed when the ledger is initialized.
#[derive(Clone, Debug, PartialEq, Eq)]
pub struct TokenMetadata {
    pub decimal: u32,
    pub name: String,
    pub symbol: String,
}

/// The mathematical value of a `TokenMetadata`.
pub struct TokenMetadataView {
    pub decimal: u32,
    pub name: Seq<char>,
    pub symbol: Seq<char>,
}

impl View for TokenMetadata {
    type V = TokenMetadataView;

    open spec fn view(&self) -> TokenMetadataView {
        TokenMetadataView { decimal: self.decimal, name: self.name@, symbol: self.symbol@ }
    }
}

/// A type whose values can serve as keys of a [`crate::table::Table`]: it can
/// be copied, and `same` decides equality.
pub trait Key: Copy {
    /// Whether `self` and `other` are the same key.
    fn same(&self, other: &Self) -> (r: bool)
        ensures
            r == (*self == *other),
    ;
}

impl Key for Address {
    fn same(&self, other: &Self) -> (r: bool) {
        *self == *other
    }
}

impl Key for AllowanceDataKey {
    fn same(&self, other: &Self) -> (r: bool) {
        *self == *other
    }
}

} // verus!
