use std::collections::HashMap;
use vstd::prelude::*;

verus! {

broadcast use vstd::std_specs::hash::group_hash_axioms;

/// Ledgers closed per day, the unit in which entry lifetimes are counted.
pub const DAY_IN_LEDGERS: u32 = 17280;

/// Remaining lifetime below which the registry's entries are refreshed.
pub const INSTANCE_LIFETIME_THRESHOLD: u32 = DAY_IN_LEDGERS * 30;

/// Lifetime that a refreshed registry entry is given.
pub const INSTANCE_BUMP_AMOUNT: u32 = DAY_IN_LEDGERS * 30;

/// Remaining lifetime below which an ownership entry is refreshed.
pub const BALANCE_LIFETIME_THRESHOLD: u32 = DAY_IN_LEDGERS * 30;

/// Lifetime that a refreshed ownership entry is given.
pub const BALANCE_BUMP_AMOUNT: u32 = DAY_IN_LEDGERS * 30;

/// The whole of a price, in basis points: no fee rate may exceed it.
pub const MAX_BASIS_POINTS: u32 = 10000;

/// What an address names: a user account or a deployed contract.
#[derive(Clone, Copy, Debug, PartialEq, Eq, Structural, Hash)]
pub enum AddressKind {
    Account,
    Contract,
}

/// The identity of a party: its kind and its 256-bit key, held as two halves.
/// Two addresses are the same party exactly when all three fields agree.
#[derive(Clone, Copy, Debug, PartialEq, Eq, Structural, Hash)]
pub struct Address {
    pub kind: AddressKind,
    pub high: u128,
    pub low: u128,
}

/// Why an operation was refused. A refused operation changes nothing.
#[derive(Clone, Copy, Debug, PartialEq, Eq, Structural, Hash)]
pub enum MarketError {
    AlreadyInitialized,
    NotInitialized,
    InvalidFeePercentage,
    Unauthorized,
    TokenNotFound,
    NotTokenOwner,
    AlreadyListed,
    NotListed,
    InvalidPrice,
    SelfPurchase,
    TokenCurrentlyListed,
}

/// The names of the ledger's entries. Each variant names an entry of its own.
#[derive(Clone, Copy, Debug, PartialEq, Eq, Structural, Hash)]
pub enum DataKey {
    Admin,
    TokenMetadata,
    Balance(u64),
    TokenURI(u64),
    TokenCount,
    Approval(u64, Address),
    Listed(u64),
    ListingPrice(u64),
    ListedBy(u64),
    Royalty,
    RoyaltyRecipient,
    PlatformFee,
    PlatformAddress,
}

/// The descriptive fields of the collection.
#[derive(Debug, PartialEq, Eq)]
pub struct TokenMetadata {
    pub name: String,
    pub symbol: String,
    pub description: String,
    pub base_uri: String,
}

/// The collection's descriptive fields as sequences of characters.
pub struct TokenMetadataView {
    pub name: Seq<char>,
    pub symbol: Seq<char>,
    pub description: Seq<char>,
    pub base_uri: Seq<char>,
}

impl View for TokenMetadata {
    type V = TokenMetadataView;

    open spec fn view(&self) -> TokenMetadataView {
        TokenMetadataView {
            name: self.name@,
            symbol: self.symbol@,
            description: self.description@,
            base_uri: self.base_uri@,
        }
    }
}

impl Clone for TokenMetadata {
    fn clone(&self) -> (copy: Self)
        ensures
            copy == *self,
    {
        TokenMetadata {
            name: self.name.clone(),
            symbol: self.symbol.clone(),
            description: self.description.clone(),
            base_uri: self.base_uri.clone(),
        }
    }
}

/// An open offer to sell one token at a fixed price.
#[derive(Clone, Copy, Debug, PartialEq, Eq, Structural)]
pub struct Listing {
    pub token_id: u64,
    pub price: i128,
    pub seller: Address,
}

/// A token as callers see it: its id, its owner and its URI.
#[derive(Debug, PartialEq, Eq)]
pub struct NFTToken {
    pub token_id: u64,
    pub owner: Address,
    pub uri: String,
}

/// A token with its URI as a sequence of characters.
pub struct NFTTokenView {
    pub token_id: u64,
    pub owner: Address,
    pub uri: Seq<char>,
}

impl View for NFTToken {
    type V = NFTTokenView;

    open spec fn view(&self) -> NFTTokenView {
        NFTTokenView { token_id: self.token_id, owner: self.owner, uri: self.uri@ }
    }
}

impl Clone for NFTToken {
    fn clone(&self) -> (copy: Self)
        ensures
            copy == *self,
    {
        NFTToken { token_id: self.token_id, owner: self.owner, uri: self.uri.clone() }
    }
}

} // verus!
