use crate::ledger::LedgerState;
use crate::storage_types::{
    Address, Listing, MarketError, NFTTokenView, TokenMetadataView, MAX_BASIS_POINTS,
};
use vstd::prelude::*;

verus! {

/// Royalty rate, in basis points, that a sale uses while none is configured.
pub const DEFAULT_ROYALTY_PERCENTAGE: u32 = 250;

/// Platform fee rate, in basis points, that a sale uses while none is configured.
pub const DEFAULT_PLATFORM_FEE: u32 = 100;

/// The part of `price` that a rate of `rate` basis points takes, rounded down.
pub open spec fn fee_share(price: int, rate: int) -> int {
    price * rate / 10000
}

/// How the price of one sale is divided.
#[derive(Clone, Copy, Debug, PartialEq, Eq, Structural)]
pub struct Settlement {
    pub price: i128,
    pub seller: Address,
    pub seller_amount: i128,
    pub royalty_recipient: Address,
    pub royalty_amount: i128,
    pub platform_address: Address,
    pub platform_fee_amount: i128,
}

/// A call on a registry that has been set up: any operation but the setup.
pub enum Operation {
    Mint { to: Address, uri: Seq<char> },
    Transfer { sender: Address, to: Address, id: u64 },
    Approve { owner: Address, delegate: Address, id: u64 },
    List { owner: Address, id: u64, price: i128 },
    Cancel { caller: Address, id: u64 },
    Buy { buyer: Address, id: u64 },
    UpdateRoyalty { admin: Address, rate: u32, recipient: Address },
    UpdatePlatformFee { admin: Address, rate: u32, address: Address },
    UpdateAdmin { admin: Address, new_admin: Address },
}

impl LedgerState {
    /// The number of tokens minted so far; ids below it are the valid ones.
    pub open spec fn supply(self) -> u64 {
        match self.token_count {
            Some(count) => count,
            None => 0,
        }
    }

    /// The owner of token `id`, or `TokenNotFound` where it has no owner entry.
    pub open spec fn owner_of(self, id: u64) -> Result<Address, MarketError> {
        if self.owners.contains_key(id) {
            Ok(self.owners[id])
        } else {
            Err(MarketError::TokenNotFound)
        }
    }

    /// The URI of token `id`; empty where none was written.
    pub open spec fn uri_of(self, id: u64) -> Seq<char> {
        if self.uris.contains_key(id) {
            self.uris[id]
        } else {
            Seq::empty()
        }
    }

    /// Whether `address` is the configured administrator.
    pub open spec fn is_admin(self, address: Address) -> bool {
        self.admin == Some(address)
    }

    /// Whether token `id` has an active listing.
    pub open spec fn is_listed(self, id: u64) -> bool {
        self.listings.contains_key(id)
    }

    /// Whether `sender` may move token `id`: it owns it or holds an approval.
    pub open spec fn may_transfer(self, sender: Address, id: u64) -> bool {
        self.owner_of(id) == Ok::<Address, MarketError>(sender) || self.approvals.contains(
            (id, sender),
        )
    }

    /// The royalty rate that a sale uses.
    pub open spec fn royalty_rate(self) -> u32 {
        match self.royalty {
            Some(rate) => rate,
            None => DEFAULT_ROYALTY_PERCENTAGE,
        }
    }

    /// The platform fee rate that a sale uses.
    pub open spec fn platform_rate(self) -> u32 {
        match self.platform_fee {
            Some(rate) => rate,
            None => DEFAULT_PLATFORM_FEE,
        }
    }

    /// Token `id` as callers see it. It must lie below the supply and have an
    /// owner entry.
    pub open spec fn token(self, id: u64) -> Result<NFTTokenView, MarketError> {
        if id >= self.supply() || !self.owners.contains_key(id) {
            Err(MarketError::TokenNotFound)
        } else {
            Ok(NFTTokenView { token_id: id, owner: self.owners[id], uri: self.uri_of(id) })
        }
    }

    /// One-time setup: refused once an administrator is set, and for a rate
    /// above the whole price. It writes the configuration and a supply of zero.
    pub open spec fn initialized(
        self,
        admin: Address,
        metadata: TokenMetadataView,
        royalty: u32,
        royalty_recipient: Address,
        platform_fee: u32,
        platform_address: Address,
    ) -> Result<LedgerState, MarketError> {
        if self.admin is Some {
            Err(MarketError::AlreadyInitialized)
        } else if royalty > MAX_BASIS_POINTS || platform_fee > MAX_BASIS_POINTS {
            Err(MarketError::InvalidFeePercentage)
        } else {
            Ok(
                LedgerState {
                    admin: Some(admin),
                    metadata: Some(metadata),
                    royalty: Some(royalty),
                    royalty_recipient: Some(royalty_recipient),
                    platform_fee: Some(platform_fee),
                    platform_address: Some(platform_address),
                    token_count: Some(0),
                    ..self
                },
            )
        }
    }

    /// The ledger after a mint to `to`: the new token takes the id that equals
    /// the old supply.
    pub open spec fn minted(self, to: Address, uri: Seq<char>) -> LedgerState {
        LedgerState {
            token_count: Some((self.supply() + 1) as u64),
            uris: self.uris.insert(self.supply(), uri),
            owners: self.owners.insert(self.supply(), to),
            ..self
        }
    }

    /// A transfer of token `id` to `to`, asked for by `sender`. It uses up the
    /// approval that `sender` holds for the token, if it holds one; approvals
    /// given to others stay.
    pub open spec fn transferred(self, sender: Address, to: Address, id: u64) -> Result<
        LedgerState,
        MarketError,
    > {
        if id >= self.supply() || !self.owners.contains_key(id) {
            Err(MarketError::TokenNotFound)
        } else if !self.may_transfer(sender, id) {
            Err(MarketError::Unauthorized)
        } else if self.is_listed(id) {
            Err(MarketError::TokenCurrentlyListed)
        } else {
            Ok(
                LedgerState {
                    owners: self.owners.insert(id, to),
                    approvals: self.approvals.remove((id, sender)),
                    ..self
                },
            )
        }
    }

    /// An approval of `delegate` for token `id`, given by `owner`.
    pub open spec fn approved(self, owner: Address, delegate: Address, id: u64) -> Result<
        LedgerState,
        MarketError,
    > {
        if !self.owners.contains_key(id) {
            Err(MarketError::TokenNotFound)
        } else if self.owners[id] != owner {
            Err(MarketError::NotTokenOwner)
        } else {
            Ok(LedgerState { approvals: self.approvals.insert((id, delegate)), ..self })
        }
    }

    /// A listing of token `id` at `price`, asked for by `owner`.
    pub open spec fn listed(self, owner: Address, id: u64, price: i128) -> Result<
        LedgerState,
        MarketError,
    > {
        if price <= 0 {
            Err(MarketError::InvalidPrice)
        } else if !self.owners.contains_key(id) {
            Err(MarketError::TokenNotFound)
        } else if self.owners[id] != owner {
            Err(MarketError::NotTokenOwner)
        } else if self.is_listed(id) {
            Err(MarketError::AlreadyListed)
        } else {
            Ok(
                LedgerState {
                    listings: self.listings.insert(
                        id,
                        Listing { token_id: id, price: price, seller: owner },
                    ),
                    ..self
                },
            )
        }
    }

    /// The withdrawal of the listing of token `id`, asked for by `caller`.
    /// Only the seller recorded at listing time may withdraw it.
    pub open spec fn cancelled(self, caller: Address, id: u64) -> Result<
        LedgerState,
        MarketError,
    > {
        if !self.is_listed(id) {
            Err(MarketError::NotListed)
        } else if self.listings[id].seller != caller {
            Err(MarketError::Unauthorized)
        } else {
            Ok(LedgerState { listings: self.listings.remove(id), ..self })
        }
    }

    /// The purchase of token `id` by `buyer`: the buyer becomes the owner and
    /// the listing is gone.
    pub open spec fn bought(self, buyer: Address, id: u64) -> Result<LedgerState, MarketError> {
        if !self.is_listed(id) {
            Err(MarketError::NotListed)
        } else if self.listings[id].seller == buyer {
            Err(MarketError::SelfPurchase)
        } else {
            Ok(
                LedgerState {
                    owners: self.owners.insert(id, buyer),
                    listings: self.listings.remove(id),
                    ..self
                },
            )
        }
    }

    /// Whether `split` divides the price of the listing of token `id` as the
    /// configuration asks: royalty and platform fee by their rates, each
    /// rounded down, and the rest to the seller. A receiver that is not
    /// configured is the seller.
    pub open spec fn settles(self, id: u64, split: Settlement) -> bool {
        let listing = self.listings[id];
        &&& split.price == listing.price
        &&& split.seller == listing.seller
        &&& split.royalty_recipient == match self.royalty_recipient {
            Some(recipient) => recipient,
            None => listing.seller,
        }
        &&& split.platform_address == match self.platform_address {
            Some(address) => address,
            None => listing.seller,
        }
        &&& split.royalty_amount == fee_share(listing.price as int, self.royalty_rate() as int)
        &&& split.platform_fee_amount == fee_share(
            listing.price as int,
            self.platform_rate() as int,
        )
        &&& split.seller_amount == listing.price - split.royalty_amount
            - split.platform_fee_amount
    }

    /// A change of the royalty rate and recipient, asked for by `admin`.
    pub open spec fn royalty_updated(self, admin: Address, rate: u32, recipient: Address) -> Result<
        LedgerState,
        MarketError,
    > {
        if !self.is_admin(admin) {
            Err(MarketError::Unauthorized)
        } else if rate > MAX_BASIS_POINTS {
            Err(MarketError::InvalidFeePercentage)
        } else {
            Ok(LedgerState { royalty: Some(rate), royalty_recipient: Some(recipient), ..self })
        }
    }

    /// A change of the platform fee rate and receiver, asked for by `admin`.
    pub open spec fn platform_fee_updated(
        self,
        admin: Address,
        rate: u32,
        address: Address,
    ) -> Result<LedgerState, MarketError> {
        if !self.is_admin(admin) {
            Err(MarketError::Unauthorized)
        } else if rate > MAX_BASIS_POINTS {
            Err(MarketError::InvalidFeePercentage)
        } else {
            Ok(LedgerState { platform_fee: Some(rate), platform_address: Some(address), ..self })
        }
    }

    /// A change of administrator, asked for by `admin`.
    pub open spec fn admin_updated(self, admin: Address, new_admin: Address) -> Result<
        LedgerState,
        MarketError,
    > {
        if !self.is_admin(admin) {
            Err(MarketError::Unauthorized)
        } else {
            Ok(LedgerState { admin: Some(new_admin), ..self })
        }
    }

    /// The listings of the tokens with an id below `bound`, by ascending id.
    pub open spec fn listings_below(self, bound: nat) -> Seq<Listing>
        decreases bound,
    {
        if bound == 0 {
            Seq::empty()
        } else {
            let id = (bound - 1) as u64;
            let before = self.listings_below((bound - 1) as nat);
            if self.is_listed(id) {
                before.push(self.listings[id])
            } else {
                before
            }
        }
    }

    /// The tokens with an id below `bound` that `owner` owns, by ascending id.
    pub open spec fn owned_below(self, owner: Address, bound: nat) -> Seq<NFTTokenView>
        decreases bound,
    {
        if bound == 0 {
            Seq::empty()
        } else {
            let id = (bound - 1) as u64;
            let before = self.owned_below(owner, (bound - 1) as nat);
            if self.owner_of(id) == Ok::<Address, MarketError>(owner) {
                before.push(NFTTokenView { token_id: id, owner: owner, uri: self.uri_of(id) })
            } else {
                before
            }
        }
    }

    /// The ledger that an attempt leaves: the new one where it succeeded, this
    /// one where it was refused.
    pub open spec fn unless_refused(self, outcome: Result<LedgerState, MarketError>) -> LedgerState {
        match outcome {
            Ok(next) => next,
            Err(_) => self,
        }
    }

    /// The ledger after one call. A call that is refused, and a mint that the
    /// counter has no room for, leave the ledger as it is.
    pub open spec fn after(self, call: Operation) -> LedgerState {
        match call {
            Operation::Mint { to, uri } => if self.supply() < u64::MAX {
                self.minted(to, uri)
            } else {
                self
            },
            Operation::Transfer { sender, to, id } => self.unless_refused(
                self.transferred(sender, to, id),
            ),
            Operation::Approve { owner, delegate, id } => self.unless_refused(
                self.approved(owner, delegate, id),
            ),
            Operation::List { owner, id, price } => self.unless_refused(
                self.listed(owner, id, price),
            ),
            Operation::Cancel { caller, id } => self.unless_refused(self.cancelled(caller, id)),
            Operation::Buy { buyer, id } => self.unless_refused(self.bought(buyer, id)),
            Operation::UpdateRoyalty { admin, rate, recipient } => self.unless_refused(
                self.royalty_updated(admin, rate, recipient),
            ),
            Operation::UpdatePlatformFee { admin, rate, address } => self.unless_refused(
                self.platform_fee_updated(admin, rate, address),
            ),
            Operation::UpdateAdmin { admin, new_admin } => self.unless_refused(
                self.admin_updated(admin, new_admin),
            ),
        }
    }

    /// The ledger after a sequence of calls, made one after the other.
    pub open spec fn after_all(self, calls: Seq<Operation>) -> LedgerState
        decreases calls.len(),
    {
        if calls.len() == 0 {
            self
        } else {
            self.after_all(calls.drop_last()).after(calls.last())
        }
    }

    /// Whether every token below the supply has an owner entry.
    pub open spec fn owners_complete(self) -> bool {
        forall|id: u64| id < self.supply() ==> #[trigger] self.owners.contains_key(id)
    }

    /// The registry's invariant: exactly the ids below the supply have an
    /// owner, only such tokens are listed, and each listing is filed under its
    /// own token's id.
    pub open spec fn consistent(self) -> bool {
        &&& forall|id: u64| #[trigger] self.owners.contains_key(id) <==> id < self.supply()
        &&& forall|id: u64| #[trigger]
            self.listings.contains_key(id) ==> self.owners.contains_key(id)
                && self.listings[id].token_id == id
    }
}

} // verus!
