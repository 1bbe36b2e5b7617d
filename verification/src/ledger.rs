use crate::storage_types::{Address, DataKey, Listing, TokenMetadata, TokenMetadataView, MAX_BASIS_POINTS};
use std::collections::HashMap;
use vstd::prelude::*;

verus! {

broadcast use vstd::std_specs::hash::group_hash_axioms;

/// What the ledger holds, entry by entry, as a mathematical value.
///
/// A listing is one entry here: its flag, its price and its seller are written
/// and removed together.
pub struct LedgerState {
    pub admin: Option<Address>,
    pub metadata: Option<TokenMetadataView>,
    pub token_count: Option<u64>,
    pub royalty: Option<u32>,
    pub royalty_recipient: Option<Address>,
    pub platform_fee: Option<u32>,
    pub platform_address: Option<Address>,
    pub owners: Map<u64, Address>,
    pub uris: Map<u64, Seq<char>>,
    pub approvals: Set<(u64, Address)>,
    pub listings: Map<u64, Listing>,
}

impl LedgerState {
    /// The ledger in which nothing was written yet.
    pub open spec fn empty() -> LedgerState {
        LedgerState {
            admin: None,
            metadata: None,
            token_count: None,
            royalty: None,
            royalty_recipient: None,
            platform_fee: None,
            platform_address: None,
            owners: Map::empty(),
            uris: Map::empty(),
            approvals: Set::empty(),
            listings: Map::empty(),
        }
    }

    /// Whether the entry that `key` names is present.
    pub open spec fn has(self, key: DataKey) -> bool {
        match key {
            DataKey::Admin => self.admin is Some,
            DataKey::TokenMetadata => self.metadata is Some,
            DataKey::Balance(id) => self.owners.contains_key(id),
            DataKey::TokenURI(id) => self.uris.contains_key(id),
            DataKey::TokenCount => self.token_count is Some,
            DataKey::Approval(id, delegate) => self.approvals.contains((id, delegate)),
            DataKey::Listed(id) => self.listings.contains_key(id),
            DataKey::ListingPrice(id) => self.listings.contains_key(id),
            DataKey::ListedBy(id) => self.listings.contains_key(id),
            DataKey::Royalty => self.royalty is Some,
            DataKey::RoyaltyRecipient => self.royalty_recipient is Some,
            DataKey::PlatformFee => self.platform_fee is Some,
            DataKey::PlatformAddress => self.platform_address is Some,
        }
    }
}

/// A fee rate that is known to be at most the whole price.
struct BasisPoints {
    value: u32,
}

impl BasisPoints {
    #[verifier::type_invariant]
    spec fn in_range(self) -> bool {
        self.value <= MAX_BASIS_POINTS
    }
}

/// A price and its seller; the price is known to be positive.
struct Offer {
    price: i128,
    seller: Address,
}

impl Offer {
    #[verifier::type_invariant]
    spec fn positive(self) -> bool {
        self.price > 0
    }
}

/// The ledger that the registry reads and writes.
pub struct Ledger {
    admin: Option<Address>,
    metadata: Option<TokenMetadata>,
    token_count: Option<u64>,
    royalty: Option<BasisPoints>,
    royalty_recipient: Option<Address>,
    platform_fee: Option<BasisPoints>,
    platform_address: Option<Address>,
    owners: HashMap<u64, Address>,
    uris: HashMap<u64, String>,
    approvals: Vec<(u64, Address)>,
    listings: HashMap<u64, Offer>,
}

impl View for Ledger {
    type V = LedgerState;

    closed spec fn view(&self) -> LedgerState {
        LedgerState {
            admin: self.admin,
            metadata: match self.metadata {
                Some(m) => Some(m@),
                None => None,
            },
            token_count: self.token_count,
            royalty: match self.royalty {
                Some(bp) => Some(bp.value),
                None => None,
            },
            royalty_recipient: self.royalty_recipient,
            platform_fee: match self.platform_fee {
                Some(bp) => Some(bp.value),
                None => None,
            },
            platform_address: self.platform_address,
            owners: self.owners@,
            uris: Map::new(|id: u64| self.uris@.contains_key(id), |id: u64| self.uris@[id]@),
            approvals: Set::new(|pair: (u64, Address)| self.approvals@.contains(pair)),
            listings: Map::new(
                |id: u64| self.listings@.contains_key(id),
                |id: u64|
                    Listing {
                        token_id: id,
                        price: self.listings@[id].price,
                        seller: self.listings@[id].seller,
                    },
            ),
        }
    }
}

impl Ledger {
    /// A ledger with no entry.
    pub fn new() -> (ledger: Ledger)
        ensures
            ledger@ == LedgerState::empty(),
    {
        let ledger = Ledger {
            admin: None,
            metadata: None,
            token_count: None,
            royalty: None,
            royalty_recipient: None,
            platform_fee: None,
            platform_address: None,
            owners: HashMap::new(),
            uris: HashMap::new(),
            approvals: Vec::new(),
            listings: HashMap::new(),
        };
        proof {
            assert(ledger@.uris =~= Map::empty());
            assert(ledger@.approvals =~= Set::empty());
            assert(ledger@.listings =~= Map::empty());
        }
        ledger
    }

    /// The administrator, if one was written.
    pub fn admin(&self) -> (admin: Option<Address>)
        ensures
            admin == self@.admin,
    {
        self.admin
    }

    /// Writes the administrator, whatever was there.
    pub fn set_admin(&mut self, admin: Address)
        ensures
            final(self)@ == (LedgerState { admin: Some(admin), ..old(self)@ }),
    {
        self.admin = Some(admin);
        proof {
            assert(self@.uris =~= old(self)@.uris);
            assert(self@.approvals =~= old(self)@.approvals);
            assert(self@.listings =~= old(self)@.listings);
        }
    }

    /// The owner entry of token `id`, if there is one.
    pub fn owner(&self, id: u64) -> (owner: Option<Address>)
        ensures
            owner == (if self@.owners.contains_key(id) {
                Some(self@.owners[id])
            } else {
                None
            }),
    {
        match self.owners.get(&id) {
            Some(a) => Some(*a),
            None => None,
        }
    }

    /// Writes the owner entry of token `id`, whatever was there.
    pub fn set_owner(&mut self, id: u64, owner: Address)
        ensures
            final(self)@ == (LedgerState {
                owners: old(self)@.owners.insert(id, owner),
                ..old(self)@
            }),
    {
        self.owners.insert(id, owner);
        proof {
            assert(self@.uris =~= old(self)@.uris);
            assert(self@.approvals =~= old(self)@.approvals);
            assert(self@.listings =~= old(self)@.listings);
        }
    }

    /// The collection's descriptive fields, if they were written.
    pub fn metadata(&self) -> (metadata: Option<TokenMetadata>)
        ensures
            match metadata {
                Some(m) => self@.metadata == Some(m@),
                None => self@.metadata is None,
            },
    {
        match &self.metadata {
            Some(m) => Some(m.clone()),
            None => None,
        }
    }

    /// Writes the collection's descriptive fields, whatever was there.
    pub fn set_metadata(&mut self, metadata: TokenMetadata)
        ensures
            final(self)@ == (LedgerState { metadata: Some(metadata@), ..old(self)@ }),
    {
        self.metadata = Some(metadata);
        proof {
            assert(self@.uris =~= old(self)@.uris);
            assert(self@.approvals =~= old(self)@.approvals);
            assert(self@.listings =~= old(self)@.listings);
        }
    }

    /// The supply counter, if it was written.
    pub fn token_count(&self) -> (count: Option<u64>)
        ensures
            count == self@.token_count,
    {
        self.token_count
    }

    /// Writes the supply counter, whatever was there.
    pub fn set_token_count(&mut self, count: u64)
        ensures
            final(self)@ == (LedgerState { token_count: Some(count), ..old(self)@ }),
    {
        self.token_count = Some(count);
        proof {
            assert(self@.uris =~= old(self)@.uris);
            assert(self@.approvals =~= old(self)@.approvals);
            assert(self@.listings =~= old(self)@.listings);
        }
    }

    /// The royalty rate in basis points, if it was written. A rate on the
    /// ledger never exceeds the whole price.
    pub fn royalty(&self) -> (rate: Option<u32>)
        ensures
            rate == self@.royalty,
            rate matches Some(bp) ==> bp <= MAX_BASIS_POINTS,
    {
        match &self.royalty {
            Some(bp) => {
                proof {
                    use_type_invariant(bp);
                }
                Some(bp.value)
            },
            None => None,
        }
    }

    /// Who receives the royalty, if that was written.
    pub fn royalty_recipient(&self) -> (recipient: Option<Address>)
        ensures
            recipient == self@.royalty_recipient,
    {
        self.royalty_recipient
    }

    /// Writes the royalty rate and its recipient, whatever was there.
    pub fn set_royalty(&mut self, rate: u32, recipient: Address)
        requires
            rate <= MAX_BASIS_POINTS,
        ensures
            final(self)@ == (LedgerState {
                royalty: Some(rate),
                royalty_recipient: Some(recipient),
                ..old(self)@
            }),
    {
        self.royalty = Some(BasisPoints { value: rate });
        self.royalty_recipient = Some(recipient);
        proof {
            assert(self@.uris =~= old(self)@.uris);
            assert(self@.approvals =~= old(self)@.approvals);
            assert(self@.listings =~= old(self)@.listings);
        }
    }

    /// The platform fee rate in basis points, if it was written. A rate on the
    /// ledger never exceeds the whole price.
    pub fn platform_fee(&self) -> (rate: Option<u32>)
        ensures
            rate == self@.platform_fee,
            rate matches Some(bp) ==> bp <= MAX_BASIS_POINTS,
    {
        match &self.platform_fee {
            Some(bp) => {
                proof {
                    use_type_invariant(bp);
                }
                Some(bp.value)
            },
            None => None,
        }
    }

    /// Who receives the platform fee, if that was written.
    pub fn platform_address(&self) -> (address: Option<Address>)
        ensures
            address == self@.platform_address,
    {
        self.platform_address
    }

    /// Writes the platform fee rate and its receiver, whatever was there.
    pub fn set_platform_fee(&mut self, rate: u32, address: Address)
        requires
            rate <= MAX_BASIS_POINTS,
        ensures
            final(self)@ == (LedgerState {
                platform_fee: Some(rate),
                platform_address: Some(address),
                ..old(self)@
            }),
    {
        self.platform_fee = Some(BasisPoints { value: rate });
        self.platform_address = Some(address);
        proof {
            assert(self@.uris =~= old(self)@.uris);
            assert(self@.approvals =~= old(self)@.approvals);
            assert(self@.listings =~= old(self)@.listings);
        }
    }

    /// The URI entry of token `id`, if there is one.
    pub fn uri(&self, id: u64) -> (uri: Option<String>)
        ensures
            match uri {
                Some(text) => self@.uris.contains_key(id) && self@.uris[id] == text@,
                None => !self@.uris.contains_key(id),
            },
    {
        match self.uris.get(&id) {
            Some(text) => Some(text.clone()),
            None => None,
        }
    }

    /// Writes the URI entry of token `id`, whatever was there.
    pub fn set_uri(&mut self, id: u64, uri: String)
        ensures
            final(self)@ == (LedgerState { uris: old(self)@.uris.insert(id, uri@), ..old(self)@ }),
    {
        self.uris.insert(id, uri);
        proof {
            assert(self@.uris =~= old(self)@.uris.insert(id, uri@));
            assert(self@.approvals =~= old(self)@.approvals);
            assert(self@.listings =~= old(self)@.listings);
        }
    }

    /// Whether `delegate` holds an approval for token `id`.
    pub fn approved(&self, id: u64, delegate: &Address) -> (found: bool)
        ensures
            found == self@.approvals.contains((id, *delegate)),
    {
        let mut i: usize = 0;
        while i < self.approvals.len()
            invariant
                i <= self.approvals.len(),
                forall|j: int| 0 <= j < i ==> self.approvals@[j] != (id, *delegate),
            decreases self.approvals.len() - i,
        {
            if self.approvals[i].0 == id && self.approvals[i].1 == *delegate {
                assert(self.approvals@[i as int] == (id, *delegate));
                return true;
            }
            i += 1;
        }
        false
    }

    /// Records an approval of `delegate` for token `id`. Other approvals stay.
    pub fn approve(&mut self, id: u64, delegate: Address)
        ensures
            final(self)@ == (LedgerState {
                approvals: old(self)@.approvals.insert((id, delegate)),
                ..old(self)@
            }),
    {
        if !self.approved(id, &delegate) {
            self.approvals.push((id, delegate));
        }
        proof {
            assert forall|pair: (u64, Address)|
                self.approvals@.contains(pair) <==> old(self).approvals@.contains(pair) || pair == (
                    id,
                    delegate,
                ) by {
                if self.approvals@ != old(self).approvals@ {
                    let n = old(self).approvals@.len() as int;
                    assert(self.approvals@[n] == (id, delegate));
                    if old(self).approvals@.contains(pair) {
                        let j = choose|j: int|
                            0 <= j < n && old(self).approvals@[j] == pair;
                        assert(self.approvals@[j] == pair);
                    }
                }
            }
            assert(self@.uris =~= old(self)@.uris);
            assert(self@.approvals =~= old(self)@.approvals.insert((id, delegate)));
            assert(self@.listings =~= old(self)@.listings);
        }
    }

    /// Withdraws the approval of `delegate` for token `id`. Other approvals
    /// stay; nothing changes where `delegate` holds none.
    pub fn revoke(&mut self, id: u64, delegate: Address)
        ensures
            final(self)@ == (LedgerState {
                approvals: old(self)@.approvals.remove((id, delegate)),
                ..old(self)@
            }),
    {
        let mut kept: Vec<(u64, Address)> = Vec::new();
        let mut i: usize = 0;
        while i < self.approvals.len()
            invariant
                i <= self.approvals.len(),
                forall|k: int|
                    0 <= k < kept.len() ==> (#[trigger] kept@[k]) != (id, delegate)
                        && self.approvals@.contains(kept@[k]),
                forall|j: int|
                    0 <= j < i && (#[trigger] self.approvals@[j]) != (id, delegate)
                        ==> kept@.contains(self.approvals@[j]),
            decreases self.approvals.len() - i,
        {
            let entry = self.approvals[i];
            if !(entry.0 == id && entry.1 == delegate) {
                let ghost before = kept@;
                kept.push(entry);
                proof {
                    assert(kept@[before.len() as int] == entry);
                    assert forall|j: int|
                        0 <= j < i + 1 && (#[trigger] self.approvals@[j]) != (
                            id,
                            delegate,
                        ) implies kept@.contains(self.approvals@[j]) by {
                        if j < i {
                            let k = choose|k: int|
                                0 <= k < before.len() && before[k] == self.approvals@[j];
                            assert(kept@[k] == self.approvals@[j]);
                        }
                    }
                }
            }
            i += 1;
        }
        self.approvals = kept;
        proof {
            assert forall|pair: (u64, Address)|
                self.approvals@.contains(pair) <==> old(self).approvals@.contains(pair) && pair
                    != (id, delegate) by {
                if old(self).approvals@.contains(pair) && pair != (id, delegate) {
                    let j = choose|j: int|
                        0 <= j < old(self).approvals@.len() && old(self).approvals@[j] == pair;
                    assert(old(self).approvals@[j] != (id, delegate));
                }
            }
            assert(self@.uris =~= old(self)@.uris);
            assert(self@.approvals =~= old(self)@.approvals.remove((id, delegate)));
            assert(self@.listings =~= old(self)@.listings);
        }
    }

    /// The listing of token `id`, if it is listed. A listed price is positive.
    pub fn listing(&self, id: u64) -> (listing: Option<Listing>)
        ensures
            listing == (if self@.listings.contains_key(id) {
                Some(self@.listings[id])
            } else {
                None
            }),
            listing matches Some(l) ==> l.token_id == id && l.price > 0,
    {
        match self.listings.get(&id) {
            Some(offer) => {
                proof {
                    use_type_invariant(offer);
                }
                Some(Listing { token_id: id, price: offer.price, seller: offer.seller })
            },
            None => None,
        }
    }

    /// Writes the listing of token `id`: its flag, its price and its seller.
    pub fn set_listing(&mut self, id: u64, price: i128, seller: Address)
        requires
            price > 0,
        ensures
            final(self)@ == (LedgerState {
                listings: old(self)@.listings.insert(
                    id,
                    Listing { token_id: id, price: price, seller: seller },
                ),
                ..old(self)@
            }),
    {
        self.listings.insert(id, Offer { price: price, seller: seller });
        proof {
            assert(self@.uris =~= old(self)@.uris);
            assert(self@.approvals =~= old(self)@.approvals);
            assert(self@.listings =~= old(self)@.listings.insert(
                id,
                Listing { token_id: id, price: price, seller: seller },
            ));
        }
    }

    /// Removes the listing of token `id`: its flag, its price and its seller.
    /// Nothing changes where the token is not listed.
    pub fn remove_listing(&mut self, id: u64)
        ensures
            final(self)@ == (LedgerState {
                listings: old(self)@.listings.remove(id),
                ..old(self)@
            }),
    {
        self.listings.remove(&id);
        proof {
            assert(self@.uris =~= old(self)@.uris);
            assert(self@.approvals =~= old(self)@.approvals);
            assert(self@.listings =~= old(self)@.listings.remove(id));
        }
    }

    /// Whether the entry that `key` names is present.
    pub fn has(&self, key: &DataKey) -> (present: bool)
        ensures
            present == self@.has(*key),
    {
        match key {
            DataKey::Admin => self.admin.is_some(),
            DataKey::TokenMetadata => self.metadata.is_some(),
            DataKey::Balance(id) => self.owners.contains_key(id),
            DataKey::TokenURI(id) => self.uris.contains_key(id),
            DataKey::TokenCount => self.token_count.is_some(),
            DataKey::Approval(id, delegate) => self.approved(*id, delegate),
            DataKey::Listed(id) => self.listings.contains_key(id),
            DataKey::ListingPrice(id) => self.listings.contains_key(id),
            DataKey::ListedBy(id) => self.listings.contains_key(id),
            DataKey::Royalty => self.royalty.is_some(),
            DataKey::RoyaltyRecipient => self.royalty_recipient.is_some(),
            DataKey::PlatformFee => self.platform_fee.is_some(),
            DataKey::PlatformAddress => self.platform_address.is_some(),
        }
    }
}

} // verus!
