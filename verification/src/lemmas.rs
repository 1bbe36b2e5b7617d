use crate::ledger::LedgerState;
use crate::storage_types::{
    Address, Listing, MarketError, NFTTokenView, TokenMetadataView, MAX_BASIS_POINTS,
};
use crate::transitions::{fee_share, Operation, Settlement};
use vstd::prelude::*;

verus! {

/// The ledger in which nothing was written satisfies the registry's invariant.
pub proof fn lemma_empty_is_consistent()
    ensures
        LedgerState::empty().consistent(),
        LedgerState::empty().supply() == 0,
{
}

/// In a consistent ledger a token has an owner exactly when its id lies below
/// the supply; above it the lookup answers `TokenNotFound`.
pub proof fn lemma_owner_iff_minted(s: LedgerState, id: u64)
    requires
        s.consistent(),
    ensures
        id < s.supply() ==> s.owner_of(id) is Ok && s.token(id) is Ok,
        id >= s.supply() ==> s.owner_of(id) == Err::<Address, _>(MarketError::TokenNotFound)
            && s.token(id) is Err,
{
    assert(s.owners.contains_key(id) <==> id < s.supply());
}

/// A mint adds exactly one token: the supply grows by one, the new id is the
/// old supply, it belongs to the receiver and carries the given URI, and every
/// other token keeps its owner and URI.
pub proof fn lemma_mint_adds_one_token(s: LedgerState, to: Address, uri: Seq<char>, other: u64)
    requires
        s.supply() < u64::MAX,
    ensures
        s.minted(to, uri).supply() == s.supply() + 1,
        s.minted(to, uri).owner_of(s.supply()) == Ok::<_, MarketError>(to),
        s.minted(to, uri).uri_of(s.supply()) == uri,
        other != s.supply() ==> s.minted(to, uri).owner_of(other) == s.owner_of(other),
        other != s.supply() ==> s.minted(to, uri).uri_of(other) == s.uri_of(other),
        s.minted(to, uri).listings == s.listings,
        s.minted(to, uri).approvals == s.approvals,
        s.consistent() ==> s.minted(to, uri).consistent(),
{
    let after = s.minted(to, uri);
    if s.consistent() {
        assert forall|id: u64| #[trigger] after.owners.contains_key(id) <==> id
            < after.supply() by {
            assert(s.owners.contains_key(id) <==> id < s.supply());
        }
        assert forall|id: u64| #[trigger]
            after.listings.contains_key(id) implies after.owners.contains_key(id)
            && after.listings[id].token_id == id by {
            assert(s.listings.contains_key(id));
        }
    }
}

/// A transfer that succeeds changes the owner of that one token; the sender
/// owned the token or held an approval for it, and holds none afterwards.
/// Every other approval stays, and so does every listing.
pub proof fn lemma_transfer_moves_one_token(
    s: LedgerState,
    sender: Address,
    to: Address,
    id: u64,
    other: u64,
)
    requires
        s.transferred(sender, to, id) is Ok,
    ensures
        s.may_transfer(sender, id),
        !s.is_listed(id),
        s.transferred(sender, to, id).unwrap().owner_of(id) == Ok::<_, MarketError>(to),
        other != id ==> s.transferred(sender, to, id).unwrap().owner_of(other) == s.owner_of(
            other,
        ),
        s.transferred(sender, to, id).unwrap().supply() == s.supply(),
        s.transferred(sender, to, id).unwrap().listings == s.listings,
        !s.transferred(sender, to, id).unwrap().approvals.contains((id, sender)),
        forall|pair: (u64, Address)|
            pair != (id, sender) ==> (#[trigger] s.transferred(sender, to, id).unwrap()
                .approvals.contains(pair)) == s.approvals.contains(pair),
        s.consistent() ==> s.transferred(sender, to, id).unwrap().consistent(),
{
    let after = s.transferred(sender, to, id).unwrap();
    if s.consistent() {
        assert forall|k: u64| #[trigger] after.owners.contains_key(k) <==> k
            < after.supply() by {
            assert(s.owners.contains_key(k) <==> k < s.supply());
        }
        assert forall|k: u64| #[trigger]
            after.listings.contains_key(k) implies after.owners.contains_key(k)
            && after.listings[k].token_id == k by {
            assert(s.listings.contains_key(k));
        }
    }
}

/// A delegate that the owner approved can transfer the token although it
/// never owned it, as long as the token is not listed.
pub proof fn lemma_delegate_can_transfer(
    s: LedgerState,
    owner: Address,
    delegate: Address,
    to: Address,
    id: u64,
)
    requires
        id < s.supply(),
        s.approved(owner, delegate, id) is Ok,
        !s.is_listed(id),
    ensures
        s.approved(owner, delegate, id).unwrap().transferred(delegate, to, id) is Ok,
        s.approved(owner, delegate, id).unwrap().transferred(delegate, to, id).unwrap().owner_of(
            id,
        ) == Ok::<_, MarketError>(to),
{
}

/// While a token is listed no transfer of it succeeds, whoever asks; a sender
/// that would otherwise be entitled is told `TokenCurrentlyListed`.
pub proof fn lemma_listed_token_is_frozen(s: LedgerState, sender: Address, to: Address, id: u64)
    requires
        s.is_listed(id),
    ensures
        s.transferred(sender, to, id) is Err,
        id < s.supply() && s.owners.contains_key(id) && s.may_transfer(sender, id)
            ==> s.transferred(sender, to, id) == Err::<LedgerState, _>(
            MarketError::TokenCurrentlyListed,
        ),
{
}

/// A listing that succeeds leaves the token listed at the given price with the
/// owner as seller, and changes no owner.
pub proof fn lemma_listing_is_recorded(s: LedgerState, owner: Address, id: u64, price: i128)
    requires
        s.listed(owner, id, price) is Ok,
    ensures
        price > 0,
        s.owner_of(id) == Ok::<_, MarketError>(owner),
        s.listed(owner, id, price).unwrap().is_listed(id),
        s.listed(owner, id, price).unwrap().listings[id] == (Listing {
            token_id: id,
            price: price,
            seller: owner,
        }),
        s.listed(owner, id, price).unwrap().owners == s.owners,
        s.listed(owner, id, price).unwrap().supply() == s.supply(),
        s.consistent() ==> s.listed(owner, id, price).unwrap().consistent(),
{
    let after = s.listed(owner, id, price).unwrap();
    if s.consistent() {
        assert forall|k: u64| #[trigger]
            after.listings.contains_key(k) implies after.owners.contains_key(k)
            && after.listings[k].token_id == k by {
            if k != id {
                assert(s.listings.contains_key(k));
            }
        }
    }
}

/// A listing ends only by its own cancellation or purchase: a mint, a
/// transfer, an approval, a change of configuration, and a listing,
/// cancellation or purchase of another token all leave it as it is.
pub proof fn lemma_listing_outlives_other_operations(
    s: LedgerState,
    id: u64,
    other: u64,
    party: Address,
    peer: Address,
    uri: Seq<char>,
    price: i128,
    rate: u32,
)
    requires
        s.is_listed(id),
        other != id,
    ensures
        s.minted(party, uri).is_listed(id) && s.minted(party, uri).listings[id] == s.listings[id],
        s.transferred(party, peer, other) matches Ok(after) ==> after.is_listed(id)
            && after.listings[id] == s.listings[id],
        s.approved(party, peer, other) matches Ok(after) ==> after.is_listed(id)
            && after.listings[id] == s.listings[id],
        s.approved(party, peer, id) matches Ok(after) ==> after.is_listed(id)
            && after.listings[id] == s.listings[id],
        s.listed(party, other, price) matches Ok(after) ==> after.is_listed(id)
            && after.listings[id] == s.listings[id],
        s.cancelled(party, other) matches Ok(after) ==> after.is_listed(id) && after.listings[id]
            == s.listings[id],
        s.bought(party, other) matches Ok(after) ==> after.is_listed(id) && after.listings[id]
            == s.listings[id],
        s.royalty_updated(party, rate, peer) matches Ok(after) ==> after.listings == s.listings,
        s.platform_fee_updated(party, rate, peer) matches Ok(after) ==> after.listings
            == s.listings,
        s.admin_updated(party, peer) matches Ok(after) ==> after.listings == s.listings,
        s.listed(party, id, price) is Err,
{
}

/// A cancellation that succeeds was asked for by the recorded seller; it
/// removes the listing and changes no owner, so the token can move again.
pub proof fn lemma_cancel_unfreezes(s: LedgerState, caller: Address, id: u64)
    requires
        s.cancelled(caller, id) is Ok,
    ensures
        s.listings[id].seller == caller,
        !s.cancelled(caller, id).unwrap().is_listed(id),
        s.cancelled(caller, id).unwrap().owners == s.owners,
        s.cancelled(caller, id).unwrap().supply() == s.supply(),
        s.cancelled(caller, id).unwrap().cancelled(caller, id) == Err::<LedgerState, _>(
            MarketError::NotListed,
        ),
        s.consistent() ==> s.cancelled(caller, id).unwrap().consistent(),
{
    let after = s.cancelled(caller, id).unwrap();
    if s.consistent() {
        assert forall|k: u64| #[trigger]
            after.listings.contains_key(k) implies after.owners.contains_key(k)
            && after.listings[k].token_id == k by {
            assert(s.listings.contains_key(k));
        }
    }
}

/// A purchase that succeeds makes the buyer the owner and removes the
/// listing, so a second purchase of the same token is refused with
/// `NotListed`, whoever asks.
pub proof fn lemma_purchase_happens_once(s: LedgerState, buyer: Address, id: u64, again: Address)
    requires
        s.bought(buyer, id) is Ok,
    ensures
        s.listings[id].seller != buyer,
        s.bought(buyer, id).unwrap().owner_of(id) == Ok::<_, MarketError>(buyer),
        !s.bought(buyer, id).unwrap().is_listed(id),
        s.bought(buyer, id).unwrap().supply() == s.supply(),
        s.bought(buyer, id).unwrap().bought(again, id) == Err::<LedgerState, _>(
            MarketError::NotListed,
        ),
        s.consistent() ==> s.bought(buyer, id).unwrap().consistent(),
{
    let after = s.bought(buyer, id).unwrap();
    if s.consistent() {
        assert(s.owners.contains_key(id));
        assert forall|k: u64| #[trigger] after.owners.contains_key(k) <==> k
            < after.supply() by {
            assert(s.owners.contains_key(k) <==> k < s.supply());
        }
        assert forall|k: u64| #[trigger]
            after.listings.contains_key(k) implies after.owners.contains_key(k)
            && after.listings[k].token_id == k by {
            assert(s.listings.contains_key(k));
        }
    }
}

/// The three parts of a settlement add up to the price exactly. With a
/// positive price and rates of at most the whole price, the royalty and the
/// platform fee each lie between nothing and the price.
pub proof fn lemma_settlement_adds_up(s: LedgerState, id: u64, split: Settlement)
    requires
        s.settles(id, split),
    ensures
        split.royalty_amount + split.platform_fee_amount + split.seller_amount == split.price,
        split.price > 0 && s.royalty_rate() <= MAX_BASIS_POINTS ==> 0 <= split.royalty_amount
            <= split.price,
        split.price > 0 && s.platform_rate() <= MAX_BASIS_POINTS ==> 0
            <= split.platform_fee_amount <= split.price,
{
    if split.price > 0 && s.royalty_rate() <= MAX_BASIS_POINTS {
        crate::fees::lemma_fee_by_parts(split.price as int, s.royalty_rate() as int);
    }
    if split.price > 0 && s.platform_rate() <= MAX_BASIS_POINTS {
        crate::fees::lemma_fee_by_parts(split.price as int, s.platform_rate() as int);
    }
}

/// Rounding each fee down by itself loses less than one unit against taking
/// both rates at once.
pub proof fn lemma_fees_round_down_together(price: int, first: int, second: int)
    requires
        price >= 0,
        first >= 0,
        second >= 0,
    ensures
        fee_share(price, first) + fee_share(price, second) <= fee_share(price, first + second),
        fee_share(price, first + second) <= fee_share(price, first) + fee_share(price, second) + 1,
{
    let a = price * first;
    let b = price * second;
    assert(price * (first + second) == a + b) by (nonlinear_arith)
        requires
            a == price * first,
            b == price * second,
    ;
    assert(a >= 0 && b >= 0) by (nonlinear_arith)
        requires
            a == price * first,
            b == price * second,
            price >= 0,
            first >= 0,
            second >= 0,
    ;
    assert(a / 10000 + b / 10000 <= (a + b) / 10000 <= a / 10000 + b / 10000 + 1)
        by (nonlinear_arith)
        requires
            a >= 0,
            b >= 0,
    ;
}

/// A change of configuration or administrator touches no token, approval or
/// listing, and keeps the registry's invariant. So does the one-time setup
/// where no token was minted before it.
pub proof fn lemma_configuration_keeps_tokens(
    s: LedgerState,
    admin: Address,
    peer: Address,
    rate: u32,
    second_rate: u32,
    second_peer: Address,
    metadata: TokenMetadataView,
)
    requires
        s.consistent(),
    ensures
        s.royalty_updated(admin, rate, peer) matches Ok(after) ==> after.consistent()
            && after.owners == s.owners && after.approvals == s.approvals && after.listings
            == s.listings && after.supply() == s.supply() && after.royalty == Some(rate) && rate
            <= MAX_BASIS_POINTS,
        s.platform_fee_updated(admin, rate, peer) matches Ok(after) ==> after.consistent()
            && after.owners == s.owners && after.approvals == s.approvals && after.listings
            == s.listings && after.supply() == s.supply() && after.platform_fee == Some(rate)
            && rate <= MAX_BASIS_POINTS,
        s.admin_updated(admin, peer) matches Ok(after) ==> after.consistent() && after.owners
            == s.owners && after.approvals == s.approvals && after.listings == s.listings
            && after.supply() == s.supply() && after.is_admin(peer),
        s.supply() == 0 ==> (s.initialized(
            admin,
            metadata,
            rate,
            peer,
            second_rate,
            second_peer,
        ) matches Ok(after) ==> after.consistent() && after.owners == s.owners
            && after.approvals == s.approvals && after.listings == s.listings && after.supply()
            == 0 && after.is_admin(admin)),
{
}

/// An approval that succeeds was given by the owner; it adds that one
/// approval, takes none away and changes no owner or listing.
pub proof fn lemma_approval_adds_one_delegate(
    s: LedgerState,
    owner: Address,
    delegate: Address,
    id: u64,
)
    requires
        s.approved(owner, delegate, id) is Ok,
    ensures
        s.owner_of(id) == Ok::<_, MarketError>(owner),
        s.approved(owner, delegate, id).unwrap().approvals.contains((id, delegate)),
        forall|pair: (u64, Address)| #[trigger]
            s.approvals.contains(pair) ==> s.approved(owner, delegate, id).unwrap()
                .approvals.contains(pair),
        s.approved(owner, delegate, id).unwrap().owners == s.owners,
        s.approved(owner, delegate, id).unwrap().listings == s.listings,
        s.approved(owner, delegate, id).unwrap().supply() == s.supply(),
        s.consistent() ==> s.approved(owner, delegate, id).unwrap().consistent(),
{
}

/// Once an administrator is set, the setup is refused, whatever it asks for.
pub proof fn lemma_setup_happens_once(
    s: LedgerState,
    admin: Address,
    metadata: TokenMetadataView,
    rate: u32,
    peer: Address,
    second_rate: u32,
    second_peer: Address,
)
    requires
        s.initialized(admin, metadata, rate, peer, second_rate, second_peer) is Ok,
    ensures
        forall|
            other_admin: Address,
            fields: TokenMetadataView,
            royalty: u32,
            recipient: Address,
            fee: u32,
            receiver: Address,
        |
            (#[trigger] s.initialized(admin, metadata, rate, peer, second_rate, second_peer)
                .unwrap().initialized(other_admin, fields, royalty, recipient, fee, receiver))
                == Err::<LedgerState, _>(MarketError::AlreadyInitialized),
{
}

/// What the scan of the ids below `bound` collects: each entry is the listing
/// of a listed token below `bound`, the ids ascend strictly, and no listed
/// token below `bound` is left out.
pub proof fn lemma_listings_below(s: LedgerState, bound: nat)
    requires
        bound <= u64::MAX,
        forall|id: u64| #[trigger] s.listings.contains_key(id) ==> s.listings[id].token_id == id,
    ensures
        forall|i: int|
            0 <= i < s.listings_below(bound).len() ==> {
                let entry = #[trigger] s.listings_below(bound)[i];
                entry.token_id < bound && s.is_listed(entry.token_id) && s.listings[entry.token_id]
                    == entry
            },
        forall|i: int, j: int|
            0 <= i < j < s.listings_below(bound).len() ==> (#[trigger] s.listings_below(
                bound,
            )[i]).token_id < (#[trigger] s.listings_below(bound)[j]).token_id,
        forall|id: u64|
            id < bound && #[trigger] s.is_listed(id) ==> s.listings_below(bound).contains(
                s.listings[id],
            ),
    decreases bound,
{
    if bound > 0 {
        let last = (bound - 1) as u64;
        let before = s.listings_below((bound - 1) as nat);
        let all = s.listings_below(bound);
        lemma_listings_below(s, (bound - 1) as nat);
        if s.is_listed(last) {
            assert(all == before.push(s.listings[last]));
            assert(all[before.len() as int] == s.listings[last]);
            assert forall|id: u64| id < bound && #[trigger] s.is_listed(id) implies all.contains(
                s.listings[id],
            ) by {
                if id < last {
                    assert(before.contains(s.listings[id]));
                    let i = choose|i: int| 0 <= i < before.len() && before[i] == s.listings[id];
                    assert(all[i] == s.listings[id]);
                }
            }
        }
    }
}

/// In a consistent ledger the scan up to the supply returns exactly the
/// listed tokens, each once and with its own listing, by ascending id.
pub proof fn lemma_all_listings_exact(s: LedgerState)
    requires
        s.consistent(),
    ensures
        forall|i: int|
            0 <= i < s.listings_below(s.supply() as nat).len() ==> {
                let entry = #[trigger] s.listings_below(s.supply() as nat)[i];
                s.is_listed(entry.token_id) && s.listings[entry.token_id] == entry
            },
        forall|i: int, j: int|
            0 <= i < j < s.listings_below(s.supply() as nat).len() ==> (
            #[trigger] s.listings_below(s.supply() as nat)[i]).token_id < (
            #[trigger] s.listings_below(s.supply() as nat)[j]).token_id,
        forall|id: u64| #[trigger]
            s.is_listed(id) ==> s.listings_below(s.supply() as nat).contains(s.listings[id]),
{
    lemma_listings_below(s, s.supply() as nat);
    assert forall|id: u64| #[trigger] s.is_listed(id) implies s.listings_below(
        s.supply() as nat,
    ).contains(s.listings[id]) by {
        assert(s.listings.contains_key(id));
        assert(s.owners.contains_key(id));
    }
}

/// What the scan for the tokens of `owner` collects up to `bound`: each entry
/// is a token of `owner` below `bound` with its URI, the ids ascend strictly,
/// and no token of `owner` below `bound` is left out.
pub proof fn lemma_owned_below(s: LedgerState, owner: Address, bound: nat)
    requires
        bound <= u64::MAX,
    ensures
        forall|i: int|
            0 <= i < s.owned_below(owner, bound).len() ==> {
                let entry = #[trigger] s.owned_below(owner, bound)[i];
                entry.token_id < bound && entry.owner == owner && s.owner_of(entry.token_id)
                    == Ok::<_, MarketError>(owner) && entry.uri == s.uri_of(entry.token_id)
            },
        forall|i: int, j: int|
            0 <= i < j < s.owned_below(owner, bound).len() ==> (#[trigger] s.owned_below(
                owner,
                bound,
            )[i]).token_id < (#[trigger] s.owned_below(owner, bound)[j]).token_id,
        forall|id: u64|
            id < bound && #[trigger] s.owner_of(id) == Ok::<_, MarketError>(owner)
                ==> s.owned_below(owner, bound).contains(
                NFTTokenView { token_id: id, owner: owner, uri: s.uri_of(id) },
            ),
    decreases bound,
{
    if bound > 0 {
        let last = (bound - 1) as u64;
        let before = s.owned_below(owner, (bound - 1) as nat);
        let all = s.owned_below(owner, bound);
        lemma_owned_below(s, owner, (bound - 1) as nat);
        if s.owner_of(last) == Ok::<_, MarketError>(owner) {
            let entry = NFTTokenView { token_id: last, owner: owner, uri: s.uri_of(last) };
            assert(all == before.push(entry));
            assert(all[before.len() as int] == entry);
            assert forall|id: u64|
                id < bound && #[trigger] s.owner_of(id) == Ok::<_, MarketError>(
                    owner,
                ) implies all.contains(
                NFTTokenView { token_id: id, owner: owner, uri: s.uri_of(id) },
            ) by {
                if id < last {
                    let wanted = NFTTokenView { token_id: id, owner: owner, uri: s.uri_of(id) };
                    assert(before.contains(wanted));
                    let i = choose|i: int| 0 <= i < before.len() && before[i] == wanted;
                    assert(all[i] == wanted);
                }
            }
        }
    }
}

/// No single call breaks the registry's invariant, and none lowers the supply.
pub proof fn lemma_call_keeps_consistency(s: LedgerState, call: Operation)
    requires
        s.consistent(),
    ensures
        s.after(call).consistent(),
        s.after(call).supply() >= s.supply(),
{
    match call {
        Operation::Mint { to, uri } => {
            if s.supply() < u64::MAX {
                lemma_mint_adds_one_token(s, to, uri, 0);
            }
        },
        Operation::Transfer { sender, to, id } => {
            if s.transferred(sender, to, id) is Ok {
                lemma_transfer_moves_one_token(s, sender, to, id, id);
            }
        },
        Operation::Approve { owner, delegate, id } => {
            if s.approved(owner, delegate, id) is Ok {
                lemma_approval_adds_one_delegate(s, owner, delegate, id);
            }
        },
        Operation::List { owner, id, price } => {
            if s.listed(owner, id, price) is Ok {
                lemma_listing_is_recorded(s, owner, id, price);
            }
        },
        Operation::Cancel { caller, id } => {
            if s.cancelled(caller, id) is Ok {
                lemma_cancel_unfreezes(s, caller, id);
            }
        },
        Operation::Buy { buyer, id } => {
            if s.bought(buyer, id) is Ok {
                lemma_purchase_happens_once(s, buyer, id, buyer);
            }
        },
        Operation::UpdateRoyalty { admin, rate, recipient } => {},
        Operation::UpdatePlatformFee { admin, rate, address } => {},
        Operation::UpdateAdmin { admin, new_admin } => {},
    }
}

/// Whatever calls are made on a consistent ledger, in whatever order, the
/// ledger stays consistent and the supply never falls.
pub proof fn lemma_calls_keep_consistency(s: LedgerState, calls: Seq<Operation>)
    requires
        s.consistent(),
    ensures
        s.after_all(calls).consistent(),
        s.after_all(calls).supply() >= s.supply(),
    decreases calls.len(),
{
    if calls.len() > 0 {
        lemma_calls_keep_consistency(s, calls.drop_last());
        lemma_call_keeps_consistency(s.after_all(calls.drop_last()), calls.last());
    }
}

/// After any sequence of calls on a consistent registry, such as an empty one
/// or one that was set up before its first mint, every id below the supply
/// has an owner and no other has one, and the scan of the listings returns
/// exactly the listed tokens, each with its own listing, by ascending id.
pub proof fn lemma_registry_stays_exact(start: LedgerState, calls: Seq<Operation>, id: u64)
    requires
        start.consistent(),
    ensures
        ({
            let s = start.after_all(calls);
            let all = s.listings_below(s.supply() as nat);
            &&& s.owner_of(id) is Ok <==> id < s.supply()
            &&& s.is_listed(id) <==> exists|i: int|
                0 <= i < all.len() && (#[trigger] all[i]).token_id == id
            &&& s.is_listed(id) ==> all.contains(s.listings[id])
            &&& forall|i: int|
                0 <= i < all.len() ==> s.is_listed((#[trigger] all[i]).token_id)
                    && s.listings[all[i].token_id] == all[i]
            &&& forall|i: int, j: int|
                0 <= i < j < all.len() ==> (#[trigger] all[i]).token_id < (
                #[trigger] all[j]).token_id
        }),
{
    let s = start.after_all(calls);
    let all = s.listings_below(s.supply() as nat);
    lemma_calls_keep_consistency(start, calls);
    lemma_owner_iff_minted(s, id);
    lemma_all_listings_exact(s);
    if s.is_listed(id) {
        assert(all.contains(s.listings[id]));
        let i = choose|i: int| 0 <= i < all.len() && all[i] == s.listings[id];
        assert(all[i].token_id == id);
    }
}

} // verus!
