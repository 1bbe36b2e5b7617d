use crate::admin::{has_administrator, verify_admin, write_administrator};
use crate::allowance::{check_approval, revoke_approval, set_approval};
use crate::balance::{get_token_owner, set_token_owner};
use crate::fees::fee_amount;
use crate::ledger::{Ledger, LedgerState};
use crate::metadata::{get_metadata, get_token_uri, set_token_uri};
use crate::storage_types::{
    Address, Listing, MarketError, NFTToken, NFTTokenView, TokenMetadata, MAX_BASIS_POINTS,
};
use crate::transitions::{Settlement, DEFAULT_PLATFORM_FEE, DEFAULT_ROYALTY_PERCENTAGE};
use vstd::prelude::*;

verus! {

/// The registry of tokens and the marketplace on top of it. Every operation
/// works on the ledger it is handed; one that is refused leaves it as it was.
/// That the party named in a call is the one that asked is established by the
/// caller before the call.
pub struct StellarNFTMarketplace;

impl StellarNFTMarketplace {
    /// Sets the registry up, once: administrator, descriptive fields, royalty
    /// and platform fee, and a supply of zero.
    pub fn initialize(
        env: &mut Ledger,
        admin: Address,
        name: String,
        symbol: String,
        description: String,
        base_uri: String,
        royalty_percentage: u32,
        royalty_recipient: Address,
        platform_fee: u32,
        platform_address: Address,
    ) -> (outcome: Result<(), MarketError>)
        ensures
            match outcome {
                Ok(()) => old(env)@.initialized(
                    admin,
                    (TokenMetadata { name, symbol, description, base_uri })@,
                    royalty_percentage,
                    royalty_recipient,
                    platform_fee,
                    platform_address,
                ) == Ok::<_, MarketError>(final(env)@),
                Err(error) => old(env)@.initialized(
                    admin,
                    (TokenMetadata { name, symbol, description, base_uri })@,
                    royalty_percentage,
                    royalty_recipient,
                    platform_fee,
                    platform_address,
                ) == Err::<LedgerState, _>(error) && final(env)@ == old(env)@,
            },
    {
        if has_administrator(env) {
            return Err(MarketError::AlreadyInitialized);
        }
        if royalty_percentage > MAX_BASIS_POINTS || platform_fee > MAX_BASIS_POINTS {
            return Err(MarketError::InvalidFeePercentage);
        }
        write_administrator(env, &admin);
        let metadata = TokenMetadata { name, symbol, description, base_uri };
        env.set_metadata(metadata);
        env.set_royalty(royalty_percentage, royalty_recipient);
        env.set_platform_fee(platform_fee, platform_address);
        env.set_token_count(0);
        Ok(())
    }

    /// The collection's descriptive fields, or `NotInitialized` before setup.
    pub fn get_token_metadata(env: &Ledger) -> (metadata: Result<TokenMetadata, MarketError>)
        ensures
            match metadata {
                Ok(fields) => env@.metadata == Some(fields@),
                Err(error) => error == MarketError::NotInitialized && env@.metadata is None,
            },
    {
        get_metadata(env)
    }

    /// The number of tokens minted so far.
    pub fn get_token_count(env: &Ledger) -> (count: u64)
        ensures
            count == env@.supply(),
    {
        match env.token_count() {
            Some(count) => count,
            None => 0,
        }
    }

    /// Token `token_id` with its owner and URI, or `TokenNotFound` where the
    /// id is not below the supply or has no owner.
    pub fn get_token(env: &Ledger, token_id: u64) -> (token: Result<NFTToken, MarketError>)
        ensures
            match token {
                Ok(found) => env@.token(token_id) == Ok::<_, MarketError>(found@),
                Err(error) => env@.token(token_id) == Err::<NFTTokenView, _>(error),
            },
    {
        let token_count = Self::get_token_count(env);
        if token_id >= token_count {
            return Err(MarketError::TokenNotFound);
        }
        let uri = get_token_uri(env, token_id);
        match get_token_owner(env, token_id) {
            Ok(owner) => Ok(NFTToken { token_id, owner, uri }),
            Err(error) => Err(error),
        }
    }

    /// The tokens that `owner` owns, by ascending id, or `TokenNotFound` where
    /// a token below the supply has no owner.
    pub fn get_tokens_by_owner(env: &Ledger, owner: Address) -> (tokens: Result<
        Vec<NFTToken>,
        MarketError,
    >)
        ensures
            match tokens {
                Ok(found) => env@.owners_complete() && found@.map_values(|t: NFTToken| t@)
                    == env@.owned_below(owner, env@.supply() as nat),
                Err(error) => error == MarketError::TokenNotFound && !env@.owners_complete(),
            },
    {
        let token_count = Self::get_token_count(env);
        let mut tokens: Vec<NFTToken> = Vec::new();
        let mut token_id: u64 = 0;
        while token_id < token_count
            invariant
                token_id <= token_count,
                token_count == env@.supply(),
                forall|id: u64| id < token_id ==> #[trigger] env@.owners.contains_key(id),
                tokens@.map_values(|t: NFTToken| t@) == env@.owned_below(owner, token_id as nat),
            decreases token_count - token_id,
        {
            let token_owner = match get_token_owner(env, token_id) {
                Ok(token_owner) => token_owner,
                Err(error) => {
                    return Err(error);
                },
            };
            let ghost before = tokens@;
            if token_owner == owner {
                match Self::get_token(env, token_id) {
                    Ok(token) => {
                        tokens.push(token);
                        assert(tokens@.map_values(|t: NFTToken| t@) =~= before.map_values(
                            |t: NFTToken| t@,
                        ).push(token@));
                    },
                    Err(error) => {
                        return Err(error);
                    },
                }
            }
            token_id += 1;
        }
        Ok(tokens)
    }

    /// Mints a token to `to`. Its id is the supply before the call, which
    /// grows by one.
    pub fn mint(env: &mut Ledger, to: Address, token_uri: String) -> (token_id: u64)
        requires
            old(env)@.supply() < u64::MAX,
        ensures
            token_id == old(env)@.supply(),
            final(env)@ == old(env)@.minted(to, token_uri@),
    {
        let token_count: u64 = Self::get_token_count(env);
        let token_id: u64 = token_count;
        env.set_token_count(token_count + 1);
        set_token_uri(env, token_id, &token_uri);
        set_token_owner(env, token_id, &to);
        token_id
    }

    /// Moves token `token_id` to `to` on behalf of `from`, which must own it
    /// or hold an approval for it. A listed token cannot be moved. The
    /// approval that `from` holds for the token is used up by the transfer.
    pub fn transfer(env: &mut Ledger, from: Address, to: Address, token_id: u64) -> (outcome:
        Result<(), MarketError>)
        ensures
            match outcome {
                Ok(()) => old(env)@.transferred(from, to, token_id) == Ok::<_, MarketError>(
                    final(env)@,
                ),
                Err(error) => old(env)@.transferred(from, to, token_id) == Err::<LedgerState, _>(error) && final(env)@ == old(env)@,
            },
    {
        let token_count = Self::get_token_count(env);
        if token_id >= token_count {
            return Err(MarketError::TokenNotFound);
        }
        let owner = match get_token_owner(env, token_id) {
            Ok(owner) => owner,
            Err(error) => {
                return Err(error);
            },
        };
        if owner != from {
            if !check_approval(env, token_id, &from) {
                return Err(MarketError::Unauthorized);
            }
        }
        if Self::is_token_listed(env, token_id) {
            return Err(MarketError::TokenCurrentlyListed);
        }
        set_token_owner(env, token_id, &to);
        revoke_approval(env, token_id, &from);
        Ok(())
    }

    /// Lets `approved` transfer token `token_id`. Only its owner may ask.
    pub fn approve(env: &mut Ledger, owner: Address, approved: Address, token_id: u64) -> (outcome:
        Result<(), MarketError>)
        ensures
            match outcome {
                Ok(()) => old(env)@.approved(owner, approved, token_id) == Ok::<_, MarketError>(
                    final(env)@,
                ),
                Err(error) => old(env)@.approved(owner, approved, token_id) == Err::<LedgerState, _>(error) && final(env)@ == old(env)@,
            },
    {
        let token_owner = match get_token_owner(env, token_id) {
            Ok(token_owner) => token_owner,
            Err(error) => {
                return Err(error);
            },
        };
        if token_owner != owner {
            return Err(MarketError::NotTokenOwner);
        }
        set_approval(env, token_id, &approved);
        Ok(())
    }

    /// Whether `address` holds an approval for token `token_id`.
    pub fn is_approved(env: &Ledger, token_id: u64, address: Address) -> (approved: bool)
        ensures
            approved == env@.approvals.contains((token_id, address)),
    {
        check_approval(env, token_id, &address)
    }

    /// Lists token `token_id` for sale at `price`. Only its owner may ask, the
    /// price must be positive, and the token must not be listed already.
    pub fn list_token(env: &mut Ledger, owner: Address, token_id: u64, price: i128) -> (outcome:
        Result<Listing, MarketError>)
        ensures
            match outcome {
                Ok(listing) => old(env)@.listed(owner, token_id, price) == Ok::<_, MarketError>(
                    final(env)@,
                ) && listing == (Listing { token_id: token_id, price: price, seller: owner }),
                Err(error) => old(env)@.listed(owner, token_id, price) == Err::<LedgerState, _>(error) && final(env)@ == old(env)@,
            },
    {
        if price <= 0 {
            return Err(MarketError::InvalidPrice);
        }
        let token_owner = match get_token_owner(env, token_id) {
            Ok(token_owner) => token_owner,
            Err(error) => {
                return Err(error);
            },
        };
        if token_owner != owner {
            return Err(MarketError::NotTokenOwner);
        }
        if Self::is_token_listed(env, token_id) {
            return Err(MarketError::AlreadyListed);
        }
        let listing = Listing { token_id, price, seller: owner };
        env.set_listing(token_id, price, owner);
        Ok(listing)
    }

    /// Withdraws the listing of token `token_id`. Only the seller recorded at
    /// listing time may ask.
    pub fn cancel_listing(env: &mut Ledger, owner: Address, token_id: u64) -> (outcome: Result<
        (),
        MarketError,
    >)
        ensures
            match outcome {
                Ok(()) => old(env)@.cancelled(owner, token_id) == Ok::<_, MarketError>(
                    final(env)@,
                ),
                Err(error) => old(env)@.cancelled(owner, token_id) == Err::<LedgerState, _>(error) && final(env)@ == old(env)@,
            },
    {
        let listing = match env.listing(token_id) {
            Some(listing) => listing,
            None => {
                return Err(MarketError::NotListed);
            },
        };
        if listing.seller != owner {
            return Err(MarketError::Unauthorized);
        }
        env.remove_listing(token_id);
        Ok(())
    }

    /// Sells the listed token `token_id` to `buyer`: the buyer becomes its
    /// owner, the listing is removed, and the division of the price among
    /// royalty recipient, platform and seller is returned for payment.
    pub fn buy_token(env: &mut Ledger, buyer: Address, token_id: u64) -> (outcome: Result<
        Settlement,
        MarketError,
    >)
        ensures
            match outcome {
                Ok(split) => old(env)@.bought(buyer, token_id) == Ok::<_, MarketError>(
                    final(env)@,
                ) && old(env)@.settles(token_id, split),
                Err(error) => old(env)@.bought(buyer, token_id) == Err::<LedgerState, _>(error) && final(env)@ == old(env)@,
            },
    {
        let listing = match env.listing(token_id) {
            Some(listing) => listing,
            None => {
                return Err(MarketError::NotListed);
            },
        };
        let price: i128 = listing.price;
        let seller = listing.seller;
        if buyer == seller {
            return Err(MarketError::SelfPurchase);
        }
        let royalty_percentage: u32 = match env.royalty() {
            Some(rate) => rate,
            None => DEFAULT_ROYALTY_PERCENTAGE,
        };
        let royalty_recipient = match env.royalty_recipient() {
            Some(recipient) => recipient,
            None => seller,
        };
        let royalty_amount: i128 = fee_amount(price, royalty_percentage);
        let platform_fee: u32 = match env.platform_fee() {
            Some(rate) => rate,
            None => DEFAULT_PLATFORM_FEE,
        };
        let platform_address = match env.platform_address() {
            Some(address) => address,
            None => seller,
        };
        let platform_fee_amount: i128 = fee_amount(price, platform_fee);
        let seller_amount: i128 = price - royalty_amount - platform_fee_amount;
        set_token_owner(env, token_id, &buyer);
        env.remove_listing(token_id);
        Ok(
            Settlement {
                price,
                seller,
                seller_amount,
                royalty_recipient,
                royalty_amount,
                platform_address,
                platform_fee_amount,
            },
        )
    }

    /// Whether token `token_id` has an active listing.
    pub fn is_token_listed(env: &Ledger, token_id: u64) -> (listed: bool)
        ensures
            listed == env@.is_listed(token_id),
    {
        env.listing(token_id).is_some()
    }

    /// The listing of token `token_id`, if it is listed.
    pub fn get_token_listing(env: &Ledger, token_id: u64) -> (listing: Option<Listing>)
        ensures
            listing == (if env@.is_listed(token_id) {
                Some(env@.listings[token_id])
            } else {
                None
            }),
    {
        env.listing(token_id)
    }

    /// The listings of all tokens below the supply, by ascending id.
    pub fn get_all_listings(env: &Ledger) -> (listings: Vec<Listing>)
        ensures
            listings@ == env@.listings_below(env@.supply() as nat),
    {
        let token_count = Self::get_token_count(env);
        let mut listings: Vec<Listing> = Vec::new();
        let mut token_id: u64 = 0;
        while token_id < token_count
            invariant
                token_id <= token_count,
                listings@ == env@.listings_below(token_id as nat),
            decreases token_count - token_id,
        {
            if let Some(listing) = Self::get_token_listing(env, token_id) {
                listings.push(listing);
            }
            token_id += 1;
        }
        listings
    }

    /// Changes the royalty rate and recipient. Only the administrator may ask,
    /// and the rate may not exceed the whole price.
    pub fn update_royalty(
        env: &mut Ledger,
        admin: Address,
        royalty_percentage: u32,
        royalty_recipient: Address,
    ) -> (outcome: Result<(), MarketError>)
        ensures
            match outcome {
                Ok(()) => old(env)@.royalty_updated(admin, royalty_percentage, royalty_recipient)
                    == Ok::<_, MarketError>(final(env)@),
                Err(error) => old(env)@.royalty_updated(
                    admin,
                    royalty_percentage,
                    royalty_recipient,
                ) == Err::<LedgerState, _>(error) && final(env)@ == old(env)@,
            },
    {
        match verify_admin(env, &admin) {
            Ok(()) => {},
            Err(error) => {
                return Err(error);
            },
        }
        if royalty_percentage > MAX_BASIS_POINTS {
            return Err(MarketError::InvalidFeePercentage);
        }
        env.set_royalty(royalty_percentage, royalty_recipient);
        Ok(())
    }

    /// Changes the platform fee rate and receiver. Only the administrator may
    /// ask, and the rate may not exceed the whole price.
    pub fn update_platform_fee(
        env: &mut Ledger,
        admin: Address,
        platform_fee: u32,
        platform_address: Address,
    ) -> (outcome: Result<(), MarketError>)
        ensures
            match outcome {
                Ok(()) => old(env)@.platform_fee_updated(admin, platform_fee, platform_address)
                    == Ok::<_, MarketError>(final(env)@),
                Err(error) => old(env)@.platform_fee_updated(
                    admin,
                    platform_fee,
                    platform_address,
                ) == Err::<LedgerState, _>(error) && final(env)@ == old(env)@,
            },
    {
        match verify_admin(env, &admin) {
            Ok(()) => {},
            Err(error) => {
                return Err(error);
            },
        }
        if platform_fee > MAX_BASIS_POINTS {
            return Err(MarketError::InvalidFeePercentage);
        }
        env.set_platform_fee(platform_fee, platform_address);
        Ok(())
    }

    /// Hands the administration to `new_admin`. Only the administrator may ask.
    pub fn update_admin(env: &mut Ledger, admin: Address, new_admin: Address) -> (outcome: Result<
        (),
        MarketError,
    >)
        ensures
            match outcome {
                Ok(()) => old(env)@.admin_updated(admin, new_admin) == Ok::<_, MarketError>(
                    final(env)@,
                ),
                Err(error) => old(env)@.admin_updated(admin, new_admin) == Err::<LedgerState, _>(error) && final(env)@ == old(env)@,
            },
    {
        match verify_admin(env, &admin) {
            Ok(()) => {},
            Err(error) => {
                return Err(error);
            },
        }
        write_administrator(env, &new_admin);
        Ok(())
    }
}

} // verus!
