use crate::ledger::{Ledger, LedgerState};
use crate::storage_types::{Address, MarketError};
use vstd::prelude::*;

verus! {

/// The owner of token `token_id`, or `TokenNotFound` where it has none.
pub fn get_token_owner(env: &Ledger, token_id: u64) -> (owner: Result<Address, MarketError>)
    ensures
        owner == env@.owner_of(token_id),
{
    match env.owner(token_id) {
        Some(address) => Ok(address),
        None => Err(MarketError::TokenNotFound),
    }
}

/// Makes `owner` the owner of token `token_id`, whoever was.
pub fn set_token_owner(env: &mut Ledger, token_id: u64, owner: &Address)
    ensures
        final(env)@ == (LedgerState {
            owners: old(env)@.owners.insert(token_id, *owner),
            ..old(env)@
        }),
{
    env.set_owner(token_id, *owner);
}

/// Whether token `token_id` has an owner.
pub fn token_exists(env: &Ledger, token_id: u64) -> (exists: bool)
    ensures
        exists == env@.owners.contains_key(token_id),
{
    env.owner(token_id).is_some()
}

} // verus!
