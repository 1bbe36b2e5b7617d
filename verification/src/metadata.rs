use crate::ledger::{Ledger, LedgerState};
use crate::storage_types::{MarketError, TokenMetadata};
use vstd::prelude::*;

verus! {

/// The collection's descriptive fields, or `NotInitialized` where none were
/// written.
pub fn get_metadata(env: &Ledger) -> (metadata: Result<TokenMetadata, MarketError>)
    ensures
        match metadata {
            Ok(fields) => env@.metadata == Some(fields@),
            Err(error) => error == MarketError::NotInitialized && env@.metadata is None,
        },
{
    match env.metadata() {
        Some(fields) => Ok(fields),
        None => Err(MarketError::NotInitialized),
    }
}

/// The URI of token `token_id`; empty where none was written.
pub fn get_token_uri(env: &Ledger, token_id: u64) -> (uri: String)
    ensures
        uri@ == env@.uri_of(token_id),
{
    match env.uri(token_id) {
        Some(text) => text,
        None => String::new(),
    }
}

/// Writes the URI of token `token_id`, whatever was there.
pub fn set_token_uri(env: &mut Ledger, token_id: u64, uri: &String)
    ensures
        final(env)@ == (LedgerState {
            uris: old(env)@.uris.insert(token_id, uri@),
            ..old(env)@
        }),
{
    env.set_uri(token_id, uri.clone());
}

} // verus!
