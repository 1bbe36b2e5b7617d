use crate::ledger::{Ledger, LedgerState};
use crate::storage_types::{Address, MarketError};
use vstd::prelude::*;

verus! {

/// Whether an administrator is set.
pub fn has_administrator(e: &Ledger) -> (set: bool)
    ensures
        set == (e@.admin is Some),
{
    e.admin().is_some()
}

/// The administrator, or `NotInitialized` where none is set.
pub fn read_administrator(e: &Ledger) -> (admin: Result<Address, MarketError>)
    ensures
        admin == (match e@.admin {
            Some(address) => Ok::<Address, MarketError>(address),
            None => Err(MarketError::NotInitialized),
        }),
{
    match e.admin() {
        Some(address) => Ok(address),
        None => Err(MarketError::NotInitialized),
    }
}

/// Makes `id` the administrator, whoever was. The callers decide who may ask.
pub fn write_administrator(e: &mut Ledger, id: &Address)
    ensures
        final(e)@ == (LedgerState { admin: Some(*id), ..old(e)@ }),
{
    e.set_admin(*id);
}

/// Whether an administrator is set and is `address`.
pub fn check_admin(e: &Ledger, address: &Address) -> (is_admin: bool)
    ensures
        is_admin == e@.is_admin(*address),
{
    match e.admin() {
        Some(admin) => admin == *address,
        None => false,
    }
}

/// Refuses with `Unauthorized` unless `address` is the administrator. That the
/// party itself asked is for the caller to establish.
pub fn verify_admin(e: &Ledger, address: &Address) -> (verdict: Result<(), MarketError>)
    ensures
        verdict == (if e@.is_admin(*address) {
            Ok::<(), MarketError>(())
        } else {
            Err(MarketError::Unauthorized)
        }),
{
    if !check_admin(e, address) {
        return Err(MarketError::Unauthorized);
    }
    Ok(())
}

} // verus!
