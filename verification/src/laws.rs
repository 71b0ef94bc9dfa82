//! The ledger's guarantees stated on their own, each proved from the
//! operations' transition predicates alone.

use vstd::prelude::*;

use crate::fungible_token::{
    approve_post, burn_post, lemma_balance_le_sum, sum_balances, transfer_from_post, FungibleToken,
};
use crate::io::{ActorId, FTError, FTEvent};
use crate::ledger_step;
use crate::FTAction;

verus! {

/// No recorded balance exceeds the total supply of a well-formed ledger; in
/// particular every balance lies between zero and the supply.
pub proof fn lemma_balance_le_supply(t: FungibleToken, a: ActorId)
    requires
        t.wf(),
    ensures
        t.balance(a) <= t.total_supply,
{
    lemma_balance_le_sum(t.balances@, a);
}

/// Conservation: a dispatched request on a well-formed ledger leaves the
/// total supply equal to the sum of all balances. (Minting is not
/// dispatchable; its own conservation holds whenever the supply counter does
/// not saturate, as `mint_post` states.)
pub proof fn lemma_step_conserves(
    pre: FungibleToken,
    post: FungibleToken,
    caller: ActorId,
    origin: ActorId,
    action: FTAction,
    r: Result<FTEvent, FTError>,
)
    requires
        pre.wf(),
        ledger_step(pre, post, caller, origin, action, r),
    ensures
        post.wf(),
        post.total_supply as int == sum_balances(post.balances@),
{
}

/// Burn authorization: a burn by any identity other than the owner fails and
/// leaves the whole ledger unchanged.
pub proof fn lemma_burn_by_non_owner_fails(
    pre: FungibleToken,
    post: FungibleToken,
    caller: ActorId,
    amount: u128,
    r: Result<FTEvent, FTError>,
)
    requires
        burn_post(pre, post, caller, amount, r),
        caller != pre.owner,
    ensures
        r == Err::<FTEvent, FTError>(FTError::Unauthorized),
        post == pre,
{
}

/// Zero-address rejection: a transfer with either endpoint equal to the null
/// identifier fails and leaves the whole ledger unchanged.
pub proof fn lemma_zero_address_fails(
    pre: FungibleToken,
    post: FungibleToken,
    caller: ActorId,
    origin: ActorId,
    from: ActorId,
    to: ActorId,
    amount: u128,
    r: Result<FTEvent, FTError>,
)
    requires
        transfer_from_post(pre, post, caller, origin, from, to, amount, r),
        from.is_null() || to.is_null(),
    ensures
        r == Err::<FTEvent, FTError>(FTError::ZeroAddress),
        post == pre,
{
}

/// Zero-address rejection: an approval whose spender is the null identifier
/// fails and leaves the whole ledger unchanged.
pub proof fn lemma_approve_zero_spender_fails(
    pre: FungibleToken,
    post: FungibleToken,
    caller: ActorId,
    spender: ActorId,
    amount: u128,
    r: Result<FTEvent, FTError>,
)
    requires
        approve_post(pre, post, caller, spender, amount, r),
        spender.is_null(),
    ensures
        r == Err::<FTEvent, FTError>(FTError::ZeroAddress),
        post == pre,
{
}

/// Allowance overwrite: two consecutive approvals of the same spender leave
/// the second amount, not the sum of the two.
pub proof fn lemma_approve_overwrites(
    s0: FungibleToken,
    s1: FungibleToken,
    s2: FungibleToken,
    caller: ActorId,
    spender: ActorId,
    first: u128,
    second: u128,
    r1: Result<FTEvent, FTError>,
    r2: Result<FTEvent, FTError>,
)
    requires
        approve_post(s0, s1, caller, spender, first, r1),
        approve_post(s1, s2, caller, spender, second, r2),
        !spender.is_null(),
    ensures
        s2.allowance(caller, spender) == second,
{
}

/// Allowance consumption: a delegated transfer authorized purely through an
/// allowance decreases that allowance by exactly the transferred amount.
pub proof fn lemma_allowance_consumed(
    pre: FungibleToken,
    post: FungibleToken,
    caller: ActorId,
    origin: ActorId,
    from: ActorId,
    to: ActorId,
    amount: u128,
    ev: FTEvent,
)
    requires
        transfer_from_post(pre, post, caller, origin, from, to, amount, Ok(ev)),
        !pre.self_authorized(caller, origin, from, amount),
    ensures
        post.allowance(from, caller) == pre.allowance(from, caller) - amount,
{
}

/// A delegated transfer that exceeds the remaining allowance, with no
/// non-consuming ground to fall back on, fails.
pub proof fn lemma_insufficient_allowance_fails(
    pre: FungibleToken,
    post: FungibleToken,
    caller: ActorId,
    origin: ActorId,
    from: ActorId,
    to: ActorId,
    amount: u128,
    r: Result<FTEvent, FTError>,
)
    requires
        transfer_from_post(pre, post, caller, origin, from, to, amount, r),
        !pre.self_authorized(caller, origin, from, amount),
        pre.allowance(from, caller) < amount,
    ensures
        r is Err,
{
}

} // verus!
