//! A fungible-token ledger: account balances, a total-supply counter, and a
//! delegated-spending (allowance) table, together with the operations that
//! mutate them under conservation and authorization invariants.
//!
//! The surrounding dispatch layer decodes an inbound request envelope, supplies
//! the direct caller and the transaction's ultimate origin, and delivers the
//! notification value that an accepted operation returns. The ledger itself is
//! a bounded, in-memory computation with no I/O.

use vstd::prelude::*;

mod fungible_token;
mod io;
mod laws;

pub use fungible_token::{
    account_index, allowance_effect, allowance_in, allowance_index, approve_post, balance_in,
    burn_post, distinct_accounts, distinct_allowances, has_account, has_allowance, mint_post,
    sat_add, sum_balances, transfer_from_post, unchanged_metadata, AllowanceEntry, BalanceEntry,
    FungibleToken,
};
pub use io::{ActorId, FTAction, FTError, FTEvent, FTInitialConfiguration, FTReply, FTState};
pub use laws::{
    lemma_allowance_consumed, lemma_approve_overwrites, lemma_approve_zero_spender_fails,
    lemma_balance_le_supply, lemma_burn_by_non_owner_fails, lemma_insufficient_allowance_fails,
    lemma_step_conserves, lemma_zero_address_fails,
};

verus! {

/// The genesis amount minted to the initializing account at deployment:
/// 100,000,000,000 tokens at 18 decimal places, a design constant.
pub const GENESIS_SUPPLY: u128 = 100_000_000_000 * 1_000_000_000_000_000_000;

/// What one dispatched request did to the ledger: the transition relation of
/// the whole state machine, one case per request variant. Query variants leave
/// the ledger untouched and reply with the queried value.
pub open spec fn ledger_step(
    pre: FungibleToken,
    post: FungibleToken,
    caller: ActorId,
    origin: ActorId,
    action: FTAction,
    r: Result<FTEvent, FTError>,
) -> bool {
    match action {
        FTAction::Burn(amount) => burn_post(pre, post, caller, amount, r),
        FTAction::Transfer { to, amount } => transfer_from_post(
            pre,
            post,
            caller,
            origin,
            caller,
            to,
            amount,
            r,
        ),
        FTAction::TransferFrom { from, to, amount } => transfer_from_post(
            pre,
            post,
            caller,
            origin,
            from,
            to,
            amount,
            r,
        ),
        FTAction::Approve { to, amount } => approve_post(pre, post, caller, to, amount, r),
        FTAction::TotalSupply => post == pre && r == Ok::<FTEvent, FTError>(
            FTEvent::TotalSupply(pre.total_supply),
        ),
        FTAction::Decimals => post == pre && r == Ok::<FTEvent, FTError>(
            FTEvent::Decimals(pre.decimals),
        ),
        FTAction::BalanceOf(account) => post == pre && r == Ok::<FTEvent, FTError>(
            FTEvent::Balance(pre.balance(account)),
        ),
    }
}

/// Initialization: creates the ledger owned by `source` with the given display
/// metadata, then mints the genesis supply to `source`. No failure path.
pub fn init(config: FTInitialConfiguration, source: ActorId) -> (r: (FungibleToken, FTEvent))
    ensures
        r.0.wf(),
        r.0.owner == source,
        r.0.name == config.name,
        r.0.symbol == config.symbol,
        r.0.decimals == config.decimals,
        r.0.total_supply == GENESIS_SUPPLY,
        r.0.balance(source) == GENESIS_SUPPLY,
        forall|b: ActorId| b != source ==> r.0.balance(b) == 0,
        forall|o: ActorId, sp: ActorId| r.0.allowance(o, sp) == 0,
        r.1 == (FTEvent::Transfer { from: ActorId::null(), to: source, amount: GENESIS_SUPPLY }),
{
    let mut token = FungibleToken::default();
    token.owner = source;
    token.name = config.name;
    token.symbol = config.symbol;
    token.decimals = config.decimals;
    proof {
        assert(token.balance(source) == 0);
    }
    let ev = token.mint(source, GENESIS_SUPPLY);
    (token, ev)
}

/// Dispatch of one decoded request: routes it to the matching ledger
/// operation and hands back the notification or the failure reason.
pub fn handle(
    token: &mut FungibleToken,
    caller: ActorId,
    origin: ActorId,
    action: FTAction,
) -> (r: Result<FTEvent, FTError>)
    requires
        old(token).wf(),
    ensures
        final(token).wf(),
        ledger_step(*old(token), *final(token), caller, origin, action, r),
{
    match action {
        FTAction::Burn(amount) => token.burn(caller, amount),
        FTAction::Transfer { to, amount } => token.transfer(caller, origin, &to, amount),
        FTAction::TransferFrom { from, to, amount } => token.transfer_from(
            caller,
            origin,
            &from,
            &to,
            amount,
        ),
        FTAction::Approve { to, amount } => token.approve(caller, &to, amount),
        FTAction::TotalSupply => Ok(FTEvent::TotalSupply(token.total_supply)),
        FTAction::Decimals => Ok(FTEvent::Decimals(token.decimals)),
        FTAction::BalanceOf(account) => Ok(FTEvent::Balance(token.balance_of(&account))),
    }
}

/// The read-only query channel: returns the corresponding reply value without
/// mutating state or emitting notifications.
pub fn meta_state(token: &FungibleToken, query: FTState) -> (r: FTReply)
    requires
        token.wf(),
    ensures
        match query {
            FTState::Name => r == FTReply::Name(token.name),
            FTState::Symbol => r == FTReply::Symbol(token.symbol),
            FTState::Decimals => r == FTReply::Decimals(token.decimals),
            FTState::TotalSupply => r == FTReply::TotalSupply(token.total_supply),
            FTState::BalanceOf(account) => r == FTReply::Balance(token.balance(account)),
        },
{
    match query {
        FTState::Name => FTReply::Name(token.name.clone()),
        FTState::Symbol => FTReply::Symbol(token.symbol.clone()),
        FTState::Decimals => FTReply::Decimals(token.decimals),
        FTState::TotalSupply => FTReply::TotalSupply(token.total_supply),
        FTState::BalanceOf(account) => FTReply::Balance(token.balance_of(&account)),
    }
}

} // verus!
