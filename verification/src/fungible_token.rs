//! The ledger state machine: account balances, the total-supply counter, the
//! allowance table, and the operations that mutate them.
//!
//! The balance table and the allowance table are association vectors with
//! pairwise-distinct keys. The well-formedness predicate [`FungibleToken::wf`]
//! states the ledger's central invariant: the keys are distinct and
//! `total_supply` equals the sum of all balances (conservation of supply).

use vstd::prelude::*;

use crate::io::{ActorId, FTError, FTEvent};

verus! {

/// One account's balance. Accounts absent from the table hold balance zero.
#[derive(Clone, Copy, PartialEq, Eq, Debug)]
pub struct BalanceEntry {
    pub account: ActorId,
    pub amount: u128,
}

/// One remaining-allowance amount: what `spender` may still move out of
/// `holder`'s account. Absent pairs have allowance zero.
#[derive(Clone, Copy, PartialEq, Eq, Debug)]
pub struct AllowanceEntry {
    pub holder: ActorId,
    pub spender: ActorId,
    pub amount: u128,
}

/// The sum of all recorded balances, as an unbounded integer.
pub open spec fn sum_balances(s: Seq<BalanceEntry>) -> int
    decreases s.len(),
{
    if s.len() == 0 {
        0
    } else {
        sum_balances(s.drop_last()) + s.last().amount
    }
}

/// No account appears twice in the balance table.
pub open spec fn distinct_accounts(s: Seq<BalanceEntry>) -> bool {
    forall|i: int, j: int|
        0 <= i < j < s.len() ==> s[i].account != s[j].account
}

pub open spec fn has_account(s: Seq<BalanceEntry>, a: ActorId) -> bool {
    exists|i: int| 0 <= i < s.len() && s[i].account == a
}

pub open spec fn account_index(s: Seq<BalanceEntry>, a: ActorId) -> int {
    choose|i: int| 0 <= i < s.len() && s[i].account == a
}

/// The balance recorded for `a`, or zero if `a` is absent.
pub open spec fn balance_in(s: Seq<BalanceEntry>, a: ActorId) -> u128 {
    if has_account(s, a) {
        s[account_index(s, a)].amount
    } else {
        0
    }
}

/// No (holder, spender) pair appears twice in the allowance table.
pub open spec fn distinct_allowances(s: Seq<AllowanceEntry>) -> bool {
    forall|i: int, j: int|
        0 <= i < j < s.len() ==> !(s[i].holder == s[j].holder && s[i].spender == s[j].spender)
}

pub open spec fn has_allowance(s: Seq<AllowanceEntry>, holder: ActorId, spender: ActorId) -> bool {
    exists|i: int| 0 <= i < s.len() && s[i].holder == holder && s[i].spender == spender
}

pub open spec fn allowance_index(s: Seq<AllowanceEntry>, holder: ActorId, spender: ActorId) -> int {
    choose|i: int| 0 <= i < s.len() && s[i].holder == holder && s[i].spender == spender
}

/// The remaining allowance recorded for the pair, or zero if absent.
pub open spec fn allowance_in(s: Seq<AllowanceEntry>, holder: ActorId, spender: ActorId) -> u128 {
    if has_allowance(s, holder, spender) {
        s[allowance_index(s, holder, spender)].amount
    } else {
        0
    }
}

pub proof fn lemma_sum_nonneg(s: Seq<BalanceEntry>)
    ensures
        sum_balances(s) >= 0,
    decreases s.len(),
{
    if s.len() > 0 {
        lemma_sum_nonneg(s.drop_last());
    }
}

pub proof fn lemma_sum_push(s: Seq<BalanceEntry>, e: BalanceEntry)
    ensures
        sum_balances(s.push(e)) == sum_balances(s) + e.amount,
{
    assert(s.push(e).drop_last() =~= s);
    assert(s.push(e).last() == e);
}

pub proof fn lemma_sum_update(s: Seq<BalanceEntry>, i: int, e: BalanceEntry)
    requires
        0 <= i < s.len(),
    ensures
        sum_balances(s.update(i, e)) == sum_balances(s) - s[i].amount + e.amount,
    decreases s.len(),
{
    let s2 = s.update(i, e);
    if i == s.len() - 1 {
        assert(s2.drop_last() =~= s.drop_last());
        assert(s2.last() == e);
    } else {
        lemma_sum_update(s.drop_last(), i, e);
        assert(s2.drop_last() =~= s.drop_last().update(i, e));
        assert(s2.last() == s.last());
    }
}

/// Every single recorded balance is bounded by the sum of all balances.
pub proof fn lemma_entry_le_sum(s: Seq<BalanceEntry>, i: int)
    requires
        0 <= i < s.len(),
    ensures
        s[i].amount <= sum_balances(s),
    decreases s.len(),
{
    lemma_sum_nonneg(s.drop_last());
    if i < s.len() - 1 {
        lemma_entry_le_sum(s.drop_last(), i);
    }
}

/// A well-formed lookup: at any valid index, the looked-up balance of that
/// index's account is that index's amount.
pub proof fn lemma_balance_at(s: Seq<BalanceEntry>, i: int)
    requires
        distinct_accounts(s),
        0 <= i < s.len(),
    ensures
        has_account(s, s[i].account),
        balance_in(s, s[i].account) == s[i].amount,
{
    assert(has_account(s, s[i].account));
    let j = account_index(s, s[i].account);
    assert(0 <= j < s.len() && s[j].account == s[i].account);
    if i != j {
        assert(false);
    }
}

/// The looked-up balance of any account is bounded by the sum of all balances.
pub proof fn lemma_balance_le_sum(s: Seq<BalanceEntry>, a: ActorId)
    ensures
        balance_in(s, a) <= sum_balances(s),
{
    if has_account(s, a) {
        lemma_entry_le_sum(s, account_index(s, a));
    } else {
        lemma_sum_nonneg(s);
    }
}

pub proof fn lemma_allowance_at(s: Seq<AllowanceEntry>, i: int)
    requires
        distinct_allowances(s),
        0 <= i < s.len(),
    ensures
        has_allowance(s, s[i].holder, s[i].spender),
        allowance_in(s, s[i].holder, s[i].spender) == s[i].amount,
{
    assert(has_allowance(s, s[i].holder, s[i].spender));
    let j = allowance_index(s, s[i].holder, s[i].spender);
    assert(0 <= j < s.len() && s[j].holder == s[i].holder && s[j].spender == s[i].spender);
    if i != j {
        assert(false);
    }
}

/// Finds the index holding `a`'s balance, if one exists.
fn find_account(entries: &Vec<BalanceEntry>, a: &ActorId) -> (r: Option<usize>)
    ensures
        match r {
            Some(i) => i < entries@.len() && entries@[i as int].account == *a,
            None => !has_account(entries@, *a),
        },
{
    let mut i: usize = 0;
    while i < entries.len()
        invariant
            i <= entries@.len(),
            forall|j: int| 0 <= j < i ==> entries@[j].account != *a,
        decreases entries@.len() - i,
    {
        if entries[i].account.equals(a) {
            return Some(i);
        }
        i += 1;
    }
    None
}

/// The balance recorded for `a`, or zero if `a` is absent.
fn balance_lookup(entries: &Vec<BalanceEntry>, a: &ActorId) -> (r: u128)
    requires
        distinct_accounts(entries@),
    ensures
        r == balance_in(entries@, *a),
{
    match find_account(entries, a) {
        Some(i) => {
            proof {
                lemma_balance_at(entries@, i as int);
            }
            entries[i].amount
        }
        None => 0,
    }
}

/// Records balance `v` for `a`, inserting an entry if `a` was absent.
fn set_balance(entries: &mut Vec<BalanceEntry>, a: &ActorId, v: u128)
    requires
        distinct_accounts(old(entries)@),
    ensures
        distinct_accounts(final(entries)@),
        balance_in(final(entries)@, *a) == v,
        forall|b: ActorId| b != *a ==> balance_in(final(entries)@, b) == balance_in(old(entries)@, b),
        sum_balances(final(entries)@) == sum_balances(old(entries)@) - balance_in(old(entries)@, *a) + v,
{
    let ghost s = entries@;
    match find_account(entries, a) {
        Some(i) => {
            proof {
                lemma_balance_at(s, i as int);
                lemma_sum_update(s, i as int, (BalanceEntry { account: s[i as int].account, amount: v }));
            }
            entries[i].amount = v;
            proof {
                let s2 = entries@;
                assert(s2 =~= s.update(i as int, (BalanceEntry { account: s[i as int].account, amount: v })));
                assert forall|k: int| 0 <= k < s2.len() implies s2[k].account == s[k].account by {}
                assert(distinct_accounts(s2));
                lemma_balance_at(s2, i as int);
                assert forall|b: ActorId| b != *a implies balance_in(s2, b) == balance_in(s, b) by {
                    lemma_lookup_same_keys(s, s2, b);
                }
            }
        }
        None => {
            entries.push(BalanceEntry { account: *a, amount: v });
            proof {
                let s2 = entries@;
                assert(s2 =~= s.push(BalanceEntry { account: *a, amount: v }));
                lemma_sum_push(s, (BalanceEntry { account: *a, amount: v }));
                assert forall|i: int, j: int| 0 <= i < j < s2.len() implies s2[i].account != s2[j].account by {
                    if j < s2.len() - 1 {
                        assert(s[i].account != s[j].account);
                    } else {
                        assert(s2[i].account == s[i].account);
                        if s[i].account == *a {
                            assert(has_account(s, *a));
                        }
                    }
                }
                lemma_balance_at(s2, s2.len() - 1);
                assert forall|b: ActorId| b != *a implies balance_in(s2, b) == balance_in(s, b) by {
                    if has_account(s, b) {
                        let k = account_index(s, b);
                        lemma_balance_at(s, k);
                        lemma_balance_at(s2, k);
                    } else {
                        if has_account(s2, b) {
                            let k = account_index(s2, b);
                            assert(0 <= k < s2.len() && s2[k].account == b);
                            assert(k < s2.len() - 1 ==> s[k].account == b);
                        }
                    }
                }
            }
        }
    }
}

/// Two balance tables with the same accounts at the same indices agree on
/// every account whose amounts they share.
proof fn lemma_lookup_same_keys(s: Seq<BalanceEntry>, s2: Seq<BalanceEntry>, b: ActorId)
    requires
        s.len() == s2.len(),
        forall|k: int| 0 <= k < s.len() ==> s2[k].account == s[k].account,
        distinct_accounts(s),
        distinct_accounts(s2),
        forall|k: int| 0 <= k < s.len() && s[k].account == b ==> s2[k].amount == s[k].amount,
    ensures
        balance_in(s2, b) == balance_in(s, b),
{
    if has_account(s, b) {
        let k = account_index(s, b);
        lemma_balance_at(s, k);
        lemma_balance_at(s2, k);
    } else {
        if has_account(s2, b) {
            let k = account_index(s2, b);
            assert(s[k].account == b);
        }
    }
}

/// Finds the index holding the pair's allowance, if one exists.
fn find_allowance(entries: &Vec<AllowanceEntry>, holder: &ActorId, spender: &ActorId) -> (r: Option<
    usize,
>)
    ensures
        match r {
            Some(i) => i < entries@.len() && entries@[i as int].holder == *holder
                && entries@[i as int].spender == *spender,
            None => !has_allowance(entries@, *holder, *spender),
        },
{
    let mut i: usize = 0;
    while i < entries.len()
        invariant
            i <= entries@.len(),
            forall|j: int|
                0 <= j < i ==> !(entries@[j].holder == *holder && entries@[j].spender == *spender),
        decreases entries@.len() - i,
    {
        if entries[i].holder.equals(holder) && entries[i].spender.equals(spender) {
            return Some(i);
        }
        i += 1;
    }
    None
}

/// The remaining allowance recorded for the pair, or zero if absent.
fn allowance_lookup(entries: &Vec<AllowanceEntry>, holder: &ActorId, spender: &ActorId) -> (r: u128)
    requires
        distinct_allowances(entries@),
    ensures
        r == allowance_in(entries@, *holder, *spender),
{
    match find_allowance(entries, holder, spender) {
        Some(i) => {
            proof {
                lemma_allowance_at(entries@, i as int);
            }
            entries[i].amount
        }
        None => 0,
    }
}

/// Records allowance `v` for the pair, inserting an entry if it was absent.
fn set_allowance(entries: &mut Vec<AllowanceEntry>, holder: &ActorId, spender: &ActorId, v: u128)
    requires
        distinct_allowances(old(entries)@),
    ensures
        distinct_allowances(final(entries)@),
        allowance_in(final(entries)@, *holder, *spender) == v,
        forall|o: ActorId, sp: ActorId|
            !(o == *holder && sp == *spender) ==> allowance_in(final(entries)@, o, sp)
                == allowance_in(old(entries)@, o, sp),
{
    let ghost s = entries@;
    match find_allowance(entries, holder, spender) {
        Some(i) => {
            proof {
                lemma_allowance_at(s, i as int);
            }
            entries[i].amount = v;
            proof {
                let s2 = entries@;
                assert forall|k: int| 0 <= k < s2.len() implies s2[k].holder == s[k].holder
                    && s2[k].spender == s[k].spender by {}
                assert(distinct_allowances(s2));
                lemma_allowance_at(s2, i as int);
                assert forall|o: ActorId, sp: ActorId| !(o == *holder && sp == *spender) implies
                    allowance_in(s2, o, sp) == allowance_in(s, o, sp) by {
                    lemma_allowance_same_keys(s, s2, o, sp);
                }
            }
        }
        None => {
            entries.push(AllowanceEntry { holder: *holder, spender: *spender, amount: v });
            proof {
                let s2 = entries@;
                assert forall|i: int, j: int| 0 <= i < j < s2.len() implies !(s2[i].holder
                    == s2[j].holder && s2[i].spender == s2[j].spender) by {
                    if j < s2.len() - 1 {
                        assert(!(s[i].holder == s[j].holder && s[i].spender == s[j].spender));
                    } else {
                        if s[i].holder == *holder && s[i].spender == *spender {
                            assert(has_allowance(s, *holder, *spender));
                        }
                    }
                }
                lemma_allowance_at(s2, s2.len() - 1);
                assert forall|o: ActorId, sp: ActorId| !(o == *holder && sp == *spender) implies
                    allowance_in(s2, o, sp) == allowance_in(s, o, sp) by {
                    if has_allowance(s, o, sp) {
                        let k = allowance_index(s, o, sp);
                        lemma_allowance_at(s, k);
                        lemma_allowance_at(s2, k);
                    } else {
                        if has_allowance(s2, o, sp) {
                            let k = allowance_index(s2, o, sp);
                            assert(0 <= k < s2.len() && s2[k].holder == o && s2[k].spender == sp);
                            assert(k < s2.len() - 1 ==> s[k].holder == o && s[k].spender == sp);
                        }
                    }
                }
            }
        }
    }
}

/// Two allowance tables with the same key pairs at the same indices agree on
/// every pair whose amount they share.
proof fn lemma_allowance_same_keys(
    s: Seq<AllowanceEntry>,
    s2: Seq<AllowanceEntry>,
    o: ActorId,
    sp: ActorId,
)
    requires
        s.len() == s2.len(),
        forall|k: int| 0 <= k < s.len() ==> s2[k].holder == s[k].holder && s2[k].spender == s[k].spender,
        distinct_allowances(s),
        distinct_allowances(s2),
        forall|k: int|
            0 <= k < s.len() && s[k].holder == o && s[k].spender == sp ==> s2[k].amount
                == s[k].amount,
    ensures
        allowance_in(s2, o, sp) == allowance_in(s, o, sp),
{
    if has_allowance(s, o, sp) {
        let k = allowance_index(s, o, sp);
        lemma_allowance_at(s, k);
        lemma_allowance_at(s2, k);
    } else {
        if has_allowance(s2, o, sp) {
            let k = allowance_index(s2, o, sp);
            assert(s[k].holder == o && s[k].spender == sp);
        }
    }
}

/// Addition clamped at the largest representable value, the policy for every
/// credit to a balance or to the supply counter.
pub open spec fn sat_add(a: u128, b: u128) -> u128 {
    if a + b > u128::MAX {
        u128::MAX
    } else {
        (a + b) as u128
    }
}

/// The fungible-token ledger: the one mutable state of the contract.
#[derive(Debug)]
pub struct FungibleToken {
    /// The account that performed initialization; the only account permitted
    /// to burn.
    pub owner: ActorId,
    pub name: String,
    pub symbol: String,
    pub total_supply: u128,
    pub balances: Vec<BalanceEntry>,
    pub allowances: Vec<AllowanceEntry>,
    pub decimals: u8,
}

impl FungibleToken {
    /// Both tables have pairwise-distinct keys.
    pub open spec fn tables_ok(self) -> bool {
        distinct_accounts(self.balances@) && distinct_allowances(self.allowances@)
    }

    /// Well-formedness: distinct table keys, and conservation of supply —
    /// `total_supply` equals the sum of all balances.
    pub open spec fn wf(self) -> bool {
        self.tables_ok() && self.total_supply as int == sum_balances(self.balances@)
    }

    /// The balance of `a`; absence from the table is balance zero.
    pub open spec fn balance(self, a: ActorId) -> u128 {
        balance_in(self.balances@, a)
    }

    /// What `spender` may still move out of `holder`'s account; absence at
    /// either level of a two-level table is allowance zero.
    pub open spec fn allowance(self, holder: ActorId, spender: ActorId) -> u128 {
        allowance_in(self.allowances@, holder, spender)
    }

    /// Authorization for a transfer out of `from` that does not consume an
    /// allowance: the caller acts as themself, the call chain originates from
    /// `from`, or the caller's own balance covers the amount (the deliberately
    /// permissive fallback of the design).
    pub open spec fn self_authorized(
        self,
        caller: ActorId,
        origin: ActorId,
        from: ActorId,
        amount: u128,
    ) -> bool {
        from == caller || from == origin || self.balance(caller) >= amount
    }

    /// Full authorization for a transfer out of `from`: a non-consuming ground
    /// or a sufficient allowance.
    pub open spec fn transfer_authorized(
        self,
        caller: ActorId,
        origin: ActorId,
        from: ActorId,
        amount: u128,
    ) -> bool {
        self.self_authorized(caller, origin, from, amount) || self.allowance(from, caller)
            >= amount
    }
}

/// The display metadata and the owner are immutable after initialization.
pub open spec fn unchanged_metadata(pre: FungibleToken, post: FungibleToken) -> bool {
    &&& post.owner == pre.owner
    &&& post.name == pre.name
    &&& post.symbol == pre.symbol
    &&& post.decimals == pre.decimals
}

/// What a completed mint did: both the minted balance and the supply counter
/// grow by `amount`, clamped at the largest representable value. On any input
/// that does not clamp the supply counter, well-formedness is preserved.
pub open spec fn mint_post(
    pre: FungibleToken,
    post: FungibleToken,
    caller: ActorId,
    amount: u128,
    ev: FTEvent,
) -> bool {
    &&& unchanged_metadata(pre, post)
    &&& post.tables_ok()
    &&& post.total_supply == sat_add(pre.total_supply, amount)
    &&& post.balance(caller) == sat_add(pre.balance(caller), amount)
    &&& (forall|b: ActorId| b != caller ==> post.balance(b) == pre.balance(b))
    &&& post.allowances == pre.allowances
    &&& (pre.total_supply + amount <= u128::MAX ==> post.wf())
    &&& ev == (FTEvent::Transfer { from: ActorId::null(), to: caller, amount })
}

/// What a burn did. It succeeds exactly when the caller is the owner and holds
/// at least `amount`; on success both the caller's balance and the supply
/// counter shrink by `amount`; on failure the ledger is unchanged.
pub open spec fn burn_post(
    pre: FungibleToken,
    post: FungibleToken,
    caller: ActorId,
    amount: u128,
    r: Result<FTEvent, FTError>,
) -> bool {
    &&& post.wf()
    &&& unchanged_metadata(pre, post)
    &&& post.allowances == pre.allowances
    &&& ((r is Ok) <==> (caller == pre.owner && pre.balance(caller) >= amount))
    &&& (r matches Ok(ev) ==> {
        &&& post.balance(caller) == pre.balance(caller) - amount
        &&& (forall|b: ActorId| b != caller ==> post.balance(b) == pre.balance(b))
        &&& post.total_supply == pre.total_supply - amount
        &&& ev == (FTEvent::Transfer { from: caller, to: ActorId::null(), amount })
    })
    &&& (r matches Err(e) ==> {
        &&& post == pre
        &&& e == (if caller != pre.owner {
            FTError::Unauthorized
        } else {
            FTError::InsufficientBalance
        })
    })
}

/// What an approval did. It succeeds exactly when the spender is not the null
/// identifier; on success the pair's allowance is set to `amount` absolutely
/// (a second approval overwrites, it does not accumulate).
pub open spec fn approve_post(
    pre: FungibleToken,
    post: FungibleToken,
    caller: ActorId,
    spender: ActorId,
    amount: u128,
    r: Result<FTEvent, FTError>,
) -> bool {
    &&& post.wf()
    &&& unchanged_metadata(pre, post)
    &&& post.balances == pre.balances
    &&& post.total_supply == pre.total_supply
    &&& ((r is Ok) <==> !spender.is_null())
    &&& (r matches Ok(ev) ==> {
        &&& post.allowance(caller, spender) == amount
        &&& (forall|o: ActorId, sp: ActorId|
            !(o == caller && sp == spender) ==> post.allowance(o, sp) == pre.allowance(o, sp))
        &&& ev == (FTEvent::Approve { from: caller, to: spender, amount })
    })
    &&& (r matches Err(e) ==> post == pre && e == FTError::ZeroAddress)
}

/// How a transfer's authorization step left the allowance table: untouched
/// when a non-consuming ground authorized it, otherwise the consulted
/// allowance is decremented by exactly `amount`.
pub open spec fn allowance_effect(
    pre: FungibleToken,
    post: FungibleToken,
    caller: ActorId,
    origin: ActorId,
    from: ActorId,
    amount: u128,
) -> bool {
    if pre.self_authorized(caller, origin, from, amount) {
        post.allowances == pre.allowances
    } else {
        &&& post.allowance(from, caller) == pre.allowance(from, caller) - amount
        &&& (forall|o: ActorId, sp: ActorId|
            !(o == from && sp == caller) ==> post.allowance(o, sp) == pre.allowance(o, sp))
    }
}

/// What a transfer out of `from` into `to` did. It succeeds exactly when no
/// endpoint is the null identifier, the caller is authorized, and `from`
/// holds at least `amount`. The allowance consumed by the authorization step
/// stays consumed even when the balance check then fails: the one documented
/// departure from "rejection leaves no trace".
pub open spec fn transfer_from_post(
    pre: FungibleToken,
    post: FungibleToken,
    caller: ActorId,
    origin: ActorId,
    from: ActorId,
    to: ActorId,
    amount: u128,
    r: Result<FTEvent, FTError>,
) -> bool {
    &&& post.wf()
    &&& unchanged_metadata(pre, post)
    &&& ((r is Ok) <==> (!from.is_null() && !to.is_null() && pre.transfer_authorized(
        caller,
        origin,
        from,
        amount,
    ) && pre.balance(from) >= amount))
    &&& (r matches Ok(ev) ==> {
        &&& post.total_supply == pre.total_supply
        &&& (if from == to {
            post.balance(from) == pre.balance(from)
        } else {
            post.balance(from) == pre.balance(from) - amount && post.balance(to) == pre.balance(
                to,
            ) + amount
        })
        &&& (forall|b: ActorId| b != from && b != to ==> post.balance(b) == pre.balance(b))
        &&& allowance_effect(pre, post, caller, origin, from, amount)
        &&& ev == (FTEvent::Transfer { from, to, amount })
    })
    &&& (r matches Err(e) ==> {
        &&& post.balances == pre.balances
        &&& post.total_supply == pre.total_supply
        &&& (if from.is_null() || to.is_null() {
            e == FTError::ZeroAddress && post == pre
        } else if !pre.transfer_authorized(caller, origin, from, amount) {
            e == FTError::Unauthorized && post == pre
        } else {
            &&& e == FTError::InsufficientBalance
            &&& pre.balance(from) < amount
            &&& allowance_effect(pre, post, caller, origin, from, amount)
        })
    })
}

impl FungibleToken {
    /// The balance of `account`, or zero if it holds none.
    pub fn balance_of(&self, account: &ActorId) -> (r: u128)
        requires
            self.wf(),
        ensures
            r == self.balance(*account),
    {
        balance_lookup(&self.balances, account)
    }

    /// What `spender` may still move out of `holder`'s account.
    pub fn allowance_of(&self, holder: &ActorId, spender: &ActorId) -> (r: u128)
        requires
            self.wf(),
        ensures
            r == self.allowance(*holder, *spender),
    {
        allowance_lookup(&self.allowances, holder, spender)
    }

    /// Credits `amount` to the caller and to the supply counter, both with
    /// saturating addition. No authorization check: in this design it is used
    /// only at initialization.
    pub fn mint(&mut self, caller: ActorId, amount: u128) -> (ev: FTEvent)
        requires
            old(self).wf(),
        ensures
            mint_post(*old(self), *final(self), caller, amount, ev),
    {
        proof {
            lemma_balance_le_sum(old(self).balances@, caller);
        }
        let old_bal = balance_lookup(&self.balances, &caller);
        let new_bal = old_bal.saturating_add(amount);
        set_balance(&mut self.balances, &caller, new_bal);
        self.total_supply = self.total_supply.saturating_add(amount);
        FTEvent::Transfer { from: ActorId::zero(), to: caller, amount }
    }

    /// Debits `amount` from the caller and from the supply counter. Only the
    /// owner may burn, and only what the owner holds.
    pub fn burn(&mut self, caller: ActorId, amount: u128) -> (r: Result<FTEvent, FTError>)
        requires
            old(self).wf(),
        ensures
            burn_post(*old(self), *final(self), caller, amount, r),
    {
        if !caller.equals(&self.owner) {
            return Err(FTError::Unauthorized);
        }
        let bal = balance_lookup(&self.balances, &caller);
        if bal < amount {
            return Err(FTError::InsufficientBalance);
        }
        proof {
            lemma_balance_le_sum(old(self).balances@, caller);
        }
        set_balance(&mut self.balances, &caller, bal - amount);
        self.total_supply = self.total_supply - amount;
        Ok(FTEvent::Transfer { from: caller, to: ActorId::zero(), amount })
    }

    /// The authorization step of a transfer out of `from`. When no
    /// non-consuming ground applies, a sufficient allowance authorizes and is
    /// decremented by `amount` as a side effect of this very check.
    fn can_transfer(&mut self, caller: ActorId, origin: ActorId, from: &ActorId, amount: u128) -> (r:
        bool)
        requires
            old(self).wf(),
        ensures
            final(self).wf(),
            final(self).balances == old(self).balances,
            final(self).total_supply == old(self).total_supply,
            unchanged_metadata(*old(self), *final(self)),
            r == old(self).transfer_authorized(caller, origin, *from, amount),
            old(self).self_authorized(caller, origin, *from, amount) ==> *final(self) == *old(self),
            !old(self).transfer_authorized(caller, origin, *from, amount) ==> *final(self) == *old(
                self,
            ),
            r ==> allowance_effect(*old(self), *final(self), caller, origin, *from, amount),
    {
        if from.equals(&caller) || from.equals(&origin) {
            return true;
        }
        let caller_bal = balance_lookup(&self.balances, &caller);
        if caller_bal >= amount {
            return true;
        }
        let allowed = allowance_lookup(&self.allowances, from, &caller);
        if allowed >= amount {
            set_allowance(&mut self.allowances, from, &caller, allowed - amount);
            return true;
        }
        false
    }

    /// Moves `amount` from `from` to `to` under the authorization rules.
    pub fn transfer_from(
        &mut self,
        caller: ActorId,
        origin: ActorId,
        from: &ActorId,
        to: &ActorId,
        amount: u128,
    ) -> (r: Result<FTEvent, FTError>)
        requires
            old(self).wf(),
        ensures
            transfer_from_post(*old(self), *final(self), caller, origin, *from, *to, amount, r),
    {
        if from.is_zero() || to.is_zero() {
            return Err(FTError::ZeroAddress);
        }
        if !self.can_transfer(caller, origin, from, amount) {
            return Err(FTError::Unauthorized);
        }
        let from_bal = balance_lookup(&self.balances, from);
        if from_bal < amount {
            return Err(FTError::InsufficientBalance);
        }
        proof {
            lemma_balance_le_sum(old(self).balances@, *from);
        }
        set_balance(&mut self.balances, from, from_bal - amount);
        proof {
            lemma_balance_le_sum(self.balances@, *to);
        }
        let to_bal = balance_lookup(&self.balances, to);
        set_balance(&mut self.balances, to, to_bal.saturating_add(amount));
        Ok(FTEvent::Transfer { from: *from, to: *to, amount })
    }

    /// A transfer out of the caller's own account: always self-authorized.
    pub fn transfer(
        &mut self,
        caller: ActorId,
        origin: ActorId,
        to: &ActorId,
        amount: u128,
    ) -> (r: Result<FTEvent, FTError>)
        requires
            old(self).wf(),
        ensures
            transfer_from_post(*old(self), *final(self), caller, origin, caller, *to, amount, r),
    {
        let from = caller;
        self.transfer_from(caller, origin, &from, to, amount)
    }

    /// Sets what `spender` may move out of the caller's account, absolutely.
    pub fn approve(&mut self, caller: ActorId, spender: &ActorId, amount: u128) -> (r: Result<
        FTEvent,
        FTError,
    >)
        requires
            old(self).wf(),
        ensures
            approve_post(*old(self), *final(self), caller, *spender, amount, r),
    {
        if spender.is_zero() {
            return Err(FTError::ZeroAddress);
        }
        set_allowance(&mut self.allowances, &caller, spender, amount);
        Ok(FTEvent::Approve { from: caller, to: *spender, amount })
    }
}

impl Default for FungibleToken {
    /// The empty ledger: null owner, empty metadata, no balances, no
    /// allowances, zero supply.
    fn default() -> (r: FungibleToken)
        ensures
            r.wf(),
            r.owner == ActorId::null(),
            r.name@ == Seq::<char>::empty(),
            r.symbol@ == Seq::<char>::empty(),
            r.decimals == 0,
            r.total_supply == 0,
            r.balances@.len() == 0,
            r.allowances@.len() == 0,
            forall|a: ActorId| r.balance(a) == 0,
            forall|o: ActorId, sp: ActorId| r.allowance(o, sp) == 0,
    {
        FungibleToken {
            owner: ActorId::zero(),
            name: String::new(),
            symbol: String::new(),
            total_supply: 0,
            balances: Vec::new(),
            allowances: Vec::new(),
            decimals: 0,
        }
    }
}

} // verus!
