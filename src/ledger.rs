use vstd::prelude::*;

use crate::types::{Key, Transfer};

verus! {

/// `b` with `a` added to the balance of account `x`.
pub open spec fn bump(b: spec_fn(Key) -> int, x: Key, a: int) -> spec_fn(Key) -> int {
    |k: Key|
        if k == x {
            b(k) + a
        } else {
            b(k)
        }
}

/// Balances after transfer `t`: its amount leaves `t.from` and reaches `t.to`.
pub open spec fn apply_transfer(b: spec_fn(Key) -> int, t: Transfer) -> spec_fn(Key) -> int {
    bump(bump(b, t.from, -(t.amount as int)), t.to, t.amount as int)
}

/// Balances after the transfers of `plan`, in order.
pub open spec fn apply_plan(b: spec_fn(Key) -> int, plan: Seq<Transfer>) -> spec_fn(Key) -> int
    decreases plan.len(),
{
    if plan.len() == 0 {
        b
    } else {
        apply_plan(apply_transfer(b, plan[0]), plan.drop_first())
    }
}

/// Sum of the balances of `accounts`.
pub open spec fn total(b: spec_fn(Key) -> int, accounts: Seq<Key>) -> int
    decreases accounts.len(),
{
    if accounts.len() == 0 {
        0
    } else {
        total(b, accounts.drop_last()) + b(accounts.last())
    }
}

proof fn lemma_total_bump_absent(b: spec_fn(Key) -> int, x: Key, a: int, accounts: Seq<Key>)
    requires
        !accounts.contains(x),
    ensures
        total(bump(b, x, a), accounts) == total(b, accounts),
    decreases accounts.len(),
{
    if accounts.len() > 0 {
        assert(!accounts.drop_last().contains(x)) by {
            if accounts.drop_last().contains(x) {
                let j = choose|j: int| 0 <= j < accounts.drop_last().len() && accounts.drop_last()[j] == x;
                assert(accounts[j] == x);
            }
        }
        lemma_total_bump_absent(b, x, a, accounts.drop_last());
    }
}

proof fn lemma_total_bump(b: spec_fn(Key) -> int, x: Key, a: int, accounts: Seq<Key>)
    requires
        accounts.no_duplicates(),
        accounts.contains(x),
    ensures
        total(bump(b, x, a), accounts) == total(b, accounts) + a,
    decreases accounts.len(),
{
    let rest = accounts.drop_last();
    if accounts.last() == x {
        assert(!rest.contains(x)) by {
            if rest.contains(x) {
                let j = choose|j: int| 0 <= j < rest.len() && rest[j] == x;
                assert(accounts[j] == accounts[accounts.len() - 1]);
            }
        }
        lemma_total_bump_absent(b, x, a, rest);
    } else {
        let j = choose|j: int| 0 <= j < accounts.len() && accounts[j] == x;
        assert(rest[j] == x);
        assert(rest.no_duplicates());
        lemma_total_bump(b, x, a, rest);
    }
}

/// Conservation: a plan of transfers moves value between accounts and
/// neither creates nor destroys any. Over any list of distinct accounts that
/// holds both ends of every transfer of the plan (escrow accounts and the
/// parties' own), the sum of the balances after the plan equals the sum
/// before.
pub proof fn lemma_plan_conserves(b: spec_fn(Key) -> int, plan: Seq<Transfer>, accounts: Seq<Key>)
    requires
        accounts.no_duplicates(),
        forall|i: int|
            0 <= i < plan.len() ==> accounts.contains(#[trigger] plan[i].from) && accounts.contains(
                plan[i].to,
            ),
    ensures
        total(apply_plan(b, plan), accounts) == total(b, accounts),
    decreases plan.len(),
{
    if plan.len() > 0 {
        let t = plan[0];
        let b1 = bump(b, t.from, -(t.amount as int));
        lemma_total_bump(b, t.from, -(t.amount as int), accounts);
        lemma_total_bump(b1, t.to, t.amount as int, accounts);
        assert forall|i: int| 0 <= i < plan.drop_first().len() implies accounts.contains(
            #[trigger] plan.drop_first()[i].from,
        ) && accounts.contains(plan.drop_first()[i].to) by {
            assert(plan.drop_first()[i] == plan[i + 1]);
        }
        lemma_plan_conserves(apply_transfer(b, t), plan.drop_first(), accounts);
    }
}

/// Running two plans one after the other is running their concatenation, so
/// conservation carries over to any sequence of operations.
pub proof fn lemma_apply_plan_concat(b: spec_fn(Key) -> int, p1: Seq<Transfer>, p2: Seq<Transfer>)
    ensures
        apply_plan(b, p1 + p2) == apply_plan(apply_plan(b, p1), p2),
    decreases p1.len(),
{
    if p1.len() == 0 {
        assert(p1 + p2 =~= p2);
    } else {
        assert((p1 + p2).drop_first() =~= p1.drop_first() + p2);
        lemma_apply_plan_concat(apply_transfer(b, p1[0]), p1.drop_first(), p2);
    }
}

} // verus!
