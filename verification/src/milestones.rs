use vstd::prelude::*;

use crate::types::{Milestone, MAINNET_MAX_TOTAL_ESCROW_PER_CONTRACT_STROOPS};

verus! {

/// Sum of a sequence of amounts.
pub open spec fn amount_sum(s: Seq<i128>) -> int
    decreases s.len(),
{
    if s.len() == 0 {
        0
    } else {
        amount_sum(s.drop_last()) + s.last()
    }
}

/// Sum of `f` over the milestones of `ms`.
pub open spec fn sum_of(ms: Seq<Milestone>, f: spec_fn(Milestone) -> int) -> int
    decreases ms.len(),
{
    if ms.len() == 0 {
        0
    } else {
        sum_of(ms.drop_last(), f) + f(ms.last())
    }
}

/// What a milestone is worth.
pub open spec fn by_amount() -> spec_fn(Milestone) -> int {
    |m: Milestone| m.amount as int
}

/// What has been set aside for a milestone.
pub open spec fn by_funding() -> spec_fn(Milestone) -> int {
    |m: Milestone| m.funded as int
}

/// What a milestone has paid out: its amount once released, nothing before.
pub open spec fn by_release() -> spec_fn(Milestone) -> int {
    |m: Milestone|
        if m.released {
            m.amount as int
        } else {
            0int
        }
}

/// The milestone that a freshly created agreement holds for `amount`.
pub open spec fn fresh_milestone(amount: i128) -> Milestone {
    Milestone { amount, funded: 0, released: false, work_evidence: None }
}

pub open spec fn fresh_milestones(amounts: Seq<i128>) -> Seq<Milestone> {
    amounts.map_values(|a: i128| fresh_milestone(a))
}

pub proof fn lemma_amount_sum_take_step(s: Seq<i128>, k: int)
    requires
        0 <= k < s.len(),
    ensures
        amount_sum(s.take(k + 1)) == amount_sum(s.take(k)) + s[k],
{
    assert(s.take(k + 1).drop_last() =~= s.take(k));
}

pub proof fn lemma_sum_of_take_step(ms: Seq<Milestone>, f: spec_fn(Milestone) -> int, k: int)
    requires
        0 <= k < ms.len(),
    ensures
        sum_of(ms.take(k + 1), f) == sum_of(ms.take(k), f) + f(ms[k]),
{
    assert(ms.take(k + 1).drop_last() =~= ms.take(k));
}

/// Replacing one milestone changes the sum by the difference of the two terms.
pub proof fn lemma_sum_of_update(ms: Seq<Milestone>, f: spec_fn(Milestone) -> int, i: int, m: Milestone)
    requires
        0 <= i < ms.len(),
    ensures
        sum_of(ms.update(i, m), f) == sum_of(ms, f) - f(ms[i]) + f(m),
    decreases ms.len(),
{
    let n = ms.update(i, m);
    if i == ms.len() - 1 {
        assert(n.drop_last() =~= ms.drop_last());
    } else {
        assert(n.drop_last() =~= ms.drop_last().update(i, m));
        lemma_sum_of_update(ms.drop_last(), f, i, m);
    }
}

/// A sum of terms that each lie below the matching terms of another sum lies below it.
pub proof fn lemma_sum_of_le(ms: Seq<Milestone>, f: spec_fn(Milestone) -> int, g: spec_fn(Milestone) -> int)
    requires
        forall|j: int| 0 <= j < ms.len() ==> f(#[trigger] ms[j]) <= g(ms[j]),
    ensures
        sum_of(ms, f) <= sum_of(ms, g),
    decreases ms.len(),
{
    if ms.len() > 0 {
        let p = ms.drop_last();
        assert forall|j: int| 0 <= j < p.len() implies f(#[trigger] p[j]) <= g(p[j]) by {
            assert(p[j] == ms[j]);
        }
        lemma_sum_of_le(p, f, g);
        assert(f(ms[ms.len() - 1]) <= g(ms[ms.len() - 1]));
    }
}

/// A sum of terms that are all zero is zero.
pub proof fn lemma_sum_of_zero(ms: Seq<Milestone>, f: spec_fn(Milestone) -> int)
    requires
        forall|j: int| 0 <= j < ms.len() ==> f(#[trigger] ms[j]) == 0,
    ensures
        sum_of(ms, f) == 0,
    decreases ms.len(),
{
    if ms.len() > 0 {
        let p = ms.drop_last();
        assert forall|j: int| 0 <= j < p.len() implies f(#[trigger] p[j]) == 0 by {
            assert(p[j] == ms[j]);
        }
        lemma_sum_of_zero(p, f);
        assert(f(ms[ms.len() - 1]) == 0);
    }
}

/// With terms that are never negative, a prefix sums to no more than the whole.
pub proof fn lemma_sum_of_prefix_le(ms: Seq<Milestone>, f: spec_fn(Milestone) -> int, k: int)
    requires
        0 <= k <= ms.len(),
        forall|j: int| 0 <= j < ms.len() ==> f(#[trigger] ms[j]) >= 0,
    ensures
        0 <= sum_of(ms.take(k), f) <= sum_of(ms, f),
    decreases ms.len() - k,
{
    if k == ms.len() {
        assert(ms.take(k) =~= ms);
        lemma_sum_of_nonneg(ms, f);
    } else {
        lemma_sum_of_take_step(ms, f, k);
        assert(f(ms[k]) >= 0);
        lemma_sum_of_prefix_le(ms, f, k + 1);
        let p = ms.take(k);
        assert forall|j: int| 0 <= j < p.len() implies f(#[trigger] p[j]) >= 0 by {
            assert(p[j] == ms[j]);
        }
        lemma_sum_of_nonneg(p, f);
    }
}

pub proof fn lemma_sum_of_nonneg(ms: Seq<Milestone>, f: spec_fn(Milestone) -> int)
    requires
        forall|j: int| 0 <= j < ms.len() ==> f(#[trigger] ms[j]) >= 0,
    ensures
        sum_of(ms, f) >= 0,
    decreases ms.len(),
{
    if ms.len() > 0 {
        let p = ms.drop_last();
        assert forall|j: int| 0 <= j < p.len() implies f(#[trigger] p[j]) >= 0 by {
            assert(p[j] == ms[j]);
        }
        lemma_sum_of_nonneg(p, f);
        assert(f(ms[ms.len() - 1]) >= 0);
    }
}

/// With positive amounts, a prefix sums to no more than the whole.
pub proof fn lemma_amount_sum_prefix_le(s: Seq<i128>, k: int)
    requires
        0 <= k <= s.len(),
        forall|j: int| 0 <= j < s.len() ==> #[trigger] s[j] >= 0,
    ensures
        amount_sum(s.take(k)) <= amount_sum(s),
    decreases s.len() - k,
{
    if k == s.len() {
        assert(s.take(k) =~= s);
    } else {
        lemma_amount_sum_take_step(s, k);
        lemma_amount_sum_prefix_le(s, k + 1);
    }
}

/// The milestones created for some amounts are worth those amounts together.
pub proof fn lemma_fresh_milestones_sum(amounts: Seq<i128>)
    ensures
        sum_of(fresh_milestones(amounts), by_amount()) == amount_sum(amounts),
    decreases amounts.len(),
{
    if amounts.len() > 0 {
        assert(fresh_milestones(amounts).drop_last() =~= fresh_milestones(amounts.drop_last()));
        lemma_fresh_milestones_sum(amounts.drop_last());
    }
}


/// A milestone on its own is consistent: it is worth something, what is set
/// aside for it lies between nothing and its worth, and once paid out it was
/// fully funded.
pub open spec fn milestone_wf(m: Milestone) -> bool {
    &&& m.amount > 0
    &&& 0 <= m.funded <= m.amount
    &&& m.released ==> m.funded == m.amount
}

pub open spec fn all_milestones_wf(ms: Seq<Milestone>) -> bool {
    forall|i: int| 0 <= i < ms.len() ==> milestone_wf(#[trigger] ms[i])
}

pub open spec fn all_released(ms: Seq<Milestone>) -> bool {
    forall|i: int| 0 <= i < ms.len() ==> (#[trigger] ms[i]).released
}

pub open spec fn some_below(amounts: Seq<i128>, minimum: i128) -> bool {
    exists|i: int| 0 <= i < amounts.len() && #[trigger] amounts[i] < minimum
}

/// Whether some amount lies below `minimum`.
pub fn has_amount_below(amounts: &Vec<i128>, minimum: i128) -> (r: bool)
    ensures
        r == some_below(amounts@, minimum),
{
    let n = amounts.len();
    let mut i: usize = 0;
    while i < n
        invariant
            n == amounts@.len(),
            i <= n,
            forall|j: int| 0 <= j < i ==> amounts@[j] >= minimum,
        decreases n - i,
    {
        if amounts[i] < minimum {
            assert(amounts@[i as int] < minimum);
            return true;
        }
        i = i + 1;
    }
    false
}

/// The total of some positive amounts, when it stays within the per-agreement
/// cap; `None` when it goes beyond.
pub fn capped_total(amounts: &Vec<i128>) -> (r: Option<i128>)
    requires
        forall|j: int| 0 <= j < amounts@.len() ==> #[trigger] amounts@[j] > 0,
    ensures
        match r {
            Some(t) => t == amount_sum(amounts@) && 0 <= t <= MAINNET_MAX_TOTAL_ESCROW_PER_CONTRACT_STROOPS,
            None => amount_sum(amounts@) > MAINNET_MAX_TOTAL_ESCROW_PER_CONTRACT_STROOPS,
        },
{
    let n = amounts.len();
    let mut total: i128 = 0;
    let mut i: usize = 0;
    while i < n
        invariant
            n == amounts@.len(),
            i <= n,
            forall|j: int| 0 <= j < amounts@.len() ==> #[trigger] amounts@[j] > 0,
            total == amount_sum(amounts@.take(i as int)),
            0 <= total <= MAINNET_MAX_TOTAL_ESCROW_PER_CONTRACT_STROOPS,
        decreases n - i,
    {
        let a = amounts[i];
        proof {
            lemma_amount_sum_take_step(amounts@, i as int);
        }
        if a > MAINNET_MAX_TOTAL_ESCROW_PER_CONTRACT_STROOPS - total {
            proof {
                lemma_amount_sum_prefix_le(amounts@, i + 1);
            }
            return None;
        }
        total = total + a;
        i = i + 1;
    }
    assert(amounts@.take(n as int) =~= amounts@);
    Some(total)
}

/// The milestones of a new agreement: one per amount, nothing set aside and
/// nothing paid out.
pub fn fresh_milestone_list(amounts: &Vec<i128>) -> (r: Vec<Milestone>)
    ensures
        r@ == fresh_milestones(amounts@),
{
    let n = amounts.len();
    let mut r: Vec<Milestone> = Vec::new();
    let mut i: usize = 0;
    while i < n
        invariant
            n == amounts@.len(),
            i <= n,
            r@ == fresh_milestones(amounts@.take(i as int)),
        decreases n - i,
    {
        r.push(Milestone { amount: amounts[i], funded: 0, released: false, work_evidence: None });
        i = i + 1;
        assert(r@ =~= fresh_milestones(amounts@.take(i as int)));
    }
    assert(amounts@.take(n as int) =~= amounts@);
    r
}

/// What has been set aside across all milestones.
pub fn allocated_total(ms: &Vec<Milestone>) -> (r: i128)
    requires
        all_milestones_wf(ms@),
        sum_of(ms@, by_amount()) <= MAINNET_MAX_TOTAL_ESCROW_PER_CONTRACT_STROOPS,
    ensures
        r == sum_of(ms@, by_funding()),
        r >= 0,
{
    proof {
        assert forall|j: int| 0 <= j < ms@.len() implies by_funding()(#[trigger] ms@[j]) <= by_amount()(
            ms@[j],
        ) by {
            assert(milestone_wf(ms@[j]));
        }
        lemma_sum_of_le(ms@, by_funding(), by_amount());
        assert forall|j: int| 0 <= j < ms@.len() implies by_funding()(#[trigger] ms@[j]) >= 0 by {
            assert(milestone_wf(ms@[j]));
        }
    }
    let n = ms.len();
    let mut total: i128 = 0;
    let mut i: usize = 0;
    while i < n
        invariant
            n == ms@.len(),
            i <= n,
            forall|j: int| 0 <= j < ms@.len() ==> by_funding()(#[trigger] ms@[j]) >= 0,
            sum_of(ms@, by_funding()) <= MAINNET_MAX_TOTAL_ESCROW_PER_CONTRACT_STROOPS,
            total == sum_of(ms@.take(i as int), by_funding()),
            total >= 0,
        decreases n - i,
    {
        proof {
            lemma_sum_of_take_step(ms@, by_funding(), i as int);
            lemma_sum_of_prefix_le(ms@, by_funding(), i + 1);
        }
        total = total + ms[i].funded;
        i = i + 1;
    }
    assert(ms@.take(n as int) =~= ms@);
    total
}

/// Whether every milestone has been paid out.
pub fn every_milestone_released(ms: &Vec<Milestone>) -> (r: bool)
    ensures
        r == all_released(ms@),
{
    let n = ms.len();
    let mut i: usize = 0;
    while i < n
        invariant
            n == ms@.len(),
            i <= n,
            forall|j: int| 0 <= j < i ==> (#[trigger] ms@[j]).released,
        decreases n - i,
    {
        if !ms[i].released {
            assert(!ms@[i as int].released);
            return false;
        }
        i = i + 1;
    }
    true
}

/// Whether every milestone is consistent on its own.
pub fn milestones_consistent(ms: &Vec<Milestone>) -> (r: bool)
    ensures
        r == all_milestones_wf(ms@),
{
    let n = ms.len();
    let mut i: usize = 0;
    while i < n
        invariant
            n == ms@.len(),
            i <= n,
            forall|j: int| 0 <= j < i ==> milestone_wf(#[trigger] ms@[j]),
        decreases n - i,
    {
        let m = &ms[i];
        if !(m.amount > 0 && 0 <= m.funded && m.funded <= m.amount && (!m.released || m.funded
            == m.amount)) {
            assert(!milestone_wf(ms@[i as int]));
            return false;
        }
        i = i + 1;
    }
    true
}

/// What the milestones are worth together, when it stays within the
/// per-agreement cap; `None` when it goes beyond.
pub fn capped_worth(ms: &Vec<Milestone>) -> (r: Option<i128>)
    requires
        all_milestones_wf(ms@),
    ensures
        match r {
            Some(t) => t == sum_of(ms@, by_amount()) && 0 <= t <= MAINNET_MAX_TOTAL_ESCROW_PER_CONTRACT_STROOPS,
            None => sum_of(ms@, by_amount()) > MAINNET_MAX_TOTAL_ESCROW_PER_CONTRACT_STROOPS,
        },
{
    proof {
        assert forall|j: int| 0 <= j < ms@.len() implies by_amount()(#[trigger] ms@[j]) >= 0 by {
            assert(milestone_wf(ms@[j]));
        }
    }
    let n = ms.len();
    let mut total: i128 = 0;
    let mut i: usize = 0;
    while i < n
        invariant
            n == ms@.len(),
            i <= n,
            all_milestones_wf(ms@),
            forall|j: int| 0 <= j < ms@.len() ==> by_amount()(#[trigger] ms@[j]) >= 0,
            total == sum_of(ms@.take(i as int), by_amount()),
            0 <= total <= MAINNET_MAX_TOTAL_ESCROW_PER_CONTRACT_STROOPS,
        decreases n - i,
    {
        let a = ms[i].amount;
        proof {
            assert(milestone_wf(ms@[i as int]));
            lemma_sum_of_take_step(ms@, by_amount(), i as int);
        }
        if a > MAINNET_MAX_TOTAL_ESCROW_PER_CONTRACT_STROOPS - total {
            proof {
                lemma_sum_of_prefix_le(ms@, by_amount(), i + 1);
            }
            return None;
        }
        total = total + a;
        i = i + 1;
    }
    assert(ms@.take(n as int) =~= ms@);
    Some(total)
}

/// What the released milestones are worth together.
pub fn released_total(ms: &Vec<Milestone>) -> (r: i128)
    requires
        all_milestones_wf(ms@),
        sum_of(ms@, by_amount()) <= MAINNET_MAX_TOTAL_ESCROW_PER_CONTRACT_STROOPS,
    ensures
        r == sum_of(ms@, by_release()),
{
    proof {
        assert forall|j: int| 0 <= j < ms@.len() implies by_release()(#[trigger] ms@[j]) <= by_amount()(
            ms@[j],
        ) by {
            assert(milestone_wf(ms@[j]));
        }
        lemma_sum_of_le(ms@, by_release(), by_amount());
        assert forall|j: int| 0 <= j < ms@.len() implies by_release()(#[trigger] ms@[j]) >= 0 by {
            assert(milestone_wf(ms@[j]));
        }
    }
    let n = ms.len();
    let mut total: i128 = 0;
    let mut i: usize = 0;
    while i < n
        invariant
            n == ms@.len(),
            i <= n,
            forall|j: int| 0 <= j < ms@.len() ==> by_release()(#[trigger] ms@[j]) >= 0,
            sum_of(ms@, by_release()) <= MAINNET_MAX_TOTAL_ESCROW_PER_CONTRACT_STROOPS,
            total == sum_of(ms@.take(i as int), by_release()),
            total >= 0,
        decreases n - i,
    {
        proof {
            lemma_sum_of_take_step(ms@, by_release(), i as int);
            lemma_sum_of_prefix_le(ms@, by_release(), i + 1);
        }
        if ms[i].released {
            total = total + ms[i].amount;
        }
        i = i + 1;
    }
    assert(ms@.take(n as int) =~= ms@);
    total
}

} // verus!
