//! How the Monte-Carlo sampling is shared out between worker threads.

use vstd::prelude::*;

verus! {

/// Points that worker `i` of `threads` draws when `total` are wanted: the
/// quotient, plus one for each of the first `total % threads` workers.
pub open spec fn share(total: nat, threads: nat, i: nat) -> nat {
    total / threads + (if i < total % threads {
        1nat
    } else {
        0nat
    })
}

/// Points drawn by workers `0..k` together.
pub open spec fn shares_below(total: nat, threads: nat, k: nat) -> nat
    decreases k,
{
    if k == 0 {
        0
    } else {
        shares_below(total, threads, (k - 1) as nat) + share(total, threads, (k - 1) as nat)
    }
}

/// The sum of all `v`.
pub open spec fn sum(v: Seq<usize>) -> nat
    decreases v.len(),
{
    if v.len() == 0 {
        0
    } else {
        sum(v.drop_last()) + v.last() as nat
    }
}

/// Workers `0..k` draw `k` quotients and one extra point each for the first
/// `min(k, total % threads)` of them.
pub proof fn lemma_shares_below(total: nat, threads: nat, k: nat)
    requires
        threads > 0,
    ensures
        shares_below(total, threads, k) == k * (total / threads) + (if k < total % threads {
            k
        } else {
            total % threads
        }),
    decreases k,
{
    if k == 0 {
        assert(k * (total / threads) == 0);
    } else {
        let j = (k - 1) as nat;
        let q = total / threads;
        lemma_shares_below(total, threads, j);
        assert(k * q == j * q + q) by (nonlinear_arith)
            requires
                k == j + 1,
        ;
        assert(shares_below(total, threads, k) == shares_below(total, threads, j) + share(
            total,
            threads,
            j,
        ));
        let r = total % threads;
        if j < r {
            assert(shares_below(total, threads, j) == j * q + j);
        } else {
            assert(shares_below(total, threads, j) == j * q + r);
        }
    }
}

/// The shares of all workers add up to exactly the number of points wanted.
pub proof fn lemma_shares_cover_total(total: nat, threads: nat)
    requires
        threads > 0,
    ensures
        shares_below(total, threads, threads) == total,
{
    lemma_shares_below(total, threads, threads);
    vstd::arithmetic::div_mod::lemma_fundamental_div_mod(total as int, threads as int);
    vstd::arithmetic::div_mod::lemma_mod_bound(total as int, threads as int);
}

/// Points that worker `i` draws out of `total` shared by `threads` workers.
pub fn thread_share(total: usize, threads: usize, i: usize) -> (r: usize)
    requires
        threads > 0,
    ensures
        r == share(total as nat, threads as nat, i as nat),
{
    // A remainder needs two workers or more, so the quotient leaves room for one more.
    assert(total / threads + 1 <= usize::MAX || total % threads == 0) by (nonlinear_arith)
        requires
            threads > 0,
    ;
    if i < total % threads {
        total / threads + 1
    } else {
        total / threads
    }
}

/// The share of each of the `threads` workers, in worker order: they add up
/// to `total` and differ by at most one.
pub fn split_work(total: usize, threads: usize) -> (v: Vec<usize>)
    requires
        threads > 0,
    ensures
        v.len() == threads,
        forall|i: int| 0 <= i < threads ==> v[i] == share(total as nat, threads as nat, i as nat),
        sum(v@) == total,
{
    let mut v: Vec<usize> = Vec::new();
    let mut i: usize = 0;
    while i < threads
        invariant
            threads > 0,
            i <= threads,
            v.len() == i,
            forall|j: int| 0 <= j < i ==> v[j] == share(total as nat, threads as nat, j as nat),
            sum(v@) == shares_below(total as nat, threads as nat, i as nat),
        decreases threads - i,
    {
        let s = thread_share(total, threads, i);
        let ghost before = v@;
        v.push(s);
        assert(v@.drop_last() =~= before);
        i = i + 1;
    }
    proof {
        lemma_shares_cover_total(total as nat, threads as nat);
    }
    v
}


// ── One worker's rejection-sampling loop ─────────────────────────────────────

/// The count a worker keeps while it draws: its share `target`, the points
/// kept so far and the attempts made. The worker stops once it has its share
/// or has made `300 · target` attempts.
#[derive(Clone, Copy, Debug, PartialEq, Eq, Structural)]
pub struct Draws {
    pub target: usize,
    pub kept: usize,
    pub attempts: usize,
}

impl Draws {
    /// The attempt budget fits in a `usize`, and neither count has passed
    /// its bound.
    pub open spec fn wf(self) -> bool {
        &&& self.target * 300 <= usize::MAX
        &&& self.kept <= self.target
        &&& self.attempts <= self.target * 300
        &&& self.kept <= self.attempts
    }

    /// Whether the worker draws again: it has fewer points than its share
    /// and attempts left.
    pub open spec fn spec_wants_more(self) -> bool {
        self.kept < self.target && self.attempts < self.target * 300
    }

    /// A worker that has drawn nothing yet. `300 · target` must fit in a
    /// `usize`.
    pub fn new(target: usize) -> (d: Draws)
        requires
            target * 300 <= usize::MAX,
        ensures
            d == (Draws { target, kept: 0, attempts: 0 }),
            d.wf(),
    {
        Draws { target, kept: 0, attempts: 0 }
    }

    /// Whether the worker draws another point.
    pub fn wants_more(&self) -> (b: bool)
        requires
            self.wf(),
        ensures
            b == self.spec_wants_more(),
            b ==> self.kept < self.target && self.attempts < 300 * self.target,
            !b ==> self.kept >= self.target || self.attempts >= 300 * self.target,
    {
        self.kept < self.target && self.attempts < self.target * 300
    }

    /// Counts one attempt, and the point if it was accepted.
    pub fn record(&mut self, accepted: bool)
        requires
            old(self).wf(),
            old(self).spec_wants_more(),
        ensures
            *final(self) == (Draws {
                target: old(self).target,
                kept: if accepted {
                    (old(self).kept + 1) as usize
                } else {
                    old(self).kept
                },
                attempts: (old(self).attempts + 1) as usize,
            }),
            final(self).wf(),
    {
        self.attempts = self.attempts + 1;
        if accepted {
            self.kept = self.kept + 1;
        }
    }
}

/// A worker draws again exactly while it lacks part of its share and has not
/// used its fixed budget of `300 · target` attempts: it stops only with its
/// whole share or with the whole budget spent.
pub proof fn lemma_draws_stop_only_when_done(d: Draws)
    ensures
        d.spec_wants_more() <==> (d.kept < d.target && d.attempts < 300 * d.target),
{
}

/// A worker that keeps drawing reaches its whole share unless it spends the
/// whole budget: each accepted draw adds one kept point and each draw one
/// attempt, and the loop goes on while both bounds are unmet.
pub proof fn lemma_record_progress(d: Draws, accepted: bool)
    requires
        d.wf(),
        d.kept < d.target,
        d.attempts < 300 * d.target,
    ensures
        d.spec_wants_more(),
{
}

/// Workers that keep at most their shares keep at most `total` points in all.
pub proof fn lemma_kept_within_total(kept: Seq<usize>, shares: Seq<usize>)
    requires
        kept.len() == shares.len(),
        forall|i: int| 0 <= i < kept.len() ==> kept[i] <= shares[i],
    ensures
        sum(kept) <= sum(shares),
    decreases kept.len(),
{
    if kept.len() > 0 {
        lemma_kept_within_total(kept.drop_last(), shares.drop_last());
    }
}

} // verus!
