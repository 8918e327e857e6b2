//! The factorial, computed exactly on machine integers.

use vstd::prelude::*;

verus! {

/// `n!` as a mathematical natural number.
pub open spec fn fact(n: nat) -> nat
    decreases n,
{
    if n == 0 {
        1
    } else {
        n * fact((n - 1) as nat)
    }
}

/// Every factorial is at least one.
pub proof fn lemma_fact_positive(n: nat)
    ensures
        fact(n) >= 1,
    decreases n,
{
    if n > 0 {
        lemma_fact_positive((n - 1) as nat);
        assert(n * fact((n - 1) as nat) >= 1) by (nonlinear_arith)
            requires
                n >= 1,
                fact((n - 1) as nat) >= 1,
        ;
    }
}

/// The factorial never decreases: `i <= j` implies `i! <= j!`.
pub proof fn lemma_fact_monotone(i: nat, j: nat)
    requires
        i <= j,
    ensures
        fact(i) <= fact(j),
    decreases j - i,
{
    if i < j {
        lemma_fact_monotone(i, (j - 1) as nat);
        lemma_fact_positive((j - 1) as nat);
        assert(fact((j - 1) as nat) <= j * fact((j - 1) as nat)) by (nonlinear_arith)
            requires
                j >= 1,
                fact((j - 1) as nat) >= 1,
        ;
    }
}

/// `n!` when it fits in a `u128` (every `n` up to 34), `None` exactly when
/// it does not.
pub fn factorial(n: u32) -> (r: Option<u128>)
    ensures
        match r {
            Some(v) => v as nat == fact(n as nat),
            None => fact(n as nat) > u128::MAX,
        },
{
    let mut acc: u128 = 1;
    let mut i: u32 = 0;
    while i < n
        invariant
            i <= n,
            acc as nat == fact(i as nat),
        decreases n - i,
    {
        i = i + 1;
        assert(fact(i as nat) == acc * i) by (nonlinear_arith)
            requires
                fact(i as nat) == i * fact((i - 1) as nat),
                acc == fact((i - 1) as nat),
        ;
        match acc.checked_mul(i as u128) {
            Some(v) => {
                acc = v;
            },
            None => {
                proof {
                    lemma_fact_monotone(i as nat, n as nat);
                }
                return None;
            },
        }
    }
    Some(acc)
}


/// The product of a sequence of factors.
pub open spec fn product(s: Seq<u64>) -> nat
    decreases s.len(),
{
    if s.len() == 0 {
        1
    } else {
        product(s.drop_last()) * s.last() as nat
    }
}

/// The `len` consecutive factors `lo, lo + 1, ..., lo + len − 1`.
pub open spec fn run(lo: nat, len: nat) -> Seq<u64> {
    Seq::new(len, |i: int| (lo + i) as u64)
}

/// `(lo − 1 + len)! = (lo − 1)! · lo · (lo + 1) ⋯ (lo − 1 + len)`.
pub proof fn lemma_fact_run(lo: nat, len: nat)
    requires
        lo >= 1,
        lo + len <= u64::MAX + 1,
    ensures
        fact((lo - 1 + len) as nat) == fact((lo - 1) as nat) * product(run(lo, len)),
    decreases len,
{
    if len == 0 {
        assert(run(lo, 0) =~= Seq::<u64>::empty());
        assert(product(run(lo, 0)) == 1);
    } else {
        let k = (len - 1) as nat;
        lemma_fact_run(lo, k);
        assert(run(lo, len).drop_last() =~= run(lo, k));
        let top = (lo - 1 + len) as nat;
        assert(run(lo, len).last() as nat == top);
        let p = product(run(lo, k));
        let f = fact((lo - 1) as nat);
        assert(fact(top) == top * fact((lo - 1 + k) as nat));
        assert(product(run(lo, len)) == p * top);
        assert(top * (f * p) == f * (p * top)) by (nonlinear_arith);
        assert(fact(top) == f * product(run(lo, len)));
    }
}

/// Product of two sequences of factors placed one after the other.
pub proof fn lemma_product_concat(a: Seq<u64>, b: Seq<u64>)
    ensures
        product(a + b) == product(a) * product(b),
    decreases b.len(),
{
    if b.len() == 0 {
        assert(a + b =~= a);
        assert(product(b) == 1);
    } else {
        lemma_product_concat(a, b.drop_last());
        assert((a + b).drop_last() =~= a + b.drop_last());
        let pa = product(a);
        let pb = product(b.drop_last());
        let x = b.last() as nat;
        assert((a + b).last() == b.last());
        assert(product(a + b) == product(a + b.drop_last()) * x);
        assert(product(b) == pb * x);
        assert((pa * pb) * x == pa * (pb * x)) by (nonlinear_arith);
        assert(product(a + b) == product(a) * product(b));
    }
}

} // verus!
