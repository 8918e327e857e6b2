//! Quantum numbers of a hydrogen eigenstate and the exact, integer parts of
//! what is derived from them: normalisation constants as exact fractions,
//! node counts, degeneracy and the mean radius.

use vstd::prelude::*;
use vstd::relations::injective_on;
use vstd::set_lib::*;

use crate::factorial::{fact, lemma_fact_run, lemma_product_concat, product, run};

verus! {

/// `(n, l, m)` names a bound state: `n >= 1`, `0 <= l < n`, `-l <= m <= l`.
pub open spec fn valid_numbers(n: int, l: int, m: int) -> bool {
    &&& n >= 1
    &&& 0 <= l < n
    &&& -l <= m <= l
}

/// `|m|` as a natural number.
pub open spec fn abs_nat(m: int) -> nat {
    if m >= 0 {
        m as nat
    } else {
        (-m) as nat
    }
}

/// An exact fraction kept as its factors: the product of `num` over the
/// product of `den`.
#[derive(Debug)]
pub struct Factors {
    pub num: Vec<u64>,
    pub den: Vec<u64>,
}

/// Appends the `len` consecutive factors `lo, lo + 1, ..., lo + len − 1`.
pub fn push_run(v: &mut Vec<u64>, lo: u64, len: u64)
    requires
        lo + len <= u64::MAX,
    ensures
        final(v)@ == old(v)@ + run(lo as nat, len as nat),
{
    let ghost start = v@;
    let mut k: u64 = 0;
    while k < len
        invariant
            k <= len,
            lo + len <= u64::MAX,
            v@ == start + run(lo as nat, k as nat),
        decreases len - k,
    {
        v.push(lo + k);
        k = k + 1;
        assert(v@ =~= start + run(lo as nat, k as nat));
    }
}

/// The eigenstate `ψ_{nlm}`, or with `real_form` its real combination
/// `(ψ_{l,m} ± ψ_{l,−m})/√2` (the chemists' `p_x`, `d_xy`, ... lobes).
#[derive(Clone, Copy, Debug, PartialEq, Eq, Structural)]
pub struct Orbital {
    pub n: u32,
    pub l: i32,
    pub m: i32,
    pub m_abs: u32,
    pub real_form: bool,
}

impl Orbital {
    /// The quantum numbers are those of a bound state and `m_abs` is `|m|`.
    pub open spec fn wf(self) -> bool {
        &&& valid_numbers(self.n as int, self.l as int, self.m as int)
        &&& self.m_abs as nat == abs_nat(self.m as int)
    }

    /// The eigenstate with quantum numbers `(n, l, m)`.
    pub fn new(n: u32, l: i32, m: i32, real_form: bool) -> (o: Orbital)
        requires
            valid_numbers(n as int, l as int, m as int),
        ensures
            o.wf(),
            o.n == n,
            o.l == l,
            o.m == m,
            o.real_form == real_form,
    {
        let m_abs: u32 = if m >= 0 {
            m as u32
        } else {
            (-m) as u32
        };
        Orbital { n, l, m, m_abs, real_form }
    }

    /// Radial nodes of `R_{nl}`: `n − l − 1`.
    pub fn radial_nodes(&self) -> (k: u32)
        requires
            self.wf(),
        ensures
            k == self.n - self.l - 1,
    {
        self.n - self.l as u32 - 1
    }

    /// Nodal cones of the angular part: `l − |m|`.
    pub fn nodal_cones(&self) -> (k: u32)
        requires
            self.wf(),
        ensures
            k == self.l - self.m_abs,
    {
        self.l as u32 - self.m_abs
    }

    /// Nodal planes through the `z` axis: `|m|` for the real form with
    /// `m != 0` (the `cos`/`sin` of `|m|φ` vanishes on them), none otherwise.
    pub fn nodal_planes(&self) -> (k: u32)
        requires
            self.wf(),
        ensures
            k == (if self.real_form && self.m != 0 {
                self.m_abs
            } else {
                0
            }),
    {
        if self.real_form && self.m != 0 {
            self.m_abs
        } else {
            0
        }
    }

    /// Twice the mean radius in Bohr radii: `2⟨r⟩ = 3n² − l(l+1)`, always
    /// positive. `n²` must fit in a `u32` and `l(l+1)` in an `i32`.
    pub fn mean_radius_doubled(&self) -> (r: u64)
        requires
            self.wf(),
            self.n * self.n <= u32::MAX,
            self.l * (self.l + 1) <= i32::MAX,
        ensures
            r == 3 * self.n * self.n - self.l * (self.l + 1),
            r >= 2 * self.n * self.n + self.n,
    {
        let n2: u32 = self.n * self.n;
        assert(self.l + 1 <= i32::MAX) by (nonlinear_arith)
            requires
                0 <= self.l,
                self.l * (self.l + 1) <= i32::MAX,
        ;
        let ll: i32 = self.l * (self.l + 1);
        assert(3 * self.n * self.n == 3 * n2 && 2 * self.n * self.n == 2 * n2) by (nonlinear_arith)
            requires
                n2 == self.n * self.n,
        ;
        assert(ll <= (n2 as int) - (self.n as int)) by (nonlinear_arith)
            requires
                0 <= self.l < self.n,
                ll == self.l * (self.l + 1),
                n2 == self.n * self.n,
        ;
        3 * (n2 as u64) - (ll as u64)
    }

    /// Square of the radial normalisation of `R_{nl}`,
    /// `(2/n)³ (n−l−1)! / (2n (n+l)!) = 4 (n−l−1)! / (n⁴ (n+l)!)`, exactly, as
    /// the fraction `4 / (n · n · n · n · (n−l) (n−l+1) ⋯ (n+l))`.
    pub fn radial_norm_sq(&self) -> (r: Factors)
        requires
            self.wf(),
        ensures
            r.num@ == seq![4u64],
            r.den@ == seq![self.n as u64, self.n as u64, self.n as u64, self.n as u64] + run(
                (self.n - self.l) as nat,
                (2 * self.l + 1) as nat,
            ),
            product(r.num@) * (self.n * self.n * self.n * self.n * fact((self.n + self.l) as nat))
                == product(r.den@) * (4 * fact((self.n - self.l - 1) as nat)),
    {
        let n: u64 = self.n as u64;
        let lu: u64 = self.l as u64;
        let mut num: Vec<u64> = Vec::new();
        num.push(4);
        let mut den: Vec<u64> = Vec::new();
        den.push(n);
        den.push(n);
        den.push(n);
        den.push(n);
        let ghost head = den@;
        push_run(&mut den, n - lu, 2 * lu + 1);
        proof {
            let lo = (n - lu) as nat;
            let len = (2 * lu + 1) as nat;
            let nn = n as nat;
            reveal_with_fuel(product, 5);
            assert(product(head) == nn * nn * nn * nn);
            assert(product(num@) == 4);
            lemma_product_concat(head, run(lo, len));
            lemma_fact_run(lo, len);
            assert((lo - 1 + len) as nat == (self.n + self.l) as nat);
            let p = product(run(lo, len));
            let f = fact((lo - 1) as nat);
            let n4 = nn * nn * nn * nn;
            assert(4 * (n4 * (f * p)) == (n4 * p) * (4 * f)) by (nonlinear_arith);
        }
        Factors { num, den }
    }

    /// Square of the angular normalisation of `Y_l^m` without its `1/(4π)`
    /// factor, `(2l+1) (l−|m|)! / (l+|m|)!`, exactly, as the fraction
    /// `(2l+1) / ((l−|m|+1) (l−|m|+2) ⋯ (l+|m|))`.
    pub fn angular_norm_sq(&self) -> (r: Factors)
        requires
            self.wf(),
        ensures
            r.num@ == seq![(2 * self.l + 1) as u64],
            r.den@ == run((self.l - self.m_abs + 1) as nat, (2 * self.m_abs) as nat),
            product(r.num@) * fact((self.l + self.m_abs) as nat) == product(r.den@) * ((2
                * self.l + 1) * fact((self.l - self.m_abs) as nat)),
    {
        let lu: u64 = self.l as u64;
        let ma: u64 = self.m_abs as u64;
        let mut num: Vec<u64> = Vec::new();
        num.push(2 * lu + 1);
        let mut den: Vec<u64> = Vec::new();
        push_run(&mut den, lu - ma + 1, 2 * ma);
        proof {
            let lo = (lu - ma + 1) as nat;
            let len = (2 * ma) as nat;
            reveal_with_fuel(product, 2);
            assert(den@ =~= run(lo, len));
            assert(num@.drop_last() =~= Seq::<u64>::empty());
            assert(product(num@.drop_last()) == 1);
            assert(num@.last() == 2 * lu + 1);
            assert(product(num@) == product(num@.drop_last()) * (num@.last() as nat));
            assert(product(num@) == 2 * lu + 1);
            lemma_fact_run(lo, len);
            assert((lo - 1 + len) as nat == (self.l + self.m_abs) as nat);
            let p = product(run(lo, len));
            let f = fact((lo - 1) as nat);
            let w = (2 * lu + 1) as nat;
            assert(w * (f * p) == p * (w * f)) by (nonlinear_arith);
        }
        Factors { num, den }
    }
}

/// Direction of the probability current around `z`: the sign of `m` for the
/// complex eigenstate, `0` for a real orbital (which carries no current).
pub fn current_direction(m: i32, real_form: bool) -> (s: i32)
    ensures
        s == (if real_form || m == 0 {
            0
        } else if m > 0 {
            1
        } else {
            -1
        }),
{
    if real_form {
        0
    } else if m > 0 {
        1
    } else if m < 0 {
        -1
    } else {
        0
    }
}

// ── Degeneracy ───────────────────────────────────────────────────────────────

/// All pairs `(l, m)` that make a bound state with principal number `n`.
pub open spec fn bound_states(n: int) -> Set<(int, int)> {
    Set::new(|p: (int, int)| valid_numbers(n, p.0, p.1))
}

/// The `2l + 1` states `(l, m)` of the subshell `l`.
pub open spec fn subshell_states(l: int) -> Set<(int, int)> {
    Set::new(|p: (int, int)| p.0 == l && -l <= p.1 <= l)
}

/// A subshell holds `2l + 1` states.
pub proof fn lemma_subshell_size(l: nat)
    ensures
        subshell_states(l as int).finite(),
        subshell_states(l as int).len() == 2 * l + 1,
{
    let f = |m: int| (l as int, m);
    let ms = set_int_range(-(l as int), l as int + 1);
    lemma_int_range(-(l as int), l as int + 1);
    assert(ms.map(f) =~= subshell_states(l as int)) by {
        assert forall|p: (int, int)| #[trigger] subshell_states(l as int).contains(p) implies ms.map(
            f,
        ).contains(p) by {
            assert(ms.contains(p.1) && f(p.1) == p);
        }
    }
    assert(injective_on(f, ms));
    lemma_map_size(ms, subshell_states(l as int), f);
}

/// Level `n` holds exactly `n²` bound states `(l, m)`: the degeneracy shown
/// for each energy level is the number of orbitals it contains.
pub proof fn lemma_bound_states_count(n: nat)
    ensures
        bound_states(n as int).finite(),
        bound_states(n as int).len() == n * n,
    decreases n,
{
    if n == 0 {
        assert(bound_states(0) =~= Set::<(int, int)>::empty());
    } else {
        let k = (n - 1) as nat;
        lemma_bound_states_count(k);
        lemma_subshell_size(k);
        assert(bound_states(n as int) =~= bound_states(k as int) + subshell_states(k as int));
        assert(bound_states(k as int).disjoint(subshell_states(k as int)));
        lemma_set_disjoint_lens(bound_states(k as int), subshell_states(k as int));
        assert(n * n == k * k + 2 * k + 1) by (nonlinear_arith)
            requires
                n == k + 1,
        ;
    }
}

/// Degeneracy of level `n`, `n²`: the number of bound states `(l, m)` that
/// share its energy. `n²` must fit in a `u32`.
pub fn degeneracy(n: u32) -> (d: u32)
    requires
        n * n <= u32::MAX,
    ensures
        d == n * n,
        d == bound_states(n as int).len(),
{
    proof {
        lemma_bound_states_count(n as nat);
    }
    n * n
}

/// Node count: a real orbital has `n − 1` nodal surfaces in all (radial
/// spheres, cones and planes); the complex eigenstate `|m|` fewer, since its
/// density has no nodal planes.
pub proof fn lemma_node_count(o: Orbital)
    requires
        o.wf(),
    ensures
        (o.n - o.l - 1) + (o.l - o.m_abs) + (if o.real_form && o.m != 0 {
            o.m_abs as int
        } else {
            0
        }) == o.n - 1 - (if o.real_form {
            0
        } else {
            o.m_abs as int
        }),
{
}

} // verus!
