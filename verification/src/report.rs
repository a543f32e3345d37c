use vstd::prelude::*;
use crate::store::ContributorRow;

verus! {

broadcast use vstd::seq_lib::group_filter_ensures;

/// The order of the administrator's report: by status rank (kicked, not joined,
/// queued, finished), then by queue position.
pub open spec fn report_key(e: (usize, ContributorRow)) -> int {
    e.1.status.spec_rank() as int * (usize::MAX as int + 1) + e.0 as int
}

/// The entries of `s` with report key `k`, in their order in `s`.
pub open spec fn key_class(s: Seq<(usize, ContributorRow)>, k: int) -> Seq<(usize, ContributorRow)> {
    s.filter(|e: (usize, ContributorRow)| report_key(e) == k)
}

/// `s` is in report order.
pub open spec fn report_sorted(s: Seq<(usize, ContributorRow)>) -> bool {
    forall|i: int, j: int| 0 <= i < j < s.len() ==> report_key(#[trigger] s[i]) <= report_key(#[trigger] s[j])
}

/// A sequence none of whose elements satisfies `pred` filters to nothing.
proof fn lemma_filter_none<A>(s: Seq<A>, pred: spec_fn(A) -> bool)
    requires
        forall|i: int| 0 <= i < s.len() ==> !pred(#[trigger] s[i]),
    ensures
        s.filter(pred) == Seq::<A>::empty(),
    decreases s.len(),
{
    reveal(Seq::filter);
    if s.len() > 0 {
        assert forall|i: int| 0 <= i < s.drop_last().len() implies !pred(#[trigger] s.drop_last()[i]) by {
            assert(s.drop_last()[i] == s[i]);
        }
        lemma_filter_none(s.drop_last(), pred);
    }
}

/// Filtering a one-element sequence.
proof fn lemma_filter_single<A>(x: A, pred: spec_fn(A) -> bool)
    ensures
        seq![x].filter(pred) == (if pred(x) { seq![x] } else { Seq::<A>::empty() }),
{
    reveal_with_fuel(Seq::filter, 2);
    assert(seq![x].drop_last() =~= Seq::<A>::empty());
}

/// Inserting `x` at `p` into a sorted sequence where everything before `p` has a
/// key at most `x`'s and everything from `p` on a larger key: the result is
/// sorted, and each key class gains `x` at its end or stays as it was.
proof fn lemma_insert_in_order(s: Seq<(usize, ContributorRow)>, p: int, x: (usize, ContributorRow))
    requires
        0 <= p <= s.len(),
        report_sorted(s),
        forall|i: int| 0 <= i < p ==> report_key(#[trigger] s[i]) <= report_key(x),
        forall|i: int| p <= i < s.len() ==> report_key(#[trigger] s[i]) > report_key(x),
    ensures
        report_sorted(s.insert(p, x)),
        forall|k: int| #[trigger] key_class(s.insert(p, x), k)
            == (if k == report_key(x) { key_class(s, k).push(x) } else { key_class(s, k) }),
{
    let t = s.insert(p, x);
    assert forall|i: int, j: int| 0 <= i < j < t.len() implies report_key(#[trigger] t[i]) <= report_key(#[trigger] t[j]) by {
        if i < p {
            assert(t[i] == s[i]);
        } else if i == p {
            assert(t[i] == x);
            assert(t[j] == s[j - 1]);
        } else {
            assert(t[i] == s[i - 1]);
            assert(t[j] == s[j - 1]);
        }
    }
    let a = s.subrange(0, p);
    let b = s.subrange(p, s.len() as int);
    assert(t =~= a + seq![x] + b);
    assert(s =~= a + b);
    assert forall|k: int| #[trigger] key_class(t, k)
        == (if k == report_key(x) { key_class(s, k).push(x) } else { key_class(s, k) }) by {
        let pred = |e: (usize, ContributorRow)| report_key(e) == k;
        Seq::filter_distributes_over_add(a + seq![x], b, pred);
        Seq::filter_distributes_over_add(a, seq![x], pred);
        Seq::filter_distributes_over_add(a, b, pred);
        lemma_filter_single(x, pred);
        if k == report_key(x) {
            assert forall|i: int| 0 <= i < b.len() implies !pred(#[trigger] b[i]) by {
                assert(b[i] == s[p + i]);
            }
            lemma_filter_none(b, pred);
            assert(a.filter(pred) + seq![x] + Seq::<(usize, ContributorRow)>::empty() =~= (a.filter(pred) + Seq::<(usize, ContributorRow)>::empty()).push(x));
        } else {
            assert(a.filter(pred) + Seq::<(usize, ContributorRow)>::empty() =~= a.filter(pred));
        }
    }
}

/// Puts the report's rows in report order: by status rank, then by queue
/// position; rows that compare equal keep their order.
pub fn order_report(contributors: Vec<(usize, ContributorRow)>) -> (out: Vec<(usize, ContributorRow)>)
    ensures
        report_sorted(out@),
        out@.len() == contributors@.len(),
        forall|k: int| #[trigger] key_class(out@, k) == key_class(contributors@, k),
{
    let ghost input = contributors@;
    let mut out: Vec<(usize, ContributorRow)> = Vec::new();
    let mut i: usize = 0;
    let n = contributors.len();
    while i < n
        invariant
            n == input.len(),
            input == contributors@,
            0 <= i <= n,
            out@.len() == i,
            report_sorted(out@),
            forall|k: int| #[trigger] key_class(out@, k) == key_class(input.subrange(0, i as int), k),
        decreases n - i,
    {
        let x = (contributors[i].0, contributors[i].1.clone());
        assert(x == input[i as int]);
        let mut p: usize = 0;
        while p < out.len() && key_le(&out[p], &x)
            invariant
                0 <= p <= out@.len(),
                forall|j: int| 0 <= j < p ==> report_key(#[trigger] out@[j]) <= report_key(x),
            decreases out@.len() - p,
        {
            p = p + 1;
        }
        proof {
            assert forall|j: int| p <= j < out@.len() implies report_key(#[trigger] out@[j]) > report_key(x) by {
                assert(report_key(out@[p as int]) > report_key(x));
                if j > p {
                    assert(report_key(out@[p as int]) <= report_key(out@[j]));
                }
            }
            lemma_insert_in_order(out@, p as int, x);
            let pre = input.subrange(0, i as int);
            assert(input.subrange(0, i + 1) =~= pre + seq![x]);
            assert forall|k: int| #[trigger] key_class(input.subrange(0, i + 1), k)
                == (if k == report_key(x) { key_class(pre, k).push(x) } else { key_class(pre, k) }) by {
                let pred = |e: (usize, ContributorRow)| report_key(e) == k;
                Seq::filter_distributes_over_add(pre, seq![x], pred);
                lemma_filter_single(x, pred);
                assert(pre.filter(pred) + seq![x] =~= pre.filter(pred).push(x));
                assert(pre.filter(pred) + Seq::<(usize, ContributorRow)>::empty() =~= pre.filter(pred));
            }
        }
        out.insert(p, x);
        i = i + 1;
    }
    proof {
        assert(input.subrange(0, n as int) =~= input);
    }
    out
}

/// Whether `a` comes no later than `b` in report order: lower rank first, then
/// lower position.
fn key_le(a: &(usize, ContributorRow), b: &(usize, ContributorRow)) -> (r: bool)
    ensures
        r == (report_key(*a) <= report_key(*b)),
{
    let ra = a.1.status.rank();
    let rb = b.1.status.rank();
    proof {
        let m = usize::MAX as int + 1;
        let (x, y) = (ra as int, rb as int);
        assert(x < y ==> x * m + a.0 < y * m + b.0) by (nonlinear_arith)
            requires a.0 < m, b.0 < m, m > 0;
        assert(x > y ==> x * m + a.0 > y * m + b.0) by (nonlinear_arith)
            requires a.0 < m, b.0 < m, m > 0;
    }
    ra < rb || (ra == rb && a.0 <= b.0)
}

} // verus!
