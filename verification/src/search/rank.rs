//! Ordering of AUR results: most popular first, then most voted.
//!
//! Popularity is held as the bit pattern of an IEEE-754 double. `pop_key`
//! maps it to an unsigned integer that orders as the number does; NaN and the
//! infinities count as 0.0, and so do both zeros.
use vstd::prelude::*;

use crate::model::Package;

verus! {

broadcast use vstd::seq_lib::to_multiset_insert, vstd::seq_lib::to_multiset_contains,
    vstd::seq_lib::lemma_multiset_commutative, vstd::multiset::group_multiset_axioms;

pub open spec fn sign_bit() -> u64 {
    0x8000_0000_0000_0000u64
}

/// The double with these bits is finite (its exponent is not all ones).
pub open spec fn is_finite_bits(b: u64) -> bool {
    (b & 0x7ff0_0000_0000_0000u64) != 0x7ff0_0000_0000_0000u64
}

/// Order key of a double given by its bits: zero (either sign) and every
/// non-finite value map to the key of 0.0; positive values above it, negative
/// values below it.
pub open spec fn key_of_bits(b: u64) -> u64 {
    if !is_finite_bits(b) || (b & 0x7fff_ffff_ffff_ffffu64) == 0 {
        sign_bit()
    } else if (b & sign_bit()) == 0 {
        b | sign_bit()
    } else {
        !b
    }
}

/// Order key of a package's popularity; none counts as 0.0.
pub open spec fn pop_key(p: Package) -> u64 {
    match p.popularity {
        Some(b) => key_of_bits(b),
        None => sign_bit(),
    }
}

/// The sign bit of a double given by its bits is set.
pub open spec fn bits_negative(b: u64) -> bool {
    b & 0x8000_0000_0000_0000u64 != 0
}

/// The bits of a double without its sign.
pub open spec fn bits_magnitude(b: u64) -> u64 {
    b & 0x7fff_ffff_ffff_ffffu64
}

/// IEEE 754 order of two finite doubles given by their bits, `x < y`: the
/// encoding is sign and magnitude, and for doubles of one sign the
/// magnitude bits order as the numbers' absolute values do; +0 and -0 are
/// equal.
pub open spec fn finite_less(x: u64, y: u64) -> bool {
    let mx = bits_magnitude(x);
    let my = bits_magnitude(y);
    if mx == 0 && my == 0 {
        false
    } else if !bits_negative(x) && !bits_negative(y) {
        mx < my
    } else if bits_negative(x) && bits_negative(y) {
        mx > my
    } else {
        bits_negative(x)
    }
}

/// The popularity key orders finite doubles as the numbers: of two finite
/// popularities the greater gets the greater key.
pub proof fn law_popularity_key_monotone(x: u64, y: u64)
    requires
        is_finite_bits(x),
        is_finite_bits(y),
        finite_less(x, y),
    ensures
        key_of_bits(x) < key_of_bits(y),
{
    assert(is_finite_bits(x) && is_finite_bits(y) && finite_less(x, y) ==> key_of_bits(x)
        < key_of_bits(y)) by (bit_vector);
}

/// Exactly NaN, the infinities and the two zeros get the key of 0.0.
pub proof fn law_popularity_key_of_zero(x: u64)
    ensures
        key_of_bits(x) == key_of_bits(0) <==> (!is_finite_bits(x) || bits_magnitude(x) == 0),
{
    assert(key_of_bits(x) == key_of_bits(0) <==> (!is_finite_bits(x) || bits_magnitude(x) == 0))
        by (bit_vector);
}

/// Of two packages with finite popularity, the more popular one ranks
/// strictly first, whatever their votes.
pub proof fn law_more_popular_ranks_first(a: Package, b: Package, x: u64, y: u64)
    requires
        a.popularity == Some(x),
        b.popularity == Some(y),
        is_finite_bits(x),
        is_finite_bits(y),
        finite_less(y, x),
    ensures
        ranks_before(a, b),
        !ranks_before(b, a),
{
    law_popularity_key_monotone(y, x);
}

/// Of two packages with the same popularity, the one with more votes ranks
/// strictly first; unknown votes count as 0.
pub proof fn law_more_votes_ranks_first(a: Package, b: Package, va: i32)
    requires
        a.popularity == b.popularity,
        a.votes == Some(va),
        b.votes is None ==> va > 0,
        b.votes matches Some(vb) ==> va > vb,
    ensures
        ranks_before(a, b),
        !ranks_before(b, a),
{
}

/// Votes used for ordering; none counts as 0.
pub open spec fn vote_key(p: Package) -> i32 {
    match p.votes {
        Some(v) => v,
        None => 0,
    }
}

/// `a` may stand before `b`: higher popularity, or equal popularity and at
/// least as many votes.
pub open spec fn ranks_before(a: Package, b: Package) -> bool {
    pop_key(a) > pop_key(b) || (pop_key(a) == pop_key(b) && vote_key(a) >= vote_key(b))
}

/// Ordered best first.
pub open spec fn ranked(s: Seq<Package>) -> bool {
    forall|i: int, j: int| 0 <= i < j < s.len() ==> ranks_before(#[trigger] s[i], #[trigger] s[j])
}

/// The number of results kept for a limit (0 = no limit).
pub open spec fn kept_len(n: nat, limit: usize) -> nat {
    if limit != 0 && n > limit {
        limit as nat
    } else {
        n
    }
}

/// Equal popularity and votes: neither ranks above the other.
pub open spec fn same_rank(a: Package, b: Package) -> bool {
    pop_key(a) == pop_key(b) && vote_key(a) == vote_key(b)
}

/// The items of `s` that rank equal with `x`, in the order of `s`.
pub open spec fn rank_class(s: Seq<Package>, x: Package) -> Seq<Package> {
    s.filter(|p: Package| same_rank(p, x))
}

/// `out` is what `sort_and_truncate` gives for `input`: ordered best first,
/// `kept_len` long, drawn from `input` (all of it when nothing is cut), and
/// every item left out ranks no higher than every item kept. When nothing
/// is cut the sort is stable: for every `x`, the items that rank equal with
/// `x` come out in exactly the order they came in (`rank_class`; see
/// `law_equal_ranks_keep_input_order` for the same fact stated on pairs).
pub open spec fn ranked_selection(input: Seq<Package>, out: Seq<Package>, limit: usize) -> bool {
    &&& ranked(out)
    &&& out.len() == input.len() ==> forall|x: Package| #[trigger]
        rank_class(out, x) == rank_class(input, x)
    &&& out.len() == kept_len(input.len(), limit)
    &&& out.to_multiset().subset_of(input.to_multiset())
    &&& (out.len() == input.len() ==> out.to_multiset() == input.to_multiset())
    &&& forall|x: Package|
        #![trigger input.to_multiset().count(x)]
        input.to_multiset().count(x) > out.to_multiset().count(x) ==> forall|i: int|
            0 <= i < out.len() ==> ranks_before(#[trigger] out[i], x)
}

proof fn lemma_filter_none(s: Seq<Package>, pred: spec_fn(Package) -> bool)
    requires
        forall|i: int| 0 <= i < s.len() ==> !pred(#[trigger] s[i]),
    ensures
        s.filter(pred) == Seq::<Package>::empty(),
    decreases s.len(),
{
    reveal(Seq::filter);
    if s.len() > 0 {
        lemma_filter_none(s.drop_last(), pred);
    }
}

/// Inserting `y` at `p`, where no later item ranks equal with `x` if `y`
/// does, adds `y` at the end of `x`'s class (or leaves the class alone).
proof fn lemma_insert_class(s: Seq<Package>, p: int, y: Package, x: Package)
    requires
        0 <= p <= s.len(),
        same_rank(y, x) ==> forall|q: int| p <= q < s.len() ==> !same_rank(#[trigger] s[q], x),
    ensures
        rank_class(s.insert(p, y), x) == if same_rank(y, x) {
            rank_class(s, x).push(y)
        } else {
            rank_class(s, x)
        },
{
    let pred = |q: Package| same_rank(q, x);
    let a = s.take(p);
    let b = s.skip(p);
    let ys = seq![y];
    assert(s == a + b);
    assert(s.insert(p, y) == (a + ys) + b);
    Seq::filter_distributes_over_add(a, b, pred);
    Seq::filter_distributes_over_add(a + ys, b, pred);
    Seq::filter_distributes_over_add(a, ys, pred);
    assert(ys.filter(pred) == if pred(y) { ys } else { Seq::<Package>::empty() }) by {
        reveal_with_fuel(Seq::filter, 2);
        assert(ys.drop_last() == Seq::<Package>::empty());
        assert(ys.last() == y);
    }
    assert(rank_class(s, x) == a.filter(pred) + b.filter(pred));
    assert(rank_class(s.insert(p, y), x) == (a.filter(pred) + ys.filter(pred)) + b.filter(pred));
    if same_rank(y, x) {
        assert forall|i: int| 0 <= i < b.len() implies !pred(#[trigger] b[i]) by {
            assert(b[i] == s[p + i]);
        }
        lemma_filter_none(b, pred);
        assert(a.filter(pred) + Seq::<Package>::empty() == a.filter(pred));
        assert((a.filter(pred) + ys) + Seq::<Package>::empty() == a.filter(pred).push(y));
    } else {
        assert(a.filter(pred) + Seq::<Package>::empty() == a.filter(pred));
    }
}

/// The number of items of `s` before index `i` that satisfy `pred`: where
/// `s[i]` stands in `s.filter(pred)`.
spec fn filtered_before(s: Seq<Package>, pred: spec_fn(Package) -> bool, i: int) -> nat {
    s.take(i).filter(pred).len()
}

proof fn lemma_filtered_before_mono(s: Seq<Package>, pred: spec_fn(Package) -> bool, i: int, j: int)
    requires
        0 <= i <= j <= s.len(),
    ensures
        filtered_before(s, pred, i) <= filtered_before(s, pred, j),
        i < j && pred(s[i]) ==> filtered_before(s, pred, i) < filtered_before(s, pred, j),
{
    if i < j {
        let m = s.subrange(i + 1, j);
        assert(s.take(j) == s.take(i).push(s[i]) + m);
        Seq::filter_distributes_over_add(s.take(i).push(s[i]), m, pred);
        s.take(i).lemma_filter_push(s[i], pred);
    }
}

/// An item of `s` that satisfies `pred` stands in `s.filter(pred)` at
/// `filtered_before`.
proof fn lemma_filter_position(s: Seq<Package>, pred: spec_fn(Package) -> bool, i: int)
    requires
        0 <= i < s.len(),
        pred(s[i]),
    ensures
        filtered_before(s, pred, i) < s.filter(pred).len(),
        s.filter(pred)[filtered_before(s, pred, i) as int] == s[i],
{
    let a = s.take(i).push(s[i]);
    let b = s.skip(i + 1);
    assert(s == a + b);
    Seq::filter_distributes_over_add(a, b, pred);
    s.take(i).lemma_filter_push(s[i], pred);
}

/// Every item of `s.filter(pred)` comes from an index of `s` at which it
/// stands, counted by `filtered_before`.
proof fn lemma_filter_origin(s: Seq<Package>, pred: spec_fn(Package) -> bool, p: int)
    requires
        0 <= p < s.filter(pred).len(),
    ensures
        exists|i: int|
            0 <= i < s.len() && s[i] == s.filter(pred)[p] && #[trigger] filtered_before(s, pred, i)
                == p,
    decreases s.len(),
{
    let d = s.drop_last();
    let n = s.len() - 1;
    assert(s == d.push(s[n]));
    d.lemma_filter_push(s[n], pred);
    assert forall|k: int| 0 <= k <= n implies #[trigger] s.take(k) == d.take(k) by {}
    if p < d.filter(pred).len() {
        lemma_filter_origin(d, pred, p);
        let k = choose|k: int|
            0 <= k < d.len() && d[k] == d.filter(pred)[p] && #[trigger] filtered_before(d, pred, k)
                == p;
        assert(s.take(k) == d.take(k));
        assert(filtered_before(s, pred, k) == p);
    } else {
        assert(s.take(n) == d);
        assert(filtered_before(s, pred, n) == p);
    }
}

/// When `sort_and_truncate` cuts nothing, results that rank equal keep the
/// order they had in its input: for two of them at positions `i < j` of the
/// output, the input holds the first at some position before one holding
/// the second.
pub proof fn law_equal_ranks_keep_input_order(
    input: Seq<Package>,
    out: Seq<Package>,
    limit: usize,
    i: int,
    j: int,
)
    requires
        ranked_selection(input, out, limit),
        out.len() == input.len(),
        0 <= i < j < out.len(),
        same_rank(out[i], out[j]),
    ensures
        exists|a: int, b: int|
            0 <= a < b < input.len() && input[a] == out[i] && input[b] == out[j],
{
    let x = out[i];
    let pred = |q: Package| same_rank(q, x);
    assert(rank_class(out, x) == rank_class(input, x));
    let f = out.filter(pred);
    assert(f == input.filter(pred));
    lemma_filter_position(out, pred, i);
    lemma_filter_position(out, pred, j);
    lemma_filtered_before_mono(out, pred, i, j);
    let p = filtered_before(out, pred, i) as int;
    let q = filtered_before(out, pred, j) as int;
    lemma_filter_origin(input, pred, p);
    lemma_filter_origin(input, pred, q);
    let a = choose|a: int|
        0 <= a < input.len() && input[a] == f[p] && #[trigger] filtered_before(input, pred, a) == p;
    let b = choose|b: int|
        0 <= b < input.len() && input[b] == f[q] && #[trigger] filtered_before(input, pred, b) == q;
    if b <= a {
        lemma_filtered_before_mono(input, pred, b, a);
    }
    assert(0 <= a < b < input.len() && input[a] == out[i] && input[b] == out[j]);
}

/// Order key of a popularity bit pattern.
pub fn key_of_popularity(p: Option<u64>) -> (r: u64)
    ensures
        r == (match p {
            Some(b) => key_of_bits(b),
            None => sign_bit(),
        }),
{
    match p {
        Some(b) => {
            if (b & 0x7ff0_0000_0000_0000u64) == 0x7ff0_0000_0000_0000u64 || (b
                & 0x7fff_ffff_ffff_ffffu64) == 0 {
                0x8000_0000_0000_0000u64
            } else if (b & 0x8000_0000_0000_0000u64) == 0 {
                b | 0x8000_0000_0000_0000u64
            } else {
                !b
            }
        },
        None => 0x8000_0000_0000_0000u64,
    }
}

fn votes_or_zero(v: Option<i32>) -> (r: i32)
    ensures
        r == (match v {
            Some(x) => x,
            None => 0,
        }),
{
    match v {
        Some(x) => x,
        None => 0,
    }
}

/// `a` ranks strictly above `b`.
fn outranks(a: &Package, b: &Package) -> (r: bool)
    ensures
        r == !ranks_before(*b, *a),
{
    let ka = key_of_popularity(a.popularity);
    let kb = key_of_popularity(b.popularity);
    ka > kb || (ka == kb && votes_or_zero(a.votes) > votes_or_zero(b.votes))
}

/// Sorts by popularity then votes, best first (NaN-safe: non-finite
/// popularity counts as 0.0), and keeps the best `limit` (0 = all).
pub fn sort_and_truncate(results: &mut Vec<Package>, limit: usize)
    ensures
        ranked_selection(old(results)@, final(results)@, limit),
{
    let ghost input = results@;
    let mut sorted: Vec<Package> = Vec::new();
    let n = results.len();
    let mut k: usize = 0;
    while k < n
        invariant
            n == results.len(),
            results@ == input,
            k <= n,
            ranked(sorted@),
            sorted@.len() == k,
            sorted@.to_multiset() == input.take(k as int).to_multiset(),
            forall|x: Package| #[trigger]
                rank_class(sorted@, x) == rank_class(input.take(k as int), x),
        decreases n - k,
    {
        let x = results[k].duplicate();
        let mut p: usize = 0;
        while p < sorted.len() && !outranks(&x, &sorted[p])
            invariant
                p <= sorted.len(),
                x == input[k as int],
                forall|q: int| 0 <= q < p ==> ranks_before(#[trigger] sorted@[q], x),
            decreases sorted.len() - p,
        {
            p = p + 1;
        }
        let ghost before = sorted@;
        proof {
            assert forall|q: int| p <= q < before.len() implies ranks_before(
                x,
                #[trigger] before[q],
            ) by {
                assert(ranks_before(before[p as int], before[q]) || p == q);
            }
        }
        proof {
            assert forall|z: Package| #[trigger]
                rank_class(before.insert(p as int, x), z) == rank_class(input.take(k + 1), z) by {
                if same_rank(x, z) {
                    assert forall|q: int| p <= q < before.len() implies !same_rank(
                        #[trigger] before[q],
                        z,
                    ) by {
                        if q > p {
                            assert(ranks_before(before[p as int], before[q]));
                        }
                    }
                }
                lemma_insert_class(before, p as int, x, z);
                assert(input.take(k + 1) == input.take(k as int).push(input[k as int]));
                input.take(k as int).lemma_filter_push(input[k as int], |q: Package| same_rank(q, z));
            }
        }
        sorted.insert(p, x);
        proof {
            assert(input.take(k + 1) == input.take(k as int).push(input[k as int]));
            vstd::seq_lib::to_multiset_build(input.take(k as int), input[k as int]);
            assert forall|i: int, j: int| 0 <= i < j < sorted@.len() implies ranks_before(
                #[trigger] sorted@[i],
                #[trigger] sorted@[j],
            ) by {
                if i < p && j < p {
                    assert(sorted@[i] == before[i] && sorted@[j] == before[j]);
                } else if i < p && j == p {
                    assert(sorted@[i] == before[i]);
                } else if i < p {
                    assert(sorted@[i] == before[i] && sorted@[j] == before[j - 1]);
                    assert(ranks_before(before[i], x));
                    assert(ranks_before(x, before[j - 1]));
                } else if i == p {
                    assert(sorted@[j] == before[j - 1]);
                } else {
                    assert(sorted@[i] == before[i - 1] && sorted@[j] == before[j - 1]);
                }
            }
        }
        k = k + 1;
    }
    assert(input.take(n as int) == input);
    let ghost full = sorted@;
    if limit != 0 && sorted.len() > limit {
        sorted.truncate(limit);
        proof {
            let kept = sorted@;
            let dropped = full.skip(limit as int);
            assert(full == kept + dropped);
            assert(full.to_multiset() == kept.to_multiset().add(dropped.to_multiset()));
            assert forall|x: Package|
                #![trigger input.to_multiset().count(x)]
                input.to_multiset().count(x) > kept.to_multiset().count(x) implies forall|i: int|
                0 <= i < kept.len() ==> ranks_before(#[trigger] kept[i], x) by {
                assert(dropped.to_multiset().count(x) > 0);
                assert(dropped.contains(x));
                let j = choose|j: int| 0 <= j < dropped.len() && dropped[j] == x;
                assert(full[limit + j] == x);
                assert forall|i: int| 0 <= i < kept.len() implies ranks_before(
                    #[trigger] kept[i],
                    x,
                ) by {
                    assert(kept[i] == full[i]);
                }
            }
        }
    }
    *results = sorted;
}

} // verus!
