//! Listing findings from the most severe to the least.

use vstd::prelude::*;

verus! {

/// The highest rank that a finding can have.
pub const TOP_RANK: u8 = 5;

/// Something that is listed by how severe it is.
pub trait Ranked: Sized {
    /// The rank: the higher, the more severe.
    spec fn rank(self) -> int;

    /// Computes `rank`.
    fn severity(&self) -> (r: u8)
        ensures
            r == self.rank(),
            r <= TOP_RANK,
    ;
}

/// Having the rank `r`.
pub open spec fn has_rank<T>(rank: spec_fn(T) -> int, r: int) -> spec_fn(T) -> bool {
    |t: T| rank(t) == r
}

/// Having a rank of at most `top`.
pub open spec fn rank_within<T>(rank: spec_fn(T) -> int, top: nat) -> spec_fn(T) -> bool {
    |t: T| 0 <= rank(t) <= top
}

/// The items of `s` of rank `r`, in the order in which they stand there.
pub open spec fn of_rank<T>(s: Seq<T>, rank: spec_fn(T) -> int, r: int) -> Seq<T> {
    s.filter(has_rank(rank, r))
}

/// The items of `s` of rank `top` or less: those of rank `top` first, those of
/// rank 0 last, and items of one rank in the order in which they stand in `s`.
pub open spec fn ranked_down<T>(s: Seq<T>, rank: spec_fn(T) -> int, top: nat) -> Seq<T>
    decreases top,
{
    if top == 0 {
        of_rank(s, rank, 0)
    } else {
        of_rank(s, rank, top as int) + ranked_down(s, rank, (top - 1) as nat)
    }
}

/// The items of `s`, the most severe first; items of one rank stay in order.
pub open spec fn by_severity<T>(s: Seq<T>, rank: spec_fn(T) -> int) -> Seq<T> {
    ranked_down(s, rank, TOP_RANK as nat)
}

/// Filtering twice is filtering once, where the second filter is the stricter.
proof fn lemma_filter_twice<T>(s: Seq<T>, weak: spec_fn(T) -> bool, strict: spec_fn(T) -> bool)
    requires
        forall|t: T| #[trigger] strict(t) ==> weak(t),
    ensures
        s.filter(weak).filter(strict) == s.filter(strict),
    decreases s.len(),
{
    reveal(Seq::filter);
    if s.len() > 0 {
        lemma_filter_twice(s.drop_last(), weak, strict);
        let kept = s.drop_last().filter(weak);
        if weak(s.last()) {
            assert(kept.push(s.last()).drop_last() =~= kept);
        }
    }
}

/// Filters out nothing where all items pass.
proof fn lemma_filter_all<T>(s: Seq<T>, p: spec_fn(T) -> bool)
    requires
        forall|i: int| 0 <= i < s.len() ==> p(s[i]),
    ensures
        s.filter(p) == s,
    decreases s.len(),
{
    reveal(Seq::filter);
    if s.len() > 0 {
        assert forall|i: int| 0 <= i < s.len() - 1 implies p(s.drop_last()[i]) by {
            assert(p(s[i]));
        }
        lemma_filter_all(s.drop_last(), p);
        assert(p(s[s.len() - 1]));
        assert(s.drop_last().push(s.last()) =~= s);
    }
}

/// Splits `items` into those of rank `r` and the others, each in order.
fn split_rank<T: Ranked>(items: Vec<T>, r: u8) -> (parts: (Vec<T>, Vec<T>))
    ensures
        parts.0@ == of_rank(items@, |t: T| t.rank(), r as int),
        parts.1@ == items@.filter(|t: T| t.rank() != r),
{
    let ghost all = items@;
    let mut hit: Vec<T> = Vec::new();
    let mut rest: Vec<T> = Vec::new();
    proof {
        reveal(Seq::filter);
    }
    for t in it: items
        invariant
            it.seq() == all,
            hit@ == of_rank(all.take(it.index() as int), |t: T| t.rank(), r as int),
            rest@ == all.take(it.index() as int).filter(|t: T| t.rank() != r),
    {
        proof {
            reveal(Seq::filter);
            let n = it.index() as int;
            assert(all.take(n + 1).drop_last() =~= all.take(n));
            assert(all.take(n + 1).last() == t);
        }
        if t.severity() == r {
            hit.push(t);
        } else {
            rest.push(t);
        }
    }
    assert(all.take(all.len() as int) =~= all);
    (hit, rest)
}

/// Lists `items` from the most severe to the least; items of one rank stay in
/// the order in which they came.
pub fn sort_by_severity<T: Ranked>(items: Vec<T>) -> (sorted: Vec<T>)
    ensures
        sorted@ == by_severity(items@, |t: T| t.rank()),
{
    let ghost all = items@;
    let ghost rank = |t: T| t.rank();
    let mut sorted: Vec<T> = Vec::new();
    let mut rest = items;
    let mut r: u8 = TOP_RANK;
    while r > 0
        invariant
            r <= TOP_RANK,
            rank == (|t: T| t.rank()),
            sorted@ + ranked_down(all, rank, r as nat) == by_severity(all, rank),
            forall|k: int|
                0 <= k <= r ==> of_rank(rest@, rank, k) == #[trigger] of_rank(all, rank, k),
        decreases r,
    {
        let ghost before = sorted@;
        let ghost left = rest@;
        let (mut hit, others) = split_rank(rest, r);
        proof {
            assert forall|k: int| 0 <= k <= r - 1 implies of_rank(others@, rank, k)
                == #[trigger] of_rank(all, rank, k) by {
                lemma_filter_twice(left, |t: T| t.rank() != r, has_rank(rank, k));
            }
        }
        sorted.append(&mut hit);
        rest = others;
        proof {
            assert(before + ranked_down(all, rank, r as nat) =~= sorted@ + ranked_down(
                all,
                rank,
                (r - 1) as nat,
            ));
        }
        r = r - 1;
    }
    let (mut hit, _others) = split_rank(rest, 0);
    proof {
        assert(of_rank(rest@, rank, 0) == of_rank(all, rank, 0));
    }
    sorted.append(&mut hit);
    sorted
}

/// Where an item of a list ranked from `top` down comes from, and its rank.
proof fn lemma_ranked_down_items<T>(s: Seq<T>, rank: spec_fn(T) -> int, top: nat, i: int)
    requires
        0 <= i < ranked_down(s, rank, top).len(),
    ensures
        0 <= rank(ranked_down(s, rank, top)[i]) <= top,
        s.contains(ranked_down(s, rank, top)[i]),
    decreases top,
{
    broadcast use Seq::lemma_filter_pred, Seq::lemma_filter_contains_rev;

    let first = of_rank(s, rank, top as int);
    if i < first.len() {
        assert(ranked_down(s, rank, top)[i] == first[i]);
        assert(first.contains(first[i]));
    } else {
        lemma_ranked_down_items(s, rank, (top - 1) as nat, i - first.len());
    }
}

proof fn lemma_ranked_down_sorted<T>(s: Seq<T>, rank: spec_fn(T) -> int, top: nat, i: int, j: int)
    requires
        0 <= i <= j < ranked_down(s, rank, top).len(),
    ensures
        rank(ranked_down(s, rank, top)[i]) >= rank(ranked_down(s, rank, top)[j]),
    decreases top,
{
    broadcast use Seq::lemma_filter_pred;

    let first = of_rank(s, rank, top as int);
    if i < first.len() {
        assert(rank(first[i]) == top);
        lemma_ranked_down_items(s, rank, top, j);
    } else {
        lemma_ranked_down_sorted(
            s,
            rank,
            (top - 1) as nat,
            i - first.len(),
            j - first.len(),
        );
    }
}

/// Findings come out from the most severe to the least.
pub proof fn severity_never_rises<T>(s: Seq<T>, rank: spec_fn(T) -> int)
    ensures
        forall|i: int, j: int|
            0 <= i <= j < by_severity(s, rank).len() ==> rank(#[trigger] by_severity(s, rank)[i])
                >= rank(#[trigger] by_severity(s, rank)[j]),
{
    assert forall|i: int, j: int| 0 <= i <= j < by_severity(s, rank).len() implies rank(
        #[trigger] by_severity(s, rank)[i],
    ) >= rank(#[trigger] by_severity(s, rank)[j]) by {
        lemma_ranked_down_sorted(s, rank, TOP_RANK as nat, i, j);
    }
}

proof fn lemma_ranked_down_stable<T>(s: Seq<T>, rank: spec_fn(T) -> int, top: nat, r: int)
    ensures
        of_rank(ranked_down(s, rank, top), rank, r) == if 0 <= r <= top {
            of_rank(s, rank, r)
        } else {
            Seq::<T>::empty()
        },
    decreases top,
{
    broadcast use Seq::lemma_filter_pred;

    let first = of_rank(s, rank, top as int);
    let p = has_rank(rank, r);
    assert(first.filter(p) == if r == top {
        first
    } else {
        Seq::<T>::empty()
    }) by {
        if r == top {
            lemma_filter_all(first, p);
        } else {
            if first.filter(p).len() > 0 {
                let stray = first.filter(p)[0];
                assert(p(stray));
                assert(first.filter(p).contains(stray));
                first.lemma_filter_contains_rev(p, stray);
                let k = choose|k: int| 0 <= k < first.len() && first[k] == stray;
                assert(rank(first[k]) == top);
            }
            assert(first.filter(p) =~= Seq::<T>::empty());
        }
    }
    if top > 0 {
        lemma_ranked_down_stable(s, rank, (top - 1) as nat, r);
        Seq::filter_distributes_over_add(first, ranked_down(s, rank, (top - 1) as nat), p);
        assert(of_rank(ranked_down(s, rank, top), rank, r) =~= first.filter(p) + of_rank(
            ranked_down(s, rank, (top - 1) as nat),
            rank,
            r,
        ));
    }
}

/// Findings of one severity keep the order in which they were found.
pub proof fn equal_severity_keeps_order<T>(s: Seq<T>, rank: spec_fn(T) -> int, r: int)
    requires
        0 <= r <= TOP_RANK,
    ensures
        of_rank(by_severity(s, rank), rank, r) == of_rank(s, rank, r),
{
    lemma_ranked_down_stable(s, rank, TOP_RANK as nat, r);
}

/// A filter and its complement share out the items between them.
proof fn lemma_filter_shares_out<T>(s: Seq<T>, p: spec_fn(T) -> bool, q: spec_fn(T) -> bool)
    requires
        forall|i: int| 0 <= i < s.len() ==> p(#[trigger] s[i]) == !q(s[i]),
    ensures
        s.filter(p).to_multiset().add(s.filter(q).to_multiset()) == s.to_multiset(),
    decreases s.len(),
{
    broadcast use vstd::seq_lib::group_to_multiset_ensures;

    reveal(Seq::filter);
    if s.len() > 0 {
        assert forall|i: int| 0 <= i < s.drop_last().len() implies p(#[trigger] s.drop_last()[i])
            == !q(s.drop_last()[i]) by {
            assert(s.drop_last()[i] == s[i]);
        }
        lemma_filter_shares_out(s.drop_last(), p, q);
        assert(s.drop_last().push(s.last()) =~= s);
        assert(p(s[s.len() - 1]) == !q(s[s.len() - 1]));
        let a = s.drop_last().filter(p);
        let b = s.drop_last().filter(q);
        assert(s.to_multiset() =~= s.drop_last().to_multiset().insert(s.last()));
        if p(s.last()) {
            assert(a.push(s.last()).to_multiset() =~= a.to_multiset().insert(s.last()));
        } else {
            assert(b.push(s.last()).to_multiset() =~= b.to_multiset().insert(s.last()));
        }
        assert(s.filter(p).to_multiset().add(s.filter(q).to_multiset()) =~= s.to_multiset());
    } else {
        assert(s.filter(p).to_multiset().add(s.filter(q).to_multiset()) =~= s.to_multiset());
    }
}

proof fn lemma_ranked_down_multiset<T>(s: Seq<T>, rank: spec_fn(T) -> int, top: nat)
    requires
        forall|i: int| 0 <= i < s.len() ==> 0 <= rank(#[trigger] s[i]),
    ensures
        ranked_down(s, rank, top).to_multiset() == s.filter(rank_within(rank, top)).to_multiset(),
    decreases top,
{
    broadcast use vstd::seq_lib::group_to_multiset_ensures;

    let low = rank_within(rank, top);
    let p = has_rank(rank, top as int);
    let kept = s.filter(low);
    if top == 0 {
        lemma_filter_twice(s, low, p);
        assert forall|i: int| 0 <= i < kept.len() implies p(kept[i]) by {
            s.lemma_filter_pred(low, i);
        }
        lemma_filter_all(kept, p);
    } else {
        let q = rank_within(rank, (top - 1) as nat);
        lemma_ranked_down_multiset(s, rank, (top - 1) as nat);
        assert forall|i: int| 0 <= i < kept.len() implies p(#[trigger] kept[i]) == !q(kept[i]) by {
            s.lemma_filter_pred(low, i);
        }
        lemma_filter_shares_out(kept, p, q);
        lemma_filter_twice(s, low, p);
        lemma_filter_twice(s, low, q);
        vstd::seq_lib::lemma_multiset_commutative(
            of_rank(s, rank, top as int),
            ranked_down(s, rank, (top - 1) as nat),
        );
    }
}

/// Listing findings by severity neither loses nor invents one.
pub proof fn severity_order_keeps_findings<T>(s: Seq<T>, rank: spec_fn(T) -> int)
    requires
        forall|i: int| 0 <= i < s.len() ==> 0 <= rank(#[trigger] s[i]) <= TOP_RANK,
    ensures
        by_severity(s, rank).to_multiset() == s.to_multiset(),
        by_severity(s, rank).len() == s.len(),
{
    broadcast use vstd::seq_lib::group_to_multiset_ensures;

    lemma_ranked_down_multiset(s, rank, TOP_RANK as nat);
    let low = rank_within(rank, TOP_RANK as nat);
    assert forall|i: int| 0 <= i < s.len() implies low(s[i]) by {
        assert(0 <= rank(s[i]) <= TOP_RANK);
    }
    lemma_filter_all(s, low);
    assert(by_severity(s, rank).to_multiset().len() == s.to_multiset().len());
}

/// A mapping that keeps ranks can be applied before or after listing by severity.
pub proof fn lemma_by_severity_of_images<A, B>(
    s: Seq<A>,
    f: spec_fn(A) -> B,
    rank_a: spec_fn(A) -> int,
    rank_b: spec_fn(B) -> int,
)
    requires
        forall|a: A| #[trigger] rank_a(a) == rank_b(f(a)),
    ensures
        by_severity(s, rank_a).map_values(f) == by_severity(s.map_values(f), rank_b),
{
    lemma_ranked_down_of_images(s, f, rank_a, rank_b, TOP_RANK as nat);
}

proof fn lemma_ranked_down_of_images<A, B>(
    s: Seq<A>,
    f: spec_fn(A) -> B,
    rank_a: spec_fn(A) -> int,
    rank_b: spec_fn(B) -> int,
    top: nat,
)
    requires
        forall|a: A| #[trigger] rank_a(a) == rank_b(f(a)),
    ensures
        ranked_down(s, rank_a, top).map_values(f) == ranked_down(s.map_values(f), rank_b, top),
    decreases top,
{
    assert forall|a: A| #[trigger] has_rank(rank_a, top as int)(a) == has_rank(rank_b, top as int)(
        f(a),
    ) by {
        assert(rank_a(a) == rank_b(f(a)));
    }
    lemma_filter_of_images(s, f, has_rank(rank_a, top as int), has_rank(rank_b, top as int));
    if top > 0 {
        lemma_ranked_down_of_images(s, f, rank_a, rank_b, (top - 1) as nat);
        assert(ranked_down(s, rank_a, top).map_values(f) =~= of_rank(
            s,
            rank_a,
            top as int,
        ).map_values(f) + ranked_down(s, rank_a, (top - 1) as nat).map_values(f));
    }
}

/// A filter can be applied before or after a mapping.
proof fn lemma_filter_of_images<A, B>(
    s: Seq<A>,
    f: spec_fn(A) -> B,
    p: spec_fn(A) -> bool,
    q: spec_fn(B) -> bool,
)
    requires
        forall|a: A| #[trigger] p(a) == q(f(a)),
    ensures
        s.filter(p).map_values(f) == s.map_values(f).filter(q),
    decreases s.len(),
{
    reveal(Seq::filter);
    if s.len() > 0 {
        lemma_filter_of_images(s.drop_last(), f, p, q);
        assert(s.map_values(f).drop_last() =~= s.drop_last().map_values(f));
        assert(p(s.last()) == q(f(s.last())));
        assert(s.filter(p).map_values(f) =~= s.map_values(f).filter(q));
    } else {
        assert(s.filter(p).map_values(f) =~= s.map_values(f).filter(q));
    }
}

} // verus!
