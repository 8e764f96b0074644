//! Stable ordering of lists by a rank that each item type defines.

use vstd::prelude::*;

verus! {

/// Items that have a rank among themselves.
pub trait Ranked: Sized {
    /// Whether `self` may stand before `other`.
    spec fn ranks_before(&self, other: &Self) -> bool;

    /// Whether `self` may stand before `other`.
    fn is_ranked_before(&self, other: &Self) -> (r: bool)
        ensures
            r == self.ranks_before(other),
    ;
}

/// The rank of a type as a relation on its values.
pub open spec fn rank_of<T: Ranked>() -> spec_fn(T, T) -> bool {
    |a: T, b: T| a.ranks_before(&b)
}

/// `s` with `x` put behind the last item that may stand before it.
pub open spec fn inserted<T>(s: Seq<T>, x: T, before: spec_fn(T, T) -> bool) -> Seq<T>
    decreases s.len(),
{
    if s.len() == 0 || before(s.last(), x) {
        s.push(x)
    } else {
        inserted(s.drop_last(), x, before).push(s.last())
    }
}

/// The items of `s` in the order of `before`; items of equal rank keep
/// their order.
pub open spec fn ranked<T>(s: Seq<T>, before: spec_fn(T, T) -> bool) -> Seq<T>
    decreases s.len(),
{
    if s.len() == 0 {
        Seq::empty()
    } else {
        inserted(ranked(s.drop_last(), before), s.last(), before)
    }
}

/// Whether each item of `s` may stand before the one behind it.
pub open spec fn in_rank_order<T>(s: Seq<T>, before: spec_fn(T, T) -> bool) -> bool {
    forall|i: int| 0 <= i < s.len() - 1 ==> before(#[trigger] s[i], s[i + 1])
}

/// Inserting behind the run of items that may not stand before `x`.
proof fn lemma_inserted_at<T>(s: Seq<T>, x: T, j: int, before: spec_fn(T, T) -> bool)
    requires
        0 <= j <= s.len(),
        j > 0 ==> before(s[j - 1], x),
        forall|k: int| j <= k < s.len() ==> !before(#[trigger] s[k], x),
    ensures
        inserted(s, x, before) == s.insert(j, x),
    decreases s.len() - j,
{
    if j == s.len() {
        assert(s.insert(j, x) =~= s.push(x));
    } else {
        let init = s.drop_last();
        assert(!before(s[s.len() - 1], x));
        lemma_inserted_at(init, x, j, before);
        assert(init.insert(j, x).push(s.last()) =~= s.insert(j, x));
    }
}

/// Inserting keeps the items and adds the new one.
pub proof fn lemma_inserted_items<T>(s: Seq<T>, x: T, before: spec_fn(T, T) -> bool)
    ensures
        inserted(s, x, before).to_multiset() == s.to_multiset().insert(x),
        inserted(s, x, before).len() == s.len() + 1,
    decreases s.len(),
{
    broadcast use vstd::seq_lib::group_to_multiset_ensures;

    if s.len() == 0 || before(s.last(), x) {
    } else {
        let init = s.drop_last();
        lemma_inserted_items(init, x, before);
        assert(init.push(s.last()) =~= s);
        assert(inserted(s, x, before).to_multiset() =~= s.to_multiset().insert(x));
    }
}

/// Ordering a list keeps its items, each as often as before.
pub proof fn lemma_ranked_items<T>(s: Seq<T>, before: spec_fn(T, T) -> bool)
    ensures
        ranked(s, before).to_multiset() == s.to_multiset(),
        ranked(s, before).len() == s.len(),
    decreases s.len(),
{
    broadcast use vstd::seq_lib::group_to_multiset_ensures;

    if s.len() > 0 {
        let init = s.drop_last();
        lemma_ranked_items(init, before);
        lemma_inserted_items(ranked(init, before), s.last(), before);
        assert(init.push(s.last()) =~= s);
    } else {
        assert(ranked(s, before) =~= s);
    }
}

/// Inserting into a list in rank order leaves it in rank order, where of
/// any two items one may stand before the other.
pub proof fn lemma_inserted_in_order<T>(s: Seq<T>, x: T, before: spec_fn(T, T) -> bool)
    requires
        in_rank_order(s, before),
        forall|a: T, b: T| #[trigger] before(a, b) || before(b, a),
    ensures
        in_rank_order(inserted(s, x, before), before),
        inserted(s, x, before).len() == s.len() + 1,
        inserted(s, x, before).last() == x || (s.len() > 0 && inserted(s, x, before).last()
            == s.last()),
    decreases s.len(),
{
    if s.len() == 0 || before(s.last(), x) {
        let r = s.push(x);
        assert forall|i: int| 0 <= i < r.len() - 1 implies before(#[trigger] r[i], r[i + 1]) by {
            if i < s.len() - 1 {
                assert(before(s[i], s[i + 1]));
            }
        }
    } else {
        let init = s.drop_last();
        assert(in_rank_order(init, before)) by {
            assert forall|i: int| 0 <= i < init.len() - 1 implies before(
                #[trigger] init[i],
                init[i + 1],
            ) by {
                assert(before(s[i], s[i + 1]));
            }
        }
        lemma_inserted_in_order(init, x, before);
        let mid = inserted(init, x, before);
        let r = mid.push(s.last());
        assert(before(x, s.last()));
        assert forall|i: int| 0 <= i < r.len() - 1 implies before(#[trigger] r[i], r[i + 1]) by {
            if i < mid.len() - 1 {
                assert(before(mid[i], mid[i + 1]));
            } else {
                if mid.last() == x {
                } else {
                    assert(init.len() > 0 && mid.last() == init.last());
                    assert(before(s[s.len() - 2], s[s.len() - 2 + 1]));
                }
            }
        }
    }
}

/// An ordered list is in rank order, where of any two items one may stand
/// before the other.
pub proof fn lemma_ranked_in_order<T>(s: Seq<T>, before: spec_fn(T, T) -> bool)
    requires
        forall|a: T, b: T| #[trigger] before(a, b) || before(b, a),
    ensures
        in_rank_order(ranked(s, before), before),
    decreases s.len(),
{
    if s.len() > 0 {
        lemma_ranked_in_order(s.drop_last(), before);
        lemma_inserted_in_order(ranked(s.drop_last(), before), s.last(), before);
    }
}

/// Ordering commutes with a mapping that keeps the rank: ordering the
/// images gives the images of the ordered items.
pub proof fn lemma_ranked_map<T, U>(
    s: Seq<T>,
    before: spec_fn(T, T) -> bool,
    image: spec_fn(T) -> U,
    image_before: spec_fn(U, U) -> bool,
)
    requires
        forall|a: T, b: T| #[trigger] before(a, b) == image_before(image(a), image(b)),
    ensures
        ranked(s, before).map_values(image) == ranked(s.map_values(image), image_before),
    decreases s.len(),
{
    if s.len() == 0 {
        assert(ranked(s, before).map_values(image) =~= ranked(
            s.map_values(image),
            image_before,
        ));
    } else {
        let init = s.drop_last();
        lemma_ranked_map(init, before, image, image_before);
        assert(s.map_values(image).drop_last() =~= init.map_values(image));
        lemma_inserted_map(ranked(init, before), s.last(), before, image, image_before);
    }
}

/// Inserting commutes with a mapping that keeps the rank.
pub proof fn lemma_inserted_map<T, U>(
    s: Seq<T>,
    x: T,
    before: spec_fn(T, T) -> bool,
    image: spec_fn(T) -> U,
    image_before: spec_fn(U, U) -> bool,
)
    requires
        forall|a: T, b: T| #[trigger] before(a, b) == image_before(image(a), image(b)),
    ensures
        inserted(s, x, before).map_values(image) == inserted(
            s.map_values(image),
            image(x),
            image_before,
        ),
    decreases s.len(),
{
    let t = s.map_values(image);
    if s.len() == 0 || before(s.last(), x) {
        assert(s.push(x).map_values(image) =~= t.push(image(x)));
        if s.len() > 0 {
            assert(before(s.last(), x) == image_before(image(s.last()), image(x)));
        }
    } else {
        assert(before(s.last(), x) == image_before(image(s.last()), image(x)));
        lemma_inserted_map(s.drop_last(), x, before, image, image_before);
        assert(t.drop_last() =~= s.drop_last().map_values(image));
        assert(inserted(s.drop_last(), x, before).push(s.last()).map_values(image)
            =~= inserted(s.drop_last(), x, before).map_values(image).push(image(s.last())));
    }
}

/// Puts the items of `items` in rank order; items of equal rank keep their
/// order.
pub fn sort_ranked<T: Ranked>(items: Vec<T>) -> (r: Vec<T>)
    ensures
        r@ == ranked(items@, rank_of::<T>()),
{
    let mut rest = items;
    let mut out: Vec<T> = Vec::new();
    let ghost done: int = 0;
    let ghost before = rank_of::<T>();
    while rest.len() > 0
        invariant
            0 <= done <= items@.len(),
            before == rank_of::<T>(),
            rest@ == items@.skip(done),
            out@ == ranked(items@.take(done), before),
        decreases rest.len(),
    {
        let x = rest.remove(0);
        let mut j: usize = out.len();
        while j > 0 && !out[j - 1].is_ranked_before(&x)
            invariant
                j <= out.len(),
                before == rank_of::<T>(),
                forall|k: int| j <= k < out.len() ==> !before(#[trigger] out@[k], x),
            decreases j,
        {
            j -= 1;
        }
        proof {
            lemma_inserted_at(out@, x, j as int, before);
            assert(items@.take(done + 1).drop_last() =~= items@.take(done));
            assert(items@.take(done + 1).last() == x);
            assert(items@.skip(done).remove(0) =~= items@.skip(done + 1));
            done = done + 1;
        }
        out.insert(j, x);
    }
    assert(items@.take(done) =~= items@);
    out
}

} // verus!
