//! Searching and cutting sequences.

use vstd::prelude::*;

verus! {

/// The place of the first item of `s` that `p` holds of, if there is one.
pub open spec fn first_index<T>(s: Seq<T>, p: spec_fn(T) -> bool) -> Option<int>
    decreases s.len(),
{
    if s.len() == 0 {
        None
    } else {
        match first_index(s.drop_last(), p) {
            Some(i) => Some(i),
            None => if p(s.last()) {
                Some(s.len() - 1)
            } else {
                None
            },
        }
    }
}

/// The first item is in range, `p` holds of it and of none before it; with
/// no first item, `p` holds of no item.
pub proof fn lemma_first_index<T>(s: Seq<T>, p: spec_fn(T) -> bool)
    ensures
        match first_index(s, p) {
            Some(i) => 0 <= i < s.len() && p(s[i]) && forall|j: int| 0 <= j < i ==> !p(#[trigger] s[j]),
            None => forall|j: int| 0 <= j < s.len() ==> !p(#[trigger] s[j]),
        },
    decreases s.len(),
{
    if s.len() > 0 {
        lemma_first_index(s.drop_last(), p);
        match first_index(s.drop_last(), p) {
            Some(i) => {
                assert forall|j: int| 0 <= j < i implies !p(#[trigger] s[j]) by {
                    assert(s[j] == s.drop_last()[j]);
                }
                assert(s[i] == s.drop_last()[i]);
            },
            None => {
                assert forall|j: int| 0 <= j < s.len() - 1 implies !p(#[trigger] s[j]) by {
                    assert(s[j] == s.drop_last()[j]);
                }
            },
        }
    }
}

/// An item that `p` holds of, with none before it, is the first.
pub proof fn lemma_first_index_is<T>(s: Seq<T>, p: spec_fn(T) -> bool, i: int)
    requires
        0 <= i < s.len(),
        p(s[i]),
        forall|j: int| 0 <= j < i ==> !p(#[trigger] s[j]),
    ensures
        first_index(s, p) == Some(i),
{
    lemma_first_index(s, p);
}

/// Where `p` holds of no item, there is no first.
pub proof fn lemma_first_index_none<T>(s: Seq<T>, p: spec_fn(T) -> bool)
    requires
        forall|j: int| 0 <= j < s.len() ==> !p(#[trigger] s[j]),
    ensures
        first_index(s, p) is None,
{
    lemma_first_index(s, p);
}

/// The part of `s` that a limit and an offset leave: without the first
/// `offset` items, and then at most `limit` items. A negative offset cuts
/// nothing off the start; a negative limit, or none, nothing off the end.
pub open spec fn window<T>(s: Seq<T>, limit: Option<i64>, offset: Option<i64>) -> Seq<T> {
    let start = match offset {
        Some(n) => if n < 0 {
            0
        } else if n > s.len() {
            s.len() as int
        } else {
            n as int
        },
        None => 0,
    };
    let rest = s.skip(start);
    match limit {
        Some(n) => if 0 <= n && n < rest.len() {
            rest.take(n as int)
        } else {
            rest
        },
        None => rest,
    }
}

/// Filtering the items up to and with place `i` adds that item, where `p`
/// holds of it, to the filtered items before it.
pub proof fn lemma_filter_step<T>(s: Seq<T>, p: spec_fn(T) -> bool, i: int)
    requires
        0 <= i < s.len(),
    ensures
        s.take(i + 1).filter(p) == if p(s[i]) {
            s.take(i).filter(p).push(s[i])
        } else {
            s.take(i).filter(p)
        },
{
    reveal(Seq::filter);
    assert(s.take(i + 1).drop_last() =~= s.take(i));
}

/// The part of a list that a limit and an offset leave.
pub fn cut_window<T>(items: Vec<T>, limit: Option<i64>, offset: Option<i64>) -> (r: Vec<T>)
    ensures
        r@ == window(items@, limit, offset),
{
    let ghost all = items@;
    let mut items = items;
    let start: usize = match offset {
        Some(n) => if n < 0 {
            0
        } else if n as u64 > items.len() as u64 {
            items.len()
        } else {
            n as usize
        },
        None => 0,
    };
    let mut rest = items.split_off(start);
    assert(rest@ =~= all.skip(start as int));
    match limit {
        Some(n) => if 0 <= n && (n as u64) < rest.len() as u64 {
            rest.truncate(n as usize);
            assert(rest@ =~= all.skip(start as int).take(n as int));
        },
        None => {},
    }
    rest
}

/// Cutting a window commutes with mapping the items.
pub proof fn lemma_window_map<T, U>(
    s: Seq<T>,
    image: spec_fn(T) -> U,
    limit: Option<i64>,
    offset: Option<i64>,
)
    ensures
        window(s, limit, offset).map_values(image) == window(s.map_values(image), limit, offset),
{
    assert(window(s, limit, offset).map_values(image) =~= window(
        s.map_values(image),
        limit,
        offset,
    ));
}

/// Where in a list of `len` items the window of an offset starts.
pub open spec fn window_start(len: nat, offset: Option<i64>) -> int {
    match offset {
        Some(n) => if n < 0 {
            0
        } else if n > len {
            len as int
        } else {
            n as int
        },
        None => 0,
    }
}

/// A window of a list is a run of items of the list, from the window's
/// start on, and no longer than a limit that is not negative.
pub proof fn lemma_window_is_a_run<T>(s: Seq<T>, limit: Option<i64>, offset: Option<i64>)
    ensures
        0 <= window_start(s.len(), offset),
        window_start(s.len(), offset) + window(s, limit, offset).len() <= s.len(),
        forall|i: int|
            0 <= i < window(s, limit, offset).len() ==> #[trigger] window(s, limit, offset)[i]
                == s[window_start(s.len(), offset) + i],
        limit matches Some(n) ==> n >= 0 ==> window(s, limit, offset).len() <= n,
{
}

} // verus!
