//! Specifications of the ways in which discovery walks a list.

use vstd::prelude::*;

verus! {

/// What `f` gives for the first item of `items` for which it gives anything.
pub open spec fn first_some<A, B>(items: Seq<A>, f: spec_fn(A) -> Option<B>) -> Option<B>
    decreases items.len(),
{
    if items.len() == 0 {
        None
    } else {
        match f(items[0]) {
            Some(b) => Some(b),
            None => first_some(items.subrange(1, items.len() as int), f),
        }
    }
}

/// What `f` gives for the items of `items`, in order, without the items for
/// which it gives nothing.
pub open spec fn collect<A, B>(items: Seq<A>, f: spec_fn(A) -> Option<B>) -> Seq<B>
    decreases items.len(),
{
    if items.len() == 0 {
        seq![]
    } else {
        let rest = collect(items.drop_last(), f);
        match f(items.last()) {
            Some(b) => rest.push(b),
            None => rest,
        }
    }
}

/// The items of `items` that meet `keep`, in order.
pub open spec fn select<A>(items: Seq<A>, keep: spec_fn(A) -> bool) -> Seq<A>
    decreases items.len(),
{
    if items.len() == 0 {
        seq![]
    } else {
        let rest = select(items.drop_last(), keep);
        if keep(items.last()) {
            rest.push(items.last())
        } else {
            rest
        }
    }
}

/// One step of `first_some`: the answer for `items[i..]` is that for `items[i]`,
/// or else the answer for `items[i + 1..]`.
pub proof fn lemma_first_some_step<A, B>(items: Seq<A>, f: spec_fn(A) -> Option<B>, i: int)
    requires
        0 <= i < items.len(),
    ensures
        first_some(items.subrange(i, items.len() as int), f) == match f(items[i]) {
            Some(b) => Some(b),
            None => first_some(items.subrange(i + 1, items.len() as int), f),
        },
{
    let tail = items.subrange(i, items.len() as int);
    assert(tail[0] == items[i]);
    assert(tail.subrange(1, tail.len() as int) == items.subrange(i + 1, items.len() as int));
}

/// One step of `collect`: the answer for `items[..i + 1]` is that for
/// `items[..i]`, with what `f` gives for `items[i]` behind it.
pub proof fn lemma_collect_step<A, B>(items: Seq<A>, f: spec_fn(A) -> Option<B>, i: int)
    requires
        0 <= i < items.len(),
    ensures
        collect(items.take(i + 1), f) == match f(items[i]) {
            Some(b) => collect(items.take(i), f).push(b),
            None => collect(items.take(i), f),
        },
{
    assert(items.take(i + 1).drop_last() == items.take(i));
    assert(items.take(i + 1).last() == items[i]);
}

/// One step of `select`.
pub proof fn lemma_select_step<A>(items: Seq<A>, keep: spec_fn(A) -> bool, i: int)
    requires
        0 <= i < items.len(),
    ensures
        select(items.take(i + 1), keep) == if keep(items[i]) {
            select(items.take(i), keep).push(items[i])
        } else {
            select(items.take(i), keep)
        },
{
    assert(items.take(i + 1).drop_last() == items.take(i));
    assert(items.take(i + 1).last() == items[i]);
}

/// The index of the first item of `items` that meets `wanted`.
pub open spec fn first_index<A>(items: Seq<A>, wanted: spec_fn(A) -> bool) -> Option<int>
    decreases items.len(),
{
    if items.len() == 0 {
        None
    } else if wanted(items[0]) {
        Some(0)
    } else {
        match first_index(items.subrange(1, items.len() as int), wanted) {
            Some(i) => Some(i + 1),
            None => None,
        }
    }
}

/// `first_index` gives the least index of an item that meets `wanted`, and
/// none only where no item does.
pub proof fn lemma_first_index<A>(items: Seq<A>, wanted: spec_fn(A) -> bool)
    ensures
        match first_index(items, wanted) {
            Some(i) => 0 <= i < items.len() && wanted(items[i]) && forall|j: int|
                0 <= j < i ==> !wanted(#[trigger] items[j]),
            None => forall|j: int| 0 <= j < items.len() ==> !wanted(#[trigger] items[j]),
        },
    decreases items.len(),
{
    if items.len() == 0 {
    } else if wanted(items[0]) {
    } else {
        let rest = items.subrange(1, items.len() as int);
        lemma_first_index(rest, wanted);
        match first_index(rest, wanted) {
            Some(i) => {
                assert(rest[i] == items[i + 1]);
                assert forall|j: int| 0 <= j < i + 1 implies !wanted(#[trigger] items[j]) by {
                    if j > 0 {
                        assert(rest[j - 1] == items[j]);
                    }
                }
            },
            None => {
                assert forall|j: int| 0 <= j < items.len() implies !wanted(
                    #[trigger] items[j],
                ) by {
                    if j > 0 {
                        assert(rest[j - 1] == items[j]);
                    }
                }
            },
        }
    }
}

/// Every item of `select(items, keep)` is an item of `items` that meets `keep`.
pub proof fn lemma_select_members<A>(items: Seq<A>, keep: spec_fn(A) -> bool)
    ensures
        forall|k: int|
            0 <= k < select(items, keep).len() ==> keep(#[trigger] select(items, keep)[k])
                && items.contains(select(items, keep)[k]),
    decreases items.len(),
{
    if items.len() > 0 {
        let rest = select(items.drop_last(), keep);
        lemma_select_members(items.drop_last(), keep);
        assert forall|k: int| 0 <= k < select(items, keep).len() implies keep(
            #[trigger] select(items, keep)[k],
        ) && items.contains(select(items, keep)[k]) by {
            if k < rest.len() {
                assert(select(items, keep)[k] == rest[k]);
                let w = choose|w: int| 0 <= w < items.drop_last().len() && items.drop_last()[w] == rest[k];
                assert(items[w] == rest[k]);
            } else {
                assert(select(items, keep)[k] == items.last());
                assert(items[items.len() - 1] == items.last());
            }
        }
    }
}

/// The first item for which `f` gives something decides `first_some`.
pub proof fn lemma_first_some_at<A, B>(items: Seq<A>, f: spec_fn(A) -> Option<B>, k: int)
    requires
        0 <= k < items.len(),
        forall|j: int| 0 <= j < k ==> f(#[trigger] items[j]) is None,
        f(items[k]) is Some,
    ensures
        first_some(items, f) == f(items[k]),
    decreases k,
{
    if k > 0 {
        let rest = items.subrange(1, items.len() as int);
        assert(f(items[0]) is None);
        assert forall|j: int| 0 <= j < k - 1 implies f(#[trigger] rest[j]) is None by {
            assert(rest[j] == items[j + 1]);
        }
        assert(rest[k - 1] == items[k]);
        lemma_first_some_at(rest, f, k - 1);
    }
}

/// Where `f` gives nothing for any item, `first_some` gives nothing.
pub proof fn lemma_first_some_of_none<A, B>(items: Seq<A>, f: spec_fn(A) -> Option<B>)
    requires
        forall|j: int| 0 <= j < items.len() ==> f(#[trigger] items[j]) is None,
    ensures
        first_some(items, f) is None,
    decreases items.len(),
{
    if items.len() > 0 {
        let rest = items.subrange(1, items.len() as int);
        assert(f(items[0]) is None);
        assert forall|j: int| 0 <= j < rest.len() implies f(#[trigger] rest[j]) is None by {
            assert(rest[j] == items[j + 1]);
        }
        lemma_first_some_of_none(rest, f);
    }
}

/// An item of `items` that `keep` keeps is among `select(items, keep)`.
pub proof fn lemma_select_holds<A>(items: Seq<A>, keep: spec_fn(A) -> bool, item: A)
    requires
        items.contains(item),
        keep(item),
    ensures
        select(items, keep).contains(item),
    decreases items.len(),
{
    let k = choose|k: int| 0 <= k < items.len() && items[k] == item;
    let rest = select(items.drop_last(), keep);
    if k == items.len() - 1 {
        assert(select(items, keep) == rest.push(item));
        assert(rest.push(item)[rest.len() as int] == item);
    } else {
        assert(items.drop_last()[k] == item);
        lemma_select_holds(items.drop_last(), keep, item);
        let at = choose|at: int| 0 <= at < rest.len() && rest[at] == item;
        if keep(items.last()) {
            assert(rest.push(items.last())[at] == item);
        }
    }
}

/// What `first_some` gives is what `f` gives for one of the items.
pub proof fn lemma_first_some_member<A, B>(items: Seq<A>, f: spec_fn(A) -> Option<B>)
    requires
        first_some(items, f) is Some,
    ensures
        exists|k: int| 0 <= k < items.len() && f(#[trigger] items[k]) == first_some(items, f),
    decreases items.len(),
{
    if f(items[0]) is None {
        let rest = items.subrange(1, items.len() as int);
        lemma_first_some_member(rest, f);
        let k = choose|k: int| 0 <= k < rest.len() && f(#[trigger] rest[k]) == first_some(rest, f);
        assert(rest[k] == items[k + 1]);
    }
}

/// Every item of `collect(items, f)` is what `f` gives for an item of `items`.
pub proof fn lemma_collect_members<A, B>(items: Seq<A>, f: spec_fn(A) -> Option<B>)
    ensures
        forall|k: int|
            0 <= k < collect(items, f).len() ==> exists|i: int|
                0 <= i < items.len() && f(#[trigger] items[i]) == Some(#[trigger] collect(items, f)[k]),
    decreases items.len(),
{
    if items.len() > 0 {
        let rest = collect(items.drop_last(), f);
        lemma_collect_members(items.drop_last(), f);
        assert forall|k: int| 0 <= k < collect(items, f).len() implies exists|i: int|
            0 <= i < items.len() && f(#[trigger] items[i]) == Some(
                #[trigger] collect(items, f)[k],
            ) by {
            if k < rest.len() {
                assert(collect(items, f)[k] == rest[k]);
                let i = choose|i: int|
                    0 <= i < items.drop_last().len() && f(#[trigger] items.drop_last()[i]) == Some(
                        rest[k],
                    );
                assert(items[i] == items.drop_last()[i]);
            } else {
                assert(f(items[items.len() - 1]) == Some(collect(items, f)[k]));
            }
        }
    }
}

} // verus!
