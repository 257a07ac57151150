//! Putting things in order, those that are the same staying as they were.
use vstd::prelude::*;

verus! {

/// `s` with `x` put in behind every element that `x` does not come before.
pub open spec fn insert_in_order<T>(s: Seq<T>, x: T, before: spec_fn(T, T) -> bool) -> Seq<T>
    decreases s.len(),
{
    if s.len() == 0 {
        seq![x]
    } else if before(x, s.last()) {
        insert_in_order(s.drop_last(), x, before).push(s.last())
    } else {
        s.push(x)
    }
}

/// The elements of `s` in the order of `before`; elements of which neither
/// comes before the other stay in the order in which `s` has them.
pub open spec fn in_order<T>(s: Seq<T>, before: spec_fn(T, T) -> bool) -> Seq<T>
    decreases s.len(),
{
    if s.len() == 0 {
        Seq::empty()
    } else {
        insert_in_order(in_order(s.drop_last(), before), s.last(), before)
    }
}

/// No element of `s` stands behind one that it comes before.
pub open spec fn is_in_order<T>(s: Seq<T>, before: spec_fn(T, T) -> bool) -> bool {
    forall|i: int, j: int| 0 <= i < j < s.len() ==> !before(#[trigger] s[j], #[trigger] s[i])
}

/// `before` orders in ranks: nothing comes before itself or before what
/// comes before it, and what comes before neither of two that follow one
/// another comes before neither.
pub open spec fn ranks<T>(before: spec_fn(T, T) -> bool) -> bool {
    &&& forall|a: T, b: T| #[trigger] before(a, b) ==> !before(b, a)
    &&& forall|a: T, b: T, c: T|
        !#[trigger] before(b, a) && !#[trigger] before(c, b) ==> !before(c, a)
}

/// Putting `x` in puts it at `pos`, where `x` comes before everything from
/// `pos` on and not before what stands just before `pos`.
pub proof fn lemma_insert_at<T>(s: Seq<T>, x: T, before: spec_fn(T, T) -> bool, pos: int)
    requires
        0 <= pos <= s.len(),
        forall|k: int| pos <= k < s.len() ==> before(x, #[trigger] s[k]),
        pos > 0 ==> !before(x, s[pos - 1]),
    ensures
        insert_in_order(s, x, before) == s.insert(pos, x),
    decreases s.len(),
{
    if s.len() == 0 {
        assert(seq![x] =~= s.insert(pos, x));
    } else if pos == s.len() {
        assert(s.push(x) =~= s.insert(pos, x));
    } else {
        lemma_insert_at(s.drop_last(), x, before, pos);
        assert(s.drop_last().insert(pos, x).push(s.last()) =~= s.insert(pos, x));
    }
}

/// Putting an element in keeps the order, and adds that element and
/// nothing else.
pub proof fn lemma_insert_in_order<T>(s: Seq<T>, x: T, before: spec_fn(T, T) -> bool)
    requires
        ranks(before),
        is_in_order(s, before),
    ensures
        is_in_order(insert_in_order(s, x, before), before),
        insert_in_order(s, x, before).to_multiset() == s.to_multiset().insert(x),
        insert_in_order(s, x, before).len() == s.len() + 1,
        forall|i: int|
            0 <= i < s.len() + 1 ==> (#[trigger] insert_in_order(s, x, before)[i]) == x
                || s.contains(insert_in_order(s, x, before)[i]),
    decreases s.len(),
{
    let r = insert_in_order(s, x, before);
    if s.len() == 0 {
        assert(r =~= s.push(x));
        vstd::seq_lib::to_multiset_build(s, x);
    } else if before(x, s.last()) {
        let front = s.drop_last();
        let last = s.last();
        assert forall|i: int, j: int| 0 <= i < j < front.len() implies !before(
            #[trigger] front[j],
            #[trigger] front[i],
        ) by {
            assert(front[i] == s[i] && front[j] == s[j]);
        }
        lemma_insert_in_order(front, x, before);
        let inner = insert_in_order(front, x, before);
        assert(s =~= front.push(last));
        vstd::seq_lib::to_multiset_build(front, last);
        vstd::seq_lib::to_multiset_build(inner, last);
        assert(r.to_multiset() =~= s.to_multiset().insert(x));
        assert forall|i: int| 0 <= i < s.len() + 1 implies (#[trigger] r[i]) == x || s.contains(
            r[i],
        ) by {
            if i < inner.len() {
                assert(r[i] == inner[i]);
                if inner[i] != x {
                    let w = choose|w: int| 0 <= w < front.len() && front[w] == inner[i];
                    assert(s[w] == r[i]);
                }
            } else {
                assert(s[s.len() - 1] == r[i]);
            }
        }
        assert forall|i: int, j: int| 0 <= i < j < r.len() implies !before(
            #[trigger] r[j],
            #[trigger] r[i],
        ) by {
            if j < inner.len() {
                assert(r[i] == inner[i] && r[j] == inner[j]);
            } else {
                assert(r[j] == last);
                assert(r[i] == inner[i]);
                if inner[i] != x {
                    let w = choose|w: int| 0 <= w < front.len() && front[w] == inner[i];
                    assert(s[w] == r[i]);
                    assert(!before(s[s.len() - 1], s[w]));
                }
            }
        }
    } else {
        vstd::seq_lib::to_multiset_build(s, x);
        assert forall|i: int| 0 <= i < s.len() + 1 implies (#[trigger] r[i]) == x || s.contains(
            r[i],
        ) by {
            if i < s.len() {
                assert(s[i] == r[i]);
            }
        }
        assert forall|i: int, j: int| 0 <= i < j < r.len() implies !before(
            #[trigger] r[j],
            #[trigger] r[i],
        ) by {
            if j < s.len() {
                assert(r[i] == s[i] && r[j] == s[j]);
            } else {
                assert(r[i] == s[i]);
                if i < s.len() - 1 {
                    assert(!before(s[s.len() - 1], s[i]));
                }
            }
        }
    }
}

/// Putting things in order gives the same things, as many times each, in
/// order.
pub proof fn lemma_in_order<T>(s: Seq<T>, before: spec_fn(T, T) -> bool)
    requires
        ranks(before),
    ensures
        is_in_order(in_order(s, before), before),
        in_order(s, before).to_multiset() == s.to_multiset(),
        in_order(s, before).len() == s.len(),
    decreases s.len(),
{
    if s.len() == 0 {
        assert(s =~= Seq::empty());
    } else {
        lemma_in_order(s.drop_last(), before);
        lemma_insert_in_order(in_order(s.drop_last(), before), s.last(), before);
        assert(s =~= s.drop_last().push(s.last()));
        vstd::seq_lib::to_multiset_build(s.drop_last(), s.last());
        assert(s.drop_last().push(s.last()).to_multiset() == s.to_multiset());
    }
}

/// What is in order already stays as it is: nothing changes places, and
/// so elements of which neither comes before the other keep their order.
pub proof fn lemma_in_order_keeps<T>(s: Seq<T>, before: spec_fn(T, T) -> bool)
    requires
        is_in_order(s, before),
    ensures
        in_order(s, before) == s,
    decreases s.len(),
{
    if s.len() == 0 {
        assert(s =~= Seq::empty());
    } else {
        let front = s.drop_last();
        assert forall|i: int, j: int| 0 <= i < j < front.len() implies !before(
            #[trigger] front[j],
            #[trigger] front[i],
        ) by {
            assert(front[i] == s[i] && front[j] == s[j]);
        }
        lemma_in_order_keeps(front, before);
        if front.len() > 0 {
            assert(front.last() == s[s.len() - 2]);
            assert(!before(s[s.len() - 1], s[s.len() - 2]));
        }
        assert(front.push(s.last()) =~= s);
    }
}

/// What comes before something stands in front of it, once things are in
/// order.
pub proof fn lemma_before_stands_in_front<T>(
    s: Seq<T>,
    before: spec_fn(T, T) -> bool,
    i: int,
    j: int,
)
    requires
        ranks(before),
        0 <= i < in_order(s, before).len(),
        0 <= j < in_order(s, before).len(),
        before(in_order(s, before)[i], in_order(s, before)[j]),
    ensures
        i < j,
{
    lemma_in_order(s, before);
    let r = in_order(s, before);
    if j < i {
        assert(!before(r[i], r[j]));
    }
}

/// Puts `items` in the order of `rel`, which `before` decides; items of
/// which neither comes before the other stay in the order in which they
/// were.
pub(crate) fn sort_in_order<T, F: Fn(&T, &T) -> bool>(
    items: &mut Vec<T>,
    before: F,
    Ghost(rel): Ghost<spec_fn(T, T) -> bool>,
)
    requires
        forall|a: &T, b: &T| call_requires(before, (a, b)),
        forall|a: &T, b: &T, r: bool| call_ensures(before, (a, b), r) ==> r == rel(*a, *b),
    ensures
        final(items)@ == in_order(old(items)@, rel),
{
    let ghost orig = items@;
    let mut i: usize = 0;
    proof {
        assert(orig.take(0) =~= Seq::empty());
        assert(items@ =~= in_order(orig.take(0), rel) + orig.skip(0));
    }
    while i < items.len()
        invariant
            i <= items.len(),
            items.len() == orig.len(),
            forall|a: &T, b: &T| call_requires(before, (a, b)),
            forall|a: &T, b: &T, r: bool| call_ensures(before, (a, b), r) ==> r == rel(*a, *b),
            items@ == in_order(orig.take(i as int), rel) + orig.skip(i as int),
            in_order(orig.take(i as int), rel).len() == i,
        decreases items.len() - i,
    {
        let ghost sorted = in_order(orig.take(i as int), rel);
        let ghost x = orig[i as int];
        proof {
            assert(orig.take(i + 1).drop_last() =~= orig.take(i as int));
            assert(orig.take(i + 1).last() == x);
            assert(items@[i as int] == x);
            assert(forall|k: int| 0 <= k < i ==> items@[k] == sorted[k]);
        }
        let mut pos: usize = i;
        let mut searching = true;
        while searching && pos > 0
            invariant
                pos <= i < items.len(),
                items@[i as int] == x,
                forall|k: int| 0 <= k < i ==> items@[k] == sorted[k],
                sorted.len() == i,
                forall|a: &T, b: &T| call_requires(before, (a, b)),
                forall|a: &T, b: &T, r: bool|
                    call_ensures(before, (a, b), r) ==> r == rel(*a, *b),
                forall|k: int| pos <= k < i ==> rel(x, #[trigger] sorted[k]),
                !searching ==> pos > 0 && !rel(x, sorted[pos - 1]),
            decreases pos + if searching {
                    1int
                } else {
                    0int
                },
        {
            if before(&items[i], &items[pos - 1]) {
                pos = pos - 1;
            } else {
                searching = false;
            }
        }
        proof {
            lemma_insert_at(sorted, x, rel, pos as int);
        }
        if pos < i {
            let moved = items.remove(i);
            items.insert(pos, moved);
        }
        proof {
            assert(items@ =~= sorted.insert(pos as int, x) + orig.skip(i + 1));
        }
        i = i + 1;
    }
    proof {
        assert(orig.take(i as int) =~= orig);
        assert(orig.skip(i as int) =~= Seq::empty());
        assert(items@ =~= in_order(orig, rel));
    }
}

} // verus!
