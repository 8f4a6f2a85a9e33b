//! Orders, and lists that are sorted by them.
use vstd::prelude::*;

verus! {

/// The numbers of a sequence of characters.
pub open spec fn char_codes(s: Seq<char>) -> Seq<int> {
    s.map_values(|c: char| c as int)
}

/// Whether a sequence of numbers comes before another, as words do in a dictionary.
pub open spec fn lexical(a: Seq<int>, b: Seq<int>) -> bool
    decreases a.len(),
{
    if b.len() == 0 {
        false
    } else if a.len() == 0 {
        true
    } else if a[0] != b[0] {
        a[0] < b[0]
    } else {
        lexical(a.drop_first(), b.drop_first())
    }
}

/// Of two sequences at most one comes before the other, and none before itself.
pub proof fn lemma_lexical_asymmetric(a: Seq<int>, b: Seq<int>)
    ensures
        !(lexical(a, b) && lexical(b, a)),
    decreases a.len(),
{
    if a.len() > 0 && b.len() > 0 && a[0] == b[0] {
        lemma_lexical_asymmetric(a.drop_first(), b.drop_first());
    }
}

/// What follows two sequences of one length does not change which comes first.
pub proof fn lemma_lexical_extended(a: Seq<int>, b: Seq<int>, x: Seq<int>, y: Seq<int>)
    requires
        a.len() == b.len(),
        lexical(a, b),
    ensures
        lexical(a + x, b + y),
    decreases a.len(),
{
    if a[0] == b[0] {
        lemma_lexical_extended(a.drop_first(), b.drop_first(), x, y);
        assert((a + x).drop_first() =~= a.drop_first() + x);
        assert((b + y).drop_first() =~= b.drop_first() + y);
    }
}

/// What is not before a second sequence, which is not before a third, is not before the third.
pub proof fn lemma_lexical_chain(a: Seq<int>, b: Seq<int>, c: Seq<int>)
    requires
        !lexical(a, b),
        !lexical(b, c),
    ensures
        !lexical(a, c),
    decreases a.len(),
{
    if a.len() > 0 && b.len() > 0 && c.len() > 0 && a[0] == b[0] && b[0] == c[0] {
        lemma_lexical_chain(a.drop_first(), b.drop_first(), c.drop_first());
    }
}

/// Two sequences of which neither comes first are the same.
pub proof fn lemma_lexical_total(a: Seq<int>, b: Seq<int>)
    requires
        !lexical(a, b),
        !lexical(b, a),
    ensures
        a == b,
    decreases a.len(),
{
    if a.len() > 0 && b.len() > 0 {
        lemma_lexical_total(a.drop_first(), b.drop_first());
        assert(a =~= seq![a[0]] + a.drop_first());
        assert(b =~= seq![b[0]] + b.drop_first());
    } else {
        assert(a =~= b);
    }
}

/// Whether a relation can order a list: it holds at most one way round, and what does not hold
/// between neighbours does not hold further apart.
pub open spec fn can_order<A>(before: spec_fn(A, A) -> bool) -> bool {
    &&& forall|x: A, y: A| #[trigger] before(x, y) ==> !before(y, x)
    &&& forall|x: A, y: A, z: A|
        !(#[trigger] before(x, y)) && !(#[trigger] before(y, z)) ==> !before(x, z)
}

/// Whether no item of a list comes before one that stands ahead of it.
pub open spec fn in_order<A>(list: Seq<A>, before: spec_fn(A, A) -> bool) -> bool {
    forall|i: int, j: int|
        0 <= i < j < list.len() ==> !before(#[trigger] list[j], #[trigger] list[i])
}

/// A list with one more item, which stands ahead of those at the end that it comes before.
pub open spec fn inserted<A>(list: Seq<A>, item: A, before: spec_fn(A, A) -> bool) -> Seq<A>
    decreases list.len(),
{
    if list.len() == 0 {
        seq![item]
    } else if before(item, list.last()) {
        inserted(list.drop_last(), item, before).push(list.last())
    } else {
        list.push(item)
    }
}

/// A list in order; items of which neither comes first keep their places.
pub open spec fn sorted<A>(list: Seq<A>, before: spec_fn(A, A) -> bool) -> Seq<A>
    decreases list.len(),
{
    if list.len() == 0 {
        Seq::empty()
    } else {
        inserted(sorted(list.drop_last(), before), list.last(), before)
    }
}

/// What comes before none of a list and not before a further item comes before none of the list
/// with that item.
proof fn lemma_inserted_above<A>(
    list: Seq<A>,
    item: A,
    before: spec_fn(A, A) -> bool,
    x: A,
)
    requires
        forall|i: int| 0 <= i < list.len() ==> !before(x, #[trigger] list[i]),
        !before(x, item),
    ensures
        forall|i: int|
            0 <= i < inserted(list, item, before).len() ==> !before(
                x,
                #[trigger] inserted(list, item, before)[i],
            ),
    decreases list.len(),
{
    let all = inserted(list, item, before);
    if list.len() > 0 && before(item, list.last()) {
        let front = list.drop_last();
        assert forall|i: int| 0 <= i < front.len() implies !before(x, #[trigger] front[i]) by {
            assert(front[i] == list[i]);
        }
        lemma_inserted_above(front, item, before, x);
        let head = inserted(front, item, before);
        assert forall|i: int| 0 <= i < all.len() implies !before(x, #[trigger] all[i]) by {
            if i < head.len() {
                assert(all[i] == head[i]);
            } else {
                assert(all[i] == list[list.len() - 1]);
            }
        }
    } else if list.len() > 0 {
        assert forall|i: int| 0 <= i < all.len() implies !before(x, #[trigger] all[i]) by {
            if i < list.len() {
                assert(all[i] == list[i]);
            }
        }
    }
}

proof fn lemma_inserted<A>(list: Seq<A>, item: A, before: spec_fn(A, A) -> bool)
    requires
        can_order(before),
        in_order(list, before),
    ensures
        in_order(inserted(list, item, before), before),
        inserted(list, item, before).to_multiset() == list.to_multiset().insert(item),
        inserted(list, item, before).len() == list.len() + 1,
    decreases list.len(),
{
    broadcast use vstd::seq_lib::group_to_multiset_ensures;

    let all = inserted(list, item, before);
    if list.len() == 0 {
        assert(all =~= Seq::<A>::empty().push(item));
        assert(list =~= Seq::<A>::empty());
    } else if before(item, list.last()) {
        let front = list.drop_last();
        let last = list.last();
        assert(list =~= front.push(last));
        assert forall|i: int, j: int| 0 <= i < j < front.len() implies !before(
            #[trigger] front[j],
            #[trigger] front[i],
        ) by {
            assert(front[i] == list[i]);
            assert(front[j] == list[j]);
        }
        lemma_inserted(front, item, before);
        let head = inserted(front, item, before);
        assert forall|i: int| 0 <= i < front.len() implies !before(last, #[trigger] front[i]) by {
            assert(front[i] == list[i]);
            assert(last == list[list.len() - 1]);
        }
        lemma_inserted_above(front, item, before, last);
        assert(head.push(last).to_multiset() =~= list.to_multiset().insert(item));
    } else {
        let last = list.last();
        assert forall|i: int, j: int| 0 <= i < j < all.len() implies !before(
            #[trigger] all[j],
            #[trigger] all[i],
        ) by {
            if j == list.len() && i < list.len() - 1 {
                assert(!before(list[list.len() - 1], list[i]));
                assert(!before(item, last) && !before(last, list[i]));
            }
        }
    }
}

/// A sorted list is in order and holds each item as often as the list that was sorted.
pub proof fn law_sorted_is_in_order<A>(list: Seq<A>, before: spec_fn(A, A) -> bool)
    requires
        can_order(before),
    ensures
        in_order(sorted(list, before), before),
        sorted(list, before).to_multiset() == list.to_multiset(),
        sorted(list, before).len() == list.len(),
    decreases list.len(),
{
    broadcast use vstd::seq_lib::group_to_multiset_ensures;

    if list.len() > 0 {
        law_sorted_is_in_order(list.drop_last(), before);
        lemma_inserted(sorted(list.drop_last(), before), list.last(), before);
        assert(list =~= list.drop_last().push(list.last()));
    } else {
        assert(list =~= Seq::<A>::empty());
    }
}

/// Of two sequences the one that is smaller where they first differ comes first; of one that starts
/// with the other, the shorter one does.
pub proof fn law_the_first_difference_decides(a: Seq<int>, b: Seq<int>, at: int)
    requires
        0 <= at <= a.len(),
        at <= b.len(),
        forall|i: int| 0 <= i < at ==> a[i] == b[i],
    ensures
        at < a.len() && at < b.len() && a[at] < b[at] ==> lexical(a, b) && !lexical(b, a),
        at == a.len() && at < b.len() ==> lexical(a, b) && !lexical(b, a),
        at == a.len() && at == b.len() ==> !lexical(a, b) && !lexical(b, a),
    decreases at,
{
    if at > 0 {
        assert(a[0] == b[0]);
        let x = a.drop_first();
        let y = b.drop_first();
        assert forall|i: int| 0 <= i < at - 1 implies x[i] == y[i] by {
            assert(x[i] == a[i + 1]);
            assert(y[i] == b[i + 1]);
        }
        law_the_first_difference_decides(x, y, at - 1);
    }
}

} // verus!
