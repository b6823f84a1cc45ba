//! The order in which tasks are listed: higher priority first, and among
//! equal priorities the earlier created first. Tasks that tie on both stay
//! in the order in which they were handed in.

use crate::store::views;
use crate::todo::{Todo, TodoView};
use vstd::prelude::*;

verus! {

/// Whether `a` has to be listed before `b`: it has the higher priority, or
/// the same priority and the earlier creation time.
pub open spec fn outranks(a: TodoView, b: TodoView) -> bool {
    a.priority > b.priority || (a.priority == b.priority && a.created_at.before(b.created_at))
}

/// The places `sorted` with the place `x` put in: behind every place whose
/// task `x` does not outrank, counted from the back.
pub open spec fn placed(todos: Seq<TodoView>, sorted: Seq<usize>, x: usize) -> Seq<usize>
    decreases sorted.len(),
{
    if sorted.len() == 0 {
        seq![x]
    } else if outranks(todos[x as int], todos[sorted.last() as int]) {
        placed(todos, sorted.drop_last(), x).push(sorted.last())
    } else {
        sorted.push(x)
    }
}

/// The places `items` in listing order: each place put in turn into the
/// order of those before it, so that ties keep the order of `items`.
pub open spec fn ranked(todos: Seq<TodoView>, items: Seq<usize>) -> Seq<usize>
    decreases items.len(),
{
    if items.len() == 0 {
        Seq::empty()
    } else {
        placed(todos, ranked(todos, items.drop_last()), items.last())
    }
}

/// Whether no place of `order` holds a task that outranks the task of a
/// place before it.
pub open spec fn in_order(todos: Seq<TodoView>, order: Seq<usize>) -> bool {
    forall|a: int, b: int|
        0 <= a < b < order.len() ==> !outranks(
            todos[#[trigger] order[b] as int],
            todos[#[trigger] order[a] as int],
        )
}

/// Putting a place into an order keeps the order, and adds that place and
/// no other.
pub proof fn lemma_placed(todos: Seq<TodoView>, sorted: Seq<usize>, x: usize)
    requires
        in_order(todos, sorted),
    ensures
        in_order(todos, placed(todos, sorted, x)),
        placed(todos, sorted, x).to_multiset() == sorted.to_multiset().insert(x),
        placed(todos, sorted, x).len() == sorted.len() + 1,
        forall|y: usize| #[trigger] placed(todos, sorted, x).contains(y) <==> sorted.contains(y) || y == x,
    decreases sorted.len(),
{
    broadcast use vstd::seq_lib::group_to_multiset_ensures;

    let out = placed(todos, sorted, x);
    if sorted.len() == 0 {
        assert(out =~= Seq::<usize>::empty().push(x));
        assert(sorted =~= Seq::<usize>::empty());
        assert forall|y: usize| #[trigger] out.contains(y) <==> sorted.contains(y) || y == x by {
            assert(out[0] == x);
        }
    } else if outranks(todos[x as int], todos[sorted.last() as int]) {
        let init = sorted.drop_last();
        let last = sorted.last();
        assert forall|a: int, b: int| 0 <= a < b < init.len() implies !outranks(
            todos[#[trigger] init[b] as int],
            todos[#[trigger] init[a] as int],
        ) by {
            assert(init[a] == sorted[a] && init[b] == sorted[b]);
        }
        lemma_placed(todos, init, x);
        let inner = placed(todos, init, x);
        assert(sorted =~= init.push(last));
        assert forall|a: int, b: int| 0 <= a < b < out.len() implies !outranks(
            todos[#[trigger] out[b] as int],
            todos[#[trigger] out[a] as int],
        ) by {
            if b < inner.len() {
                assert(out[a] == inner[a] && out[b] == inner[b]);
            } else {
                assert(out[b] == last);
                assert(out[a] == inner[a]);
                assert(inner.contains(inner[a]));
                if inner[a] == x {
                } else {
                    assert(init.contains(inner[a]));
                    let k = choose|k: int| 0 <= k < init.len() && init[k] == inner[a];
                    assert(sorted[k] == inner[a]);
                    assert(sorted[sorted.len() - 1] == last);
                }
            }
        }
        assert forall|y: usize| #[trigger] out.contains(y) <==> sorted.contains(y) || y == x by {
            if out.contains(y) {
                let k = choose|k: int| 0 <= k < out.len() && out[k] == y;
                if k < inner.len() {
                    assert(inner[k] == y);
                    assert(inner.contains(y));
                    if init.contains(y) {
                        let m = choose|m: int| 0 <= m < init.len() && init[m] == y;
                        assert(sorted[m] == y);
                    }
                } else {
                    assert(sorted[sorted.len() - 1] == y);
                }
            }
            if sorted.contains(y) {
                let k = choose|k: int| 0 <= k < sorted.len() && sorted[k] == y;
                if k < init.len() {
                    assert(init[k] == y);
                    assert(init.contains(y));
                    assert(inner.contains(y));
                    let m = choose|m: int| 0 <= m < inner.len() && inner[m] == y;
                    assert(out[m] == y);
                } else {
                    assert(out[out.len() - 1] == y);
                }
            }
            if y == x {
                assert(inner.contains(x));
                let m = choose|m: int| 0 <= m < inner.len() && inner[m] == x;
                assert(out[m] == x);
            }
        }
    } else {
        assert forall|a: int, b: int| 0 <= a < b < out.len() implies !outranks(
            todos[#[trigger] out[b] as int],
            todos[#[trigger] out[a] as int],
        ) by {
            if b < sorted.len() {
                assert(out[a] == sorted[a] && out[b] == sorted[b]);
            } else {
                assert(out[b] == x);
                assert(out[a] == sorted[a]);
                let last = sorted.last();
                if a < sorted.len() - 1 {
                    assert(!outranks(
                        todos[sorted[sorted.len() - 1] as int],
                        todos[sorted[a] as int],
                    ));
                }
            }
        }
        assert forall|y: usize| #[trigger] out.contains(y) <==> sorted.contains(y) || y == x by {
            if out.contains(y) {
                let k = choose|k: int| 0 <= k < out.len() && out[k] == y;
                if k < sorted.len() {
                    assert(sorted[k] == y);
                }
            }
            if sorted.contains(y) {
                let k = choose|k: int| 0 <= k < sorted.len() && sorted[k] == y;
                assert(out[k] == y);
            }
            assert(out[sorted.len() as int] == x);
        }
    }
}

/// The listing order is an order, and holds exactly the places handed in,
/// each as often as it was handed in.
pub proof fn lemma_ranked(todos: Seq<TodoView>, items: Seq<usize>)
    ensures
        in_order(todos, ranked(todos, items)),
        ranked(todos, items).to_multiset() == items.to_multiset(),
        ranked(todos, items).len() == items.len(),
        forall|y: usize| #[trigger] ranked(todos, items).contains(y) <==> items.contains(y),
    decreases items.len(),
{
    broadcast use vstd::seq_lib::group_to_multiset_ensures;

    if items.len() == 0 {
        assert(items =~= Seq::<usize>::empty());
    } else {
        let init = items.drop_last();
        lemma_ranked(todos, init);
        lemma_placed(todos, ranked(todos, init), items.last());
        assert(items =~= init.push(items.last()));
        let out = ranked(todos, items);
        assert forall|y: usize| #[trigger] out.contains(y) <==> items.contains(y) by {
            if items.contains(y) {
                let k = choose|k: int| 0 <= k < items.len() && items[k] == y;
                if k < init.len() {
                    assert(init[k] == y);
                    assert(init.contains(y));
                }
            }
            if init.contains(y) {
                let k = choose|k: int| 0 <= k < init.len() && init[k] == y;
                assert(items[k] == y);
            }
            assert(items[items.len() - 1] == items.last());
        }
    }
}

/// Whether `a` has to be listed before `b`.
pub fn comes_first(a: &Todo, b: &Todo) -> (first: bool)
    ensures
        first == outranks(a@, b@),
{
    a.priority > b.priority || (a.priority == b.priority && a.created_at.is_before(&b.created_at))
}

/// Puts places of `todos` into listing order.
pub fn rank(todos: &Vec<Todo>, items: &Vec<usize>) -> (sorted: Vec<usize>)
    requires
        forall|k: int| 0 <= k < items@.len() ==> #[trigger] items@[k] < todos@.len(),
    ensures
        sorted@ == ranked(views(todos@), items@),
        forall|k: int| 0 <= k < sorted@.len() ==> #[trigger] sorted@[k] < todos@.len(),
{
    let ghost tv = views(todos@);
    let mut sorted: Vec<usize> = Vec::new();
    let mut i: usize = 0;
    assert(items@.take(0) =~= Seq::<usize>::empty());
    while i < items.len()
        invariant
            i <= items.len(),
            tv == views(todos@),
            sorted@ == ranked(tv, items@.take(i as int)),
            forall|k: int| 0 <= k < items@.len() ==> #[trigger] items@[k] < todos@.len(),
            forall|k: int| 0 <= k < sorted@.len() ==> #[trigger] sorted@[k] < todos@.len(),
        decreases items.len() - i,
    {
        let x = items[i];
        let ghost before = sorted@;
        let mut p: usize = sorted.len();
        assert(before.take(p as int) =~= before);
        assert(before.skip(p as int) =~= Seq::<usize>::empty());
        assert(placed(tv, before, x) =~= placed(tv, before.take(p as int), x) + before.skip(
            p as int,
        ));
        while p > 0 && comes_first(&todos[x], &todos[sorted[p - 1]])
            invariant
                p <= sorted.len(),
                sorted@ == before,
                tv == views(todos@),
                x < todos@.len(),
                forall|k: int| 0 <= k < sorted@.len() ==> #[trigger] sorted@[k] < todos@.len(),
                placed(tv, before, x) == placed(tv, before.take(p as int), x) + before.skip(
                    p as int,
                ),
            decreases p,
        {
            proof {
                let head = before.take(p as int);
                assert(head.last() == before[p - 1]);
                assert(head.drop_last() =~= before.take(p - 1));
                assert(placed(tv, head, x) == placed(tv, before.take(p - 1), x).push(
                    before[p - 1],
                ));
                assert(placed(tv, before.take(p - 1), x).push(before[p - 1]) + before.skip(
                    p as int,
                ) =~= placed(tv, before.take(p - 1), x) + before.skip(p - 1));
            }
            p -= 1;
        }
        proof {
            let head = before.take(p as int);
            if p > 0 {
                assert(head.last() == before[p - 1]);
            }
            assert(placed(tv, head, x) =~= head.push(x));
            assert(head.push(x) + before.skip(p as int) =~= before.insert(p as int, x));
        }
        sorted.insert(p, x);
        proof {
            assert(items@.take(i + 1).drop_last() =~= items@.take(i as int));
            assert(items@.take(i + 1).last() == x);
        }
        i += 1;
    }
    assert(items@.take(items@.len() as int) =~= items@);
    sorted
}

} // verus!
