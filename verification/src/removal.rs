//! Taking tasks out of a store: one task, a task with all that hangs under
//! it, or every completed task.

use crate::outline::FilterView;
use crate::store::{
    contains_id, lemma_has_position, lemma_position, lemma_same_ids, lemma_views_update, position,
    task, views, TodoList, TodoListView,
};
use crate::todo::{Todo, TodoView};
use vstd::prelude::*;

verus! {

/// The test that an id is another one than `id`.
pub open spec fn other_than(id: u32) -> spec_fn(u32) -> bool {
    |child: u32| child != id
}

/// The ids that hang under the task `id`: for each of its children in turn
/// the child and what hangs under the child. A child whose id is not above
/// that of its parent is left out, with all under it.
pub open spec fn below(todos: Seq<TodoView>, id: u32) -> Seq<u32>
    decreases 2 * (u32::MAX - id) + 1, 0nat,
{
    if contains_id(todos, id) {
        below_each(todos, task(todos, id).children, id)
    } else {
        Seq::empty()
    }
}

/// For each of `kids` above `floor`, in turn, the kid and what hangs under
/// it.
pub open spec fn below_each(todos: Seq<TodoView>, kids: Seq<u32>, floor: u32) -> Seq<u32>
    decreases 2 * (u32::MAX - floor), kids.len(),
{
    if kids.len() == 0 {
        Seq::empty()
    } else {
        let before = below_each(todos, kids.drop_last(), floor);
        let kid = kids.last();
        if kid > floor {
            before + (seq![kid] + below(todos, kid))
        } else {
            before
        }
    }
}

/// The id with all ids that hang under it, depth first, the id itself first.
pub open spec fn gather(todos: Seq<TodoView>, id: u32) -> Seq<u32> {
    seq![id] + below(todos, id)
}

impl TodoListView {
    /// The store with `id` struck from the child list of the task that the
    /// task `id` names as its parent. The same store where either task is
    /// not there.
    pub open spec fn detached(self, id: u32) -> TodoListView {
        if self.contains_id(id) {
            match self.task(id).parent_id {
                Some(parent) => if self.contains_id(parent) {
                    let p = self.task(parent);
                    self.replaced(
                        parent,
                        TodoView { children: p.children.filter(other_than(id)), ..p },
                    )
                } else {
                    self
                },
                None => self,
            }
        } else {
            self
        }
    }

    /// The store without the task `id`.
    pub open spec fn dropped(self, id: u32) -> TodoListView {
        if self.contains_id(id) {
            TodoListView { todos: self.todos.remove(position(self.todos, id)), ..self }
        } else {
            self
        }
    }

    /// The store after the task `id` was removed: detached from its parent,
    /// then dropped. Its children stay, and go on naming it as their parent.
    pub open spec fn removed(self, id: u32) -> TodoListView {
        self.detached(id).dropped(id)
    }

    /// The store without the tasks of the ids `ids`.
    pub open spec fn dropped_all(self, ids: Seq<u32>) -> TodoListView
        decreases ids.len(),
    {
        if ids.len() == 0 {
            self
        } else {
            self.dropped_all(ids.drop_last()).dropped(ids.last())
        }
    }

    /// The tasks that leave when the ids `ids` are dropped one after
    /// another, in that order.
    pub open spec fn taken(self, ids: Seq<u32>) -> Seq<TodoView>
        decreases ids.len(),
    {
        if ids.len() == 0 {
            Seq::empty()
        } else {
            let before = self.dropped_all(ids.drop_last());
            if before.contains_id(ids.last()) {
                self.taken(ids.drop_last()).push(before.task(ids.last()))
            } else {
                self.taken(ids.drop_last())
            }
        }
    }

    /// The store after the task `id` and all that hangs under it were
    /// removed.
    pub open spec fn pruned(self, id: u32) -> TodoListView {
        self.detached(id).dropped_all(gather(self.todos, id))
    }

    /// The tasks that leave when the task `id` is removed with all that
    /// hangs under it: depth first, the task itself first.
    pub open spec fn pruned_tasks(self, id: u32) -> Seq<TodoView> {
        self.detached(id).taken(gather(self.todos, id))
    }

    /// The store without its completed tasks.
    pub open spec fn cleared(self) -> TodoListView {
        TodoListView { todos: self.todos.filter(FilterView::Pending.on_tasks()), ..self }
    }
}

/// Strikes every occurrence of `id` from a list of ids.
pub fn strike(kids: &mut Vec<u32>, id: u32)
    ensures
        final(kids)@ == old(kids)@.filter(other_than(id)),
{
    let ghost all = kids@;
    let ghost keep = other_than(id);
    let mut kept: Vec<u32> = Vec::new();
    let mut i: usize = 0;
    proof {
        reveal(Seq::filter);
        assert(all.take(0) =~= Seq::empty());
    }
    while i < kids.len()
        invariant
            i <= kids.len(),
            kids@ == all,
            keep == other_than(id),
            kept@ == all.take(i as int).filter(keep),
        decreases kids.len() - i,
    {
        proof {
            reveal(Seq::filter);
            assert(all.take(i + 1).drop_last() =~= all.take(i as int));
            assert(all.take(i + 1).last() == kids@[i as int]);
        }
        if kids[i] != id {
            kept.push(kids[i]);
        }
        i += 1;
    }
    assert(all.take(all.len() as int) =~= all);
    *kids = kept;
}

/// Dropping one task leaves a store with one task less, in which the other
/// tasks keep their order.
pub proof fn lemma_views_remove(before: Seq<Todo>, at: int)
    requires
        0 <= at < before.len(),
    ensures
        views(before.remove(at)) == views(before).remove(at),
{
    assert(views(before.remove(at)) =~= views(before).remove(at));
}

impl TodoList {
    /// Strikes `id` from the child list of the task that the task `id`
    /// names as its parent.
    fn detach(&mut self, id: u32)
        ensures
            final(self)@ == old(self)@.detached(id),
            old(self)@.tidy() ==> final(self)@.tidy(),
            final(self).todos@.len() == old(self).todos@.len(),
            forall|i: int|
                0 <= i < old(self)@.todos.len() ==> (#[trigger] final(self)@.todos[i]).id == old(
                    self,
                )@.todos[i].id,
    {
        match self.find(id) {
            Some(at) => match self.todos[at].parent_id {
                Some(parent) => match self.find(parent) {
                    Some(above) => {
                        strike(&mut self.todos[above].children, id);
                        proof {
                            lemma_views_update(old(self).todos@, self.todos@, above as int);
                            if old(self)@.tidy() {
                                assert forall|i: int| 0 <= i < self@.todos.len() implies (
                                #[trigger] self@.todos[i]).well_formed() by {
                                    assert(old(self)@.todos[i].well_formed());
                                }
                            }
                        }
                    },
                    None => {},
                },
                None => {},
            },
            None => {},
        }
    }

    /// Drops the task `id`.
    fn drop_task(&mut self, id: u32) -> (gone: Option<Todo>)
        ensures
            final(self)@ == old(self)@.dropped(id),
            old(self)@.tidy() ==> final(self)@.tidy(),
            match gone {
                Some(todo) => old(self)@.contains_id(id) && todo@ == old(self)@.task(id),
                None => !old(self)@.contains_id(id),
            },
    {
        match self.find(id) {
            Some(at) => {
                proof {
                    lemma_views_remove(self.todos@, at as int);
                    lemma_remove_tidy(self@, at as int);
                }
                Some(self.todos.remove(at))
            },
            None => None,
        }
    }

    /// Removes the task `id` and returns it; nothing where it is not there.
    /// The task is struck from the child list of its parent. Its own
    /// children stay in the store and go on naming it as their parent.
    pub fn remove_todo(&mut self, id: u32) -> (gone: Option<Todo>)
        ensures
            final(self)@ == old(self)@.removed(id),
            match gone {
                Some(todo) => old(self)@.contains_id(id) && todo@ == old(self)@.detached(id).task(
                    id,
                ),
                None => !old(self)@.contains_id(id),
            },
            old(self).wf() ==> final(self).wf(),
            old(self).wf() && old(self)@.linked() ==> final(self)@.linked(),
            old(self)@.tidy() ==> final(self)@.tidy(),
    {
        self.detach(id);
        proof {
            lemma_same_ids(old(self)@.todos, self@.todos);
        }
        let ghost middle = self@;
        let gone = self.drop_task(id);
        proof {
            if old(self).wf() {
                lemma_dropped_wf(middle, id);
                if old(self)@.linked() {
                    lemma_removed_linked(old(self)@, id);
                }
            }
        }
        gone
    }

    /// Appends to `ids` the ids that hang under the task `id`.
    fn collect_below(&self, id: u32, ids: &mut Vec<u32>)
        ensures
            final(ids)@ == old(ids)@ + below(self@.todos, id),
        decreases 2 * (u32::MAX - id) + 1,
    {
        let ghost start = ids@;
        let ghost tv = self@.todos;
        match self.find(id) {
            Some(at) => {
                let n = self.todos[at].children.len();
                let ghost kids = self.todos@[at as int]@.children;
                let mut i: usize = 0;
                proof {
                    assert(kids.take(0) =~= Seq::empty());
                    assert(ids@ =~= start + below_each(tv, kids.take(0), id));
                }
                while i < n
                    invariant
                        i <= n,
                        at < self.todos@.len(),
                        n == self.todos@[at as int].children@.len(),
                        kids == self.todos@[at as int]@.children,
                        tv == self@.todos,
                        ids@ == start + below_each(tv, kids.take(i as int), id),
                    decreases n - i,
                {
                    let kid = self.todos[at].children[i];
                    proof {
                        assert(kids.take(i + 1).drop_last() =~= kids.take(i as int));
                        assert(kids.take(i + 1).last() == kid);
                    }
                    if kid > id {
                        let ghost before = ids@;
                        ids.push(kid);
                        self.collect_below(kid, ids);
                        assert(ids@ =~= start + (below_each(tv, kids.take(i as int), id) + (
                        seq![kid] + below(tv, kid))));
                    }
                    i += 1;
                }
                assert(kids.take(n as int) =~= kids);
            },
            None => {
                assert(ids@ =~= start + Seq::<u32>::empty());
            },
        }
    }

    /// Removes the task `id` and every task that hangs under it through the
    /// child lists, and returns them depth first, the task itself first.
    /// The task is struck from the child list of its parent. Ids on the way
    /// that are not in the store are passed over.
    pub fn remove_todo_and_children(&mut self, id: u32) -> (gone: Vec<Todo>)
        ensures
            final(self)@ == old(self)@.pruned(id),
            views(gone@) == old(self)@.pruned_tasks(id),
            old(self).wf() ==> final(self).wf(),
            old(self).wf() && old(self)@.linked() ==> final(self)@.linked(),
            old(self)@.tidy() ==> final(self)@.tidy(),
    {
        proof {
            if old(self).wf() && old(self)@.linked() {
                lemma_pruned_linked(old(self)@, id);
            }
        }
        let mut ids: Vec<u32> = Vec::new();
        ids.push(id);
        self.collect_below(id, &mut ids);
        assert(ids@ =~= gather(self@.todos, id));
        self.detach(id);
        proof {
            lemma_same_ids(old(self)@.todos, self@.todos);
        }
        let ghost middle = self@;
        let mut gone: Vec<Todo> = Vec::new();
        let mut i: usize = 0;
        proof {
            assert(ids@.take(0) =~= Seq::empty());
            assert(views(gone@) =~= middle.taken(ids@.take(0)));
        }
        while i < ids.len()
            invariant
                i <= ids.len(),
                self@ == middle.dropped_all(ids@.take(i as int)),
                views(gone@) == middle.taken(ids@.take(i as int)),
                middle.wf() ==> self.wf(),
                middle.tidy() ==> self@.tidy(),
            decreases ids.len() - i,
        {
            proof {
                assert(ids@.take(i + 1).drop_last() =~= ids@.take(i as int));
                assert(ids@.take(i + 1).last() == ids@[i as int]);
                if self.wf() {
                    lemma_dropped_wf(self@, ids@[i as int]);
                }
            }
            match self.drop_task(ids[i]) {
                Some(todo) => {
                    let ghost before = views(gone@);
                    gone.push(todo);
                    assert(views(gone@) =~= before.push(todo@));
                },
                None => {},
            }
            i += 1;
        }
        assert(ids@.take(ids@.len() as int) =~= ids@);
        gone
    }

    /// Removes every completed task. Child lists are left as they are.
    pub fn clear_completed(&mut self)
        ensures
            final(self)@ == old(self)@.cleared(),
            old(self).wf() ==> final(self).wf(),
            old(self)@.tidy() ==> final(self)@.tidy(),
    {
        let ghost all = self@.todos;
        let ghost keep = FilterView::Pending.on_tasks();
        let mut i: usize = 0;
        let ghost mut seen: int = 0;
        proof {
            reveal(Seq::filter);
            assert(all.take(0) =~= Seq::empty());
            assert(all.skip(0) =~= all);
            assert(self@.todos =~= all.take(0).filter(keep) + all.skip(0));
        }
        while i < self.todos.len()
            invariant
                0 <= seen <= all.len(),
                i == all.take(seen).filter(keep).len(),
                self.todos@.len() == i + all.len() - seen,
                self@.todos == all.take(seen).filter(keep) + all.skip(seen),
                self.next_id == old(self).next_id,
                old(self)@.tidy() ==> self@.tidy(),
                keep == FilterView::Pending.on_tasks(),
            decreases all.len() - seen,
        {
            proof {
                reveal(Seq::filter);
                assert(all.take(seen + 1).drop_last() =~= all.take(seen));
                assert(all.take(seen + 1).last() == all[seen]);
                assert(self@.todos[i as int] == all.skip(seen)[0]);
                lemma_views_remove(self.todos@, i as int);
                lemma_remove_tidy(self@, i as int);
            }
            if self.todos[i].is_completed() {
                self.todos.remove(i);
                proof {
                    assert(self@.todos =~= all.take(seen + 1).filter(keep) + all.skip(seen + 1));
                }
            } else {
                proof {
                    assert(self@.todos =~= all.take(seen + 1).filter(keep) + all.skip(seen + 1));
                }
                i += 1;
            }
            proof {
                seen = seen + 1;
            }
        }
        proof {
            assert(all.take(seen) =~= all);
            assert(all.skip(seen) =~= Seq::empty());
            assert(self@.todos =~= all.filter(keep));
            if old(self).wf() {
                lemma_filter_wf(old(self)@, keep);
            }
        }
    }
}

/// Taking one task out leaves the other tasks as tidy as they were.
pub proof fn lemma_remove_tidy(s: TodoListView, at: int)
    requires
        0 <= at < s.todos.len(),
    ensures
        s.tidy() ==> (TodoListView { todos: s.todos.remove(at), ..s }).tidy(),
{
    if s.tidy() {
        let out = s.todos.remove(at);
        assert forall|i: int| 0 <= i < out.len() implies (#[trigger] out[i]).well_formed() by {
            let a = if i < at {
                i
            } else {
                i + 1
            };
            assert(s.todos[a].well_formed());
        }
    }
}

/// A store without one of its tasks is still well formed.
pub proof fn lemma_dropped_wf(s: TodoListView, id: u32)
    requires
        s.wf(),
    ensures
        s.dropped(id).wf(),
        !s.dropped(id).contains_id(id),
        forall|other: u32|
            other != id ==> #[trigger] s.dropped(id).contains_id(other) == s.contains_id(other),
        forall|other: u32|
            other != id && s.contains_id(other) ==> #[trigger] s.dropped(id).task(other) == s.task(
                other,
            ),
{
    if s.contains_id(id) {
        lemma_has_position(s.todos, id);
        let at = position(s.todos, id);
        let out = s.todos.remove(at);
        assert forall|i: int, j: int| 0 <= i < j < out.len() implies (#[trigger] out[i]).id != (
        #[trigger] out[j]).id by {
            let a = if i < at {
                i
            } else {
                i + 1
            };
            let b = if j < at {
                j
            } else {
                j + 1
            };
            assert(s.todos[a].id != s.todos[b].id);
        }
        assert forall|i: int| 0 <= i < out.len() implies (#[trigger] out[i]).id < s.next_id by {
            let a = if i < at {
                i
            } else {
                i + 1
            };
            assert(s.todos[a].id < s.next_id);
        }
        if contains_id(out, id) {
            let i = choose|i: int| 0 <= i < out.len() && #[trigger] out[i].id == id;
            let a = if i < at {
                i
            } else {
                i + 1
            };
            assert(s.todos[a].id == id);
            if a < at {
                assert(s.todos[a].id != s.todos[at].id);
            } else {
                assert(s.todos[at].id != s.todos[a].id);
            }
        }
        assert forall|other: u32| other != id implies #[trigger] contains_id(out, other)
            == contains_id(s.todos, other) by {
            if contains_id(out, other) {
                let i = choose|i: int| 0 <= i < out.len() && #[trigger] out[i].id == other;
                let a = if i < at {
                    i
                } else {
                    i + 1
                };
                assert(s.todos[a].id == other);
            }
            if contains_id(s.todos, other) {
                let a = choose|a: int| 0 <= a < s.todos.len() && #[trigger] s.todos[a].id == other;
                let i = if a < at {
                    a
                } else {
                    a - 1
                };
                assert(out[i].id == other);
            }
        }
        assert forall|other: u32| other != id && contains_id(s.todos, other) implies #[trigger] task(
            out,
            other,
        ) == task(s.todos, other) by {
            lemma_has_position(s.todos, other);
            let a = position(s.todos, other);
            let i = if a < at {
                a
            } else {
                a - 1
            };
            assert(out[i] == s.todos[a]);
            assert forall|j: int| 0 <= j < i implies #[trigger] out[j].id != other by {
                let b = if j < at {
                    j
                } else {
                    j + 1
                };
                assert(s.todos[b].id != s.todos[a].id);
            }
            lemma_position(out, other, i);
        }
    } else {
    }
}

/// What a filter keeps of a well-formed store is well formed.
pub proof fn lemma_filter_wf(s: TodoListView, keep: spec_fn(TodoView) -> bool)
    requires
        s.wf(),
    ensures
        (TodoListView { todos: s.todos.filter(keep), ..s }).wf(),
    decreases s.todos.len(),
{
    reveal(Seq::filter);
    if s.todos.len() > 0 {
        let init = TodoListView { todos: s.todos.drop_last(), ..s };
        assert forall|i: int, j: int| 0 <= i < j < init.todos.len() implies (
        #[trigger] init.todos[i]).id != (#[trigger] init.todos[j]).id by {
            assert(s.todos[i].id != s.todos[j].id);
        }
        assert forall|i: int| 0 <= i < init.todos.len() implies (#[trigger] init.todos[i]).id
            < init.next_id by {
            assert(s.todos[i].id < s.next_id);
        }
        lemma_filter_wf(init, keep);
        let sub = init.todos.filter(keep);
        let out = s.todos.filter(keep);
        let last = s.todos.last();
        lemma_filter_from(init.todos, keep);
        if keep(last) {
            assert(out == sub.push(last));
            assert forall|i: int, j: int| 0 <= i < j < out.len() implies (#[trigger] out[i]).id != (
            #[trigger] out[j]).id by {
                if j < sub.len() {
                    assert(sub[i].id != sub[j].id);
                } else {
                    assert(init.todos.contains(sub[i]));
                    let k = choose|k: int| 0 <= k < init.todos.len() && init.todos[k] == sub[i];
                    assert(s.todos[k].id != s.todos[s.todos.len() - 1].id);
                }
            }
            assert forall|i: int| 0 <= i < out.len() implies (#[trigger] out[i]).id
                < s.next_id by {
                if i < sub.len() {
                    assert(sub[i].id < s.next_id);
                } else {
                    assert(s.todos[s.todos.len() - 1].id < s.next_id);
                }
            }
        } else {
            assert(out == sub);
        }
    } else {
        assert(s.todos.filter(keep) =~= s.todos);
    }
}

/// Every element that a filter keeps was in the sequence.
pub proof fn lemma_filter_from(todos: Seq<TodoView>, keep: spec_fn(TodoView) -> bool)
    ensures
        forall|i: int|
            0 <= i < todos.filter(keep).len() ==> todos.contains(#[trigger] todos.filter(keep)[i]),
    decreases todos.len(),
{
    reveal(Seq::filter);
    if todos.len() > 0 {
        let init = todos.drop_last();
        lemma_filter_from(init, keep);
        let out = todos.filter(keep);
        assert forall|i: int| 0 <= i < out.len() implies todos.contains(#[trigger] out[i]) by {
            if i < init.filter(keep).len() {
                assert(init.contains(init.filter(keep)[i]));
                let k = choose|k: int| 0 <= k < init.len() && init[k] == init.filter(keep)[i];
                assert(todos[k] == out[i]);
            } else {
                assert(todos[todos.len() - 1] == out[i]);
            }
        }
    }
}


/// What a filter on ids keeps does not hold the id that it keeps out.
pub proof fn lemma_struck(kids: Seq<u32>, id: u32)
    ensures
        !kids.filter(other_than(id)).contains(id),
    decreases kids.len(),
{
    reveal(Seq::filter);
    if kids.len() > 0 {
        lemma_struck(kids.drop_last(), id);
        let sub = kids.drop_last().filter(other_than(id));
        let out = kids.filter(other_than(id));
        if out.contains(id) {
            let k = choose|k: int| 0 <= k < out.len() && out[k] == id;
            if k < sub.len() {
                assert(sub[k] == id);
            }
        }
    }
}

/// A well-formed store without the tasks of some ids is well formed, holds
/// none of those ids, and holds every other task as it was.
pub proof fn lemma_dropped_all(s: TodoListView, ids: Seq<u32>)
    requires
        s.wf(),
    ensures
        s.dropped_all(ids).wf(),
        forall|x: u32|
            #[trigger] s.dropped_all(ids).contains_id(x) <==> s.contains_id(x) && !ids.contains(x),
        forall|x: u32|
            s.dropped_all(ids).contains_id(x) ==> #[trigger] s.dropped_all(ids).task(x) == s.task(
                x,
            ),
    decreases ids.len(),
{
    if ids.len() > 0 {
        let init = ids.drop_last();
        let last = ids.last();
        lemma_dropped_all(s, init);
        let before = s.dropped_all(init);
        lemma_dropped_wf(before, last);
        let after = s.dropped_all(ids);
        assert(after == before.dropped(last));
        assert forall|x: u32| #[trigger] after.contains_id(x) <==> s.contains_id(x)
            && !ids.contains(x) by {
            if x != last {
                assert(after.contains_id(x) == before.contains_id(x));
                if ids.contains(x) {
                    let k = choose|k: int| 0 <= k < ids.len() && ids[k] == x;
                    assert(init[k] == x);
                }
                if init.contains(x) {
                    let k = choose|k: int| 0 <= k < init.len() && init[k] == x;
                    assert(ids[k] == x);
                }
            } else {
                assert(ids[ids.len() - 1] == x);
            }
        }
        assert forall|x: u32| after.contains_id(x) implies #[trigger] after.task(x) == s.task(
            x,
        ) by {
            assert(x != last);
            assert(before.contains_id(x));
        }
    }
}

/// The tasks that leave when ids are dropped from a well-formed store are
/// tasks of the store under those ids, and every one of the ids that the
/// store holds has its task among them.
pub proof fn lemma_taken(s: TodoListView, ids: Seq<u32>)
    requires
        s.wf(),
    ensures
        forall|k: int|
            0 <= k < s.taken(ids).len() ==> {
                &&& ids.contains((#[trigger] s.taken(ids)[k]).id)
                &&& s.contains_id(s.taken(ids)[k].id)
                &&& s.taken(ids)[k] == s.task(s.taken(ids)[k].id)
            },
        forall|x: u32|
            ids.contains(x) && s.contains_id(x) ==> #[trigger] s.taken(ids).contains(s.task(x)),
    decreases ids.len(),
{
    if ids.len() > 0 {
        let init = ids.drop_last();
        let last = ids.last();
        lemma_taken(s, init);
        lemma_dropped_all(s, init);
        let before = s.dropped_all(init);
        let sub = s.taken(init);
        let out = s.taken(ids);
        assert(ids[ids.len() - 1] == last);
        if before.contains_id(last) {
            lemma_has_position(before.todos, last);
            assert(before.task(last).id == last);
        }
        assert forall|k: int| 0 <= k < out.len() implies {
            &&& ids.contains((#[trigger] out[k]).id)
            &&& s.contains_id(out[k].id)
            &&& out[k] == s.task(out[k].id)
        } by {
            if k < sub.len() {
                assert(out[k] == sub[k]);
                assert(init.contains(sub[k].id));
                let m = choose|m: int| 0 <= m < init.len() && init[m] == sub[k].id;
                assert(ids[m] == sub[k].id);
            } else {
                assert(out[k] == before.task(last));
            }
        }
        assert forall|x: u32| ids.contains(x) && s.contains_id(x) implies #[trigger] out.contains(
            s.task(x),
        ) by {
            if init.contains(x) {
                assert(sub.contains(s.task(x)));
                let m = choose|m: int| 0 <= m < sub.len() && sub[m] == s.task(x);
                assert(out[m] == s.task(x));
            } else {
                let k = choose|k: int| 0 <= k < ids.len() && ids[k] == x;
                if k < init.len() {
                    assert(init[k] == x);
                }
                assert(x == last);
                assert(before.contains_id(last));
                assert(out[out.len() - 1] == before.task(last));
            }
        }
    }
}

/// Removing a task with all that hangs under it from a well-formed store
/// returns exactly the tasks of the gathered ids that the store held;
/// afterwards none of the gathered ids is found in the store, every other
/// task is still there, and the parent that the task named, if it is still
/// there, does not list it.
pub proof fn lemma_pruned(s: TodoListView, id: u32)
    requires
        s.wf(),
    ensures
        s.pruned(id).wf(),
        forall|x: u32| gather(s.todos, id).contains(x) ==> !(#[trigger] s.pruned(id).contains_id(x)),
        forall|x: u32|
            !gather(s.todos, id).contains(x) ==> #[trigger] s.pruned(id).contains_id(x)
                == s.contains_id(x),
        forall|k: int|
            0 <= k < s.pruned_tasks(id).len() ==> {
                &&& gather(s.todos, id).contains((#[trigger] s.pruned_tasks(id)[k]).id)
                &&& s.contains_id(s.pruned_tasks(id)[k].id)
            },
        forall|x: u32|
            gather(s.todos, id).contains(x) && s.contains_id(x) ==> exists|k: int|
                0 <= k < s.pruned_tasks(id).len() && (#[trigger] s.pruned_tasks(id)[k]).id == x,
        s.contains_id(id) ==> match s.task(id).parent_id {
            Some(parent) => s.pruned(id).contains_id(parent) ==> !s.pruned(id).task(
                parent,
            ).children.contains(id),
            None => true,
        },
{
    let ids = gather(s.todos, id);
    let mid = s.detached(id);
    lemma_detached(s, id);
    lemma_dropped_all(mid, ids);
    lemma_taken(mid, ids);
    let out = s.pruned_tasks(id);
    assert forall|x: u32| ids.contains(x) && s.contains_id(x) implies exists|k: int|
        0 <= k < out.len() && (#[trigger] out[k]).id == x by {
        assert(mid.contains_id(x));
        assert(out.contains(mid.task(x)));
        let k = choose|k: int| 0 <= k < out.len() && out[k] == mid.task(x);
        lemma_has_position(mid.todos, x);
        assert(out[k].id == x);
    }
}

/// Detaching a task changes no id; it leaves a well-formed store well
/// formed, and the parent that the task names does not list it afterwards.
pub proof fn lemma_detached(s: TodoListView, id: u32)
    ensures
        s.detached(id).todos.len() == s.todos.len(),
        forall|x: u32| #[trigger] s.detached(id).contains_id(x) == s.contains_id(x),
        s.wf() ==> s.detached(id).wf(),
        s.contains_id(id) ==> match s.task(id).parent_id {
            Some(parent) => s.contains_id(parent) ==> !s.detached(id).task(parent).children.contains(
                id,
            ),
            None => true,
        },
{
    if s.contains_id(id) {
        match s.task(id).parent_id {
            Some(parent) => {
                if s.contains_id(parent) {
                    lemma_has_position(s.todos, parent);
                    let at = position(s.todos, parent);
                    let out = s.detached(id);
                    lemma_same_ids(s.todos, out.todos);
                    assert(position(out.todos, parent) == at);
                    lemma_struck(s.task(parent).children, id);
                    if s.wf() {
                        assert forall|i: int| 0 <= i < out.todos.len() implies (
                        #[trigger] out.todos[i]).id < out.next_id by {
                            assert(s.todos[i].id < s.next_id);
                        }
                    }
                }
            },
            None => {},
        }
    }
}


/// Whether a task lists only children that are in `todos`, that name it as
/// their parent, and whose ids are above its own; and lists none twice.
pub open spec fn well_linked(todos: Seq<TodoView>, t: TodoView) -> bool {
    &&& t.children.no_duplicates()
    &&& forall|k: int|
        #![trigger t.children[k]]
        0 <= k < t.children.len() ==> {
            &&& contains_id(todos, t.children[k])
            &&& task(todos, t.children[k]).parent_id == Some(t.id)
            &&& t.children[k] > t.id
        }
}

/// A store is linked exactly if each of its tasks is well linked.
pub proof fn lemma_linked_by_task(s: TodoListView)
    ensures
        s.linked() <==> forall|i: int|
            0 <= i < s.todos.len() ==> well_linked(s.todos, #[trigger] s.todos[i]),
{
    if s.linked() {
        assert forall|i: int| 0 <= i < s.todos.len() implies well_linked(
            s.todos,
            #[trigger] s.todos[i],
        ) by {
            let t = s.todos[i];
            assert forall|k: int| #![trigger t.children[k]] 0 <= k < t.children.len() implies {
                &&& contains_id(s.todos, t.children[k])
                &&& task(s.todos, t.children[k]).parent_id == Some(t.id)
                &&& t.children[k] > t.id
            } by {
                assert(s.todos[i].children[k] == t.children[k]);
            }
        }
    }
    if forall|i: int| 0 <= i < s.todos.len() ==> well_linked(s.todos, #[trigger] s.todos[i]) {
        assert forall|i: int| #![trigger s.todos[i]] 0 <= i < s.todos.len() implies {
            &&& s.todos[i].children.no_duplicates()
            &&& forall|k: int|
                #![trigger s.todos[i].children[k]]
                0 <= k < s.todos[i].children.len() ==> {
                    &&& contains_id(s.todos, s.todos[i].children[k])
                    &&& task(s.todos, s.todos[i].children[k]).parent_id == Some(s.todos[i].id)
                    &&& s.todos[i].children[k] > s.todos[i].id
                }
        } by {
            assert(well_linked(s.todos, s.todos[i]));
        }
    }
}

/// What a filter on ids keeps are the ids other than the one that it keeps
/// out, and none of them twice if none was there twice.
pub proof fn lemma_struck_keeps(kids: Seq<u32>, id: u32)
    ensures
        forall|x: u32|
            #[trigger] kids.filter(other_than(id)).contains(x) <==> kids.contains(x) && x != id,
        kids.no_duplicates() ==> kids.filter(other_than(id)).no_duplicates(),
    decreases kids.len(),
{
    reveal(Seq::filter);
    let out = kids.filter(other_than(id));
    if kids.len() > 0 {
        let init = kids.drop_last();
        let last = kids.last();
        lemma_struck_keeps(init, id);
        let sub = init.filter(other_than(id));
        assert forall|x: u32| #[trigger] out.contains(x) <==> kids.contains(x) && x != id by {
            if out.contains(x) {
                let k = choose|k: int| 0 <= k < out.len() && out[k] == x;
                if k < sub.len() {
                    assert(sub[k] == x);
                    assert(sub.contains(x));
                    let m = choose|m: int| 0 <= m < init.len() && init[m] == x;
                    assert(kids[m] == x);
                } else {
                    assert(kids[kids.len() - 1] == x);
                }
            }
            if kids.contains(x) && x != id {
                let m = choose|m: int| 0 <= m < kids.len() && kids[m] == x;
                if m < init.len() {
                    assert(init[m] == x);
                    assert(init.contains(x));
                    assert(sub.contains(x));
                    let k = choose|k: int| 0 <= k < sub.len() && sub[k] == x;
                    assert(out[k] == x);
                } else {
                    assert(out[out.len() - 1] == x);
                }
            }
        }
        if kids.no_duplicates() {
            assert forall|a: int, b: int| 0 <= a < init.len() && 0 <= b < init.len() && a
                != b implies init[a] != init[b] by {
                assert(kids[a] != kids[b]);
            }
            assert(sub.no_duplicates());
            if last != id {
                assert(out == sub.push(last));
                assert forall|a: int, b: int| 0 <= a < out.len() && 0 <= b < out.len() && a
                    != b implies out[a] != out[b] by {
                    if a < sub.len() && b < sub.len() {
                        assert(sub[a] != sub[b]);
                    } else {
                        let inner = if a < sub.len() {
                            a
                        } else {
                            b
                        };
                        assert(sub.contains(sub[inner]));
                        assert(init.contains(sub[inner]));
                        let m = choose|m: int| 0 <= m < init.len() && init[m] == sub[inner];
                        assert(kids[m] != kids[kids.len() - 1]);
                    }
                }
            }
        }
    } else {
        assert(out =~= kids);
    }
}

/// Every id that hangs under one of `kids` is one of the kids above the
/// floor, or hangs under one of them.
pub proof fn lemma_below_each_from(todos: Seq<TodoView>, kids: Seq<u32>, floor: u32, y: u32)
    requires
        below_each(todos, kids, floor).contains(y),
    ensures
        exists|j: int|
            0 <= j < kids.len() && #[trigger] kids[j] > floor && (y == kids[j] || below(
                todos,
                kids[j],
            ).contains(y)),
    decreases kids.len(),
{
    let all = below_each(todos, kids, floor);
    if kids.len() > 0 {
        let init = kids.drop_last();
        let before = below_each(todos, init, floor);
        let kid = kids.last();
        let k = choose|k: int| 0 <= k < all.len() && all[k] == y;
        if k < before.len() {
            assert(before[k] == y);
            assert(before.contains(y));
            lemma_below_each_from(todos, init, floor, y);
            let j = choose|j: int|
                0 <= j < init.len() && #[trigger] init[j] > floor && (y == init[j] || below(
                    todos,
                    init[j],
                ).contains(y));
            assert(kids[j] == init[j]);
        } else {
            assert(kid > floor);
            let tail = seq![kid] + below(todos, kid);
            assert(all == before + tail);
            let m = k - before.len();
            assert(tail[m] == y);
            if m > 0 {
                assert(below(todos, kid)[m - 1] == y);
            }
            assert(kids[kids.len() - 1] == kid);
        }
    }
}

/// Each of `kids` above the floor, and every id that hangs under it, hangs
/// under the kids.
pub proof fn lemma_below_each_holds(todos: Seq<TodoView>, kids: Seq<u32>, floor: u32, j: int)
    requires
        0 <= j < kids.len(),
        kids[j] > floor,
    ensures
        below_each(todos, kids, floor).contains(kids[j]),
        forall|y: u32|
            below(todos, kids[j]).contains(y) ==> #[trigger] below_each(todos, kids, floor).contains(
                y,
            ),
    decreases kids.len(),
{
    let all = below_each(todos, kids, floor);
    let init = kids.drop_last();
    let before = below_each(todos, init, floor);
    let kid = kids.last();
    if j < kids.len() - 1 {
        assert(init[j] == kids[j]);
        lemma_below_each_holds(todos, init, floor, j);
        let k = choose|k: int| 0 <= k < before.len() && before[k] == kids[j];
        assert(all[k] == kids[j]);
        assert forall|y: u32| below(todos, kids[j]).contains(y) implies #[trigger] all.contains(
            y,
        ) by {
            assert(before.contains(y));
            let m = choose|m: int| 0 <= m < before.len() && before[m] == y;
            assert(all[m] == y);
        }
    } else {
        let tail = seq![kid] + below(todos, kid);
        assert(all == before + tail);
        assert(all[before.len() as int] == tail[0]);
        assert forall|y: u32| below(todos, kid).contains(y) implies #[trigger] all.contains(y) by {
            let m = choose|m: int| 0 <= m < below(todos, kid).len() && below(todos, kid)[m] == y;
            assert(tail[m + 1] == y);
            assert(all[before.len() + m + 1] == y);
        }
    }
}

/// Every id that hangs under a task is listed as a child by that task or by
/// a task that hangs under it.
pub proof fn lemma_below_listed(todos: Seq<TodoView>, root: u32, y: u32)
    requires
        below(todos, root).contains(y),
    ensures
        exists|g: u32|
            (g == root || below(todos, root).contains(g)) && contains_id(todos, g) && #[trigger] task(
                todos,
                g,
            ).children.contains(y),
    decreases u32::MAX - root,
{
    let kids = task(todos, root).children;
    assert(contains_id(todos, root));
    lemma_below_each_from(todos, kids, root, y);
    let j = choose|j: int|
        0 <= j < kids.len() && #[trigger] kids[j] > root && (y == kids[j] || below(
            todos,
            kids[j],
        ).contains(y));
    lemma_below_each_holds(todos, kids, root, j);
    if y == kids[j] {
        assert(task(todos, root).children.contains(y));
    } else {
        lemma_below_listed(todos, kids[j], y);
        let g = choose|g: u32|
            (g == kids[j] || below(todos, kids[j]).contains(g)) && contains_id(todos, g)
                && #[trigger] task(todos, g).children.contains(y);
        assert(below(todos, root).contains(g));
    }
}

/// The task that `id` names as its parent is the only one whose children
/// change when `id` is detached, and it loses `id` only.
pub proof fn lemma_detached_tasks(s: TodoListView, id: u32)
    requires
        s.wf(),
    ensures
        forall|x: u32|
            s.contains_id(x) ==> {
                &&& (#[trigger] s.detached(id).task(x)).id == x
                &&& s.detached(id).task(x).parent_id == s.task(x).parent_id
                &&& s.detached(id).task(x).children == if s.contains_id(id) && s.task(id).parent_id
                    == Some(x) {
                    s.task(x).children.filter(other_than(id))
                } else {
                    s.task(x).children
                }
            },
{
    let mid = s.detached(id);
    assert forall|x: u32| s.contains_id(x) implies {
        &&& (#[trigger] mid.task(x)).id == x
        &&& mid.task(x).parent_id == s.task(x).parent_id
        &&& mid.task(x).children == if s.contains_id(id) && s.task(id).parent_id == Some(x) {
            s.task(x).children.filter(other_than(id))
        } else {
            s.task(x).children
        }
    } by {
        lemma_has_position(s.todos, x);
        let at = position(s.todos, x);
        if s.contains_id(id) {
            match s.task(id).parent_id {
                Some(parent) => {
                    if s.contains_id(parent) {
                        lemma_has_position(s.todos, parent);
                        let above = position(s.todos, parent);
                        lemma_same_ids(s.todos, mid.todos);
                        assert(position(mid.todos, x) == at);
                        if x != parent {
                            assert(at != above);
                            assert(mid.todos[at] == s.todos[at]);
                        } else {
                            assert(at == above);
                        }
                    }
                },
                None => {},
            }
        }
    }
}

/// Removing a task from a well-formed linked store leaves a linked store.
pub proof fn lemma_removed_linked(s: TodoListView, id: u32)
    requires
        s.wf(),
        s.linked(),
    ensures
        s.removed(id).linked(),
{
    lemma_pruned_linked_by(s, id, seq![id]);
    assert(s.detached(id).dropped_all(seq![id]) == s.removed(id)) by {
        assert(seq![id].drop_last() =~= Seq::<u32>::empty());
        assert(s.detached(id).dropped_all(Seq::<u32>::empty()) == s.detached(id));
    }
}

/// Removing a task with all that hangs under it from a well-formed linked
/// store leaves a linked store.
pub proof fn lemma_pruned_linked(s: TodoListView, id: u32)
    requires
        s.wf(),
        s.linked(),
    ensures
        s.pruned(id).linked(),
{
    let ids = gather(s.todos, id);
    assert(ids[0] == id);
    assert forall|c: u32, x: u32|
        ids.contains(c) && c != id && s.contains_id(x) && #[trigger] s.task(x).children.contains(c)
            && (#[trigger] s.task(c)).parent_id == Some(x) implies ids.contains(x) by {
        let k = choose|k: int| 0 <= k < ids.len() && ids[k] == c;
        assert(below(s.todos, id)[k - 1] == c);
        lemma_below_listed(s.todos, id, c);
        let g = choose|g: u32|
            (g == id || below(s.todos, id).contains(g)) && contains_id(s.todos, g) && #[trigger] task(
                s.todos,
                g,
            ).children.contains(c);
        lemma_linked_by_task(s);
        lemma_has_position(s.todos, g);
        let gt = s.todos[position(s.todos, g)];
        assert(well_linked(s.todos, gt));
        let m = choose|m: int| 0 <= m < gt.children.len() && gt.children[m] == c;
        assert(task(s.todos, gt.children[m]).parent_id == Some(g));
        assert(g == x);
        if g != id {
            let n = choose|n: int| 0 <= n < below(s.todos, id).len() && below(s.todos, id)[n] == g;
            assert(ids[n + 1] == g);
        }
    }
    lemma_pruned_linked_by(s, id, ids);
}

/// Detaching a task and dropping it with other tasks leaves a well-formed
/// linked store linked, if every dropped task other than the detached one
/// is the child only of dropped tasks.
pub proof fn lemma_pruned_linked_by(s: TodoListView, id: u32, ids: Seq<u32>)
    requires
        s.wf(),
        s.linked(),
        ids.contains(id),
        forall|c: u32, x: u32|
            ids.contains(c) && c != id && s.contains_id(x) && #[trigger] s.task(x).children.contains(
                c,
            ) && (#[trigger] s.task(c)).parent_id == Some(x) ==> ids.contains(x),
    ensures
        s.detached(id).dropped_all(ids).linked(),
{
    let mid = s.detached(id);
    let out = mid.dropped_all(ids);
    lemma_detached(s, id);
    lemma_detached_tasks(s, id);
    lemma_dropped_all(mid, ids);
    lemma_linked_by_task(s);
    lemma_linked_by_task(out);
    assert forall|i: int| 0 <= i < out.todos.len() implies well_linked(
        out.todos,
        #[trigger] out.todos[i],
    ) by {
        let t = out.todos[i];
        let x = t.id;
        crate::store::lemma_position_distinct(out.todos, i);
        assert(out.contains_id(x));
        assert(out.task(x) == t);
        assert(mid.contains_id(x) && !ids.contains(x));
        assert(s.contains_id(x));
        assert(t == mid.task(x));
        lemma_has_position(s.todos, x);
        let st = s.todos[position(s.todos, x)];
        assert(st == s.task(x));
        assert(well_linked(s.todos, st));
        lemma_struck_keeps(st.children, id);
        assert(t.children.no_duplicates());
        assert forall|k: int| #![trigger t.children[k]] 0 <= k < t.children.len() implies {
            &&& contains_id(out.todos, t.children[k])
            &&& task(out.todos, t.children[k]).parent_id == Some(t.id)
            &&& t.children[k] > t.id
        } by {
            let c = t.children[k];
            assert(t.children.contains(c));
            assert(st.children.contains(c));
            let m = choose|m: int| 0 <= m < st.children.len() && st.children[m] == c;
            assert(contains_id(s.todos, st.children[m]));
            assert(task(s.todos, st.children[m]).parent_id == Some(x));
            assert(st.children[m] > x);
            if c == id {
                assert(s.task(id).parent_id == Some(x));
                assert(t.children == st.children.filter(other_than(id)));
            }
            assert(c != id);
            if ids.contains(c) {
                assert(s.task(x).children.contains(c));
                assert(s.task(c).parent_id == Some(x));
                assert(ids.contains(x));
            }
            assert(mid.contains_id(c));
            assert(out.contains_id(c));
            assert(out.task(c) == mid.task(c));
        }
    }
}

} // verus!
