//! Changes to single tasks of a store, addressed by id, and the same
//! changes made to many tasks at once. An id that is not in the store is
//! passed over.

use crate::store::{
    contains_id, lemma_same_ids, lemma_views_update, views, TodoList, TodoListView,
};
use crate::text::opt_text;
use crate::time::Timestamp;
use crate::todo::{RecurrencePattern, Todo, TodoStatus, TodoView};
use vstd::prelude::*;

verus! {

impl TodoListView {
    /// The store after the tasks `ids` were removed one after another,
    /// each as [`TodoListView::removed`] removes it.
    pub open spec fn removed_each(self, ids: Seq<u32>) -> TodoListView
        decreases ids.len(),
    {
        if ids.len() == 0 {
            self
        } else {
            self.removed_each(ids.drop_last()).removed(ids.last())
        }
    }

    /// The tasks that leave when the tasks `ids` are removed one after
    /// another.
    pub open spec fn taken_each(self, ids: Seq<u32>) -> Seq<TodoView>
        decreases ids.len(),
    {
        if ids.len() == 0 {
            Seq::empty()
        } else {
            let before = self.removed_each(ids.drop_last());
            if before.contains_id(ids.last()) {
                self.taken_each(ids.drop_last()).push(before.detached(ids.last()).task(ids.last()))
            } else {
                self.taken_each(ids.drop_last())
            }
        }
    }

    /// The store after one of the tasks `ids` after another was completed
    /// at `now`, unless it was completed already.
    pub open spec fn completed_each(self, ids: Seq<u32>, now: Timestamp) -> TodoListView
        decreases ids.len(),
    {
        if ids.len() == 0 {
            self
        } else {
            let before = self.completed_each(ids.drop_last(), now);
            if before.contains_id(ids.last()) && before.task(ids.last()).status
                != TodoStatus::Completed {
                before.replaced(ids.last(), before.task(ids.last()).completed(now))
            } else {
                before
            }
        }
    }

    /// How many of the tasks `ids` are completed one after another.
    pub open spec fn newly_completed(self, ids: Seq<u32>, now: Timestamp) -> nat
        decreases ids.len(),
    {
        if ids.len() == 0 {
            0
        } else {
            let before = self.completed_each(ids.drop_last(), now);
            if before.contains_id(ids.last()) && before.task(ids.last()).status
                != TodoStatus::Completed {
                self.newly_completed(ids.drop_last(), now) + 1
            } else {
                self.newly_completed(ids.drop_last(), now)
            }
        }
    }

    /// The store after the priority of each of the tasks `ids` was set.
    pub open spec fn prioritized_each(self, ids: Seq<u32>, priority: u8) -> TodoListView
        decreases ids.len(),
    {
        if ids.len() == 0 {
            self
        } else {
            let before = self.prioritized_each(ids.drop_last(), priority);
            before.changed(ids.last(), before.task(ids.last()).with_priority(priority))
        }
    }

    /// The store after each of `texts`, entered at `now`, became a root
    /// task, as long as the store had ids.
    pub open spec fn added_each(self, texts: Seq<Seq<char>>, now: Timestamp) -> TodoListView
        decreases texts.len(),
    {
        if texts.len() == 0 {
            self
        } else {
            let before = self.added_each(texts.drop_last(), now);
            if before.next_id < u32::MAX {
                before.added(texts.last(), now)
            } else {
                before
            }
        }
    }

    /// The store without tasks; the counter stays.
    pub open spec fn emptied(self) -> TodoListView {
        TodoListView { todos: Seq::empty(), ..self }
    }

    /// How many of the ids `ids`, counted as often as they occur, are in
    /// the store.
    pub open spec fn present(self, ids: Seq<u32>) -> nat
        decreases ids.len(),
    {
        if ids.len() == 0 {
            0
        } else if self.contains_id(ids.last()) {
            self.present(ids.drop_last()) + 1
        } else {
            self.present(ids.drop_last())
        }
    }
}

impl TodoList {
    /// Removes every task. The counter stays, so that no id comes back.
    pub fn clear(&mut self)
        ensures
            final(self)@ == old(self)@.emptied(),
            final(self).wf(),
            old(self)@.tidy() ==> final(self)@.tidy(),
    {
        self.todos.clear();
        assert(self@.todos =~= Seq::empty());
    }

    /// Adds each of `texts`, entered at `now`, as a root task, as long as
    /// the store has ids.
    pub fn add_each_at(&mut self, texts: Vec<String>, now: Timestamp)
        requires
            old(self).wf(),
        ensures
            final(self)@ == old(self)@.added_each(crate::text::texts(texts@), now),
            final(self).wf(),
            old(self)@.tidy() ==> final(self)@.tidy(),
    {
        let ghost all = crate::text::texts(texts@);
        let mut i: usize = 0;
        proof {
            assert(all.take(0) =~= Seq::empty());
        }
        while i < texts.len()
            invariant
                i <= texts.len(),
                all == crate::text::texts(texts@),
                self@ == old(self)@.added_each(all.take(i as int), now),
                self.wf(),
                old(self)@.tidy() ==> self@.tidy(),
            decreases texts.len() - i,
        {
            proof {
                assert(all.take(i + 1).drop_last() =~= all.take(i as int));
                assert(all.take(i + 1).last() == texts@[i as int]@);
            }
            if self.next_id < u32::MAX {
                self.add_todo_at(texts[i].clone(), now);
            }
            i += 1;
        }
        assert(all.take(texts@.len() as int) =~= all);
    }

    /// Replaces the notes of the task `id` and tells whether it is there.
    pub fn set_notes(&mut self, id: u32, notes: Option<String>) -> (found: bool)
        ensures
            found == old(self)@.contains_id(id),
            final(self)@ == old(self)@.changed(
                id,
                TodoView { notes: opt_text(notes), ..old(self)@.task(id) },
            ),
            old(self).wf() ==> final(self).wf(),
            old(self)@.tidy() ==> final(self)@.tidy(),
    {
        match self.find(id) {
            Some(at) => {
                self.todos[at].set_notes(notes);
                proof {
                    lemma_views_update(old(self).todos@, self.todos@, at as int);
                    lemma_same_ids(old(self)@.todos, self@.todos);
                }
                true
            },
            None => false,
        }
    }

    /// Sets the recurrence rule of the task `id` and tells whether it is
    /// there.
    pub fn set_recurrence(&mut self, id: u32, pattern: RecurrencePattern) -> (found: bool)
        ensures
            found == old(self)@.contains_id(id),
            final(self)@ == old(self)@.changed(
                id,
                TodoView { recurrence: pattern, ..old(self)@.task(id) },
            ),
            old(self).wf() ==> final(self).wf(),
            old(self)@.tidy() ==> final(self)@.tidy(),
    {
        match self.find(id) {
            Some(at) => {
                self.todos[at].set_recurrence(pattern);
                proof {
                    lemma_views_update(old(self).todos@, self.todos@, at as int);
                    lemma_same_ids(old(self)@.todos, self@.todos);
                }
                true
            },
            None => false,
        }
    }

    /// Replaces the text of the task `id` with text entered at `now`; see
    /// [`Todo::update_description_at`]. Tells whether the task is there.
    pub fn update_description_at(&mut self, id: u32, text: String, now: Timestamp) -> (found: bool)
        ensures
            found == old(self)@.contains_id(id),
            final(self)@ == old(self)@.changed(id, old(self)@.task(id).rewritten(text@, now)),
            old(self).wf() ==> final(self).wf(),
            old(self)@.tidy() ==> final(self)@.tidy(),
    {
        match self.find(id) {
            Some(at) => {
                self.todos[at].update_description_at(text, now);
                proof {
                    lemma_views_update(old(self).todos@, self.todos@, at as int);
                    lemma_same_ids(old(self)@.todos, self@.todos);
                }
                true
            },
            None => false,
        }
    }

    /// Marks the task `id` completed at `now` and tells whether it is
    /// there.
    pub fn complete_at(&mut self, id: u32, now: Timestamp) -> (found: bool)
        ensures
            found == old(self)@.contains_id(id),
            final(self)@ == old(self)@.changed(id, old(self)@.task(id).completed(now)),
            old(self).wf() ==> final(self).wf(),
            old(self)@.tidy() ==> final(self)@.tidy(),
    {
        match self.find(id) {
            Some(at) => {
                self.todos[at].complete_at(now);
                proof {
                    lemma_views_update(old(self).todos@, self.todos@, at as int);
                    lemma_same_ids(old(self)@.todos, self@.todos);
                }
                true
            },
            None => false,
        }
    }

    /// Removes the tasks `ids` one after another, each as
    /// [`TodoList::remove_todo`] removes it, and returns those that were
    /// there, in the order of `ids`.
    pub fn remove_each(&mut self, ids: &Vec<u32>) -> (gone: Vec<Todo>)
        ensures
            final(self)@ == old(self)@.removed_each(ids@),
            views(gone@) == old(self)@.taken_each(ids@),
            old(self).wf() ==> final(self).wf(),
            old(self)@.tidy() ==> final(self)@.tidy(),
    {
        let mut gone: Vec<Todo> = Vec::new();
        let mut i: usize = 0;
        proof {
            assert(ids@.take(0) =~= Seq::empty());
            assert(views(gone@) =~= old(self)@.taken_each(ids@.take(0)));
        }
        while i < ids.len()
            invariant
                i <= ids.len(),
                self@ == old(self)@.removed_each(ids@.take(i as int)),
                views(gone@) == old(self)@.taken_each(ids@.take(i as int)),
                old(self).wf() ==> self.wf(),
                old(self)@.tidy() ==> self@.tidy(),
            decreases ids.len() - i,
        {
            proof {
                assert(ids@.take(i + 1).drop_last() =~= ids@.take(i as int));
                assert(ids@.take(i + 1).last() == ids@[i as int]);
            }
            match self.remove_todo(ids[i]) {
                Some(todo) => {
                    let ghost before = views(gone@);
                    gone.push(todo);
                    assert(views(gone@) =~= before.push(todo@));
                },
                None => {},
            }
            i += 1;
        }
        assert(ids@.take(ids@.len() as int) =~= ids@);
        gone
    }

    /// Completes, at `now`, each of the tasks `ids` that is not completed,
    /// and returns how many it completed.
    pub fn complete_each(&mut self, ids: &Vec<u32>, now: Timestamp) -> (count: usize)
        ensures
            final(self)@ == old(self)@.completed_each(ids@, now),
            count == old(self)@.newly_completed(ids@, now),
            old(self).wf() ==> final(self).wf(),
            old(self)@.tidy() ==> final(self)@.tidy(),
    {
        let mut count: usize = 0;
        let mut i: usize = 0;
        proof {
            assert(ids@.take(0) =~= Seq::empty());
        }
        while i < ids.len()
            invariant
                i <= ids.len(),
                count <= i,
                self@ == old(self)@.completed_each(ids@.take(i as int), now),
                count == old(self)@.newly_completed(ids@.take(i as int), now),
                old(self).wf() ==> self.wf(),
                old(self)@.tidy() ==> self@.tidy(),
            decreases ids.len() - i,
        {
            proof {
                assert(ids@.take(i + 1).drop_last() =~= ids@.take(i as int));
                assert(ids@.take(i + 1).last() == ids@[i as int]);
            }
            let open = match self.get_todo(ids[i]) {
                Some(todo) => !todo.is_completed(),
                None => false,
            };
            if open {
                self.complete_at(ids[i], now);
                count += 1;
            }
            i += 1;
        }
        assert(ids@.take(ids@.len() as int) =~= ids@);
        count
    }

    /// Sets the priority of each of the tasks `ids`, held at the highest
    /// one, and returns how many of the ids were there.
    pub fn set_priority_each(&mut self, ids: &Vec<u32>, priority: u8) -> (count: usize)
        ensures
            final(self)@ == old(self)@.prioritized_each(ids@, priority),
            count == old(self)@.present(ids@),
            old(self).wf() ==> final(self).wf(),
            old(self)@.tidy() ==> final(self)@.tidy(),
    {
        let mut count: usize = 0;
        let mut i: usize = 0;
        proof {
            assert(ids@.take(0) =~= Seq::empty());
        }
        while i < ids.len()
            invariant
                i <= ids.len(),
                count <= i,
                self@ == old(self)@.prioritized_each(ids@.take(i as int), priority),
                count == old(self)@.present(ids@.take(i as int)),
                forall|x: u32|
                    #[trigger] contains_id(self@.todos, x) == contains_id(old(self)@.todos, x),
                old(self).wf() ==> self.wf(),
                old(self)@.tidy() ==> self@.tidy(),
            decreases ids.len() - i,
        {
            proof {
                assert(ids@.take(i + 1).drop_last() =~= ids@.take(i as int));
                assert(ids@.take(i + 1).last() == ids@[i as int]);
            }
            let ghost before = self@;
            let there = self.find(ids[i]).is_some();
            self.set_priority(ids[i], priority);
            proof {
                if there {
                    crate::store::lemma_has_position(before.todos, ids@[i as int]);
                    lemma_same_ids(before.todos, self@.todos);
                }
            }
            if there {
                count += 1;
            }
            i += 1;
        }
        assert(ids@.take(ids@.len() as int) =~= ids@);
        count
    }
}

} // verus!
