//! Follow-ups of recurring tasks: a completed task with a recurrence rule
//! and a due date gets a new root task with the next due date. The
//! completed task itself is never changed.

use crate::store::{views, TodoList, TodoListView};
use crate::text::{copy_opt_text, copy_texts};
use crate::time::Timestamp;
use crate::todo::{next_due, RecurrencePattern, Todo, TodoStatus, TodoView};
use vstd::prelude::*;

verus! {

/// The follow-up of `source` under the id `id`, made at `now`: a new task
/// read from the same raw text, with the next due date and the rule, notes,
/// priority and labels of `source`. `None` where `source` is not completed,
/// does not recur, or has no next due date.
pub open spec fn follow_up(source: TodoView, id: u32, now: Timestamp) -> Option<TodoView> {
    if source.status == TodoStatus::Completed && source.recurrence != RecurrencePattern::Never {
        match next_due(source.due_date, source.recurrence) {
            Some(due) => Some(
                TodoView {
                    due_date: Some(due),
                    recurrence: source.recurrence,
                    notes: source.notes,
                    priority: source.priority,
                    tags: source.tags,
                    contexts: source.contexts,
                    ..Todo::created(id, source.raw_description, now)
                },
            ),
            None => None,
        }
    } else {
        None
    }
}

/// The follow-ups of tasks, in the order of the tasks, with ids counted up
/// from `first_id`.
pub open spec fn follow_ups(todos: Seq<TodoView>, first_id: u32, now: Timestamp) -> Seq<TodoView>
    decreases todos.len(),
{
    if todos.len() == 0 {
        Seq::empty()
    } else {
        let before = follow_ups(todos.drop_last(), first_id, now);
        match follow_up(todos.last(), (first_id + before.len()) as u32, now) {
            Some(next) => before.push(next),
            None => before,
        }
    }
}

impl TodoListView {
    /// The store after the follow-ups of its recurring tasks were made at
    /// `now`: they stand behind the tasks that were there, which are
    /// unchanged.
    pub open spec fn recurred(self, now: Timestamp) -> TodoListView {
        let new = follow_ups(self.todos, self.next_id, now);
        TodoListView { todos: self.todos + new, next_id: (self.next_id + new.len()) as u32 }
    }
}

/// Makes the follow-up of `source` under the id `id` at `now`, if it has one.
pub fn make_follow_up(source: &Todo, id: u32, now: Timestamp) -> (next: Option<Todo>)
    ensures
        match next {
            Some(todo) => follow_up(source@, id, now) == Some(todo@) && (source@.well_formed()
                ==> todo@.well_formed()),
            None => follow_up(source@, id, now).is_none(),
        },
{
    if !source.should_generate_next() {
        return None;
    }
    match source.get_next_due_date() {
        Some(due) => {
            let mut todo = Todo::new_at(id, source.raw_description.clone(), now);
            todo.due_date = Some(due);
            todo.recurrence = source.recurrence;
            todo.notes = copy_opt_text(&source.notes);
            todo.priority = source.priority;
            todo.tags = copy_texts(&source.tags);
            todo.contexts = copy_texts(&source.contexts);
            Some(todo)
        },
        None => None,
    }
}

impl TodoList {
    /// Makes, at `now`, the follow-up of every task that is completed,
    /// recurs and has a next due date: a new root with a fresh id. Tasks
    /// that were there stay as they were. A second call makes the
    /// follow-ups a second time.
    pub fn process_recurring_todos_at(&mut self, now: Timestamp)
        requires
            old(self).wf(),
            old(self).next_id + old(self).todos@.len() <= u32::MAX,
        ensures
            final(self)@ == old(self)@.recurred(now),
            final(self).wf(),
            old(self)@.tidy() ==> final(self)@.tidy(),
    {
        let ghost tv = self@.todos;
        let first = self.next_id;
        let n = self.todos.len();
        let mut new: Vec<Todo> = Vec::new();
        let mut i: usize = 0;
        proof {
            assert(tv.take(0) =~= Seq::empty());
            assert(views(new@) =~= follow_ups(tv.take(0), first, now));
        }
        while i < n
            invariant
                i <= n,
                n == self.todos@.len(),
                first + n <= u32::MAX,
                tv == self@.todos,
                *self == *old(self),
                new@.len() <= i,
                views(new@) == follow_ups(tv.take(i as int), first, now),
                forall|j: int| 0 <= j < new@.len() ==> (#[trigger] new@[j]).id == first + j,
                old(self)@.tidy() ==> forall|j: int|
                    0 <= j < new@.len() ==> (#[trigger] new@[j])@.well_formed(),
            decreases n - i,
        {
            proof {
                assert(tv.take(i + 1).drop_last() =~= tv.take(i as int));
                assert(tv.take(i + 1).last() == self.todos@[i as int]@);
            }
            let id: u32 = first + new.len() as u32;
            proof {
                if old(self)@.tidy() {
                    assert(self@.todos[i as int].well_formed());
                }
            }
            match make_follow_up(&self.todos[i], id, now) {
                Some(todo) => {
                    let ghost before = views(new@);
                    new.push(todo);
                    assert(views(new@) =~= before.push(todo@));
                },
                None => {},
            }
            i += 1;
        }
        proof {
            assert(tv.take(n as int) =~= tv);
        }
        let ghost made = new@;
        let count: u32 = new.len() as u32;
        self.todos.append(&mut new);
        self.next_id = first + count;
        proof {
            assert(self@.todos =~= tv + views(made));
            let out = self@.todos;
            assert forall|a: int, b: int| 0 <= a < b < out.len() implies (#[trigger] out[a]).id != (
            #[trigger] out[b]).id by {
                if b < tv.len() {
                    assert(tv[a].id != tv[b].id);
                } else if a < tv.len() {
                    assert(tv[a].id < first);
                    assert(out[b].id == made[b - tv.len()].id);
                } else {
                    assert(out[a].id == made[a - tv.len()].id);
                    assert(out[b].id == made[b - tv.len()].id);
                }
            }
            assert forall|a: int| 0 <= a < out.len() implies (#[trigger] out[a]).id
                < self.next_id by {
                if a < tv.len() {
                    assert(tv[a].id < first);
                } else {
                    assert(out[a].id == made[a - tv.len()].id);
                }
            }
            if old(self)@.tidy() {
                assert forall|a: int| 0 <= a < out.len() implies (
                #[trigger] out[a]).well_formed() by {
                    if a < tv.len() {
                        assert(tv[a].well_formed());
                    } else {
                        assert(out[a] == made[a - tv.len()]@);
                    }
                }
            }
        }
    }

    /// Makes the follow-ups of the recurring tasks now. See
    /// [`TodoList::process_recurring_todos_at`].
    pub fn process_recurring_todos(&mut self)
        requires
            old(self).wf(),
            old(self).next_id + old(self).todos@.len() <= u32::MAX,
        ensures
            exists|now: Timestamp| final(self)@ == old(self)@.recurred(now),
            final(self).wf(),
            old(self)@.tidy() ==> final(self)@.tidy(),
    {
        let now = Timestamp::now();
        self.process_recurring_todos_at(now);
    }
}

} // verus!
