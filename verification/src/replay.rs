//! Applying a command of the history to the store it belongs to: backwards
//! to undo it, forwards to redo it.
//!
//! A command names its workspace, so it is applied to the store of that
//! workspace whichever workspace is current. Undoing an addition removes
//! the task; undoing a deletion puts the tasks back as they were and makes
//! their parents list them again; undoing a change of status, text or
//! priority puts the former value back.

use crate::history::{Command, CommandView};
use crate::store::{
    contains_id, lemma_same_ids, lemma_views_update, position, views, TodoList, TodoListView,
};
use crate::time::Timestamp;
use crate::todo::{Todo, TodoStatus, TodoView, MAX_PRIORITY};
use crate::workspace::{
    holds_id, place_of, WorkspaceEntryView, WorkspaceManager, WorkspaceManagerView,
};
use crate::removal::{other_than, strike};
use vstd::prelude::*;

verus! {

impl TodoView {
    /// The task with a former status put back: completed at `now` where
    /// that status is completed, without completion time otherwise.
    pub open spec fn with_status(self, status: TodoStatus, now: Timestamp) -> TodoView {
        TodoView {
            status,
            completed_at: if status == TodoStatus::Completed {
                Some(now)
            } else {
                None
            },
            ..self
        }
    }

    /// The task with former texts put back: read anew from the raw text at
    /// `now`, with the former description.
    pub open spec fn with_texts(self, description: Seq<char>, raw: Seq<char>, now: Timestamp) -> TodoView {
        TodoView { description, ..self.rewritten(raw, now) }
    }

    /// The task with a priority, held at the highest one.
    pub open spec fn with_priority(self, priority: u8) -> TodoView {
        TodoView {
            priority: if priority <= MAX_PRIORITY {
                priority
            } else {
                MAX_PRIORITY
            },
            ..self
        }
    }

    /// The task with its completion toggled at `now`.
    pub open spec fn toggled_complete(self, now: Timestamp) -> TodoView {
        if self.status == TodoStatus::Completed {
            self.reopened()
        } else {
            self.completed(now)
        }
    }
}

impl TodoListView {
    /// The store with a task put in: in the place of the task that had its
    /// id, or else behind all others. The counter moves above the id of the
    /// task where it was not. A task with the largest id there is, above
    /// which no counter can be, is not put in.
    pub open spec fn inserted(self, todo: TodoView) -> TodoListView {
        if todo.id == u32::MAX {
            self
        } else {
            let next_id = if self.next_id > todo.id {
                self.next_id
            } else {
                (todo.id + 1) as u32
            };
            if self.contains_id(todo.id) {
                TodoListView { next_id, ..self.replaced(todo.id, todo) }
            } else {
                TodoListView { todos: self.todos.push(todo), next_id }
            }
        }
    }

    /// The store in which the task `parent` lists `child`: as its last
    /// child where it did not list it. The same store where the task is not
    /// there.
    pub open spec fn attached(self, parent: u32, child: u32) -> TodoListView {
        if self.contains_id(parent) && !self.task(parent).children.contains(child) {
            let p = self.task(parent);
            self.replaced(parent, TodoView { children: p.children.push(child), ..p })
        } else {
            self
        }
    }

    /// The store in which the task `parent` does not list `child`.
    pub open spec fn struck(self, parent: u32, child: u32) -> TodoListView {
        if self.contains_id(parent) {
            let p = self.task(parent);
            self.replaced(parent, TodoView { children: p.children.filter(other_than(child)), ..p })
        } else {
            self
        }
    }

    /// The store with a task put back, listed again by the parent it names.
    pub open spec fn restored(self, todo: TodoView) -> TodoListView {
        match todo.parent_id {
            Some(parent) => self.attached(parent, todo.id).inserted(todo),
            None => self.inserted(todo),
        }
    }

    /// The store with tasks put in one after another.
    pub open spec fn inserted_all(self, todos: Seq<TodoView>) -> TodoListView
        decreases todos.len(),
    {
        if todos.len() == 0 {
            self
        } else {
            self.inserted_all(todos.drop_last()).inserted(todos.last())
        }
    }

    /// The store in which each of `todos` is listed by the parent it names.
    pub open spec fn attached_all(self, todos: Seq<TodoView>) -> TodoListView
        decreases todos.len(),
    {
        if todos.len() == 0 {
            self
        } else {
            let before = self.attached_all(todos.drop_last());
            match todos.last().parent_id {
                Some(parent) => before.attached(parent, todos.last().id),
                None => before,
            }
        }
    }

    /// The store with one task changed; the same store where it is not
    /// there.
    pub open spec fn changed(self, id: u32, to: TodoView) -> TodoListView {
        if self.contains_id(id) {
            self.replaced(id, to)
        } else {
            self
        }
    }

    /// The store after a command was undone at `now`.
    pub open spec fn command_undone(self, command: CommandView, now: Timestamp) -> TodoListView {
        match command {
            CommandView::AddTodo { todo, .. } => self.removed(todo.id),
            CommandView::DeleteTodo { todo, .. } => self.restored(todo),
            CommandView::CompleteTodo { todo_id, old_status, .. } => self.changed(
                todo_id,
                self.task(todo_id).with_status(old_status, now),
            ),
            CommandView::EditTodo {
                todo_id,
                old_description,
                old_raw_description,
                ..
            } => self.changed(
                todo_id,
                self.task(todo_id).with_texts(old_description, old_raw_description, now),
            ),
            CommandView::ChangePriority { todo_id, old_priority, .. } => self.changed(
                todo_id,
                self.task(todo_id).with_priority(old_priority),
            ),
            CommandView::AddChildTodo { parent_id, child_todo, .. } => self.struck(
                parent_id,
                child_todo.id,
            ).removed(child_todo.id),
            CommandView::DeleteWithChildren { deleted_todos, .. } => self.inserted_all(
                deleted_todos,
            ).attached_all(deleted_todos),
        }
    }

    /// The store after a command was redone at `now`. Only additions of
    /// roots, single deletions, completions and changes of priority can be
    /// redone; a change of priority is redone to the priority that the
    /// command holds.
    pub open spec fn command_redone(self, command: CommandView, now: Timestamp) -> TodoListView {
        match command {
            CommandView::AddTodo { todo, .. } => self.inserted(todo),
            CommandView::DeleteTodo { todo, .. } => self.removed(todo.id),
            CommandView::CompleteTodo { todo_id, .. } => self.changed(
                todo_id,
                self.task(todo_id).toggled_complete(now),
            ),
            CommandView::ChangePriority { todo_id, old_priority, .. } => self.changed(
                todo_id,
                self.task(todo_id).with_priority(old_priority),
            ),
            _ => self,
        }
    }
}

impl CommandView {
    /// Whether redoing is defined for this kind of command.
    pub open spec fn can_be_redone(self) -> bool {
        match self {
            CommandView::AddTodo { .. } => true,
            CommandView::DeleteTodo { .. } => true,
            CommandView::CompleteTodo { .. } => true,
            CommandView::ChangePriority { .. } => true,
            _ => false,
        }
    }
}

impl WorkspaceManagerView {
    /// The manager with another store for the workspace `id`; the same
    /// manager where there is no such workspace.
    pub open spec fn with_store(self, id: Seq<char>, store: TodoListView) -> WorkspaceManagerView {
        if holds_id(self.entries, id) {
            let at = place_of(self.entries, id);
            WorkspaceManagerView {
                entries: self.entries.update(
                    at,
                    WorkspaceEntryView { todos: store, ..self.entries[at] },
                ),
                ..self
            }
        } else {
            self
        }
    }

    /// The store of the workspace `id`.
    pub open spec fn store_of(self, id: Seq<char>) -> TodoListView {
        self.entries[place_of(self.entries, id)].todos
    }

    /// The manager after a command was undone at `now` in the store of its
    /// workspace.
    pub open spec fn command_undone(self, command: CommandView, now: Timestamp) -> WorkspaceManagerView {
        self.with_store(
            command.workspace_id(),
            self.store_of(command.workspace_id()).command_undone(command, now),
        )
    }

    /// The manager after a command was redone at `now` in the store of its
    /// workspace.
    pub open spec fn command_redone(self, command: CommandView, now: Timestamp) -> WorkspaceManagerView {
        self.with_store(
            command.workspace_id(),
            self.store_of(command.workspace_id()).command_redone(command, now),
        )
    }
}

/// Undoing the addition of a root right after it was added leaves the
/// tasks as they were before; only the counter has moved on.
pub proof fn lemma_undo_add(
    store: TodoListView,
    workspace_id: Seq<char>,
    raw: Seq<char>,
    now: Timestamp,
    later: Timestamp,
)
    requires
        store.wf(),
        store.next_id < u32::MAX,
    ensures
        store.added(raw, now).command_undone(
            CommandView::AddTodo { workspace_id, todo: Todo::created(store.next_id, raw, now) },
            later,
        ).todos == store.todos,
{
    let new = Todo::created(store.next_id, raw, now);
    let after = store.added(raw, now);
    crate::store::lemma_push(store.todos, new);
    assert(!contains_id(store.todos, new.id)) by {
        if contains_id(store.todos, new.id) {
            let i = choose|i: int| 0 <= i < store.todos.len() && #[trigger] store.todos[i].id == new.id;
            assert(store.todos[i].id < store.next_id);
        }
    }
    assert(position(after.todos, new.id) == store.todos.len());
    assert(after.task(new.id) == new);
    assert(after.detached(new.id) == after);
    assert(after.removed(new.id).todos =~= store.todos);
}

/// A manager in which one store gave way to another well-formed store is
/// as well formed as it was.
pub proof fn lemma_store_swapped(before: WorkspaceManagerView, after: WorkspaceManagerView, at: int)
    requires
        0 <= at < before.entries.len(),
        after.entries == before.entries.update(
            at,
            WorkspaceEntryView { todos: after.entries[at].todos, ..before.entries[at] },
        ),
        before.entries[at].todos.wf() ==> after.entries[at].todos.wf(),
    ensures
        before.all_wf() ==> after.all_wf(),
{
    if before.all_wf() {
        assert forall|i: int, j: int| 0 <= i < j < after.entries.len() implies (
        #[trigger] after.entries[i]).workspace.id != (#[trigger] after.entries[j]).workspace.id by {
            assert(before.entries[i].workspace.id != before.entries[j].workspace.id);
        }
        assert forall|i: int| 0 <= i < after.entries.len() implies (
        #[trigger] after.entries[i]).todos.wf() by {
            if i != at {
                assert(before.entries[i].todos.wf());
            }
        }
    }
}

/// Whether `id` is in a list of ids.
pub fn lists(kids: &Vec<u32>, id: u32) -> (found: bool)
    ensures
        found == kids@.contains(id),
{
    let mut i: usize = 0;
    while i < kids.len()
        invariant
            i <= kids.len(),
            forall|j: int| 0 <= j < i ==> kids@[j] != id,
        decreases kids.len() - i,
    {
        if kids[i] == id {
            return true;
        }
        i += 1;
    }
    false
}

impl TodoList {
    /// Puts a task into the store: in the place of the task that has its
    /// id, or else behind all others.
    pub fn insert(&mut self, todo: Todo)
        ensures
            final(self)@ == old(self)@.inserted(todo@),
            old(self).wf() ==> final(self).wf(),
    {
        if todo.id == u32::MAX {
            return ;
        }
        if self.next_id <= todo.id {
            self.next_id = todo.id + 1;
        }
        match self.find(todo.id) {
            Some(at) => {
                self.todos[at] = todo;
                proof {
                    lemma_views_update(old(self).todos@, self.todos@, at as int);
                    lemma_same_ids(old(self)@.todos, self@.todos);
                    if old(self).wf() {
                        assert forall|i: int| 0 <= i < self@.todos.len() implies (
                        #[trigger] self@.todos[i]).id < self.next_id by {
                            assert(old(self)@.todos[i].id < old(self).next_id);
                        }
                    }
                }
            },
            None => {
                proof {
                    crate::store::lemma_push(self@.todos, todo@);
                }
                self.todos.push(todo);
                proof {
                    assert(self@.todos =~= old(self)@.todos.push(todo@));
                    if old(self).wf() {
                        assert forall|i: int| 0 <= i < self@.todos.len() implies (
                        #[trigger] self@.todos[i]).id < self.next_id by {
                            if i < old(self)@.todos.len() {
                                assert(old(self)@.todos[i].id < old(self).next_id);
                            }
                        }
                    }
                }
            },
        }
    }

    /// Makes the task `parent` list `child` as its last child, unless it
    /// lists it already.
    pub fn attach(&mut self, parent: u32, child: u32)
        ensures
            final(self)@ == old(self)@.attached(parent, child),
            old(self).wf() ==> final(self).wf(),
    {
        match self.find(parent) {
            Some(at) => {
                if !lists(&self.todos[at].children, child) {
                    self.todos[at].children.push(child);
                    proof {
                        lemma_views_update(old(self).todos@, self.todos@, at as int);
                        lemma_same_ids(old(self)@.todos, self@.todos);
                    }
                }
            },
            None => {},
        }
    }

    /// Strikes `child` from the child list of the task `parent`.
    pub fn strike_child(&mut self, parent: u32, child: u32)
        ensures
            final(self)@ == old(self)@.struck(parent, child),
            old(self).wf() ==> final(self).wf(),
    {
        match self.find(parent) {
            Some(at) => {
                strike(&mut self.todos[at].children, child);
                proof {
                    lemma_views_update(old(self).todos@, self.todos@, at as int);
                    lemma_same_ids(old(self)@.todos, self@.todos);
                }
            },
            None => {},
        }
    }

    /// Puts a task back: the parent it names lists it again, and the task
    /// stands in the store as it was.
    pub fn restore(&mut self, todo: Todo)
        ensures
            final(self)@ == old(self)@.restored(todo@),
            old(self).wf() ==> final(self).wf(),
    {
        match todo.parent_id {
            Some(parent) => {
                self.attach(parent, todo.id);
            },
            None => {},
        }
        self.insert(todo);
    }

    /// Puts tasks back that were deleted together: first all tasks, then
    /// every link from a parent to one of them.
    pub fn restore_all(&mut self, todos: &Vec<Todo>)
        ensures
            final(self)@ == old(self)@.inserted_all(views(todos@)).attached_all(views(todos@)),
            old(self).wf() ==> final(self).wf(),
    {
        let ghost all = views(todos@);
        let mut i: usize = 0;
        proof {
            assert(all.take(0) =~= Seq::empty());
        }
        while i < todos.len()
            invariant
                i <= todos.len(),
                all == views(todos@),
                self@ == old(self)@.inserted_all(all.take(i as int)),
                old(self).wf() ==> self.wf(),
            decreases todos.len() - i,
        {
            proof {
                assert(all.take(i + 1).drop_last() =~= all.take(i as int));
                assert(all.take(i + 1).last() == todos@[i as int]@);
            }
            self.insert(todos[i].clone());
            i += 1;
        }
        proof {
            assert(all.take(todos@.len() as int) =~= all);
            assert(all.take(0) =~= Seq::empty());
        }
        let ghost middle = self@;
        let mut k: usize = 0;
        while k < todos.len()
            invariant
                k <= todos.len(),
                all == views(todos@),
                self@ == middle.attached_all(all.take(k as int)),
                old(self).wf() ==> self.wf(),
            decreases todos.len() - k,
        {
            proof {
                assert(all.take(k + 1).drop_last() =~= all.take(k as int));
                assert(all.take(k + 1).last() == todos@[k as int]@);
            }
            match todos[k].parent_id {
                Some(parent) => {
                    self.attach(parent, todos[k].id);
                },
                None => {},
            }
            k += 1;
        }
        proof {
            assert(all.take(todos@.len() as int) =~= all);
        }
    }

    /// Puts a former status back on the task `id`, at `now`.
    pub fn restore_status(&mut self, id: u32, status: TodoStatus, now: Timestamp)
        ensures
            final(self)@ == old(self)@.changed(id, old(self)@.task(id).with_status(status, now)),
            old(self).wf() ==> final(self).wf(),
    {
        match self.find(id) {
            Some(at) => {
                self.todos[at].status = status;
                self.todos[at].completed_at = match status {
                    TodoStatus::Completed => Some(now),
                    _ => None,
                };
                proof {
                    lemma_views_update(old(self).todos@, self.todos@, at as int);
                    lemma_same_ids(old(self)@.todos, self@.todos);
                }
            },
            None => {},
        }
    }

    /// Puts former texts back on the task `id`: the task is read anew from
    /// the raw text at `now`, and gets the former description.
    pub fn restore_texts(&mut self, id: u32, description: String, raw: String, now: Timestamp)
        ensures
            final(self)@ == old(self)@.changed(
                id,
                old(self)@.task(id).with_texts(description@, raw@, now),
            ),
            old(self).wf() ==> final(self).wf(),
    {
        match self.find(id) {
            Some(at) => {
                self.todos[at].update_description_at(raw, now);
                self.todos[at].description = description;
                proof {
                    lemma_views_update(old(self).todos@, self.todos@, at as int);
                    lemma_same_ids(old(self)@.todos, self@.todos);
                }
            },
            None => {},
        }
    }

    /// Sets the priority of the task `id`, held at the highest one.
    pub fn set_priority(&mut self, id: u32, priority: u8)
        ensures
            final(self)@ == old(self)@.changed(id, old(self)@.task(id).with_priority(priority)),
            old(self).wf() ==> final(self).wf(),
    {
        match self.find(id) {
            Some(at) => {
                self.todos[at].set_priority(priority);
                proof {
                    lemma_views_update(old(self).todos@, self.todos@, at as int);
                    lemma_same_ids(old(self)@.todos, self@.todos);
                }
            },
            None => {},
        }
    }

    /// Toggles the completion of the task `id` at `now`.
    pub fn toggle_complete_at(&mut self, id: u32, now: Timestamp)
        ensures
            final(self)@ == old(self)@.changed(id, old(self)@.task(id).toggled_complete(now)),
            old(self).wf() ==> final(self).wf(),
    {
        match self.find(id) {
            Some(at) => {
                self.todos[at].toggle_complete_at(now);
                proof {
                    lemma_views_update(old(self).todos@, self.todos@, at as int);
                    lemma_same_ids(old(self)@.todos, self@.todos);
                }
            },
            None => {},
        }
    }

    /// Undoes a command in this store, at `now`.
    pub fn undo_command(&mut self, command: &Command, now: Timestamp)
        ensures
            final(self)@ == old(self)@.command_undone(command@, now),
            old(self).wf() ==> final(self).wf(),
    {
        match command {
            Command::AddTodo { todo, .. } => {
                self.remove_todo(todo.id);
            },
            Command::DeleteTodo { todo, .. } => {
                self.restore(todo.clone());
            },
            Command::CompleteTodo { todo_id, old_status, .. } => {
                self.restore_status(*todo_id, *old_status, now);
            },
            Command::EditTodo { todo_id, old_description, old_raw_description, .. } => {
                self.restore_texts(
                    *todo_id,
                    old_description.clone(),
                    old_raw_description.clone(),
                    now,
                );
            },
            Command::ChangePriority { todo_id, old_priority, .. } => {
                self.set_priority(*todo_id, *old_priority);
            },
            Command::AddChildTodo { parent_id, child_todo, .. } => {
                self.strike_child(*parent_id, child_todo.id);
                self.remove_todo(child_todo.id);
            },
            Command::DeleteWithChildren { deleted_todos, .. } => {
                self.restore_all(deleted_todos);
            },
        }
    }

    /// Redoes a command in this store, at `now`, and tells whether redoing
    /// is defined for its kind.
    pub fn redo_command(&mut self, command: &Command, now: Timestamp) -> (defined: bool)
        ensures
            final(self)@ == old(self)@.command_redone(command@, now),
            defined == command@.can_be_redone(),
            old(self).wf() ==> final(self).wf(),
    {
        match command {
            Command::AddTodo { todo, .. } => {
                self.insert(todo.clone());
                true
            },
            Command::DeleteTodo { todo, .. } => {
                self.remove_todo(todo.id);
                true
            },
            Command::CompleteTodo { todo_id, .. } => {
                self.toggle_complete_at(*todo_id, now);
                true
            },
            Command::ChangePriority { todo_id, old_priority, .. } => {
                self.set_priority(*todo_id, *old_priority);
                true
            },
            _ => false,
        }
    }
}

impl WorkspaceManager {
    /// Undoes a command, at `now`, in the store of the workspace that the
    /// command names, and tells whether that workspace is there.
    pub fn execute_undo_command_at(&mut self, command: &Command, now: Timestamp) -> (applied: bool)
        ensures
            applied == holds_id(old(self)@.entries, command@.workspace_id()),
            final(self)@ == old(self)@.command_undone(command@, now),
            old(self)@.all_wf() ==> final(self)@.all_wf(),
    {
        match self.find(command.workspace_id().as_str()) {
            Some(at) => {
                self.entries[at].todos.undo_command(command, now);
                proof {
                    assert(self@.entries =~= old(self)@.command_undone(command@, now).entries);
                    lemma_store_swapped(old(self)@, self@, at as int);
                }
                true
            },
            None => false,
        }
    }

    /// Undoes a command now. See
    /// [`WorkspaceManager::execute_undo_command_at`].
    pub fn execute_undo_command(&mut self, command: &Command) -> (applied: bool)
        ensures
            applied == holds_id(old(self)@.entries, command@.workspace_id()),
            exists|now: Timestamp| final(self)@ == old(self)@.command_undone(command@, now),
            old(self)@.all_wf() ==> final(self)@.all_wf(),
    {
        let now = Timestamp::now();
        self.execute_undo_command_at(command, now)
    }

    /// Redoes a command, at `now`, in the store of the workspace that the
    /// command names, and tells whether that workspace is there and
    /// redoing is defined for the kind of the command.
    pub fn execute_redo_command_at(&mut self, command: &Command, now: Timestamp) -> (applied: bool)
        ensures
            applied == (holds_id(old(self)@.entries, command@.workspace_id())
                && command@.can_be_redone()),
            final(self)@ == old(self)@.command_redone(command@, now),
            old(self)@.all_wf() ==> final(self)@.all_wf(),
    {
        match self.find(command.workspace_id().as_str()) {
            Some(at) => {
                let defined = self.entries[at].todos.redo_command(command, now);
                proof {
                    assert(self@.entries =~= old(self)@.command_redone(command@, now).entries);
                    lemma_store_swapped(old(self)@, self@, at as int);
                }
                defined
            },
            None => false,
        }
    }

    /// Redoes a command now. See
    /// [`WorkspaceManager::execute_redo_command_at`].
    pub fn execute_redo_command(&mut self, command: &Command) -> (applied: bool)
        ensures
            applied == (holds_id(old(self)@.entries, command@.workspace_id())
                && command@.can_be_redone()),
            exists|now: Timestamp| final(self)@ == old(self)@.command_redone(command@, now),
            old(self)@.all_wf() ==> final(self)@.all_wf(),
    {
        let now = Timestamp::now();
        self.execute_redo_command_at(command, now)
    }
}

} // verus!
