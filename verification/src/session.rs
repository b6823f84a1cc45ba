//! A working session: the workspaces with their stores, and the history of
//! what was done to them.
//!
//! Every change to a task of the current store goes through the session,
//! which makes the change and records the command that undoes it. Undo and
//! redo take a command from the history and apply it to the store of the
//! workspace that the command names.

use crate::history::{Command, CommandHistory, CommandHistoryView, CommandView};
use crate::recurrence::follow_ups;
use crate::store::TodoListView;
use crate::template::TodoTemplate;
use crate::text::opt_text;
use crate::time::Timestamp;
use crate::todo::{RecurrencePattern, Todo, TodoStatus, TodoView, MAX_PRIORITY};
use crate::workspace::{
    entry_views, holds_id, holds_name, place_named, workspace_id, WorkspaceEntry,
    WorkspaceEntryView, WorkspaceManager, WorkspaceManagerView,
};
use vstd::prelude::*;

verus! {

/// The workspaces and the history of one user.
pub struct Session {
    workspace_manager: WorkspaceManager,
    command_history: CommandHistory,
}

/// The mathematical content of a [`Session`].
pub struct SessionView {
    pub manager: WorkspaceManagerView,
    pub history: CommandHistoryView,
}

impl View for Session {
    type V = SessionView;

    closed spec fn view(&self) -> SessionView {
        SessionView { manager: self.workspace_manager@, history: self.command_history@ }
    }
}

impl SessionView {
    /// The session without workspaces and without history.
    pub open spec fn empty() -> SessionView {
        SessionView {
            manager: WorkspaceManagerView {
                entries: Seq::empty(),
                current_workspace: None,
                next_workspace_id: 1,
            },
            history: CommandHistoryView {
                undo: Seq::empty(),
                redo: Seq::empty(),
                max_history: crate::history::MAX_HISTORY as nat,
            },
        }
    }

    /// The store of the current workspace, if one is current and there.
    pub open spec fn current(self) -> Option<TodoListView> {
        match self.manager.current_place() {
            Some(at) => Some(self.manager.entries[at].todos),
            None => None,
        }
    }

    /// The id of the current workspace.
    pub open spec fn current_id(self) -> Seq<char> {
        self.manager.current_workspace.unwrap()
    }

    /// The session with another store for the current workspace.
    pub open spec fn changed(self, store: TodoListView) -> SessionView {
        SessionView { manager: self.manager.with_store(self.current_id(), store), ..self }
    }

    /// The session with another store for the current workspace, and with
    /// the command recorded that undoes the change.
    pub open spec fn recorded(self, store: TodoListView, command: CommandView) -> SessionView {
        SessionView {
            manager: self.manager.with_store(self.current_id(), store),
            history: self.history.pushed(command),
        }
    }

    /// The session after raw text entered at `now` became a root task of
    /// the current store. Nothing changes where no workspace is current or
    /// the store has run out of ids.
    pub open spec fn todo_added(self, text: Seq<char>, now: Timestamp) -> SessionView {
        match self.current() {
            Some(store) => if store.next_id < u32::MAX {
                self.recorded(
                    store.added(text, now),
                    CommandView::AddTodo {
                        workspace_id: self.current_id(),
                        todo: Todo::created(store.next_id, text, now),
                    },
                )
            } else {
                self
            },
            None => self,
        }
    }

    /// The session after the completion of the task `id` of the current
    /// store was toggled at `now`.
    pub open spec fn completion_toggled(self, id: u32, now: Timestamp) -> SessionView {
        match self.current() {
            Some(store) => if store.contains_id(id) {
                self.recorded(
                    store.changed(id, store.task(id).toggled_complete(now)),
                    CommandView::CompleteTodo {
                        workspace_id: self.current_id(),
                        todo_id: id,
                        old_status: store.task(id).status,
                    },
                )
            } else {
                self
            },
            None => self,
        }
    }

    /// The session after raw text entered at `now` became a child of the
    /// task `parent_id` of the current store. Nothing changes where no
    /// workspace is current, the task is not there or the store has run out
    /// of ids.
    pub open spec fn child_added(self, parent_id: u32, text: Seq<char>, now: Timestamp) -> SessionView {
        match self.current() {
            Some(store) => if store.next_id < u32::MAX && store.contains_id(parent_id) {
                self.recorded(
                    store.child_added(parent_id, text, now),
                    CommandView::AddChildTodo {
                        workspace_id: self.current_id(),
                        parent_id,
                        child_todo: TodoView {
                            parent_id: Some(parent_id),
                            ..Todo::created(store.next_id, text, now)
                        },
                    },
                )
            } else {
                self
            },
            None => self,
        }
    }

    /// The session after the task `id` of the current store was removed.
    pub open spec fn todo_deleted(self, id: u32) -> SessionView {
        match self.current() {
            Some(store) => if store.contains_id(id) {
                self.recorded(
                    store.removed(id),
                    CommandView::DeleteTodo {
                        workspace_id: self.current_id(),
                        todo: store.detached(id).task(id),
                    },
                )
            } else {
                self
            },
            None => self,
        }
    }

    /// The session after tasks left the current store together: the store
    /// that is left, and the tasks recorded if there are any.
    pub open spec fn tasks_deleted(self, left: TodoListView, gone: Seq<TodoView>) -> SessionView {
        SessionView {
            manager: self.manager.with_store(self.current_id(), left),
            history: if gone.len() > 0 {
                self.history.pushed(
                    CommandView::DeleteWithChildren {
                        workspace_id: self.current_id(),
                        deleted_todos: gone,
                    },
                )
            } else {
                self.history
            },
        }
    }

    /// The session after the task `id` of the current store was removed
    /// with all that hangs under it.
    pub open spec fn subtree_deleted(self, id: u32) -> SessionView {
        match self.current() {
            Some(store) => self.tasks_deleted(store.pruned(id), store.pruned_tasks(id)),
            None => self,
        }
    }

    /// The session after the tasks `ids` of the current store were removed
    /// one after another.
    pub open spec fn bulk_deleted(self, ids: Seq<u32>) -> SessionView {
        match self.current() {
            Some(store) => self.tasks_deleted(store.removed_each(ids), store.taken_each(ids)),
            None => self,
        }
    }

    /// The session after the tasks `ids` of the current store were
    /// completed at `now`.
    pub open spec fn bulk_completed(self, ids: Seq<u32>, now: Timestamp) -> SessionView {
        match self.current() {
            Some(store) => self.changed(store.completed_each(ids, now)),
            None => self,
        }
    }

    /// The session after the priority of the tasks `ids` of the current
    /// store was set.
    pub open spec fn bulk_prioritized(self, ids: Seq<u32>, priority: u8) -> SessionView {
        match self.current() {
            Some(store) => self.changed(store.prioritized_each(ids, priority)),
            None => self,
        }
    }

    /// The session after the priority of the task `id` of the current
    /// store went to `priority`, which is recorded.
    pub open spec fn priority_changed(self, id: u32, priority: u8) -> SessionView {
        match self.current() {
            Some(store) => self.recorded(
                store.changed(id, store.task(id).with_priority(priority)),
                CommandView::ChangePriority {
                    workspace_id: self.current_id(),
                    todo_id: id,
                    old_priority: store.task(id).priority,
                },
            ),
            None => self,
        }
    }

    /// The session after the priority of the task `id` of the current
    /// store was raised by one. Nothing changes where the task is not there
    /// or has the highest priority.
    pub open spec fn priority_raised(self, id: u32) -> SessionView {
        match self.current() {
            Some(store) => if store.contains_id(id) && store.task(id).priority < MAX_PRIORITY {
                self.priority_changed(id, (store.task(id).priority + 1) as u8)
            } else {
                self
            },
            None => self,
        }
    }

    /// The session after the priority of the task `id` of the current
    /// store was lowered by one. Nothing changes where the task is not
    /// there or has the priority 0.
    pub open spec fn priority_lowered(self, id: u32) -> SessionView {
        match self.current() {
            Some(store) => if store.contains_id(id) && store.task(id).priority > 0 {
                self.priority_changed(id, (store.task(id).priority - 1) as u8)
            } else {
                self
            },
            None => self,
        }
    }

    /// The session after the text of the task `id` of the current store
    /// gave way to text entered at `now`.
    pub open spec fn todo_edited(self, id: u32, text: Seq<char>, now: Timestamp) -> SessionView {
        match self.current() {
            Some(store) => if store.contains_id(id) {
                self.recorded(
                    store.changed(id, store.task(id).rewritten(text, now)),
                    CommandView::EditTodo {
                        workspace_id: self.current_id(),
                        todo_id: id,
                        old_description: store.task(id).description,
                        old_raw_description: store.task(id).raw_description,
                    },
                )
            } else {
                self
            },
            None => self,
        }
    }

    /// The session after one task of the current store changed, without a
    /// record.
    pub open spec fn task_changed(self, id: u32, to: TodoView) -> SessionView {
        match self.current() {
            Some(store) => self.changed(store.changed(id, to)),
            None => self,
        }
    }

    /// The task `id` of the current store.
    pub open spec fn task(self, id: u32) -> TodoView {
        self.current().unwrap().task(id)
    }

    /// Whether a workspace is current and its store holds the task `id`.
    pub open spec fn holds(self, id: u32) -> bool {
        match self.current() {
            Some(store) => store.contains_id(id),
            None => false,
        }
    }

    /// The session after the children of the task `id` of the current
    /// store were shown or hidden. Nothing changes for a task without
    /// children.
    pub open spec fn expansion_toggled(self, id: u32) -> SessionView {
        if self.holds(id) && self.task(id).children.len() > 0 {
            self.changed(self.current().unwrap().toggled(id))
        } else {
            self
        }
    }

    /// The session after the timer of the task `id` of the current store
    /// was stopped if it ran, and started if it did not, at `now`.
    pub open spec fn timer_toggled(self, id: u32, now: Timestamp) -> SessionView {
        if self.holds(id) {
            if self.task(id).time_tracker.current_session.is_some() {
                self.changed(self.current().unwrap().timer_stopped(id, now))
            } else {
                self.changed(self.current().unwrap().timer_started(id, now))
            }
        } else {
            self
        }
    }

    /// The session after the follow-ups of the recurring tasks of the
    /// current store were made at `now`. Nothing changes where the store
    /// has not the ids for as many follow-ups as it has tasks.
    pub open spec fn recurring_processed(self, now: Timestamp) -> SessionView {
        match self.current() {
            Some(store) => if store.next_id + store.todos.len() <= u32::MAX {
                self.changed(store.recurred(now))
            } else {
                self
            },
            None => self,
        }
    }

    /// The session after the tasks of the current store gave way to the
    /// tasks that `texts`, entered at `now`, describe.
    pub open spec fn todos_replaced(self, texts: Seq<Seq<char>>, now: Timestamp) -> SessionView {
        match self.current() {
            Some(store) => self.changed(store.emptied().added_each(texts, now)),
            None => self,
        }
    }

    /// The session with the first workspace of the name current; the same
    /// session where no workspace has the name.
    pub open spec fn switched_by_name(self, name: Seq<char>) -> SessionView {
        if holds_name(self.manager.entries, name) {
            SessionView {
                manager: WorkspaceManagerView {
                    current_workspace: Some(
                        self.manager.entries[place_named(self.manager.entries, name)].workspace.id,
                    ),
                    ..self.manager
                },
                ..self
            }
        } else {
            self
        }
    }

    /// The session after a workspace was made at `now`. Nothing changes
    /// where the manager has run out of numbers for ids.
    pub open spec fn workspace_created(
        self,
        name: Seq<char>,
        description: Option<Seq<char>>,
        now: Timestamp,
    ) -> SessionView {
        if self.manager.next_workspace_id < u32::MAX {
            SessionView { manager: self.manager.created(name, description, now), ..self }
        } else {
            self
        }
    }

    /// The session after a workspace was found to work in, at `now`.
    pub open spec fn workspace_ensured(self, now: Timestamp) -> SessionView {
        if self.manager.next_workspace_id < u32::MAX {
            SessionView { manager: self.manager.ensured(now), ..self }
        } else {
            self
        }
    }

    /// The session after the last command was undone at `now`.
    pub open spec fn undone(self, now: Timestamp) -> SessionView {
        match self.history.next_undo() {
            Some(command) => SessionView {
                manager: self.manager.command_undone(command, now),
                history: self.history.undone(),
            },
            None => self,
        }
    }

    /// The session after the last undone command was redone at `now`.
    pub open spec fn redone(self, now: Timestamp) -> SessionView {
        match self.history.next_redo() {
            Some(command) => SessionView {
                manager: self.manager.command_redone(command, now),
                history: self.history.redone(),
            },
            None => self,
        }
    }
}

impl Session {
    /// No two workspaces share an id, and every store is well formed.
    #[verifier::type_invariant]
    spec fn sound(self) -> bool {
        self.workspace_manager@.all_wf()
    }

    /// A session without workspaces and without history.
    pub fn new() -> (session: Session)
        ensures
            session@ == SessionView::empty(),
    {
        Session { workspace_manager: WorkspaceManager::new(), command_history: CommandHistory::new() }
    }

    /// A session on a manager and a history that came from elsewhere;
    /// nothing where the manager is not well formed.
    pub fn from_parts(workspace_manager: WorkspaceManager, command_history: CommandHistory) -> (session:
        Option<Session>)
        ensures
            match session {
                Some(s) => workspace_manager@.all_wf() && s@.manager == workspace_manager@
                    && s@.history == command_history@,
                None => !workspace_manager@.all_wf(),
            },
    {
        if workspace_manager.is_well_formed() {
            Some(Session { workspace_manager, command_history })
        } else {
            None
        }
    }

    /// The workspaces of the session.
    pub fn workspace_manager(&self) -> (manager: &WorkspaceManager)
        ensures
            manager@ == self@.manager,
            manager@.all_wf(),
    {
        proof {
            use_type_invariant(self);
        }
        &self.workspace_manager
    }

    /// The history of the session.
    pub fn command_history(&self) -> (history: &CommandHistory)
        ensures
            history@ == self@.history,
    {
        &self.command_history
    }

    /// Takes the session apart, leaving an empty one.
    fn take(&mut self) -> (parts: (WorkspaceManager, CommandHistory))
        ensures
            parts.0@ == old(self)@.manager,
            parts.1@ == old(self)@.history,
            parts.0@.all_wf(),
    {
        proof {
            use_type_invariant(&*self);
        }
        let mut session = Session::new();
        core::mem::swap(self, &mut session);
        let Session { workspace_manager, command_history } = session;
        (workspace_manager, command_history)
    }

    /// Puts the session together again.
    fn put(&mut self, workspace_manager: WorkspaceManager, command_history: CommandHistory)
        requires
            workspace_manager@.all_wf(),
        ensures
            final(self)@.manager == workspace_manager@,
            final(self)@.history == command_history@,
    {
        *self = Session { workspace_manager, command_history };
    }

    /// Adds the task that `text`, entered at `now`, describes to the
    /// current store as a root, records the addition, and returns the id of
    /// the task. Nothing is added where no workspace is current or the
    /// store has run out of ids.
    pub fn add_todo_at(&mut self, text: String, now: Timestamp) -> (id: Option<u32>)
        ensures
            final(self)@ == old(self)@.todo_added(text@, now),
            id == match old(self)@.current() {
                Some(store) => if store.next_id < u32::MAX {
                    Some(store.next_id)
                } else {
                    None
                },
                None => None,
            },
    {
        let (mut manager, mut history) = self.take();
        let ghost before = manager@;
        let ghost was = manager.entries@;
        let mut id: Option<u32> = None;
        match manager.current_place() {
            Some(at) => {
                if manager.entries[at].todos.next_id < u32::MAX {
                    let workspace_id = manager.entries[at].workspace.id.clone();
                    let new_id = manager.entries[at].todos.add_todo_at(text, now);
                    let list = &manager.entries[at].todos;
                    let todo = list.todos[list.todos.len() - 1].clone();
                    proof {
                        assert(list@.todos[list.todos@.len() - 1] == Todo::created(
                            new_id,
                            text@,
                            now,
                        ));
                        lemma_entry_changed(was, manager.entries@, at as int);
                        lemma_current_changed(before, manager@, at as int);
                    }
                    id = Some(new_id);
                    history.push_command(Command::AddTodo { workspace_id, todo });
                }
            },
            None => {},
        }
        self.put(manager, history);
        id
    }

    /// Adds the task that `text`, entered at `now`, describes to the
    /// current store as the last child of the task `parent_id`, records the
    /// addition, and returns the id of the task.
    pub fn add_child_todo_at(&mut self, parent_id: u32, text: String, now: Timestamp) -> (id: Option<
        u32,
    >)
        ensures
            final(self)@ == old(self)@.child_added(parent_id, text@, now),
            id == match old(self)@.current() {
                Some(store) => if store.next_id < u32::MAX && store.contains_id(parent_id) {
                    Some(store.next_id)
                } else {
                    None
                },
                None => None,
            },
    {
        let (mut manager, mut history) = self.take();
        let ghost before = manager@;
        let ghost was = manager.entries@;
        let mut id: Option<u32> = None;
        match manager.current_place() {
            Some(at) => {
                if manager.entries[at].todos.next_id < u32::MAX {
                    let workspace_id = manager.entries[at].workspace.id.clone();
                    match manager.entries[at].todos.add_child_todo_at(parent_id, text, now) {
                        Some(new_id) => {
                            let list = &manager.entries[at].todos;
                            let child_todo = list.todos[list.todos.len() - 1].clone();
                            proof {
                                assert(list@.todos[list.todos@.len() - 1] == (TodoView {
                                    parent_id: Some(parent_id),
                                    ..Todo::created(new_id, text@, now)
                                }));
                                lemma_entry_changed(was, manager.entries@, at as int);
                                lemma_current_changed(before, manager@, at as int);
                            }
                            id = Some(new_id);
                            history.push_command(
                                Command::AddChildTodo { workspace_id, parent_id, child_todo },
                            );
                        },
                        None => {
                            proof {
                                lemma_entry_changed(was, manager.entries@, at as int);
                                lemma_current_changed(before, manager@, at as int);
                                assert(manager@.entries =~= before.entries);
                            }
                        },
                    }
                }
            },
            None => {},
        }
        self.put(manager, history);
        id
    }

    /// Toggles, at `now`, the completion of the task `id` of the current
    /// store, records the status it had, and returns the status it has
    /// now. Nothing where the task is not there.
    pub fn toggle_complete_at(&mut self, id: u32, now: Timestamp) -> (status: Option<TodoStatus>)
        ensures
            final(self)@ == old(self)@.completion_toggled(id, now),
            status == if old(self)@.holds(id) {
                Some(old(self)@.task(id).toggled_complete(now).status)
            } else {
                None
            },
    {
        let (mut manager, mut history) = self.take();
        let ghost before = manager@;
        let ghost was = manager.entries@;
        let mut status: Option<TodoStatus> = None;
        match manager.current_place() {
            Some(at) => {
                let old_status = match manager.entries[at].todos.get_todo(id) {
                    Some(todo) => Some(todo.status),
                    None => None,
                };
                match old_status {
                    Some(old_status) => {
                        let workspace_id = manager.entries[at].workspace.id.clone();
                        manager.entries[at].todos.toggle_complete_at(id, now);
                        proof {
                            lemma_entry_changed(was, manager.entries@, at as int);
                            lemma_current_changed(before, manager@, at as int);
                        }
                        status = Some(
                            match old_status {
                                TodoStatus::Completed => TodoStatus::Pending,
                                _ => TodoStatus::Completed,
                            },
                        );
                        history.push_command(
                            Command::CompleteTodo { workspace_id, todo_id: id, old_status },
                        );
                    },
                    None => {},
                }
            },
            None => {},
        }
        self.put(manager, history);
        status
    }

    /// Removes the task `id` from the current store and records the
    /// removal. Its children stay. Tells whether the task was there.
    pub fn delete_todo(&mut self, id: u32) -> (deleted: bool)
        ensures
            final(self)@ == old(self)@.todo_deleted(id),
            deleted == old(self)@.holds(id),
    {
        let (mut manager, mut history) = self.take();
        let ghost before = manager@;
        let ghost was = manager.entries@;
        let mut deleted = false;
        match manager.current_place() {
            Some(at) => {
                let workspace_id = manager.entries[at].workspace.id.clone();
                match manager.entries[at].todos.remove_todo(id) {
                    Some(todo) => {
                        proof {
                            lemma_entry_changed(was, manager.entries@, at as int);
                            lemma_current_changed(before, manager@, at as int);
                        }
                        deleted = true;
                        history.push_command(Command::DeleteTodo { workspace_id, todo });
                    },
                    None => {
                        proof {
                            lemma_entry_changed(was, manager.entries@, at as int);
                            lemma_current_changed(before, manager@, at as int);
                            assert(manager@.entries =~= before.entries);
                        }
                    },
                }
            },
            None => {},
        }
        self.put(manager, history);
        deleted
    }

    /// Removes the task `id` from the current store with all that hangs
    /// under it, records the removed tasks, and returns how many there
    /// were.
    pub fn delete_with_children(&mut self, id: u32) -> (count: usize)
        ensures
            final(self)@ == old(self)@.subtree_deleted(id),
            count == match old(self)@.current() {
                Some(store) => store.pruned_tasks(id).len(),
                None => 0,
            },
    {
        let (mut manager, mut history) = self.take();
        let ghost before = manager@;
        let ghost was = manager.entries@;
        let mut count: usize = 0;
        match manager.current_place() {
            Some(at) => {
                let workspace_id = manager.entries[at].workspace.id.clone();
                let deleted_todos = manager.entries[at].todos.remove_todo_and_children(id);
                proof {
                    lemma_entry_changed(was, manager.entries@, at as int);
                    lemma_current_changed(before, manager@, at as int);
                }
                count = deleted_todos.len();
                if count > 0 {
                    history.push_command(Command::DeleteWithChildren { workspace_id, deleted_todos });
                }
            },
            None => {},
        }
        self.put(manager, history);
        count
    }

    /// Removes the tasks `ids` from the current store one after another,
    /// records the removed tasks as one command, and returns how many
    /// there were.
    pub fn bulk_delete_todos(&mut self, ids: &Vec<u32>) -> (count: usize)
        ensures
            final(self)@ == old(self)@.bulk_deleted(ids@),
            count == match old(self)@.current() {
                Some(store) => store.taken_each(ids@).len(),
                None => 0,
            },
    {
        let (mut manager, mut history) = self.take();
        let ghost before = manager@;
        let ghost was = manager.entries@;
        let mut count: usize = 0;
        match manager.current_place() {
            Some(at) => {
                let workspace_id = manager.entries[at].workspace.id.clone();
                let deleted_todos = manager.entries[at].todos.remove_each(ids);
                proof {
                    lemma_entry_changed(was, manager.entries@, at as int);
                    lemma_current_changed(before, manager@, at as int);
                }
                count = deleted_todos.len();
                if count > 0 {
                    history.push_command(Command::DeleteWithChildren { workspace_id, deleted_todos });
                }
            },
            None => {},
        }
        self.put(manager, history);
        count
    }

    /// Completes, at `now`, those of the tasks `ids` of the current store
    /// that are not completed, and returns how many it completed.
    pub fn bulk_complete_todos_at(&mut self, ids: &Vec<u32>, now: Timestamp) -> (count: usize)
        ensures
            final(self)@ == old(self)@.bulk_completed(ids@, now),
            count == match old(self)@.current() {
                Some(store) => store.newly_completed(ids@, now),
                None => 0,
            },
    {
        let (mut manager, history) = self.take();
        let ghost before = manager@;
        let ghost was = manager.entries@;
        let mut count: usize = 0;
        match manager.current_place() {
            Some(at) => {
                count = manager.entries[at].todos.complete_each(ids, now);
                proof {
                    lemma_entry_changed(was, manager.entries@, at as int);
                    lemma_current_changed(before, manager@, at as int);
                }
            },
            None => {},
        }
        self.put(manager, history);
        count
    }

    /// Sets the priority of the tasks `ids` of the current store, held at
    /// the highest one, and returns how many of the ids were there.
    pub fn bulk_set_priority(&mut self, ids: &Vec<u32>, priority: u8) -> (count: usize)
        ensures
            final(self)@ == old(self)@.bulk_prioritized(ids@, priority),
            count == match old(self)@.current() {
                Some(store) => store.present(ids@),
                None => 0,
            },
    {
        let (mut manager, history) = self.take();
        let ghost before = manager@;
        let ghost was = manager.entries@;
        let mut count: usize = 0;
        match manager.current_place() {
            Some(at) => {
                count = manager.entries[at].todos.set_priority_each(ids, priority);
                proof {
                    lemma_entry_changed(was, manager.entries@, at as int);
                    lemma_current_changed(before, manager@, at as int);
                }
            },
            None => {},
        }
        self.put(manager, history);
        count
    }

    /// Moves the priority of the task `id` of the current store one step
    /// up (`up`) or down, records the priority it had, and returns the
    /// priority it has now. Nothing where the task is not there or the
    /// priority is at its end.
    fn step_priority(&mut self, id: u32, up: bool) -> (priority: Option<u8>)
        ensures
            final(self)@ == if up {
                old(self)@.priority_raised(id)
            } else {
                old(self)@.priority_lowered(id)
            },
            priority == if old(self)@.holds(id) && (if up {
                old(self)@.task(id).priority < MAX_PRIORITY
            } else {
                old(self)@.task(id).priority > 0
            }) {
                Some(
                    if up {
                        (old(self)@.task(id).priority + 1) as u8
                    } else {
                        (old(self)@.task(id).priority - 1) as u8
                    },
                )
            } else {
                None
            },
    {
        let (mut manager, mut history) = self.take();
        let ghost before = manager@;
        let ghost was = manager.entries@;
        let mut priority: Option<u8> = None;
        match manager.current_place() {
            Some(at) => {
                let old_priority = match manager.entries[at].todos.get_todo(id) {
                    Some(todo) => Some(todo.priority),
                    None => None,
                };
                match old_priority {
                    Some(old_priority) => {
                        if (up && old_priority < MAX_PRIORITY) || (!up && old_priority > 0) {
                            let new_priority: u8 = if up {
                                old_priority + 1
                            } else {
                                old_priority - 1
                            };
                            let workspace_id = manager.entries[at].workspace.id.clone();
                            manager.entries[at].todos.set_priority(id, new_priority);
                            proof {
                                lemma_entry_changed(was, manager.entries@, at as int);
                                lemma_current_changed(before, manager@, at as int);
                            }
                            priority = Some(new_priority);
                            history.push_command(
                                Command::ChangePriority { workspace_id, todo_id: id, old_priority },
                            );
                        }
                    },
                    None => {},
                }
            },
            None => {},
        }
        self.put(manager, history);
        priority
    }

    /// Raises the priority of the task `id` of the current store by one,
    /// records the priority it had, and returns the priority it has now.
    /// Nothing where the task is not there or has the highest priority.
    pub fn increase_priority(&mut self, id: u32) -> (priority: Option<u8>)
        ensures
            final(self)@ == old(self)@.priority_raised(id),
            priority == if old(self)@.holds(id) && old(self)@.task(id).priority < MAX_PRIORITY {
                Some((old(self)@.task(id).priority + 1) as u8)
            } else {
                None
            },
    {
        self.step_priority(id, true)
    }

    /// Lowers the priority of the task `id` of the current store by one,
    /// records the priority it had, and returns the priority it has now.
    /// Nothing where the task is not there or has the priority 0.
    pub fn decrease_priority(&mut self, id: u32) -> (priority: Option<u8>)
        ensures
            final(self)@ == old(self)@.priority_lowered(id),
            priority == if old(self)@.holds(id) && old(self)@.task(id).priority > 0 {
                Some((old(self)@.task(id).priority - 1) as u8)
            } else {
                None
            },
    {
        self.step_priority(id, false)
    }

    /// Replaces the text of the task `id` of the current store with text
    /// entered at `now`, records the texts it had, and tells whether the
    /// task was there.
    pub fn edit_todo_at(&mut self, id: u32, text: String, now: Timestamp) -> (edited: bool)
        ensures
            final(self)@ == old(self)@.todo_edited(id, text@, now),
            edited == old(self)@.holds(id),
    {
        let (mut manager, mut history) = self.take();
        let ghost before = manager@;
        let ghost was = manager.entries@;
        let mut edited = false;
        match manager.current_place() {
            Some(at) => {
                let texts = match manager.entries[at].todos.get_todo(id) {
                    Some(todo) => Some((todo.description.clone(), todo.raw_description.clone())),
                    None => None,
                };
                match texts {
                    Some((old_description, old_raw_description)) => {
                        let workspace_id = manager.entries[at].workspace.id.clone();
                        manager.entries[at].todos.update_description_at(id, text, now);
                        proof {
                            lemma_entry_changed(was, manager.entries@, at as int);
                            lemma_current_changed(before, manager@, at as int);
                        }
                        edited = true;
                        history.push_command(
                            Command::EditTodo {
                                workspace_id,
                                todo_id: id,
                                old_description,
                                old_raw_description,
                            },
                        );
                    },
                    None => {},
                }
            },
            None => {},
        }
        self.put(manager, history);
        edited
    }

    /// Replaces the notes of the task `id` of the current store and tells
    /// whether the task was there.
    pub fn set_notes(&mut self, id: u32, notes: Option<String>) -> (found: bool)
        ensures
            found == old(self)@.holds(id),
            final(self)@ == old(self)@.task_changed(
                id,
                TodoView { notes: opt_text(notes), ..old(self)@.task(id) },
            ),
            !found ==> final(self)@ == old(self)@,
    {
        let (mut manager, history) = self.take();
        let ghost before = manager@;
        let ghost was = manager.entries@;
        let mut found = false;
        match manager.current_place() {
            Some(at) => {
                found = manager.entries[at].todos.set_notes(id, notes);
                proof {
                    lemma_entry_changed(was, manager.entries@, at as int);
                    lemma_current_changed(before, manager@, at as int);
                    if !found {
                        assert(manager@.entries =~= before.entries);
                    }
                }
            },
            None => {},
        }
        self.put(manager, history);
        found
    }

    /// Sets the recurrence rule of the task `id` of the current store and
    /// tells whether the task was there.
    pub fn set_recurrence(&mut self, id: u32, pattern: RecurrencePattern) -> (found: bool)
        ensures
            found == old(self)@.holds(id),
            final(self)@ == old(self)@.task_changed(
                id,
                TodoView { recurrence: pattern, ..old(self)@.task(id) },
            ),
            !found ==> final(self)@ == old(self)@,
    {
        let (mut manager, history) = self.take();
        let ghost before = manager@;
        let ghost was = manager.entries@;
        let mut found = false;
        match manager.current_place() {
            Some(at) => {
                found = manager.entries[at].todos.set_recurrence(id, pattern);
                proof {
                    lemma_entry_changed(was, manager.entries@, at as int);
                    lemma_current_changed(before, manager@, at as int);
                    if !found {
                        assert(manager@.entries =~= before.entries);
                    }
                }
            },
            None => {},
        }
        self.put(manager, history);
        found
    }

    /// Stamps a template onto the task `id` of the current store and tells
    /// whether the task was there.
    pub fn apply_template(&mut self, id: u32, template: &TodoTemplate) -> (found: bool)
        ensures
            found == old(self)@.holds(id),
            final(self)@ == old(self)@.task_changed(id, template@.stamped(old(self)@.task(id))),
            !found ==> final(self)@ == old(self)@,
    {
        let (mut manager, history) = self.take();
        let ghost before = manager@;
        let ghost was = manager.entries@;
        let mut found = false;
        match manager.current_place() {
            Some(at) => {
                let ghost store = manager.entries@[at as int].todos;
                match manager.entries[at].todos.find(id) {
                    Some(place) => {
                        template.apply_to_todo(&mut manager.entries[at].todos.todos[place]);
                        proof {
                            crate::store::lemma_views_update(
                                store.todos@,
                                manager.entries@[at as int].todos.todos@,
                                place as int,
                            );
                            crate::store::lemma_same_ids(
                                store@.todos,
                                manager.entries@[at as int].todos@.todos,
                            );
                        }
                        found = true;
                    },
                    None => {},
                }
                proof {
                    lemma_entry_changed(was, manager.entries@, at as int);
                    lemma_current_changed(before, manager@, at as int);
                    if !found {
                        assert(manager@.entries =~= before.entries);
                    }
                }
            },
            None => {},
        }
        self.put(manager, history);
        found
    }

    /// Shows the children of the task `id` of the current store if they
    /// were hidden, and hides them if they were shown; returns whether
    /// they are shown now. Nothing for a task without children.
    pub fn toggle_expansion(&mut self, id: u32) -> (shown: Option<bool>)
        ensures
            final(self)@ == old(self)@.expansion_toggled(id),
            shown == if old(self)@.holds(id) && old(self)@.task(id).children.len() > 0 {
                Some(!old(self)@.task(id).expanded)
            } else {
                None
            },
    {
        let (mut manager, history) = self.take();
        let ghost before = manager@;
        let ghost was = manager.entries@;
        let mut shown: Option<bool> = None;
        match manager.current_place() {
            Some(at) => {
                let expanded = match manager.entries[at].todos.get_todo(id) {
                    Some(todo) => if todo.children.len() > 0 {
                        Some(todo.expanded)
                    } else {
                        None
                    },
                    None => None,
                };
                match expanded {
                    Some(expanded) => {
                        manager.entries[at].todos.toggle_expanded(id);
                        proof {
                            lemma_entry_changed(was, manager.entries@, at as int);
                            lemma_current_changed(before, manager@, at as int);
                        }
                        shown = Some(!expanded);
                    },
                    None => {},
                }
            },
            None => {},
        }
        self.put(manager, history);
        shown
    }

    /// Stops, at `now`, the timer of the task `id` of the current store if
    /// it runs, and starts it if it does not; returns whether it runs now.
    /// Nothing where the task is not there.
    pub fn toggle_timer_at(&mut self, id: u32, now: Timestamp) -> (running: Option<bool>)
        ensures
            final(self)@ == old(self)@.timer_toggled(id, now),
            running == if old(self)@.holds(id) {
                Some(old(self)@.task(id).time_tracker.current_session.is_none())
            } else {
                None
            },
    {
        let (mut manager, history) = self.take();
        let ghost before = manager@;
        let ghost was = manager.entries@;
        let mut running: Option<bool> = None;
        match manager.current_place() {
            Some(at) => {
                let was_running = match manager.entries[at].todos.get_todo(id) {
                    Some(todo) => Some(todo.is_timer_running()),
                    None => None,
                };
                match was_running {
                    Some(was_running) => {
                        if was_running {
                            manager.entries[at].todos.stop_timer_at(id, now);
                        } else {
                            manager.entries[at].todos.start_timer_at(id, now);
                        }
                        proof {
                            lemma_entry_changed(was, manager.entries@, at as int);
                            lemma_current_changed(before, manager@, at as int);
                        }
                        running = Some(!was_running);
                    },
                    None => {},
                }
            },
            None => {},
        }
        self.put(manager, history);
        running
    }

    /// Makes, at `now`, the follow-ups of the recurring tasks of the
    /// current store, and returns how many it made.
    pub fn update_recurring_todos_at(&mut self, now: Timestamp) -> (count: usize)
        ensures
            final(self)@ == old(self)@.recurring_processed(now),
            count == match old(self)@.current() {
                Some(store) => if store.next_id + store.todos.len() <= u32::MAX {
                    follow_ups(store.todos, store.next_id, now).len()
                } else {
                    0
                },
                None => 0,
            },
    {
        let (mut manager, history) = self.take();
        let ghost before = manager@;
        let ghost was = manager.entries@;
        let mut count: usize = 0;
        match manager.current_place() {
            Some(at) => {
                let len = manager.entries[at].todos.total_count();
                let room = (u32::MAX - manager.entries[at].todos.next_id) as usize;
                if len <= room {
                    manager.entries[at].todos.process_recurring_todos_at(now);
                    proof {
                        lemma_entry_changed(was, manager.entries@, at as int);
                        lemma_current_changed(before, manager@, at as int);
                    }
                    count = manager.entries[at].todos.total_count() - len;
                }
            },
            None => {},
        }
        self.put(manager, history);
        count
    }

    /// Removes every task of the current store and adds the tasks that
    /// `texts`, entered at `now`, describe, as roots. Nothing of this is
    /// recorded. Tells whether a workspace is current.
    pub fn replace_todos_at(&mut self, texts: Vec<String>, now: Timestamp) -> (replaced: bool)
        ensures
            final(self)@ == old(self)@.todos_replaced(crate::text::texts(texts@), now),
            replaced == old(self)@.current().is_some(),
    {
        let (mut manager, history) = self.take();
        let ghost before = manager@;
        let ghost was = manager.entries@;
        let mut replaced = false;
        match manager.current_place() {
            Some(at) => {
                manager.entries[at].todos.clear();
                manager.entries[at].todos.add_each_at(texts, now);
                proof {
                    lemma_entry_changed(was, manager.entries@, at as int);
                    lemma_current_changed(before, manager@, at as int);
                }
                replaced = true;
            },
            None => {},
        }
        self.put(manager, history);
        replaced
    }

    /// Takes the last command that was done, undoes it at `now` in the
    /// store of its workspace, and returns it with the news whether that
    /// workspace was there. Nothing where nothing was done.
    pub fn undo_at(&mut self, now: Timestamp) -> (done: Option<(Command, bool)>)
        ensures
            final(self)@ == old(self)@.undone(now),
            match done {
                Some(pair) => old(self)@.history.next_undo() == Some(pair.0@) && pair.1 == holds_id(
                    old(self)@.manager.entries,
                    pair.0@.workspace_id(),
                ),
                None => old(self)@.history.next_undo().is_none(),
            },
    {
        let (mut manager, mut history) = self.take();
        let done = match history.undo() {
            Some(command) => {
                let applied = manager.execute_undo_command_at(&command, now);
                Some((command, applied))
            },
            None => None,
        };
        self.put(manager, history);
        done
    }

    /// Takes the last command that was undone, redoes it at `now` in the
    /// store of its workspace, and returns it with the news whether that
    /// workspace was there and redoing is defined for the command. Nothing
    /// where nothing was undone.
    pub fn redo_at(&mut self, now: Timestamp) -> (done: Option<(Command, bool)>)
        ensures
            final(self)@ == old(self)@.redone(now),
            match done {
                Some(pair) => old(self)@.history.next_redo() == Some(pair.0@) && pair.1 == (
                holds_id(old(self)@.manager.entries, pair.0@.workspace_id())
                    && pair.0@.can_be_redone()),
                None => old(self)@.history.next_redo().is_none(),
            },
    {
        let (mut manager, mut history) = self.take();
        let done = match history.redo() {
            Some(command) => {
                let applied = manager.execute_redo_command_at(&command, now);
                Some((command, applied))
            },
            None => None,
        };
        self.put(manager, history);
        done
    }

    /// Makes a workspace at `now` and returns its id. Nothing where the
    /// manager has run out of numbers for ids.
    pub fn create_workspace_at(&mut self, name: String, description: Option<String>, now: Timestamp) -> (id:
        Option<String>)
        ensures
            final(self)@ == old(self)@.workspace_created(name@, opt_text(description), now),
            opt_text(id) == if old(self)@.manager.next_workspace_id < u32::MAX {
                Some(workspace_id(old(self)@.manager.next_workspace_id))
            } else {
                None
            },
    {
        let (mut manager, history) = self.take();
        let id = if manager.next_workspace_id < u32::MAX {
            Some(manager.create_workspace_at(name, description, now))
        } else {
            None
        };
        self.put(manager, history);
        id
    }

    /// Makes the workspace with the id current.
    pub fn switch_workspace(&mut self, workspace_id: &str) -> (switched: bool)
        ensures
            switched == holds_id(old(self)@.manager.entries, workspace_id@),
            final(self)@ == (SessionView {
                manager: WorkspaceManagerView {
                    current_workspace: if switched {
                        Some(workspace_id@)
                    } else {
                        old(self)@.manager.current_workspace
                    },
                    ..old(self)@.manager
                },
                ..old(self)@
            }),
    {
        let (mut manager, history) = self.take();
        let switched = manager.switch_workspace(workspace_id);
        self.put(manager, history);
        switched
    }

    /// Makes the first workspace with the name current.
    pub fn switch_workspace_by_name(&mut self, workspace_name: &str) -> (switched: bool)
        ensures
            switched == holds_name(old(self)@.manager.entries, workspace_name@),
            final(self)@ == old(self)@.switched_by_name(workspace_name@),
            final(self)@ == (SessionView {
                manager: WorkspaceManagerView {
                    current_workspace: if switched {
                        Some(
                            old(self)@.manager.entries[place_named(
                                old(self)@.manager.entries,
                                workspace_name@,
                            )].workspace.id,
                        )
                    } else {
                        old(self)@.manager.current_workspace
                    },
                    ..old(self)@.manager
                },
                ..old(self)@
            }),
    {
        let (mut manager, history) = self.take();
        let switched = manager.switch_workspace_by_name(workspace_name);
        self.put(manager, history);
        switched
    }

    /// Deletes the workspace with the id, and its store; never the last
    /// workspace.
    pub fn delete_workspace(&mut self, workspace_id: &str) -> (deleted: bool)
        ensures
            deleted == (old(self)@.manager.entries.len() > 1 && holds_id(
                old(self)@.manager.entries,
                workspace_id@,
            )),
            final(self)@ == (SessionView {
                manager: old(self)@.manager.deleted(workspace_id@),
                ..old(self)@
            }),
    {
        let (mut manager, history) = self.take();
        let deleted = manager.delete_workspace(workspace_id);
        self.put(manager, history);
        deleted
    }

    /// Gives the workspace with the id a new name.
    pub fn rename_workspace(&mut self, workspace_id: &str, new_name: String) -> (renamed: bool)
        ensures
            renamed == holds_id(old(self)@.manager.entries, workspace_id@),
            final(self)@ == (SessionView {
                manager: old(self)@.manager.renamed(workspace_id@, new_name@),
                ..old(self)@
            }),
    {
        let (mut manager, history) = self.take();
        let renamed = manager.rename_workspace(workspace_id, new_name);
        self.put(manager, history);
        renamed
    }

    /// Finds a workspace to work in, at `now`, and returns its id; see
    /// [`WorkspaceManager::ensure_workspace_at`]. Nothing where the manager
    /// has run out of numbers for ids.
    pub fn ensure_workspace_at(&mut self, now: Timestamp) -> (id: Option<String>)
        ensures
            final(self)@ == old(self)@.workspace_ensured(now),
            opt_text(id) == if old(self)@.manager.next_workspace_id < u32::MAX {
                Some(old(self)@.manager.ensured_id())
            } else {
                None
            },
    {
        let (mut manager, history) = self.take();
        let id = if manager.next_workspace_id < u32::MAX {
            Some(manager.ensure_workspace_at(now))
        } else {
            None
        };
        self.put(manager, history);
        id
    }
}

/// Changing the store of one entry in place changes the view of that entry.
pub proof fn lemma_entry_changed(before: Seq<WorkspaceEntry>, after: Seq<WorkspaceEntry>, at: int)
    requires
        0 <= at < before.len(),
        after.len() == before.len(),
        forall|j: int| 0 <= j < before.len() && j != at ==> after[j] == before[j],
        after[at].workspace == before[at].workspace,
    ensures
        entry_views(after) == entry_views(before).update(
            at,
            WorkspaceEntryView { todos: after[at].todos@, ..before[at]@ },
        ),
{
    assert(entry_views(after) =~= entry_views(before).update(
        at,
        WorkspaceEntryView { todos: after[at].todos@, ..before[at]@ },
    ));
}

/// A manager whose current store gave way to another is the manager with
/// that store, and as well formed as before if the new store is.
pub proof fn lemma_current_changed(
    before: WorkspaceManagerView,
    after: WorkspaceManagerView,
    at: int,
)
    requires
        before.current_place() == Some(at),
        0 <= at < before.entries.len(),
        after.entries == before.entries.update(
            at,
            WorkspaceEntryView { todos: after.entries[at].todos, ..before.entries[at] },
        ),
        after.current_workspace == before.current_workspace,
        after.next_workspace_id == before.next_workspace_id,
        before.entries[at].todos.wf() ==> after.entries[at].todos.wf(),
    ensures
        after == before.with_store(before.current_workspace.unwrap(), after.entries[at].todos),
        before.all_wf() ==> after.all_wf(),
{
    crate::replay::lemma_store_swapped(before, after, at);
}

} // verus!
