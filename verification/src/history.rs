//! The history of commands: what was done, with enough of the state before
//! to undo it, in two bounded stacks.
//!
//! The history only keeps the commands. Applying one, backwards or forwards,
//! is done by [`crate::replay`] on the workspace manager.

use crate::store::views;
use crate::todo::{Todo, TodoStatus, TodoView};
use std::collections::VecDeque;
use vstd::prelude::*;

verus! {

/// How many commands the history keeps to undo.
pub const MAX_HISTORY: usize = 50;

/// One change to the store of a workspace, with what is needed to take it
/// back.
#[derive(Debug)]
pub enum Command {
    /// A root task was added: the task as it was added.
    AddTodo { workspace_id: String, todo: Todo },
    /// One task was deleted: the task as it was.
    DeleteTodo { workspace_id: String, todo: Todo },
    /// The completion of a task was toggled: the status it had.
    CompleteTodo { workspace_id: String, todo_id: u32, old_status: TodoStatus },
    /// The text of a task was edited: the texts it had.
    EditTodo {
        workspace_id: String,
        todo_id: u32,
        old_description: String,
        old_raw_description: String,
    },
    /// The priority of a task was changed: the priority it had.
    ChangePriority { workspace_id: String, todo_id: u32, old_priority: u8 },
    /// A child task was added: the parent and the child as it was added.
    AddChildTodo { workspace_id: String, parent_id: u32, child_todo: Todo },
    /// Tasks were deleted together: the tasks as they were, a parent before
    /// its children.
    DeleteWithChildren { workspace_id: String, deleted_todos: Vec<Todo> },
}

/// The mathematical content of a [`Command`].
pub enum CommandView {
    AddTodo { workspace_id: Seq<char>, todo: TodoView },
    DeleteTodo { workspace_id: Seq<char>, todo: TodoView },
    CompleteTodo { workspace_id: Seq<char>, todo_id: u32, old_status: TodoStatus },
    EditTodo {
        workspace_id: Seq<char>,
        todo_id: u32,
        old_description: Seq<char>,
        old_raw_description: Seq<char>,
    },
    ChangePriority { workspace_id: Seq<char>, todo_id: u32, old_priority: u8 },
    AddChildTodo { workspace_id: Seq<char>, parent_id: u32, child_todo: TodoView },
    DeleteWithChildren { workspace_id: Seq<char>, deleted_todos: Seq<TodoView> },
}

impl View for Command {
    type V = CommandView;

    open spec fn view(&self) -> CommandView {
        match self {
            Command::AddTodo { workspace_id, todo } => CommandView::AddTodo {
                workspace_id: workspace_id@,
                todo: todo@,
            },
            Command::DeleteTodo { workspace_id, todo } => CommandView::DeleteTodo {
                workspace_id: workspace_id@,
                todo: todo@,
            },
            Command::CompleteTodo { workspace_id, todo_id, old_status } => CommandView::CompleteTodo {
                workspace_id: workspace_id@,
                todo_id: *todo_id,
                old_status: *old_status,
            },
            Command::EditTodo {
                workspace_id,
                todo_id,
                old_description,
                old_raw_description,
            } => CommandView::EditTodo {
                workspace_id: workspace_id@,
                todo_id: *todo_id,
                old_description: old_description@,
                old_raw_description: old_raw_description@,
            },
            Command::ChangePriority {
                workspace_id,
                todo_id,
                old_priority,
            } => CommandView::ChangePriority {
                workspace_id: workspace_id@,
                todo_id: *todo_id,
                old_priority: *old_priority,
            },
            Command::AddChildTodo { workspace_id, parent_id, child_todo } => CommandView::AddChildTodo {
                workspace_id: workspace_id@,
                parent_id: *parent_id,
                child_todo: child_todo@,
            },
            Command::DeleteWithChildren {
                workspace_id,
                deleted_todos,
            } => CommandView::DeleteWithChildren {
                workspace_id: workspace_id@,
                deleted_todos: views(deleted_todos@),
            },
        }
    }
}

impl CommandView {
    /// The workspace whose store the command changed.
    pub open spec fn workspace_id(self) -> Seq<char> {
        match self {
            CommandView::AddTodo { workspace_id, .. } => workspace_id,
            CommandView::DeleteTodo { workspace_id, .. } => workspace_id,
            CommandView::CompleteTodo { workspace_id, .. } => workspace_id,
            CommandView::EditTodo { workspace_id, .. } => workspace_id,
            CommandView::ChangePriority { workspace_id, .. } => workspace_id,
            CommandView::AddChildTodo { workspace_id, .. } => workspace_id,
            CommandView::DeleteWithChildren { workspace_id, .. } => workspace_id,
        }
    }
}

/// A copy of a list of tasks.
pub fn copy_todos(todos: &Vec<Todo>) -> (copy: Vec<Todo>)
    ensures
        views(copy@) == views(todos@),
{
    let mut copy: Vec<Todo> = Vec::new();
    let mut i: usize = 0;
    while i < todos.len()
        invariant
            i <= todos.len(),
            copy@.len() == i,
            forall|j: int| 0 <= j < i ==> copy@[j]@ == todos@[j]@,
        decreases todos.len() - i,
    {
        copy.push(todos[i].clone());
        i += 1;
    }
    assert(views(copy@) =~= views(todos@));
    copy
}

impl Command {
    /// The id of the workspace whose store the command changed.
    pub fn workspace_id(&self) -> (id: &String)
        ensures
            id@ == self@.workspace_id(),
    {
        match self {
            Command::AddTodo { workspace_id, .. } => workspace_id,
            Command::DeleteTodo { workspace_id, .. } => workspace_id,
            Command::CompleteTodo { workspace_id, .. } => workspace_id,
            Command::EditTodo { workspace_id, .. } => workspace_id,
            Command::ChangePriority { workspace_id, .. } => workspace_id,
            Command::AddChildTodo { workspace_id, .. } => workspace_id,
            Command::DeleteWithChildren { workspace_id, .. } => workspace_id,
        }
    }
}

impl Clone for Command {
    fn clone(&self) -> (copy: Self)
        ensures
            copy@ == self@,
    {
        match self {
            Command::AddTodo { workspace_id, todo } => Command::AddTodo {
                workspace_id: workspace_id.clone(),
                todo: todo.clone(),
            },
            Command::DeleteTodo { workspace_id, todo } => Command::DeleteTodo {
                workspace_id: workspace_id.clone(),
                todo: todo.clone(),
            },
            Command::CompleteTodo { workspace_id, todo_id, old_status } => Command::CompleteTodo {
                workspace_id: workspace_id.clone(),
                todo_id: *todo_id,
                old_status: *old_status,
            },
            Command::EditTodo {
                workspace_id,
                todo_id,
                old_description,
                old_raw_description,
            } => Command::EditTodo {
                workspace_id: workspace_id.clone(),
                todo_id: *todo_id,
                old_description: old_description.clone(),
                old_raw_description: old_raw_description.clone(),
            },
            Command::ChangePriority { workspace_id, todo_id, old_priority } => Command::ChangePriority {
                workspace_id: workspace_id.clone(),
                todo_id: *todo_id,
                old_priority: *old_priority,
            },
            Command::AddChildTodo { workspace_id, parent_id, child_todo } => Command::AddChildTodo {
                workspace_id: workspace_id.clone(),
                parent_id: *parent_id,
                child_todo: child_todo.clone(),
            },
            Command::DeleteWithChildren { workspace_id, deleted_todos } => Command::DeleteWithChildren {
                workspace_id: workspace_id.clone(),
                deleted_todos: copy_todos(deleted_todos),
            },
        }
    }
}

/// The commands that can be undone and those that can be redone, the last
/// one of each stack being the next to go.
pub struct CommandHistory {
    undo_stack: VecDeque<Command>,
    redo_stack: VecDeque<Command>,
    max_history: usize,
}

/// The mathematical content of a [`CommandHistory`].
pub struct CommandHistoryView {
    pub undo: Seq<CommandView>,
    pub redo: Seq<CommandView>,
    pub max_history: nat,
}

/// The views of a sequence of commands.
pub open spec fn command_views(commands: Seq<Command>) -> Seq<CommandView> {
    Seq::new(commands.len(), |i: int| commands[i]@)
}

impl View for CommandHistory {
    type V = CommandHistoryView;

    closed spec fn view(&self) -> CommandHistoryView {
        CommandHistoryView {
            undo: command_views(self.undo_stack@),
            redo: command_views(self.redo_stack@),
            max_history: self.max_history as nat,
        }
    }
}

impl CommandHistoryView {
    /// The history after a command was done: it is the next to undo, the
    /// oldest command went if there were more than the history keeps, and
    /// nothing is left to redo.
    pub open spec fn pushed(self, command: CommandView) -> CommandHistoryView {
        let undo = self.undo.push(command);
        CommandHistoryView {
            undo: if undo.len() > self.max_history {
                undo.drop_first()
            } else {
                undo
            },
            redo: Seq::empty(),
            ..self
        }
    }

    /// The command that is the next to undo.
    pub open spec fn next_undo(self) -> Option<CommandView> {
        if self.undo.len() > 0 {
            Some(self.undo.last())
        } else {
            None
        }
    }

    /// The command that is the next to redo.
    pub open spec fn next_redo(self) -> Option<CommandView> {
        if self.redo.len() > 0 {
            Some(self.redo.last())
        } else {
            None
        }
    }

    /// The history after the next command to undo went over to the
    /// commands to redo; the same history where there is none.
    pub open spec fn undone(self) -> CommandHistoryView {
        if self.undo.len() > 0 {
            CommandHistoryView {
                undo: self.undo.drop_last(),
                redo: self.redo.push(self.undo.last()),
                ..self
            }
        } else {
            self
        }
    }

    /// The history after the next command to redo went over to the
    /// commands to undo; the same history where there is none.
    pub open spec fn redone(self) -> CommandHistoryView {
        if self.redo.len() > 0 {
            CommandHistoryView {
                undo: self.undo.push(self.redo.last()),
                redo: self.redo.drop_last(),
                ..self
            }
        } else {
            self
        }
    }

    /// The two stacks together hold no more than the history keeps.
    pub open spec fn wf(self) -> bool {
        self.undo.len() + self.redo.len() <= self.max_history
    }
}

impl CommandHistory {
    /// An empty history that keeps [`MAX_HISTORY`] commands.
    pub fn new() -> (history: CommandHistory)
        ensures
            history@.undo == Seq::<CommandView>::empty(),
            history@.redo == Seq::<CommandView>::empty(),
            history@.max_history == MAX_HISTORY,
            history@.wf(),
    {
        let history = CommandHistory {
            undo_stack: VecDeque::new(),
            redo_stack: VecDeque::new(),
            max_history: MAX_HISTORY,
        };
        assert(history@.undo =~= Seq::<CommandView>::empty());
        assert(history@.redo =~= Seq::<CommandView>::empty());
        history
    }

    /// Records a command that was done. Nothing can be redone after it.
    /// Where the history is full the oldest command is forgotten.
    pub fn push_command(&mut self, command: Command)
        ensures
            final(self)@ == old(self)@.pushed(command@),
            old(self)@.wf() && old(self)@.max_history >= 1 ==> final(self)@.wf(),
    {
        self.redo_stack.clear();
        self.undo_stack.push_back(command);
        if self.undo_stack.len() > self.max_history {
            self.undo_stack.pop_front();
        }
        proof {
            let undo = old(self)@.undo.push(command@);
            assert(command_views(old(self).undo_stack@.push(command)) =~= undo);
            if undo.len() > self.max_history {
                assert(self@.undo =~= undo.drop_first());
            }
            assert(self@.redo =~= Seq::<CommandView>::empty());
        }
    }

    /// Takes the last command that was done and hands it out to be undone;
    /// it can be redone afterwards. Nothing where nothing was done.
    pub fn undo(&mut self) -> (command: Option<Command>)
        ensures
            final(self)@ == old(self)@.undone(),
            match command {
                Some(c) => old(self)@.next_undo() == Some(c@),
                None => old(self)@.next_undo().is_none(),
            },
            old(self)@.wf() ==> final(self)@.wf(),
    {
        match self.undo_stack.pop_back() {
            Some(command) => {
                self.redo_stack.push_back(command.clone());
                proof {
                    assert(self@.undo =~= old(self)@.undo.drop_last());
                    assert(self@.redo =~= old(self)@.redo.push(command@));
                    assert(old(self)@.undo.last() == command@);
                }
                Some(command)
            },
            None => None,
        }
    }

    /// Takes the last command that was undone and hands it out to be done
    /// again; it can be undone afterwards. Nothing where nothing was undone
    /// since the last command was done.
    pub fn redo(&mut self) -> (command: Option<Command>)
        ensures
            final(self)@ == old(self)@.redone(),
            match command {
                Some(c) => old(self)@.next_redo() == Some(c@),
                None => old(self)@.next_redo().is_none(),
            },
            old(self)@.wf() ==> final(self)@.wf(),
    {
        match self.redo_stack.pop_back() {
            Some(command) => {
                self.undo_stack.push_back(command.clone());
                proof {
                    assert(self@.redo =~= old(self)@.redo.drop_last());
                    assert(self@.undo =~= old(self)@.undo.push(command@));
                    assert(old(self)@.redo.last() == command@);
                }
                Some(command)
            },
            None => None,
        }
    }

    /// Whether there is a command to undo.
    pub fn can_undo(&self) -> (any: bool)
        ensures
            any == (self@.undo.len() > 0),
    {
        self.undo_stack.len() > 0
    }

    /// Whether there is a command to redo.
    pub fn can_redo(&self) -> (any: bool)
        ensures
            any == (self@.redo.len() > 0),
    {
        self.redo_stack.len() > 0
    }
}

/// After two commands were done, the second is the one that is undone, and
/// the one that is then redone. A third command done after the undo leaves
/// nothing to redo.
pub proof fn lemma_undo_then_redo(
    history: CommandHistoryView,
    a: CommandView,
    b: CommandView,
    c: CommandView,
)
    requires
        history.max_history >= 1,
    ensures
        history.pushed(a).pushed(b).next_undo() == Some(b),
        history.pushed(a).pushed(b).undone().next_redo() == Some(b),
        history.pushed(a).pushed(b).undone().redone().next_undo() == Some(b),
        history.pushed(a).pushed(b).undone().pushed(c).next_redo().is_none(),
        history.pushed(a).pushed(b).undone().pushed(c).redone() == history.pushed(a).pushed(
            b,
        ).undone().pushed(c),
{
    let two = history.pushed(a).pushed(b);
    let first = history.pushed(a);
    assert(first.undo.len() >= 1);
    assert(first.undo.push(b).last() == b);
    assert(two.undo.len() >= 1);
    assert(two.undo.last() == b);
    assert(two.undone().redo.last() == b);
}

} // verus!
