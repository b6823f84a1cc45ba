//! The state of an interactive front end: the session, and what is on
//! screen beside the tasks: the mode, the view, the selection, the texts
//! under edit, the message, and the lists that the pickers offer.
//!
//! The front end is a state machine. Its operations are what the keys of a
//! user interface are bound to; drawing the state and reading the keys are
//! left to the program that uses the library. The state holds a reading of
//! the clock, which that program renews; every operation that needs the
//! time takes it from there.

use crate::history::{Command, CommandView};
use crate::input::{TextBuffer, TextBufferView};
use crate::labels::catalog;
use crate::modes::{
    ids_between, AppMode, BulkOperationType, BulkOperationTypeView, ViewMode, ViewModeView,
};
use crate::outline::row_views;
use crate::removal::{other_than, strike};
use crate::replay::lists;
use crate::session::{Session, SessionView};
use crate::store::TodoList;
use crate::template::{
    builtin_templates, by_name, holds_template, template_place, template_ref_views,
    TemplateManager, TodoTemplateView,
};
use crate::text::{decimal, decimal_string, opt_text, texts, trim, trimmed};
use crate::time::Timestamp;
use crate::todo::{MAX_PRIORITY, RecurrencePattern, Todo, TodoStatus, TodoView};
use crate::workspace::{by_age, holds_id, holds_name, place_named, workspace_id, workspace_views};
use vstd::prelude::*;
use vstd::string::StringExecFns;

verus! {

/// The state of the front end.
pub struct App {
    /// The workspaces and the history.
    pub session: Session,
    /// The reading of the clock that the operations go by.
    pub now: Timestamp,
    pub mode: AppMode,
    pub view_mode: ViewMode,
    /// The selected row of what the view shows.
    pub selected: usize,
    pub input_buffer: TextBuffer,
    pub search_buffer: TextBuffer,
    pub should_quit: bool,
    pub show_help: bool,
    pub message: Option<String>,
    /// The task that gets the child that is being entered.
    pub inserting_child_for: Option<u32>,
    /// The selected row of a picker.
    pub popup_selected: usize,
    pub available_tags: Vec<String>,
    pub available_contexts: Vec<String>,
    pub template_manager: TemplateManager,
    pub notes_buffer: TextBuffer,
    /// The task whose notes are being edited or viewed.
    pub editing_notes_for: Option<u32>,
    pub edit_buffer: TextBuffer,
    /// The task whose text is being edited.
    pub editing_todo_id: Option<u32>,
    /// The ids of the templates that the picker offers.
    pub available_templates: Vec<String>,
    pub available_recurrence: Vec<RecurrencePattern>,
    /// The names of the workspaces that the picker offers.
    pub available_workspaces: Vec<String>,
    /// The ids of the tasks selected for a bulk operation, none twice.
    pub selected_todos: Vec<u32>,
    /// The row in which the visual selection began.
    pub visual_start: Option<usize>,
    pub bulk_operation: Option<BulkOperationType>,
    /// The selected row of the welcome screen.
    pub welcome_selected: usize,
    pub is_first_launch: bool,
}

/// The mathematical content of an [`App`].
pub struct AppView {
    pub session: SessionView,
    pub now: Timestamp,
    pub mode: AppMode,
    pub view_mode: ViewModeView,
    pub selected: usize,
    pub input_buffer: TextBufferView,
    pub search_buffer: TextBufferView,
    pub should_quit: bool,
    pub show_help: bool,
    pub message: Option<Seq<char>>,
    pub inserting_child_for: Option<u32>,
    pub popup_selected: usize,
    pub available_tags: Seq<Seq<char>>,
    pub available_contexts: Seq<Seq<char>>,
    pub templates: Seq<TodoTemplateView>,
    pub notes_buffer: TextBufferView,
    pub editing_notes_for: Option<u32>,
    pub edit_buffer: TextBufferView,
    pub editing_todo_id: Option<u32>,
    pub available_templates: Seq<Seq<char>>,
    pub available_recurrence: Seq<RecurrencePattern>,
    pub available_workspaces: Seq<Seq<char>>,
    pub selected_todos: Seq<u32>,
    pub visual_start: Option<usize>,
    pub bulk_operation: Option<BulkOperationTypeView>,
    pub welcome_selected: usize,
    pub is_first_launch: bool,
}

/// The view of an optional bulk operation.
pub open spec fn opt_bulk(operation: Option<BulkOperationType>) -> Option<BulkOperationTypeView> {
    match operation {
        Some(o) => Some(o@),
        None => None,
    }
}

impl View for App {
    type V = AppView;

    open spec fn view(&self) -> AppView {
        AppView {
            session: self.session@,
            now: self.now,
            mode: self.mode,
            view_mode: self.view_mode@,
            selected: self.selected,
            input_buffer: self.input_buffer@,
            search_buffer: self.search_buffer@,
            should_quit: self.should_quit,
            show_help: self.show_help,
            message: opt_text(self.message),
            inserting_child_for: self.inserting_child_for,
            popup_selected: self.popup_selected,
            available_tags: texts(self.available_tags@),
            available_contexts: texts(self.available_contexts@),
            templates: self.template_manager@,
            notes_buffer: self.notes_buffer@,
            editing_notes_for: self.editing_notes_for,
            edit_buffer: self.edit_buffer@,
            editing_todo_id: self.editing_todo_id,
            available_templates: texts(self.available_templates@),
            available_recurrence: self.available_recurrence@,
            available_workspaces: texts(self.available_workspaces@),
            selected_todos: self.selected_todos@,
            visual_start: self.visual_start,
            bulk_operation: opt_bulk(self.bulk_operation),
            welcome_selected: self.welcome_selected,
            is_first_launch: self.is_first_launch,
        }
    }
}

/// The text without anything in it, with the cursor at its start.
pub open spec fn blank() -> TextBufferView {
    TextBufferView { text: Seq::empty(), cursor: 0 }
}

/// Three texts one after another.
pub fn join(first: &str, second: &str, third: &str) -> (text: String)
    ensures
        text@ == first@ + second@ + third@,
{
    let mut text = String::from_str(first);
    text.append(second);
    text.append(third);
    text
}

/// A count between two texts.
pub fn with_count(before: &str, count: usize, after: &str) -> (text: String)
    ensures
        text@ == before@ + decimal(count as nat) + after@,
{
    let digits = decimal_string(count as u64);
    join(before, digits.as_str(), after)
}

/// What a recurrence rule is called.
pub open spec fn recurrence_name(pattern: RecurrencePattern) -> Seq<char> {
    match pattern {
        RecurrencePattern::Never => "None"@,
        RecurrencePattern::Daily => "Daily"@,
        RecurrencePattern::Weekly => "Weekly"@,
        RecurrencePattern::Monthly => "Monthly"@,
        RecurrencePattern::Yearly => "Yearly"@,
        RecurrencePattern::Custom(_) => "Custom"@,
    }
}

/// What a recurrence rule is called.
pub fn name_of_recurrence(pattern: RecurrencePattern) -> (name: &'static str)
    ensures
        name@ == recurrence_name(pattern),
{
    match pattern {
        RecurrencePattern::Never => "None",
        RecurrencePattern::Daily => "Daily",
        RecurrencePattern::Weekly => "Weekly",
        RecurrencePattern::Monthly => "Monthly",
        RecurrencePattern::Yearly => "Yearly",
        RecurrencePattern::Custom(_) => "Custom",
    }
}

/// Two texts one after another.
pub fn join2(first: &str, second: &str) -> (text: String)
    ensures
        text@ == first@ + second@,
{
    let mut text = String::from_str(first);
    text.append(second);
    text
}

/// The rows of the welcome screen, each with what it says about itself:
/// for a first launch, or for a later one.
pub open spec fn welcome_options(first_launch: bool) -> Seq<(Seq<char>, Seq<char>)> {
    if first_launch {
        seq![
            ("Get Started"@, "Create your first todo and jump right in"@),
            ("Browse Workspaces"@, "Explore existing workspaces or create new ones"@),
            ("Learn the Basics"@, "View help and keyboard shortcuts"@),
            ("Quick Demo"@, "See Paperclip in action with sample todos"@),
            ("Exit"@, "Close Paperclip"@),
        ]
    } else {
        seq![
            ("Browse Workspaces"@, "Select from your existing workspaces"@),
            ("Learn the Basics"@, "View help and keyboard shortcuts"@),
            ("Quick Demo"@, "See Paperclip in action with sample todos"@),
            ("Create New Workspace"@, "Start fresh with a new workspace"@),
            ("Exit"@, "Close Paperclip"@),
        ]
    }
}

/// How many rows the welcome screen has.
pub const WELCOME_ROWS: usize = 5;

/// The views of pairs of texts.
pub open spec fn pair_views(pairs: Seq<(&'static str, &'static str)>) -> Seq<(Seq<char>, Seq<char>)> {
    Seq::new(pairs.len(), |i: int| (pairs[i].0@, pairs[i].1@))
}

/// The texts of the tasks of the demonstration.
pub open spec fn demo_texts() -> Seq<Seq<char>> {
    seq![
        "Welcome to Paperclip! #getting-started @demo due:today"@,
        "Try pressing Space to mark this todo complete #tutorial"@,
        "Press 'a' on this todo to add a child task #tutorial"@,
        "Use j/k or arrow keys to navigate #navigation"@,
        "Press 'i' to add a new todo #basics"@,
        "Press 'n' to add notes to a todo #features"@,
        "Try searching with '/' key #search"@,
        "Filter by tags with '#' key #important @work due:tomorrow"@,
        "Press '?' for help anytime #help"@,
    ]
}

/// What is said when a command was undone.
pub open spec fn undo_message(command: CommandView) -> Seq<char> {
    match command {
        CommandView::AddTodo { todo, .. } => "Undid: Add todo '"@ + todo.description + "'"@,
        CommandView::DeleteTodo { todo, .. } => "Undid: Delete todo '"@ + todo.description + "'"@,
        CommandView::CompleteTodo { .. } => "Undid: Toggle todo completion"@,
        CommandView::EditTodo { .. } => "Undid: Edit todo"@,
        CommandView::ChangePriority { old_priority, .. } => "Undid: Priority change (restored to "@
            + decimal(old_priority as nat) + ")"@,
        CommandView::AddChildTodo { child_todo, .. } => "Undid: Add child todo '"@
            + child_todo.description + "'"@,
        CommandView::DeleteWithChildren { deleted_todos, .. } => "Undid: Delete "@ + decimal(
            deleted_todos.len(),
        ) + " todos with children"@,
    }
}

/// What is said when a command was redone.
pub open spec fn redo_message(command: CommandView) -> Seq<char> {
    match command {
        CommandView::AddTodo { todo, .. } => "Redid: Add todo '"@ + todo.description + "'"@,
        CommandView::DeleteTodo { todo, .. } => "Redid: Delete todo '"@ + todo.description + "'"@,
        CommandView::CompleteTodo { .. } => "Redid: Toggle todo completion"@,
        CommandView::ChangePriority { old_priority, .. } => "Redid: Priority change (to "@
            + decimal(old_priority as nat) + ")"@,
        _ => "Redid the last action"@,
    }
}

/// What is said when a command was undone.
pub fn undo_text(command: &Command) -> (text: String)
    ensures
        text@ == undo_message(command@),
{
    match command {
        Command::AddTodo { todo, .. } => join("Undid: Add todo '", todo.description.as_str(), "'"),
        Command::DeleteTodo { todo, .. } => join(
            "Undid: Delete todo '",
            todo.description.as_str(),
            "'",
        ),
        Command::CompleteTodo { .. } => String::from_str("Undid: Toggle todo completion"),
        Command::EditTodo { .. } => String::from_str("Undid: Edit todo"),
        Command::ChangePriority { old_priority, .. } => with_count(
            "Undid: Priority change (restored to ",
            *old_priority as usize,
            ")",
        ),
        Command::AddChildTodo { child_todo, .. } => join(
            "Undid: Add child todo '",
            child_todo.description.as_str(),
            "'",
        ),
        Command::DeleteWithChildren { deleted_todos, .. } => {
            assert(crate::store::views(deleted_todos@).len() == deleted_todos@.len());
            with_count("Undid: Delete ", deleted_todos.len(), " todos with children")
        },
    }
}

/// What is said when a command was redone.
pub fn redo_text(command: &Command) -> (text: String)
    ensures
        text@ == redo_message(command@),
{
    match command {
        Command::AddTodo { todo, .. } => join("Redid: Add todo '", todo.description.as_str(), "'"),
        Command::DeleteTodo { todo, .. } => join(
            "Redid: Delete todo '",
            todo.description.as_str(),
            "'",
        ),
        Command::CompleteTodo { .. } => String::from_str("Redid: Toggle todo completion"),
        Command::ChangePriority { old_priority, .. } => with_count(
            "Redid: Priority change (to ",
            *old_priority as usize,
            ")",
        ),
        _ => String::from_str("Redid the last action"),
    }
}

/// The texts of the tasks of the demonstration.
pub fn make_demo_texts() -> (list: Vec<String>)
    ensures
        texts(list@) == demo_texts(),
{
    let mut list: Vec<String> = Vec::new();
    list.push(String::from_str("Welcome to Paperclip! #getting-started @demo due:today"));
    list.push(String::from_str("Try pressing Space to mark this todo complete #tutorial"));
    list.push(String::from_str("Press 'a' on this todo to add a child task #tutorial"));
    list.push(String::from_str("Use j/k or arrow keys to navigate #navigation"));
    list.push(String::from_str("Press 'i' to add a new todo #basics"));
    list.push(String::from_str("Press 'n' to add notes to a todo #features"));
    list.push(String::from_str("Try searching with '/' key #search"));
    list.push(String::from_str("Filter by tags with '#' key #important @work due:tomorrow"));
    list.push(String::from_str("Press '?' for help anytime #help"));
    assert(texts(list@) =~= demo_texts());
    list
}

/// The ids without repetitions, each where it came first.
pub open spec fn unique(ids: Seq<u32>) -> Seq<u32>
    decreases ids.len(),
{
    if ids.len() == 0 {
        Seq::empty()
    } else {
        let before = unique(ids.drop_last());
        if before.contains(ids.last()) {
            before
        } else {
            before.push(ids.last())
        }
    }
}

/// The selection for bulk operations with the id switched: out if it was
/// in, in if it was out.
pub open spec fn switched(ids: Seq<u32>, id: u32) -> Seq<u32> {
    if ids.contains(id) {
        ids.filter(other_than(id))
    } else {
        ids.push(id)
    }
}

/// The row that is selected after tasks went from a view that now shows
/// `len` rows: the last row where the selection lay behind it.
pub open spec fn clamped(selected: usize, len: nat) -> usize {
    if selected >= len && len > 0 {
        (len - 1) as usize
    } else {
        selected
    }
}

/// The row below `selected` in a list of `len` rows, or `selected` where
/// there is none below.
pub open spec fn row_below(selected: usize, len: nat) -> usize {
    if selected + 1 < len {
        (selected + 1) as usize
    } else {
        selected
    }
}

/// The ids without repetitions.
pub fn make_unique(ids: &Vec<u32>) -> (out: Vec<u32>)
    ensures
        out@ == unique(ids@),
{
    let mut out: Vec<u32> = Vec::new();
    let mut i: usize = 0;
    assert(ids@.take(0) =~= Seq::empty());
    while i < ids.len()
        invariant
            i <= ids.len(),
            out@ == unique(ids@.take(i as int)),
        decreases ids.len() - i,
    {
        proof {
            assert(ids@.take(i + 1).drop_last() =~= ids@.take(i as int));
            assert(ids@.take(i + 1).last() == ids@[i as int]);
        }
        if !lists(&out, ids[i]) {
            out.push(ids[i]);
        }
        i += 1;
    }
    assert(ids@.take(ids@.len() as int) =~= ids@);
    out
}

impl AppView {
    /// The rows that the view shows.
    pub open spec fn visible(self) -> Seq<(TodoView, u32)> {
        self.session.manager.visible(self.view_mode, self.now)
    }

    /// The id of the task in the selected row.
    pub open spec fn selected_id(self) -> Option<u32> {
        if self.selected < self.visible().len() {
            Some(self.visible()[self.selected as int].0.id)
        } else {
            None
        }
    }

    /// The state with the selection brought back into the rows shown.
    pub open spec fn selection_clamped(self) -> AppView {
        AppView { selected: clamped(self.selected, self.visible().len()), ..self }
    }

    /// The state after visual mode was entered.
    pub open spec fn visual_entered(self) -> AppView {
        AppView {
            mode: AppMode::Visual,
            visual_start: Some(self.selected),
            selected_todos: match self.selected_id() {
                Some(id) => seq![id],
                None => Seq::empty(),
            },
            ..self
        }.saying(
            "Visual mode - use j/k to select, Space to toggle, Enter to apply operation"@,
        )
    }

    /// How many of the selected tasks a bulk completion completes.
    pub open spec fn bulk_completion_count(self) -> nat {
        match self.session.current() {
            Some(store) => store.newly_completed(self.selected_todos, self.now),
            None => 0,
        }
    }

    /// How many tasks a bulk deletion takes.
    pub open spec fn bulk_deletion_count(self) -> nat {
        match self.session.current() {
            Some(store) => store.taken_each(self.selected_todos).len(),
            None => 0,
        }
    }

    /// How many of the selected tasks are there for a bulk change.
    pub open spec fn bulk_present_count(self) -> nat {
        match self.session.current() {
            Some(store) => store.present(self.selected_todos),
            None => 0,
        }
    }

    /// The state after the selected tasks were completed.
    pub open spec fn bulk_completed(self) -> AppView {
        if self.selected_todos.len() == 0 {
            self.saying("No todos selected for bulk operation"@)
        } else {
            AppView {
                session: self.session.bulk_completed(self.selected_todos, self.now),
                ..self
            }.saying(
                "Bulk completed "@ + decimal(self.bulk_completion_count()) + " todos"@,
            ).visual_closed()
        }
    }

    /// The state after the selected tasks were deleted.
    pub open spec fn bulk_deleted(self) -> AppView {
        if self.selected_todos.len() == 0 {
            self.saying("No todos selected for bulk operation"@)
        } else {
            AppView { session: self.session.bulk_deleted(self.selected_todos), ..self }.saying(
                "Bulk deleted "@ + decimal(self.bulk_deletion_count())
                    + " todos. Press 'u' to undo."@,
            ).visual_closed().selection_clamped()
        }
    }

    /// The state after the priority of the selected tasks was set.
    pub open spec fn bulk_prioritized(self, priority: u8) -> AppView {
        if self.selected_todos.len() == 0 {
            self.saying("No todos selected for bulk operation"@)
        } else {
            AppView {
                session: self.session.bulk_prioritized(self.selected_todos, priority),
                ..self
            }.saying(
                "Set priority to "@ + decimal(priority as nat) + " for "@ + decimal(
                    self.bulk_present_count(),
                ) + " todos"@,
            ).visual_closed()
        }
    }

    /// The state after the text of the input was entered as a task.
    pub open spec fn input_entered(self) -> AppView {
        let text = trimmed(self.input_buffer.text);
        if text.len() == 0 {
            self
        } else if self.mode == AppMode::Insert {
            match self.session.current() {
                Some(store) => AppView {
                    session: self.session.todo_added(text, self.now),
                    ..self
                }.saying(
                    if store.next_id < u32::MAX {
                        "Todo added! Press 'u' to undo."@
                    } else {
                        "Failed to add todo"@
                    },
                ),
                None => self.saying("No workspace selected"@),
            }
        } else if self.mode == AppMode::InsertChild {
            match self.inserting_child_for {
                Some(parent) => match self.session.current() {
                    Some(store) => AppView {
                        session: self.session.child_added(parent, text, self.now),
                        ..self
                    }.saying(
                        if store.next_id < u32::MAX && store.contains_id(parent) {
                            "Child todo added!"@
                        } else {
                            "Failed to add child todo"@
                        },
                    ),
                    None => self.saying("No workspace selected"@),
                },
                None => self,
            }
        } else {
            self
        }
    }

    /// The state after the completion of the selected task was toggled.
    pub open spec fn completion_toggled(self) -> AppView {
        match self.selected_id() {
            Some(id) => if self.session.holds(id) {
                AppView {
                    session: self.session.completion_toggled(id, self.now),
                    ..self
                }.saying(
                    if self.session.task(id).status == TodoStatus::Completed {
                        "Todo marked as pending. Press 'u' to undo."@
                    } else {
                        "Todo marked as completed. Press 'u' to undo."@
                    },
                )
            } else {
                self
            },
            None => self,
        }
    }

    /// The state after the selected task was deleted.
    pub open spec fn selected_deleted(self) -> AppView {
        match self.selected_id() {
            Some(id) => if self.session.current().is_some() {
                AppView { session: self.session.todo_deleted(id), ..self }.saying(
                    "Todo deleted!"@,
                ).selection_clamped()
            } else {
                self
            },
            None => self,
        }
    }

    /// How many tasks leave when the task `id` is deleted with all under it.
    pub open spec fn subtree_size(self, id: u32) -> nat {
        match self.session.current() {
            Some(store) => store.pruned_tasks(id).len(),
            None => 0,
        }
    }

    /// The state after the selected task was deleted with all under it.
    pub open spec fn selected_subtree_deleted(self) -> AppView {
        match self.selected_id() {
            Some(id) => if self.session.current().is_some() {
                AppView { session: self.session.subtree_deleted(id), ..self }.saying(
                    if self.subtree_size(id) <= 1 {
                        "Todo deleted!"@
                    } else {
                        "Todo and "@ + decimal((self.subtree_size(id) - 1) as nat)
                            + " children deleted!"@
                    },
                ).selection_clamped()
            } else {
                self
            },
            None => self,
        }
    }

    /// The state after the priority of the selected task went one step up
    /// (`up`) or down.
    pub open spec fn priority_stepped(self, up: bool) -> AppView {
        match self.selected_id() {
            Some(id) => if self.session.holds(id) && (if up {
                self.session.task(id).priority < MAX_PRIORITY
            } else {
                self.session.task(id).priority > 0
            }) {
                if up {
                    AppView { session: self.session.priority_raised(id), ..self }.saying(
                        "Priority increased to "@ + decimal(
                            (self.session.task(id).priority + 1) as nat,
                        ),
                    )
                } else {
                    AppView { session: self.session.priority_lowered(id), ..self }.saying(
                        "Priority decreased to "@ + decimal(
                            (self.session.task(id).priority - 1) as nat,
                        ),
                    )
                }
            } else {
                self
            },
            None => self,
        }
    }

    /// The state after the children of the selected task were shown or
    /// hidden.
    pub open spec fn expansion_toggled(self) -> AppView {
        match self.selected_id() {
            Some(id) => if self.session.holds(id) && self.session.task(id).children.len() > 0 {
                AppView { session: self.session.expansion_toggled(id), ..self }.saying(
                    if self.session.task(id).expanded {
                        "Todo collapsed"@
                    } else {
                        "Todo expanded"@
                    },
                )
            } else {
                self
            },
            None => self,
        }
    }

    /// The state after the timer of the selected task was toggled.
    pub open spec fn timer_toggled(self) -> AppView {
        match self.selected_id() {
            Some(id) => if self.session.holds(id) {
                AppView { session: self.session.timer_toggled(id, self.now), ..self }.saying(
                    if self.session.task(id).time_tracker.current_session.is_some() {
                        "Timer stopped"@
                    } else {
                        "Timer started"@
                    },
                )
            } else {
                self
            },
            None => self,
        }
    }

    /// The state after the search text was entered.
    pub open spec fn search_entered(self) -> AppView {
        let query = trimmed(self.search_buffer.text);
        AppView {
            view_mode: if query.len() == 0 {
                ViewModeView::All
            } else {
                ViewModeView::Search(query)
            },
            selected: 0,
            mode: AppMode::Normal,
            search_buffer: blank(),
            ..self
        }.saying("Searching for: "@ + self.search_buffer.text)
    }

    /// The state after the picker of tags (`tags` true) or contexts was
    /// asked for.
    pub open spec fn labels_offered(self, tags: bool) -> AppView {
        match self.session.current() {
            Some(store) => {
                let found = catalog(store.todos, tags);
                let with_list = if tags {
                    AppView { available_tags: found, ..self }
                } else {
                    AppView { available_contexts: found, ..self }
                };
                if found.len() == 0 {
                    with_list.saying(
                        if tags {
                            "No tags found"@
                        } else {
                            "No contexts found"@
                        },
                    )
                } else {
                    AppView {
                        mode: if tags {
                            AppMode::TagSelection
                        } else {
                            AppMode::ContextSelection
                        },
                        popup_selected: 0,
                        ..with_list
                    }
                }
            },
            None => self.saying("No workspace selected"@),
        }
    }

    /// How many rows the picker of the mode has.
    pub open spec fn popup_rows(self) -> nat {
        match self.mode {
            AppMode::TagSelection => self.available_tags.len(),
            AppMode::ContextSelection => self.available_contexts.len(),
            AppMode::TemplateSelection => self.available_templates.len(),
            AppMode::RecurrenceSelection => self.available_recurrence.len(),
            AppMode::WorkspaceSelection => self.available_workspaces.len() + 1,
            _ => 0,
        }
    }

    /// The text with the cursor at its end.
    pub open spec fn at_end(text: Seq<char>) -> TextBufferView {
        TextBufferView { text, cursor: text.len() }
    }

    /// The names of the workspaces, the earlier made first.
    pub open spec fn workspace_names(self) -> Seq<Seq<char>> {
        let sorted = by_age(self.session.manager.entries);
        Seq::new(sorted.len(), |i: int| sorted[i].name)
    }

    /// The ids of the templates, in alphabetical order of their names.
    pub open spec fn template_ids(self) -> Seq<Seq<char>> {
        let sorted = by_name(self.templates);
        Seq::new(sorted.len(), |i: int| sorted[i].id)
    }

    /// The name of the current workspace.
    pub open spec fn current_workspace_name(self) -> Seq<char> {
        match self.session.manager.current_place() {
            Some(at) => self.session.manager.entries[at].workspace.name,
            None => "No Workspace"@,
        }
    }

    /// The state back on the welcome screen.
    pub open spec fn welcomed(self) -> AppView {
        AppView {
            mode: AppMode::Welcome,
            welcome_selected: 0,
            selected: 0,
            input_buffer: blank(),
            ..self
        }.saying("Returned to welcome screen - Choose an option to continue"@)
    }

    /// The state after the picker of workspaces was asked for.
    pub open spec fn workspaces_offered(self) -> AppView {
        let names = self.workspace_names();
        if names.len() == 0 {
            AppView { available_workspaces: names, ..self }.saying("No workspaces available"@)
        } else {
            AppView {
                available_workspaces: names,
                mode: AppMode::WorkspaceSelection,
                popup_selected: 0,
                ..self
            }
        }
    }

    /// The state after the picker of templates was asked for.
    pub open spec fn templates_offered(self) -> AppView {
        let ids = self.template_ids();
        if ids.len() == 0 {
            AppView { available_templates: ids, ..self }.saying("No templates available"@)
        } else {
            AppView {
                available_templates: ids,
                mode: AppMode::TemplateSelection,
                popup_selected: 0,
                ..self
            }
        }
    }

    /// The state after the row of the picker of workspaces was taken: the
    /// first row leads back to the welcome screen, the others to the
    /// workspace of their name.
    pub open spec fn workspace_switched(self) -> AppView {
        let chosen = if self.popup_selected == 0 {
            self.welcomed()
        } else if self.popup_selected - 1 < self.available_workspaces.len() {
            let name = self.available_workspaces[self.popup_selected - 1];
            if holds_name(self.session.manager.entries, name) {
                AppView {
                    session: SessionView {
                        manager: crate::workspace::WorkspaceManagerView {
                            current_workspace: Some(
                                self.session.manager.entries[place_named(
                                    self.session.manager.entries,
                                    name,
                                )].workspace.id,
                            ),
                            ..self.session.manager
                        },
                        ..self.session
                    },
                    selected: 0,
                    view_mode: ViewModeView::All,
                    mode: AppMode::Normal,
                    ..self
                }.saying("Switched to workspace: "@ + name)
            } else {
                self.saying("Failed to switch workspace"@)
            }
        } else {
            self
        };
        AppView { available_workspaces: Seq::empty(), ..chosen }
    }

    /// The state after the template in the selected row of the picker was
    /// stamped onto the selected task.
    pub open spec fn template_applied(self) -> AppView {
        let stamped = match self.selected_id() {
            Some(id) => if self.popup_selected < self.available_templates.len() && holds_template(
                self.templates,
                self.available_templates[self.popup_selected as int],
            ) {
                let template = self.templates[template_place(
                    self.templates,
                    self.available_templates[self.popup_selected as int],
                )];
                if self.session.holds(id) {
                    AppView {
                        session: self.session.task_changed(
                            id,
                            template.stamped(self.session.task(id)),
                        ),
                        ..self
                    }.saying("Applied template: "@ + template.name)
                } else {
                    self
                }
            } else {
                self
            },
            None => self,
        };
        AppView { mode: AppMode::Normal, available_templates: Seq::empty(), ..stamped }
    }

    /// The state after the rule in the selected row of the picker was set
    /// on the selected task.
    pub open spec fn recurrence_applied(self) -> AppView {
        let set = match self.selected_id() {
            Some(id) => if self.popup_selected < self.available_recurrence.len()
                && self.session.holds(id) {
                let pattern = self.available_recurrence[self.popup_selected as int];
                AppView {
                    session: self.session.task_changed(
                        id,
                        TodoView { recurrence: pattern, ..self.session.task(id) },
                    ),
                    ..self
                }.saying("Recurrence set to: "@ + recurrence_name(pattern))
            } else {
                self
            },
            None => self,
        };
        AppView { mode: AppMode::Normal, ..set }
    }

    /// The state after the selected row of a picker was taken.
    pub open spec fn popup_taken(self) -> AppView {
        match self.mode {
            AppMode::TagSelection => AppView {
                mode: AppMode::Normal,
                ..if self.popup_selected < self.available_tags.len() {
                    let tag = self.available_tags[self.popup_selected as int];
                    AppView {
                        view_mode: ViewModeView::FilterByTag(tag),
                        selected: 0,
                        ..self
                    }.saying("Filtering by tag: #"@ + tag)
                } else {
                    self
                }
            },
            AppMode::ContextSelection => AppView {
                mode: AppMode::Normal,
                ..if self.popup_selected < self.available_contexts.len() {
                    let context = self.available_contexts[self.popup_selected as int];
                    AppView {
                        view_mode: ViewModeView::FilterByContext(context),
                        selected: 0,
                        ..self
                    }.saying("Filtering by context: @"@ + context)
                } else {
                    self
                }
            },
            AppMode::TemplateSelection => self.template_applied(),
            AppMode::RecurrenceSelection => self.recurrence_applied(),
            AppMode::WorkspaceSelection => self.workspace_switched(),
            _ => AppView { mode: AppMode::Normal, ..self },
        }
    }

    /// The state after a picker was put away.
    pub open spec fn popup_cancelled(self) -> AppView {
        AppView {
            popup_selected: 0,
            available_tags: Seq::empty(),
            available_contexts: Seq::empty(),
            available_templates: Seq::empty(),
            available_workspaces: Seq::empty(),
            ..self
        }.notes_closed()
    }

    /// The state after the notes of the selected task were taken up for
    /// editing.
    pub open spec fn notes_taken_up(self) -> AppView {
        match self.selected_id() {
            Some(id) => AppView {
                editing_notes_for: Some(id),
                mode: AppMode::EditNotes,
                notes_buffer: if self.session.holds(id) {
                    match self.session.task(id).notes {
                        Some(notes) => AppView::at_end(notes),
                        None => blank(),
                    }
                } else {
                    blank()
                },
                ..self
            },
            None => self,
        }
    }

    /// The state after the notes under edit were saved.
    pub open spec fn notes_saved(self) -> AppView {
        match self.editing_notes_for {
            Some(id) => {
                let text = trimmed(self.notes_buffer.text);
                let notes = if text.len() == 0 {
                    None
                } else {
                    Some(text)
                };
                if self.session.holds(id) {
                    AppView {
                        session: self.session.task_changed(
                            id,
                            TodoView { notes, ..self.session.task(id) },
                        ),
                        ..self
                    }.saying("Notes saved"@).notes_closed()
                } else {
                    self.notes_closed()
                }
            },
            None => self.notes_closed(),
        }
    }

    /// The state after the notes of the selected task were asked for, to
    /// be looked at.
    pub open spec fn notes_shown(self) -> AppView {
        match self.selected_id() {
            Some(id) => if self.session.holds(id) {
                match self.session.task(id).notes {
                    Some(notes) => if trimmed(notes).len() > 0 {
                        AppView {
                            editing_notes_for: Some(id),
                            mode: AppMode::ViewNotes,
                            notes_buffer: AppView::at_end(notes),
                            ..self
                        }
                    } else {
                        self.saying("This todo has no notes"@)
                    },
                    None => self.saying("This todo has no notes"@),
                }
            } else {
                self
            },
            None => self,
        }
    }

    /// The state after the text of the selected task was taken up for
    /// editing.
    pub open spec fn edit_taken_up(self) -> AppView {
        match self.selected_id() {
            Some(id) => AppView {
                editing_todo_id: Some(id),
                mode: AppMode::EditTodo,
                edit_buffer: if self.session.holds(id) {
                    AppView::at_end(self.session.task(id).raw_description)
                } else {
                    blank()
                },
                ..self
            },
            None => self,
        }
    }

    /// The state after the text under edit was saved.
    pub open spec fn edit_saved(self) -> AppView {
        match self.editing_todo_id {
            Some(id) => {
                let text = trimmed(self.edit_buffer.text);
                if text.len() == 0 {
                    self.saying("Cannot save empty todo description"@)
                } else if self.session.current().is_none() {
                    self.saying("No workspace selected"@)
                } else {
                    AppView { session: self.session.todo_edited(id, text, self.now), ..self }.saying(
                        if self.session.holds(id) {
                            "Todo updated"@
                        } else {
                            "Failed to find todo for editing"@
                        },
                    )
                }
            },
            None => self,
        }.edit_closed()
    }

    /// How many follow-ups the recurring tasks of the current store get.
    pub open spec fn follow_up_count(self) -> nat {
        match self.session.current() {
            Some(store) => if store.next_id + store.todos.len() <= u32::MAX {
                crate::recurrence::follow_ups(store.todos, store.next_id, self.now).len()
            } else {
                0
            },
            None => 0,
        }
    }

    /// The state in which the front end starts at `now`: one workspace,
    /// the built-in templates, and the welcome screen.
    pub open spec fn fresh(now: Timestamp) -> AppView {
        let session = SessionView::empty().workspace_created(
            "Personal"@,
            Some("Your personal todos"@),
            now,
        );
        let start = AppView {
            session,
            now,
            mode: AppMode::Welcome,
            view_mode: ViewModeView::All,
            selected: 0,
            input_buffer: blank(),
            search_buffer: blank(),
            should_quit: false,
            show_help: false,
            message: Some("Select a workspace to get started"@),
            inserting_child_for: None,
            popup_selected: 0,
            available_tags: Seq::empty(),
            available_contexts: Seq::empty(),
            templates: builtin_templates(now),
            notes_buffer: blank(),
            editing_notes_for: None,
            edit_buffer: blank(),
            editing_todo_id: None,
            available_templates: Seq::empty(),
            available_recurrence: seq![
                RecurrencePattern::Never,
                RecurrencePattern::Daily,
                RecurrencePattern::Weekly,
                RecurrencePattern::Monthly,
                RecurrencePattern::Yearly,
            ],
            available_workspaces: Seq::empty(),
            selected_todos: Seq::empty(),
            visual_start: None,
            bulk_operation: None,
            welcome_selected: 0,
            is_first_launch: true,
        };
        let names = start.workspace_names();
        AppView {
            available_workspaces: names,
            is_first_launch: names.len() <= 1,
            mode: if names.len() <= 1 {
                AppMode::Welcome
            } else {
                AppMode::WorkspaceSelection
            },
            ..start
        }
    }

    /// The state after the first steps were asked for: the workspace
    /// `Personal` is current where there is one, and the first task can be
    /// entered.
    pub open spec fn started(self) -> AppView {
        AppView {
            session: self.session.switched_by_name("Personal"@),
            mode: AppMode::Insert,
            input_buffer: blank(),
            ..self
        }.saying("Welcome! Type your first todo and press Enter"@)
    }

    /// The state with the help shown.
    pub open spec fn basics_shown(self) -> AppView {
        AppView { show_help: true, ..self }.saying("Press ? again to close help"@)
    }

    /// The state after the demonstration was asked for: the tasks of the
    /// current store give way to the tasks of the demonstration.
    pub open spec fn demo_shown(self) -> AppView {
        AppView {
            session: self.session.todos_replaced(demo_texts(), self.now).switched_by_name(
                "Personal"@,
            ),
            mode: AppMode::Normal,
            ..self
        }.saying("Welcome! Try navigating with j/k, press Space to complete todos"@)
    }

    /// The state in which the name of a new workspace is asked for.
    pub open spec fn workspace_asked(self) -> AppView {
        AppView { mode: AppMode::CreateWorkspace, input_buffer: blank(), ..self }.saying(
            "Enter workspace name:"@,
        )
    }

    /// The state after the selected row of the welcome screen was taken.
    pub open spec fn welcome_taken(self) -> AppView {
        if self.is_first_launch {
            if self.welcome_selected == 0 {
                self.started()
            } else if self.welcome_selected == 1 {
                self.workspaces_offered()
            } else if self.welcome_selected == 2 {
                self.basics_shown()
            } else if self.welcome_selected == 3 {
                self.demo_shown()
            } else if self.welcome_selected == 4 {
                AppView { should_quit: true, ..self }
            } else {
                self
            }
        } else {
            if self.welcome_selected == 0 {
                self.workspaces_offered()
            } else if self.welcome_selected == 1 {
                self.basics_shown()
            } else if self.welcome_selected == 2 {
                self.demo_shown()
            } else if self.welcome_selected == 3 {
                self.workspace_asked()
            } else if self.welcome_selected == 4 {
                AppView { should_quit: true, ..self }
            } else {
                self
            }
        }
    }

    /// The state after a workspace of the given name was asked for.
    pub open spec fn workspace_made(self, name: Seq<char>, description: Option<Seq<char>>) -> AppView {
        AppView {
            session: self.session.workspace_created(name, description, self.now),
            ..self
        }.saying(
            if self.session.manager.next_workspace_id < u32::MAX {
                "Created workspace: "@ + name + " (ID: "@ + workspace_id(
                    self.session.manager.next_workspace_id,
                ) + ")"@
            } else {
                "Failed to create workspace"@
            },
        )
    }

    /// Whether the workspace whose id is `id` can be deleted.
    pub open spec fn deletable(self, id: Seq<char>) -> bool {
        self.session.manager.entries.len() > 1 && holds_id(self.session.manager.entries, id)
    }

    /// The state after the deletion of the current workspace was asked
    /// for. The workspace is looked up by its name.
    pub open spec fn current_workspace_deleted(self) -> AppView {
        let name = self.current_workspace_name();
        if self.deletable(name) {
            AppView {
                session: SessionView {
                    manager: self.session.manager.deleted(name),
                    ..self.session
                },
                selected: 0,
                view_mode: ViewModeView::All,
                ..self
            }.saying("Deleted workspace: "@ + name)
        } else {
            self.saying("Cannot delete the last remaining workspace"@)
        }
    }

    /// The state after a new name for the current workspace was asked for.
    /// The workspace is looked up by its name.
    pub open spec fn current_workspace_renamed(self, new_name: Seq<char>) -> AppView {
        let name = self.current_workspace_name();
        AppView {
            session: SessionView {
                manager: self.session.manager.renamed(name, new_name),
                ..self.session
            },
            ..self
        }.saying(
            if holds_id(self.session.manager.entries, name) {
                "Renamed workspace to: "@ + new_name
            } else {
                "Failed to rename workspace (name may already exist)"@
            },
        )
    }

    /// The state after the name in the input was entered for a new
    /// workspace.
    pub open spec fn workspace_entered(self) -> AppView {
        let name = trimmed(self.input_buffer.text);
        if name.len() == 0 {
            AppView { input_buffer: blank(), ..self.saying("Workspace name cannot be empty"@) }
        } else if holds_name(self.session.manager.entries, name) {
            self.saying("Workspace with this name already exists"@)
        } else {
            let made = AppView {
                session: self.session.workspace_created(
                    name,
                    Some("Workspace created by user"@),
                    self.now,
                ),
                ..self
            };
            let listed = AppView {
                available_workspaces: made.workspace_names(),
                input_buffer: blank(),
                ..made
            };
            if holds_name(made.session.manager.entries, name) {
                AppView {
                    session: made.session.switched_by_name(name),
                    mode: AppMode::Normal,
                    selected: 0,
                    view_mode: ViewModeView::All,
                    ..listed
                }.saying("Created and switched to workspace: "@ + name)
            } else {
                AppView { mode: AppMode::WorkspaceSelection, ..listed }.saying(
                    "Failed to create workspace"@,
                )
            }
        }
    }

    /// The state after the deletion of the workspace in the selected row
    /// of the picker was asked for.
    pub open spec fn selected_workspace_deleted(self) -> AppView {
        if self.popup_selected == 0 {
            self.saying("Cannot delete the Home option"@)
        } else if self.popup_selected - 1 < self.available_workspaces.len() {
            let name = self.available_workspaces[self.popup_selected - 1];
            if holds_name(self.session.manager.entries, name) {
                let id = self.session.manager.entries[place_named(
                    self.session.manager.entries,
                    name,
                )].workspace.id;
                if self.deletable(id) {
                    let gone = AppView {
                        session: SessionView {
                            manager: self.session.manager.deleted(id),
                            ..self.session
                        },
                        ..self
                    };
                    let names = gone.workspace_names();
                    AppView {
                        available_workspaces: names,
                        popup_selected: clamped(self.popup_selected, names.len()),
                        ..gone
                    }.saying("Deleted workspace: "@ + name)
                } else {
                    self.saying("Cannot delete the last remaining workspace"@)
                }
            } else {
                self
            }
        } else {
            self
        }
    }

    /// The state after the last command was undone.
    pub open spec fn undone(self) -> AppView {
        AppView { session: self.session.undone(self.now), ..self }.saying(
            match self.session.history.next_undo() {
                Some(command) => if holds_id(
                    self.session.manager.entries,
                    command.workspace_id(),
                ) {
                    undo_message(command)
                } else {
                    "The workspace of the last action is gone"@
                },
                None => "Nothing to undo"@,
            },
        )
    }

    /// The state after the last undone command was redone.
    pub open spec fn redone(self) -> AppView {
        AppView { session: self.session.redone(self.now), ..self }.saying(
            match self.session.history.next_redo() {
                Some(command) => if holds_id(
                    self.session.manager.entries,
                    command.workspace_id(),
                ) && command.can_be_redone() {
                    redo_message(command)
                } else {
                    "This action cannot be redone"@
                },
                None => "Nothing to redo"@,
            },
        )
    }

    /// The state that [`App::move_selection_down`] leaves.
    pub open spec fn move_selection_down(self) -> AppView {
        AppView {
            selected: row_below(self.selected, self.visible().len()),
            ..self
        }
    }

    /// The state that [`App::go_to_bottom`] leaves.
    pub open spec fn go_to_bottom(self) -> AppView {
        AppView {
            selected: if self.visible().len() > 0 {
                (self.visible().len() - 1) as usize
            } else {
                0
            },
            ..self
        }
    }

    /// The state that [`App::toggle_selection_in_visual`] leaves.
    pub open spec fn toggle_selection_in_visual(self) -> AppView {
        AppView {
            selected_todos: match self.selected_id() {
                Some(id) => switched(self.selected_todos, id),
                None => self.selected_todos,
            },
            ..self
        }
    }

    /// The state that [`App::select_range_in_visual`] leaves.
    pub open spec fn select_range_in_visual(self) -> AppView {
        AppView {
            selected_todos: match self.visual_start {
                Some(start) => unique(
                    ids_between(
                        self.visible(),
                        start as int,
                        self.selected as int,
                    ),
                ),
                None => self.selected_todos,
            },
            ..self
        }
    }

    /// The state that [`App::cycle_view_mode`] leaves.
    pub open spec fn cycle_view_mode(self) -> AppView {
        (AppView {
            view_mode: self.view_mode.cycled(),
            selected: 0,
            ..self
        }).saying("Viewing "@ + self.view_mode.cycled().name())
    }

    /// The state that [`App::cycle_due_date_filter`] leaves.
    pub open spec fn cycle_due_date_filter(self) -> AppView {
        (AppView {
            view_mode: self.view_mode.next_due_date_filter(),
            selected: 0,
            ..self
        }).saying("Filtering by: "@ + self.view_mode.next_due_date_filter().name())
    }

    /// The state that [`App::add_child_todo`] leaves.
    pub open spec fn add_child_todo(self) -> AppView {
        match self.selected_id() {
            Some(parent) => (AppView {
                mode: AppMode::InsertChild,
                input_buffer: blank(),
                inserting_child_for: Some(parent),
                ..self
            }),
            None => self,
        }
    }

    /// The state that [`App::move_popup_selection_down`] leaves.
    pub open spec fn move_popup_selection_down(self) -> AppView {
        AppView {
            popup_selected: row_below(self.popup_selected, self.popup_rows()),
            ..self
        }
    }

    /// The state that [`App::update_recurring_todos`] leaves.
    pub open spec fn update_recurring_todos(self) -> AppView {
        if self.follow_up_count() > 0 {
            (AppView {
                session: self.session.recurring_processed(self.now),
                ..self
            }).saying(
                "Generated "@ + decimal(self.follow_up_count()) + " recurring todos"@,
            )
        } else {
            (AppView {
                session: self.session.recurring_processed(self.now),
                ..self
            })
        }
    }

    /// The state that [`App::move_welcome_selection_down`] leaves.
    pub open spec fn move_welcome_selection_down(self) -> AppView {
        AppView {
            welcome_selected: row_below(self.welcome_selected, WELCOME_ROWS as nat),
            ..self
        }
    }

    /// The state that [`App::create_demo_todos`] leaves.
    pub open spec fn create_demo_todos(self) -> AppView {
        AppView {
            session: self.session.todos_replaced(demo_texts(), self.now),
            ..self
        }
    }

    /// The state that [`App::cancel_workspace_creation`] leaves.
    pub open spec fn cancel_workspace_creation(self) -> AppView {
        (AppView {
            mode: AppMode::WorkspaceSelection,
            input_buffer: blank(),
            ..self
        }).saying("Workspace creation cancelled"@)
    }

    /// The state that [`App::tick`] leaves.
    pub open spec fn tick(self, now: Timestamp) -> AppView {
        AppView { now, ..self }
    }

    /// The state that [`App::quit`] leaves.
    pub open spec fn quit(self) -> AppView {
        AppView { should_quit: true, ..self }
    }

    /// The state that [`App::toggle_help`] leaves.
    pub open spec fn toggle_help(self) -> AppView {
        AppView { show_help: !self.show_help, ..self }
    }

    /// The state that [`App::clear_message`] leaves.
    pub open spec fn clear_message(self) -> AppView {
        AppView { message: None, ..self }
    }

    /// The state that [`App::move_selection_up`] leaves.
    pub open spec fn move_selection_up(self) -> AppView {
        AppView {
            selected: if self.selected > 0 {
                (self.selected - 1) as usize
            } else {
                0
            },
            ..self
        }
    }

    /// The state that [`App::go_to_top`] leaves.
    pub open spec fn go_to_top(self) -> AppView {
        AppView { selected: 0, ..self }
    }

    /// The state that [`App::clear_input_buffer`] leaves.
    pub open spec fn clear_input_buffer(self) -> AppView {
        AppView { input_buffer: blank(), ..self }
    }

    /// The state that [`App::enter_insert_mode`] leaves.
    pub open spec fn enter_insert_mode(self) -> AppView {
        AppView {
            mode: AppMode::Insert,
            input_buffer: blank(),
            ..self
        }
    }

    /// The state that [`App::add_char_to_input`] leaves.
    pub open spec fn add_char_to_input(self, c: char) -> AppView {
        AppView {
            input_buffer: self.input_buffer.typed(c),
            ..self
        }
    }

    /// The state that [`App::remove_char_from_input`] leaves.
    pub open spec fn remove_char_from_input(self) -> AppView {
        AppView {
            input_buffer: self.input_buffer.erased(),
            ..self
        }
    }

    /// The state that [`App::move_input_cursor_left`] leaves.
    pub open spec fn move_input_cursor_left(self) -> AppView {
        AppView {
            input_buffer: self.input_buffer.moved_left(),
            ..self
        }
    }

    /// The state that [`App::move_input_cursor_right`] leaves.
    pub open spec fn move_input_cursor_right(self) -> AppView {
        AppView {
            input_buffer: self.input_buffer.moved_right(),
            ..self
        }
    }

    /// The state that [`App::add_char_to_search`] leaves.
    pub open spec fn add_char_to_search(self, c: char) -> AppView {
        AppView {
            search_buffer: self.search_buffer.typed(c),
            ..self
        }
    }

    /// The state that [`App::remove_char_from_search`] leaves.
    pub open spec fn remove_char_from_search(self) -> AppView {
        AppView {
            search_buffer: self.search_buffer.erased(),
            ..self
        }
    }

    /// The state that [`App::move_search_cursor_left`] leaves.
    pub open spec fn move_search_cursor_left(self) -> AppView {
        AppView {
            search_buffer: self.search_buffer.moved_left(),
            ..self
        }
    }

    /// The state that [`App::move_search_cursor_right`] leaves.
    pub open spec fn move_search_cursor_right(self) -> AppView {
        AppView {
            search_buffer: self.search_buffer.moved_right(),
            ..self
        }
    }

    /// The state that [`App::add_char_to_notes`] leaves.
    pub open spec fn add_char_to_notes(self, c: char) -> AppView {
        AppView {
            notes_buffer: self.notes_buffer.typed(c),
            ..self
        }
    }

    /// The state that [`App::remove_char_from_notes`] leaves.
    pub open spec fn remove_char_from_notes(self) -> AppView {
        AppView {
            notes_buffer: self.notes_buffer.erased(),
            ..self
        }
    }

    /// The state that [`App::move_notes_cursor_left`] leaves.
    pub open spec fn move_notes_cursor_left(self) -> AppView {
        AppView {
            notes_buffer: self.notes_buffer.moved_left(),
            ..self
        }
    }

    /// The state that [`App::move_notes_cursor_right`] leaves.
    pub open spec fn move_notes_cursor_right(self) -> AppView {
        AppView {
            notes_buffer: self.notes_buffer.moved_right(),
            ..self
        }
    }

    /// The state that [`App::add_char_to_edit`] leaves.
    pub open spec fn add_char_to_edit(self, c: char) -> AppView {
        AppView {
            edit_buffer: self.edit_buffer.typed(c),
            ..self
        }
    }

    /// The state that [`App::remove_char_from_edit`] leaves.
    pub open spec fn remove_char_from_edit(self) -> AppView {
        AppView {
            edit_buffer: self.edit_buffer.erased(),
            ..self
        }
    }

    /// The state that [`App::move_edit_cursor_left`] leaves.
    pub open spec fn move_edit_cursor_left(self) -> AppView {
        AppView {
            edit_buffer: self.edit_buffer.moved_left(),
            ..self
        }
    }

    /// The state that [`App::move_edit_cursor_right`] leaves.
    pub open spec fn move_edit_cursor_right(self) -> AppView {
        AppView {
            edit_buffer: self.edit_buffer.moved_right(),
            ..self
        }
    }

    /// The state that [`App::enter_search_mode`] leaves.
    pub open spec fn enter_search_mode(self) -> AppView {
        AppView {
            mode: AppMode::Search,
            search_buffer: blank(),
            ..self
        }
    }

    /// The state that [`App::clear_filters`] leaves.
    pub open spec fn clear_filters(self) -> AppView {
        (AppView {
            view_mode: ViewModeView::All,
            selected: 0,
            ..self
        }).saying("Filters cleared"@)
    }

    /// The state that [`App::move_popup_selection_up`] leaves.
    pub open spec fn move_popup_selection_up(self) -> AppView {
        AppView {
            popup_selected: if self.popup_selected > 0 {
                (self.popup_selected - 1) as usize
            } else {
                0
            },
            ..self
        }
    }

    /// The state that [`App::move_welcome_selection_up`] leaves.
    pub open spec fn move_welcome_selection_up(self) -> AppView {
        AppView {
            welcome_selected: if self.welcome_selected > 0 {
                (self.welcome_selected - 1) as usize
            } else {
                0
            },
            ..self
        }
    }

    /// The state that [`App::enter_recurrence_selection`] leaves.
    pub open spec fn enter_recurrence_selection(self) -> AppView {
        AppView {
            mode: AppMode::RecurrenceSelection,
            popup_selected: 0,
            ..self
        }
    }

    /// The state with a message.
    pub open spec fn saying(self, text: Seq<char>) -> AppView {
        AppView { message: Some(text), ..self }
    }

    /// The state back in normal mode with nothing in the input.
    pub open spec fn in_normal_mode(self) -> AppView {
        AppView {
            mode: AppMode::Normal,
            input_buffer: blank(),
            inserting_child_for: None,
            ..self
        }
    }

    /// The state after the notes were put away.
    pub open spec fn notes_closed(self) -> AppView {
        AppView {
            mode: AppMode::Normal,
            notes_buffer: blank(),
            editing_notes_for: None,
            ..self
        }
    }

    /// The state after the edit was put away.
    pub open spec fn edit_closed(self) -> AppView {
        AppView { mode: AppMode::Normal, edit_buffer: blank(), editing_todo_id: None, ..self }
    }

    /// The state after visual mode was left.
    pub open spec fn visual_closed(self) -> AppView {
        AppView {
            mode: AppMode::Normal,
            visual_start: None,
            selected_todos: Seq::empty(),
            bulk_operation: None,
            ..self
        }
    }
}

impl App {
    /// The workspace manager of the session.
    pub fn workspace_manager(&self) -> (manager: &crate::workspace::WorkspaceManager)
        ensures
            manager@ == self@.session.manager,
    {
        self.session.workspace_manager()
    }

    /// The store of the current workspace.
    pub fn get_current_todo_list(&self) -> (found: Option<&TodoList>)
        ensures
            match found {
                Some(list) => self@.session.current() == Some(list@),
                None => self@.session.current().is_none(),
            },
    {
        self.session.workspace_manager().get_current_todo_list()
    }

    /// The rows that the view shows.
    pub fn get_visible_todos(&self) -> (rows: Vec<(&Todo, u32)>)
        ensures
            row_views(rows@) == self@.visible(),
    {
        self.session.workspace_manager().get_visible_todos_at(&self.view_mode, self.now)
    }

    /// How many rows the view shows.
    pub fn visible_count(&self) -> (count: usize)
        ensures
            count == self@.visible().len(),
    {
        let rows = self.get_visible_todos();
        assert(row_views(rows@).len() == rows@.len());
        rows.len()
    }

    /// The id of the task in the selected row.
    pub fn get_selected_todo_id(&self) -> (id: Option<u32>)
        ensures
            id == self@.selected_id(),
    {
        self.session.workspace_manager().get_selected_todo_id_at(
            &self.view_mode,
            self.selected,
            self.now,
        )
    }

    /// Brings the selection back into the rows shown.
    pub fn clamp_selection(&mut self)
        ensures
            final(self)@ == old(self)@.selection_clamped(),
    {
        let len = self.visible_count();
        if self.selected >= len && len > 0 {
            self.selected = len - 1;
        }
    }

    /// Moves the selection one row down, if it can go.
    pub fn move_selection_down(&mut self)
        ensures
            final(self)@ == old(self)@.move_selection_down(),
    {
        let len = self.visible_count();
        if len > 0 && self.selected < len - 1 {
            self.selected += 1;
        }
    }

    /// Moves the selection to the last row.
    pub fn go_to_bottom(&mut self)
        ensures
            final(self)@ == old(self)@.go_to_bottom(),
    {
        let len = self.visible_count();
        self.selected = if len > 0 {
            len - 1
        } else {
            0
        };
    }

    /// Goes to visual mode; the selection for bulk operations is the
    /// selected task.
    pub fn enter_visual_mode(&mut self)
        ensures
            final(self)@ == old(self)@.visual_entered(),
    {
        self.mode = AppMode::Visual;
        self.visual_start = Some(self.selected);
        self.selected_todos.clear();
        match self.get_selected_todo_id() {
            Some(id) => {
                self.selected_todos.push(id);
                assert(self.selected_todos@ =~= seq![id]);
            },
            None => {},
        }
        self.say("Visual mode - use j/k to select, Space to toggle, Enter to apply operation");
    }

    /// Takes the selected task into the selection for bulk operations, or
    /// out of it if it is in.
    pub fn toggle_selection_in_visual(&mut self)
        ensures
            final(self)@ == old(self)@.toggle_selection_in_visual(),
    {
        match self.get_selected_todo_id() {
            Some(id) => {
                if lists(&self.selected_todos, id) {
                    strike(&mut self.selected_todos, id);
                } else {
                    self.selected_todos.push(id);
                }
            },
            None => {},
        }
    }

    /// Makes the selection for bulk operations the tasks in the rows from
    /// where visual mode began to the selected row.
    pub fn select_range_in_visual(&mut self)
        ensures
            final(self)@ == old(self)@.select_range_in_visual(),
    {
        match self.visual_start {
            Some(start) => {
                let ids = self.session.workspace_manager().get_todo_ids_in_range_at(
                    &self.view_mode,
                    start,
                    self.selected,
                    self.now,
                );
                self.selected_todos = make_unique(&ids);
            },
            None => {},
        }
    }

    /// Completes the selected tasks and leaves visual mode.
    pub fn bulk_complete_todos(&mut self)
        ensures
            final(self)@ == old(self)@.bulk_completed(),
    {
        if self.selected_todos.len() == 0 {
            self.say("No todos selected for bulk operation");
            return ;
        }
        let count = self.session.bulk_complete_todos_at(&self.selected_todos, self.now);
        self.set_message(with_count("Bulk completed ", count, " todos"));
        self.exit_visual_mode();
    }

    /// Deletes the selected tasks, records the deletion as one command, and
    /// leaves visual mode.
    pub fn bulk_delete_todos(&mut self)
        ensures
            final(self)@ == old(self)@.bulk_deleted(),
    {
        if self.selected_todos.len() == 0 {
            self.say("No todos selected for bulk operation");
            return ;
        }
        let count = self.session.bulk_delete_todos(&self.selected_todos);
        self.set_message(with_count("Bulk deleted ", count, " todos. Press 'u' to undo."));
        self.exit_visual_mode();
        self.clamp_selection();
    }

    /// Sets the priority of the selected tasks and leaves visual mode.
    pub fn bulk_set_priority(&mut self, priority: u8)
        ensures
            final(self)@ == old(self)@.bulk_prioritized(priority),
    {
        if self.selected_todos.len() == 0 {
            self.say("No todos selected for bulk operation");
            return ;
        }
        let count = self.session.bulk_set_priority(&self.selected_todos, priority);
        let mut text = with_count("Set priority to ", priority as usize, " for ");
        text.append(decimal_string(count as u64).as_str());
        text.append(" todos");
        self.set_message(text);
        self.exit_visual_mode();
    }

    /// Enters the text of the input as a new task: a root in insert mode,
    /// a child of the task chosen before in the mode for children. Text
    /// that is only white space is not entered. Then goes back to normal
    /// mode.
    pub fn submit_input(&mut self)
        ensures
            final(self)@ == old(self)@.input_entered().in_normal_mode(),
    {
        let text = trim(self.input_buffer.text().as_str());
        if !text.as_str().is_empty() {
            match self.mode {
                AppMode::Insert => {
                    if self.get_current_todo_list().is_none() {
                        self.say("No workspace selected");
                    } else if self.session.add_todo_at(text, self.now).is_some() {
                        self.say("Todo added! Press 'u' to undo.");
                    } else {
                        self.say("Failed to add todo");
                    }
                },
                AppMode::InsertChild => {
                    match self.inserting_child_for {
                        Some(parent) => {
                            if self.get_current_todo_list().is_none() {
                                self.say("No workspace selected");
                            } else if self.session.add_child_todo_at(
                                parent,
                                text,
                                self.now,
                            ).is_some() {
                                self.say("Child todo added!");
                            } else {
                                self.say("Failed to add child todo");
                            }
                        },
                        None => {},
                    }
                },
                _ => {},
            }
        }
        self.enter_normal_mode();
    }

    /// Toggles the completion of the selected task and records it.
    pub fn toggle_todo_complete(&mut self)
        ensures
            final(self)@ == old(self)@.completion_toggled(),
    {
        match self.get_selected_todo_id() {
            Some(id) => {
                match self.session.toggle_complete_at(id, self.now) {
                    Some(status) => {
                        match status {
                            TodoStatus::Completed => self.say(
                                "Todo marked as completed. Press 'u' to undo.",
                            ),
                            _ => self.say("Todo marked as pending. Press 'u' to undo."),
                        }
                    },
                    None => {},
                }
            },
            None => {},
        }
    }

    /// Deletes the selected task and records it. Its children stay.
    pub fn delete_selected_todo(&mut self)
        ensures
            final(self)@ == old(self)@.selected_deleted(),
    {
        match self.get_selected_todo_id() {
            Some(id) => {
                if self.get_current_todo_list().is_some() {
                    self.session.delete_todo(id);
                    self.say("Todo deleted!");
                    self.clamp_selection();
                }
            },
            None => {},
        }
    }

    /// Deletes the selected task with all that hangs under it, and records
    /// it.
    pub fn delete_selected_with_children(&mut self)
        ensures
            final(self)@ == old(self)@.selected_subtree_deleted(),
    {
        match self.get_selected_todo_id() {
            Some(id) => {
                if self.get_current_todo_list().is_some() {
                    let count = self.session.delete_with_children(id);
                    if count <= 1 {
                        self.say("Todo deleted!");
                    } else {
                        self.set_message(with_count("Todo and ", count - 1, " children deleted!"));
                    }
                    self.clamp_selection();
                }
            },
            None => {},
        }
    }

    /// What the view is called.
    pub fn get_view_name(&self) -> (name: &'static str)
        ensures
            name@ == self@.view_mode.name(),
    {
        self.view_mode.get_view_name()
    }

    /// Goes on to the next view: all, pending, completed and all again.
    pub fn cycle_view_mode(&mut self)
        ensures
            final(self)@ == old(self)@.cycle_view_mode(),
    {
        self.view_mode = self.view_mode.cycle_view_mode();
        self.selected = 0;
        let name = self.get_view_name();
        self.set_message(join("Viewing ", name, ""));
        proof {
            assert("Viewing "@ + name@ + ""@ =~= "Viewing "@ + name@) by {
                reveal_strlit("");
            }
        }
    }

    /// Goes on to the next due-date filter.
    pub fn cycle_due_date_filter(&mut self)
        ensures
            final(self)@ == old(self)@.cycle_due_date_filter(),
    {
        self.view_mode = self.view_mode.cycle_due_date_filter();
        self.selected = 0;
        let name = self.get_view_name();
        self.set_message(join("Filtering by: ", name, ""));
        proof {
            assert("Filtering by: "@ + name@ + ""@ =~= "Filtering by: "@ + name@) by {
                reveal_strlit("");
            }
        }
    }

    /// Raises the priority of the selected task by one and records it.
    pub fn increase_priority(&mut self)
        ensures
            final(self)@ == old(self)@.priority_stepped(true),
    {
        match self.get_selected_todo_id() {
            Some(id) => {
                match self.session.increase_priority(id) {
                    Some(priority) => {
                        self.set_message(with_count("Priority increased to ", priority as usize, ""));
                        proof {
                            reveal_strlit("");
                            assert("Priority increased to "@ + decimal(priority as nat) + ""@
                                =~= "Priority increased to "@ + decimal(priority as nat));
                        }
                    },
                    None => {},
                }
            },
            None => {},
        }
    }

    /// Lowers the priority of the selected task by one and records it.
    pub fn decrease_priority(&mut self)
        ensures
            final(self)@ == old(self)@.priority_stepped(false),
    {
        match self.get_selected_todo_id() {
            Some(id) => {
                match self.session.decrease_priority(id) {
                    Some(priority) => {
                        self.set_message(with_count("Priority decreased to ", priority as usize, ""));
                        proof {
                            reveal_strlit("");
                            assert("Priority decreased to "@ + decimal(priority as nat) + ""@
                                =~= "Priority decreased to "@ + decimal(priority as nat));
                        }
                    },
                    None => {},
                }
            },
            None => {},
        }
    }

    /// Goes to the mode in which a child of the selected task is entered.
    pub fn add_child_todo(&mut self)
        ensures
            final(self)@ == old(self)@.add_child_todo(),
    {
        match self.get_selected_todo_id() {
            Some(parent) => {
                self.mode = AppMode::InsertChild;
                self.clear_input_buffer();
                self.inserting_child_for = Some(parent);
            },
            None => {},
        }
    }

    /// Shows or hides the children of the selected task, if it has any.
    pub fn toggle_expansion(&mut self)
        ensures
            final(self)@ == old(self)@.expansion_toggled(),
    {
        match self.get_selected_todo_id() {
            Some(id) => {
                match self.session.toggle_expansion(id) {
                    Some(true) => self.say("Todo expanded"),
                    Some(false) => self.say("Todo collapsed"),
                    None => {},
                }
            },
            None => {},
        }
    }

    /// Starts the timer of the selected task, or stops it if it runs.
    pub fn toggle_timer(&mut self)
        ensures
            final(self)@ == old(self)@.timer_toggled(),
    {
        match self.get_selected_todo_id() {
            Some(id) => {
                match self.session.toggle_timer_at(id, self.now) {
                    Some(true) => self.say("Timer started"),
                    Some(false) => self.say("Timer stopped"),
                    None => {},
                }
            },
            None => {},
        }
    }

    /// Enters the search text as the view: a search for it, or all tasks
    /// where it is only white space. Goes back to normal mode.
    pub fn submit_search(&mut self)
        ensures
            final(self)@ == old(self)@.search_entered(),
    {
        let typed = self.search_buffer.text();
        let query = trim(typed.as_str());
        if query.as_str().is_empty() {
            self.view_mode = ViewMode::All;
        } else {
            self.view_mode = ViewMode::Search(query);
        }
        self.selected = 0;
        self.mode = AppMode::Normal;
        self.set_message(join("Searching for: ", typed.as_str(), ""));
        proof {
            reveal_strlit("");
            assert("Searching for: "@ + typed@ + ""@ =~= "Searching for: "@ + typed@);
        }
        self.search_buffer.clear();
    }

    /// Goes to the picker of tags, if the current store has any.
    pub fn enter_tag_selection(&mut self)
        ensures
            final(self)@ == old(self)@.labels_offered(true),
    {
        let tags = match self.get_current_todo_list() {
            Some(list) => Some(list.get_all_tags()),
            None => None,
        };
        match tags {
            Some(tags) => {
                self.available_tags = tags;
                if self.available_tags.len() == 0 {
                    self.say("No tags found");
                } else {
                    self.mode = AppMode::TagSelection;
                    self.popup_selected = 0;
                }
            },
            None => {
                self.say("No workspace selected");
            },
        }
    }

    /// Goes to the picker of contexts, if the current store has any.
    pub fn enter_context_selection(&mut self)
        ensures
            final(self)@ == old(self)@.labels_offered(false),
    {
        let contexts = match self.get_current_todo_list() {
            Some(list) => Some(list.get_all_contexts()),
            None => None,
        };
        match contexts {
            Some(contexts) => {
                self.available_contexts = contexts;
                if self.available_contexts.len() == 0 {
                    self.say("No contexts found");
                } else {
                    self.mode = AppMode::ContextSelection;
                    self.popup_selected = 0;
                }
            },
            None => {
                self.say("No workspace selected");
            },
        }
    }

    /// Moves the selection of a picker one row down, if it can go. The
    /// picker of workspaces has one row more than it has workspaces.
    pub fn move_popup_selection_down(&mut self)
        ensures
            final(self)@ == old(self)@.move_popup_selection_down(),
    {
        // The number of the last row: one less than there are rows.
        let last: Option<usize> = match self.mode {
            AppMode::TagSelection => self.available_tags.len().checked_sub(1),
            AppMode::ContextSelection => self.available_contexts.len().checked_sub(1),
            AppMode::TemplateSelection => self.available_templates.len().checked_sub(1),
            AppMode::RecurrenceSelection => self.available_recurrence.len().checked_sub(1),
            AppMode::WorkspaceSelection => Some(self.available_workspaces.len()),
            _ => None,
        };
        match last {
            Some(last) => {
                if self.popup_selected < last {
                    self.popup_selected += 1;
                }
            },
            None => {},
        }
    }

    /// The names of the workspaces, the earlier made first.
    pub fn workspace_names(&self) -> (names: Vec<String>)
        ensures
            texts(names@) == self@.workspace_names(),
    {
        let sorted = self.session.workspace_manager().get_all_workspaces();
        let mut names: Vec<String> = Vec::new();
        let mut i: usize = 0;
        while i < sorted.len()
            invariant
                i <= sorted.len(),
                names@.len() == i,
                forall|j: int| 0 <= j < i ==> (#[trigger] names@[j])@ == sorted@[j]@.name,
            decreases sorted.len() - i,
        {
            names.push(sorted[i].name.clone());
            i += 1;
        }
        proof {
            let by = by_age(self@.session.manager.entries);
            assert(workspace_views(sorted@) == by);
            assert forall|j: int| 0 <= j < names@.len() implies texts(names@)[j] == by[j].name by {
                assert(workspace_views(sorted@)[j] == sorted@[j]@);
            }
            assert(texts(names@) =~= self@.workspace_names());
        }
        names
    }

    /// The ids of the templates, in alphabetical order of their names.
    pub fn template_ids(&self) -> (ids: Vec<String>)
        ensures
            texts(ids@) == self@.template_ids(),
    {
        let sorted = self.template_manager.get_all_templates();
        let mut ids: Vec<String> = Vec::new();
        let mut i: usize = 0;
        while i < sorted.len()
            invariant
                i <= sorted.len(),
                ids@.len() == i,
                forall|j: int| 0 <= j < i ==> (#[trigger] ids@[j])@ == sorted@[j]@.id,
            decreases sorted.len() - i,
        {
            ids.push(sorted[i].id.clone());
            i += 1;
        }
        proof {
            let by = by_name(self@.templates);
            assert(template_ref_views(sorted@) == by);
            assert forall|j: int| 0 <= j < ids@.len() implies texts(ids@)[j] == by[j].id by {
                assert(template_ref_views(sorted@)[j] == sorted@[j]@);
            }
            assert(texts(ids@) =~= self@.template_ids());
        }
        ids
    }

    /// The name of the current workspace, or `No Workspace`.
    pub fn get_current_workspace_name(&self) -> (name: String)
        ensures
            name@ == self@.current_workspace_name(),
    {
        match self.session.workspace_manager().get_current_workspace() {
            Some(workspace) => workspace.name.clone(),
            None => String::from_str("No Workspace"),
        }
    }

    /// Goes back to the welcome screen.
    pub fn return_to_welcome(&mut self)
        ensures
            final(self)@ == old(self)@.welcomed(),
    {
        self.mode = AppMode::Welcome;
        self.welcome_selected = 0;
        self.selected = 0;
        self.clear_input_buffer();
        self.say("Returned to welcome screen - Choose an option to continue");
    }

    /// Goes to the picker of workspaces.
    pub fn enter_workspace_selection(&mut self)
        ensures
            final(self)@ == old(self)@.workspaces_offered(),
    {
        self.available_workspaces = self.workspace_names();
        if self.available_workspaces.len() == 0 {
            self.say("No workspaces available");
        } else {
            self.mode = AppMode::WorkspaceSelection;
            self.popup_selected = 0;
        }
    }

    /// Goes to the picker of templates.
    pub fn enter_template_selection(&mut self)
        ensures
            final(self)@ == old(self)@.templates_offered(),
    {
        self.available_templates = self.template_ids();
        if self.available_templates.len() == 0 {
            self.say("No templates available");
        } else {
            self.mode = AppMode::TemplateSelection;
            self.popup_selected = 0;
        }
    }

    /// Takes the row of the picker of workspaces: the first row leads back
    /// to the welcome screen, the others make the workspace of their name
    /// current.
    pub fn switch_workspace(&mut self)
        ensures
            final(self)@ == old(self)@.workspace_switched(),
    {
        if self.popup_selected == 0 {
            self.return_to_welcome();
        } else if self.popup_selected - 1 < self.available_workspaces.len() {
            let name = self.available_workspaces[self.popup_selected - 1].clone();
            assert(name@ == old(self)@.available_workspaces[self.popup_selected - 1]);
            if self.session.switch_workspace_by_name(name.as_str()) {
                self.set_message(join2("Switched to workspace: ", name.as_str()));
                self.selected = 0;
                self.view_mode = ViewMode::All;
                self.mode = AppMode::Normal;
            } else {
                self.say("Failed to switch workspace");
            }
        }
        self.available_workspaces.clear();
        assert(self@.available_workspaces =~= Seq::empty());
    }

    /// Stamps the template in the selected row of the picker onto the
    /// selected task, and goes back to normal mode.
    pub fn apply_template(&mut self)
        ensures
            final(self)@ == old(self)@.template_applied(),
    {
        match self.get_selected_todo_id() {
            Some(id) => {
                if self.popup_selected < self.available_templates.len() {
                    assert(self.available_templates@[self.popup_selected as int]@
                        == self@.available_templates[self.popup_selected as int]);
                    match self.template_manager.get_template(
                        self.available_templates[self.popup_selected].as_str(),
                    ) {
                        Some(template) => {
                            if self.session.apply_template(id, template) {
                                let text = join2("Applied template: ", template.name.as_str());
                                self.message = Some(text);
                            }
                        },
                        None => {},
                    }
                }
            },
            None => {},
        }
        self.mode = AppMode::Normal;
        self.available_templates.clear();
        assert(self@.available_templates =~= Seq::empty());
    }

    /// Sets the rule in the selected row of the picker on the selected
    /// task, and goes back to normal mode.
    pub fn apply_recurrence(&mut self)
        ensures
            final(self)@ == old(self)@.recurrence_applied(),
    {
        match self.get_selected_todo_id() {
            Some(id) => {
                if self.popup_selected < self.available_recurrence.len() {
                    let pattern = self.available_recurrence[self.popup_selected];
                    if self.session.set_recurrence(id, pattern) {
                        self.set_message(join2("Recurrence set to: ", name_of_recurrence(pattern)));
                    }
                }
            },
            None => {},
        }
        self.mode = AppMode::Normal;
    }

    /// Takes the selected row of a picker: a tag or a context becomes the
    /// filter of the view, a template is stamped onto the selected task, a
    /// recurrence rule is set on it, a workspace becomes current.
    pub fn select_from_popup(&mut self)
        ensures
            final(self)@ == old(self)@.popup_taken(),
    {
        match self.mode {
            AppMode::TagSelection => {
                if self.popup_selected < self.available_tags.len() {
                    let tag = self.available_tags[self.popup_selected].clone();
                    assert(tag@ == self@.available_tags[self.popup_selected as int]);
                    self.set_message(join2("Filtering by tag: #", tag.as_str()));
                    self.view_mode = ViewMode::FilterByTag(tag);
                    self.selected = 0;
                }
                self.mode = AppMode::Normal;
            },
            AppMode::ContextSelection => {
                if self.popup_selected < self.available_contexts.len() {
                    let context = self.available_contexts[self.popup_selected].clone();
                    assert(context@ == self@.available_contexts[self.popup_selected as int]);
                    self.set_message(join2("Filtering by context: @", context.as_str()));
                    self.view_mode = ViewMode::FilterByContext(context);
                    self.selected = 0;
                }
                self.mode = AppMode::Normal;
            },
            AppMode::TemplateSelection => {
                self.apply_template();
            },
            AppMode::RecurrenceSelection => {
                self.apply_recurrence();
            },
            AppMode::WorkspaceSelection => {
                self.switch_workspace();
            },
            _ => {
                self.mode = AppMode::Normal;
            },
        }
    }

    /// Puts a picker away and goes back to normal mode.
    pub fn cancel_popup(&mut self)
        ensures
            final(self)@ == old(self)@.popup_cancelled(),
    {
        self.popup_selected = 0;
        self.available_tags.clear();
        self.available_contexts.clear();
        self.available_templates.clear();
        self.available_workspaces.clear();
        proof {
            assert(self@.available_tags =~= Seq::empty());
            assert(self@.available_contexts =~= Seq::empty());
            assert(self@.available_templates =~= Seq::empty());
            assert(self@.available_workspaces =~= Seq::empty());
        }
        self.exit_notes_mode();
    }

    /// Takes up the notes of the selected task for editing.
    pub fn enter_notes_mode(&mut self)
        ensures
            final(self)@ == old(self)@.notes_taken_up(),
    {
        match self.get_selected_todo_id() {
            Some(id) => {
                self.editing_notes_for = Some(id);
                self.mode = AppMode::EditNotes;
                let notes: Option<String> = match self.get_current_todo_list() {
                    Some(list) => match list.get_todo(id) {
                        Some(todo) => match &todo.notes {
                            Some(notes) => Some(notes.clone()),
                            None => None,
                        },
                        None => None,
                    },
                    None => None,
                };
                match notes {
                    Some(notes) => self.notes_buffer.set_text(notes.as_str()),
                    None => self.notes_buffer.clear(),
                }
            },
            None => {},
        }
    }

    /// Saves the notes under edit on their task; notes that are only white
    /// space are no notes. Goes back to normal mode.
    pub fn save_notes(&mut self)
        ensures
            final(self)@ == old(self)@.notes_saved(),
    {
        match self.editing_notes_for {
            Some(id) => {
                let text = trim(self.notes_buffer.text().as_str());
                let notes = if text.as_str().is_empty() {
                    None
                } else {
                    Some(text)
                };
                if self.session.set_notes(id, notes) {
                    self.say("Notes saved");
                }
            },
            None => {},
        }
        self.exit_notes_mode();
    }

    /// Shows the notes of the selected task, if it has any.
    pub fn enter_view_notes_mode(&mut self)
        ensures
            final(self)@ == old(self)@.notes_shown(),
    {
        match self.get_selected_todo_id() {
            Some(id) => {
                let found: Option<Option<String>> = match self.get_current_todo_list() {
                    Some(list) => match list.get_todo(id) {
                        Some(todo) => if todo.has_notes() {
                            match &todo.notes {
                                Some(notes) => Some(Some(notes.clone())),
                                None => Some(None),
                            }
                        } else {
                            Some(None)
                        },
                        None => None,
                    },
                    None => None,
                };
                match found {
                    Some(Some(notes)) => {
                        self.editing_notes_for = Some(id);
                        self.mode = AppMode::ViewNotes;
                        self.notes_buffer.set_text(notes.as_str());
                    },
                    Some(None) => {
                        self.say("This todo has no notes");
                    },
                    None => {},
                }
            },
            None => {},
        }
    }

    /// Takes up the text of the selected task for editing.
    pub fn enter_edit_mode(&mut self)
        ensures
            final(self)@ == old(self)@.edit_taken_up(),
    {
        match self.get_selected_todo_id() {
            Some(id) => {
                self.editing_todo_id = Some(id);
                self.mode = AppMode::EditTodo;
                let raw: Option<String> = match self.get_current_todo_list() {
                    Some(list) => match list.get_todo(id) {
                        Some(todo) => Some(todo.raw_description.clone()),
                        None => None,
                    },
                    None => None,
                };
                match raw {
                    Some(raw) => self.edit_buffer.set_text(raw.as_str()),
                    None => self.edit_buffer.clear(),
                }
            },
            None => {},
        }
    }

    /// Saves the text under edit as the text of its task and records the
    /// edit; text that is only white space is not saved. Goes back to
    /// normal mode.
    pub fn save_todo_edit(&mut self)
        ensures
            final(self)@ == old(self)@.edit_saved(),
    {
        match self.editing_todo_id {
            Some(id) => {
                let text = trim(self.edit_buffer.text().as_str());
                if text.as_str().is_empty() {
                    self.say("Cannot save empty todo description");
                } else if self.get_current_todo_list().is_none() {
                    self.say("No workspace selected");
                } else if self.session.edit_todo_at(id, text, self.now) {
                    self.say("Todo updated");
                } else {
                    self.say("Failed to find todo for editing");
                }
            },
            None => {},
        }
        self.exit_edit_mode();
    }

    /// Makes the follow-ups of the recurring tasks of the current store.
    pub fn update_recurring_todos(&mut self)
        ensures
            final(self)@ == old(self)@.update_recurring_todos(),
    {
        let count = self.session.update_recurring_todos_at(self.now);
        if count > 0 {
            self.set_message(with_count("Generated ", count, " recurring todos"));
        }
    }

    /// The front end as it starts at `now`.
    pub fn new_at(now: Timestamp) -> (app: App)
        ensures
            app@ == AppView::fresh(now),
    {
        let mut session = Session::new();
        session.create_workspace_at(
            String::from_str("Personal"),
            Some(String::from_str("Your personal todos")),
            now,
        );
        let mut available_recurrence: Vec<RecurrencePattern> = Vec::new();
        available_recurrence.push(RecurrencePattern::Never);
        available_recurrence.push(RecurrencePattern::Daily);
        available_recurrence.push(RecurrencePattern::Weekly);
        available_recurrence.push(RecurrencePattern::Monthly);
        available_recurrence.push(RecurrencePattern::Yearly);
        let mut app = App {
            session,
            now,
            mode: AppMode::Welcome,
            view_mode: ViewMode::All,
            selected: 0,
            input_buffer: TextBuffer::new(),
            search_buffer: TextBuffer::new(),
            should_quit: false,
            show_help: false,
            message: Some(String::from_str("Select a workspace to get started")),
            inserting_child_for: None,
            popup_selected: 0,
            available_tags: Vec::new(),
            available_contexts: Vec::new(),
            template_manager: TemplateManager::with_builtin_templates_at(now),
            notes_buffer: TextBuffer::new(),
            editing_notes_for: None,
            edit_buffer: TextBuffer::new(),
            editing_todo_id: None,
            available_templates: Vec::new(),
            available_recurrence,
            available_workspaces: Vec::new(),
            selected_todos: Vec::new(),
            visual_start: None,
            bulk_operation: None,
            welcome_selected: 0,
            is_first_launch: true,
        };
        proof {
            assert(app@.available_tags =~= Seq::empty());
            assert(app@.available_contexts =~= Seq::empty());
            assert(app@.available_templates =~= Seq::empty());
            assert(app@.available_workspaces =~= Seq::empty());
            assert(app@.available_recurrence =~= seq![
                RecurrencePattern::Never,
                RecurrencePattern::Daily,
                RecurrencePattern::Weekly,
                RecurrencePattern::Monthly,
                RecurrencePattern::Yearly,
            ]);
        }
        let names = app.workspace_names();
        app.is_first_launch = names.len() <= 1;
        if !app.is_first_launch {
            app.mode = AppMode::WorkspaceSelection;
        }
        app.available_workspaces = names;
        app
    }

    /// The front end as it starts now.
    pub fn new() -> (app: App)
        ensures
            exists|now: Timestamp| app@ == AppView::fresh(now),
    {
        let now = Timestamp::now();
        App::new_at(now)
    }

    /// Takes over workspaces that came from elsewhere, with an empty
    /// history, and tells whether it did: a manager that is not well formed
    /// is refused.
    pub fn load_workspace_manager(&mut self, workspace_manager: crate::workspace::WorkspaceManager) -> (loaded:
        bool)
        ensures
            loaded == workspace_manager@.all_wf(),
            final(self)@ == if loaded {
                (AppView {
                    session: SessionView {
                        manager: workspace_manager@,
                        history: SessionView::empty().history,
                    },
                    ..old(self)@
                })
            } else {
                old(self)@
            },
    {
        match Session::from_parts(workspace_manager, crate::history::CommandHistory::new()) {
            Some(session) => {
                self.session = session;
                true
            },
            None => false,
        }
    }

    /// The rows of the welcome screen, each with what it says about
    /// itself.
    pub fn get_welcome_options(&self) -> (options: Vec<(&'static str, &'static str)>)
        ensures
            pair_views(options@) == welcome_options(self.is_first_launch),
    {
        let mut options: Vec<(&'static str, &'static str)> = Vec::new();
        if self.is_first_launch {
            options.push(("Get Started", "Create your first todo and jump right in"));
            options.push(("Browse Workspaces", "Explore existing workspaces or create new ones"));
            options.push(("Learn the Basics", "View help and keyboard shortcuts"));
            options.push(("Quick Demo", "See Paperclip in action with sample todos"));
            options.push(("Exit", "Close Paperclip"));
        } else {
            options.push(("Browse Workspaces", "Select from your existing workspaces"));
            options.push(("Learn the Basics", "View help and keyboard shortcuts"));
            options.push(("Quick Demo", "See Paperclip in action with sample todos"));
            options.push(("Create New Workspace", "Start fresh with a new workspace"));
            options.push(("Exit", "Close Paperclip"));
        }
        assert(pair_views(options@) =~= welcome_options(self.is_first_launch));
        options
    }

    /// Moves the selection of the welcome screen one row down, if it can
    /// go.
    pub fn move_welcome_selection_down(&mut self)
        ensures
            final(self)@ == old(self)@.move_welcome_selection_down(),
    {
        if self.welcome_selected < WELCOME_ROWS - 1 {
            self.welcome_selected += 1;
        }
    }

    /// Replaces the tasks of the current store by the tasks of the
    /// demonstration.
    pub fn create_demo_todos(&mut self)
        ensures
            final(self)@ == old(self)@.create_demo_todos(),
    {
        self.session.replace_todos_at(make_demo_texts(), self.now);
    }

    /// Goes to the mode in which the name of a new workspace is entered.
    pub fn enter_create_workspace_mode(&mut self)
        ensures
            final(self)@ == old(self)@.workspace_asked(),
    {
        self.mode = AppMode::CreateWorkspace;
        self.input_buffer.clear();
        self.say("Enter workspace name:");
    }

    /// Puts the entering of a workspace away and goes back to the picker
    /// of workspaces.
    pub fn cancel_workspace_creation(&mut self)
        ensures
            final(self)@ == old(self)@.cancel_workspace_creation(),
    {
        self.mode = AppMode::WorkspaceSelection;
        self.input_buffer.clear();
        self.say("Workspace creation cancelled");
    }

    /// Shows the help, with a hint how to close it.
    fn show_basics(&mut self)
        ensures
            final(self)@ == old(self)@.basics_shown(),
    {
        self.show_help = true;
        self.say("Press ? again to close help");
    }

    /// Shows the demonstration in the workspace `Personal`.
    fn show_demo(&mut self)
        ensures
            final(self)@ == old(self)@.demo_shown(),
    {
        self.create_demo_todos();
        self.session.switch_workspace_by_name("Personal");
        self.mode = AppMode::Normal;
        self.say("Welcome! Try navigating with j/k, press Space to complete todos");
    }

    /// Takes the selected row of the welcome screen.
    pub fn select_welcome_option(&mut self)
        ensures
            final(self)@ == old(self)@.welcome_taken(),
    {
        if self.is_first_launch {
            if self.welcome_selected == 0 {
                self.session.switch_workspace_by_name("Personal");
                self.mode = AppMode::Insert;
                self.clear_input_buffer();
                self.say("Welcome! Type your first todo and press Enter");
            } else if self.welcome_selected == 1 {
                self.enter_workspace_selection();
            } else if self.welcome_selected == 2 {
                self.show_basics();
            } else if self.welcome_selected == 3 {
                self.show_demo();
            } else if self.welcome_selected == 4 {
                self.should_quit = true;
            }
        } else {
            if self.welcome_selected == 0 {
                self.enter_workspace_selection();
            } else if self.welcome_selected == 1 {
                self.show_basics();
            } else if self.welcome_selected == 2 {
                self.show_demo();
            } else if self.welcome_selected == 3 {
                self.enter_create_workspace_mode();
            } else if self.welcome_selected == 4 {
                self.should_quit = true;
            }
        }
    }

    /// Makes a workspace and says under which id.
    pub fn create_new_workspace(&mut self, name: String, description: Option<String>)
        ensures
            final(self)@ == old(self)@.workspace_made(name@, opt_text(description)),
    {
        let shown = name.clone();
        match self.session.create_workspace_at(name, description, self.now) {
            Some(id) => {
                let mut text = join("Created workspace: ", shown.as_str(), " (ID: ");
                text.append(id.as_str());
                text.append(")");
                self.set_message(text);
            },
            None => {
                self.say("Failed to create workspace");
            },
        }
    }

    /// Deletes the workspace that goes by the name of the current one as
    /// its id; never the last workspace.
    pub fn delete_current_workspace(&mut self)
        ensures
            final(self)@ == old(self)@.current_workspace_deleted(),
    {
        let name = self.get_current_workspace_name();
        if self.session.delete_workspace(name.as_str()) {
            self.set_message(join2("Deleted workspace: ", name.as_str()));
            self.selected = 0;
            self.view_mode = ViewMode::All;
        } else {
            self.say("Cannot delete the last remaining workspace");
        }
    }

    /// Gives a new name to the workspace that goes by the name of the
    /// current one as its id.
    pub fn rename_current_workspace(&mut self, new_name: String)
        ensures
            final(self)@ == old(self)@.current_workspace_renamed(new_name@),
    {
        let name = self.get_current_workspace_name();
        let shown = new_name.clone();
        if self.session.rename_workspace(name.as_str(), new_name) {
            self.set_message(join2("Renamed workspace to: ", shown.as_str()));
        } else {
            self.say("Failed to rename workspace (name may already exist)");
        }
    }

    /// Enters the name in the input for a new workspace, which becomes
    /// current. A name that is only white space, or that a workspace has
    /// already, is not entered.
    pub fn submit_workspace_creation(&mut self)
        ensures
            final(self)@ == old(self)@.workspace_entered(),
    {
        let name = trim(self.input_buffer.text().as_str());
        if name.as_str().is_empty() {
            self.say("Workspace name cannot be empty");
            self.input_buffer.clear();
            return ;
        }
        if self.session.workspace_manager().find_by_name(name.as_str()).is_some() {
            self.say("Workspace with this name already exists");
            return ;
        }
        self.session.create_workspace_at(
            name.clone(),
            Some(String::from_str("Workspace created by user")),
            self.now,
        );
        self.available_workspaces = self.workspace_names();
        if self.session.switch_workspace_by_name(name.as_str()) {
            self.set_message(join2("Created and switched to workspace: ", name.as_str()));
            self.mode = AppMode::Normal;
            self.selected = 0;
            self.view_mode = ViewMode::All;
        } else {
            self.say("Failed to create workspace");
            self.mode = AppMode::WorkspaceSelection;
        }
        self.input_buffer.clear();
    }

    /// Deletes the workspace in the selected row of the picker of
    /// workspaces; never the last workspace, and never the first row,
    /// which is no workspace.
    pub fn delete_selected_workspace(&mut self)
        ensures
            final(self)@ == old(self)@.selected_workspace_deleted(),
    {
        if self.popup_selected == 0 {
            self.say("Cannot delete the Home option");
            return ;
        }
        if self.popup_selected - 1 < self.available_workspaces.len() {
            let name = self.available_workspaces[self.popup_selected - 1].clone();
            assert(name@ == self@.available_workspaces[self.popup_selected - 1]);
            let id: Option<String> = match self.session.workspace_manager().find_by_name(
                name.as_str(),
            ) {
                Some(at) => Some(
                    self.session.workspace_manager().entries[at].workspace.id.clone(),
                ),
                None => None,
            };
            match id {
                Some(id) => {
                    if self.session.delete_workspace(id.as_str()) {
                        self.set_message(join2("Deleted workspace: ", name.as_str()));
                        self.available_workspaces = self.workspace_names();
                        let listed = self.available_workspaces.len();
                        if self.popup_selected >= listed && listed > 0 {
                            self.popup_selected = listed - 1;
                        }
                    } else {
                        self.say("Cannot delete the last remaining workspace");
                    }
                },
                None => {},
            }
        }
    }

    /// Undoes the last command and says what was undone.
    pub fn undo(&mut self)
        ensures
            final(self)@ == old(self)@.undone(),
    {
        match self.session.undo_at(self.now) {
            Some((command, applied)) => {
                if applied {
                    self.set_message(undo_text(&command));
                } else {
                    self.say("The workspace of the last action is gone");
                }
            },
            None => {
                self.say("Nothing to undo");
            },
        }
    }

    /// Redoes the last undone command and says what was redone.
    pub fn redo(&mut self)
        ensures
            final(self)@ == old(self)@.redone(),
    {
        match self.session.redo_at(self.now) {
            Some((command, applied)) => {
                if applied {
                    self.set_message(redo_text(&command));
                } else {
                    self.say("This action cannot be redone");
                }
            },
            None => {
                self.say("Nothing to redo");
            },
        }
    }

    /// Renews the reading of the clock.
    pub fn tick(&mut self, now: Timestamp)
        ensures
            final(self)@ == old(self)@.tick(now),
    {
        self.now = now;
    }

    /// Asks for the end of the program.
    pub fn quit(&mut self)
        ensures
            final(self)@ == old(self)@.quit(),
    {
        self.should_quit = true;
    }

    /// Shows the help if it is hidden, and hides it if it is shown.
    pub fn toggle_help(&mut self)
        ensures
            final(self)@ == old(self)@.toggle_help(),
    {
        self.show_help = !self.show_help;
    }

    /// Takes the message away.
    pub fn clear_message(&mut self)
        ensures
            final(self)@ == old(self)@.clear_message(),
    {
        self.message = None;
    }

    /// Puts up a message.
    pub fn set_message(&mut self, msg: String)
        ensures
            final(self)@ == old(self)@.saying(msg@),
    {
        self.message = Some(msg);
    }

    /// Puts up a message.
    pub fn say(&mut self, text: &str)
        ensures
            final(self)@ == old(self)@.saying(text@),
    {
        self.message = Some(String::from_str(text));
    }

    /// Moves the selection one row up, if it can go.
    pub fn move_selection_up(&mut self)
        ensures
            final(self)@ == old(self)@.move_selection_up(),
    {
        if self.selected > 0 {
            self.selected -= 1;
        }
    }

    /// Moves the selection to the first row.
    pub fn go_to_top(&mut self)
        ensures
            final(self)@ == old(self)@.go_to_top(),
    {
        self.selected = 0;
    }

    /// Empties the input.
    pub fn clear_input_buffer(&mut self)
        ensures
            final(self)@ == old(self)@.clear_input_buffer(),
    {
        self.input_buffer.clear();
    }

    /// Goes to insert mode, with nothing in the input.
    pub fn enter_insert_mode(&mut self)
        ensures
            final(self)@ == old(self)@.enter_insert_mode(),
    {
        self.mode = AppMode::Insert;
        self.clear_input_buffer();
    }

    /// Goes back to normal mode, with nothing in the input.
    pub fn enter_normal_mode(&mut self)
        ensures
            final(self)@ == old(self)@.in_normal_mode(),
    {
        self.mode = AppMode::Normal;
        self.clear_input_buffer();
        self.inserting_child_for = None;
    }

    /// Types a character into the input.
    pub fn add_char_to_input(&mut self, c: char)
        ensures
            final(self)@ == old(self)@.add_char_to_input(c),
    {
        self.input_buffer.add_char(c);
    }

    /// Deletes the character before the cursor of the input.
    pub fn remove_char_from_input(&mut self)
        ensures
            final(self)@ == old(self)@.remove_char_from_input(),
    {
        self.input_buffer.remove_char();
    }

    /// Moves the cursor of the input to the left.
    pub fn move_input_cursor_left(&mut self)
        ensures
            final(self)@ == old(self)@.move_input_cursor_left(),
    {
        self.input_buffer.move_cursor_left();
    }

    /// Moves the cursor of the input to the right.
    pub fn move_input_cursor_right(&mut self)
        ensures
            final(self)@ == old(self)@.move_input_cursor_right(),
    {
        self.input_buffer.move_cursor_right();
    }

    /// Types a character into the search text.
    pub fn add_char_to_search(&mut self, c: char)
        ensures
            final(self)@ == old(self)@.add_char_to_search(c),
    {
        self.search_buffer.add_char(c);
    }

    /// Deletes the character before the cursor of the search text.
    pub fn remove_char_from_search(&mut self)
        ensures
            final(self)@ == old(self)@.remove_char_from_search(),
    {
        self.search_buffer.remove_char();
    }

    /// Moves the cursor of the search text to the left.
    pub fn move_search_cursor_left(&mut self)
        ensures
            final(self)@ == old(self)@.move_search_cursor_left(),
    {
        self.search_buffer.move_cursor_left();
    }

    /// Moves the cursor of the search text to the right.
    pub fn move_search_cursor_right(&mut self)
        ensures
            final(self)@ == old(self)@.move_search_cursor_right(),
    {
        self.search_buffer.move_cursor_right();
    }

    /// Types a character into the notes.
    pub fn add_char_to_notes(&mut self, c: char)
        ensures
            final(self)@ == old(self)@.add_char_to_notes(c),
    {
        self.notes_buffer.add_char(c);
    }

    /// Deletes the character before the cursor of the notes.
    pub fn remove_char_from_notes(&mut self)
        ensures
            final(self)@ == old(self)@.remove_char_from_notes(),
    {
        self.notes_buffer.remove_char();
    }

    /// Moves the cursor of the notes to the left.
    pub fn move_notes_cursor_left(&mut self)
        ensures
            final(self)@ == old(self)@.move_notes_cursor_left(),
    {
        self.notes_buffer.move_cursor_left();
    }

    /// Moves the cursor of the notes to the right.
    pub fn move_notes_cursor_right(&mut self)
        ensures
            final(self)@ == old(self)@.move_notes_cursor_right(),
    {
        self.notes_buffer.move_cursor_right();
    }

    /// Types a character into the text under edit.
    pub fn add_char_to_edit(&mut self, c: char)
        ensures
            final(self)@ == old(self)@.add_char_to_edit(c),
    {
        self.edit_buffer.add_char(c);
    }

    /// Deletes the character before the cursor of the text under edit.
    pub fn remove_char_from_edit(&mut self)
        ensures
            final(self)@ == old(self)@.remove_char_from_edit(),
    {
        self.edit_buffer.remove_char();
    }

    /// Moves the cursor of the text under edit to the left.
    pub fn move_edit_cursor_left(&mut self)
        ensures
            final(self)@ == old(self)@.move_edit_cursor_left(),
    {
        self.edit_buffer.move_cursor_left();
    }

    /// Moves the cursor of the text under edit to the right.
    pub fn move_edit_cursor_right(&mut self)
        ensures
            final(self)@ == old(self)@.move_edit_cursor_right(),
    {
        self.edit_buffer.move_cursor_right();
    }

    /// Puts the notes away and goes back to normal mode.
    pub fn exit_notes_mode(&mut self)
        ensures
            final(self)@ == old(self)@.notes_closed(),
    {
        self.mode = AppMode::Normal;
        self.notes_buffer.clear();
        self.editing_notes_for = None;
    }

    /// Puts the viewed notes away and goes back to normal mode.
    pub fn exit_view_notes_mode(&mut self)
        ensures
            final(self)@ == old(self)@.notes_closed(),
    {
        self.exit_notes_mode();
    }

    /// Puts the edit away and goes back to normal mode.
    pub fn exit_edit_mode(&mut self)
        ensures
            final(self)@ == old(self)@.edit_closed(),
    {
        self.mode = AppMode::Normal;
        self.edit_buffer.clear();
        self.editing_todo_id = None;
    }

    /// Leaves visual mode and forgets the selection for bulk operations.
    pub fn exit_visual_mode(&mut self)
        ensures
            final(self)@ == old(self)@.visual_closed(),
    {
        self.mode = AppMode::Normal;
        self.visual_start = None;
        self.selected_todos.clear();
        self.bulk_operation = None;
    }

    /// Goes to search mode, with nothing in the search text.
    pub fn enter_search_mode(&mut self)
        ensures
            final(self)@ == old(self)@.enter_search_mode(),
    {
        self.mode = AppMode::Search;
        self.search_buffer.clear();
    }

    /// Shows all tasks again.
    pub fn clear_filters(&mut self)
        ensures
            final(self)@ == old(self)@.clear_filters(),
    {
        self.view_mode = ViewMode::All;
        self.selected = 0;
        self.say("Filters cleared");
    }

    /// Moves the selection of a picker one row up, if it can go.
    pub fn move_popup_selection_up(&mut self)
        ensures
            final(self)@ == old(self)@.move_popup_selection_up(),
    {
        if self.popup_selected > 0 {
            self.popup_selected -= 1;
        }
    }

    /// Moves the selection of the welcome screen one row up, if it can go.
    pub fn move_welcome_selection_up(&mut self)
        ensures
            final(self)@ == old(self)@.move_welcome_selection_up(),
    {
        if self.welcome_selected > 0 {
            self.welcome_selected -= 1;
        }
    }

    /// Goes to the picker of recurrence rules.
    pub fn enter_recurrence_selection(&mut self)
        ensures
            final(self)@ == old(self)@.enter_recurrence_selection(),
    {
        self.mode = AppMode::RecurrenceSelection;
        self.popup_selected = 0;
    }
}

} // verus!
