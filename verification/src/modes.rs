//! The modes of an interactive front end: what the keyboard is bound to,
//! which view of the tasks is shown, and what a bulk operation does.

use crate::outline::{row_views, DueDateFilter, FilterView};
use crate::text::lowercase_of;
use crate::time::Timestamp;
use crate::todo::{Todo, TodoView};
use crate::workspace::{found_in_all, result_views, WorkspaceManager, WorkspaceManagerView};
use vstd::prelude::*;

verus! {

/// What the front end is doing.
#[derive(Debug, Clone, Copy, PartialEq, Eq, Structural)]
pub enum AppMode {
    Welcome,
    Normal,
    Insert,
    InsertChild,
    EditTodo,
    Search,
    TagSelection,
    ContextSelection,
    EditNotes,
    ViewNotes,
    TemplateSelection,
    RecurrenceSelection,
    TimeTracking,
    WorkspaceSelection,
    CreateWorkspace,
    Visual,
    BulkOperation,
}

/// Which tasks are shown.
#[derive(Debug, Clone, PartialEq, Eq)]
pub enum ViewMode {
    All,
    Pending,
    Completed,
    Search(String),
    FilterByTag(String),
    FilterByContext(String),
    FilterByDueDate(DueDateFilter),
}

/// The mathematical content of a [`ViewMode`].
pub enum ViewModeView {
    All,
    Pending,
    Completed,
    Search(Seq<char>),
    FilterByTag(Seq<char>),
    FilterByContext(Seq<char>),
    FilterByDueDate(DueDateFilter),
}

impl View for ViewMode {
    type V = ViewModeView;

    open spec fn view(&self) -> ViewModeView {
        match self {
            ViewMode::All => ViewModeView::All,
            ViewMode::Pending => ViewModeView::Pending,
            ViewMode::Completed => ViewModeView::Completed,
            ViewMode::Search(query) => ViewModeView::Search(query@),
            ViewMode::FilterByTag(tag) => ViewModeView::FilterByTag(tag@),
            ViewMode::FilterByContext(context) => ViewModeView::FilterByContext(context@),
            ViewMode::FilterByDueDate(bucket) => ViewModeView::FilterByDueDate(*bucket),
        }
    }
}

/// What is done to all selected tasks at once.
#[derive(Debug, Clone, PartialEq, Eq)]
pub enum BulkOperationType {
    Complete,
    Delete,
    SetPriority(u8),
    AddTag(String),
    AddContext(String),
    /// Move to another workspace.
    MoveTo(String),
}

/// The mathematical content of a [`BulkOperationType`].
pub enum BulkOperationTypeView {
    Complete,
    Delete,
    SetPriority(u8),
    AddTag(Seq<char>),
    AddContext(Seq<char>),
    MoveTo(Seq<char>),
}

impl View for BulkOperationType {
    type V = BulkOperationTypeView;

    open spec fn view(&self) -> BulkOperationTypeView {
        match self {
            BulkOperationType::Complete => BulkOperationTypeView::Complete,
            BulkOperationType::Delete => BulkOperationTypeView::Delete,
            BulkOperationType::SetPriority(priority) => BulkOperationTypeView::SetPriority(
                *priority,
            ),
            BulkOperationType::AddTag(tag) => BulkOperationTypeView::AddTag(tag@),
            BulkOperationType::AddContext(context) => BulkOperationTypeView::AddContext(context@),
            BulkOperationType::MoveTo(workspace) => BulkOperationTypeView::MoveTo(workspace@),
        }
    }
}

/// The bucket that follows a bucket when the due-date filter is cycled.
pub open spec fn bucket_after(bucket: DueDateFilter) -> DueDateFilter {
    match bucket {
        DueDateFilter::Overdue => DueDateFilter::Today,
        DueDateFilter::Today => DueDateFilter::Tomorrow,
        DueDateFilter::Tomorrow => DueDateFilter::ThisWeek,
        DueDateFilter::ThisWeek => DueDateFilter::NoDueDate,
        DueDateFilter::NoDueDate => DueDateFilter::Overdue,
    }
}

impl ViewModeView {
    /// What the view is called.
    pub open spec fn name(self) -> Seq<char> {
        match self {
            ViewModeView::All => "all todos"@,
            ViewModeView::Pending => "pending todos"@,
            ViewModeView::Completed => "completed todos"@,
            ViewModeView::Search(_) => "search results"@,
            ViewModeView::FilterByTag(_) => "filtered by tag"@,
            ViewModeView::FilterByContext(_) => "filtered by context"@,
            ViewModeView::FilterByDueDate(bucket) => match bucket {
                DueDateFilter::Overdue => "overdue todos"@,
                DueDateFilter::Today => "due today"@,
                DueDateFilter::Tomorrow => "due tomorrow"@,
                DueDateFilter::ThisWeek => "due this week"@,
                DueDateFilter::NoDueDate => "no due date"@,
            },
        }
    }

    /// The view that follows when the views are cycled: all, pending,
    /// completed and all again; from any filter, all.
    pub open spec fn cycled(self) -> ViewModeView {
        match self {
            ViewModeView::All => ViewModeView::Pending,
            ViewModeView::Pending => ViewModeView::Completed,
            _ => ViewModeView::All,
        }
    }

    /// The view that follows when the due-date filter is cycled: the next
    /// bucket, or the overdue tasks from a view that is no due-date filter.
    pub open spec fn next_due_date_filter(self) -> ViewModeView {
        match self {
            ViewModeView::FilterByDueDate(bucket) => ViewModeView::FilterByDueDate(
                bucket_after(bucket),
            ),
            _ => ViewModeView::FilterByDueDate(DueDateFilter::Overdue),
        }
    }

    /// The filter that the view puts on the outline of one store. A search
    /// is no filter of one store.
    pub open spec fn filter(self, now: Timestamp) -> FilterView {
        match self {
            ViewModeView::All => FilterView::Everything,
            ViewModeView::Pending => FilterView::Pending,
            ViewModeView::Completed => FilterView::Completed,
            ViewModeView::Search(query) => FilterView::Matching(lowercase_of(query)),
            ViewModeView::FilterByTag(tag) => FilterView::Tag(lowercase_of(tag)),
            ViewModeView::FilterByContext(context) => FilterView::Context(lowercase_of(context)),
            ViewModeView::FilterByDueDate(bucket) => FilterView::Due(bucket, now),
        }
    }
}

/// The rows that search results hold, workspace after workspace.
pub open spec fn all_rows(found: Seq<(Seq<char>, Seq<(TodoView, u32)>)>) -> Seq<(TodoView, u32)>
    decreases found.len(),
{
    if found.len() == 0 {
        Seq::empty()
    } else {
        all_rows(found.drop_last()) + found.last().1
    }
}

/// The ids of the tasks in the rows from `from` to `to`, both included and
/// in either order, as far as there are rows.
pub open spec fn ids_between(rows: Seq<(TodoView, u32)>, from: int, to: int) -> Seq<u32> {
    let low = if from <= to {
        from
    } else {
        to
    };
    let high = if from <= to {
        to
    } else {
        from
    };
    let end = if high + 1 < rows.len() {
        high + 1
    } else {
        rows.len() as int
    };
    if low < end {
        Seq::new((end - low) as nat, |k: int| rows[low + k].0.id)
    } else {
        Seq::empty()
    }
}

impl WorkspaceManagerView {
    /// The rows that a view shows at `now`: for a search, what the query
    /// finds in the stores of all workspaces; else the outline of the
    /// current store under the filter of the view. No rows where no
    /// workspace is current.
    pub open spec fn visible(self, mode: ViewModeView, now: Timestamp) -> Seq<(TodoView, u32)> {
        match self.current_place() {
            Some(at) => match mode {
                ViewModeView::Search(query) => all_rows(found_in_all(self.entries, query)),
                _ => self.entries[at].todos.outline().filter(mode.filter(now).on_rows()),
            },
            None => Seq::empty(),
        }
    }
}

impl ViewMode {
    /// What the view is called.
    pub fn get_view_name(&self) -> (name: &'static str)
        ensures
            name@ == self@.name(),
    {
        match self {
            ViewMode::All => "all todos",
            ViewMode::Pending => "pending todos",
            ViewMode::Completed => "completed todos",
            ViewMode::Search(_) => "search results",
            ViewMode::FilterByTag(_) => "filtered by tag",
            ViewMode::FilterByContext(_) => "filtered by context",
            ViewMode::FilterByDueDate(bucket) => match bucket {
                DueDateFilter::Overdue => "overdue todos",
                DueDateFilter::Today => "due today",
                DueDateFilter::Tomorrow => "due tomorrow",
                DueDateFilter::ThisWeek => "due this week",
                DueDateFilter::NoDueDate => "no due date",
            },
        }
    }

    /// The view that follows when the views are cycled.
    pub fn cycle_view_mode(&self) -> (next: ViewMode)
        ensures
            next@ == self@.cycled(),
    {
        match self {
            ViewMode::All => ViewMode::Pending,
            ViewMode::Pending => ViewMode::Completed,
            _ => ViewMode::All,
        }
    }

    /// The view that follows when the due-date filter is cycled.
    pub fn cycle_due_date_filter(&self) -> (next: ViewMode)
        ensures
            next@ == self@.next_due_date_filter(),
    {
        let bucket = match self {
            ViewMode::FilterByDueDate(DueDateFilter::Overdue) => DueDateFilter::Today,
            ViewMode::FilterByDueDate(DueDateFilter::Today) => DueDateFilter::Tomorrow,
            ViewMode::FilterByDueDate(DueDateFilter::Tomorrow) => DueDateFilter::ThisWeek,
            ViewMode::FilterByDueDate(DueDateFilter::ThisWeek) => DueDateFilter::NoDueDate,
            ViewMode::FilterByDueDate(DueDateFilter::NoDueDate) => DueDateFilter::Overdue,
            _ => DueDateFilter::Overdue,
        };
        ViewMode::FilterByDueDate(bucket)
    }
}

impl WorkspaceManager {
    /// The rows that a view shows at `now`. A search goes through the
    /// stores of all workspaces, every other view through the current one.
    pub fn get_visible_todos_at(&self, view_mode: &ViewMode, now: Timestamp) -> (rows: Vec<
        (&Todo, u32),
    >)
        ensures
            row_views(rows@) == self@.visible(view_mode@, now),
    {
        let list = match self.get_current_todo_list() {
            Some(list) => list,
            None => {
                let rows: Vec<(&Todo, u32)> = Vec::new();
                assert(row_views(rows@) =~= Seq::empty());
                return rows;
            },
        };
        match view_mode {
            ViewMode::All => {
                let rows = list.get_flattened_todos();
                proof {
                    crate::outline::lemma_filter_everything(list@.outline());
                }
                rows
            },
            ViewMode::Pending => list.get_flattened_pending_todos(),
            ViewMode::Completed => list.get_flattened_completed_todos(),
            ViewMode::Search(query) => {
                let found = self.search_all_workspaces(query.as_str());
                let ghost results = result_views(found@);
                let mut rows: Vec<(&Todo, u32)> = Vec::new();
                let mut i: usize = 0;
                proof {
                    assert(results.take(0) =~= Seq::empty());
                    assert(row_views(rows@) =~= all_rows(results.take(0)));
                }
                while i < found.len()
                    invariant
                        i <= found.len(),
                        results == result_views(found@),
                        row_views(rows@) == all_rows(results.take(i as int)),
                    decreases found.len() - i,
                {
                    proof {
                        assert(results.take(i + 1).drop_last() =~= results.take(i as int));
                        assert(results.take(i + 1).last().1 == row_views(found@[i as int].1@));
                    }
                    let part = &found[i].1;
                    let ghost before = row_views(rows@);
                    let mut k: usize = 0;
                    while k < part.len()
                        invariant
                            k <= part.len(),
                            row_views(rows@) == before + row_views(part@).take(k as int),
                        decreases part.len() - k,
                    {
                        let ghost so_far = row_views(rows@);
                        rows.push(part[k]);
                        assert(row_views(rows@) =~= so_far.push((part@[k as int].0@, part@[k as int].1)));
                        assert(row_views(part@).take(k + 1) =~= row_views(part@).take(k as int).push(
                            (part@[k as int].0@, part@[k as int].1),
                        ));
                        k += 1;
                    }
                    assert(row_views(part@).take(part@.len() as int) =~= row_views(part@));
                    i += 1;
                }
                assert(results.take(found@.len() as int) =~= results);
                rows
            },
            ViewMode::FilterByTag(tag) => list.filter_by_tag(tag.as_str()),
            ViewMode::FilterByContext(context) => list.filter_by_context(context.as_str()),
            ViewMode::FilterByDueDate(bucket) => list.filter_by_due_date_at(*bucket, now),
        }
    }

    /// The id of the task in row `selected` of what a view shows at `now`.
    pub fn get_selected_todo_id_at(&self, view_mode: &ViewMode, selected: usize, now: Timestamp) -> (id:
        Option<u32>)
        ensures
            id == if selected < self@.visible(view_mode@, now).len() {
                Some(self@.visible(view_mode@, now)[selected as int].0.id)
            } else {
                None
            },
    {
        let rows = self.get_visible_todos_at(view_mode, now);
        if selected < rows.len() {
            assert(row_views(rows@)[selected as int].0 == rows@[selected as int].0@);
            Some(rows[selected].0.id)
        } else {
            None
        }
    }

    /// The ids of the tasks in the rows from `from` to `to`, both
    /// included and in either order, of what a view shows at `now`.
    pub fn get_todo_ids_in_range_at(
        &self,
        view_mode: &ViewMode,
        from: usize,
        to: usize,
        now: Timestamp,
    ) -> (ids: Vec<u32>)
        ensures
            ids@ == ids_between(self@.visible(view_mode@, now), from as int, to as int),
    {
        let rows = self.get_visible_todos_at(view_mode, now);
        let (low, high) = if from <= to {
            (from, to)
        } else {
            (to, from)
        };
        let mut ids: Vec<u32> = Vec::new();
        let ghost shown = row_views(rows@);
        if low >= rows.len() {
            assert(ids@ =~= ids_between(shown, from as int, to as int));
            return ids;
        }
        let mut i: usize = low;
        while i < rows.len() && i <= high
            invariant
                low <= i,
                shown == row_views(rows@),
                i <= rows.len(),
                i <= high + 1,
                ids@ == Seq::new((i - low) as nat, |k: int| shown[low + k].0.id),
            decreases rows.len() - i,
        {
            let ghost before = ids@;
            ids.push(rows[i].0.id);
            proof {
                assert(shown[i as int].0 == rows@[i as int].0@);
                assert(ids@ =~= Seq::new((i + 1 - low) as nat, |k: int| shown[low + k].0.id));
            }
            i += 1;
        }
        proof {
            assert(ids@ =~= ids_between(shown, from as int, to as int));
        }
        ids
    }

    /// The rows that a view shows at the present moment.
    pub fn get_visible_todos(&self, view_mode: &ViewMode) -> (rows: Vec<(&Todo, u32)>)
        ensures
            exists|now: Timestamp| row_views(rows@) == self@.visible(view_mode@, now),
    {
        let now = Timestamp::now();
        self.get_visible_todos_at(view_mode, now)
    }
}

} // verus!
