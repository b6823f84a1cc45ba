//! The outline of a store: its tasks laid out depth first, each with its
//! depth, and the filtered views of that outline.
//!
//! Roots come in listing order; under each task, if its children are shown,
//! come its children in listing order, each with its own subtree. The
//! outline is computed anew on every call. A child is walked only if its id
//! is above its parent's, which holds of every child that the store made:
//! so the walk ends on any store, whatever its links.

use crate::order::{rank, ranked};
use crate::store::{contains_id, position, views, TodoList, TodoListView};
use crate::text::{contains, is_infix, lowercase_of, texts, to_lowercase};
use crate::time::Timestamp;
use crate::todo::{Todo, TodoStatus, TodoView};
use vstd::prelude::*;

verus! {

/// The buckets of due dates by which the outline can be filtered.
#[derive(Debug, Clone, Copy, PartialEq, Eq, Structural)]
pub enum DueDateFilter {
    /// Due before now, and not completed.
    Overdue,
    /// Due on the day of now.
    Today,
    /// Due on the day after the day of now.
    Tomorrow,
    /// Due from now to seven days from now.
    ThisWeek,
    /// Without a due date.
    NoDueDate,
}

/// What a filtered view keeps of the outline.
pub enum Filter {
    /// Every task.
    Everything,
    /// Tasks that are not completed.
    Pending,
    /// Completed tasks.
    Completed,
    /// Tasks that carry this tag.
    Tag(String),
    /// Tasks that carry this context.
    Context(String),
    /// Tasks whose due date falls into a bucket, seen from a moment.
    Due(DueDateFilter, Timestamp),
    /// Tasks whose lower-cased description, or one of whose tags or
    /// contexts, holds this text.
    Matching(String),
    /// Tasks with an open session.
    Running,
    /// Tasks that are not completed and are due on the day of a moment.
    OpenToday(Timestamp),
}

/// The mathematical content of a [`Filter`].
pub enum FilterView {
    Everything,
    Pending,
    Completed,
    Tag(Seq<char>),
    Context(Seq<char>),
    Due(DueDateFilter, Timestamp),
    Matching(Seq<char>),
    Running,
    OpenToday(Timestamp),
}

impl View for Filter {
    type V = FilterView;

    open spec fn view(&self) -> FilterView {
        match self {
            Filter::Everything => FilterView::Everything,
            Filter::Pending => FilterView::Pending,
            Filter::Completed => FilterView::Completed,
            Filter::Tag(tag) => FilterView::Tag(tag@),
            Filter::Context(context) => FilterView::Context(context@),
            Filter::Due(bucket, now) => FilterView::Due(*bucket, *now),
            Filter::Matching(text) => FilterView::Matching(text@),
            Filter::Running => FilterView::Running,
            Filter::OpenToday(now) => FilterView::OpenToday(*now),
        }
    }
}

/// Whether a due date falls into a bucket for a task of the given status,
/// seen from `now`.
pub open spec fn in_bucket(
    bucket: DueDateFilter,
    due: Option<Timestamp>,
    status: TodoStatus,
    now: Timestamp,
) -> bool {
    match due {
        Some(d) => match bucket {
            DueDateFilter::Overdue => d.before(now) && status != TodoStatus::Completed,
            DueDateFilter::Today => d.epoch_day() == now.epoch_day(),
            DueDateFilter::Tomorrow => d.epoch_day() == now.epoch_day() + 1,
            DueDateFilter::ThisWeek => now.at_most(d) && match now.plus_days_spec(7) {
                Some(week) => d.at_most(week),
                None => true,
            },
            DueDateFilter::NoDueDate => false,
        },
        None => bucket == DueDateFilter::NoDueDate,
    }
}

/// Whether some word of `words` holds `text`.
pub open spec fn some_holds(words: Seq<Seq<char>>, text: Seq<char>) -> bool {
    exists|i: int| 0 <= i < words.len() && is_infix(text, #[trigger] words[i])
}

impl FilterView {
    /// Whether the filter keeps the task.
    pub open spec fn accepts(self, todo: TodoView) -> bool {
        match self {
            FilterView::Everything => true,
            FilterView::Pending => todo.status != TodoStatus::Completed,
            FilterView::Completed => todo.status == TodoStatus::Completed,
            FilterView::Tag(tag) => todo.tags.contains(tag),
            FilterView::Context(context) => todo.contexts.contains(context),
            FilterView::Due(bucket, now) => in_bucket(bucket, todo.due_date, todo.status, now),
            FilterView::Matching(text) => is_infix(text, lowercase_of(todo.description))
                || some_holds(todo.tags, text) || some_holds(todo.contexts, text),
            FilterView::Running => todo.time_tracker.current_session.is_some(),
            FilterView::OpenToday(now) => todo.status != TodoStatus::Completed && in_bucket(
                DueDateFilter::Today,
                todo.due_date,
                todo.status,
                now,
            ),
        }
    }

    /// The filter as a test on rows of the outline.
    pub open spec fn on_rows(self) -> spec_fn((TodoView, u32)) -> bool {
        |row: (TodoView, u32)| self.accepts(row.0)
    }

    /// The filter as a test on tasks.
    pub open spec fn on_tasks(self) -> spec_fn(TodoView) -> bool {
        |todo: TodoView| self.accepts(todo)
    }
}

/// The places of the tasks without a parent, in store order.
pub open spec fn root_places(todos: Seq<TodoView>) -> Seq<usize>
    decreases todos.len(),
{
    if todos.len() == 0 {
        Seq::empty()
    } else {
        let before = root_places(todos.drop_last());
        if todos.last().parent_id.is_none() {
            before.push((todos.len() - 1) as usize)
        } else {
            before
        }
    }
}

/// The places of those of the ids `kids` that are in the store, in the
/// order of `kids`.
pub open spec fn child_places(todos: Seq<TodoView>, kids: Seq<u32>) -> Seq<usize>
    decreases kids.len(),
{
    if kids.len() == 0 {
        Seq::empty()
    } else {
        let before = child_places(todos, kids.drop_last());
        if contains_id(todos, kids.last()) {
            before.push(position(todos, kids.last()) as usize)
        } else {
            before
        }
    }
}

/// The rows of the task at place `at` and of what is laid out under it:
/// the task at `depth`, then, if its children are shown or `all` asks for
/// every task, the subtrees of its children in listing order, one deeper.
pub open spec fn subtree(todos: Seq<TodoView>, at: usize, depth: u32, all: bool) -> Seq<
    (usize, u32),
>
    decreases 2 * (u32::MAX - todos[at as int].id) + 1, 0nat,
{
    if at < todos.len() && (all || todos[at as int].expanded) {
        seq![(at, depth)] + forest(
            todos,
            ranked(todos, child_places(todos, todos[at as int].children)),
            todos[at as int].id as int,
            (depth + 1) as u32,
            all,
        )
    } else {
        seq![(at, depth)]
    }
}

/// The rows of the subtrees of the places `items`, one after another, all
/// at `depth`. A place whose task has an id not above `floor` is left out.
pub open spec fn forest(
    todos: Seq<TodoView>,
    items: Seq<usize>,
    floor: int,
    depth: u32,
    all: bool,
) -> Seq<(usize, u32)>
    decreases 2 * (u32::MAX - floor), items.len(),
{
    if items.len() == 0 {
        Seq::empty()
    } else {
        let last = items.last();
        let before = forest(todos, items.drop_last(), floor, depth, all);
        if last < todos.len() && todos[last as int].id > floor {
            before + subtree(todos, last, depth, all)
        } else {
            before
        }
    }
}

/// The rows of the whole store: the subtrees of its roots in listing order.
pub open spec fn outline_places(todos: Seq<TodoView>, all: bool) -> Seq<(usize, u32)> {
    forest(todos, ranked(todos, root_places(todos)), -1, 0, all)
}

/// The tasks at places, each with the depth that goes with its place.
pub open spec fn rows_at(todos: Seq<TodoView>, places: Seq<(usize, u32)>) -> Seq<(TodoView, u32)> {
    Seq::new(places.len(), |k: int| (todos[places[k].0 as int], places[k].1))
}

/// The tasks at places.
pub open spec fn tasks_at(todos: Seq<TodoView>, places: Seq<usize>) -> Seq<TodoView> {
    Seq::new(places.len(), |k: int| todos[places[k] as int])
}

/// The views of rows that refer to tasks.
pub open spec fn row_views(rows: Seq<(&Todo, u32)>) -> Seq<(TodoView, u32)> {
    Seq::new(rows.len(), |k: int| (rows[k].0@, rows[k].1))
}

/// The views of references to tasks.
pub open spec fn ref_views(todos: Seq<&Todo>) -> Seq<TodoView> {
    Seq::new(todos.len(), |k: int| todos[k]@)
}

impl TodoListView {
    /// The outline: every root with the subtree that is shown under it.
    pub open spec fn outline(self) -> Seq<(TodoView, u32)> {
        rows_at(self.todos, outline_places(self.todos, false))
    }

    /// The outline with every subtree laid out, shown or hidden.
    pub open spec fn full_outline(self) -> Seq<(TodoView, u32)> {
        rows_at(self.todos, outline_places(self.todos, true))
    }

    /// All tasks in listing order.
    pub open spec fn listing(self) -> Seq<TodoView> {
        tasks_at(self.todos, ranked(self.todos, Seq::new(self.todos.len(), |i: int| i as usize)))
    }

    /// The roots in listing order.
    pub open spec fn roots(self) -> Seq<TodoView> {
        tasks_at(self.todos, ranked(self.todos, root_places(self.todos)))
    }

    /// How many tasks a filter keeps.
    pub open spec fn count(self, filter: FilterView) -> nat {
        self.todos.filter(filter.on_tasks()).len()
    }

    /// How many parents lie above the task `id`: 0 for a task that is not
    /// there or names no parent, else one more than for its parent. A named
    /// parent counts even if it is not there; the count stops at a parent
    /// whose id is not below the task's own.
    pub open spec fn depth_of(self, id: u32) -> nat
        decreases id,
    {
        if self.contains_id(id) {
            match self.task(id).parent_id {
                Some(parent) => if parent < id {
                    1 + self.depth_of(parent)
                } else {
                    1
                },
                None => 0,
            }
        } else {
            0
        }
    }

    /// The children of the task `id` that are in the store, in listing
    /// order; none where the task is not there.
    pub open spec fn children_of(self, id: u32) -> Seq<TodoView> {
        if self.contains_id(id) {
            tasks_at(self.todos, ranked(self.todos, child_places(self.todos, self.task(id).children)))
        } else {
            Seq::empty()
        }
    }
}

/// Whether every place of `places` lies in a store of `len` tasks.
pub open spec fn places_within(places: Seq<usize>, len: nat) -> bool {
    forall|k: int| 0 <= k < places.len() ==> #[trigger] places[k] < len
}

/// Whether every row of `rows` lies in a store of `len` tasks.
pub open spec fn rows_within(rows: Seq<(usize, u32)>, len: nat) -> bool {
    forall|k: int| 0 <= k < rows.len() ==> (#[trigger] rows[k]).0 < len
}

impl Filter {
    /// Whether the filter keeps the task.
    pub fn admits(&self, todo: &Todo) -> (keeps: bool)
        ensures
            keeps == self@.accepts(todo@),
    {
        match self {
            Filter::Everything => true,
            Filter::Pending => !todo.is_completed(),
            Filter::Completed => todo.is_completed(),
            Filter::Tag(tag) => crate::text::contains_text(&todo.tags, tag),
            Filter::Context(context) => crate::text::contains_text(&todo.contexts, context),
            Filter::Due(bucket, now) => falls_into(*bucket, &todo.due_date, todo.status, now),
            Filter::Matching(text) => {
                let lower = to_lowercase(todo.description.as_str());
                contains(lower.as_str(), text.as_str()) || any_holds(&todo.tags, text)
                    || any_holds(&todo.contexts, text)
            },
            Filter::Running => todo.is_timer_running(),
            Filter::OpenToday(now) => !todo.is_completed() && falls_into(
                DueDateFilter::Today,
                &todo.due_date,
                todo.status,
                now,
            ),
        }
    }
}

/// Whether a due date falls into a bucket for a task of the given status,
/// seen from `now`.
pub fn falls_into(
    bucket: DueDateFilter,
    due: &Option<Timestamp>,
    status: TodoStatus,
    now: &Timestamp,
) -> (inside: bool)
    ensures
        inside == in_bucket(bucket, *due, status, *now),
{
    match due {
        Some(d) => match bucket {
            DueDateFilter::Overdue => d.is_before(now) && status != TodoStatus::Completed,
            DueDateFilter::Today => d.day() == now.day(),
            DueDateFilter::Tomorrow => d.day() == now.day() + 1,
            DueDateFilter::ThisWeek => now.is_at_most(d) && match now.plus_days(7) {
                Some(week) => d.is_at_most(&week),
                None => true,
            },
            DueDateFilter::NoDueDate => false,
        },
        None => bucket == DueDateFilter::NoDueDate,
    }
}

/// Whether some word of `words` holds `text`.
pub fn any_holds(words: &Vec<String>, text: &String) -> (found: bool)
    ensures
        found == some_holds(texts(words@), text@),
{
    let mut i: usize = 0;
    while i < words.len()
        invariant
            i <= words.len(),
            forall|j: int| 0 <= j < i ==> !is_infix(text@, #[trigger] texts(words@)[j]),
        decreases words.len() - i,
    {
        if contains(words[i].as_str(), text.as_str()) {
            assert(is_infix(text@, texts(words@)[i as int]));
            return true;
        }
        i += 1;
    }
    false
}

impl TodoList {
    /// The places of the roots, in store order.
    fn root_places(&self) -> (places: Vec<usize>)
        ensures
            places@ == root_places(self@.todos),
            places_within(places@, self.todos@.len()),
    {
        let mut places: Vec<usize> = Vec::new();
        let mut i: usize = 0;
        let ghost tv = self@.todos;
        assert(tv.take(0) =~= Seq::empty());
        while i < self.todos.len()
            invariant
                i <= self.todos.len(),
                tv == self@.todos,
                places@ == root_places(tv.take(i as int)),
                places_within(places@, self.todos@.len()),
            decreases self.todos.len() - i,
        {
            proof {
                assert(tv.take(i + 1).drop_last() =~= tv.take(i as int));
                assert(tv.take(i + 1).last() == self.todos@[i as int]@);
            }
            if self.todos[i].parent_id.is_none() {
                places.push(i);
            }
            i += 1;
        }
        assert(tv.take(self.todos@.len() as int) =~= tv);
        places
    }

    /// The places of those of the ids `kids` that are in the store.
    fn child_places(&self, kids: &Vec<u32>) -> (places: Vec<usize>)
        ensures
            places@ == child_places(self@.todos, kids@),
            places_within(places@, self.todos@.len()),
    {
        let mut places: Vec<usize> = Vec::new();
        let mut i: usize = 0;
        assert(kids@.take(0) =~= Seq::empty());
        while i < kids.len()
            invariant
                i <= kids.len(),
                places@ == child_places(self@.todos, kids@.take(i as int)),
                places_within(places@, self.todos@.len()),
            decreases kids.len() - i,
        {
            proof {
                assert(kids@.take(i + 1).drop_last() =~= kids@.take(i as int));
                assert(kids@.take(i + 1).last() == kids@[i as int]);
            }
            match self.find(kids[i]) {
                Some(at) => {
                    places.push(at);
                },
                None => {},
            }
            i += 1;
        }
        assert(kids@.take(kids@.len() as int) =~= kids@);
        places
    }

    /// Appends to `rows` the rows of the task at `at` and of what is laid
    /// out under it.
    fn walk(&self, at: usize, depth: u32, all: bool, rows: &mut Vec<(usize, u32)>)
        requires
            at < self.todos@.len(),
            depth <= self.todos@[at as int].id,
            rows_within(old(rows)@, self.todos@.len()),
        ensures
            final(rows)@ == old(rows)@ + subtree(self@.todos, at, depth, all),
            rows_within(final(rows)@, self.todos@.len()),
        decreases 2 * (u32::MAX - self.todos@[at as int].id) + 1,
    {
        let ghost tv = self@.todos;
        let ghost start = rows@;
        rows.push((at, depth));
        if all || self.todos[at].expanded {
            let id = self.todos[at].id;
            let kids = self.child_places(&self.todos[at].children);
            let sorted = rank(&self.todos, &kids);
            let mut i: usize = 0;
            assert(sorted@.take(0) =~= Seq::empty());
            assert(rows@ =~= start + (seq![(at, depth)] + forest(
                tv,
                sorted@.take(0),
                id as int,
                (depth + 1) as u32,
                all,
            )));
            while i < sorted.len()
                invariant
                    i <= sorted.len(),
                    tv == self@.todos,
                    at < self.todos@.len(),
                    id == self.todos@[at as int].id,
                    depth <= id,
                    places_within(sorted@, self.todos@.len()),
                    rows_within(rows@, self.todos@.len()),
                    rows@ == start + (seq![(at, depth)] + forest(
                        tv,
                        sorted@.take(i as int),
                        id as int,
                        (depth + 1) as u32,
                        all,
                    )),
                decreases sorted.len() - i,
            {
                let x = sorted[i];
                proof {
                    assert(sorted@.take(i + 1).drop_last() =~= sorted@.take(i as int));
                    assert(sorted@.take(i + 1).last() == x);
                    assert(tv[x as int].id == self.todos@[x as int].id);
                }
                let ghost before = rows@;
                if self.todos[x].id > id {
                    self.walk(x, depth + 1, all, rows);
                    assert(rows@ =~= start + (seq![(at, depth)] + (forest(
                        tv,
                        sorted@.take(i as int),
                        id as int,
                        (depth + 1) as u32,
                        all,
                    ) + subtree(tv, x, (depth + 1) as u32, all))));
                }
                i += 1;
            }
            assert(sorted@.take(sorted@.len() as int) =~= sorted@);
        } else {
            assert(rows@ =~= start + seq![(at, depth)]);
        }
    }

    /// The rows of the whole store.
    fn outline_places(&self, all: bool) -> (rows: Vec<(usize, u32)>)
        ensures
            rows@ == outline_places(self@.todos, all),
            rows_within(rows@, self.todos@.len()),
    {
        let roots = self.root_places();
        let sorted = rank(&self.todos, &roots);
        let mut rows: Vec<(usize, u32)> = Vec::new();
        let ghost tv = self@.todos;
        let mut i: usize = 0;
        assert(sorted@.take(0) =~= Seq::empty());
        while i < sorted.len()
            invariant
                i <= sorted.len(),
                tv == self@.todos,
                places_within(sorted@, self.todos@.len()),
                rows_within(rows@, self.todos@.len()),
                rows@ == forest(tv, sorted@.take(i as int), -1, 0, all),
            decreases sorted.len() - i,
        {
            let x = sorted[i];
            proof {
                assert(sorted@.take(i + 1).drop_last() =~= sorted@.take(i as int));
                assert(sorted@.take(i + 1).last() == x);
            }
            self.walk(x, 0, all, &mut rows);
            i += 1;
        }
        assert(sorted@.take(sorted@.len() as int) =~= sorted@);
        rows
    }

    /// Of the rows at `places`, those whose task the filter keeps, each
    /// with a reference to its task.
    fn select<'a>(&'a self, places: &Vec<(usize, u32)>, filter: &Filter) -> (rows: Vec<
        (&'a Todo, u32),
    >)
        requires
            rows_within(places@, self.todos@.len()),
        ensures
            row_views(rows@) == rows_at(self@.todos, places@).filter(filter@.on_rows()),
    {
        let mut rows: Vec<(&'a Todo, u32)> = Vec::new();
        let ghost all = rows_at(self@.todos, places@);
        let ghost keep = filter@.on_rows();
        let mut i: usize = 0;
        proof {
            reveal(Seq::filter);
            assert(all.take(0) =~= Seq::empty());
            assert(row_views(rows@) =~= all.take(0).filter(keep));
        }
        while i < places.len()
            invariant
                i <= places.len(),
                all == rows_at(self@.todos, places@),
                keep == filter@.on_rows(),
                rows_within(places@, self.todos@.len()),
                row_views(rows@) == all.take(i as int).filter(keep),
            decreases places.len() - i,
        {
            let (at, depth) = places[i];
            let todo = &self.todos[at];
            proof {
                reveal(Seq::filter);
                assert(all.take(i + 1).drop_last() =~= all.take(i as int));
                assert(all.take(i + 1).last() == (todo@, depth));
            }
            if filter.admits(todo) {
                let ghost before = row_views(rows@);
                rows.push((todo, depth));
                assert(row_views(rows@) =~= before.push((todo@, depth)));
            }
            i += 1;
        }
        assert(all.take(places@.len() as int) =~= all);
        rows
    }

    /// The outline: roots in listing order, and under each task whose
    /// children are shown its children in listing order, each row with its
    /// depth, a root having depth 0.
    pub fn get_flattened_todos(&self) -> (rows: Vec<(&Todo, u32)>)
        ensures
            row_views(rows@) == self@.outline(),
    {
        let places = self.outline_places(false);
        let rows = self.select(&places, &Filter::Everything);
        proof {
            lemma_filter_everything(self@.outline());
        }
        rows
    }

    /// The rows of the outline whose task is not completed.
    pub fn get_flattened_pending_todos(&self) -> (rows: Vec<(&Todo, u32)>)
        ensures
            row_views(rows@) == self@.outline().filter(FilterView::Pending.on_rows()),
    {
        let places = self.outline_places(false);
        self.select(&places, &Filter::Pending)
    }

    /// The rows of the outline whose task is completed.
    pub fn get_flattened_completed_todos(&self) -> (rows: Vec<(&Todo, u32)>)
        ensures
            row_views(rows@) == self@.outline().filter(FilterView::Completed.on_rows()),
    {
        let places = self.outline_places(false);
        self.select(&places, &Filter::Completed)
    }

    /// The rows of the outline whose task carries the tag, compared in
    /// lower case.
    pub fn filter_by_tag(&self, tag: &str) -> (rows: Vec<(&Todo, u32)>)
        ensures
            row_views(rows@) == self@.outline().filter(
                FilterView::Tag(lowercase_of(tag@)).on_rows(),
            ),
    {
        let places = self.outline_places(false);
        self.select(&places, &Filter::Tag(to_lowercase(tag)))
    }

    /// The rows of the outline whose task carries the context, compared in
    /// lower case.
    pub fn filter_by_context(&self, context: &str) -> (rows: Vec<(&Todo, u32)>)
        ensures
            row_views(rows@) == self@.outline().filter(
                FilterView::Context(lowercase_of(context@)).on_rows(),
            ),
    {
        let places = self.outline_places(false);
        self.select(&places, &Filter::Context(to_lowercase(context)))
    }

    /// The rows of the outline whose due date falls into the bucket, seen
    /// from `now`.
    pub fn filter_by_due_date_at(&self, filter_type: DueDateFilter, now: Timestamp) -> (rows: Vec<
        (&Todo, u32),
    >)
        ensures
            row_views(rows@) == self@.outline().filter(FilterView::Due(filter_type, now).on_rows()),
    {
        let places = self.outline_places(false);
        self.select(&places, &Filter::Due(filter_type, now))
    }

    /// The rows of the outline whose due date falls into the bucket, seen
    /// from the present moment.
    pub fn filter_by_due_date(&self, filter_type: DueDateFilter) -> (rows: Vec<(&Todo, u32)>)
        ensures
            exists|now: Timestamp|
                row_views(rows@) == self@.outline().filter(
                    #[trigger] FilterView::Due(filter_type, now).on_rows(),
                ),
    {
        let now = Timestamp::now();
        self.filter_by_due_date_at(filter_type, now)
    }

    /// The rows of the full outline, hidden subtrees included, whose task
    /// matches the query: the lower-cased query occurs in the lower-cased
    /// description, or in a tag or a context.
    pub fn search_todos(&self, query: &str) -> (rows: Vec<(&Todo, u32)>)
        ensures
            row_views(rows@) == self@.full_outline().filter(
                FilterView::Matching(lowercase_of(query@)).on_rows(),
            ),
    {
        let places = self.outline_places(true);
        self.select(&places, &Filter::Matching(to_lowercase(query)))
    }
}

impl TodoList {
    /// Every place of the store, in store order.
    fn every_place(&self) -> (places: Vec<usize>)
        ensures
            places@ == Seq::new(self.todos@.len(), |i: int| i as usize),
            places_within(places@, self.todos@.len()),
    {
        let mut places: Vec<usize> = Vec::new();
        let mut i: usize = 0;
        while i < self.todos.len()
            invariant
                i <= self.todos.len(),
                places@ == Seq::new(i as nat, |k: int| k as usize),
            decreases self.todos.len() - i,
        {
            places.push(i);
            assert(places@ =~= Seq::new((i + 1) as nat, |k: int| k as usize));
            i += 1;
        }
        places
    }

    /// Of the tasks at `places`, those that the filter keeps.
    fn pick<'a>(&'a self, places: &Vec<usize>, filter: &Filter) -> (found: Vec<&'a Todo>)
        requires
            places_within(places@, self.todos@.len()),
        ensures
            ref_views(found@) == tasks_at(self@.todos, places@).filter(filter@.on_tasks()),
    {
        let mut found: Vec<&'a Todo> = Vec::new();
        let ghost all = tasks_at(self@.todos, places@);
        let ghost keep = filter@.on_tasks();
        let mut i: usize = 0;
        proof {
            reveal(Seq::filter);
            assert(all.take(0) =~= Seq::empty());
            assert(ref_views(found@) =~= all.take(0).filter(keep));
        }
        while i < places.len()
            invariant
                i <= places.len(),
                all == tasks_at(self@.todos, places@),
                keep == filter@.on_tasks(),
                places_within(places@, self.todos@.len()),
                ref_views(found@) == all.take(i as int).filter(keep),
            decreases places.len() - i,
        {
            let todo = &self.todos[places[i]];
            proof {
                reveal(Seq::filter);
                assert(all.take(i + 1).drop_last() =~= all.take(i as int));
                assert(all.take(i + 1).last() == todo@);
            }
            if filter.admits(todo) {
                let ghost before = ref_views(found@);
                found.push(todo);
                assert(ref_views(found@) =~= before.push(todo@));
            }
            i += 1;
        }
        assert(all.take(places@.len() as int) =~= all);
        found
    }

    /// How many tasks the filter keeps.
    pub fn count(&self, filter: &Filter) -> (count: usize)
        ensures
            count == self@.count(filter@),
    {
        let ghost keep = filter@.on_tasks();
        let ghost tv = self@.todos;
        let mut count: usize = 0;
        let mut i: usize = 0;
        proof {
            reveal(Seq::filter);
            assert(tv.take(0) =~= Seq::empty());
        }
        while i < self.todos.len()
            invariant
                i <= self.todos.len(),
                tv == self@.todos,
                keep == filter@.on_tasks(),
                count == tv.take(i as int).filter(keep).len(),
                count <= i,
            decreases self.todos.len() - i,
        {
            proof {
                reveal(Seq::filter);
                assert(tv.take(i + 1).drop_last() =~= tv.take(i as int));
                assert(tv.take(i + 1).last() == self.todos@[i as int]@);
            }
            if filter.admits(&self.todos[i]) {
                count += 1;
            }
            i += 1;
        }
        assert(tv.take(self.todos@.len() as int) =~= tv);
        count
    }

    /// All tasks in listing order: by falling priority, then by creation
    /// time, then as the store holds them.
    pub fn get_all_todos(&self) -> (found: Vec<&Todo>)
        ensures
            ref_views(found@) == self@.listing(),
    {
        let places = self.every_place();
        let sorted = rank(&self.todos, &places);
        let found = self.pick(&sorted, &Filter::Everything);
        proof {
            lemma_pick_everything(self@.listing());
        }
        found
    }

    /// The tasks that are not completed, in listing order.
    pub fn get_pending_todos(&self) -> (found: Vec<&Todo>)
        ensures
            ref_views(found@) == self@.listing().filter(FilterView::Pending.on_tasks()),
    {
        let places = self.every_place();
        let sorted = rank(&self.todos, &places);
        self.pick(&sorted, &Filter::Pending)
    }

    /// The completed tasks, in listing order.
    pub fn get_completed_todos(&self) -> (found: Vec<&Todo>)
        ensures
            ref_views(found@) == self@.listing().filter(FilterView::Completed.on_tasks()),
    {
        let places = self.every_place();
        let sorted = rank(&self.todos, &places);
        self.pick(&sorted, &Filter::Completed)
    }

    /// The tasks without a parent, in listing order.
    pub fn get_root_todos(&self) -> (found: Vec<&Todo>)
        ensures
            ref_views(found@) == self@.roots(),
    {
        let places = self.root_places();
        let sorted = rank(&self.todos, &places);
        let found = self.pick(&sorted, &Filter::Everything);
        proof {
            lemma_pick_everything(self@.roots());
        }
        found
    }

    /// The children of the task `parent_id` that are in the store, in
    /// listing order. A task that is not there has none.
    pub fn get_children(&self, parent_id: u32) -> (found: Vec<&Todo>)
        ensures
            ref_views(found@) == self@.children_of(parent_id),
    {
        match self.find(parent_id) {
            Some(at) => {
                let places = self.child_places(&self.todos[at].children);
                let sorted = rank(&self.todos, &places);
                let found = self.pick(&sorted, &Filter::Everything);
                proof {
                    lemma_pick_everything(self@.children_of(parent_id));
                }
                found
            },
            None => {
                let found: Vec<&Todo> = Vec::new();
                assert(ref_views(found@) =~= Seq::empty());
                found
            },
        }
    }

    /// The tasks with an open session, in store order.
    pub fn get_active_timers(&self) -> (found: Vec<&Todo>)
        ensures
            ref_views(found@) == self@.todos.filter(FilterView::Running.on_tasks()),
    {
        let places = self.every_place();
        let n = self.todos.len();
        proof {
            let shown = tasks_at(self@.todos, places@);
            assert(shown.len() == self@.todos.len());
            assert forall|k: int| 0 <= k < shown.len() implies shown[k] == self@.todos[k] by {
                assert(places@[k] == k as usize);
                assert(k < n);
            }
            assert(shown =~= self@.todos);
        }
        self.pick(&places, &Filter::Running)
    }

    /// How many tasks are not completed.
    pub fn pending_count(&self) -> (count: usize)
        ensures
            count == self@.count(FilterView::Pending),
    {
        self.count(&Filter::Pending)
    }

    /// How many tasks are completed.
    pub fn completed_count(&self) -> (count: usize)
        ensures
            count == self@.count(FilterView::Completed),
    {
        self.count(&Filter::Completed)
    }

    /// How many tasks are overdue at `now`: due before it, not completed.
    pub fn get_overdue_count_at(&self, now: Timestamp) -> (count: usize)
        ensures
            count == self@.count(FilterView::Due(DueDateFilter::Overdue, now)),
    {
        self.count(&Filter::Due(DueDateFilter::Overdue, now))
    }

    /// How many tasks are overdue at the present moment.
    pub fn get_overdue_count(&self) -> (count: usize)
        ensures
            exists|now: Timestamp|
                count == #[trigger] self@.count(FilterView::Due(DueDateFilter::Overdue, now)),
    {
        let now = Timestamp::now();
        self.get_overdue_count_at(now)
    }

    /// How many tasks are due on the day of `now` and not completed.
    pub fn get_due_today_count_at(&self, now: Timestamp) -> (count: usize)
        ensures
            count == self@.count(FilterView::OpenToday(now)),
    {
        self.count(&Filter::OpenToday(now))
    }

    /// How many tasks are due today and not completed.
    pub fn get_due_today_count(&self) -> (count: usize)
        ensures
            exists|now: Timestamp| count == #[trigger] self@.count(FilterView::OpenToday(now)),
    {
        let now = Timestamp::now();
        self.get_due_today_count_at(now)
    }

    /// How many parents lie above the task `id`, found by following the
    /// parent ids upwards; `u32::MAX` where there are more.
    pub fn get_depth(&self, id: u32) -> (depth: u32)
        ensures
            depth == if self@.depth_of(id) <= u32::MAX {
                self@.depth_of(id)
            } else {
                u32::MAX as nat
            },
    {
        let mut depth: u32 = 0;
        let mut current: u32 = id;
        loop
            invariant
                depth + current <= id,
                depth + self@.depth_of(current) == self@.depth_of(id),
            decreases current,
        {
            match self.get_todo(current) {
                Some(todo) => match todo.parent_id {
                    Some(parent) => {
                        if parent < current {
                            depth += 1;
                            current = parent;
                        } else {
                            return depth.saturating_add(1);
                        }
                    },
                    None => {
                        return depth;
                    },
                },
                None => {
                    return depth;
                },
            }
        }
    }
}

/// A filter that keeps every task keeps every task of a list.
pub proof fn lemma_pick_everything(todos: Seq<TodoView>)
    ensures
        todos.filter(FilterView::Everything.on_tasks()) == todos,
    decreases todos.len(),
{
    reveal(Seq::filter);
    if todos.len() > 0 {
        lemma_pick_everything(todos.drop_last());
        assert(todos.drop_last().push(todos.last()) =~= todos);
    }
}

/// The rows of a subtree start with the row of its root.
pub proof fn lemma_subtree_starts(todos: Seq<TodoView>, at: usize, depth: u32, all: bool)
    ensures
        subtree(todos, at, depth, all).len() > 0,
        subtree(todos, at, depth, all)[0] == (at, depth),
{
}

/// The rows of a forest hold the row of each of its places whose id lies
/// above the floor.
pub proof fn lemma_forest_holds(
    todos: Seq<TodoView>,
    items: Seq<usize>,
    floor: int,
    depth: u32,
    all: bool,
    k: int,
)
    requires
        0 <= k < items.len(),
        items[k] < todos.len(),
        todos[items[k] as int].id > floor,
    ensures
        forest(todos, items, floor, depth, all).contains((items[k], depth)),
    decreases items.len(),
{
    let rows = forest(todos, items, floor, depth, all);
    let before = forest(todos, items.drop_last(), floor, depth, all);
    if k == items.len() - 1 {
        lemma_subtree_starts(todos, items[k], depth, all);
        assert(rows == before + subtree(todos, items.last(), depth, all));
        assert(rows[before.len() as int] == (items[k], depth));
    } else {
        assert(items.drop_last()[k] == items[k]);
        lemma_forest_holds(todos, items.drop_last(), floor, depth, all, k);
        let j = choose|j: int| 0 <= j < before.len() && before[j] == (items[k], depth);
        assert(rows[j] == (items[k], depth));
    }
}

/// The root places hold the place of every task without a parent.
pub proof fn lemma_root_places_hold(todos: Seq<TodoView>, at: int)
    requires
        0 <= at < todos.len(),
        todos[at].parent_id.is_none(),
        todos.len() <= usize::MAX,
    ensures
        root_places(todos).contains(at as usize),
    decreases todos.len(),
{
    let before = root_places(todos.drop_last());
    if at == todos.len() - 1 {
        assert(root_places(todos) == before.push(at as usize));
        assert(root_places(todos)[before.len() as int] == at as usize);
    } else {
        assert(todos.drop_last()[at] == todos[at]);
        lemma_root_places_hold(todos.drop_last(), at);
        let j = choose|j: int| 0 <= j < before.len() && before[j] == at as usize;
        assert(root_places(todos)[j] == at as usize);
    }
}

/// A task that was just added stands in the outline as a root, at depth 0,
/// and has no children.
pub proof fn lemma_added_is_outlined(store: TodoListView, raw: Seq<char>, now: Timestamp)
    requires
        store.todos.len() < usize::MAX,
    ensures
        store.added(raw, now).outline().contains((Todo::created(store.next_id, raw, now), 0u32)),
        Todo::created(store.next_id, raw, now).children.len() == 0,
        Todo::created(store.next_id, raw, now).parent_id.is_none(),
{
    let after = store.added(raw, now);
    let new = Todo::created(store.next_id, raw, now);
    let at = store.todos.len() as int;
    assert(after.todos[at] == new);
    lemma_root_places_hold(after.todos, at);
    let roots = root_places(after.todos);
    crate::order::lemma_ranked(after.todos, roots);
    let sorted = ranked(after.todos, roots);
    assert(sorted.contains(at as usize));
    let k = choose|k: int| 0 <= k < sorted.len() && sorted[k] == at as usize;
    lemma_forest_holds(after.todos, sorted, -1, 0, false, k);
    let places = outline_places(after.todos, false);
    let j = choose|j: int| 0 <= j < places.len() && places[j] == (at as usize, 0u32);
    assert(after.outline()[j] == (new, 0u32));
}

/// A filter that keeps every task keeps every row.
pub proof fn lemma_filter_everything(rows: Seq<(TodoView, u32)>)
    ensures
        rows.filter(FilterView::Everything.on_rows()) == rows,
    decreases rows.len(),
{
    reveal(Seq::filter);
    if rows.len() > 0 {
        lemma_filter_everything(rows.drop_last());
        assert(rows.drop_last().push(rows.last()) =~= rows);
    }
}

} // verus!
