//! The task store of one workspace: tasks addressed by id, held in the
//! order in which they came, with a counter that hands out fresh ids.
//!
//! The parent/child tree is made of ids, never of references: a task names
//! its parent and lists its children, and every walk goes through a lookup.
//! A lookup of an id that is not there finds nothing; no operation fails on
//! a stale id.

use crate::time::Timestamp;
use crate::todo::{Todo, TodoView};
use vstd::prelude::*;

verus! {

/// The tasks of one workspace.
#[derive(Debug)]
pub struct TodoList {
    /// The tasks, no two with the same id.
    pub todos: Vec<Todo>,
    /// The id that the next new task gets: above every id in use.
    pub next_id: u32,
}

/// The mathematical content of a [`TodoList`].
pub struct TodoListView {
    pub todos: Seq<TodoView>,
    pub next_id: u32,
}

/// The views of a sequence of tasks.
pub open spec fn views(todos: Seq<Todo>) -> Seq<TodoView> {
    Seq::new(todos.len(), |i: int| todos[i]@)
}

impl View for TodoList {
    type V = TodoListView;

    open spec fn view(&self) -> TodoListView {
        TodoListView { todos: views(self.todos@), next_id: self.next_id }
    }
}

/// Whether some task of `todos` has the id.
pub open spec fn contains_id(todos: Seq<TodoView>, id: u32) -> bool {
    exists|i: int| 0 <= i < todos.len() && #[trigger] todos[i].id == id
}

/// Whether `at` is the first place in `todos` that holds a task with the id.
pub open spec fn found_at(todos: Seq<TodoView>, id: u32, at: int) -> bool {
    &&& 0 <= at < todos.len()
    &&& todos[at].id == id
    &&& forall|j: int| 0 <= j < at ==> #[trigger] todos[j].id != id
}

/// The first place in `todos` of a task with the id.
pub open spec fn position(todos: Seq<TodoView>, id: u32) -> int {
    choose|at: int| found_at(todos, id, at)
}

/// The task of `todos` with the id.
pub open spec fn task(todos: Seq<TodoView>, id: u32) -> TodoView {
    todos[position(todos, id)]
}

/// No two tasks share an id.
pub open spec fn distinct_ids(todos: Seq<TodoView>) -> bool {
    forall|i: int, j: int|
        0 <= i < j < todos.len() ==> (#[trigger] todos[i]).id != (#[trigger] todos[j]).id
}

/// A place that holds the id is the first such place.
pub proof fn lemma_position(todos: Seq<TodoView>, id: u32, at: int)
    requires
        found_at(todos, id, at),
    ensures
        contains_id(todos, id),
        position(todos, id) == at,
        task(todos, id) == todos[at],
{
    let p = position(todos, id);
    assert(found_at(todos, id, p));
    if p < at {
        assert(todos[p].id != id);
    }
    if at < p {
        assert(todos[at].id != id);
    }
}

/// Where ids are distinct, any place that holds the id is its position.
pub proof fn lemma_position_distinct(todos: Seq<TodoView>, at: int)
    requires
        distinct_ids(todos),
        0 <= at < todos.len(),
    ensures
        found_at(todos, todos[at].id, at),
        contains_id(todos, todos[at].id),
        position(todos, todos[at].id) == at,
{
    assert forall|j: int| 0 <= j < at implies #[trigger] todos[j].id != todos[at].id by {}
    lemma_position(todos, todos[at].id, at);
}

/// A task that is there has a position that holds it.
pub proof fn lemma_has_position(todos: Seq<TodoView>, id: u32)
    requires
        contains_id(todos, id),
    ensures
        found_at(todos, id, position(todos, id)),
    decreases todos.len(),
{
    let i = choose|i: int| 0 <= i < todos.len() && #[trigger] todos[i].id == id;
    lemma_first_exists(todos, id, i);
}

/// Below a place that holds the id lies the first place that holds it.
proof fn lemma_first_exists(todos: Seq<TodoView>, id: u32, upto: int)
    requires
        0 <= upto < todos.len(),
        todos[upto].id == id,
    ensures
        exists|at: int| found_at(todos, id, at),
    decreases upto,
{
    if exists|j: int| 0 <= j < upto && #[trigger] todos[j].id == id {
        let j = choose|j: int| 0 <= j < upto && #[trigger] todos[j].id == id;
        lemma_first_exists(todos, id, j);
    } else {
        assert(found_at(todos, id, upto));
    }
}

impl TodoListView {
    /// Ids are distinct and all below the counter.
    pub open spec fn wf(self) -> bool {
        &&& distinct_ids(self.todos)
        &&& forall|i: int| 0 <= i < self.todos.len() ==> (#[trigger] self.todos[i]).id < self.next_id
    }

    /// Every task has a priority within the range, and a completion time
    /// exactly if it is completed.
    pub open spec fn tidy(self) -> bool {
        forall|i: int| 0 <= i < self.todos.len() ==> (#[trigger] self.todos[i]).well_formed()
    }

    /// Whether a task with the id is there.
    pub open spec fn contains_id(self, id: u32) -> bool {
        contains_id(self.todos, id)
    }

    /// The task with the id.
    pub open spec fn task(self, id: u32) -> TodoView {
        task(self.todos, id)
    }

    /// Every task lists only children that are there, that name it as their
    /// parent, and whose ids are above its own; and lists none twice.
    pub open spec fn linked(self) -> bool {
        forall|i: int|
            #![trigger self.todos[i]]
            0 <= i < self.todos.len() ==> {
                &&& self.todos[i].children.no_duplicates()
                &&& forall|k: int|
                    #![trigger self.todos[i].children[k]]
                    0 <= k < self.todos[i].children.len() ==> {
                        &&& contains_id(self.todos, self.todos[i].children[k])
                        &&& task(self.todos, self.todos[i].children[k]).parent_id == Some(
                            self.todos[i].id,
                        )
                        &&& self.todos[i].children[k] > self.todos[i].id
                    }
            }
    }
}

impl TodoList {
    /// Ids are distinct and all below the counter: what every operation of
    /// the store keeps, and what a store read from elsewhere has to meet.
    pub open spec fn wf(&self) -> bool {
        self@.wf()
    }

    /// An empty store whose first task will get the id 1.
    pub fn new() -> (list: TodoList)
        ensures
            list@.todos == Seq::<TodoView>::empty(),
            list@.next_id == 1,
            list.wf(),
            list@.linked(),
            list@.tidy(),
    {
        let list = TodoList { todos: Vec::new(), next_id: 1 };
        assert(list@.todos =~= Seq::<TodoView>::empty());
        list
    }

    /// Whether the store meets [`TodoList::wf`]: for a store that did not
    /// come out of the operations of this module.
    pub fn is_well_formed(&self) -> (good: bool)
        ensures
            good == self.wf(),
    {
        let n = self.todos.len();
        let mut i: usize = 0;
        while i < n
            invariant
                n == self.todos.len(),
                i <= n,
                forall|a: int, b: int|
                    0 <= a < b < i ==> (#[trigger] self@.todos[a]).id != (
                    #[trigger] self@.todos[b]).id,
                forall|a: int| 0 <= a < i ==> (#[trigger] self@.todos[a]).id < self.next_id,
            decreases n - i,
        {
            if self.todos[i].id >= self.next_id {
                assert(!(self@.todos[i as int].id < self.next_id));
                return false;
            }
            let mut j: usize = 0;
            while j < i
                invariant
                    n == self.todos.len(),
                    j <= i < n,
                    forall|a: int| 0 <= a < j ==> (#[trigger] self@.todos[a]).id != self@.todos[i as int].id,
                decreases i - j,
            {
                if self.todos[j].id == self.todos[i].id {
                    assert(self@.todos[j as int].id == self@.todos[i as int].id);
                    return false;
                }
                j += 1;
            }
            i += 1;
        }
        true
    }

    /// The place of the task with the id.
    pub fn find(&self, id: u32) -> (place: Option<usize>)
        ensures
            match place {
                Some(at) => found_at(self@.todos, id, at as int) && self@.contains_id(id) && position(
                    self@.todos,
                    id,
                ) == at,
                None => !self@.contains_id(id),
            },
    {
        let mut i: usize = 0;
        while i < self.todos.len()
            invariant
                i <= self.todos.len(),
                forall|j: int| 0 <= j < i ==> (#[trigger] self@.todos[j]).id != id,
            decreases self.todos.len() - i,
        {
            if self.todos[i].id == id {
                proof {
                    assert(self@.todos[i as int].id == id);
                    lemma_position(self@.todos, id, i as int);
                }
                return Some(i);
            }
            i += 1;
        }
        None
    }

    /// The task with the id, if it is there.
    pub fn get_todo(&self, id: u32) -> (found: Option<&Todo>)
        ensures
            match found {
                Some(todo) => self@.contains_id(id) && todo@ == self@.task(id) && *todo
                    == self.todos@[position(self@.todos, id)],
                None => !self@.contains_id(id),
            },
    {
        match self.find(id) {
            Some(at) => Some(&self.todos[at]),
            None => None,
        }
    }

    /// The number of tasks.
    pub fn total_count(&self) -> (count: usize)
        ensures
            count == self@.todos.len(),
    {
        self.todos.len()
    }

    /// Whether the task with the id is there and lists children.
    pub fn has_children(&self, id: u32) -> (any: bool)
        ensures
            any == (self@.contains_id(id) && self@.task(id).children.len() > 0),
    {
        match self.get_todo(id) {
            Some(todo) => todo.children.len() > 0,
            None => false,
        }
    }
}


impl TodoList {
    /// The task with the id, to change in place. The caller answers for
    /// [`TodoList::wf`] where it changes the id.
    pub fn get_todo_mut(&mut self, id: u32) -> (found: Option<&mut Todo>)
        ensures
            match found {
                Some(todo) => {
                    &&& old(self)@.contains_id(id)
                    &&& *todo == old(self).todos@[position(old(self)@.todos, id)]
                    &&& final(self).todos@ == old(self).todos@.update(
                        position(old(self)@.todos, id),
                        *final(todo),
                    )
                    &&& final(self).next_id == old(self).next_id
                },
                None => !old(self)@.contains_id(id) && *final(self) == *old(self),
            },
    {
        match self.find(id) {
            Some(at) => Some(&mut self.todos[at]),
            None => None,
        }
    }
}


/// Changing one task in place changes one view.
pub proof fn lemma_views_update(before: Seq<Todo>, after: Seq<Todo>, at: int)
    requires
        0 <= at < before.len(),
        after.len() == before.len(),
        forall|j: int| 0 <= j < before.len() && j != at ==> after[j] == before[j],
    ensures
        views(after) == views(before).update(at, after[at]@),
{
    assert(views(after) =~= views(before).update(at, after[at]@));
}

/// Tasks that keep their ids keep their places.
pub proof fn lemma_same_ids(a: Seq<TodoView>, b: Seq<TodoView>)
    requires
        a.len() == b.len(),
        forall|i: int| 0 <= i < a.len() ==> (#[trigger] a[i]).id == b[i].id,
    ensures
        forall|id: u32| #[trigger] contains_id(b, id) == contains_id(a, id),
        forall|id: u32| contains_id(a, id) ==> #[trigger] position(b, id) == position(a, id),
        distinct_ids(a) ==> distinct_ids(b),
{
    assert forall|id: u32| #[trigger] contains_id(b, id) == contains_id(a, id) by {
        if contains_id(a, id) {
            let i = choose|i: int| 0 <= i < a.len() && #[trigger] a[i].id == id;
            assert(b[i].id == id);
        }
        if contains_id(b, id) {
            let i = choose|i: int| 0 <= i < b.len() && #[trigger] b[i].id == id;
            assert(a[i].id == id);
        }
    }
    assert forall|id: u32| contains_id(a, id) implies #[trigger] position(b, id) == position(a, id) by {
        lemma_has_position(a, id);
        let p = position(a, id);
        assert(b[p].id == id);
        assert forall|j: int| 0 <= j < p implies #[trigger] b[j].id != id by {
            assert(a[j].id != id);
        }
        lemma_position(b, id, p);
    }
    if distinct_ids(a) {
        assert forall|i: int, j: int| 0 <= i < j < b.len() implies (#[trigger] b[i]).id != (
        #[trigger] b[j]).id by {
            assert(a[i].id != a[j].id);
        }
    }
}

/// A task put at the end leaves the others where they were, and is found
/// at the end where its id is new.
pub proof fn lemma_push(a: Seq<TodoView>, t: TodoView)
    ensures
        forall|id: u32| contains_id(a, id) ==> #[trigger] contains_id(a.push(t), id),
        forall|id: u32| contains_id(a, id) ==> #[trigger] position(a.push(t), id) == position(a, id),
        forall|id: u32| #[trigger] contains_id(a.push(t), id) ==> contains_id(a, id) || id == t.id,
        contains_id(a.push(t), t.id),
        !contains_id(a, t.id) ==> position(a.push(t), t.id) == a.len(),
        !contains_id(a, t.id) && distinct_ids(a) ==> distinct_ids(a.push(t)),
{
    let b = a.push(t);
    assert(b[a.len() as int].id == t.id);
    assert forall|id: u32| contains_id(a, id) implies #[trigger] contains_id(b, id) by {
        lemma_has_position(a, id);
        assert(b[position(a, id)].id == id);
    }
    assert forall|id: u32| contains_id(a, id) implies #[trigger] position(b, id) == position(
        a,
        id,
    ) by {
        lemma_has_position(a, id);
        let p = position(a, id);
        assert(b[p].id == id);
        assert forall|j: int| 0 <= j < p implies #[trigger] b[j].id != id by {
            assert(a[j].id != id);
        }
        lemma_position(b, id, p);
    }
    assert forall|id: u32| #[trigger] contains_id(b, id) implies contains_id(a, id) || id == t.id by {
        let i = choose|i: int| 0 <= i < b.len() && #[trigger] b[i].id == id;
        if i < a.len() {
            assert(a[i].id == id);
        }
    }
    if !contains_id(a, t.id) {
        assert forall|j: int| 0 <= j < a.len() implies #[trigger] b[j].id != t.id by {
            assert(a[j].id == b[j].id);
        }
        lemma_position(b, t.id, a.len() as int);
        if distinct_ids(a) {
            assert forall|i: int, j: int| 0 <= i < j < b.len() implies (#[trigger] b[i]).id != (
            #[trigger] b[j]).id by {
                if j < a.len() {
                    assert(a[i].id != a[j].id);
                } else {
                    assert(a[i].id == b[i].id);
                }
            }
        }
    }
}

impl TodoListView {
    /// The store with the task of the given id replaced by `with`.
    pub open spec fn replaced(self, id: u32, with: TodoView) -> TodoListView {
        TodoListView { todos: self.todos.update(position(self.todos, id), with), ..self }
    }

    /// The store after raw text entered at `now` became a new root task.
    pub open spec fn added(self, raw: Seq<char>, now: Timestamp) -> TodoListView {
        TodoListView {
            todos: self.todos.push(Todo::created(self.next_id, raw, now)),
            next_id: (self.next_id + 1) as u32,
        }
    }

    /// The store after raw text entered at `now` became a new child of the
    /// task `parent_id`; the same store where that task is not there.
    pub open spec fn child_added(self, parent_id: u32, raw: Seq<char>, now: Timestamp) -> TodoListView {
        if self.contains_id(parent_id) {
            let parent = self.task(parent_id);
            TodoListView {
                todos: self.todos.update(
                    position(self.todos, parent_id),
                    TodoView { children: parent.children.push(self.next_id), ..parent },
                ).push(
                    TodoView {
                        parent_id: Some(parent_id),
                        ..Todo::created(self.next_id, raw, now)
                    },
                ),
                next_id: (self.next_id + 1) as u32,
            }
        } else {
            self
        }
    }

    /// The store after the children of the task `id` were shown or hidden.
    pub open spec fn toggled(self, id: u32) -> TodoListView {
        if self.contains_id(id) {
            let t = self.task(id);
            self.replaced(id, TodoView { expanded: !t.expanded, ..t })
        } else {
            self
        }
    }

    /// The store after a session was opened on the task `id` at `now`.
    pub open spec fn timer_started(self, id: u32, now: Timestamp) -> TodoListView {
        if self.contains_id(id) {
            self.replaced(id, self.task(id).timer_started(now))
        } else {
            self
        }
    }

    /// The store after the session of the task `id` was closed at `now`.
    pub open spec fn timer_stopped(self, id: u32, now: Timestamp) -> TodoListView {
        if self.contains_id(id) {
            self.replaced(id, self.task(id).timer_stopped(now))
        } else {
            self
        }
    }
}

impl TodoList {
    /// Adds the task that `description`, entered at `now`, describes, as a
    /// root, and returns its id.
    pub fn add_todo_at(&mut self, description: String, now: Timestamp) -> (id: u32)
        requires
            old(self).wf(),
            old(self).next_id < u32::MAX,
        ensures
            id == old(self).next_id,
            final(self)@ == old(self)@.added(description@, now),
            final(self).todos@.len() == old(self).todos@.len() + 1,
            final(self).wf(),
            old(self)@.linked() ==> final(self)@.linked(),
            old(self)@.tidy() ==> final(self)@.tidy(),
    {
        let id = self.next_id;
        let todo = Todo::new_at(id, description, now);
        proof {
            lemma_push(self@.todos, todo@);
            assert(!contains_id(self@.todos, id)) by {
                if contains_id(self@.todos, id) {
                    let i = choose|i: int| 0 <= i < self@.todos.len() && #[trigger] self@.todos[i].id == id;
                    assert(self@.todos[i].id < self.next_id);
                }
            }
        }
        self.todos.push(todo);
        self.next_id = id + 1;
        proof {
            assert(self@.todos =~= old(self)@.todos.push(todo@));
            if old(self)@.linked() {
                lemma_linked_after_add(old(self)@, todo@);
            }
        }
        id
    }

    /// Adds the task that `description` describes, entered now, as a root,
    /// and returns its id.
    pub fn add_todo(&mut self, description: String) -> (id: u32)
        requires
            old(self).wf(),
            old(self).next_id < u32::MAX,
        ensures
            id == old(self).next_id,
            exists|now: Timestamp| final(self)@ == old(self)@.added(description@, now),
            final(self).wf(),
            old(self)@.linked() ==> final(self)@.linked(),
            old(self)@.tidy() ==> final(self)@.tidy(),
    {
        let now = Timestamp::now();
        self.add_todo_at(description, now)
    }

    /// Adds the task that `description`, entered at `now`, describes, as
    /// the last child of the task `parent_id`, and returns its id. Where no
    /// task has that id nothing changes and nothing is returned.
    pub fn add_child_todo_at(&mut self, parent_id: u32, description: String, now: Timestamp) -> (id:
        Option<u32>)
        requires
            old(self).wf(),
            old(self).next_id < u32::MAX,
        ensures
            id == if old(self)@.contains_id(parent_id) {
                Some(old(self).next_id)
            } else {
                None
            },
            final(self)@ == old(self)@.child_added(parent_id, description@, now),
            id.is_none() ==> *final(self) == *old(self),
            id.is_some() ==> final(self).todos@.len() == old(self).todos@.len() + 1,
            final(self).wf(),
            old(self)@.linked() ==> final(self)@.linked(),
            old(self)@.tidy() ==> final(self)@.tidy(),
    {
        match self.find(parent_id) {
            Some(at) => {
                let child_id = self.next_id;
                let mut child = Todo::new_at(child_id, description, now);
                child.parent_id = Some(parent_id);
                self.todos[at].children.push(child_id);
                proof {
                    lemma_views_update(old(self).todos@, self.todos@, at as int);
                    lemma_same_ids(old(self)@.todos, self@.todos);
                    lemma_push(self@.todos, child@);
                    assert(!contains_id(self@.todos, child_id)) by {
                        if contains_id(old(self)@.todos, child_id) {
                            let i = choose|i: int|
                                0 <= i < old(self)@.todos.len() && #[trigger] old(
                                    self,
                                )@.todos[i].id == child_id;
                            assert(old(self)@.todos[i].id < old(self).next_id);
                        }
                    }
                }
                let ghost middle = self@;
                self.todos.push(child);
                self.next_id = child_id + 1;
                proof {
                    assert(self@.todos =~= middle.todos.push(child@));
                    assert(self@ == old(self)@.child_added(parent_id, description@, now));
                    if old(self)@.linked() {
                        lemma_linked_after_add_child(old(self)@, parent_id, description@, now);
                    }
                }
                Some(child_id)
            },
            None => None,
        }
    }

    /// Adds the task that `description` describes, entered now, as the last
    /// child of the task `parent_id`.
    pub fn add_child_todo(&mut self, parent_id: u32, description: String) -> (id: Option<u32>)
        requires
            old(self).wf(),
            old(self).next_id < u32::MAX,
        ensures
            id == if old(self)@.contains_id(parent_id) {
                Some(old(self).next_id)
            } else {
                None
            },
            exists|now: Timestamp|
                final(self)@ == old(self)@.child_added(parent_id, description@, now),
            id.is_none() ==> *final(self) == *old(self),
            final(self).wf(),
            old(self)@.linked() ==> final(self)@.linked(),
            old(self)@.tidy() ==> final(self)@.tidy(),
    {
        let now = Timestamp::now();
        self.add_child_todo_at(parent_id, description, now)
    }

    /// Shows the children of the task `id` if they were hidden, and hides
    /// them if they were shown. An id that is not there changes nothing.
    pub fn toggle_expanded(&mut self, id: u32)
        ensures
            final(self)@ == old(self)@.toggled(id),
            old(self).wf() ==> final(self).wf(),
            old(self)@.linked() ==> final(self)@.linked(),
            old(self)@.tidy() ==> final(self)@.tidy(),
    {
        match self.find(id) {
            Some(at) => {
                let shown = self.todos[at].expanded;
                self.todos[at].expanded = !shown;
                proof {
                    lemma_views_update(old(self).todos@, self.todos@, at as int);
                    lemma_same_ids(old(self)@.todos, self@.todos);
                    if old(self)@.linked() {
                        lemma_linked_same_links(old(self)@, self@);
                    }
                }
            },
            None => {},
        }
    }

    /// Opens a session on the task `id` at `now`; see
    /// [`Todo::start_timer_at`]. An id that is not there changes nothing.
    pub fn start_timer_at(&mut self, id: u32, now: Timestamp)
        ensures
            final(self)@ == old(self)@.timer_started(id, now),
            old(self).wf() ==> final(self).wf(),
            old(self)@.linked() ==> final(self)@.linked(),
            old(self)@.tidy() ==> final(self)@.tidy(),
    {
        match self.find(id) {
            Some(at) => {
                self.todos[at].start_timer_at(now);
                proof {
                    lemma_views_update(old(self).todos@, self.todos@, at as int);
                    lemma_same_ids(old(self)@.todos, self@.todos);
                    if old(self)@.linked() {
                        lemma_linked_same_links(old(self)@, self@);
                    }
                }
            },
            None => {},
        }
    }

    /// Opens a session on the task `id` now.
    pub fn start_timer(&mut self, id: u32)
        ensures
            exists|now: Timestamp| final(self)@ == old(self)@.timer_started(id, now),
            old(self).wf() ==> final(self).wf(),
            old(self)@.linked() ==> final(self)@.linked(),
            old(self)@.tidy() ==> final(self)@.tidy(),
    {
        let now = Timestamp::now();
        self.start_timer_at(id, now);
    }

    /// Closes the open session of the task `id` at `now`; see
    /// [`Todo::stop_timer_at`]. An id that is not there changes nothing.
    pub fn stop_timer_at(&mut self, id: u32, now: Timestamp)
        ensures
            final(self)@ == old(self)@.timer_stopped(id, now),
            old(self).wf() ==> final(self).wf(),
            old(self)@.linked() ==> final(self)@.linked(),
            old(self)@.tidy() ==> final(self)@.tidy(),
    {
        match self.find(id) {
            Some(at) => {
                self.todos[at].stop_timer_at(now);
                proof {
                    lemma_views_update(old(self).todos@, self.todos@, at as int);
                    lemma_same_ids(old(self)@.todos, self@.todos);
                    if old(self)@.linked() {
                        lemma_linked_same_links(old(self)@, self@);
                    }
                }
            },
            None => {},
        }
    }

    /// Closes the open session of the task `id` now.
    pub fn stop_timer(&mut self, id: u32)
        ensures
            exists|now: Timestamp| final(self)@ == old(self)@.timer_stopped(id, now),
            old(self).wf() ==> final(self).wf(),
            old(self)@.linked() ==> final(self)@.linked(),
            old(self)@.tidy() ==> final(self)@.tidy(),
    {
        let now = Timestamp::now();
        self.stop_timer_at(id, now);
    }
}

/// Tasks that keep id, parent and children keep the links.
pub proof fn lemma_linked_same_links(a: TodoListView, b: TodoListView)
    requires
        a.linked(),
        a.todos.len() == b.todos.len(),
        forall|i: int|
            #![trigger a.todos[i]]
            0 <= i < a.todos.len() ==> a.todos[i].id == b.todos[i].id && a.todos[i].parent_id
                == b.todos[i].parent_id && a.todos[i].children == b.todos[i].children,
    ensures
        b.linked(),
{
    lemma_same_ids(a.todos, b.todos);
    assert forall|i: int| #![trigger b.todos[i]] 0 <= i < b.todos.len() implies {
        &&& b.todos[i].children.no_duplicates()
        &&& forall|k: int|
            #![trigger b.todos[i].children[k]]
            0 <= k < b.todos[i].children.len() ==> {
                &&& contains_id(b.todos, b.todos[i].children[k])
                &&& task(b.todos, b.todos[i].children[k]).parent_id == Some(b.todos[i].id)
                &&& b.todos[i].children[k] > b.todos[i].id
            }
    } by {
        let t = a.todos[i];
        assert forall|k: int|
            #![trigger b.todos[i].children[k]]
            0 <= k < b.todos[i].children.len() implies {
            &&& contains_id(b.todos, b.todos[i].children[k])
            &&& task(b.todos, b.todos[i].children[k]).parent_id == Some(b.todos[i].id)
            &&& b.todos[i].children[k] > b.todos[i].id
        } by {
            let c = t.children[k];
            assert(contains_id(a.todos, c));
            lemma_has_position(a.todos, c);
            let p = position(a.todos, c);
            assert(position(b.todos, c) == p);
            let u = a.todos[p];
        }
    }
}

/// A new root with a new id and no children keeps the links.
pub proof fn lemma_linked_after_add(a: TodoListView, t: TodoView)
    requires
        a.linked(),
        !contains_id(a.todos, t.id),
        t.children.len() == 0,
    ensures
        (TodoListView { todos: a.todos.push(t), next_id: (a.next_id + 1) as u32 }).linked(),
{
    let b = a.todos.push(t);
    lemma_push(a.todos, t);
    assert forall|i: int| #![trigger b[i]] 0 <= i < b.len() implies {
        &&& b[i].children.no_duplicates()
        &&& forall|k: int|
            #![trigger b[i].children[k]]
            0 <= k < b[i].children.len() ==> {
                &&& contains_id(b, b[i].children[k])
                &&& task(b, b[i].children[k]).parent_id == Some(b[i].id)
                &&& b[i].children[k] > b[i].id
            }
    } by {
        if i < a.todos.len() {
            let u = a.todos[i];
            assert(b[i] == u);
            assert forall|k: int|
                #![trigger b[i].children[k]]
                0 <= k < b[i].children.len() implies {
                &&& contains_id(b, b[i].children[k])
                &&& task(b, b[i].children[k]).parent_id == Some(b[i].id)
                &&& b[i].children[k] > b[i].id
            } by {
                let c = u.children[k];
                assert(contains_id(a.todos, c));
                lemma_has_position(a.todos, c);
                assert(position(b, c) == position(a.todos, c));
                assert(b[position(a.todos, c)] == a.todos[position(a.todos, c)]);
            }
        }
    }
}

/// A new last child of a task that is there keeps the links.
pub proof fn lemma_linked_after_add_child(
    a: TodoListView,
    parent_id: u32,
    raw: Seq<char>,
    now: Timestamp,
)
    requires
        a.wf(),
        a.linked(),
        a.contains_id(parent_id),
        a.next_id < u32::MAX,
    ensures
        a.child_added(parent_id, raw, now).linked(),
{
    let new_id = a.next_id;
    let at = position(a.todos, parent_id);
    lemma_has_position(a.todos, parent_id);
    let parent = a.todos[at];
    let grown = TodoView { children: parent.children.push(new_id), ..parent };
    let child = TodoView { parent_id: Some(parent_id), ..Todo::created(new_id, raw, now) };
    let mid = a.todos.update(at, grown);
    let b = mid.push(child);
    assert(a.child_added(parent_id, raw, now).todos == b);
    lemma_same_ids(a.todos, mid);
    lemma_push(mid, child);
    assert(!contains_id(a.todos, new_id)) by {
        if contains_id(a.todos, new_id) {
            let i = choose|i: int| 0 <= i < a.todos.len() && #[trigger] a.todos[i].id == new_id;
            assert(a.todos[i].id < a.next_id);
        }
    }
    assert(!contains_id(mid, new_id));
    assert(position(b, new_id) == mid.len());
    assert(b[mid.len() as int] == child);
    assert forall|i: int| #![trigger b[i]] 0 <= i < b.len() implies {
        &&& b[i].children.no_duplicates()
        &&& forall|k: int|
            #![trigger b[i].children[k]]
            0 <= k < b[i].children.len() ==> {
                &&& contains_id(b, b[i].children[k])
                &&& task(b, b[i].children[k]).parent_id == Some(b[i].id)
                &&& b[i].children[k] > b[i].id
            }
    } by {
        if i < a.todos.len() {
            let u = a.todos[i];
            assert(u.id < a.next_id);
            assert forall|k: int| 0 <= k < u.children.len() implies #[trigger] u.children[k]
                != new_id by {
                assert(contains_id(a.todos, u.children[k]));
            }
            if i == at {
                assert(b[i] == grown);
                assert(grown.children.no_duplicates()) by {
                    assert forall|x: int, y: int|
                        0 <= x < grown.children.len() && 0 <= y < grown.children.len() && x
                            != y implies grown.children[x] != grown.children[y] by {
                        if x < u.children.len() && y < u.children.len() {
                            assert(u.children[x] != u.children[y]);
                        } else if x < u.children.len() {
                            assert(u.children[x] != new_id);
                        } else if y < u.children.len() {
                            assert(u.children[y] != new_id);
                        }
                    }
                }
            } else {
                assert(b[i] == u);
            }
            assert forall|k: int|
                #![trigger b[i].children[k]]
                0 <= k < b[i].children.len() implies {
                &&& contains_id(b, b[i].children[k])
                &&& task(b, b[i].children[k]).parent_id == Some(b[i].id)
                &&& b[i].children[k] > b[i].id
            } by {
                if k < u.children.len() {
                    let c = u.children[k];
                    assert(b[i].children[k] == c);
                    assert(contains_id(a.todos, c));
                    lemma_has_position(a.todos, c);
                    let p = position(a.todos, c);
                    assert(position(mid, c) == p);
                    assert(contains_id(mid, c));
                    assert(position(b, c) == p);
                    assert(b[p].parent_id == a.todos[p].parent_id);
                } else {
                    assert(b[i].children[k] == new_id);
                }
            }
        } else {
            assert(b[i] == child);
            assert(child.children.len() == 0);
        }
    }
}


/// Showing or hiding the children of a task twice leaves the store as it
/// was.
pub proof fn lemma_toggle_twice(store: TodoListView, id: u32)
    ensures
        store.toggled(id).toggled(id) == store,
{
    if store.contains_id(id) {
        lemma_has_position(store.todos, id);
        let at = position(store.todos, id);
        let once = store.toggled(id);
        lemma_same_ids(store.todos, once.todos);
        assert(once.contains_id(id));
        assert(position(once.todos, id) == at);
        assert(once.toggled(id).todos =~= store.todos);
    }
}

/// A child that was added names its parent, and its parent lists it; and
/// where the parent is not there nothing is added and the counter stays.
pub proof fn lemma_child_added(store: TodoListView, parent_id: u32, raw: Seq<char>, now: Timestamp)
    requires
        store.wf(),
        store.next_id < u32::MAX,
    ensures
        !store.contains_id(parent_id) ==> store.child_added(parent_id, raw, now) == store,
        store.contains_id(parent_id) ==> {
            let after = store.child_added(parent_id, raw, now);
            &&& after.contains_id(store.next_id)
            &&& after.task(store.next_id).parent_id == Some(parent_id)
            &&& after.contains_id(parent_id)
            &&& after.task(parent_id).children.contains(store.next_id)
            &&& after.next_id == store.next_id + 1
            &&& after.todos.len() == store.todos.len() + 1
        },
{
    if store.contains_id(parent_id) {
        let after = store.child_added(parent_id, raw, now);
        let new_id = store.next_id;
        lemma_has_position(store.todos, parent_id);
        let at = position(store.todos, parent_id);
        let parent = store.todos[at];
        let grown = TodoView { children: parent.children.push(new_id), ..parent };
        let child = TodoView { parent_id: Some(parent_id), ..Todo::created(new_id, raw, now) };
        let mid = store.todos.update(at, grown);
        lemma_same_ids(store.todos, mid);
        lemma_push(mid, child);
        assert(!contains_id(store.todos, new_id)) by {
            if contains_id(store.todos, new_id) {
                let i = choose|i: int|
                    0 <= i < store.todos.len() && #[trigger] store.todos[i].id == new_id;
                assert(store.todos[i].id < store.next_id);
            }
        }
        assert(after.todos == mid.push(child));
        assert(position(after.todos, new_id) == mid.len());
        assert(position(after.todos, parent_id) == at);
        assert(after.todos[at] == grown);
        assert(grown.children[parent.children.len() as int] == new_id);
    }
}

} // verus!
