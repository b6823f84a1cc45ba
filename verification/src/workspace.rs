//! Workspaces: named, independent task stores, one of which is current.
//!
//! The manager holds its workspaces in the order in which they were made,
//! each with its store. Which workspace is current is a field of the
//! manager, set when the first workspace is made and changed only by an
//! explicit switch or by deleting the current one.

use crate::labels::{lemma_put_in, lemma_put_in_step, lemma_put_in_stop, ordered, put_in, ranks};
use crate::outline::{row_views, FilterView};
use crate::store::{TodoList, TodoListView};
use crate::text::{decimal, decimal_string, lowercase_of, opt_text, same_text};
use crate::time::Timestamp;
use crate::todo::{Todo, TodoView};
use vstd::prelude::*;
use vstd::string::StringExecFns;

verus! {

/// A workspace: the name and look of one task store.
#[derive(Debug)]
pub struct Workspace {
    pub id: String,
    pub name: String,
    pub description: Option<String>,
    pub created_at: Timestamp,
    /// An index into a palette of colors.
    pub color: Option<u8>,
}

/// The mathematical content of a [`Workspace`].
pub struct WorkspaceView {
    pub id: Seq<char>,
    pub name: Seq<char>,
    pub description: Option<Seq<char>>,
    pub created_at: Timestamp,
    pub color: Option<u8>,
}

impl View for Workspace {
    type V = WorkspaceView;

    open spec fn view(&self) -> WorkspaceView {
        WorkspaceView {
            id: self.id@,
            name: self.name@,
            description: opt_text(self.description),
            created_at: self.created_at,
            color: self.color,
        }
    }
}

/// A workspace with its task store.
#[derive(Debug)]
pub struct WorkspaceEntry {
    pub workspace: Workspace,
    pub todos: TodoList,
}

/// The mathematical content of a [`WorkspaceEntry`].
pub struct WorkspaceEntryView {
    pub workspace: WorkspaceView,
    pub todos: TodoListView,
}

impl View for WorkspaceEntry {
    type V = WorkspaceEntryView;

    open spec fn view(&self) -> WorkspaceEntryView {
        WorkspaceEntryView { workspace: self.workspace@, todos: self.todos@ }
    }
}

/// The workspaces of a user.
#[derive(Debug)]
pub struct WorkspaceManager {
    /// The workspaces with their stores, no two with the same id, in the
    /// order in which they were made.
    pub entries: Vec<WorkspaceEntry>,
    /// The id of the current workspace.
    pub current_workspace: Option<String>,
    /// The number that the id of the next workspace is made of.
    pub next_workspace_id: u32,
}

/// The mathematical content of a [`WorkspaceManager`].
pub struct WorkspaceManagerView {
    pub entries: Seq<WorkspaceEntryView>,
    pub current_workspace: Option<Seq<char>>,
    pub next_workspace_id: u32,
}

/// The views of a sequence of entries.
pub open spec fn entry_views(entries: Seq<WorkspaceEntry>) -> Seq<WorkspaceEntryView> {
    Seq::new(entries.len(), |i: int| entries[i]@)
}

impl View for WorkspaceManager {
    type V = WorkspaceManagerView;

    open spec fn view(&self) -> WorkspaceManagerView {
        WorkspaceManagerView {
            entries: entry_views(self.entries@),
            current_workspace: opt_text(self.current_workspace),
            next_workspace_id: self.next_workspace_id,
        }
    }
}

/// The id of the workspace made from the number `n`: `ws_` and the number
/// in decimal.
pub open spec fn workspace_id(n: u32) -> Seq<char> {
    "ws_"@ + decimal(n as nat)
}

/// Whether `at` is the first place among `entries` of a workspace with the
/// id.
pub open spec fn id_at(entries: Seq<WorkspaceEntryView>, id: Seq<char>, at: int) -> bool {
    &&& 0 <= at < entries.len()
    &&& entries[at].workspace.id == id
    &&& forall|j: int| 0 <= j < at ==> (#[trigger] entries[j]).workspace.id != id
}

/// Whether `at` is the first place among `entries` of a workspace with the
/// name.
pub open spec fn name_at(entries: Seq<WorkspaceEntryView>, name: Seq<char>, at: int) -> bool {
    &&& 0 <= at < entries.len()
    &&& entries[at].workspace.name == name
    &&& forall|j: int| 0 <= j < at ==> (#[trigger] entries[j]).workspace.name != name
}

/// Whether some workspace has the id.
pub open spec fn holds_id(entries: Seq<WorkspaceEntryView>, id: Seq<char>) -> bool {
    exists|at: int| id_at(entries, id, at)
}

/// Whether some workspace has the name.
pub open spec fn holds_name(entries: Seq<WorkspaceEntryView>, name: Seq<char>) -> bool {
    exists|at: int| name_at(entries, name, at)
}

/// The first place of a workspace with the id.
pub open spec fn place_of(entries: Seq<WorkspaceEntryView>, id: Seq<char>) -> int {
    choose|at: int| id_at(entries, id, at)
}

/// The first place of a workspace with the name.
pub open spec fn place_named(entries: Seq<WorkspaceEntryView>, name: Seq<char>) -> int {
    choose|at: int| name_at(entries, name, at)
}

/// There is one first place of an id.
pub proof fn lemma_place_of(entries: Seq<WorkspaceEntryView>, id: Seq<char>, at: int)
    requires
        id_at(entries, id, at),
    ensures
        holds_id(entries, id),
        place_of(entries, id) == at,
{
    let p = place_of(entries, id);
    assert(id_at(entries, id, p));
    if p < at {
        assert(entries[p].workspace.id != id);
    }
    if at < p {
        assert(entries[at].workspace.id != id);
    }
}

/// There is one first place of a name.
pub proof fn lemma_place_named(entries: Seq<WorkspaceEntryView>, name: Seq<char>, at: int)
    requires
        name_at(entries, name, at),
    ensures
        holds_name(entries, name),
        place_named(entries, name) == at,
{
    let p = place_named(entries, name);
    assert(name_at(entries, name, p));
    if p < at {
        assert(entries[p].workspace.name != name);
    }
    if at < p {
        assert(entries[at].workspace.name != name);
    }
}

impl WorkspaceView {
    /// A workspace as it is made at `now`: without description and color.
    pub open spec fn fresh(id: Seq<char>, name: Seq<char>, now: Timestamp) -> WorkspaceView {
        WorkspaceView { id, name, description: None, created_at: now, color: None }
    }
}

impl Workspace {
    /// Makes a workspace at `now`, without description and color.
    pub fn new_at(id: String, name: String, now: Timestamp) -> (workspace: Workspace)
        ensures
            workspace@ == WorkspaceView::fresh(id@, name@, now),
    {
        Workspace { id, name, description: None, created_at: now, color: None }
    }

    /// Makes a workspace now, without description and color.
    pub fn new(id: String, name: String) -> (workspace: Workspace)
        ensures
            exists|now: Timestamp| workspace@ == WorkspaceView::fresh(id@, name@, now),
    {
        let now = Timestamp::now();
        Workspace::new_at(id, name, now)
    }

    /// The workspace with a description.
    pub fn with_description(self, description: String) -> (workspace: Workspace)
        ensures
            workspace@ == (WorkspaceView { description: Some(description@), ..self@ }),
    {
        let mut workspace = self;
        workspace.description = Some(description);
        workspace
    }

    /// The workspace with a color.
    pub fn with_color(self, color: u8) -> (workspace: Workspace)
        ensures
            workspace@ == (WorkspaceView { color: Some(color), ..self@ }),
    {
        let mut workspace = self;
        workspace.color = Some(color);
        workspace
    }
}

impl WorkspaceManagerView {
    /// No two workspaces share an id.
    pub open spec fn wf(self) -> bool {
        forall|i: int, j: int|
            0 <= i < j < self.entries.len() ==> (#[trigger] self.entries[i]).workspace.id != (
            #[trigger] self.entries[j]).workspace.id
    }

    /// No two workspaces share an id, and every store is well formed.
    pub open spec fn all_wf(self) -> bool {
        &&& self.wf()
        &&& forall|i: int| 0 <= i < self.entries.len() ==> (#[trigger] self.entries[i]).todos.wf()
    }

    /// The manager after a workspace was made at `now`: with an empty
    /// store, under the id made of the counter, in the place of a workspace
    /// that had that id or else behind all others; current if none was.
    pub open spec fn created(
        self,
        name: Seq<char>,
        description: Option<Seq<char>>,
        now: Timestamp,
    ) -> WorkspaceManagerView {
        let id = workspace_id(self.next_workspace_id);
        let entry = WorkspaceEntryView {
            workspace: WorkspaceView { description, ..WorkspaceView::fresh(id, name, now) },
            todos: TodoListView { todos: Seq::empty(), next_id: 1 },
        };
        WorkspaceManagerView {
            entries: if holds_id(self.entries, id) {
                self.entries.update(place_of(self.entries, id), entry)
            } else {
                self.entries.push(entry)
            },
            current_workspace: if self.current_workspace.is_none() {
                Some(id)
            } else {
                self.current_workspace
            },
            next_workspace_id: (self.next_workspace_id + 1) as u32,
        }
    }

    /// The manager after the workspace `id` was deleted: the same manager
    /// where it has one workspace or none, or none with that id; else
    /// without that workspace and its store, the first workspace left being
    /// current if the deleted one was.
    pub open spec fn deleted(self, id: Seq<char>) -> WorkspaceManagerView {
        if self.entries.len() > 1 && holds_id(self.entries, id) {
            let left = self.entries.remove(place_of(self.entries, id));
            WorkspaceManagerView {
                entries: left,
                current_workspace: if self.current_workspace == Some(id) {
                    Some(left[0].workspace.id)
                } else {
                    self.current_workspace
                },
                ..self
            }
        } else {
            self
        }
    }

    /// The manager with the workspace `id` under a new name.
    pub open spec fn renamed(self, id: Seq<char>, name: Seq<char>) -> WorkspaceManagerView {
        if holds_id(self.entries, id) {
            let at = place_of(self.entries, id);
            let entry = self.entries[at];
            WorkspaceManagerView {
                entries: self.entries.update(
                    at,
                    WorkspaceEntryView {
                        workspace: WorkspaceView { name, ..entry.workspace },
                        ..entry
                    },
                ),
                ..self
            }
        } else {
            self
        }
    }

    /// The place of the current workspace, if one is current and there.
    pub open spec fn current_place(self) -> Option<int> {
        match self.current_workspace {
            Some(id) => if holds_id(self.entries, id) {
                Some(place_of(self.entries, id))
            } else {
                None
            },
            None => None,
        }
    }
}

impl WorkspaceManager {
    /// No two workspaces share an id.
    pub open spec fn wf(&self) -> bool {
        self@.wf()
    }

    /// A manager without workspaces.
    pub fn new() -> (manager: WorkspaceManager)
        ensures
            manager@.entries == Seq::<WorkspaceEntryView>::empty(),
            manager@.current_workspace.is_none(),
            manager@.next_workspace_id == 1,
            manager.wf(),
    {
        let manager = WorkspaceManager {
            entries: Vec::new(),
            current_workspace: None,
            next_workspace_id: 1,
        };
        assert(manager@.entries =~= Seq::<WorkspaceEntryView>::empty());
        manager
    }

    /// Whether no two workspaces share an id and every store meets
    /// [`TodoList::wf`]: for a manager that did not come out of the
    /// operations of this module.
    pub fn is_well_formed(&self) -> (good: bool)
        ensures
            good == self@.all_wf(),
    {
        let n = self.entries.len();
        let mut i: usize = 0;
        while i < n
            invariant
                n == self.entries.len(),
                i <= n,
                forall|a: int, b: int|
                    0 <= a < b < i ==> (#[trigger] self@.entries[a]).workspace.id != (
                    #[trigger] self@.entries[b]).workspace.id,
                forall|a: int| 0 <= a < i ==> (#[trigger] self@.entries[a]).todos.wf(),
            decreases n - i,
        {
            if !self.entries[i].todos.is_well_formed() {
                assert(!self@.entries[i as int].todos.wf());
                return false;
            }
            let mut j: usize = 0;
            while j < i
                invariant
                    n == self.entries.len(),
                    j <= i < n,
                    forall|a: int|
                        0 <= a < j ==> (#[trigger] self@.entries[a]).workspace.id
                            != self@.entries[i as int].workspace.id,
                decreases i - j,
            {
                if self.entries[j].workspace.id == self.entries[i].workspace.id {
                    assert(self@.entries[j as int].workspace.id
                        == self@.entries[i as int].workspace.id);
                    return false;
                }
                j += 1;
            }
            i += 1;
        }
        true
    }

    /// The place of the workspace with the id.
    pub fn find(&self, workspace_id: &str) -> (place: Option<usize>)
        ensures
            match place {
                Some(at) => id_at(self@.entries, workspace_id@, at as int) && holds_id(
                    self@.entries,
                    workspace_id@,
                ) && place_of(self@.entries, workspace_id@) == at,
                None => !holds_id(self@.entries, workspace_id@),
            },
    {
        let mut i: usize = 0;
        while i < self.entries.len()
            invariant
                i <= self.entries.len(),
                forall|j: int| 0 <= j < i ==> (#[trigger] self@.entries[j]).workspace.id != workspace_id@,
            decreases self.entries.len() - i,
        {
            if same_text(&self.entries[i].workspace.id, workspace_id) {
                proof {
                    assert(self@.entries[i as int].workspace.id == workspace_id@);
                    lemma_place_of(self@.entries, workspace_id@, i as int);
                }
                return Some(i);
            }
            i += 1;
        }
        proof {
            if holds_id(self@.entries, workspace_id@) {
                let at = choose|at: int| id_at(self@.entries, workspace_id@, at);
                assert(self@.entries[at].workspace.id != workspace_id@);
            }
        }
        None
    }

    /// The place of the first workspace with the name.
    pub fn find_by_name(&self, workspace_name: &str) -> (place: Option<usize>)
        ensures
            match place {
                Some(at) => name_at(self@.entries, workspace_name@, at as int) && holds_name(
                    self@.entries,
                    workspace_name@,
                ) && place_named(self@.entries, workspace_name@) == at,
                None => !holds_name(self@.entries, workspace_name@),
            },
    {
        let mut i: usize = 0;
        while i < self.entries.len()
            invariant
                i <= self.entries.len(),
                forall|j: int|
                    0 <= j < i ==> (#[trigger] self@.entries[j]).workspace.name != workspace_name@,
            decreases self.entries.len() - i,
        {
            if same_text(&self.entries[i].workspace.name, workspace_name) {
                proof {
                    assert(self@.entries[i as int].workspace.name == workspace_name@);
                    lemma_place_named(self@.entries, workspace_name@, i as int);
                }
                return Some(i);
            }
            i += 1;
        }
        proof {
            if holds_name(self@.entries, workspace_name@) {
                let at = choose|at: int| name_at(self@.entries, workspace_name@, at);
                assert(self@.entries[at].workspace.name != workspace_name@);
            }
        }
        None
    }

    /// Makes a workspace at `now` with an empty store and returns its id,
    /// `ws_` and the number of the counter. The first workspace made
    /// becomes current.
    pub fn create_workspace_at(
        &mut self,
        name: String,
        description: Option<String>,
        now: Timestamp,
    ) -> (id: String)
        requires
            old(self).next_workspace_id < u32::MAX,
        ensures
            id@ == workspace_id(old(self).next_workspace_id),
            final(self)@ == old(self)@.created(name@, opt_text(description), now),
            old(self).wf() ==> final(self).wf(),
            old(self)@.all_wf() ==> final(self)@.all_wf(),
    {
        let mut id = String::from_str("ws_");
        id.append(decimal_string(self.next_workspace_id as u64).as_str());
        self.next_workspace_id = self.next_workspace_id + 1;
        let mut workspace = Workspace::new_at(id.clone(), name, now);
        workspace.description = description;
        let entry = WorkspaceEntry { workspace, todos: TodoList::new() };
        match self.find(id.as_str()) {
            Some(at) => {
                self.entries[at] = entry;
                proof {
                    assert(self@.entries =~= old(self)@.entries.update(at as int, entry@));
                    if old(self).wf() {
                        assert forall|i: int, j: int| 0 <= i < j < self@.entries.len() implies (
                        #[trigger] self@.entries[i]).workspace.id != (
                        #[trigger] self@.entries[j]).workspace.id by {
                            assert(old(self)@.entries[i].workspace.id != old(
                                self,
                            )@.entries[j].workspace.id);
                        }
                    }
                }
            },
            None => {
                self.entries.push(entry);
                proof {
                    assert(self@.entries =~= old(self)@.entries.push(entry@));
                    if old(self).wf() {
                        assert forall|i: int, j: int| 0 <= i < j < self@.entries.len() implies (
                        #[trigger] self@.entries[i]).workspace.id != (
                        #[trigger] self@.entries[j]).workspace.id by {
                            if j < old(self)@.entries.len() {
                                assert(old(self)@.entries[i].workspace.id != old(
                                    self,
                                )@.entries[j].workspace.id);
                            } else {
                                if old(self)@.entries[i].workspace.id == id@ {
                                    lemma_id_held(old(self)@.entries, i);
                                }
                            }
                        }
                    }
                }
            },
        }
        proof {
            if old(self)@.all_wf() {
                assert forall|i: int| 0 <= i < self@.entries.len() implies (
                #[trigger] self@.entries[i]).todos.wf() by {
                    if i < old(self)@.entries.len() {
                        assert(old(self)@.entries[i].todos.wf());
                    }
                }
            }
        }
        if self.current_workspace.is_none() {
            self.current_workspace = Some(id.clone());
        }
        id
    }

    /// Makes a workspace now. See [`WorkspaceManager::create_workspace_at`].
    pub fn create_workspace(&mut self, name: String, description: Option<String>) -> (id: String)
        requires
            old(self).next_workspace_id < u32::MAX,
        ensures
            id@ == workspace_id(old(self).next_workspace_id),
            exists|now: Timestamp|
                final(self)@ == old(self)@.created(name@, opt_text(description), now),
            old(self).wf() ==> final(self).wf(),
            old(self)@.all_wf() ==> final(self)@.all_wf(),
    {
        let now = Timestamp::now();
        self.create_workspace_at(name, description, now)
    }

    /// Makes the workspace with the id current. Where there is none the
    /// current workspace stays.
    pub fn switch_workspace(&mut self, workspace_id: &str) -> (switched: bool)
        ensures
            switched == holds_id(old(self)@.entries, workspace_id@),
            final(self)@ == (WorkspaceManagerView {
                current_workspace: if switched {
                    Some(workspace_id@)
                } else {
                    old(self)@.current_workspace
                },
                ..old(self)@
            }),
    {
        match self.find(workspace_id) {
            Some(_) => {
                self.current_workspace = Some(String::from_str(workspace_id));
                true
            },
            None => false,
        }
    }

    /// Makes the first workspace with the name current. Where there is none
    /// the current workspace stays.
    pub fn switch_workspace_by_name(&mut self, workspace_name: &str) -> (switched: bool)
        ensures
            switched == holds_name(old(self)@.entries, workspace_name@),
            final(self)@ == (WorkspaceManagerView {
                current_workspace: if switched {
                    Some(
                        old(self)@.entries[place_named(
                            old(self)@.entries,
                            workspace_name@,
                        )].workspace.id,
                    )
                } else {
                    old(self)@.current_workspace
                },
                ..old(self)@
            }),
    {
        match self.find_by_name(workspace_name) {
            Some(at) => {
                self.current_workspace = Some(self.entries[at].workspace.id.clone());
                true
            },
            None => false,
        }
    }

    /// The place of the current workspace.
    pub fn current_place(&self) -> (place: Option<usize>)
        ensures
            match place {
                Some(at) => self@.current_place() == Some(at as int) && at < self.entries@.len(),
                None => self@.current_place().is_none(),
            },
    {
        match &self.current_workspace {
            Some(id) => self.find(id.as_str()),
            None => None,
        }
    }

    /// The id of the current workspace.
    pub fn get_current_workspace_id(&self) -> (id: Option<String>)
        ensures
            opt_text(id) == self@.current_workspace,
    {
        match &self.current_workspace {
            Some(id) => Some(id.clone()),
            None => None,
        }
    }

    /// The current workspace, if one is current and there.
    pub fn get_current_workspace(&self) -> (found: Option<&Workspace>)
        ensures
            match found {
                Some(workspace) => match self@.current_place() {
                    Some(at) => workspace@ == self@.entries[at].workspace,
                    None => false,
                },
                None => self@.current_place().is_none(),
            },
    {
        match self.current_place() {
            Some(at) => Some(&self.entries[at].workspace),
            None => None,
        }
    }

    /// The store of the current workspace, if one is current and there.
    pub fn get_current_todo_list(&self) -> (found: Option<&TodoList>)
        ensures
            match found {
                Some(list) => match self@.current_place() {
                    Some(at) => list@ == self@.entries[at].todos && *list
                        == self.entries@[at].todos,
                    None => false,
                },
                None => self@.current_place().is_none(),
            },
    {
        match self.current_place() {
            Some(at) => Some(&self.entries[at].todos),
            None => None,
        }
    }

    /// The store of the current workspace, to change in place.
    pub fn get_current_todo_list_mut(&mut self) -> (found: Option<&mut TodoList>)
        ensures
            match found {
                Some(list) => match old(self)@.current_place() {
                    Some(at) => {
                        &&& *list == old(self).entries@[at].todos
                        &&& final(self).entries@ == old(self).entries@.update(
                            at,
                            WorkspaceEntry {
                                workspace: old(self).entries@[at].workspace,
                                todos: *final(list),
                            },
                        )
                        &&& final(self).current_workspace == old(self).current_workspace
                        &&& final(self).next_workspace_id == old(self).next_workspace_id
                    },
                    None => false,
                },
                None => old(self)@.current_place().is_none() && *final(self) == *old(self),
            },
    {
        match self.current_place() {
            Some(at) => Some(&mut self.entries[at].todos),
            None => None,
        }
    }

    /// The store of the workspace with the id, to change in place.
    pub fn get_todo_list_mut(&mut self, workspace_id: &str) -> (found: Option<&mut TodoList>)
        ensures
            match found {
                Some(list) => {
                    let at = place_of(old(self)@.entries, workspace_id@);
                    &&& holds_id(old(self)@.entries, workspace_id@)
                    &&& *list == old(self).entries@[at].todos
                    &&& final(self).entries@ == old(self).entries@.update(
                        at,
                        WorkspaceEntry {
                            workspace: old(self).entries@[at].workspace,
                            todos: *final(list),
                        },
                    )
                    &&& final(self).current_workspace == old(self).current_workspace
                    &&& final(self).next_workspace_id == old(self).next_workspace_id
                },
                None => !holds_id(old(self)@.entries, workspace_id@) && *final(self) == *old(self),
            },
    {
        match self.find(workspace_id) {
            Some(at) => Some(&mut self.entries[at].todos),
            None => None,
        }
    }

    /// Whether there is no workspace.
    pub fn is_empty(&self) -> (empty: bool)
        ensures
            empty == (self@.entries.len() == 0),
    {
        self.entries.len() == 0
    }

    /// Deletes the workspace with the id, and its store. The last
    /// workspace is never deleted. Where the current workspace was deleted,
    /// the first workspace left becomes current.
    pub fn delete_workspace(&mut self, workspace_id: &str) -> (deleted: bool)
        ensures
            deleted == (old(self)@.entries.len() > 1 && holds_id(
                old(self)@.entries,
                workspace_id@,
            )),
            final(self)@ == old(self)@.deleted(workspace_id@),
            !deleted ==> *final(self) == *old(self),
            old(self).wf() ==> final(self).wf(),
            old(self)@.all_wf() ==> final(self)@.all_wf(),
            final(self)@.entries.len() >= 1 || old(self)@.entries.len() == 0,
    {
        if self.entries.len() <= 1 {
            return false;
        }
        match self.find(workspace_id) {
            Some(at) => {
                self.entries.remove(at);
                proof {
                    assert(self@.entries =~= old(self)@.entries.remove(at as int));
                    if old(self).wf() {
                        assert forall|i: int, j: int| 0 <= i < j < self@.entries.len() implies (
                        #[trigger] self@.entries[i]).workspace.id != (
                        #[trigger] self@.entries[j]).workspace.id by {
                            let a = if i < at {
                                i
                            } else {
                                i + 1
                            };
                            let b = if j < at {
                                j
                            } else {
                                j + 1
                            };
                            assert(old(self)@.entries[a].workspace.id != old(
                                self,
                            )@.entries[b].workspace.id);
                        }
                    }
                    if old(self)@.all_wf() {
                        assert forall|i: int| 0 <= i < self@.entries.len() implies (
                        #[trigger] self@.entries[i]).todos.wf() by {
                            let a = if i < at {
                                i
                            } else {
                                i + 1
                            };
                            assert(old(self)@.entries[a].todos.wf());
                        }
                    }
                }
                let was_current = match &self.current_workspace {
                    Some(current) => same_text(current, workspace_id),
                    None => false,
                };
                if was_current {
                    self.current_workspace = Some(self.entries[0].workspace.id.clone());
                }
                true
            },
            None => false,
        }
    }

    /// Gives the workspace with the id a new name.
    pub fn rename_workspace(&mut self, workspace_id: &str, new_name: String) -> (renamed: bool)
        ensures
            renamed == holds_id(old(self)@.entries, workspace_id@),
            final(self)@ == old(self)@.renamed(workspace_id@, new_name@),
            old(self).wf() ==> final(self).wf(),
            old(self)@.all_wf() ==> final(self)@.all_wf(),
    {
        match self.find(workspace_id) {
            Some(at) => {
                self.entries[at].workspace.name = new_name;
                proof {
                    assert(self@.entries =~= old(self)@.renamed(workspace_id@, new_name@).entries);
                    if old(self)@.all_wf() {
                        assert forall|i: int| 0 <= i < self@.entries.len() implies (
                        #[trigger] self@.entries[i]).todos.wf() by {
                            assert(old(self)@.entries[i].todos.wf());
                        }
                    }
                    if old(self).wf() {
                        assert forall|i: int, j: int| 0 <= i < j < self@.entries.len() implies (
                        #[trigger] self@.entries[i]).workspace.id != (
                        #[trigger] self@.entries[j]).workspace.id by {
                            assert(old(self)@.entries[i].workspace.id != old(
                                self,
                            )@.entries[j].workspace.id);
                        }
                    }
                }
                true
            },
            None => false,
        }
    }
}

/// The order of workspaces by age: the earlier made first.
pub open spec fn older_first() -> spec_fn(WorkspaceView, WorkspaceView) -> bool {
    |a: WorkspaceView, b: WorkspaceView| a.created_at.before(b.created_at)
}

/// The workspaces by age; those made at the same moment stay in the order
/// of the manager.
pub open spec fn by_age(entries: Seq<WorkspaceEntryView>) -> Seq<WorkspaceView>
    decreases entries.len(),
{
    if entries.len() == 0 {
        Seq::empty()
    } else {
        put_in(by_age(entries.drop_last()), entries.last().workspace, older_first())
    }
}

/// For each workspace its id, its name and the number of its tasks.
pub open spec fn sizes(entries: Seq<WorkspaceEntryView>) -> Seq<(Seq<char>, Seq<char>, nat)> {
    Seq::new(
        entries.len(),
        |i: int| (entries[i].workspace.id, entries[i].workspace.name, entries[i].todos.todos.len()),
    )
}

/// What a query finds in one store: the rows of its full outline that
/// match.
pub open spec fn found_in(store: TodoListView, query: Seq<char>) -> Seq<(TodoView, u32)> {
    store.full_outline().filter(FilterView::Matching(lowercase_of(query)).on_rows())
}

/// What a query finds in the stores of workspaces: for each workspace in
/// which it finds anything, the id and what it finds.
pub open spec fn found_in_all(entries: Seq<WorkspaceEntryView>, query: Seq<char>) -> Seq<
    (Seq<char>, Seq<(TodoView, u32)>),
>
    decreases entries.len(),
{
    if entries.len() == 0 {
        Seq::empty()
    } else {
        let before = found_in_all(entries.drop_last(), query);
        let rows = found_in(entries.last().todos, query);
        if rows.len() > 0 {
            before.push((entries.last().workspace.id, rows))
        } else {
            before
        }
    }
}

/// The view of an optional store.
pub open spec fn opt_store_view(store: Option<TodoList>) -> Option<TodoListView> {
    match store {
        Some(list) => Some(list@),
        None => None,
    }
}

/// The views of references to workspaces.
pub open spec fn workspace_views(found: Seq<&Workspace>) -> Seq<WorkspaceView> {
    Seq::new(found.len(), |i: int| found[i]@)
}

/// The views of workspace sizes.
pub open spec fn size_views(counts: Seq<(String, String, usize)>) -> Seq<
    (Seq<char>, Seq<char>, nat),
> {
    Seq::new(counts.len(), |i: int| (counts[i].0@, counts[i].1@, counts[i].2 as nat))
}

/// The views of search results by workspace.
pub open spec fn result_views(found: Seq<(String, Vec<(&Todo, u32)>)>) -> Seq<
    (Seq<char>, Seq<(TodoView, u32)>),
> {
    Seq::new(found.len(), |i: int| (found[i].0@, row_views(found[i].1@)))
}

/// The name of the workspace that is made where there is none.
pub const DEFAULT_WORKSPACE_NAME: &'static str = "Personal";

/// The description of the workspace that is made where there is none.
pub const DEFAULT_WORKSPACE_DESCRIPTION: &'static str = "Default workspace";

/// The description of the workspace that takes over a store kept without
/// workspaces.
pub const MIGRATED_WORKSPACE_DESCRIPTION: &'static str = "Migrated from legacy todos";

impl WorkspaceManagerView {
    /// The manager that takes over, at `now`, a store kept without
    /// workspaces: its one workspace is current and holds that store, or an
    /// empty one where there was no store.
    pub open spec fn taken_over(legacy: Option<TodoListView>, now: Timestamp) -> WorkspaceManagerView {
        WorkspaceManagerView {
            entries: seq![
                WorkspaceEntryView {
                    workspace: WorkspaceView {
                        description: Some(MIGRATED_WORKSPACE_DESCRIPTION@),
                        ..WorkspaceView::fresh(workspace_id(1), DEFAULT_WORKSPACE_NAME@, now)
                    },
                    todos: match legacy {
                        Some(list) => list,
                        None => (TodoListView { todos: Seq::empty(), next_id: 1 }),
                    },
                },
            ],
            current_workspace: Some(workspace_id(1)),
            next_workspace_id: 2,
        }
    }

    /// The id of the workspace that is found to work in.
    pub open spec fn ensured_id(self) -> Seq<char> {
        if self.entries.len() == 0 {
            workspace_id(self.next_workspace_id)
        } else {
            match self.current_workspace {
                Some(current) => current,
                None => self.entries[0].workspace.id,
            }
        }
    }

    /// The manager after a workspace was found to work in: a new default
    /// workspace where there was none; else the first workspace made
    /// current where none was; else the same manager.
    pub open spec fn ensured(self, now: Timestamp) -> WorkspaceManagerView {
        if self.entries.len() == 0 {
            self.created(DEFAULT_WORKSPACE_NAME@, Some(DEFAULT_WORKSPACE_DESCRIPTION@), now)
        } else if self.current_workspace.is_none() {
            WorkspaceManagerView {
                current_workspace: Some(self.entries[0].workspace.id),
                ..self
            }
        } else {
            self
        }
    }
}

impl WorkspaceManager {
    /// All workspaces, the earlier made first.
    pub fn get_all_workspaces(&self) -> (found: Vec<&Workspace>)
        ensures
            workspace_views(found@) == by_age(self@.entries),
    {
        let mut found: Vec<&Workspace> = Vec::new();
        let ghost ev = self@.entries;
        let mut i: usize = 0;
        proof {
            assert(ev.take(0) =~= Seq::empty());
            assert(workspace_views(found@) =~= by_age(ev.take(0)));
        }
        while i < self.entries.len()
            invariant
                i <= self.entries.len(),
                ev == self@.entries,
                workspace_views(found@) == by_age(ev.take(i as int)),
            decreases self.entries.len() - i,
        {
            let workspace = &self.entries[i].workspace;
            let ghost all = workspace_views(found@);
            let ghost x = workspace@;
            proof {
                assert(ev.take(i + 1).drop_last() =~= ev.take(i as int));
                assert(ev.take(i + 1).last() == self.entries@[i as int]@);
            }
            let mut p: usize = found.len();
            proof {
                assert(all.take(p as int) =~= all);
                assert(all.skip(p as int) =~= Seq::empty());
                assert(put_in(all, x, older_first()) =~= put_in(
                    all.take(p as int),
                    x,
                    older_first(),
                ) + all.skip(p as int));
            }
            while p > 0 && workspace.created_at.is_before(&found[p - 1].created_at)
                invariant
                    p <= found.len(),
                    all == workspace_views(found@),
                    x == workspace@,
                    put_in(all, x, older_first()) == put_in(all.take(p as int), x, older_first())
                        + all.skip(p as int),
                decreases p,
            {
                proof {
                    assert(all[p - 1] == found@[p - 1]@);
                    lemma_put_in_step(all, x, older_first(), p as int);
                }
                p -= 1;
            }
            proof {
                if p > 0 {
                    assert(all[p - 1] == found@[p - 1]@);
                }
                lemma_put_in_stop(all, x, older_first(), p as int);
            }
            found.insert(p, workspace);
            assert(workspace_views(found@) =~= all.insert(p as int, x));
            i += 1;
        }
        assert(ev.take(self.entries@.len() as int) =~= ev);
        found
    }

    /// For each workspace, in the order of the manager, its id, its name
    /// and the number of its tasks.
    pub fn get_workspace_counts(&self) -> (counts: Vec<(String, String, usize)>)
        ensures
            size_views(counts@) == sizes(self@.entries),
    {
        let mut counts: Vec<(String, String, usize)> = Vec::new();
        let mut i: usize = 0;
        while i < self.entries.len()
            invariant
                i <= self.entries.len(),
                counts@.len() == i,
                forall|j: int|
                    0 <= j < i ==> (#[trigger] size_views(counts@)[j]) == sizes(self@.entries)[j],
            decreases self.entries.len() - i,
        {
            let entry = &self.entries[i];
            let ghost before = size_views(counts@);
            counts.push(
                (entry.workspace.id.clone(), entry.workspace.name.clone(), entry.todos.total_count()),
            );
            proof {
                assert forall|j: int| 0 <= j < i + 1 implies (#[trigger] size_views(counts@)[j])
                    == sizes(self@.entries)[j] by {
                    if j < i {
                        assert(size_views(counts@)[j] == before[j]);
                    }
                }
            }
            i += 1;
        }
        assert(size_views(counts@) =~= sizes(self@.entries));
        counts
    }

    /// Searches the store of every workspace. A workspace in which nothing
    /// is found is left out.
    pub fn search_all_workspaces(&self, query: &str) -> (found: Vec<(String, Vec<(&Todo, u32)>)>)
        ensures
            result_views(found@) == found_in_all(self@.entries, query@),
    {
        let mut found: Vec<(String, Vec<(&Todo, u32)>)> = Vec::new();
        let ghost ev = self@.entries;
        let mut i: usize = 0;
        proof {
            assert(ev.take(0) =~= Seq::empty());
            assert(result_views(found@) =~= found_in_all(ev.take(0), query@));
        }
        while i < self.entries.len()
            invariant
                i <= self.entries.len(),
                ev == self@.entries,
                result_views(found@) == found_in_all(ev.take(i as int), query@),
            decreases self.entries.len() - i,
        {
            proof {
                assert(ev.take(i + 1).drop_last() =~= ev.take(i as int));
                assert(ev.take(i + 1).last() == self.entries@[i as int]@);
            }
            let rows = self.entries[i].todos.search_todos(query);
            if rows.len() > 0 {
                let ghost before = result_views(found@);
                let ghost shown = row_views(rows@);
                let id = self.entries[i].workspace.id.clone();
                found.push((id, rows));
                assert(result_views(found@) =~= before.push((id@, shown)));
            }
            i += 1;
        }
        assert(ev.take(self.entries@.len() as int) =~= ev);
        found
    }

    /// Finds a workspace to work in, at `now`, and returns its id: the
    /// current one; where none is current, the first one, which becomes
    /// current; where there is none, a new default workspace.
    pub fn ensure_workspace_at(&mut self, now: Timestamp) -> (id: String)
        requires
            old(self).next_workspace_id < u32::MAX,
        ensures
            final(self)@ == old(self)@.ensured(now),
            id@ == old(self)@.ensured_id(),
            old(self).wf() ==> final(self).wf(),
            old(self)@.all_wf() ==> final(self)@.all_wf(),
    {
        if self.entries.len() == 0 {
            self.create_workspace_at(
                String::from_str(DEFAULT_WORKSPACE_NAME),
                Some(String::from_str(DEFAULT_WORKSPACE_DESCRIPTION)),
                now,
            )
        } else {
            match &self.current_workspace {
                Some(current) => current.clone(),
                None => {
                    let first = self.entries[0].workspace.id.clone();
                    self.current_workspace = Some(first.clone());
                    first
                },
            }
        }
    }

    /// Finds a workspace to work in now. See
    /// [`WorkspaceManager::ensure_workspace_at`].
    pub fn ensure_workspace(&mut self) -> (id: String)
        requires
            old(self).next_workspace_id < u32::MAX,
        ensures
            exists|now: Timestamp| final(self)@ == old(self)@.ensured(now),
            id@ == old(self)@.ensured_id(),
            old(self).wf() ==> final(self).wf(),
            old(self)@.all_wf() ==> final(self)@.all_wf(),
    {
        let now = Timestamp::now();
        self.ensure_workspace_at(now)
    }

    /// The manager that takes over, at `now`, a store kept without
    /// workspaces: one workspace, current, holding that store, or an empty
    /// one where there was no store.
    pub fn from_legacy_at(legacy: Option<TodoList>, now: Timestamp) -> (manager: WorkspaceManager)
        ensures
            manager@ == WorkspaceManagerView::taken_over(opt_store_view(legacy), now),
            manager.wf(),
    {
        let mut manager = WorkspaceManager::new();
        let ghost empty = manager@;
        manager.create_workspace_at(
            String::from_str(DEFAULT_WORKSPACE_NAME),
            Some(String::from_str(MIGRATED_WORKSPACE_DESCRIPTION)),
            now,
        );
        proof {
            assert(!holds_id(empty.entries, workspace_id(1))) by {
                if holds_id(empty.entries, workspace_id(1)) {
                    let at = choose|at: int| id_at(empty.entries, workspace_id(1), at);
                    assert(0 <= at < 0);
                }
            }
            assert(manager@.entries.len() == 1);
            assert(manager@.entries[0].workspace == (WorkspaceView {
                description: Some(MIGRATED_WORKSPACE_DESCRIPTION@),
                ..WorkspaceView::fresh(workspace_id(1), DEFAULT_WORKSPACE_NAME@, now)
            }));
        }
        let ghost made = manager@.entries[0].workspace;
        match legacy {
            Some(list) => {
                manager.entries[0].todos = list;
            },
            None => {},
        }
        assert(manager@.entries.len() == 1);
        assert(manager@.entries[0].workspace == made);
        assert(manager@.entries =~= WorkspaceManagerView::taken_over(
            opt_store_view(legacy),
            now,
        ).entries);
        manager
    }

    /// The manager that takes over, now, a store kept without workspaces.
    pub fn from_legacy(legacy: Option<TodoList>) -> (manager: WorkspaceManager)
        ensures
            exists|now: Timestamp|
                manager@ == #[trigger] WorkspaceManagerView::taken_over(
                    opt_store_view(legacy),
                    now,
                ),
            manager.wf(),
    {
        let now = Timestamp::now();
        WorkspaceManager::from_legacy_at(legacy, now)
    }
}

impl Default for TodoList {
    fn default() -> (list: Self)
        ensures
            list@.todos == Seq::<TodoView>::empty(),
            list@.next_id == 1,
    {
        TodoList::new()
    }
}

impl Default for WorkspaceManager {
    fn default() -> (manager: Self)
        ensures
            manager@.entries == Seq::<WorkspaceEntryView>::empty(),
            manager@.current_workspace.is_none(),
            manager@.next_workspace_id == 1,
    {
        WorkspaceManager::new()
    }
}

/// The workspaces by age come with the earlier made first, and are the
/// workspaces of the manager, each once for each time it stands there.
pub proof fn lemma_by_age(entries: Seq<WorkspaceEntryView>)
    ensures
        ordered(by_age(entries), older_first()),
        by_age(entries).len() == entries.len(),
        forall|w: WorkspaceView|
            #[trigger] by_age(entries).contains(w) <==> exists|i: int|
                0 <= i < entries.len() && (#[trigger] entries[i]).workspace == w,
    decreases entries.len(),
{
    let first = older_first();
    assert(ranks(first)) by {
        assert forall|x: WorkspaceView, y: WorkspaceView| #[trigger] first(x, y) implies !first(
            y,
            x,
        ) by {}
        assert forall|x: WorkspaceView, y: WorkspaceView, z: WorkspaceView|
            !#[trigger] first(x, y) && !#[trigger] first(y, z) implies !first(x, z) by {}
    }
    if entries.len() > 0 {
        let init = entries.drop_last();
        let last = entries.last();
        lemma_by_age(init);
        lemma_put_in(by_age(init), last.workspace, first);
        let out = by_age(entries);
        assert forall|w: WorkspaceView| #[trigger] out.contains(w) <==> exists|i: int|
            0 <= i < entries.len() && (#[trigger] entries[i]).workspace == w by {
            if out.contains(w) {
                if by_age(init).contains(w) {
                    let i = choose|i: int| 0 <= i < init.len() && (#[trigger] init[i]).workspace == w;
                    assert(entries[i].workspace == w);
                } else {
                    assert(entries[entries.len() - 1].workspace == w);
                }
            }
            if exists|i: int| 0 <= i < entries.len() && (#[trigger] entries[i]).workspace == w {
                let i = choose|i: int|
                    0 <= i < entries.len() && (#[trigger] entries[i]).workspace == w;
                if i < init.len() {
                    assert(init[i].workspace == w);
                    assert(by_age(init).contains(w));
                }
            }
        }
    }
}

/// A place that holds an id shows that the id is held.
pub proof fn lemma_id_held(entries: Seq<WorkspaceEntryView>, at: int)
    requires
        0 <= at < entries.len(),
    ensures
        holds_id(entries, entries[at].workspace.id),
    decreases at,
{
    let id = entries[at].workspace.id;
    if exists|j: int| 0 <= j < at && (#[trigger] entries[j]).workspace.id == id {
        let j = choose|j: int| 0 <= j < at && (#[trigger] entries[j]).workspace.id == id;
        lemma_id_held(entries, j);
    } else {
        assert(id_at(entries, id, at));
    }
}

} // verus!
