//! Templates: named sets of labels, priority, recurrence and notes that
//! can be stamped onto a task.

use crate::labels::{
    lemma_lex_chain, lemma_lex_one_way, lemma_put_in, lemma_put_in_step, lemma_put_in_stop,
    lex_before, ordered, put_in, ranks, text_before,
};
use crate::text::{
    copy_opt_text, copy_texts, opt_text, same_text, signed_decimal, signed_decimal_string, texts,
};
use crate::time::Timestamp;
use crate::todo::{RecurrencePattern, Todo, TodoView};
use vstd::prelude::*;
use vstd::string::StringExecFns;

verus! {

/// A template for tasks.
#[derive(Debug)]
pub struct TodoTemplate {
    pub id: String,
    pub name: String,
    pub description: String,
    pub tags: Vec<String>,
    pub contexts: Vec<String>,
    pub priority: u8,
    pub recurrence: RecurrencePattern,
    pub notes: Option<String>,
    pub created_at: Timestamp,
}

/// The mathematical content of a [`TodoTemplate`].
pub struct TodoTemplateView {
    pub id: Seq<char>,
    pub name: Seq<char>,
    pub description: Seq<char>,
    pub tags: Seq<Seq<char>>,
    pub contexts: Seq<Seq<char>>,
    pub priority: u8,
    pub recurrence: RecurrencePattern,
    pub notes: Option<Seq<char>>,
    pub created_at: Timestamp,
}

impl View for TodoTemplate {
    type V = TodoTemplateView;

    open spec fn view(&self) -> TodoTemplateView {
        TodoTemplateView {
            id: self.id@,
            name: self.name@,
            description: self.description@,
            tags: texts(self.tags@),
            contexts: texts(self.contexts@),
            priority: self.priority,
            recurrence: self.recurrence,
            notes: opt_text(self.notes),
            created_at: self.created_at,
        }
    }
}

/// The templates by id.
#[derive(Debug)]
pub struct TemplateManager {
    /// The templates, no two with the same id, in the order in which their
    /// ids came in.
    pub templates: Vec<TodoTemplate>,
}

/// The views of a sequence of templates.
pub open spec fn template_views(templates: Seq<TodoTemplate>) -> Seq<TodoTemplateView> {
    Seq::new(templates.len(), |i: int| templates[i]@)
}

/// The views of references to templates.
pub open spec fn template_ref_views(templates: Seq<&TodoTemplate>) -> Seq<TodoTemplateView> {
    Seq::new(templates.len(), |i: int| templates[i]@)
}

impl View for TemplateManager {
    type V = Seq<TodoTemplateView>;

    open spec fn view(&self) -> Seq<TodoTemplateView> {
        template_views(self.templates@)
    }
}

/// The id of a template made at a moment: `template_` and the moment in
/// milliseconds.
pub open spec fn template_id_at(now: Timestamp) -> Seq<char> {
    "template_"@ + signed_decimal(now.millis_spec())
}

/// Whether `at` is the first place among `templates` of a template with
/// the id.
pub open spec fn template_at(templates: Seq<TodoTemplateView>, id: Seq<char>, at: int) -> bool {
    &&& 0 <= at < templates.len()
    &&& templates[at].id == id
    &&& forall|j: int| 0 <= j < at ==> (#[trigger] templates[j]).id != id
}

/// Whether some template has the id.
pub open spec fn holds_template(templates: Seq<TodoTemplateView>, id: Seq<char>) -> bool {
    exists|at: int| template_at(templates, id, at)
}

/// The first place of a template with the id.
pub open spec fn template_place(templates: Seq<TodoTemplateView>, id: Seq<char>) -> int {
    choose|at: int| template_at(templates, id, at)
}

/// There is one first place of an id.
pub proof fn lemma_template_place(templates: Seq<TodoTemplateView>, id: Seq<char>, at: int)
    requires
        template_at(templates, id, at),
    ensures
        holds_template(templates, id),
        template_place(templates, id) == at,
{
    let p = template_place(templates, id);
    assert(template_at(templates, id, p));
    if p < at {
        assert(templates[p].id != id);
    }
    if at < p {
        assert(templates[at].id != id);
    }
}

/// The order of templates: alphabetical by name.
pub open spec fn name_first() -> spec_fn(TodoTemplateView, TodoTemplateView) -> bool {
    |a: TodoTemplateView, b: TodoTemplateView| lex_before(a.name, b.name)
}

/// The templates by name; those of the same name stay in the order of
/// `templates`.
pub open spec fn by_name(templates: Seq<TodoTemplateView>) -> Seq<TodoTemplateView>
    decreases templates.len(),
{
    if templates.len() == 0 {
        Seq::empty()
    } else {
        put_in(by_name(templates.drop_last()), templates.last(), name_first())
    }
}

/// The templates with one more: in the place of the template that had its
/// id, or else behind all others.
pub open spec fn with_template(templates: Seq<TodoTemplateView>, template: TodoTemplateView) -> Seq<
    TodoTemplateView,
> {
    if holds_template(templates, template.id) {
        templates.update(template_place(templates, template.id), template)
    } else {
        templates.push(template)
    }
}

impl TodoTemplateView {
    /// An empty template made at `now`.
    pub open spec fn fresh(name: Seq<char>, description: Seq<char>, now: Timestamp) -> TodoTemplateView {
        TodoTemplateView {
            id: template_id_at(now),
            name,
            description,
            tags: Seq::empty(),
            contexts: Seq::empty(),
            priority: 0,
            recurrence: RecurrencePattern::Never,
            notes: None,
            created_at: now,
        }
    }

    /// The template that is taken from a task at `now`.
    pub open spec fn taken_from(todo: TodoView, name: Seq<char>, now: Timestamp) -> TodoTemplateView {
        TodoTemplateView {
            id: template_id_at(now),
            name,
            description: todo.description,
            tags: todo.tags,
            contexts: todo.contexts,
            priority: todo.priority,
            recurrence: todo.recurrence,
            notes: todo.notes,
            created_at: now,
        }
    }

    /// A task after the template was stamped onto it: labels, priority,
    /// recurrence and notes are those of the template, which it names.
    pub open spec fn stamped(self, todo: TodoView) -> TodoView {
        TodoView {
            tags: self.tags,
            contexts: self.contexts,
            priority: self.priority,
            recurrence: self.recurrence,
            notes: self.notes,
            template_id: Some(self.id),
            ..todo
        }
    }

    /// A template that is built in.
    pub open spec fn builtin(
        id: Seq<char>,
        name: Seq<char>,
        context: Seq<char>,
        tag: Seq<char>,
        priority: u8,
        notes: Option<Seq<char>>,
        now: Timestamp,
    ) -> TodoTemplateView {
        TodoTemplateView {
            id,
            name,
            description: Seq::empty(),
            tags: seq![tag],
            contexts: seq![context],
            priority,
            recurrence: RecurrencePattern::Never,
            notes,
            created_at: now,
        }
    }
}

/// The notes of the built-in template for bug reports.
pub const BUG_REPORT_NOTES: &'static str =
    "Steps to reproduce:\n1. \n2. \n3. \n\nExpected behavior:\n\nActual behavior:\n\nPossible fix:";

/// The notes of the built-in template for meetings.
pub const MEETING_NOTES: &'static str =
    "Agenda:\n- \n- \n- \n\nNotes:\n- \n- \n- \n\nAction items:\n- \n- ";

/// The templates that are built in, made at `now`.
pub open spec fn builtin_templates(now: Timestamp) -> Seq<TodoTemplateView> {
    let work = TodoTemplateView::builtin(
        "builtin-work-task"@,
        "Work Task"@,
        "work"@,
        "task"@,
        2,
        None,
        now,
    );
    let personal = TodoTemplateView::builtin(
        "builtin-personal-task"@,
        "Personal Task"@,
        "personal"@,
        "life"@,
        1,
        None,
        now,
    );
    let bug = TodoTemplateView::builtin(
        "builtin-bug-report"@,
        "Bug Report"@,
        "development"@,
        "bug"@,
        4,
        Some(BUG_REPORT_NOTES@),
        now,
    );
    let meeting = TodoTemplateView::builtin(
        "builtin-meeting-notes"@,
        "Meeting Notes"@,
        "meetings"@,
        "meeting"@,
        1,
        Some(MEETING_NOTES@),
        now,
    );
    with_template(
        with_template(with_template(with_template(Seq::empty(), work), personal), bug),
        meeting,
    )
}

/// The templates by name come in alphabetical order of their names, and
/// are the templates handed in.
pub proof fn lemma_by_name(templates: Seq<TodoTemplateView>)
    ensures
        ordered(by_name(templates), name_first()),
        by_name(templates).len() == templates.len(),
        forall|t: TodoTemplateView|
            #[trigger] by_name(templates).contains(t) <==> templates.contains(t),
    decreases templates.len(),
{
    let first = name_first();
    assert(ranks(first)) by {
        assert forall|x: TodoTemplateView, y: TodoTemplateView| #[trigger] first(
            x,
            y,
        ) implies !first(y, x) by {
            lemma_lex_one_way(x.name, y.name);
        }
        assert forall|x: TodoTemplateView, y: TodoTemplateView, z: TodoTemplateView|
            !#[trigger] first(x, y) && !#[trigger] first(y, z) implies !first(x, z) by {
            lemma_lex_chain(x.name, y.name, z.name);
        }
    }
    if templates.len() > 0 {
        let init = templates.drop_last();
        let last = templates.last();
        lemma_by_name(init);
        lemma_put_in(by_name(init), last, first);
        let out = by_name(templates);
        assert forall|t: TodoTemplateView| #[trigger] out.contains(t) <==> templates.contains(
            t,
        ) by {
            if templates.contains(t) {
                let k = choose|k: int| 0 <= k < templates.len() && templates[k] == t;
                if k < init.len() {
                    assert(init[k] == t);
                    assert(init.contains(t));
                }
            }
            if init.contains(t) {
                let k = choose|k: int| 0 <= k < init.len() && init[k] == t;
                assert(templates[k] == t);
            }
            assert(templates[templates.len() - 1] == last);
            assert(by_name(init).contains(t) <==> init.contains(t));
        }
    }
}

/// The id of a template made at `now`.
pub fn make_template_id(now: &Timestamp) -> (id: String)
    ensures
        id@ == template_id_at(*now),
{
    let mut id = String::from_str("template_");
    id.append(signed_decimal_string(now.millis()).as_str());
    id
}

impl TodoTemplate {
    /// An empty template made at `now`.
    pub fn new_at(name: String, description: String, now: Timestamp) -> (template: TodoTemplate)
        ensures
            template@ == TodoTemplateView::fresh(name@, description@, now),
    {
        let template = TodoTemplate {
            id: make_template_id(&now),
            name,
            description,
            tags: Vec::new(),
            contexts: Vec::new(),
            priority: 0,
            recurrence: RecurrencePattern::Never,
            notes: None,
            created_at: now,
        };
        assert(template@.tags =~= Seq::empty());
        assert(template@.contexts =~= Seq::empty());
        template
    }

    /// An empty template made now.
    pub fn new(name: String, description: String) -> (template: TodoTemplate)
        ensures
            exists|now: Timestamp| template@ == TodoTemplateView::fresh(name@, description@, now),
    {
        let now = Timestamp::now();
        TodoTemplate::new_at(name, description, now)
    }

    /// The template that is taken from a task at `now`: its description,
    /// labels, priority, recurrence and notes under a name.
    pub fn from_todo_at(todo: &Todo, name: String, now: Timestamp) -> (template: TodoTemplate)
        ensures
            template@ == TodoTemplateView::taken_from(todo@, name@, now),
    {
        TodoTemplate {
            id: make_template_id(&now),
            name,
            description: todo.description.clone(),
            tags: copy_texts(&todo.tags),
            contexts: copy_texts(&todo.contexts),
            priority: todo.priority,
            recurrence: todo.recurrence,
            notes: copy_opt_text(&todo.notes),
            created_at: now,
        }
    }

    /// The template that is taken from a task now.
    pub fn from_todo(todo: &Todo, name: String) -> (template: TodoTemplate)
        ensures
            exists|now: Timestamp| template@ == TodoTemplateView::taken_from(todo@, name@, now),
    {
        let now = Timestamp::now();
        TodoTemplate::from_todo_at(todo, name, now)
    }

    /// Stamps the template onto a task: the task gets the labels, the
    /// priority, the recurrence and the notes of the template, and names
    /// it.
    pub fn apply_to_todo(&self, todo: &mut Todo)
        ensures
            final(todo)@ == self@.stamped(old(todo)@),
    {
        todo.tags = copy_texts(&self.tags);
        todo.contexts = copy_texts(&self.contexts);
        todo.priority = self.priority;
        todo.recurrence = self.recurrence;
        todo.notes = copy_opt_text(&self.notes);
        todo.template_id = Some(self.id.clone());
    }

    /// A copy of the template.
    pub fn duplicate(&self) -> (copy: TodoTemplate)
        ensures
            copy@ == self@,
    {
        TodoTemplate {
            id: self.id.clone(),
            name: self.name.clone(),
            description: self.description.clone(),
            tags: copy_texts(&self.tags),
            contexts: copy_texts(&self.contexts),
            priority: self.priority,
            recurrence: self.recurrence,
            notes: copy_opt_text(&self.notes),
            created_at: self.created_at,
        }
    }

    /// A built-in template with one context and one tag.
    fn builtin(
        id: &str,
        name: &str,
        context: &str,
        tag: &str,
        priority: u8,
        notes: Option<String>,
        now: Timestamp,
    ) -> (template: TodoTemplate)
        ensures
            template@ == TodoTemplateView::builtin(
                id@,
                name@,
                context@,
                tag@,
                priority,
                opt_text(notes),
                now,
            ),
    {
        let mut tags: Vec<String> = Vec::new();
        tags.push(String::from_str(tag));
        let mut contexts: Vec<String> = Vec::new();
        contexts.push(String::from_str(context));
        let template = TodoTemplate {
            id: String::from_str(id),
            name: String::from_str(name),
            description: String::new(),
            tags,
            contexts,
            priority,
            recurrence: RecurrencePattern::Never,
            notes,
            created_at: now,
        };
        assert(template@.tags =~= seq![tag@]);
        assert(template@.contexts =~= seq![context@]);
        template
    }
}

impl Clone for TodoTemplate {
    fn clone(&self) -> (copy: Self)
        ensures
            copy@ == self@,
    {
        self.duplicate()
    }
}

impl TemplateManager {
    /// A manager without templates.
    pub fn new() -> (manager: TemplateManager)
        ensures
            manager@ == Seq::<TodoTemplateView>::empty(),
    {
        let manager = TemplateManager { templates: Vec::new() };
        assert(manager@ =~= Seq::<TodoTemplateView>::empty());
        manager
    }

    /// The place of the template with the id.
    pub fn find(&self, id: &str) -> (place: Option<usize>)
        ensures
            match place {
                Some(at) => template_at(self@, id@, at as int) && holds_template(self@, id@)
                    && template_place(self@, id@) == at,
                None => !holds_template(self@, id@),
            },
    {
        let mut i: usize = 0;
        while i < self.templates.len()
            invariant
                i <= self.templates.len(),
                forall|j: int| 0 <= j < i ==> (#[trigger] self@[j]).id != id@,
            decreases self.templates.len() - i,
        {
            if same_text(&self.templates[i].id, id) {
                proof {
                    assert(self@[i as int].id == id@);
                    lemma_template_place(self@, id@, i as int);
                }
                return Some(i);
            }
            i += 1;
        }
        proof {
            if holds_template(self@, id@) {
                let at = choose|at: int| template_at(self@, id@, at);
                assert(self@[at].id != id@);
            }
        }
        None
    }

    /// Adds a template; it takes the place of a template with the same id.
    pub fn add_template(&mut self, template: TodoTemplate)
        ensures
            final(self)@ == with_template(old(self)@, template@),
    {
        match self.find(template.id.as_str()) {
            Some(at) => {
                self.templates[at] = template;
                assert(self@ =~= old(self)@.update(at as int, template@));
            },
            None => {
                self.templates.push(template);
                assert(self@ =~= old(self)@.push(template@));
            },
        }
    }

    /// Removes the template with the id and returns it.
    pub fn remove_template(&mut self, id: &str) -> (gone: Option<TodoTemplate>)
        ensures
            match gone {
                Some(template) => holds_template(old(self)@, id@) && template@ == old(
                    self,
                )@[template_place(old(self)@, id@)] && final(self)@ == old(self)@.remove(
                    template_place(old(self)@, id@),
                ),
                None => !holds_template(old(self)@, id@) && final(self)@ == old(self)@,
            },
    {
        match self.find(id) {
            Some(at) => {
                let template = self.templates.remove(at);
                assert(self@ =~= old(self)@.remove(at as int));
                Some(template)
            },
            None => None,
        }
    }

    /// The template with the id.
    pub fn get_template(&self, id: &str) -> (found: Option<&TodoTemplate>)
        ensures
            match found {
                Some(template) => holds_template(self@, id@) && template@
                    == self@[template_place(self@, id@)],
                None => !holds_template(self@, id@),
            },
    {
        match self.find(id) {
            Some(at) => Some(&self.templates[at]),
            None => None,
        }
    }

    /// All templates, in alphabetical order of their names.
    pub fn get_all_templates(&self) -> (found: Vec<&TodoTemplate>)
        ensures
            template_ref_views(found@) == by_name(self@),
    {
        let mut found: Vec<&TodoTemplate> = Vec::new();
        let ghost tv = self@;
        let mut i: usize = 0;
        proof {
            assert(tv.take(0) =~= Seq::empty());
            assert(template_ref_views(found@) =~= by_name(tv.take(0)));
        }
        while i < self.templates.len()
            invariant
                i <= self.templates.len(),
                tv == self@,
                template_ref_views(found@) == by_name(tv.take(i as int)),
            decreases self.templates.len() - i,
        {
            let template = &self.templates[i];
            let ghost all = template_ref_views(found@);
            let ghost x = template@;
            proof {
                assert(tv.take(i + 1).drop_last() =~= tv.take(i as int));
                assert(tv.take(i + 1).last() == self.templates@[i as int]@);
            }
            let mut p: usize = found.len();
            proof {
                assert(all.take(p as int) =~= all);
                assert(all.skip(p as int) =~= Seq::empty());
                assert(put_in(all, x, name_first()) =~= put_in(all.take(p as int), x, name_first())
                    + all.skip(p as int));
            }
            while p > 0 && text_before(template.name.as_str(), found[p - 1].name.as_str())
                invariant
                    p <= found.len(),
                    all == template_ref_views(found@),
                    x == template@,
                    put_in(all, x, name_first()) == put_in(all.take(p as int), x, name_first())
                        + all.skip(p as int),
                decreases p,
            {
                proof {
                    assert(all[p - 1] == found@[p - 1]@);
                    lemma_put_in_step(all, x, name_first(), p as int);
                }
                p -= 1;
            }
            proof {
                if p > 0 {
                    assert(all[p - 1] == found@[p - 1]@);
                }
                lemma_put_in_stop(all, x, name_first(), p as int);
            }
            found.insert(p, template);
            assert(template_ref_views(found@) =~= all.insert(p as int, x));
            i += 1;
        }
        assert(tv.take(self.templates@.len() as int) =~= tv);
        found
    }

    /// Takes a template from a task at `now`, adds it and returns its id.
    pub fn create_template_from_todo_at(&mut self, todo: &Todo, name: String, now: Timestamp) -> (id:
        String)
        ensures
            id@ == template_id_at(now),
            final(self)@ == with_template(
                old(self)@,
                TodoTemplateView::taken_from(todo@, name@, now),
            ),
    {
        let template = TodoTemplate::from_todo_at(todo, name, now);
        let id = template.id.clone();
        self.add_template(template);
        id
    }

    /// Takes a template from a task now, adds it and returns its id.
    pub fn create_template_from_todo(&mut self, todo: &Todo, name: String) -> (id: String)
        ensures
            exists|now: Timestamp|
                id@ == template_id_at(now) && final(self)@ == with_template(
                    old(self)@,
                    #[trigger] TodoTemplateView::taken_from(todo@, name@, now),
                ),
    {
        let now = Timestamp::now();
        self.create_template_from_todo_at(todo, name, now)
    }

    /// A manager with the built-in templates, made at `now`: for work
    /// tasks, personal tasks, bug reports and meeting notes.
    pub fn with_builtin_templates_at(now: Timestamp) -> (manager: TemplateManager)
        ensures
            manager@ == builtin_templates(now),
    {
        let mut manager = TemplateManager::new();
        manager.add_template(
            TodoTemplate::builtin("builtin-work-task", "Work Task", "work", "task", 2, None, now),
        );
        manager.add_template(
            TodoTemplate::builtin(
                "builtin-personal-task",
                "Personal Task",
                "personal",
                "life",
                1,
                None,
                now,
            ),
        );
        manager.add_template(
            TodoTemplate::builtin(
                "builtin-bug-report",
                "Bug Report",
                "development",
                "bug",
                4,
                Some(String::from_str(BUG_REPORT_NOTES)),
                now,
            ),
        );
        manager.add_template(
            TodoTemplate::builtin(
                "builtin-meeting-notes",
                "Meeting Notes",
                "meetings",
                "meeting",
                1,
                Some(String::from_str(MEETING_NOTES)),
                now,
            ),
        );
        manager
    }

    /// A manager with the built-in templates, made now.
    pub fn with_builtin_templates() -> (manager: TemplateManager)
        ensures
            exists|now: Timestamp| manager@ == builtin_templates(now),
    {
        let now = Timestamp::now();
        TemplateManager::with_builtin_templates_at(now)
    }
}

impl Default for TemplateManager {
    fn default() -> (manager: Self)
        ensures
            manager@ == Seq::<TodoTemplateView>::empty(),
    {
        TemplateManager::new()
    }
}

} // verus!
