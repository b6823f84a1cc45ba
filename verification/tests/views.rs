use paperclip::modes::{AppMode, BulkOperationType, ViewMode};
use paperclip::outline::DueDateFilter;
use paperclip::storage::Storage;
use paperclip::store::TodoList;
use paperclip::template::{TemplateManager, TodoTemplate};
use paperclip::time::Timestamp;
use paperclip::todo::{RecurrencePattern, Todo};
use paperclip::workspace::WorkspaceManager;

fn t(s: i64) -> Timestamp {
    Timestamp::new(s, 0)
}

fn words(list: &[&str]) -> Vec<String> {
    list.iter().map(|w| w.to_string()).collect()
}

#[test]
fn labels_come_in_alphabetical_order() {
    let mut list = TodoList::new();
    list.add_todo_at("a #pear #Apple @zoo".to_string(), t(1));
    list.add_todo_at("b #fig #apple @Yard @zoo".to_string(), t(1));
    list.add_todo_at("c #apple2 #_x #Zebra".to_string(), t(1));
    assert_eq!(list.get_all_tags(), words(&["_x", "apple", "apple2", "fig", "pear", "zebra"]));
    assert_eq!(list.get_all_contexts(), words(&["yard", "zoo"]));
    assert!(TodoList::new().get_all_tags().is_empty());
}

#[test]
fn labels_are_counted_by_task() {
    let mut list = TodoList::new();
    list.add_todo_at("a #pear #apple @zoo".to_string(), t(1));
    list.add_todo_at("b #fig #apple #apple @yard @zoo".to_string(), t(1));
    list.add_todo_at("c #fig #apple".to_string(), t(1));
    assert_eq!(
        list.get_tag_counts(),
        vec![("apple".to_string(), 3), ("fig".to_string(), 2), ("pear".to_string(), 1)]
    );
    assert_eq!(
        list.get_context_counts(),
        vec![("zoo".to_string(), 2), ("yard".to_string(), 1)]
    );
    list.add_todo_at("d #pear".to_string(), t(1));
    assert_eq!(
        list.get_tag_counts(),
        vec![("apple".to_string(), 3), ("fig".to_string(), 2), ("pear".to_string(), 2)]
    );
}

#[test]
fn view_names() {
    assert_eq!(ViewMode::All.get_view_name(), "all todos");
    assert_eq!(ViewMode::Pending.get_view_name(), "pending todos");
    assert_eq!(ViewMode::Completed.get_view_name(), "completed todos");
    assert_eq!(ViewMode::Search("x".to_string()).get_view_name(), "search results");
    assert_eq!(ViewMode::FilterByTag("x".to_string()).get_view_name(), "filtered by tag");
    assert_eq!(ViewMode::FilterByContext("x".to_string()).get_view_name(), "filtered by context");
    assert_eq!(ViewMode::FilterByDueDate(DueDateFilter::Overdue).get_view_name(), "overdue todos");
    assert_eq!(ViewMode::FilterByDueDate(DueDateFilter::Today).get_view_name(), "due today");
    assert_eq!(ViewMode::FilterByDueDate(DueDateFilter::Tomorrow).get_view_name(), "due tomorrow");
    assert_eq!(ViewMode::FilterByDueDate(DueDateFilter::ThisWeek).get_view_name(), "due this week");
    assert_eq!(ViewMode::FilterByDueDate(DueDateFilter::NoDueDate).get_view_name(), "no due date");
}

#[test]
fn views_cycle() {
    assert_eq!(ViewMode::All.cycle_view_mode(), ViewMode::Pending);
    assert_eq!(ViewMode::Pending.cycle_view_mode(), ViewMode::Completed);
    assert_eq!(ViewMode::Completed.cycle_view_mode(), ViewMode::All);
    assert_eq!(ViewMode::Search("x".to_string()).cycle_view_mode(), ViewMode::All);
    assert_eq!(ViewMode::FilterByDueDate(DueDateFilter::Today).cycle_view_mode(), ViewMode::All);
    let mut mode = ViewMode::All.cycle_due_date_filter();
    let mut seen = Vec::new();
    for _ in 0..6 {
        seen.push(mode.clone());
        mode = mode.cycle_due_date_filter();
    }
    assert_eq!(
        seen,
        vec![
            ViewMode::FilterByDueDate(DueDateFilter::Overdue),
            ViewMode::FilterByDueDate(DueDateFilter::Today),
            ViewMode::FilterByDueDate(DueDateFilter::Tomorrow),
            ViewMode::FilterByDueDate(DueDateFilter::ThisWeek),
            ViewMode::FilterByDueDate(DueDateFilter::NoDueDate),
            ViewMode::FilterByDueDate(DueDateFilter::Overdue),
        ]
    );
}

#[test]
fn modes_compare() {
    assert_eq!(AppMode::Normal, AppMode::Normal);
    assert_ne!(AppMode::Normal, AppMode::Insert);
    assert_eq!(BulkOperationType::SetPriority(2), BulkOperationType::SetPriority(2));
    assert_ne!(BulkOperationType::Complete, BulkOperationType::Delete);
    assert_eq!(
        BulkOperationType::MoveTo("ws_2".to_string()).clone(),
        BulkOperationType::MoveTo("ws_2".to_string())
    );
}

fn manager() -> WorkspaceManager {
    let mut manager = WorkspaceManager::new();
    manager.create_workspace("One".to_string(), None);
    manager.create_workspace("Two".to_string(), None);
    {
        let list = manager.get_todo_list_mut("ws_1").unwrap();
        let a = list.add_todo_at("Alpha #x @home".to_string(), t(1));
        list.add_child_todo_at(a, "Beta #y".to_string(), t(2));
        let c = list.add_todo_at("Gamma #x".to_string(), t(3));
        list.complete_at(c, t(4));
    }
    manager.get_todo_list_mut("ws_2").unwrap().add_todo_at("Delta alpha".to_string(), t(5));
    manager
}

fn ids(rows: &Vec<(&Todo, u32)>) -> Vec<(u32, u32)> {
    rows.iter().map(|(t, d)| (t.id, *d)).collect()
}

#[test]
fn what_a_view_shows() {
    let m = manager();
    let now = t(10);
    assert_eq!(ids(&m.get_visible_todos_at(&ViewMode::All, now)), vec![(1, 0), (2, 1), (3, 0)]);
    assert_eq!(ids(&m.get_visible_todos_at(&ViewMode::Pending, now)), vec![(1, 0), (2, 1)]);
    assert_eq!(ids(&m.get_visible_todos_at(&ViewMode::Completed, now)), vec![(3, 0)]);
    assert_eq!(
        ids(&m.get_visible_todos_at(&ViewMode::FilterByTag("X".to_string()), now)),
        vec![(1, 0), (3, 0)]
    );
    assert_eq!(
        ids(&m.get_visible_todos_at(&ViewMode::FilterByContext("home".to_string()), now)),
        vec![(1, 0)]
    );
    assert_eq!(
        ids(&m.get_visible_todos_at(&ViewMode::FilterByDueDate(DueDateFilter::NoDueDate), now)),
        vec![(1, 0), (2, 1), (3, 0)]
    );
    // A search goes through every workspace.
    let found = m.get_visible_todos_at(&ViewMode::Search("ALPHA".to_string()), now);
    assert_eq!(found.len(), 2);
    assert_eq!(found[0].0.description, "Alpha x home");
    assert_eq!(found[1].0.description, "Delta alpha");
    assert_eq!(ids(&m.get_visible_todos(&ViewMode::All)), vec![(1, 0), (2, 1), (3, 0)]);
    let none = WorkspaceManager::new();
    assert!(none.get_visible_todos_at(&ViewMode::All, now).is_empty());
    assert!(none.get_visible_todos_at(&ViewMode::Search("a".to_string()), now).is_empty());
}

#[test]
fn the_selected_row_and_ranges_of_rows() {
    let m = manager();
    let now = t(10);
    assert_eq!(m.get_selected_todo_id_at(&ViewMode::All, 0, now), Some(1));
    assert_eq!(m.get_selected_todo_id_at(&ViewMode::All, 2, now), Some(3));
    assert_eq!(m.get_selected_todo_id_at(&ViewMode::All, 3, now), None);
    assert_eq!(m.get_selected_todo_id_at(&ViewMode::Completed, 0, now), Some(3));
    assert_eq!(m.get_todo_ids_in_range_at(&ViewMode::All, 0, 1, now), vec![1, 2]);
    assert_eq!(m.get_todo_ids_in_range_at(&ViewMode::All, 2, 1, now), vec![2, 3]);
    assert_eq!(m.get_todo_ids_in_range_at(&ViewMode::All, 1, 9, now), vec![2, 3]);
    assert_eq!(m.get_todo_ids_in_range_at(&ViewMode::All, 1, 1, now), vec![2]);
    assert_eq!(m.get_todo_ids_in_range_at(&ViewMode::All, 5, 9, now), Vec::<u32>::new());
    assert_eq!(m.get_todo_ids_in_range_at(&ViewMode::All, 0, usize::MAX, now), vec![1, 2, 3]);
}

#[test]
fn storage_keeps_its_two_paths() {
    let storage = Storage::new("/data/todos.json".to_string(), "/data/workspaces.json".to_string());
    assert_eq!(storage.get_data_file_path(), "/data/todos.json");
    assert_eq!(storage.get_workspace_file_path(), "/data/workspaces.json");
}

#[test]
fn templates_are_stamped_onto_tasks() {
    let mut todo = Todo::new_at(1, "Fix #a @b".to_string(), t(1));
    todo.set_notes(Some("mine".to_string()));
    let mut template = TodoTemplate::new_at("T".to_string(), "d".to_string(), Timestamp::new(2, 345_000_000));
    assert_eq!(template.id, "template_2345");
    template.tags.push("t".to_string());
    template.priority = 3;
    template.recurrence = RecurrencePattern::Daily;
    template.apply_to_todo(&mut todo);
    assert_eq!(todo.tags, words(&["t"]));
    assert!(todo.contexts.is_empty());
    assert_eq!(todo.priority, 3);
    assert_eq!(todo.recurrence, RecurrencePattern::Daily);
    assert_eq!(todo.notes, None);
    assert_eq!(todo.template_id, Some("template_2345".to_string()));
    assert_eq!(todo.description, "Fix a b");
    let early = TodoTemplate::new_at("T".to_string(), "d".to_string(), Timestamp::new(-2, 0));
    assert_eq!(early.id, "template_-2000");
}

#[test]
fn a_template_is_taken_from_a_task() {
    let mut todo = Todo::new_at(1, "Fix #a @b".to_string(), t(1));
    todo.set_priority(2);
    todo.set_notes(Some("n".to_string()));
    let template = TodoTemplate::from_todo_at(&todo, "Named".to_string(), t(7));
    assert_eq!(template.id, "template_7000");
    assert_eq!(template.name, "Named");
    assert_eq!(template.description, "Fix a b");
    assert_eq!(template.tags, words(&["a"]));
    assert_eq!(template.contexts, words(&["b"]));
    assert_eq!(template.priority, 2);
    assert_eq!(template.notes, Some("n".to_string()));
    assert_eq!(template.created_at, t(7));
    let by_clock = TodoTemplate::from_todo(&todo, "x".to_string());
    assert!(by_clock.id.starts_with("template_"));
    let fresh = TodoTemplate::new("n".to_string(), "d".to_string());
    assert!(fresh.tags.is_empty());
}

#[test]
fn the_template_manager_keeps_templates_by_id() {
    let mut manager = TemplateManager::new();
    assert!(manager.get_all_templates().is_empty());
    let todo = Todo::new_at(1, "Fix #a".to_string(), t(1));
    let id = manager.create_template_from_todo_at(&todo, "Zed".to_string(), t(3));
    assert_eq!(id, "template_3000");
    manager.add_template(TodoTemplate::new_at("Alpha".to_string(), "".to_string(), t(4)));
    manager.add_template(TodoTemplate::new_at("Mid".to_string(), "".to_string(), t(5)));
    let names: Vec<String> = manager.get_all_templates().iter().map(|t| t.name.clone()).collect();
    assert_eq!(names, words(&["Alpha", "Mid", "Zed"]));
    // The same id replaces.
    manager.add_template(TodoTemplate::new_at("Beta".to_string(), "".to_string(), t(4)));
    assert_eq!(manager.templates.len(), 3);
    assert_eq!(manager.get_template("template_4000").unwrap().name, "Beta");
    assert!(manager.get_template("nothing").is_none());
    let gone = manager.remove_template("template_4000").unwrap();
    assert_eq!(gone.name, "Beta");
    assert!(manager.remove_template("template_4000").is_none());
    assert_eq!(manager.templates.len(), 2);
    let second = manager.create_template_from_todo(&todo, "Now".to_string());
    assert!(manager.get_template(&second).is_some());
    assert!(TemplateManager::default().templates.is_empty());
}

#[test]
fn the_built_in_templates() {
    let manager = TemplateManager::with_builtin_templates_at(t(0));
    let names: Vec<String> = manager.get_all_templates().iter().map(|t| t.name.clone()).collect();
    assert_eq!(names, words(&["Bug Report", "Meeting Notes", "Personal Task", "Work Task"]));
    let work = manager.get_template("builtin-work-task").unwrap();
    assert_eq!(work.priority, 2);
    assert_eq!(work.contexts, words(&["work"]));
    assert_eq!(work.tags, words(&["task"]));
    assert_eq!(work.notes, None);
    let personal = manager.get_template("builtin-personal-task").unwrap();
    assert_eq!(personal.priority, 1);
    assert_eq!(personal.contexts, words(&["personal"]));
    assert_eq!(personal.tags, words(&["life"]));
    let bug = manager.get_template("builtin-bug-report").unwrap();
    assert_eq!(bug.priority, 4);
    assert!(bug.notes.clone().unwrap().starts_with("Steps to reproduce:\n1. \n2. \n3. \n\n"));
    let meeting = manager.get_template("builtin-meeting-notes").unwrap();
    assert_eq!(meeting.priority, 1);
    assert!(meeting.notes.clone().unwrap().ends_with("Action items:\n- \n- "));
    assert_eq!(meeting.created_at, t(0));
}
