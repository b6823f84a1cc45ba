use paperclip::history::{Command, CommandHistory};
use paperclip::session::Session;
use paperclip::template::TemplateManager;
use paperclip::time::Timestamp;
use paperclip::todo::{RecurrencePattern, Todo, TodoStatus};
use paperclip::workspace::WorkspaceManager;

fn t(s: i64) -> Timestamp {
    Timestamp::new(s, 0)
}

fn session() -> Session {
    let mut session = Session::new();
    assert_eq!(session.create_workspace_at("One".to_string(), None, t(0)), Some("ws_1".to_string()));
    session
}

fn outline(session: &Session) -> Vec<(u32, u32)> {
    match session.workspace_manager().get_current_todo_list() {
        Some(list) => list.get_flattened_todos().iter().map(|(t, d)| (t.id, *d)).collect(),
        None => Vec::new(),
    }
}

fn todo(session: &Session, id: u32) -> Todo {
    session.workspace_manager().get_current_todo_list().unwrap().get_todo(id).unwrap().clone()
}

#[test]
fn nothing_is_added_without_a_workspace() {
    let mut session = Session::new();
    assert_eq!(session.add_todo_at("a".to_string(), t(1)), None);
    assert_eq!(session.add_child_todo_at(1, "a".to_string(), t(1)), None);
    assert_eq!(session.toggle_complete_at(1, t(1)), None);
    assert!(!session.delete_todo(1));
    assert_eq!(session.delete_with_children(1), 0);
    assert_eq!(session.bulk_delete_todos(&vec![1]), 0);
    assert_eq!(session.bulk_complete_todos_at(&vec![1], t(1)), 0);
    assert_eq!(session.bulk_set_priority(&vec![1], 3), 0);
    assert_eq!(session.increase_priority(1), None);
    assert!(!session.edit_todo_at(1, "b".to_string(), t(1)));
    assert!(!session.set_notes(1, None));
    assert_eq!(session.toggle_expansion(1), None);
    assert_eq!(session.toggle_timer_at(1, t(1)), None);
    assert_eq!(session.update_recurring_todos_at(t(1)), 0);
    assert!(!session.replace_todos_at(vec!["x".to_string()], t(1)));
    assert!(!session.command_history().can_undo());
}

#[test]
fn an_addition_is_recorded_and_can_be_undone_and_redone() {
    let mut s = session();
    assert_eq!(s.add_todo_at("A #x".to_string(), t(1)), Some(1));
    assert_eq!(s.add_todo_at("B".to_string(), t(2)), Some(2));
    assert_eq!(outline(&s), vec![(1, 0), (2, 0)]);
    match s.undo_at(t(3)) {
        Some((Command::AddTodo { workspace_id, todo }, applied)) => {
            assert_eq!(workspace_id, "ws_1");
            assert_eq!(todo.id, 2);
            assert_eq!(todo.description, "B");
            assert!(applied);
        },
        _ => panic!("the addition of B is undone"),
    }
    assert_eq!(outline(&s), vec![(1, 0)]);
    match s.redo_at(t(4)) {
        Some((Command::AddTodo { todo, .. }, applied)) => {
            assert_eq!(todo.id, 2);
            assert!(applied);
        },
        _ => panic!("the addition of B is redone"),
    }
    assert_eq!(outline(&s), vec![(1, 0), (2, 0)]);
    assert!(s.redo_at(t(5)).is_none());
    // A new command after an undo leaves nothing to redo.
    assert!(s.undo_at(t(6)).is_some());
    assert_eq!(s.add_todo_at("C".to_string(), t(7)), Some(3));
    assert!(s.redo_at(t(8)).is_none());
    assert_eq!(outline(&s), vec![(1, 0), (3, 0)]);
}

#[test]
fn undo_goes_to_the_workspace_of_the_command() {
    let mut s = session();
    s.create_workspace_at("Two".to_string(), None, t(0));
    s.add_todo_at("A".to_string(), t(1));
    assert!(s.switch_workspace("ws_2"));
    assert!(outline(&s).is_empty());
    assert!(s.undo_at(t(2)).is_some());
    assert!(s.switch_workspace_by_name("One"));
    assert!(outline(&s).is_empty());
    assert!(s.redo_at(t(3)).is_some());
    assert_eq!(outline(&s), vec![(1, 0)]);
}

#[test]
fn a_child_is_recorded_with_its_parent() {
    let mut s = session();
    let a = s.add_todo_at("A".to_string(), t(1)).unwrap();
    assert_eq!(s.add_child_todo_at(a, "B".to_string(), t(2)), Some(2));
    assert_eq!(s.add_child_todo_at(9, "C".to_string(), t(3)), None);
    assert_eq!(outline(&s), vec![(1, 0), (2, 1)]);
    match s.undo_at(t(4)) {
        Some((Command::AddChildTodo { parent_id, child_todo, .. }, true)) => {
            assert_eq!(parent_id, 1);
            assert_eq!(child_todo.id, 2);
            assert_eq!(child_todo.parent_id, Some(1));
        },
        _ => panic!("the addition of B is undone"),
    }
    assert_eq!(outline(&s), vec![(1, 0)]);
    assert!(todo(&s, 1).children.is_empty());
}

#[test]
fn completion_is_toggled_and_undone() {
    let mut s = session();
    let a = s.add_todo_at("A".to_string(), t(1)).unwrap();
    assert_eq!(s.toggle_complete_at(a, t(2)), Some(TodoStatus::Completed));
    assert_eq!(todo(&s, a).completed_at, Some(t(2)));
    assert_eq!(s.toggle_complete_at(a, t(3)), Some(TodoStatus::Pending));
    assert_eq!(s.toggle_complete_at(9, t(3)), None);
    assert!(s.undo_at(t(4)).is_some());
    assert_eq!(todo(&s, a).status, TodoStatus::Completed);
    assert!(s.undo_at(t(5)).is_some());
    assert_eq!(todo(&s, a).status, TodoStatus::Pending);
    assert_eq!(todo(&s, a).completed_at, None);
}

#[test]
fn deletions_are_recorded_and_undone() {
    let mut s = session();
    let a = s.add_todo_at("A".to_string(), t(1)).unwrap();
    let b = s.add_child_todo_at(a, "B".to_string(), t(2)).unwrap();
    let c = s.add_child_todo_at(b, "C".to_string(), t(3)).unwrap();
    let d = s.add_todo_at("D".to_string(), t(4)).unwrap();
    assert!(s.delete_todo(d));
    assert!(!s.delete_todo(d));
    assert_eq!(outline(&s), vec![(a, 0), (b, 1), (c, 2)]);
    assert_eq!(s.delete_with_children(b), 2);
    assert_eq!(s.delete_with_children(b), 0);
    assert_eq!(outline(&s), vec![(a, 0)]);
    assert!(s.undo_at(t(5)).is_some());
    assert_eq!(outline(&s), vec![(a, 0), (b, 1), (c, 2)]);
    assert!(s.undo_at(t(6)).is_some());
    assert_eq!(outline(&s), vec![(a, 0), (b, 1), (c, 2), (d, 0)]);
}

#[test]
fn bulk_operations() {
    let mut s = session();
    for text in ["A", "B", "C", "D"] {
        s.add_todo_at(text.to_string(), t(1));
    }
    s.toggle_complete_at(2, t(2));
    assert_eq!(s.bulk_complete_todos_at(&vec![1, 2, 3, 9, 1], t(3)), 2);
    assert_eq!(todo(&s, 1).status, TodoStatus::Completed);
    assert_eq!(todo(&s, 2).completed_at, Some(t(2)));
    assert_eq!(todo(&s, 3).completed_at, Some(t(3)));
    assert_eq!(todo(&s, 4).status, TodoStatus::Pending);
    assert_eq!(s.bulk_set_priority(&vec![4, 9, 3], 9), 2);
    assert_eq!(todo(&s, 4).priority, 5);
    assert_eq!(todo(&s, 3).priority, 5);
    assert_eq!(todo(&s, 1).priority, 0);
    assert_eq!(s.bulk_delete_todos(&vec![2, 9, 4, 2]), 2);
    assert_eq!(outline(&s), vec![(3, 0), (1, 0)]);
    match s.undo_at(t(4)) {
        Some((Command::DeleteWithChildren { deleted_todos, .. }, true)) => {
            assert_eq!(deleted_todos.iter().map(|t| t.id).collect::<Vec<u32>>(), vec![2, 4]);
        },
        _ => panic!("the bulk deletion is undone"),
    }
    assert_eq!(outline(&s), vec![(3, 0), (4, 0), (1, 0), (2, 0)]);
    assert_eq!(s.bulk_delete_todos(&vec![77]), 0);
}

#[test]
fn priority_moves_in_steps_between_zero_and_five() {
    let mut s = session();
    let a = s.add_todo_at("A".to_string(), t(1)).unwrap();
    assert_eq!(s.decrease_priority(a), None);
    for expected in 1..=5u8 {
        assert_eq!(s.increase_priority(a), Some(expected));
    }
    assert_eq!(s.increase_priority(a), None);
    assert_eq!(s.decrease_priority(a), Some(4));
    assert_eq!(s.increase_priority(9), None);
    assert_eq!(s.decrease_priority(9), None);
    match s.undo_at(t(2)) {
        Some((Command::ChangePriority { todo_id, old_priority, .. }, true)) => {
            assert_eq!(todo_id, a);
            assert_eq!(old_priority, 5);
        },
        _ => panic!("the last step is undone"),
    }
    assert_eq!(todo(&s, a).priority, 5);
}

#[test]
fn an_edit_is_recorded_with_the_former_texts() {
    let mut s = session();
    let now = Timestamp::from_civil(2024, 3, 6, 10, 0, 0).unwrap();
    let a = s.add_todo_at("Old #tag due:2024-03-10".to_string(), now).unwrap();
    assert!(s.edit_todo_at(a, "New @ctx".to_string(), now));
    assert!(!s.edit_todo_at(9, "x".to_string(), now));
    assert_eq!(todo(&s, a).description, "New ctx");
    assert_eq!(todo(&s, a).due_date, None);
    match s.undo_at(now) {
        Some((Command::EditTodo { old_description, old_raw_description, .. }, true)) => {
            assert_eq!(old_description, "Old tag");
            assert_eq!(old_raw_description, "Old #tag due:2024-03-10");
        },
        _ => panic!("the edit is undone"),
    }
    assert_eq!(todo(&s, a).description, "Old tag");
    assert_eq!(todo(&s, a).tags, vec!["tag".to_string()]);
    assert_eq!(todo(&s, a).due_date, Timestamp::from_civil(2024, 3, 10, 23, 59, 59));
}

#[test]
fn changes_without_a_record() {
    let mut s = session();
    let a = s.add_todo_at("A".to_string(), t(1)).unwrap();
    let b = s.add_child_todo_at(a, "B".to_string(), t(2)).unwrap();
    assert!(s.set_notes(a, Some("n".to_string())));
    assert_eq!(todo(&s, a).notes, Some("n".to_string()));
    assert!(s.set_recurrence(a, RecurrencePattern::Weekly));
    assert_eq!(todo(&s, a).recurrence, RecurrencePattern::Weekly);
    assert!(!s.set_recurrence(9, RecurrencePattern::Weekly));
    assert_eq!(s.toggle_expansion(a), Some(false));
    assert_eq!(outline(&s), vec![(a, 0)]);
    assert_eq!(s.toggle_expansion(a), Some(true));
    assert_eq!(s.toggle_expansion(b), None);
    assert_eq!(s.toggle_timer_at(b, t(3)), Some(true));
    assert!(todo(&s, b).is_timer_running());
    assert_eq!(s.toggle_timer_at(b, t(63)), Some(false));
    assert_eq!(todo(&s, b).time_tracker.total_seconds, 60);
    let templates = TemplateManager::with_builtin_templates_at(t(0));
    let bug = templates.get_template("builtin-bug-report").unwrap();
    assert!(s.apply_template(b, bug));
    assert!(!s.apply_template(9, bug));
    assert_eq!(todo(&s, b).priority, 4);
    assert_eq!(todo(&s, b).tags, vec!["bug".to_string()]);
    assert_eq!(todo(&s, b).contexts, vec!["development".to_string()]);
    assert_eq!(todo(&s, b).template_id, Some("builtin-bug-report".to_string()));
    // Two additions are all that was recorded.
    assert!(s.undo_at(t(9)).is_some());
    assert!(s.undo_at(t(9)).is_some());
    assert!(s.undo_at(t(9)).is_none());
}

#[test]
fn recurring_tasks_are_processed_in_the_current_store() {
    let mut s = session();
    let now = Timestamp::from_civil(2024, 1, 10, 9, 0, 0).unwrap();
    let a = s.add_todo_at("Pay rent #bills due:2024-01-15".to_string(), now).unwrap();
    s.toggle_complete_at(a, now);
    s.set_recurrence(a, RecurrencePattern::Monthly);
    assert_eq!(s.update_recurring_todos_at(now), 1);
    assert_eq!(todo(&s, 2).due_date, Timestamp::from_civil(2024, 2, 15, 23, 59, 59));
    assert_eq!(todo(&s, a).status, TodoStatus::Completed);
}

#[test]
fn the_tasks_of_a_store_can_be_replaced() {
    let mut s = session();
    s.add_todo_at("A".to_string(), t(1));
    s.add_todo_at("B".to_string(), t(1));
    assert!(s.replace_todos_at(vec!["X #x".to_string(), "Y".to_string()], t(2)));
    assert_eq!(outline(&s), vec![(3, 0), (4, 0)]);
    assert_eq!(todo(&s, 3).description, "X x");
}

#[test]
fn workspaces_through_the_session() {
    let mut s = session();
    assert_eq!(s.ensure_workspace_at(t(0)), Some("ws_1".to_string()));
    assert!(!s.delete_workspace("ws_1"));
    assert_eq!(s.create_workspace_at("Two".to_string(), Some("d".to_string()), t(0)), Some("ws_2".to_string()));
    assert!(s.rename_workspace("ws_2", "Zwei".to_string()));
    assert!(!s.rename_workspace("ws_9", "x".to_string()));
    assert!(s.switch_workspace_by_name("Zwei"));
    assert!(!s.switch_workspace("ws_9"));
    assert!(s.delete_workspace("ws_2"));
    assert_eq!(s.workspace_manager().current_workspace, Some("ws_1".to_string()));
    assert_eq!(s.workspace_manager().entries.len(), 1);
    let mut empty = Session::new();
    assert_eq!(empty.ensure_workspace_at(t(0)), Some("ws_1".to_string()));
    assert_eq!(empty.workspace_manager().entries[0].workspace.name, "Personal");
}

#[test]
fn a_session_is_made_of_well_formed_parts_only() {
    let mut manager = WorkspaceManager::new();
    manager.create_workspace("A".to_string(), None);
    manager.get_current_todo_list_mut().unwrap().add_todo("x".to_string());
    assert!(Session::from_parts(manager, CommandHistory::new()).is_some());
    let mut bad = WorkspaceManager::new();
    bad.create_workspace("A".to_string(), None);
    {
        let list = bad.get_current_todo_list_mut().unwrap();
        list.add_todo("x".to_string());
        list.next_id = 1;
    }
    assert!(Session::from_parts(bad, CommandHistory::new()).is_none());
}
