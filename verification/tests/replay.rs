use paperclip::history::Command;
use paperclip::store::TodoList;
use paperclip::time::Timestamp;
use paperclip::todo::{Todo, TodoStatus};
use paperclip::workspace::WorkspaceManager;

fn t(s: i64) -> Timestamp {
    Timestamp::new(s, 0)
}

fn ws() -> String {
    "ws_1".to_string()
}

/// Two workspaces; the first holds A: 1 with children B: 2 (child D: 4) and
/// C: 3, and the root E: 5. The second is current.
fn manager() -> WorkspaceManager {
    let mut manager = WorkspaceManager::new();
    manager.create_workspace("One".to_string(), None);
    manager.create_workspace("Two".to_string(), None);
    {
        let list = manager.get_todo_list_mut("ws_1").unwrap();
        let a = list.add_todo_at("A".to_string(), t(1));
        let b = list.add_child_todo_at(a, "B".to_string(), t(2)).unwrap();
        list.add_child_todo_at(a, "C".to_string(), t(3));
        list.add_child_todo_at(b, "D".to_string(), t(4));
        list.add_todo_at("E".to_string(), t(5));
    }
    manager.switch_workspace("ws_2");
    manager
}

fn list(manager: &WorkspaceManager) -> &TodoList {
    &manager.entries[0].todos
}

fn outline(manager: &WorkspaceManager) -> Vec<(u32, u32)> {
    list(manager).get_flattened_todos().iter().map(|(t, d)| (t.id, *d)).collect()
}

#[test]
fn a_command_goes_to_its_own_workspace() {
    let mut m = manager();
    let todo = list(&m).get_todo(5).unwrap().clone();
    let command = Command::AddTodo { workspace_id: ws(), todo };
    assert!(m.execute_undo_command_at(&command, t(9)));
    assert!(list(&m).get_todo(5).is_none());
    assert_eq!(m.entries[1].todos.total_count(), 0);
    assert_eq!(m.current_workspace, Some("ws_2".to_string()));
}

#[test]
fn a_command_of_a_missing_workspace_changes_nothing() {
    let mut m = manager();
    let todo = list(&m).get_todo(5).unwrap().clone();
    let command = Command::AddTodo { workspace_id: "ws_9".to_string(), todo };
    assert!(!m.execute_undo_command_at(&command, t(9)));
    assert!(!m.execute_redo_command_at(&command, t(9)));
    assert!(!m.execute_undo_command(&command));
    assert!(!m.execute_redo_command(&command));
    assert_eq!(list(&m).total_count(), 5);
}

#[test]
fn an_addition_is_undone_by_removal_and_redone_by_insertion() {
    let mut m = manager();
    let todo = list(&m).get_todo(5).unwrap().clone();
    let command = Command::AddTodo { workspace_id: ws(), todo };
    assert!(m.execute_undo_command(&command));
    assert_eq!(outline(&m), vec![(1, 0), (2, 1), (4, 2), (3, 1)]);
    assert!(m.execute_redo_command(&command));
    assert_eq!(outline(&m), vec![(1, 0), (2, 1), (4, 2), (3, 1), (5, 0)]);
    assert_eq!(list(&m).get_todo(5).unwrap().description, "E");
    assert_eq!(list(&m).next_id, 6);
    assert!(list(&m).is_well_formed());
}

#[test]
fn a_deletion_is_undone_with_the_link_from_the_parent() {
    let mut m = manager();
    let gone = m.get_todo_list_mut("ws_1").unwrap().remove_todo(3).unwrap();
    assert_eq!(list(&m).get_todo(1).unwrap().children, vec![2]);
    let command = Command::DeleteTodo { workspace_id: ws(), todo: gone };
    assert!(m.execute_undo_command_at(&command, t(9)));
    assert_eq!(list(&m).get_todo(1).unwrap().children, vec![2, 3]);
    assert_eq!(list(&m).get_todo(3).unwrap().parent_id, Some(1));
    assert_eq!(outline(&m), vec![(1, 0), (2, 1), (4, 2), (3, 1), (5, 0)]);
    // Undoing it twice lists the child once.
    assert!(m.execute_undo_command_at(&command, t(9)));
    assert_eq!(list(&m).get_todo(1).unwrap().children, vec![2, 3]);
    assert_eq!(list(&m).total_count(), 5);
    assert!(m.execute_redo_command_at(&command, t(9)));
    assert!(list(&m).get_todo(3).is_none());
    assert_eq!(list(&m).get_todo(1).unwrap().children, vec![2]);
}

#[test]
fn a_deleted_subtree_comes_back_with_every_link() {
    let mut m = manager();
    let gone = m.get_todo_list_mut("ws_1").unwrap().remove_todo_and_children(1);
    assert_eq!(gone.len(), 4);
    assert_eq!(outline(&m), vec![(5, 0)]);
    let command = Command::DeleteWithChildren { workspace_id: ws(), deleted_todos: gone };
    assert!(m.execute_undo_command_at(&command, t(9)));
    assert_eq!(outline(&m), vec![(1, 0), (2, 1), (4, 2), (3, 1), (5, 0)]);
    assert_eq!(list(&m).get_todo(1).unwrap().children, vec![2, 3]);
    assert_eq!(list(&m).get_todo(2).unwrap().children, vec![4]);
    assert_eq!(list(&m).get_todo(4).unwrap().parent_id, Some(2));
    assert!(list(&m).is_well_formed());
    assert!(!m.execute_redo_command_at(&command, t(9)));
    assert_eq!(list(&m).total_count(), 5);
}

#[test]
fn a_deleted_branch_is_listed_again_by_the_parent_that_stayed() {
    let mut m = manager();
    let gone = m.get_todo_list_mut("ws_1").unwrap().remove_todo_and_children(2);
    assert_eq!(list(&m).get_todo(1).unwrap().children, vec![3]);
    let command = Command::DeleteWithChildren { workspace_id: ws(), deleted_todos: gone };
    assert!(m.execute_undo_command_at(&command, t(9)));
    assert_eq!(list(&m).get_todo(1).unwrap().children, vec![3, 2]);
    assert_eq!(list(&m).get_todo(2).unwrap().children, vec![4]);
    assert_eq!(outline(&m), vec![(1, 0), (2, 1), (4, 2), (3, 1), (5, 0)]);
}

#[test]
fn a_completion_is_undone_by_the_former_status() {
    let mut m = manager();
    m.get_todo_list_mut("ws_1").unwrap().toggle_complete_at(2, t(7));
    assert_eq!(list(&m).get_todo(2).unwrap().status, TodoStatus::Completed);
    let command = Command::CompleteTodo {
        workspace_id: ws(),
        todo_id: 2,
        old_status: TodoStatus::Pending,
    };
    assert!(m.execute_undo_command_at(&command, t(9)));
    assert_eq!(list(&m).get_todo(2).unwrap().status, TodoStatus::Pending);
    assert_eq!(list(&m).get_todo(2).unwrap().completed_at, None);
    assert!(m.execute_redo_command_at(&command, t(11)));
    assert_eq!(list(&m).get_todo(2).unwrap().status, TodoStatus::Completed);
    assert_eq!(list(&m).get_todo(2).unwrap().completed_at, Some(t(11)));
    let back = Command::CompleteTodo {
        workspace_id: ws(),
        todo_id: 3,
        old_status: TodoStatus::Completed,
    };
    assert!(m.execute_undo_command_at(&back, t(12)));
    assert_eq!(list(&m).get_todo(3).unwrap().status, TodoStatus::Completed);
    assert_eq!(list(&m).get_todo(3).unwrap().completed_at, Some(t(12)));
    let in_progress = Command::CompleteTodo {
        workspace_id: ws(),
        todo_id: 3,
        old_status: TodoStatus::InProgress,
    };
    assert!(m.execute_undo_command_at(&in_progress, t(13)));
    assert_eq!(list(&m).get_todo(3).unwrap().status, TodoStatus::InProgress);
    assert_eq!(list(&m).get_todo(3).unwrap().completed_at, None);
}

#[test]
fn an_edit_is_undone_by_the_former_texts() {
    let mut m = manager();
    let now = Timestamp::from_civil(2024, 3, 6, 10, 0, 0).unwrap();
    {
        let list = m.get_todo_list_mut("ws_1").unwrap();
        list.update_description_at(5, "Old #tag due:2024-03-10".to_string(), now);
        list.update_description_at(5, "New @ctx".to_string(), now);
    }
    assert_eq!(list(&m).get_todo(5).unwrap().due_date, None);
    let command = Command::EditTodo {
        workspace_id: ws(),
        todo_id: 5,
        old_description: "Old tag".to_string(),
        old_raw_description: "Old #tag due:2024-03-10".to_string(),
    };
    assert!(m.execute_undo_command_at(&command, now));
    let todo = list(&m).get_todo(5).unwrap();
    assert_eq!(todo.description, "Old tag");
    assert_eq!(todo.raw_description, "Old #tag due:2024-03-10");
    assert_eq!(todo.tags, vec!["tag".to_string()]);
    assert!(todo.contexts.is_empty());
    assert_eq!(todo.due_date, Timestamp::from_civil(2024, 3, 10, 23, 59, 59));
    assert!(!m.execute_redo_command_at(&command, now));
}

#[test]
fn a_priority_is_undone_by_the_former_priority() {
    let mut m = manager();
    m.get_todo_list_mut("ws_1").unwrap().set_priority(5, 4);
    let command = Command::ChangePriority { workspace_id: ws(), todo_id: 5, old_priority: 1 };
    assert!(m.execute_undo_command_at(&command, t(9)));
    assert_eq!(list(&m).get_todo(5).unwrap().priority, 1);
    assert!(m.execute_redo_command_at(&command, t(9)));
    assert_eq!(list(&m).get_todo(5).unwrap().priority, 1);
    let wild = Command::ChangePriority { workspace_id: ws(), todo_id: 5, old_priority: 200 };
    assert!(m.execute_undo_command_at(&wild, t(9)));
    assert_eq!(list(&m).get_todo(5).unwrap().priority, 5);
}

#[test]
fn an_added_child_is_undone_by_removal() {
    let mut m = manager();
    let child = list(&m).get_todo(3).unwrap().clone();
    let command = Command::AddChildTodo { workspace_id: ws(), parent_id: 1, child_todo: child };
    assert!(m.execute_undo_command_at(&command, t(9)));
    assert!(list(&m).get_todo(3).is_none());
    assert_eq!(list(&m).get_todo(1).unwrap().children, vec![2]);
    assert!(!m.execute_redo_command_at(&command, t(9)));
    assert!(list(&m).get_todo(3).is_none());
}

#[test]
fn commands_on_tasks_that_are_gone_change_nothing() {
    let mut m = manager();
    let commands = vec![
        Command::CompleteTodo { workspace_id: ws(), todo_id: 77, old_status: TodoStatus::Pending },
        Command::ChangePriority { workspace_id: ws(), todo_id: 77, old_priority: 1 },
        Command::EditTodo {
            workspace_id: ws(),
            todo_id: 77,
            old_description: "a".to_string(),
            old_raw_description: "a".to_string(),
        },
    ];
    for command in &commands {
        assert!(m.execute_undo_command_at(command, t(9)));
        m.execute_redo_command_at(command, t(9));
    }
    assert_eq!(outline(&m), vec![(1, 0), (2, 1), (4, 2), (3, 1), (5, 0)]);
    assert_eq!(list(&m).total_count(), 5);
}

#[test]
fn inserting_keeps_the_counter_above_every_id() {
    let mut list = TodoList::new();
    list.insert(Todo::new_at(7, "seven".to_string(), t(1)));
    assert_eq!(list.next_id, 8);
    list.insert(Todo::new_at(3, "three".to_string(), t(1)));
    assert_eq!(list.next_id, 8);
    list.insert(Todo::new_at(7, "again".to_string(), t(1)));
    assert_eq!(list.total_count(), 2);
    assert_eq!(list.get_todo(7).unwrap().description, "again");
    list.insert(Todo::new_at(u32::MAX, "too far".to_string(), t(1)));
    assert_eq!(list.total_count(), 2);
    assert!(list.is_well_formed());
}

#[test]
fn attaching_and_striking_children() {
    let mut list = TodoList::new();
    let a = list.add_todo_at("A".to_string(), t(1));
    list.attach(a, 9);
    list.attach(a, 9);
    list.attach(a, 8);
    assert_eq!(list.get_todo(a).unwrap().children, vec![9, 8]);
    list.attach(42, 9);
    list.strike_child(a, 9);
    assert_eq!(list.get_todo(a).unwrap().children, vec![8]);
    list.strike_child(a, 9);
    list.strike_child(42, 8);
    assert_eq!(list.get_todo(a).unwrap().children, vec![8]);
}
