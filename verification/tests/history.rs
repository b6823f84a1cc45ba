use paperclip::history::{Command, CommandHistory};
use paperclip::todo::TodoStatus;

fn priority(id: u32, old: u8) -> Command {
    Command::ChangePriority { workspace_id: "ws_1".to_string(), todo_id: id, old_priority: old }
}

fn id_of(command: &Option<Command>) -> Option<u32> {
    match command {
        Some(Command::ChangePriority { todo_id, .. }) => Some(*todo_id),
        Some(_) => panic!("another kind of command"),
        None => None,
    }
}

#[test]
fn a_new_history_has_nothing_to_undo_or_redo() {
    let mut history = CommandHistory::new();
    assert!(!history.can_undo());
    assert!(!history.can_redo());
    assert!(history.undo().is_none());
    assert!(history.redo().is_none());
}

#[test]
fn undo_then_redo_gives_the_last_command_both_times() {
    let mut history = CommandHistory::new();
    history.push_command(priority(1, 0));
    history.push_command(priority(2, 0));
    assert_eq!(id_of(&history.undo()), Some(2));
    assert!(history.can_redo());
    assert_eq!(id_of(&history.redo()), Some(2));
    assert!(!history.can_redo());
    assert_eq!(id_of(&history.undo()), Some(2));
    assert_eq!(id_of(&history.undo()), Some(1));
    assert_eq!(id_of(&history.undo()), None);
    assert_eq!(id_of(&history.redo()), Some(1));
    assert_eq!(id_of(&history.redo()), Some(2));
    assert_eq!(id_of(&history.redo()), None);
}

#[test]
fn a_new_command_leaves_nothing_to_redo() {
    let mut history = CommandHistory::new();
    history.push_command(priority(1, 0));
    history.push_command(priority(2, 0));
    assert_eq!(id_of(&history.undo()), Some(2));
    history.push_command(priority(3, 0));
    assert!(!history.can_redo());
    assert_eq!(id_of(&history.redo()), None);
    assert_eq!(id_of(&history.undo()), Some(3));
    assert_eq!(id_of(&history.undo()), Some(1));
}

#[test]
fn the_history_keeps_fifty_commands() {
    let mut history = CommandHistory::new();
    for i in 1..=60u32 {
        history.push_command(priority(i, 0));
    }
    let mut seen = Vec::new();
    loop {
        match id_of(&history.undo()) {
            Some(id) => seen.push(id),
            None => break,
        }
    }
    assert_eq!(seen.len(), 50);
    assert_eq!(seen[0], 60);
    assert_eq!(seen[49], 11);
}

#[test]
fn a_copy_of_a_command_holds_the_same() {
    let command = Command::CompleteTodo {
        workspace_id: "ws_2".to_string(),
        todo_id: 5,
        old_status: TodoStatus::InProgress,
    };
    assert_eq!(command.workspace_id(), "ws_2");
    match command.clone() {
        Command::CompleteTodo { workspace_id, todo_id, old_status } => {
            assert_eq!(workspace_id, "ws_2");
            assert_eq!(todo_id, 5);
            assert_eq!(old_status, TodoStatus::InProgress);
        },
        _ => panic!("another kind of command"),
    }
}
