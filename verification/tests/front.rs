use paperclip::front::{make_unique, App};
use paperclip::keys::{handle_event, priority_of_digit, KeyCode, KeyEvent, KeyModifiers};
use paperclip::modes::{AppMode, ViewMode};
use paperclip::time::Timestamp;
use paperclip::todo::{RecurrencePattern, TodoStatus};
use paperclip::workspace::WorkspaceManager;

fn now() -> Timestamp {
    Timestamp::from_civil(2024, 3, 6, 10, 0, 0).unwrap()
}

fn key(c: char) -> KeyEvent {
    KeyEvent::new(KeyCode::Char(c), KeyModifiers::Plain)
}

fn shift(c: char) -> KeyEvent {
    KeyEvent::new(KeyCode::Char(c), KeyModifiers::Shift)
}

fn control(c: char) -> KeyEvent {
    KeyEvent::new(KeyCode::Char(c), KeyModifiers::Control)
}

fn special(code: KeyCode) -> KeyEvent {
    KeyEvent::new(code, KeyModifiers::Plain)
}

fn type_text(app: &mut App, text: &str) {
    for c in text.chars() {
        handle_event(app, key(c));
    }
}

/// An app in normal mode in the workspace `Personal`.
fn started() -> App {
    let mut app = App::new_at(now());
    handle_event(&mut app, key('1'));
    handle_event(&mut app, special(KeyCode::Esc));
    assert_eq!(app.mode, AppMode::Normal);
    app
}

fn add(app: &mut App, text: &str) {
    handle_event(app, key('i'));
    type_text(app, text);
    handle_event(app, special(KeyCode::Enter));
}

fn rows(app: &App) -> Vec<(String, u32)> {
    app.get_visible_todos().iter().map(|(t, d)| (t.description.clone(), *d)).collect()
}

fn row(text: &str, depth: u32) -> (String, u32) {
    (text.to_string(), depth)
}

#[test]
fn the_app_starts_on_the_welcome_screen() {
    let app = App::new_at(now());
    assert_eq!(app.mode, AppMode::Welcome);
    assert!(app.is_first_launch);
    assert_eq!(app.view_mode, ViewMode::All);
    assert_eq!(app.message, Some("Select a workspace to get started".to_string()));
    assert_eq!(app.available_workspaces, vec!["Personal".to_string()]);
    assert_eq!(app.workspace_manager().entries.len(), 1);
    assert_eq!(
        app.workspace_manager().entries[0].workspace.description,
        Some("Your personal todos".to_string())
    );
    assert_eq!(app.get_current_workspace_name(), "Personal");
    assert_eq!(app.template_manager.templates.len(), 4);
    assert_eq!(app.available_recurrence.len(), 5);
    assert_eq!(app.get_welcome_options().len(), 5);
    assert_eq!(app.get_welcome_options()[0].0, "Get Started");
    assert!(!app.should_quit);
    let by_clock = App::new();
    assert_eq!(by_clock.mode, AppMode::Welcome);
}

#[test]
fn the_welcome_screen_leads_on() {
    let mut app = App::new_at(now());
    handle_event(&mut app, key('j'));
    handle_event(&mut app, special(KeyCode::Down));
    assert_eq!(app.welcome_selected, 2);
    handle_event(&mut app, key('k'));
    assert_eq!(app.welcome_selected, 1);
    for _ in 0..9 {
        handle_event(&mut app, key('j'));
    }
    assert_eq!(app.welcome_selected, 4);
    handle_event(&mut app, special(KeyCode::Enter));
    assert!(app.should_quit);

    let mut first = App::new_at(now());
    handle_event(&mut first, key('1'));
    assert_eq!(first.mode, AppMode::Insert);
    assert_eq!(first.message, Some("Welcome! Type your first todo and press Enter".to_string()));

    let mut browse = App::new_at(now());
    handle_event(&mut browse, key('2'));
    assert_eq!(browse.mode, AppMode::WorkspaceSelection);

    let mut learn = App::new_at(now());
    handle_event(&mut learn, key('3'));
    assert!(learn.show_help);
    // Any key closes the help and does nothing else.
    handle_event(&mut learn, key('q'));
    assert!(!learn.show_help);
    assert!(!learn.should_quit);

    let mut demo = App::new_at(now());
    handle_event(&mut demo, key('4'));
    assert_eq!(demo.mode, AppMode::Normal);
    assert_eq!(demo.get_visible_todos().len(), 9);
    assert_eq!(
        demo.get_visible_todos()[0].0.description,
        "Welcome to Paperclip! getting-started demo"
    );

    let mut leave = App::new_at(now());
    handle_event(&mut leave, control('c'));
    assert!(leave.should_quit);
}

#[test]
fn tasks_are_entered_and_shown() {
    let mut app = started();
    add(&mut app, "Buy #milk");
    assert_eq!(app.mode, AppMode::Normal);
    assert_eq!(app.message, Some("Todo added! Press 'u' to undo.".to_string()));
    add(&mut app, "   ");
    assert_eq!(rows(&app), vec![row("Buy milk", 0)]);
    handle_event(&mut app, key('a'));
    assert_eq!(app.mode, AppMode::InsertChild);
    assert_eq!(app.inserting_child_for, Some(1));
    type_text(&mut app, "Whole");
    handle_event(&mut app, special(KeyCode::Left));
    handle_event(&mut app, special(KeyCode::Backspace));
    handle_event(&mut app, special(KeyCode::Right));
    handle_event(&mut app, special(KeyCode::Enter));
    assert_eq!(app.message, Some("Child todo added!".to_string()));
    assert_eq!(rows(&app), vec![row("Buy milk", 0), row("Whoe", 1)]);
    assert_eq!(app.get_selected_todo_id(), Some(1));
    handle_event(&mut app, special(KeyCode::Enter));
    assert_eq!(app.message, Some("Todo collapsed".to_string()));
    assert_eq!(rows(&app), vec![row("Buy milk", 0)]);
    handle_event(&mut app, special(KeyCode::Enter));
    assert_eq!(app.message, Some("Todo expanded".to_string()));
    assert_eq!(rows(&app).len(), 2);
}

#[test]
fn the_selection_moves_within_the_rows() {
    let mut app = started();
    for text in ["a", "b", "c"] {
        add(&mut app, text);
    }
    handle_event(&mut app, key('j'));
    handle_event(&mut app, key('j'));
    handle_event(&mut app, key('j'));
    assert_eq!(app.selected, 2);
    handle_event(&mut app, key('k'));
    assert_eq!(app.selected, 1);
    handle_event(&mut app, key('g'));
    assert_eq!(app.selected, 0);
    handle_event(&mut app, key('k'));
    assert_eq!(app.selected, 0);
    handle_event(&mut app, shift('G'));
    assert_eq!(app.selected, 2);
    handle_event(&mut app, key('d'));
    assert_eq!(app.message, Some("Todo deleted!".to_string()));
    assert_eq!(app.selected, 1);
    assert_eq!(rows(&app), vec![row("a", 0), row("b", 0)]);
}

#[test]
fn completion_priority_and_undo() {
    let mut app = started();
    add(&mut app, "a");
    handle_event(&mut app, key(' '));
    assert_eq!(app.message, Some("Todo marked as completed. Press 'u' to undo.".to_string()));
    assert_eq!(app.get_visible_todos()[0].0.status, TodoStatus::Completed);
    handle_event(&mut app, key('u'));
    assert_eq!(app.message, Some("Undid: Toggle todo completion".to_string()));
    assert_eq!(app.get_visible_todos()[0].0.status, TodoStatus::Pending);
    handle_event(&mut app, control('r'));
    assert_eq!(app.message, Some("Redid: Toggle todo completion".to_string()));
    assert_eq!(app.get_visible_todos()[0].0.status, TodoStatus::Completed);
    handle_event(&mut app, key('+'));
    assert_eq!(app.message, Some("Priority increased to 1".to_string()));
    handle_event(&mut app, key('='));
    assert_eq!(app.message, Some("Priority increased to 2".to_string()));
    handle_event(&mut app, key('-'));
    assert_eq!(app.message, Some("Priority decreased to 1".to_string()));
    handle_event(&mut app, key('u'));
    assert_eq!(app.message, Some("Undid: Priority change (restored to 2)".to_string()));
    assert_eq!(app.get_visible_todos()[0].0.priority, 2);
    for _ in 0..5 {
        handle_event(&mut app, key('u'));
    }
    assert_eq!(app.message, Some("Nothing to undo".to_string()));
    assert!(app.get_visible_todos().is_empty());
    handle_event(&mut app, control('r'));
    assert_eq!(app.message, Some("Redid: Add todo 'a'".to_string()));
    for _ in 0..9 {
        handle_event(&mut app, control('r'));
    }
    assert_eq!(app.message, Some("Nothing to redo".to_string()));
}

#[test]
fn deleting_with_children_says_how_many() {
    let mut app = started();
    add(&mut app, "a");
    handle_event(&mut app, key('a'));
    type_text(&mut app, "b");
    handle_event(&mut app, special(KeyCode::Enter));
    handle_event(&mut app, key('a'));
    type_text(&mut app, "c");
    handle_event(&mut app, special(KeyCode::Enter));
    handle_event(&mut app, shift('D'));
    assert_eq!(app.message, Some("Todo and 2 children deleted!".to_string()));
    assert!(rows(&app).is_empty());
    handle_event(&mut app, key('u'));
    assert_eq!(app.message, Some("Undid: Delete 3 todos with children".to_string()));
    assert_eq!(rows(&app), vec![row("a", 0), row("b", 1), row("c", 1)]);
}

#[test]
fn views_and_filters() {
    let mut app = started();
    add(&mut app, "Mow #garden @home");
    add(&mut app, "Mail #office @work");
    handle_event(&mut app, key(' '));
    handle_event(&mut app, key('v'));
    assert_eq!(app.view_mode, ViewMode::Pending);
    assert_eq!(app.message, Some("Viewing pending todos".to_string()));
    assert_eq!(rows(&app), vec![row("Mail office work", 0)]);
    handle_event(&mut app, key('v'));
    assert_eq!(rows(&app), vec![row("Mow garden home", 0)]);
    handle_event(&mut app, key('v'));
    assert_eq!(app.view_mode, ViewMode::All);
    handle_event(&mut app, key('#'));
    assert_eq!(app.mode, AppMode::TagSelection);
    assert_eq!(app.available_tags, vec!["garden".to_string(), "office".to_string()]);
    handle_event(&mut app, key('j'));
    handle_event(&mut app, key('j'));
    assert_eq!(app.popup_selected, 1);
    handle_event(&mut app, special(KeyCode::Enter));
    assert_eq!(app.view_mode, ViewMode::FilterByTag("office".to_string()));
    assert_eq!(app.message, Some("Filtering by tag: #office".to_string()));
    assert_eq!(app.mode, AppMode::Normal);
    handle_event(&mut app, key('@'));
    assert_eq!(app.available_contexts, vec!["home".to_string(), "work".to_string()]);
    handle_event(&mut app, special(KeyCode::Esc));
    assert_eq!(app.mode, AppMode::Normal);
    assert!(app.available_contexts.is_empty());
    handle_event(&mut app, special(KeyCode::Esc));
    assert_eq!(app.view_mode, ViewMode::All);
    assert_eq!(app.message, Some("Filters cleared".to_string()));
    handle_event(&mut app, key('!'));
    assert_eq!(app.message, Some("Filtering by: overdue todos".to_string()));
    handle_event(&mut app, key('/'));
    assert_eq!(app.mode, AppMode::Search);
    type_text(&mut app, " MAIL ");
    handle_event(&mut app, special(KeyCode::Enter));
    assert_eq!(app.view_mode, ViewMode::Search("MAIL".to_string()));
    assert_eq!(app.message, Some("Searching for:  MAIL ".to_string()));
    assert_eq!(rows(&app), vec![row("Mail office work", 0)]);
    handle_event(&mut app, key('/'));
    handle_event(&mut app, special(KeyCode::Enter));
    assert_eq!(app.view_mode, ViewMode::All);
}

#[test]
fn a_store_without_labels_offers_no_picker() {
    let mut app = started();
    handle_event(&mut app, key('#'));
    assert_eq!(app.mode, AppMode::Normal);
    assert_eq!(app.message, Some("No tags found".to_string()));
    handle_event(&mut app, key('@'));
    assert_eq!(app.message, Some("No contexts found".to_string()));
}

#[test]
fn notes_are_edited_and_viewed() {
    let mut app = started();
    add(&mut app, "a");
    handle_event(&mut app, shift('V'));
    assert_eq!(app.message, Some("This todo has no notes".to_string()));
    handle_event(&mut app, key('n'));
    assert_eq!(app.mode, AppMode::EditNotes);
    type_text(&mut app, "line");
    handle_event(&mut app, special(KeyCode::Enter));
    type_text(&mut app, "two ");
    assert_eq!(app.notes_buffer.text(), "line\ntwo ");
    handle_event(&mut app, control('s'));
    assert_eq!(app.mode, AppMode::Normal);
    assert_eq!(app.message, Some("Notes saved".to_string()));
    assert_eq!(app.get_visible_todos()[0].0.notes, Some("line\ntwo".to_string()));
    handle_event(&mut app, shift('V'));
    assert_eq!(app.mode, AppMode::ViewNotes);
    assert_eq!(app.notes_buffer.text(), "line\ntwo");
    handle_event(&mut app, key('n'));
    assert_eq!(app.mode, AppMode::EditNotes);
    for _ in 0..8 {
        handle_event(&mut app, special(KeyCode::Backspace));
    }
    handle_event(&mut app, KeyEvent::new(KeyCode::F(2), KeyModifiers::Plain));
    assert_eq!(app.get_visible_todos()[0].0.notes, None);
}

#[test]
fn the_text_of_a_task_is_edited() {
    let mut app = started();
    add(&mut app, "Old #tag");
    handle_event(&mut app, key('e'));
    assert_eq!(app.mode, AppMode::EditTodo);
    assert_eq!(app.edit_buffer.text(), "Old #tag");
    for _ in 0..8 {
        handle_event(&mut app, special(KeyCode::Backspace));
    }
    handle_event(&mut app, special(KeyCode::Enter));
    assert_eq!(app.message, Some("Cannot save empty todo description".to_string()));
    assert_eq!(rows(&app), vec![row("Old tag", 0)]);
    handle_event(&mut app, key('e'));
    type_text(&mut app, "!");
    handle_event(&mut app, special(KeyCode::Enter));
    assert_eq!(app.message, Some("Todo updated".to_string()));
    assert_eq!(rows(&app), vec![row("Old tag!", 0)]);
    handle_event(&mut app, key('u'));
    assert_eq!(app.message, Some("Undid: Edit todo".to_string()));
    assert_eq!(rows(&app), vec![row("Old tag", 0)]);
}

#[test]
fn templates_and_recurrence_are_picked() {
    let mut app = started();
    add(&mut app, "a");
    handle_event(&mut app, shift('T'));
    assert_eq!(app.mode, AppMode::TemplateSelection);
    assert_eq!(
        app.available_templates,
        vec![
            "builtin-bug-report".to_string(),
            "builtin-meeting-notes".to_string(),
            "builtin-personal-task".to_string(),
            "builtin-work-task".to_string()
        ]
    );
    handle_event(&mut app, special(KeyCode::Enter));
    assert_eq!(app.message, Some("Applied template: Bug Report".to_string()));
    assert_eq!(app.get_visible_todos()[0].0.priority, 4);
    assert!(app.available_templates.is_empty());
    handle_event(&mut app, key('r'));
    assert_eq!(app.mode, AppMode::RecurrenceSelection);
    handle_event(&mut app, key('j'));
    handle_event(&mut app, key('j'));
    handle_event(&mut app, special(KeyCode::Enter));
    assert_eq!(app.message, Some("Recurrence set to: Weekly".to_string()));
    assert_eq!(app.get_visible_todos()[0].0.recurrence, RecurrencePattern::Weekly);
    handle_event(&mut app, key('r'));
    for _ in 0..9 {
        handle_event(&mut app, key('j'));
    }
    assert_eq!(app.popup_selected, 4);
    handle_event(&mut app, key('k'));
    assert_eq!(app.popup_selected, 3);
}

#[test]
fn the_timer_is_toggled() {
    let mut app = started();
    add(&mut app, "a");
    handle_event(&mut app, key('t'));
    assert_eq!(app.message, Some("Timer started".to_string()));
    app.tick(Timestamp::new(now().secs + 90, 0));
    handle_event(&mut app, key('t'));
    assert_eq!(app.message, Some("Timer stopped".to_string()));
    assert_eq!(app.get_visible_todos()[0].0.time_tracker.total_seconds, 90);
}

#[test]
fn bulk_operations_in_visual_mode() {
    let mut app = started();
    for text in ["a", "b", "c", "d"] {
        add(&mut app, text);
    }
    app.enter_visual_mode();
    assert_eq!(app.mode, AppMode::Visual);
    assert_eq!(app.selected_todos, vec![1]);
    handle_event(&mut app, key('j'));
    handle_event(&mut app, key('j'));
    assert_eq!(app.selected_todos, vec![1, 2, 3]);
    handle_event(&mut app, key('k'));
    assert_eq!(app.selected_todos, vec![1, 2]);
    handle_event(&mut app, key(' '));
    assert_eq!(app.selected_todos, vec![1]);
    handle_event(&mut app, key(' '));
    assert_eq!(app.selected_todos, vec![1, 2]);
    handle_event(&mut app, key('3'));
    assert_eq!(app.message, Some("Set priority to 3 for 2 todos".to_string()));
    assert_eq!(app.mode, AppMode::Normal);
    assert!(app.selected_todos.is_empty());
    assert_eq!(rows(&app), vec![row("a", 0), row("b", 0), row("c", 0), row("d", 0)]);
    app.enter_visual_mode();
    handle_event(&mut app, key('c'));
    assert_eq!(app.message, Some("Bulk completed 1 todos".to_string()));
    handle_event(&mut app, key('c'));
    app.go_to_bottom();
    app.enter_visual_mode();
    handle_event(&mut app, key('k'));
    handle_event(&mut app, key('d'));
    assert_eq!(app.message, Some("Bulk deleted 2 todos. Press 'u' to undo.".to_string()));
    assert_eq!(rows(&app), vec![row("a", 0), row("b", 0)]);
    assert_eq!(app.selected, 1);
    app.bulk_complete_todos();
    assert_eq!(app.message, Some("No todos selected for bulk operation".to_string()));
    handle_event(&mut app, key('u'));
    assert_eq!(rows(&app).len(), 4);
    app.mode = AppMode::BulkOperation;
    handle_event(&mut app, special(KeyCode::Esc));
    assert_eq!(app.mode, AppMode::Normal);
}

#[test]
fn workspaces_are_made_switched_and_deleted() {
    let mut app = started();
    add(&mut app, "in personal");
    handle_event(&mut app, key('w'));
    assert_eq!(app.mode, AppMode::WorkspaceSelection);
    handle_event(&mut app, key('d'));
    assert_eq!(app.message, Some("Cannot delete the Home option".to_string()));
    handle_event(&mut app, key('j'));
    handle_event(&mut app, key('d'));
    assert_eq!(app.message, Some("Cannot delete the last remaining workspace".to_string()));
    assert_eq!(app.workspace_manager().entries.len(), 1);
    handle_event(&mut app, key('n'));
    assert_eq!(app.mode, AppMode::CreateWorkspace);
    handle_event(&mut app, special(KeyCode::Enter));
    assert_eq!(app.message, Some("Workspace name cannot be empty".to_string()));
    type_text(&mut app, "Personal");
    handle_event(&mut app, special(KeyCode::Enter));
    assert_eq!(app.message, Some("Workspace with this name already exists".to_string()));
    for _ in 0..8 {
        handle_event(&mut app, special(KeyCode::Backspace));
    }
    type_text(&mut app, " Work ");
    handle_event(&mut app, special(KeyCode::Enter));
    assert_eq!(app.message, Some("Created and switched to workspace: Work".to_string()));
    assert_eq!(app.mode, AppMode::Normal);
    assert_eq!(app.get_current_workspace_name(), "Work");
    assert!(rows(&app).is_empty());
    handle_event(&mut app, key('w'));
    assert_eq!(app.available_workspaces, vec!["Personal".to_string(), "Work".to_string()]);
    handle_event(&mut app, key('j'));
    handle_event(&mut app, special(KeyCode::Enter));
    assert_eq!(app.message, Some("Switched to workspace: Personal".to_string()));
    assert_eq!(rows(&app), vec![row("in personal", 0)]);
    handle_event(&mut app, key('w'));
    handle_event(&mut app, key('j'));
    handle_event(&mut app, key('j'));
    handle_event(&mut app, key('d'));
    assert_eq!(app.message, Some("Deleted workspace: Work".to_string()));
    assert_eq!(app.available_workspaces, vec!["Personal".to_string()]);
    assert_eq!(app.popup_selected, 0);
    handle_event(&mut app, special(KeyCode::Enter));
    assert_eq!(app.mode, AppMode::Welcome);
    handle_event(&mut app, special(KeyCode::Esc));
    assert!(app.should_quit);
}

#[test]
fn workspaces_by_name_and_by_id() {
    let mut app = started();
    app.create_new_workspace("Other".to_string(), None);
    assert_eq!(app.message, Some("Created workspace: Other (ID: ws_2)".to_string()));
    app.delete_current_workspace();
    assert_eq!(app.message, Some("Cannot delete the last remaining workspace".to_string()));
    app.rename_current_workspace("New".to_string());
    assert_eq!(
        app.message,
        Some("Failed to rename workspace (name may already exist)".to_string())
    );
    app.cancel_workspace_creation();
    assert_eq!(app.mode, AppMode::WorkspaceSelection);
    assert_eq!(app.message, Some("Workspace creation cancelled".to_string()));
    handle_event(&mut app, control('h'));
    assert_eq!(app.mode, AppMode::WorkspaceSelection);
    app.mode = AppMode::Normal;
    handle_event(&mut app, control('h'));
    assert_eq!(app.mode, AppMode::Welcome);
}

#[test]
fn recurring_tasks_are_announced() {
    let mut app = started();
    add(&mut app, "Pay rent due:2024-03-05");
    handle_event(&mut app, key(' '));
    handle_event(&mut app, key('r'));
    handle_event(&mut app, key('j'));
    handle_event(&mut app, special(KeyCode::Enter));
    app.update_recurring_todos();
    assert_eq!(app.message, Some("Generated 1 recurring todos".to_string()));
    assert_eq!(rows(&app).len(), 2);
}

#[test]
fn loaded_workspaces_replace_the_session() {
    let mut app = App::new_at(now());
    let mut manager = WorkspaceManager::new();
    manager.create_workspace("Loaded".to_string(), None);
    manager.get_current_todo_list_mut().unwrap().add_todo("x".to_string());
    assert!(app.load_workspace_manager(manager));
    assert_eq!(app.get_current_workspace_name(), "Loaded");
    assert_eq!(rows(&app), vec![row("x", 0)]);
    let mut bad = WorkspaceManager::new();
    bad.create_workspace("A".to_string(), None);
    bad.create_workspace("B".to_string(), None);
    bad.entries[1].workspace.id = "ws_1".to_string();
    assert!(!app.load_workspace_manager(bad));
    assert_eq!(app.get_current_workspace_name(), "Loaded");
}

#[test]
fn keys_without_a_binding_do_nothing() {
    let mut app = started();
    add(&mut app, "a");
    handle_event(&mut app, key('z'));
    handle_event(&mut app, KeyEvent::new(KeyCode::Char('q'), KeyModifiers::Other));
    handle_event(&mut app, special(KeyCode::Other));
    handle_event(&mut app, shift('q'));
    assert!(!app.should_quit);
    assert_eq!(app.mode, AppMode::Normal);
    assert_eq!(app.message, None);
    handle_event(&mut app, key('?'));
    assert!(app.show_help);
    handle_event(&mut app, key('x'));
    handle_event(&mut app, key('q'));
    assert!(app.should_quit);
}

#[test]
fn digits_and_unique_ids() {
    assert_eq!(priority_of_digit('0'), Some(0));
    assert_eq!(priority_of_digit('5'), Some(5));
    assert_eq!(priority_of_digit('6'), None);
    assert_eq!(priority_of_digit('a'), None);
    assert_eq!(make_unique(&vec![3, 1, 3, 2, 1]), vec![3, 1, 2]);
}
