//! What the keys do: for each mode of the front end, the operation that a
//! key is bound to.
//!
//! A key event is a plain value, a key and the modifiers held with it. The
//! program that reads the keyboard turns what it reads into such values
//! and hands them to [`handle_event`].

use crate::front::{App, AppView};
use crate::modes::AppMode;
use vstd::prelude::*;

verus! {

/// A key of the keyboard.
#[derive(Debug, Clone, Copy, PartialEq, Eq, Structural)]
pub enum KeyCode {
    /// A key that types a character.
    Char(char),
    Enter,
    Esc,
    Backspace,
    Left,
    Right,
    Up,
    Down,
    /// A function key, by its number.
    F(u8),
    /// Any other key.
    Other,
}

/// The modifier keys held with a key.
#[derive(Debug, Clone, Copy, PartialEq, Eq, Structural)]
pub enum KeyModifiers {
    /// No modifier.
    Plain,
    /// Shift, and no other.
    Shift,
    /// Control, and no other.
    Control,
    /// Any other modifier or combination.
    Other,
}

/// A key pressed with modifiers.
#[derive(Debug, Clone, Copy, PartialEq, Eq, Structural)]
pub struct KeyEvent {
    pub code: KeyCode,
    pub modifiers: KeyModifiers,
}

/// The priority that a digit key from 0 to 5 stands for.
pub open spec fn digit_priority(c: char) -> Option<u8> {
    if c == '0' {
        Some(0u8)
    } else if c == '1' {
        Some(1u8)
    } else if c == '2' {
        Some(2u8)
    } else if c == '3' {
        Some(3u8)
    } else if c == '4' {
        Some(4u8)
    } else if c == '5' {
        Some(5u8)
    } else {
        None
    }
}

/// The priority that a digit key from 0 to 5 stands for.
pub fn priority_of_digit(c: char) -> (priority: Option<u8>)
    ensures
        priority == digit_priority(c),
{
    if c == '0' {
        Some(0)
    } else if c == '1' {
        Some(1)
    } else if c == '2' {
        Some(2)
    } else if c == '3' {
        Some(3)
    } else if c == '4' {
        Some(4)
    } else if c == '5' {
        Some(5)
    } else {
        None
    }
}

impl KeyEvent {
    /// Whether the key types a character: it is a character key pressed
    /// alone or with shift.
    pub open spec fn types(self) -> bool {
        self.code is Char && (self.modifiers == KeyModifiers::Plain || self.modifiers
            == KeyModifiers::Shift)
    }

    /// A key event of a key and the modifiers held with it.
    pub fn new(code: KeyCode, modifiers: KeyModifiers) -> (key: KeyEvent)
        ensures
            key.code == code,
            key.modifiers == modifiers,
    {
        KeyEvent { code, modifiers }
    }
}

impl AppView {
    /// The state after a key in normal mode.
    pub open spec fn normal_key(self, key: KeyEvent) -> AppView {
        match key.code {
            KeyCode::Esc => self.clear_filters(),
            KeyCode::Down => self.move_selection_down(),
            KeyCode::Up => self.move_selection_up(),
            KeyCode::Enter => self.expansion_toggled(),
            KeyCode::Char(c) => match key.modifiers {
                KeyModifiers::Plain => if c == 'q' {
                    self.quit()
                } else if c == '?' {
                    self.toggle_help()
                } else if c == 'j' {
                    self.move_selection_down()
                } else if c == 'k' {
                    self.move_selection_up()
                } else if c == 'g' {
                    self.go_to_top()
                } else if c == 'i' {
                    self.enter_insert_mode()
                } else if c == ' ' {
                    self.completion_toggled()
                } else if c == 'd' {
                    self.selected_deleted()
                } else if c == 'v' {
                    self.cycle_view_mode()
                } else if c == '+' || c == '=' {
                    self.priority_stepped(true)
                } else if c == '-' {
                    self.priority_stepped(false)
                } else if c == 'a' {
                    self.add_child_todo()
                } else if c == '/' {
                    self.enter_search_mode()
                } else if c == '#' {
                    self.labels_offered(true)
                } else if c == '@' {
                    self.labels_offered(false)
                } else if c == '!' {
                    self.cycle_due_date_filter()
                } else if c == 't' {
                    self.timer_toggled()
                } else if c == 'n' {
                    self.notes_taken_up()
                } else if c == 'e' {
                    self.edit_taken_up()
                } else if c == 'r' {
                    self.enter_recurrence_selection()
                } else if c == 'w' {
                    self.workspaces_offered()
                } else if c == 'u' {
                    self.undone()
                } else {
                    self
                },
                KeyModifiers::Shift => if c == 'G' {
                    self.go_to_bottom()
                } else if c == 'V' {
                    self.notes_shown()
                } else if c == 'D' {
                    self.selected_subtree_deleted()
                } else if c == 'T' {
                    self.templates_offered()
                } else {
                    self
                },
                KeyModifiers::Control => if c == 'h' {
                    self.welcomed()
                } else if c == 'r' {
                    self.redone()
                } else {
                    self
                },
                KeyModifiers::Other => self,
            },
            _ => self,
        }
    }

    /// The state after a key in a mode in which a task is entered.
    pub open spec fn insert_key(self, key: KeyEvent) -> AppView {
        match key.code {
            KeyCode::Enter => self.input_entered().in_normal_mode(),
            KeyCode::Esc => self.in_normal_mode(),
            KeyCode::Backspace => self.remove_char_from_input(),
            KeyCode::Left => self.move_input_cursor_left(),
            KeyCode::Right => self.move_input_cursor_right(),
            KeyCode::Char(c) => if key.types() {
                self.add_char_to_input(c)
            } else {
                self
            },
            _ => self,
        }
    }

    /// The state after a key in a picker.
    pub open spec fn popup_key(self, key: KeyEvent) -> AppView {
        match key.code {
            KeyCode::Enter => self.popup_taken(),
            KeyCode::Esc => self.popup_cancelled(),
            KeyCode::Down => self.move_popup_selection_down(),
            KeyCode::Up => self.move_popup_selection_up(),
            KeyCode::Char(c) => if key.modifiers == KeyModifiers::Plain {
                if c == 'j' {
                    self.move_popup_selection_down()
                } else if c == 'k' {
                    self.move_popup_selection_up()
                } else if c == 'n' && self.mode == AppMode::WorkspaceSelection {
                    self.workspace_asked()
                } else if c == 'd' && self.mode == AppMode::WorkspaceSelection {
                    self.selected_workspace_deleted()
                } else {
                    self
                }
            } else {
                self
            },
            _ => self,
        }
    }

    /// The state after a key in search mode.
    pub open spec fn search_key(self, key: KeyEvent) -> AppView {
        match key.code {
            KeyCode::Enter => self.search_entered(),
            KeyCode::Esc => self.in_normal_mode(),
            KeyCode::Backspace => self.remove_char_from_search(),
            KeyCode::Left => self.move_search_cursor_left(),
            KeyCode::Right => self.move_search_cursor_right(),
            KeyCode::Char(c) => if key.types() {
                self.add_char_to_search(c)
            } else {
                self
            },
            _ => self,
        }
    }

    /// The state after a key in the mode in which the text of a task is
    /// edited.
    pub open spec fn edit_key(self, key: KeyEvent) -> AppView {
        match key.code {
            KeyCode::Enter => if key.modifiers == KeyModifiers::Plain {
                self.edit_saved()
            } else {
                self
            },
            KeyCode::Esc => self.edit_closed(),
            KeyCode::Backspace => self.remove_char_from_edit(),
            KeyCode::Left => self.move_edit_cursor_left(),
            KeyCode::Right => self.move_edit_cursor_right(),
            KeyCode::Char(c) => if key.types() {
                self.add_char_to_edit(c)
            } else {
                self
            },
            _ => self,
        }
    }

    /// The state after a key in the mode in which notes are edited.
    pub open spec fn notes_key(self, key: KeyEvent) -> AppView {
        match key.code {
            KeyCode::Enter => if key.modifiers == KeyModifiers::Control {
                self.notes_saved()
            } else if key.modifiers == KeyModifiers::Plain {
                self.add_char_to_notes('\n')
            } else {
                self
            },
            KeyCode::F(n) => if n == 2 {
                self.notes_saved()
            } else {
                self
            },
            KeyCode::Esc => self.notes_closed(),
            KeyCode::Backspace => self.remove_char_from_notes(),
            KeyCode::Left => self.move_notes_cursor_left(),
            KeyCode::Right => self.move_notes_cursor_right(),
            KeyCode::Char(c) => if key.modifiers == KeyModifiers::Control && c == 's' {
                self.notes_saved()
            } else if key.types() {
                self.add_char_to_notes(c)
            } else {
                self
            },
            _ => self,
        }
    }

    /// The state after a key in the mode in which notes are looked at.
    pub open spec fn view_notes_key(self, key: KeyEvent) -> AppView {
        match key.code {
            KeyCode::Esc => self.notes_closed(),
            KeyCode::Char(c) => if key.modifiers == KeyModifiers::Plain && c == 'n' {
                AppView { mode: AppMode::EditNotes, ..self }
            } else {
                self
            },
            _ => self,
        }
    }

    /// The state after a key in visual mode.
    pub open spec fn visual_key(self, key: KeyEvent) -> AppView {
        match key.code {
            KeyCode::Esc => self.visual_closed(),
            KeyCode::Down => self.move_selection_down().select_range_in_visual(),
            KeyCode::Up => self.move_selection_up().select_range_in_visual(),
            KeyCode::Char(c) => if key.modifiers == KeyModifiers::Plain {
                if c == 'j' {
                    self.move_selection_down().select_range_in_visual()
                } else if c == 'k' {
                    self.move_selection_up().select_range_in_visual()
                } else if c == ' ' {
                    self.toggle_selection_in_visual()
                } else if c == 'c' {
                    self.bulk_completed()
                } else if c == 'd' {
                    self.bulk_deleted()
                } else {
                    match digit_priority(c) {
                        Some(priority) => self.bulk_prioritized(priority),
                        None => self,
                    }
                }
            } else {
                self
            },
            _ => self,
        }
    }

    /// The state after a key in the mode of a bulk operation.
    pub open spec fn bulk_operation_key(self, key: KeyEvent) -> AppView {
        match key.code {
            KeyCode::Esc => self.visual_closed(),
            _ => self,
        }
    }

    /// The state after a key on the welcome screen.
    pub open spec fn welcome_key(self, key: KeyEvent) -> AppView {
        match key.code {
            KeyCode::Up => self.move_welcome_selection_up(),
            KeyCode::Down => self.move_welcome_selection_down(),
            KeyCode::Enter => self.welcome_taken(),
            KeyCode::Esc => self.quit(),
            KeyCode::Char(c) => match key.modifiers {
                KeyModifiers::Plain => if c == 'k' {
                    self.move_welcome_selection_up()
                } else if c == 'j' {
                    self.move_welcome_selection_down()
                } else if c == '?' {
                    self.toggle_help()
                } else if c == '1' {
                    AppView { welcome_selected: 0, ..self }.welcome_taken()
                } else if c == '2' {
                    AppView { welcome_selected: 1, ..self }.welcome_taken()
                } else if c == '3' {
                    AppView { welcome_selected: 2, ..self }.welcome_taken()
                } else if c == '4' {
                    AppView { welcome_selected: 3, ..self }.welcome_taken()
                } else if c == 'q' {
                    self.quit()
                } else {
                    self
                },
                KeyModifiers::Control => if c == 'c' {
                    self.quit()
                } else {
                    self
                },
                _ => self,
            },
            _ => self,
        }
    }

    /// The state after a key in the mode in which a workspace is entered.
    pub open spec fn create_workspace_key(self, key: KeyEvent) -> AppView {
        match key.code {
            KeyCode::Enter => self.workspace_entered(),
            KeyCode::Esc => self.cancel_workspace_creation(),
            KeyCode::Backspace => self.remove_char_from_input(),
            KeyCode::Char(c) => if key.types() {
                self.add_char_to_input(c)
            } else {
                self
            },
            _ => self,
        }
    }

    /// The state after a key: the message goes; where the help is shown,
    /// any key hides it and does nothing else; else the key does what it
    /// is bound to in the mode.
    pub open spec fn handled(self, key: KeyEvent) -> AppView {
        let cleared = self.clear_message();
        if cleared.show_help {
            cleared.toggle_help()
        } else {
            match cleared.mode {
                AppMode::Welcome => cleared.welcome_key(key),
                AppMode::Normal => cleared.normal_key(key),
                AppMode::TimeTracking => cleared.normal_key(key),
                AppMode::Insert => cleared.insert_key(key),
                AppMode::InsertChild => cleared.insert_key(key),
                AppMode::EditTodo => cleared.edit_key(key),
                AppMode::Search => cleared.search_key(key),
                AppMode::TagSelection => cleared.popup_key(key),
                AppMode::ContextSelection => cleared.popup_key(key),
                AppMode::TemplateSelection => cleared.popup_key(key),
                AppMode::RecurrenceSelection => cleared.popup_key(key),
                AppMode::WorkspaceSelection => cleared.popup_key(key),
                AppMode::EditNotes => cleared.notes_key(key),
                AppMode::ViewNotes => cleared.view_notes_key(key),
                AppMode::CreateWorkspace => cleared.create_workspace_key(key),
                AppMode::Visual => cleared.visual_key(key),
                AppMode::BulkOperation => cleared.bulk_operation_key(key),
            }
        }
    }
}

/// Whether the key types a character.
fn types(key: &KeyEvent) -> (typing: bool)
    ensures
        typing == key.types(),
{
    match key.code {
        KeyCode::Char(_) => match key.modifiers {
            KeyModifiers::Plain => true,
            KeyModifiers::Shift => true,
            _ => false,
        },
        _ => false,
    }
}

impl App {
    /// Does what a key is bound to in normal mode.
    pub fn handle_normal_mode(&mut self, key: KeyEvent)
        ensures
            final(self)@ == old(self)@.normal_key(key),
    {
        match key.code {
            KeyCode::Esc => self.clear_filters(),
            KeyCode::Down => self.move_selection_down(),
            KeyCode::Up => self.move_selection_up(),
            KeyCode::Enter => self.toggle_expansion(),
            KeyCode::Char(c) => match key.modifiers {
                KeyModifiers::Plain => if c == 'q' {
                    self.quit()
                } else if c == '?' {
                    self.toggle_help()
                } else if c == 'j' {
                    self.move_selection_down()
                } else if c == 'k' {
                    self.move_selection_up()
                } else if c == 'g' {
                    self.go_to_top()
                } else if c == 'i' {
                    self.enter_insert_mode()
                } else if c == ' ' {
                    self.toggle_todo_complete()
                } else if c == 'd' {
                    self.delete_selected_todo()
                } else if c == 'v' {
                    self.cycle_view_mode()
                } else if c == '+' || c == '=' {
                    self.increase_priority()
                } else if c == '-' {
                    self.decrease_priority()
                } else if c == 'a' {
                    self.add_child_todo()
                } else if c == '/' {
                    self.enter_search_mode()
                } else if c == '#' {
                    self.enter_tag_selection()
                } else if c == '@' {
                    self.enter_context_selection()
                } else if c == '!' {
                    self.cycle_due_date_filter()
                } else if c == 't' {
                    self.toggle_timer()
                } else if c == 'n' {
                    self.enter_notes_mode()
                } else if c == 'e' {
                    self.enter_edit_mode()
                } else if c == 'r' {
                    self.enter_recurrence_selection()
                } else if c == 'w' {
                    self.enter_workspace_selection()
                } else if c == 'u' {
                    self.undo()
                },
                KeyModifiers::Shift => if c == 'G' {
                    self.go_to_bottom()
                } else if c == 'V' {
                    self.enter_view_notes_mode()
                } else if c == 'D' {
                    self.delete_selected_with_children()
                } else if c == 'T' {
                    self.enter_template_selection()
                },
                KeyModifiers::Control => if c == 'h' {
                    self.return_to_welcome()
                } else if c == 'r' {
                    self.redo()
                },
                KeyModifiers::Other => {},
            },
            _ => {},
        }
    }

    /// Does what a key is bound to while a task is entered.
    pub fn handle_insert_mode(&mut self, key: KeyEvent)
        ensures
            final(self)@ == old(self)@.insert_key(key),
    {
        match key.code {
            KeyCode::Enter => self.submit_input(),
            KeyCode::Esc => self.enter_normal_mode(),
            KeyCode::Backspace => self.remove_char_from_input(),
            KeyCode::Left => self.move_input_cursor_left(),
            KeyCode::Right => self.move_input_cursor_right(),
            KeyCode::Char(c) => if types(&key) {
                self.add_char_to_input(c)
            },
            _ => {},
        }
    }

    /// Does what a key is bound to in a picker.
    pub fn handle_popup_mode(&mut self, key: KeyEvent)
        ensures
            final(self)@ == old(self)@.popup_key(key),
    {
        match key.code {
            KeyCode::Enter => self.select_from_popup(),
            KeyCode::Esc => self.cancel_popup(),
            KeyCode::Down => self.move_popup_selection_down(),
            KeyCode::Up => self.move_popup_selection_up(),
            KeyCode::Char(c) => match key.modifiers {
                KeyModifiers::Plain => if c == 'j' {
                    self.move_popup_selection_down()
                } else if c == 'k' {
                    self.move_popup_selection_up()
                } else if c == 'n' && self.mode == AppMode::WorkspaceSelection {
                    self.enter_create_workspace_mode()
                } else if c == 'd' && self.mode == AppMode::WorkspaceSelection {
                    self.delete_selected_workspace()
                },
                _ => {},
            },
            _ => {},
        }
    }

    /// Does what a key is bound to in search mode.
    pub fn handle_search_mode(&mut self, key: KeyEvent)
        ensures
            final(self)@ == old(self)@.search_key(key),
    {
        match key.code {
            KeyCode::Enter => self.submit_search(),
            KeyCode::Esc => self.enter_normal_mode(),
            KeyCode::Backspace => self.remove_char_from_search(),
            KeyCode::Left => self.move_search_cursor_left(),
            KeyCode::Right => self.move_search_cursor_right(),
            KeyCode::Char(c) => if types(&key) {
                self.add_char_to_search(c)
            },
            _ => {},
        }
    }

    /// Does what a key is bound to while the text of a task is edited.
    pub fn handle_edit_mode(&mut self, key: KeyEvent)
        ensures
            final(self)@ == old(self)@.edit_key(key),
    {
        match key.code {
            KeyCode::Enter => match key.modifiers {
                KeyModifiers::Plain => self.save_todo_edit(),
                _ => {},
            },
            KeyCode::Esc => self.exit_edit_mode(),
            KeyCode::Backspace => self.remove_char_from_edit(),
            KeyCode::Left => self.move_edit_cursor_left(),
            KeyCode::Right => self.move_edit_cursor_right(),
            KeyCode::Char(c) => if types(&key) {
                self.add_char_to_edit(c)
            },
            _ => {},
        }
    }

    /// Does what a key is bound to while notes are edited.
    pub fn handle_notes_mode(&mut self, key: KeyEvent)
        ensures
            final(self)@ == old(self)@.notes_key(key),
    {
        match key.code {
            KeyCode::Enter => match key.modifiers {
                KeyModifiers::Control => self.save_notes(),
                KeyModifiers::Plain => self.add_char_to_notes('\n'),
                _ => {},
            },
            KeyCode::F(n) => if n == 2 {
                self.save_notes()
            },
            KeyCode::Esc => self.exit_notes_mode(),
            KeyCode::Backspace => self.remove_char_from_notes(),
            KeyCode::Left => self.move_notes_cursor_left(),
            KeyCode::Right => self.move_notes_cursor_right(),
            KeyCode::Char(c) => match key.modifiers {
                KeyModifiers::Control => if c == 's' {
                    self.save_notes()
                },
                KeyModifiers::Plain => self.add_char_to_notes(c),
                KeyModifiers::Shift => self.add_char_to_notes(c),
                KeyModifiers::Other => {},
            },
            _ => {},
        }
    }

    /// Does what a key is bound to while notes are looked at.
    pub fn handle_view_notes_mode(&mut self, key: KeyEvent)
        ensures
            final(self)@ == old(self)@.view_notes_key(key),
    {
        match key.code {
            KeyCode::Esc => self.exit_view_notes_mode(),
            KeyCode::Char(c) => match key.modifiers {
                KeyModifiers::Plain => if c == 'n' {
                    self.mode = AppMode::EditNotes;
                },
                _ => {},
            },
            _ => {},
        }
    }

    /// Does what a key is bound to in visual mode.
    pub fn handle_visual_mode(&mut self, key: KeyEvent)
        ensures
            final(self)@ == old(self)@.visual_key(key),
    {
        match key.code {
            KeyCode::Esc => self.exit_visual_mode(),
            KeyCode::Down => {
                self.move_selection_down();
                self.select_range_in_visual();
            },
            KeyCode::Up => {
                self.move_selection_up();
                self.select_range_in_visual();
            },
            KeyCode::Char(c) => match key.modifiers {
                KeyModifiers::Plain => if c == 'j' {
                    self.move_selection_down();
                    self.select_range_in_visual();
                } else if c == 'k' {
                    self.move_selection_up();
                    self.select_range_in_visual();
                } else if c == ' ' {
                    self.toggle_selection_in_visual()
                } else if c == 'c' {
                    self.bulk_complete_todos()
                } else if c == 'd' {
                    self.bulk_delete_todos()
                } else {
                    match priority_of_digit(c) {
                        Some(priority) => self.bulk_set_priority(priority),
                        None => {},
                    }
                },
                _ => {},
            },
            _ => {},
        }
    }

    /// Does what a key is bound to in the mode of a bulk operation.
    pub fn handle_bulk_operation_mode(&mut self, key: KeyEvent)
        ensures
            final(self)@ == old(self)@.bulk_operation_key(key),
    {
        match key.code {
            KeyCode::Esc => self.exit_visual_mode(),
            _ => {},
        }
    }

    /// Takes the row `row` of the welcome screen.
    fn take_welcome_row(&mut self, row: usize)
        ensures
            final(self)@ == (AppView { welcome_selected: row, ..old(self)@ }).welcome_taken(),
    {
        self.welcome_selected = row;
        self.select_welcome_option();
    }

    /// Does what a key is bound to on the welcome screen.
    pub fn handle_welcome_mode(&mut self, key: KeyEvent)
        ensures
            final(self)@ == old(self)@.welcome_key(key),
    {
        match key.code {
            KeyCode::Up => self.move_welcome_selection_up(),
            KeyCode::Down => self.move_welcome_selection_down(),
            KeyCode::Enter => self.select_welcome_option(),
            KeyCode::Esc => self.quit(),
            KeyCode::Char(c) => match key.modifiers {
                KeyModifiers::Plain => if c == 'k' {
                    self.move_welcome_selection_up()
                } else if c == 'j' {
                    self.move_welcome_selection_down()
                } else if c == '?' {
                    self.toggle_help()
                } else if c == '1' {
                    self.take_welcome_row(0)
                } else if c == '2' {
                    self.take_welcome_row(1)
                } else if c == '3' {
                    self.take_welcome_row(2)
                } else if c == '4' {
                    self.take_welcome_row(3)
                } else if c == 'q' {
                    self.quit()
                },
                KeyModifiers::Control => if c == 'c' {
                    self.quit()
                },
                _ => {},
            },
            _ => {},
        }
    }

    /// Does what a key is bound to while a workspace is entered.
    pub fn handle_create_workspace_mode(&mut self, key: KeyEvent)
        ensures
            final(self)@ == old(self)@.create_workspace_key(key),
    {
        match key.code {
            KeyCode::Enter => self.submit_workspace_creation(),
            KeyCode::Esc => self.cancel_workspace_creation(),
            KeyCode::Backspace => self.remove_char_from_input(),
            KeyCode::Char(c) => if types(&key) {
                self.add_char_to_input(c)
            },
            _ => {},
        }
    }
}

/// Takes a key: the message goes; where the help is shown, any key hides it
/// and does nothing else; else the key does what it is bound to in the
/// mode.
pub fn handle_event(app: &mut App, key: KeyEvent)
    ensures
        final(app)@ == old(app)@.handled(key),
{
    app.clear_message();
    if app.show_help {
        app.toggle_help();
        return ;
    }
    match app.mode {
        AppMode::Welcome => app.handle_welcome_mode(key),
        AppMode::Normal => app.handle_normal_mode(key),
        AppMode::TimeTracking => app.handle_normal_mode(key),
        AppMode::Insert => app.handle_insert_mode(key),
        AppMode::InsertChild => app.handle_insert_mode(key),
        AppMode::EditTodo => app.handle_edit_mode(key),
        AppMode::Search => app.handle_search_mode(key),
        AppMode::TagSelection => app.handle_popup_mode(key),
        AppMode::ContextSelection => app.handle_popup_mode(key),
        AppMode::TemplateSelection => app.handle_popup_mode(key),
        AppMode::RecurrenceSelection => app.handle_popup_mode(key),
        AppMode::WorkspaceSelection => app.handle_popup_mode(key),
        AppMode::EditNotes => app.handle_notes_mode(key),
        AppMode::ViewNotes => app.handle_view_notes_mode(key),
        AppMode::CreateWorkspace => app.handle_create_workspace_mode(key),
        AppMode::Visual => app.handle_visual_mode(key),
        AppMode::BulkOperation => app.handle_bulk_operation_mode(key),
    }
}

} // verus!
